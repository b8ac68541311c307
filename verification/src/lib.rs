//! The firmware core of a conditional-access decoder for a satellite-TV
//! style broadcast: it authenticates and decrypts the frames of subscribed
//! channels, keeps a tamper-resistant subscription store in flash, and
//! speaks a length-prefixed, per-block acknowledged protocol with the host.
//!
//! The hardware underneath — the UART, the flash controller, the true
//! random generator and the timers — stays outside; the library works on
//! plain bytes and on an in-memory image of the subscription flash region.

pub mod ascon;
pub mod builder;
pub mod channels;
pub mod codec;
pub mod constants;
pub mod crypto;
pub mod decode;
pub mod dispatch;
pub mod encoder;
pub mod host_driver;
pub mod rng;
pub mod secrets;
pub mod subscription;
pub mod types;
