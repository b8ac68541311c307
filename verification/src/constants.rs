use vstd::prelude::*;

verus! {

// Primitive field widths
pub const LEN_CHANNEL_ID: usize = 4;
pub const LEN_TIMESTAMP: usize = 8;
pub const MAX_STANDARD_CHANNEL: u32 = 8;
pub const EMERGENCY_CHANNEL_ID: u32 = 0;

pub const LEN_RNG_SEED: usize = 64;

// Ascon constants
pub const LEN_ASCON_KEY: usize = 16;
pub const LEN_ASCON_NONCE: usize = 16;
pub const LEN_ASCON_TAG: usize = 16;
pub const LEN_ASCON_AEAD_OVERHEAD: usize = LEN_ASCON_NONCE + LEN_ASCON_TAG;

// Secrets constants
pub const LEN_BASE_CHANNEL_SECRET: usize = 32;
pub const LEN_BASE_SUBSCRIPTION_SECRET: usize = 32;
pub const LEN_CHANNEL_SECRET: usize = 32;

// Update subscription constants
pub const LEN_SUBSCRIPTION_INFO: usize = LEN_CHANNEL_ID + 2 * LEN_TIMESTAMP;
pub const LEN_STORED_SUBSCRIPTION: usize = LEN_SUBSCRIPTION_INFO + LEN_CHANNEL_SECRET;
pub const LEN_ENCRYPTED_SUBSCRIPTION: usize = LEN_STORED_SUBSCRIPTION + LEN_ASCON_AEAD_OVERHEAD;

// List subscription constants
pub const LEN_STANDARD_CHANNELS: usize = 8;
// The 4 accounts for the 32-bit count that the host tools expect up front.
pub const LEN_SUBSCRIPTION_INFO_LIST: usize = 4 + LEN_STANDARD_CHANNELS * LEN_SUBSCRIPTION_INFO;

// Frame and picture constants
pub const LEN_PICTURE_LEN: usize = 1;
pub const MAX_LEN_PICTURE: usize = 64;
pub const LEN_ENCRYPTED_PICTURE: usize = MAX_LEN_PICTURE + LEN_ASCON_AEAD_OVERHEAD;
pub const LEN_DECRYPTED_FRAME: usize = LEN_ENCRYPTED_PICTURE + LEN_CHANNEL_ID + LEN_TIMESTAMP
    + LEN_PICTURE_LEN;
pub const LEN_ENCRYPTED_FRAME: usize = LEN_DECRYPTED_FRAME + LEN_ASCON_AEAD_OVERHEAD;

// Subscription store layout: one slot per standard channel plus the
// emergency slot, each slot a flash page of which the first 128 bytes
// carry data rows interleaved with their bitwise complements.
pub const FLASH_MAGIC_SUBSCRIPTION: u8 = 0xA5;
pub const LEN_SLOT: usize = 128;
pub const NUM_SLOTS: usize = LEN_STANDARD_CHANNELS + 1;
pub const LEN_FLASH: usize = NUM_SLOTS * LEN_SLOT;

// Host link constants
pub const MAX_MESSAGE_SIZE: usize = 256;
pub const BLOCK_SIZE: usize = 256;

// CSPRNG reseed period, counted in emitted random words
pub const RESEED_COUNTER: u32 = 64;

} // verus!
