use vstd::prelude::*;

use crate::constants::LEN_ASCON_KEY;

verus! {

// The deployment-secrets file of an earlier scheme kept per-channel secrets
// explicitly; the serialization lives outside the verified core.

/// The root secrets of a deployment together with the per-channel secrets.
pub struct Secrets {
    pub frame: Vec<u8>,
    pub subscription: Vec<u8>,
    pub channels: Vec<ChannelSecret>,
}

impl Secrets {
    pub open spec fn wf(&self) -> bool {
        &&& self.frame@.len() == LEN_ASCON_KEY
        &&& self.subscription@.len() == LEN_ASCON_KEY
        &&& forall|i: int|
            0 <= i < self.channels@.len() ==> (#[trigger] self.channels@[i]).secret@.len()
                == LEN_ASCON_KEY
    }
}

/// One channel's secret, keyed by the channel id.
pub struct ChannelSecret {
    pub id: u32,
    pub secret: Vec<u8>,
}

} // verus!
