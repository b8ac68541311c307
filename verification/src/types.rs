use vstd::prelude::*;

use crate::constants::{
    LEN_ASCON_KEY, LEN_BASE_CHANNEL_SECRET, LEN_BASE_SUBSCRIPTION_SECRET, LEN_CHANNEL_SECRET,
    LEN_ENCRYPTED_FRAME, LEN_ENCRYPTED_PICTURE, LEN_ENCRYPTED_SUBSCRIPTION, LEN_STANDARD_CHANNELS,
    MAX_LEN_PICTURE,
};

verus! {

/// Messages that the host sends to the decoder.
pub enum MessageToDecoder {
    ListSubscriptions,
    UpdateSubscription(EncryptedSubscription),
    DecodeFrame(EncryptedFrame),
}

/// Messages that the decoder can send to the host.
pub enum MessageFromDecoder {
    ListSubscriptions(SubscriptionInfoList),
    UpdateSubscription,
    DecodeFrame(SizedPicture),
    Error,
    Debug,
}

/// The deployment-wide secret from which channel secrets are derived.
pub struct BaseChannelSecret(pub Vec<u8>);

impl BaseChannelSecret {
    pub open spec fn wf(&self) -> bool {
        self.0@.len() == LEN_BASE_CHANNEL_SECRET
    }
}

/// The deployment-wide secret from which subscription keys are derived.
pub struct BaseSubscriptionSecret(pub Vec<u8>);

impl BaseSubscriptionSecret {
    pub open spec fn wf(&self) -> bool {
        self.0@.len() == LEN_BASE_SUBSCRIPTION_SECRET
    }
}

/// The Channel Secret which is given with a subscription.
pub struct ChannelSecret(pub Vec<u8>);

impl ChannelSecret {
    pub open spec fn wf(&self) -> bool {
        self.0@.len() == LEN_CHANNEL_SECRET
    }
}

/// The key under which encrypted frames arrive.
pub struct FrameKey(pub Vec<u8>);

impl FrameKey {
    pub open spec fn wf(&self) -> bool {
        self.0@.len() == LEN_ASCON_KEY
    }
}

/// The Picture Key which is derived with a particular frame to decrypt the picture.
pub struct PictureKey(pub Vec<u8>);

impl PictureKey {
    pub open spec fn wf(&self) -> bool {
        self.0@.len() == LEN_ASCON_KEY
    }
}

/// The Subscription Key which is derived for a particular device and used to
/// decrypt subscription updates.
pub struct SubscriptionKey(pub Vec<u8>);

impl SubscriptionKey {
    pub open spec fn wf(&self) -> bool {
        self.0@.len() == LEN_ASCON_KEY
    }
}

/// The three root secrets stamped into firmware at build time.
pub struct DeploymentSecrets {
    pub frame_key: FrameKey,
    pub base_channel_secret: BaseChannelSecret,
    pub base_subscription_secret: BaseSubscriptionSecret,
}

impl DeploymentSecrets {
    pub open spec fn wf(&self) -> bool {
        self.frame_key.wf() && self.base_channel_secret.wf() && self.base_subscription_secret.wf()
    }
}

/// The subscription update payload received from the host.
pub struct EncryptedSubscription(pub Vec<u8>);

impl EncryptedSubscription {
    pub open spec fn wf(&self) -> bool {
        self.0@.len() == LEN_ENCRYPTED_SUBSCRIPTION
    }
}

/// Public information about a subscription. Embedded within a StoredSubscription
/// and primarily used for serialization when communicating with the host.
#[derive(Copy, Clone, PartialEq, Eq, Structural, Debug)]
pub struct SubscriptionInfo {
    pub channel_id: u32,
    pub start: u64,
    pub end: u64,
}

/// All information about a subscription.
pub struct StoredSubscription {
    pub info: SubscriptionInfo,
    pub channel_secret: ChannelSecret,
}

impl StoredSubscription {
    pub open spec fn wf(&self) -> bool {
        self.channel_secret.wf()
    }
}

/// A dense list of the installed standard-channel subscriptions.
pub struct SubscriptionInfoList {
    pub num_sub_channels: u32,
    pub subscriptions: Vec<SubscriptionInfo>,
}

impl SubscriptionInfoList {
    pub open spec fn wf(&self) -> bool {
        self.num_sub_channels <= LEN_STANDARD_CHANNELS
            && self.subscriptions@.len() == LEN_STANDARD_CHANNELS
    }
}

/// A dense list of stored subscriptions, secrets included.
pub struct StoredSubscriptionList {
    pub num_sub_channels: u32,
    pub subscriptions: Vec<StoredSubscription>,
}

impl StoredSubscriptionList {
    pub open spec fn wf(&self) -> bool {
        self.num_sub_channels <= LEN_STANDARD_CHANNELS
            && self.subscriptions@.len() <= LEN_STANDARD_CHANNELS
            && forall|i: int|
                0 <= i < self.subscriptions@.len() ==> (#[trigger] self.subscriptions@[i]).wf()
    }
}

/// The frame payload received from the host.
pub struct EncryptedFrame(pub Vec<u8>);

impl EncryptedFrame {
    pub open spec fn wf(&self) -> bool {
        self.0@.len() == LEN_ENCRYPTED_FRAME
    }
}

/// Encrypted picture data, carried inside a DecryptedFrame object.
pub struct EncryptedPicture(pub Vec<u8>);

impl EncryptedPicture {
    pub open spec fn wf(&self) -> bool {
        self.0@.len() == LEN_ENCRYPTED_PICTURE
    }
}

/// A frame halfway through the decryption process: the picture is still
/// encrypted, but the channel ID, timestamp, and picture length are plain.
pub struct DecryptedFrame {
    pub channel_id: u32,
    pub timestamp: u64,
    pub picture_length: u8,
    pub encrypted_picture: EncryptedPicture,
}

impl DecryptedFrame {
    pub open spec fn wf(&self) -> bool {
        self.encrypted_picture.wf()
    }
}

/// The final decrypted picture buffer.
pub struct Picture(pub Vec<u8>);

impl Picture {
    pub open spec fn wf(&self) -> bool {
        self.0@.len() == MAX_LEN_PICTURE
    }
}

/// The decrypted picture and its length.
pub struct SizedPicture {
    pub picture_length: u8,
    pub picture: Picture,
}

impl SizedPicture {
    pub open spec fn wf(&self) -> bool {
        self.picture.wf() && self.picture_length <= MAX_LEN_PICTURE
    }
}

/// The monotonic timestamp state of a boot session.
pub struct Timestamp(pub u64);

} // verus!
