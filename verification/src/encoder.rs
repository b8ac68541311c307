use vstd::prelude::*;

use crate::ascon::{aead_open, encrypt_ascon};
use crate::codec::{
    encode_decrypted_frame, encode_stored_subscription, pad_picture, spec_frame_bytes,
    spec_padded_picture, spec_stored_sub_bytes,
};
use crate::constants::{
    LEN_ENCRYPTED_FRAME, LEN_ENCRYPTED_PICTURE, LEN_ENCRYPTED_SUBSCRIPTION, MAX_LEN_PICTURE,
    MAX_STANDARD_CHANNEL,
};
use crate::crypto::{
    derive_channel_secret, derive_picture_key, derive_subscription_key,
    spec_derive_channel_secret, spec_derive_picture_key, spec_derive_subscription_key,
    zeroize_bytes,
};
use crate::types::{
    DecryptedFrame, DeploymentSecrets, EncryptedPicture, StoredSubscription, SubscriptionInfo,
};

verus! {

/// Generate an encrypted subscription for a given device ID, time range, and
/// channel: the stored-subscription layout, carrying the channel secret
/// derived for the channel, sealed under the device's subscription key.
pub fn gen_subscription(
    secrets: &DeploymentSecrets,
    device_id: u32,
    start: u64,
    end: u64,
    channel: u32,
) -> (r: Vec<u8>)
    requires
        secrets.wf(),
        channel <= MAX_STANDARD_CHANNEL,
        start <= end,
    ensures
        r@.len() == LEN_ENCRYPTED_SUBSCRIPTION,
        aead_open(spec_derive_subscription_key(secrets.base_subscription_secret.0@, device_id), r@)
            == Some(
            spec_stored_sub_bytes(
                channel,
                start,
                end,
                spec_derive_channel_secret(secrets.base_channel_secret.0@, channel),
            ),
        ),
{
    // Derive the channel secret for the given channel.
    let channel_secret = derive_channel_secret(&secrets.base_channel_secret, channel);
    // Derive the subscription encryption key for the given decoder ID.
    let mut subscription_key = derive_subscription_key(&secrets.base_subscription_secret, device_id);

    // Encode the subscription.
    let stored_subscription = StoredSubscription {
        info: SubscriptionInfo { channel_id: channel, start, end },
        channel_secret,
    };
    let mut subscription_bytes = encode_stored_subscription(&stored_subscription);

    // Encrypt the subscription.
    let encrypted_subscription = encrypt_ascon(&subscription_bytes, &subscription_key.0);
    zeroize_bytes(&mut subscription_bytes);
    zeroize_bytes(&mut subscription_key.0);
    encrypted_subscription
}

/// Encoder for turning plaintext pictures into encrypted frames.
pub struct Encoder {
    pub secrets: DeploymentSecrets,
}

impl Encoder {
    pub open spec fn wf(&self) -> bool {
        self.secrets.wf()
    }

    /// Initialize the encoder with the given secrets.
    pub fn new(secrets: DeploymentSecrets) -> (r: Self)
        ensures
            r.secrets == secrets,
    {
        Encoder { secrets }
    }

    /// Encode a frame with the given channel and timestamp: the picture,
    /// zero-padded to the fixed size, sealed under the per-frame picture
    /// key, wrapped in the outer frame layout, and sealed under the frame
    /// key.
    pub fn encode(&self, channel: u32, frame: &Vec<u8>, timestamp: u64) -> (r: Vec<u8>)
        requires
            self.wf(),
            channel <= MAX_STANDARD_CHANNEL,
            frame@.len() <= MAX_LEN_PICTURE,
        ensures
            r@.len() == LEN_ENCRYPTED_FRAME,
            exists|inner: Seq<u8>|
                {
                    &&& inner.len() == LEN_ENCRYPTED_PICTURE
                    &&& aead_open(self.secrets.frame_key.0@, r@) == Some(
                        spec_frame_bytes(channel, timestamp, frame@.len() as u8, inner),
                    )
                    &&& aead_open(
                        spec_derive_picture_key(
                            spec_derive_channel_secret(
                                self.secrets.base_channel_secret.0@,
                                channel,
                            ),
                            timestamp,
                        ),
                        inner,
                    ) == Some(spec_padded_picture(frame@))
                },
    {
        // Derive the picture encryption key.
        let mut channel_secret = derive_channel_secret(&self.secrets.base_channel_secret, channel);
        let mut picture_key = derive_picture_key(&channel_secret, timestamp);
        zeroize_bytes(&mut channel_secret.0);

        // Encrypt the picture.
        let picture_bytes = pad_picture(frame);
        let encrypted_picture = encrypt_ascon(&picture_bytes, &picture_key.0);
        zeroize_bytes(&mut picture_key.0);
        let ghost inner = encrypted_picture@;

        // Initialize and encode the plaintext frame.
        let plaintext_frame = DecryptedFrame {
            channel_id: channel,
            timestamp,
            picture_length: frame.len() as u8,
            encrypted_picture: EncryptedPicture(encrypted_picture),
        };
        let plaintext_frame_bytes = encode_decrypted_frame(&plaintext_frame);

        // Encrypt the frame.
        let encrypted_frame = encrypt_ascon(&plaintext_frame_bytes, &self.secrets.frame_key.0);
        proof {
            assert(inner.len() == LEN_ENCRYPTED_PICTURE);
            assert(aead_open(self.secrets.frame_key.0@, encrypted_frame@) == Some(
                spec_frame_bytes(channel, timestamp, frame@.len() as u8, inner),
            ));
        }
        encrypted_frame
    }
}

} // verus!
