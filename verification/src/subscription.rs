use vstd::prelude::*;

use vstd::bytes::{spec_u32_from_le_bytes, spec_u64_from_le_bytes};
use vstd::pervasive::VecAdditionalExecFns;

use crate::ascon::{aead_open, decrypt_ascon};
use crate::codec::{
    check_complement_16b, push_bytes, read_u32_le, read_u64_le, spec_complement,
    spec_sub_bytes_channel, spec_sub_bytes_end, spec_sub_bytes_secret, spec_sub_bytes_start,
    subvec,
};
use crate::constants::{
    FLASH_MAGIC_SUBSCRIPTION, LEN_FLASH, LEN_SLOT, LEN_STANDARD_CHANNELS, LEN_STORED_SUBSCRIPTION,
    NUM_SLOTS,
};
use crate::crypto::zeroize_bytes;
use crate::types::{
    ChannelSecret, EncryptedSubscription, StoredSubscription, SubscriptionInfo,
    SubscriptionInfoList, SubscriptionKey,
};

verus! {

// ---------------------------------------------------------------------------
// Flash model
// ---------------------------------------------------------------------------

// Everything is 16B aligned. Every 16B row is complemented by the next 16B.
// One subscription slot is 128 bytes at the start of its flash page:
//
//   offset 0   : MAGIC(4) | channel_id_le(4) | MAGIC(4) | channel_id_le(4)
//   offset 16  : complement of the row at 0
//   offset 32  : start_le(8) | end_le(8)
//   offset 48  : complement of the row at 32
//   offset 64  : channel_secret[0..16]
//   offset 80  : complement of the row at 64
//   offset 96  : channel_secret[16..32]
//   offset 112 : complement of the row at 96
//
// Slot 0 holds the permanent emergency-channel subscription; slots 1 up to
// LEN_STANDARD_CHANNELS hold user-installable subscriptions.

/// The subscription region of the decoder's flash: one 128-byte slot for the
/// emergency channel followed by one slot per standard channel. An erased
/// byte reads 0xFF.
pub struct Flash {
    pub bytes: Vec<u8>,
}

impl Flash {
    pub open spec fn wf(&self) -> bool {
        self.bytes@.len() == LEN_FLASH
    }

    /// A flash whose every byte is erased, as a fresh device reads.
    pub fn new_erased() -> (r: Flash)
        ensures
            r.wf(),
            forall|i: int| 0 <= i < LEN_FLASH ==> r.bytes@[i] == 0xFFu8,
    {
        let mut bytes: Vec<u8> = Vec::new();
        while bytes.len() < LEN_FLASH
            invariant
                bytes@.len() <= LEN_FLASH,
                forall|i: int| 0 <= i < bytes@.len() ==> bytes@[i] == 0xFFu8,
            decreases LEN_FLASH - bytes@.len(),
        {
            bytes.push(0xFFu8);
        }
        Flash { bytes }
    }
}

/// The 128 bytes of one subscription slot.
pub open spec fn slot_bytes(flash: Seq<u8>, idx: int) -> Seq<u8> {
    flash.subrange(idx * 128, idx * 128 + 128)
}

/// Helper function to read 16 bytes from flash.
pub fn read_16b(flash: &Flash, addr: u32) -> (data: Vec<u8>)
    requires
        flash.wf(),
        addr + 16 <= LEN_FLASH,
    ensures
        data@ == flash.bytes@.subrange(addr as int, addr as int + 16),
        data@.len() == 16,
{
    subvec(&flash.bytes, addr as usize, addr as usize + 16)
}

/// Helper function to write 16 bytes to flash.
pub fn write_16b(flash: &mut Flash, addr: u32, data: &Vec<u8>)
    requires
        old(flash).wf(),
        data@.len() == 16,
        addr + 16 <= LEN_FLASH,
    ensures
        final(flash).wf(),
        forall|i: int|
            0 <= i < LEN_FLASH ==> final(flash).bytes@[i] == (if addr <= i < addr + 16 {
                data@[i - addr]
            } else {
                old(flash).bytes@[i]
            }),
{
    let mut i: usize = 0;
    while i < 16
        invariant
            i <= 16,
            data@.len() == 16,
            addr + 16 <= LEN_FLASH,
            flash.bytes@.len() == LEN_FLASH,
            forall|j: int|
                0 <= j < LEN_FLASH ==> flash.bytes@[j] == (if addr <= j < addr + i {
                    data@[j - addr]
                } else {
                    old(flash).bytes@[j]
                }),
        decreases 16 - i,
    {
        flash.bytes.set(addr as usize + i, data[i]);
        i += 1;
    }
}

/// Erases the flash page holding the slot that starts at `addr`: every byte
/// of the slot reads 0xFF afterwards.
pub fn erase_page(flash: &mut Flash, addr: u32)
    requires
        old(flash).wf(),
        addr + LEN_SLOT <= LEN_FLASH,
    ensures
        final(flash).wf(),
        forall|i: int|
            0 <= i < LEN_FLASH ==> final(flash).bytes@[i] == (if addr <= i < addr + LEN_SLOT {
                0xFFu8
            } else {
                old(flash).bytes@[i]
            }),
{
    let mut i: usize = 0;
    while i < LEN_SLOT
        invariant
            i <= LEN_SLOT,
            addr + LEN_SLOT <= LEN_FLASH,
            flash.bytes@.len() == LEN_FLASH,
            forall|j: int|
                0 <= j < LEN_FLASH ==> flash.bytes@[j] == (if addr <= j < addr + i {
                    0xFFu8
                } else {
                    old(flash).bytes@[j]
                }),
        decreases LEN_SLOT - i,
    {
        flash.bytes.set(addr as usize + i, 0xFFu8);
        i += 1;
    }
}

// ---------------------------------------------------------------------------
// Slot validity
// ---------------------------------------------------------------------------

pub open spec fn slot_channel(s: Seq<u8>) -> u32 {
    spec_u32_from_le_bytes(s.subrange(4, 8))
}

pub open spec fn slot_start(s: Seq<u8>) -> u64 {
    spec_u64_from_le_bytes(s.subrange(32, 40))
}

pub open spec fn slot_end(s: Seq<u8>) -> u64 {
    spec_u64_from_le_bytes(s.subrange(40, 48))
}

pub open spec fn slot_secret(s: Seq<u8>) -> Seq<u8> {
    s.subrange(64, 80) + s.subrange(96, 112)
}

/// A slot is valid iff every complement row is the bit-exact complement of
/// its partner, every MAGIC field matches the fixed pattern, both channel id
/// copies agree, and the window is non-empty.
pub open spec fn slot_valid(s: Seq<u8>) -> bool
    recommends
        s.len() == 128,
{
    &&& s.subrange(0, 16) == spec_complement(s.subrange(16, 32))
    &&& s[0] == FLASH_MAGIC_SUBSCRIPTION
    &&& s[1] == FLASH_MAGIC_SUBSCRIPTION
    &&& s[2] == FLASH_MAGIC_SUBSCRIPTION
    &&& s[3] == FLASH_MAGIC_SUBSCRIPTION
    &&& s[8] == FLASH_MAGIC_SUBSCRIPTION
    &&& s[9] == FLASH_MAGIC_SUBSCRIPTION
    &&& s[10] == FLASH_MAGIC_SUBSCRIPTION
    &&& s[11] == FLASH_MAGIC_SUBSCRIPTION
    &&& spec_u32_from_le_bytes(s.subrange(4, 8)) == spec_u32_from_le_bytes(s.subrange(12, 16))
    &&& s.subrange(32, 48) == spec_complement(s.subrange(48, 64))
    &&& slot_start(s) <= slot_end(s)
    &&& s.subrange(64, 80) == spec_complement(s.subrange(80, 96))
    &&& s.subrange(96, 112) == spec_complement(s.subrange(112, 128))
}

/// The stored subscription matching slot contents `s`.
pub open spec fn slot_info(s: Seq<u8>) -> SubscriptionInfo {
    SubscriptionInfo { channel_id: slot_channel(s), start: slot_start(s), end: slot_end(s) }
}

/// Gets the subscription at the given index in flash.
/// Performs every integrity check on the stored slot, in a fixed order and
/// with no early exit, to keep flash access patterns uniform.
pub fn get_subscription_at_idx(flash: &Flash, idx: u32) -> (r: Result<StoredSubscription, ()>)
    requires
        flash.wf(),
    ensures
        match r {
            Ok(sub) => {
                &&& idx <= LEN_STANDARD_CHANNELS
                &&& slot_valid(slot_bytes(flash.bytes@, idx as int))
                &&& sub.wf()
                &&& sub.info == slot_info(slot_bytes(flash.bytes@, idx as int))
                &&& sub.info.start <= sub.info.end
                &&& sub.channel_secret.0@ == slot_secret(slot_bytes(flash.bytes@, idx as int))
            },
            Err(_) => idx > LEN_STANDARD_CHANNELS || !slot_valid(
                slot_bytes(flash.bytes@, idx as int),
            ),
        },
{
    if idx > LEN_STANDARD_CHANNELS as u32 {
        return Err(());
    }
    let base: u32 = idx * 128;
    let ghost s = slot_bytes(flash.bytes@, idx as int);

    // Read every row of the slot.
    let header_bytes = read_16b(flash, base);
    let header_comp = read_16b(flash, base + 16);
    let timestamp_bytes = read_16b(flash, base + 32);
    let timestamp_comp = read_16b(flash, base + 48);
    let mut secret_bytes_1 = read_16b(flash, base + 64);
    let mut secret_comp_1 = read_16b(flash, base + 80);
    let mut secret_bytes_2 = read_16b(flash, base + 96);
    let mut secret_comp_2 = read_16b(flash, base + 112);

    proof {
        assert(header_bytes@ =~= s.subrange(0, 16));
        assert(header_comp@ =~= s.subrange(16, 32));
        assert(timestamp_bytes@ =~= s.subrange(32, 48));
        assert(timestamp_comp@ =~= s.subrange(48, 64));
        assert(secret_bytes_1@ =~= s.subrange(64, 80));
        assert(secret_comp_1@ =~= s.subrange(80, 96));
        assert(secret_bytes_2@ =~= s.subrange(96, 112));
        assert(secret_comp_2@ =~= s.subrange(112, 128));
    }

    // Perform every integrity check, in a fixed order independent of values.
    let ok_header = check_complement_16b(&header_bytes, &header_comp);
    let ok_timestamps = check_complement_16b(&timestamp_bytes, &timestamp_comp);
    let ok_secret_1 = check_complement_16b(&secret_bytes_1, &secret_comp_1);
    let ok_secret_2 = check_complement_16b(&secret_bytes_2, &secret_comp_2);
    let ok_magic = header_bytes[0] == FLASH_MAGIC_SUBSCRIPTION && header_bytes[1]
        == FLASH_MAGIC_SUBSCRIPTION && header_bytes[2] == FLASH_MAGIC_SUBSCRIPTION
        && header_bytes[3] == FLASH_MAGIC_SUBSCRIPTION && header_bytes[8]
        == FLASH_MAGIC_SUBSCRIPTION && header_bytes[9] == FLASH_MAGIC_SUBSCRIPTION
        && header_bytes[10] == FLASH_MAGIC_SUBSCRIPTION && header_bytes[11]
        == FLASH_MAGIC_SUBSCRIPTION;
    let channel_id = read_u32_le(&header_bytes, 4);
    let channel_id_temp = read_u32_le(&header_bytes, 12);
    let start = read_u64_le(&timestamp_bytes, 0);
    let end = read_u64_le(&timestamp_bytes, 8);

    proof {
        assert(header_bytes@.subrange(4, 8) =~= s.subrange(4, 8));
        assert(header_bytes@.subrange(12, 16) =~= s.subrange(12, 16));
        assert(timestamp_bytes@.subrange(0, 8) =~= s.subrange(32, 40));
        assert(timestamp_bytes@.subrange(8, 16) =~= s.subrange(40, 48));
    }

    let valid = ok_header && ok_timestamps && ok_secret_1 && ok_secret_2 && ok_magic && channel_id
        == channel_id_temp && start <= end;

    if !valid {
        return Err(());
    }

    // Assemble the channel secret and zeroize the spare copies.
    let mut channel_secret_bytes: Vec<u8> = Vec::new();
    push_bytes(&mut channel_secret_bytes, &secret_bytes_1);
    push_bytes(&mut channel_secret_bytes, &secret_bytes_2);
    zeroize_bytes(&mut secret_bytes_1);
    zeroize_bytes(&mut secret_bytes_2);
    zeroize_bytes(&mut secret_comp_1);
    zeroize_bytes(&mut secret_comp_2);
    assert(channel_secret_bytes@ =~= slot_secret(s));

    Ok(
        StoredSubscription {
            info: SubscriptionInfo { channel_id, start, end },
            channel_secret: ChannelSecret(channel_secret_bytes),
        },
    )
}

// ---------------------------------------------------------------------------
// Channel lookup
// ---------------------------------------------------------------------------

/// The least slot index at or above `idx` whose slot is valid and holds
/// `channel_id`, if any.
pub open spec fn first_match_from(flash: Seq<u8>, channel_id: u32, idx: int) -> Option<int>
    decreases NUM_SLOTS - idx,
{
    if idx < 0 || idx >= NUM_SLOTS {
        None
    } else if slot_valid(slot_bytes(flash, idx)) && slot_channel(slot_bytes(flash, idx))
        == channel_id {
        Some(idx)
    } else {
        first_match_from(flash, channel_id, idx + 1)
    }
}

/// The least slot index (emergency slot included) whose slot is valid and
/// holds `channel_id`, if any.
pub open spec fn first_match(flash: Seq<u8>, channel_id: u32) -> Option<int> {
    first_match_from(flash, channel_id, 0)
}

/// Gets the subscription for the given channel ID: the first valid slot, in
/// index order, whose channel id matches.
pub fn get_channel_subscription(flash: &Flash, channel_id: u32) -> (r: Result<
    StoredSubscription,
    (),
>)
    requires
        flash.wf(),
    ensures
        match r {
            Ok(sub) => {
                &&& first_match(flash.bytes@, channel_id) is Some
                &&& sub.wf()
                &&& sub.info == slot_info(
                    slot_bytes(flash.bytes@, first_match(flash.bytes@, channel_id)->Some_0),
                )
                &&& sub.info.channel_id == channel_id
                &&& sub.info.start <= sub.info.end
                &&& sub.channel_secret.0@ == slot_secret(
                    slot_bytes(flash.bytes@, first_match(flash.bytes@, channel_id)->Some_0),
                )
            },
            Err(_) => first_match(flash.bytes@, channel_id) is None,
        },
{
    let mut idx: u32 = 0;
    while idx <= LEN_STANDARD_CHANNELS as u32
        invariant
            flash.wf(),
            idx <= NUM_SLOTS,
            first_match(flash.bytes@, channel_id) == first_match_from(
                flash.bytes@,
                channel_id,
                idx as int,
            ),
        decreases NUM_SLOTS - idx,
    {
        match get_subscription_at_idx(flash, idx) {
            Ok(sub) => {
                if sub.info.channel_id == channel_id {
                    return Ok(sub);
                }
            },
            Err(_) => (),
        }
        idx = idx + 1;
    }
    Err(())
}

// ---------------------------------------------------------------------------
// Listing
// ---------------------------------------------------------------------------

/// The infos of the valid standard slots with index below `idx`, in slot
/// order.
pub open spec fn valid_infos_upto(flash: Seq<u8>, idx: int) -> Seq<SubscriptionInfo>
    decreases idx,
{
    if idx <= 1 {
        Seq::empty()
    } else {
        valid_infos_upto(flash, idx - 1) + (if slot_valid(slot_bytes(flash, idx - 1)) {
            seq![slot_info(slot_bytes(flash, idx - 1))]
        } else {
            Seq::empty()
        })
    }
}

/// The infos of all valid standard slots (the emergency slot excluded), in
/// slot order.
pub open spec fn valid_infos(flash: Seq<u8>) -> Seq<SubscriptionInfo> {
    valid_infos_upto(flash, NUM_SLOTS as int)
}

pub proof fn lemma_valid_infos_len(flash: Seq<u8>, idx: int)
    requires
        1 <= idx <= NUM_SLOTS,
    ensures
        valid_infos_upto(flash, idx).len() <= idx - 1,
    decreases idx,
{
    if idx > 1 {
        lemma_valid_infos_len(flash, idx - 1);
    }
}

/// Returns a list of all valid standard subscriptions in flash, in slot
/// order, padded with blank entries up to the fixed list size.
pub fn list_subscriptions(flash: &Flash) -> (r: SubscriptionInfoList)
    requires
        flash.wf(),
    ensures
        r.wf(),
        r.num_sub_channels == valid_infos(flash.bytes@).len(),
        r.subscriptions@.subrange(0, r.num_sub_channels as int) == valid_infos(flash.bytes@),
        forall|i: int|
            valid_infos(flash.bytes@).len() <= i < LEN_STANDARD_CHANNELS
                ==> r.subscriptions@[i] == (SubscriptionInfo { channel_id: 0, start: 0, end: 0 }),
{
    let mut subscriptions: Vec<SubscriptionInfo> = Vec::new();
    let mut idx: u32 = 1;
    while idx <= LEN_STANDARD_CHANNELS as u32
        invariant
            flash.wf(),
            1 <= idx <= NUM_SLOTS,
            subscriptions@ == valid_infos_upto(flash.bytes@, idx as int),
        decreases NUM_SLOTS - idx,
    {
        match get_subscription_at_idx(flash, idx) {
            Ok(sub) => {
                subscriptions.push(sub.info);
                assert(subscriptions@ =~= valid_infos_upto(flash.bytes@, idx as int + 1));
            },
            Err(_) => {
                assert(subscriptions@ =~= valid_infos_upto(flash.bytes@, idx as int + 1));
            },
        }
        idx = idx + 1;
    }
    proof {
        lemma_valid_infos_len(flash.bytes@, NUM_SLOTS as int);
    }
    let num_sub_channels: u32 = subscriptions.len() as u32;
    while subscriptions.len() < LEN_STANDARD_CHANNELS
        invariant
            num_sub_channels == valid_infos(flash.bytes@).len(),
            num_sub_channels <= subscriptions@.len() <= LEN_STANDARD_CHANNELS,
            subscriptions@.subrange(0, num_sub_channels as int) == valid_infos(flash.bytes@),
            forall|i: int|
                num_sub_channels <= i < subscriptions@.len() ==> subscriptions@[i] == (
                SubscriptionInfo { channel_id: 0, start: 0, end: 0 }),
        decreases LEN_STANDARD_CHANNELS - subscriptions@.len(),
    {
        subscriptions.push(SubscriptionInfo { channel_id: 0, start: 0, end: 0 });
        assert(subscriptions@.subrange(0, num_sub_channels as int) =~= valid_infos(
            flash.bytes@,
        ));
    }
    SubscriptionInfoList { num_sub_channels, subscriptions }
}

} // verus!

verus! {

// ---------------------------------------------------------------------------
// Writing a slot
// ---------------------------------------------------------------------------

/// The error the store reports when an update cannot be placed.
#[derive(Debug)]
pub enum StoreError {
    NoSlotsAvailable,
}

/// The header row of a slot: MAGIC(4) | channel_id_le(4) | MAGIC(4) | channel_id_le(4).
pub open spec fn spec_header_row(channel_id: u32) -> Seq<u8> {
    seq![
        FLASH_MAGIC_SUBSCRIPTION,
        FLASH_MAGIC_SUBSCRIPTION,
        FLASH_MAGIC_SUBSCRIPTION,
        FLASH_MAGIC_SUBSCRIPTION,
    ] + vstd::bytes::spec_u32_to_le_bytes(channel_id) + seq![
        FLASH_MAGIC_SUBSCRIPTION,
        FLASH_MAGIC_SUBSCRIPTION,
        FLASH_MAGIC_SUBSCRIPTION,
        FLASH_MAGIC_SUBSCRIPTION,
    ] + vstd::bytes::spec_u32_to_le_bytes(channel_id)
}

/// The timestamp row of a slot: start_le(8) | end_le(8).
pub open spec fn spec_timestamp_row(start: u64, end: u64) -> Seq<u8> {
    vstd::bytes::spec_u64_to_le_bytes(start) + vstd::bytes::spec_u64_to_le_bytes(end)
}

/// The full 128-byte image of a freshly written slot.
pub open spec fn spec_slot_image(channel_id: u32, start: u64, end: u64, secret: Seq<u8>) -> Seq<
    u8,
> {
    spec_header_row(channel_id) + spec_complement(spec_header_row(channel_id))
        + spec_timestamp_row(start, end) + spec_complement(spec_timestamp_row(start, end))
        + secret.subrange(0, 16) + spec_complement(secret.subrange(0, 16)) + secret.subrange(
        16,
        32,
    ) + spec_complement(secret.subrange(16, 32))
}

pub proof fn lemma_slot_image_rows(channel_id: u32, start: u64, end: u64, secret: Seq<u8>)
    requires
        secret.len() == 32,
    ensures
        spec_header_row(channel_id).len() == 16,
        spec_timestamp_row(start, end).len() == 16,
        spec_slot_image(channel_id, start, end, secret).len() == 128,
        spec_slot_image(channel_id, start, end, secret).subrange(0, 16) == spec_header_row(
            channel_id,
        ),
        spec_slot_image(channel_id, start, end, secret).subrange(16, 32) == spec_complement(
            spec_header_row(channel_id),
        ),
        spec_slot_image(channel_id, start, end, secret).subrange(32, 48) == spec_timestamp_row(
            start,
            end,
        ),
        spec_slot_image(channel_id, start, end, secret).subrange(48, 64) == spec_complement(
            spec_timestamp_row(start, end),
        ),
        spec_slot_image(channel_id, start, end, secret).subrange(64, 80) == secret.subrange(0, 16),
        spec_slot_image(channel_id, start, end, secret).subrange(80, 96) == spec_complement(
            secret.subrange(0, 16),
        ),
        spec_slot_image(channel_id, start, end, secret).subrange(96, 112) == secret.subrange(
            16,
            32,
        ),
        spec_slot_image(channel_id, start, end, secret).subrange(112, 128) == spec_complement(
            secret.subrange(16, 32),
        ),
{
    vstd::bytes::lemma_auto_spec_u32_to_from_le_bytes();
    vstd::bytes::lemma_auto_spec_u64_to_from_le_bytes();
    let img = spec_slot_image(channel_id, start, end, secret);
    assert(img.subrange(0, 16) =~= spec_header_row(channel_id));
    assert(img.subrange(16, 32) =~= spec_complement(spec_header_row(channel_id)));
    assert(img.subrange(32, 48) =~= spec_timestamp_row(start, end));
    assert(img.subrange(48, 64) =~= spec_complement(spec_timestamp_row(start, end)));
    assert(img.subrange(64, 80) =~= secret.subrange(0, 16));
    assert(img.subrange(80, 96) =~= spec_complement(secret.subrange(0, 16)));
    assert(img.subrange(96, 112) =~= secret.subrange(16, 32));
    assert(img.subrange(112, 128) =~= spec_complement(secret.subrange(16, 32)));
}

/// A freshly written slot image passes every integrity check and reads back
/// as the subscription it was written from, provided the window is
/// non-empty.
pub proof fn lemma_slot_image_valid(channel_id: u32, start: u64, end: u64, secret: Seq<u8>)
    requires
        secret.len() == 32,
        start <= end,
    ensures
        slot_valid(spec_slot_image(channel_id, start, end, secret)),
        slot_channel(spec_slot_image(channel_id, start, end, secret)) == channel_id,
        slot_start(spec_slot_image(channel_id, start, end, secret)) == start,
        slot_end(spec_slot_image(channel_id, start, end, secret)) == end,
        slot_secret(spec_slot_image(channel_id, start, end, secret)) == secret,
{
    vstd::bytes::lemma_auto_spec_u32_to_from_le_bytes();
    vstd::bytes::lemma_auto_spec_u64_to_from_le_bytes();
    lemma_slot_image_rows(channel_id, start, end, secret);
    let img = spec_slot_image(channel_id, start, end, secret);
    crate::codec::lemma_complement_involution(spec_header_row(channel_id));
    crate::codec::lemma_complement_involution(spec_timestamp_row(start, end));
    crate::codec::lemma_complement_involution(secret.subrange(0, 16));
    crate::codec::lemma_complement_involution(secret.subrange(16, 32));
    assert(img.subrange(0, 16) == spec_complement(img.subrange(16, 32)));
    assert(img.subrange(32, 48) == spec_complement(img.subrange(48, 64)));
    assert(img.subrange(64, 80) == spec_complement(img.subrange(80, 96)));
    assert(img.subrange(96, 112) == spec_complement(img.subrange(112, 128)));
    let hdr = spec_header_row(channel_id);
    assert(hdr[0] == FLASH_MAGIC_SUBSCRIPTION);
    assert(hdr[1] == FLASH_MAGIC_SUBSCRIPTION);
    assert(hdr[2] == FLASH_MAGIC_SUBSCRIPTION);
    assert(hdr[3] == FLASH_MAGIC_SUBSCRIPTION);
    assert(hdr[8] == FLASH_MAGIC_SUBSCRIPTION);
    assert(hdr[9] == FLASH_MAGIC_SUBSCRIPTION);
    assert(hdr[10] == FLASH_MAGIC_SUBSCRIPTION);
    assert(hdr[11] == FLASH_MAGIC_SUBSCRIPTION);
    assert(img[0] == hdr[0]);
    assert(img[1] == hdr[1]);
    assert(img[2] == hdr[2]);
    assert(img[3] == hdr[3]);
    assert(img[8] == hdr[8]);
    assert(img[9] == hdr[9]);
    assert(img[10] == hdr[10]);
    assert(img[11] == hdr[11]);
    assert(img.subrange(4, 8) =~= vstd::bytes::spec_u32_to_le_bytes(channel_id));
    assert(img.subrange(12, 16) =~= vstd::bytes::spec_u32_to_le_bytes(channel_id));
    assert(img.subrange(32, 40) =~= vstd::bytes::spec_u64_to_le_bytes(start));
    assert(img.subrange(40, 48) =~= vstd::bytes::spec_u64_to_le_bytes(end));
    assert(slot_secret(img) =~= secret);
}

/// The flash contents after slot `idx` has been replaced with `image`.
pub open spec fn store_with_slot(flash: Seq<u8>, idx: int, image: Seq<u8>) -> Seq<u8> {
    Seq::new(
        flash.len(),
        |i: int|
            if idx * 128 <= i < idx * 128 + 128 {
                image[i - idx * 128]
            } else {
                flash[i]
            },
    )
}

/// Builds the header row of a slot for the given channel id.
fn build_header_row(channel_id: u32) -> (r: Vec<u8>)
    ensures
        r@ == spec_header_row(channel_id),
        r@.len() == 16,
{
    proof {
        vstd::bytes::lemma_auto_spec_u32_to_from_le_bytes();
    }
    let mut r: Vec<u8> = Vec::new();
    r.push(FLASH_MAGIC_SUBSCRIPTION);
    r.push(FLASH_MAGIC_SUBSCRIPTION);
    r.push(FLASH_MAGIC_SUBSCRIPTION);
    r.push(FLASH_MAGIC_SUBSCRIPTION);
    crate::codec::push_u32_le(&mut r, channel_id);
    r.push(FLASH_MAGIC_SUBSCRIPTION);
    r.push(FLASH_MAGIC_SUBSCRIPTION);
    r.push(FLASH_MAGIC_SUBSCRIPTION);
    r.push(FLASH_MAGIC_SUBSCRIPTION);
    crate::codec::push_u32_le(&mut r, channel_id);
    assert(r@ =~= spec_header_row(channel_id));
    r
}

/// Writes the given subscription to flash memory at the given slot index.
/// The page is erased first; the data rows and their complements are written
/// before the MAGIC/channel-id header row, so that an interrupted write
/// leaves the slot reading as absent.
pub(crate) fn write_subscription(flash: &mut Flash, idx: u32, new_sub: &StoredSubscription)
    requires
        old(flash).wf(),
        idx <= LEN_STANDARD_CHANNELS,
        new_sub.wf(),
    ensures
        final(flash).wf(),
        final(flash).bytes@ == store_with_slot(
            old(flash).bytes@,
            idx as int,
            spec_slot_image(
                new_sub.info.channel_id,
                new_sub.info.start,
                new_sub.info.end,
                new_sub.channel_secret.0@,
            ),
        ),
{
    let ghost image = spec_slot_image(
        new_sub.info.channel_id,
        new_sub.info.start,
        new_sub.info.end,
        new_sub.channel_secret.0@,
    );
    proof {
        lemma_slot_image_rows(
            new_sub.info.channel_id,
            new_sub.info.start,
            new_sub.info.end,
            new_sub.channel_secret.0@,
        );
    }
    let sub_addr: u32 = idx * 128;

    erase_page(flash, sub_addr);

    // Build the rows.
    let header_bytes = build_header_row(new_sub.info.channel_id);
    let header_comp = crate::codec::make_complement_16b(&header_bytes);
    let mut timestamp_bytes: Vec<u8> = Vec::new();
    crate::codec::push_u64_le(&mut timestamp_bytes, new_sub.info.start);
    crate::codec::push_u64_le(&mut timestamp_bytes, new_sub.info.end);
    assert(timestamp_bytes@ =~= spec_timestamp_row(new_sub.info.start, new_sub.info.end));
    let timestamp_comp = crate::codec::make_complement_16b(&timestamp_bytes);
    let mut secret_bytes_1 = crate::codec::subvec(&new_sub.channel_secret.0, 0, 16);
    let mut secret_comp_1 = crate::codec::make_complement_16b(&secret_bytes_1);
    let mut secret_bytes_2 = crate::codec::subvec(&new_sub.channel_secret.0, 16, 32);
    let mut secret_comp_2 = crate::codec::make_complement_16b(&secret_bytes_2);

    // Write the data rows and their complements first.
    write_16b(flash, sub_addr + 32, &timestamp_bytes);
    write_16b(flash, sub_addr + 48, &timestamp_comp);
    write_16b(flash, sub_addr + 64, &secret_bytes_1);
    write_16b(flash, sub_addr + 80, &secret_comp_1);
    write_16b(flash, sub_addr + 96, &secret_bytes_2);
    write_16b(flash, sub_addr + 112, &secret_comp_2);

    // Write the header complement, then, last of all, the header row.
    write_16b(flash, sub_addr + 16, &header_comp);
    write_16b(flash, sub_addr, &header_bytes);

    // Scrub the stack copies of the channel secret.
    zeroize_bytes(&mut secret_bytes_1);
    zeroize_bytes(&mut secret_comp_1);
    zeroize_bytes(&mut secret_bytes_2);
    zeroize_bytes(&mut secret_comp_2);

    assert(flash.bytes@ =~= store_with_slot(old(flash).bytes@, idx as int, image));
}

// ---------------------------------------------------------------------------
// Updating
// ---------------------------------------------------------------------------

/// The slot that an update for `channel_id` lands in, scanning from `idx`:
/// the first valid slot holding `channel_id`, or else the first slot that
/// fails validation.
pub open spec fn update_target_from(flash: Seq<u8>, channel_id: u32, idx: int) -> Option<int>
    decreases NUM_SLOTS - idx,
{
    if idx < 1 || idx >= NUM_SLOTS {
        None
    } else if !slot_valid(slot_bytes(flash, idx)) || slot_channel(slot_bytes(flash, idx))
        == channel_id {
        Some(idx)
    } else {
        update_target_from(flash, channel_id, idx + 1)
    }
}

/// The slot that an update for `channel_id` lands in, if any.
pub open spec fn update_target(flash: Seq<u8>, channel_id: u32) -> Option<int> {
    update_target_from(flash, channel_id, 1)
}

/// Updates the given subscription in flash memory.
/// - Iterates through the available flash pages.
/// - If a subscription is found with the same channel ID, it is replaced.
/// - If an empty or invalid subscription is found, the new subscription is written.
/// - If there are no more slots available, the subscription is not written and an error is returned.
///
/// The emergency slot is never scanned and never written.
pub fn update_subscription(flash: &mut Flash, new_sub: StoredSubscription) -> (r: Result<
    (),
    StoreError,
>)
    requires
        old(flash).wf(),
        new_sub.wf(),
        new_sub.info.channel_id != crate::constants::EMERGENCY_CHANNEL_ID,
    ensures
        final(flash).wf(),
        match update_target(old(flash).bytes@, new_sub.info.channel_id) {
            Some(i) => r is Ok && final(flash).bytes@ == store_with_slot(
                old(flash).bytes@,
                i,
                spec_slot_image(
                    new_sub.info.channel_id,
                    new_sub.info.start,
                    new_sub.info.end,
                    new_sub.channel_secret.0@,
                ),
            ),
            None => r is Err && final(flash).bytes@ == old(flash).bytes@,
        },
        slot_bytes(final(flash).bytes@, 0) == slot_bytes(old(flash).bytes@, 0),
{
    let mut idx: u32 = 1;
    while idx <= LEN_STANDARD_CHANNELS as u32
        invariant
            flash.wf(),
            flash == old(flash),
            new_sub.wf(),
            1 <= idx <= NUM_SLOTS,
            update_target(flash.bytes@, new_sub.info.channel_id) == update_target_from(
                flash.bytes@,
                new_sub.info.channel_id,
                idx as int,
            ),
        decreases NUM_SLOTS - idx,
    {
        match get_subscription_at_idx(flash, idx) {
            Ok(sub) => {
                // If the channel ID matches, replace the subscription.
                if sub.info.channel_id == new_sub.info.channel_id {
                    write_subscription(flash, idx, &new_sub);
                    assert(slot_bytes(flash.bytes@, 0) =~= slot_bytes(old(flash).bytes@, 0));
                    return Ok(());
                }
            },
            Err(_) => {
                // If the slot is invalid, write the new subscription there.
                write_subscription(flash, idx, &new_sub);
                assert(slot_bytes(flash.bytes@, 0) =~= slot_bytes(old(flash).bytes@, 0));
                return Ok(());
            },
        }
        idx = idx + 1;
    }
    // If we get here, there are no more slots available.
    Err(StoreError::NoSlotsAvailable)
}

// ---------------------------------------------------------------------------
// Decrypting an update payload
// ---------------------------------------------------------------------------

/// Decrypts the subscription and returns a StoredSubscription.
pub fn decrypt_subscription(
    subscription_key: &SubscriptionKey,
    enc_subscription: &EncryptedSubscription,
) -> (r: Result<StoredSubscription, ()>)
    requires
        subscription_key.wf(),
        enc_subscription.wf(),
    ensures
        match r {
            Ok(sub) => {
                &&& aead_open(subscription_key.0@, enc_subscription.0@) is Some
                &&& sub.wf()
                &&& sub.info.channel_id == spec_sub_bytes_channel(
                    aead_open(subscription_key.0@, enc_subscription.0@)->Some_0,
                )
                &&& sub.info.start == spec_sub_bytes_start(
                    aead_open(subscription_key.0@, enc_subscription.0@)->Some_0,
                )
                &&& sub.info.end == spec_sub_bytes_end(
                    aead_open(subscription_key.0@, enc_subscription.0@)->Some_0,
                )
                &&& sub.channel_secret.0@ == spec_sub_bytes_secret(
                    aead_open(subscription_key.0@, enc_subscription.0@)->Some_0,
                )
            },
            Err(_) => aead_open(subscription_key.0@, enc_subscription.0@) is None,
        },
{
    let mut dec_sub_bytes = match decrypt_ascon(&enc_subscription.0, &subscription_key.0) {
        Ok(p) => p,
        Err(_) => {
            return Err(());
        },
    };
    assert(dec_sub_bytes@.len() == LEN_STORED_SUBSCRIPTION);
    let dec_sub = crate::codec::parse_stored_subscription(&dec_sub_bytes);
    zeroize_bytes(&mut dec_sub_bytes);
    Ok(dec_sub)
}

} // verus!

verus! {

// ---------------------------------------------------------------------------
// Crash safety of the write discipline
// ---------------------------------------------------------------------------

/// Whether the 16-byte row at `off` has been programmed after the first `k`
/// row writes of a slot write. Rows are written in the order: timestamps,
/// their complement, the two secret halves with their complements, the
/// header complement, and the header row last.
pub open spec fn row_written(k: int, off: int) -> bool {
    ||| (k > 0 && off == 32)
    ||| (k > 1 && off == 48)
    ||| (k > 2 && off == 64)
    ||| (k > 3 && off == 80)
    ||| (k > 4 && off == 96)
    ||| (k > 5 && off == 112)
    ||| (k > 6 && off == 16)
    ||| (k > 7 && off == 0)
}

/// The slot contents after the page erase and the first `k` row writes of a
/// slot write towards `image`: programmed rows carry the image, the rest
/// still read erased.
pub open spec fn spec_partial_slot(image: Seq<u8>, k: int) -> Seq<u8> {
    Seq::new(
        128,
        |i: int|
            if row_written(k, 16 * (i / 16)) {
                image[i]
            } else {
                0xFFu8
            },
    )
}

/// Power-loss safety: interrupting a slot write anywhere between the page
/// erase and the final header-row write leaves the slot failing validation,
/// so a later read treats it as absent rather than as a spurious
/// subscription.
pub proof fn lemma_interrupted_write_absent(
    channel_id: u32,
    start: u64,
    end: u64,
    secret: Seq<u8>,
    k: int,
)
    requires
        secret.len() == 32,
        0 <= k < 8,
    ensures
        !slot_valid(spec_partial_slot(spec_slot_image(channel_id, start, end, secret), k)),
{
    lemma_slot_image_rows(channel_id, start, end, secret);
    let img = spec_slot_image(channel_id, start, end, secret);
    let p = spec_partial_slot(img, k);
    assert(p[0] == 0xFFu8);
    if slot_valid(p) {
        assert(p.subrange(0, 16)[0] == spec_complement(p.subrange(16, 32))[0]);
        assert(p[0] == !p[16]);
        if k <= 6 {
            assert(p[16] == 0xFFu8);
            assert(!(0xFFu8 == !0xFFu8)) by (bit_vector);
        } else {
            assert(p[16] == img[16]);
            assert(img.subrange(16, 32)[0] == spec_complement(spec_header_row(channel_id))[0]);
            assert(img[16] == !spec_header_row(channel_id)[0]);
            assert(spec_header_row(channel_id)[0] == FLASH_MAGIC_SUBSCRIPTION);
            assert(!(0xFFu8 == !(!(0xA5u8)))) by (bit_vector);
        }
        assert(false);
    }
}

// ---------------------------------------------------------------------------
// Tamper detection
// ---------------------------------------------------------------------------

/// Integrity enforcement: changing any byte of any complement row or of
/// either MAGIC field of a valid slot makes the slot fail validation, so it
/// is treated as absent.
pub proof fn lemma_tamper_detected(s: Seq<u8>, i: int, b: u8)
    requires
        s.len() == 128,
        slot_valid(s),
        b != s[i],
        (0 <= i < 4) || (8 <= i < 12) || (16 <= i < 32) || (48 <= i < 64) || (80 <= i < 96) || (
        112 <= i < 128),
    ensures
        !slot_valid(s.update(i, b)),
{
    let t = s.update(i, b);
    if slot_valid(t) {
        if 0 <= i < 4 || 8 <= i < 12 {
            assert(s[i] == FLASH_MAGIC_SUBSCRIPTION);
            assert(t[i] == FLASH_MAGIC_SUBSCRIPTION);
            assert(false);
        } else if 16 <= i < 32 {
            assert(t.subrange(0, 16)[i - 16] == spec_complement(t.subrange(16, 32))[i - 16]);
            assert(s.subrange(0, 16)[i - 16] == spec_complement(s.subrange(16, 32))[i - 16]);
            assert(t[i - 16] == !t[i]);
            assert(s[i - 16] == !s[i]);
            assert(t[i - 16] == s[i - 16]);
            assert(t[i] == b);
            let x = s[i];
            assert(!x == !b ==> x == b) by (bit_vector);
            assert(false);
        } else if 48 <= i < 64 {
            assert(t.subrange(32, 48)[i - 48] == spec_complement(t.subrange(48, 64))[i - 48]);
            assert(s.subrange(32, 48)[i - 48] == spec_complement(s.subrange(48, 64))[i - 48]);
            assert(t[i - 16] == !t[i]);
            assert(s[i - 16] == !s[i]);
            assert(t[i - 16] == s[i - 16]);
            assert(t[i] == b);
            let x = s[i];
            assert(!x == !b ==> x == b) by (bit_vector);
            assert(false);
        } else if 80 <= i < 96 {
            assert(t.subrange(64, 80)[i - 80] == spec_complement(t.subrange(80, 96))[i - 80]);
            assert(s.subrange(64, 80)[i - 80] == spec_complement(s.subrange(80, 96))[i - 80]);
            assert(t[i - 16] == !t[i]);
            assert(s[i - 16] == !s[i]);
            assert(t[i - 16] == s[i - 16]);
            assert(t[i] == b);
            let x = s[i];
            assert(!x == !b ==> x == b) by (bit_vector);
            assert(false);
        } else {
            assert(t.subrange(96, 112)[i - 112] == spec_complement(t.subrange(112, 128))[i - 112]);
            assert(s.subrange(96, 112)[i - 112] == spec_complement(s.subrange(112, 128))[i - 112]);
            assert(t[i - 16] == !t[i]);
            assert(s[i - 16] == !s[i]);
            assert(t[i - 16] == s[i - 16]);
            assert(t[i] == b);
            let x = s[i];
            assert(!x == !b ==> x == b) by (bit_vector);
            assert(false);
        }
    }
}

// ---------------------------------------------------------------------------
// Uniqueness of installed channels
// ---------------------------------------------------------------------------

/// No two valid standard slots hold the same channel id.
pub open spec fn store_channels_unique(flash: Seq<u8>) -> bool {
    forall|i: int, j: int|
        1 <= i < j < NUM_SLOTS && slot_valid(#[trigger] slot_bytes(flash, i)) && slot_valid(
            #[trigger] slot_bytes(flash, j),
        ) ==> slot_channel(slot_bytes(flash, i)) != slot_channel(slot_bytes(flash, j))
}

/// The valid standard slots form a prefix of the slot range: no valid slot
/// follows an invalid one. Complete updates always fill the first free slot,
/// so the property is maintained across any sequence of updates.
pub open spec fn store_valid_prefix(flash: Seq<u8>) -> bool {
    forall|i: int, j: int|
        1 <= i <= j < NUM_SLOTS && slot_valid(#[trigger] slot_bytes(flash, j)) ==> slot_valid(
            #[trigger] slot_bytes(flash, i),
        )
}

/// Replacing slot `idx` changes that slot's bytes to `image` and no others.
pub proof fn lemma_store_with_slot_slots(flash: Seq<u8>, idx: int, image: Seq<u8>)
    requires
        flash.len() == LEN_FLASH,
        image.len() == 128,
        0 <= idx < NUM_SLOTS,
    ensures
        slot_bytes(store_with_slot(flash, idx, image), idx) == image,
        forall|j: int|
            0 <= j < NUM_SLOTS && j != idx ==> #[trigger] slot_bytes(
                store_with_slot(flash, idx, image),
                j,
            ) == slot_bytes(flash, j),
{
    let newf = store_with_slot(flash, idx, image);
    assert(slot_bytes(newf, idx) =~= image);
    assert forall|j: int| 0 <= j < NUM_SLOTS && j != idx implies #[trigger] slot_bytes(newf, j)
        == slot_bytes(flash, j) by {
        assert(slot_bytes(newf, j) =~= slot_bytes(flash, j));
    }
}

/// Where an update for `channel_id` lands: every slot below the target is
/// valid and holds some other channel, and the target itself either fails
/// validation or already holds `channel_id`.
pub proof fn lemma_update_target_props(flash: Seq<u8>, channel_id: u32, idx: int)
    requires
        1 <= idx <= NUM_SLOTS,
        update_target_from(flash, channel_id, idx) is Some,
    ensures
        idx <= update_target_from(flash, channel_id, idx)->Some_0 < NUM_SLOTS,
        forall|j: int|
            idx <= j < update_target_from(flash, channel_id, idx)->Some_0 ==> slot_valid(
                #[trigger] slot_bytes(flash, j),
            ) && slot_channel(slot_bytes(flash, j)) != channel_id,
        !slot_valid(slot_bytes(flash, update_target_from(flash, channel_id, idx)->Some_0))
            || slot_channel(slot_bytes(flash, update_target_from(flash, channel_id, idx)->Some_0))
            == channel_id,
    decreases NUM_SLOTS - idx,
{
    if idx < NUM_SLOTS {
        let s = slot_bytes(flash, idx);
        if !slot_valid(s) || slot_channel(s) == channel_id {
        } else {
            lemma_update_target_props(flash, channel_id, idx + 1);
        }
    }
}

/// Slot replacement: when an update for `channel_id` lands, the updated
/// store still has unique channel ids and a valid prefix, and exactly one
/// valid standard slot — the target — holds `channel_id`.
pub proof fn lemma_update_preserves_uniqueness(
    flash: Seq<u8>,
    channel_id: u32,
    start: u64,
    end: u64,
    secret: Seq<u8>,
)
    requires
        flash.len() == LEN_FLASH,
        secret.len() == 32,
        start <= end,
        store_channels_unique(flash),
        store_valid_prefix(flash),
        update_target(flash, channel_id) is Some,
    ensures
        ({
            let i = update_target(flash, channel_id)->Some_0;
            let newf = store_with_slot(flash, i, spec_slot_image(channel_id, start, end, secret));
            &&& store_channels_unique(newf)
            &&& store_valid_prefix(newf)
            &&& forall|j: int|
                1 <= j < NUM_SLOTS ==> ((slot_valid(#[trigger] slot_bytes(newf, j)) && slot_channel(
                    slot_bytes(newf, j),
                ) == channel_id) <==> j == i)
        }),
{
    let i = update_target(flash, channel_id)->Some_0;
    let img = spec_slot_image(channel_id, start, end, secret);
    let newf = store_with_slot(flash, i, img);
    lemma_update_target_props(flash, channel_id, 1);
    lemma_slot_image_valid(channel_id, start, end, secret);
    lemma_slot_image_rows(channel_id, start, end, secret);
    lemma_store_with_slot_slots(flash, i, img);

    if !slot_valid(slot_bytes(flash, i)) {
        // The update fills the first free slot: nothing at or above it was
        // valid, so the valid slots of the updated store are exactly the
        // slots up to and including the target.
        assert forall|j: int| i < j < NUM_SLOTS implies !slot_valid(
            #[trigger] slot_bytes(flash, j),
        ) by {
            if slot_valid(slot_bytes(flash, j)) {
                assert(slot_valid(slot_bytes(flash, i)));
            }
        }
    }
    assert forall|j: int| 1 <= j < NUM_SLOTS implies ((slot_valid(
        #[trigger] slot_bytes(newf, j),
    ) && slot_channel(slot_bytes(newf, j)) == channel_id) <==> j == i) by {
        if j != i {
            assert(slot_bytes(newf, j) == slot_bytes(flash, j));
            if slot_valid(slot_bytes(flash, j)) && slot_channel(slot_bytes(flash, j))
                == channel_id {
                if j < i {
                    assert(slot_channel(slot_bytes(flash, j)) != channel_id);
                } else {
                    if !slot_valid(slot_bytes(flash, i)) {
                        assert(slot_valid(slot_bytes(flash, i)));
                    } else {
                        assert(slot_channel(slot_bytes(flash, i)) == channel_id);
                        assert(false);
                    }
                }
            }
        }
    }
}

} // verus!

verus! {

/// Scanning for `channel_id` from slot `j` finds slot `i` when nothing in
/// between matches and slot `i` does.
pub proof fn lemma_first_match_skip(flash: Seq<u8>, channel_id: u32, j: int, i: int)
    requires
        0 <= j <= i < NUM_SLOTS,
        forall|k: int|
            j <= k < i ==> !(slot_valid(#[trigger] slot_bytes(flash, k)) && slot_channel(
                slot_bytes(flash, k),
            ) == channel_id),
        slot_valid(slot_bytes(flash, i)),
        slot_channel(slot_bytes(flash, i)) == channel_id,
    ensures
        first_match_from(flash, channel_id, j) == Some(i),
    decreases i - j,
{
    if j < i {
        lemma_first_match_skip(flash, channel_id, j + 1, i);
    }
}

/// Installing a subscription makes it the one the frame pipeline finds:
/// after an update for `channel_id` lands in its target slot, looking the
/// channel up returns exactly the newly written subscription, with the
/// secret, window and channel id it was written with. The emergency slot is
/// assumed not to hold the channel, as it permanently holds the emergency
/// channel.
pub proof fn lemma_install_then_lookup(
    flash: Seq<u8>,
    channel_id: u32,
    start: u64,
    end: u64,
    secret: Seq<u8>,
)
    requires
        flash.len() == LEN_FLASH,
        secret.len() == 32,
        start <= end,
        update_target(flash, channel_id) is Some,
        !(slot_valid(slot_bytes(flash, 0)) && slot_channel(slot_bytes(flash, 0)) == channel_id),
    ensures
        ({
            let i = update_target(flash, channel_id)->Some_0;
            let newf = store_with_slot(flash, i, spec_slot_image(channel_id, start, end, secret));
            &&& first_match(newf, channel_id) == Some(i)
            &&& slot_secret(slot_bytes(newf, i)) == secret
            &&& slot_channel(slot_bytes(newf, i)) == channel_id
            &&& slot_start(slot_bytes(newf, i)) == start
            &&& slot_end(slot_bytes(newf, i)) == end
            &&& slot_valid(slot_bytes(newf, i))
        }),
{
    let i = update_target(flash, channel_id)->Some_0;
    let img = spec_slot_image(channel_id, start, end, secret);
    let newf = store_with_slot(flash, i, img);
    lemma_update_target_props(flash, channel_id, 1);
    lemma_slot_image_valid(channel_id, start, end, secret);
    lemma_slot_image_rows(channel_id, start, end, secret);
    lemma_store_with_slot_slots(flash, i, img);
    assert forall|k: int| 0 <= k < i implies !(slot_valid(#[trigger] slot_bytes(newf, k))
        && slot_channel(slot_bytes(newf, k)) == channel_id) by {
        assert(slot_bytes(newf, k) == slot_bytes(flash, k));
        if k >= 1 {
            assert(slot_channel(slot_bytes(flash, k)) != channel_id);
        }
    }
    lemma_first_match_skip(newf, channel_id, 0, i);
}

} // verus!

verus! {

/// Every entry of the list up to `idx` is the info of some valid standard
/// slot below `idx`, and entries taken in order come from slots in
/// strictly increasing order.
proof fn lemma_valid_infos_from_slots(flash: Seq<u8>, idx: int, k: int) -> (j: int)
    requires
        1 <= idx <= NUM_SLOTS,
        0 <= k < valid_infos_upto(flash, idx).len(),
    ensures
        1 <= j < idx,
        slot_valid(slot_bytes(flash, j)),
        valid_infos_upto(flash, idx)[k] == slot_info(slot_bytes(flash, j)),
        valid_infos_upto(flash, j + 1).len() == k + 1,
    decreases idx,
{
    let cur = valid_infos_upto(flash, idx);
    let prev = valid_infos_upto(flash, idx - 1);
    if k < prev.len() {
        let j = lemma_valid_infos_from_slots(flash, idx - 1, k);
        j
    } else {
        // the last entry comes from slot idx - 1, which must be valid
        assert(slot_valid(slot_bytes(flash, idx - 1)));
        idx - 1
    }
}

/// Slot replacement, seen through the list: when no two valid slots hold
/// the same channel, the subscription list holds no two entries with the
/// same channel id — one entry per installed channel.
pub proof fn lemma_list_channels_unique(flash: Seq<u8>)
    requires
        store_channels_unique(flash),
    ensures
        forall|k1: int, k2: int|
            0 <= k1 < k2 < valid_infos(flash).len() ==> (#[trigger] valid_infos(flash)[k1])
                .channel_id != (#[trigger] valid_infos(flash)[k2]).channel_id,
{
    assert forall|k1: int, k2: int| 0 <= k1 < k2 < valid_infos(flash).len() implies (
    #[trigger] valid_infos(flash)[k1]).channel_id != (
    #[trigger] valid_infos(flash)[k2]).channel_id by {
        let j1 = lemma_valid_infos_from_slots(flash, NUM_SLOTS as int, k1);
        let j2 = lemma_valid_infos_from_slots(flash, NUM_SLOTS as int, k2);
        lemma_valid_infos_len_monotone(flash, j1 + 1, j2 + 1);
        assert(j1 != j2);
    }
}

/// The list over a longer slot prefix is at least as long.
proof fn lemma_valid_infos_len_monotone(flash: Seq<u8>, a: int, b: int)
    requires
        1 <= a,
        1 <= b,
    ensures
        a <= b ==> valid_infos_upto(flash, a).len() <= valid_infos_upto(flash, b).len(),
    decreases b,
{
    if a < b {
        lemma_valid_infos_len_monotone(flash, a, b - 1);
    }
}

} // verus!

verus! {

/// An erased slot fails validation: a fresh device, or an erased page,
/// reads as holding no subscription.
pub proof fn lemma_erased_slot_absent(s: Seq<u8>)
    requires
        s.len() == 128,
        forall|i: int| 0 <= i < 128 ==> s[i] == 0xFFu8,
    ensures
        !slot_valid(s),
{
    if slot_valid(s) {
        assert(s.subrange(0, 16)[0] == spec_complement(s.subrange(16, 32))[0]);
        assert(s[0] == !s[16]);
        assert(!(0xFFu8 == !0xFFu8)) by (bit_vector);
        assert(false);
    }
}

} // verus!

verus! {

/// A fresh, fully erased flash satisfies the store invariants: no valid
/// standard slot exists, so uniqueness and the valid prefix hold trivially.
/// Together with the preservation across updates, any sequence of complete
/// updates from a fresh device keeps one installed subscription per channel.
pub proof fn lemma_fresh_store_invariants(flash: Seq<u8>)
    requires
        flash.len() == LEN_FLASH,
        forall|i: int| 0 <= i < LEN_FLASH ==> flash[i] == 0xFFu8,
    ensures
        store_channels_unique(flash),
        store_valid_prefix(flash),
        forall|j: int| 0 <= j < NUM_SLOTS ==> !slot_valid(#[trigger] slot_bytes(flash, j)),
{
    assert forall|j: int| 0 <= j < NUM_SLOTS implies !slot_valid(
        #[trigger] slot_bytes(flash, j),
    ) by {
        let s = slot_bytes(flash, j);
        assert(forall|i: int| 0 <= i < 128 ==> s[i] == 0xFFu8);
        lemma_erased_slot_absent(s);
    }
}

/// Writing the emergency slot leaves every standard slot as it was, so the
/// store invariants over the standard slots are untouched by provisioning.
pub proof fn lemma_provision_preserves_store_invariants(flash: Seq<u8>, image: Seq<u8>)
    requires
        flash.len() == LEN_FLASH,
        image.len() == 128,
    ensures
        store_channels_unique(flash) ==> store_channels_unique(store_with_slot(flash, 0, image)),
        store_valid_prefix(flash) ==> store_valid_prefix(store_with_slot(flash, 0, image)),
{
    lemma_store_with_slot_slots(flash, 0, image);
}

} // verus!
