use vstd::prelude::*;

use crate::subscription::{spec_slot_image, store_with_slot, Flash};
use crate::types::{ChannelSecret, StoredSubscription, SubscriptionInfo};

verus! {

// The compute core of the firmware builder: number parsing for decoder ids,
// and the stamping of the permanent emergency-channel slot.

/// The numeric value of one digit, in the given base, if it is one.
pub open spec fn spec_digit_val(c: u8, base: u32) -> Option<u32> {
    if 48 <= c <= 57 && c - 48 < base {
        Some((c - 48) as u32)
    } else if base == 16 && 97 <= c <= 102 {
        Some((c - 87) as u32)
    } else if base == 16 && 65 <= c <= 70 {
        Some((c - 55) as u32)
    } else {
        None
    }
}

/// The value of a digit string in the given base, folded left to right,
/// failing on any non-digit and on any value beyond the 32-bit range.
pub open spec fn spec_digits_val(s: Seq<u8>, base: u32) -> Option<u32>
    decreases s.len(),
{
    if s.len() == 0 {
        Some(0u32)
    } else {
        match spec_digits_val(s.drop_last(), base) {
            Some(v) => match spec_digit_val(s.last(), base) {
                Some(d) => {
                    if v * base + d <= u32::MAX {
                        Some((v * base + d) as u32)
                    } else {
                        None
                    }
                },
                None => None,
            },
            None => None,
        }
    }
}

/// What a number string names: `0x` followed by hexadecimal digits, or
/// decimal digits, in either case non-empty and within the 32-bit range.
pub open spec fn spec_parse_number(s: Seq<u8>) -> Option<u32> {
    if s.len() >= 2 && s[0] == 48 && s[1] == 120 {
        if s.len() > 2 {
            spec_digits_val(s.subrange(2, s.len() as int), 16)
        } else {
            None
        }
    } else {
        if s.len() > 0 {
            spec_digits_val(s, 10)
        } else {
            None
        }
    }
}

/// The numeric value of one digit character, in the given base.
fn digit_val(c: u8, base: u32) -> (r: Option<u32>)
    requires
        base == 10 || base == 16,
    ensures
        r == spec_digit_val(c, base),
{
    if 48 <= c && c <= 57 && ((c - 48) as u32) < base {
        Some((c - 48) as u32)
    } else if base == 16 && 97 <= c && c <= 102 {
        Some((c - 87) as u32)
    } else if base == 16 && 65 <= c && c <= 70 {
        Some((c - 55) as u32)
    } else {
        None
    }
}

/// Folds a digit string into its value, detecting overflow.
fn digits_val(s: &Vec<u8>, from: usize, base: u32) -> (r: Option<u32>)
    requires
        base == 10 || base == 16,
        from <= s@.len(),
    ensures
        r == spec_digits_val(s@.subrange(from as int, s@.len() as int), base),
{
    let mut acc: u32 = 0;
    let mut i: usize = from;
    while i < s.len()
        invariant
            base == 10 || base == 16,
            from <= i <= s@.len(),
            Some(acc) == spec_digits_val(s@.subrange(from as int, i as int), base),
        decreases s@.len() - i,
    {
        let ghost prefix = s@.subrange(from as int, i as int);
        let d = match digit_val(s[i], base) {
            Some(d) => d,
            None => {
                proof {
                    lemma_digits_val_extend_fail(s@, from as int, i as int, base);
                }
                return None;
            },
        };
        let next = match acc.checked_mul(base) {
            Some(m) => m.checked_add(d),
            None => None,
        };
        match next {
            Some(n) => {
                proof {
                    let prefix1 = s@.subrange(from as int, i + 1);
                    assert(prefix1.drop_last() =~= prefix);
                    assert(prefix1.last() == s@[i as int]);
                }
                acc = n;
            },
            None => {
                proof {
                    let prefix1 = s@.subrange(from as int, i + 1);
                    assert(prefix1.drop_last() =~= prefix);
                    assert(prefix1.last() == s@[i as int]);
                    lemma_digits_val_overflow_fail(s@, from as int, i + 1, base);
                }
                return None;
            },
        }
        i += 1;
    }
    assert(s@.subrange(from as int, s@.len() as int) =~= s@.subrange(from as int, i as int));
    Some(acc)
}

/// Once a prefix fails to parse, the whole string fails.
proof fn lemma_digits_val_fail_extends(s: Seq<u8>, from: int, mid: int, base: u32)
    requires
        0 <= from <= mid <= s.len(),
        spec_digits_val(s.subrange(from, mid), base) is None,
    ensures
        spec_digits_val(s.subrange(from, s.len() as int), base) is None,
    decreases s.len() - mid,
{
    if mid < s.len() {
        assert(s.subrange(from, mid + 1).drop_last() =~= s.subrange(from, mid));
        lemma_digits_val_fail_extends(s, from, mid + 1, base);
    } else {
        assert(s.subrange(from, s.len() as int) =~= s.subrange(from, mid));
    }
}

/// A non-digit at position `at` makes the whole string fail.
proof fn lemma_digits_val_extend_fail(s: Seq<u8>, from: int, at: int, base: u32)
    requires
        0 <= from <= at < s.len(),
        spec_digit_val(s[at], base) is None,
    ensures
        spec_digits_val(s.subrange(from, s.len() as int), base) is None,
{
    assert(s.subrange(from, at + 1).drop_last() =~= s.subrange(from, at));
    assert(s.subrange(from, at + 1).last() == s[at]);
    lemma_digits_val_fail_extends(s, from, at + 1, base);
}

/// An overflowing prefix makes the whole string fail.
proof fn lemma_digits_val_overflow_fail(s: Seq<u8>, from: int, mid: int, base: u32)
    requires
        0 <= from <= mid <= s.len(),
        spec_digits_val(s.subrange(from, mid), base) is None,
    ensures
        spec_digits_val(s.subrange(from, s.len() as int), base) is None,
{
    lemma_digits_val_fail_extends(s, from, mid, base);
}

/// Parses a number that can be either decimal (e.g., `42`) or hexadecimal
/// (e.g., `0x2A`), given as its ASCII bytes.
pub fn parse_number(s: &Vec<u8>) -> (r: Option<u32>)
    ensures
        r == spec_parse_number(s@),
{
    if s.len() >= 2 && s[0] == 48 && s[1] == 120 {
        if s.len() > 2 {
            digits_val(s, 2, 16)
        } else {
            None
        }
    } else {
        if s.len() > 0 {
            let r = digits_val(s, 0, 10);
            assert(s@.subrange(0, s@.len() as int) =~= s@);
            r
        } else {
            None
        }
    }
}

// ---------------------------------------------------------------------------
// Provisioning the emergency slot
// ---------------------------------------------------------------------------

/// Stamps the permanent emergency-channel subscription into slot 0: channel
/// 0, subscribed for all time, with the given channel secret. Only the
/// firmware builder writes this slot; no host message ever does.
pub fn provision_emergency_slot(flash: &mut Flash, channel_secret: ChannelSecret)
    requires
        old(flash).wf(),
        channel_secret.wf(),
    ensures
        final(flash).wf(),
        final(flash).bytes@ == store_with_slot(
            old(flash).bytes@,
            0,
            spec_slot_image(0u32, 0u64, u64::MAX, channel_secret.0@),
        ),
{
    let sub = StoredSubscription {
        info: SubscriptionInfo { channel_id: 0, start: 0, end: u64::MAX },
        channel_secret,
    };
    crate::subscription::write_subscription(flash, 0, &sub);
}

} // verus!
