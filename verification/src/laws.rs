//! Laws the alignment operations obey, stated over the spec functions the
//! operations' own contracts use and proved once for all inputs.

use vstd::prelude::*;
use crate::pad::Align;
use crate::pad::aligned;
use crate::pad::centered;
use crate::pad::left_aligned;
use crate::pad::right_aligned;
use crate::pad::spaces;
use crate::value::Value;
use crate::value::coerced_text;

verus! {

/// Two runs of spaces concatenate to one longer run.
proof fn lemma_spaces_concat(a: nat, b: nat)
    ensures
        spaces(a) + spaces(b) == spaces(a + b),
{
    assert(spaces(a) + spaces(b) =~= spaces(a + b));
}

/// The number of fill characters placed before the text: none for left
/// alignment, all of them for right alignment, and half (rounded down) for
/// centering.
pub open spec fn lead_count(n: nat, w: nat, a: Align) -> nat {
    if n >= w {
        0
    } else {
        match a {
            Align::Left => 0,
            Align::Right => (w - n) as nat,
            Align::Center => (((w - n) as nat) / 2) as nat,
        }
    }
}

/// Text at least as wide as the field is returned unchanged by every
/// alignment: padding never removes characters and nothing is truncated.
pub proof fn lemma_overlong_unchanged(t: Seq<char>, w: nat, a: Align)
    requires
        t.len() >= w,
    ensures
        aligned(t, w, a) == t,
{
}

/// Text narrower than the field pads to exactly the field width: the text
/// stands contiguously after `lead_count` fill characters, and every other
/// character of the result is a space.
pub proof fn lemma_pad_shape(t: Seq<char>, w: nat, a: Align)
    requires
        t.len() < w,
    ensures
        aligned(t, w, a).len() == w,
        aligned(t, w, a).subrange(
            lead_count(t.len(), w, a) as int,
            lead_count(t.len(), w, a) + t.len() as int,
        ) == t,
        forall|j: int|
            0 <= j < lead_count(t.len(), w, a) ==> aligned(t, w, a)[j] == ' ',
        forall|j: int|
            lead_count(t.len(), w, a) + t.len() <= j < w ==> aligned(t, w, a)[j] == ' ',
{
    let k = lead_count(t.len(), w, a) as int;
    assert(aligned(t, w, a).subrange(k, k + t.len()) =~= t);
}

/// The right-aligned result always ends with the original text.
pub proof fn lemma_right_align_ends_with(t: Seq<char>, w: nat)
    ensures
        right_aligned(t, w).subrange(
            right_aligned(t, w).len() - t.len(),
            right_aligned(t, w).len() as int,
        ) == t,
{
    let r = right_aligned(t, w);
    assert(r.subrange(r.len() - t.len(), r.len() as int) =~= t);
}

/// The left-aligned result always starts with the original text.
pub proof fn lemma_left_align_starts_with(t: Seq<char>, w: nat)
    ensures
        left_aligned(t, w).subrange(0, t.len() as int) == t,
{
    assert(left_aligned(t, w).subrange(0, t.len() as int) =~= t);
}

/// Centering splits the padding so that the leading and trailing runs differ
/// by at most one space, the extra one (for an odd amount) trailing; text at
/// least as wide as the field takes no padding at all.
pub proof fn lemma_center_balanced(t: Seq<char>, w: nat)
    ensures
        t.len() >= w ==> centered(t, w) == t,
        t.len() < w ==> ({
            let lead = lead_count(t.len(), w, Align::Center);
            let trail = (w - t.len() - lead) as nat;
            &&& centered(t, w) == spaces(lead) + t + spaces(trail)
            &&& lead <= trail
            &&& trail - lead <= 1
        }),
{
}

/// Centering the null value fills the whole field with spaces.
pub proof fn lemma_center_null(w: nat)
    ensures
        centered(coerced_text(Value::Null), w) == spaces(w),
{
    let t = coerced_text(Value::Null);
    assert(t.len() == 0);
    if t.len() >= w {
        assert(centered(t, w) =~= spaces(w));
    } else {
        let lead = w / 2;
        let trail = (w - lead) as nat;
        assert(spaces(lead) + t =~= spaces(lead));
        lemma_spaces_concat(lead, trail);
    }
}

} // verus!
