//! The width-padding algorithm shared by the three alignment operations.
//!
//! Width is measured in base character units (`char`s of the string's view),
//! the fill character is always the ASCII space, and padding never removes
//! characters: text at least as long as the field is returned unchanged.

use vstd::prelude::*;

verus! {

/// Which side of the field the text is flush with.
#[derive(Clone, Copy)]
pub enum Align {
    /// Text flush left, padding appended on the right.
    Left,
    /// Text flush right, padding prepended on the left.
    Right,
    /// Padding split across both sides, as evenly as possible; for an odd
    /// padding amount the extra space goes on the trailing side.
    Center,
}

/// A run of `n` ASCII space characters.
pub open spec fn spaces(n: nat) -> Seq<char> {
    Seq::new(n, |i: int| ' ')
}

/// `t` padded on the left up to width `w`; unchanged if already that wide.
pub open spec fn right_aligned(t: Seq<char>, w: nat) -> Seq<char> {
    if t.len() >= w {
        t
    } else {
        spaces((w - t.len()) as nat) + t
    }
}

/// `t` padded on the right up to width `w`; unchanged if already that wide.
pub open spec fn left_aligned(t: Seq<char>, w: nat) -> Seq<char> {
    if t.len() >= w {
        t
    } else {
        t + spaces((w - t.len()) as nat)
    }
}

/// `t` padded on both sides up to width `w`; unchanged if already that wide.
/// The leading run gets `floor(total / 2)` spaces, the trailing run the rest,
/// so an odd total leaves one more space trailing than leading.
pub open spec fn centered(t: Seq<char>, w: nat) -> Seq<char> {
    if t.len() >= w {
        t
    } else {
        let total = (w - t.len()) as nat;
        spaces(total / 2) + t + spaces((total - total / 2) as nat)
    }
}

/// `t` padded up to width `w` on the side(s) that `a` names.
pub open spec fn aligned(t: Seq<char>, w: nat, a: Align) -> Seq<char> {
    match a {
        Align::Left => left_aligned(t, w),
        Align::Right => right_aligned(t, w),
        Align::Center => centered(t, w),
    }
}

/// A `String` of exactly `n` spaces.
fn make_spaces(n: usize) -> (s: String)
    ensures
        s@ == spaces(n as nat),
{
    let mut s = String::new();
    let mut i: usize = 0;
    while i < n
        invariant
            i <= n,
            s@ == spaces(i as nat),
        decreases n - i,
    {
        s.append(" ");
        i = i + 1;
        proof {
            reveal_strlit(" ");
            assert(s@ =~= spaces(i as nat));
        }
    }
    s
}

/// The number of characters in `s`, i.e. the length of its view.
pub fn text_width(s: &str) -> (n: usize)
    ensures
        n == s@.len(),
{
    s.unicode_len()
}

/// Pads `text` with spaces up to `width` characters, placing the text within
/// the field as `align` says; text already `width` or more characters long
/// comes back unchanged.
pub fn pad(text: String, width: usize, align: Align) -> (r: String)
    ensures
        r@ == aligned(text@, width as nat, align),
{
    let n = text_width(text.as_str());
    if n >= width {
        return text;
    }
    let total = width - n;
    match align {
        Align::Left => {
            let fill = make_spaces(total);
            text.concat(fill.as_str())
        },
        Align::Right => {
            let fill = make_spaces(total);
            fill.concat(text.as_str())
        },
        Align::Center => {
            let lead = total / 2;
            let trail = total - lead;
            let mut r = make_spaces(lead);
            r.append(text.as_str());
            let fill = make_spaces(trail);
            r.append(fill.as_str());
            r
        },
    }
}

} // verus!
