//! The dynamically typed input values the filters accept, and the
//! value-to-text coercion.
//!
//! Scalars ([`Value::Text`], [`Value::Integer`], [`Value::Float`],
//! [`Value::Boolean`]) and [`Value::Null`] coerce to text; the composite
//! variants ([`Value::Object`], [`Value::Array`]) are rejected by every
//! operation. A float reaches this library already rendered in its host's
//! canonical textual form, since the coercion leaves that form untouched.

use vstd::prelude::*;

verus! {

/// A dynamically typed scalar or composite value, as a template engine
/// hands one to a filter.
pub enum Value {
    /// A piece of text; coercion passes it through unchanged.
    Text(String),
    /// An integer; coercion renders it in decimal, with a leading `-` when
    /// negative. The range covers both the signed and the unsigned 64-bit
    /// integers a host engine distinguishes.
    Integer(i128),
    /// A floating-point number, carried as the canonical text the host's own
    /// rendering produced (e.g. `12.23`); coercion passes that text through.
    Float(String),
    /// A boolean; coercion renders it as `true` or `false`.
    Boolean(bool),
    /// The null value; coercion renders it as the empty string.
    Null,
    /// A key-to-value mapping. Not renderable as a padded scalar.
    Object,
    /// A sequence of values. Not renderable as a padded scalar.
    Array,
}

/// Composite values cannot be formatted and are rejected.
pub open spec fn is_composite(v: Value) -> bool {
    v is Object || v is Array
}

/// The decimal digit character for `d`.
pub open spec fn digit_char(d: int) -> char {
    if d == 0 {
        '0'
    } else if d == 1 {
        '1'
    } else if d == 2 {
        '2'
    } else if d == 3 {
        '3'
    } else if d == 4 {
        '4'
    } else if d == 5 {
        '5'
    } else if d == 6 {
        '6'
    } else if d == 7 {
        '7'
    } else if d == 8 {
        '8'
    } else {
        '9'
    }
}

/// The decimal digits of `n`, most significant first, with no leading zeros
/// (except for `n == 0`, which is the single digit `0`).
pub open spec fn dec_digits(n: nat) -> Seq<char>
    decreases n,
{
    if n < 10 {
        seq![digit_char(n as int)]
    } else {
        dec_digits(n / 10) + seq![digit_char((n % 10) as int)]
    }
}

/// The canonical decimal text of an integer: its digits, preceded by `-`
/// when it is negative.
pub open spec fn int_text(i: int) -> Seq<char> {
    if i < 0 {
        seq!['-'] + dec_digits((-i) as nat)
    } else {
        dec_digits(i as nat)
    }
}

/// The text a value coerces to: text and floats pass through, integers
/// render in decimal, booleans as `true`/`false`, null as the empty string.
/// Composite values never reach the coercion; they stand here as empty only
/// to keep the function total.
pub open spec fn coerced_text(v: Value) -> Seq<char> {
    match v {
        Value::Text(s) => s@,
        Value::Integer(i) => int_text(i as int),
        Value::Float(t) => t@,
        Value::Boolean(b) => if b {
            "true"@
        } else {
            "false"@
        },
        Value::Null => Seq::<char>::empty(),
        Value::Object => Seq::<char>::empty(),
        Value::Array => Seq::<char>::empty(),
    }
}

/// The one-character string slice for the decimal digit `d`.
fn digit_str(d: u128) -> (s: &'static str)
    requires
        d < 10,
    ensures
        s@ == seq![digit_char(d as int)],
{
    proof {
        reveal_strlit("0");
        reveal_strlit("1");
        reveal_strlit("2");
        reveal_strlit("3");
        reveal_strlit("4");
        reveal_strlit("5");
        reveal_strlit("6");
        reveal_strlit("7");
        reveal_strlit("8");
        reveal_strlit("9");
    }
    let s = if d == 0 {
        "0"
    } else if d == 1 {
        "1"
    } else if d == 2 {
        "2"
    } else if d == 3 {
        "3"
    } else if d == 4 {
        "4"
    } else if d == 5 {
        "5"
    } else if d == 6 {
        "6"
    } else if d == 7 {
        "7"
    } else if d == 8 {
        "8"
    } else {
        "9"
    };
    proof {
        assert(s@ =~= seq![digit_char(d as int)]);
    }
    s
}

/// The decimal digits of `n` as a `String`.
fn nat_to_string(n: u128) -> (s: String)
    ensures
        s@ == dec_digits(n as nat),
    decreases n,
{
    if n < 10 {
        let s = digit_str(n);
        s.to_owned()
    } else {
        let mut s = nat_to_string(n / 10);
        s.append(digit_str(n % 10));
        proof {
            assert(s@ =~= dec_digits(n as nat));
        }
        s
    }
}

/// The canonical decimal text of `i`.
fn int_to_string(i: i128) -> (s: String)
    ensures
        s@ == int_text(i as int),
{
    if i >= 0 {
        nat_to_string(i as u128)
    } else {
        let mag: u128 = ((-(i + 1)) as u128) + 1;
        proof {
            assert(mag as int == -(i as int));
        }
        let mut s = "-".to_owned();
        let digits = nat_to_string(mag);
        s.append(digits.as_str());
        proof {
            reveal_strlit("-");
            assert(s@ =~= int_text(i as int));
        }
        s
    }
}

/// Coerces a scalar-or-null value to its textual form: text and floats pass
/// through, integers render in decimal, booleans as `true`/`false`, null as
/// the empty string.
pub fn coerce_to_text(value: &Value) -> (t: String)
    requires
        !is_composite(*value),
    ensures
        t@ == coerced_text(*value),
{
    match value {
        Value::Text(s) => s.clone(),
        Value::Integer(i) => int_to_string(*i),
        Value::Float(t) => t.clone(),
        Value::Boolean(b) => if *b {
            "true".to_owned()
        } else {
            "false".to_owned()
        },
        Value::Null => String::new(),
        Value::Object => String::new(),
        Value::Array => String::new(),
    }
}

} // verus!
