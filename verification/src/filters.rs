//! The three alignment operations and their shared preprocessing.
//!
//! Each operation type-checks the value, extracts the `length` argument,
//! coerces the value to text and pads it to the requested width. Every
//! failure is reported at once; an invocation either fully succeeds with the
//! padded text or fails with no output.

use vstd::prelude::*;
use crate::args::Arg;
use crate::args::Args;
use crate::args::lookup;
use crate::error::FormatError;
use crate::pad::Align;
use crate::pad::aligned;
use crate::pad::pad;
use crate::value::Value;
use crate::value::coerce_to_text;
use crate::value::coerced_text;
use crate::value::is_composite;

verus! {

/// A value is usable as the `length` argument when it is an integer that is
/// non-negative and fits a `usize`.
pub open spec fn valid_width(v: Value) -> bool {
    v matches Value::Integer(i) && 0 <= i && i <= usize::MAX
}

/// The field width a valid `length` value denotes.
pub open spec fn width_of(v: Value) -> nat
    recommends
        valid_width(v),
{
    match v {
        Value::Integer(i) => if 0 <= i {
            i as nat
        } else {
            0
        },
        _ => 0,
    }
}

/// The inputs on which an operation succeeds: the value is not a composite,
/// and the argument table holds a usable `length`.
pub open spec fn accepts(v: Value, entries: Seq<Arg>) -> bool {
    &&& !is_composite(v)
    &&& lookup(entries, "length"@) matches Some(lv) && valid_width(lv)
}

/// What the shared preprocessing returns: a composite value fails with
/// `InvalidInputType`; otherwise a missing `length` fails with
/// `MissingArgument` and an unusable one with `InvalidArgumentType`; on the
/// remaining inputs it returns the coerced text and the width, and the error
/// names `filter` (and `length`, where an argument is at fault).
pub open spec fn evaluated(
    v: Value,
    entries: Seq<Arg>,
    filter: Seq<char>,
    r: Result<(String, usize), FormatError>,
) -> bool {
    if is_composite(v) {
        &&& r matches Err(FormatError::InvalidInputType { filter: f })
        &&& f@ == filter
    } else {
        match lookup(entries, "length"@) {
            Option::None => {
                &&& r matches Err(FormatError::MissingArgument { filter: f, argument: a })
                &&& f@ == filter
                &&& a@ == "length"@
            },
            Option::Some(lv) => if valid_width(lv) {
                &&& r matches Ok(p)
                &&& p.0@ == coerced_text(v)
                &&& p.1 == width_of(lv)
            } else {
                &&& r matches Err(FormatError::InvalidArgumentType { filter: f, argument: a })
                &&& f@ == filter
                &&& a@ == "length"@
            },
        }
    }
}

/// What a whole alignment operation returns: the same failures as
/// [`evaluated`], and on the accepted inputs the coerced text padded to the
/// requested width on the side(s) that `align` names.
pub open spec fn filter_outcome(
    v: Value,
    entries: Seq<Arg>,
    filter: Seq<char>,
    align: Align,
    r: Result<String, FormatError>,
) -> bool {
    if is_composite(v) {
        &&& r matches Err(FormatError::InvalidInputType { filter: f })
        &&& f@ == filter
    } else {
        match lookup(entries, "length"@) {
            Option::None => {
                &&& r matches Err(FormatError::MissingArgument { filter: f, argument: a })
                &&& f@ == filter
                &&& a@ == "length"@
            },
            Option::Some(lv) => if valid_width(lv) {
                &&& r matches Ok(s)
                &&& s@ == aligned(coerced_text(v), width_of(lv), align)
            } else {
                &&& r matches Err(FormatError::InvalidArgumentType { filter: f, argument: a })
                &&& f@ == filter
                &&& a@ == "length"@
            },
        }
    }
}

/// Shared preprocessing: rejects composites, extracts and validates the
/// `length` argument, and coerces the value to text for padding.
pub fn evaluate(value: &Value, args: &Args, filter: &str) -> (r: Result<
    (String, usize),
    FormatError,
>)
    ensures
        evaluated(*value, args@, filter@, r),
{
    match value {
        Value::Object => {
            return Err(FormatError::InvalidInputType { filter: filter.to_owned() });
        },
        Value::Array => {
            return Err(FormatError::InvalidInputType { filter: filter.to_owned() });
        },
        _ => {},
    }
    let key = "length".to_owned();
    match args.get(&key) {
        Option::None => Err(
            FormatError::MissingArgument { filter: filter.to_owned(), argument: key },
        ),
        Option::Some(lv) => match lv {
            Value::Integer(i) => {
                if 0 <= *i && *i <= (usize::MAX as i128) {
                    let w = *i as usize;
                    Ok((coerce_to_text(value), w))
                } else {
                    Err(
                        FormatError::InvalidArgumentType {
                            filter: filter.to_owned(),
                            argument: key,
                        },
                    )
                }
            },
            _ => Err(
                FormatError::InvalidArgumentType { filter: filter.to_owned(), argument: key },
            ),
        },
    }
}

/// Pads the value's text on the left with spaces so that it is flush to the
/// right edge of a field `length` characters wide.
pub fn right_align(value: &Value, args: &Args) -> (r: Result<String, FormatError>)
    ensures
        filter_outcome(*value, args@, "right_align"@, Align::Right, r),
        r is Ok <==> accepts(*value, args@),
{
    match evaluate(value, args, "right_align") {
        Ok(p) => Ok(pad(p.0, p.1, Align::Right)),
        Err(e) => Err(e),
    }
}

/// Pads the value's text on the right with spaces so that it is flush to the
/// left edge of a field `length` characters wide.
pub fn left_align(value: &Value, args: &Args) -> (r: Result<String, FormatError>)
    ensures
        filter_outcome(*value, args@, "left_align"@, Align::Left, r),
        r is Ok <==> accepts(*value, args@),
{
    match evaluate(value, args, "left_align") {
        Ok(p) => Ok(pad(p.0, p.1, Align::Left)),
        Err(e) => Err(e),
    }
}

/// Pads the value's text on both sides with spaces, as evenly as possible,
/// within a field `length` characters wide; an odd amount of padding leaves
/// one more space trailing than leading.
pub fn center(value: &Value, args: &Args) -> (r: Result<String, FormatError>)
    ensures
        filter_outcome(*value, args@, "center"@, Align::Center, r),
        r is Ok <==> accepts(*value, args@),
{
    match evaluate(value, args, "center") {
        Ok(p) => Ok(pad(p.0, p.1, Align::Center)),
        Err(e) => Err(e),
    }
}

} // verus!
