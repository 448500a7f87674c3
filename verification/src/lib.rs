//! Text-alignment filters for fixed-width plaintext output.
//!
//! Three operations — `right_align`, `left_align` and `center` — take a
//! dynamically typed scalar value and an argument table carrying a `length`
//! argument, coerce the value to text, and pad it with ASCII spaces to the
//! requested field width. Over-length text is never truncated.

mod args;
mod error;
mod filters;
mod laws;
mod pad;
mod value;

pub use args::Arg;
pub use args::Args;
pub use args::lookup;
pub use error::FormatError;
pub use error::message_text;
pub use filters::accepts;
pub use filters::center;
pub use filters::evaluate;
pub use filters::evaluated;
pub use filters::filter_outcome;
pub use filters::left_align;
pub use filters::right_align;
pub use filters::valid_width;
pub use filters::width_of;
pub use laws::lead_count;
pub use laws::lemma_center_balanced;
pub use laws::lemma_center_null;
pub use laws::lemma_left_align_starts_with;
pub use laws::lemma_overlong_unchanged;
pub use laws::lemma_pad_shape;
pub use laws::lemma_right_align_ends_with;
pub use pad::Align;
pub use pad::aligned;
pub use pad::centered;
pub use pad::left_aligned;
pub use pad::pad;
pub use pad::right_aligned;
pub use pad::spaces;
pub use pad::text_width;
pub use value::Value;
pub use value::coerce_to_text;
pub use value::coerced_text;
pub use value::dec_digits;
pub use value::digit_char;
pub use value::int_text;
pub use value::is_composite;
