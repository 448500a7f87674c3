use tera_plaintext_filters::{center, left_align, right_align, Args, FormatError, Value};

fn args_with_length(length: Value) -> Args {
    let mut args = Args::new();
    args.insert("length".to_string(), length);
    args
}

#[test]
fn check_alignment() {
    let v = Value::Text("Shorttext".to_string());
    let hm = Args::new();
    let r = center(&v, &hm);
    assert!(r.is_err());

    let hm = args_with_length(Value::Integer(20));
    let r = center(&v, &hm).unwrap();
    assert_eq!("     Shorttext      ", r.as_str());
    let r = left_align(&v, &hm).unwrap();
    assert_eq!("Shorttext           ", r.as_str());
    let r = right_align(&v, &hm).unwrap();
    assert_eq!("           Shorttext", r.as_str());
}

#[test]
fn check_input() {
    let v = Value::Text("12.23".to_string());
    let hm = args_with_length(Value::Integer(20));
    let r = center(&v, &hm).unwrap();
    assert_eq!("       12.23        ", r.as_str());
    let v = Value::Float(format!("{}", 12.23));
    let r = center(&v, &hm).unwrap();
    assert_eq!("       12.23        ", r.as_str());
    assert_eq!("                    ", center(&Value::Null, &hm).unwrap());

    assert!(center(&Value::Object, &hm).is_err());
    assert!(center(&Value::Array, &hm).is_err());
}

#[test]
fn overlong_text_is_unchanged() {
    let v = Value::Text("unabridged".to_string());
    let shorter = args_with_length(Value::Integer(4));
    assert_eq!("unabridged", center(&v, &shorter).unwrap());
    assert_eq!("unabridged", left_align(&v, &shorter).unwrap());
    assert_eq!("unabridged", right_align(&v, &shorter).unwrap());

    let equal = args_with_length(Value::Integer(10));
    assert_eq!("unabridged", center(&v, &equal).unwrap());
    assert_eq!("unabridged", left_align(&v, &equal).unwrap());
    assert_eq!("unabridged", right_align(&v, &equal).unwrap());
}

#[test]
fn padded_result_has_exact_width_and_contains_text() {
    let v = Value::Text("ab".to_string());
    let hm = args_with_length(Value::Integer(7));
    for r in [
        center(&v, &hm).unwrap(),
        left_align(&v, &hm).unwrap(),
        right_align(&v, &hm).unwrap(),
    ] {
        assert_eq!(7, r.chars().count());
        assert!(r.contains("ab"));
        assert_eq!(5, r.chars().filter(|c| *c == ' ').count());
    }
}

#[test]
fn right_align_ends_with_text_and_left_align_starts_with_it() {
    let v = Value::Text("edge".to_string());
    let hm = args_with_length(Value::Integer(9));
    assert!(right_align(&v, &hm).unwrap().ends_with("edge"));
    assert!(left_align(&v, &hm).unwrap().starts_with("edge"));
}

#[test]
fn center_puts_the_odd_space_on_the_trailing_side() {
    let v = Value::Text("ab".to_string());
    let hm = args_with_length(Value::Integer(5));
    assert_eq!(" ab  ", center(&v, &hm).unwrap());
    let hm = args_with_length(Value::Integer(6));
    assert_eq!("  ab  ", center(&v, &hm).unwrap());
}

#[test]
fn null_centers_to_all_spaces() {
    let hm = args_with_length(Value::Integer(5));
    assert_eq!("     ", center(&Value::Null, &hm).unwrap());
    let hm = args_with_length(Value::Integer(0));
    assert_eq!("", center(&Value::Null, &hm).unwrap());
}

#[test]
fn integers_render_in_decimal() {
    let hm = args_with_length(Value::Integer(6));
    assert_eq!("   -42", right_align(&Value::Integer(-42), &hm).unwrap());
    assert_eq!("0     ", left_align(&Value::Integer(0), &hm).unwrap());
    assert_eq!(" 1024 ", center(&Value::Integer(1024), &hm).unwrap());
    assert_eq!(
        "18446744073709551615",
        right_align(&Value::Integer(18446744073709551615), &hm).unwrap()
    );
}

#[test]
fn booleans_render_as_words() {
    let hm = args_with_length(Value::Integer(6));
    assert_eq!(" true ", center(&Value::Boolean(true), &hm).unwrap());
    assert_eq!("false ", left_align(&Value::Boolean(false), &hm).unwrap());
}

#[test]
fn width_counts_characters_not_bytes() {
    let v = Value::Text("éé".to_string());
    let hm = args_with_length(Value::Integer(4));
    assert_eq!("  éé", right_align(&v, &hm).unwrap());
}

#[test]
fn missing_length_is_reported_by_name() {
    let v = Value::Text("x".to_string());
    let r = left_align(&v, &Args::new());
    match r {
        Err(FormatError::MissingArgument { filter, argument }) => {
            assert_eq!("left_align", filter);
            assert_eq!("length", argument);
        }
        _ => panic!("expected a missing-argument error"),
    }
    let message = right_align(&v, &Args::new()).unwrap_err().message();
    assert_eq!("Filter `right_align` expected an arg called `length`", message);
}

#[test]
fn unusable_length_is_reported_by_name() {
    let v = Value::Text("x".to_string());
    for bad in [
        Value::Text("20".to_string()),
        Value::Integer(-1),
        Value::Float("20.0".to_string()),
        Value::Boolean(true),
        Value::Null,
        Value::Object,
        Value::Array,
    ] {
        let r = center(&v, &args_with_length(bad));
        match r {
            Err(FormatError::InvalidArgumentType { filter, argument }) => {
                assert_eq!("center", filter);
                assert_eq!("length", argument);
            }
            _ => panic!("expected an invalid-argument error"),
        }
    }
    let message = center(&v, &args_with_length(Value::Integer(-1)))
        .unwrap_err()
        .message();
    assert_eq!(
        "Filter `center` received an incorrect type for arg `length`: expected a non-negative integer",
        message
    );
}

#[test]
fn composites_are_rejected_whatever_the_length() {
    let good = args_with_length(Value::Integer(20));
    let bad = args_with_length(Value::Text("20".to_string()));
    for value in [Value::Object, Value::Array] {
        for args in [&good, &bad, &Args::new()] {
            let r = right_align(&value, args);
            match r {
                Err(FormatError::InvalidInputType { filter }) => {
                    assert_eq!("right_align", filter);
                }
                _ => panic!("expected an invalid-input error"),
            }
        }
    }
    let message = center(&Value::Object, &good).unwrap_err().message();
    assert_eq!(
        "Filter `center` was called on an incorrect value: got a composite but expected a text or number",
        message
    );
}

#[test]
fn repeated_insertion_replaces_the_length() {
    let mut args = Args::new();
    args.insert("length".to_string(), Value::Integer(3));
    args.insert("length".to_string(), Value::Integer(8));
    let v = Value::Text("hi".to_string());
    assert_eq!("hi      ", left_align(&v, &args).unwrap());
}

#[test]
fn unrecognized_arguments_are_ignored() {
    let mut args = Args::new();
    args.insert("pad_char".to_string(), Value::Text("*".to_string()));
    args.insert("length".to_string(), Value::Integer(4));
    args.insert("width".to_string(), Value::Integer(2));
    let v = Value::Text("ok".to_string());
    assert_eq!("  ok", right_align(&v, &args).unwrap());
}
