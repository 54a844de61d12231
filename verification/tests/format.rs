use quickjs_result::decimal::push_decimal;
use quickjs_result::strings::str_eq;
use quickjs_result::{CStrCause, Error, IoCause, NulCause, Utf8Cause};

fn rendered(n: usize) -> String {
    let mut out = String::new();
    push_decimal(&mut out, n);
    out
}

fn nul_cause() -> NulCause {
    NulCause {
        position: 3,
        bytes: vec![b'a', b'b', b'c', 0, b'd'],
        description: String::from("nul byte found in provided data at position: 3"),
    }
}

fn utf8_cause() -> Utf8Cause {
    Utf8Cause {
        valid_up_to: 1,
        error_len: Some(1),
        description: String::from("invalid utf-8 sequence of 1 bytes from index 1"),
    }
}

#[test]
fn decimal_of_zero_is_one_digit() {
    assert_eq!(rendered(0), "0");
}

#[test]
fn decimal_of_single_digits() {
    assert_eq!(rendered(7), "7");
    assert_eq!(rendered(9), "9");
}

#[test]
fn decimal_at_the_powers_of_ten() {
    assert_eq!(rendered(10), "10");
    assert_eq!(rendered(99), "99");
    assert_eq!(rendered(100), "100");
    assert_eq!(rendered(1000), "1000");
}

#[test]
fn decimal_keeps_inner_zeros() {
    assert_eq!(rendered(10203), "10203");
    assert_eq!(rendered(4000000), "4000000");
}

#[test]
fn decimal_of_the_largest_number() {
    assert_eq!(rendered(usize::MAX), format!("{}", usize::MAX));
}

#[test]
fn decimal_appends_to_what_is_there() {
    let mut out = String::from("n = ");
    push_decimal(&mut out, 42);
    assert_eq!(out, "n = 42");
}

#[test]
fn decimal_agrees_with_the_standard_rendering() {
    let mut n: usize = 1;
    for _ in 0..19 {
        assert_eq!(rendered(n), format!("{}", n));
        assert_eq!(rendered(n - 1), format!("{}", n - 1));
        assert_eq!(rendered(n + 1), format!("{}", n + 1));
        n = n.wrapping_mul(10);
    }
}

#[test]
fn str_eq_tells_texts_apart() {
    assert!(str_eq("", ""));
    assert!(str_eq("Object", "Object"));
    assert!(!str_eq("Object", "object"));
    assert!(!str_eq("Object", "Objec"));
    assert!(!str_eq("Objec", "Object"));
    assert!(str_eq("h\u{e9}llo \u{1f600}", "h\u{e9}llo \u{1f600}"));
    assert!(!str_eq("h\u{e9}llo", "h\u{e8}llo"));
}

#[test]
fn text_of_allocation() {
    assert_eq!(Error::Allocation.to_string(), "Allocation failed while creating object");
}

#[test]
fn text_of_duplicate_exports() {
    assert_eq!(
        Error::DuplicateExports.to_string(),
        "Tried to export two values with the same name from one module"
    );
}

#[test]
fn text_of_invalid_string() {
    assert_eq!(
        Error::InvalidString(nul_cause()).to_string(),
        "String contained internal null bytes: nul byte found in provided data at position: 3"
    );
}

#[test]
fn text_of_invalid_c_str() {
    let cause = CStrCause { description: String::from("data provided is not nul terminated") };
    assert_eq!(
        Error::InvalidCStr(cause).to_string(),
        "CStr didn't end in a null byte: data provided is not nul terminated"
    );
}

#[test]
fn text_of_utf8() {
    assert_eq!(
        Error::Utf8(utf8_cause()).to_string(),
        "Conversion from string failed: invalid utf-8 sequence of 1 bytes from index 1"
    );
}

#[test]
fn text_of_io() {
    let cause = IoCause { description: String::from("entity not found") };
    assert_eq!(Error::Io(cause).to_string(), "IO Error: entity not found");
}

#[test]
fn text_of_exception() {
    assert_eq!(Error::Exception.to_string(), "quickjs generated an exception");
}

#[test]
fn text_of_unknown() {
    assert_eq!(Error::Unknown.to_string(), "quickjs library created a unknown error");
}

#[test]
fn text_of_unrelated_runtime() {
    assert_eq!(
        Error::UnrelatedRuntime.to_string(),
        "Restoring Persistent in an unrelated runtime"
    );
}

#[test]
fn text_of_from_js() {
    assert_eq!(
        Error::new_from_js("String", "u32").to_string(),
        "Error converting from js 'String' into type 'u32'"
    );
    assert_eq!(
        Error::new_from_js_message("String", "u32", "not a number").to_string(),
        "Error converting from js 'String' into type 'u32': not a number"
    );
}

#[test]
fn text_of_into_js() {
    assert_eq!(
        Error::new_into_js("u64", "Int").to_string(),
        "Error converting from 'u64' into js 'Int'"
    );
    assert_eq!(
        Error::new_into_js_message("u64", "Int", String::from("too large")).to_string(),
        "Error converting from 'u64' into js 'Int': too large"
    );
}

#[test]
fn text_of_num_args_with_both_bounds() {
    let text = Error::new_num_args(1..3, 5).to_string();
    assert!(text.contains("5 argument(s)"));
    assert!(text.contains("1..3 expected"));
    assert_eq!(text, "Error calling function with 5 argument(s) while 1..3 expected");
}

#[test]
fn text_of_num_args_without_upper_bound() {
    let text = Error::new_num_args(2..usize::MAX, 0).to_string();
    assert!(text.contains("2.. expected"));
    assert_eq!(text, "Error calling function with 0 argument(s) while 2.. expected");
}

#[test]
fn text_of_num_args_just_below_unbounded() {
    let text = Error::new_num_args(0..usize::MAX - 1, 12).to_string();
    assert_eq!(
        text,
        format!("Error calling function with 12 argument(s) while 0..{} expected", usize::MAX - 1)
    );
}

#[test]
fn text_of_resolving() {
    let error = Error::Resolving {
        base: String::from("/a.js"),
        name: String::from("./b.js"),
        message: None,
    };
    assert_eq!(error.to_string(), "Error resolving module './b.js' from '/a.js'");
    assert_eq!(
        Error::new_resolving("/a.js", "./b.js").to_string(),
        "Error resolving module './b.js' from '/a.js'"
    );
    assert_eq!(
        Error::new_resolving_message("/a.js", "./b.js", "no such file").to_string(),
        "Error resolving module './b.js' from '/a.js': no such file"
    );
}

#[test]
fn text_of_loading() {
    assert_eq!(Error::new_loading("mod.js").to_string(), "Error loading module 'mod.js'");
    assert_eq!(
        Error::new_loading_message("mod.js", "syntax error").to_string(),
        "Error loading module 'mod.js': syntax error"
    );
}

#[test]
fn empty_message_is_rendered_like_none() {
    assert_eq!(
        Error::new_from_js_message("a", "b", "").to_string(),
        Error::new_from_js("a", "b").to_string()
    );
    assert_eq!(
        Error::new_into_js_message("a", "b", "").to_string(),
        Error::new_into_js("a", "b").to_string()
    );
    assert_eq!(
        Error::new_resolving_message("/a.js", "./b.js", "").to_string(),
        Error::new_resolving("/a.js", "./b.js").to_string()
    );
    assert_eq!(
        Error::new_loading_message("m", String::new()).to_string(),
        Error::new_loading("m").to_string()
    );
    let with_empty = Error::FromJs { from: "x", to: "y", message: Some(String::new()) };
    let with_none = Error::FromJs { from: "x", to: "y", message: None };
    assert_eq!(with_empty.to_string(), with_none.to_string());
}

#[test]
fn fmt_appends_to_what_is_there() {
    let mut out = String::from("failed: ");
    Error::Exception.fmt(&mut out);
    assert_eq!(out, "failed: quickjs generated an exception");
    Error::new_loading("m").fmt(&mut out);
    assert_eq!(out, "failed: quickjs generated an exceptionError loading module 'm'");
}

#[test]
fn text_is_the_same_each_time() {
    let error = Error::new_num_args(0..7, 9);
    assert_eq!(error.to_string(), error.to_string());
}

#[test]
fn every_text_is_not_empty_and_holds_no_terminator() {
    let errors = vec![
        Error::Allocation,
        Error::DuplicateExports,
        Error::InvalidString(nul_cause()),
        Error::InvalidCStr(CStrCause { description: String::new() }),
        Error::Utf8(utf8_cause()),
        Error::Io(IoCause { description: String::new() }),
        Error::Exception,
        Error::new_from_js("", ""),
        Error::new_into_js("", ""),
        Error::new_num_args(0..0, 0),
        Error::new_resolving("", ""),
        Error::new_loading(""),
        Error::UnrelatedRuntime,
        Error::Unknown,
    ];
    for error in errors.iter() {
        let text = error.to_string();
        assert!(!text.is_empty());
        assert!(!text.contains('\0'));
        assert_eq!(text.lines().count(), 1);
    }
}

#[test]
fn a_line_break_comes_only_from_a_carried_text() {
    let error = Error::new_loading_message("m.js", "line one\nline two");
    assert_eq!(error.to_string(), "Error loading module 'm.js': line one\nline two");
    assert_eq!(error.to_string().lines().count(), 2);
}

#[test]
fn c_string_is_the_text_and_one_terminator() {
    let errors = vec![
        Error::Allocation,
        Error::InvalidString(nul_cause()),
        Error::new_from_js_message("String", "u32", "not a number"),
        Error::new_num_args(1..3, 5),
        Error::new_resolving("/a.js", "./b.js"),
        Error::Unknown,
    ];
    for error in errors.iter() {
        let bytes = error.to_cstring();
        let mut expected = error.to_string().into_bytes();
        expected.push(0);
        assert_eq!(bytes, expected);
        assert_eq!(bytes.iter().filter(|b| **b == 0).count(), 1);
        assert_eq!(bytes[bytes.len() - 1], 0);
    }
}

#[test]
fn c_string_of_text_beyond_ascii() {
    let error = Error::new_loading_message("caf\u{e9}.js", "\u{4e0d}\u{884c} \u{1f600}");
    let bytes = error.to_cstring();
    let text = "Error loading module 'caf\u{e9}.js': \u{4e0d}\u{884c} \u{1f600}";
    assert_eq!(error.to_string(), text);
    assert_eq!(&bytes[..bytes.len() - 1], text.as_bytes());
    assert_eq!(bytes[bytes.len() - 1], 0);
    assert_eq!(bytes.iter().filter(|b| **b == 0).count(), 1);
}

#[test]
fn c_string_keeps_a_terminator_that_a_message_brought() {
    let error = Error::new_from_js_message("a", "b", "x\0y");
    let bytes = error.to_cstring();
    assert_eq!(bytes.iter().filter(|b| **b == 0).count(), 2);
    assert_eq!(bytes[bytes.len() - 1], 0);
}
