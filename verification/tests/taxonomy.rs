use quickjs_result::{
    CStrCause, Error, ErrorView, FromUtf8Cause, IoCause, NulCause, Text, Type,
    Utf8Cause,
};

fn all_kinds() -> Vec<Type> {
    vec![
        Type::Uninitialized,
        Type::Undefined,
        Type::Null,
        Type::Bool,
        Type::Int,
        Type::Float,
        Type::String,
        Type::Symbol,
        Type::Array,
        Type::Function,
        Type::Object,
        Type::Module,
        Type::Unknown,
    ]
}

#[test]
fn kind_labels_read_back() {
    for kind in all_kinds() {
        assert_eq!(Type::from_str(kind.as_str()), Ok(kind));
    }
}

#[test]
fn kind_labels_are_distinct() {
    let kinds = all_kinds();
    for (i, a) in kinds.iter().enumerate() {
        for (j, b) in kinds.iter().enumerate() {
            assert_eq!(a.as_str() == b.as_str(), i == j);
        }
    }
}

#[test]
fn kind_labels_are_matched_exactly() {
    assert_eq!(Type::from_str("Object"), Ok(Type::Object));
    assert_eq!(Type::from_str("String"), Ok(Type::String));
    assert_eq!(Type::from_str("object"), Err(()));
    assert_eq!(Type::from_str("Object "), Err(()));
    assert_eq!(Type::from_str(""), Err(()));
    assert_eq!(Type::from_str("u32"), Err(()));
    assert_eq!(Type::from_str("Unknow"), Err(()));
}

#[test]
fn from_js_to_js_needs_an_engine_kind_as_target() {
    let to_engine = Error::FromJs { from: "String", to: "Object", message: None };
    assert!(to_engine.is_from_js_to_js());
    let to_host = Error::FromJs { from: "Object", to: "u32", message: None };
    assert!(!to_host.is_from_js_to_js());
    assert!(to_host.is_from_js());
}

#[test]
fn from_js_to_js_is_false_of_other_errors() {
    assert!(!Error::new_into_js("String", "Object").is_from_js_to_js());
    assert!(!Error::Exception.is_from_js_to_js());
    assert!(!Error::new_loading("Object").is_from_js_to_js());
    assert!(Error::new_from_js_message("u32", "Int", "why").is_from_js_to_js());
}

#[test]
fn predicates_tell_the_variants_apart() {
    let errors = vec![
        Error::Allocation,
        Error::Exception,
        Error::new_from_js("a", "b"),
        Error::new_into_js("a", "b"),
        Error::new_num_args(0..1, 2),
        Error::new_resolving("a", "b"),
        Error::new_loading("a"),
    ];
    let expected = vec![
        [false, false, false, false, false, false],
        [true, false, false, false, false, false],
        [false, true, false, false, false, false],
        [false, false, true, false, false, false],
        [false, false, false, true, false, false],
        [false, false, false, false, true, false],
        [false, false, false, false, false, true],
    ];
    for (error, row) in errors.iter().zip(expected.iter()) {
        let got = [
            error.is_exception(),
            error.is_from_js(),
            error.is_into_js(),
            error.is_num_args(),
            error.is_resolving(),
            error.is_loading(),
        ];
        assert_eq!(&got, row);
    }
}

#[test]
fn constructors_fill_the_fields() {
    match Error::new_from_js("String", "u32") {
        Error::FromJs { from, to, message } => {
            assert_eq!(from, "String");
            assert_eq!(to, "u32");
            assert_eq!(message, None);
        }
        _ => panic!("not a conversion error"),
    }
    match Error::new_into_js_message("u8", "Int", "why") {
        Error::IntoJs { from, to, message } => {
            assert_eq!(from, "u8");
            assert_eq!(to, "Int");
            assert_eq!(message, Some(String::from("why")));
        }
        _ => panic!("not a conversion error"),
    }
    match Error::new_resolving_message(String::from("/base"), "./name", "why") {
        Error::Resolving { base, name, message } => {
            assert_eq!(base, "/base");
            assert_eq!(name, "./name");
            assert_eq!(message, Some(String::from("why")));
        }
        _ => panic!("not a resolving error"),
    }
    match Error::new_loading("name") {
        Error::Loading { name, message } => {
            assert_eq!(name, "name");
            assert_eq!(message, None);
        }
        _ => panic!("not a loading error"),
    }
    match Error::new_num_args(2..usize::MAX, 1) {
        Error::NumArgs { expected, given } => {
            assert_eq!(expected, 2..usize::MAX);
            assert_eq!(given, 1);
        }
        _ => panic!("not an argument error"),
    }
}

#[test]
fn text_inputs_become_owned_strings() {
    assert_eq!("abc".into_string(), "abc");
    assert_eq!(String::from("abc").into_string(), "abc");
    assert_eq!("".into_string(), "");
    let kept = String::from("kept");
    assert_eq!((&kept).into_string(), "kept");
    assert_eq!(Error::new_loading(&kept).to_string(), "Error loading module 'kept'");
}

#[test]
fn causes_convert_into_their_variants() {
    let nul = NulCause { position: 1, bytes: vec![b'a', 0], description: String::from("nul") };
    match Error::from(nul.clone()) {
        Error::InvalidString(cause) => assert_eq!(cause, nul),
        _ => panic!("not an invalid string"),
    }
    let c_str = CStrCause { description: String::from("not terminated") };
    match Error::from(c_str.clone()) {
        Error::InvalidCStr(cause) => assert_eq!(cause, c_str),
        _ => panic!("not an invalid C string"),
    }
    let utf8 =
        Utf8Cause { valid_up_to: 2, error_len: None, description: String::from("incomplete") };
    match Error::from(utf8.clone()) {
        Error::Utf8(cause) => assert_eq!(cause, utf8),
        _ => panic!("not a UTF-8 error"),
    }
    let io = IoCause { description: String::from("broken pipe") };
    match Error::from(io.clone()) {
        Error::Io(cause) => assert_eq!(cause, io),
        _ => panic!("not an I/O error"),
    }
}

#[test]
fn a_refused_string_converts_to_its_cause() {
    let cause =
        Utf8Cause { valid_up_to: 1, error_len: Some(1), description: String::from("invalid") };
    let refused = FromUtf8Cause { bytes: vec![b'a', 0xff], cause: cause.clone() };
    match Error::from(refused) {
        Error::Utf8(kept) => assert_eq!(kept, cause),
        _ => panic!("not a UTF-8 error"),
    }
}

#[test]
fn conversion_works_through_the_question_mark() {
    fn fails() -> quickjs_result::Result<u8> {
        let outcome: Result<u8, IoCause> =
            Err(IoCause { description: String::from("closed") });
        Ok(outcome?)
    }
    match fails() {
        Err(Error::Io(cause)) => assert_eq!(cause.description, "closed"),
        _ => panic!("not an I/O error"),
    }
}

#[test]
fn the_view_type_is_exported() {
    fn takes(_: Option<ErrorView>) {}
    takes(None);
}
