use track_attr::args::{parse_args, resolve_strategy, AttrArg, ConfigError};
use track_attr::expand::{expand, track, Expansion};

const POSITION: &str = "struct Position { x: u32, y: u32 }";

fn code_of(e: Expansion) -> String {
    match e {
        Expansion::Code(c) => c,
        Expansion::Diagnostic(m) => panic!("expected code, got diagnostic: {}", m),
    }
}

fn diagnostic_of(e: Expansion) -> String {
    match e {
        Expansion::Code(c) => panic!("expected a diagnostic, got code: {}", c),
        Expansion::Diagnostic(m) => m,
    }
}

#[test]
fn no_args_uses_default_strategy() {
    let code = code_of(track("", POSITION));
    assert!(code.contains("#[derive(Clone, SerdeDiff, Serialize, Deserialize)]"));
    assert!(code.contains(POSITION));
    assert!(code.contains("impl Trackable<Position, Bincode> for Position"));
    assert!(code.contains("Tracker::new(self, sender, Bincode, identifier)"));
    assert!(code.contains("impl TrackableMarker for Position { }"));
}

#[test]
fn custom_strategy_replaces_default() {
    let code = code_of(track("serialization = \"Custom\"", POSITION));
    assert!(code.contains("impl Trackable<Position, Custom> for Position"));
    assert!(code.contains("Tracker::new(self, sender, Custom, identifier)"));
    assert!(!code.contains("Bincode"));
}

#[test]
fn unknown_key_yields_only_a_diagnostic() {
    let m = diagnostic_of(track("foo = \"bar\"", POSITION));
    assert!(m.contains("foo"));
    assert!(!m.contains("struct"));
    assert!(!m.contains("impl"));
    assert!(!m.contains("Position"));
    assert!(!m.contains("x: u32"));
}

#[test]
fn exact_output_for_small_struct() {
    let code = code_of(track("", "struct P { x: u32 }"));
    let expected = "#[derive(Clone, SerdeDiff, Serialize, Deserialize)]\n\
        struct P { x: u32 }\n\
        \n\
        impl Trackable<P, Bincode> for P {\n    \
        fn track<'notifier, I: Identifier>(&mut self, sender: &'notifier Sender<ModificationEvent<I>>, identifier: I) -> Tracker<'_, 'notifier, P, Bincode, I> {\n        \
        Tracker::new(self, sender, Bincode, identifier)\n    \
        }\n\
        }\n\
        \n\
        impl TrackableMarker for P { }\n";
    assert_eq!(code, expected);
}

#[test]
fn duplicate_serialization_is_rejected() {
    let m = diagnostic_of(track(
        "serialization = \"A\", serialization = \"B\"",
        POSITION,
    ));
    assert!(m.contains("more than once"));
}

#[test]
fn strategy_value_must_be_an_identifier() {
    let m = diagnostic_of(track("serialization = \"not an ident!\"", POSITION));
    assert!(m.contains("expected an identifier"));
    assert!(m.contains("not an ident!"));
}

#[test]
fn keyword_is_no_identifier() {
    let m = diagnostic_of(track("serialization = \"struct\"", POSITION));
    assert!(m.contains("expected an identifier"));
}

#[test]
fn bare_word_argument_is_rejected() {
    let m = diagnostic_of(track("serialization", POSITION));
    assert!(m.contains("unsupported attribute argument"));
}

#[test]
fn non_string_value_is_rejected() {
    let m = diagnostic_of(track("serialization = 42", POSITION));
    assert!(m.contains("unsupported attribute argument"));
}

#[test]
fn path_key_is_rejected() {
    let m = diagnostic_of(track("a::b = \"X\"", POSITION));
    assert!(m.contains("unsupported attribute argument"));
}

#[test]
fn unparseable_arguments_are_reported() {
    let m = diagnostic_of(track("== garbage ==", POSITION));
    assert!(m.contains("attribute arguments"));
}

#[test]
fn non_type_item_is_reported() {
    let m = diagnostic_of(track("", "fn main() { }"));
    assert!(m.contains("annotated item"));
}

#[test]
fn enum_declaration_is_accepted() {
    let code = code_of(track("", "enum Direction { Left, Right }"));
    assert!(code.contains("impl Trackable<Direction, Bincode> for Direction"));
    assert!(code.contains("impl TrackableMarker for Direction { }"));
}

#[test]
fn whitespace_only_arguments_mean_no_arguments() {
    let code = code_of(track("   ", POSITION));
    assert!(code.contains("impl Trackable<Position, Bincode> for Position"));
}

#[test]
fn declaration_attributes_are_kept_verbatim() {
    let decl = "#[derive(Debug)]\npub struct Foo { pub v: u8 }";
    let code = code_of(track("", decl));
    assert!(code.contains(decl));
    assert!(code.contains("impl TrackableMarker for Foo { }"));
}

#[test]
fn generic_declaration_binds_by_bare_name() {
    let code = code_of(track("", "struct Wrap<T> { v: T }"));
    assert!(code.contains("impl Trackable<Wrap, Bincode> for Wrap"));
    assert!(code.contains("impl TrackableMarker for Wrap { }"));
}

#[test]
fn trailing_comma_is_accepted() {
    let code = code_of(track("serialization = \"Json2_Fast\",", POSITION));
    assert!(code.contains("impl Trackable<Position, Json2_Fast> for Position"));
}

#[test]
fn extraction_is_idempotent() {
    let first = code_of(track("", POSITION));
    let second = code_of(track("", POSITION));
    assert_eq!(first, second);
}

#[test]
fn parse_args_reads_the_strategy() {
    let args = vec![AttrArg::NameValue {
        key: String::from("serialization"),
        value: String::from("Json"),
    }];
    let cfg = parse_args(&args).expect("a valid configuration");
    assert_eq!(cfg.serialization.as_deref(), Some("Json"));
    assert_eq!(resolve_strategy(cfg), "Json");
}

#[test]
fn parse_args_defaults_when_empty() {
    let cfg = parse_args(&Vec::new()).expect("the empty configuration");
    assert!(cfg.serialization.is_none());
    assert_eq!(resolve_strategy(cfg), "Bincode");
}

#[test]
fn parse_args_reports_the_unknown_key() {
    let args = vec![AttrArg::NameValue {
        key: String::from("mode"),
        value: String::from("Fast"),
    }];
    match parse_args(&args) {
        Err(ConfigError::UnknownKey { key }) => assert_eq!(key, "mode"),
        Err(other) => panic!("wrong error kind: {:?}", other),
        Ok(_) => panic!("expected an unknown-key error"),
    }
}

#[test]
fn expand_on_structured_arguments() {
    let args = vec![AttrArg::NameValue {
        key: String::from("serialization"),
        value: String::from("Custom"),
    }];
    let code = code_of(expand(&args, POSITION));
    assert!(code.contains("impl Trackable<Position, Custom> for Position"));
}
