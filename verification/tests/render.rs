use error_code_derive::definition::VariantShape;
use error_code_derive::dispatch::{Dispatch, DispatchArm, MatchPattern};
use error_code_derive::literal::push_literal;

fn pattern(shape: VariantShape) -> MatchPattern {
    MatchPattern { enum_name: "E".to_string(), variant_name: "V".to_string(), shape }
}

fn arm(shape: VariantShape, carrier_code: &str, full_code: &str, client_message: &str) -> DispatchArm {
    DispatchArm {
        pattern: pattern(shape),
        carrier_code: carrier_code.to_string(),
        full_code: full_code.to_string(),
        client_message: client_message.to_string(),
    }
}

fn literal(value: &str) -> String {
    let mut text = String::new();
    push_literal(&mut text, value);
    text
}

#[test]
fn pattern_without_payload_is_the_path() {
    assert_eq!(pattern(VariantShape::NoPayload).render(), "E::V");
}

#[test]
fn positional_pattern_ignores_every_field() {
    assert_eq!(pattern(VariantShape::Positional).render(), "E::V(..)");
}

#[test]
fn named_pattern_ignores_every_field() {
    assert_eq!(pattern(VariantShape::Named).render(), "E::V { .. }");
}

#[test]
fn record_holds_three_literals_and_the_matched_value() {
    assert_eq!(
        arm(VariantShape::Named, "400", "01IA", "friendly msg").render_record(),
        "ErrorInfo::new(\"400\", \"01IA\", \"friendly msg\", self,)"
    );
    assert_eq!(
        arm(VariantShape::NoPayload, "", "", "").render_record(),
        "ErrorInfo::new(\"\", \"\", \"\", self,)"
    );
}

#[test]
fn record_does_not_depend_on_the_shape() {
    let bare = arm(VariantShape::NoPayload, "1", "2", "3").render_record();
    assert_eq!(arm(VariantShape::Positional, "1", "2", "3").render_record(), bare);
    assert_eq!(arm(VariantShape::Named, "1", "2", "3").render_record(), bare);
}

#[test]
fn arm_is_pattern_then_record() {
    assert_eq!(
        arm(VariantShape::Positional, "500", "01RE", "").render(),
        "            E::V(..) => { ErrorInfo::new(\"500\", \"01RE\", \"\", self,) }"
    );
}

#[test]
fn dispatch_without_arms_is_an_empty_match() {
    let dispatch = Dispatch {
        enum_name: "Never".to_string(),
        generics: String::new(),
        carrier_type: "u16".to_string(),
        arms: vec![],
    };
    assert_eq!(
        dispatch.render(),
        "use error_code::{ErrorInfo, ToErrorInfo as _};\n\
         impl ToErrorInfo for Never {\n    type T = u16;\n    \
         fn to_error_info(&self) -> ErrorInfo<Self::T> {\n        match self {\n\n        }\n    }\n}\n"
    );
}

#[test]
fn dispatch_joins_arms_with_commas() {
    let dispatch = Dispatch {
        enum_name: "E".to_string(),
        generics: "<T>".to_string(),
        carrier_type: "Code<T>".to_string(),
        arms: vec![
            arm(VariantShape::NoPayload, "a", "b", "c"),
            arm(VariantShape::Named, "d", "e", "f"),
        ],
    };
    assert_eq!(
        dispatch.render(),
        "use error_code::{ErrorInfo, ToErrorInfo as _};\n\
         impl<T> ToErrorInfo for E<T> {\n    type T = Code<T>;\n    \
         fn to_error_info(&self) -> ErrorInfo<Self::T> {\n        match self {\n            \
         E::V => { ErrorInfo::new(\"a\", \"b\", \"c\", self,) },\n            \
         E::V { .. } => { ErrorInfo::new(\"d\", \"e\", \"f\", self,) }\n        }\n    }\n}\n"
    );
}

#[test]
fn dispatch_with_one_arm_has_no_comma() {
    let dispatch = Dispatch {
        enum_name: "E".to_string(),
        generics: String::new(),
        carrier_type: "u16".to_string(),
        arms: vec![arm(VariantShape::Positional, "", "x", "")],
    };
    let text = dispatch.render();
    assert!(text.contains("match self {\n            E::V(..) => { ErrorInfo::new(\"\", \"x\", \"\", self,) }\n        }"));
}

#[test]
fn plain_text_is_quoted_unchanged() {
    assert_eq!(literal(""), "\"\"");
    assert_eq!(literal("01IC"), "\"01IC\"");
    assert_eq!(literal("friendly msg"), "\"friendly msg\"");
    assert_eq!(literal("it's {0} ü ✓"), "\"it's {0} ü ✓\"");
}

#[test]
fn special_characters_are_escaped() {
    assert_eq!(literal("\""), "\"\\\"\"");
    assert_eq!(literal("\\"), "\"\\\\\"");
    assert_eq!(literal("\n"), "\"\\n\"");
    assert_eq!(literal("\r"), "\"\\r\"");
    assert_eq!(literal("\t"), "\"\\t\"");
    assert_eq!(literal("\0"), "\"\\0\"");
    assert_eq!(literal("a\"b\\c\nd"), "\"a\\\"b\\\\c\\nd\"");
}

#[test]
fn literal_is_appended_to_what_is_there() {
    let mut text = "new(".to_string();
    push_literal(&mut text, "a");
    push_literal(&mut text, "b\"");
    assert_eq!(text, "new(\"a\"\"b\\\"\"");
}

#[test]
fn literals_read_back_as_the_value() {
    let values = [
        "",
        "01IC",
        "friendly msg",
        "say \"hi\"",
        "back\\slash",
        "trailing\\",
        "\\\"",
        "line\nbreak\r\n",
        "tab\there",
        "nul\0byte",
        "nul\u{0}1",
        "ü ✓ 統一碼",
        "{0} {} {{}}",
        "'single'",
        "\u{7f}\u{1}\u{1b}",
    ];
    for value in values {
        let read: syn::LitStr = syn::parse_str(&literal(value)).expect("a string literal");
        assert_eq!(read.value(), value);
    }
}

#[test]
fn hostile_message_stays_inside_its_literal() {
    let hostile = "\", self); panic!(\"";
    let record = arm(VariantShape::NoPayload, "400", "01X", hostile).render_record();
    let call: syn::ExprCall = syn::parse_str(&record).expect("one call");
    assert_eq!(call.args.len(), 4);
    match &call.args[2] {
        syn::Expr::Lit(syn::ExprLit { lit: syn::Lit::Str(message), .. }) => {
            assert_eq!(message.value(), hostile)
        },
        _ => panic!("the third argument is a string literal"),
    }
    match &call.args[3] {
        syn::Expr::Path(path) => assert!(path.path.is_ident("self")),
        _ => panic!("the last argument is the matched value"),
    }
}
