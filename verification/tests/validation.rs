use seiber::cpe::attribute::AttributeString;
use seiber::cpe::attribute::AttributeValue;
use seiber::cpe::attribute::Part;
use seiber::cpe::error::CpeError;
use seiber::cpe::wfn::Wfn;

#[test]
fn attribute_string_empty_rejected() {
    assert_eq!(AttributeString::construct(""), Err(CpeError::EmptyValue));
}

#[test]
fn attribute_string_whitespace_rejected_any_position() {
    // Leading, embedded and trailing positions are all checked alike.
    assert_eq!(AttributeString::construct(" ab"), Err(CpeError::ContainsWhitespace));
    assert_eq!(AttributeString::construct("a b"), Err(CpeError::ContainsWhitespace));
    assert_eq!(AttributeString::construct("ab "), Err(CpeError::ContainsWhitespace));
    assert_eq!(AttributeString::construct("a\tb"), Err(CpeError::ContainsWhitespace));
    assert_eq!(AttributeString::construct("a\nb"), Err(CpeError::ContainsWhitespace));
    assert_eq!(AttributeString::construct("a\rb"), Err(CpeError::ContainsWhitespace));
    assert_eq!(AttributeString::construct("a\u{000C}b"), Err(CpeError::ContainsWhitespace));
    assert_eq!(AttributeString::construct("a\u{000B}b"), Err(CpeError::ContainsWhitespace));
}

#[test]
fn attribute_string_unicode_whitespace_rejected() {
    assert_eq!(AttributeString::construct("a\u{00A0}b"), Err(CpeError::ContainsWhitespace));
    assert_eq!(AttributeString::construct("a\u{2003}b"), Err(CpeError::ContainsWhitespace));
    assert_eq!(AttributeString::construct("\u{3000}"), Err(CpeError::ContainsWhitespace));
}

#[test]
fn attribute_string_quoted_hyphen_alone_rejected() {
    assert_eq!(AttributeString::construct("\\-"), Err(CpeError::QuotedHyphenOnly));
}

#[test]
fn attribute_string_quoted_hyphen_embedded_accepted() {
    let a = AttributeString::construct("a\\-b").expect("embedded quoted hyphen is legal");
    assert_eq!(a.text(), "a\\-b");
}

#[test]
fn attribute_string_ordinary_value_accepted() {
    let a = AttributeString::construct("microsoft").expect("plain value is legal");
    assert_eq!(a.text(), "microsoft");
}

#[test]
fn attribute_string_any_na_letters_are_ordinary_values() {
    // The constructor itself knows nothing of the ANY/NA convention; the
    // three-character string is an ordinary legal value here.
    let a = AttributeString::construct("any").expect("the letters are a legal value");
    assert_eq!(a.text(), "any");
}

#[test]
fn attribute_string_accepts_non_ascii_text() {
    let a = AttributeString::construct("caf\u{00E9}").expect("non-ASCII letters are legal");
    assert_eq!(a.text(), "caf\u{00E9}");
}

#[test]
fn part_parse_accepts_exactly_six_tokens() {
    assert_eq!(Part::parse("a"), Ok(Part::Application));
    assert_eq!(Part::parse("A"), Ok(Part::Application));
    assert_eq!(Part::parse("o"), Ok(Part::OperatingSystem));
    assert_eq!(Part::parse("O"), Ok(Part::OperatingSystem));
    assert_eq!(Part::parse("h"), Ok(Part::Hardware));
    assert_eq!(Part::parse("H"), Ok(Part::Hardware));
    assert_eq!(Part::parse(""), Err(CpeError::InvalidValueError));
    assert_eq!(Part::parse("x"), Err(CpeError::InvalidValueError));
    assert_eq!(Part::parse("aa"), Err(CpeError::InvalidValueError));
    assert_eq!(Part::parse("hardware"), Err(CpeError::InvalidValueError));
}

#[test]
fn part_canonical_text_is_lower_case() {
    assert_eq!(Part::parse("A").unwrap().canonical_text(), "a");
    assert_eq!(Part::parse("O").unwrap().canonical_text(), "o");
    assert_eq!(Part::parse("H").unwrap().canonical_text(), "h");
}

#[test]
fn error_messages() {
    assert_eq!(CpeError::EmptyValue.message(), "empty value");
    assert_eq!(CpeError::ContainsWhitespace.message(), "contains whitespace");
    assert_eq!(CpeError::QuotedHyphenOnly.message(), "quoted hyphen only");
    assert_eq!(CpeError::InvalidValueError.message(), "An invalid value was found");
}

#[test]
fn get_part_any_token() {
    let mut w = Wfn::new();
    w.set_part("any").unwrap();
    assert_eq!(w.part, AttributeValue::Any);
    assert_eq!(w.get_part(), Some(String::from("ANY")));
}

#[test]
fn set_part_na_then_invalid_keeps_slot() {
    let mut w = Wfn::new();
    w.set_part("na").unwrap();
    assert_eq!(w.part, AttributeValue::NotApplicable);
    assert_eq!(w.set_part("hardware"), Err(CpeError::InvalidValueError));
    assert_eq!(w.part, AttributeValue::NotApplicable);
    assert_eq!(w.get_part(), Some(String::from("NA")));
}

#[test]
fn reset_fully_replaces_prior_value() {
    let mut w = Wfn::new();
    w.set_vendor("adobe").unwrap();
    assert_eq!(w.get_vendor(), Some(String::from("adobe")));
    w.set_vendor("mozilla").unwrap();
    assert_eq!(w.get_vendor(), Some(String::from("mozilla")));
    w.set_vendor("ANY").unwrap();
    assert_eq!(w.get_vendor(), Some(String::from("ANY")));
    w.set_vendor("adobe").unwrap();
    assert_eq!(w.get_vendor(), Some(String::from("adobe")));
}

#[test]
fn set_get_round_trip_all_attributes() {
    let mut w = Wfn::new();
    w.set_part("O").unwrap();
    w.set_vendor("microsoft").unwrap();
    w.set_product("windows_10").unwrap();
    w.set_version("10.0").unwrap();
    w.set_update("sp1").unwrap();
    w.set_edition("Any").unwrap();
    w.set_language("en\\-us").unwrap();
    w.set_sw_edition("home").unwrap();
    w.set_target_sw("nA").unwrap();
    w.set_target_hw("x64").unwrap();
    w.set_other("misc").unwrap();
    assert_eq!(w.get_vendor(), Some(String::from("microsoft")));
    assert_eq!(w.get_product(), Some(String::from("windows_10")));
    assert_eq!(w.get_version(), Some(String::from("10.0")));
    assert_eq!(w.get_update(), Some(String::from("sp1")));
    assert_eq!(w.get_edition(), Some(String::from("ANY")));
    assert_eq!(w.get_language(), Some(String::from("en\\-us")));
    assert_eq!(w.get_sw_edition(), Some(String::from("home")));
    assert_eq!(w.get_target_sw(), Some(String::from("NA")));
    assert_eq!(w.get_target_hw(), Some(String::from("x64")));
    assert_eq!(w.get_other(), Some(String::from("misc")));
    assert_eq!(w.get_part(), Some(String::from("o")));
}

#[test]
fn getters_absent_for_unspecified() {
    let w = Wfn::new();
    assert_eq!(w.get_vendor(), None);
    assert_eq!(w.get_product(), None);
    assert_eq!(w.get_other(), None);
    assert_eq!(w.get_part(), None);
}

#[test]
fn setter_failure_reports_specific_error() {
    let mut w = Wfn::new();
    assert_eq!(w.set_vendor(""), Err(CpeError::EmptyValue));
    assert_eq!(w.set_vendor("a b"), Err(CpeError::ContainsWhitespace));
    assert_eq!(w.set_vendor("\\-"), Err(CpeError::QuotedHyphenOnly));
    assert_eq!(w.vendor, AttributeValue::Unspecified);
    assert_eq!(w.get_vendor(), None);
}

#[test]
fn display_lists_set_attributes_in_fixed_order() {
    let mut w = Wfn::new();
    w.set_vendor("microsoft").unwrap();
    w.set_part("a").unwrap();
    assert_eq!(w.display(), "wfn: [part=a, vendor=microsoft]");
}

#[test]
fn display_shows_logical_values() {
    let mut w = Wfn::new();
    w.set_part("ANY").unwrap();
    w.set_update("na").unwrap();
    assert_eq!(w.display(), "wfn: [part=ANY, update=NA]");
}

#[test]
fn display_full_listing() {
    let mut w = Wfn::new();
    w.set_part("h").unwrap();
    w.set_vendor("cisco").unwrap();
    w.set_product("router").unwrap();
    w.set_version("1.2").unwrap();
    w.set_update("any").unwrap();
    w.set_edition("na").unwrap();
    w.set_language("en").unwrap();
    w.set_sw_edition("pro").unwrap();
    w.set_target_sw("ios").unwrap();
    w.set_target_hw("arm").unwrap();
    w.set_other("lab").unwrap();
    assert_eq!(
        w.display(),
        "wfn: [part=h, vendor=cisco, product=router, version=1.2, update=ANY, edition=NA, \
         language=en, sw_edition=pro, target_sw=ios, target_hw=arm, other=lab]"
    );
}

#[test]
fn any_na_tokens_case_insensitive_in_setters() {
    let mut w = Wfn::new();
    w.set_product("aNy").unwrap();
    assert_eq!(w.product, AttributeValue::Any);
    w.set_product("Na").unwrap();
    assert_eq!(w.product, AttributeValue::NotApplicable);
}
