use seiber::cpe::attribute::AttributeValue;
use seiber::cpe::attribute::Part;
use seiber::cpe::error::CpeError;
use seiber::cpe::wfn::Wfn;

fn empty_wfn_literal() -> Wfn {
    Wfn {
        part: AttributeValue::Unspecified,
        vendor: AttributeValue::Unspecified,
        product: AttributeValue::Unspecified,
        version: AttributeValue::Unspecified,
        update: AttributeValue::Unspecified,
        edition: AttributeValue::Unspecified,
        language: AttributeValue::Unspecified,
        sw_edition: AttributeValue::Unspecified,
        target_sw: AttributeValue::Unspecified,
        target_hw: AttributeValue::Unspecified,
        other: AttributeValue::Unspecified,
    }
}

#[test]
fn wfn_create_empty_wfn() {
    let new_wfn = Wfn::new();
    let empty_wfn = empty_wfn_literal();
    assert_eq!(new_wfn, empty_wfn);
}

#[test]
fn wfn_display_empty_wfn() {
    let new_wfn = Wfn::new();
    let empty_wfn_string = String::from("wfn: []");
    assert_eq!(new_wfn.display(), empty_wfn_string);
}

#[test]
fn wfn_set_part_attribute_application_lower_case() {
    let mut new_wfn = Wfn::new();
    let _ = new_wfn.set_part("a");
    if let AttributeValue::Value(p) = new_wfn.part {
        assert_eq!(p, Part::Application);
    } else {
        panic!("Part attribute not assigned a value");
    }
}

#[test]
fn wfn_set_part_attribute_application_upper_case() {
    let mut new_wfn = Wfn::new();
    let _ = new_wfn.set_part("A");
    if let AttributeValue::Value(p) = new_wfn.part {
        assert_eq!(p, Part::Application);
    } else {
        panic!("Part attribute not assigned a value");
    }
}

#[test]
fn wfn_set_part_attribute_os_lower_case() {
    let mut new_wfn = Wfn::new();
    let _ = new_wfn.set_part("o");
    if let AttributeValue::Value(p) = new_wfn.part {
        assert_eq!(p, Part::OperatingSystem);
    } else {
        panic!("Part attribute not assigned a value");
    }
}

#[test]
fn wfn_set_part_attribute_os_upper_case() {
    let mut new_wfn = Wfn::new();
    let _ = new_wfn.set_part("O");
    if let AttributeValue::Value(p) = new_wfn.part {
        assert_eq!(p, Part::OperatingSystem);
    } else {
        panic!("Part attribute not assigned a value");
    }
}

#[test]
fn wfn_set_part_attribute_hardware_lower_case() {
    let mut new_wfn = Wfn::new();
    let _ = new_wfn.set_part("h");
    if let AttributeValue::Value(p) = new_wfn.part {
        assert_eq!(p, Part::Hardware);
    } else {
        panic!("Part attribute not assigned a value");
    }
}

#[test]
fn wfn_set_part_attribute_hardware_upper_case() {
    let mut new_wfn = Wfn::new();
    let _ = new_wfn.set_part("H");
    if let AttributeValue::Value(p) = new_wfn.part {
        assert_eq!(p, Part::Hardware);
    } else {
        panic!("Part attribute not assigned a value");
    }
}

#[test]
fn wfn_set_part_attribute_any_lower_case() {
    let mut new_wfn = Wfn::new();
    let _ = new_wfn.set_part("any");
    assert_eq!(new_wfn.part, AttributeValue::Any);
}

#[test]
fn tests_create_empty_wfn() {
    let new_wfn = Wfn::new();
    let empty_wfn = empty_wfn_literal();
    assert_eq!(new_wfn, empty_wfn);
}

#[test]
fn tests_display_empty_wfn() {
    let new_wfn = Wfn::new();
    let empty_wfn_string = String::from("wfn: []");
    assert_eq!(new_wfn.display(), empty_wfn_string);
}

#[test]
fn tests_set_part_attribute_application_lower_case() {
    let mut new_wfn = Wfn::new();
    let _ = new_wfn.set_part("a");
    if let AttributeValue::Value(p) = new_wfn.part {
        assert_eq!(p, Part::Application);
    } else {
        panic!("Part attribute not assigned a value");
    }
}

#[test]
fn tests_set_part_attribute_application_upper_case() {
    let mut new_wfn = Wfn::new();
    let _ = new_wfn.set_part("A");
    if let AttributeValue::Value(p) = new_wfn.part {
        assert_eq!(p, Part::Application);
    } else {
        panic!("Part attribute not assigned a value");
    }
}

#[test]
fn tests_set_part_attribute_os_lower_case() {
    let mut new_wfn = Wfn::new();
    let _ = new_wfn.set_part("o");
    if let AttributeValue::Value(p) = new_wfn.part {
        assert_eq!(p, Part::OperatingSystem);
    } else {
        panic!("Part attribute not assigned a value");
    }
}

#[test]
fn tests_set_part_attribute_os_upper_case() {
    let mut new_wfn = Wfn::new();
    let _ = new_wfn.set_part("O");
    if let AttributeValue::Value(p) = new_wfn.part {
        assert_eq!(p, Part::OperatingSystem);
    } else {
        panic!("Part attribute not assigned a value");
    }
}

#[test]
fn tests_set_part_attribute_hardware_lower_case() {
    let mut new_wfn = Wfn::new();
    let _ = new_wfn.set_part("h");
    if let AttributeValue::Value(p) = new_wfn.part {
        assert_eq!(p, Part::Hardware);
    } else {
        panic!("Part attribute not assigned a value");
    }
}

#[test]
fn tests_set_part_attribute_hardware_upper_case() {
    let mut new_wfn = Wfn::new();
    let _ = new_wfn.set_part("H");
    if let AttributeValue::Value(p) = new_wfn.part {
        assert_eq!(p, Part::Hardware);
    } else {
        panic!("Part attribute not assigned a value");
    }
}

#[test]
fn tests_set_part_attribute_any_lower_case() {
    let mut new_wfn = Wfn::new();
    let _ = new_wfn.set_part("any");
    assert_eq!(new_wfn.part, AttributeValue::Any);
}

#[test]
fn set_part_attribute_any_upper_case() {
    let mut new_wfn = Wfn::new();
    let _ = new_wfn.set_part("ANY");
    assert_eq!(new_wfn.part, AttributeValue::Any);
}

#[test]
fn set_part_attribute_na_lower_case() {
    let mut new_wfn = Wfn::new();
    let _ = new_wfn.set_part("na");
    assert_eq!(new_wfn.part, AttributeValue::NotApplicable);
}

#[test]
fn set_part_attribute_na_upper_case() {
    let mut new_wfn = Wfn::new();
    let _ = new_wfn.set_part("NA");
    assert_eq!(new_wfn.part, AttributeValue::NotApplicable);
}

#[test]
fn set_part_attribute_invalid_value() {
    let mut new_wfn = Wfn::new();
    let r = new_wfn.set_part("hardware");
    if let Err(x) = r {
        assert_eq!(x, CpeError::InvalidValueError);
    } else {
        panic!("set_part() did not correctly return an error");
    }
}
