use iconify_core::errors::ResolutionError;
use iconify_core::request::{parse_flip, parse_rotation, parse_reference, Flip, OptionValue, Rotation};

#[test]
fn test_pack_parse_fail() {
    let no_colon = parse_reference("mdi-home").unwrap_err();
    let too_many_colons = parse_reference("mdi:home:foo").unwrap_err();

    assert!(matches!(no_colon, ResolutionError::MalformedReference));
    assert!(matches!(too_many_colons, ResolutionError::MalformedReference));
}

#[test]
fn parse_reference_splits_pack_and_name() {
    let req = parse_reference("mdi:home").unwrap();
    assert_eq!(req.pack, "mdi");
    assert_eq!(req.name, "home");
    assert!(req.color.is_none());
    assert!(req.width.is_none());
    assert!(req.height.is_none());
    assert!(req.flip.is_none());
    assert!(req.rotate.is_none());
    assert!(!req.view_box);
}

#[test]
fn parse_reference_rejects_empty_parts() {
    assert!(matches!(
        parse_reference(":home").unwrap_err(),
        ResolutionError::MalformedReference
    ));
    assert!(matches!(
        parse_reference("mdi:").unwrap_err(),
        ResolutionError::MalformedReference
    ));
    assert!(matches!(
        parse_reference(":").unwrap_err(),
        ResolutionError::MalformedReference
    ));
    assert!(matches!(
        parse_reference("").unwrap_err(),
        ResolutionError::MalformedReference
    ));
}

#[test]
fn flip_accepts_its_literals() {
    assert_eq!(parse_flip("horizontal").unwrap(), Flip::Horizontal);
    assert_eq!(parse_flip("vertical").unwrap(), Flip::Vertical);
    assert_eq!(parse_flip("both").unwrap(), Flip::Both);
    assert_eq!(parse_flip("horizontal,vertical").unwrap(), Flip::Both);
    assert_eq!(parse_flip("vertical,horizontal").unwrap(), Flip::Both);
    let err = parse_flip("diagonal").unwrap_err();
    match err {
        ResolutionError::InvalidOption { field } => assert_eq!(field, "flip"),
        other => panic!("unexpected error: {:?}", other),
    }
}

#[test]
fn rotate_accepts_its_literals() {
    assert_eq!(parse_rotation("90").unwrap(), Rotation::Rotate90);
    assert_eq!(parse_rotation("180").unwrap(), Rotation::Rotate180);
    assert_eq!(parse_rotation("270").unwrap(), Rotation::Rotate270);
    let err = parse_rotation("45").unwrap_err();
    match err {
        ResolutionError::InvalidOption { field } => assert_eq!(field, "rotate"),
        other => panic!("unexpected error: {:?}", other),
    }
}

#[test]
fn apply_option_sets_each_field() {
    let req = parse_reference("mdi:home").unwrap();
    let req = req
        .apply_option("color", OptionValue::Text("red".to_string()))
        .unwrap();
    let req = req
        .apply_option("width", OptionValue::Text("2em".to_string()))
        .unwrap();
    let req = req
        .apply_option("height", OptionValue::Text("3em".to_string()))
        .unwrap();
    let req = req
        .apply_option("flip", OptionValue::Text("both".to_string()))
        .unwrap();
    let req = req
        .apply_option("rotate", OptionValue::Text("90".to_string()))
        .unwrap();
    let req = req.apply_option("view_box", OptionValue::Flag(true)).unwrap();

    assert_eq!(req.color.as_deref(), Some("red"));
    assert_eq!(req.width.as_deref(), Some("2em"));
    assert_eq!(req.height.as_deref(), Some("3em"));
    assert_eq!(req.flip, Some(Flip::Both));
    assert_eq!(req.rotate, Some(Rotation::Rotate90));
    assert!(req.view_box);
}

#[test]
fn apply_options_applies_a_whole_list_in_order() {
    let req = parse_reference("mdi:home").unwrap();
    let req = req
        .apply_options(vec![
            ("color".to_string(), OptionValue::Text("red".to_string())),
            ("rotate".to_string(), OptionValue::Text("270".to_string())),
            ("view_box".to_string(), OptionValue::Flag(true)),
            ("color".to_string(), OptionValue::Text("blue".to_string())),
        ])
        .unwrap();
    assert_eq!(req.color.as_deref(), Some("blue"), "a later option overrides");
    assert_eq!(req.rotate, Some(Rotation::Rotate270));
    assert!(req.view_box);
    assert!(req.width.is_none());
}

#[test]
fn apply_options_stops_at_the_first_rejected_option() {
    let req = parse_reference("mdi:home").unwrap();
    let err = req
        .apply_options(vec![
            ("color".to_string(), OptionValue::Text("red".to_string())),
            ("spin".to_string(), OptionValue::Flag(true)),
            ("width".to_string(), OptionValue::Text("2em".to_string())),
        ])
        .unwrap_err();
    match err {
        ResolutionError::UnknownOption { name } => assert_eq!(name, "spin"),
        other => panic!("unexpected error: {:?}", other),
    }
}

#[test]
fn apply_option_rejects_unknown_names() {
    let req = parse_reference("mdi:home").unwrap();
    let err = req
        .apply_option("colour", OptionValue::Text("red".to_string()))
        .unwrap_err();
    match err {
        ResolutionError::UnknownOption { name } => assert_eq!(name, "colour"),
        other => panic!("unexpected error: {:?}", other),
    }
}

#[test]
fn apply_option_rejects_wrongly_shaped_values() {
    let req = parse_reference("mdi:home").unwrap();
    let err = req
        .clone()
        .apply_option("color", OptionValue::Flag(true))
        .unwrap_err();
    match err {
        ResolutionError::InvalidOption { field } => assert_eq!(field, "color"),
        other => panic!("unexpected error: {:?}", other),
    }
    let err = req
        .clone()
        .apply_option("view_box", OptionValue::Text("true".to_string()))
        .unwrap_err();
    match err {
        ResolutionError::InvalidOption { field } => assert_eq!(field, "view_box"),
        other => panic!("unexpected error: {:?}", other),
    }
    let err = req
        .apply_option("flip", OptionValue::Text("up".to_string()))
        .unwrap_err();
    match err {
        ResolutionError::InvalidOption { field } => assert_eq!(field, "flip"),
        other => panic!("unexpected error: {:?}", other),
    }
}
