use iconify_core::digest::hash_digest;
use iconify_core::errors::ResolutionError;
use iconify_core::paths::{iconify_cache_path, offline_icon_path};
use iconify_core::request::{parse_reference, OptionValue, Request};

const BASE: &str = "https://api.iconify.design";

fn full_options_request() -> Request {
    parse_reference("mdi:home")
        .unwrap()
        .apply_option("color", OptionValue::Text("red".to_string()))
        .unwrap()
        .apply_option("width", OptionValue::Text("2em".to_string()))
        .unwrap()
        .apply_option("height", OptionValue::Text("3em".to_string()))
        .unwrap()
        .apply_option("flip", OptionValue::Text("both".to_string()))
        .unwrap()
        .apply_option("rotate", OptionValue::Text("90".to_string()))
        .unwrap()
        .apply_option("view_box", OptionValue::Flag(true))
        .unwrap()
}

#[test]
fn bare_request_builds_bare_url() {
    let req = parse_reference("mdi:home").unwrap();
    let url = req.icon_url(BASE).unwrap();
    assert_eq!(url, "https://api.iconify.design/mdi/home.svg?");
}

#[test]
fn full_request_serializes_every_option_in_order() {
    let req = full_options_request();
    let url = req.icon_url(BASE).unwrap();
    assert_eq!(
        url,
        "https://api.iconify.design/mdi/home.svg?color=red&width=2em&height=3em&flip=horizontal%2Cvertical&rotate=90deg&box=true"
    );
}

#[test]
fn url_building_is_deterministic() {
    let req = full_options_request();
    let url1 = req.icon_url(BASE).unwrap();
    let url2 = req.icon_url(BASE).unwrap();
    assert_eq!(url1, url2);
    let again = full_options_request();
    assert_eq!(again.icon_url(BASE).unwrap(), url1);
}

#[test]
fn digest_is_a_short_stable_hex_token() {
    let req = parse_reference("mdi:home").unwrap();
    let url = req.icon_url(BASE).unwrap();
    let key = hash_digest(&url);
    assert_eq!(key.len(), 16);
    assert!(key.chars().all(|c| c.is_ascii_hexdigit() && !c.is_ascii_uppercase()));
    assert_eq!(hash_digest(&url), key);
}

#[test]
fn distinct_options_get_distinct_keys() {
    let bare = parse_reference("mdi:home").unwrap();
    let colored = parse_reference("mdi:home")
        .unwrap()
        .apply_option("color", OptionValue::Text("red".to_string()))
        .unwrap();
    let url_bare = bare.icon_url(BASE).unwrap();
    let url_colored = colored.icon_url(BASE).unwrap();
    assert_ne!(url_bare, url_colored);
    assert_ne!(hash_digest(&url_bare), hash_digest(&url_colored));

    let twin = parse_reference("mdi:home").unwrap();
    assert_eq!(hash_digest(&twin.icon_url(BASE).unwrap()), hash_digest(&url_bare));
}

#[test]
fn cache_entry_sits_under_pack_and_name_with_key() {
    let req = parse_reference("mdi:home").unwrap();
    let url = req.icon_url(BASE).unwrap();
    let key = hash_digest(&url);
    let cache = iconify_cache_path("/tmp/cache", BASE, &req).unwrap();
    assert_eq!(cache, format!("/tmp/cache/mdi/home-{}.svg", key));
    let offline = offline_icon_path("icons", BASE, &req).unwrap();
    assert_eq!(offline, format!("icons/mdi/home-{}.svg", key));
}

#[test]
fn query_values_are_percent_encoded() {
    let req = parse_reference("mdi:home")
        .unwrap()
        .apply_option("color", OptionValue::Text("rgb(1, 2, 3)".to_string()))
        .unwrap();
    let url = req.icon_url(BASE).unwrap();
    assert_eq!(
        url,
        "https://api.iconify.design/mdi/home.svg?color=rgb%281%2C+2%2C+3%29"
    );
}

#[test]
fn empty_segments_cannot_build_a_url() {
    let req = Request {
        pack: String::new(),
        name: "home".to_string(),
        color: None,
        width: None,
        height: None,
        flip: None,
        rotate: None,
        view_box: false,
    };
    assert!(matches!(
        req.icon_url(BASE).unwrap_err(),
        ResolutionError::UrlConstructionError
    ));
}
