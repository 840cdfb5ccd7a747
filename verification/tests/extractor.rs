use growtopia_login::extractor::{
    address_qualifies, extract_token, has_percent, keep_value, key_names_token, pattern_passed,
    scan_fragment, scan_params, settle_value, NetworkRequestEvent, TokenSlot,
};

fn chars(s: &str) -> Vec<char> {
    s.chars().collect()
}

fn text(found: Option<Vec<char>>) -> Option<String> {
    found.map(|c| c.into_iter().collect())
}

fn event(url: &str, body: Option<&str>) -> NetworkRequestEvent {
    NetworkRequestEvent { url: url.to_string(), body: body.map(|b| b.to_string()) }
}

#[test]
fn token_field_is_captured_and_decoded() {
    let mut slot = TokenSlot::new();
    slot.observe(&event("https://growtopiagame.com/login", Some("a=1&my_token=abc%20def")));
    assert_eq!(slot.read(), Some("abc def".to_string()));
}

#[test]
fn token_field_is_captured_on_the_full_host_name() {
    let mut slot = TokenSlot::new();
    slot.observe(&event("https://www.growtopiagame.com/login", Some("a=1&my_token=abc%20def")));
    assert_eq!(slot.read(), Some("abc def".to_string()));
}

#[test]
fn body_without_token_key_leaves_slot_unset() {
    let mut slot = TokenSlot::new();
    slot.observe(&event("https://growtopiagame.com/login", Some("a=1&other=xyz")));
    assert_eq!(slot.read(), None);
}

#[test]
fn body_failing_the_pattern_is_not_parsed() {
    let mut slot = TokenSlot::new();
    slot.observe(&event("https://growtopiagame.com/login", Some("user=me&pass=secret")));
    assert_eq!(slot.read(), None);
    assert_eq!(extract_token("https://growtopiagame.com/login", Some("")), None);
}

#[test]
fn request_without_body_is_discarded() {
    assert_eq!(extract_token("https://growtopiagame.com/login", None), None);
}

#[test]
fn request_to_another_address_is_discarded() {
    let body = Some("my_token=abc");
    assert_eq!(extract_token("https://example.com/login", body), None);
    assert_eq!(extract_token("https://growtopiagame.com/player", body), None);
    assert_eq!(extract_token("", body), None);
    assert_eq!(
        extract_token("https://www.growtopiagame.com/google/login", body),
        Some("abc".to_string())
    );
    assert_eq!(
        extract_token("https://login.example.com/?next=growtopiagame.com", body),
        Some("abc".to_string())
    );
}

#[test]
fn key_is_matched_without_regard_to_case() {
    let url = "https://growtopiagame.com/login";
    assert_eq!(extract_token(url, Some("a=1&MY_TOKEN=abc")), Some("abc".to_string()));
    assert_eq!(extract_token(url, Some("ToKeN=x")), Some("x".to_string()));
}

#[test]
fn only_the_key_counts() {
    let url = "https://growtopiagame.com/login";
    assert_eq!(extract_token(url, Some("a=token")), None);
    assert_eq!(extract_token(url, Some("a=token&token=b")), Some("b".to_string()));
}

#[test]
fn first_qualifying_fragment_wins() {
    let url = "https://growtopiagame.com/login";
    assert_eq!(extract_token(url, Some("token=first&token=second")), Some("first".to_string()));
    assert_eq!(extract_token(url, Some("x=1&atoken=2&btoken=3")), Some("2".to_string()));
}

#[test]
fn fragment_without_equals_sign_is_skipped() {
    let url = "https://growtopiagame.com/login";
    assert_eq!(extract_token(url, Some("token")), None);
    assert_eq!(extract_token(url, Some("a=1&token")), None);
    assert_eq!(extract_token(url, Some("token&x_token=5")), Some("5".to_string()));
}

#[test]
fn value_is_everything_after_the_first_equals_sign() {
    let url = "https://growtopiagame.com/login";
    assert_eq!(extract_token(url, Some("token=a=b")), Some("a=b".to_string()));
    assert_eq!(extract_token(url, Some("token=")), Some("".to_string()));
    assert_eq!(extract_token(url, Some("token==b")), Some("=b".to_string()));
    assert_eq!(extract_token(url, Some("token=a=b&x=1")), Some("a=b".to_string()));
    assert_eq!(
        extract_token("https://www.growtopiagame.com/google/login", Some("growtopia_token=ab=cd")),
        Some("ab=cd".to_string())
    );
    assert_eq!(extract_token(url, Some("token=YWJj%3D%3D=")), Some("YWJj===".to_string()));
}

#[test]
fn value_that_does_not_decode_is_kept_raw() {
    let url = "https://growtopiagame.com/login";
    assert_eq!(extract_token(url, Some("token=%FF")), Some("%FF".to_string()));
    assert_eq!(extract_token(url, Some("token=%C3%A9")), Some("\u{e9}".to_string()));
    assert_eq!(extract_token(url, Some("token=50%")), Some("50%".to_string()));
    assert_eq!(extract_token(url, Some("token=a+b")), Some("a+b".to_string()));
}

#[test]
fn later_request_overwrites_the_slot() {
    let mut slot = TokenSlot::new();
    let url = "https://growtopiagame.com/login";
    slot.observe(&event(url, Some("token=one")));
    slot.observe(&event(url, Some("nothing=here")));
    assert_eq!(slot.read(), Some("one".to_string()));
    slot.observe(&event(url, Some("token=two")));
    assert_eq!(slot.read(), Some("two".to_string()));
    slot.observe(&event("https://example.com/", Some("token=three")));
    slot.observe(&event(url, None));
    assert_eq!(slot.read(), Some("two".to_string()));
}

#[test]
fn slot_store_and_read() {
    let mut slot = TokenSlot::new();
    assert_eq!(slot.read(), None);
    slot.store("abc".to_string());
    assert_eq!(slot.read(), Some("abc".to_string()));
    slot.store("def".to_string());
    assert_eq!(slot.read(), Some("def".to_string()));
}

#[test]
fn address_needs_host_and_path() {
    assert!(address_qualifies(&chars("https://growtopiagame.com/login")));
    assert!(address_qualifies(&chars("loginXgrowtopiagame.com")));
    assert!(!address_qualifies(&chars("https://growtopiagame.com/")));
    assert!(!address_qualifies(&chars("https://growtopiagame.co/login")));
    assert!(!address_qualifies(&chars("https://GROWTOPIAGAME.COM/login")));
}

#[test]
fn lowered_key_is_searched_for_the_word() {
    assert!(key_names_token(&chars("my_token")));
    assert!(key_names_token(&chars("token")));
    assert!(!key_names_token(&chars("MY_TOKEN")));
    assert!(!key_names_token(&chars("toke")));
    assert!(!key_names_token(&chars("")));
}

#[test]
fn kept_value_prefers_the_decoded_text() {
    assert_eq!(keep_value(&chars("a%20b"), Some(chars("a b"))), chars("a b"));
    assert_eq!(keep_value(&chars("%FF"), None), chars("%FF"));
    assert!(has_percent(&chars("a%")));
    assert!(!has_percent(&chars("ab")));
    assert_eq!(settle_value(&chars("abc%20def")), chars("abc def"));
    assert_eq!(settle_value(&chars("plain")), chars("plain"));
    assert_eq!(settle_value(&chars("%zz")), chars("%zz"));
}

#[test]
fn pattern_passes_only_on_a_match() {
    assert!(pattern_passed(Some(true)));
    assert!(!pattern_passed(Some(false)));
    assert!(!pattern_passed(None));
}

#[test]
fn fragments_and_bodies_are_scanned() {
    assert_eq!(text(scan_fragment(&chars("my_token=abc%20def"))), Some("abc def".to_string()));
    assert_eq!(text(scan_fragment(&chars("other=xyz"))), None);
    assert_eq!(text(scan_fragment(&chars("=token"))), None);
    assert_eq!(text(scan_fragment(&chars("token=ab=cd"))), Some("ab=cd".to_string()));
    assert_eq!(text(scan_fragment(&chars(""))), None);
    assert_eq!(text(scan_params(&chars("a=1&my_token=abc%20def"))), Some("abc def".to_string()));
    assert_eq!(text(scan_params(&chars("a=1&other=xyz"))), None);
    assert_eq!(text(scan_params(&chars("&&token=x&"))), Some("x".to_string()));
    assert_eq!(text(scan_params(&chars(""))), None);
}

#[test]
fn pattern_and_key_agree_on_unicode_case() {
    let url = "https://growtopiagame.com/login";
    assert_eq!(extract_token(url, Some("to\u{212a}en=v")), Some("v".to_string()));
}
