use phira::updates::{
    flavor_name, font_failure_message, font_reply, should_offer_update, update_choice, FontReply,
    UpdateChoice,
};

#[test]
fn flavor_is_trimmed_file_text() {
    assert_eq!(flavor_name(Some(b"  google-play \n".to_vec())), "google-play");
    assert_eq!(flavor_name(Some(Vec::new())), "");
}

#[test]
fn flavor_falls_back_to_none() {
    assert_eq!(flavor_name(None), "none");
    assert_eq!(flavor_name(Some(vec![0xff, 0xfe, 0x41])), "none");
}

#[test]
fn update_offered_without_ignored_version() {
    assert!(should_offer_update(&None, "1.2.0"));
}

#[test]
fn update_offered_when_ignored_version_is_older() {
    assert!(should_offer_update(&Some("1.1.9".to_string()), "1.2.0"));
    assert!(should_offer_update(&Some("1.2.0-beta.1".to_string()), "1.2.0"));
    assert!(should_offer_update(&Some("1.9.0".to_string()), "1.10.0"));
}

#[test]
fn ignored_version_is_not_offered_again() {
    assert!(!should_offer_update(&Some("1.2.0".to_string()), "1.2.0"));
    assert!(!should_offer_update(&Some("1.3.0".to_string()), "1.2.0"));
    assert!(!should_offer_update(&Some("1.10.0".to_string()), "1.9.0"));
}

#[test]
fn unparsable_ignored_version_is_not_offered() {
    assert!(!should_offer_update(&Some("latest".to_string()), "1.2.0"));
}

#[test]
fn update_dialog_buttons() {
    assert_eq!(update_choice(0), UpdateChoice::Dismiss);
    assert_eq!(update_choice(1), UpdateChoice::IgnoreVersion);
    assert_eq!(update_choice(2), UpdateChoice::OpenDownload);
    assert_eq!(update_choice(-1), UpdateChoice::Dismiss);
}

#[test]
fn font_reply_by_status() {
    assert_eq!(font_reply(304), FontReply::NotModified);
    assert_eq!(font_reply(200), FontReply::Download);
    assert_eq!(font_reply(299), FontReply::Download);
    assert_eq!(font_reply(199), FontReply::Failed);
    assert_eq!(font_reply(300), FontReply::Failed);
    assert_eq!(font_reply(404), FontReply::Failed);
    assert_eq!(font_reply(500), FontReply::Failed);
}

#[test]
fn font_failure_uses_json_error_detail() {
    assert_eq!(font_failure_message(500, "{\"error\":\"boom\"}"), "request failed (500): boom");
    assert_eq!(font_failure_message(403, " {\"error\": \"no\", \"x\": 1} "), "request failed (403): no");
}

#[test]
fn font_failure_falls_back_to_body() {
    assert_eq!(font_failure_message(500, "oops"), "request failed (500): oops");
    assert_eq!(font_failure_message(502, "{\"error\":3}"), "request failed (502): {\"error\":3}");
    assert_eq!(font_failure_message(404, "[1,2]"), "request failed (404): [1,2]");
}
