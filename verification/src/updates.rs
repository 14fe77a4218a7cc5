//! The checks that the home page makes with the server at start: the client's
//! flavor, the offer of a new client version, and the bold font download.

use vstd::prelude::*;
use vstd::utf8::*;
use crate::text::{decimal, decimal_text, is_trim_of, trim_white_space};

verus! {

/// What `semver` answers when the version written `a` is compared with `<` to the
/// version written `b`: `None` when either text is not a semantic version.
pub uninterp spec fn semver_precedes(a: Seq<char>, b: Seq<char>) -> Option<bool>;

/// Parses both texts with `semver::Version::parse` and compares the versions with
/// `<` (semver's ordering: major, minor, patch, pre-release, build metadata).
/// The result is named by `semver_precedes`; the one fact stated of it is that a
/// version never precedes itself (the ordering is derived, hence irreflexive).
#[verifier::external_body]
fn version_precedes(a: &str, b: &str) -> (r: Option<bool>)
    ensures
        r == semver_precedes(a@, b@),
        a@ == b@ ==> r != Some(true),
{
    match (semver::Version::parse(a), semver::Version::parse(b)) {
        (Ok(x), Ok(y)) => Some(x < y),
        _ => None,
    }
}

/// Whether the update dialog is shown for the latest version `latest`, when the
/// player chose to ignore `ignored` (if any).
pub open spec fn offers_update(ignored: Option<Seq<char>>, latest: Seq<char>) -> bool {
    match ignored {
        None => true,
        Some(v) => semver_precedes(v, latest) == Some(true),
    }
}

/// The update is offered exactly when no version is ignored or the ignored one
/// precedes the latest by semver; nothing else about the latest version's text matters.
pub proof fn update_offered_exactly_when_newer(ignored: Option<Seq<char>>, latest: Seq<char>)
    ensures
        ignored is None ==> offers_update(ignored, latest),
        ignored matches Some(v) ==> (offers_update(ignored, latest) <==> semver_precedes(v, latest)
            == Some(true)),
{
}

/// Whether to offer the latest version: when no version is ignored, or the ignored
/// one comes before it. A version that the player ignored is never offered again.
pub fn should_offer_update(ignored: &Option<String>, latest: &str) -> (r: bool)
    ensures
        r == offers_update(
            match ignored {
                Some(v) => Some(v@),
                None => None,
            },
            latest@,
        ),
        ignored is None ==> r,
        ignored matches Some(v) ==> (r <==> semver_precedes(v@, latest@) == Some(true)),
        ignored matches Some(v) && v@ == latest@ ==> !r,
{
    match ignored {
        None => true,
        Some(v) => {
            let order = version_precedes(v.as_str(), latest);
            match order {
                Some(b) => b,
                None => false,
            }
        },
    }
}

/// The buttons of the update dialog.
#[derive(Clone, Copy, PartialEq, Eq, Structural, Debug)]
pub enum UpdateChoice {
    /// Close the dialog.
    Dismiss,
    /// Remember the offered version as ignored.
    IgnoreVersion,
    /// Open the download page.
    OpenDownload,
}

/// The choice behind the update dialog's button `button` (cancel, ignore, go).
pub fn update_choice(button: i32) -> (c: UpdateChoice)
    ensures
        button == 1 ==> c == UpdateChoice::IgnoreVersion,
        button == 2 ==> c == UpdateChoice::OpenDownload,
        button != 1 && button != 2 ==> c == UpdateChoice::Dismiss,
{
    if button == 1 {
        UpdateChoice::IgnoreVersion
    } else if button == 2 {
        UpdateChoice::OpenDownload
    } else {
        UpdateChoice::Dismiss
    }
}

/// `String::from_utf8`: succeeds exactly on valid UTF-8, and then holds the
/// characters that the bytes encode.
#[verifier::external_body]
fn utf8_string(bytes: Vec<u8>) -> (r: Option<String>)
    ensures
        r is Some <==> valid_utf8(bytes@),
        r matches Some(s) ==> s@ == decode_utf8(bytes@),
{
    String::from_utf8(bytes).ok()
}

/// The client flavor: the trimmed text of the `flavor` file, or `none` when the
/// file cannot be read (`contents` is `None`) or is not UTF-8.
pub fn flavor_name(contents: Option<Vec<u8>>) -> (s: String)
    ensures
        match contents {
            Some(b) => if valid_utf8(b@) {
                is_trim_of(s@, decode_utf8(b@))
            } else {
                s@ == "none"@
            },
            None => s@ == "none"@,
        },
{
    proof {
        reveal_strlit("none");
    }
    match contents {
        Some(b) => {
            let text = utf8_string(b);
            match text {
                Some(t) => trim_white_space(t.as_str()),
                None => String::from_str("none"),
            }
        },
        None => String::from_str("none"),
    }
}

/// What to do with the server's answer to the bold font request.
#[derive(Clone, Copy, PartialEq, Eq, Structural, Debug)]
pub enum FontReply {
    /// The font on disk is current (`304 Not Modified`).
    NotModified,
    /// The request failed (a status outside `2xx`).
    Failed,
    /// A new font comes with the answer.
    Download,
}

/// `StatusCode::is_success`: the status is in `200..=299`.
pub open spec fn is_success(status: u16) -> bool {
    200 <= status <= 299
}

/// Classifies the status of the bold font answer.
pub fn font_reply(status: u16) -> (r: FontReply)
    ensures
        status == 304 ==> r == FontReply::NotModified,
        status != 304 && !is_success(status) ==> r == FontReply::Failed,
        status != 304 && is_success(status) ==> r == FontReply::Download,
{
    if status == 304 {
        FontReply::NotModified
    } else if !(200 <= status && status <= 299) {
        FontReply::Failed
    } else {
        FontReply::Download
    }
}

/// What `serde_json` finds in `text`: the string under the key `error` of the JSON
/// value that `text` holds, or `None` when `text` is not JSON or has no such string.
pub uninterp spec fn json_error_text(text: Seq<char>) -> Option<Seq<char>>;

/// Parses `text` with `serde_json::from_str` into a `serde_json::Value` and reads
/// `value["error"].as_str()`. The result is named by `json_error_text`.
#[verifier::external_body]
fn json_error_field(text: &str) -> (r: Option<String>)
    ensures
        match r {
            Some(s) => json_error_text(text@) == Some(s@),
            None => json_error_text(text@) is None,
        },
{
    match serde_json::from_str::<serde_json::Value>(text) {
        Ok(value) => value["error"].as_str().map(|s| s.to_string()),
        Err(_) => None,
    }
}

/// The message of a failed bold font request with status `status` and body `body`:
/// `request failed (<status>): <detail>`, where the detail is the body's JSON
/// `error` string when it has one, and the whole body otherwise.
pub open spec fn font_failure_text(status: u16, body: Seq<char>) -> Seq<char> {
    "request failed ("@ + decimal(status as nat) + "): "@ + match json_error_text(body) {
        Some(detail) => detail,
        None => body,
    }
}

/// Builds the message of a failed bold font request.
pub fn font_failure_message(status: u16, body: &str) -> (m: String)
    ensures
        m@ == font_failure_text(status, body@),
{
    let detail = json_error_field(body);
    let mut m = String::from_str("request failed (");
    let code = decimal_text(status);
    m.append(code.as_str());
    m.append("): ");
    match detail {
        Some(d) => m.append(d.as_str()),
        None => m.append(body),
    }
    m
}

} // verus!
