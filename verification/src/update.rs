use vstd::prelude::*;

use crate::banner::UpdateStatus;

verus! {

/// `s` without the `v` characters at its start, as
/// `s.trim_start_matches('v')` leaves it.
pub open spec fn strip_leading_v(s: Seq<char>) -> Seq<char>
    decreases s.len(),
{
    if s.len() > 0 && s[0] == 'v' {
        strip_leading_v(s.drop_first())
    } else {
        s
    }
}

proof fn lemma_strip_skip(s: Seq<char>, i: int)
    requires
        0 <= i <= s.len(),
        forall|j: int| 0 <= j < i ==> s[j] == 'v',
    ensures
        strip_leading_v(s) == strip_leading_v(s.skip(i)),
    decreases i,
{
    if i > 0 {
        assert(s.drop_first().skip(i - 1) =~= s.skip(i));
        lemma_strip_skip(s.drop_first(), i - 1);
    } else {
        assert(s.skip(0) =~= s);
    }
}

/// The tag of a release without the `v` characters at its start.
pub fn trim_version_prefix(tag: &str) -> (t: &str)
    ensures
        t@ == strip_leading_v(tag@),
{
    let n = tag.unicode_len();
    let mut i: usize = 0;
    while i < n && tag.get_char(i) == 'v'
        invariant
            n == tag@.len(),
            i <= n,
            forall|j: int| 0 <= j < i ==> tag@[j] == 'v',
        decreases n - i,
    {
        i = i + 1;
    }
    proof {
        lemma_strip_skip(tag@, i as int);
        if i < n {
            assert(tag@.skip(i as int)[0] == tag@[i as int]);
        }
    }
    let t = tag.substring_char(i, n);
    assert(t@ =~= tag@.skip(i as int));
    t
}

/// What is known of the latest release once its tag is `tag`: up to date
/// when the tag, without its leading `v`s, is `version`, else out of date.
pub open spec fn status_for_tag(tag: Seq<char>, version: Seq<char>) -> UpdateStatus {
    if strip_leading_v(tag) == version {
        UpdateStatus::UpToDate
    } else {
        UpdateStatus::OutOfDate
    }
}

/// Compares the tag of the latest release with `version`.
pub fn update_status_for(tag: &str, version: &str) -> (status: UpdateStatus)
    ensures
        status == status_for_tag(tag@, version@),
{
    let latest = trim_version_prefix(tag).to_owned();
    let current = version.to_owned();
    if latest == current {
        UpdateStatus::UpToDate
    } else {
        UpdateStatus::OutOfDate
    }
}

/// What `serde_json::from_str::<serde_json::Value>(body)` followed by
/// `value[key].as_str()` gives: `None` where the body is no JSON document,
/// `Some(None)` where the document has no string under `key` (it is no
/// object, has no such member, or the member is no string),
/// `Some(Some(s))` where it has the string `s` there.
pub uninterp spec fn json_string_field(body: Seq<char>, key: Seq<char>) -> Option<Option<Seq<char>>>;

/// What `serde_json::from_str::<serde_json::Value>(body)` followed by the
/// value's `to_string()` gives: `None` where the body is no JSON document,
/// else the document written back compactly.
pub uninterp spec fn json_compact(body: Seq<char>) -> Option<Seq<char>>;

/// The member of a release reply that holds the tag of the release.
pub open spec fn tag_key() -> Seq<char> {
    "tag_name"@
}

/// The tag of the release in the reply `body`, as `json_string_field` reads
/// it under `tag_name`.
pub open spec fn json_tag_name(body: Seq<char>) -> Option<Option<Seq<char>>> {
    json_string_field(body, tag_key())
}

#[verifier::external_type_specification]
#[verifier::external_body]
pub struct ExJsonError(serde_json::Error);

/// The view of an optional string.
pub open spec fn opt_view(s: Option<String>) -> Option<Seq<char>> {
    match s {
        Some(t) => Some(t@),
        None => None,
    }
}

/// Parses `body` with `serde_json::from_str` into a `serde_json::Value` and
/// reads the string under `key` (`Value`'s index by a string, which never
/// panics, and `as_str`); the result is named `json_string_field`,
/// serde_json's error comes back as is.
#[verifier::external_body]
fn json_string_at(body: &str, key: &str) -> (res: Result<Option<String>, serde_json::Error>)
    ensures
        match res {
            Ok(v) => json_string_field(body@, key@) == Some(opt_view(v)),
            Err(_) => json_string_field(body@, key@) is None,
        },
{
    match serde_json::from_str::<serde_json::Value>(body) {
        Ok(value) => match value[key].as_str() {
            Some(text) => Ok(Some(text.to_string())),
            None => Ok(None),
        },
        Err(e) => Err(e),
    }
}

/// Parses `body` with `serde_json::from_str` into a `serde_json::Value` and
/// writes the value back with its `Display` (`to_string`); the result is
/// named `json_compact`. The parse is the one that `json_string_at` makes,
/// so it succeeds exactly where `json_string_field` is `Some`, whatever the
/// key.
#[verifier::external_body]
fn json_text(body: &str) -> (res: Result<String, serde_json::Error>)
    ensures
        match res {
            Ok(t) => json_compact(body@) == Some(t@),
            Err(_) => json_compact(body@) is None,
        },
        forall|key: Seq<char>| (#[trigger] json_string_field(body@, key) is Some) <==> res is Ok,
{
    match serde_json::from_str::<serde_json::Value>(body) {
        Ok(value) => Ok(value.to_string()),
        Err(e) => Err(e),
    }
}

/// Why the latest release could not be told.
#[derive(Debug)]
pub enum UpdateCheckError {
    /// the reply is no JSON document
    Json(serde_json::Error),
    /// the reply, given here as the JSON value written back compactly, has
    /// no string under `tag_name`
    MissingTagName(String),
    /// the address of the releases API is no URL; the text is the parser's
    InvalidUrl(String),
}

/// The message for a reply `json` that names no tag.
pub fn missing_tag_message(json: &str) -> (m: String)
    ensures
        m@ == "JSON has no tag_name: "@ + json@,
{
    let mut m = String::new();
    m.append("JSON has no tag_name: ");
    m.append(json);
    m
}

/// The tag of the latest release in the reply `body`, or why there is none.
pub fn latest_tag(body: &str) -> (res: Result<String, UpdateCheckError>)
    ensures
        match json_tag_name(body@) {
            None => res matches Err(UpdateCheckError::Json(_)),
            Some(None) => res matches Err(UpdateCheckError::MissingTagName(j)) && json_compact(body@) == Some(j@),
            Some(Some(tag)) => res matches Ok(t) && t@ == tag,
        },
{
    match json_string_at(body, "tag_name") {
        Ok(Some(tag)) => Ok(tag),
        Ok(None) => match json_text(body) {
            Ok(json) => Err(UpdateCheckError::MissingTagName(json)),
            Err(e) => Err(UpdateCheckError::Json(e)),
        },
        Err(e) => Err(UpdateCheckError::Json(e)),
    }
}


#[verifier::external_type_specification]
#[verifier::external_body]
pub struct ExUrl(reqwest::Url);

/// What `reqwest::Url::parse(url)` gives: `None` where it accepts `url`,
/// else `Some` of its error's text (`to_string`).
pub uninterp spec fn url_parse_error(url: Seq<char>) -> Option<Seq<char>>;

/// Whether `reqwest::Url::parse` accepts `url`.
pub open spec fn url_accepted(url: Seq<char>) -> bool {
    url_parse_error(url) is None
}

/// Parses `url` with `reqwest::Url::parse` (the `url` crate's parser);
/// the error comes back as its text. What the parsed URL holds is not
/// stated: the type is opaque here and only carried to the request.
#[verifier::external_body]
fn parse_url(url: &str) -> (res: Result<reqwest::Url, String>)
    ensures
        match res {
            Ok(_) => url_parse_error(url@) is None,
            Err(m) => url_parse_error(url@) == Some(m@),
        },
{
    match reqwest::Url::parse(url) {
        Ok(u) => Ok(u),
        Err(e) => Err(e.to_string()),
    }
}

/// The address of the releases API to ask, parsed from `url`, or why `url`
/// is no address.
pub fn release_url(url: &str) -> (res: Result<reqwest::Url, UpdateCheckError>)
    ensures
        res is Ok <==> url_accepted(url@),
        match url_parse_error(url@) {
            None => res is Ok,
            Some(m) => res matches Err(UpdateCheckError::InvalidUrl(e)) && e@ == m,
        },
{
    match parse_url(url) {
        Ok(u) => Ok(u),
        Err(m) => Err(UpdateCheckError::InvalidUrl(m)),
    }
}
} // verus!
