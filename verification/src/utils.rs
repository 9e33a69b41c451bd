//! Shared helpers: reply references in post text, admin credentials and
//! the server clock.
use vstd::prelude::*;
use crate::numbers::{parse_i32, parse_i32_spec};
use vstd::string::StringExecFns;

verus! {

/// The pattern of a reply reference in a post: `>>` (group `arrows`)
/// followed by a number (group `number`). The arrows stand unescaped: the
/// `regex` crate reads `\>` as an end-of-word assertion.
pub const REPLY_PATTERN: &'static str = "(?x)((?P<arrows>>>)(?P<number>\\d+))";

/// The group of `REPLY_PATTERN` that holds the referenced number.
pub const REPLY_NUMBER_GROUP: &'static str = "number";

/// What the `regex` crate gives for `pattern` on `text`: `None` where the
/// pattern does not compile, else, for each successive non-overlapping
/// match, the text of the group named `group` (`None` where it took no part).
pub uninterp spec fn regex_named_captures(
    pattern: Seq<char>,
    group: Seq<char>,
    text: Seq<char>,
) -> Option<Seq<Option<Seq<char>>>>;

/// Compiles `pattern` with `regex::Regex::new` and walks
/// `regex::Regex::captures_iter` over `text`, keeping for each match the
/// text of the named group (`regex::Captures::name`). The contract claims
/// only that the outcome is the named result `regex_named_captures` of the
/// three arguments: the regex engine is deterministic.
#[verifier::external_body]
fn regex_group_captures(pattern: &str, group: &str, text: &str) -> (res: Option<
    Vec<Option<String>>,
>)
    ensures
        res.deep_view() == regex_named_captures(pattern@, group@, text@),
{
    let re = regex::Regex::new(pattern).ok()?;
    let mut out = Vec::new();
    for caps in re.captures_iter(text) {
        out.push(caps.name(group).map(|m| m.as_str().to_string()));
    }
    Some(out)
}

/// Every capture is present and parses as an `i32`.
pub open spec fn captures_parse(caps: Seq<Option<Seq<char>>>) -> bool {
    forall|k: int|
        0 <= k < caps.len() ==> (#[trigger] caps[k]) is Some && parse_i32_spec(caps[k]->0) is Some
}

/// The reply numbers of a list of captures: `None` when there is none or
/// when one of them is missing or is not an `i32`.
pub open spec fn replies_spec(caps: Seq<Option<Seq<char>>>) -> Option<Seq<i32>> {
    if caps.len() > 0 && captures_parse(caps) {
        Some(Seq::new(caps.len(), |k: int| parse_i32_spec(caps[k]->0)->0))
    } else {
        None
    }
}

/// What `parse_text` gives for a text.
pub open spec fn parse_text_spec(text: Option<Seq<char>>) -> Option<Seq<i32>> {
    match text {
        None => None,
        Some(t) => match regex_named_captures(REPLY_PATTERN@, REPLY_NUMBER_GROUP@, t) {
            None => None,
            Some(caps) => replies_spec(caps),
        },
    }
}

/// A text that yields reply numbers yields at least one, one per match.
pub proof fn lemma_replies_nonempty(text: Option<Seq<char>>)
    ensures
        parse_text_spec(text) matches Some(v) ==> (v.len() > 0 && text is Some && (
        regex_named_captures(REPLY_PATTERN@, REPLY_NUMBER_GROUP@, text->0) matches Some(caps)
            && caps.len() == v.len())),
{
}

/// Turns the captured reply numbers into integers: `None` when there are
/// none, or when one of them is missing or does not parse as an `i32`.
pub fn replies_from_captures(caps: &Vec<Option<String>>) -> (r: Option<Vec<i32>>)
    ensures
        r.deep_view() == replies_spec(caps.deep_view()),
{
    let ghost cv = caps.deep_view();
    let mut out: Vec<i32> = Vec::new();
    let n = caps.len();
    for k in 0..n
        invariant
            n == caps.len(),
            cv == caps.deep_view(),
            out@.len() == k,
            forall|m: int| 0 <= m < k ==> (#[trigger] cv[m]) is Some && parse_i32_spec(cv[m]->0)
                == Some(out@[m]),
    {
        assert(cv[k as int] == caps@[k as int].deep_view());
        match &caps[k] {
            None => {
                return None;
            },
            Some(s) => match parse_i32(s.as_str()) {
                None => {
                    return None;
                },
                Some(v) => {
                    out.push(v);
                },
            },
        }
    }
    if n == 0 {
        return None;
    }
    assert(out@ =~= Seq::new(cv.len(), |k: int| parse_i32_spec(cv[k]->0)->0));
    Some(out)
}

/// The post numbers that a text refers to with `>>N`, in order; `None` for
/// no text, for a text without references, and when a referenced number is
/// not an `i32`.
pub fn parse_text(text: Option<String>) -> (r: Option<Vec<i32>>)
    ensures
        r.deep_view() == parse_text_spec(text.deep_view()),
{
    match text {
        None => None,
        Some(t) => match regex_group_captures(REPLY_PATTERN, REPLY_NUMBER_GROUP, t.as_str()) {
            None => None,
            Some(caps) => replies_from_captures(&caps),
        },
    }
}

/// The current time in milliseconds since the Unix epoch, from
/// `chrono::Utc::now` and `chrono::DateTime::timestamp_millis`. Nothing is
/// claimed of the value: it is the clock's. It panics when the system clock
/// reads before 1970, which no `requires` can exclude.
#[verifier::external_body]
pub fn get_unix_timestamp_ms() -> i64 {
    chrono::Utc::now().timestamp_millis()
}

/// Why a credential check fails.
#[derive(Debug, Clone, Copy, PartialEq, Eq, Structural)]
pub enum CredentialsError {
    /// The password is not the admin password.
    AuthenticationFailed,
}

impl CredentialsError {
    /// The error's message.
    pub fn message(&self) -> (m: String)
        ensures
            m@ == "Authentication failed."@,
    {
        String::from_str("Authentication failed.")
    }
}

/// Checks a password against the admin password: `Ok(true)` when they are
/// equal, the `AuthenticationFailed` error when not (never `Ok(false)`).
pub fn validate_credentials(admin_password: &str, expected_password: &str) -> (r: Result<
    bool,
    CredentialsError,
>)
    ensures
        admin_password@ == expected_password@ ==> r == Ok::<bool, CredentialsError>(true),
        admin_password@ != expected_password@ ==> r == Err::<bool, CredentialsError>(
            CredentialsError::AuthenticationFailed,
        ),
{
    if admin_password.to_owned() == expected_password.to_owned() {
        Ok(true)
    } else {
        Err(CredentialsError::AuthenticationFailed)
    }
}

} // verus!
