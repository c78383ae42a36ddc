//! The calls into other crates. What is claimed of each is stated without proof.

use vstd::prelude::*;

verus! {

/// Mints a random identifier with `uuid::Uuid::new_v4` and writes it out with the
/// crate's `Display`. `new_v4` sets the version to 4 and the variant to the two bits
/// `10`; `Display` gives the hyphenated form in lower case, 32 hexadecimal digits in
/// groups of 8, 4, 4, 4 and 12. So much is claimed of the text, and nothing about which
/// identifier comes back. The call panics where the operating system cannot supply
/// random bytes.
#[verifier::external_body]
pub(crate) fn fresh_uuid() -> (uuid: String)
    ensures
        crate::text::is_v4_uuid(uuid@),
{
    uuid::Uuid::new_v4().to_string()
}

/// Reads the clock with `chrono::Utc::now` and gives the time as whole seconds since
/// the Unix epoch, as `chrono::DateTime::timestamp` counts them. Nothing is claimed
/// about the value. The call panics where the system clock stands before 1970.
#[verifier::external_body]
pub(crate) fn unix_now() -> (seconds: i64) {
    chrono::Utc::now().timestamp()
}

/// What the capture group `group` of the first match of the regular expression
/// `pattern` in `text` holds; nothing where the pattern is not accepted, where it does
/// not match, or where the match has no such group.
pub uninterp spec fn regex_group(pattern: Seq<char>, text: Seq<char>, group: int) -> Option<
    Seq<char>,
>;

/// Compiles `pattern` with `regex::Regex::new`, searches `text` with
/// `regex::Regex::captures` and hands out the text of one capture group, as
/// `regex::Captures::get` and `regex::Match::as_str` give it. The outcome depends on
/// the three arguments alone and is named `regex_group`; nothing more is claimed of it.
#[verifier::external_body]
pub(crate) fn capture_group(pattern: &str, text: &str, group: usize) -> (found: Option<String>)
    ensures
        crate::schema::text_view(found) == regex_group(pattern@, text@, group as int),
{
    let re = match regex::Regex::new(pattern) {
        Ok(re) => re,
        Err(_) => return None,
    };
    match re.captures(text) {
        Some(caps) => match caps.get(group) {
            Some(m) => Some(m.as_str().to_string()),
            None => None,
        },
        None => None,
    }
}

} // verus!
