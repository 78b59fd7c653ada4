//! Identifiers and clock readings obtained from outside crates.

use vstd::prelude::*;

verus! {

/// A fresh random identifier: `uuid::Uuid::new_v4().to_string()`.
/// Trusted: the text is the hyphenated form, which is 36 characters long;
/// its value is random, so nothing else is stated.
#[verifier::external_body]
pub fn new_id() -> (r: String)
    ensures
        r@.len() == 36,
{
    uuid::Uuid::new_v4().to_string()
}

/// What `uuid::Uuid::parse_str` makes of a text: the identifier in its
/// hyphenated lower-case form (`Uuid::to_string`), or the text of the
/// parser's error. It depends on the text alone.
pub uninterp spec fn uuid_parse(s: Seq<char>) -> Result<Seq<char>, Seq<char>>;

/// Parse a UUID in any of the forms the `uuid` crate accepts (simple,
/// hyphenated, URN, braced). Trusted wrapper of `Uuid::parse_str`: the
/// result is `uuid_parse` of the text, and a parsed identifier is written
/// in the 36-character hyphenated form.
#[verifier::external_body]
pub fn parse_uuid(s: &str) -> (r: Result<String, String>)
    ensures
        match r {
            Ok(u) => uuid_parse(s@) == Ok::<Seq<char>, Seq<char>>(u@) && u@.len() == 36,
            Err(e) => uuid_parse(s@) == Err::<Seq<char>, Seq<char>>(e@),
        },
{
    match uuid::Uuid::parse_str(s) {
        Ok(u) => Ok(u.to_string()),
        Err(e) => Err(e.to_string()),
    }
}

/// The current time in whole seconds since the Unix epoch:
/// `chrono::Utc::now().timestamp()`. Trusted; it depends on the clock, so
/// nothing is stated about the value.
#[verifier::external_body]
pub fn now_timestamp() -> (r: i64) {
    chrono::Utc::now().timestamp()
}


#[verifier::external_type_specification]
#[verifier::external_body]
pub struct ExInstant(std::time::Instant);

/// `Instant::now`. Trusted wrapper; the clock reading is not described.
#[verifier::external_body]
pub fn instant_now() -> (r: std::time::Instant) {
    std::time::Instant::now()
}

/// Whole seconds elapsed since `t` (`Instant::elapsed`, as seconds).
/// Trusted wrapper; the reading depends on the clock and is not described.
#[verifier::external_body]
pub fn elapsed_secs(t: &std::time::Instant) -> (r: u64) {
    t.elapsed().as_secs()
}

/// Milliseconds elapsed since `t` (`Instant::elapsed`, as milliseconds cut
/// to 64 bits). Trusted wrapper; the reading depends on the clock and is not
/// described.
#[verifier::external_body]
pub fn elapsed_millis(t: &std::time::Instant) -> (r: u64) {
    t.elapsed().as_millis() as u64
}

} // verus!
