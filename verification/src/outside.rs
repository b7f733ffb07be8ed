//! The calls into other crates, and what is relied on of each.
//!
//! Nothing here is proved. Everything else in the library is proved from these
//! contracts.
use vstd::prelude::*;

verus! {

/// What `bcrypt::verify` answers for a password and a stored hash: whether they
/// belong together, or the debug text of the error.
pub uninterp spec fn bcrypt_verification(password: Seq<char>, hash: Seq<char>) -> Result<
    bool,
    Seq<char>,
>;

/// `bcrypt::verify`. The answer depends on the password and the hash alone; which
/// answer that is stays open here. An error is handed on as its debug text.
#[verifier::external_body]
pub(crate) fn verify_password(password: &str, hash: &str) -> (checked: Result<bool, String>)
    ensures
        match checked {
            Ok(same) => bcrypt_verification(password@, hash@) == Ok::<bool, Seq<char>>(same),
            Err(text) => bcrypt_verification(password@, hash@) == Err::<bool, Seq<char>>(text@),
        },
{
    match bcrypt::verify(password, hash) {
        Ok(same) => Ok(same),
        Err(e) => Err(format!("{e:?}")),
    }
}

/// The digit of a number below ten.
pub open spec fn digit(value: u32) -> char {
    (48 + value) as char
}

/// What a hash made with this cost starts with: the version and the cost.
pub open spec fn hash_prefix(cost: u32) -> Seq<char> {
    seq!['$', '2', 'b', '$', digit(cost / 10), digit(cost % 10), '$']
}

/// The debug text of the error of `bcrypt::hash` that the system has no random bytes to
/// give.
pub open spec fn no_random_bytes(text: Seq<char>) -> bool {
    text.len() >= 5 && text.take(5) == "Rand("@
}

/// `bcrypt::hash`. The hash is salted at random, so two calls differ, but a hash
/// always belongs together with the password that it was made from, starts with the
/// version and the cost, and is 60 characters long. There is none for a cost outside
/// 4 to 31. Within these bounds the call fails only if the system has no random bytes
/// to give; whether it has is left open. An error is handed on as its debug text.
#[verifier::external_body]
pub(crate) fn hash_password(password: &str, cost: u32) -> (hashed: Result<String, String>)
    ensures
        hashed matches Ok(hash) ==> {
            &&& 4 <= cost <= 31
            &&& hash@.len() == 60
            &&& hash@.take(7) == hash_prefix(cost)
            &&& bcrypt_verification(password@, hash@) == Ok::<bool, Seq<char>>(true)
        },
        hashed matches Err(text) ==> 4 <= cost <= 31 ==> no_random_bytes(text@),
{
    match bcrypt::hash(password, cost) {
        Ok(hash) => Ok(hash),
        Err(e) => Err(format!("{e:?}")),
    }
}

/// The number was read from the clock, in milliseconds since the start of 1970. What that
/// says of the number is known here alone: elsewhere a number passes for a reading of the
/// clock only if it came from `now_millis`.
pub closed spec fn clock_reading(millis: i64) -> bool {
    millis >= 0
}

/// `chrono::Utc::now` and `timestamp_millis`: the milliseconds since the start of
/// 1970, as the clock shows them. The call panics where the clock is set to an earlier
/// time, so what it returns is never negative.
#[verifier::external_body]
pub(crate) fn now_millis() -> (millis: i64)
    ensures
        millis >= 0,
        clock_reading(millis),
{
    chrono::Utc::now().timestamp_millis()
}

/// How `http::StatusCode` writes a code out.
pub uninterp spec fn status_text(code: u16) -> Seq<char>;

/// `StatusCode::from_u16` and `to_string`: the code in decimal, a space and the
/// standard reason. The reasons are stated for the codes that this server gives;
/// of the others only that the text depends on nothing but the code. Codes outside
/// 100 to 999 are not status codes, and the conversion would panic on them.
#[verifier::external_body]
pub(crate) fn describe_status(code: u16) -> (text: String)
    requires
        100 <= code <= 999,
    ensures
        text@ == status_text(code),
        code == 401 ==> text@ == "401 Unauthorized"@,
        code == 404 ==> text@ == "404 Not Found"@,
        code == 500 ==> text@ == "500 Internal Server Error"@,
{
    tokio_tungstenite::tungstenite::http::StatusCode::from_u16(code).unwrap().to_string()
}

/// What `url::Url::parse` makes of an address: the normalised address, or the debug
/// text of the error.
pub uninterp spec fn parsed_url(address: Seq<char>) -> Result<Seq<char>, Seq<char>>;

/// `url::Url::parse`. The answer depends on the address alone. It is stated for the two
/// addresses that this server connects to: both are URLs, and a URL whose scheme is `ws`
/// or `wss` has a path, which is `/` where the address has none. Of other addresses the
/// answer stays open here. The URL is handed on in its written form, an error as its
/// debug text.
#[verifier::external_body]
pub(crate) fn parse_url(address: &str) -> (parsed: Result<String, String>)
    ensures
        match parsed {
            Ok(url) => parsed_url(address@) == Ok::<Seq<char>, Seq<char>>(url@),
            Err(text) => parsed_url(address@) == Err::<Seq<char>, Seq<char>>(text@),
        },
        address@ == "ws://localhost:8000/"@ ==> parsed is Ok && parsed->Ok_0@
            == "ws://localhost:8000/"@,
        address@ == "wss://tc-core.level9turtles.com"@ ==> parsed is Ok && parsed->Ok_0@
            == "wss://tc-core.level9turtles.com/"@,
{
    match url::Url::parse(address) {
        Ok(url) => Ok(url.to_string()),
        Err(e) => Err(format!("{e:?}")),
    }
}

} // verus!
