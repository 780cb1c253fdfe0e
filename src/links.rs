//! Short codes: choosing the code of a new link, what the store's
//! insert-or-ignore answer means for the request, and where a code leads.
use vstd::prelude::*;

use crate::account::UserError;
use crate::error::ApiError;

verus! {

/// Number of digest characters that make an automatic code.
pub const FINGERPRINT_LENGTH: usize = 6;

/// Fewest characters in a short code.
pub const MIN_CODE_LENGTH: usize = 6;

/// Most characters in a short code.
pub const MAX_CODE_LENGTH: usize = 10;

/// A character that may stand in a short code: printable ASCII other than
/// the space.
pub open spec fn is_code_char(c: char) -> bool {
    0x21 <= (c as u32) && (c as u32) <= 0x7e
}

/// A well-formed short code: 6 to 10 printable characters.
pub open spec fn code_is_valid(code: Seq<char>) -> bool {
    &&& MIN_CODE_LENGTH <= code.len() <= MAX_CODE_LENGTH
    &&& forall|i: int| 0 <= i < code.len() ==> #[trigger] is_code_char(code[i])
}

/// A lowercase hexadecimal digit.
pub open spec fn is_lower_hex_digit(c: char) -> bool {
    (0x30 <= (c as u32) && (c as u32) <= 0x39) || (0x61 <= (c as u32) && (c as u32) <= 0x66)
}

/// The lowercase hexadecimal text of the MD5 digest of a string.
pub uninterp spec fn md5_hex_of(s: Seq<char>) -> Seq<char>;

/// Relies on md5::compute and the digest's `LowerHex` format: two lowercase
/// hexadecimal digits for each of its sixteen bytes.
#[verifier::external_body]
fn md5_hex(s: &str) -> (r: String)
    ensures
        r@ == md5_hex_of(s@),
        r@.len() == 32,
        r.is_ascii(),
        forall|i: int| 0 <= i < r@.len() ==> #[trigger] is_lower_hex_digit(r@[i]),
{
    format!("{:x}", md5::compute(s))
}

/// The code that a link gets when none is asked for: the first characters of
/// the hex digest of its URL. The same URL always gets the same code.
pub open spec fn fingerprint_code(url: Seq<char>) -> Seq<char> {
    md5_hex_of(url).subrange(0, FINGERPRINT_LENGTH as int)
}

/// The automatic code, cut from the hex digest of a URL.
pub fn code_from_digest(hex_digest: &str) -> (r: String)
    requires
        hex_digest.is_ascii(),
        FINGERPRINT_LENGTH <= hex_digest@.len(),
    ensures
        r@ == hex_digest@.subrange(0, FINGERPRINT_LENGTH as int),
{
    String::from_str(hex_digest.substring_ascii(0, FINGERPRINT_LENGTH))
}

/// Whether a requested code is well formed.
pub fn valid_short_code(code: &str) -> (r: bool)
    ensures
        r == code_is_valid(code@),
{
    let n = code.unicode_len();
    if n < MIN_CODE_LENGTH || n > MAX_CODE_LENGTH {
        return false;
    }
    let mut i: usize = 0;
    while i < n
        invariant
            n == code@.len(),
            i <= n,
            forall|j: int| 0 <= j < i ==> #[trigger] is_code_char(code@[j]),
        decreases n - i,
    {
        let c = code.get_char(i);
        if (c as u32) < 0x21 || (c as u32) > 0x7e {
            assert(!is_code_char(code@[i as int]));
            return false;
        }
        i = i + 1;
    }
    true
}

/// The code to store a new link under: the one asked for if it is well
/// formed, else the URL's fingerprint. Every code handed out is well formed.
pub fn short_code_for(url: &str, requested: Option<String>) -> (r: Result<String, ApiError>)
    ensures
        requested matches Some(c) ==> (code_is_valid(c@) ==> (r matches Ok(x) && x@ == c@)),
        requested matches Some(c) ==> (!code_is_valid(c@) ==> r == Err::<String, ApiError>(
            ApiError::InvalidCode,
        )),
        requested is None ==> (r matches Ok(x) && x@ == fingerprint_code(url@)),
        r matches Ok(x) ==> code_is_valid(x@),
{
    match requested {
        Some(code) => {
            if valid_short_code(code.as_str()) {
                Ok(code)
            } else {
                Err(ApiError::InvalidCode)
            }
        },
        None => {
            let digest = md5_hex(url);
            let code = code_from_digest(digest.as_str());
            assert forall|i: int| 0 <= i < code@.len() implies #[trigger] is_code_char(code@[i]) by {
                assert(is_lower_hex_digit(digest@[i]));
            }
            Ok(code)
        },
    }
}

/// What the store answered to inserting a link under its code, where a code
/// already taken leaves the store unchanged.
#[derive(Debug)]
pub enum InsertReport {
    /// The link was stored.
    Inserted,
    /// The code was taken; the URL stored under it, if it could be read.
    Taken { stored_url: Option<String> },
    /// The store failed.
    StoreFailure,
}

/// The answer to a shorten request, given the code tried, whether the caller
/// asked for it, and what the store answered. A taken code is a conflict,
/// except for an automatic code that already leads to the same URL.
pub open spec fn shorten_result(url: Seq<char>, code: Seq<char>, explicit: bool, report: InsertReport) -> Result<
    Seq<char>,
    ApiError,
> {
    match report {
        InsertReport::Inserted => Ok(code),
        InsertReport::StoreFailure => Err(ApiError::InternalServerError),
        InsertReport::Taken { stored_url } => match stored_url {
            Some(u) if !explicit && u@ == url => Ok(code),
            _ => Err(ApiError::Conflict),
        },
    }
}

/// Answers a shorten request once the store has answered the insert of the
/// code that `short_code_for` gave.
pub fn shorten_outcome(url: &str, code: String, explicit: bool, report: InsertReport) -> (r: Result<
    String,
    ApiError,
>)
    requires
        code_is_valid(code@),
    ensures
        r matches Ok(c) ==> code_is_valid(c@),
        r matches Ok(c) ==> shorten_result(url@, code@, explicit, report) == Ok::<
            Seq<char>,
            ApiError,
        >(c@),
        r matches Err(e) ==> shorten_result(url@, code@, explicit, report) == Err::<
            Seq<char>,
            ApiError,
        >(e),
{
    match report {
        InsertReport::Inserted => Ok(code),
        InsertReport::StoreFailure => Err(ApiError::InternalServerError),
        InsertReport::Taken { stored_url } => {
            if explicit {
                Err(ApiError::Conflict)
            } else {
                match stored_url {
                    Some(u) => {
                        if u == String::from_str(url) {
                            Ok(code)
                        } else {
                            Err(ApiError::Conflict)
                        }
                    },
                    None => Err(ApiError::Conflict),
                }
            }
        },
    }
}

/// Two requests for the same explicit code, where the store's unique key let
/// exactly one of the two inserts write: exactly one request gets the code,
/// and the other a conflict.
pub proof fn lemma_same_code_one_winner(
    url_a: Seq<char>,
    url_b: Seq<char>,
    code: Seq<char>,
    report_a: InsertReport,
    report_b: InsertReport,
)
    requires
        (report_a is Inserted && report_b is Taken) || (report_a is Taken && report_b is Inserted),
    ensures
        shorten_result(url_a, code, true, report_a) is Ok != shorten_result(url_b, code, true, report_b) is Ok,
        shorten_result(url_a, code, true, report_a) is Ok ==> shorten_result(url_b, code, true, report_b)
            == Err::<Seq<char>, ApiError>(ApiError::Conflict),
        shorten_result(url_b, code, true, report_b) is Ok ==> shorten_result(url_a, code, true, report_a)
            == Err::<Seq<char>, ApiError>(ApiError::Conflict),
{
}

/// The owner of a new link: the account of the authenticated subject. A
/// subject without an account is not authenticated; a store failure is an
/// internal error.
pub fn link_owner(lookup: Result<Option<u32>, UserError>) -> (r: Result<u32, ApiError>)
    ensures
        lookup matches Ok(Some(id)) ==> r == Ok::<u32, ApiError>(id),
        lookup matches Ok(None) ==> r == Err::<u32, ApiError>(ApiError::AuthError),
        lookup is Err ==> r == Err::<u32, ApiError>(ApiError::InternalServerError),
{
    match lookup {
        Ok(Some(id)) => Ok(id),
        Ok(None) => Err(ApiError::AuthError),
        Err(_) => Err(ApiError::InternalServerError),
    }
}

/// Where a short code leads: its stored URL, or the front page for an
/// unknown code.
pub fn redirect_target(stored_url: Option<String>) -> (r: String)
    ensures
        stored_url matches Some(u) ==> r@ == u@,
        stored_url is None ==> r@ == "/"@,
{
    match stored_url {
        Some(u) => u,
        None => String::from_str("/"),
    }
}

} // verus!
