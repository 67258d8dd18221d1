//! Checks on what the user hands in.
use crate::error::{AppError, ErrorKind};
use vstd::prelude::*;
use vstd::string::*;

verus! {

/// The longest playlist name that is accepted, in bytes of UTF-8.
pub const MAX_PLAYLIST_NAME: usize = 255;

/// Whether `c` is a letter or a digit of any script, as
/// `char::is_alphanumeric` tells.
pub uninterp spec fn alphanumeric(c: char) -> bool;

/// `char::is_alphanumeric`: true for the characters of Unicode's Alphabetic
/// property and of its number categories. The contract only gives the
/// answer its name.
#[verifier::external_body]
fn is_alphanumeric(c: char) -> (answer: bool)
    ensures
        answer == alphanumeric(c),
{
    c.is_alphanumeric()
}

/// `String::push`: appends one character to the end of the string.
#[verifier::external_body]
fn push_char(text: &mut String, c: char)
    ensures
        final(text)@ == old(text)@.push(c),
{
    text.push(c)
}

pub open spec fn spec_is_kept(c: char, is_alphanumeric: bool) -> bool {
    is_alphanumeric || c == ' ' || c == '-' || c == '_'
}

/// Whether a playlist name may hold `c`, given whether it is a letter or a
/// digit: letters, digits, spaces, hyphens and underscores stay.
#[verifier::when_used_as_spec(spec_is_kept)]
pub fn is_kept(c: char, is_alphanumeric: bool) -> (kept: bool)
    ensures
        kept == spec_is_kept(c, is_alphanumeric),
{
    is_alphanumeric || c == ' ' || c == '-' || c == '_'
}

/// The characters that a playlist name may hold.
pub open spec fn allowed() -> spec_fn(char) -> bool {
    |c: char| spec_is_kept(c, alphanumeric(c))
}

/// `name` without the characters that a playlist name may not hold.
pub open spec fn sanitized(name: Seq<char>) -> Seq<char> {
    name.filter(allowed())
}

/// Why a playlist name is turned down, if it is.
pub open spec fn name_fault(name: &str) -> Option<Seq<char>> {
    if name@.len() == 0 {
        Some("Playlist name cannot be empty"@)
    } else if name.len() > MAX_PLAYLIST_NAME {
        Some("Playlist name too long (max 255 characters)"@)
    } else if sanitized(name@).len() == 0 {
        Some("Playlist name contains only invalid characters"@)
    } else {
        None
    }
}

/// Validates a playlist name and removes what it may not hold.
///
/// Fails with `Validation` if the name is empty, longer than
/// `MAX_PLAYLIST_NAME` bytes, or empty once sanitized; otherwise returns the
/// sanitized name.
pub fn validate_playlist_name(name: &str) -> (result: Result<String, AppError>)
    ensures
        match name_fault(name) {
            Some(detail) => result is Err && result->Err_0.spec_kind() == ErrorKind::Validation
                && result->Err_0.detail() == detail,
            None => result is Ok && result->Ok_0@ == sanitized(name@),
        },
{
    if name.is_empty() {
        return Err(AppError::Validation(String::from_str("Playlist name cannot be empty")));
    }
    if name.len() > MAX_PLAYLIST_NAME {
        return Err(
            AppError::Validation(String::from_str("Playlist name too long (max 255 characters)")),
        );
    }
    let count: usize = name.unicode_len();
    let mut clean: String = String::new();
    let mut i: usize = 0;
    while i < count
        invariant
            i <= count,
            count == name@.len(),
            name@.len() > 0,
            name.len() <= MAX_PLAYLIST_NAME,
            clean@ == sanitized(name@.take(i as int)),
        decreases count - i,
    {
        let c: char = name.get_char(i);
        proof {
            reveal(Seq::filter);
            assert(name@.take(i + 1).drop_last() =~= name@.take(i as int));
        }
        if is_kept(c, is_alphanumeric(c)) {
            push_char(&mut clean, c);
        }
        i += 1;
    }
    assert(name@.take(count as int) =~= name@);
    if clean.as_str().is_empty() {
        return Err(
            AppError::Validation(
                String::from_str("Playlist name contains only invalid characters"),
            ),
        );
    }
    Ok(clean)
}

/// The decimal digit for `d`.
pub open spec fn digit(d: int) -> Seq<char> {
    if d == 0 {
        "0"@
    } else if d == 1 {
        "1"@
    } else if d == 2 {
        "2"@
    } else if d == 3 {
        "3"@
    } else if d == 4 {
        "4"@
    } else if d == 5 {
        "5"@
    } else if d == 6 {
        "6"@
    } else if d == 7 {
        "7"@
    } else if d == 8 {
        "8"@
    } else {
        "9"@
    }
}

/// `n` in decimal, without leading zeros.
pub open spec fn digits(n: nat) -> Seq<char>
    decreases n,
{
    if n < 10 {
        digit(n as int)
    } else {
        digits(n / 10) + digit((n % 10) as int)
    }
}

/// `n` in decimal, with a minus sign if it is negative.
pub open spec fn decimal(n: int) -> Seq<char> {
    if n < 0 {
        "-"@ + digits((-n) as nat)
    } else {
        digits(n as nat)
    }
}

fn digit_text(d: u64) -> (text: &'static str)
    requires
        d < 10,
    ensures
        text@ == digit(d as int),
{
    if d == 0 {
        "0"
    } else if d == 1 {
        "1"
    } else if d == 2 {
        "2"
    } else if d == 3 {
        "3"
    } else if d == 4 {
        "4"
    } else if d == 5 {
        "5"
    } else if d == 6 {
        "6"
    } else if d == 7 {
        "7"
    } else if d == 8 {
        "8"
    } else {
        "9"
    }
}

fn append_digits(text: String, n: u64) -> (longer: String)
    ensures
        longer@ == text@ + digits(n as nat),
    decreases n,
{
    if n < 10 {
        text.concat(digit_text(n))
    } else {
        let longer: String = append_digits(text, n / 10).concat(digit_text(n % 10));
        assert(longer@ =~= text@ + digits(n as nat));
        longer
    }
}

/// The detail of the error for a rating out of range.
pub open spec fn rating_fault(rating: i32) -> Seq<char> {
    "Rating must be between 0 and 5, got "@ + decimal(rating as int)
}

/// Validates a track rating: zero to five stars.
///
/// Fails with `Validation` exactly if the rating lies outside `0..=5`.
pub fn validate_rating(rating: i32) -> (result: Result<i32, AppError>)
    ensures
        0 <= rating <= 5 ==> result == Ok::<i32, AppError>(rating),
        !(0 <= rating <= 5) ==> result is Err && result->Err_0.spec_kind() == ErrorKind::Validation
            && result->Err_0.detail() == rating_fault(rating),
{
    if 0 <= rating && rating <= 5 {
        return Ok(rating);
    }
    let mut detail: String = String::from_str("Rating must be between 0 and 5, got ");
    let size: u64 = if rating < 0 {
        detail = detail.concat("-");
        (-(rating as i64)) as u64
    } else {
        rating as u64
    };
    let detail: String = append_digits(detail, size);
    assert(detail@ =~= rating_fault(rating));
    Err(AppError::Validation(detail))
}

} // verus!
