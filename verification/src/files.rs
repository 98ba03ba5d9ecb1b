//! Reading a count out of a text file's contents.

use std::num::ParseIntError;
use vstd::prelude::*;

verus! {

/// `std::num::ParseIntError`, carried as it comes.
#[verifier::external_type_specification]
#[verifier::external_body]
pub struct ExParseIntError(std::num::ParseIntError);

/// `std::io::Error`, carried as it comes.
#[verifier::external_type_specification]
#[verifier::external_body]
pub struct ExIoError(std::io::Error);

/// Why no count came out of a file.
#[derive(Debug)]
pub enum ReadIntError {
    /// The file was read and its text is no count.
    Parsing(ParseIntError),
    /// The file could not be read.
    StdIoError(std::io::Error),
}

impl From<ParseIntError> for ReadIntError {
    fn from(value: ParseIntError) -> (r: Self) {
        Self::Parsing(value)
    }
}

impl vstd::std_specs::convert::FromSpecImpl<ParseIntError> for ReadIntError {
    open spec fn obeys_from_spec() -> bool {
        true
    }

    open spec fn from_spec(value: ParseIntError) -> Self {
        Self::Parsing(value)
    }
}

impl From<std::io::Error> for ReadIntError {
    fn from(value: std::io::Error) -> (r: Self) {
        Self::StdIoError(value)
    }
}

impl vstd::std_specs::convert::FromSpecImpl<std::io::Error> for ReadIntError {
    open spec fn obeys_from_spec() -> bool {
        true
    }

    open spec fn from_spec(value: std::io::Error) -> Self {
        Self::StdIoError(value)
    }
}

/// The characters with the Unicode property `White_Space`.
pub open spec fn is_white_space(c: char) -> bool {
    let u = c as u32;
    ||| 0x09 <= u <= 0x0d
    ||| u == 0x20
    ||| u == 0x85
    ||| u == 0xa0
    ||| u == 0x1680
    ||| 0x2000 <= u <= 0x200a
    ||| u == 0x2028
    ||| u == 0x2029
    ||| u == 0x202f
    ||| u == 0x205f
    ||| u == 0x3000
}

/// `s` without the white space it begins with.
pub open spec fn trim_start(s: Seq<char>) -> Seq<char>
    decreases s.len(),
{
    if s.len() > 0 && is_white_space(s[0]) {
        trim_start(s.skip(1))
    } else {
        s
    }
}

/// `s` without the white space it ends with.
pub open spec fn trim_end(s: Seq<char>) -> Seq<char>
    decreases s.len(),
{
    if s.len() > 0 && is_white_space(s.last()) {
        trim_end(s.drop_last())
    } else {
        s
    }
}

/// `s` without the white space at either end.
pub open spec fn trimmed(s: Seq<char>) -> Seq<char> {
    trim_end(trim_start(s))
}

/// One of the ten ASCII digits.
pub open spec fn is_digit(c: char) -> bool {
    '0' as u32 <= c as u32 <= '9' as u32
}

/// The number that the digits `s` write in base ten.
pub open spec fn digits_value(s: Seq<char>) -> nat
    decreases s.len(),
{
    if s.len() == 0 {
        0
    } else {
        digits_value(s.drop_last()) * 10 + (s.last() as u32 - '0' as u32) as nat
    }
}

/// `s` without a plus sign in front.
pub open spec fn unsigned_part(s: Seq<char>) -> Seq<char> {
    if s.len() > 0 && s[0] == '+' {
        s.skip(1)
    } else {
        s
    }
}

/// The count that `s` writes: an optional plus sign, then one digit or more
/// and nothing else, with a value that `usize` holds.
pub open spec fn count_of(s: Seq<char>) -> Option<nat> {
    let digits = unsigned_part(s);
    if digits.len() > 0 && (forall|i: int| 0 <= i < digits.len() ==> is_digit(#[trigger] digits[i]))
        && digits_value(digits) <= usize::MAX {
        Some(digits_value(digits))
    } else {
        None
    }
}

/// `str::trim`: the slice of `s` between its leading and its trailing white
/// space, where white space is what the Unicode property `White_Space`
/// names.
#[verifier::external_body]
pub(crate) fn trim(s: &str) -> (r: &str)
    ensures
        r@ == trimmed(s@),
{
    s.trim()
}

/// `==` on `str`: whether the two hold the same characters.
#[verifier::external_body]
pub(crate) fn same_text(a: &str, b: &str) -> (r: bool)
    ensures
        r == (a@ == b@),
{
    a == b
}

/// `str::parse` to a `usize`: succeeds on an optional plus sign followed by
/// digits alone whose value fits, with that value; fails on the empty
/// string, a sign alone, any other character, and a value beyond `usize`.
#[verifier::external_body]
fn parse_count(s: &str) -> (r: Result<usize, ParseIntError>)
    ensures
        match count_of(s@) {
            Some(n) => r == Ok::<usize, ParseIntError>(n as usize),
            None => r is Err,
        },
{
    s.parse::<usize>()
}

/// The count written in the contents of a file, white space around it left
/// out. `read` is what reading the file gave: its text, or the failure.
pub fn read_int_from_file_path(read: Result<String, std::io::Error>) -> (r: Result<
    usize,
    ReadIntError,
>)
    ensures
        match read {
            Ok(text) => match count_of(trimmed(text@)) {
                Some(n) => r == Ok::<usize, ReadIntError>(n as usize),
                None => r matches Err(ReadIntError::Parsing(_)),
            },
            Err(e) => r == Err::<usize, ReadIntError>(ReadIntError::StdIoError(e)),
        },
{
    match read {
        Ok(text) => match parse_count(trim(text.as_str())) {
            Ok(n) => Ok(n),
            Err(e) => Err(ReadIntError::from(e)),
        },
        Err(e) => Err(ReadIntError::from(e)),
    }
}

} // verus!
