//! Reading one field of a record from the member found under its key.
//!
//! A numeric field is read from a JSON number or from a string that writes
//! the number in decimal; a text field is read from a JSON string alone.  A
//! required field has to be there.  An optional field may be absent, but
//! where it is present it has to be readable like a required one.  Every
//! failure names the field.

use vstd::prelude::*;
use crate::decimal::{decimal_u64, parse_u64};
use crate::error::Error;
use crate::json::{Member, MemberView};

verus! {

/// The number that a member reads as: itself where it is a number, the number
/// that it writes where it is a string, none otherwise.
pub open spec fn number_of(m: MemberView) -> Option<u64> {
    match m {
        MemberView::Number(n) => Some(n),
        MemberView::Text(text) => decimal_u64(text),
        _ => None,
    }
}

/// The text that a member reads as: its characters where it is a string, none
/// otherwise.
pub open spec fn text_of(m: MemberView) -> Option<Seq<char>> {
    match m {
        MemberView::Text(text) => Some(text),
        _ => None,
    }
}

/// The characters of an optional string.
pub open spec fn string_chars(s: Option<String>) -> Option<Seq<char>> {
    match s {
        Some(text) => Some(text@),
        None => None,
    }
}

/// The two members are there or not alike, and read as the same number.
pub open spec fn same_number(a: MemberView, b: MemberView) -> bool {
    (a is Absent <==> b is Absent) && number_of(a) == number_of(b)
}

/// A numeric field that may be left out can be read from `m`.
pub open spec fn optional_number_ok(m: MemberView) -> bool {
    m is Absent || number_of(m) is Some
}

/// A text field that may be left out can be read from `m`.
pub open spec fn optional_text_ok(m: MemberView) -> bool {
    m is Absent || m is Text
}

/// Reads a numeric field.
pub fn number(m: Member) -> (r: Option<u64>)
    ensures
        r == number_of(m@),
{
    match m {
        Member::Number(n) => Some(n),
        Member::Text(text) => parse_u64(text),
        _ => None,
    }
}

/// Reads a numeric field that has to be there.
pub fn required_u64(m: Member, field: &'static str) -> (r: Result<u64, Error>)
    ensures
        match number_of(m@) {
            Some(n) => r == Ok::<u64, Error>(n),
            None => r matches Err(e) && e.is_parse_error(field@),
        },
{
    match number(m) {
        Some(n) => Ok(n),
        None => Err(Error::ParseError(field)),
    }
}

/// Reads a numeric field that may be left out.
pub fn optional_u64(m: Member, field: &'static str) -> (r: Result<Option<u64>, Error>)
    ensures
        if optional_number_ok(m@) {
            r == Ok::<Option<u64>, Error>(number_of(m@))
        } else {
            r matches Err(e) && e.is_parse_error(field@)
        },
{
    match m {
        Member::Absent => Ok(None),
        _ => match number(m) {
            Some(n) => Ok(Some(n)),
            None => Err(Error::ParseError(field)),
        },
    }
}

/// Reads a text field that has to be there.
pub fn required_string(m: Member, field: &'static str) -> (r: Result<String, Error>)
    ensures
        match text_of(m@) {
            Some(text) => r matches Ok(s) && s@ == text,
            None => r matches Err(e) && e.is_parse_error(field@),
        },
{
    match m {
        Member::Text(text) => Ok(text.to_owned()),
        _ => Err(Error::ParseError(field)),
    }
}

/// Reads a text field that may be left out.
pub fn optional_string(m: Member, field: &'static str) -> (r: Result<Option<String>, Error>)
    ensures
        if optional_text_ok(m@) {
            r matches Ok(s) && string_chars(s) == text_of(m@)
        } else {
            r matches Err(e) && e.is_parse_error(field@)
        },
{
    match m {
        Member::Absent => Ok(None),
        Member::Text(text) => Ok(Some(text.to_owned())),
        _ => Err(Error::ParseError(field)),
    }
}

/// A number reads alike whether the server sends it bare or in quotes:
/// a string that writes `n` in decimal is read as the number `n` is.
pub proof fn lemma_quoted_number_reads_alike(n: u64, text: Seq<char>)
    requires
        decimal_u64(text) == Some(n),
    ensures
        number_of(MemberView::Text(text)) == number_of(MemberView::Number(n)),
        same_number(MemberView::Text(text), MemberView::Number(n)),
{
}

} // verus!
