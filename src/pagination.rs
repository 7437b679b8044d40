//! Pagination of a question listing, taken from the query string.

use crate::error::Error;
use crate::query::QueryParams;
use std::num::ParseIntError;
use vstd::prelude::*;

verus! {

/// Whether `c` is an ASCII decimal digit.
pub open spec fn is_digit(c: char) -> bool {
    '0' <= c && c <= '9'
}

/// The value of a string of decimal digits.
pub open spec fn digits_value(s: Seq<char>) -> nat
    decreases s.len(),
{
    if s.len() == 0 {
        0
    } else {
        digits_value(s.drop_last()) * 10 + (s.last() as nat - '0' as nat) as nat
    }
}

/// The digits of a number's text: the text without a leading `+`.
pub open spec fn unsigned_digits(s: Seq<char>) -> Seq<char> {
    if s.len() > 0 && s[0] == '+' {
        s.drop_first()
    } else {
        s
    }
}

/// Whether `s` is the text of a `usize`: an optional `+`, then one or more
/// decimal digits, whose value fits in `usize`.
pub open spec fn is_usize_text(s: Seq<char>) -> bool {
    let d = unsigned_digits(s);
    &&& d.len() > 0
    &&& forall|i: int| 0 <= i < d.len() ==> is_digit(#[trigger] d[i])
    &&& digits_value(d) <= usize::MAX
}

/// The number that the text of a `usize` denotes.
pub open spec fn usize_value(s: Seq<char>) -> nat {
    digits_value(unsigned_digits(s))
}

/// Relies on `str::parse::<usize>` (`usize::from_str`, that is
/// `from_str_radix` with radix 10): it accepts an optional `+` followed by
/// decimal digits whose value fits in `usize`, and fails on anything else.
#[verifier::external_body]
fn parse_usize(s: &str) -> (r: Result<usize, ParseIntError>)
    ensures
        r is Ok <==> is_usize_text(s@),
        r matches Ok(n) ==> n == usize_value(s@),
{
    s.parse::<usize>()
}

/// The window of a listing that a request asks for.
#[derive(Debug, Clone, Copy, PartialEq, Eq)]
pub struct Pagination {
    /// The index of the first item that has to be returned.
    pub start: usize,
    /// The index one past the last item that has to be returned.
    pub end: usize,
}

/// What extracting the pagination from query parameters `m` gives, as far as
/// the parameters decide it: `None` for a failure to parse, which carries the
/// parser's own error.
pub open spec fn pagination_of(m: Map<Seq<char>, Seq<char>>) -> Result<Option<Pagination>, Error> {
    if !(m.contains_key("start"@) && m.contains_key("end"@)) {
        Err(Error::MissingParameters)
    } else if !is_usize_text(m["start"@]) || !is_usize_text(m["end"@]) {
        Ok(None)
    } else {
        Ok(
            Some(
                Pagination {
                    start: usize_value(m["start"@]) as usize,
                    end: usize_value(m["end"@]) as usize,
                },
            ),
        )
    }
}

/// Extracts the pagination from the query parameters of a question listing,
/// e.g. `/questions?start=1&end=10`. Both `start` and `end` must be present,
/// else the parameters are missing; each must be the text of a `usize`, else
/// the failure to parse it is returned.
pub fn extract_pagination(params: QueryParams) -> (r: Result<Pagination, Error>)
    ensures
        match pagination_of(params@) {
            Err(e) => r == Err::<Pagination, Error>(e),
            Ok(None) => r matches Err(Error::ParseError(_)),
            Ok(Some(p)) => r == Ok::<Pagination, Error>(p),
        },
        !(params@.contains_key("start"@) && params@.contains_key("end"@)) ==> r matches Err(
            Error::MissingParameters,
        ),
        params@.contains_key("start"@) && params@.contains_key("end"@) && !(is_usize_text(
            params@["start"@],
        ) && is_usize_text(params@["end"@])) ==> r matches Err(Error::ParseError(_)),
{
    let start_key = "start".to_owned();
    let end_key = "end".to_owned();
    match (params.get(&start_key), params.get(&end_key)) {
        (Some(start), Some(end)) => {
            let start_num = match parse_usize(start.as_str()) {
                Ok(n) => n,
                Err(e) => return Err(Error::ParseError(e)),
            };
            let end_num = match parse_usize(end.as_str()) {
                Ok(n) => n,
                Err(e) => return Err(Error::ParseError(e)),
            };
            Ok(Pagination { start: start_num, end: end_num })
        },
        _ => Err(Error::MissingParameters),
    }
}

} // verus!
