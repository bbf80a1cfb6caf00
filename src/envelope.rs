//! The response envelopes of the remote service, and the mapping of error
//! responses to [`Error`]s.

use vstd::prelude::*;
use vstd::string::StringExecFns;
use crate::error::{join2, Error, ErrorV};
use crate::json::{
    array_items_of, entries_view, find, lookup, object_entries_of, opt_string_of, parse_array,
    parse_object, parse_opt_string, parse_string, string_of,
};

verus! {

/// A single-object response: the text of its `data` member.
#[derive(Debug)]
pub struct DataWrapper {
    pub data: String,
}

/// The cursor of the next page of a list.
#[derive(Debug)]
pub struct NextPage {
    pub offset: String,
}

/// One page of a list response: the text of each item, and the cursor of the
/// next page, if there is one.
#[derive(Debug)]
pub struct ListWrapper {
    pub data: Vec<String>,
    pub next_page: Option<NextPage>,
}

/// The model of a page: its items and its cursor.
pub struct PageV {
    pub data: Seq<Seq<char>>,
    pub next: Option<Seq<char>>,
}

impl View for ListWrapper {
    type V = PageV;

    open spec fn view(&self) -> PageV {
        PageV {
            data: self.data@.map_values(|s: String| s@),
            next: match self.next_page {
                Some(p) => Some(p.offset@),
                None => None,
            },
        }
    }
}

/// The text of the `data` member of a single-object response.
pub open spec fn data_of(s: Seq<char>) -> Option<Seq<char>> {
    match object_entries_of(s) {
        None => None,
        Some(e) => lookup(e, "data"@),
    }
}

/// What the `next_page` member `t` says: `null` is the end of the list, an
/// object holds the string `offset` of the next page.
pub open spec fn next_of(t: Seq<char>) -> Option<Option<Seq<char>>> {
    if opt_string_of(t) == Some(None::<Seq<char>>) {
        Some(None)
    } else {
        match object_entries_of(t) {
            None => None,
            Some(e) => match lookup(e, "offset"@) {
                None => None,
                Some(o) => match string_of(o) {
                    None => None,
                    Some(off) => Some(Some(off)),
                },
            },
        }
    }
}

/// The page that a list response's text describes: `data` must be an array,
/// and an absent `next_page` ends the list as `null` does.
pub open spec fn page_of(s: Seq<char>) -> Option<PageV> {
    match object_entries_of(s) {
        None => None,
        Some(e) => match lookup(e, "data"@) {
            None => None,
            Some(d) => match array_items_of(d) {
                None => None,
                Some(items) => match lookup(e, "next_page"@) {
                    None => Some(PageV { data: items, next: None }),
                    Some(t) => match next_of(t) {
                        None => None,
                        Some(n) => Some(PageV { data: items, next: n }),
                    },
                },
            },
        },
    }
}

impl DataWrapper {
    /// Decodes a single-object response.
    pub fn from_json_text(text: &str) -> (r: Result<DataWrapper, Error>)
        ensures
            match r {
                Ok(w) => data_of(text@) == Some(w.data@),
                Err(e) => data_of(text@) is None && e@ == ErrorV::Parse("missing field `data`"@),
            },
    {
        match parse_object(text) {
            Some(e) => match find(&e, "data") {
                Some(d) => Ok(DataWrapper { data: d.clone() }),
                None => Err(Error::Parse(String::from_str("missing field `data`"))),
            },
            None => Err(Error::Parse(String::from_str("missing field `data`"))),
        }
    }
}

fn decode_next(t: &str) -> (r: Option<Option<NextPage>>)
    ensures
        match r {
            None => next_of(t@) is None,
            Some(None) => next_of(t@) == Some(None::<Seq<char>>),
            Some(Some(p)) => next_of(t@) == Some(Some(p.offset@)),
        },
{
    match parse_opt_string(t) {
        Some(None) => return Some(None),
        _ => {},
    }
    let e = match parse_object(t) {
        Some(e) => e,
        None => return None,
    };
    match find(&e, "offset") {
        Some(o) => match parse_string(o.as_str()) {
            Some(offset) => Some(Some(NextPage { offset })),
            None => None,
        },
        None => None,
    }
}

impl ListWrapper {
    /// Decodes one page of a list response.
    pub fn from_json_text(text: &str) -> (r: Result<ListWrapper, Error>)
        ensures
            match r {
                Ok(w) => page_of(text@) == Some(w@),
                Err(e) => page_of(text@) is None && e@ == ErrorV::Parse("invalid list page"@),
            },
    {
        let e = match parse_object(text) {
            Some(e) => e,
            None => return Err(Error::Parse(String::from_str("invalid list page"))),
        };
        let d = match find(&e, "data") {
            Some(d) => d,
            None => return Err(Error::Parse(String::from_str("invalid list page"))),
        };
        let data = match parse_array(d.as_str()) {
            Some(items) => items,
            None => return Err(Error::Parse(String::from_str("invalid list page"))),
        };
        match find(&e, "next_page") {
            None => Ok(ListWrapper { data, next_page: None }),
            Some(t) => match decode_next(t.as_str()) {
                Some(next_page) => Ok(ListWrapper { data, next_page }),
                None => Err(Error::Parse(String::from_str("invalid list page"))),
            },
        }
    }
}

/// The `message` of one entry of an error body's `errors` array.
pub open spec fn detail_message(item: Seq<char>) -> Option<Seq<char>> {
    match object_entries_of(item) {
        None => None,
        Some(e) => match lookup(e, "message"@) {
            None => None,
            Some(m) => string_of(m),
        },
    }
}

/// The message of an error body: the first entry's `message`, where the body
/// is an object whose `errors` is an array of entries that each hold a string
/// `message`.
pub open spec fn error_message_of(body: Seq<char>) -> Option<Seq<char>> {
    match object_entries_of(body) {
        None => None,
        Some(e) => match lookup(e, "errors"@) {
            None => None,
            Some(t) => match array_items_of(t) {
                None => None,
                Some(items) => if items.len() > 0 && forall|i: int|
                    0 <= i < items.len() ==> (#[trigger] detail_message(items[i])) is Some {
                    detail_message(items[0])
                } else {
                    None
                },
            },
        },
    }
}

/// Reads the message out of an error response's body, as `error_message_of` says.
pub fn extract_error_message(body: &str) -> (r: Option<String>)
    ensures
        match r {
            Some(m) => error_message_of(body@) == Some(m@),
            None => error_message_of(body@) is None,
        },
{
    let e = match parse_object(body) {
        Some(e) => e,
        None => return None,
    };
    let t = match find(&e, "errors") {
        Some(t) => t,
        None => return None,
    };
    let items = match parse_array(t.as_str()) {
        Some(items) => items,
        None => return None,
    };
    let ghost iv = items@.map_values(|s: String| s@);
    if items.len() == 0 {
        return None;
    }
    let mut first: Option<String> = None;
    let mut i: usize = 0;
    while i < items.len()
        invariant
            i <= items.len(),
            items.len() > 0,
            iv == items@.map_values(|s: String| s@),
            object_entries_of(body@) == Some(entries_view(e@)),
            lookup(entries_view(e@), "errors"@) == Some(t@),
            array_items_of(t@) == Some(iv),
            forall|j: int| 0 <= j < i ==> (#[trigger] detail_message(iv[j])) is Some,
            i > 0 ==> first is Some && detail_message(iv[0]) == Some(first.unwrap()@),
        decreases items.len() - i,
    {
        let m = match parse_object(items[i].as_str()) {
            Some(d) => match find(&d, "message") {
                Some(m) => parse_string(m.as_str()),
                None => None,
            },
            None => None,
        };
        match m {
            Some(m) => {
                if i == 0 {
                    first = Some(m);
                }
            },
            None => {
                assert(detail_message(iv[i as int]) is None);
                assert(!(forall|j: int| 0 <= j < iv.len() ==> (#[trigger] detail_message(iv[j])) is Some));
                assert(error_message_of(body@) is None);
                return None;
            },
        }
        i = i + 1;
    }
    first
}

/// Whether an HTTP status is a success.
pub open spec fn is_success(status: u16) -> bool {
    200 <= status <= 299
}

/// The decimal digit `d` as text.
pub open spec fn digit_text(d: nat) -> Seq<char> {
    if d == 0 { "0"@ } else if d == 1 { "1"@ } else if d == 2 { "2"@ } else if d == 3 { "3"@ }
    else if d == 4 { "4"@ } else if d == 5 { "5"@ } else if d == 6 { "6"@ } else if d == 7 { "7"@ }
    else if d == 8 { "8"@ } else { "9"@ }
}

/// The decimal text of `n`, without leading zeros.
pub open spec fn decimal_of(n: nat) -> Seq<char>
    decreases n,
{
    if n < 10 {
        digit_text(n)
    } else {
        decimal_of(n / 10) + digit_text(n % 10)
    }
}

fn digit(d: u16) -> (r: &'static str)
    requires
        d < 10,
    ensures
        r@ == digit_text(d as nat),
{
    match d {
        0 => "0",
        1 => "1",
        2 => "2",
        3 => "3",
        4 => "4",
        5 => "5",
        6 => "6",
        7 => "7",
        8 => "8",
        _ => "9",
    }
}

/// The decimal text of `n`.
pub fn decimal(n: u16) -> (r: String)
    ensures
        r@ == decimal_of(n as nat),
    decreases n,
{
    if n < 10 {
        String::from_str(digit(n))
    } else {
        let mut s = decimal(n / 10);
        s.append(digit(n % 10));
        s
    }
}

/// The reason phrase that the HTTP standard gives a status code.
pub uninterp spec fn canonical_reason_of(code: u16) -> Option<Seq<char>>;

/// Relies on reqwest::StatusCode::from_u16 and StatusCode::canonical_reason:
/// the phrase registered for the code, if any.
#[verifier::external_body]
fn canonical_reason(code: u16) -> (r: Option<&'static str>)
    ensures
        match r {
            Some(s) => canonical_reason_of(code) == Some(s@),
            None => canonical_reason_of(code) is None,
        },
{
    reqwest::StatusCode::from_u16(code).ok().and_then(|s| s.canonical_reason())
}

/// The fallback message of an error status without a readable body.
pub open spec fn status_text(status: u16) -> Seq<char> {
    "HTTP "@ + decimal_of(status as nat) + " "@ + match canonical_reason_of(status) {
        Some(r) => r,
        None => Seq::empty(),
    }
}

/// The error that an unsuccessful response stands for.
pub open spec fn response_error(status: u16, body: Seq<char>) -> ErrorV {
    if status == 404 {
        ErrorV::NotFound(
            match error_message_of(body) {
                Some(m) => m,
                None => "resource not found"@,
            },
        )
    } else {
        ErrorV::Api(
            match error_message_of(body) {
                Some(m) => m,
                None => status_text(status),
            },
        )
    }
}

/// Maps an unsuccessful response to an error: not-found for 404, an API error
/// otherwise, with the body's message where it has one.
pub fn error_from_response(status: u16, body: &str) -> (r: Error)
    ensures
        r@ == response_error(status, body@),
{
    let extracted = extract_error_message(body);
    if status == 404 {
        match extracted {
            Some(m) => Error::NotFound(m),
            None => Error::NotFound(String::from_str("resource not found")),
        }
    } else {
        match extracted {
            Some(m) => Error::Api { message: m },
            None => {
                let mut s = join2("HTTP ", decimal(status).as_str());
                s.append(" ");
                match canonical_reason(status) {
                    Some(reason) => s.append(reason),
                    None => {},
                }
                Error::Api { message: s }
            },
        }
    }
}

/// Accepts a successful status, and maps any other to its error.
pub fn check_status(status: u16, body: &str) -> (r: Result<(), Error>)
    ensures
        match r {
            Ok(()) => is_success(status),
            Err(e) => !is_success(status) && e@ == response_error(status, body@),
        },
{
    if 200 <= status && status <= 299 {
        Ok(())
    } else {
        Err(error_from_response(status, body))
    }
}

} // verus!
