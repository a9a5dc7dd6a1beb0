//! Responses and their rendering to wire text.

use crate::status::Status;
use crate::text::{
    decimal, decimal_string, decimal_value, find_char, find_pair, lemma_decimal_holds_digits,
    lemma_decimal_value_of_decimal, lemma_find_char_from, lemma_find_pair_from,
    lemma_find_pair_is, pair_at,
};
use vstd::prelude::*;
use vstd::string::*;

verus! {

/// Status and metadata of a response: what the first line of a reply says.
///
/// For `Status::Success` the metadata is the media type of the body; for
/// every other status it is a reason that a person can read.
#[derive(Debug, PartialEq, Eq)]
pub struct ResponseHeader {
    pub status: Status,
    pub meta: String,
}

/// A header as contracts see it.
pub struct HeaderView {
    pub status: Status,
    pub meta: Seq<char>,
}

impl View for ResponseHeader {
    type V = HeaderView;

    open spec fn view(&self) -> HeaderView {
        HeaderView { status: self.status, meta: self.meta@ }
    }
}

/// A complete reply: the header and, for a success, the body.
#[derive(Debug, PartialEq, Eq)]
pub struct Response {
    pub header: ResponseHeader,
    pub body: Option<String>,
}

/// A response as contracts see it.
pub struct ResponseView {
    pub header: HeaderView,
    pub body: Option<Seq<char>>,
}

impl View for Response {
    type V = ResponseView;

    open spec fn view(&self) -> ResponseView {
        ResponseView {
            header: self.header@,
            body: match self.body {
                Some(body) => Some(body@),
                None => None,
            },
        }
    }
}

impl HeaderView {
    /// The header line: the status code in decimal, one space, the
    /// metadata, CRLF.
    pub open spec fn line(self) -> Seq<char> {
        decimal(self.status.code() as nat) + seq![' '] + self.meta + seq!['\r', '\n']
    }
}

impl ResponseView {
    /// A response holds a body exactly when it reports success.
    pub open spec fn well_formed(self) -> bool {
        self.body is Some <==> self.header.status == Status::Success
    }

    /// The text that goes on the wire: the header line, followed for a
    /// success by the body as it is, with nothing added before or after.
    pub open spec fn text(self) -> Seq<char> {
        match self.body {
            Some(body) if self.header.status == Status::Success => self.header.line() + body,
            _ => self.header.line(),
        }
    }

    /// The response that reports a failure: `status` and the reason for
    /// it, and no body.
    pub open spec fn failure(status: Status, reason: Seq<char>) -> ResponseView {
        ResponseView { header: HeaderView { status, meta: reason }, body: None }
    }

    /// The response that delivers `body`, whose media type is `media_type`.
    pub open spec fn success(media_type: Seq<char>, body: Seq<char>) -> ResponseView {
        ResponseView {
            header: HeaderView { status: Status::Success, meta: media_type },
            body: Some(body),
        }
    }
}

impl ResponseHeader {
    pub fn new(status: Status, meta: &str) -> (header: ResponseHeader)
        ensures
            header@ == (HeaderView { status, meta: meta@ }),
    {
        ResponseHeader { status, meta: meta.to_owned() }
    }

    /// Renders the header line.
    pub fn render(&self) -> (line: String)
        ensures
            line@ == self@.line(),
    {
        let mut line = decimal_string(self.status.code());
        line.append(" ");
        line.append(self.meta.as_str());
        line.append("\r\n");
        proof {
            reveal_strlit(" ");
            reveal_strlit("\r\n");
            assert(line@ =~= self@.line());
        }
        line
    }
}

impl Response {
    /// Reports a failure to the client.
    pub fn failure(status: Status, reason: &str) -> (response: Response)
        requires
            status != Status::Success,
        ensures
            response@ == ResponseView::failure(status, reason@),
            response@.well_formed(),
    {
        Response { header: ResponseHeader::new(status, reason), body: None }
    }

    /// Delivers `body` to the client.
    pub fn success(media_type: &str, body: String) -> (response: Response)
        ensures
            response@ == ResponseView::success(media_type@, body@),
            response@.well_formed(),
    {
        Response { header: ResponseHeader::new(Status::Success, media_type), body: Some(body) }
    }

    /// Renders the whole reply.
    pub fn render(&self) -> (text: String)
        ensures
            text@ == self@.text(),
    {
        match self.header.status {
            Status::Success => {
                let line = self.header.render();
                match &self.body {
                    Some(body) => line.concat(body.as_str()),
                    None => line,
                }
            },
            _ => self.header.render(),
        }
    }
}

/// What a reader makes of a reply.
pub struct Reading {
    /// The number written before the first space.
    pub code: nat,
    /// The text between that space and the first CRLF after it.
    pub meta: Seq<char>,
    /// Everything after that CRLF.
    pub body: Seq<char>,
}

/// Splits wire text as a reader does: at the first space, then at the first
/// CRLF after it.  `None` if either is missing or the text before the space
/// is no decimal numeral.
pub open spec fn read_reply(text: Seq<char>) -> Option<Reading> {
    match find_char(text, ' ') {
        None => None,
        Some(space) => match decimal_value(text.take(space)) {
            None => None,
            Some(code) => {
                let tail = text.skip(space + 1);
                match find_pair(tail, '\r', '\n') {
                    None => None,
                    Some(end) => Some(
                        Reading { code, meta: tail.take(end), body: tail.skip(end + 2) },
                    ),
                }
            },
        },
    }
}

/// Whether `meta` fits on the header line, that is, holds no CRLF.
pub open spec fn single_line(meta: Seq<char>) -> bool {
    find_pair(meta, '\r', '\n') is None
}

/// Round trip of a header with whatever follows it: reading the header line
/// of `status` and `meta`, followed by `body`, gives back the code of
/// `status`, `meta` and `body`, provided `meta` holds no CRLF.
pub proof fn lemma_read_header_line(status: Status, meta: Seq<char>, body: Seq<char>)
    requires
        single_line(meta),
    ensures
        read_reply((HeaderView { status, meta }).line() + body) == Some(
            Reading { code: status.code() as nat, meta, body },
        ),
{
    let code = status.code() as nat;
    let numeral = decimal(code);
    let text = (HeaderView { status, meta }).line() + body;
    let space = numeral.len() as int;
    lemma_decimal_value_of_decimal(code);
    assert forall|j: int| 0 <= j < space implies text[j] != ' ' by {
        lemma_decimal_holds_digits(code, j);
        assert(text[j] == numeral[j]);
    }
    assert(text[space] == ' ');
    lemma_find_char_from(text, 0, ' ');
    assert(find_char(text, ' ') == Some(space));
    assert(text.take(space) =~= numeral);
    let tail = text.skip(space + 1);
    assert(tail =~= meta + seq!['\r', '\n'] + body);
    let end = meta.len() as int;
    lemma_find_pair_from(meta, 0, '\r', '\n');
    assert forall|j: int| 0 <= j < end implies !pair_at(tail, j, '\r', '\n') by {
        if j + 1 < end {
            assert(tail[j] == meta[j] && tail[j + 1] == meta[j + 1]);
            assert(!pair_at(meta, j, '\r', '\n'));
        } else {
            assert(tail[j + 1] == '\r');
        }
    }
    assert(pair_at(tail, end, '\r', '\n'));
    lemma_find_pair_is(tail, end, '\r', '\n');
    assert(tail.take(end) =~= meta);
    assert(tail.skip(end + 2) =~= body);
}

/// Round trip of a header: rendering it and splitting the line at the first
/// space and then at CRLF gives back the status and the metadata, provided
/// the metadata holds no CRLF.
pub proof fn lemma_header_round_trip(header: HeaderView)
    requires
        single_line(header.meta),
    ensures
        read_reply(header.line()) matches Some(reading) && Status::of_code(reading.code as int)
            == Some(header.status) && reading.meta == header.meta && reading.body.len() == 0,
{
    lemma_read_header_line(header.status, header.meta, Seq::empty());
    assert(header.line() + Seq::<char>::empty() =~= header.line());
    header.status.lemma_code_identifies_status();
}

/// Round trip of a whole reply: a reader gets back the status, the metadata
/// and, for a success, the body, provided the metadata holds no CRLF.
pub proof fn lemma_response_round_trip(response: ResponseView)
    requires
        response.well_formed(),
        single_line(response.header.meta),
    ensures
        read_reply(response.text()) matches Some(reading) && Status::of_code(reading.code as int)
            == Some(response.header.status) && reading.meta == response.header.meta
            && reading.body == match response.body {
            Some(body) => body,
            None => Seq::empty(),
        },
{
    let body = match response.body {
        Some(body) => body,
        None => Seq::empty(),
    };
    lemma_read_header_line(response.header.status, response.header.meta, body);
    assert(response.header.line() + Seq::<char>::empty() =~= response.header.line());
    response.header.status.lemma_code_identifies_status();
}

} // verus!
