//! What holds of every request: the laws of the pipeline.
//!
//! In each law `parsed` stands for what the URL parser makes of the request
//! line, and `documents` tells for every location what reading it gives.

use crate::config::ConfigView;
use crate::connection::{
    request_line_of, transition, window, ActionView, ConnectionView, EventView, CR, LF,
};
use crate::handler::{reply_to, route_plan};
use crate::policy::{authorization, gemini_scheme, Refusal};
use crate::request::{
    begins_with_byte_order_mark, byte_length, byte_order_mark_reason, parsed_url,
    too_long_reason, unparseable_reason, UrlView, MAX_REQUEST_BYTES,
};
use crate::resolver::{default_document, document_name, join, location, FileOutcomeView};
use crate::resolver::{gemini_media_type, not_found_reason, unreadable_reason};
use crate::response::{
    lemma_response_round_trip, read_reply, single_line, HeaderView, ResponseView,
};
use crate::status::Status;
use crate::text::{find_pair, find_pair_from, lemma_find_pair_from};
use vstd::prelude::*;
use vstd::utf8::{decode_utf8, decode_utf8_encode_utf8, encode_utf8, valid_utf8};

verus! {

/// Whether a request line passes the checks that are made before it is
/// parsed: it does not begin with a byte order mark and is not too long.
pub open spec fn acceptable(line: Seq<char>) -> bool {
    !begins_with_byte_order_mark(line) && byte_length(line) <= MAX_REQUEST_BYTES
}

/// A request line that begins with a byte order mark is a bad request,
/// whatever else it holds and whatever the parser would make of it.
pub proof fn lemma_byte_order_mark_is_rejected(
    line: Seq<char>,
    parsed: Option<UrlView>,
    config: ConfigView,
    documents: spec_fn(Seq<char>) -> FileOutcomeView,
)
    requires
        begins_with_byte_order_mark(line),
    ensures
        reply_to(line, parsed, config, documents).header.status == Status::BadRequest,
        reply_to(line, parsed, config, documents).body is None,
{
}

/// A request line of more than `MAX_REQUEST_BYTES` bytes is a bad request.
pub proof fn lemma_overlong_line_is_rejected(
    line: Seq<char>,
    parsed: Option<UrlView>,
    config: ConfigView,
    documents: spec_fn(Seq<char>) -> FileOutcomeView,
)
    requires
        byte_length(line) > MAX_REQUEST_BYTES,
    ensures
        reply_to(line, parsed, config, documents).header.status == Status::BadRequest,
        reply_to(line, parsed, config, documents).body is None,
{
}

/// A URL is refused exactly if its scheme is not `gemini`, it is opaque, it
/// names a port other than the configured one, or its host is none that is
/// served; a URL without a host is among these.  A refused URL is answered
/// with `Status::ProxyRequestRefused` and no body, and no document is read.
pub proof fn lemma_foreign_url_is_refused(
    line: Seq<char>,
    url: UrlView,
    config: ConfigView,
    documents: spec_fn(Seq<char>) -> FileOutcomeView,
)
    requires
        acceptable(line),
    ensures
        authorization(url, config) is Err <==> {
            ||| url.scheme != gemini_scheme()
            ||| url.cannot_be_a_base
            ||| (url.port matches Some(named) && named != config.port)
            ||| !(url.host matches Some(host) && config.allowed_hosts.contains(host))
        },
        authorization(url, config) is Err ==> {
            &&& route_plan(url, config) is Reply
            &&& reply_to(line, Some(url), config, documents).header.status
                == Status::ProxyRequestRefused
            &&& reply_to(line, Some(url), config, documents).body is None
        },
{
}

/// The empty path and the path `/` ask for the default document.  Every
/// other path that begins with a slash asks for the document named by the
/// rest of it: exactly one leading slash is removed.
pub proof fn lemma_document_of_path(root: Seq<char>, path: Seq<char>)
    ensures
        location(root, Seq::empty()) == join(root, default_document()),
        location(root, seq!['/']) == join(root, default_document()),
        path.len() > 1 && path[0] == '/' ==> location(root, path) == join(root, path.skip(1)),
        path.len() > 0 && path[0] != '/' ==> location(root, path) == join(root, path),
{
    if path.len() > 1 {
        assert(path != seq!['/']) by {
            assert(seq!['/'].len() == 1);
        }
    }
    if path.len() > 0 && path[0] != '/' {
        assert(path != seq!['/']) by {
            assert(seq!['/'][0] == '/');
        }
    }
}

/// A location is the root, followed by the name of the document: the name
/// is never put in the place of the root.
pub proof fn lemma_location_is_under_root(root: Seq<char>, path: Seq<char>)
    ensures
        root.is_prefix_of(location(root, path)),
        document_name(path).is_suffix_of(location(root, path)),
{
    let name = document_name(path);
    let found = location(root, path);
    if root.len() == 0 {
        assert(found =~= name);
    } else if root.last() == '/' {
        assert(found.subrange(0, root.len() as int) =~= root);
        assert(found.subrange(found.len() - name.len(), found.len() as int) =~= name);
    } else {
        assert(found.subrange(0, root.len() as int) =~= root);
        assert(found.subrange(found.len() - name.len(), found.len() as int) =~= name);
    }
}

/// The encoding of a text in two parts is the encoding of the first part
/// followed by that of the second.
pub proof fn lemma_encode_concat(first: Seq<char>, second: Seq<char>)
    ensures
        encode_utf8(first + second) == encode_utf8(first) + encode_utf8(second),
    decreases first.len(),
{
    if first.len() == 0 {
        assert(first + second =~= second);
        assert(encode_utf8(first) + encode_utf8(second) =~= encode_utf8(second));
    } else {
        lemma_encode_concat(first.drop_first(), second);
        assert((first + second).drop_first() =~= first.drop_first() + second);
        assert(encode_utf8(first + second) =~= encode_utf8(first) + encode_utf8(second));
    }
}

/// A valid request for a document that exists and is readable is answered
/// with `Status::Success` and the contents of the file as the body.  On the
/// wire the header line is followed by the bytes of the file as they are.
pub proof fn lemma_existing_document_is_served(
    line: Seq<char>,
    url: UrlView,
    config: ConfigView,
    documents: spec_fn(Seq<char>) -> FileOutcomeView,
    file: Seq<u8>,
)
    requires
        acceptable(line),
        authorization(url, config) is Ok,
        valid_utf8(file),
        documents(location(config.root, url.path)) == FileOutcomeView::Contents(
            decode_utf8(file),
        ),
    ensures
        ({
            let reply = reply_to(line, Some(url), config, documents);
            let header = HeaderView { status: Status::Success, meta: gemini_media_type() };
            &&& reply == ResponseView::success(gemini_media_type(), decode_utf8(file))
            &&& encode_utf8(reply.text()) == encode_utf8(header.line()) + file
        }),
{
    let header = HeaderView { status: Status::Success, meta: gemini_media_type() };
    lemma_encode_concat(header.line(), decode_utf8(file));
    decode_utf8_encode_utf8(file);
}

/// A valid request for a document that does not exist is answered with
/// `Status::NotFound` and no body.
pub proof fn lemma_missing_document_is_not_found(
    line: Seq<char>,
    url: UrlView,
    config: ConfigView,
    documents: spec_fn(Seq<char>) -> FileOutcomeView,
)
    requires
        acceptable(line),
        authorization(url, config) is Ok,
        documents(location(config.root, url.path)) == FileOutcomeView::Missing,
    ensures
        reply_to(line, Some(url), config, documents) == ResponseView::failure(
            Status::NotFound,
            not_found_reason(),
        ),
{
}

/// What a client is sent for what it sent, if nothing fails on the way:
/// nothing where there is no request line, else the rendered reply.
pub open spec fn reply_bytes(
    received: Seq<u8>,
    config: ConfigView,
    documents: spec_fn(Seq<char>) -> FileOutcomeView,
) -> Option<Seq<u8>> {
    match request_line_of(received) {
        None => None,
        Some(line) => Some(
            encode_utf8(reply_to(line, parsed_url(line), config, documents).text()),
        ),
    }
}

/// A connection sends what `reply_bytes` says: it is closed at once where
/// that is nothing; else the reply is sent at once, or after the one
/// document that is asked for was looked up in `documents`.
pub proof fn lemma_connection_sends_reply(
    received: Seq<u8>,
    config: ConfigView,
    documents: spec_fn(Seq<char>) -> FileOutcomeView,
)
    ensures
        ({
            let (state, action) = transition(
                ConnectionView::ReadingRequest,
                EventView::Received(received),
                config,
            );
            match reply_bytes(received, config, documents) {
                None => state is Closed && action is Close,
                Some(bytes) => match action {
                    ActionView::Send { bytes: sent, .. } => state is Writing && sent == bytes,
                    ActionView::Fetch { location } => transition(
                        state,
                        EventView::Found(documents(location)),
                        config,
                    ).1 matches ActionView::Send { bytes: sent, .. } && sent == bytes,
                    ActionView::Close => false,
                },
            }
        }),
{
}

/// Identical requests are answered alike: against the same configuration
/// and the same documents, what is received determines what is sent.
pub proof fn lemma_same_request_same_reply(
    first: Seq<u8>,
    second: Seq<u8>,
    config: ConfigView,
    documents: spec_fn(Seq<char>) -> FileOutcomeView,
)
    requires
        first == second,
    ensures
        reply_bytes(first, config, documents) == reply_bytes(second, config, documents),
        transition(ConnectionView::ReadingRequest, EventView::Received(first), config)
            == transition(ConnectionView::ReadingRequest, EventView::Received(second), config),
{
}

/// A request line that a connection extracts is never too long: the check
/// on the length can fail only for a line that is handed to
/// `process_request` directly.
pub proof fn lemma_request_line_fits(received: Seq<u8>)
    ensures
        request_line_of(received) matches Some(line) ==> byte_length(line)
            <= MAX_REQUEST_BYTES,
{
    let seen = window(received);
    lemma_find_pair_from(seen, 0, CR, LF);
    if let Some(end) = find_pair(seen, CR, LF) {
        if valid_utf8(seen.take(end)) {
            decode_utf8_encode_utf8(seen.take(end));
        }
    }
}

/// None of the fixed reasons and media types holds a line break.
pub proof fn lemma_fixed_metadata_is_single_line()
    ensures
        single_line(byte_order_mark_reason()),
        single_line(too_long_reason()),
        single_line(unparseable_reason()),
        single_line(Refusal::NotGemini.reason()),
        single_line(Refusal::ForeignHost.reason()),
        single_line(not_found_reason()),
        single_line(unreadable_reason()),
        single_line(gemini_media_type()),
{
    reveal_with_fuel(find_pair_from, 64);
    reveal_strlit("The request MUST NOT begin with a U+FEFF byte order mark.");
    reveal_strlit("URL is too long. Maximum length is 1024 bytes.");
    reveal_strlit("Error parsing the url");
    reveal_strlit("Not a gemini request.");
    reveal_strlit("This host is not served here.");
    reveal_strlit("Not Found");
    reveal_strlit("Internal Server Error");
    reveal_strlit("text/gemini");
}

/// Every reply can be read back: whatever the request and whatever the
/// documents, a reader of the rendered reply recovers its status, its
/// metadata and, for a success, the body.
pub proof fn lemma_every_reply_reads_back(
    line: Seq<char>,
    parsed: Option<UrlView>,
    config: ConfigView,
    documents: spec_fn(Seq<char>) -> FileOutcomeView,
)
    ensures
        ({
            let reply = reply_to(line, parsed, config, documents);
            &&& reply.well_formed()
            &&& read_reply(reply.text()) matches Some(reading)
            &&& Status::of_code(reading.code as int) == Some(reply.header.status)
            &&& reading.meta == reply.header.meta
            &&& reading.body == match reply.body {
                Some(body) => body,
                None => Seq::empty(),
            }
        }),
{
    lemma_fixed_metadata_is_single_line();
    lemma_response_round_trip(reply_to(line, parsed, config, documents));
}

} // verus!
