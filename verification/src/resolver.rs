//! From the path of a URL to a location under the document root, and from
//! what was found there to a response.

use crate::response::{Response, ResponseView};
use crate::status::Status;
use vstd::prelude::*;
use vstd::string::*;

verus! {

/// The document that is served for the root of the site.
pub open spec fn default_document() -> Seq<char> {
    "index.gmi"@
}

/// The media type of every document that is served.
pub open spec fn gemini_media_type() -> Seq<char> {
    "text/gemini"@
}

/// The reason given for a document that does not exist.
pub open spec fn not_found_reason() -> Seq<char> {
    "Not Found"@
}

/// The reason given for a document that exists and cannot be read as text.
pub open spec fn unreadable_reason() -> Seq<char> {
    "Internal Server Error"@
}

/// The name, relative to the document root, of the document that `path`
/// asks for: the default document for the empty path and for `/`, else the
/// path without its one leading slash.  A second leading slash stays.
pub open spec fn document_name(path: Seq<char>) -> Seq<char> {
    if path.len() == 0 || path == seq!['/'] {
        default_document()
    } else if path[0] == '/' {
        path.skip(1)
    } else {
        path
    }
}

/// `name` under the directory `root`: the two joined by one slash, which is
/// left out where `root` is empty or ends in one.
pub open spec fn join(root: Seq<char>, name: Seq<char>) -> Seq<char> {
    if root.len() == 0 {
        name
    } else if root.last() == '/' {
        root + name
    } else {
        root + seq!['/'] + name
    }
}

/// The location of the document that `path` asks for.
pub open spec fn location(root: Seq<char>, path: Seq<char>) -> Seq<char> {
    join(root, document_name(path))
}

/// Maps the path of a URL to a location under `root`.
///
/// The path is taken as the URL parser left it: it is neither decoded nor
/// made canonical, and no segment is rejected.  The name is always appended
/// to `root`, never put in its place, whatever it begins with.
pub fn resolve(root: &str, path: &str) -> (found: String)
    ensures
        found@ == location(root@, path@),
{
    let path_len = path.unicode_len();
    let name = if path_len == 0 {
        "index.gmi"
    } else if path.get_char(0) == '/' {
        if path_len == 1 {
            assert(path@ =~= seq!['/']);
            "index.gmi"
        } else {
            path.substring_char(1, path_len)
        }
    } else {
        path
    };
    assert(name@ == document_name(path@));
    let root_len = root.unicode_len();
    let mut found = root.to_owned();
    if root_len > 0 && root.get_char(root_len - 1) != '/' {
        found.append("/");
        proof {
            reveal_strlit("/");
            assert(found@ =~= root@ + seq!['/']);
        }
    }
    found.append(name);
    found
}

/// What reading a location gave.
#[derive(Debug, PartialEq, Eq)]
pub enum FileOutcome {
    /// No readable regular file is there.
    Missing,
    /// A file is there, and it could not be read as text.
    Unreadable,
    /// The whole file, as text.
    Contents(String),
}

/// The outcome of a read as contracts see it.
pub enum FileOutcomeView {
    Missing,
    Unreadable,
    Contents(Seq<char>),
}

impl View for FileOutcome {
    type V = FileOutcomeView;

    open spec fn view(&self) -> FileOutcomeView {
        match self {
            FileOutcome::Missing => FileOutcomeView::Missing,
            FileOutcome::Unreadable => FileOutcomeView::Unreadable,
            FileOutcome::Contents(text) => FileOutcomeView::Contents(text@),
        }
    }
}

/// The response to a request whose document was looked up with `outcome`.
pub open spec fn file_reply(outcome: FileOutcomeView) -> ResponseView {
    match outcome {
        FileOutcomeView::Missing => ResponseView::failure(Status::NotFound, not_found_reason()),
        FileOutcomeView::Unreadable => ResponseView::failure(
            Status::TemporaryFailure,
            unreadable_reason(),
        ),
        FileOutcomeView::Contents(text) => ResponseView::success(gemini_media_type(), text),
    }
}

/// Turns what was found at the location of a document into the response:
/// the contents as they are for a file that was read, else the failure.
pub fn file_response(outcome: FileOutcome) -> (response: Response)
    ensures
        response@ == file_reply(outcome@),
        response@.well_formed(),
{
    match outcome {
        FileOutcome::Missing => Response::failure(Status::NotFound, "Not Found"),
        FileOutcome::Unreadable => Response::failure(
            Status::TemporaryFailure,
            "Internal Server Error",
        ),
        FileOutcome::Contents(text) => Response::success("text/gemini", text),
    }
}

} // verus!
