//! The content responder: turning what the filesystem reported about a
//! resolved path into an HTTP status code and response body.
//!
//! The caller probes the filesystem and hands the outcomes over as plain
//! values; the reads themselves happen outside. The text read of a file is
//! attempted first, and only when it fails specifically because the bytes
//! are not valid UTF-8 is the raw byte read attempted — the caller mirrors
//! that order by only supplying a raw outcome in that case.

use crate::listing::listing_html;
use crate::listing::render_dir_listing;
use crate::listing::EntryName;
use vstd::prelude::*;
use vstd::string::StringExecFns;

verus! {

/// Outcome of re-reading a file as raw bytes, after its content proved not
/// to be valid text.
pub enum RawOutcome {
    /// The raw read succeeded with these bytes.
    Bytes(Vec<u8>),
    /// The raw read itself failed; the error's textual description.
    RawFailed(String),
}

/// Outcome of reading a regular file as text.
pub enum FileOutcome {
    /// The file's content, read as valid UTF-8 text.
    Text(String),
    /// The text read failed because the content is not valid UTF-8; the
    /// file was re-read as raw bytes with the given outcome.
    NotUtf8(RawOutcome),
    /// The text read failed for any other reason (permissions, I/O); the
    /// error's textual description.
    ReadFailed(String),
}

/// Outcome of enumerating a directory's immediate children.
pub enum DirOutcome {
    /// The children, in the order the filesystem yielded them.
    Listed(Vec<EntryName>),
    /// Enumeration failed; the error's textual description.
    EnumFailed(String),
}

/// Everything the filesystem reported about one resolved path.
pub enum FsObservation {
    /// The path does not exist.
    Missing,
    /// The path is a directory, with its enumeration outcome.
    Directory(DirOutcome),
    /// The path is a regular file, with its read outcome.
    File(FileOutcome),
}

/// A response body, tagged by kind; collapsed to a wire body only at the
/// server boundary.
pub enum ResponseBody {
    /// Plain text: a file's content.
    Text(String),
    /// Raw octets: the binary fallback for undecodable file content.
    Bytes(Vec<u8>),
    /// An HTML document: a directory listing.
    Html(String),
    /// A plain-text error message.
    Error(String),
}

/// An HTTP status code paired with the response body.
pub struct HttpResponse {
    pub status: u16,
    pub body: ResponseBody,
}

/// The body of a `404` response: it names the path that was requested.
pub open spec fn not_found_message(req_path: Seq<char>) -> Seq<char> {
    "File "@ + req_path + " not found!"@
}

/// Produces the response for one request, given the request path and what
/// the filesystem reported about the path it resolved to.
///
/// A missing path yields `404` naming the path; a directory yields its
/// `200` HTML listing, or `500` with the enumeration error; a file yields
/// its `200` text content, or — when the content is not valid UTF-8 — its
/// `200` raw bytes, or `500` with the read error. No other statuses occur.
pub fn file_handler(req_path: &str, obs: FsObservation) -> (r: HttpResponse)
    ensures
        obs is Missing ==> r.status == 404,
        obs is Missing ==> (r.body matches ResponseBody::Error(m) && m@ == not_found_message(
            req_path@,
        )),
        obs is Directory ==> r.status == 200 || r.status == 500,
        obs matches FsObservation::Directory(DirOutcome::Listed(es)) ==> (r.status == 200 && (
        r.body matches ResponseBody::Html(h) && h@ == listing_html(req_path@, es@))),
        obs matches FsObservation::Directory(DirOutcome::EnumFailed(e)) ==> (r.status == 500 && (
        r.body matches ResponseBody::Error(m) && m == e)),
        obs matches FsObservation::File(FileOutcome::Text(c)) ==> (r.status == 200 && (
        r.body matches ResponseBody::Text(t) && t == c)),
        obs matches FsObservation::File(FileOutcome::NotUtf8(RawOutcome::Bytes(b))) ==> (r.status
            == 200 && (r.body matches ResponseBody::Bytes(bs) && bs == b)),
        obs matches FsObservation::File(FileOutcome::NotUtf8(RawOutcome::RawFailed(e))) ==> (
        r.status == 500 && (r.body matches ResponseBody::Error(m) && m == e)),
        obs matches FsObservation::File(FileOutcome::ReadFailed(e)) ==> (r.status == 500 && (
        r.body matches ResponseBody::Error(m) && m == e)),
        r.status == 200 || r.status == 404 || r.status == 500,
{
    match obs {
        FsObservation::Missing => {
            let mut msg = String::new();
            msg.append("File ");
            msg.append(req_path);
            msg.append(" not found!");
            proof {
                assert(msg@ =~= not_found_message(req_path@));
            }
            HttpResponse { status: 404, body: ResponseBody::Error(msg) }
        },
        FsObservation::Directory(DirOutcome::Listed(es)) => {
            let html = render_dir_listing(req_path, &es);
            HttpResponse { status: 200, body: ResponseBody::Html(html) }
        },
        FsObservation::Directory(DirOutcome::EnumFailed(e)) => HttpResponse {
            status: 500,
            body: ResponseBody::Error(e),
        },
        FsObservation::File(FileOutcome::Text(c)) => HttpResponse {
            status: 200,
            body: ResponseBody::Text(c),
        },
        FsObservation::File(FileOutcome::NotUtf8(RawOutcome::Bytes(b))) => HttpResponse {
            status: 200,
            body: ResponseBody::Bytes(b),
        },
        FsObservation::File(FileOutcome::NotUtf8(RawOutcome::RawFailed(e))) => HttpResponse {
            status: 500,
            body: ResponseBody::Error(e),
        },
        FsObservation::File(FileOutcome::ReadFailed(e)) => HttpResponse {
            status: 500,
            body: ResponseBody::Error(e),
        },
    }
}

/// The `404` body names the missing path: the request path appears verbatim
/// in the message, which is strictly longer than the path itself.
pub proof fn lemma_not_found_names_path(req_path: Seq<char>)
    ensures
        "File "@.len() == 5,
        not_found_message(req_path).subrange(5, 5 + req_path.len() as int) == req_path,
        not_found_message(req_path).len() > req_path.len(),
{
    reveal_strlit("File ");
    reveal_strlit(" not found!");
    assert(not_found_message(req_path).subrange(5, 5 + req_path.len() as int) =~= req_path);
}

} // verus!
