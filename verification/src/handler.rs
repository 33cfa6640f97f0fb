//! The request handler's decisions: screening the filename before any
//! filesystem access, and mapping each filesystem outcome to the HTTP reply
//! of the endpoint that asked for it.

use vstd::prelude::*;
use vstd::string::StrSliceExecFns;
use crate::digest::sha1_hex;
use crate::digest::sha1_of;
use crate::render::dec_of;
use crate::render::hex_of;
use crate::validate::filename_is_safe;
use crate::validate::filename_rejected;

verus! {

/// An HTTP reply as the handler decides it: a status code and the raw body
/// bytes. The transport layer sends it verbatim.
pub struct HttpReply {
    pub status: u16,
    pub body: Vec<u8>,
}

/// What the filesystem reported when asked to read a file's content.
pub enum ReadOutcome {
    /// The file exists and these are all of its bytes.
    Content(Vec<u8>),
    /// The path does not exist.
    NotFound,
    /// Any other filesystem error; the handler never learns more.
    OtherError,
}

/// What the filesystem reported when asked for a file's metadata.
pub enum StatOutcome {
    /// The file exists and has this byte length.
    Size(u64),
    /// The path does not exist.
    NotFound,
    /// Any other filesystem error; the handler never learns more.
    OtherError,
}

/// The body sent with every rejected filename.
pub open spec fn msg_invalid() -> Seq<u8> {
    vstd::utf8::encode_utf8("Invalid filename"@)
}

/// The body sent whenever the filesystem reports that the path is absent.
pub open spec fn msg_not_found() -> Seq<u8> {
    vstd::utf8::encode_utf8("File not found"@)
}

fn invalid_body() -> (v: Vec<u8>)
    ensures
        v@ == msg_invalid(),
{
    "Invalid filename".as_bytes_vec()
}

fn not_found_body() -> (v: Vec<u8>)
    ensures
        v@ == msg_not_found(),
{
    "File not found".as_bytes_vec()
}

/// The screen that every endpoint applies before touching the filesystem:
/// a rejected filename — and only a rejected one — yields the 400 reply,
/// and the caller then performs no filesystem access at all.
pub fn screen_filename(name: &str) -> (r: Option<HttpReply>)
    ensures
        r is Some <==> filename_rejected(name@),
        (match r {
            Some(reply) => reply.status == 400 && reply.body@ == msg_invalid(),
            None => true,
        }),
{
    if filename_is_safe(name) {
        None
    } else {
        Some(HttpReply { status: 400, body: invalid_body() })
    }
}

/// The reply of the raw-content endpoint for a screened filename: the
/// file's bytes verbatim with 200, the not-found message with 404, or an
/// empty 500 for any other error.
pub fn file_reply(outcome: ReadOutcome) -> (r: HttpReply)
    ensures
        (match outcome {
            ReadOutcome::Content(c) => r.status == 200 && r.body@ == c@,
            ReadOutcome::NotFound => r.status == 404 && r.body@ == msg_not_found(),
            ReadOutcome::OtherError => r.status == 500 && r.body@ == Seq::<u8>::empty(),
        }),
{
    match outcome {
        ReadOutcome::Content(c) => HttpReply { status: 200, body: c },
        ReadOutcome::NotFound => HttpReply { status: 404, body: not_found_body() },
        ReadOutcome::OtherError => HttpReply { status: 500, body: Vec::new() },
    }
}

/// The reply of the digest endpoint for a screened filename: the SHA-1 of
/// the file's bytes as 40 lowercase hexadecimal digits with 200, computed
/// fresh from the content alone; errors map as for the raw-content
/// endpoint.
pub fn digest_reply(outcome: ReadOutcome) -> (r: HttpReply)
    ensures
        (match outcome {
            ReadOutcome::Content(c) => r.status == 200 && r.body@ == hex_of(sha1_of(c@))
                && r.body@.len() == 40,
            ReadOutcome::NotFound => r.status == 404 && r.body@ == msg_not_found(),
            ReadOutcome::OtherError => r.status == 500 && r.body@ == Seq::<u8>::empty(),
        }),
{
    match outcome {
        ReadOutcome::Content(c) => HttpReply { status: 200, body: sha1_hex(&c) },
        ReadOutcome::NotFound => HttpReply { status: 404, body: not_found_body() },
        ReadOutcome::OtherError => HttpReply { status: 500, body: Vec::new() },
    }
}

/// The reply of the size endpoint for a screened filename: the byte length
/// as decimal text with 200; errors map as for the raw-content endpoint.
pub fn size_reply(outcome: StatOutcome) -> (r: HttpReply)
    ensures
        (match outcome {
            StatOutcome::Size(n) => r.status == 200 && r.body@ == dec_of(n as nat),
            StatOutcome::NotFound => r.status == 404 && r.body@ == msg_not_found(),
            StatOutcome::OtherError => r.status == 500 && r.body@ == Seq::<u8>::empty(),
        }),
{
    match outcome {
        StatOutcome::Size(n) => HttpReply { status: 200, body: crate::render::dec_render(n) },
        StatOutcome::NotFound => HttpReply { status: 404, body: not_found_body() },
        StatOutcome::OtherError => HttpReply { status: 500, body: Vec::new() },
    }
}

/// The digest is deterministic: the same content always renders to the same
/// digest body, so two calls against an unchanged file return the identical
/// string.
pub proof fn lemma_digest_deterministic(c1: Seq<u8>, c2: Seq<u8>)
    requires
        c1 == c2,
    ensures
        hex_of(sha1_of(c1)) == hex_of(sha1_of(c2)),
{
}

} // verus!
