//! What the file server answers.
//!
//! The server has a single catch-all route: every request is looked up as a
//! file under the output directory. The lookup itself touches the disk and
//! is done by the caller; this module decides the reply for each way the
//! lookup can end.

use vstd::prelude::*;
use vstd::string::*;
use vstd::utf8::encode_utf8;

verus! {

/// Status of a reply that carries a file.
pub const STATUS_OK: u16 = 200;

/// Status of a reply to a request that names no file.
pub const STATUS_NOT_FOUND: u16 = 404;

/// Status of a reply to a request whose lookup failed.
pub const STATUS_FAILURE: u16 = 500;

/// The port the server listens on.
pub const PORT: u16 = 3000;

/// How the lookup of a request path under the output directory ended.
#[derive(Debug, PartialEq, Eq)]
pub enum Lookup {
    /// The path names a file, and these are its bytes.
    Found(Vec<u8>),
    /// The path names no file.
    Missing,
    /// The disk could not be read. The cause is logged by the caller and is
    /// never shown to the client, so it is not carried here.
    Failed,
}

/// A reply: status code and body.
#[derive(Debug, PartialEq, Eq)]
pub struct Reply {
    pub status: u16,
    pub body: Vec<u8>,
}

/// The address the server binds: a host, as its four octets, and a port.
#[derive(Debug, PartialEq, Eq)]
pub struct Endpoint {
    pub host: [u8; 4],
    pub port: u16,
}

/// The text sent with every failure reply.
pub open spec fn failure_text() -> Seq<char> {
    "Something went wrong..."@
}

/// The reply owed for each lookup outcome.
pub open spec fn reply_for(outcome: Lookup) -> (int, Seq<u8>) {
    match outcome {
        Lookup::Found(bytes) => (200, bytes@),
        Lookup::Missing => (404, Seq::empty()),
        Lookup::Failed => (500, encode_utf8(failure_text())),
    }
}

/// The body of a failure reply, as text.
pub fn failure_body() -> (text: &'static str)
    ensures
        text@ == failure_text(),
{
    "Something went wrong..."
}

/// The directory the built files are served from, relative to the working
/// directory.
pub fn output_dir() -> (dir: &'static str)
    ensures
        dir@ == "./build"@,
{
    "./build"
}

/// The local address the server binds: 127.0.0.1, port 3000.
pub fn endpoint() -> (e: Endpoint)
    ensures
        e.host@ == seq![127u8, 0u8, 0u8, 1u8],
        e.port == PORT,
{
    Endpoint { host: [127, 0, 0, 1], port: PORT }
}

/// The reply sent when reading a file failed: status 500 and the fixed
/// failure text, whatever the cause was.
pub fn failure_reply() -> (reply: Reply)
    ensures
        reply.status == STATUS_FAILURE,
        reply.body@ == encode_utf8(failure_text()),
{
    Reply { status: STATUS_FAILURE, body: failure_body().as_bytes_vec() }
}

/// Decides the reply for a lookup outcome.
///
/// A file that was found is sent back byte for byte with status 200. A path
/// that names no file gets 404 and an empty body, never 500. A failed lookup
/// gets 500 and the fixed failure text.
pub fn respond(outcome: Lookup) -> (reply: Reply)
    ensures
        (reply.status as int, reply.body@) == reply_for(outcome),
        outcome is Found <==> reply.status == STATUS_OK,
        outcome is Missing <==> reply.status == STATUS_NOT_FOUND,
        outcome is Failed <==> reply.status == STATUS_FAILURE,
{
    match outcome {
        Lookup::Found(bytes) => Reply { status: STATUS_OK, body: bytes },
        Lookup::Missing => Reply { status: STATUS_NOT_FOUND, body: Vec::new() },
        Lookup::Failed => failure_reply(),
    }
}

} // verus!
