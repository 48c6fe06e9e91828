//! What the service answers: the ways a request can fail, and the answers
//! to a beacon fetch as plain values.

use vstd::prelude::*;

verus! {

/// Bytes of the beacon image.
pub const PIXEL_LEN: usize = 43;

/// The beacon image: a GIF of one transparent pixel.
pub const PIXEL: [u8; 43] = [
    0x47, 0x49, 0x46, 0x38, 0x39, 0x61, 0x01, 0x00, 0x01, 0x00, 0x80, 0x00, 0x00, 0xFF, 0xFF, 0xFF,
    0x00, 0x00, 0x00, 0x21, 0xF9, 0x04, 0x01, 0x00, 0x00, 0x00, 0x00, 0x2C, 0x00, 0x00, 0x00, 0x00,
    0x01, 0x00, 0x01, 0x00, 0x00, 0x02, 0x02, 0x44, 0x01, 0x00, 0x3B,
];

/// Status of an answer that carries what was asked for.
pub const STATUS_OK: u16 = 200;

/// Status of an answer to a caller that validation turned away.
pub const STATUS_FORBIDDEN: u16 = 403;

/// Status of an answer to a request that the store failed.
pub const STATUS_INTERNAL_ERROR: u16 = 500;

/// Why a request was not served. No failure is retried, and none outlives
/// its request.
#[derive(Clone, Copy, Debug, PartialEq, Eq, Structural)]
pub enum Failure {
    /// The user agent does not carry the marker.
    ValidationRejected,
    /// The view could not be stored; it is dropped.
    StoreWriteFailed,
    /// A question to the store failed; no part of the summary is shown.
    StoreReadFailed,
}

/// The status that a failure is reported with.
pub open spec fn status_of(failure: Failure) -> u16 {
    match failure {
        Failure::ValidationRejected => STATUS_FORBIDDEN,
        Failure::StoreWriteFailed => STATUS_INTERNAL_ERROR,
        Failure::StoreReadFailed => STATUS_INTERNAL_ERROR,
    }
}

impl Failure {
    /// The status that this failure is reported with.
    pub fn status(&self) -> (code: u16)
        ensures
            code == status_of(*self),
    {
        match self {
            Failure::ValidationRejected => STATUS_FORBIDDEN,
            Failure::StoreWriteFailed => STATUS_INTERNAL_ERROR,
            Failure::StoreReadFailed => STATUS_INTERNAL_ERROR,
        }
    }
}

/// One header of an answer.
#[derive(Clone, Copy, Debug, PartialEq, Eq)]
pub struct Header {
    pub name: &'static str,
    pub value: &'static str,
}

/// An answer to a beacon fetch.
#[derive(Clone, Debug, PartialEq, Eq)]
pub struct Reply {
    pub status: u16,
    pub headers: Vec<Header>,
    pub body: Vec<u8>,
}

/// Mathematical content of a [`Reply`]: its status, its headers as pairs of
/// name and value, and its body.
pub struct ReplyModel {
    pub status: int,
    pub headers: Seq<(Seq<char>, Seq<char>)>,
    pub body: Seq<u8>,
}

impl View for Header {
    type V = (Seq<char>, Seq<char>);

    open spec fn view(&self) -> (Seq<char>, Seq<char>) {
        (self.name@, self.value@)
    }
}

impl View for Reply {
    type V = ReplyModel;

    open spec fn view(&self) -> ReplyModel {
        ReplyModel {
            status: self.status as int,
            headers: Seq::new(self.headers@.len(), |i: int| self.headers@[i]@),
            body: self.body@,
        }
    }
}

/// The headers of the image answer: they forbid caching and name the
/// content as a GIF.
pub open spec fn image_headers() -> Seq<(Seq<char>, Seq<char>)> {
    seq![
        ("Cache-Control"@, "no-cache, no-store, must-revalidate"@),
        ("Content-Type"@, "image/gif"@),
        ("Pragma"@, "no-cache"@),
        ("Expires"@, "0"@),
    ]
}

/// The answer to an accepted fetch whose view was stored.
pub open spec fn image_reply() -> ReplyModel {
    ReplyModel { status: STATUS_OK as int, headers: image_headers(), body: PIXEL@ }
}

/// The answer to a request that failed: the failure's status, no header and
/// an empty body.
pub open spec fn failure_reply(failure: Failure) -> ReplyModel {
    ReplyModel {
        status: status_of(failure) as int,
        headers: Seq::empty(),
        body: Seq::empty(),
    }
}

/// The answer to a beacon fetch that ended as `outcome`.
pub open spec fn reply_for(outcome: Result<(), Failure>) -> ReplyModel {
    match outcome {
        Ok(()) => image_reply(),
        Err(failure) => failure_reply(failure),
    }
}

/// The bytes of the beacon image.
pub fn pixel_bytes() -> (bytes: Vec<u8>)
    ensures
        bytes@ == PIXEL@,
{
    let mut bytes: Vec<u8> = Vec::new();
    let mut i: usize = 0;
    while i < PIXEL_LEN
        invariant
            i <= PIXEL_LEN,
            bytes@ == PIXEL@.take(i as int),
        decreases PIXEL_LEN - i,
    {
        bytes.push(PIXEL[i]);
        assert(bytes@ =~= PIXEL@.take(i + 1));
        i += 1;
    }
    assert(PIXEL@.take(PIXEL_LEN as int) =~= PIXEL@);
    bytes
}

impl Reply {
    /// The answer to an accepted fetch whose view was stored: the image,
    /// never to be cached.
    pub fn image() -> (reply: Reply)
        ensures
            reply@ == image_reply(),
    {
        let mut headers: Vec<Header> = Vec::new();
        headers.push(Header { name: "Cache-Control", value: "no-cache, no-store, must-revalidate" });
        headers.push(Header { name: "Content-Type", value: "image/gif" });
        headers.push(Header { name: "Pragma", value: "no-cache" });
        headers.push(Header { name: "Expires", value: "0" });
        let reply = Reply { status: STATUS_OK, headers, body: pixel_bytes() };
        assert(reply@.headers =~= image_headers());
        reply
    }

    /// The answer to a request that failed.
    pub fn failure(failure: Failure) -> (reply: Reply)
        ensures
            reply@ == failure_reply(failure),
    {
        let reply = Reply { status: failure.status(), headers: Vec::new(), body: Vec::new() };
        assert(reply@.headers =~= Seq::empty());
        reply
    }

    /// The answer to a beacon fetch that ended as `outcome`.
    pub fn for_outcome(outcome: Result<(), Failure>) -> (reply: Reply)
        ensures
            reply@ == reply_for(outcome),
    {
        match outcome {
            Ok(()) => Reply::image(),
            Err(failure) => Reply::failure(failure),
        }
    }
}

} // verus!
