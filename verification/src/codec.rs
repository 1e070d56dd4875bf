//! The codec: stateless translation between typed messages and frame
//! payloads.
//!
//! The JSON backend is generic over the message type, so each operation
//! takes the backend call as a function: the codec decides when it runs and
//! what becomes of its outcome.

use crate::failure::{
    end_of_input, json_error_category, json_error_message, serde_json_error_into_io_error,
    translation_of, Category, CodecError, Kind,
};
use crate::frame::{check_declared, frame_round_trip, framed, wire_of, FrameError};
use std::marker::PhantomData;
use vstd::prelude::*;

verus! {

/// The largest payload, in bytes, that a read accepts. It is the same for
/// requests and responses and for every protocol.
pub const MAX_SIZE: usize = 1048576;

/// Length-prefix JSON codec.
///
/// A value of this type holds no state: it only fixes the request, response
/// and protocol types. Any two values of it are equal.
pub struct LpJson<Req, Resp, Protocol> {
    phantom: PhantomData<(Req, Resp, Protocol)>,
}

/// How the outcome `r` of a codec operation follows from the outcome of the
/// backend call: a value is handed on as it is, an error is translated.
pub open spec fn follows_backend<T>(
    outcome: Result<T, serde_json::Error>,
    r: Result<T, CodecError>,
) -> bool {
    match outcome {
        Ok(value) => r == Ok::<T, CodecError>(value),
        Err(err) => r is Err && r->Err_0@ == translation_of(err),
    }
}

/// How the outcome `r` of a read follows from the frame that was read and
/// from the backend's outcome on it: an empty frame is the end of the input,
/// whatever the backend would say; otherwise the backend decides.
pub open spec fn read_outcome<T>(
    frame: Seq<u8>,
    outcome: Result<T, serde_json::Error>,
    r: Result<T, CodecError>,
) -> bool {
    if frame.len() == 0 {
        r is Err && r->Err_0@ == end_of_input()
    } else {
        follows_backend(outcome, r)
    }
}

/// Hands on what the backend produced, translating its error.
pub fn translate_outcome<T>(outcome: Result<T, serde_json::Error>) -> (r: Result<T, CodecError>)
    ensures
        follows_backend(outcome, r),
{
    match outcome {
        Ok(value) => Ok(value),
        Err(err) => Err(serde_json_error_into_io_error(err)),
    }
}

/// Whether a read goes on to the payload once the prefix has announced
/// `declared` bytes: it does up to [`MAX_SIZE`] and refuses anything longer,
/// before a byte of the payload is read.
pub fn accept_length(declared: usize) -> (r: Result<usize, FrameError>)
    ensures
        declared <= MAX_SIZE ==> r == Ok::<usize, FrameError>(declared),
        declared > MAX_SIZE ==> r == Err::<usize, FrameError>(FrameError::TooLarge),
{
    check_declared(declared, MAX_SIZE)
}

/// Whether a frame can hold a message at all: an empty frame cannot, and
/// is reported as the end of the input.
pub fn check_frame(frame: &Vec<u8>) -> (r: Result<(), CodecError>)
    ensures
        frame@.len() > 0 ==> r is Ok,
        frame@.len() == 0 ==> r is Err && r->Err_0@ == end_of_input(),
{
    if frame.len() == 0 {
        Err(CodecError::unexpected_eof())
    } else {
        Ok(())
    }
}

impl<Req, Resp, Protocol> Default for LpJson<Req, Resp, Protocol> {
    fn default() -> (r: Self)
        ensures
            r == Self::fresh(),
    {
        Self { phantom: PhantomData }
    }
}

impl<Req, Resp, Protocol> Clone for LpJson<Req, Resp, Protocol> {
    fn clone(&self) -> (r: Self)
        ensures
            r == *self,
    {
        Self { phantom: PhantomData }
    }
}

impl<Req, Resp, Protocol> LpJson<Req, Resp, Protocol> {
    /// The codec as it is constructed: the one value of this type.
    pub closed spec fn fresh() -> Self {
        LpJson { phantom: PhantomData }
    }

    /// Decodes a request from the frame that was read for it.
    ///
    /// An empty frame fails with the end of the input and `decode` is not
    /// run. Otherwise `decode` runs on the frame: its value is the request,
    /// its error is translated. The codec is left as it was.
    pub fn read_request<F>(&mut self, _protocol: &Protocol, frame: Vec<u8>, decode: F) -> (r: Result<
        Req,
        CodecError,
    >) where F: FnOnce(Vec<u8>) -> Result<Req, serde_json::Error>
        requires
            frame@.len() > 0 ==> decode.requires((frame,)),
        ensures
            *final(self) == *old(self),
            frame@.len() == 0 ==> r is Err && r->Err_0@ == end_of_input(),
            frame@.len() > 0 ==> exists|outcome: Result<Req, serde_json::Error>|
                decode.ensures((frame,), outcome) && read_outcome(frame@, outcome, r),
    {
        match check_frame(&frame) {
            Ok(()) => {
                let outcome = decode(frame);
                let r = translate_outcome(outcome);
                assert(read_outcome(frame@, outcome, r));
                r
            },
            Err(e) => Err(e),
        }
    }

    /// Decodes a response from the frame that was read for it, as
    /// [`LpJson::read_request`] does for a request.
    pub fn read_response<F>(&mut self, _protocol: &Protocol, frame: Vec<u8>, decode: F) -> (r:
        Result<Resp, CodecError>) where F: FnOnce(Vec<u8>) -> Result<Resp, serde_json::Error>
        requires
            frame@.len() > 0 ==> decode.requires((frame,)),
        ensures
            *final(self) == *old(self),
            frame@.len() == 0 ==> r is Err && r->Err_0@ == end_of_input(),
            frame@.len() > 0 ==> exists|outcome: Result<Resp, serde_json::Error>|
                decode.ensures((frame,), outcome) && read_outcome(frame@, outcome, r),
    {
        match check_frame(&frame) {
            Ok(()) => {
                let outcome = decode(frame);
                let r = translate_outcome(outcome);
                assert(read_outcome(frame@, outcome, r));
                r
            },
            Err(e) => Err(e),
        }
    }

    /// Encodes a request into the payload of the frame to write.
    ///
    /// `encode` runs on the request: its bytes are the payload, of whatever
    /// length, and its error is translated. The codec is left as it was.
    pub fn write_request<F>(&mut self, _protocol: &Protocol, req: Req, encode: F) -> (r: Result<
        Vec<u8>,
        CodecError,
    >) where F: FnOnce(Req) -> Result<Vec<u8>, serde_json::Error>
        requires
            encode.requires((req,)),
        ensures
            *final(self) == *old(self),
            exists|outcome: Result<Vec<u8>, serde_json::Error>|
                encode.ensures((req,), outcome) && follows_backend(outcome, r),
    {
        translate_outcome(encode(req))
    }

    /// Encodes a response into the payload of the frame to write, as
    /// [`LpJson::write_request`] does for a request.
    pub fn write_response<F>(&mut self, _protocol: &Protocol, res: Resp, encode: F) -> (r: Result<
        Vec<u8>,
        CodecError,
    >) where F: FnOnce(Resp) -> Result<Vec<u8>, serde_json::Error>
        requires
            encode.requires((res,)),
        ensures
            *final(self) == *old(self),
            exists|outcome: Result<Vec<u8>, serde_json::Error>|
                encode.ensures((res,), outcome) && follows_backend(outcome, r),
    {
        translate_outcome(encode(res))
    }
}

/// A message that survives the backend survives the codec: where the
/// backend encoded `value` as `payload` and decodes `payload` to `value`
/// again, the write hands out `payload`, the frame read from its wire form
/// is `payload`, whatever follows on the stream, and the read gives `value`.
///
/// This holds for payloads that are not empty and not longer than
/// [`MAX_SIZE`]: a write is not held to the limit, a read is.
pub proof fn round_trip_within_limit<T>(
    value: T,
    payload: Vec<u8>,
    rest: Seq<u8>,
    written: Result<Vec<u8>, CodecError>,
    read: Result<T, CodecError>,
)
    requires
        0 < payload@.len() <= MAX_SIZE,
        follows_backend(Ok::<Vec<u8>, serde_json::Error>(payload), written),
        read_outcome(payload@, Ok::<T, serde_json::Error>(value), read),
    ensures
        written == Ok::<Vec<u8>, CodecError>(payload),
        framed(wire_of(payload@) + rest, MAX_SIZE as nat) == Ok::<(Seq<u8>, nat), FrameError>(
            (payload@, 4 + payload@.len()),
        ),
        read == Ok::<T, CodecError>(value),
{
    frame_round_trip(payload@, rest, MAX_SIZE as nat);
}

/// A stream that was closed before it sent anything and a stream that sent
/// an empty frame fail alike: either way the read is given the empty
/// payload, and its outcome is the end of the input, whatever the backend
/// would have made of it.
pub proof fn clean_close_and_empty_frame_fail_alike<T>(
    outcome: Result<T, serde_json::Error>,
    after_close: Result<T, CodecError>,
    after_empty_frame: Result<T, CodecError>,
)
    requires
        read_outcome(framed(Seq::empty(), MAX_SIZE as nat)->Ok_0.0, outcome, after_close),
        read_outcome(framed(wire_of(Seq::empty()), MAX_SIZE as nat)->Ok_0.0, outcome, after_empty_frame),
    ensures
        after_close is Err,
        after_empty_frame is Err,
        after_close->Err_0@ == end_of_input(),
        after_empty_frame->Err_0@ == end_of_input(),
{
    frame_round_trip(Seq::empty(), Seq::empty(), MAX_SIZE as nat);
    assert(wire_of(Seq::empty()) + Seq::<u8>::empty() =~= wire_of(Seq::empty()));
}

/// A frame that holds bytes which the backend refuses as malformed, by
/// their syntax or by their shape, fails with the generic kind and the
/// backend's own description: no value comes out of it.
pub proof fn malformed_payload_fails_as_other<T>(
    frame: Seq<u8>,
    err: serde_json::Error,
    r: Result<T, CodecError>,
)
    requires
        frame.len() > 0,
        json_error_category(err) == Category::Syntax || json_error_category(err) == Category::Data,
        read_outcome(frame, Err::<T, serde_json::Error>(err), r),
    ensures
        r is Err,
        r->Err_0@.kind == Kind::Other,
        r->Err_0@.message == Some(json_error_message(err)),
{
}

/// Codecs share nothing: any two are the same value, so no operation on one
/// can be told from the same operation on another.
pub proof fn instances_are_interchangeable<Req, Resp, Protocol>(
    a: LpJson<Req, Resp, Protocol>,
    b: LpJson<Req, Resp, Protocol>,
)
    ensures
        a == b,
{
}

} // verus!
