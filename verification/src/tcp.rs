//! The requests that the proxy sends to the agent over TCP, and the handling
//! of one connection by the agent.

use vstd::prelude::*;
use vstd::string::StringSliceAdditionalSpecFns;
use vstd::utf8::*;

use crate::api::{
    frame, frame_readable, handle_request, handling, operation_byte, request_decoding,
    matching_ids, response_decoding, secret_views, status_byte, OperationType, Request, Response,
    SanitizedSecret, StatusCode, CURRENT_VERSION,
};
use crate::json::{json_string_list, json_string_literal, json_string_text};
use crate::text::utf8_text;

verus! {

broadcast use {encode_utf8_valid_utf8, encode_utf8_decode_utf8};

/// The size of the buffer into which the proxy reads a response.
pub const BUFFER_SIZE: usize = 1024;

/// What the agent, holding `secrets`, sends back on a connection that carried
/// `raw`: the frame of the response, or the message of the error that drops
/// the connection.
pub open spec fn serving(raw: Seq<u8>, secrets: Seq<(Seq<char>, Seq<char>)>) -> Result<
    Seq<u8>,
    Seq<char>,
> {
    match request_decoding(raw) {
        Err(m) => Err(m),
        Ok((_, op, payload)) => match handling(op, payload, secrets) {
            Ok(p) => Ok(frame(CURRENT_VERSION, status_byte(StatusCode::Success), p)),
            Err(m) => Err(m),
        },
    }
}

/// What the proxy reads from a response frame: the message that rejects the
/// frame, `None` where the payload is no UTF-8 text, or the payload's text.
pub open spec fn response_reading(bytes: Seq<u8>) -> Result<Option<Seq<char>>, Seq<char>> {
    match response_decoding(bytes) {
        Err(m) => Err(m),
        Ok((_, _, payload)) => if valid_utf8(payload) {
            Ok(Some(decode_utf8(payload)))
        } else {
            Ok(None)
        },
    }
}

/// The request that asks the agent for the secrets that match `text`.
///
/// Whatever secrets the agent holds, it answers the frame of this request
/// with the IDs of the secrets whose name holds `text`.
pub fn search_request(text: &str) -> (request: Request)
    ensures
        request.version == CURRENT_VERSION,
        request.op == OperationType::Search,
        request.payload@ == encode_utf8(json_string_literal(text@)),
        forall|secrets: Seq<(Seq<char>, Seq<char>)>|
            #[trigger] serving(
                frame(CURRENT_VERSION, operation_byte(OperationType::Search), request.payload@),
                secrets,
            ) == Ok::<Seq<u8>, Seq<char>>(
                frame(
                    CURRENT_VERSION,
                    status_byte(StatusCode::Success),
                    encode_utf8(json_string_list(matching_ids(secrets, text@))),
                ),
            ),
{
    let mut request = Request::default();
    request.op = OperationType::Search;
    let payload = json_string_text(text);
    request.payload = payload.as_str().as_bytes_vec();
    proof {
        let bytes = frame(CURRENT_VERSION, operation_byte(OperationType::Search), request.payload@);
        assert(bytes.skip(2) =~= request.payload@);
    }
    request
}

/// The request that checks that the agent answers.
///
/// Whatever secrets the agent holds, it answers the frame of this request
/// with the JSON text `null`.
pub fn ping_request() -> (request: Request)
    ensures
        request.version == CURRENT_VERSION,
        request.op == OperationType::Ping,
        request.payload@ == Seq::<u8>::empty(),
        forall|secrets: Seq<(Seq<char>, Seq<char>)>|
            #[trigger] serving(
                frame(CURRENT_VERSION, operation_byte(OperationType::Ping), request.payload@),
                secrets,
            ) == Ok::<Seq<u8>, Seq<char>>(
                frame(CURRENT_VERSION, status_byte(StatusCode::Success), encode_utf8("null"@)),
            ),
{
    let request = Request::default();
    proof {
        let bytes = frame(CURRENT_VERSION, operation_byte(OperationType::Ping), request.payload@);
        assert(bytes.skip(2) =~= request.payload@);
    }
    request
}

/// Handles the bytes that a connection carried, for an agent that holds
/// `secrets`: decodes the request, handles it and encodes the response.
pub fn serve_request(raw: &[u8], secrets: &Vec<SanitizedSecret>) -> (res: Result<Vec<u8>, String>)
    requires
        frame_readable(raw@),
    ensures
        match serving(raw@, secret_views(secrets@)) {
            Ok(bytes) => res matches Ok(v) && v@ == bytes,
            Err(m) => res matches Err(e) && e@ == m,
        },
{
    let request = match Request::from_bytes(raw) {
        Ok(r) => r,
        Err(e) => return Err(e),
    };
    let response = match handle_request(request, secrets) {
        Ok(r) => r,
        Err(e) => return Err(e),
    };
    Ok(response.to_bytes())
}

/// Reads the text of the response held in `bytes`.
pub fn read_response_text(bytes: &[u8]) -> (res: Result<Option<String>, String>)
    requires
        frame_readable(bytes@),
    ensures
        match response_reading(bytes@) {
            Err(m) => res matches Err(e) && e@ == m,
            Ok(None) => res matches Ok(None),
            Ok(Some(t)) => res matches Ok(Some(s)) && s@ == t,
        },
{
    let response = match Response::from_bytes(bytes) {
        Ok(r) => r,
        Err(e) => return Err(e),
    };
    match utf8_text(response.payload.as_slice()) {
        Ok(text) => Ok(Some(text)),
        Err(_) => Ok(None),
    }
}

/// The proxy reads back the text of every response that the agent encodes.
pub proof fn response_text_round_trip(code: StatusCode, text: Seq<char>)
    ensures
        frame_readable(frame(CURRENT_VERSION, status_byte(code), encode_utf8(text))),
        response_reading(frame(CURRENT_VERSION, status_byte(code), encode_utf8(text)))
            == Ok::<Option<Seq<char>>, Seq<char>>(Some(text)),
{
    let bytes = frame(CURRENT_VERSION, status_byte(code), encode_utf8(text));
    assert(bytes.skip(2) =~= encode_utf8(text));
}

} // verus!
