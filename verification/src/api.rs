//! The binary protocol spoken between the proxy and the remote agent.
//!
//! A request frame is `[version, operation, payload...]` and a response frame
//! is `[version, status, payload...]`; payloads are JSON texts.

use vstd::prelude::*;

use vstd::string::StringSliceAdditionalSpecFns;
use vstd::utf8::*;

use crate::json::{
    comma_joined, comma_joined_push, json_array, json_string_list, json_string_list_text,
    json_string_literal, json_string_reading, json_string_text, json_unit_text, push_array_element,
    read_json_string,
};
use crate::text::{contains_text, decimal, decimal_text, text_contains, utf8_error_text, utf8_text};

verus! {

/// The current version of the API.
pub const CURRENT_VERSION: u8 = 0x47;

#[derive(Debug, PartialEq, Eq, Structural, Clone, Copy)]
pub enum OperationType {
    Ping,
    Search,
    HMAC,
    U2F,
    /// List the secrets in the remote agent. This will
    /// return a list of *sanitized* secrets.
    List,
}

/// The wire byte of each operation.
pub open spec fn operation_byte(op: OperationType) -> u8 {
    match op {
        OperationType::Ping => 113,
        OperationType::Search => 1,
        OperationType::HMAC => 2,
        OperationType::U2F => 3,
        OperationType::List => 4,
    }
}

/// The operation that a wire byte stands for, if any.
pub open spec fn operation_of_byte(b: u8) -> Option<OperationType> {
    if b == 113 {
        Some(OperationType::Ping)
    } else if b == 1 {
        Some(OperationType::Search)
    } else if b == 2 {
        Some(OperationType::HMAC)
    } else if b == 3 {
        Some(OperationType::U2F)
    } else if b == 4 {
        Some(OperationType::List)
    } else {
        None
    }
}

/// The name under which an operation is shown in messages (its `Debug` form).
pub open spec fn operation_name(op: OperationType) -> Seq<char> {
    match op {
        OperationType::Ping => "Ping"@,
        OperationType::Search => "Search"@,
        OperationType::HMAC => "HMAC"@,
        OperationType::U2F => "U2F"@,
        OperationType::List => "List"@,
    }
}

/// The message that rejects an unknown operation byte.
pub open spec fn invalid_operation_message(b: u8) -> Seq<char> {
    "Invalid operation type "@ + decimal(b as nat) + "."@
}

impl OperationType {
    pub fn to_byte(&self) -> (b: u8)
        ensures
            b == operation_byte(*self),
    {
        match self {
            OperationType::Ping => 113,
            OperationType::Search => 1,
            OperationType::HMAC => 2,
            OperationType::U2F => 3,
            OperationType::List => 4,
        }
    }

    pub fn from_byte(operation_type: u8) -> (res: Result<OperationType, String>)
        ensures
            match operation_of_byte(operation_type) {
                Some(op) => res == Ok::<OperationType, String>(op),
                None => res matches Err(m) && m@ == invalid_operation_message(operation_type),
            },
    {
        if operation_type == 113 {
            return Ok(OperationType::Ping);
        }
        if operation_type == 1 {
            return Ok(OperationType::Search);
        }
        if operation_type == 2 {
            return Ok(OperationType::HMAC);
        }
        if operation_type == 3 {
            return Ok(OperationType::U2F);
        }
        if operation_type == 4 {
            return Ok(OperationType::List);
        }
        Err(message_with_number("Invalid operation type ", operation_type, "."))
    }

    /// The name of the operation, as its `Debug` form shows it.
    pub fn name(&self) -> (res: &'static str)
        ensures
            res@ == operation_name(*self),
    {
        match self {
            OperationType::Ping => "Ping",
            OperationType::Search => "Search",
            OperationType::HMAC => "HMAC",
            OperationType::U2F => "U2F",
            OperationType::List => "List",
        }
    }
}

#[derive(Debug, PartialEq, Eq, Structural, Clone, Copy)]
pub enum StatusCode {
    Success,
    Error,
    Locked,
}

/// The wire byte of each status code.
pub open spec fn status_byte(code: StatusCode) -> u8 {
    match code {
        StatusCode::Success => 112,
        StatusCode::Error => 1,
        StatusCode::Locked => 2,
    }
}

/// The status code that a wire byte stands for, if any.
pub open spec fn status_of_byte(b: u8) -> Option<StatusCode> {
    if b == 112 {
        Some(StatusCode::Success)
    } else if b == 1 {
        Some(StatusCode::Error)
    } else if b == 2 {
        Some(StatusCode::Locked)
    } else {
        None
    }
}

/// The message that rejects an unknown status byte.
pub open spec fn invalid_status_message(b: u8) -> Seq<char> {
    "Invalid status code "@ + decimal(b as nat) + "."@
}

impl StatusCode {
    pub fn to_byte(&self) -> (b: u8)
        ensures
            b == status_byte(*self),
    {
        match self {
            StatusCode::Success => 112,
            StatusCode::Error => 1,
            StatusCode::Locked => 2,
        }
    }

    pub fn from_byte(status_code: u8) -> (res: Result<StatusCode, String>)
        ensures
            match status_of_byte(status_code) {
                Some(code) => res == Ok::<StatusCode, String>(code),
                None => res matches Err(m) && m@ == invalid_status_message(status_code),
            },
    {
        if status_code == 112 {
            return Ok(StatusCode::Success);
        }
        if status_code == 1 {
            return Ok(StatusCode::Error);
        }
        if status_code == 2 {
            return Ok(StatusCode::Locked);
        }
        Err(message_with_number("Invalid status code ", status_code, "."))
    }
}

/// `prefix`, then the decimal notation of `n`, then `suffix`.
fn message_with_number(prefix: &str, n: u8, suffix: &str) -> (res: String)
    ensures
        res@ == prefix@ + decimal(n as nat) + suffix@,
{
    let mut res = String::from_str(prefix);
    let digits = decimal_text(n);
    res.append(digits.as_str());
    res.append(suffix);
    res
}

/// The frame of a message: its version byte, its kind byte, then its payload.
pub open spec fn frame(version: u8, kind: u8, payload: Seq<u8>) -> Seq<u8> {
    seq![version, kind] + payload
}

/// Whether a decoder can read the bytes it looks at in `bytes`: the version
/// byte, and the kind byte when the version is the current one.
pub open spec fn frame_readable(bytes: Seq<u8>) -> bool {
    &&& bytes.len() >= 1
    &&& bytes[0] == CURRENT_VERSION ==> bytes.len() >= 2
}

/// Whether a decoder can read the bytes it looks at in `bytes`.
pub fn is_frame_readable(bytes: &[u8]) -> (res: bool)
    ensures
        res == frame_readable(bytes@),
{
    bytes.len() >= 1 && (bytes[0] != CURRENT_VERSION || bytes.len() >= 2)
}

/// The message that rejects a request frame of another version.
pub open spec fn invalid_api_version_message(v: u8) -> Seq<char> {
    "Invalid API version "@ + decimal(v as nat)
}

/// The message that rejects a response frame of another version.
pub open spec fn invalid_version_message(v: u8) -> Seq<char> {
    "Invalid version "@ + decimal(v as nat)
}

/// What a request frame decodes to: the version, the operation and the payload,
/// or the message that rejects it.
pub open spec fn request_decoding(bytes: Seq<u8>) -> Result<
    (u8, OperationType, Seq<u8>),
    Seq<char>,
> {
    if bytes[0] != CURRENT_VERSION {
        Err(invalid_api_version_message(bytes[0]))
    } else {
        match operation_of_byte(bytes[1]) {
            Some(op) => Ok((bytes[0], op, bytes.skip(2))),
            None => Err(invalid_operation_message(bytes[1])),
        }
    }
}

/// What a response frame decodes to: the version, the status code and the
/// payload, or the message that rejects it.
pub open spec fn response_decoding(bytes: Seq<u8>) -> Result<(u8, StatusCode, Seq<u8>), Seq<char>> {
    if bytes[0] != CURRENT_VERSION {
        Err(invalid_version_message(bytes[0]))
    } else {
        match status_of_byte(bytes[1]) {
            Some(code) => Ok((bytes[0], code, bytes.skip(2))),
            None => Err(invalid_status_message(bytes[1])),
        }
    }
}

pub struct Request {
    pub version: u8,
    pub op: OperationType,
    pub payload: Vec<u8>,
}

impl Default for Request {
    fn default() -> (r: Self)
        ensures
            r.version == CURRENT_VERSION,
            r.op == OperationType::Ping,
            r.payload@ == Seq::<u8>::empty(),
    {
        Request { version: CURRENT_VERSION, op: OperationType::Ping, payload: Vec::new() }
    }
}

/// Copies `bytes[from..]` to the end of `out`.
fn push_tail(out: &mut Vec<u8>, bytes: &[u8], from: usize)
    requires
        from <= bytes@.len(),
    ensures
        final(out)@ == old(out)@ + bytes@.skip(from as int),
{
    let ghost start = out@;
    let mut i = from;
    while i < bytes.len()
        invariant
            from <= i <= bytes@.len(),
            out@ == start + bytes@.subrange(from as int, i as int),
        decreases bytes@.len() - i,
    {
        out.push(bytes[i]);
        i = i + 1;
        assert(bytes@.subrange(from as int, i as int) =~= bytes@.subrange(from as int, i - 1) + seq![
            bytes@[i - 1],
        ]);
    }
    assert(bytes@.subrange(from as int, bytes@.len() as int) =~= bytes@.skip(from as int));
}

impl Request {
    pub fn to_bytes(&self) -> (res: Vec<u8>)
        ensures
            res@ == frame(self.version, operation_byte(self.op), self.payload@),
    {
        let mut response: Vec<u8> = Vec::new();
        response.push(self.version);
        response.push(self.op.to_byte());
        push_tail(&mut response, self.payload.as_slice(), 0);
        assert(response@ =~= frame(self.version, operation_byte(self.op), self.payload@));
        response
    }

    pub fn from_bytes(bytes: &[u8]) -> (res: Result<Request, String>)
        requires
            frame_readable(bytes@),
        ensures
            match request_decoding(bytes@) {
                Ok((v, op, p)) => res matches Ok(r) && r.version == v && r.op == op && r.payload@
                    == p,
                Err(m) => res matches Err(e) && e@ == m,
            },
    {
        let mut response = Self::default();
        response.version = bytes[0];
        if response.version != CURRENT_VERSION {
            proof {
                reveal_strlit("");
            }
            return Err(message_with_number("Invalid API version ", response.version, ""));
        }
        response.op = match OperationType::from_byte(bytes[1]) {
            Ok(op) => op,
            Err(e) => return Err(e),
        };
        let mut payload: Vec<u8> = Vec::new();
        push_tail(&mut payload, bytes, 2);
        response.payload = payload;
        Ok(response)
    }
}

pub struct Response {
    pub version: u8,
    pub code: StatusCode,
    pub payload: Vec<u8>,
}

impl Default for Response {
    fn default() -> (r: Self)
        ensures
            r.version == CURRENT_VERSION,
            r.code == StatusCode::Success,
            r.payload@ == Seq::<u8>::empty(),
    {
        Response { version: CURRENT_VERSION, code: StatusCode::Success, payload: Vec::new() }
    }
}

impl Response {
    pub fn to_bytes(&self) -> (res: Vec<u8>)
        ensures
            res@ == frame(self.version, status_byte(self.code), self.payload@),
    {
        let mut response: Vec<u8> = Vec::new();
        response.push(self.version);
        response.push(self.code.to_byte());
        push_tail(&mut response, self.payload.as_slice(), 0);
        assert(response@ =~= frame(self.version, status_byte(self.code), self.payload@));
        response
    }

    pub fn from_bytes(bytes: &[u8]) -> (res: Result<Response, String>)
        requires
            frame_readable(bytes@),
        ensures
            match response_decoding(bytes@) {
                Ok((v, code, p)) => res matches Ok(r) && r.version == v && r.code == code
                    && r.payload@ == p,
                Err(m) => res matches Err(e) && e@ == m,
            },
    {
        let mut response = Self::default();
        response.version = bytes[0];
        if response.version != CURRENT_VERSION {
            proof {
                reveal_strlit("");
            }
            return Err(message_with_number("Invalid version ", response.version, ""));
        }
        response.code = match StatusCode::from_byte(bytes[1]) {
            Ok(c) => c,
            Err(e) => return Err(e),
        };
        let mut payload: Vec<u8> = Vec::new();
        push_tail(&mut payload, bytes, 2);
        response.payload = payload;
        Ok(response)
    }
}

pub type PingRequest = ();

pub type PingResponse = ();

/// The term to search for.
pub type SearchRequest = String;

/// A list of IDs of the secrets that matched the search term.
pub type SearchResponse = Vec<String>;

pub type ListRequest = ();

pub type ListResponse = Vec<SanitizedSecret>;

pub type HMACRequest = String;

pub type HMACResponse = String;

/// A secret as the agent shows it to the proxy: its ID and its name, without
/// the secret material.
pub struct SanitizedSecret {
    id: String,
    name: String,
}

impl View for SanitizedSecret {
    /// The ID and the name.
    type V = (Seq<char>, Seq<char>);

    closed spec fn view(&self) -> (Seq<char>, Seq<char>) {
        (self.id@, self.name@)
    }
}

impl SanitizedSecret {
    pub fn new(id: String, name: String) -> (secret: Self)
        ensures
            secret@ == (id@, name@),
    {
        SanitizedSecret { id, name }
    }

    pub fn id(&self) -> (id: &str)
        ensures
            id@ == self@.0,
    {
        self.id.as_str()
    }

    pub fn name(&self) -> (name: &str)
        ensures
            name@ == self@.1,
    {
        self.name.as_str()
    }
}

/// The IDs and names of a list of secrets.
pub open spec fn secret_views(secrets: Seq<SanitizedSecret>) -> Seq<(Seq<char>, Seq<char>)> {
    secrets.map_values(|secret: SanitizedSecret| secret@)
}

/// Whether a secret (ID, name) matches a search term: the term occurs in its
/// name.
pub open spec fn secret_matches(secret: (Seq<char>, Seq<char>), term: Seq<char>) -> bool {
    text_contains(secret.1, term)
}

/// The IDs of the secrets that match `term`, in the order of `secrets`.
pub open spec fn matching_ids(secrets: Seq<(Seq<char>, Seq<char>)>, term: Seq<char>) -> Seq<
    Seq<char>,
>
    decreases secrets.len(),
{
    if secrets.len() == 0 {
        Seq::empty()
    } else {
        let rest = matching_ids(secrets.drop_last(), term);
        if secret_matches(secrets.last(), term) {
            rest.push(secrets.last().0)
        } else {
            rest
        }
    }
}

/// The JSON object of a sanitized secret, with its fields in declaration
/// order.
pub open spec fn secret_json(secret: (Seq<char>, Seq<char>)) -> Seq<char> {
    "{\"id\":"@ + json_string_literal(secret.0) + ",\"name\":"@ + json_string_literal(secret.1)
        + "}"@
}

/// The JSON array of a list of sanitized secrets.
pub open spec fn secrets_json(secrets: Seq<(Seq<char>, Seq<char>)>) -> Seq<char> {
    json_array(secrets.map_values(|secret: (Seq<char>, Seq<char>)| secret_json(secret)))
}

/// What a search request with `payload` is answered with, where the agent
/// holds `secrets`: the IDs of the secrets that match the term, or the message
/// that rejects the payload (which must be the UTF-8 text of a JSON string).
pub open spec fn search_outcome(payload: Seq<u8>, secrets: Seq<(Seq<char>, Seq<char>)>) -> Result<
    Seq<Seq<char>>,
    Seq<char>,
> {
    if !valid_utf8(payload) {
        Err(utf8_error_text(payload))
    } else {
        match json_string_reading(decode_utf8(payload)) {
            Ok(term) => Ok(matching_ids(secrets, term)),
            Err(m) => Err(m),
        }
    }
}

/// The message that refuses an operation that the agent does not handle yet.
pub open spec fn unhandled_operation_message(op: OperationType) -> Seq<char> {
    "Operation "@ + operation_name(op) + " not implemented yet."@
}

/// What a request for `op` with `payload` is answered with, where the agent
/// holds `secrets`: the payload of the response, or the message that refuses
/// the request.
pub open spec fn handling(
    op: OperationType,
    payload: Seq<u8>,
    secrets: Seq<(Seq<char>, Seq<char>)>,
) -> Result<Seq<u8>, Seq<char>> {
    match op {
        OperationType::Ping => Ok(encode_utf8("null"@)),
        OperationType::Search => match search_outcome(payload, secrets) {
            Ok(ids) => Ok(encode_utf8(json_string_list(ids))),
            Err(m) => Err(m),
        },
        OperationType::List => Ok(encode_utf8(secrets_json(secrets))),
        _ => Err(unhandled_operation_message(op)),
    }
}

pub fn handle_ping_request(request: Request) -> (res: Result<PingResponse, String>)
    ensures
        res is Ok,
{
    Ok(())
}

/// The IDs of the secrets whose name holds `term`.
fn matching_secret_ids(secrets: &Vec<SanitizedSecret>, term: &str) -> (ids: Vec<String>)
    ensures
        ids.deep_view() == matching_ids(secret_views(secrets@), term@),
{
    let ghost views = secret_views(secrets@);
    let mut ids: Vec<String> = Vec::new();
    let mut i: usize = 0;
    while i < secrets.len()
        invariant
            i <= secrets@.len(),
            views == secret_views(secrets@),
            ids.deep_view() == matching_ids(views.take(i as int), term@),
        decreases secrets@.len() - i,
    {
        let secret = &secrets[i];
        assert(views.take(i + 1).drop_last() =~= views.take(i as int));
        assert(views.take(i + 1).last() == secret@);
        if contains_text(secret.name(), term) {
            ids.push(String::from_str(secret.id()));
            assert(ids.deep_view() =~= matching_ids(views.take(i as int), term@).push(secret@.0));
        }
        i = i + 1;
    }
    assert(views.take(secrets@.len() as int) =~= views);
    ids
}

/// The JSON object of one sanitized secret.
fn secret_json_text(secret: &SanitizedSecret) -> (res: String)
    ensures
        res@ == secret_json(secret@),
{
    let mut res = String::from_str("{\"id\":");
    let id = json_string_text(secret.id());
    res.append(id.as_str());
    res.append(",\"name\":");
    let name = json_string_text(secret.name());
    res.append(name.as_str());
    res.append("}");
    res
}

/// The JSON array of the sanitized secrets, as a List request is answered.
pub fn secrets_json_text(secrets: &Vec<SanitizedSecret>) -> (res: String)
    ensures
        res@ == secrets_json(secret_views(secrets@)),
{
    let ghost objects = secret_views(secrets@).map_values(
        |secret: (Seq<char>, Seq<char>)| secret_json(secret),
    );
    proof {
        reveal_strlit("[");
        reveal_strlit("]");
    }
    let mut res = String::from_str("[");
    let mut i: usize = 0;
    while i < secrets.len()
        invariant
            i <= secrets@.len(),
            objects == secret_views(secrets@).map_values(
                |secret: (Seq<char>, Seq<char>)| secret_json(secret),
            ),
            res@ == seq!['['] + comma_joined(objects.take(i as int)),
        decreases secrets@.len() - i,
    {
        let object = secret_json_text(&secrets[i]);
        proof {
            comma_joined_push(objects.take(i as int), object@);
            assert(objects.take(i as int).push(object@) =~= objects.take(i + 1));
        }
        push_array_element(&mut res, object.as_str(), i);
        i = i + 1;
    }
    res.append("]");
    assert(objects.take(secrets@.len() as int) =~= objects);
    res
}

pub fn handle_search_request(request: Request, secrets: &Vec<SanitizedSecret>) -> (res: Result<
    SearchResponse,
    String,
>)
    ensures
        match search_outcome(request.payload@, secret_views(secrets@)) {
            Ok(ids) => res matches Ok(v) && v.deep_view() == ids,
            Err(m) => res matches Err(e) && e@ == m,
        },
{
    let search_term = match utf8_text(request.payload.as_slice()) {
        Ok(t) => t,
        Err(e) => return Err(e),
    };
    let term = match read_json_string(search_term.as_str()) {
        Ok(term) => term,
        Err(e) => return Err(e),
    };
    Ok(matching_secret_ids(secrets, term.as_str()))
}

pub fn handle_request(request: Request, secrets: &Vec<SanitizedSecret>) -> (res: Result<
    Response,
    String,
>)
    ensures
        match handling(request.op, request.payload@, secret_views(secrets@)) {
            Ok(p) => res matches Ok(r) && r.version == CURRENT_VERSION && r.code
                == StatusCode::Success && r.payload@ == p,
            Err(m) => res matches Err(e) && e@ == m,
        },
{
    let mut response = Response::default();
    match request.op {
        OperationType::Ping => {
            match handle_ping_request(request) {
                Ok(_) => {},
                Err(e) => return Err(e),
            }
            let text = json_unit_text();
            response.payload = text.as_str().as_bytes_vec();
        },
        OperationType::Search => {
            let ids = match handle_search_request(request, secrets) {
                Ok(ids) => ids,
                Err(e) => return Err(e),
            };
            let text = json_string_list_text(&ids);
            response.payload = text.as_str().as_bytes_vec();
        },
        OperationType::List => {
            let text = secrets_json_text(secrets);
            response.payload = text.as_str().as_bytes_vec();
        },
        _ => {
            let mut message = String::from_str("Operation ");
            message.append(request.op.name());
            message.append(" not implemented yet.");
            return Err(message);
        },
    }
    Ok(response)
}

/// Whether a secret's name holds `term`, as a predicate on secrets.
pub open spec fn name_holds(term: Seq<char>) -> spec_fn((Seq<char>, Seq<char>)) -> bool {
    |secret: (Seq<char>, Seq<char>)| text_contains(secret.1, term)
}

/// The ID of a secret, as a function on secrets.
pub open spec fn secret_id() -> spec_fn((Seq<char>, Seq<char>)) -> Seq<char> {
    |secret: (Seq<char>, Seq<char>)| secret.0
}

/// The IDs that answer a search are those of the secrets whose name holds
/// the term, all of them and in their order: the secrets kept by a filter on
/// the name, mapped to their IDs.
pub proof fn matching_ids_are_filtered_ids(secrets: Seq<(Seq<char>, Seq<char>)>, term: Seq<char>)
    ensures
        matching_ids(secrets, term) == secrets.filter(name_holds(term)).map_values(secret_id()),
    decreases secrets.len(),
{
    reveal(Seq::filter);
    if secrets.len() == 0 {
        assert(secrets.filter(name_holds(term)) =~= secrets);
        assert(secrets.filter(name_holds(term)).map_values(secret_id()) =~= Seq::<
            Seq<char>,
        >::empty());
    } else {
        matching_ids_are_filtered_ids(secrets.drop_last(), term);
        let rest = secrets.drop_last().filter(name_holds(term));
        let last = secrets.last();
        assert(name_holds(term)(last) == secret_matches(last, term));
        if secret_matches(last, term) {
            assert(secrets.filter(name_holds(term)) == rest.push(last));
            assert(rest.push(last).map_values(secret_id()) =~= rest.map_values(secret_id()).push(
                last.0,
            ));
        } else {
            assert(secrets.filter(name_holds(term)) == rest);
        }
    }
}

/// Every secret whose name holds the term has its ID in the answer to a
/// search, and the answer holds one ID per such secret.
pub proof fn matching_ids_complete(
    secrets: Seq<(Seq<char>, Seq<char>)>,
    term: Seq<char>,
    i: int,
)
    requires
        0 <= i < secrets.len(),
        text_contains(secrets[i].1, term),
    ensures
        matching_ids(secrets, term).contains(secrets[i].0),
        matching_ids(secrets, term).len() == secrets.filter(name_holds(term)).len(),
{
    matching_ids_are_filtered_ids(secrets, term);
    assert(name_holds(term)(secrets[i]));
    secrets.lemma_filter_contains(name_holds(term), i);
    let kept = secrets.filter(name_holds(term));
    let k = choose|k: int| 0 <= k < kept.len() && kept[k] == secrets[i];
    assert(kept.map_values(secret_id())[k] == secrets[i].0);
}

/// Each ID in the answer to a search is the ID of a secret whose name holds
/// the term.
pub proof fn matching_ids_sound(secrets: Seq<(Seq<char>, Seq<char>)>, term: Seq<char>, j: int)
    requires
        0 <= j < matching_ids(secrets, term).len(),
    ensures
        exists|i: int|
            0 <= i < secrets.len() && text_contains(#[trigger] secrets[i].1, term)
                && secrets[i].0 == matching_ids(secrets, term)[j],
    decreases secrets.len(),
{
    let rest = matching_ids(secrets.drop_last(), term);
    if j < rest.len() {
        matching_ids_sound(secrets.drop_last(), term, j);
        let i = choose|i: int|
            0 <= i < secrets.drop_last().len() && text_contains(
                #[trigger] secrets.drop_last()[i].1,
                term,
            ) && secrets.drop_last()[i].0 == rest[j];
        assert(secrets[i] == secrets.drop_last()[i]);
    } else {
        let i = secrets.len() - 1;
        assert(text_contains(secrets[i].1, term));
    }
}

/// The answer to a List request for no secret is the empty array, and a
/// secret more adds one object to the end of the array: the object of that
/// secret, after a comma where the array held objects already.
pub proof fn secrets_json_push(secrets: Seq<(Seq<char>, Seq<char>)>, secret: (Seq<char>, Seq<char>))
    ensures
        secrets_json(Seq::empty()) == seq!['[', ']'],
        secrets_json(secrets.push(secret)) == if secrets.len() == 0 {
            seq!['['] + secret_json(secret) + seq![']']
        } else {
            secrets_json(secrets).drop_last() + seq![','] + secret_json(secret) + seq![']']
        },
{
    let f = |s: (Seq<char>, Seq<char>)| secret_json(s);
    assert(Seq::<(Seq<char>, Seq<char>)>::empty().map_values(f) =~= Seq::<Seq<char>>::empty());
    assert(json_array(Seq::<Seq<char>>::empty()) =~= seq!['[', ']']);
    let objects = secrets.map_values(f);
    assert(secrets.push(secret).map_values(f) =~= objects.push(secret_json(secret)));
    comma_joined_push(objects, secret_json(secret));
    if secrets.len() == 0 {
        assert(objects =~= Seq::<Seq<char>>::empty());
        assert(secrets_json(secrets.push(secret)) =~= seq!['['] + secret_json(secret) + seq![']']);
    } else {
        let inner = seq!['['] + comma_joined(objects);
        assert((inner + seq![']']).drop_last() =~= inner);
        assert(secrets_json(secrets.push(secret)) =~= inner + seq![','] + secret_json(secret)
            + seq![']']);
    }
}

/// The answer to a List request holds one object per secret, in order: it
/// is the array of the secrets' objects.
pub proof fn secrets_json_lists_each_secret(secrets: Seq<(Seq<char>, Seq<char>)>)
    ensures
        secrets_json(secrets) == seq!['['] + comma_joined(
            Seq::new(secrets.len(), |i: int| secret_json(secrets[i])),
        ) + seq![']'],
{
    let f = |s: (Seq<char>, Seq<char>)| secret_json(s);
    assert(secrets.map_values(f) =~= Seq::new(secrets.len(), |i: int| secret_json(secrets[i])));
}

/// Decoding the byte of an operation gives back that operation.
pub proof fn operation_byte_round_trip(op: OperationType)
    ensures
        operation_of_byte(operation_byte(op)) == Some(op),
{
}

/// A byte that decodes to an operation is the byte of that operation.
pub proof fn operation_byte_canonical(b: u8)
    ensures
        operation_of_byte(b) matches Some(op) ==> operation_byte(op) == b,
{
}

/// Decoding the byte of a status code gives back that status code.
pub proof fn status_byte_round_trip(code: StatusCode)
    ensures
        status_of_byte(status_byte(code)) == Some(code),
{
}

/// A byte that decodes to a status code is the byte of that status code.
pub proof fn status_byte_canonical(b: u8)
    ensures
        status_of_byte(b) matches Some(code) ==> status_byte(code) == b,
{
}

/// A request encoded with the current version decodes to the same operation
/// and payload.
pub proof fn request_round_trip(op: OperationType, payload: Seq<u8>)
    ensures
        frame_readable(frame(CURRENT_VERSION, operation_byte(op), payload)),
        request_decoding(frame(CURRENT_VERSION, operation_byte(op), payload)) == Ok::<
            (u8, OperationType, Seq<u8>),
            Seq<char>,
        >((CURRENT_VERSION, op, payload)),
{
    let bytes = frame(CURRENT_VERSION, operation_byte(op), payload);
    assert(bytes.skip(2) =~= payload);
}

/// A request frame that decodes is the encoding of what it decodes to.
pub proof fn request_decoding_canonical(bytes: Seq<u8>)
    requires
        frame_readable(bytes),
    ensures
        request_decoding(bytes) matches Ok((v, op, p)) ==> frame(v, operation_byte(op), p) == bytes,
{
    if request_decoding(bytes) is Ok {
        assert(frame(bytes[0], operation_byte(operation_of_byte(bytes[1])->0), bytes.skip(2))
            =~= bytes);
    }
}

/// A request frame of any other version is refused, whatever follows.
pub proof fn request_version_checked(version: u8, op: u8, payload: Seq<u8>)
    requires
        version != CURRENT_VERSION,
    ensures
        frame_readable(frame(version, op, payload)),
        request_decoding(frame(version, op, payload)) == Err::<(u8, OperationType, Seq<u8>), Seq<char>>(
            invalid_api_version_message(version),
        ),
{
}

/// A response encoded with the current version decodes to the same status
/// code and payload.
pub proof fn response_round_trip(code: StatusCode, payload: Seq<u8>)
    ensures
        frame_readable(frame(CURRENT_VERSION, status_byte(code), payload)),
        response_decoding(frame(CURRENT_VERSION, status_byte(code), payload)) == Ok::<
            (u8, StatusCode, Seq<u8>),
            Seq<char>,
        >((CURRENT_VERSION, code, payload)),
{
    let bytes = frame(CURRENT_VERSION, status_byte(code), payload);
    assert(bytes.skip(2) =~= payload);
}

/// A response frame that decodes is the encoding of what it decodes to.
pub proof fn response_decoding_canonical(bytes: Seq<u8>)
    requires
        frame_readable(bytes),
    ensures
        response_decoding(bytes) matches Ok((v, code, p)) ==> frame(v, status_byte(code), p)
            == bytes,
{
    if response_decoding(bytes) is Ok {
        assert(frame(bytes[0], status_byte(status_of_byte(bytes[1])->0), bytes.skip(2)) =~= bytes);
    }
}

/// A response frame of any other version is refused, whatever follows.
pub proof fn response_version_checked(version: u8, code: u8, payload: Seq<u8>)
    requires
        version != CURRENT_VERSION,
    ensures
        frame_readable(frame(version, code, payload)),
        response_decoding(frame(version, code, payload)) == Err::<(u8, StatusCode, Seq<u8>), Seq<char>>(
            invalid_version_message(version),
        ),
{
}

/// A request frame that carries another version than the current one is
/// refused by the decoder.
pub fn test_request_deserialization_invalid_version() {
    let mut bytes: Vec<u8> = Vec::new();
    bytes.push(CURRENT_VERSION - 1);
    bytes.push(OperationType::Search.to_byte());
    let request = Request::from_bytes(bytes.as_slice());
    assert(request is Err);
}

} // verus!
