//! The wire protocol: the four message kinds, the fixed five-byte header
//! (a 32-bit little-endian payload length and a one-byte kind tag), and the
//! binary encoding of each payload.
//!
//! Every multi-byte field is little-endian.  An optional value is a one-byte
//! presence flag followed by the value; a byte string is an 8-byte length
//! prefix followed by the raw bytes; a result is a one-byte tag (0 success,
//! 1 failure) followed by its text, UTF-8 encoded with a length prefix.

use vstd::prelude::*;

verus! {

use vstd::bytes::spec_u128_from_le_bytes;
use vstd::bytes::spec_u128_to_le_bytes;
use vstd::bytes::spec_u32_from_le_bytes;
use vstd::bytes::spec_u32_to_le_bytes;
use vstd::bytes::spec_u64_from_le_bytes;
use vstd::bytes::spec_u64_to_le_bytes;
use vstd::bytes::u128_from_le_bytes;
use vstd::bytes::u128_to_le_bytes;
use vstd::bytes::u32_from_le_bytes;
use vstd::bytes::u32_to_le_bytes;
use vstd::bytes::u64_from_le_bytes;
use vstd::bytes::u64_to_le_bytes;
use vstd::slice::slice_subrange;
use vstd::slice::slice_to_vec;
use vstd::utf8::decode_utf8;
use vstd::utf8::encode_utf8;
use vstd::utf8::encode_utf8_decode_utf8;
use vstd::utf8::encode_utf8_valid_utf8;
use vstd::utf8::valid_utf8;
use vstd::string::StringSliceAdditionalSpecFns;

/// Why a message could not be produced from bytes: the payload bytes were
/// malformed for the declared kind, or a read would overrun the configured
/// buffer ceiling.
#[derive(Clone, Copy, Debug, PartialEq, Eq, Structural)]
pub enum CodecError {
    Decode,
    MemoryLimit,
}

/// The discriminant naming which payload follows a header.
#[derive(Clone, Copy, Debug, PartialEq, Eq, Structural)]
pub enum MessageKind {
    Request,
    Challenge,
    Solution,
    Response,
}

/// Client-initiated request for a quote, optionally by index.
#[derive(Clone, Copy, Debug)]
pub struct Request {
    pub number: Option<usize>,
}

/// Server-generated puzzle: random bytes and the target bound.
#[derive(Debug)]
pub struct Challenge {
    pub session: u32,
    pub string: Vec<u8>,
    pub target: u128,
}

/// Client's claimed answer to a challenge.
#[derive(Clone, Copy, Debug)]
pub struct Solution {
    pub session: u32,
    pub nonce: u128,
}

/// Server's outcome for a session: the quote, or a protocol error text.
#[derive(Debug)]
pub struct Response {
    pub session: u32,
    pub result: Result<String, String>,
}

/// Fixed-layout prefix of every frame.
#[derive(Clone, Copy, Debug)]
pub struct Header {
    pub length: u32,
    pub kind: MessageKind,
}

/// A decoded message of any kind.
#[derive(Debug)]
pub enum DeserializedMessage {
    Request(Request),
    Challenge(Challenge),
    Solution(Solution),
    Response(Response),
}

/// The mathematical content of a `Challenge`.
#[verifier::ext_equal]
pub ghost struct ChallengeView {
    pub session: u32,
    pub string: Seq<u8>,
    pub target: u128,
}

impl View for Challenge {
    type V = ChallengeView;

    open spec fn view(&self) -> ChallengeView {
        ChallengeView { session: self.session, string: self.string@, target: self.target }
    }
}

/// The mathematical content of a `Response`.
#[verifier::ext_equal]
pub ghost struct ResponseView {
    pub session: u32,
    pub result: Result<Seq<char>, Seq<char>>,
}

impl View for Response {
    type V = ResponseView;

    open spec fn view(&self) -> ResponseView {
        ResponseView {
            session: self.session,
            result: match self.result {
                Ok(s) => Ok(s@),
                Err(s) => Err(s@),
            },
        }
    }
}

/// The mathematical content of a message of any kind.
#[verifier::ext_equal]
pub ghost enum MessageView {
    Request(Request),
    Challenge(ChallengeView),
    Solution(Solution),
    Response(ResponseView),
}

impl View for DeserializedMessage {
    type V = MessageView;

    open spec fn view(&self) -> MessageView {
        match self {
            DeserializedMessage::Request(r) => MessageView::Request(*r),
            DeserializedMessage::Challenge(c) => MessageView::Challenge(c@),
            DeserializedMessage::Solution(s) => MessageView::Solution(*s),
            DeserializedMessage::Response(r) => MessageView::Response(r@),
        }
    }
}

impl MessageKind {
    /// The tag byte of this kind on the wire.
    pub open spec fn spec_tag(self) -> u8 {
        match self {
            MessageKind::Request => 0,
            MessageKind::Challenge => 1,
            MessageKind::Solution => 2,
            MessageKind::Response => 3,
        }
    }

    /// The kind a tag byte names, if any.
    pub open spec fn spec_from_tag(t: u8) -> Option<MessageKind> {
        if t == 0 {
            Some(MessageKind::Request)
        } else if t == 1 {
            Some(MessageKind::Challenge)
        } else if t == 2 {
            Some(MessageKind::Solution)
        } else if t == 3 {
            Some(MessageKind::Response)
        } else {
            None
        }
    }

    pub fn tag(self) -> (t: u8)
        ensures
            t == self.spec_tag(),
    {
        match self {
            MessageKind::Request => 0,
            MessageKind::Challenge => 1,
            MessageKind::Solution => 2,
            MessageKind::Response => 3,
        }
    }

    pub fn from_tag(t: u8) -> (k: Option<MessageKind>)
        ensures
            k == MessageKind::spec_from_tag(t),
    {
        if t == 0 {
            Some(MessageKind::Request)
        } else if t == 1 {
            Some(MessageKind::Challenge)
        } else if t == 2 {
            Some(MessageKind::Solution)
        } else if t == 3 {
            Some(MessageKind::Response)
        } else {
            None
        }
    }
}

// ---------------------------------------------------------------------------
// Encoding
// ---------------------------------------------------------------------------

/// Wire bytes of a `Request`: a presence flag, then the index as 8 bytes.
pub open spec fn spec_encode_request(r: Request) -> Seq<u8> {
    match r.number {
        None => seq![0u8],
        Some(n) => seq![1u8] + spec_u64_to_le_bytes(n as u64),
    }
}

/// Wire bytes of a `Challenge`: session, length-prefixed string, target.
pub open spec fn spec_encode_challenge(c: ChallengeView) -> Seq<u8> {
    spec_u32_to_le_bytes(c.session) + spec_u64_to_le_bytes(c.string.len() as u64) + c.string
        + spec_u128_to_le_bytes(c.target)
}

/// Wire bytes of a `Solution`: session, then the nonce.
pub open spec fn spec_encode_solution(s: Solution) -> Seq<u8> {
    spec_u32_to_le_bytes(s.session) + spec_u128_to_le_bytes(s.nonce)
}

/// Wire bytes of a text: an 8-byte length prefix over the UTF-8 encoding.
pub open spec fn spec_encode_text(s: Seq<char>) -> Seq<u8> {
    spec_u64_to_le_bytes(encode_utf8(s).len() as u64) + encode_utf8(s)
}

/// Wire bytes of a `Response`: session, result tag, then the text.
pub open spec fn spec_encode_response(r: ResponseView) -> Seq<u8> {
    spec_u32_to_le_bytes(r.session) + match r.result {
        Ok(s) => seq![0u8] + spec_encode_text(s),
        Err(s) => seq![1u8] + spec_encode_text(s),
    }
}

/// The kind of a message value.
pub open spec fn spec_kind_of(m: MessageView) -> MessageKind {
    match m {
        MessageView::Request(_) => MessageKind::Request,
        MessageView::Challenge(_) => MessageKind::Challenge,
        MessageView::Solution(_) => MessageKind::Solution,
        MessageView::Response(_) => MessageKind::Response,
    }
}

/// Wire bytes of the payload of a message of any kind.
pub open spec fn spec_encode_message(m: MessageView) -> Seq<u8> {
    match m {
        MessageView::Request(r) => spec_encode_request(r),
        MessageView::Challenge(c) => spec_encode_challenge(c),
        MessageView::Solution(s) => spec_encode_solution(s),
        MessageView::Response(r) => spec_encode_response(r),
    }
}

// ---------------------------------------------------------------------------
// Decoding
// ---------------------------------------------------------------------------

/// The `Request` a payload holds, or nothing if the bytes are malformed.
pub open spec fn spec_decode_request(b: Seq<u8>) -> Option<Request> {
    if b.len() == 1 && b[0] == 0 {
        Some(Request { number: None })
    } else if b.len() == 9 && b[0] == 1 && spec_u64_from_le_bytes(b.subrange(1, 9))
        <= usize::MAX {
        Some(Request { number: Some(spec_u64_from_le_bytes(b.subrange(1, 9)) as usize) })
    } else {
        None
    }
}

/// The `Challenge` a payload holds, or nothing if the bytes are malformed.
pub open spec fn spec_decode_challenge(b: Seq<u8>) -> Option<ChallengeView> {
    if b.len() >= 28 && b.len() == 28 + spec_u64_from_le_bytes(b.subrange(4, 12)) {
        let n = spec_u64_from_le_bytes(b.subrange(4, 12)) as int;
        Some(
            ChallengeView {
                session: spec_u32_from_le_bytes(b.subrange(0, 4)),
                string: b.subrange(12, 12 + n),
                target: spec_u128_from_le_bytes(b.subrange(12 + n, 28 + n)),
            },
        )
    } else {
        None
    }
}

/// The `Solution` a payload holds, or nothing if the bytes are malformed.
pub open spec fn spec_decode_solution(b: Seq<u8>) -> Option<Solution> {
    if b.len() == 20 {
        Some(
            Solution {
                session: spec_u32_from_le_bytes(b.subrange(0, 4)),
                nonce: spec_u128_from_le_bytes(b.subrange(4, 20)),
            },
        )
    } else {
        None
    }
}

/// The `Response` a payload holds, or nothing if the bytes are malformed.
pub open spec fn spec_decode_response(b: Seq<u8>) -> Option<ResponseView> {
    if b.len() >= 13 && (b[4] == 0 || b[4] == 1) && b.len() == 13 + spec_u64_from_le_bytes(
        b.subrange(5, 13),
    ) && valid_utf8(b.subrange(13, b.len() as int)) {
        let text = decode_utf8(b.subrange(13, b.len() as int));
        Some(
            ResponseView {
                session: spec_u32_from_le_bytes(b.subrange(0, 4)),
                result: if b[4] == 0 {
                    Ok(text)
                } else {
                    Err(text)
                },
            },
        )
    } else {
        None
    }
}

/// The message a payload holds for a given kind tag.
pub open spec fn spec_decode_message(k: MessageKind, b: Seq<u8>) -> Option<MessageView> {
    match k {
        MessageKind::Request => match spec_decode_request(b) {
            Some(r) => Some(MessageView::Request(r)),
            None => None,
        },
        MessageKind::Challenge => match spec_decode_challenge(b) {
            Some(c) => Some(MessageView::Challenge(c)),
            None => None,
        },
        MessageKind::Solution => match spec_decode_solution(b) {
            Some(s) => Some(MessageView::Solution(s)),
            None => None,
        },
        MessageKind::Response => match spec_decode_response(b) {
            Some(r) => Some(MessageView::Response(r)),
            None => None,
        },
    }
}

// ---------------------------------------------------------------------------
// Executable encoding
// ---------------------------------------------------------------------------

/// A payload type that can be put on the wire and lifted into a
/// `DeserializedMessage`.
pub trait Serializeable: Sized {
    /// The kind tag under which this payload travels.
    spec fn spec_kind() -> MessageKind;

    /// The exact wire bytes of this payload.
    spec fn spec_encoded(&self) -> Seq<u8>;

    /// This payload as a message value.
    spec fn spec_message(&self) -> MessageView;

    /// The two spec views agree: the message carries this payload's kind
    /// and encodes to this payload's bytes.
    proof fn lemma_message_consistent(&self)
        ensures
            spec_kind_of(self.spec_message()) == Self::spec_kind(),
            spec_encode_message(self.spec_message()) == self.spec_encoded(),
    ;

    fn kind(&self) -> (k: MessageKind)
        ensures
            k == Self::spec_kind(),
    ;

    fn encode(&self) -> (b: Vec<u8>)
        ensures
            b@ == self.spec_encoded(),
    ;

    fn into_message(self) -> (m: DeserializedMessage)
        ensures
            m@ == self.spec_message(),
    ;
}

impl Serializeable for Request {
    open spec fn spec_kind() -> MessageKind {
        MessageKind::Request
    }

    open spec fn spec_encoded(&self) -> Seq<u8> {
        spec_encode_request(*self)
    }

    open spec fn spec_message(&self) -> MessageView {
        MessageView::Request(*self)
    }

    proof fn lemma_message_consistent(&self) {
    }

    fn kind(&self) -> MessageKind {
        MessageKind::Request
    }

    fn encode(&self) -> (b: Vec<u8>) {
        let mut out: Vec<u8> = Vec::new();
        match self.number {
            None => {
                out.push(0);
                assert(out@ =~= spec_encode_request(*self));
            },
            Some(n) => {
                out.push(1);
                let mut nb = u64_to_le_bytes(n as u64);
                out.append(&mut nb);
                assert(out@ =~= spec_encode_request(*self));
            },
        }
        out
    }

    fn into_message(self) -> DeserializedMessage {
        DeserializedMessage::Request(self)
    }
}

impl Serializeable for Challenge {
    open spec fn spec_kind() -> MessageKind {
        MessageKind::Challenge
    }

    open spec fn spec_encoded(&self) -> Seq<u8> {
        spec_encode_challenge(self@)
    }

    open spec fn spec_message(&self) -> MessageView {
        MessageView::Challenge(self@)
    }

    proof fn lemma_message_consistent(&self) {
    }

    fn kind(&self) -> MessageKind {
        MessageKind::Challenge
    }

    fn encode(&self) -> (b: Vec<u8>) {
        let mut out = u32_to_le_bytes(self.session);
        let mut lb = u64_to_le_bytes(self.string.len() as u64);
        out.append(&mut lb);
        let mut sb = slice_to_vec(self.string.as_slice());
        out.append(&mut sb);
        let mut tb = u128_to_le_bytes(self.target);
        out.append(&mut tb);
        assert(out@ =~= spec_encode_challenge(self@));
        out
    }

    fn into_message(self) -> DeserializedMessage {
        DeserializedMessage::Challenge(self)
    }
}

impl Serializeable for Solution {
    open spec fn spec_kind() -> MessageKind {
        MessageKind::Solution
    }

    open spec fn spec_encoded(&self) -> Seq<u8> {
        spec_encode_solution(*self)
    }

    open spec fn spec_message(&self) -> MessageView {
        MessageView::Solution(*self)
    }

    proof fn lemma_message_consistent(&self) {
    }

    fn kind(&self) -> MessageKind {
        MessageKind::Solution
    }

    fn encode(&self) -> (b: Vec<u8>) {
        let mut out = u32_to_le_bytes(self.session);
        let mut nb = u128_to_le_bytes(self.nonce);
        out.append(&mut nb);
        assert(out@ =~= spec_encode_solution(*self));
        out
    }

    fn into_message(self) -> DeserializedMessage {
        DeserializedMessage::Solution(self)
    }
}

impl Serializeable for Response {
    open spec fn spec_kind() -> MessageKind {
        MessageKind::Response
    }

    open spec fn spec_encoded(&self) -> Seq<u8> {
        spec_encode_response(self@)
    }

    open spec fn spec_message(&self) -> MessageView {
        MessageView::Response(self@)
    }

    proof fn lemma_message_consistent(&self) {
    }

    fn kind(&self) -> MessageKind {
        MessageKind::Response
    }

    fn encode(&self) -> (b: Vec<u8>) {
        let mut out = u32_to_le_bytes(self.session);
        let text: &String = match &self.result {
            Ok(s) => {
                out.push(0);
                s
            },
            Err(s) => {
                out.push(1);
                s
            },
        };
        let bytes = text.as_str().as_bytes();
        let mut lb = u64_to_le_bytes(bytes.len() as u64);
        out.append(&mut lb);
        let mut sb = slice_to_vec(bytes);
        out.append(&mut sb);
        assert(out@ =~= spec_encode_response(self@));
        out
    }

    fn into_message(self) -> DeserializedMessage {
        DeserializedMessage::Response(self)
    }
}

// ---------------------------------------------------------------------------
// Executable decoding
// ---------------------------------------------------------------------------

/// Relies on `String::from_utf8`: it succeeds exactly when the bytes are a
/// valid UTF-8 encoding, and then the string's characters decode those bytes.
#[verifier::external_body]
fn string_from_utf8(bytes: Vec<u8>) -> (r: Option<String>)
    ensures
        r is Some <==> valid_utf8(bytes@),
        r matches Some(s) ==> s@ == decode_utf8(bytes@),
{
    String::from_utf8(bytes).ok()
}

fn decode_request(bytes: &[u8]) -> (r: Result<Request, CodecError>)
    ensures
        r matches Ok(m) ==> spec_decode_request(bytes@) == Some(m),
        r matches Err(e) ==> spec_decode_request(bytes@) is None && e == CodecError::Decode,
{
    let len = bytes.len();
    if len == 1 && bytes[0] == 0 {
        Ok(Request { number: None })
    } else if len == 9 && bytes[0] == 1 {
        let v = u64_from_le_bytes(slice_subrange(bytes, 1, 9));
        if v <= usize::MAX as u64 {
            Ok(Request { number: Some(v as usize) })
        } else {
            Err(CodecError::Decode)
        }
    } else {
        Err(CodecError::Decode)
    }
}

fn decode_challenge(bytes: &[u8]) -> (r: Result<Challenge, CodecError>)
    ensures
        r matches Ok(m) ==> spec_decode_challenge(bytes@) == Some(m@),
        r matches Err(e) ==> spec_decode_challenge(bytes@) is None && e == CodecError::Decode,
{
    let len = bytes.len();
    if len < 28 {
        return Err(CodecError::Decode);
    }
    let n64 = u64_from_le_bytes(slice_subrange(bytes, 4, 12));
    if n64 > (usize::MAX as u64 - 28) || len != 28 + (n64 as usize) {
        return Err(CodecError::Decode);
    }
    let n = n64 as usize;
    let session = u32_from_le_bytes(slice_subrange(bytes, 0, 4));
    let string = slice_to_vec(slice_subrange(bytes, 12, 12 + n));
    let target = u128_from_le_bytes(slice_subrange(bytes, 12 + n, 28 + n));
    Ok(Challenge { session, string, target })
}

fn decode_solution(bytes: &[u8]) -> (r: Result<Solution, CodecError>)
    ensures
        r matches Ok(m) ==> spec_decode_solution(bytes@) == Some(m),
        r matches Err(e) ==> spec_decode_solution(bytes@) is None && e == CodecError::Decode,
{
    let len = bytes.len();
    if len != 20 {
        return Err(CodecError::Decode);
    }
    let session = u32_from_le_bytes(slice_subrange(bytes, 0, 4));
    let nonce = u128_from_le_bytes(slice_subrange(bytes, 4, 20));
    Ok(Solution { session, nonce })
}

fn decode_response(bytes: &[u8]) -> (r: Result<Response, CodecError>)
    ensures
        r matches Ok(m) ==> spec_decode_response(bytes@) == Some(m@),
        r matches Err(e) ==> spec_decode_response(bytes@) is None && e == CodecError::Decode,
{
    let len = bytes.len();
    if len < 13 {
        return Err(CodecError::Decode);
    }
    let tag = bytes[4];
    if tag != 0 && tag != 1 {
        return Err(CodecError::Decode);
    }
    let n64 = u64_from_le_bytes(slice_subrange(bytes, 5, 13));
    if n64 > (usize::MAX as u64 - 13) || len != 13 + (n64 as usize) {
        return Err(CodecError::Decode);
    }
    let session = u32_from_le_bytes(slice_subrange(bytes, 0, 4));
    let text_bytes = slice_to_vec(slice_subrange(bytes, 13, len));
    match string_from_utf8(text_bytes) {
        Some(text) => Ok(
            Response {
                session,
                result: if tag == 0 {
                    Ok(text)
                } else {
                    Err(text)
                },
            },
        ),
        None => Err(CodecError::Decode),
    }
}

impl MessageKind {
    /// Decodes a payload of this kind, failing on malformed bytes.
    pub fn parse_from_bytes(&self, bytes: &[u8]) -> (r: Result<
        DeserializedMessage,
        CodecError,
    >)
        ensures
            r matches Ok(m) ==> spec_decode_message(*self, bytes@) == Some(m@),
            r matches Err(e) ==> spec_decode_message(*self, bytes@) is None && e
                == CodecError::Decode,
    {
        match self {
            MessageKind::Request => match decode_request(bytes) {
                Ok(m) => Ok(DeserializedMessage::Request(m)),
                Err(e) => Err(e),
            },
            MessageKind::Challenge => match decode_challenge(bytes) {
                Ok(m) => Ok(DeserializedMessage::Challenge(m)),
                Err(e) => Err(e),
            },
            MessageKind::Solution => match decode_solution(bytes) {
                Ok(m) => Ok(DeserializedMessage::Solution(m)),
                Err(e) => Err(e),
            },
            MessageKind::Response => match decode_response(bytes) {
                Ok(m) => Ok(DeserializedMessage::Response(m)),
                Err(e) => Err(e),
            },
        }
    }
}

// ---------------------------------------------------------------------------
// The header
// ---------------------------------------------------------------------------

/// Wire bytes of a header: the payload length, then the kind tag.
pub open spec fn spec_encode_header(h: Header) -> Seq<u8> {
    spec_u32_to_le_bytes(h.length) + seq![h.kind.spec_tag()]
}

/// The header five bytes hold, or nothing on an unknown tag.
pub open spec fn spec_decode_header(b: Seq<u8>) -> Option<Header> {
    if b.len() == 5 {
        match MessageKind::spec_from_tag(b[4]) {
            Some(k) => Some(Header { length: spec_u32_from_le_bytes(b.subrange(0, 4)), kind: k }),
            None => None,
        }
    } else {
        None
    }
}

impl Header {
    pub fn encode(&self) -> (b: Vec<u8>)
        ensures
            b@ == spec_encode_header(*self),
            b@.len() == 5,
    {
        let mut out = u32_to_le_bytes(self.length);
        out.push(self.kind.tag());
        proof {
            vstd::bytes::lemma_auto_spec_u32_to_from_le_bytes();
            assert(out@ =~= spec_encode_header(*self));
        }
        out
    }

    pub fn decode(bytes: &[u8]) -> (r: Result<Header, CodecError>)
        ensures
            r matches Ok(h) ==> spec_decode_header(bytes@) == Some(h),
            r matches Err(e) ==> spec_decode_header(bytes@) is None && e == CodecError::Decode,
    {
        if bytes.len() != 5 {
            return Err(CodecError::Decode);
        }
        let length = u32_from_le_bytes(slice_subrange(bytes, 0, 4));
        match MessageKind::from_tag(bytes[4]) {
            Some(kind) => Ok(Header { length, kind }),
            None => Err(CodecError::Decode),
        }
    }
}

/// A header round-trips: decoding the five encoded bytes gives the header
/// back.
pub proof fn lemma_header_round_trip(h: Header)
    ensures
        spec_decode_header(spec_encode_header(h)) == Some(h),
{
    vstd::bytes::lemma_auto_spec_u32_to_from_le_bytes();
    let e = spec_encode_header(h);
    assert(e.subrange(0, 4) =~= spec_u32_to_le_bytes(h.length));
    assert(e[4] == h.kind.spec_tag());
}

// ---------------------------------------------------------------------------
// A framed message
// ---------------------------------------------------------------------------

/// A payload together with the header that will precede it on the wire.
pub struct Message<T> {
    header: Header,
    payload: T,
}

impl<T: Serializeable> Message<T> {
    /// Frames a payload: the header records the payload's kind and its
    /// exact encoded byte count.
    pub fn new(payload: T) -> (m: Self)
        requires
            payload.spec_encoded().len() <= u32::MAX,
        ensures
            m.spec_header() == (Header {
                length: payload.spec_encoded().len() as u32,
                kind: T::spec_kind(),
            }),
            m.spec_payload() == payload,
    {
        let length = payload.encode().len() as u32;
        let kind = payload.kind();
        let header = Header { length, kind };
        Message { header, payload }
    }
}

impl<T> Message<T> {
    /// The header of this message.
    pub closed spec fn spec_header(&self) -> Header {
        self.header
    }

    /// The payload of this message.
    pub closed spec fn spec_payload(&self) -> T {
        self.payload
    }

    pub fn header(&self) -> (h: &Header)
        ensures
            *h == self.spec_header(),
    {
        &self.header
    }

    pub fn payload(&self) -> (p: &T)
        ensures
            *p == self.spec_payload(),
    {
        &self.payload
    }
}

// ---------------------------------------------------------------------------
// Round trips
// ---------------------------------------------------------------------------

/// The length prefixes a message's encoding would carry fit the machine:
/// true of every message built from executable values.
pub open spec fn spec_message_fits(m: MessageView) -> bool {
    match m {
        MessageView::Request(_) => true,
        MessageView::Challenge(c) => c.string.len() <= usize::MAX - 28,
        MessageView::Solution(_) => true,
        MessageView::Response(r) => match r.result {
            Ok(s) => encode_utf8(s).len() <= usize::MAX - 13,
            Err(s) => encode_utf8(s).len() <= usize::MAX - 13,
        },
    }
}

pub proof fn lemma_request_round_trip(r: Request)
    ensures
        spec_decode_request(spec_encode_request(r)) == Some(r),
{
    vstd::bytes::lemma_auto_spec_u64_to_from_le_bytes();
    let e = spec_encode_request(r);
    match r.number {
        None => {
        },
        Some(n) => {
            assert(e.subrange(1, 9) =~= spec_u64_to_le_bytes(n as u64));
        },
    }
}

pub proof fn lemma_challenge_round_trip(c: ChallengeView)
    requires
        c.string.len() <= usize::MAX - 28,
    ensures
        spec_decode_challenge(spec_encode_challenge(c)) == Some(c),
{
    vstd::bytes::lemma_auto_spec_u32_to_from_le_bytes();
    vstd::bytes::lemma_auto_spec_u64_to_from_le_bytes();
    vstd::bytes::lemma_auto_spec_u128_to_from_le_bytes();
    let e = spec_encode_challenge(c);
    let n = c.string.len() as int;
    assert(e.subrange(0, 4) =~= spec_u32_to_le_bytes(c.session));
    assert(e.subrange(4, 12) =~= spec_u64_to_le_bytes(c.string.len() as u64));
    assert(e.subrange(12, 12 + n) =~= c.string);
    assert(e.subrange(12 + n, 28 + n) =~= spec_u128_to_le_bytes(c.target));
    assert(spec_decode_challenge(e) matches Some(d) && d =~= c);
}

pub proof fn lemma_solution_round_trip(s: Solution)
    ensures
        spec_decode_solution(spec_encode_solution(s)) == Some(s),
{
    vstd::bytes::lemma_auto_spec_u32_to_from_le_bytes();
    vstd::bytes::lemma_auto_spec_u128_to_from_le_bytes();
    let e = spec_encode_solution(s);
    assert(e.subrange(0, 4) =~= spec_u32_to_le_bytes(s.session));
    assert(e.subrange(4, 20) =~= spec_u128_to_le_bytes(s.nonce));
}

pub proof fn lemma_response_round_trip(r: ResponseView)
    requires
        (match r.result {
            Ok(s) => encode_utf8(s).len() <= usize::MAX - 13,
            Err(s) => encode_utf8(s).len() <= usize::MAX - 13,
        }),
    ensures
        spec_decode_response(spec_encode_response(r)) == Some(r),
{
    vstd::bytes::lemma_auto_spec_u32_to_from_le_bytes();
    vstd::bytes::lemma_auto_spec_u64_to_from_le_bytes();
    let e = spec_encode_response(r);
    let text = match r.result {
        Ok(s) => s,
        Err(s) => s,
    };
    let tb = encode_utf8(text);
    let n = tb.len() as int;
    encode_utf8_valid_utf8(text);
    encode_utf8_decode_utf8(text);
    assert(e.subrange(0, 4) =~= spec_u32_to_le_bytes(r.session));
    assert(e[4] == (match r.result {
        Ok(_) => 0u8,
        Err(_) => 1u8,
    }));
    assert(e.subrange(5, 13) =~= spec_u64_to_le_bytes(tb.len() as u64));
    assert(e.subrange(13, e.len() as int) =~= tb);
    assert(spec_decode_response(e) matches Some(d) && d =~= r);
}

/// For every message variant, decoding an encoded message under its own
/// kind tag gives the message back, field for field.
pub proof fn lemma_message_round_trip(m: MessageView)
    requires
        spec_message_fits(m),
    ensures
        spec_decode_message(spec_kind_of(m), spec_encode_message(m)) == Some(m),
{
    match m {
        MessageView::Request(r) => lemma_request_round_trip(r),
        MessageView::Challenge(c) => lemma_challenge_round_trip(c),
        MessageView::Solution(s) => lemma_solution_round_trip(s),
        MessageView::Response(r) => lemma_response_round_trip(r),
    }
}

} // verus!
