//! The boundary to the wire codec and the random source. The codec is a
//! black box: encoding a binding request and decoding a response are each
//! reached through one trusted wrapper whose result is tied to an
//! uninterpreted name, so that everything downstream of the calls is
//! verified against those names.

use vstd::prelude::*;

use bytecodec::DecodeExt;
use bytecodec::EncodeExt;
use rand::Rng;
use stun_codec::rfc5389::Attribute as WireAttribute;

verus! {

use crate::message::Attr;
use crate::message::IpPort;
use crate::message::Response;
use crate::message::ResponseModel;
use crate::message::ValidationError;
use crate::message::extract_address;
use crate::message::extract_spec;

/// Why a request could not be built.
#[derive(Clone, Copy, Debug, PartialEq, Eq)]
pub enum BuildError {
    /// The random source failed to yield the transaction id.
    Entropy,
    /// The codec failed to serialize the request.
    Encoding,
}

/// Why a datagram could not be decoded into a response.
#[derive(Clone, Copy, Debug, PartialEq, Eq)]
pub enum DecodeFailure {
    /// The bytes do not form a STUN message.
    Malformed,
    /// The bytes form a STUN message that the codec reports as broken.
    Broken,
}

/// Why a received datagram yielded no address.
#[derive(Debug)]
pub enum ResponseError {
    /// The datagram could not be decoded.
    Codec(DecodeFailure),
    /// The decoded response was rejected.
    Invalid(ValidationError),
}

/// The bytes that the codec produces for a binding request carrying the
/// given transaction id. The encoder draws on nothing else, so this is a
/// function of the id alone; nothing further is assumed about its value.
pub uninterp spec fn request_encoding(tid: Seq<u8>) -> Seq<u8>;

/// What the codec makes of the given bytes: a decoded response or the exact
/// failure. Decoding consumes the bytes alone, so this is a function of
/// them; nothing further is assumed about its value.
pub uninterp spec fn decoding_of(bytes: Seq<u8>) -> Result<ResponseModel, DecodeFailure>;

/// Relies on rand's `thread_rng` and `Rng::try_fill` to draw twelve bytes
/// from a uniformly random source. Nothing is promised of the drawn value —
/// two calls may differ — and `None` comes only when the generator reports a
/// failure.
#[verifier::external_body]
fn random_transaction_id() -> (r: Option<[u8; 12]>) {
    let mut buf = [0u8; 12];
    match rand::thread_rng().try_fill(&mut buf) {
        Ok(()) => Some(buf),
        Err(_) => None,
    }
}

/// Relies on stun_codec's `MessageEncoder` and bytecodec's
/// `encode_into_bytes`: serializing a binding request (class Request, method
/// Binding, no attributes) is deterministic in the transaction id, so a
/// successful result is `request_encoding` of it; `None` comes only when the
/// encoder reports a failure.
#[verifier::external_body]
fn encode_binding_request(tid: &[u8; 12]) -> (r: Option<Vec<u8>>)
    ensures
        r matches Some(b) ==> b@ == request_encoding(tid@),
{
    let id = stun_codec::TransactionId::new(*tid);
    let message = stun_codec::Message::<WireAttribute>::new(
        stun_codec::MessageClass::Request,
        stun_codec::rfc5389::methods::BINDING,
        id,
    );
    stun_codec::MessageEncoder::new().encode_into_bytes(message).ok()
}

/// Declares stun_codec's attribute set so that it can be handed to
/// `wire_attr`; nothing inside a value of it is visible here.
#[verifier::external_type_specification]
#[verifier::external_body]
pub struct ExWireAttribute(WireAttribute);

/// Relies on the `address` accessors of stun_codec's three mapped-address
/// attribute kinds to read the decoded socket address; every other attribute
/// kind becomes `Attr::Other`. Nothing is assumed of the result here: it is
/// `decode_datagram` whose contract covers the composition.
#[verifier::external_body]
fn wire_attr(a: &WireAttribute) -> (r: Attr) {
    match a {
        WireAttribute::MappedAddress(x) => Attr::Mapped(IpPort { ip: x.address().ip().to_string(), port: x.address().port() }),
        WireAttribute::XorMappedAddress(x) => Attr::XorMapped(IpPort { ip: x.address().ip().to_string(), port: x.address().port() }),
        WireAttribute::XorMappedAddress2(x) => Attr::XorMapped2(IpPort { ip: x.address().ip().to_string(), port: x.address().port() }),
        _ => Attr::Other,
    }
}

/// Relies on stun_codec's `MessageDecoder` and bytecodec's
/// `decode_from_bytes`: decoding consumes the bytes alone, so the outcome is
/// `decoding_of` them. The attributes are converted one by one through
/// `wire_attr`.
#[verifier::external_body]
fn decode_datagram(data: &Vec<u8>) -> (r: Result<Response, DecodeFailure>)
    ensures
        decoding_of(data@) == (match r {
            Ok(resp) => Ok::<ResponseModel, DecodeFailure>(resp@),
            Err(f) => Err::<ResponseModel, DecodeFailure>(f),
        }),
{
    let message = match stun_codec::MessageDecoder::<WireAttribute>::new().decode_from_bytes(data.as_slice()) {
        Ok(Ok(m)) => m,
        Ok(Err(_)) => return Err(DecodeFailure::Broken),
        Err(_) => return Err(DecodeFailure::Malformed),
    };
    let attributes = message.attributes().map(wire_attr).collect();
    Ok(Response { transaction_id: *message.transaction_id().as_bytes(), attributes })
}

/// A request ready to send: the transaction id it carries and its serialized
/// bytes.
#[derive(Debug)]
pub struct BuiltRequest {
    pub transaction_id: [u8; 12],
    pub bytes: Vec<u8>,
}

/// Builds a binding request with a fresh random transaction id. On success
/// the bytes are exactly the codec's encoding of that id, so sending them
/// again retransmits the identical request.
pub fn build_request() -> (r: Result<BuiltRequest, BuildError>)
    ensures
        r matches Ok(b) ==> b.bytes@ == request_encoding(b.transaction_id@),
{
    let tid = match random_transaction_id() {
        Some(t) => t,
        None => {
            return Err(BuildError::Entropy);
        },
    };
    match encode_binding_request(&tid) {
        Some(bytes) => Ok(BuiltRequest { transaction_id: tid, bytes }),
        None => Err(BuildError::Encoding),
    }
}

/// Whether the executable result `r` denotes the outcome that decoding `d`
/// and then extracting against `sent` prescribes.
pub open spec fn datagram_outcome_matches(
    r: Result<IpPort, ResponseError>,
    d: Result<ResponseModel, DecodeFailure>,
    sent: Seq<u8>,
) -> bool {
    match d {
        Err(f) => r == Err::<IpPort, ResponseError>(ResponseError::Codec(f)),
        Ok(rm) => match extract_spec(rm, sent) {
            Ok(pm) => r matches Ok(p) && p@ == pm,
            Err(em) => r matches Err(ResponseError::Invalid(v)) && v@ == em,
        },
    }
}

/// Decodes a received datagram, validates it against the sent transaction
/// id, and extracts the mapped address of the first recognized address
/// attribute.
pub fn process_datagram(data: &Vec<u8>, sent_id: &[u8; 12]) -> (r: Result<IpPort, ResponseError>)
    ensures
        datagram_outcome_matches(r, decoding_of(data@), sent_id@),
{
    let response = match decode_datagram(data) {
        Ok(resp) => resp,
        Err(f) => {
            return Err(ResponseError::Codec(f));
        },
    };
    match extract_address(response, sent_id) {
        Ok(p) => Ok(p),
        Err(v) => Err(ResponseError::Invalid(v)),
    }
}

} // verus!
