use bytecodec::DecodeExt;
use bytecodec::EncodeExt;
use iplookup::codec::build_request;
use iplookup::codec::process_datagram;
use iplookup::codec::ResponseError;
use iplookup::message::ValidationError;
use std::collections::HashSet;
use stun_codec::rfc5389::attributes::MappedAddress;
use stun_codec::rfc5389::attributes::XorMappedAddress;
use stun_codec::rfc5389::methods;
use stun_codec::rfc5389::Attribute;
use stun_codec::Message;
use stun_codec::MessageClass;
use stun_codec::MessageDecoder;
use stun_codec::MessageEncoder;
use stun_codec::TransactionId;

fn encode_response(tid: [u8; 12], attrs: Vec<Attribute>) -> Vec<u8> {
    let mut msg = Message::<Attribute>::new(
        MessageClass::SuccessResponse,
        methods::BINDING,
        TransactionId::new(tid),
    );
    for a in attrs {
        msg.add_attribute(a);
    }
    MessageEncoder::new().encode_into_bytes(msg).unwrap()
}

#[test]
fn built_request_is_a_binding_request_with_its_id() {
    let b = build_request().unwrap();
    let mut dec = MessageDecoder::<Attribute>::new();
    let msg = dec.decode_from_bytes(&b.bytes).unwrap().unwrap();
    assert_eq!(msg.class(), MessageClass::Request);
    assert_eq!(msg.method(), methods::BINDING);
    assert_eq!(msg.transaction_id().as_bytes(), &b.transaction_id);
    assert_eq!(msg.attributes().count(), 0);
}

#[test]
fn transaction_ids_have_no_collisions() {
    let mut seen = HashSet::new();
    for _ in 0..10_000 {
        let b = build_request().unwrap();
        assert!(seen.insert(b.transaction_id), "transaction id repeated");
    }
}

#[test]
fn xor_mapped_address_survives_the_codec() {
    let tid = [5u8; 12];
    let bytes = encode_response(
        tid,
        vec![Attribute::XorMappedAddress(XorMappedAddress::new(
            "203.0.113.5:54321".parse().unwrap(),
        ))],
    );
    let got = process_datagram(&bytes, &tid).unwrap();
    assert_eq!(got.ip, "203.0.113.5");
    assert_eq!(got.port, 54321);
}

#[test]
fn first_address_attribute_wins_through_the_codec() {
    let tid = [6u8; 12];
    let bytes = encode_response(
        tid,
        vec![
            Attribute::MappedAddress(MappedAddress::new("192.0.2.1:1111".parse().unwrap())),
            Attribute::XorMappedAddress(XorMappedAddress::new(
                "203.0.113.5:54321".parse().unwrap(),
            )),
        ],
    );
    let got = process_datagram(&bytes, &tid).unwrap();
    assert_eq!(got.ip, "192.0.2.1");
    assert_eq!(got.port, 1111);
}

#[test]
fn stale_transaction_id_is_rejected_even_when_decodable() {
    let bytes = encode_response(
        [1u8; 12],
        vec![Attribute::XorMappedAddress(XorMappedAddress::new(
            "203.0.113.5:54321".parse().unwrap(),
        ))],
    );
    match process_datagram(&bytes, &[2u8; 12]) {
        Err(ResponseError::Invalid(ValidationError::TransactionMismatch { received, sent })) => {
            assert_eq!(received, [1u8; 12]);
            assert_eq!(sent, [2u8; 12]);
        }
        other => panic!("expected a transaction mismatch, got {:?}", other),
    }
}

#[test]
fn response_without_address_attribute_is_rejected() {
    let tid = [9u8; 12];
    let bytes = encode_response(tid, vec![]);
    match process_datagram(&bytes, &tid) {
        Err(ResponseError::Invalid(ValidationError::NoAddressAttribute { response })) => {
            assert_eq!(response.transaction_id, tid);
            assert_eq!(response.attributes.len(), 0);
        }
        other => panic!("expected a missing-attribute error, got {:?}", other),
    }
}

#[test]
fn garbage_bytes_are_a_codec_error() {
    let r = process_datagram(&vec![1, 2, 3], &[0u8; 12]);
    assert!(matches!(r, Err(ResponseError::Codec(_))));
}
