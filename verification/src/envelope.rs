//! The binary envelope around the serialized upstream message: a fixed
//! protocol marker, three length-prefixed identity strings, a request
//! code, and the length-prefixed payload, all integers big-endian.
//!
//! The reply's framing is also handled here: a fixed 10-byte header is
//! stripped before the remaining bytes are parsed as the response
//! message, and a reply of 10 bytes or fewer counts as "no data".

use vstd::prelude::*;

verus! {

/// Big-endian bytes of a 16-bit value.
pub open spec fn be16(n: u16) -> Seq<u8> {
    seq![(n / 256) as u8, (n % 256) as u8]
}

/// Big-endian bytes of a 32-bit value.
pub open spec fn be32(n: u32) -> Seq<u8> {
    seq![
        (n / 0x1000000) as u8,
        ((n / 0x10000) % 256) as u8,
        ((n / 256) % 256) as u8,
        (n % 256) as u8,
    ]
}

/// The envelope: marker 1, then locale, identifier and version each
/// preceded by a 16-bit length, then request code 1, then the payload
/// preceded by its 32-bit length.
pub open spec fn envelope_bytes(
    locale: Seq<u8>,
    identifier: Seq<u8>,
    version: Seq<u8>,
    payload: Seq<u8>,
) -> Seq<u8>
    recommends
        locale.len() <= 0x7FFF,
        identifier.len() <= 0x7FFF,
        version.len() <= 0x7FFF,
        payload.len() <= 0x7FFFFFFF,
{
    be16(1) + be16(locale.len() as u16) + locale + be16(identifier.len() as u16) + identifier
        + be16(version.len() as u16) + version + be32(1) + be32(payload.len() as u32) + payload
}

/// The locale string the emulated client reports, as bytes: `en_US`.
pub open spec fn locale_value() -> Seq<u8> {
    seq![101u8, 110u8, 95u8, 85u8, 83u8]
}

/// The client identifier string, as bytes: `com.apple.locationd`.
pub open spec fn identifier_value() -> Seq<u8> {
    seq![
        99u8, 111u8, 109u8, 46u8, 97u8, 112u8, 112u8, 108u8, 101u8, 46u8, 108u8, 111u8, 99u8,
        97u8, 116u8, 105u8, 111u8, 110u8, 100u8,
    ]
}

/// The client version string, as bytes: `15.4.24E248`.
pub open spec fn version_value() -> Seq<u8> {
    seq![49u8, 53u8, 46u8, 52u8, 46u8, 50u8, 52u8, 69u8, 50u8, 52u8, 56u8]
}

/// The strings identifying the emulated client in the envelope, kept in
/// one place so that protocol logic never repeats them.
pub struct ClientIdentity {
    pub locale: Vec<u8>,
    pub identifier: Vec<u8>,
    pub version: Vec<u8>,
}

/// A client identity is usable when every string's length fits the
/// envelope's 16-bit signed length fields.
pub open spec fn identity_well_formed(c: ClientIdentity) -> bool {
    &&& c.locale@.len() <= 0x7FFF
    &&& c.identifier@.len() <= 0x7FFF
    &&& c.version@.len() <= 0x7FFF
}

impl ClientIdentity {
    /// The fixed identity of the emulated client.
    pub fn standard() -> (c: ClientIdentity)
        ensures
            c.locale@ == locale_value(),
            c.identifier@ == identifier_value(),
            c.version@ == version_value(),
            identity_well_formed(c),
    {
        let c = ClientIdentity {
            locale: vec![101u8, 110u8, 95u8, 85u8, 83u8],
            identifier: vec![
                99u8, 111u8, 109u8, 46u8, 97u8, 112u8, 112u8, 108u8, 101u8, 46u8, 108u8, 111u8,
                99u8, 97u8, 116u8, 105u8, 111u8, 110u8, 100u8,
            ],
            version: vec![49u8, 53u8, 46u8, 52u8, 46u8, 50u8, 52u8, 69u8, 50u8, 52u8, 56u8],
        };
        proof {
            assert(c.locale@ =~= locale_value());
            assert(c.identifier@ =~= identifier_value());
            assert(c.version@ =~= version_value());
        }
        c
    }
}

fn push_be16(buf: &mut Vec<u8>, n: u16)
    ensures
        final(buf)@ == old(buf)@ + be16(n),
{
    buf.push((n / 256) as u8);
    buf.push((n % 256) as u8);
    proof {
        assert(buf@ =~= old(buf)@ + be16(n));
    }
}

fn push_be32(buf: &mut Vec<u8>, n: u32)
    ensures
        final(buf)@ == old(buf)@ + be32(n),
{
    buf.push((n / 0x1000000) as u8);
    buf.push(((n / 0x10000) % 256) as u8);
    buf.push(((n / 256) % 256) as u8);
    buf.push((n % 256) as u8);
    proof {
        assert(buf@ =~= old(buf)@ + be32(n));
    }
}

fn push_bytes(buf: &mut Vec<u8>, src: &Vec<u8>)
    ensures
        final(buf)@ == old(buf)@ + src@,
{
    let mut i: usize = 0;
    while i < src.len()
        invariant
            i <= src@.len(),
            buf@ == old(buf)@ + src@.take(i as int),
        decreases src@.len() - i,
    {
        buf.push(src[i]);
        proof {
            assert(old(buf)@ + src@.take(i + 1) =~= (old(buf)@ + src@.take(i as int)).push(
                src@[i as int],
            ));
        }
        i += 1;
    }
    proof {
        assert(src@.take(src@.len() as int) =~= src@);
    }
}

/// Frames an already-serialized request message in the envelope, byte
/// for byte as the upstream expects it.
pub fn build_apple_request_body(identity: &ClientIdentity, payload: &Vec<u8>) -> (r: Vec<u8>)
    requires
        identity_well_formed(*identity),
        payload@.len() <= 0x7FFFFFFF,
    ensures
        r@ == envelope_bytes(identity.locale@, identity.identifier@, identity.version@, payload@),
{
    let mut buf: Vec<u8> = Vec::new();
    push_be16(&mut buf, 1);
    push_be16(&mut buf, identity.locale.len() as u16);
    push_bytes(&mut buf, &identity.locale);
    push_be16(&mut buf, identity.identifier.len() as u16);
    push_bytes(&mut buf, &identity.identifier);
    push_be16(&mut buf, identity.version.len() as u16);
    push_bytes(&mut buf, &identity.version);
    push_be32(&mut buf, 1);
    push_be32(&mut buf, payload.len() as u32);
    push_bytes(&mut buf, payload);
    proof {
        assert(buf@ =~= envelope_bytes(
            identity.locale@,
            identity.identifier@,
            identity.version@,
            payload@,
        ));
    }
    buf
}

/// Strips the reply's fixed 10-byte header. A reply of 10 bytes or
/// fewer carries no data; the bytes after the header are the response
/// message payload.
pub fn extract_response_payload(bytes: &Vec<u8>) -> (r: Option<Vec<u8>>)
    ensures
        bytes@.len() <= 10 ==> r is None,
        bytes@.len() > 10 ==> (r matches Option::Some(p) && p@ == bytes@.subrange(
            10,
            bytes@.len() as int,
        )),
{
    if bytes.len() <= 10 {
        return Option::None;
    }
    let mut out: Vec<u8> = Vec::new();
    let mut i: usize = 10;
    while i < bytes.len()
        invariant
            10 <= i <= bytes@.len(),
            out@ == bytes@.subrange(10, i as int),
        decreases bytes@.len() - i,
    {
        out.push(bytes[i]);
        proof {
            assert(bytes@.subrange(10, i + 1) =~= bytes@.subrange(10, i as int).push(
                bytes@[i as int],
            ));
        }
        i += 1;
    }
    Option::Some(out)
}

/// Applies the whole reply-usability rule: only a reply with status 200
/// and more than the 10-byte header carries a response payload;
/// anything else is "no data".
pub fn usable_reply_payload(status: u16, body: &Vec<u8>) -> (r: Option<Vec<u8>>)
    ensures
        r is Some <==> (status == 200 && body@.len() > 10),
        r matches Option::Some(p) ==> p@ == body@.subrange(10, body@.len() as int),
{
    if status != 200 {
        return Option::None;
    }
    extract_response_payload(body)
}

} // verus!
