//! Wire format codec for USBTMC bulk transfers.
//!
//! Every bulk transfer starts with a fixed 12-byte header: a message ID, the
//! sequence tag with its complement (a redundancy that lets the receiver
//! detect corrupted or out-of-sequence frames without a checksum), a 32-bit
//! little-endian transfer size, and an attributes byte.  Outbound payloads
//! are padded with zero bytes to a four-byte boundary.

use vstd::prelude::*;

use crate::errors::ClassError;

verus! {

/// Size of the fixed bulk-transfer header in bytes.
pub const HEADER_SIZE: usize = 12;

/// Message ID of a Device-Dependent-Message-Out bulk transfer.
pub const MSG_ID_DEV_DEP_MSG_OUT: u8 = 1;

/// Message ID of Request-Device-Dependent-Message-In and of the
/// Device-Dependent-Message-In response.
pub const MSG_ID_DEV_DEP_MSG_IN: u8 = 2;

/// The four little-endian bytes of a 32-bit transfer size.
pub open spec fn spec_le32(n: u32) -> Seq<u8> {
    seq![
        (n % 256) as u8,
        ((n / 256) % 256) as u8,
        ((n / 65536) % 256) as u8,
        ((n / 16777216) % 256) as u8,
    ]
}

/// The 32-bit value held by four little-endian bytes.
pub open spec fn spec_le32_value(b0: u8, b1: u8, b2: u8, b3: u8) -> u32 {
    (b0 + b1 * 256 + b2 * 65536 + b3 * 16777216) as u32
}

/// Number of zero bytes that pad a payload of length `len` to a four-byte
/// boundary.
pub open spec fn spec_pad_len(len: int) -> int {
    if len % 4 == 0 {
        0
    } else {
        4 - len % 4
    }
}

/// A sequence of `n` zero bytes.
pub open spec fn spec_zeros(n: int) -> Seq<u8> {
    Seq::new(n as nat, |i: int| 0u8)
}

/// The tag complement that accompanies `tag` in every header.
pub open spec fn spec_tag_complement(tag: u8) -> u8 {
    (255 - tag) as u8
}

/// The fixed header of a Device-Dependent-Message-Out transfer.
pub open spec fn spec_out_header(tag: u8, size: u32, eom: bool) -> Seq<u8> {
    seq![MSG_ID_DEV_DEP_MSG_OUT, tag, spec_tag_complement(tag), 0u8] + spec_le32(size) + seq![
        if eom {
            1u8
        } else {
            0u8
        },
        0u8,
        0u8,
        0u8,
    ]
}

/// A whole Device-Dependent-Message-Out transfer: header, payload, padding.
pub open spec fn spec_out_frame(tag: u8, data: Seq<u8>, eom: bool) -> Seq<u8> {
    spec_out_header(tag, data.len() as u32, eom) + data + spec_zeros(spec_pad_len(data.len() as int))
}

/// The fixed header of a Request-Device-Dependent-Message-In transfer.
pub open spec fn spec_in_request(tag: u8, size: u32, term_char: Option<u8>) -> Seq<u8> {
    seq![MSG_ID_DEV_DEP_MSG_IN, tag, spec_tag_complement(tag), 0u8] + spec_le32(size) + seq![
        if term_char is Some {
            2u8
        } else {
            0u8
        },
        match term_char {
            Some(t) => t,
            None => 0u8,
        },
        0u8,
        0u8,
    ]
}

/// A whole Device-Dependent-Message-In transfer as a device produces it:
/// header, payload, padding.
pub open spec fn spec_in_frame(tag: u8, data: Seq<u8>, eom: bool) -> Seq<u8> {
    seq![MSG_ID_DEV_DEP_MSG_IN, tag, spec_tag_complement(tag), 0u8] + spec_le32(
        data.len() as u32,
    ) + seq![
        if eom {
            1u8
        } else {
            0u8
        },
        0u8,
        0u8,
        0u8,
    ] + data + spec_zeros(spec_pad_len(data.len() as int))
}

/// The header fields of a decoded Device-Dependent-Message-In transfer.
#[derive(Clone, Copy, Debug, PartialEq, Eq, Structural)]
pub struct DevDepMsgInHeader {
    pub tag: u8,
    pub transfer_size: u32,
    pub eom: bool,
}

impl DevDepMsgInHeader {
    /// Whether this chunk is the last chunk of the logical message.
    pub fn is_eom(&self) -> (r: bool)
        ensures
            r == self.eom,
    {
        self.eom
    }
}

/// What decoding an inbound buffer yields: the order of the checks is
/// buffer length, message ID, tag complement, declared payload length.
pub open spec fn spec_decode_in(buf: Seq<u8>) -> Result<(DevDepMsgInHeader, Seq<u8>), ClassError> {
    if buf.len() < HEADER_SIZE {
        Err(ClassError::TruncatedHeader)
    } else if buf[0] != MSG_ID_DEV_DEP_MSG_IN {
        Err(ClassError::InvalidMsgId)
    } else if buf[2] != spec_tag_complement(buf[1]) {
        Err(ClassError::TagCheckFailure)
    } else {
        let size = spec_le32_value(buf[4], buf[5], buf[6], buf[7]);
        if buf.len() < HEADER_SIZE + size {
            Err(ClassError::TruncatedControlResponse)
        } else {
            Ok(
                (
                    DevDepMsgInHeader { tag: buf[1], transfer_size: size, eom: buf[8] % 2 == 1 },
                    buf.subrange(HEADER_SIZE as int, HEADER_SIZE + size),
                ),
            )
        }
    }
}

/// The little-endian encoding of a 32-bit value parses back to that value.
pub proof fn lemma_le32_round_trip(n: u32)
    ensures
        spec_le32_value(
            spec_le32(n)[0],
            spec_le32(n)[1],
            spec_le32(n)[2],
            spec_le32(n)[3],
        ) == n,
{
    assert(n % 256 + ((n / 256) % 256) * 256 + ((n / 65536) % 256) * 65536 + ((n / 16777216) % 256)
        * 16777216 == n) by (bit_vector);
}

/// Round trip of the framing: a Device-Dependent-Message-In transfer built
/// from a valid tag decodes to exactly the header fields and payload it was
/// built from.
pub proof fn lemma_header_round_trip(tag: u8, data: Seq<u8>, eom: bool)
    requires
        2 <= tag <= 127,
        data.len() <= u32::MAX,
    ensures
        spec_decode_in(spec_in_frame(tag, data, eom)) matches Ok(hp) && hp.0
            == (DevDepMsgInHeader { tag, transfer_size: data.len() as u32, eom }) && hp.1 == data,
{
    let f = spec_in_frame(tag, data, eom);
    let size = data.len() as u32;
    assert(f.len() == HEADER_SIZE + data.len() + spec_pad_len(data.len() as int));
    assert(f[0] == MSG_ID_DEV_DEP_MSG_IN);
    assert(f[1] == tag);
    assert(f[2] == spec_tag_complement(tag));
    assert(f[4] == spec_le32(size)[0]);
    assert(f[5] == spec_le32(size)[1]);
    assert(f[6] == spec_le32(size)[2]);
    assert(f[7] == spec_le32(size)[3]);
    lemma_le32_round_trip(size);
    assert(spec_le32_value(f[4], f[5], f[6], f[7]) == size);
    assert(f[8] == if eom {
        1u8
    } else {
        0u8
    });
    assert(f.subrange(HEADER_SIZE as int, HEADER_SIZE + size) =~= data);
}

/// What collecting a sequence of inbound transfers yields: decoded payloads
/// are concatenated in order, collection stops exactly at the first transfer
/// whose header declares end-of-message, and the count of consumed transfers
/// is returned with the data.  A decode failure surfaces as that failure; a
/// sequence that ends before any end-of-message is a truncated message.
pub open spec fn spec_collect(bufs: Seq<Seq<u8>>) -> Result<(Seq<u8>, int), ClassError>
    decreases bufs.len(),
{
    if bufs.len() == 0 {
        Err(ClassError::TruncatedHeader)
    } else {
        match spec_decode_in(bufs[0]) {
            Err(e) => Err(e),
            Ok(hp) => if hp.0.eom {
                Ok((hp.1, 1))
            } else {
                match spec_collect(bufs.drop_first()) {
                    Err(e) => Err(e),
                    Ok(rest) => Ok((hp.1 + rest.0, 1 + rest.1)),
                }
            },
        }
    }
}

/// The payloads of transfers 0 through `k`, concatenated in order, where
/// each decodes cleanly.
pub open spec fn spec_concat_payloads(bufs: Seq<Seq<u8>>, k: int) -> Seq<u8>
    decreases k,
{
    if k < 0 || bufs.len() == 0 {
        Seq::empty()
    } else if k == 0 {
        spec_decode_in(bufs[0])->Ok_0.1
    } else {
        spec_decode_in(bufs[0])->Ok_0.1 + spec_concat_payloads(bufs.drop_first(), k - 1)
    }
}

/// Reassembly law: where every transfer up to the k-th decodes cleanly,
/// none before the k-th declares end-of-message and the k-th does, the
/// collected message is exactly the payloads of transfers 0 through k
/// concatenated in order, k + 1 transfers are consumed, and what follows
/// the k-th plays no part.
pub proof fn lemma_collect_stops_at_eom(bufs: Seq<Seq<u8>>, k: int)
    requires
        0 <= k < bufs.len(),
        forall|j: int| 0 <= j <= k ==> #[trigger] spec_decode_in(bufs[j]) is Ok,
        forall|j: int| 0 <= j < k ==> !(#[trigger] spec_decode_in(bufs[j])->Ok_0.0.eom),
        spec_decode_in(bufs[k])->Ok_0.0.eom,
    ensures
        spec_collect(bufs) == Ok::<(Seq<u8>, int), ClassError>(
            (spec_concat_payloads(bufs, k), k + 1),
        ),
    decreases k,
{
    if k == 0 {
        assert(spec_collect(bufs) == Ok::<(Seq<u8>, int), ClassError>(
            (spec_decode_in(bufs[0])->Ok_0.1, 1),
        ));
    } else {
        let rest = bufs.drop_first();
        assert forall|j: int| 0 <= j <= k - 1 implies #[trigger] spec_decode_in(rest[j]) is Ok by {
            assert(rest[j] == bufs[j + 1]);
        }
        assert forall|j: int| 0 <= j < k - 1 implies !(#[trigger] spec_decode_in(
            rest[j],
        )->Ok_0.0.eom) by {
            assert(rest[j] == bufs[j + 1]);
        }
        assert(rest[k - 1] == bufs[k]);
        lemma_collect_stops_at_eom(rest, k - 1);
    }
}

/// A successful collection consumes at least one and at most all transfers.
pub proof fn lemma_collect_count(bufs: Seq<Seq<u8>>)
    ensures
        spec_collect(bufs) matches Ok(dk) ==> 1 <= dk.1 <= bufs.len(),
    decreases bufs.len(),
{
    if bufs.len() > 0 {
        lemma_collect_count(bufs.drop_first());
    }
}

/// The views of a vector of byte buffers.
pub open spec fn spec_views(bufs: Seq<Vec<u8>>) -> Seq<Seq<u8>> {
    bufs.map_values(|b: Vec<u8>| b@)
}

/// Appends `src` to `dst`.
pub(crate) fn push_all(dst: &mut Vec<u8>, src: &Vec<u8>)
    ensures
        final(dst)@ == old(dst)@ + src@,
{
    let mut i: usize = 0;
    while i < src.len()
        invariant
            i <= src@.len(),
            dst@ == old(dst)@ + src@.take(i as int),
        decreases src@.len() - i,
    {
        dst.push(src[i]);
        i = i + 1;
        assert(dst@ =~= old(dst)@ + src@.take(i as int));
    }
    assert(src@.take(src@.len() as int) =~= src@);
}

fn collect_from(bufs: &Vec<Vec<u8>>, start: usize) -> (r: Result<(Vec<u8>, usize), ClassError>)
    requires
        start <= bufs@.len(),
    ensures
        match spec_collect(spec_views(bufs@).skip(start as int)) {
            Ok(dk) => r matches Ok(q) && q.0@ == dk.0 && q.1 == dk.1,
            Err(e) => r matches Err(e2) && e2 == e,
        },
    decreases bufs@.len() - start,
{
    if start >= bufs.len() {
        return Err(ClassError::TruncatedHeader);
    }
    assert(spec_views(bufs@).skip(start as int)[0] == bufs@[start as int]@);
    match decode_dev_dep_msg_in(bufs[start].as_slice()) {
        Err(e) => Err(e),
        Ok((header, payload)) => {
            if header.is_eom() {
                Ok((payload, 1))
            } else {
                assert(spec_views(bufs@).skip(start as int).drop_first() =~= spec_views(
                    bufs@,
                ).skip(start as int + 1));
                match collect_from(bufs, start + 1) {
                    Err(e) => Err(e),
                    Ok((rest, k)) => {
                        proof {
                            lemma_collect_count(spec_views(bufs@).skip(start as int + 1));
                        }
                        let mut data = payload;
                        push_all(&mut data, &rest);
                        Ok((data, 1 + k))
                    },
                }
            }
        },
    }
}

/// Collects a scripted sequence of bulk-in transfers into one logical
/// message: concatenates the decoded payloads in order and stops exactly at
/// the transfer whose header declares end-of-message.  Returns the message
/// and how many transfers were consumed; later transfers are not touched.
pub fn collect_response(bufs: &Vec<Vec<u8>>) -> (r: Result<(Vec<u8>, usize), ClassError>)
    ensures
        match spec_collect(spec_views(bufs@)) {
            Ok(dk) => r matches Ok(q) && q.0@ == dk.0 && q.1 == dk.1,
            Err(e) => r matches Err(e2) && e2 == e,
        },
{
    assert(spec_views(bufs@).skip(0) =~= spec_views(bufs@));
    collect_from(bufs, 0)
}

/// Rejection law: any buffer shorter than the fixed header size decodes to
/// the truncated-header error, and any full-length frame whose tag and
/// tag-complement are inconsistent decodes to the tag-check error —
/// unconditionally, whatever the rest of the buffer holds.
pub proof fn lemma_decode_rejects(buf: Seq<u8>)
    ensures
        buf.len() < HEADER_SIZE ==> spec_decode_in(buf) == Err::<
            (DevDepMsgInHeader, Seq<u8>),
            ClassError,
        >(ClassError::TruncatedHeader),
        buf.len() >= HEADER_SIZE && buf[0] == MSG_ID_DEV_DEP_MSG_IN && buf[2]
            != spec_tag_complement(buf[1]) ==> spec_decode_in(buf) == Err::<
            (DevDepMsgInHeader, Seq<u8>),
            ClassError,
        >(ClassError::TagCheckFailure),
{
}

/// Appends the little-endian bytes of `n`.
fn push_le32(buf: &mut Vec<u8>, n: u32)
    ensures
        final(buf)@ == old(buf)@ + spec_le32(n),
{
    buf.push((n % 256) as u8);
    buf.push(((n / 256) % 256) as u8);
    buf.push(((n / 65536) % 256) as u8);
    buf.push(((n / 16777216) % 256) as u8);
    assert(buf@ =~= old(buf)@ + spec_le32(n));
}

/// Appends `data` followed by the zero padding to a four-byte boundary.
fn push_payload_padded(buf: &mut Vec<u8>, data: &[u8])
    ensures
        final(buf)@ == old(buf)@ + data@ + spec_zeros(spec_pad_len(data@.len() as int)),
{
    let mut i: usize = 0;
    while i < data.len()
        invariant
            i <= data@.len(),
            buf@ == old(buf)@ + data@.take(i as int),
        decreases data@.len() - i,
    {
        buf.push(data[i]);
        i = i + 1;
        assert(buf@ =~= old(buf)@ + data@.take(i as int));
    }
    assert(data@.take(data@.len() as int) =~= data@);
    let rem = data.len() % 4;
    let pad: usize = if rem == 0 {
        0
    } else {
        4 - rem
    };
    let mut j: usize = 0;
    while j < pad
        invariant
            j <= pad,
            pad == spec_pad_len(data@.len() as int),
            buf@ == old(buf)@ + data@ + spec_zeros(j as int),
        decreases pad - j,
    {
        buf.push(0);
        j = j + 1;
        assert(buf@ =~= old(buf)@ + data@ + spec_zeros(j as int));
    }
}

/// Builds a Device-Dependent-Message-Out transfer: header, then the payload,
/// padded to the required alignment.  A pure transformation with no error
/// conditions.
pub fn encode_dev_dep_msg_out(tag: u8, data: &[u8], eom: bool) -> (r: Vec<u8>)
    requires
        data@.len() <= u32::MAX,
    ensures
        r@ == spec_out_frame(tag, data@, eom),
{
    let mut buf: Vec<u8> = Vec::new();
    buf.push(MSG_ID_DEV_DEP_MSG_OUT);
    buf.push(tag);
    buf.push(255 - tag);
    buf.push(0);
    push_le32(&mut buf, data.len() as u32);
    buf.push(if eom {
        1
    } else {
        0
    });
    buf.push(0);
    buf.push(0);
    buf.push(0);
    assert(buf@ =~= spec_out_header(tag, data@.len() as u32, eom));
    push_payload_padded(&mut buf, data);
    buf
}

/// Builds a Request-Device-Dependent-Message-In header asking the device for
/// at most `size` bytes, with the terminator configuration of the session.
pub fn encode_request_dev_dep_msg_in(tag: u8, size: u32, term_char: Option<u8>) -> (r: Vec<u8>)
    ensures
        r@ == spec_in_request(tag, size, term_char),
{
    let mut buf: Vec<u8> = Vec::new();
    buf.push(MSG_ID_DEV_DEP_MSG_IN);
    buf.push(tag);
    buf.push(255 - tag);
    buf.push(0);
    push_le32(&mut buf, size);
    match term_char {
        Some(t) => {
            buf.push(2);
            buf.push(t);
        },
        None => {
            buf.push(0);
            buf.push(0);
        },
    }
    buf.push(0);
    buf.push(0);
    assert(buf@ =~= spec_in_request(tag, size, term_char));
    buf
}

/// Builds a Device-Dependent-Message-In transfer as a device would send it.
/// The session never sends such a frame; it states the round-trip law and
/// lets a test script a device's responses.
pub fn encode_dev_dep_msg_in(tag: u8, data: &[u8], eom: bool) -> (r: Vec<u8>)
    requires
        data@.len() <= u32::MAX,
    ensures
        r@ == spec_in_frame(tag, data@, eom),
{
    let mut buf: Vec<u8> = Vec::new();
    buf.push(MSG_ID_DEV_DEP_MSG_IN);
    buf.push(tag);
    buf.push(255 - tag);
    buf.push(0);
    push_le32(&mut buf, data.len() as u32);
    buf.push(if eom {
        1
    } else {
        0
    });
    buf.push(0);
    buf.push(0);
    buf.push(0);
    push_payload_padded(&mut buf, data);
    assert(buf@ =~= spec_in_frame(tag, data@, eom));
    buf
}

/// Validates and decodes an inbound buffer: length against the fixed header
/// size, tag against its complement, declared payload length against what is
/// present; returns the header and the payload with the alignment padding
/// stripped.
pub fn decode_dev_dep_msg_in(buf: &[u8]) -> (r: Result<(DevDepMsgInHeader, Vec<u8>), ClassError>)
    ensures
        match spec_decode_in(buf@) {
            Ok(hp) => r matches Ok(q) && q.0 == hp.0 && q.1@ == hp.1,
            Err(e) => r matches Err(e2) && e2 == e,
        },
{
    if buf.len() < HEADER_SIZE {
        return Err(ClassError::TruncatedHeader);
    }
    if buf[0] != MSG_ID_DEV_DEP_MSG_IN {
        return Err(ClassError::InvalidMsgId);
    }
    if buf[2] != 255 - buf[1] {
        return Err(ClassError::TagCheckFailure);
    }
    let size: u32 = (buf[4] as u32) + (buf[5] as u32) * 256 + (buf[6] as u32) * 65536 + (
    buf[7] as u32) * 16777216;
    if buf.len() - HEADER_SIZE < size as usize {
        return Err(ClassError::TruncatedControlResponse);
    }
    let header = DevDepMsgInHeader { tag: buf[1], transfer_size: size, eom: buf[8] % 2 == 1 };
    let end: usize = HEADER_SIZE + (size as usize);
    let mut payload: Vec<u8> = Vec::new();
    let mut i: usize = HEADER_SIZE;
    while i < end
        invariant
            HEADER_SIZE <= i <= end,
            end <= buf@.len(),
            payload@ == buf@.subrange(HEADER_SIZE as int, i as int),
        decreases end - i,
    {
        payload.push(buf[i]);
        i = i + 1;
        assert(payload@ =~= buf@.subrange(HEADER_SIZE as int, i as int));
    }
    Ok((header, payload))
}

} // verus!
