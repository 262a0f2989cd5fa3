use vstd::prelude::*;
use crate::bus::{TransferStep, spec_transfer_step};
use crate::parser::{
    PacketModel, PacketType, MAX_PAYLOAD_SIZE, be_byte, be_word, be_u16, words_of, frame_bytes,
    rx_model, tx_bytes, tx_model, control_byte, type_code, type_of_code, in_protocol, has_bpi,
    address_of, bpi_field, empty_payload,
};

verus! {

/// The bytes of a word built from four bytes are those four bytes, in order.
pub proof fn lemma_be_word_bytes(b0: u8, b1: u8, b2: u8, b3: u8)
    ensures
        be_byte(be_word(b0, b1, b2, b3), 0) == b0,
        be_byte(be_word(b0, b1, b2, b3), 1) == b1,
        be_byte(be_word(b0, b1, b2, b3), 2) == b2,
        be_byte(be_word(b0, b1, b2, b3), 3) == b3,
{
    let w: u32 = be_word(b0, b1, b2, b3);
    assert((w >> 24u32) as u8 == b0 && (w >> 16u32) as u8 == b1 && (w >> 8u32) as u8 == b2
        && w as u8 == b3) by (bit_vector)
        requires
            w == ((b0 as u32) << 24u32) | ((b1 as u32) << 16u32) | ((b2 as u32) << 8u32) | (b3 as u32),
    ;
}

/// Joining bytes into words and splitting them again gives back the bytes.
pub proof fn lemma_bytes_words_bytes(bytes: Seq<u8>)
    requires
        bytes.len() % 4 == 0,
    ensures
        frame_bytes(words_of(bytes)) == bytes,
{
    let w = words_of(bytes);
    assert forall|i: int| 0 <= i < bytes.len() implies #[trigger] frame_bytes(w)[i] == bytes[i] by {
        let k = i / 4;
        lemma_be_word_bytes(bytes[4 * k], bytes[4 * k + 1], bytes[4 * k + 2], bytes[4 * k + 3]);
    }
    assert(frame_bytes(w) =~= bytes);
}

/// Splitting words into bytes and joining them again gives back the words: no bit is lost.
pub proof fn lemma_words_bytes_words(words: Seq<u32>)
    ensures
        words_of(frame_bytes(words)) == words,
{
    let b = frame_bytes(words);
    assert forall|k: int| 0 <= k < words.len() implies #[trigger] words_of(b)[k] == words[k] by {
        let w: u32 = words[k];
        assert((4 * k) / 4 == k && (4 * k) % 4 == 0);
        assert((4 * k + 1) / 4 == k && (4 * k + 1) % 4 == 1);
        assert((4 * k + 2) / 4 == k && (4 * k + 2) % 4 == 2);
        assert((4 * k + 3) / 4 == k && (4 * k + 3) % 4 == 3);
        assert(w == (((w >> 24u32) as u8 as u32) << 24u32) | (((w >> 16u32) as u8 as u32) << 16u32)
            | (((w >> 8u32) as u8 as u32) << 8u32) | (w as u8 as u32)) by (bit_vector);
    }
    assert(words_of(b) =~= words);
}

/// Each control byte announces a protocol frame without BPI; its type code decodes back to
/// its packet type, except for `NoType`, whose code is refused. Adding the BPI bit keeps the type code.
pub proof fn lemma_control_byte_decodes(t: PacketType)
    ensures
        in_protocol(control_byte(t)),
        !has_bpi(control_byte(t)),
        in_protocol((control_byte(t) + 1) as u8),
        has_bpi((control_byte(t) + 1) as u8),
        type_code((control_byte(t) + 1) as u8) == type_code(control_byte(t)),
        type_of_code(type_code(control_byte(t))) == (if t == PacketType::NoType {
            None
        } else {
            Some(t)
        }),
{
    let c: u8 = control_byte(t);
    match t {
        PacketType::NoType => {
            assert((0x80u8 & 0x7C) >> 2u8 == 0u8) by (bit_vector);
            assert((0x81u8 & 0x7C) >> 2u8 == 0u8) by (bit_vector);
            assert(0x80u8 & 0x80 == 0x80 && 0x80u8 & 0x01 == 0 && 0x81u8 & 0x80 == 0x80 && 0x81u8 & 0x01 == 0x01) by (bit_vector);
        },
        PacketType::Control => {
            assert((0xC0u8 & 0x7C) >> 2u8 == 0x10u8) by (bit_vector);
            assert((0xC1u8 & 0x7C) >> 2u8 == 0x10u8) by (bit_vector);
            assert(0xC0u8 & 0x80 == 0x80 && 0xC0u8 & 0x01 == 0 && 0xC1u8 & 0x80 == 0x80 && 0xC1u8 & 0x01 == 0x01) by (bit_vector);
        },
        PacketType::Interupt => {
            assert((0xA0u8 & 0x7C) >> 2u8 == 0x08u8) by (bit_vector);
            assert((0xA1u8 & 0x7C) >> 2u8 == 0x08u8) by (bit_vector);
            assert(0xA0u8 & 0x80 == 0x80 && 0xA0u8 & 0x01 == 0 && 0xA1u8 & 0x80 == 0x80 && 0xA1u8 & 0x01 == 0x01) by (bit_vector);
        },
        PacketType::EchoRequest => {
            assert((0x88u8 & 0x7C) >> 2u8 == 0x02u8) by (bit_vector);
            assert((0x89u8 & 0x7C) >> 2u8 == 0x02u8) by (bit_vector);
            assert(0x88u8 & 0x80 == 0x80 && 0x88u8 & 0x01 == 0 && 0x89u8 & 0x80 == 0x80 && 0x89u8 & 0x01 == 0x01) by (bit_vector);
        },
        PacketType::EchoResponse => {
            assert((0x90u8 & 0x7C) >> 2u8 == 0x04u8) by (bit_vector);
            assert((0x91u8 & 0x7C) >> 2u8 == 0x04u8) by (bit_vector);
            assert(0x90u8 & 0x80 == 0x80 && 0x90u8 & 0x01 == 0 && 0x91u8 & 0x80 == 0x80 && 0x91u8 & 0x01 == 0x01) by (bit_vector);
        },
        PacketType::Stream => {
            assert((0x84u8 & 0x7C) >> 2u8 == 0x01u8) by (bit_vector);
            assert((0x85u8 & 0x7C) >> 2u8 == 0x01u8) by (bit_vector);
            assert(0x84u8 & 0x80 == 0x80 && 0x84u8 & 0x01 == 0 && 0x85u8 & 0x80 == 0x80 && 0x85u8 & 0x01 == 0x01) by (bit_vector);
        },
    }
}

/// A protocol packet with source and destination, sent and received again, gives back its
/// packet type, its application code and both addresses, each address field cut to its width
/// (five bits of position, three of subdevice). The payload is not decoded.
/// `NoType` is left out: its frames are refused on receipt (see `lemma_notype_refused`).
pub proof fn lemma_bpi_header_roundtrip(p: PacketModel)
    requires
        p.protocol,
        p.from is Some,
        p.to is Some,
        p.packet_type != PacketType::NoType,
        p.payload.len() == MAX_PAYLOAD_SIZE,
    ensures
        tx_model(p) is Some,
        rx_model(tx_model(p).unwrap()) == Some(
            PacketModel {
                protocol: true,
                packet_type: p.packet_type,
                from: Some((p.from.unwrap().0 & 0x1F, p.from.unwrap().1 & 0x07)),
                to: Some((p.to.unwrap().0 & 0x1F, p.to.unwrap().1 & 0x07)),
                appcode: p.appcode,
                payload: empty_payload(),
                payload_len: 0,
            },
        ),
{
    let bytes = tx_bytes(p).unwrap();
    lemma_bytes_words_bytes(bytes);
    let (f0, f1) = p.from.unwrap();
    let (t0, t1) = p.to.unwrap();
    let a: u16 = p.appcode;
    let bpi: u16 = bpi_field((f0, f1), (t0, t1));
    lemma_control_byte_decodes(p.packet_type);
    let hi: u8 = (bpi >> 8u16) as u8;
    let lo: u8 = bpi as u8;
    assert((hi & 0xF8) >> 3u8 == f0 & 0x1F && hi & 0x07 == f1 & 0x07 && (lo & 0xF8) >> 3u8 == t0
        & 0x1F && lo & 0x07 == t1 & 0x07) by (bit_vector)
        requires
            hi == (bpi >> 8u16) as u8,
            lo == bpi as u8,
            bpi == (((f0 as u16) & 0x1F) << 11u16) | (((f1 as u16) & 0x07) << 8u16) | (((
            t0 as u16) & 0x1F) << 3u16) | ((t1 as u16) & 0x07),
    ;
    assert(((((a >> 8u16) as u8) as u16) << 8u16) | ((a as u8) as u16) == a) by (bit_vector);
    assert(bytes[0] == (control_byte(p.packet_type) + 1) as u8);
    assert(bytes[1] == hi && bytes[2] == lo);
    assert(bytes[3] == (a >> 8u16) as u8 && bytes[4] == a as u8);
    assert(rx_model(tx_model(p).unwrap()).unwrap() =~= PacketModel {
        protocol: true,
        packet_type: p.packet_type,
        from: Some((f0 & 0x1F, f1 & 0x07)),
        to: Some((t0 & 0x1F, t1 & 0x07)),
        appcode: a,
        payload: empty_payload(),
        payload_len: 0,
    });
}

/// A protocol packet without source, sent and received again, gives back its packet type and
/// its application code, without addresses. The payload is not decoded.
/// `NoType` is left out: its frames are refused on receipt (see `lemma_notype_refused`).
pub proof fn lemma_short_header_roundtrip(p: PacketModel)
    requires
        p.protocol,
        p.from is None,
        p.packet_type != PacketType::NoType,
        p.payload.len() == MAX_PAYLOAD_SIZE,
    ensures
        tx_model(p) is Some,
        rx_model(tx_model(p).unwrap()) == Some(
            PacketModel {
                protocol: true,
                packet_type: p.packet_type,
                from: None,
                to: None,
                appcode: p.appcode,
                payload: empty_payload(),
                payload_len: 0,
            },
        ),
{
    let bytes = tx_bytes(p).unwrap();
    lemma_bytes_words_bytes(bytes);
    let a: u16 = p.appcode;
    lemma_control_byte_decodes(p.packet_type);
    assert(((((a >> 8u16) as u8) as u16) << 8u16) | ((a as u8) as u16) == a) by (bit_vector);
    assert(bytes[0] == control_byte(p.packet_type));
    assert(bytes[1] == (a >> 8u16) as u8 && bytes[2] == a as u8);
    assert(rx_model(tx_model(p).unwrap()).unwrap() =~= PacketModel {
        protocol: true,
        packet_type: p.packet_type,
        from: None,
        to: None,
        appcode: a,
        payload: empty_payload(),
        payload_len: 0,
    });
}

/// A protocol packet of type `NoType` that is sent is refused when it is received.
pub proof fn lemma_notype_refused(p: PacketModel)
    requires
        p.protocol,
        p.packet_type == PacketType::NoType,
        p.payload.len() == MAX_PAYLOAD_SIZE,
        tx_model(p) is Some,
    ensures
        rx_model(tx_model(p).unwrap()) is None,
{
    let bytes = tx_bytes(p).unwrap();
    lemma_bytes_words_bytes(bytes);
    lemma_control_byte_decodes(p.packet_type);
    if p.from is Some {
        assert(bytes[0] == 0x81u8);
    } else {
        assert(bytes[0] == 0x80u8);
    }
}

/// A packet outside the protocol, sent and received again, comes back outside the protocol
/// with its whole payload, byte 0 without its top bit.
pub proof fn lemma_raw_roundtrip(p: PacketModel)
    requires
        !p.protocol,
        p.payload.len() == MAX_PAYLOAD_SIZE,
    ensures
        tx_model(p) is Some,
        rx_model(tx_model(p).unwrap()) == Some(
            PacketModel {
                protocol: false,
                packet_type: PacketType::NoType,
                from: None,
                to: None,
                appcode: 0,
                payload: p.payload.update(0, p.payload[0] & 0x7F),
                payload_len: MAX_PAYLOAD_SIZE as nat,
            },
        ),
{
    let bytes = tx_bytes(p).unwrap();
    lemma_bytes_words_bytes(bytes);
    let q0: u8 = p.payload[0];
    assert((q0 & 0x7F) & 0x80 != 0x80) by (bit_vector);
    assert(bytes[0] == q0 & 0x7F);
}

/// A decoded packet is a protocol packet exactly when its frame is a protocol frame, and
/// every decoded address has a position below 32 and a subdevice below 8.
pub proof fn lemma_rx_fields_in_range(words: Seq<u32>)
    requires
        words.len() == 8,
    ensures
        rx_model(words) matches Some(m) ==> {
            &&& m.protocol == in_protocol(frame_bytes(words)[0])
            &&& m.from matches Some(a) ==> a.0 < 32 && a.1 < 8
            &&& m.to matches Some(a) ==> a.0 < 32 && a.1 < 8
        },
{
    let b = frame_bytes(words);
    let b1: u8 = b[1];
    let b2: u8 = b[2];
    assert((b1 & 0xF8) >> 3u8 < 32 && b1 & 0x07 < 8 && (b2 & 0xF8) >> 3u8 < 32 && b2 & 0x07 < 8)
        by (bit_vector);
}

/// Received then sent again, a frame outside the protocol goes out unchanged; and any decoded
/// packet, sent and received again, decodes to itself.
pub proof fn lemma_decode_encode(words: Seq<u32>)
    requires
        words.len() == 8,
        rx_model(words) is Some,
    ensures
        tx_model(rx_model(words).unwrap()) is Some,
        !in_protocol(frame_bytes(words)[0]) ==> tx_model(rx_model(words).unwrap()).unwrap() == words,
        rx_model(tx_model(rx_model(words).unwrap()).unwrap()) == rx_model(words),
{
    let m = rx_model(words).unwrap();
    let b = frame_bytes(words);
    lemma_rx_fields_in_range(words);
    if !in_protocol(b[0]) {
        let b0: u8 = b[0];
        assert(b0 & 0x80 != 0x80 ==> b0 & 0x7F == b0) by (bit_vector);
        assert(m.payload.update(0, m.payload[0] & 0x7F) =~= b);
        lemma_words_bytes_words(words);
        lemma_raw_roundtrip(m);
    } else if has_bpi(b[0]) {
        let (f0, f1) = m.from.unwrap();
        let (t0, t1) = m.to.unwrap();
        assert(f0 < 32 && f1 < 8 && t0 < 32 && t1 < 8);
        assert(f0 & 0x1F == f0 && f1 & 0x07 == f1 && t0 & 0x1F == t0 && t1 & 0x07 == t1) by (bit_vector)
            requires
                f0 < 32,
                f1 < 8,
                t0 < 32,
                t1 < 8,
        ;
        lemma_control_byte_decodes(m.packet_type);
        lemma_bpi_header_roundtrip(m);
        assert(rx_model(tx_model(m).unwrap()).unwrap() =~= m);
    } else {
        lemma_control_byte_decodes(m.packet_type);
        lemma_short_header_roundtrip(m);
        assert(rx_model(tx_model(m).unwrap()).unwrap() =~= m);
    }
}

/// How a packet is laid out on the wire, for every packet type.
///
/// A protocol packet that names a source but no destination is refused; every other packet is
/// sent. A packet outside the protocol is sent as its 32 payload bytes in order, with only the
/// top bit of byte 0 cleared. A protocol frame starts with a byte whose top bit is set, whose
/// type code decodes back to the packet type (and is refused for `NoType`), and whose lowest bit
/// says whether a source is carried. Without a source, bytes 1 and 2 are the application code,
/// high byte first, and bytes 3.. are the payload from its first byte on. With source and
/// destination, bytes 1 and 2 are the two addresses (five bits of position, then three of
/// subdevice), bytes 3 and 4 the application code, and bytes 5.. the payload from its first byte on.
pub proof fn lemma_tx_layout(p: PacketModel)
    requires
        p.payload.len() == MAX_PAYLOAD_SIZE,
    ensures
        tx_model(p) is None <==> (p.protocol && p.from is Some && p.to is None),
        tx_model(p) matches Some(w) ==> w.len() == 8,
        !p.protocol ==> (tx_model(p) matches Some(w) && frame_bytes(w)[0] == p.payload[0] & 0x7F
            && forall|i: int| 1 <= i < 32 ==> #[trigger] frame_bytes(w)[i] == p.payload[i]),
        p.protocol ==> (tx_model(p) matches Some(w) ==> {
            &&& frame_bytes(w)[0] >= 0x80
            &&& (frame_bytes(w)[0] % 2 == 1 <==> p.from is Some)
            &&& type_of_code(type_code(frame_bytes(w)[0])) == (if p.packet_type
                == PacketType::NoType {
                None
            } else {
                Some(p.packet_type)
            })
        }),
        p.protocol && p.from is None ==> (tx_model(p) matches Some(w) && frame_bytes(w)[1] as int
            * 256 + frame_bytes(w)[2] as int == p.appcode as int && forall|j: int|
            0 <= j < 29 ==> #[trigger] frame_bytes(w)[3 + j] == p.payload[j]),
        p.protocol && p.from is Some && p.to is Some ==> (tx_model(p) matches Some(w)
            && frame_bytes(w)[1] as int == (p.from.unwrap().0 % 32) * 8 + p.from.unwrap().1 % 8
            && frame_bytes(w)[2] as int == (p.to.unwrap().0 % 32) * 8 + p.to.unwrap().1 % 8
            && frame_bytes(w)[3] as int * 256 + frame_bytes(w)[4] as int == p.appcode as int
            && forall|j: int| 0 <= j < 27 ==> #[trigger] frame_bytes(w)[5 + j] == p.payload[j]),
{
    if tx_model(p) is Some {
        let bytes = tx_bytes(p).unwrap();
        lemma_bytes_words_bytes(bytes);
        let w = tx_model(p).unwrap();
        assert(frame_bytes(w) == bytes);
        let a: u16 = p.appcode;
        assert((a >> 8u16) as u8 as int * 256 + (a as u8) as int == a as int) by (bit_vector);
        if p.protocol {
            lemma_control_byte_decodes(p.packet_type);
            let c: u8 = control_byte(p.packet_type);
            assert(c & 0x80 == 0x80 && c & 0x01 == 0 ==> c >= 0x80 && c % 2 == 0 && (c + 1) as u8
                >= 0x80 && (c + 1) as u8 % 2 == 1) by (bit_vector);
            if p.from is Some {
                let (f0, f1) = p.from.unwrap();
                let (t0, t1) = p.to.unwrap();
                let bpi: u16 = bpi_field((f0, f1), (t0, t1));
                let hi: u8 = (bpi >> 8u16) as u8;
                let lo: u8 = bpi as u8;
                assert(hi as int == (f0 % 32) * 8 + f1 % 8 && lo as int == (t0 % 32) * 8 + t1 % 8)
                    by (bit_vector)
                    requires
                        hi == (bpi >> 8u16) as u8,
                        lo == bpi as u8,
                        bpi == (((f0 as u16) & 0x1F) << 11u16) | (((f1 as u16) & 0x07) << 8u16)
                            | (((t0 as u16) & 0x1F) << 3u16) | ((t1 as u16) & 0x07),
                ;
                assert(bytes[1] == hi && bytes[2] == lo);
                assert forall|j: int| 0 <= j < 27 implies #[trigger] bytes[5 + j] == p.payload[j] by {}
            } else {
                assert forall|j: int| 0 <= j < 29 implies #[trigger] bytes[3 + j] == p.payload[j] by {}
            }
        }
    }
}

/// How a received frame is read, for every frame, in terms of its bytes.
///
/// A frame whose first byte is below 0x80 is not a protocol frame: it is passed on whole, all 32
/// bytes as payload. Otherwise bits 6..2 of the first byte are the type code: a code that is not
/// one of 0x10 (Control), 0x08 (Interupt), 0x04 (EchoResponse), 0x02 (EchoRequest), 0x01 (Stream)
/// is refused. A known code gives a protocol packet of that type with no payload; when the first
/// byte is odd, bytes 1 and 2 are the source and destination (position in the top five bits,
/// subdevice in the low three) and bytes 3 and 4 the application code, high byte first; when it
/// is even, there are no addresses and bytes 1 and 2 are the application code.
pub proof fn lemma_rx_layout(words: Seq<u32>)
    requires
        words.len() == 8,
    ensures
        frame_bytes(words)[0] < 0x80 ==> rx_model(words) == Some(
            PacketModel {
                protocol: false,
                packet_type: PacketType::NoType,
                from: None,
                to: None,
                appcode: 0,
                payload: frame_bytes(words),
                payload_len: 32,
            },
        ),
        frame_bytes(words)[0] >= 0x80 ==> ({
            let code = (frame_bytes(words)[0] / 4) % 32;
            &&& (rx_model(words) is None <==> !(code == 0x10 || code == 0x08 || code == 0x04
                || code == 0x02 || code == 0x01))
            &&& rx_model(words) matches Some(m) ==> {
                &&& m.protocol
                &&& code == 0x10 ==> m.packet_type == PacketType::Control
                &&& code == 0x08 ==> m.packet_type == PacketType::Interupt
                &&& code == 0x04 ==> m.packet_type == PacketType::EchoResponse
                &&& code == 0x02 ==> m.packet_type == PacketType::EchoRequest
                &&& code == 0x01 ==> m.packet_type == PacketType::Stream
                &&& m.payload_len == 0
                &&& m.payload.len() == 32
                &&& forall|i: int| 0 <= i < 32 ==> #[trigger] m.payload[i] == 0
                &&& frame_bytes(words)[0] % 2 == 1 ==> {
                    &&& m.from == Some(
                        (frame_bytes(words)[1] / 8, frame_bytes(words)[1] % 8),
                    )
                    &&& m.to == Some((frame_bytes(words)[2] / 8, frame_bytes(words)[2] % 8))
                    &&& m.appcode as int == frame_bytes(words)[3] as int * 256 + frame_bytes(
                        words,
                    )[4] as int
                }
                &&& frame_bytes(words)[0] % 2 == 0 ==> {
                    &&& m.from is None
                    &&& m.to is None
                    &&& m.appcode as int == frame_bytes(words)[1] as int * 256 + frame_bytes(
                        words,
                    )[2] as int
                }
            }
        }),
{
    let b = frame_bytes(words);
    let b0: u8 = b[0];
    let b1: u8 = b[1];
    let b2: u8 = b[2];
    let b3: u8 = b[3];
    let b4: u8 = b[4];
    assert((b0 & 0x80 == 0x80 <==> b0 >= 0x80) && (b0 & 0x7C) >> 2u8 == (b0 / 4) % 32 && (b0
        & 0x01 == 0x01 <==> b0 % 2 == 1)) by (bit_vector);
    assert((b1 & 0xF8) >> 3u8 == b1 / 8 && b1 & 0x07 == b1 % 8 && (b2 & 0xF8) >> 3u8 == b2 / 8 && b2
        & 0x07 == b2 % 8) by (bit_vector);
    assert(((((b1 as u16) << 8u16) | (b2 as u16)) as int == b1 as int * 256 + b2 as int) && ((((
    b3 as u16) << 8u16) | (b4 as u16)) as int == b3 as int * 256 + b4 as int)) by (bit_vector);
}

/// A transfer ends as soon as the receive FIFO is full; while it is not, the collision flag
/// (bit 2 of the raw interrupt flags) aborts it whatever the other flags are, and without
/// that flag the transfer keeps waiting.
pub proof fn lemma_transfer_step_decides(rx_full: bool, irq_raw: u8)
    ensures
        rx_full ==> spec_transfer_step(rx_full, irq_raw) == TransferStep::Received,
        !rx_full && irq_raw & 0x04 == 0x04 ==> spec_transfer_step(rx_full, irq_raw)
            == TransferStep::Collision,
        !rx_full && irq_raw & 0x04 == 0 ==> spec_transfer_step(rx_full, irq_raw)
            == TransferStep::Waiting,
{
    assert(irq_raw & 0x04 == 0x04 || irq_raw & 0x04 == 0) by (bit_vector);
}

} // verus!
