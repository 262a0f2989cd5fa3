use vstd::prelude::*;

verus! {

/// Number of 32-bit words in a frame on the wire.
pub const PACKET_SIZE: usize = 8;

/// Number of bytes in a frame (`PACKET_SIZE` words of four bytes).
pub const MAX_PAYLOAD_SIZE: usize = 32;

/// A frame as exchanged with the PHY: eight words, sent most significant byte first.
#[derive(Clone, Copy, Debug, PartialEq, Eq)]
pub struct RawPacket {
    pub data: [u32; PACKET_SIZE],
}

impl View for RawPacket {
    type V = Seq<u32>;

    open spec fn view(&self) -> Seq<u32> {
        self.data@
    }
}

/// Kind of payload a protocol frame carries.
#[derive(Clone, Copy, Debug, PartialEq, Eq, Structural)]
pub enum PacketType {
    NoType,
    Control,
    Interupt,
    EchoRequest,
    EchoResponse,
    Stream,
}

/// The separated fields of a frame.
///
/// `from` and `to` are (position, subdevice) bus addresses; `payload[0]` is the first byte on the wire.
#[derive(Clone, Copy, Debug, PartialEq, Eq)]
pub struct PacketParsed {
    pub protocol: bool,
    pub packet_type: PacketType,
    pub from: Option<(u8, u8)>,
    pub to: Option<(u8, u8)>,
    pub appcode: u16,
    pub payload: [u8; MAX_PAYLOAD_SIZE],
    pub payload_len: usize,
}

/// Mathematical value of a [`PacketParsed`]: the same fields, with the payload as a sequence.
#[verifier::ext_equal]
pub struct PacketModel {
    pub protocol: bool,
    pub packet_type: PacketType,
    pub from: Option<(u8, u8)>,
    pub to: Option<(u8, u8)>,
    pub appcode: u16,
    pub payload: Seq<u8>,
    pub payload_len: nat,
}

impl View for PacketParsed {
    type V = PacketModel;

    open spec fn view(&self) -> PacketModel {
        PacketModel {
            protocol: self.protocol,
            packet_type: self.packet_type,
            from: self.from,
            to: self.to,
            appcode: self.appcode,
            payload: self.payload@,
            payload_len: self.payload_len as nat,
        }
    }
}

/// Byte `k` of a word sent most significant byte first (`k == 0` is the top byte).
pub open spec fn be_byte(w: u32, k: int) -> u8 {
    if k == 0 {
        (w >> 24u32) as u8
    } else if k == 1 {
        (w >> 16u32) as u8
    } else if k == 2 {
        (w >> 8u32) as u8
    } else {
        w as u8
    }
}

/// The bytes of a sequence of words, each word most significant byte first.
pub open spec fn frame_bytes(words: Seq<u32>) -> Seq<u8> {
    Seq::new(4 * words.len(), |i: int| be_byte(words[i / 4], i % 4))
}

/// Splits the eight words of a frame into its 32 bytes, most significant byte of each word first.
pub fn convert_u32_to_u8(arr: [u32; PACKET_SIZE]) -> (result: [u8; MAX_PAYLOAD_SIZE])
    ensures
        result@ == frame_bytes(arr@),
{
    let mut result = [0u8; MAX_PAYLOAD_SIZE];
    let mut i: usize = 0;
    while i < PACKET_SIZE
        invariant
            i <= PACKET_SIZE,
            result@.len() == MAX_PAYLOAD_SIZE,
            forall|j: int| 0 <= j < 4 * i ==> #[trigger] result@[j] == be_byte(arr@[j / 4], j % 4),
        decreases PACKET_SIZE - i,
    {
        let value: u32 = arr[i];
        let base_index: usize = i * 4;
        result[base_index] = (value >> 24u32) as u8;
        result[base_index + 1] = (value >> 16u32) as u8;
        result[base_index + 2] = (value >> 8u32) as u8;
        result[base_index + 3] = value as u8;
        i = i + 1;
    }
    assert(result@ =~= frame_bytes(arr@));
    result
}

/// Whether the first byte of a frame marks it as a protocol frame (top bit set).
pub open spec fn in_protocol(b0: u8) -> bool {
    b0 & 0x80 == 0x80
}

/// The five-bit type code carried in bits 6..2 of the first byte.
pub open spec fn type_code(b0: u8) -> u8 {
    (b0 & 0x7C) >> 2u8
}

/// Whether the first byte announces a bus position identifier (lowest bit set).
pub open spec fn has_bpi(b0: u8) -> bool {
    b0 & 0x01 == 0x01
}

/// The packet type that a received type code stands for; each type owns one bit of the code.
pub open spec fn type_of_code(code: u8) -> Option<PacketType> {
    if code == 0x10 {
        Some(PacketType::Control)
    } else if code == 0x08 {
        Some(PacketType::Interupt)
    } else if code == 0x04 {
        Some(PacketType::EchoResponse)
    } else if code == 0x02 {
        Some(PacketType::EchoRequest)
    } else if code == 0x01 {
        Some(PacketType::Stream)
    } else {
        None
    }
}

/// A bus address byte: position in the top five bits, subdevice in the low three.
pub open spec fn address_of(b: u8) -> (u8, u8) {
    ((b & 0xF8) >> 3u8, b & 0x07)
}

/// A 16-bit value carried in two bytes, high byte first.
pub open spec fn be_u16(hi: u8, lo: u8) -> u16 {
    ((hi as u16) << 8u16) | (lo as u16)
}

/// Thirty-two zero bytes.
pub open spec fn empty_payload() -> Seq<u8> {
    Seq::new(MAX_PAYLOAD_SIZE as nat, |i: int| 0u8)
}

/// What a received frame decodes to.
///
/// A frame whose first byte has its top bit clear is not a protocol frame: it is passed on
/// whole as payload. A protocol frame with an unknown type code is refused. A protocol frame
/// with BPI carries the source and destination addresses in bytes 1 and 2 and the application
/// code in bytes 3 and 4; one without BPI carries the application code in bytes 1 and 2.
/// A protocol frame is decoded as a protocol packet with its header fields and no payload.
pub open spec fn rx_model(words: Seq<u32>) -> Option<PacketModel> {
    let b = frame_bytes(words);
    if !in_protocol(b[0]) {
        Some(
            PacketModel {
                protocol: false,
                packet_type: PacketType::NoType,
                from: None,
                to: None,
                appcode: 0,
                payload: b,
                payload_len: MAX_PAYLOAD_SIZE as nat,
            },
        )
    } else {
        match type_of_code(type_code(b[0])) {
            None => None,
            Some(t) => if has_bpi(b[0]) {
                Some(
                    PacketModel {
                        protocol: true,
                        packet_type: t,
                        from: Some(address_of(b[1])),
                        to: Some(address_of(b[2])),
                        appcode: be_u16(b[3], b[4]),
                        payload: empty_payload(),
                        payload_len: 0,
                    },
                )
            } else {
                Some(
                    PacketModel {
                        protocol: true,
                        packet_type: t,
                        from: None,
                        to: None,
                        appcode: be_u16(b[1], b[2]),
                        payload: empty_payload(),
                        payload_len: 0,
                    },
                )
            },
        }
    }
}

fn packet_type_of_code(code: u8) -> (t: Option<PacketType>)
    ensures
        t == type_of_code(code),
{
    match code {
        0x10 => Some(PacketType::Control),
        0x08 => Some(PacketType::Interupt),
        0x04 => Some(PacketType::EchoResponse),
        0x02 => Some(PacketType::EchoRequest),
        0x01 => Some(PacketType::Stream),
        _ => None,
    }
}

/// Decodes a received frame into its fields.
///
/// Returns `None` exactly for protocol frames with an unknown type code.
pub fn parse_rx(packet: RawPacket) -> (res: Option<PacketParsed>)
    ensures
        res is Some <==> rx_model(packet@) is Some,
        res matches Some(p) ==> p@ == rx_model(packet@).unwrap(),
{
    let mut packet_parsed = PacketParsed {
        protocol: false,
        packet_type: PacketType::NoType,
        from: None,
        to: None,
        appcode: 0,
        payload: [0u8; MAX_PAYLOAD_SIZE],
        payload_len: 0,
    };
    let b = convert_u32_to_u8(packet.data);
    assert(packet_parsed.payload@ =~= empty_payload());
    if b[0] & 0x80 == 0x80 {
        packet_parsed.protocol = true;
        match packet_type_of_code((b[0] & 0x7C) >> 2u8) {
            Some(t) => {
                packet_parsed.packet_type = t;
            },
            None => {
                return None;
            },
        }
        if b[0] & 0x01 == 0x01 {
            packet_parsed.from = Some(((b[1] & 0xF8) >> 3u8, b[1] & 0x07));
            packet_parsed.to = Some(((b[2] & 0xF8) >> 3u8, b[2] & 0x07));
            packet_parsed.appcode = ((b[3] as u16) << 8u16) | (b[4] as u16);
        } else {
            packet_parsed.from = None;
            packet_parsed.to = None;
            packet_parsed.appcode = ((b[1] as u16) << 8u16) | (b[2] as u16);
        }
        assert(packet_parsed@ =~= rx_model(packet@).unwrap());
        return Some(packet_parsed);
    }
    packet_parsed.payload = b;
    packet_parsed.payload_len = MAX_PAYLOAD_SIZE;
    assert(packet_parsed@ =~= rx_model(packet@).unwrap());
    Some(packet_parsed)
}

/// The first byte of a protocol frame for each packet type, before the BPI bit is added.
pub open spec fn control_byte(t: PacketType) -> u8 {
    match t {
        PacketType::NoType => 0x80,
        PacketType::Control => 0xC0,
        PacketType::Interupt => 0xA0,
        PacketType::EchoRequest => 0x88,
        PacketType::EchoResponse => 0x90,
        PacketType::Stream => 0x84,
    }
}

/// The 16-bit bus position identifier: source position (5 bits), source subdevice (3 bits),
/// destination position (5 bits), destination subdevice (3 bits).
pub open spec fn bpi_field(from: (u8, u8), to: (u8, u8)) -> u16 {
    (((from.0 as u16) & 0x1F) << 11u16) | (((from.1 as u16) & 0x07) << 8u16) | (((to.0 as u16)
        & 0x1F) << 3u16) | ((to.1 as u16) & 0x07)
}

/// The 32 bytes a packet is sent as.
///
/// A packet outside the protocol is sent as its payload, with the top bit of byte 0 cleared.
/// A protocol packet with a source but no destination is refused. A protocol packet with
/// both addresses is sent as the control byte with its BPI bit set, the BPI field and the
/// application code (high byte first), followed by as much of the payload as fits; one without
/// a source is sent as the control byte and the application code, followed by the payload.
pub open spec fn tx_bytes(p: PacketModel) -> Option<Seq<u8>> {
    let pl = p.payload;
    if !p.protocol {
        Some(pl.update(0, pl[0] & 0x7F))
    } else {
        match (p.from, p.to) {
            (Some(f), Some(t)) => {
                let bpi = bpi_field(f, t);
                Some(
                    seq![
                        (control_byte(p.packet_type) + 1) as u8,
                        (bpi >> 8u16) as u8,
                        bpi as u8,
                        (p.appcode >> 8u16) as u8,
                        p.appcode as u8,
                    ] + pl.take(27),
                )
            },
            (Some(_), None) => None,
            (None, _) => Some(
                seq![control_byte(p.packet_type), (p.appcode >> 8u16) as u8, p.appcode as u8]
                    + pl.take(29),
            ),
        }
    }
}

/// The word made of four bytes, the first one most significant.
pub open spec fn be_word(b0: u8, b1: u8, b2: u8, b3: u8) -> u32 {
    ((b0 as u32) << 24u32) | ((b1 as u32) << 16u32) | ((b2 as u32) << 8u32) | (b3 as u32)
}

/// The words made of a byte sequence, four bytes each, most significant byte first.
pub open spec fn words_of(bytes: Seq<u8>) -> Seq<u32> {
    Seq::new(bytes.len() / 4, |k: int| be_word(bytes[4 * k], bytes[4 * k + 1], bytes[4 * k + 2], bytes[4 * k + 3]))
}

/// The frame a packet is sent as: the words of [`tx_bytes`].
pub open spec fn tx_model(p: PacketModel) -> Option<Seq<u32>> {
    match tx_bytes(p) {
        Some(b) => Some(words_of(b)),
        None => None,
    }
}

/// Joins 32 bytes into the eight words of a frame, most significant byte of each word first.
fn convert_u8_to_u32(bytes: &[u8; MAX_PAYLOAD_SIZE]) -> (words: [u32; PACKET_SIZE])
    ensures
        words@ == words_of(bytes@),
{
    let mut words = [0u32; PACKET_SIZE];
    let mut k: usize = 0;
    while k < PACKET_SIZE
        invariant
            k <= PACKET_SIZE,
            forall|j: int| 0 <= j < k ==> #[trigger] words@[j] == be_word(bytes@[4 * j], bytes@[4 * j + 1], bytes@[4 * j + 2], bytes@[4 * j + 3]),
        decreases PACKET_SIZE - k,
    {
        let s: usize = 4 * k;
        words[k] = ((bytes[s] as u32) << 24u32) | ((bytes[s + 1] as u32) << 16u32) | ((bytes[s
            + 2] as u32) << 8u32) | (bytes[s + 3] as u32);
        k = k + 1;
    }
    assert(words@ =~= words_of(bytes@));
    words
}

/// Copies the payload into `bytes` from index `offset` on, as much of it as fits.
fn place_payload(bytes: &mut [u8; MAX_PAYLOAD_SIZE], payload: &[u8; MAX_PAYLOAD_SIZE], offset: usize)
    requires
        offset <= MAX_PAYLOAD_SIZE,
    ensures
        forall|j: int| 0 <= j < offset ==> #[trigger] final(bytes)@[j] == old(bytes)@[j],
        forall|j: int| offset <= j < MAX_PAYLOAD_SIZE ==> #[trigger] final(bytes)@[j] == payload@[j - offset],
{
    let mut j: usize = offset;
    while j < MAX_PAYLOAD_SIZE
        invariant
            offset <= j <= MAX_PAYLOAD_SIZE,
            forall|i: int| 0 <= i < offset ==> #[trigger] bytes@[i] == old(bytes)@[i],
            forall|i: int| offset <= i < j ==> #[trigger] bytes@[i] == payload@[i - offset],
        decreases MAX_PAYLOAD_SIZE - j,
    {
        bytes[j] = payload[j - offset];
        j = j + 1;
    }
}

/// Encodes a packet into a frame for sending.
///
/// Returns `None` exactly for a protocol packet that names a source but no destination.
pub fn parse_tx(packet: PacketParsed) -> (res: Option<RawPacket>)
    ensures
        res is Some <==> tx_model(packet@) is Some,
        res matches Some(r) ==> r@ == tx_model(packet@).unwrap(),
        res is None <==> (packet.protocol && packet.from is Some && packet.to is None),
        res matches Some(r) ==> (!packet.protocol ==> frame_bytes(r@)[0] == packet.payload[0] & 0x7F
            && forall|i: int| 1 <= i < 32 ==> #[trigger] frame_bytes(r@)[i] == packet.payload[i]),
        res matches Some(r) ==> (packet.protocol && packet.from is None ==> forall|j: int|
            0 <= j < 29 ==> #[trigger] frame_bytes(r@)[3 + j] == packet.payload[j]),
        res matches Some(r) ==> (packet.protocol && packet.from is Some ==> forall|j: int|
            0 <= j < 27 ==> #[trigger] frame_bytes(r@)[5 + j] == packet.payload[j]),
{
    proof {
        crate::laws::lemma_tx_layout(packet@);
    }
    let pl = &packet.payload;
    let mut bytes = [0u8; MAX_PAYLOAD_SIZE];
    if !packet.protocol {
        place_payload(&mut bytes, pl, 0);
        bytes[0] = pl[0] & 0x7F;
        assert(bytes@ =~= tx_bytes(packet@).unwrap());
        return Some(RawPacket { data: convert_u8_to_u32(&bytes) });
    }
    let control_byte: u8 = match packet.packet_type {
        PacketType::NoType => 0b10000000,
        PacketType::Control => 0b11000000,
        PacketType::Interupt => 0b10100000,
        PacketType::EchoRequest => 0b10001000,
        PacketType::EchoResponse => 0b10010000,
        PacketType::Stream => 0b10000100,
    };
    match packet.from {
        Some((position_from, subdevice_from)) => {
            match packet.to {
                Some((position_to, subdevice_to)) => {
                    let bpi: u16 = (((position_from as u16) & 0x1F) << 11u16) | (((
                    subdevice_from as u16) & 0x07) << 8u16) | (((position_to as u16) & 0x1F)
                        << 3u16) | ((subdevice_to as u16) & 0x07);
                    place_payload(&mut bytes, pl, 5);
                    bytes[0] = control_byte + 1;
                    bytes[1] = (bpi >> 8u16) as u8;
                    bytes[2] = bpi as u8;
                    bytes[3] = (packet.appcode >> 8u16) as u8;
                    bytes[4] = packet.appcode as u8;
                    assert(bytes@ =~= tx_bytes(packet@).unwrap());
                    Some(RawPacket { data: convert_u8_to_u32(&bytes) })
                },
                None => None,
            }
        },
        None => {
            place_payload(&mut bytes, pl, 3);
            bytes[0] = control_byte;
            bytes[1] = (packet.appcode >> 8u16) as u8;
            bytes[2] = packet.appcode as u8;
            assert(bytes@ =~= tx_bytes(packet@).unwrap());
            Some(RawPacket { data: convert_u8_to_u32(&bytes) })
        },
    }
}

} // verus!
