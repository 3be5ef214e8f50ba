use vstd::prelude::*;

verus! {

/// Size of every SNTP frame on the wire, request and reply alike.
pub const PACKET_SIZE: usize = 48;

/// Seconds from the NTP epoch (1900-01-01) to the Unix epoch (1970-01-01).
pub const NTP_UNIX_OFFSET: i64 = 2_208_988_800;

/// Leap Indicator: a two-bit warning of a leap second to be inserted or
/// deleted in the last minute of the current day. Significant only in server
/// messages; a server that has not synchronized yet sends `AlarmCondition`.
#[derive(Clone, Copy, Debug, PartialEq, Eq, Structural)]
pub enum LeapIndicator {
    NoWarning,
    /// last minute has 61 seconds
    LongMinute,
    /// last minute has 59 seconds
    ShortMinute,
    /// clock not synchronized
    AlarmCondition,
}

/// The three-bit NTP/SNTP version number, currently 4. Only its low three
/// bits reach the wire.
#[derive(Clone, Copy, Debug, PartialEq, Eq, Structural)]
pub struct VersionNumber(pub u8);

/// The three-bit protocol mode.
///
/// In unicast and manycast modes the client sets this field to `Client` in
/// the request and the server sets it to `Server` in the reply. In broadcast
/// mode the server sets it to `Broadcast`. The other modes are not used by
/// SNTP servers and clients.
#[derive(Clone, Copy, Debug, PartialEq, Eq, Structural)]
pub enum Mode {
    Reserved,
    SymetricActive,
    SymetricPassive,
    Client,
    Server,
    Broadcast,
    /// reserved for NTP control message
    NTPReserved,
    /// reserved for private use
    PrivateReserved,
}

/// The eight-bit stratum: the distance from a reference clock. Significant
/// only in SNTP server messages.
#[derive(Clone, Copy, Debug, PartialEq, Eq, Structural)]
pub enum Stratum {
    /// stratum 0: the server asks the client to stop querying it
    KissOfDeath,
    /// stratum 1
    PrimaryReference,
    /// strata 2 to 15, carrying the level
    SecondaryReference(u8),
    /// strata 16 to 255, carrying the value
    Reserved(u8),
}

/// The code of a leap indicator on the wire.
pub open spec fn leap_code(l: LeapIndicator) -> u8 {
    match l {
        LeapIndicator::NoWarning => 0,
        LeapIndicator::LongMinute => 1,
        LeapIndicator::ShortMinute => 2,
        LeapIndicator::AlarmCondition => 3,
    }
}

/// The leap indicator of a two-bit code.
pub open spec fn leap_of_code(c: u8) -> LeapIndicator {
    if c == 0 {
        LeapIndicator::NoWarning
    } else if c == 1 {
        LeapIndicator::LongMinute
    } else if c == 2 {
        LeapIndicator::ShortMinute
    } else {
        LeapIndicator::AlarmCondition
    }
}

/// The code of a mode on the wire.
pub open spec fn mode_code(m: Mode) -> u8 {
    match m {
        Mode::Reserved => 0,
        Mode::SymetricActive => 1,
        Mode::SymetricPassive => 2,
        Mode::Client => 3,
        Mode::Server => 4,
        Mode::Broadcast => 5,
        Mode::NTPReserved => 6,
        Mode::PrivateReserved => 7,
    }
}

/// The mode of a three-bit code.
pub open spec fn mode_of_code(c: u8) -> Mode {
    if c == 0 {
        Mode::Reserved
    } else if c == 1 {
        Mode::SymetricActive
    } else if c == 2 {
        Mode::SymetricPassive
    } else if c == 3 {
        Mode::Client
    } else if c == 4 {
        Mode::Server
    } else if c == 5 {
        Mode::Broadcast
    } else if c == 6 {
        Mode::NTPReserved
    } else {
        Mode::PrivateReserved
    }
}

/// The code of a stratum on the wire; the two ranged variants carry it.
pub open spec fn stratum_code(s: Stratum) -> u8 {
    match s {
        Stratum::KissOfDeath => 0,
        Stratum::PrimaryReference => 1,
        Stratum::SecondaryReference(n) => n,
        Stratum::Reserved(n) => n,
    }
}

/// The stratum of an eight-bit code.
pub open spec fn stratum_of_code(c: u8) -> Stratum {
    if c == 0 {
        Stratum::KissOfDeath
    } else if c == 1 {
        Stratum::PrimaryReference
    } else if c <= 15 {
        Stratum::SecondaryReference(c)
    } else {
        Stratum::Reserved(c)
    }
}

impl LeapIndicator {
    pub fn code(&self) -> (r: u8)
        ensures
            r == leap_code(*self),
    {
        match self {
            LeapIndicator::NoWarning => 0,
            LeapIndicator::LongMinute => 1,
            LeapIndicator::ShortMinute => 2,
            LeapIndicator::AlarmCondition => 3,
        }
    }

    pub fn from_code(c: u8) -> (r: LeapIndicator)
        requires
            c < 4,
        ensures
            r == leap_of_code(c),
            leap_code(r) == c,
    {
        if c == 0 {
            LeapIndicator::NoWarning
        } else if c == 1 {
            LeapIndicator::LongMinute
        } else if c == 2 {
            LeapIndicator::ShortMinute
        } else {
            LeapIndicator::AlarmCondition
        }
    }
}

impl Mode {
    pub fn code(&self) -> (r: u8)
        ensures
            r == mode_code(*self),
    {
        match self {
            Mode::Reserved => 0,
            Mode::SymetricActive => 1,
            Mode::SymetricPassive => 2,
            Mode::Client => 3,
            Mode::Server => 4,
            Mode::Broadcast => 5,
            Mode::NTPReserved => 6,
            Mode::PrivateReserved => 7,
        }
    }

    pub fn from_code(c: u8) -> (r: Mode)
        requires
            c < 8,
        ensures
            r == mode_of_code(c),
            mode_code(r) == c,
    {
        if c == 0 {
            Mode::Reserved
        } else if c == 1 {
            Mode::SymetricActive
        } else if c == 2 {
            Mode::SymetricPassive
        } else if c == 3 {
            Mode::Client
        } else if c == 4 {
            Mode::Server
        } else if c == 5 {
            Mode::Broadcast
        } else if c == 6 {
            Mode::NTPReserved
        } else {
            Mode::PrivateReserved
        }
    }
}

impl Stratum {
    pub fn code(&self) -> (r: u8)
        ensures
            r == stratum_code(*self),
    {
        match self {
            Stratum::KissOfDeath => 0,
            Stratum::PrimaryReference => 1,
            Stratum::SecondaryReference(n) => *n,
            Stratum::Reserved(n) => *n,
        }
    }

    pub fn from_code(c: u8) -> (r: Stratum)
        ensures
            r == stratum_of_code(c),
            stratum_code(r) == c,
    {
        if c == 0 {
            Stratum::KissOfDeath
        } else if c == 1 {
            Stratum::PrimaryReference
        } else if c <= 15 {
            Stratum::SecondaryReference(c)
        } else {
            Stratum::Reserved(c)
        }
    }
}

/// The big-endian 32-bit unsigned integer held by `s[at..at + 4]`.
pub open spec fn be_u32_at(s: Seq<u8>, at: int) -> int {
    s[at] * 0x100_0000 + s[at + 1] * 0x1_0000 + s[at + 2] * 0x100 + s[at + 3]
}

/// Reads the big-endian 32-bit unsigned integer at `input[at..at + 4]`.
pub fn read_be_u32(input: &[u8], at: usize) -> (r: u32)
    requires
        at + 4 <= input@.len(),
    ensures
        r == be_u32_at(input@, at as int),
{
    let b0 = input[at] as u32;
    let b1 = input[at + 1] as u32;
    let b2 = input[at + 2] as u32;
    let b3 = input[at + 3] as u32;
    b0 * 0x100_0000 + b1 * 0x1_0000 + b2 * 0x100 + b3
}

/// Converts the seconds of an NTP timestamp to seconds since the Unix epoch;
/// instants before 1970 come out negative.
pub fn ntp_to_unix_seconds(seconds: u32) -> (r: i64)
    ensures
        r == seconds - 2_208_988_800,
{
    seconds as i64 - NTP_UNIX_OFFSET
}

/// An NTP timestamp: seconds since 1900-01-01T00:00:00Z and an unsigned
/// fraction of a second in units of 1/2^32 s.
#[derive(Clone, Copy, Debug, PartialEq, Eq, Structural)]
pub struct NtpTimestamp {
    pub seconds: u32,
    pub fraction: u32,
}

impl NtpTimestamp {
    /// The whole seconds of this instant since the Unix epoch; the fraction
    /// does not depend on the epoch and is left as it is.
    pub fn unix_seconds(&self) -> (r: i64)
        ensures
            r == self.seconds - 2_208_988_800,
    {
        ntp_to_unix_seconds(self.seconds)
    }
}

/// What a valid server reply carries.
#[derive(Clone, Copy, Debug, PartialEq, Eq, Structural)]
pub struct ReplyFields {
    pub leap_indicator: LeapIndicator,
    pub version_number: VersionNumber,
    pub mode: Mode,
    pub stratum: Stratum,
    pub transmit_timestamp: NtpTimestamp,
}

/// Why a received frame is not a valid SNTP server reply.
#[derive(Clone, Copy, Debug, PartialEq, Eq, Structural)]
pub enum DecodeError {
    /// The frame is not 48 bytes long; carries the length it had.
    MalformedPacket(usize),
    /// The version number is not 4; carries the one found.
    UnsupportedVersion(u8),
    /// The mode is neither server nor broadcast; carries the one found.
    UnexpectedMode(u8),
}

/// Leap indicator bits (7-6) of a header byte.
pub open spec fn header_leap(b: u8) -> u8 {
    b / 64
}

/// Version number bits (5-3) of a header byte.
pub open spec fn header_version(b: u8) -> u8 {
    (b / 8) % 8
}

/// Mode bits (2-0) of a header byte.
pub open spec fn header_mode(b: u8) -> u8 {
    b % 8
}

/// The header byte that packs a leap indicator, a version and a mode.
pub open spec fn header_byte(leap: int, version: int, mode: int) -> int {
    leap * 64 + version * 8 + mode
}

/// Whether a mode code is one a server replies with: server or broadcast.
pub open spec fn is_reply_mode(m: u8) -> bool {
    m == 4 || m == 5
}

/// The outcome of decoding a received frame: the first rule it breaks, in
/// the order length, version, mode; else the fields it carries.
pub open spec fn reply_of(s: Seq<u8>) -> Result<ReplyFields, DecodeError> {
    if s.len() != 48 {
        Err(DecodeError::MalformedPacket(s.len() as usize))
    } else if header_version(s[0]) != 4 {
        Err(DecodeError::UnsupportedVersion(header_version(s[0])))
    } else if !is_reply_mode(header_mode(s[0])) {
        Err(DecodeError::UnexpectedMode(header_mode(s[0])))
    } else {
        Ok(
            ReplyFields {
                leap_indicator: leap_of_code(header_leap(s[0])),
                version_number: VersionNumber(4),
                mode: mode_of_code(header_mode(s[0])),
                stratum: stratum_of_code(s[1]),
                transmit_timestamp: NtpTimestamp {
                    seconds: be_u32_at(s, 40) as u32,
                    fraction: be_u32_at(s, 44) as u32,
                },
            },
        )
    }
}

/// Decodes and validates a frame received from a time server.
pub fn decode_reply(bytes: &[u8]) -> (r: Result<ReplyFields, DecodeError>)
    ensures
        r == reply_of(bytes@),
{
    if bytes.len() != PACKET_SIZE {
        return Err(DecodeError::MalformedPacket(bytes.len()));
    }
    let hdr: u8 = bytes[0];
    let leap: u8 = hdr >> 6;
    let version: u8 = (hdr >> 3) & 0x7;
    let mode: u8 = hdr & 0x7;
    assert(hdr >> 6 == hdr / 64) by (bit_vector);
    assert((hdr >> 3) & 0x7 == (hdr / 8) % 8) by (bit_vector);
    assert(hdr & 0x7 == hdr % 8) by (bit_vector);
    if version != 4 {
        return Err(DecodeError::UnsupportedVersion(version));
    }
    if mode != 4 && mode != 5 {
        return Err(DecodeError::UnexpectedMode(mode));
    }
    let seconds = read_be_u32(bytes, 40);
    let fraction = read_be_u32(bytes, 44);
    Ok(
        ReplyFields {
            leap_indicator: LeapIndicator::from_code(leap),
            version_number: VersionNumber(version),
            mode: Mode::from_code(mode),
            stratum: Stratum::from_code(bytes[1]),
            transmit_timestamp: NtpTimestamp { seconds, fraction },
        },
    )
}

/// The fields of an outgoing frame. The unused fields of the wire layout
/// (poll, precision, root delay and dispersion, reference identifier and
/// timestamp) are sent as zeros.
#[derive(Clone, Copy, Debug)]
pub struct SendPacket {
    pub leap_indicator: LeapIndicator,
    pub version_number: VersionNumber,
    pub mode: Mode,
    pub stratum: Stratum,
    pub originate_timestamp: Option<u64>,
    pub recieve_timestamp: Option<u64>,
    pub transmit_timestamp: u64,
}

/// The value an optional timestamp takes on the wire: zero when unset.
pub open spec fn timestamp_value(t: Option<u64>) -> u64 {
    match t {
        Some(v) => v,
        None => 0,
    }
}

/// The big-endian 64-bit unsigned integer held by `s[at..at + 8]`: the
/// seconds word followed by the fraction word.
pub open spec fn be_u64_at(s: Seq<u8>, at: int) -> int {
    be_u32_at(s, at) * 0x1_0000_0000 + be_u32_at(s, at + 4)
}

/// Whether `s` is the 48-byte wire frame of `p`.
pub open spec fn encodes(p: SendPacket, s: Seq<u8>) -> bool {
    &&& s.len() == 48
    &&& s[0] == header_byte(
        leap_code(p.leap_indicator) as int,
        (p.version_number.0 % 8) as int,
        mode_code(p.mode) as int,
    )
    &&& s[1] == stratum_code(p.stratum)
    &&& forall|i: int| 2 <= i < 24 ==> s[i] == 0
    &&& be_u64_at(s, 24) == timestamp_value(p.originate_timestamp)
    &&& be_u64_at(s, 32) == timestamp_value(p.recieve_timestamp)
    &&& be_u64_at(s, 40) == p.transmit_timestamp
}

/// The packet that `SendPacket::new` builds.
pub open spec fn new_packet() -> SendPacket {
    SendPacket {
        leap_indicator: LeapIndicator::NoWarning,
        version_number: VersionNumber(4),
        mode: Mode::Client,
        stratum: Stratum::SecondaryReference(3),
        originate_timestamp: None,
        recieve_timestamp: None,
        transmit_timestamp: 0,
    }
}

/// Whether `s` is the frame a minimal client sends: no leap warning,
/// version 4, client mode, and every other byte zero.
pub open spec fn is_request_frame(s: Seq<u8>) -> bool {
    &&& s.len() == 48
    &&& s[0] == header_byte(0, 4, 3)
    &&& forall|i: int| 1 <= i < 48 ==> s[i] == 0
}

/// Writes `v` big-endian into `buf[at..at + 4]`, leaving the rest as it was.
fn write_be_u32(buf: &mut Vec<u8>, at: usize, v: u32)
    requires
        at + 4 <= old(buf)@.len(),
    ensures
        final(buf)@.len() == old(buf)@.len(),
        forall|i: int|
            0 <= i < old(buf)@.len() && !(at <= i < at + 4) ==> final(buf)@[i] == old(buf)@[i],
        be_u32_at(final(buf)@, at as int) == v,
{
    let len: usize = buf.len();
    assert(((v >> 24) & 0xff) < 0x100 && ((v >> 16) & 0xff) < 0x100 && ((v >> 8) & 0xff) < 0x100
        && (v & 0xff) < 0x100) by (bit_vector);
    let b0: u8 = ((v >> 24) & 0xff) as u8;
    let b1: u8 = ((v >> 16) & 0xff) as u8;
    let b2: u8 = ((v >> 8) & 0xff) as u8;
    let b3: u8 = (v & 0xff) as u8;
    assert(((v >> 24) & 0xff) * 0x100_0000 + ((v >> 16) & 0xff) * 0x1_0000 + ((v >> 8) & 0xff)
        * 0x100 + (v & 0xff) == v) by (bit_vector);
    buf[at] = b0;
    buf[at + 1] = b1;
    buf[at + 2] = b2;
    buf[at + 3] = b3;
}

/// Writes `v` big-endian into `buf[at..at + 8]`, leaving the rest as it was.
fn write_be_u64(buf: &mut Vec<u8>, at: usize, v: u64)
    requires
        at + 8 <= old(buf)@.len(),
    ensures
        final(buf)@.len() == old(buf)@.len(),
        forall|i: int|
            0 <= i < old(buf)@.len() && !(at <= i < at + 8) ==> final(buf)@[i] == old(buf)@[i],
        be_u64_at(final(buf)@, at as int) == v,
{
    let len: usize = buf.len();
    assert((v >> 32) < 0x1_0000_0000 && (v & 0xffff_ffff) < 0x1_0000_0000) by (bit_vector);
    assert((v >> 32) * 0x1_0000_0000 + (v & 0xffff_ffff) == v) by (bit_vector);
    let high: u32 = (v >> 32) as u32;
    let low: u32 = (v & 0xffff_ffff) as u32;
    write_be_u32(buf, at, high);
    let ghost mid = buf@;
    write_be_u32(buf, at + 4, low);
    assert(be_u32_at(buf@, at as int) == be_u32_at(mid, at as int));
}

impl SendPacket {
    /// A client request: no leap warning, version 4, client mode, no
    /// timestamps set.
    pub fn new() -> (r: SendPacket)
        ensures
            r == new_packet(),
    {
        SendPacket {
            leap_indicator: LeapIndicator::NoWarning,
            version_number: VersionNumber(4),
            mode: Mode::Client,
            stratum: Stratum::SecondaryReference(3),
            originate_timestamp: None,
            recieve_timestamp: None,
            transmit_timestamp: 0,
        }
    }

    /// The 48-byte big-endian wire frame of this packet.
    pub fn encode(&self) -> (r: Vec<u8>)
        ensures
            encodes(*self, r@),
    {
        let mut buf: Vec<u8> = Vec::new();
        let mut i: usize = 0;
        while i < PACKET_SIZE
            invariant
                i <= PACKET_SIZE,
                buf@.len() == i,
                forall|j: int| 0 <= j < i ==> buf@[j] == 0,
            decreases PACKET_SIZE - i,
        {
            buf.push(0u8);
            i = i + 1;
        }
        let leap: u8 = self.leap_indicator.code();
        let mode: u8 = self.mode.code();
        buf[0] = leap * 64 + (self.version_number.0 % 8) * 8 + mode;
        buf[1] = self.stratum.code();
        let originate: u64 = match self.originate_timestamp {
            Some(t) => t,
            None => 0,
        };
        let receive: u64 = match self.recieve_timestamp {
            Some(t) => t,
            None => 0,
        };
        write_be_u64(&mut buf, 24, originate);
        write_be_u64(&mut buf, 32, receive);
        write_be_u64(&mut buf, 40, self.transmit_timestamp);
        buf
    }
}

/// The frame of a minimal client's request: leap indicator no-warning,
/// version 4, mode client, all other bytes zero.
pub fn encode_request() -> (r: Vec<u8>)
    ensures
        is_request_frame(r@),
{
    let p = SendPacket {
        leap_indicator: LeapIndicator::NoWarning,
        version_number: VersionNumber(4),
        mode: Mode::Client,
        stratum: Stratum::KissOfDeath,
        originate_timestamp: None,
        recieve_timestamp: None,
        transmit_timestamp: 0,
    };
    let r = p.encode();
    assert forall|i: int| 1 <= i < 48 implies r@[i] == 0 by {
        if 24 <= i < 32 {
            assert(be_u32_at(r@, 24) == 0 && be_u32_at(r@, 28) == 0);
        } else if 32 <= i < 40 {
            assert(be_u32_at(r@, 32) == 0 && be_u32_at(r@, 36) == 0);
        } else if 40 <= i < 48 {
            assert(be_u32_at(r@, 40) == 0 && be_u32_at(r@, 44) == 0);
        }
    }
    r
}

/// A frame the client encodes for itself is never accepted as a server
/// reply: its mode is client, so decoding it fails with `UnexpectedMode(3)`.
pub proof fn lemma_request_is_not_a_reply(s: Seq<u8>)
    requires
        is_request_frame(s),
    ensures
        reply_of(s) == Err::<ReplyFields, DecodeError>(DecodeError::UnexpectedMode(3)),
{
}

/// Decoding the frame of any packet reads back what was encoded. The
/// version and mode checks see the packet's own version and mode; a packet
/// that passes them yields its leap indicator, mode and stratum, and its
/// transmit timestamp split into the seconds and the fraction word.
pub proof fn lemma_decode_of_encoded(p: SendPacket, s: Seq<u8>)
    requires
        encodes(p, s),
    ensures
        p.version_number.0 % 8 != 4 ==> reply_of(s) == Err::<ReplyFields, DecodeError>(
            DecodeError::UnsupportedVersion(p.version_number.0 % 8),
        ),
        p.version_number.0 % 8 == 4 && !is_reply_mode(mode_code(p.mode)) ==> reply_of(s)
            == Err::<ReplyFields, DecodeError>(DecodeError::UnexpectedMode(mode_code(p.mode))),
        p.version_number.0 % 8 == 4 && is_reply_mode(mode_code(p.mode)) ==> reply_of(s) == Ok::<
            ReplyFields,
            DecodeError,
        >(
            ReplyFields {
                leap_indicator: p.leap_indicator,
                version_number: VersionNumber(4),
                mode: p.mode,
                stratum: stratum_of_code(stratum_code(p.stratum)),
                transmit_timestamp: NtpTimestamp {
                    seconds: (p.transmit_timestamp / 0x1_0000_0000) as u32,
                    fraction: (p.transmit_timestamp % 0x1_0000_0000) as u32,
                },
            },
        ),
{
    let li = leap_code(p.leap_indicator) as int;
    let v = (p.version_number.0 % 8) as int;
    let m = mode_code(p.mode) as int;
    let b = s[0] as int;
    assert(b / 64 == li && (b / 8) % 8 == v && b % 8 == m) by (nonlinear_arith)
        requires
            b == li * 64 + v * 8 + m,
            0 <= li < 4,
            0 <= v < 8,
            0 <= m < 8,
    ;
    let t = p.transmit_timestamp as int;
    let hi = be_u32_at(s, 40);
    let lo = be_u32_at(s, 44);
    assert(t / 0x1_0000_0000 == hi && t % 0x1_0000_0000 == lo) by (nonlinear_arith)
        requires
            t == hi * 0x1_0000_0000 + lo,
            0 <= lo < 0x1_0000_0000,
            0 <= hi,
    ;
}

} // verus!
