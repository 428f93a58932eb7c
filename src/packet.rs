//! Packets of the ESP3 protocol: decoding received frames into typed packets and
//! encoding typed packets into frames.

use vstd::prelude::*;
use vstd::slice::{slice_subrange, slice_to_vec};
use vstd::string::StringExecFns;
use vstd::utf8::*;

use crate::address::{lower_hex_text, Address};
use crate::enocean::{return_code_of, rorg_of, ReturnCode, Rorg};
use crate::frame::{append_bytes, ESP3Frame, ESP3FrameRef, FrameView};

verus! {

#[verifier::external_type_specification]
#[verifier::external_body]
pub struct ExUtf8Error(core::str::Utf8Error);

/// The return code of a gateway response.
pub type ResponseCode = ReturnCode;

/// A three-byte equipment profile code.
pub struct EEPProfileCode(pub [u8; 3]);

/// Why a frame could not be decoded.
#[derive(Debug)]
pub enum ParseError {
    /// The packet type, or the telegram type within it, is not one this codec knows.
    UnsupportedPacketType,
    /// A segment is shorter than the fields it must hold.
    PacketTooShort,
    /// A text field is not well-formed UTF-8.
    UTF8(core::str::Utf8Error),
    /// The return code byte is not a known return code; the byte is kept.
    InvalidResultCode(u8),
    /// Another enumerated field holds a byte outside its known set.
    InvalidPrimitive,
}

/// The sub-telegram number of a radio telegram.
#[derive(Debug, Clone, Copy, PartialEq, Eq, Hash)]
pub enum SubtelNum {
    /// A telegram sent by the gateway.
    Send,
    /// A telegram received by the gateway.
    Receive,
}

/// The sub-telegram number that a byte stands for.
pub open spec fn subtel_num_of(b: u8) -> Option<SubtelNum> {
    if b == 3 {
        Some(SubtelNum::Send)
    } else if b == 0 {
        Some(SubtelNum::Receive)
    } else {
        None
    }
}

impl SubtelNum {
    /// The byte that stands for this value on the wire.
    pub open spec fn spec_byte(self) -> u8 {
        match self {
            SubtelNum::Send => 3,
            SubtelNum::Receive => 0,
        }
    }

    /// The byte that stands for this value on the wire.
    pub fn to_byte(self) -> (r: u8)
        ensures
            r == self.spec_byte(),
    {
        match self {
            SubtelNum::Send => 3,
            SubtelNum::Receive => 0,
        }
    }

    /// The value a byte stands for; `None` for a byte outside the known set.
    pub fn from_byte(b: u8) -> (r: Option<SubtelNum>)
        ensures
            r == subtel_num_of(b),
    {
        if b == 3 {
            Some(SubtelNum::Send)
        } else if b == 0 {
            Some(SubtelNum::Receive)
        } else {
            None
        }
    }

    /// Reading back the byte of a value gives that value.
    pub proof fn lemma_byte_round_trip(self)
        ensures
            subtel_num_of(self.spec_byte()) == Some(self),
    {
    }

}

/// The security level of a radio telegram.
#[derive(Debug, Clone, Copy, PartialEq, Eq, Hash)]
pub enum Security {
    /// No security.
    Unsecured,
    /// Obsolete security level.
    Obsolete,
    /// Decrypted.
    Decrypted,
    /// Authenticated.
    Authenticated,
    /// Authenticated and decrypted.
    AuthAndDecrypted,
}

/// The security level that a byte stands for.
pub open spec fn security_of(b: u8) -> Option<Security> {
    if b == 0 {
        Some(Security::Unsecured)
    } else if b == 1 {
        Some(Security::Obsolete)
    } else if b == 2 {
        Some(Security::Decrypted)
    } else if b == 3 {
        Some(Security::Authenticated)
    } else if b == 4 {
        Some(Security::AuthAndDecrypted)
    } else {
        None
    }
}

impl Security {
    /// The byte that stands for this value on the wire.
    pub open spec fn spec_byte(self) -> u8 {
        match self {
            Security::Unsecured => 0,
            Security::Obsolete => 1,
            Security::Decrypted => 2,
            Security::Authenticated => 3,
            Security::AuthAndDecrypted => 4,
        }
    }

    /// The byte that stands for this value on the wire.
    pub fn to_byte(self) -> (r: u8)
        ensures
            r == self.spec_byte(),
    {
        match self {
            Security::Unsecured => 0,
            Security::Obsolete => 1,
            Security::Decrypted => 2,
            Security::Authenticated => 3,
            Security::AuthAndDecrypted => 4,
        }
    }

    /// The value a byte stands for; `None` for a byte outside the known set.
    pub fn from_byte(b: u8) -> (r: Option<Security>)
        ensures
            r == security_of(b),
    {
        if b == 0 {
            Some(Security::Unsecured)
        } else if b == 1 {
            Some(Security::Obsolete)
        } else if b == 2 {
            Some(Security::Decrypted)
        } else if b == 3 {
            Some(Security::Authenticated)
        } else if b == 4 {
            Some(Security::AuthAndDecrypted)
        } else {
            None
        }
    }

    /// Reading back the byte of a value gives that value.
    pub proof fn lemma_byte_round_trip(self)
        ensures
            security_of(self.spec_byte()) == Some(self),
    {
    }

}

/// A radio telegram as relayed by the gateway. `user_data` borrows from the frame it
/// was decoded from.
#[derive(Debug, Clone, Copy)]
pub struct RadioErp1<'a> {
    pub choice: Rorg,
    pub user_data: &'a [u8],
    pub sender_id: Address,
    pub status: u8,
    pub subtel_num: Option<SubtelNum>,
    pub destination: Option<Address>,
    pub rssi: Option<u8>,
    pub security: Option<Security>,
}

/// An event reported by the gateway.
#[derive(Debug, Clone, Copy)]
pub enum Event<'a> {
    SAReclaimUnsuccessful,
    SAConfirmLearn { data: &'a [u8; 17] },
    SALearnAck { data: &'a [u8; 3] },
    COReady { wakeup: u8, mode: Option<u8> },
    COEventSecureDevices { cause: u8, device: Address },
    CODutyCycleLimit { cause: u8 },
    COTXFailed { cause: u8 },
    COTXDone,
    COLrnModeDisabled,
}

/// A reply of the gateway to a command: its return code and the bytes after it.
#[derive(Debug, Clone)]
pub struct Response {
    pub code: ResponseCode,
    pub data: Vec<u8>,
}

/// A four-part version number.
#[derive(Debug, Clone, Copy, PartialEq, Eq)]
pub struct Version {
    pub main: u8,
    pub beta: u8,
    pub alpha: u8,
    pub build: u8,
}

/// The gateway's reply to a version query.
#[derive(Debug, Clone)]
pub struct VersionResponse {
    pub app: Version,
    pub api: Version,
    pub chip_id: Address,
    pub chip_version: [u8; 4],
    pub description: String,
}

/// A command addressed to the gateway itself.
#[derive(Debug, Clone, Copy)]
pub enum CommonCommand<'a> {
    /// Asks for the gateway's versions.
    ReadVersion,
    /// Any other command, carried as raw bytes.
    Unknown { code: u8, data: &'a [u8], optional: &'a [u8] },
}

/// A packet of any type.
#[derive(Debug, Clone)]
pub enum Packet<'a> {
    RadioErp1(RadioErp1<'a>),
    Response(Response),
    CommonCommand(CommonCommand<'a>),
    /// A packet of a type not modelled here, carried as raw bytes.
    Unknown { packet_type: u8, data: &'a [u8], optional: &'a [u8] },
}

/// Packet type of a radio telegram.
pub const PACKET_TYPE_RADIO_ERP1: u8 = 0x01;

/// Packet type of a response.
pub const PACKET_TYPE_RESPONSE: u8 = 0x02;

/// Packet type of a common command.
pub const PACKET_TYPE_COMMON_COMMAND: u8 = 0x05;

/// Command code of the version query.
pub const CODE_READ_VERSION: u8 = 0x03;

// ---------------------------------------------------------------- RadioErp1

/// The error of decoding a radio telegram from its data and optional segments, if any.
pub open spec fn radio_error(data: Seq<u8>, opt: Seq<u8>) -> Option<ParseError> {
    if data.len() < 6 {
        Some(ParseError::PacketTooShort)
    } else if rorg_of(data[0]) is None {
        Some(ParseError::UnsupportedPacketType)
    } else if opt.len() >= 1 && subtel_num_of(opt[0]) is None {
        Some(ParseError::InvalidPrimitive)
    } else if opt.len() >= 7 && security_of(opt[6]) is None {
        Some(ParseError::InvalidPrimitive)
    } else {
        None
    }
}

/// Whether `r` holds what the data and optional segments of a radio telegram carry:
/// the type byte, the payload, the sender and the status byte from the data segment,
/// and each optional field exactly when the optional segment reaches it.
pub open spec fn radio_fields(data: Seq<u8>, opt: Seq<u8>, r: RadioErp1) -> bool {
    let n = data.len() as int;
    &&& Some(r.choice) == rorg_of(data[0])
    &&& r.user_data@ == data.subrange(1, n - 5)
    &&& r.sender_id.0@ == data.subrange(n - 5, n - 1)
    &&& r.status == data[n - 1]
    &&& r.subtel_num == (if opt.len() >= 1 { subtel_num_of(opt[0]) } else { None })
    &&& (r.destination is Some <==> opt.len() >= 5)
    &&& (r.destination matches Some(a) ==> a.0@ == opt.subrange(1, 5))
    &&& r.rssi == (if opt.len() >= 6 { Some(opt[5]) } else { None })
    &&& r.security == (if opt.len() >= 7 { security_of(opt[6]) } else { None })
}

/// The data segment of a radio telegram.
pub open spec fn radio_data(r: RadioErp1) -> Seq<u8> {
    seq![r.choice.spec_byte()] + r.user_data@ + r.sender_id.0@ + seq![r.status]
}

/// The optional segment of a radio telegram: its optional fields in order, up to the
/// first one that is absent.
pub open spec fn radio_optional(r: RadioErp1) -> Seq<u8> {
    match r.subtel_num {
        None => Seq::empty(),
        Some(t) => seq![t.spec_byte()] + match r.destination {
            None => Seq::empty(),
            Some(d) => d.0@ + match r.rssi {
                None => Seq::empty(),
                Some(x) => seq![x] + match r.security {
                    None => Seq::empty(),
                    Some(c) => seq![c.spec_byte()],
                },
            },
        },
    }
}

/// Whether each optional field of `r` is present only where all before it are, so
/// that its optional segment can be read back.
pub open spec fn radio_optional_in_order(r: RadioErp1) -> bool {
    &&& (r.destination is Some ==> r.subtel_num is Some)
    &&& (r.rssi is Some ==> r.destination is Some)
    &&& (r.security is Some ==> r.rssi is Some)
}

/// Four bytes of `s` from `start`, as an address.
fn address_at(s: &[u8], start: usize) -> (r: Address)
    requires
        start + 4 <= s@.len(),
    ensures
        r.0@ == s@.subrange(start as int, start + 4),
{
    let r = Address([s[start], s[start + 1], s[start + 2], s[start + 3]]);
    assert(r.0@ =~= s@.subrange(start as int, start + 4));
    r
}

impl<'a> RadioErp1<'a> {
    /// Encodes the telegram: type byte, payload, sender and status as the data
    /// segment; the optional fields, in order up to the first absent one, as the
    /// optional segment.
    pub fn encode(&self) -> (r: ESP3Frame)
        ensures
            r@ == (FrameView {
                packet_type: PACKET_TYPE_RADIO_ERP1,
                data: radio_data(*self),
                optional_data: radio_optional(*self),
            }),
    {
        let mut d: Vec<u8> = Vec::new();
        d.push(self.choice.to_byte());
        append_bytes(&mut d, self.user_data);
        append_bytes(&mut d, self.sender_id.0.as_slice());
        d.push(self.status);
        let mut o: Vec<u8> = Vec::new();
        if let Some(t) = self.subtel_num {
            o.push(t.to_byte());
            if let Some(dest) = self.destination {
                append_bytes(&mut o, dest.0.as_slice());
                if let Some(x) = self.rssi {
                    o.push(x);
                    if let Some(c) = self.security {
                        o.push(c.to_byte());
                    }
                }
            }
        }
        assert(d@ =~= radio_data(*self));
        assert(o@ =~= radio_optional(*self));
        ESP3Frame { packet_type: PACKET_TYPE_RADIO_ERP1, data: d, optional_data: o }
    }

    /// Decodes a radio telegram. The data segment holds a type byte, a payload, four
    /// sender bytes and a status byte, so it needs at least six bytes; each optional
    /// field is read where the optional segment is long enough to hold it.
    pub fn decode(frame: ESP3FrameRef<'a>) -> (r: Result<Self, ParseError>)
        ensures
            match radio_error(frame.data@, frame.optional_data@) {
                Some(e) => r == Err::<RadioErp1, ParseError>(e),
                None => r matches Ok(p) && radio_fields(frame.data@, frame.optional_data@, p),
            },
    {
        let data = frame.data;
        let opt = frame.optional_data;
        if data.len() < 6 {
            return Err(ParseError::PacketTooShort);
        }
        let n = data.len();
        let choice = match Rorg::from_byte(data[0]) {
            Some(c) => c,
            None => return Err(ParseError::UnsupportedPacketType),
        };
        let opt_len = opt.len();
        let subtel_num = if opt_len >= 1 {
            match SubtelNum::from_byte(opt[0]) {
                Some(t) => Some(t),
                None => return Err(ParseError::InvalidPrimitive),
            }
        } else {
            None
        };
        let destination = if opt_len >= 5 {
            Some(address_at(opt, 1))
        } else {
            None
        };
        let rssi = if opt_len >= 6 {
            Some(opt[5])
        } else {
            None
        };
        let security = if opt_len >= 7 {
            match Security::from_byte(opt[6]) {
                Some(c) => Some(c),
                None => return Err(ParseError::InvalidPrimitive),
            }
        } else {
            None
        };
        Ok(RadioErp1 {
            choice,
            user_data: slice_subrange(data, 1, n - 5),
            sender_id: address_at(data, n - 5),
            status: data[n - 1],
            subtel_num,
            destination,
            rssi,
            security,
        })
    }
}

/// Decoding the frame that a radio telegram encodes to gives back the same fields,
/// where its optional fields are present in order.
pub proof fn lemma_radio_round_trip(r: RadioErp1)
    requires
        radio_optional_in_order(r),
    ensures
        radio_error(radio_data(r), radio_optional(r)) is None,
        radio_fields(radio_data(r), radio_optional(r), r),
{
    let d = radio_data(r);
    let o = radio_optional(r);
    let n = d.len() as int;
    r.choice.lemma_byte_round_trip();
    assert(d[0] == r.choice.spec_byte());
    assert(d.subrange(1, n - 5) =~= r.user_data@);
    assert(d.subrange(n - 5, n - 1) =~= r.sender_id.0@);
    assert(d[n - 1] == r.status);
    if let Some(t) = r.subtel_num {
        t.lemma_byte_round_trip();
        assert(o[0] == t.spec_byte());
        if let Some(a) = r.destination {
            assert(o.subrange(1, 5) =~= a.0@);
            if let Some(x) = r.rssi {
                assert(o[5] == x);
                if let Some(c) = r.security {
                    c.lemma_byte_round_trip();
                    assert(o[6] == c.spec_byte());
                    assert(o.len() == 7);
                } else {
                    assert(o.len() == 6);
                }
            } else {
                assert(o.len() == 5);
            }
        } else {
            assert(o.len() == 1);
        }
    } else {
        assert(o.len() == 0);
    }
}

// ---------------------------------------------------------------- Response

/// The frame of a response: its code byte, then its data.
pub open spec fn response_frame(code: ResponseCode, data: Seq<u8>) -> FrameView {
    FrameView { packet_type: PACKET_TYPE_RESPONSE, data: seq![code.spec_byte()] + data, optional_data: Seq::empty() }
}

/// The error of decoding a response from a data segment, if any.
pub open spec fn response_error(data: Seq<u8>) -> Option<ParseError> {
    if data.len() == 0 {
        Some(ParseError::PacketTooShort)
    } else if return_code_of(data[0]) is None {
        Some(ParseError::InvalidResultCode(data[0]))
    } else {
        None
    }
}

/// Whether `p` holds what a response's data segment carries.
pub open spec fn response_fields(data: Seq<u8>, p: Response) -> bool {
    &&& Some(p.code) == return_code_of(data[0])
    &&& p.data@ == data.subrange(1, data.len() as int)
}

impl Response {
    /// Encodes the response: the code byte followed by the data, and no optional segment.
    pub fn encode(&self) -> (r: ESP3Frame)
        ensures
            r@ == response_frame(self.code, self.data@),
    {
        let mut d: Vec<u8> = Vec::new();
        d.push(self.code.to_byte());
        append_bytes(&mut d, self.data.as_slice());
        ESP3Frame { packet_type: PACKET_TYPE_RESPONSE, data: d, optional_data: Vec::new() }
    }

    /// Decodes a response from a frame's data segment: a known return code byte, then
    /// a payload of any length.
    pub fn decode(frame: ESP3FrameRef) -> (r: Result<Response, ParseError>)
        ensures
            match response_error(frame.data@) {
                Some(e) => r == Err::<Response, ParseError>(e),
                None => r matches Ok(p) && response_fields(frame.data@, p),
            },
    {
        if frame.data.len() == 0 {
            return Err(ParseError::PacketTooShort);
        }
        let b = frame.data[0];
        match ReturnCode::from_byte(b) {
            None => Err(ParseError::InvalidResultCode(b)),
            Some(code) => {
                let rest = slice_subrange(frame.data, 1, frame.data.len());
                Ok(Response { code, data: slice_to_vec(rest) })
            },
        }
    }
}

// ---------------------------------------------------------------- VersionResponse

/// The index of the first zero byte of `s` at or after `i`, or the length of `s`.
pub open spec fn nul_from(s: Seq<u8>, i: int) -> int
    decreases s.len() - i,
{
    if i >= s.len() {
        s.len() as int
    } else if s[i] == 0 {
        i
    } else {
        nul_from(s, i + 1)
    }
}

/// The first zero byte at or after `i` lies between `i` and the end of `s`, and none
/// lies before it.
pub proof fn lemma_nul_from(s: Seq<u8>, i: int)
    requires
        0 <= i <= s.len(),
    ensures
        i <= nul_from(s, i) <= s.len(),
        forall|j: int| i <= j < nul_from(s, i) ==> s[j] != 0,
        nul_from(s, i) < s.len() ==> s[nul_from(s, i)] == 0,
    decreases s.len() - i,
{
    if i < s.len() && s[i] != 0 {
        lemma_nul_from(s, i + 1);
    }
}

/// The bytes of `s` before its first zero byte (all of `s` if it has none).
pub open spec fn c_text(s: Seq<u8>) -> Seq<u8> {
    s.take(nul_from(s, 0))
}

/// The four bytes of `d` from `i`, as a version.
pub open spec fn version_at(d: Seq<u8>, i: int) -> Version {
    Version { main: d[i], beta: d[i + 1], alpha: d[i + 2], build: d[i + 3] }
}

/// The bytes of a version.
pub open spec fn version_bytes(v: Version) -> Seq<u8> {
    seq![v.main, v.beta, v.alpha, v.build]
}

/// The description bytes of a version reply's data: its last sixteen bytes up to the
/// first zero byte.
pub open spec fn description_bytes(d: Seq<u8>) -> Seq<u8> {
    c_text(d.subrange(16, 32))
}

/// Whether `v` holds the fields of the version reply data `d`.
pub open spec fn version_fields(d: Seq<u8>, v: VersionResponse) -> bool {
    &&& v.app == version_at(d, 0)
    &&& v.api == version_at(d, 4)
    &&& v.chip_id.0@ == d.subrange(8, 12)
    &&& v.chip_version@ == d.subrange(12, 16)
    &&& v.description@ == decode_utf8(description_bytes(d))
}

/// `b` cut or padded with zero bytes to sixteen bytes.
pub open spec fn padded16(b: Seq<u8>) -> Seq<u8> {
    if b.len() >= 16 {
        b.take(16)
    } else {
        b + Seq::new((16 - b.len()) as nat, |i: int| 0u8)
    }
}

/// The data of the reply that a version reply encodes to.
pub open spec fn version_data(v: VersionResponse) -> Seq<u8> {
    version_bytes(v.app) + version_bytes(v.api) + v.chip_id.0@ + v.chip_version@ + padded16(
        encode_utf8(v.description@),
    )
}

/// Relies on std::str::from_utf8: it succeeds exactly on well-formed UTF-8, and the
/// text it returns is what those bytes encode.
#[verifier::external_body]
fn utf8_text(b: &[u8]) -> (r: Result<&str, core::str::Utf8Error>)
    ensures
        r is Ok <==> valid_utf8(b@),
        r matches Ok(t) ==> t@ == decode_utf8(b@),
{
    std::str::from_utf8(b)
}

/// The number of bytes of `s` before its first zero byte.
fn nul_position(s: &[u8]) -> (r: usize)
    ensures
        r == nul_from(s@, 0),
{
    let mut i: usize = 0;
    while i < s.len() && s[i] != 0
        invariant
            i <= s@.len(),
            nul_from(s@, i as int) == nul_from(s@, 0),
        decreases s@.len() - i,
    {
        i = i + 1;
    }
    i
}

/// Four bytes of `d` from `i`, as a version.
fn version_from(d: &[u8], i: usize) -> (r: Version)
    requires
        i + 4 <= d@.len(),
    ensures
        r == version_at(d@, i as int),
{
    Version { main: d[i], beta: d[i + 1], alpha: d[i + 2], build: d[i + 3] }
}

impl VersionResponse {
    /// Encodes the reply as a successful response: app version, API version, chip
    /// address, chip version, then the description's UTF-8 bytes cut or padded with
    /// zero bytes to sixteen.
    pub fn encode(&self) -> (r: Response)
        ensures
            r.code == ReturnCode::RetOk,
            r.data@ == version_data(*self),
    {
        let mut d: Vec<u8> = Vec::new();
        d.push(self.app.main);
        d.push(self.app.beta);
        d.push(self.app.alpha);
        d.push(self.app.build);
        d.push(self.api.main);
        d.push(self.api.beta);
        d.push(self.api.alpha);
        d.push(self.api.build);
        append_bytes(&mut d, self.chip_id.0.as_slice());
        append_bytes(&mut d, self.chip_version.as_slice());
        let text = self.description.as_str().as_bytes();
        let ghost head = d@;
        let mut i: usize = 0;
        while i < 16
            invariant
                i <= 16,
                text@ == encode_utf8(self.description@),
                d@ == head + padded16(text@).take(i as int),
            decreases 16 - i,
        {
            if i < text.len() {
                d.push(text[i]);
            } else {
                d.push(0);
            }
            i = i + 1;
            assert(padded16(text@).take(i as int) =~= padded16(text@).take(i - 1) + seq![
                padded16(text@)[i - 1],
            ]);
        }
        assert(padded16(text@).take(16) =~= padded16(text@));
        assert(d@ =~= version_data(*self));
        Response { code: ReturnCode::RetOk, data: d }
    }

    /// Decodes a version reply from a response's data, which must be exactly 32
    /// bytes: app version, API version, chip address, chip version, and a 16-byte
    /// description that ends at its first zero byte and must be well-formed UTF-8.
    pub fn decode(response: &Response) -> (r: Result<Self, ParseError>)
        ensures
            response.data@.len() != 32 ==> r matches Err(ParseError::PacketTooShort),
            response.data@.len() == 32 ==> (r is Ok <==> valid_utf8(
                description_bytes(response.data@),
            )),
            response.data@.len() == 32 && r is Err ==> r matches Err(ParseError::UTF8(_)),
            r matches Ok(v) ==> version_fields(response.data@, v),
    {
        let d = response.data.as_slice();
        if d.len() != 32 {
            return Err(ParseError::PacketTooShort);
        }
        let tail = slice_subrange(d, 16, 32);
        let end = nul_position(tail);
        proof {
            lemma_nul_from(tail@, 0);
        }
        let text_bytes = slice_subrange(tail, 0, end);
        assert(text_bytes@ =~= description_bytes(d@));
        let description = match utf8_text(text_bytes) {
            Ok(t) => t.to_owned(),
            Err(e) => return Err(ParseError::UTF8(e)),
        };
        let chip_version = [d[12], d[13], d[14], d[15]];
        assert(chip_version@ =~= d@.subrange(12, 16));
        Ok(VersionResponse {
            app: version_from(d, 0),
            api: version_from(d, 4),
            chip_id: address_at(d, 8),
            chip_version,
            description,
        })
    }
}

// ---------------------------------------------------------------- Text forms

/// The decimal digit of a value below ten.
pub open spec fn decimal_digit(v: int) -> char {
    (v + '0' as int) as char
}

/// The decimal digits of a byte value, most significant first, without leading zeros.
pub open spec fn decimal_text(v: u8) -> Seq<char> {
    if v < 10 {
        seq![decimal_digit(v as int)]
    } else if v < 100 {
        seq![decimal_digit(v as int / 10), decimal_digit(v as int % 10)]
    } else {
        seq![
            decimal_digit(v as int / 100),
            decimal_digit(v as int / 10 % 10),
            decimal_digit(v as int % 10),
        ]
    }
}

/// The text form of a version: its four parts in decimal, separated by dots.
pub open spec fn version_text(v: Version) -> Seq<char> {
    decimal_text(v.main) + seq!['.'] + decimal_text(v.beta) + seq!['.'] + decimal_text(v.alpha)
        + seq!['.'] + decimal_text(v.build)
}

/// Relies on the `ToString` of `u8`, through its `Display`: the value in decimal.
#[verifier::external_body]
fn decimal(v: u8) -> (r: String)
    ensures
        r@ == decimal_text(v),
{
    v.to_string()
}

impl Version {
    /// The text form, such as `1.0.0.1`.
    pub fn to_string(&self) -> (r: String)
        ensures
            r@ == version_text(*self),
    {
        let dot = ".";
        proof {
            reveal_strlit(".");
        }
        let mut r = decimal(self.main);
        r.append(dot);
        r.append(decimal(self.beta).as_str());
        r.append(dot);
        r.append(decimal(self.alpha).as_str());
        r.append(dot);
        r.append(decimal(self.build).as_str());
        r
    }
}

/// The text form of a version reply: the description, the two versions, the chip
/// address and the chip version bytes.
pub open spec fn version_response_text(v: VersionResponse) -> Seq<char> {
    v.description@ + " (APP:"@ + version_text(v.app) + ", API:"@ + version_text(v.api)
        + ", Chip address:"@ + lower_hex_text(v.chip_id.0@) + ", version ["@ + decimal_text(
        v.chip_version[0],
    ) + ", "@ + decimal_text(v.chip_version[1]) + ", "@ + decimal_text(v.chip_version[2]) + ", "@
        + decimal_text(v.chip_version[3]) + "]"@
}

impl VersionResponse {
    /// The text form, such as `GW (APP:1.0.0.1, API:2.0.1.0, Chip address:aabbccdd, version [0, 0, 0, 1]`.
    pub fn to_string(&self) -> (r: String)
        ensures
            r@ == version_response_text(*self),
    {
        let sep = ", ";
        let mut r = self.description.clone();
        r.append(" (APP:");
        r.append(self.app.to_string().as_str());
        r.append(", API:");
        r.append(self.api.to_string().as_str());
        r.append(", Chip address:");
        r.append(self.chip_id.to_string().as_str());
        r.append(", version [");
        r.append(decimal(self.chip_version[0]).as_str());
        r.append(sep);
        r.append(decimal(self.chip_version[1]).as_str());
        r.append(sep);
        r.append(decimal(self.chip_version[2]).as_str());
        r.append(sep);
        r.append(decimal(self.chip_version[3]).as_str());
        r.append("]");
        r
    }
}

// ---------------------------------------------------------------- CommonCommand

/// The frame of a common command: the command code, then its data; the optional
/// segment as it is.
pub open spec fn command_frame(code: u8, data: Seq<u8>, optional: Seq<u8>) -> FrameView {
    FrameView { packet_type: PACKET_TYPE_COMMON_COMMAND, data: seq![code] + data, optional_data: optional }
}

/// The frame a common command encodes to.
pub open spec fn command_encoding(c: CommonCommand) -> FrameView {
    match c {
        CommonCommand::ReadVersion => command_frame(CODE_READ_VERSION, Seq::empty(), Seq::empty()),
        CommonCommand::Unknown { code, data, optional } => command_frame(code, data@, optional@),
    }
}

impl<'a> CommonCommand<'a> {
    /// Builds the frame of a common command from its code, data and optional segment.
    pub fn assemble(code: u8, data: &[u8], optional: &[u8]) -> (r: ESP3Frame)
        ensures
            r@ == command_frame(code, data@, optional@),
    {
        let mut frame_data: Vec<u8> = Vec::new();
        frame_data.push(code);
        append_bytes(&mut frame_data, data);
        ESP3Frame::assemble(PACKET_TYPE_COMMON_COMMAND, frame_data.as_slice(), optional)
    }

    /// Encodes the command; an unknown command is written from its raw fields.
    pub fn encode(&self) -> (r: ESP3Frame)
        ensures
            r@ == command_encoding(*self),
    {
        match self {
            CommonCommand::Unknown { code, data, optional } => CommonCommand::assemble(*code, data, optional),
            CommonCommand::ReadVersion => {
                let empty: Vec<u8> = Vec::new();
                CommonCommand::assemble(CODE_READ_VERSION, empty.as_slice(), empty.as_slice())
            },
        }
    }
}

// ---------------------------------------------------------------- Packet

/// The frame a packet encodes to.
pub open spec fn packet_encoding(p: Packet) -> FrameView {
    match p {
        Packet::RadioErp1(e) => FrameView {
            packet_type: PACKET_TYPE_RADIO_ERP1,
            data: radio_data(e),
            optional_data: radio_optional(e),
        },
        Packet::Response(r) => response_frame(r.code, r.data@),
        Packet::CommonCommand(c) => command_encoding(c),
        Packet::Unknown { packet_type, data, optional } => FrameView {
            packet_type,
            data: data@,
            optional_data: optional@,
        },
    }
}

impl<'a> Packet<'a> {
    /// Encodes the packet by its variant; an unknown packet is written from its raw
    /// type, data and optional segment.
    pub fn encode(&self) -> (r: ESP3Frame)
        ensures
            r@ == packet_encoding(*self),
    {
        match self {
            Packet::RadioErp1(erp) => erp.encode(),
            Packet::CommonCommand(cmd) => cmd.encode(),
            Packet::Response(resp) => resp.encode(),
            Packet::Unknown { packet_type, data, optional } => ESP3Frame::assemble(
                *packet_type,
                data,
                optional,
            ),
        }
    }

    /// Decodes a frame by its packet type: radio telegrams and responses are decoded,
    /// any other type is refused.
    pub fn decode(frame: ESP3FrameRef<'a>) -> (r: Result<Self, ParseError>)
        ensures
            frame.packet_type == PACKET_TYPE_RADIO_ERP1 ==> match radio_error(
                frame.data@,
                frame.optional_data@,
            ) {
                Some(e) => r == Err::<Packet, ParseError>(e),
                None => r matches Ok(Packet::RadioErp1(p)) && radio_fields(
                    frame.data@,
                    frame.optional_data@,
                    p,
                ),
            },
            frame.packet_type == PACKET_TYPE_RESPONSE ==> match response_error(frame.data@) {
                Some(e) => r == Err::<Packet, ParseError>(e),
                None => r matches Ok(Packet::Response(p)) && response_fields(frame.data@, p),
            },
            frame.packet_type != PACKET_TYPE_RADIO_ERP1 && frame.packet_type
                != PACKET_TYPE_RESPONSE ==> r == Err::<Packet, ParseError>(
                ParseError::UnsupportedPacketType,
            ),
    {
        match frame.packet_type {
            0x01 => match RadioErp1::decode(frame) {
                Ok(p) => Ok(Packet::RadioErp1(p)),
                Err(e) => Err(e),
            },
            0x02 => match Response::decode(frame) {
                Ok(p) => Ok(Packet::Response(p)),
                Err(e) => Err(e),
            },
            _ => Err(ParseError::UnsupportedPacketType),
        }
    }
}

/// A packet of a type other than radio telegram or response, carried as raw bytes,
/// encodes to exactly the frame its type and segments came from.
pub proof fn lemma_unknown_round_trip(frame: ESP3FrameRef)
    requires
        frame.packet_type != PACKET_TYPE_RADIO_ERP1,
        frame.packet_type != PACKET_TYPE_RESPONSE,
    ensures
        packet_encoding(
            Packet::Unknown {
                packet_type: frame.packet_type,
                data: frame.data,
                optional: frame.optional_data,
            },
        ) == frame@,
{
}

/// Decoding the frame that a response encodes to gives back its code and data.
pub proof fn lemma_response_round_trip(code: ResponseCode, data: Seq<u8>)
    ensures
        response_error(response_frame(code, data).data) is None,
        Some(code) == return_code_of(response_frame(code, data).data[0]),
        response_frame(code, data).data.subrange(1, data.len() as int + 1) == data,
{
    code.lemma_byte_round_trip();
    assert(response_frame(code, data).data.subrange(1, data.len() as int + 1) =~= data);
}

/// Decoding the reply data that a version reply encodes to gives back its fields,
/// where the description's UTF-8 bytes fit in sixteen bytes and hold no zero byte.
pub proof fn lemma_version_round_trip(v: VersionResponse)
    requires
        encode_utf8(v.description@).len() <= 16,
        forall|i: int|
            0 <= i < encode_utf8(v.description@).len() ==> #[trigger] encode_utf8(
                v.description@,
            )[i] != 0,
    ensures
        version_data(v).len() == 32,
        valid_utf8(description_bytes(version_data(v))),
        version_fields(version_data(v), v),
{
    let d = version_data(v);
    let t = encode_utf8(v.description@);
    let tail = d.subrange(16, 32);
    assert(tail =~= padded16(t));
    lemma_nul_from(tail, 0);
    let k = nul_from(tail, 0);
    if k < t.len() {
        assert(tail[k] == t[k]);
    }
    if k > t.len() {
        assert(tail[t.len() as int] == 0);
    }
    assert(description_bytes(d) =~= t);
    encode_utf8_valid_utf8(v.description@);
    encode_utf8_decode_utf8(v.description@);
    assert(d.subrange(8, 12) =~= v.chip_id.0@);
    assert(d.subrange(12, 16) =~= v.chip_version@);
}

} // verus!
