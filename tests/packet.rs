use esp3::packet::{
    CODE_READ_VERSION, PACKET_TYPE_COMMON_COMMAND, PACKET_TYPE_RADIO_ERP1, PACKET_TYPE_RESPONSE,
};
use esp3::{
    broadcast, Address, CommonCommand, ESP3FrameRef, Packet, ParseError, RadioErp1, Response,
    ReturnCode, Rorg, Security, SubtelNum, Version, VersionResponse,
};

fn frame<'a>(packet_type: u8, data: &'a [u8], optional_data: &'a [u8]) -> ESP3FrameRef<'a> {
    ESP3FrameRef { packet_type, data, optional_data }
}

const RADIO_DATA: [u8; 9] = [0xf6, 0x30, 0x31, 0x32, 0x01, 0x02, 0x03, 0x04, 0x20];
const FULL_OPTIONAL: [u8; 7] = [0x03, 0xaa, 0xbb, 0xcc, 0xdd, 0x2d, 0x02];

fn version_payload() -> Vec<u8> {
    let mut d = vec![1, 0, 0, 1, 2, 0, 1, 0, 0xaa, 0xbb, 0xcc, 0xdd, 0, 0, 0, 1, b'G', b'W'];
    d.resize(32, 0);
    d
}

#[test]
fn unknown_packet_encodes_its_raw_bytes() {
    for tag in [0x00u8, 0x03, 0x05, 0x7f, 0xff] {
        let data = [1u8, 2, 3];
        let optional = [9u8];
        let p = Packet::Unknown { packet_type: tag, data: &data, optional: &optional };
        let f = p.encode();
        assert_eq!(f.packet_type, tag);
        assert_eq!(f.data, vec![1, 2, 3]);
        assert_eq!(f.optional_data, vec![9]);
    }
    let p = Packet::Unknown { packet_type: 0x10, data: &[], optional: &[] };
    let f = p.encode();
    assert_eq!(f.packet_type, 0x10);
    assert!(f.data.is_empty() && f.optional_data.is_empty());
}

#[test]
fn address_text_round_trip() {
    for bytes in [[0u8, 0, 0, 0], [0xde, 0xad, 0xbe, 0xef], [0x01, 0x23, 0x45, 0x67], [0xff; 4]] {
        let a = Address(bytes);
        let text = a.to_string();
        assert_eq!(text.len(), 8);
        assert_eq!(Address::from_str(&text).unwrap(), a);
    }
    assert_eq!(Address([0xde, 0xad, 0xbe, 0xef]).to_string(), "deadbeef");
    assert_eq!(Address([0x0a, 0x0b, 0x00, 0x10]).to_string(), "0a0b0010");
}

#[test]
fn address_parse_accepts_hex_digits_of_either_case() {
    assert_eq!(Address::from_str("deadbeef").unwrap(), Address([0xde, 0xad, 0xbe, 0xef]));
    assert_eq!(Address::from_str("DEADBEEF").unwrap(), Address([0xde, 0xad, 0xbe, 0xef]));
    assert_eq!(Address::from_str("0123abCD").unwrap(), Address([0x01, 0x23, 0xab, 0xcd]));
}

#[test]
fn address_parse_rejects_bad_text() {
    for s in ["", "deadbee", "deadbeef0", "deadbeefde", "deadbeeg", "dead beef", "de:ad:be", "ééééé"] {
        assert!(Address::from_str(s).is_err(), "{}", s);
    }
}

#[test]
fn broadcast_is_all_ones() {
    assert_eq!(broadcast(), Address([0xff, 0xff, 0xff, 0xff]));
    assert_eq!(broadcast().to_string(), "ffffffff");
}

#[test]
fn radio_optional_field_thresholds() {
    for len in 0..=7usize {
        let f = frame(PACKET_TYPE_RADIO_ERP1, &RADIO_DATA, &FULL_OPTIONAL[..len]);
        let r = RadioErp1::decode(f).unwrap();
        assert_eq!(r.choice, Rorg::RPS);
        assert_eq!(r.user_data, &[0x30, 0x31, 0x32]);
        assert_eq!(r.sender_id, Address([1, 2, 3, 4]));
        assert_eq!(r.status, 0x20);
        assert_eq!(r.subtel_num, if len >= 1 { Some(SubtelNum::Send) } else { None });
        assert_eq!(r.destination, if len >= 5 { Some(Address([0xaa, 0xbb, 0xcc, 0xdd])) } else { None });
        assert_eq!(r.rssi, if len >= 6 { Some(0x2d) } else { None });
        assert_eq!(r.security, if len >= 7 { Some(Security::Decrypted) } else { None });
    }
}

#[test]
fn radio_optional_length_five() {
    let f = frame(PACKET_TYPE_RADIO_ERP1, &RADIO_DATA, &FULL_OPTIONAL[..5]);
    let r = RadioErp1::decode(f).unwrap();
    assert!(r.subtel_num.is_some());
    assert!(r.destination.is_some());
    assert!(r.rssi.is_none());
    assert!(r.security.is_none());
}

#[test]
fn radio_minimal_data_has_empty_payload() {
    let data = [0xd5u8, 9, 8, 7, 6, 0];
    let r = RadioErp1::decode(frame(PACKET_TYPE_RADIO_ERP1, &data, &[])).unwrap();
    assert_eq!(r.choice, Rorg::BS1);
    assert!(r.user_data.is_empty());
    assert_eq!(r.sender_id, Address([9, 8, 7, 6]));
    assert_eq!(r.status, 0);
}

#[test]
fn radio_too_short() {
    for len in 0..=5usize {
        let r = RadioErp1::decode(frame(PACKET_TYPE_RADIO_ERP1, &RADIO_DATA[..len], &FULL_OPTIONAL));
        assert!(matches!(r, Err(ParseError::PacketTooShort)));
    }
}

#[test]
fn radio_unknown_telegram_type() {
    let mut data = RADIO_DATA;
    data[0] = 0x00;
    let r = RadioErp1::decode(frame(PACKET_TYPE_RADIO_ERP1, &data, &[]));
    assert!(matches!(r, Err(ParseError::UnsupportedPacketType)));
}

#[test]
fn radio_invalid_subtel_and_security() {
    let bad_subtel = [0x01u8];
    let r = RadioErp1::decode(frame(PACKET_TYPE_RADIO_ERP1, &RADIO_DATA, &bad_subtel));
    assert!(matches!(r, Err(ParseError::InvalidPrimitive)));
    let mut bad_security = FULL_OPTIONAL;
    bad_security[6] = 0x05;
    let r = RadioErp1::decode(frame(PACKET_TYPE_RADIO_ERP1, &RADIO_DATA, &bad_security));
    assert!(matches!(r, Err(ParseError::InvalidPrimitive)));
}

#[test]
fn radio_encode_decode_round_trip() {
    let r = RadioErp1::decode(frame(PACKET_TYPE_RADIO_ERP1, &RADIO_DATA, &FULL_OPTIONAL)).unwrap();
    let f = r.encode();
    assert_eq!(f.packet_type, PACKET_TYPE_RADIO_ERP1);
    assert_eq!(f.data, RADIO_DATA.to_vec());
    assert_eq!(f.optional_data, FULL_OPTIONAL.to_vec());
    let back = RadioErp1::decode(f.as_frame_ref()).unwrap();
    assert_eq!(back.user_data, r.user_data);
    assert_eq!(back.security, r.security);
}

#[test]
fn radio_encode_stops_at_first_absent_optional_field() {
    let user = [7u8];
    let r = RadioErp1 {
        choice: Rorg::BS4,
        user_data: &user,
        sender_id: Address([1, 2, 3, 4]),
        status: 5,
        subtel_num: Some(SubtelNum::Receive),
        destination: None,
        rssi: Some(0x40),
        security: None,
    };
    let f = r.encode();
    assert_eq!(f.data, vec![0xa5, 7, 1, 2, 3, 4, 5]);
    assert_eq!(f.optional_data, vec![0x00]);
}

#[test]
fn response_minimal() {
    let r = Response::decode(frame(PACKET_TYPE_RESPONSE, &[0x00], &[])).unwrap();
    assert_eq!(r.code, ReturnCode::RetOk);
    assert!(r.data.is_empty());
}

#[test]
fn response_with_payload() {
    let r = Response::decode(frame(PACKET_TYPE_RESPONSE, &[0x02, 1, 2, 3], &[])).unwrap();
    assert_eq!(r.code, ReturnCode::RetNotSupported);
    assert_eq!(r.data, vec![1, 2, 3]);
}

#[test]
fn response_invalid_return_code() {
    let r = Response::decode(frame(PACKET_TYPE_RESPONSE, &[0xfe, 1, 2], &[]));
    assert!(matches!(r, Err(ParseError::InvalidResultCode(0xfe))));
    let r = Response::decode(frame(PACKET_TYPE_RESPONSE, &[0xfe], &[]));
    assert!(matches!(r, Err(ParseError::InvalidResultCode(0xfe))));
}

#[test]
fn response_empty_data_is_too_short() {
    let r = Response::decode(frame(PACKET_TYPE_RESPONSE, &[], &[]));
    assert!(matches!(r, Err(ParseError::PacketTooShort)));
}

#[test]
fn response_encode() {
    let r = Response { code: ReturnCode::RetWrongParam, data: vec![4, 5] };
    let f = r.encode();
    assert_eq!(f.packet_type, PACKET_TYPE_RESPONSE);
    assert_eq!(f.data, vec![0x03, 4, 5]);
    assert!(f.optional_data.is_empty());
}

#[test]
fn version_response_exact_example() {
    let resp = Response { code: ReturnCode::RetOk, data: version_payload() };
    let v = VersionResponse::decode(&resp).unwrap();
    assert_eq!(v.app, Version { main: 1, beta: 0, alpha: 0, build: 1 });
    assert_eq!(v.api, Version { main: 2, beta: 0, alpha: 1, build: 0 });
    assert_eq!(v.app.to_string(), "1.0.0.1");
    assert_eq!(v.api.to_string(), "2.0.1.0");
    assert_eq!(v.chip_id.to_string(), "aabbccdd");
    assert_eq!(v.chip_version, [0, 0, 0, 1]);
    assert_eq!(v.description, "GW");
}

#[test]
fn version_response_text() {
    let resp = Response { code: ReturnCode::RetOk, data: version_payload() };
    let v = VersionResponse::decode(&resp).unwrap();
    assert_eq!(v.to_string(), "GW (APP:1.0.0.1, API:2.0.1.0, Chip address:aabbccdd, version [0, 0, 0, 1]");
    let w = Version { main: 255, beta: 10, alpha: 99, build: 100 };
    assert_eq!(w.to_string(), "255.10.99.100");
}

#[test]
fn version_response_full_description() {
    let mut d = version_payload();
    for (i, b) in d[16..32].iter_mut().enumerate() {
        *b = b'a' + i as u8;
    }
    let v = VersionResponse::decode(&Response { code: ReturnCode::RetOk, data: d }).unwrap();
    assert_eq!(v.description, "abcdefghijklmnop");
}

#[test]
fn version_response_description_ends_at_first_nul() {
    let mut d = version_payload();
    d[19] = b'X';
    let v = VersionResponse::decode(&Response { code: ReturnCode::RetOk, data: d }).unwrap();
    assert_eq!(v.description, "GW");
    let mut d = version_payload();
    d[16] = 0;
    let v = VersionResponse::decode(&Response { code: ReturnCode::RetOk, data: d }).unwrap();
    assert_eq!(v.description, "");
}

#[test]
fn version_response_wrong_length() {
    for len in [0usize, 31, 33] {
        let mut d = version_payload();
        d.resize(len, 0);
        let r = VersionResponse::decode(&Response { code: ReturnCode::RetOk, data: d });
        assert!(matches!(r, Err(ParseError::PacketTooShort)));
    }
}

#[test]
fn version_response_invalid_text() {
    let mut d = version_payload();
    d[17] = 0xff;
    let r = VersionResponse::decode(&Response { code: ReturnCode::RetOk, data: d });
    assert!(matches!(r, Err(ParseError::UTF8(_))));
}

#[test]
fn version_response_encode_round_trip() {
    let v = VersionResponse::decode(&Response { code: ReturnCode::RetOk, data: version_payload() }).unwrap();
    let r = v.encode();
    assert_eq!(r.code, ReturnCode::RetOk);
    assert_eq!(r.data, version_payload());
    let back = VersionResponse::decode(&r).unwrap();
    assert_eq!(back.description, "GW");
    assert_eq!(back.app, v.app);
}

#[test]
fn read_version_encode() {
    let f = CommonCommand::ReadVersion.encode();
    assert_eq!(f.packet_type, 0x05);
    assert_eq!(f.data, vec![0x03]);
    assert!(f.optional_data.is_empty());
    let f = Packet::CommonCommand(CommonCommand::ReadVersion).encode();
    assert_eq!(f.packet_type, PACKET_TYPE_COMMON_COMMAND);
    assert_eq!(f.data, vec![CODE_READ_VERSION]);
}

#[test]
fn unknown_command_encode() {
    let f = CommonCommand::Unknown { code: 0x08, data: &[1, 2], optional: &[3] }.encode();
    assert_eq!(f.packet_type, 0x05);
    assert_eq!(f.data, vec![0x08, 1, 2]);
    assert_eq!(f.optional_data, vec![3]);
    let f = CommonCommand::assemble(0x09, &[], &[4, 5]);
    assert_eq!(f.data, vec![0x09]);
    assert_eq!(f.optional_data, vec![4, 5]);
}

#[test]
fn packet_decode_unsupported_tag() {
    let r = Packet::decode(frame(0x7f, &[0x00], &[]));
    assert!(matches!(r, Err(ParseError::UnsupportedPacketType)));
    let r = Packet::decode(frame(0x05, &[0x03], &[]));
    assert!(matches!(r, Err(ParseError::UnsupportedPacketType)));
}

#[test]
fn packet_decode_dispatch() {
    match Packet::decode(frame(0x01, &RADIO_DATA, &[])) {
        Ok(Packet::RadioErp1(r)) => assert_eq!(r.status, 0x20),
        _ => panic!("expected a radio telegram"),
    }
    match Packet::decode(frame(0x02, &[0x00, 7], &[])) {
        Ok(Packet::Response(r)) => assert_eq!(r.data, vec![7]),
        _ => panic!("expected a response"),
    }
    assert!(matches!(Packet::decode(frame(0x01, &[0xf6], &[])), Err(ParseError::PacketTooShort)));
    assert!(matches!(Packet::decode(frame(0x02, &[0x42], &[])), Err(ParseError::InvalidResultCode(0x42))));
}

#[test]
fn primitive_codes() {
    assert_eq!(Rorg::from_byte(0xa5), Some(Rorg::BS4));
    assert_eq!(Rorg::BS4.to_byte(), 0xa5);
    assert_eq!(Rorg::from_byte(0x00), None);
    assert_eq!(ReturnCode::from_byte(0x07), Some(ReturnCode::RetNoFreeBuffer));
    assert_eq!(ReturnCode::from_byte(0x08), None);
    assert_eq!(SubtelNum::from_byte(3), Some(SubtelNum::Send));
    assert_eq!(SubtelNum::from_byte(1), None);
    assert_eq!(Security::from_byte(4), Some(Security::AuthAndDecrypted));
    assert_eq!(Security::from_byte(5), None);
    assert_eq!(Security::Unsecured.to_byte(), 0);
}
