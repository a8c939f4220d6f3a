use uhid::codec::{encode_event, push_u16_le, push_u32_le, read_u16_le, read_u32_le, zero_padded, zero_vec, EventType};
use uhid::request::Create2Req;

#[test]
fn event_type_codes_are_frozen() {
    // the numbering is the wire contract: each variant's code is fixed
    assert_eq!(EventType::LegacyCreate.wire_code(), 0);
    assert_eq!(EventType::Destroy.wire_code(), 1);
    assert_eq!(EventType::Start.wire_code(), 2);
    assert_eq!(EventType::Stop.wire_code(), 3);
    assert_eq!(EventType::Open.wire_code(), 4);
    assert_eq!(EventType::Close.wire_code(), 5);
    assert_eq!(EventType::Output.wire_code(), 6);
    assert_eq!(EventType::LegacyOutput.wire_code(), 7);
    assert_eq!(EventType::LegacyInput.wire_code(), 8);
    assert_eq!(EventType::GetReport.wire_code(), 9);
    assert_eq!(EventType::GetReportReply.wire_code(), 10);
    assert_eq!(EventType::Create2.wire_code(), 11);
    assert_eq!(EventType::Input2.wire_code(), 12);
    assert_eq!(EventType::SetReport.wire_code(), 13);
    assert_eq!(EventType::SetReportReply.wire_code(), 14);
}

#[test]
fn little_endian_helpers() {
    let mut v: Vec<u8> = Vec::new();
    push_u16_le(&mut v, 0xbeef);
    push_u32_le(&mut v, 0x01020304);
    assert_eq!(v, vec![0xef, 0xbe, 0x04, 0x03, 0x02, 0x01]);
    assert_eq!(read_u16_le(&v, 0), 0xbeef);
    assert_eq!(read_u32_le(&v, 2), 0x01020304);
}

#[test]
fn encode_event_frames_discriminant_then_payload() {
    let ev = encode_event(EventType::Input2, Some(vec![1, 2, 3]));
    assert_eq!(ev, vec![12, 0, 0, 0, 1, 2, 3]);
    let ev = encode_event(EventType::Stop, None);
    assert_eq!(ev, vec![3, 0, 0, 0]);
}

#[test]
fn zero_padding() {
    assert_eq!(zero_vec(3), vec![0u8; 3]);
    let padded = zero_padded(&[7u8, 8], 5);
    assert_eq!(padded, vec![7, 8, 0, 0, 0]);
}

#[test]
fn create2_round_trip() {
    let mut name = b"roundtrip device".to_vec();
    name.resize(128, 0);
    let mut phys = b"usb-0000:00:14.0-1".to_vec();
    phys.resize(64, 0);
    let mut uniq = b"serial-0042".to_vec();
    uniq.resize(64, 0);
    let mut rd_data = vec![0xab, 0xcd, 0xef];
    rd_data.resize(4096, 0);
    let req = Create2Req {
        name: name.clone(),
        phys: phys.clone(),
        uniq: uniq.clone(),
        rd_size: 3,
        bus: 5,
        vendor: 0xdead_beef,
        product: 0x0102_0304,
        version: 7,
        country: 8,
        rd_data: rd_data.clone(),
    };
    let bytes = req.encode();
    assert_eq!(bytes.len(), 4372);
    let back = Create2Req::parse(&bytes).unwrap();
    assert_eq!(back.name, name);
    assert_eq!(back.phys, phys);
    assert_eq!(back.uniq, uniq);
    assert_eq!(back.rd_size, 3);
    assert_eq!(back.bus, 5);
    assert_eq!(back.vendor, 0xdead_beef);
    assert_eq!(back.product, 0x0102_0304);
    assert_eq!(back.version, 7);
    assert_eq!(back.country, 8);
    assert_eq!(back.rd_data, rd_data);
    // any other length is rejected
    assert!(Create2Req::parse(&bytes[1..]).is_none());
    assert!(Create2Req::parse(&[]).is_none());
}
