use hdars::error::{HdaError, RecordField};
use hdars::record::{
    c_card_info, c_hda_info, decode_text_field, parse_card_record, parse_device_record,
    CARD_RECORD_SIZE, DEVICE_RECORD_SIZE,
};

#[test]
fn record_text_trims_nul_padding() {
    let buf = *b"AB\0\0\0\0\0\0\0\0\0\0\0\0\0\0";
    let text = decode_text_field(&buf, 0, 16, RecordField::CardId).unwrap();
    assert_eq!(text, "AB");
}

#[test]
fn record_text_invalid_utf8_is_malformed() {
    // 0x80 is a continuation byte with no leading byte before it.
    let mut buf = [0u8; 16];
    buf[0] = b'A';
    buf[1] = 0x80;
    let r = decode_text_field(&buf, 0, 16, RecordField::CardId);
    assert_eq!(r, Err(HdaError::MalformedRecord { field: RecordField::CardId }));
}

#[test]
fn record_text_multibyte_utf8_decodes() {
    // "né" with the e-acute encoded as the two bytes 0xC3 0xA9.
    let mut buf = [0u8; 16];
    buf[0] = b'n';
    buf[1] = 0xc3;
    buf[2] = 0xa9;
    let text = decode_text_field(&buf, 0, 16, RecordField::CardName).unwrap();
    assert_eq!(text, "n\u{e9}");
    assert_eq!(text.chars().count(), 2);
}

#[test]
fn record_text_all_nul_is_empty() {
    let buf = [0u8; 16];
    let text = decode_text_field(&buf, 0, 16, RecordField::CardId).unwrap();
    assert_eq!(text, "");
}

#[test]
fn record_text_interior_nul_is_kept() {
    // Only trailing zero padding is removed.
    let mut buf = [0u8; 8];
    buf[0] = b'A';
    buf[2] = b'B';
    let text = decode_text_field(&buf, 0, 8, RecordField::DeviceId).unwrap();
    assert_eq!(text, "A\0B");
}

#[test]
fn device_record_parses_and_decodes() {
    let mut buf = [0u8; DEVICE_RECORD_SIZE];
    // device_number = 3
    buf[0] = 3;
    // card_number = -1
    buf[4] = 0xff;
    buf[5] = 0xff;
    buf[6] = 0xff;
    buf[7] = 0xff;
    // id = "HDA0"
    buf[8..12].copy_from_slice(b"HDA0");
    // name = "HDA Codec"
    buf[72..81].copy_from_slice(b"HDA Codec");
    // interface = 2
    buf[152] = 2;
    let raw = parse_device_record(&buf);
    assert_eq!(raw.device_number, 3);
    assert_eq!(raw.card_number, -1);
    assert_eq!(raw.hwdep_interface, 2);
    let info = raw.to_deviceinfo().unwrap();
    assert_eq!(info.device_number, 3);
    assert_eq!(info.card_number, -1);
    assert_eq!(info.id, "HDA0");
    assert_eq!(info.name, "HDA Codec");
    assert_eq!(info.interface, 2);
}

#[test]
fn card_record_parses_and_decodes() {
    let mut buf = [0u8; CARD_RECORD_SIZE];
    // card = 1
    buf[0] = 1;
    buf[8..11].copy_from_slice(b"PCH");
    buf[24..31].copy_from_slice(b"HDA-Int");
    buf[40..48].copy_from_slice(b"HDA Inte");
    buf[72..84].copy_from_slice(b"HDA Intel at");
    buf[168..174].copy_from_slice(b"mixer0");
    buf[248..252].copy_from_slice(b"AC97");
    let raw = parse_card_record(&buf);
    assert_eq!(raw.card, 1);
    let info = raw.to_cardinfo().unwrap();
    assert_eq!(info.card, 1);
    assert_eq!(info.id, "PCH");
    assert_eq!(info.driver, "HDA-Int");
    assert_eq!(info.name, "HDA Inte");
    assert_eq!(info.longname, "HDA Intel at");
    assert_eq!(info.mixername, "mixer0");
    assert_eq!(info.components, "AC97");
}

#[test]
fn card_malformed_field_is_identified() {
    let mut raw = c_card_info::default();
    // 0xC3 starts a two-byte sequence but 0x28 is not a continuation byte.
    raw.driver[0] = 0xc3;
    raw.driver[1] = 0x28;
    let r = raw.to_cardinfo();
    assert_eq!(r.err(), Some(HdaError::MalformedRecord { field: RecordField::CardDriver }));
}

#[test]
fn device_malformed_field_is_identified() {
    let mut raw = c_hda_info::default();
    raw.hwdep_name[0] = 0xf8; // no leading byte has the form 0xF8
    let r = raw.to_deviceinfo();
    assert_eq!(r.err(), Some(HdaError::MalformedRecord { field: RecordField::DeviceName }));
}

#[test]
fn default_records_decode_to_empty_text() {
    let dev = c_hda_info::default();
    assert_eq!(dev.device_number, 0);
    assert_eq!(dev.card_number, -1);
    let info = dev.to_deviceinfo().unwrap();
    assert_eq!(info.id, "");
    assert_eq!(info.name, "");

    let card = c_card_info::default();
    assert_eq!(card.card, -1);
    let info = card.to_cardinfo().unwrap();
    assert_eq!(info.id, "");
    assert_eq!(info.components, "");
}

#[test]
fn signed_fields_read_little_endian() {
    let mut buf = [0u8; DEVICE_RECORD_SIZE];
    // interface = -2 in two's complement
    buf[152] = 0xfe;
    buf[153] = 0xff;
    buf[154] = 0xff;
    buf[155] = 0xff;
    // card_number = 0x01020304
    buf[4] = 0x04;
    buf[5] = 0x03;
    buf[6] = 0x02;
    buf[7] = 0x01;
    let raw = parse_device_record(&buf);
    assert_eq!(raw.hwdep_interface, -2);
    assert_eq!(raw.card_number, 0x0102_0304);
}
