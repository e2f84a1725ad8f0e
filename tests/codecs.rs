use kekbit::codecs::{DataFormat, Decodable, Encodable, PlainTextDataFormat, RawBinDataFormat};
use kekbit::sink::KekWrite;

#[test]
fn check_raw_binary_encoder_slice() {
    let mut w = KekWrite::new(1000);
    let msg = &[1u8; 10][..];
    let df = RawBinDataFormat;
    msg.encode(&df, &mut w).unwrap();
    assert_eq!(w.total(), msg.len());
    let expected = &[11u8; 10][..];
    assert_ne!(expected, w.bytes());
    assert_eq!(msg, w.bytes());
}

#[test]
fn raw_check_data_format() {
    assert_eq!(RawBinDataFormat::id(), 2);
    assert_eq!(RawBinDataFormat::media_type(), "application/octet-stream");
}

#[test]
fn raw_encode_decode() {
    let mut w = KekWrite::new(1000);
    let enc_msg = &[1u8; 10][..];
    let df = RawBinDataFormat;
    enc_msg.encode(&df, &mut w).unwrap();
    let dec: Vec<u8> = Vec::decode(&df, w.bytes()).unwrap();
    assert_eq!(enc_msg, &dec[..]);
}

#[test]
fn check_plain_text_encoder() {
    let mut w = KekWrite::new(1000);
    let df = PlainTextDataFormat;
    let msg = "They are who we thought they are";
    msg.encode(&df, &mut w).unwrap();
    assert_eq!(w.total(), msg.len());
    msg.to_string().encode(&df, &mut w).unwrap();
    assert_eq!(w.total(), 2 * msg.len());
}

#[test]
fn text_check_data_format() {
    assert_eq!(PlainTextDataFormat::id(), 3);
    assert_eq!(PlainTextDataFormat::media_type(), "text/plain");
}

#[test]
fn text_encode_decode() {
    let mut w = KekWrite::new(1000);
    let df = PlainTextDataFormat;
    let enc_msg = "They are who we thought they are";
    enc_msg.encode(&df, &mut w).unwrap();
    let dec_msg = String::decode(&df, w.bytes()).unwrap();
    assert_eq!(enc_msg, dec_msg);
}
