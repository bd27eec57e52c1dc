use hypercan::addressing::Identifier;
use hypercan::frame::Frame;

#[test]
fn frame_holds_identifier_and_payload() {
    let f = Frame::new(Identifier::Standard(0x7DF), vec![0x02, 0x01, 0x00]).unwrap();
    assert_eq!(f.id(), Identifier::Standard(0x7DF));
    assert_eq!(f.payload(), &vec![0x02, 0x01, 0x00]);
}

#[test]
fn frame_allows_up_to_eight_payload_bytes() {
    assert!(Frame::new(Identifier::Standard(0x7E8), vec![0; 8]).is_some());
    assert!(Frame::new(Identifier::Standard(0x7E8), Vec::new()).is_some());
    assert!(Frame::new(Identifier::Standard(0x7E8), vec![0; 9]).is_none());
}

#[test]
fn frame_refuses_an_overflowing_identifier() {
    assert!(Frame::new(Identifier::Standard(0x800), vec![0]).is_none());
    assert!(Frame::new(Identifier::Extended(0x2000_0000), vec![0]).is_none());
    assert!(Frame::new(Identifier::Extended(0x1FFF_FFFF), vec![0]).is_some());
}
