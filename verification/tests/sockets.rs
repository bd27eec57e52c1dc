use hypercan::addressing::{Addressing, CanFilter, Identifier};
use hypercan::config::CANParameters;
use hypercan::errors::SocketBuildError;
use hypercan::sockets::{ISOTPSocketBuilder, RawSocketBuilder};

fn params() -> CANParameters {
    CANParameters {
        socket_name: String::from("vcan0"),
        read_timeout_ms: 2000,
        write_timeout_ms: 3000,
        disable_isotp_frame_padding: false,
        tx_frame_padding: 0xCC,
        addressing: Addressing::Standard,
    }
}

#[test]
fn raw_builder_requires_can_parameters() {
    let r = RawSocketBuilder::default().build();
    match r {
        Err(SocketBuildError::MissingRequiredField { field_name }) => {
            assert_eq!(field_name, "can_parameters");
        }
        other => panic!("expected a missing-field error, got {:?}", other.is_ok()),
    }
}

#[test]
fn raw_builder_yields_the_open_configuration() {
    let filter = Addressing::Standard.obd_response_address_filter();
    let cfg = RawSocketBuilder::default()
        .can_parameters(params())
        .source_id_filter(filter)
        .build()
        .unwrap();
    assert_eq!(cfg.socket_name, "vcan0");
    assert_eq!(
        cfg.filter,
        Some(vec![CanFilter {
            id: 0x7E8,
            mask: 0x7F8
        }])
    );
    assert_eq!(cfg.read_timeout_ms, 2000);
    assert_eq!(cfg.write_timeout_ms, 3000);
}

#[test]
fn raw_builder_without_filter_accepts_all_traffic() {
    let cfg = RawSocketBuilder::default()
        .can_parameters(params())
        .build()
        .unwrap();
    assert_eq!(cfg.filter, None);
}

#[test]
fn isotp_builder_names_the_first_missing_field() {
    let r = ISOTPSocketBuilder::default().build();
    assert!(matches!(
        r,
        Err(SocketBuildError::MissingRequiredField {
            field_name: "source_id"
        })
    ));

    let r = ISOTPSocketBuilder::default()
        .source_id(Identifier::Standard(0x7E8))
        .build();
    assert!(matches!(
        r,
        Err(SocketBuildError::MissingRequiredField {
            field_name: "destination_id"
        })
    ));

    let r = ISOTPSocketBuilder::default()
        .source_id(Identifier::Standard(0x7E8))
        .destination_id(Identifier::Standard(0x7E0))
        .build();
    assert!(matches!(
        r,
        Err(SocketBuildError::MissingRequiredField {
            field_name: "can_parameters"
        })
    ));
}

#[test]
fn isotp_builder_yields_the_open_configuration() {
    let cfg = ISOTPSocketBuilder::default()
        .source_id(Identifier::Standard(0x7E8))
        .destination_id(Identifier::Standard(0x7E0))
        .can_parameters(params())
        .build()
        .unwrap();
    assert_eq!(cfg.socket_name, "vcan0");
    assert_eq!(cfg.source_id, Identifier::Standard(0x7E8));
    assert_eq!(cfg.destination_id, Identifier::Standard(0x7E0));
    assert_eq!(cfg.tx_padding, Some(0xCC));
    assert_eq!(cfg.read_timeout_ms, 2000);
    assert_eq!(cfg.write_timeout_ms, 3000);
}

#[test]
fn disabling_padding_leaves_the_channel_unpadded() {
    let mut p = params();
    p.disable_isotp_frame_padding = true;
    let cfg = ISOTPSocketBuilder::default()
        .source_id(Identifier::Standard(0x7E8))
        .destination_id(Identifier::Standard(0x7E0))
        .can_parameters(p)
        .build()
        .unwrap();
    assert_eq!(cfg.tx_padding, None);
}

#[test]
fn padding_fill_byte_is_configurable() {
    let mut p = params();
    p.tx_frame_padding = 0xAA;
    let cfg = ISOTPSocketBuilder::default()
        .source_id(Identifier::Standard(0x7E8))
        .destination_id(Identifier::Standard(0x7E0))
        .can_parameters(p)
        .build()
        .unwrap();
    assert_eq!(cfg.tx_padding, Some(0xAA));
}
