use ad537x::error::IError;
use ad537x::svc::SetVoltageReq;

#[test]
fn error_kinds_are_distinguished() {
    let hw = IError::HardwareIO { source: "bus timeout" };
    assert!(hw.is_hardware());
    assert_eq!(hw.describe(), "bus timeout");

    let gen = IError::General { msg: "unreachable addressing combination" };
    assert!(!gen.is_hardware());
    assert_eq!(gen.describe(), "unreachable addressing combination");
}

#[test]
fn voltage_request_validation() {
    let ok = SetVoltageReq {
        voltage: 0x8000,
        group: 4,
        channel: 7,
        offset: None,
        gain: Some(0x3000),
    };
    assert!(ok.is_valid());

    let bad_group = SetVoltageReq {
        voltage: 0,
        group: 5,
        channel: 0,
        offset: None,
        gain: None,
    };
    assert!(!bad_group.is_valid());

    let bad_channel = SetVoltageReq {
        voltage: 0,
        group: 0,
        channel: -1,
        offset: Some(1),
        gain: None,
    };
    assert!(!bad_channel.is_valid());
}
