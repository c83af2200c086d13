use modbus_client::driver::{connect_target, map_response, unresolved};
use modbus_client::types::{ModbusException, TransportConfig, TransportError};

#[test]
fn tcp_transports_connect_to_their_host_and_port() {
    let cfg = TransportConfig::Tcp { host: "127.0.0.1".to_string(), port: 5020 };
    assert_eq!(connect_target(&cfg), Ok(("127.0.0.1".to_string(), 5020)));
}

#[test]
fn rtu_transports_are_not_implemented() {
    let cfg = TransportConfig::RtuOverTcp { host: "gw".to_string(), port: 502 };
    assert_eq!(
        connect_target(&cfg),
        Err(TransportError::Protocol("rtu-over-tcp (gw:502) not implemented in skeleton".to_string()))
    );
    let cfg = TransportConfig::RtuOverSerial { path: "/dev/ttyUSB0".to_string(), baud_rate: 9600 };
    assert_eq!(
        connect_target(&cfg),
        Err(TransportError::Protocol("rtu-over-serial (/dev/ttyUSB0) not implemented in skeleton".to_string()))
    );
}

#[test]
fn unresolved_hosts_are_protocol_errors() {
    assert_eq!(
        unresolved("nowhere.invalid", 0),
        TransportError::Protocol("unresolved nowhere.invalid:0".to_string())
    );
}

#[test]
fn device_answers_become_results() {
    let ok: Result<Result<Vec<u16>, u8>, TransportError> = Ok(Ok(vec![0x1111, 0x2222]));
    assert_eq!(map_response(ok), Ok(vec![0x1111, 0x2222]));
    let exc: Result<Result<Vec<u16>, u8>, TransportError> = Ok(Err(2));
    assert_eq!(
        map_response(exc),
        Err(TransportError::Exception(ModbusException::IllegalDataAddress))
    );
    let failed: Result<Result<Vec<u16>, u8>, TransportError> = Err(TransportError::Io("reset".to_string()));
    assert_eq!(map_response(failed), Err(TransportError::Io("reset".to_string())));
}

#[test]
fn exception_codes_round_trip() {
    for c in 0..=255u8 {
        let e = ModbusException::from(c);
        assert_eq!(e.code(), c);
    }
    assert_eq!(ModbusException::from(1), ModbusException::IllegalFunction);
    assert_eq!(ModbusException::from(11), ModbusException::GatewayTargetDevice);
    assert_eq!(ModbusException::from(7), ModbusException::Custom(7));
    assert_eq!(
        TransportError::Exception(ModbusException::from(4)).message(),
        "Modbus exception code 4"
    );
}
