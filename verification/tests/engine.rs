use modbus_client::engine::{ConnectionManager, EngineError};
use modbus_client::types::{
    ConnectionConfig, ConnectionId, ModbusException, TransportConfig, TransportError,
};

fn tcp(name: &str, id: Option<&str>) -> ConnectionConfig {
    ConnectionConfig {
        id: id.map(|i| ConnectionId::new(i.to_string())),
        name: name.to_string(),
        transport: TransportConfig::Tcp { host: "127.0.0.1".to_string(), port: 502 },
    }
}

fn cid(s: &str) -> ConnectionId {
    ConnectionId::new(s.to_string())
}

#[test]
fn lifecycle_create_list_close() {
    let mut m: ConnectionManager<u32> = ConnectionManager::new();
    let pending = m.begin_open(tcp("demo", None));
    assert_eq!(pending.id(), &cid("c1"));
    assert_eq!(pending.config().id, Some(cid("c1")));
    let id = m.open(pending, 10);
    assert_eq!(id, cid("c1"));
    let listed = m.list();
    assert_eq!(listed.len(), 1);
    assert_eq!(listed[0].name, "demo");
    assert_eq!(listed[0].id, cid("c1"));
    assert_eq!(listed[0].config.id, Some(cid("c1")));
    assert_eq!(m.transport(&id), Ok(&10));
    assert_eq!(m.close(&id), Ok(()));
    assert_eq!(m.list().len(), 0);
    assert_eq!(m.transport(&id), Err(EngineError::NotFound("c1".to_string())));
    assert_eq!(m.close(&id), Err(EngineError::NotFound("c1".to_string())));
}

#[test]
fn generated_ids_count_up_and_given_ids_are_kept() {
    let mut m: ConnectionManager<&str> = ConnectionManager::default();
    let a = m.begin_open(tcp("a", None));
    let b = m.begin_open(tcp("b", Some("plc")));
    let c = m.begin_open(tcp("c", None));
    assert_eq!(a.id(), &cid("c1"));
    assert_eq!(b.id(), &cid("plc"));
    assert_eq!(c.id(), &cid("c2"));
    // An id is drawn even if the transport never opens: `a` is dropped here.
    drop(a);
    let b = m.open(b, "B");
    let c = m.open(c, "C");
    assert_eq!(m.list().len(), 2);
    assert_eq!(m.transport(&b), Ok(&"B"));
    assert_eq!(m.transport(&c), Ok(&"C"));
    let d = m.begin_open(tcp("d", None));
    assert_eq!(d.id(), &cid("c3"));
}

#[test]
fn reopening_an_id_replaces_the_connection() {
    let mut m: ConnectionManager<u8> = ConnectionManager::new();
    let p = m.begin_open(tcp("first", Some("x")));
    m.open(p, 1);
    let p = m.begin_open(tcp("second", Some("x")));
    m.open(p, 2);
    let listed = m.list();
    assert_eq!(listed.len(), 1);
    assert_eq!(listed[0].name, "second");
    assert_eq!(m.transport(&cid("x")), Ok(&2));
}

#[test]
fn closing_one_keeps_the_others() {
    let mut m: ConnectionManager<u8> = ConnectionManager::new();
    let p = m.begin_open(tcp("a", None));
    let a = m.open(p, 1);
    let p = m.begin_open(tcp("b", None));
    let b = m.open(p, 2);
    assert_eq!(m.close(&a), Ok(()));
    assert_eq!(m.transport(&b), Ok(&2));
    assert_eq!(m.list()[0].id, cid("c2"));
}

#[test]
fn engine_error_messages() {
    assert_eq!(EngineError::NotFound("c4".to_string()).message(), "connection not found: c4");
    let e: EngineError = TransportError::Io("refused".to_string()).into();
    assert_eq!(e.message(), "transport error: I/O error: refused");
    let e = EngineError::from(TransportError::Exception(ModbusException::IllegalDataAddress));
    assert_eq!(e.message(), "transport error: Modbus exception code 2");
}

#[test]
fn a_failed_open_registers_nothing_and_listing_is_stable() {
    let mut m: ConnectionManager<u8> = ConnectionManager::new();
    let p = m.begin_open(tcp("kept", Some("k")));
    m.open(p, 1);
    // The transport of this one never opens: its pending connection is dropped.
    let failed = m.begin_open(tcp("lost", Some("k")));
    drop(failed);
    let first = m.list();
    let second = m.list();
    assert_eq!(first, second);
    assert_eq!(first.len(), 1);
    assert_eq!(first[0].name, "kept");
    assert_eq!(m.transport(&cid("k")), Ok(&1));
}
