// The relay's startup check: binding the listening address a second time
// must fail with address-in-use and create no second listening socket. The
// library itself does no socket I/O, so this exercises the condition the
// embedding binary reacts to.
use broadcast_relay::registry::Registry;

#[test]
fn second_bind_to_same_address_is_refused() {
    let rt = tokio::runtime::Builder::new_current_thread()
        .enable_io()
        .build()
        .unwrap();
    rt.block_on(async {
        let first = tokio::net::TcpListener::bind("127.0.0.1:0").await.unwrap();
        let addr = first.local_addr().unwrap();
        let second = tokio::net::TcpListener::bind(addr).await;
        match second {
            Ok(_) => panic!("second bind to {addr} unexpectedly succeeded"),
            Err(e) => assert_eq!(e.kind(), std::io::ErrorKind::AddrInUse),
        }
    });
    // A server that refuses to start has registered nobody.
    let reg = Registry::new();
    assert_eq!(reg.len(), 0);
}
