use pukeko::bridge::{BridgeError, TerminalHandle};
use tokio::sync::mpsc::unbounded_channel;

#[test]
fn flushes_arrive_in_order() {
    for n in 1..6usize {
        let (tx, mut rx) = unbounded_channel::<Vec<u8>>();
        let mut handle = TerminalHandle::new(tx);
        for i in 0..n {
            let payload = format!("frame-{}", i);
            assert_eq!(handle.write(payload.as_bytes()), payload.len());
            assert_eq!(handle.flush(), Ok(()));
        }
        for i in 0..n {
            assert_eq!(rx.try_recv().unwrap(), format!("frame-{}", i).into_bytes());
        }
        assert!(rx.try_recv().is_err());
    }
}

#[test]
fn writes_between_flushes_form_one_batch() {
    let (tx, mut rx) = unbounded_channel::<Vec<u8>>();
    let mut handle = TerminalHandle::new(tx);
    handle.write(b"ab");
    handle.write(b"");
    handle.write(b"cd");
    handle.flush().unwrap();
    handle.flush().unwrap();
    assert_eq!(rx.try_recv().unwrap(), b"abcd".to_vec());
    assert_eq!(rx.try_recv().unwrap(), Vec::<u8>::new());
}

#[test]
fn flush_fails_once_receiver_is_gone() {
    let (tx, rx) = unbounded_channel::<Vec<u8>>();
    let mut handle = TerminalHandle::new(tx);
    drop(rx);
    handle.write(b"lost");
    assert_eq!(handle.flush(), Err(BridgeError::Closed));
    assert_eq!(handle.flush(), Err(BridgeError::Closed));
}

#[test]
fn two_bridges_keep_their_batches_apart() {
    let (tx_a, mut rx_a) = unbounded_channel::<Vec<u8>>();
    let (tx_b, mut rx_b) = unbounded_channel::<Vec<u8>>();
    let mut a = TerminalHandle::new(tx_a);
    let mut b = TerminalHandle::new(tx_b);
    a.write(b"a1");
    b.write(b"b1");
    a.write(b"a2");
    b.flush().unwrap();
    a.flush().unwrap();
    b.write(b"b2");
    b.flush().unwrap();
    assert_eq!(rx_a.try_recv().unwrap(), b"a1a2".to_vec());
    assert!(rx_a.try_recv().is_err());
    assert_eq!(rx_b.try_recv().unwrap(), b"b1".to_vec());
    assert_eq!(rx_b.try_recv().unwrap(), b"b2".to_vec());
}
