use futures::channel::mpsc;
use superchain_client::error::WsResult;
use superchain_client::format::Format;
use superchain_client::operation::Operation;
use superchain_client::registry::{Registry, RouteOutcome};
use superchain_client::MsgId;

fn sink() -> (mpsc::UnboundedSender<WsResult>, mpsc::UnboundedReceiver<WsResult>) {
    mpsc::unbounded()
}

#[test]
fn distinct_registrations_each_get_an_entry() {
    let mut reg = Registry::new();
    let mut receivers = Vec::new();
    for i in 0..5u128 {
        let (tx, rx) = sink();
        let replaced = reg.register(MsgId(i), Operation::GetStatus, Format::Json, false, vec![], tx);
        assert!(!replaced);
        receivers.push(rx);
    }
    assert_eq!(reg.count(), 5);
    for i in 0..5u128 {
        assert!(reg.contains(MsgId(i)));
    }
}

#[test]
fn duplicate_registration_replaces_and_closes_the_old_channel() {
    let mut reg = Registry::new();
    let (tx1, mut rx1) = sink();
    let (tx2, mut rx2) = sink();
    assert!(!reg.register(MsgId(1), Operation::GetStatus, Format::Json, false, vec![], tx1));
    assert!(reg.register(MsgId(1), Operation::GetHeight, Format::Json, false, vec![], tx2));
    assert_eq!(reg.count(), 1);

    // The first channel was closed; the second is still open.
    assert_eq!(rx1.try_next().expect("closed, not pending"), None);
    assert!(rx2.try_next().is_err(), "second channel still open and empty");
}

#[test]
fn complete_twice_behaves_like_once() {
    let mut reg = Registry::new();
    let (tx, mut rx) = sink();
    reg.register(MsgId(7), Operation::GetStatus, Format::Json, false, vec![], tx);

    reg.complete(MsgId(7));
    assert!(!reg.contains(MsgId(7)));
    assert_eq!(reg.count(), 0);
    assert_eq!(rx.try_next().expect("closed"), None);

    // Completing again neither panics nor changes anything.
    reg.complete(MsgId(7));
    assert!(!reg.contains(MsgId(7)));
    assert_eq!(reg.count(), 0);
}

#[test]
fn cursor_updates_keep_the_last_value() {
    let mut reg = Registry::new();
    let (tx, _rx) = sink();
    reg.register(MsgId(3), Operation::GetStatus, Format::Json, false, vec![], tx);

    reg.update_cursor(MsgId(3), b"c1".to_vec());
    reg.update_cursor(MsgId(3), b"zig".to_vec());
    reg.update_cursor(MsgId(3), b"c3".to_vec());
    assert_eq!(reg.submit_cursor(MsgId(3)), b"c3".to_vec());

    // Unknown ids are untouched.
    reg.update_cursor(MsgId(4), b"x".to_vec());
    assert!(!reg.contains(MsgId(4)));
    assert_eq!(reg.submit_cursor(MsgId(4)), Vec::<u8>::new());
}

#[test]
fn route_delivers_to_the_right_channel() {
    let mut reg = Registry::new();
    let (tx_a, mut rx_a) = sink();
    let (tx_b, mut rx_b) = sink();
    reg.register(MsgId(1), Operation::GetStatus, Format::Json, false, vec![], tx_a);
    reg.register(MsgId(2), Operation::GetStatus, Format::Json, false, vec![], tx_b);

    assert_eq!(reg.route(MsgId(2), Ok(b"for b".to_vec())), RouteOutcome::Delivered);
    assert!(rx_a.try_next().is_err(), "a got nothing");
    assert_eq!(rx_b.try_next().unwrap().unwrap().unwrap(), b"for b".to_vec());
}

#[test]
fn route_to_unknown_id_changes_nothing() {
    let mut reg = Registry::new();
    assert_eq!(reg.route(MsgId(9), Ok(vec![])), RouteOutcome::NoEntry);
    assert_eq!(reg.count(), 0);
}

#[test]
fn dropped_receiver_is_noticed_on_route_and_removed() {
    let mut reg = Registry::new();
    let (tx, rx) = sink();
    reg.register(MsgId(5), Operation::GetStatus, Format::Json, false, vec![], tx);
    drop(rx);

    assert_eq!(reg.route(MsgId(5), Ok(b"late".to_vec())), RouteOutcome::Dropped);
    assert!(!reg.contains(MsgId(5)));
    assert_eq!(reg.count(), 0);
}

#[test]
fn close_all_closes_every_channel() {
    let mut reg = Registry::new();
    let (tx1, mut rx1) = sink();
    let (tx2, mut rx2) = sink();
    reg.register(MsgId(1), Operation::GetStatus, Format::Json, false, vec![], tx1);
    reg.register(MsgId(2), Operation::GetStatus, Format::Json, false, vec![], tx2);

    reg.close_all();
    assert_eq!(reg.count(), 0);
    assert_eq!(rx1.try_next().expect("closed"), None);
    assert_eq!(rx2.try_next().expect("closed"), None);
}
