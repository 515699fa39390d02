use futures::channel::mpsc;
use superchain_client::client::decode_height;
use superchain_client::error::{Error, WsResult};
use superchain_client::format::Format;
use superchain_client::operation::Operation;
use superchain_client::session::{ConnState, MessageEvent, MessageReply, Session};
use superchain_client::wire::{decode_frame, encode_frame, Header, Kind};
use superchain_client::MsgId;

fn sink() -> (mpsc::UnboundedSender<WsResult>, mpsc::UnboundedReceiver<WsResult>) {
    mpsc::unbounded()
}

fn server_frame(kind: Kind, id: u128, counter: u32, cursor: &[u8], payload: &[u8]) -> Vec<u8> {
    let header = Header {
        kind,
        id: MsgId(id),
        counter,
        format: Format::JsonStream,
        deltas: false,
        cursor: cursor.to_vec(),
    };
    encode_frame(&header, payload)
}

#[test]
fn single_shot_height_query_yields_one_chunk_then_ends() {
    let mut session = Session::new(100);
    let (tx, mut rx) = sink();
    let (frame, replaced) = session.submit(MsgId(1), Operation::GetHeight, Format::JsonStream, false, tx);
    assert!(!replaced);

    // The outgoing frame carries the operation payload and no cursor.
    let (header, payload) = decode_frame(&frame).expect("well-formed request");
    assert_eq!(header.kind, Kind::Subscription);
    assert_eq!(header.id, MsgId(1));
    assert!(header.cursor.is_empty());
    assert_eq!(payload, vec![1u8]);

    // The server answers with one 8-byte chunk, then ends the stream.
    let height = 123_456u64.to_le_bytes();
    session
        .handle_frame(&server_frame(Kind::Continue, 1, 1, b"", &height))
        .expect("chunk routed");
    session
        .handle_frame(&server_frame(Kind::End, 1, 2, b"", b""))
        .expect("end handled");

    let chunk = rx.try_next().unwrap().unwrap().unwrap();
    assert_eq!(decode_height(&chunk), Ok(123_456));
    assert_eq!(rx.try_next().expect("closed cleanly"), None);
    assert_eq!(session.subscription_count(), 0);
}

#[test]
fn continue_with_error_yields_a_structured_error_chunk() {
    let mut session = Session::new(100);
    let (tx, mut rx) = sink();
    session.submit(MsgId(2), Operation::GetStatus, Format::JsonStream, false, tx);

    let body = br#"{"status":404,"error":"not found"}"#;
    session
        .handle_frame(&server_frame(Kind::ContinueWithError, 2, 1, b"", body))
        .expect("error routed");

    match rx.try_next().unwrap().unwrap() {
        Err(Error::ErrorResponse(re)) => {
            assert_eq!(re.status, 404);
            assert_eq!(re.error, "not found");
        }
        other => panic!("expected a structured error chunk, got {:?}", other),
    }
    // The subscription stays open: the server may continue.
    assert_eq!(session.subscription_count(), 1);
}

#[test]
fn error_frame_is_forwarded_without_removing_the_subscription() {
    let mut session = Session::new(100);
    let (tx, mut rx) = sink();
    session.submit(MsgId(3), Operation::GetStatus, Format::JsonStream, false, tx);

    session
        .handle_frame(&server_frame(Kind::Error, 3, 1, b"", b"shard rebooting"))
        .expect("error routed");

    match rx.try_next().unwrap().unwrap() {
        Err(Error::ErrorMsg(s)) => assert_eq!(s, "shard rebooting"),
        other => panic!("expected an error message, got {:?}", other),
    }
    assert_eq!(session.subscription_count(), 1);
}

#[test]
fn reconnect_replays_both_subscriptions_with_their_cursors() {
    let mut session = Session::new(100);
    let (tx_a, mut rx_a) = sink();
    let (tx_b, mut rx_b) = sink();
    session.submit(MsgId(0xA), Operation::GetStatus, Format::JsonStream, false, tx_a);
    session.submit(MsgId(0xB), Operation::GetHeight, Format::Json, true, tx_b);

    // Chunks bearing cursors advance each subscription's position.
    session
        .handle_frame(&server_frame(Kind::Continue, 0xA, 1, b"10", b"a1"))
        .expect("routed");
    session
        .handle_frame(&server_frame(Kind::Continue, 0xB, 1, b"20", b"b1"))
        .expect("routed");

    // The socket dies; the third attempt succeeds.
    session.on_disconnect();
    assert_eq!(session.connection(), ConnState::Reconnecting { attempts: 0 });
    assert!(!session.reconnect_failed());
    assert!(!session.reconnect_failed());
    let frames = session.on_reconnected();
    assert_eq!(session.connection(), ConnState::Connected);

    // Exactly two resends, carrying cursors "10" and "20"; no entry was
    // removed by reconnection alone.
    assert_eq!(frames.len(), 2);
    assert_eq!(session.subscription_count(), 2);
    let (h_a, _) = decode_frame(&frames[0]).expect("well-formed replay");
    let (h_b, _) = decode_frame(&frames[1]).expect("well-formed replay");
    assert_eq!(h_a.kind, Kind::Subscription);
    assert_eq!(h_a.id, MsgId(0xA));
    assert_eq!(h_a.cursor, b"10".to_vec());
    assert_eq!(h_b.id, MsgId(0xB));
    assert_eq!(h_b.cursor, b"20".to_vec());
    assert_eq!(h_b.format, Format::Json);
    assert!(h_b.deltas);

    // Later frames still route to the original channels.
    session
        .handle_frame(&server_frame(Kind::Continue, 0xA, 2, b"", b"a2"))
        .expect("routed");
    session
        .handle_frame(&server_frame(Kind::Continue, 0xB, 2, b"", b"b2"))
        .expect("routed");
    assert_eq!(rx_a.try_next().unwrap().unwrap().unwrap(), b"a1".to_vec());
    assert_eq!(rx_a.try_next().unwrap().unwrap().unwrap(), b"a2".to_vec());
    assert_eq!(rx_b.try_next().unwrap().unwrap().unwrap(), b"b1".to_vec());
    assert_eq!(rx_b.try_next().unwrap().unwrap().unwrap(), b"b2".to_vec());
}

#[test]
fn replay_falls_back_to_the_subscribe_time_cursor() {
    let mut session = Session::new(100);
    let (tx, _rx) = sink();
    session.submit(MsgId(4), Operation::GetStatus, Format::JsonStream, false, tx);

    // No Continue frame carried a cursor before the drop.
    session.on_disconnect();
    let frames = session.on_reconnected();
    assert_eq!(frames.len(), 1);
    let (h, _) = decode_frame(&frames[0]).expect("well-formed replay");
    assert!(h.cursor.is_empty());
}

#[test]
fn dropped_handle_is_cleaned_up_by_the_next_frame() {
    let mut session = Session::new(100);
    let (tx, rx) = sink();
    session.submit(MsgId(0xC), Operation::GetStatus, Format::JsonStream, false, tx);
    drop(rx);

    // The next chunk for the id finds the consumer gone and removes the
    // entry; the session reports the failed delivery.
    let r = session.handle_frame(&server_frame(Kind::Continue, 0xC, 1, b"", b"chunk"));
    assert!(matches!(r, Err(Error::Custom(_))));
    assert_eq!(session.subscription_count(), 0);

    // A further frame for the id is simply ignored.
    session
        .handle_frame(&server_frame(Kind::Continue, 0xC, 2, b"", b"chunk"))
        .expect("no entry, nothing to do");
}

#[test]
fn exhausted_reconnect_budget_fails_the_session_and_closes_channels() {
    let mut session = Session::new(3);
    let (tx, mut rx) = sink();
    session.submit(MsgId(5), Operation::GetStatus, Format::JsonStream, false, tx);

    session.on_disconnect();
    assert!(!session.reconnect_failed());
    assert!(!session.reconnect_failed());
    assert!(session.reconnect_failed());
    assert!(session.is_failed());
    assert_eq!(session.subscription_count(), 0);
    assert_eq!(rx.try_next().expect("closed"), None);
}

#[test]
fn malformed_frames_are_dropped_without_harm() {
    let mut session = Session::new(100);
    let (tx, mut rx) = sink();
    session.submit(MsgId(6), Operation::GetStatus, Format::JsonStream, false, tx);

    assert_eq!(session.handle_frame(b"tiny"), Err(Error::UnexpectedMessageFormat));
    assert_eq!(session.subscription_count(), 1);
    assert!(rx.try_next().is_err(), "nothing was routed");
}

#[test]
fn socket_messages_are_classified() {
    let mut session = Session::new(100);
    assert_eq!(
        session.handle_message(MessageEvent::Ping(b"tick".to_vec())),
        Ok(MessageReply::Pong(b"tick".to_vec()))
    );
    assert_eq!(session.handle_message(MessageEvent::Pong), Ok(MessageReply::Ignore));
    assert_eq!(session.handle_message(MessageEvent::Raw), Ok(MessageReply::Ignore));
    assert_eq!(session.handle_message(MessageEvent::Text), Err(Error::UnexpectedMessage));
    assert_eq!(session.handle_message(MessageEvent::Close), Err(Error::UnexpectedClose));
}

#[test]
fn start_frames_are_acknowledgements_only() {
    let mut session = Session::new(100);
    let (tx, mut rx) = sink();
    session.submit(MsgId(8), Operation::GetStatus, Format::JsonStream, false, tx);
    session
        .handle_frame(&server_frame(Kind::Start, 8, 0, b"", b""))
        .expect("acknowledged");
    assert_eq!(session.subscription_count(), 1);
    assert!(rx.try_next().is_err(), "nothing was routed");
}

#[test]
fn resubmission_reuses_the_last_observed_cursor() {
    let mut session = Session::new(100);
    let (tx1, _rx1) = sink();
    session.submit(MsgId(9), Operation::GetStatus, Format::JsonStream, false, tx1);
    session
        .handle_frame(&server_frame(Kind::Continue, 9, 1, b"pos7", b"x"))
        .expect("routed");

    let (tx2, _rx2) = sink();
    let (frame, replaced) = session.submit(MsgId(9), Operation::GetStatus, Format::JsonStream, false, tx2);
    assert!(replaced);
    let (h, _) = decode_frame(&frame).expect("well-formed request");
    assert_eq!(h.cursor, b"pos7".to_vec());
}

#[test]
fn replay_carries_the_last_of_many_cursors() {
    let mut session = Session::new(100);
    let (tx, _rx) = sink();
    session.submit(MsgId(11), Operation::GetStatus, Format::JsonStream, false, tx);

    for cursor in [b"c1".as_slice(), b"c2", b"zz", b"c4"] {
        session
            .handle_frame(&server_frame(Kind::Continue, 11, 1, cursor, b"x"))
            .expect("routed");
    }
    // A cursorless chunk does not reset the position.
    session
        .handle_frame(&server_frame(Kind::Continue, 11, 5, b"", b"x"))
        .expect("routed");

    session.on_disconnect();
    let frames = session.on_reconnected();
    let (h, _) = decode_frame(&frames[0]).expect("well-formed replay");
    assert_eq!(h.cursor, b"c4".to_vec());
}
