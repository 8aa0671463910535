use captioninator::connection::{handle_websocket, ConnectionAction, ConnectionEvent};
use captioninator::hub::{Delivery, TranscriptHub};
use captioninator::line::Line;

fn line(n: u32) -> Line {
    if n % 2 == 0 {
        Line::Recognising(format!("line {n}"))
    } else {
        Line::Recognised(format!("line {n}"))
    }
}

#[test]
fn subscriber_sees_only_later_lines() {
    let mut hub = TranscriptHub::new(10);
    for n in 0..4 {
        hub.publish(line(n));
    }
    let mut late = hub.subscribe();
    assert_eq!(late.position(), 4);
    assert_eq!(hub.recv(&mut late), Delivery::Empty);
    for n in 4..9 {
        hub.publish(line(n));
    }
    for n in 4..9 {
        assert_eq!(hub.recv(&mut late), Delivery::Line(line(n)));
    }
    assert_eq!(hub.recv(&mut late), Delivery::Empty);
    assert_eq!(late.dropped(), 0);
    assert_eq!(hub.published(), 9);
}

#[test]
fn subscribers_read_at_their_own_pace() {
    let mut hub = TranscriptHub::new(4);
    let mut first = hub.subscribe();
    hub.publish(line(0));
    let mut second = hub.subscribe();
    hub.publish(line(1));
    assert_eq!(hub.recv(&mut first), Delivery::Line(line(0)));
    assert_eq!(hub.recv(&mut second), Delivery::Line(line(1)));
    assert_eq!(hub.recv(&mut second), Delivery::Empty);
    assert_eq!(hub.recv(&mut first), Delivery::Line(line(1)));
    assert_eq!(hub.recv(&mut first), Delivery::Empty);
}

#[test]
fn slow_subscriber_loses_oldest_lines() {
    let mut hub = TranscriptHub::new(2);
    let mut slow = hub.subscribe();
    for n in 0..5 {
        hub.publish(line(n));
    }
    assert_eq!(hub.recv(&mut slow), Delivery::Lagged(3));
    assert_eq!(slow.dropped(), 3);
    assert_eq!(hub.recv(&mut slow), Delivery::Line(line(3)));
    assert_eq!(hub.recv(&mut slow), Delivery::Line(line(4)));
    assert_eq!(hub.recv(&mut slow), Delivery::Empty);
    hub.publish(line(5));
    assert_eq!(hub.recv(&mut slow), Delivery::Line(line(5)));
    assert_eq!(slow.dropped(), 3);
    assert_eq!(slow.position(), 6);
}

#[test]
fn hub_of_one_keeps_the_newest_line() {
    let mut hub = TranscriptHub::new(1);
    let mut reader = hub.subscribe();
    hub.publish(line(0));
    hub.publish(line(1));
    assert_eq!(hub.recv(&mut reader), Delivery::Lagged(1));
    assert_eq!(hub.recv(&mut reader), Delivery::Line(line(1)));
}

#[test]
fn closed_hub_lets_readers_finish() {
    let mut hub = TranscriptHub::new(3);
    let mut reader = hub.subscribe();
    hub.publish(line(0));
    assert!(!hub.is_closed());
    hub.close();
    assert!(hub.is_closed());
    hub.publish(line(1));
    assert_eq!(hub.published(), 1);
    assert_eq!(hub.recv(&mut reader), Delivery::Line(line(0)));
    assert_eq!(hub.recv(&mut reader), Delivery::Closed);
    let mut late = hub.subscribe();
    assert_eq!(hub.recv(&mut late), Delivery::Closed);
}

#[test]
fn connection_actions() {
    assert_eq!(
        handle_websocket(ConnectionEvent::PingDue),
        ConnectionAction::SendPing(vec![0])
    );
    assert_eq!(
        handle_websocket(ConnectionEvent::PeerClosed),
        ConnectionAction::Close
    );
    assert_eq!(
        handle_websocket(ConnectionEvent::PeerFrame),
        ConnectionAction::Wait
    );
    assert_eq!(
        handle_websocket(ConnectionEvent::SendFailed),
        ConnectionAction::Close
    );
    assert_eq!(
        handle_websocket(ConnectionEvent::Hub(Delivery::Line(Line::Recognised(
            "Done.".to_string()
        )))),
        ConnectionAction::SendText("{\"Recognised\":\"Done.\"}".to_string())
    );
    assert_eq!(
        handle_websocket(ConnectionEvent::Hub(Delivery::Lagged(7))),
        ConnectionAction::Wait
    );
    assert_eq!(
        handle_websocket(ConnectionEvent::Hub(Delivery::Empty)),
        ConnectionAction::Wait
    );
    assert_eq!(
        handle_websocket(ConnectionEvent::Hub(Delivery::Closed)),
        ConnectionAction::Close
    );
}
