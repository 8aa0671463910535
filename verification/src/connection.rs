//! One subscriber connection: what to do on each thing that can happen to it.
//! A connection ends by itself alone; the hub and the other connections never
//! learn of it.

use vstd::prelude::*;
use crate::control::option_view;
use crate::hub::{Delivery, DeliveryView};
use crate::wire::wire_form;

verus! {

/// Milliseconds between two pings on an idle connection.
pub const PING_INTERVAL_MS: u64 = 5000;

/// What can happen to a connection.
#[derive(Debug, PartialEq, Eq)]
pub enum ConnectionEvent {
    /// The keep-alive timer fired.
    PingDue,
    /// The peer sent a close frame.
    PeerClosed,
    /// The peer sent any other frame.
    PeerFrame,
    /// The hub answered the connection's subscription.
    Hub(Delivery),
    /// A frame could not be sent.
    SendFailed,
}

/// Mathematical value of a [`ConnectionEvent`].
pub enum ConnectionEventView {
    PingDue,
    PeerClosed,
    PeerFrame,
    Hub(DeliveryView),
    SendFailed,
}

/// What the connection is to do next.
#[derive(Debug, PartialEq, Eq)]
pub enum ConnectionAction {
    /// Send a ping frame with this payload.
    SendPing(Vec<u8>),
    /// Send a text frame with this content.
    SendText(String),
    /// Nothing to send: wait for the next event.
    Wait,
    /// End the connection.
    Close,
}

/// Mathematical value of a [`ConnectionAction`].
pub enum ConnectionActionView {
    SendPing(Seq<u8>),
    SendText(Seq<char>),
    Wait,
    Close,
}

impl View for ConnectionEvent {
    type V = ConnectionEventView;

    open spec fn view(&self) -> ConnectionEventView {
        match self {
            ConnectionEvent::PingDue => ConnectionEventView::PingDue,
            ConnectionEvent::PeerClosed => ConnectionEventView::PeerClosed,
            ConnectionEvent::PeerFrame => ConnectionEventView::PeerFrame,
            ConnectionEvent::Hub(delivery) => ConnectionEventView::Hub(delivery@),
            ConnectionEvent::SendFailed => ConnectionEventView::SendFailed,
        }
    }
}

impl View for ConnectionAction {
    type V = ConnectionActionView;

    open spec fn view(&self) -> ConnectionActionView {
        match self {
            ConnectionAction::SendPing(payload) => ConnectionActionView::SendPing(payload@),
            ConnectionAction::SendText(text) => ConnectionActionView::SendText(text@),
            ConnectionAction::Wait => ConnectionActionView::Wait,
            ConnectionAction::Close => ConnectionActionView::Close,
        }
    }
}

/// The payload of a ping frame.
pub open spec fn ping_payload() -> Seq<u8> {
    seq![0u8]
}

/// What a connection does on an event. It pings when the timer fires, forwards
/// each line in its wire form, and goes on after lines were lost to lag. It
/// ends when the peer closes, when a frame cannot be sent or written, and when
/// the hub is closed.
pub open spec fn connection_action(event: ConnectionEventView) -> ConnectionActionView {
    match event {
        ConnectionEventView::PingDue => ConnectionActionView::SendPing(ping_payload()),
        ConnectionEventView::PeerClosed => ConnectionActionView::Close,
        ConnectionEventView::PeerFrame => ConnectionActionView::Wait,
        ConnectionEventView::Hub(DeliveryView::Line(line)) => match wire_form(line) {
            Some(wire) => ConnectionActionView::SendText(wire),
            None => ConnectionActionView::Close,
        },
        ConnectionEventView::Hub(DeliveryView::Lagged(_)) => ConnectionActionView::Wait,
        ConnectionEventView::Hub(DeliveryView::Empty) => ConnectionActionView::Wait,
        ConnectionEventView::Hub(DeliveryView::Closed) => ConnectionActionView::Close,
        ConnectionEventView::SendFailed => ConnectionActionView::Close,
    }
}

/// Says what a connection is to do on `event`.
pub fn handle_websocket(event: ConnectionEvent) -> (action: ConnectionAction)
    ensures
        action@ == connection_action(event@),
{
    match event {
        ConnectionEvent::PingDue => {
            let mut payload: Vec<u8> = Vec::new();
            payload.push(0);
            assert(payload@ =~= ping_payload());
            ConnectionAction::SendPing(payload)
        },
        ConnectionEvent::PeerClosed => ConnectionAction::Close,
        ConnectionEvent::PeerFrame => ConnectionAction::Wait,
        ConnectionEvent::Hub(Delivery::Line(line)) => match line.to_wire() {
            Some(wire) => ConnectionAction::SendText(wire),
            None => ConnectionAction::Close,
        },
        ConnectionEvent::Hub(Delivery::Lagged(_)) => ConnectionAction::Wait,
        ConnectionEvent::Hub(Delivery::Empty) => ConnectionAction::Wait,
        ConnectionEvent::Hub(Delivery::Closed) => ConnectionAction::Close,
        ConnectionEvent::SendFailed => ConnectionAction::Close,
    }
}

} // verus!
