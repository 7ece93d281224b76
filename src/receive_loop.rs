use crate::events::{
    connection_event, connection_event_with, message_event, payload_text, ConnectionStatus,
    Notification, NotificationView,
};
use vstd::prelude::*;

verus! {

/// What one poll of the transport yielded.
#[derive(Debug, Clone, PartialEq, Eq)]
pub enum PollEvent {
    /// The broker acknowledged the connection.
    ConnAck,
    /// A message arrived on `topic` with raw `payload`.
    Publish { topic: String, payload: Vec<u8> },
    /// The broker acknowledged a subscription.
    SubAck,
    /// A disconnect packet was received or sent.
    Disconnect,
    /// Any other packet, received or sent.
    Other,
    /// The poll failed; the text describes the failure.
    Failure(String),
}

/// Whether the loop ends after this event.
pub open spec fn is_terminal(ev: PollEvent) -> bool {
    ev is Disconnect || ev is Failure
}

/// The notification that the loop emits for one event, if any.
pub open spec fn event_notification(broker: Seq<char>, ev: PollEvent) -> Option<NotificationView> {
    match ev {
        PollEvent::ConnAck => Some(
            NotificationView::Connection {
                message: "Connected to "@ + broker,
                status: ConnectionStatus::Connected,
            },
        ),
        PollEvent::Publish { topic, payload } => Some(
            NotificationView::Message { topic: topic@, payload: payload_text(payload@) },
        ),
        PollEvent::Disconnect => Some(
            NotificationView::Connection {
                message: "Disconnected from broker."@,
                status: ConnectionStatus::Disconnected,
            },
        ),
        PollEvent::Failure(detail) => Some(
            NotificationView::Connection {
                message: "Connection error: "@ + detail@,
                status: ConnectionStatus::Error,
            },
        ),
        _ => None,
    }
}

/// The notifications emitted while handling `evs` in order.
pub open spec fn notifications_of(broker: Seq<char>, evs: Seq<PollEvent>) -> Seq<NotificationView>
    decreases evs.len(),
{
    if evs.len() == 0 {
        Seq::empty()
    } else {
        let rest = notifications_of(broker, evs.drop_last());
        match event_notification(broker, evs.last()) {
            Some(n) => rest.push(n),
            None => rest,
        }
    }
}

/// None of the first `n` events is terminal.
pub open spec fn none_terminal(evs: Seq<PollEvent>, n: int) -> bool {
    forall|j: int| 0 <= j < n ==> !is_terminal(#[trigger] evs[j])
}

/// A running loop fed `evs` polls exactly `k` of them: up to and including
/// the first terminal event, or all of them when none is terminal.
pub open spec fn polls_exactly(evs: Seq<PollEvent>, k: nat) -> bool {
    &&& k <= evs.len()
    &&& none_terminal(evs, k - 1)
    &&& k < evs.len() ==> k > 0 && is_terminal(evs[k - 1])
}

/// The receive loop of one connection: running until a disconnect or a
/// transport failure, then stopped for good.
pub struct ReceiveLoop {
    broker: String,
    running: bool,
}

impl ReceiveLoop {
    /// The broker address named in the "connected" notification.
    pub closed spec fn spec_broker(&self) -> Seq<char> {
        self.broker@
    }

    /// Whether the loop still polls.
    pub closed spec fn spec_running(&self) -> bool {
        self.running
    }

    /// A running loop for a connection to `broker`.
    pub fn new(broker: String) -> (r: ReceiveLoop)
        ensures
            r.spec_running(),
            r.spec_broker() == broker@,
    {
        ReceiveLoop { broker, running: true }
    }

    /// Whether the loop still polls the transport.
    pub fn is_running(&self) -> (r: bool)
        ensures
            r == self.spec_running(),
    {
        self.running
    }

    /// Handles one polled event: returns the notification to emit, and stops
    /// the loop on a disconnect or a failure.
    pub fn step(&mut self, ev: &PollEvent) -> (r: Option<Notification>)
        requires
            old(self).spec_running(),
        ensures
            final(self).spec_broker() == old(self).spec_broker(),
            final(self).spec_running() == !is_terminal(*ev),
            r is Some == event_notification(old(self).spec_broker(), *ev) is Some,
            r is Some ==> r->Some_0@ == event_notification(old(self).spec_broker(), *ev)->Some_0,
    {
        match ev {
            PollEvent::ConnAck => Some(
                Notification::Connection(
                    connection_event_with("Connected to ", &self.broker, ConnectionStatus::Connected),
                ),
            ),
            PollEvent::Publish { topic, payload } => Some(message_event(topic, payload)),
            PollEvent::Disconnect => {
                self.running = false;
                Some(
                    Notification::Connection(
                        connection_event("Disconnected from broker.", ConnectionStatus::Disconnected),
                    ),
                )
            },
            PollEvent::Failure(detail) => {
                self.running = false;
                Some(
                    Notification::Connection(
                        connection_event_with("Connection error: ", detail, ConnectionStatus::Error),
                    ),
                )
            },
            PollEvent::SubAck => None,
            PollEvent::Other => None,
        }
    }

    /// Runs the loop over a sequence of polled events, as a transport that
    /// yields them in order would: stops polling once the loop terminates.
    /// Returns the notifications emitted and how many events were polled.
    pub fn feed(&mut self, events: Vec<PollEvent>) -> (r: (Vec<Notification>, usize))
        ensures
            final(self).spec_broker() == old(self).spec_broker(),
            !old(self).spec_running() ==> r.1 == 0 && r.0@.len() == 0 && !final(self).spec_running(),
            old(self).spec_running() ==> {
                &&& polls_exactly(events@, r.1 as nat)
                &&& final(self).spec_running() <==> none_terminal(events@, r.1 as int)
                &&& r.0@.map_values(|n: Notification| n@) == notifications_of(
                    old(self).spec_broker(),
                    events@.take(r.1 as int),
                )
            },
    {
        let mut out: Vec<Notification> = Vec::new();
        let mut i: usize = 0;
        let ghost was_running = self.running;
        while i < events.len() && self.running
            invariant
                i <= events.len(),
                self.spec_broker() == old(self).spec_broker(),
                !was_running ==> i == 0 && out@.len() == 0 && !self.running,
                was_running ==> {
                    &&& self.running <==> none_terminal(events@, i as int)
                    &&& none_terminal(events@, i - 1)
                    &&& out@.map_values(|n: Notification| n@) == notifications_of(
                        self.spec_broker(),
                        events@.take(i as int),
                    )
                },
            decreases events.len() - i,
        {
            let ghost before = out@;
            let n = self.step(&events[i]);
            proof {
                assert(events@.take(i + 1).drop_last() == events@.take(i as int));
                assert(events@.take(i + 1).last() == events@[i as int]);
            }
            match n {
                Some(n) => {
                    out.push(n);
                    assert(out@.map_values(|n: Notification| n@) =~= before.map_values(
                        |n: Notification| n@,
                    ).push(event_notification(self.spec_broker(), events@[i as int])->Some_0));
                },
                None => {},
            }
            i = i + 1;
        }
        (out, i)
    }
}

/// A poll failure is answered by exactly one "error" notification, and the
/// loop polls nothing after it.
pub proof fn lemma_failure_stops_polling(broker: Seq<char>, evs: Seq<PollEvent>, k: nat)
    requires
        evs.len() > 0,
        evs[0] is Failure,
        polls_exactly(evs, k),
    ensures
        k == 1,
        notifications_of(broker, evs.take(k as int)) == seq![
            NotificationView::Connection {
                message: "Connection error: "@ + evs[0]->Failure_0@,
                status: ConnectionStatus::Error,
            },
        ],
{
    assert(is_terminal(evs[0]));
    assert(k == 1);
    let first = evs.take(1);
    assert(first.drop_last() =~= Seq::<PollEvent>::empty());
    assert(first.last() == evs[0]);
    assert(notifications_of(broker, first.drop_last()) == Seq::<NotificationView>::empty());
    assert(notifications_of(broker, first) =~= seq![
        NotificationView::Connection {
            message: "Connection error: "@ + evs[0]->Failure_0@,
            status: ConnectionStatus::Error,
        },
    ]);
}

} // verus!
