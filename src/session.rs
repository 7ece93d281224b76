use crate::error::{error_text, transport_error, MqttError};
use crate::events::{connection_event, connection_event_with, ConnectionEvent, ConnectionStatus,
    Notification, NotificationView, SubscriptionEvent};
use crate::connect::{
    chosen_prefix, client_id_of, connect_plan, is_alphanumeric, new_client_id, ConnectPlan,
    EVENT_CAPACITY, KEEP_ALIVE_SECS, SUFFIX_LEN,
};
use crate::qos::{qos_from_level, qos_of_level, Qos};
use vstd::prelude::*;

verus! {

/// The session's record of its connection: the transport client `C` and the
/// handle `H` of the receive-loop task, held together or not at all. A loop
/// that ends by itself (remote disconnect, transport failure) leaves both in
/// place: only teardown takes them out, and until then connect is refused.
pub struct MqttClientState<C, H> {
    client: Option<C>,
    eventloop_task_handle: Option<H>,
}

impl<C, H> Default for MqttClientState<C, H> {
    /// An empty session: no client, no task.
    fn default() -> (r: Self)
        ensures
            r.wf(),
            r.client_handle() is None,
            r.task_handle() is None,
    {
        MqttClientState::new()
    }
}

/// What `connect` decides before any transport work.
pub open spec fn connect_decision(connected: bool) -> Result<(), MqttError> {
    if connected {
        Err(MqttError::AlreadyConnected)
    } else {
        Ok(())
    }
}

/// What `subscribe` and `publish` decide before any transport work: the QoS
/// to send with, or the error returned without touching the transport.
pub open spec fn request_decision(connected: bool, level: u8) -> Result<Qos, MqttError> {
    match qos_of_level(level) {
        Err(e) => Err(e),
        Ok(q) => if connected {
            Ok(q)
        } else {
            Err(MqttError::NotConnected)
        },
    }
}

impl<C, H> MqttClientState<C, H> {
    /// The transport client held, if any.
    pub closed spec fn client_handle(&self) -> Option<C> {
        self.client
    }

    /// The receive-loop task handle held, if any.
    pub closed spec fn task_handle(&self) -> Option<H> {
        self.eventloop_task_handle
    }

    /// Whether a client is held.
    pub open spec fn spec_connected(&self) -> bool {
        self.client_handle() is Some
    }

    /// A client is held exactly when a receive-loop task is.
    pub open spec fn wf(&self) -> bool {
        self.client_handle() is Some <==> self.task_handle() is Some
    }

    /// The state after a connection is stored.
    pub closed spec fn attached(self, client: C, task: H) -> Self {
        MqttClientState { client: Some(client), eventloop_task_handle: Some(task) }
    }

    /// The state after both handles are taken out.
    pub closed spec fn emptied(self) -> Self {
        MqttClientState { client: None, eventloop_task_handle: None }
    }

    /// An empty session: no client, no task.
    pub fn new() -> (r: Self)
        ensures
            r.wf(),
            r.client_handle() is None,
            r.task_handle() is None,
    {
        MqttClientState { client: None, eventloop_task_handle: None }
    }

    /// Whether a client is held.
    pub fn is_connected(&self) -> (r: bool)
        ensures
            r == self.spec_connected(),
    {
        self.client.is_some()
    }

    /// Whether a receive-loop task is held.
    pub fn has_task(&self) -> (r: bool)
        ensures
            r == self.task_handle() is Some,
    {
        self.eventloop_task_handle.is_some()
    }

    /// The transport client held, if any.
    pub fn client(&self) -> (r: Option<&C>)
        ensures
            r is Some <==> self.spec_connected(),
            r is Some ==> *r->Some_0 == self.client_handle()->Some_0,
    {
        match &self.client {
            Some(c) => Some(c),
            None => None,
        }
    }

    /// Checks that a new connection may be opened: fails with
    /// `AlreadyConnected` while a client is held.
    pub fn check_connect(&self) -> (r: Result<(), MqttError>)
        ensures
            r == connect_decision(self.spec_connected()),
    {
        if self.client.is_some() {
            Err(MqttError::AlreadyConnected)
        } else {
            Ok(())
        }
    }

    /// The first half of connect: fails with `AlreadyConnected` while a
    /// client is held; otherwise returns the settings of the new transport
    /// connection to `address:port`, under a fresh client identifier made of
    /// the prefix (or the default one), a dash and `SUFFIX_LEN` random
    /// letters and digits.
    pub fn prepare_connect(&self, address: String, port: u16, client_id_prefix: Option<String>) -> (r:
        Result<ConnectPlan, MqttError>)
        ensures
            r is Err <==> self.spec_connected(),
            r is Err ==> r->Err_0 == MqttError::AlreadyConnected,
            r is Ok ==> {
                let plan = r->Ok_0;
                &&& plan.host@ == address@
                &&& plan.port == port
                &&& plan.keep_alive_secs == KEEP_ALIVE_SECS
                &&& plan.clean_session
                &&& plan.capacity == EVENT_CAPACITY
                &&& exists|suffix: Seq<char>|
                    {
                        &&& suffix.len() == SUFFIX_LEN
                        &&& forall|i: int|
                            0 <= i < suffix.len() ==> is_alphanumeric(#[trigger] suffix[i])
                        &&& plan.client_id@ == client_id_of(chosen_prefix(client_id_prefix), suffix)
                    }
            },
    {
        match self.check_connect() {
            Err(e) => Err(e),
            Ok(()) => {
                let id = new_client_id(client_id_prefix);
                Ok(connect_plan(address, port, id))
            },
        }
    }

    /// Stores a new connection: its client and its receive-loop task.
    pub fn attach(&mut self, client: C, task: H)
        requires
            !old(self).spec_connected(),
        ensures
            *final(self) == old(self).attached(client, task),
            final(self).wf(),
            final(self).client_handle() == Some(client),
            final(self).task_handle() == Some(task),
    {
        self.client = Some(client);
        self.eventloop_task_handle = Some(task);
    }

    /// Checks a subscribe or publish request: the QoS level must be 0, 1 or 2
    /// (else `InvalidQos`), then a client must be held (else `NotConnected`).
    /// On `Ok` the request goes to the transport with the returned QoS.
    pub fn check_request(&self, qos_level: u8) -> (r: Result<Qos, MqttError>)
        ensures
            r == request_decision(self.spec_connected(), qos_level),
    {
        let qos = qos_from_level(qos_level);
        match qos {
            Err(e) => Err(e),
            Ok(q) => if self.client.is_some() {
                Ok(q)
            } else {
                Err(MqttError::NotConnected)
            },
        }
    }

    /// Takes both handles out for teardown, the task's first, leaving the
    /// session empty.
    pub fn take_handles(&mut self) -> (r: (Option<H>, Option<C>))
        ensures
            r.0 == old(self).task_handle(),
            r.1 == old(self).client_handle(),
            *final(self) == old(self).emptied(),
            final(self).wf(),
            final(self).client_handle() is None,
            final(self).task_handle() is None,
    {
        let task = self.eventloop_task_handle.take();
        let client = self.client.take();
        (task, client)
    }
}

/// The notification that teardown sends, given what the transport's
/// disconnect returned (`None` when no client was held). Its status is
/// always `Disconnected`.
pub open spec fn disconnect_notice(sent: Option<Result<(), String>>) -> NotificationView {
    match sent {
        None => NotificationView::Connection {
            message: "Already disconnected or never connected."@,
            status: ConnectionStatus::Disconnected,
        },
        Some(Ok(())) => NotificationView::Connection {
            message: "Successfully disconnected."@,
            status: ConnectionStatus::Disconnected,
        },
        Some(Err(detail)) => NotificationView::Connection {
            message: "Error during disconnect: "@ + detail@,
            status: ConnectionStatus::Disconnected,
        },
    }
}

/// Whether teardown reports success, given what the transport's disconnect
/// returned (`None` when no client was held).
pub open spec fn disconnect_succeeds(sent: Option<Result<(), String>>) -> bool {
    !(sent is Some && sent->Some_0 is Err)
}

/// Completes a subscribe request from what the transport returned: on
/// success, `Ok` and the subscription notification (topic and requested
/// level); on failure, the transport error and no notification.
pub fn subscribe_outcome(topic: &String, qos_level: u8, sent: Result<(), String>) -> (r: (
    Result<(), MqttError>,
    Option<Notification>,
))
    ensures
        sent is Ok ==> r.0 is Ok && r.1 is Some && r.1->Some_0@ == (NotificationView::Subscription {
            topic: topic@,
            qos: qos_level,
        }),
        sent is Err ==> r.1 is None && r.0 is Err && r.0->Err_0 is Transport && error_text(
            r.0->Err_0,
        ) == "Failed to subscribe: "@ + sent->Err_0@,
{
    match sent {
        Ok(()) => (
            Ok(()),
            Some(Notification::Subscription(SubscriptionEvent { topic: topic.clone(), qos: qos_level })),
        ),
        Err(detail) => (Err(transport_error("Failed to subscribe: ", &detail)), None),
    }
}

/// Completes a publish request from what the transport returned.
pub fn publish_outcome(sent: Result<(), String>) -> (r: Result<(), MqttError>)
    ensures
        sent is Ok ==> r is Ok,
        sent is Err ==> r is Err && r->Err_0 is Transport && error_text(r->Err_0)
            == "Failed to publish: "@ + sent->Err_0@,
{
    match sent {
        Ok(()) => Ok(()),
        Err(detail) => Err(transport_error("Failed to publish: ", &detail)),
    }
}

/// Completes a teardown from what the transport's disconnect returned
/// (`None` when no client was held): `Ok` unless that call failed, and in
/// every case a notification whose status is `Disconnected`.
pub fn disconnect_outcome(sent: Option<Result<(), String>>) -> (r: (
    Result<(), MqttError>,
    ConnectionEvent,
))
    ensures
        r.1@ == disconnect_notice(sent),
        r.1.status == ConnectionStatus::Disconnected,
        r.0 is Ok <==> disconnect_succeeds(sent),
        r.0 is Err ==> r.0->Err_0 is Transport && error_text(r.0->Err_0) == "Error disconnecting: "@
            + sent->Some_0->Err_0@,
{
    match sent {
        None => (
            Ok(()),
            connection_event("Already disconnected or never connected.", ConnectionStatus::Disconnected),
        ),
        Some(Ok(())) => (
            Ok(()),
            connection_event("Successfully disconnected.", ConnectionStatus::Disconnected),
        ),
        Some(Err(detail)) => (
            Err(transport_error("Error disconnecting: ", &detail)),
            connection_event_with("Error during disconnect: ", &detail, ConnectionStatus::Disconnected),
        ),
    }
}

/// A QoS level outside 0, 1 and 2 is rejected with `InvalidQos` by both
/// subscribe and publish, connected or not, before any transport call.
pub proof fn lemma_invalid_qos_rejected(connected: bool, level: u8)
    requires
        level > 2,
    ensures
        request_decision(connected, level) == Err::<Qos, MqttError>(MqttError::InvalidQos),
{
}

/// Without a connection, subscribe and publish with a valid level fail with
/// `NotConnected` before any transport call, and disconnect finds no handle
/// to tear down and reports success with a "disconnected" notification.
pub proof fn lemma_not_connected<C, H>(s: MqttClientState<C, H>, level: u8)
    requires
        s.wf(),
        !s.spec_connected(),
        level <= 2,
    ensures
        request_decision(s.spec_connected(), level) == Err::<Qos, MqttError>(
            MqttError::NotConnected,
        ),
        s.task_handle() is None,
        s.client_handle() is None,
        disconnect_succeeds(None),
        disconnect_notice(None) is Connection,
        disconnect_notice(None)->Connection_status == ConnectionStatus::Disconnected,
{
}

/// A second connect without a disconnect in between is rejected with
/// `AlreadyConnected`, and the client from the first stays in place.
pub proof fn lemma_second_connect_rejected<C, H>(s: MqttClientState<C, H>, client: C, task: H)
    requires
        !s.spec_connected(),
    ensures
        connect_decision(s.attached(client, task).spec_connected()) == Err::<(), MqttError>(
            MqttError::AlreadyConnected,
        ),
        s.attached(client, task).client_handle() == Some(client),
{
}

/// After a connection is stored the session holds both a client and a
/// receive-loop task; after teardown it holds neither, and a new connect is
/// accepted.
pub proof fn lemma_connect_then_disconnect<C, H>(s: MqttClientState<C, H>, client: C, task: H)
    requires
        !s.spec_connected(),
    ensures
        s.attached(client, task).client_handle() == Some(client),
        s.attached(client, task).task_handle() == Some(task),
        s.attached(client, task).emptied().client_handle() is None,
        s.attached(client, task).emptied().task_handle() is None,
        connect_decision(s.attached(client, task).emptied().spec_connected()) is Ok,
{
}

/// Disconnect is idempotent: a second teardown right after the first finds
/// nothing, leaves the session as it was, succeeds, and both announce
/// "disconnected", whatever the first one's transport call returned.
pub proof fn lemma_disconnect_idempotent<C, H>(s: MqttClientState<C, H>, first: Option<
    Result<(), String>,
>)
    ensures
        s.emptied().task_handle() is None,
        s.emptied().client_handle() is None,
        s.emptied().emptied() == s.emptied(),
        disconnect_succeeds(None),
        disconnect_notice(first) is Connection,
        disconnect_notice(first)->Connection_status == ConnectionStatus::Disconnected,
        disconnect_notice(None) is Connection,
        disconnect_notice(None)->Connection_status == ConnectionStatus::Disconnected,
{
}

} // verus!
