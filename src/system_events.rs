//! System power messages: which events they carry, which must be acknowledged, and
//! the lifecycle of a subscription to them.

use vstd::prelude::*;

use crate::mach::{
    IO_MESSAGE_CAN_SYSTEM_SLEEP, IO_MESSAGE_SYSTEM_HAS_POWERED_ON, IO_MESSAGE_SYSTEM_WILL_POWER_ON,
    IO_MESSAGE_SYSTEM_WILL_SLEEP,
};

verus! {

/// A sleep or wake transition of the system.
#[derive(Clone, Copy, Debug, PartialEq, Eq, Structural)]
pub enum PowerEvent {
    WillSleep,
    CanSleep,
    WillPowerOn,
    HasPoweredOn,
}

/// The event a power message code carries; other codes carry none.
pub open spec fn power_event_of(message_type: u32) -> Option<PowerEvent> {
    if message_type == IO_MESSAGE_SYSTEM_WILL_SLEEP {
        Some(PowerEvent::WillSleep)
    } else if message_type == IO_MESSAGE_CAN_SYSTEM_SLEEP {
        Some(PowerEvent::CanSleep)
    } else if message_type == IO_MESSAGE_SYSTEM_WILL_POWER_ON {
        Some(PowerEvent::WillPowerOn)
    } else if message_type == IO_MESSAGE_SYSTEM_HAS_POWERED_ON {
        Some(PowerEvent::HasPoweredOn)
    } else {
        None
    }
}

/// Whether the system waits for permission after delivering the event.
pub open spec fn needs_acknowledgement(event: PowerEvent) -> bool {
    event is WillSleep || event is CanSleep
}

/// The permission to give the system: the root power port and the notification id.
#[derive(Clone, Copy, Debug, PartialEq, Eq, Structural)]
pub struct PowerAck {
    pub root_port: u32,
    pub notification_id: u64,
}

/// What to do for one power message: the event to hand to the subscriber, then the
/// acknowledgement to send, whatever the subscriber did.
#[derive(Clone, Copy, Debug, PartialEq, Eq, Structural)]
pub struct PowerDispatch {
    pub event: Option<PowerEvent>,
    pub acknowledge: Option<PowerAck>,
}

/// One step of tearing a subscription down.
#[derive(Clone, Copy, Debug, PartialEq, Eq, Structural)]
pub enum TeardownStep {
    /// Destroy the notification port, which stops delivery.
    DestroyNotificationPort,
    /// Release the subscriber's callback.
    ReleaseCallback,
    /// Close the connection to the root power domain.
    CloseService(u32),
}

/// Why a power subscription could not be made.
#[derive(Clone, Copy, Debug, PartialEq, Eq, Structural)]
pub enum PowerError {
    /// The power-management service refused the registration.
    RegistrationFailed,
}

/// Where a subscription stands.
#[derive(Clone, Copy, Debug, PartialEq, Eq, Structural)]
pub enum SubscriptionPhase {
    /// The registration call has not returned yet: the root port is unknown.
    Registering,
    /// Registered with a known root port, but not yet attached to the event loop.
    Registered { root_port: u32 },
    /// Attached to the event loop: messages may arrive.
    Listening { root_port: u32 },
    /// Torn down, or never registered.
    Closed,
}

/// The state of a subscription to power messages. Messages are only dispatched while
/// listening, and listening starts only once the root port is known, so a message
/// never meets an unknown root port.
#[derive(Clone, Copy, Debug, PartialEq, Eq, Structural)]
pub struct PowerEventSubscription {
    pub phase: SubscriptionPhase,
}

/// The steps of a teardown with root port `root_port`, in order.
pub open spec fn teardown_plan(root_port: u32) -> Seq<TeardownStep> {
    seq![
        TeardownStep::DestroyNotificationPort,
        TeardownStep::ReleaseCallback,
        TeardownStep::CloseService(root_port),
    ]
}

/// What a power message calls for: its event, if the code is known, and for a sleep
/// request the acknowledgement with the root port and the message argument.
pub open spec fn power_dispatch(root_port: u32, message_type: u32, message_argument: u64) -> PowerDispatch {
    let event = power_event_of(message_type);
    PowerDispatch {
        event,
        acknowledge: if event is Some && needs_acknowledgement(event->0) {
            Some(PowerAck { root_port, notification_id: message_argument })
        } else {
            None
        },
    }
}

/// A sleep request (will-sleep or can-sleep) is handed to the subscriber and then
/// acknowledged exactly once, with the root port and the message argument; a code of
/// no known event reaches no subscriber and is not acknowledged.
pub proof fn lemma_power_message_filtering(root_port: u32, message_type: u32, message_argument: u64)
    ensures
        message_type == IO_MESSAGE_SYSTEM_WILL_SLEEP ==> power_dispatch(
            root_port,
            message_type,
            message_argument,
        ) == (PowerDispatch {
            event: Some(PowerEvent::WillSleep),
            acknowledge: Some(PowerAck { root_port, notification_id: message_argument }),
        }),
        message_type == IO_MESSAGE_CAN_SYSTEM_SLEEP ==> power_dispatch(
            root_port,
            message_type,
            message_argument,
        ) == (PowerDispatch {
            event: Some(PowerEvent::CanSleep),
            acknowledge: Some(PowerAck { root_port, notification_id: message_argument }),
        }),
        power_event_of(message_type) is None ==> power_dispatch(
            root_port,
            message_type,
            message_argument,
        ) == (PowerDispatch { event: None, acknowledge: None }),
{
}

/// The event that a message code carries, if it is one of the four power events.
pub fn power_event_from_message(message_type: u32) -> (r: Option<PowerEvent>)
    ensures
        r == power_event_of(message_type),
{
    if message_type == IO_MESSAGE_SYSTEM_WILL_SLEEP {
        Some(PowerEvent::WillSleep)
    } else if message_type == IO_MESSAGE_CAN_SYSTEM_SLEEP {
        Some(PowerEvent::CanSleep)
    } else if message_type == IO_MESSAGE_SYSTEM_WILL_POWER_ON {
        Some(PowerEvent::WillPowerOn)
    } else if message_type == IO_MESSAGE_SYSTEM_HAS_POWERED_ON {
        Some(PowerEvent::HasPoweredOn)
    } else {
        None
    }
}

/// Decides what a power message with the given root port calls for: the event for
/// the subscriber, if the code is known, and for sleep requests the acknowledgement.
/// An unknown code calls for nothing.
pub fn dispatch_power_message(root_port: u32, message_type: u32, message_argument: u64) -> (r:
    PowerDispatch)
    ensures
        r == power_dispatch(root_port, message_type, message_argument),
{
    let event = power_event_from_message(message_type);
    let acknowledge = match event {
        Some(PowerEvent::WillSleep) | Some(PowerEvent::CanSleep) => Some(
            PowerAck { root_port, notification_id: message_argument },
        ),
        _ => None,
    };
    PowerDispatch { event, acknowledge }
}

impl PowerEventSubscription {
    /// The root port, once the registration has returned one.
    pub open spec fn root_port(&self) -> Option<u32> {
        match self.phase {
            SubscriptionPhase::Registered { root_port } => Some(root_port),
            SubscriptionPhase::Listening { root_port } => Some(root_port),
            _ => None,
        }
    }

    /// A subscription whose registration is under way.
    pub fn new() -> (r: PowerEventSubscription)
        ensures
            r.phase == SubscriptionPhase::Registering,
    {
        PowerEventSubscription { phase: SubscriptionPhase::Registering }
    }

    /// Records what the registration returned. A root port of 0 means the service
    /// refused: the subscription closes and `RegistrationFailed` is returned.
    pub fn complete_registration(&mut self, root_port: u32) -> (r: Result<(), PowerError>)
        requires
            old(self).phase == SubscriptionPhase::Registering,
        ensures
            root_port == 0 ==> r == Err::<(), PowerError>(PowerError::RegistrationFailed)
                && final(self).phase == SubscriptionPhase::Closed,
            root_port != 0 ==> r is Ok && final(self).phase == (SubscriptionPhase::Registered {
                root_port,
            }),
    {
        if root_port == 0 {
            self.phase = SubscriptionPhase::Closed;
            Err(PowerError::RegistrationFailed)
        } else {
            self.phase = SubscriptionPhase::Registered { root_port };
            Ok(())
        }
    }

    /// Attaches the subscription to the event loop; its root port is already known.
    pub fn start_listening(&mut self)
        requires
            old(self).phase is Registered,
        ensures
            final(self).phase is Listening,
            final(self).root_port() == old(self).root_port(),
    {
        if let SubscriptionPhase::Registered { root_port } = self.phase {
            self.phase = SubscriptionPhase::Listening { root_port };
        }
    }

    /// Whether messages may arrive.
    pub fn is_listening(&self) -> (r: bool)
        ensures
            r == (self.phase is Listening),
    {
        matches!(self.phase, SubscriptionPhase::Listening { .. })
    }

    /// Decides what a message delivered to this subscription calls for, with its
    /// root port.
    pub fn dispatch(&self, message_type: u32, message_argument: u64) -> (r: PowerDispatch)
        requires
            self.phase is Listening,
        ensures
            r == power_dispatch(self.root_port()->0, message_type, message_argument),
    {
        let root_port = match self.phase {
            SubscriptionPhase::Listening { root_port } => root_port,
            _ => 0,
        };
        dispatch_power_message(root_port, message_type, message_argument)
    }

    /// Tears the subscription down: it closes, and the steps come back in the order
    /// they must be taken, delivery stopped before the callback is released and the
    /// service connection closed last.
    pub fn teardown(&mut self) -> (r: Vec<TeardownStep>)
        requires
            old(self).root_port() is Some,
        ensures
            final(self).phase == SubscriptionPhase::Closed,
            r@ == teardown_plan(old(self).root_port()->0),
    {
        let root_port = match self.phase {
            SubscriptionPhase::Registered { root_port } => root_port,
            SubscriptionPhase::Listening { root_port } => root_port,
            _ => 0,
        };
        self.phase = SubscriptionPhase::Closed;
        let mut r: Vec<TeardownStep> = Vec::new();
        r.push(TeardownStep::DestroyNotificationPort);
        r.push(TeardownStep::ReleaseCallback);
        r.push(TeardownStep::CloseService(root_port));
        assert(r@ =~= teardown_plan(root_port));
        r
    }
}

} // verus!
