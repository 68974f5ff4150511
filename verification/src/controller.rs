//! The per-proxy lifecycle controller, as a state machine.
//!
//! The controller's decisions are pure: from the current state and one
//! input — a command from the channel, or the outcome of a bind attempt —
//! it moves to the next state and names the one action its supervisor
//! should perform. The supervisor loop (binding, spawning the acceptor,
//! firing the shutdown signal, sleeping between polls) stays outside.

use vstd::prelude::*;
use crate::ProxyId;

verus! {

/// A command accepted by a controller.
#[derive(Debug, Clone)]
pub enum ProxyCommand {
    Stop,
    Start,
}

/// A controller's lifecycle state.
#[derive(Debug, PartialEq, Eq, Structural)]
pub enum ProxyState {
    Running,
    Stopped,
    Error,
}

/// An event published by a controller to its consumer.
#[derive(Debug, Clone, PartialEq, Eq, Structural)]
pub enum ProxyEvent {
    /// Emitted exactly once, when the controller comes up and its command
    /// channel exists.
    Initialized(ProxyId),
    /// Emitted on a failed bind attempt.
    ProxyError(ProxyId),
    /// Emitted after a request/response pair was logged.
    NewHttpLogRow,
}

/// One input to the controller: a command, or a bind outcome.
#[derive(Debug, Clone)]
pub enum ControllerInput {
    Command(ProxyCommand),
    BindSucceeded,
    BindFailed,
}

/// The one action a step asks its supervisor to perform.
#[derive(Debug, PartialEq, Eq, Structural)]
pub enum ControllerAction {
    /// Fire the shutdown signal: the acceptor task unwinds and the listener
    /// closes. In-flight connections finish on their own.
    FireShutdown,
    /// Bind a TCP listener on the controller's port and report the outcome
    /// as `BindSucceeded` or `BindFailed`.
    TryBind,
    /// Publish `ProxyEvent::ProxyError(proxy_id)`.
    EmitProxyError,
    /// Nothing to do.
    Ignore,
}

/// The per-proxy controller state.
pub struct ProxyController {
    proxy_id: ProxyId,
    port: u16,
    state: ProxyState,
    has_shutdown: bool,
}

impl ProxyController {
    /// The controller owns an active shutdown signal exactly when it is
    /// running.
    #[verifier::type_invariant]
    spec fn wf(self) -> bool {
        (self.state is Running) == self.has_shutdown
    }

    pub closed spec fn id(self) -> ProxyId {
        self.proxy_id
    }

    pub closed spec fn port_number(self) -> u16 {
        self.port
    }

    /// The controller's stable identifier.
    pub fn proxy_id(&self) -> (r: ProxyId)
        ensures
            r == self.id(),
    {
        self.proxy_id
    }

    /// The port the controller binds on `Start`.
    pub fn port(&self) -> (r: u16)
        ensures
            r == self.port_number(),
    {
        self.port
    }

    pub closed spec fn state(self) -> ProxyState {
        self.state
    }

    pub closed spec fn owns_shutdown(self) -> bool {
        self.has_shutdown
    }

    /// The next state after one input, per the lifecycle rules:
    /// `Stop` fires the shutdown and stops a running controller and is
    /// ignored otherwise; `Start` is ignored while running; a successful
    /// bind runs the controller; a failed one puts it in `Error`, from
    /// which a later `Start` may try again.
    pub open spec fn next_state(self, input: ControllerInput) -> ProxyState {
        match input {
            ControllerInput::Command(ProxyCommand::Stop) => {
                if self.state() is Running {
                    ProxyState::Stopped
                } else {
                    self.state()
                }
            },
            ControllerInput::Command(ProxyCommand::Start) => self.state(),
            ControllerInput::BindSucceeded => {
                if self.state() is Running {
                    self.state()
                } else {
                    ProxyState::Running
                }
            },
            ControllerInput::BindFailed => {
                if self.state() is Running {
                    self.state()
                } else {
                    ProxyState::Error
                }
            },
        }
    }

    /// The action a step requests for one input.
    pub open spec fn action_for(self, input: ControllerInput) -> ControllerAction {
        match input {
            ControllerInput::Command(ProxyCommand::Stop) => {
                if self.state() is Running {
                    ControllerAction::FireShutdown
                } else {
                    ControllerAction::Ignore
                }
            },
            ControllerInput::Command(ProxyCommand::Start) => {
                if self.state() is Running {
                    ControllerAction::Ignore
                } else {
                    ControllerAction::TryBind
                }
            },
            ControllerInput::BindSucceeded => ControllerAction::Ignore,
            ControllerInput::BindFailed => {
                if self.state() is Running {
                    ControllerAction::Ignore
                } else {
                    ControllerAction::EmitProxyError
                }
            },
        }
    }

    /// A fresh controller: stopped, no shutdown signal. Its supervisor
    /// publishes `ProxyEvent::Initialized(proxy_id)` exactly once after
    /// creating it, handing the command sender to the consumer.
    pub fn new(proxy_id: ProxyId, port: u16) -> (c: Self)
        ensures
            c.id() == proxy_id,
            c.port_number() == port,
            c.state() is Stopped,
            !c.owns_shutdown(),
    {
        ProxyController { proxy_id, port, state: ProxyState::Stopped, has_shutdown: false }
    }

    /// Feeds one input through the state machine and returns the action for
    /// the supervisor to perform.
    pub fn step(&mut self, input: &ControllerInput) -> (action: ControllerAction)
        ensures
            final(self).id() == old(self).id(),
            final(self).port_number() == old(self).port_number(),
            final(self).state() == old(self).next_state(*input),
            action == old(self).action_for(*input),
            final(self).owns_shutdown() == (final(self).state() is Running),
    {
        proof {
            use_type_invariant(&*self);
        }
        match input {
            ControllerInput::Command(ProxyCommand::Stop) => {
                if self.has_shutdown {
                    *self = ProxyController {
                        proxy_id: self.proxy_id,
                        port: self.port,
                        state: ProxyState::Stopped,
                        has_shutdown: false,
                    };
                    ControllerAction::FireShutdown
                } else {
                    ControllerAction::Ignore
                }
            },
            ControllerInput::Command(ProxyCommand::Start) => {
                match self.state {
                    ProxyState::Running => ControllerAction::Ignore,
                    _ => ControllerAction::TryBind,
                }
            },
            ControllerInput::BindSucceeded => {
                match self.state {
                    ProxyState::Running => ControllerAction::Ignore,
                    _ => {
                        *self = ProxyController {
                            proxy_id: self.proxy_id,
                            port: self.port,
                            state: ProxyState::Running,
                            has_shutdown: true,
                        };
                        ControllerAction::Ignore
                    },
                }
            },
            ControllerInput::BindFailed => {
                match self.state {
                    ProxyState::Running => ControllerAction::Ignore,
                    _ => {
                        self.state = ProxyState::Error;
                        ControllerAction::EmitProxyError
                    },
                }
            },
        }
    }
}

/// Law: a bind conflict is reported and recoverable. A failed bind on a
/// non-running controller asks for `ProxyError` to be published and puts
/// the controller in `Error`; from there a `Start` asks for a fresh bind
/// attempt, and a successful bind runs the controller again.
pub proof fn lemma_bind_conflict_recovery(c: ProxyController, after_fail: ProxyController)
    requires
        !(c.state() is Running),
        after_fail.state() == c.next_state(ControllerInput::BindFailed),
    ensures
        c.action_for(ControllerInput::BindFailed) is EmitProxyError,
        after_fail.state() is Error,
        after_fail.action_for(ControllerInput::Command(ProxyCommand::Start)) is TryBind,
        after_fail.next_state(ControllerInput::BindSucceeded) is Running,
{
}

} // verus!
