use crate::action::Action;
use crate::error::WebTransportError;
use crate::options::ConnectionOptions;
use crate::policy::should_reconnect;
use crate::policy::spec_should_reconnect;
use crate::ready_state::ConnectionReadyState;
use vstd::prelude::*;

verus! {

/// The connection lifecycle controller for one logical transport session.
///
/// The controller is the single owner of the session's observable state:
/// it decides every transition, and all I/O is delegated to the
/// surrounding runtime through the [`Action`] sequences its methods
/// return. The runtime feeds transport completions back through
/// [`ConnectionController::ready_succeeded`],
/// [`ConnectionController::ready_failed`],
/// [`ConnectionController::transport_closed`] and
/// [`ConnectionController::timer_fired`].
///
/// The fields are public so that contracts and observers can read them;
/// they must be mutated only through the controller's methods, which all
/// preserve [`ConnectionController::wf`].
pub struct ConnectionController {
    /// The externally observable phase of the connection.
    pub ready_state: ConnectionReadyState,
    /// Automatic reconnects performed since the last explicit open;
    /// reset to 0 on explicit open, raised to the limit on explicit close.
    pub reconnect_attempts: u64,
    /// How many automatic reconnects may follow one explicit open.
    pub reconnect_limit: u64,
    /// Delay in milliseconds between an unexpected close and the reconnect.
    pub reconnect_interval: u64,
    /// Identifier of the live transport handle, if one is held. At most
    /// one handle is live at a time; a stale handle's events are ignored.
    pub current_transport: Option<u64>,
    /// Whether the single reconnect timer is outstanding.
    pub reconnect_pending: bool,
    /// Identifier that the next transport handle will receive; grows by
    /// one per attempt, so identifiers are never reused.
    pub next_transport: u64,
}

impl ConnectionController {
    /// Well-formedness: a transport is held exactly while the state is not
    /// `Closed`; the reconnect timer is outstanding only while `Closed`
    /// with attempts still below the limit; and every issued transport
    /// identifier lies below the next one.
    pub open spec fn wf(self) -> bool {
        &&& self.current_transport is Some <==> !(self.ready_state is Closed)
        &&& self.reconnect_pending ==> self.ready_state is Closed
            && self.reconnect_attempts < self.reconnect_limit
        &&& self.current_transport matches Some(t) ==> t < self.next_transport
    }

    /// The state of a freshly constructed controller before any open:
    /// closed, no transport, no timer, no attempts.
    pub open spec fn initial(limit: u64, interval: u64) -> ConnectionController {
        ConnectionController {
            ready_state: ConnectionReadyState::Closed,
            reconnect_attempts: 0,
            reconnect_limit: limit,
            reconnect_interval: interval,
            current_transport: None,
            reconnect_pending: false,
            next_transport: 0,
        }
    }

    /// The connect routine's effect on the state: any pending timer is
    /// cancelled, a fresh transport identifier is issued and held, and the
    /// state becomes `Connecting`. The attempt count is untouched.
    pub open spec fn after_connect(s: ConnectionController) -> ConnectionController {
        ConnectionController {
            ready_state: ConnectionReadyState::Connecting,
            current_transport: Some(s.next_transport),
            reconnect_pending: false,
            next_transport: (s.next_transport + 1) as u64,
            ..s
        }
    }

    /// The actions of the connect routine, in order: cancel the pending
    /// timer if one is outstanding, request the close of the superseded
    /// transport if one is held, then create the fresh transport.
    pub open spec fn connect_actions(s: ConnectionController) -> Seq<Action> {
        (if s.reconnect_pending {
            seq![Action::CancelReconnect]
        } else {
            Seq::empty()
        }) + (match s.current_transport {
            Some(t) => seq![Action::CloseTransport(t)],
            None => Seq::empty(),
        }) + seq![Action::CreateTransport(s.next_transport)]
    }

    /// An explicit open's effect: the connect routine with the attempt
    /// count reset to 0.
    pub open spec fn after_open(s: ConnectionController) -> ConnectionController {
        ConnectionController { reconnect_attempts: 0, ..Self::after_connect(s) }
    }

    /// An explicit close's effect: the attempt count is raised to the
    /// limit, the timer is cancelled, and if a transport is held the state
    /// becomes `Closing`; without one nothing else changes.
    pub open spec fn after_close(s: ConnectionController) -> ConnectionController {
        if s.current_transport is Some {
            ConnectionController {
                reconnect_attempts: s.reconnect_limit,
                ready_state: ConnectionReadyState::Closing,
                reconnect_pending: false,
                ..s
            }
        } else {
            ConnectionController {
                reconnect_attempts: s.reconnect_limit,
                reconnect_pending: false,
                ..s
            }
        }
    }

    /// The actions of an explicit close: cancel the pending timer if one
    /// is outstanding, and request the transport's close if one is held.
    /// No notification fires until the closed-signal comes back.
    pub open spec fn close_actions(s: ConnectionController) -> Seq<Action> {
        (if s.reconnect_pending {
            seq![Action::CancelReconnect]
        } else {
            Seq::empty()
        }) + (match s.current_transport {
            Some(t) => seq![Action::CloseTransport(t)],
            None => Seq::empty(),
        })
    }

    /// Whether a ready-signal for transport `t` affects the controller:
    /// only the live transport's signal counts, and only while the
    /// handshake is still awaited.
    pub open spec fn ready_signal_applies(s: ConnectionController, t: u64) -> bool {
        s.current_transport == Some(t) && s.ready_state is Connecting
    }

    /// A successful ready-signal's effect: `Connecting` becomes `Open`;
    /// a stale or out-of-phase signal changes nothing.
    pub open spec fn after_ready_ok(s: ConnectionController, t: u64) -> ConnectionController {
        if Self::ready_signal_applies(s, t) {
            ConnectionController { ready_state: ConnectionReadyState::Open, ..s }
        } else {
            s
        }
    }

    /// The actions of a successful ready-signal: the open notification,
    /// exactly once, and only when the signal applies.
    pub open spec fn ready_ok_actions(s: ConnectionController, t: u64) -> Seq<Action> {
        if Self::ready_signal_applies(s, t) {
            seq![Action::NotifyOpen]
        } else {
            Seq::empty()
        }
    }

    /// A rejected ready-signal's effect: `Connecting` becomes `Closed` and
    /// the failed handle is dropped. No reconnect is scheduled: the policy
    /// only recovers sessions that reached `Open`.
    pub open spec fn after_ready_err(s: ConnectionController, t: u64) -> ConnectionController {
        if Self::ready_signal_applies(s, t) {
            ConnectionController {
                ready_state: ConnectionReadyState::Closed,
                current_transport: None,
                ..s
            }
        } else {
            s
        }
    }

    /// The actions of a rejected ready-signal: the error notification with
    /// the handshake failure, exactly once, and only when the signal
    /// applies.
    pub open spec fn ready_err_actions(s: ConnectionController, t: u64) -> Seq<Action> {
        if Self::ready_signal_applies(s, t) {
            seq![Action::NotifyError(WebTransportError::HandshakeFailure)]
        } else {
            Seq::empty()
        }
    }

    /// Whether a closed-signal for transport `t` affects the controller:
    /// only the live transport's signal counts, and only once the session
    /// was established (`Open`) or an explicit close is underway
    /// (`Closing`).
    pub open spec fn closed_signal_applies(s: ConnectionController, t: u64) -> bool {
        s.current_transport == Some(t)
            && (s.ready_state is Open || s.ready_state is Closing)
    }

    /// A closed-signal's effect: the handle is dropped and the state
    /// becomes `Closed`. After an unexpected close from `Open` the
    /// reconnect policy decides whether the timer is scheduled; after an
    /// explicit close it never is.
    pub open spec fn after_transport_closed(s: ConnectionController, t: u64) -> ConnectionController {
        if Self::closed_signal_applies(s, t) {
            ConnectionController {
                ready_state: ConnectionReadyState::Closed,
                current_transport: None,
                reconnect_pending: s.ready_state is Open
                    && spec_should_reconnect(s.reconnect_attempts, s.reconnect_limit, s.ready_state),
                ..s
            }
        } else {
            s
        }
    }

    /// The actions of a closed-signal. The close notification fires for
    /// normal and unexpected closes alike; an unexpected close below the
    /// reconnect limit additionally schedules exactly one reconnect timer,
    /// and a rejected closed-signal during an explicit close additionally
    /// reports the close failure.
    pub open spec fn transport_closed_actions(
        s: ConnectionController,
        t: u64,
        cleanly: bool,
    ) -> Seq<Action> {
        if Self::closed_signal_applies(s, t) {
            if s.ready_state is Closing {
                if cleanly {
                    seq![Action::NotifyClose]
                } else {
                    seq![Action::NotifyClose, Action::NotifyError(WebTransportError::CloseFailure)]
                }
            } else {
                if spec_should_reconnect(s.reconnect_attempts, s.reconnect_limit, s.ready_state) {
                    seq![Action::NotifyClose, Action::ScheduleReconnect(s.reconnect_interval)]
                } else {
                    seq![Action::NotifyClose]
                }
            }
        } else {
            Seq::empty()
        }
    }

    /// The reconnect timer's effect when it fires: the connect routine
    /// runs without resetting the attempt count, which instead grows by
    /// one for the attempt just issued. Without an outstanding timer
    /// nothing changes.
    pub open spec fn after_timer_fired(s: ConnectionController) -> ConnectionController {
        if s.reconnect_pending {
            ConnectionController {
                reconnect_attempts: (s.reconnect_attempts + 1) as u64,
                ready_state: ConnectionReadyState::Connecting,
                current_transport: Some(s.next_transport),
                reconnect_pending: false,
                next_transport: (s.next_transport + 1) as u64,
                ..s
            }
        } else {
            s
        }
    }

    /// The actions of the firing timer: create the fresh transport, and
    /// nothing else — the timer has already fired, and a well-formed
    /// controller holds no transport while one is pending.
    pub open spec fn timer_fired_actions(s: ConnectionController) -> Seq<Action> {
        if s.reconnect_pending {
            seq![Action::CreateTransport(s.next_transport)]
        } else {
            Seq::empty()
        }
    }

    /// Constructs a controller from its configuration. With
    /// `options.immediate` the explicit open runs exactly once as part of
    /// construction; otherwise the controller stays `Closed`, holds no
    /// transport and performs no action until `open` is called.
    pub fn new(options: &ConnectionOptions) -> (r: (ConnectionController, Vec<Action>))
        ensures
            r.0.wf(),
            r.0.reconnect_limit == options.reconnect_limit,
            r.0.reconnect_interval == options.reconnect_interval,
            options.immediate ==> r.0 == Self::after_open(
                Self::initial(options.reconnect_limit, options.reconnect_interval),
            ) && r.1@ == Self::connect_actions(
                Self::initial(options.reconnect_limit, options.reconnect_interval),
            ),
            !options.immediate ==> r.0 == Self::initial(
                options.reconnect_limit,
                options.reconnect_interval,
            ) && r.1@ == Seq::<Action>::empty(),
            !options.immediate ==> r.0.ready_state is Closed && r.0.current_transport is None,
    {
        let mut controller = ConnectionController {
            ready_state: ConnectionReadyState::Closed,
            reconnect_attempts: 0,
            reconnect_limit: options.reconnect_limit,
            reconnect_interval: options.reconnect_interval,
            current_transport: None,
            reconnect_pending: false,
            next_transport: 0,
        };
        if options.immediate {
            let actions = controller.open();
            (controller, actions)
        } else {
            (controller, Vec::new())
        }
    }

    /// Explicit open: resets the attempt count to 0 and runs the connect
    /// routine, superseding any in-flight transport and cancelling any
    /// pending reconnect. Completion is observed through `ready_state`.
    pub fn open(&mut self) -> (actions: Vec<Action>)
        requires
            old(self).wf(),
            old(self).next_transport < u64::MAX,
        ensures
            final(self).wf(),
            *final(self) == Self::after_open(*old(self)),
            actions@ == Self::connect_actions(*old(self)),
            final(self).reconnect_attempts == 0,
            final(self).ready_state is Connecting,
    {
        self.reconnect_attempts = 0;
        self.connect()
    }

    /// Explicit close: raises the attempt count to the limit, which
    /// suppresses any pending or future automatic reconnect, and if a
    /// transport is held requests its close and awaits the closed-signal
    /// in state `Closing`. With no transport held and no timer pending it
    /// is a no-op beyond the count: no notification, no action.
    pub fn close(&mut self) -> (actions: Vec<Action>)
        requires
            old(self).wf(),
        ensures
            final(self).wf(),
            *final(self) == Self::after_close(*old(self)),
            actions@ == Self::close_actions(*old(self)),
            final(self).reconnect_attempts == old(self).reconnect_limit,
            !final(self).reconnect_pending,
            old(self).current_transport is Some ==> final(self).ready_state is Closing,
            old(self).current_transport is None ==> final(self).ready_state
                == old(self).ready_state && actions@.len() == (
            if old(self).reconnect_pending {
                1int
            } else {
                0int
            }),
    {
        self.reconnect_attempts = self.reconnect_limit;
        let mut actions: Vec<Action> = Vec::new();
        if self.reconnect_pending {
            self.reconnect_pending = false;
            actions.push(Action::CancelReconnect);
        }
        match self.current_transport {
            Some(t) => {
                self.ready_state = ConnectionReadyState::Closing;
                actions.push(Action::CloseTransport(t));
            },
            None => {},
        }
        proof {
            assert(actions@ =~= Self::close_actions(*old(self)));
        }
        actions
    }

    /// The live transport's ready-signal resolved: the handshake finished
    /// and the session is usable. `Connecting` becomes `Open` with the
    /// open notification fired exactly once; a stale identifier or an
    /// out-of-phase signal changes nothing and fires nothing.
    pub fn ready_succeeded(&mut self, transport: u64) -> (actions: Vec<Action>)
        requires
            old(self).wf(),
        ensures
            final(self).wf(),
            *final(self) == Self::after_ready_ok(*old(self), transport),
            actions@ == Self::ready_ok_actions(*old(self), transport),
            Self::ready_signal_applies(*old(self), transport) ==> final(self).ready_state is Open,
            !Self::ready_signal_applies(*old(self), transport) ==> *final(self) == *old(self)
                && actions@ == Seq::<Action>::empty(),
    {
        if self.is_live_transport(transport)
            && self.ready_state == ConnectionReadyState::Connecting {
            self.ready_state = ConnectionReadyState::Open;
            let mut actions: Vec<Action> = Vec::new();
            actions.push(Action::NotifyOpen);
            actions
        } else {
            Vec::new()
        }
    }

    /// The live transport's ready-signal was rejected: the handshake
    /// failed. `Connecting` becomes `Closed`, the handle is dropped, and
    /// the error notification fires with the handshake failure; no
    /// reconnect is scheduled, since the policy only recovers sessions
    /// that reached `Open`. A stale identifier or an out-of-phase signal
    /// changes nothing and fires nothing.
    pub fn ready_failed(&mut self, transport: u64) -> (actions: Vec<Action>)
        requires
            old(self).wf(),
        ensures
            final(self).wf(),
            *final(self) == Self::after_ready_err(*old(self), transport),
            actions@ == Self::ready_err_actions(*old(self), transport),
            final(self).reconnect_pending == old(self).reconnect_pending,
            Self::ready_signal_applies(*old(self), transport) ==> final(self).ready_state is Closed
                && !final(self).reconnect_pending,
            !Self::ready_signal_applies(*old(self), transport) ==> *final(self) == *old(self)
                && actions@ == Seq::<Action>::empty(),
    {
        if self.is_live_transport(transport)
            && self.ready_state == ConnectionReadyState::Connecting {
            self.ready_state = ConnectionReadyState::Closed;
            self.current_transport = None;
            let mut actions: Vec<Action> = Vec::new();
            actions.push(Action::NotifyError(WebTransportError::HandshakeFailure));
            actions
        } else {
            Vec::new()
        }
    }

    /// The live transport's closed-signal completed. During an explicit
    /// close (`Closing`) the state becomes `Closed` and the close
    /// notification fires, with the close failure reported additionally
    /// when the signal was rejected. From `Open` this is an unexpected
    /// close: the close notification fires and the reconnect policy
    /// decides whether the single reconnect timer is scheduled. A stale
    /// identifier or an out-of-phase signal changes nothing and fires
    /// nothing.
    pub fn transport_closed(&mut self, transport: u64, cleanly: bool) -> (actions: Vec<Action>)
        requires
            old(self).wf(),
        ensures
            final(self).wf(),
            *final(self) == Self::after_transport_closed(*old(self), transport),
            actions@ == Self::transport_closed_actions(*old(self), transport, cleanly),
            Self::closed_signal_applies(*old(self), transport) ==> final(self).ready_state
                is Closed && final(self).reconnect_pending == (old(self).ready_state is Open
                && spec_should_reconnect(
                old(self).reconnect_attempts,
                old(self).reconnect_limit,
                old(self).ready_state,
            )),
            !Self::closed_signal_applies(*old(self), transport) ==> *final(self) == *old(self)
                && actions@ == Seq::<Action>::empty(),
    {
        let live = self.is_live_transport(transport);
        if live && self.ready_state == ConnectionReadyState::Closing {
            self.ready_state = ConnectionReadyState::Closed;
            self.current_transport = None;
            let mut actions: Vec<Action> = Vec::new();
            actions.push(Action::NotifyClose);
            if !cleanly {
                actions.push(Action::NotifyError(WebTransportError::CloseFailure));
            }
            actions
        } else if live && self.ready_state == ConnectionReadyState::Open {
            let retry = should_reconnect(
                self.reconnect_attempts,
                self.reconnect_limit,
                self.ready_state,
            );
            self.ready_state = ConnectionReadyState::Closed;
            self.current_transport = None;
            let mut actions: Vec<Action> = Vec::new();
            actions.push(Action::NotifyClose);
            if retry {
                self.reconnect_pending = true;
                actions.push(Action::ScheduleReconnect(self.reconnect_interval));
            }
            actions
        } else {
            Vec::new()
        }
    }

    /// The reconnect timer fired: the connect routine runs again without
    /// resetting the attempt count, and the count grows by one for the
    /// attempt just issued. Without an outstanding timer this changes
    /// nothing and fires nothing.
    pub fn timer_fired(&mut self) -> (actions: Vec<Action>)
        requires
            old(self).wf(),
            old(self).next_transport < u64::MAX,
        ensures
            final(self).wf(),
            *final(self) == Self::after_timer_fired(*old(self)),
            actions@ == Self::timer_fired_actions(*old(self)),
            old(self).reconnect_pending ==> final(self).reconnect_attempts == old(
                self,
            ).reconnect_attempts + 1 && final(self).ready_state is Connecting,
            !old(self).reconnect_pending ==> *final(self) == *old(self) && actions@
                == Seq::<Action>::empty(),
    {
        if self.reconnect_pending {
            self.reconnect_pending = false;
            let actions = self.connect();
            self.reconnect_attempts = self.reconnect_attempts + 1;
            proof {
                assert(actions@ =~= Self::timer_fired_actions(*old(self)));
            }
            actions
        } else {
            Vec::new()
        }
    }

    /// The current state of the connection, the observable that callers
    /// poll or subscribe to.
    pub fn ready_state(&self) -> (state: ConnectionReadyState)
        ensures
            state == self.ready_state,
    {
        self.ready_state
    }

    /// Whether `transport` identifies the live transport handle.
    fn is_live_transport(&self, transport: u64) -> (live: bool)
        ensures
            live == (self.current_transport == Some(transport)),
    {
        match self.current_transport {
            Some(t) => t == transport,
            None => false,
        }
    }

    /// The shared connect routine of the explicit open and the scheduled
    /// reconnect: cancel any pending timer, request the close of a
    /// superseded transport, create the fresh one and await its handshake
    /// in state `Connecting`. The attempt count is left untouched.
    fn connect(&mut self) -> (actions: Vec<Action>)
        requires
            old(self).next_transport < u64::MAX,
        ensures
            *final(self) == Self::after_connect(*old(self)),
            actions@ == Self::connect_actions(*old(self)),
    {
        let mut actions: Vec<Action> = Vec::new();
        if self.reconnect_pending {
            self.reconnect_pending = false;
            actions.push(Action::CancelReconnect);
        }
        match self.current_transport {
            Some(t) => {
                actions.push(Action::CloseTransport(t));
            },
            None => {},
        }
        let fresh = self.next_transport;
        self.next_transport = fresh + 1;
        self.current_transport = Some(fresh);
        self.ready_state = ConnectionReadyState::Connecting;
        actions.push(Action::CreateTransport(fresh));
        proof {
            assert(actions@ =~= Self::connect_actions(*old(self)));
        }
        actions
    }
}

} // verus!
