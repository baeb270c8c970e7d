//! One connection's lifecycle as a state machine. The caller performs the
//! outside work (reading frames, running the outbound pump, holding the
//! registry's lock) and hands each event to the session, which decides.
use crate::account::{Status, UserData, UserState};
use crate::broadcast::{
    broadcast, delivered_keys, envelope_text, inbound_envelope, inbound_text, pushes_for,
    times_reached, Delivery,
};
use crate::channel::Outbox;
use crate::registry::{is_connected_in, is_recipient, Registry, RegistryMap};
use tokio::sync::mpsc::UnboundedSender;
use vstd::prelude::*;

verus! {

/// Where a session stands. `Attaching` is the `Session::attach` call itself:
/// a session value exists only once it has succeeded.
#[derive(Clone, Copy, Debug, PartialEq, Eq, Structural)]
pub enum Phase {
    Active,
    Closing,
    Closed,
}

/// Why an attach was refused. Neither leaves any trace in the registry.
#[derive(Clone, Copy, Debug, PartialEq, Eq, Structural)]
pub enum AttachError {
    /// The identity directory does not know the user key.
    UnknownUser,
    /// The key is already attached to another live connection.
    AlreadyConnected,
}

/// An inbound frame, as far as the relay tells frames apart.
pub enum Frame {
    Text(String),
    /// Binary, ping, pong or close: never rebroadcast.
    Other,
}

/// What a session owes for one inbound frame.
pub enum FrameOutcome {
    /// A valid message: this envelope goes to every recipient.
    Broadcast(String),
    /// A text frame that is not `{"message": <string>}`: dropped.
    Malformed,
    /// A frame that triggers no broadcast, or any frame after the read loop
    /// has ended.
    Ignored,
}

/// The configurable parts of the relay's behaviour.
#[derive(Clone, Copy, Debug, PartialEq, Eq, Structural)]
pub struct RelayPolicy {
    /// Whether a sender receives its own messages back.
    pub echo_to_sender: bool,
    /// Whether closing a session removes its key from the registry, rather
    /// than leaving it there marked disconnected.
    pub remove_on_close: bool,
}

impl RelayPolicy {
    /// The sender gets no echo of its own messages, and identities stay in
    /// the registry while offline.
    pub fn standard() -> (r: RelayPolicy)
        ensures
            !r.echo_to_sender,
            !r.remove_on_close,
    {
        RelayPolicy { echo_to_sender: false, remove_on_close: false }
    }
}

/// The model of a session: its user key, the display name resolved at
/// attach time, and its phase.
pub struct SessionView {
    pub key: Seq<char>,
    pub name: Seq<char>,
    pub phase: Phase,
}

/// The state of one attached connection.
pub struct Session {
    key: String,
    display_name: String,
    phase: Phase,
}

/// A key may attach while it has no connected entry.
pub open spec fn may_attach(m: RegistryMap, key: Seq<char>) -> bool {
    !is_connected_in(m, key)
}

/// The registry after a session for `key` closes under `remove_on_close`.
pub open spec fn after_close(m: RegistryMap, key: Seq<char>, remove_on_close: bool) -> RegistryMap {
    if remove_on_close {
        m.remove(key)
    } else if m.contains_key(key) {
        m.insert(key, UserState::spec_disconnected())
    } else {
        m
    }
}

/// The envelope owed for `frame` from a session shown as `name` in `phase`.
pub open spec fn owed_envelope(phase: Phase, name: Seq<char>, frame: Frame) -> Option<Seq<char>> {
    match frame {
        Frame::Text(t) => if phase == Phase::Active {
            match inbound_text(t@) {
                Some(m) => Some(envelope_text(name, m)),
                None => None,
            }
        } else {
            None
        },
        Frame::Other => None,
    }
}

impl View for Session {
    type V = SessionView;

    closed spec fn view(&self) -> SessionView {
        SessionView { key: self.key@, name: self.display_name@, phase: self.phase }
    }
}

impl Session {
    /// Attaches `key` to the connection whose pump drains `handle`.
    /// `profile` is what the identity directory resolved for `key`. On
    /// success the registry holds a connected entry with `handle` and the
    /// session is active; on failure the registry is untouched and `handle`
    /// is dropped, which ends its pump.
    pub fn attach(
        key: String,
        profile: Option<UserData>,
        handle: UnboundedSender<String>,
        registry: &mut Registry,
    ) -> (r: Result<Session, AttachError>)
        requires
            old(registry).wf(),
        ensures
            final(registry).wf(),
            match r {
                Ok(s) => {
                    &&& profile matches Some(p) && s@.name == p.user_name@
                    &&& may_attach(old(registry)@, key@)
                    &&& s@.key == key@
                    &&& s@.phase == Phase::Active
                    &&& final(registry)@ == old(registry)@.insert(
                        key@,
                        UserState { status: Status::Connected, sender: Some(handle) },
                    )
                },
                Err(AttachError::UnknownUser) => {
                    &&& profile is None
                    &&& final(registry)@ == old(registry)@
                },
                Err(AttachError::AlreadyConnected) => {
                    &&& profile is Some
                    &&& !may_attach(old(registry)@, key@)
                    &&& final(registry)@ == old(registry)@
                },
            },
    {
        let user = match profile {
            Some(p) => p,
            None => return Err(AttachError::UnknownUser),
        };
        let busy = match registry.get(&key) {
            Some(e) => e.is_connected(),
            None => false,
        };
        if busy {
            return Err(AttachError::AlreadyConnected);
        }
        let _prev = registry.upsert(key.clone(), UserState::connected(handle));
        Ok(Session { key, display_name: user.user_name, phase: Phase::Active })
    }

    /// The user key this session is attached as.
    pub fn key(&self) -> (r: &String)
        ensures
            r@ == self@.key,
    {
        &self.key
    }

    /// The display name resolved when the session attached.
    pub fn display_name(&self) -> (r: &String)
        ensures
            r@ == self@.name,
    {
        &self.display_name
    }

    /// The session's phase.
    pub fn phase(&self) -> (r: Phase)
        ensures
            r == self@.phase,
    {
        self.phase
    }

    /// Decides what one inbound frame is owed: a text frame that carries a
    /// message is rendered into an envelope, any other text frame is
    /// malformed, and every other frame, or any frame once the read loop has
    /// ended, is ignored.
    pub fn on_frame(&self, frame: &Frame) -> (r: FrameOutcome)
        ensures
            match r {
                FrameOutcome::Broadcast(e) => owed_envelope(self@.phase, self@.name, *frame) == Some(e@),
                FrameOutcome::Malformed => {
                    &&& self@.phase == Phase::Active
                    &&& frame matches Frame::Text(t) && inbound_text(t@) is None
                },
                FrameOutcome::Ignored => {
                    &&& owed_envelope(self@.phase, self@.name, *frame) is None
                    &&& (self@.phase == Phase::Active ==> frame is Other)
                },
            },
    {
        match frame {
            Frame::Text(t) => {
                if self.phase != Phase::Active {
                    return FrameOutcome::Ignored;
                }
                match inbound_envelope(self.display_name.as_str(), t.as_str()) {
                    Some(e) => FrameOutcome::Broadcast(e),
                    None => FrameOutcome::Malformed,
                }
            },
            Frame::Other => FrameOutcome::Ignored,
        }
    }

    /// Handles one inbound frame end to end: when it carries a message, its
    /// envelope is pushed once on the handle of every recipient in
    /// `registry` and nowhere else; otherwise nothing is pushed.
    pub fn handle_frame(
        &self,
        frame: &Frame,
        registry: &Registry,
        policy: RelayPolicy,
        outbox: &mut Outbox,
    ) -> (r: Vec<Delivery>)
        requires
            registry.wf(),
        ensures
            match owed_envelope(self@.phase, self@.name, *frame) {
                Some(e) => final(outbox)@ == old(outbox)@ + pushes_for(r@, registry@, e),
                None => final(outbox)@ == old(outbox)@,
            },
            forall|k: Seq<char>|
                #[trigger] times_reached(r@, k) == (if owed_envelope(self@.phase, self@.name, *frame) is Some
                    && is_recipient(registry@, self@.key, policy.echo_to_sender, k) {
                    1nat
                } else {
                    0nat
                }),
    {
        match self.on_frame(frame) {
            FrameOutcome::Broadcast(e) => broadcast(registry, &self.key, &e, policy.echo_to_sender, outbox),
            _ => {
                let r: Vec<Delivery> = Vec::new();
                proof {
                    assert(delivered_keys(r@) =~= Seq::empty());
                    assert forall|k: Seq<char>| #[trigger] times_reached(r@, k) == 0 by {
                        delivered_keys(r@).to_multiset_ensures();
                    }
                }
                r
            },
        }
    }

    /// The read loop has ended: end of stream, a read error or cancellation.
    /// An active session starts closing; any other phase is kept.
    pub fn end_of_stream(&mut self)
        ensures
            final(self)@.key == old(self)@.key,
            final(self)@.name == old(self)@.name,
            final(self)@.phase == (if old(self)@.phase == Phase::Active {
                Phase::Closing
            } else {
                old(self)@.phase
            }),
    {
        if self.phase == Phase::Active {
            self.phase = Phase::Closing;
        }
    }

    /// The outbound pump stopped because writing to the stream failed. An
    /// active session starts closing, as when its read loop ends; any other
    /// phase is kept.
    pub fn pump_stopped(&mut self)
        ensures
            final(self)@.key == old(self)@.key,
            final(self)@.name == old(self)@.name,
            final(self)@.phase == (if old(self)@.phase == Phase::Active {
                Phase::Closing
            } else {
                old(self)@.phase
            }),
    {
        if self.phase == Phase::Active {
            self.phase = Phase::Closing;
        }
    }

    /// Detaches the session: its entry is removed, or marked disconnected
    /// with its handle dropped, as `policy` says, and the session is closed.
    /// Once its own handle copies are gone its pump sees the channel close.
    /// Closing a closed session changes nothing.
    pub fn close(&mut self, registry: &mut Registry, policy: RelayPolicy)
        requires
            old(registry).wf(),
        ensures
            final(registry).wf(),
            final(self)@.key == old(self)@.key,
            final(self)@.name == old(self)@.name,
            final(self)@.phase == Phase::Closed,
            final(registry)@ == (if old(self)@.phase == Phase::Closed {
                old(registry)@
            } else {
                after_close(old(registry)@, old(self)@.key, policy.remove_on_close)
            }),
    {
        if self.phase == Phase::Closed {
            return;
        }
        if policy.remove_on_close {
            let _prev = registry.remove(&self.key);
        } else {
            let _found = registry.set_status(&self.key, Status::Disconnected);
        }
        self.phase = Phase::Closed;
    }
}

} // verus!
