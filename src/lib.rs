//! Connection registry and broadcast core of a real-time chat relay.
//!
//! The registry tracks which user keys are attached to a live connection and
//! owns a copy of each connection's outbound handle. The broadcaster renders
//! an inbound message into a display envelope and fans it out to the
//! connected entries. The session module holds the per-connection lifecycle
//! as a state machine whose effects on the registry are stated exactly, and
//! the pump module the rule by which a connection's queue is drained. The
//! account, credentials and pages modules hold the decisions of the
//! registration and login routes.

pub mod account;
pub mod broadcast;
pub mod channel;
pub mod credentials;
pub mod laws;
pub mod pages;
pub mod pump;
pub mod registry;
pub mod session;

pub use account::{LoginRequest, RegisterRequest, Status, UserData, UserState};
pub use broadcast::{
    broadcast, decode_inbound, deliver, envelope_for, inbound_envelope, render_envelope, Delivery,
};
pub use channel::Outbox;
pub use credentials::authenticate;
pub use pages::{
    login_reply, registration_reply, ChatPage, LoginOutcome, LoginPage, LoginRegisterResponse,
    MyChat, RegisterPage, RegistrationOutcome, Reply,
};
pub use pump::{Pump, PumpAction, PumpEvent, PumpState};
pub use registry::{Registry, Target};
pub use session::{AttachError, Frame, FrameOutcome, Phase, RelayPolicy, Session};
