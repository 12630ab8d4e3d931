//! Client-side core of an envelope-based streaming protocol carried over a
//! WebSocket connection: the wire-format model of inbound envelopes, the
//! acknowledgment encoder, and the session state machine that drives
//! connect, stream, acknowledge, and reconnect.

pub mod config;
pub mod envelope;
pub mod json;
pub mod modal;
pub mod session;
pub mod socket_mode;
pub mod text;

pub use socket_mode::BootstrapError;
pub use socket_mode::SocketMode;

pub use envelope::DecodeError;
pub use envelope::ReceivedStreamData;
pub use envelope::ReceivedStreamDataBody;
pub use envelope::ReceivedStreamDataEvent;
pub use envelope::ReceivedStreamDataEventForApplication;
pub use envelope::ReceivedStreamDataEventForApplicationAttachment;
pub use envelope::ReceivedStreamDataEventForBot;
pub use envelope::ReceivedStreamDataEventForUser;
pub use envelope::ReceivedStreamDataPayload;
pub use envelope::ReceivedStreamDisconnect;
pub use envelope::ReceivedStreamHello;
pub use envelope::ReceivedStreamInteractivePayload;
pub use envelope::ReceivedStreamInteractivePayloadView;
pub use envelope::ReceivedStreamShashCommand;
pub use envelope::ReceivedStreamShashCommandPayload;
pub use envelope::SendStreamAcknowledge;
pub use envelope::classify;
pub use session::HandlerKind;
pub use session::PendingAction;
pub use session::route;
pub use session::SessionAction;
pub use session::SessionEvent;
pub use session::SessionState;
pub use session::StepResult;
pub use session::pending_action;
pub use session::step;

pub use json::JsonModel;
pub use json::JsonValue;

pub use text::chars_of;
pub use text::string_from_chars;

pub use config::Config;
pub use config::ConfigError;
pub use config::Stage;
pub use config::default_port;
pub use config::default_stage;
