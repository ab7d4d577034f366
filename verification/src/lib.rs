//! Session bookkeeping for PTY-backed remote shells: shell tokens, the
//! readiness latch, the channel-event state machine, the terminal mirror and
//! the registries of live connections and shells.
//!
//! Everything here is synchronous and free of I/O. A caller that owns the
//! transport performs the requests these functions hand out and reports the
//! outcomes back.

pub mod channel;
pub mod error;
pub mod gate;
pub mod handler;
pub mod lifecycle;
pub mod manager;
pub mod mirror;
pub mod registry;
pub mod shell;
pub mod token;

pub use channel::{ChannelEvent, ChannelRequest, ProcData, PtyOutcome, ShellData};
pub use error::{Error, ErrorKind};
pub use gate::{Admission, Gate};
pub use handler::{ClientHandler, HostKeyType, SignatureHash};
pub use lifecycle::{Activation, Lifecycle, StreamAction, StreamEvent};
pub use manager::{Connection, SessionManager};
pub use mirror::{size_is_usable, ShellBuffer, TerminalMirror};
pub use registry::{Registry, RegistryKey};
pub use shell::{ScreenStep, Shell};
pub use token::{ShellToken, TokenError};
