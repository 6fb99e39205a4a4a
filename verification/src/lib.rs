//! Interactive remote-shell sessions, one actor for each open channel.
//!
//! A session owns what it knows locally: its identity, the state of its
//! channel and of its write queue, and a terminal emulator that renders what
//! the remote side sends. It never waits and never talks to the transport
//! itself. Each operation returns at once and hands back, as a value, what is
//! to be done on the channel and whom to notify; the caller does the waiting
//! and the sending.
//!
//! - [`token`]: the identity of a session and its canonical string.
//! - [`shell`]: the session actor and its control operations.
//! - [`protocol`]: the protocol loop, one event at a time.
//! - [`channel`]: messages from the channel and commands for it.
//! - [`terminal`]: the terminal emulator and screen snapshots.
//! - [`queue`]: the write queue.
//! - [`uuid_text`]: the text forms of a UUID.
//! - [`local_file`]: checksums and names for temporary files.
//! - [`error`]: the errors of all of these.

pub mod channel;
pub mod error;
pub mod local_file;
pub mod protocol;
pub mod queue;
pub mod shell;
pub mod terminal;
pub mod token;
pub mod uuid_text;
