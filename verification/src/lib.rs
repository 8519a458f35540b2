//! The session with one numerically controlled machine, and the text of the
//! program it is sent.
//!
//! A [`session::SessionCoordinator`] owns the connection to one endpoint. It
//! decides what is written to the device and in what order, when its reply
//! is read, and what that reply means; it touches no transport itself. The
//! caller hands it events and carries out the actions it answers with.
//! [`command`] holds the wire form of every command, [`status`] the snapshot
//! made of a reply, [`convert`] the rendering of a compiled program, and
//! [`trace`] what holds of whole runs of a session.
//!
//! The parsing of a document and its compilation into a program are left to
//! the caller. Both can bring the process down on text that no simple test
//! tells apart: the parser by running out of stack on deeply nested markup,
//! the compiler by panicking on attributes it cannot read.

pub mod command;
pub mod convert;
pub mod endpoint;
pub mod error;
pub mod session;
pub mod status;
pub mod trace;
