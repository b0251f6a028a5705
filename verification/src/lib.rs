//! A thin front end for a command-line secret store: it plans the
//! subprocess steps for reading, editing, generating and rendering
//! secrets, and leaves running those processes to the binary around it.

pub mod args;
pub mod cmd;
pub mod laws;
pub mod qr;
pub mod session;
