//! Job control from anywhere: the protocol between client and server, the
//! command-line decisions of the client, the job table, and the pseudo
//! terminal handling of the server, as verified code.
use vstd::prelude::*;

pub mod cli;
pub mod protocol;
pub mod pty;
pub mod text;
pub mod ui;
pub mod util;

verus! {
} // verus!
