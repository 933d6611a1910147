//! The messages exchanged between the client and the server, and the codec
//! adapter that turns frames into messages and back.
//!
//! Operating-system strings (command words, environment entries, paths) are
//! held as their raw bytes, which is what they are on Unix.
use vstd::prelude::*;
use vstd::string::*;

use crate::text::{decimal, decimal_string};

verus! {

/// A command line, an environment entry or a path, as raw bytes.
pub type OsBytes = Vec<u8>;

/// Messages a client sends to the server.
#[derive(Debug, Clone)]
pub enum Request {
    /// Allocate a new terminal and start `command`.
    Start {
        command: Vec<OsBytes>,
        env: Vec<(OsBytes, OsBytes)>,
        pwd: OsBytes,
        rows: u16,
        cols: u16,
    },
    ListProcesses,
    Quit,
    /// Restart the stopped foreground process in the given terminal.
    /// Has no effect if the process is not stopped. If `id` is None, resumes
    /// the last stopped terminal.
    Resume {
        id: Option<u32>,
        /// Whether the server should sent over the outputs it has accumulated
        with_output: bool,
    },
    /// Window size has changed. Should be sent by the client in response to
    /// the SIGWINCH signal.
    WindowSize { id: u32, rows: u16, cols: u16 },
}

/// How a process ended.
#[derive(Debug, Clone, Copy, PartialEq, Eq, Structural)]
pub enum ExitStatus {
    Exited(i32),
    Signaled(i32),
}

/// The state of the process running in a terminal.
#[derive(Debug, Clone, Copy, PartialEq, Eq, Structural)]
pub enum ProcessState {
    Running,
    Stopped,
    Terminated(ExitStatus),
}

/// One job, as listed by the server.
#[derive(Debug, Clone)]
pub struct Process {
    pub id: u32,
    pub pid: u32,
    pub state: ProcessState,
    pub connected: bool,
    pub command: OsBytes,
}

/// Errors the server reports to a client.
#[derive(Debug, Clone, Copy, PartialEq, Eq, Structural)]
pub enum Error {
    NotFound { id: Option<u32> },
    AlreadyConnected { id: u32 },
    InvalidRequest,
}

/// The `Debug` text of an optional job id: `Some(<id>)` or `None`.
pub open spec fn optional_id_text(id: Option<u32>) -> Seq<char> {
    match id {
        Some(n) => "Some("@ + decimal(n as nat) + ")"@,
        None => "None"@,
    }
}

/// The message of an error, as shown to the user.
pub open spec fn error_message(e: Error) -> Seq<char> {
    match e {
        Error::NotFound { id } => "Job "@ + optional_id_text(id) + " not found"@,
        Error::AlreadyConnected { id } => "Job "@ + decimal(id as nat) + " is already foreground somewhere else"@,
        Error::InvalidRequest => "Client sent an invalid request"@,
    }
}

impl Error {
    /// The message shown to the user for this error.
    pub fn message(&self) -> (m: String)
        ensures
            m@ == error_message(*self),
    {
        match self {
            Error::NotFound { id } => {
                let mut m = String::from_str("Job ");
                match id {
                    Some(n) => {
                        m.append("Some(");
                        m.append(decimal_string(*n as u64).as_str());
                        m.append(")");
                    },
                    None => m.append("None"),
                }
                m.append(" not found");
                m
            },
            Error::AlreadyConnected { id } => {
                let mut m = String::from_str("Job ");
                m.append(decimal_string(*id as u64).as_str());
                m.append(" is already foreground somewhere else");
                m
            },
            Error::InvalidRequest => String::from_str("Client sent an invalid request"),
        }
    }
}

/// Messages the server sends to a client.
#[derive(Debug, Clone)]
pub enum Event {
    /// Process in the given terminal changed state, i.e. exist, stopped,
    /// started, or killed. When this is sent in response to a Start
    /// request, `id` is a newly allocated identifier.
    StateChanged {
        /// The unique identifier for the terminal.
        id: u32,
        state: ProcessState,
    },
    /// Sent on `Resume`, report the current terminal size
    WindowSize { cols: u16, rows: u16 },
    Error(Error),
    /// Responses for the ListProcesses request
    Process(Process),
}

/// A codec adapter: `inner` turns bytes into items of type `DO` and items
/// of type `EI` into bytes; `map_decode` turns each decoded item into an `R`
/// and `map_encode` turns each `W` to be sent into an `EI`.
pub struct MapCodec<T, EI, DO, R, W, FD, FE> {
    inner: T,
    map_decode: FD,
    map_encode: FE,
    _marker: core::marker::PhantomData<(DO, R, W, EI)>,
}

impl<T, EI, DO, R, W, FD, FE> MapCodec<T, EI, DO, R, W, FD, FE> {
    /// The wrapped codec.
    pub closed spec fn inner_codec(&self) -> T {
        self.inner
    }

    /// The function applied to every decoded item.
    pub closed spec fn decode_map(&self) -> FD {
        self.map_decode
    }

    /// The function applied to every item before it is encoded.
    pub closed spec fn encode_map(&self) -> FE {
        self.map_encode
    }

    pub fn new(inner: T, map_decode: FD, map_encode: FE) -> (codec: Self)
        ensures
            codec.inner_codec() == inner,
            codec.decode_map() == map_decode,
            codec.encode_map() == map_encode,
    {
        Self { inner, map_decode, map_encode, _marker: core::marker::PhantomData }
    }

    /// The wrapped codec, to decode from or encode into.
    pub fn inner_mut(&mut self) -> (inner: &mut T)
        ensures
            *inner == old(self).inner_codec(),
            final(self).inner_codec() == *final(inner),
            final(self).decode_map() == old(self).decode_map(),
            final(self).encode_map() == old(self).encode_map(),
    {
        &mut self.inner
    }
}

impl<T, EI, DO, R, W, FD: Fn(DO) -> R, FE> MapCodec<T, EI, DO, R, W, FD, FE> {
    /// Decoding: what the wrapped codec decoded, with every item mapped by
    /// `map_decode`; "no full frame yet" and errors pass through unchanged.
    pub fn map_decoded<E>(&self, decoded: Result<Option<DO>, E>) -> (out: Result<Option<R>, E>)
        requires
            forall|item: DO| self.decode_map().requires((item,)),
        ensures
            match (decoded, out) {
                (Err(e), Err(f)) => f == e,
                (Ok(None), Ok(None)) => true,
                (Ok(Some(item)), Ok(Some(mapped))) => self.decode_map().ensures((item,), mapped),
                _ => false,
            },
    {
        match decoded {
            Err(e) => Err(e),
            Ok(None) => Ok(None),
            Ok(Some(item)) => {
                assert(self.decode_map().requires((item,)));
                Ok(Some((self.map_decode)(item)))
            },
        }
    }
}

impl<T, EI, DO, R, W, FD, FE: Fn(W) -> EI> MapCodec<T, EI, DO, R, W, FD, FE> {
    /// Encoding: the item that the wrapped codec is to encode in place of
    /// `item`.
    pub fn map_encoded(&self, item: W) -> (out: EI)
        requires
            self.encode_map().requires((item,)),
        ensures
            self.encode_map().ensures((item,), out),
    {
        (self.map_encode)(item)
    }
}

} // verus!
