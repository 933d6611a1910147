//! The decisions of the server's pseudo-terminal handling: the process
//! record, the search for the terminal's special characters, waiting for the
//! echo setting to take effect, and making the child's terminal its
//! controlling terminal. The system calls themselves are made by the caller,
//! which feeds their outcomes back in.
use vstd::prelude::*;

verus! {

/// Terminal width used when none is known.
pub const DEFAULT_TERM_COLS: u16 = 80;

/// Terminal height used when none is known.
pub const DEFAULT_TERM_ROWS: u16 = 24;

/// End-of-file character used when the terminal sets none (^D).
pub const DEFAULT_VEOF_CHAR: u8 = 0x4;

/// Interrupt character used when the terminal sets none (^C).
pub const DEFAULT_INTR_CHAR: u8 = 0x3;

/// Delay between the steps of terminating a process, in milliseconds.
pub const DEFAULT_TERMINATE_DELAY_MILLIS: u64 = 100;

/// Pause between two reads of the echo setting, in milliseconds.
pub const ECHO_POLL_MILLIS: u64 = 100;

/// File descriptor of standard input.
pub const STDIN_FILENO: i32 = 0;

/// File descriptor of standard output.
pub const STDOUT_FILENO: i32 = 1;

#[verifier::external_type_specification]
#[verifier::external_body]
pub struct ExPtyMaster(nix::pty::PtyMaster);

/// A process running in a pseudo terminal, with the special characters of
/// the terminal it was started from.
#[derive(Debug)]
pub struct PtyProcess {
    master: nix::pty::PtyMaster,
    eof_char: u8,
    intr_char: u8,
    terminate_delay: core::time::Duration,
}

impl PtyProcess {
    pub closed spec fn eof(&self) -> u8 {
        self.eof_char
    }

    pub closed spec fn intr(&self) -> u8 {
        self.intr_char
    }

    pub closed spec fn delay(&self) -> core::time::Duration {
        self.terminate_delay
    }

    pub closed spec fn master_side(&self) -> nix::pty::PtyMaster {
        self.master
    }

    pub fn new(
        master: nix::pty::PtyMaster,
        eof_char: u8,
        intr_char: u8,
        terminate_delay: core::time::Duration,
    ) -> (p: Self)
        ensures
            p.master_side() == master,
            p.eof() == eof_char,
            p.intr() == intr_char,
            p.delay() == terminate_delay,
    {
        PtyProcess { master, eof_char, intr_char, terminate_delay }
    }

    /// The master side of the pseudo terminal.
    pub fn master(&self) -> (m: &nix::pty::PtyMaster)
        ensures
            *m == self.master_side(),
    {
        &self.master
    }

    /// Get a end of file character if set or a default.
    pub fn get_eof_char(&self) -> (c: u8)
        ensures
            c == self.eof(),
    {
        self.eof_char
    }

    /// Get a interapt character if set or a default.
    pub fn get_intr_char(&self) -> (c: u8)
        ensures
            c == self.intr(),
    {
        self.intr_char
    }

    /// Set the pty process's terminate approach delay.
    pub fn set_terminate_delay(&mut self, terminate_approach_delay: core::time::Duration)
        ensures
            final(self).delay() == terminate_approach_delay,
            final(self).master_side() == old(self).master_side(),
            final(self).eof() == old(self).eof(),
            final(self).intr() == old(self).intr(),
    {
        self.terminate_delay = terminate_approach_delay;
    }
}

/// The window size of a terminal, `(cols, rows)`, given what the kernel
/// reports: a terminal whose size was never set reports `0x0` and has the
/// default size, 80x24.
pub open spec fn window_size(cols: u16, rows: u16) -> (u16, u16) {
    if cols == 0 && rows == 0 {
        (DEFAULT_TERM_COLS, DEFAULT_TERM_ROWS)
    } else {
        (cols, rows)
    }
}

/// The window size of a terminal, `(cols, rows)`, from what the kernel
/// reports; default size is 80x24.
pub fn window_size_or_default(cols: u16, rows: u16) -> (size: (u16, u16))
    ensures
        size == window_size(cols, rows),
{
    if cols == 0 && rows == 0 {
        (DEFAULT_TERM_COLS, DEFAULT_TERM_ROWS)
    } else {
        (cols, rows)
    }
}

// ---------------------------------------------------------------------
// Special characters of the current terminal.

/// The special characters a job's terminal needs.
#[derive(Debug, Clone, Copy, PartialEq, Eq, Structural)]
pub enum SpecialChar {
    Intr,
    Eof,
}

/// The next step of looking up a special character: read it from the
/// terminal on a file descriptor, or use a value.
#[derive(Debug, Clone, Copy, PartialEq, Eq, Structural)]
pub enum TermCharNext {
    Ask(i32),
    Use(u8),
}

/// The value used when no terminal gives one.
pub open spec fn default_char(which: SpecialChar) -> u8 {
    match which {
        SpecialChar::Intr => DEFAULT_INTR_CHAR,
        SpecialChar::Eof => DEFAULT_VEOF_CHAR,
    }
}

/// The descriptors asked, in order: standard input, then standard output.
pub open spec fn term_char_fd(attempt: int) -> i32 {
    if attempt == 0 {
        STDIN_FILENO
    } else {
        STDOUT_FILENO
    }
}

/// The value used when no terminal gives one.
pub fn default_term_char(which: SpecialChar) -> (c: u8)
    ensures
        c == default_char(which),
{
    match which {
        SpecialChar::Intr => DEFAULT_INTR_CHAR,
        SpecialChar::Eof => DEFAULT_VEOF_CHAR,
    }
}

/// One step of the lookup, after `tried` descriptors were asked and the
/// last one answered `answer`: the first answer found is used; standard
/// input is asked first, standard output next; without any answer the
/// default is used.
pub fn term_char_step(which: SpecialChar, tried: usize, answer: Option<u8>) -> (next: TermCharNext)
    requires
        tried == 0 ==> answer is None,
    ensures
        match answer {
            Some(c) => next == TermCharNext::Use(c),
            None => if tried < 2 {
                next == TermCharNext::Ask(term_char_fd(tried as int))
            } else {
                next == TermCharNext::Use(default_char(which))
            },
        },
{
    match answer {
        Some(c) => TermCharNext::Use(c),
        None => if tried == 0 {
            TermCharNext::Ask(STDIN_FILENO)
        } else if tried == 1 {
            TermCharNext::Ask(STDOUT_FILENO)
        } else {
            TermCharNext::Use(default_term_char(which))
        },
    }
}

// ---------------------------------------------------------------------
// Waiting for the echo setting.

/// What the waiting loop learned last.
#[derive(Debug, Clone, Copy, PartialEq, Eq, Structural)]
pub enum EchoEvent {
    /// The time since waiting started.
    Clock { elapsed_nanos: u128 },
    /// The terminal's echo setting.
    Echo(bool),
}

/// What the waiting loop does next.
#[derive(Debug, Clone, Copy, PartialEq, Eq, Structural)]
pub enum EchoAction {
    /// Read the terminal's echo setting.
    ReadEcho,
    /// Pause, then read the clock.
    Sleep { millis: u64 },
    /// Stop: whether the setting took effect.
    Finish(bool),
}

/// One step of waiting for the echo setting to become `on`, with an
/// optional time limit: while time is left the setting is read; once it
/// reads `on` the wait succeeds, otherwise the loop pauses and looks at the
/// clock again; when the limit has passed the wait fails. Without a limit
/// the wait never fails.
pub fn wait_echo_step(on: bool, timeout_nanos: Option<u128>, event: EchoEvent) -> (action: EchoAction)
    ensures
        match event {
            EchoEvent::Clock { elapsed_nanos } => match timeout_nanos {
                Some(limit) => if elapsed_nanos < limit {
                    action == EchoAction::ReadEcho
                } else {
                    action == EchoAction::Finish(false)
                },
                None => action == EchoAction::ReadEcho,
            },
            EchoEvent::Echo(echo) => if echo == on {
                action == EchoAction::Finish(true)
            } else {
                action == EchoAction::Sleep { millis: ECHO_POLL_MILLIS }
            },
        },
{
    match event {
        EchoEvent::Clock { elapsed_nanos } => match timeout_nanos {
            Some(limit) => if elapsed_nanos < limit {
                EchoAction::ReadEcho
            } else {
                EchoAction::Finish(false)
            },
            None => EchoAction::ReadEcho,
        },
        EchoEvent::Echo(echo) => if echo == on {
            EchoAction::Finish(true)
        } else {
            EchoAction::Sleep { millis: ECHO_POLL_MILLIS }
        },
    }
}

// ---------------------------------------------------------------------
// Making the child's terminal its controlling terminal.

/// Where the setup of the controlling terminal stands.
#[derive(Debug, Clone, Copy, PartialEq, Eq, Structural)]
pub enum TtyStage {
    /// `/dev/tty` was opened to see whether a controlling terminal is set.
    ProbeOld,
    /// The old controlling terminal is being closed.
    CloseOld,
    /// A new session was asked for.
    NewSession,
    /// `/dev/tty` was opened to check that no terminal controls any more.
    ProbeDetached,
    /// `/dev/tty` opened although it should not have; it is being closed.
    CloseStillAttached,
    /// The child's terminal was opened.
    OpenPts,
    /// The child's terminal is being closed.
    ClosePts,
    /// `/dev/tty` was opened to check that the child's terminal controls.
    ProbeAttached,
    /// The controlling terminal is being closed.
    CloseAttached,
    /// The setup is over.
    Finished,
}

/// The outcome of a system call.
#[derive(Debug, Clone, Copy, PartialEq, Eq, Structural)]
pub enum TtyEvent {
    /// An `open` gave this descriptor.
    Opened(i32),
    /// A `close` or `setsid` succeeded.
    Done,
    /// The call failed with `errno`; `no_device` when that is `ENXIO`.
    Failed { errno: i32, no_device: bool },
}

/// Why the setup failed.
#[derive(Debug, Clone, Copy, PartialEq, Eq, Structural)]
pub enum TtyFailure {
    /// A system call failed with this `errno`.
    Os(i32),
    /// A controlling terminal remained after the new session (`ENOTSUP`).
    NotSupported,
}

/// The next system call, or the end of the setup.
#[derive(Debug, Clone, Copy, PartialEq, Eq)]
pub enum TtyAction {
    /// `open("/dev/tty", O_RDWR | O_NOCTTY)`.
    OpenDevTty,
    /// `setsid()`.
    CreateSession,
    /// `open(child terminal, O_RDWR)`.
    OpenPts,
    /// `open("/dev/tty", O_WRONLY)`.
    OpenDevTtyWriteOnly,
    /// `close(fd)`.
    Close(i32),
    /// The setup ends with this result.
    Finish(Result<(), TtyFailure>),
}

/// Whether `event` can answer the call made in `stage`: opens give a
/// descriptor or fail, the other calls succeed or fail.
pub open spec fn expects(stage: TtyStage, event: TtyEvent) -> bool {
    match stage {
        TtyStage::ProbeOld | TtyStage::ProbeDetached | TtyStage::OpenPts | TtyStage::ProbeAttached =>
            !(event is Done),
        TtyStage::Finished => false,
        _ => !(event is Opened),
    }
}

/// The stage the setup starts in, and its first call.
pub open spec fn tty_start() -> (TtyStage, TtyAction) {
    (TtyStage::ProbeOld, TtyAction::OpenDevTty)
}

/// The end of the setup with an error.
pub open spec fn fail(f: TtyFailure) -> (TtyStage, TtyAction) {
    (TtyStage::Finished, TtyAction::Finish(Err(f)))
}

/// One transition of the setup. Disconnect from the old controlling
/// terminal (closing it if it opened; `ENXIO` means there was none), start
/// a new session, check that `/dev/tty` now fails with `ENXIO` (anything
/// else is `NotSupported`), open and close the child's terminal, and open
/// and close `/dev/tty` once more to check that it now controls. Any other
/// failure ends the setup with its `errno`.
pub open spec fn tty_step(stage: TtyStage, event: TtyEvent) -> (TtyStage, TtyAction) {
    match (stage, event) {
        (TtyStage::ProbeOld, TtyEvent::Opened(fd)) => (TtyStage::CloseOld, TtyAction::Close(fd)),
        (TtyStage::ProbeOld, TtyEvent::Failed { no_device: true, .. }) => (
            TtyStage::NewSession,
            TtyAction::CreateSession,
        ),
        (TtyStage::CloseOld, TtyEvent::Done) => (TtyStage::NewSession, TtyAction::CreateSession),
        (TtyStage::NewSession, TtyEvent::Done) => (TtyStage::ProbeDetached, TtyAction::OpenDevTty),
        (TtyStage::ProbeDetached, TtyEvent::Failed { no_device: true, .. }) => (
            TtyStage::OpenPts,
            TtyAction::OpenPts,
        ),
        (TtyStage::ProbeDetached, TtyEvent::Opened(fd)) => (
            TtyStage::CloseStillAttached,
            TtyAction::Close(fd),
        ),
        (TtyStage::ProbeDetached, TtyEvent::Failed { .. }) => fail(TtyFailure::NotSupported),
        (TtyStage::CloseStillAttached, TtyEvent::Done) => fail(TtyFailure::NotSupported),
        (TtyStage::OpenPts, TtyEvent::Opened(fd)) => (TtyStage::ClosePts, TtyAction::Close(fd)),
        (TtyStage::ClosePts, TtyEvent::Done) => (
            TtyStage::ProbeAttached,
            TtyAction::OpenDevTtyWriteOnly,
        ),
        (TtyStage::ProbeAttached, TtyEvent::Opened(fd)) => (
            TtyStage::CloseAttached,
            TtyAction::Close(fd),
        ),
        (TtyStage::CloseAttached, TtyEvent::Done) => (TtyStage::Finished, TtyAction::Finish(Ok(()))),
        (_, TtyEvent::Failed { errno, .. }) => fail(TtyFailure::Os(errno)),
        _ => fail(TtyFailure::NotSupported),
    }
}

/// The first call of the setup.
pub fn controlling_tty_start() -> (first: (TtyStage, TtyAction))
    ensures
        first == tty_start(),
{
    (TtyStage::ProbeOld, TtyAction::OpenDevTty)
}

/// One transition of the setup of the controlling terminal, from the
/// outcome of the last call.
pub fn controlling_tty_step(stage: TtyStage, event: TtyEvent) -> (next: (TtyStage, TtyAction))
    requires
        expects(stage, event),
    ensures
        next == tty_step(stage, event),
{
    match (stage, event) {
        (TtyStage::ProbeOld, TtyEvent::Opened(fd)) => (TtyStage::CloseOld, TtyAction::Close(fd)),
        (TtyStage::ProbeOld, TtyEvent::Failed { no_device: true, .. }) => (
            TtyStage::NewSession,
            TtyAction::CreateSession,
        ),
        (TtyStage::CloseOld, TtyEvent::Done) => (TtyStage::NewSession, TtyAction::CreateSession),
        (TtyStage::NewSession, TtyEvent::Done) => (TtyStage::ProbeDetached, TtyAction::OpenDevTty),
        (TtyStage::ProbeDetached, TtyEvent::Failed { no_device: true, .. }) => (
            TtyStage::OpenPts,
            TtyAction::OpenPts,
        ),
        (TtyStage::ProbeDetached, TtyEvent::Opened(fd)) => (
            TtyStage::CloseStillAttached,
            TtyAction::Close(fd),
        ),
        (TtyStage::ProbeDetached, TtyEvent::Failed { .. }) => (
            TtyStage::Finished,
            TtyAction::Finish(Err(TtyFailure::NotSupported)),
        ),
        (TtyStage::CloseStillAttached, TtyEvent::Done) => (
            TtyStage::Finished,
            TtyAction::Finish(Err(TtyFailure::NotSupported)),
        ),
        (TtyStage::OpenPts, TtyEvent::Opened(fd)) => (TtyStage::ClosePts, TtyAction::Close(fd)),
        (TtyStage::ClosePts, TtyEvent::Done) => (
            TtyStage::ProbeAttached,
            TtyAction::OpenDevTtyWriteOnly,
        ),
        (TtyStage::ProbeAttached, TtyEvent::Opened(fd)) => (
            TtyStage::CloseAttached,
            TtyAction::Close(fd),
        ),
        (TtyStage::CloseAttached, TtyEvent::Done) => (TtyStage::Finished, TtyAction::Finish(Ok(()))),
        (_, TtyEvent::Failed { errno, .. }) => (
            TtyStage::Finished,
            TtyAction::Finish(Err(TtyFailure::Os(errno))),
        ),
        _ => (TtyStage::Finished, TtyAction::Finish(Err(TtyFailure::NotSupported))),
    }
}

/// Where the setup stands after the calls answered by `events`.
pub open spec fn tty_run(events: Seq<TtyEvent>) -> (TtyStage, TtyAction)
    decreases events.len(),
{
    if events.len() == 0 {
        tty_start()
    } else {
        tty_step(tty_run(events.drop_last()).0, events.last())
    }
}

/// Each event answered the call made before it, and the setup was not over.
pub open spec fn valid_run(events: Seq<TtyEvent>) -> bool {
    forall|i: int| 0 <= i < events.len() ==> expects(#[trigger] tty_run(events.take(i)).0, events[i])
}

/// In the run, `/dev/tty` failed with `ENXIO` after the new session.
pub open spec fn detach_confirmed(events: Seq<TtyEvent>) -> bool {
    exists|i: int|
        0 <= i < events.len() && #[trigger] tty_run(events.take(i)).0 == TtyStage::ProbeDetached
            && events[i] matches TtyEvent::Failed { no_device: true, .. }
}

/// The stages reached only after the detachment was confirmed.
pub open spec fn past_detach(stage: TtyStage) -> bool {
    stage == TtyStage::OpenPts || stage == TtyStage::ClosePts || stage == TtyStage::ProbeAttached
        || stage == TtyStage::CloseAttached
}

proof fn lemma_past_detach(events: Seq<TtyEvent>)
    ensures
        past_detach(tty_run(events).0) || tty_run(events).1 == TtyAction::Finish(Ok(()))
            ==> detach_confirmed(events),
    decreases events.len(),
{
    if events.len() > 0 {
        let prefix = events.drop_last();
        let last = (events.len() - 1) as int;
        lemma_past_detach(prefix);
        assert(events.take(last) =~= prefix);
        if detach_confirmed(prefix) {
            let i = choose|i: int|
                0 <= i < prefix.len() && #[trigger] tty_run(prefix.take(i)).0 == TtyStage::ProbeDetached
                    && prefix[i] matches TtyEvent::Failed { no_device: true, .. };
            assert(events.take(i) =~= prefix.take(i));
            assert(tty_run(events.take(i)).0 == TtyStage::ProbeDetached);
        } else if tty_run(prefix).0 == TtyStage::ProbeDetached {
            assert(tty_run(events.take(last)).0 == TtyStage::ProbeDetached);
        }
    }
}

/// The controlling terminal is set up only if, after the new session,
/// `/dev/tty` could not be opened (`ENXIO`): a setup that finishes with
/// success went through that check.
pub proof fn lemma_success_requires_detach(events: Seq<TtyEvent>)
    requires
        tty_run(events).1 == TtyAction::Finish(Ok(())),
    ensures
        detach_confirmed(events),
{
    lemma_past_detach(events);
}

/// Event `i` of the run gave a descriptor while the setup stood at `stage`.
pub open spec fn opened_at(events: Seq<TtyEvent>, i: int, stage: TtyStage) -> bool {
    &&& 0 <= i < events.len()
    &&& tty_run(events.take(i)).0 == stage
    &&& events[i] is Opened
}

/// Every descriptor the setup opens is closed by the very next call.
pub proof fn lemma_opened_is_closed(events: Seq<TtyEvent>, i: int, fd: i32)
    requires
        valid_run(events),
        0 <= i < events.len(),
        events[i] == TtyEvent::Opened(fd),
    ensures
        tty_run(events.take(i + 1)).1 == TtyAction::Close(fd),
{
    assert(expects(tty_run(events.take(i)).0, events[i]));
    assert(events.take(i + 1).drop_last() =~= events.take(i));
    assert(events.take(i + 1).last() == events[i]);
}

proof fn lemma_opened_at_extends(events: Seq<TtyEvent>, i: int, stage: TtyStage)
    requires
        events.len() > 0,
        opened_at(events.drop_last(), i, stage),
    ensures
        opened_at(events, i, stage),
{
    assert(events.take(i) =~= events.drop_last().take(i));
}

/// The stages reached only after the child's terminal was opened.
pub open spec fn past_pts(stage: TtyStage) -> bool {
    stage == TtyStage::ClosePts || stage == TtyStage::ProbeAttached || stage == TtyStage::CloseAttached
}

proof fn lemma_past_pts(events: Seq<TtyEvent>)
    ensures
        past_pts(tty_run(events).0) || tty_run(events).1 == TtyAction::Finish(Ok(()))
            ==> exists|i: int| opened_at(events, i, TtyStage::OpenPts),
    decreases events.len(),
{
    if events.len() > 0 {
        let prefix = events.drop_last();
        let last = (events.len() - 1) as int;
        lemma_past_pts(prefix);
        assert(events.take(last) =~= prefix);
        if exists|i: int| opened_at(prefix, i, TtyStage::OpenPts) {
            let i = choose|i: int| opened_at(prefix, i, TtyStage::OpenPts);
            lemma_opened_at_extends(events, i, TtyStage::OpenPts);
        } else if tty_run(prefix).0 == TtyStage::OpenPts && events.last() is Opened {
            assert(opened_at(events, last, TtyStage::OpenPts));
        }
    }
}

proof fn lemma_past_attach(events: Seq<TtyEvent>)
    ensures
        tty_run(events).0 == TtyStage::CloseAttached || tty_run(events).1 == TtyAction::Finish(Ok(()))
            ==> exists|i: int, j: int|
            i < j && opened_at(events, i, TtyStage::OpenPts) && opened_at(
                events,
                j,
                TtyStage::ProbeAttached,
            ),
    decreases events.len(),
{
    if events.len() > 0 {
        let prefix = events.drop_last();
        let last = (events.len() - 1) as int;
        lemma_past_attach(prefix);
        lemma_past_pts(prefix);
        assert(events.take(last) =~= prefix);
        if exists|i: int, j: int|
            i < j && opened_at(prefix, i, TtyStage::OpenPts) && opened_at(
                prefix,
                j,
                TtyStage::ProbeAttached,
            ) {
            let (i, j) = choose|i: int, j: int|
                i < j && opened_at(prefix, i, TtyStage::OpenPts) && opened_at(
                    prefix,
                    j,
                    TtyStage::ProbeAttached,
                );
            lemma_opened_at_extends(events, i, TtyStage::OpenPts);
            lemma_opened_at_extends(events, j, TtyStage::ProbeAttached);
        } else if tty_run(prefix).0 == TtyStage::ProbeAttached && events.last() is Opened {
            let i = choose|i: int| opened_at(prefix, i, TtyStage::OpenPts);
            lemma_opened_at_extends(events, i, TtyStage::OpenPts);
            assert(opened_at(events, last, TtyStage::ProbeAttached));
        }
    }
}

/// A setup that succeeds opened the child's terminal (the call made at
/// stage `OpenPts`) and afterwards `/dev/tty` write-only (the call made at
/// stage `ProbeAttached`), both successfully.
pub proof fn lemma_success_opens_pts_then_tty(events: Seq<TtyEvent>)
    requires
        tty_run(events).1 == TtyAction::Finish(Ok(())),
    ensures
        exists|i: int, j: int|
            i < j && opened_at(events, i, TtyStage::OpenPts) && opened_at(
                events,
                j,
                TtyStage::ProbeAttached,
            ),
{
    lemma_past_attach(events);
}

} // verus!
