//! The job table that `jobs list` prints: one row per job, with the state
//! and foreground marker coloured, under a header row.
use vstd::prelude::*;
use vstd::string::*;
use vstd::utf8::{decode_utf8, valid_utf8};

use crate::cli::{common_signal_name, opt_view, possible_name_of, signal_name};
use crate::protocol::{ExitStatus, Process, ProcessState};
use crate::text::{decimal, decimal_string, signed_decimal, signed_decimal_string};
use tabled::settings::{Alignment as Align, Color as CellColor, Modify, Padding, Style};

verus! {

/// The eight basic terminal colours.
#[derive(Debug, Clone, Copy, PartialEq, Eq, Structural)]
pub enum BasicColor {
    Black,
    Blue,
    Green,
    Red,
    Cyan,
    Magenta,
    Yellow,
    White,
}

/// How a piece of text is drawn: its foreground colour, whether it is bold,
/// and whether the colour is the intense (bright) variant.
#[derive(Debug, Clone, Copy, PartialEq, Eq, Structural)]
pub struct CellStyle {
    pub fg: Option<BasicColor>,
    pub bold: bool,
    pub intense: bool,
}

/// Text with a style.
#[derive(Debug, Clone)]
pub struct ColoredString {
    color: CellStyle,
    string: String,
}

/// The state column of a job.
#[derive(Debug, Clone, Copy, PartialEq, Eq, Structural)]
pub struct PrettyProcessState(pub ProcessState);

/// The foreground column of a job: only running jobs are in the foreground
/// or in the background.
#[derive(Debug, Clone, Copy, PartialEq, Eq, Structural)]
pub enum FgBg {
    Foreground,
    Background,
    Irrelevant,
}

/// One row of the job table.
#[derive(Debug, Clone)]
pub struct PrettyProcess {
    pub id: usize,
    pub command: String,
    pub state: PrettyProcessState,
    pub fgbg: FgBg,
    pub pid: u32,
}

/// The cells of one row, in column order.
pub struct PrettyProcessIter<'a> {
    inner: &'a PrettyProcess,
    field: usize,
}

/// The rows of the job table.
pub struct PrettyProcesses(pub Vec<PrettyProcess>);

/// How a cell is aligned in its column.
#[derive(Debug, Clone, Copy, PartialEq, Eq, Structural)]
pub enum Alignment {
    Center,
    Right,
}

/// A cell ready to be drawn: its text, the escape sequence that sets its
/// colour and the one that resets it, and its alignment.
#[derive(Debug, Clone)]
pub struct TableCell {
    pub text: String,
    pub style: CellStyle,
    pub prefix: String,
    pub suffix: String,
    pub alignment: Alignment,
}

/// The job table, row by row.
pub struct Table {
    pub rows: Vec<Vec<TableCell>>,
    /// Spaces on the left and on the right of every cell.
    pub padding: usize,
    pub border: BorderStyle,
}

/// The border drawn around and between cells.
#[derive(Debug, Clone, Copy, PartialEq, Eq, Structural)]
pub enum BorderStyle {
    /// Lines with rounded corners (`╭`, `╮`, `╰`, `╯`).
    Rounded,
}

/// Spaces on each side of the text of a cell of the job table.
pub const CELL_PADDING: usize = 1;

/// What `jobs list` shows.
pub enum ProcessListing {
    /// There is no job: this message is printed instead of a table.
    NoJobs(String),
    /// The table of jobs.
    Jobs(Table),
}

/// Number of columns of the job table.
pub const COLUMNS: usize = 5;

// ---------------------------------------------------------------------
// Escape sequences, as termcolor writes them.

/// `ESC [ code m`.
pub open spec fn csi(code: Seq<char>) -> Seq<char> {
    seq!['\x1B', '['] + code + seq!['m']
}

/// The number of a colour in the `ESC [ 3n m` sequences.
pub open spec fn normal_code(c: BasicColor) -> nat {
    match c {
        BasicColor::Black => 0,
        BasicColor::Red => 1,
        BasicColor::Green => 2,
        BasicColor::Yellow => 3,
        BasicColor::Blue => 4,
        BasicColor::Magenta => 5,
        BasicColor::Cyan => 6,
        BasicColor::White => 7,
    }
}

/// The number of the intense variant of a colour in the 256-colour
/// palette.
pub open spec fn intense_code(c: BasicColor) -> nat {
    normal_code(c) + 8
}

/// The sequence that sets the foreground colour.
pub open spec fn fg_sequence(c: BasicColor, intense: bool) -> Seq<char> {
    if intense {
        csi(seq!['3', '8', ';', '5', ';'] + decimal(intense_code(c)))
    } else {
        csi(seq!['3'] + decimal(normal_code(c)))
    }
}

/// The escape sequence that termcolor writes to switch to `style`: a reset,
/// then bold, then the foreground colour.
pub open spec fn ansi_prefix(style: CellStyle) -> Seq<char> {
    csi(seq!['0']) + (if style.bold {
        csi(seq!['1'])
    } else {
        Seq::empty()
    }) + match style.fg {
        Some(c) => fg_sequence(c, style.intense),
        None => Seq::empty(),
    }
}

/// The escape sequence that termcolor writes to reset all styles.
pub open spec fn ansi_suffix() -> Seq<char> {
    csi(seq!['0'])
}

#[verifier::external_type_specification]
#[verifier::external_body]
pub struct ExTermcolorColor(termcolor::Color);

/// The termcolor colour of the same name.
#[verifier::external_body]
fn termcolor_color(c: BasicColor) -> termcolor::Color {
    match c {
        BasicColor::Black => termcolor::Color::Black,
        BasicColor::Blue => termcolor::Color::Blue,
        BasicColor::Green => termcolor::Color::Green,
        BasicColor::Red => termcolor::Color::Red,
        BasicColor::Cyan => termcolor::Color::Cyan,
        BasicColor::Magenta => termcolor::Color::Magenta,
        BasicColor::Yellow => termcolor::Color::Yellow,
        BasicColor::White => termcolor::Color::White,
    }
}

/// `termcolor::Buffer::ansi` written to by `WriteColor::set_color` with a
/// `ColorSpec` of `style`'s foreground, bold and intense flags (and the
/// spec's default reset). The claim: the text is a reset sequence `ESC[0m`,
/// then `ESC[1m` when bold, then the foreground colour, as `ESC[38;5;Nm`
/// with N the colour's number plus 8 when intense, or `ESC[3Nm` with N the
/// colour's number otherwise.
#[verifier::external_body]
fn ansi_set_color(style: &CellStyle) -> (s: String)
    ensures
        s@ == ansi_prefix(*style),
{
    let mut spec = termcolor::ColorSpec::new();
    spec.set_fg(style.fg.map(termcolor_color)).set_bold(style.bold).set_intense(style.intense);
    let mut buffer = termcolor::Buffer::ansi();
    termcolor::WriteColor::set_color(&mut buffer, &spec).unwrap();
    String::from_utf8(buffer.into_inner()).unwrap()
}

/// `termcolor::Buffer::ansi` written to by `WriteColor::reset`: `ESC[0m`.
#[verifier::external_body]
fn ansi_reset() -> (s: String)
    ensures
        s@ == ansi_suffix(),
{
    let mut buffer = termcolor::Buffer::ansi();
    termcolor::WriteColor::reset(&mut buffer).unwrap();
    String::from_utf8(buffer.into_inner()).unwrap()
}

/// `String::from_utf8_lossy`: the text of some bytes, with each invalid
/// sequence replaced by U+FFFD.
pub uninterp spec fn utf8_lossy(bytes: Seq<u8>) -> Seq<char>;

/// `String::from_utf8_lossy(bytes).into_owned()`: named by `utf8_lossy`;
/// on valid UTF-8 it is the decoded text, as the documentation states.
#[verifier::external_body]
fn lossy_string(bytes: &[u8]) -> (s: String)
    ensures
        s@ == utf8_lossy(bytes@),
        valid_utf8(bytes@) ==> s@ == decode_utf8(bytes@),
{
    String::from_utf8_lossy(bytes).into_owned()
}

// ---------------------------------------------------------------------
// Cells.

/// No colour, not bold.
pub open spec fn plain_style() -> CellStyle {
    CellStyle { fg: None, bold: false, intense: false }
}

/// The style of the header row.
pub open spec fn header_style() -> CellStyle {
    CellStyle { fg: Some(BasicColor::White), bold: true, intense: false }
}

/// The foreground marker of a job in `state`, connected or not.
pub open spec fn fg_bg_of(state: ProcessState, connected: bool) -> FgBg {
    if state == ProcessState::Running {
        if connected {
            FgBg::Foreground
        } else {
            FgBg::Background
        }
    } else {
        FgBg::Irrelevant
    }
}

/// The cell of a foreground marker.
pub open spec fn fg_bg_cell(f: FgBg) -> (CellStyle, Seq<char>) {
    match f {
        FgBg::Foreground => (CellStyle { fg: None, bold: true, intense: false }, "Foreground"@),
        FgBg::Background => (plain_style(), "Background"@),
        FgBg::Irrelevant => (plain_style(), Seq::empty()),
    }
}

/// The cell of a job state, given the name found for the signal that
/// killed it.
pub open spec fn state_cell(state: ProcessState, signal: Option<Seq<char>>) -> (CellStyle, Seq<char>) {
    match state {
        ProcessState::Running => (
            CellStyle { fg: Some(BasicColor::Green), bold: true, intense: true },
            "Running"@,
        ),
        ProcessState::Stopped => (
            CellStyle { fg: Some(BasicColor::Yellow), bold: true, intense: true },
            "Stopped"@,
        ),
        ProcessState::Terminated(ExitStatus::Signaled(_)) => (
            CellStyle { fg: Some(BasicColor::Red), bold: true, intense: false },
            "Killed - "@ + match signal {
                Some(name) => name,
                None => "UNKNOWN"@,
            },
        ),
        ProcessState::Terminated(ExitStatus::Exited(code)) => if code == 0 {
            (CellStyle { fg: Some(BasicColor::Green), bold: false, intense: false }, "Finished"@)
        } else {
            (
                CellStyle { fg: Some(BasicColor::Red), bold: true, intense: false },
                "Finished with error - "@ + signed_decimal(code as int),
            )
        },
    }
}

/// What may be found for the name of the signal that ended a job in
/// `state` (see `possible_name_of`); nothing is looked up for other states.
pub open spec fn possible_signal_name(state: ProcessState, name: Option<Seq<char>>) -> bool {
    match state {
        ProcessState::Terminated(ExitStatus::Signaled(number)) => possible_name_of(number, name),
        _ => name is None,
    }
}

/// `cell` is the state cell of `state` for some name the signal may have.
pub open spec fn is_state_cell(state: ProcessState, cell: (CellStyle, Seq<char>)) -> bool {
    exists|name: Option<Seq<char>>|
        #![trigger possible_signal_name(state, name)]
        possible_signal_name(state, name) && cell == state_cell(state, name)
}

/// `cell` is what column `column` of row `p` shows.
pub open spec fn is_cell(p: PrettyProcess, column: int, cell: (CellStyle, Seq<char>)) -> bool {
    if column == 0 {
        cell == (plain_style(), decimal(p.id as nat))
    } else if column == 1 {
        cell == (plain_style(), p.command@)
    } else if column == 2 {
        is_state_cell(p.state.0, cell)
    } else if column == 3 {
        cell == fg_bg_cell(p.fgbg)
    } else if column == 4 {
        cell == (plain_style(), decimal(p.pid as nat))
    } else {
        false
    }
}

/// The header row.
pub open spec fn header_row() -> Seq<(CellStyle, Seq<char>)> {
    seq![
        (header_style(), "ID"@),
        (header_style(), "Command"@),
        (header_style(), "State"@),
        (header_style(), "Fg/Bg"@),
        (header_style(), "PID"@),
    ]
}

/// `row` is the row of `p`.
pub open spec fn is_row(p: PrettyProcess, row: Seq<(CellStyle, Seq<char>)>) -> bool {
    row.len() == COLUMNS && forall|k: int| 0 <= k < COLUMNS ==> #[trigger] is_cell(p, k, row[k])
}

/// The cells of a row of coloured strings.
pub open spec fn row_view(row: Seq<ColoredString>) -> Seq<(CellStyle, Seq<char>)> {
    row.map_values(|c: ColoredString| c@)
}

impl View for ColoredString {
    type V = (CellStyle, Seq<char>);

    closed spec fn view(&self) -> (CellStyle, Seq<char>) {
        (self.color, self.string@)
    }
}

impl ColoredString {
    pub fn new(color: &CellStyle, string: String) -> (s: Self)
        ensures
            s@ == (*color, string@),
    {
        ColoredString { color: *color, string }
    }

    /// Plain text, as `From<&str>` gives it.
    pub fn from_str(s: &str) -> (c: Self)
        ensures
            c@ == (plain_style(), s@),
    {
        ColoredString { color: CellStyle { fg: None, bold: false, intense: false }, string: String::from_str(s) }
    }

    /// The cell of a foreground marker.
    pub fn from_fg_bg(f: &FgBg) -> (c: Self)
        ensures
            c@ == fg_bg_cell(*f),
    {
        match f {
            FgBg::Foreground => ColoredString::new(
                &CellStyle { fg: None, bold: true, intense: false },
                String::from_str("Foreground"),
            ),
            FgBg::Background => ColoredString::from_str("Background"),
            FgBg::Irrelevant => ColoredString::new(
                &CellStyle { fg: None, bold: false, intense: false },
                String::new(),
            ),
        }
    }

    /// The cell of a job state, given the name found for the signal that
    /// killed it.
    pub fn from_state_with(state: &PrettyProcessState, signal: Option<String>) -> (c: Self)
        ensures
            c@ == state_cell(state.0, opt_view(signal)),
    {
        match state.0 {
            ProcessState::Running => ColoredString::new(
                &CellStyle { fg: Some(BasicColor::Green), bold: true, intense: true },
                String::from_str("Running"),
            ),
            ProcessState::Stopped => ColoredString::new(
                &CellStyle { fg: Some(BasicColor::Yellow), bold: true, intense: true },
                String::from_str("Stopped"),
            ),
            ProcessState::Terminated(ExitStatus::Signaled(_)) => {
                let mut text = String::from_str("Killed - ");
                match &signal {
                    Some(name) => text.append(name.as_str()),
                    None => text.append("UNKNOWN"),
                }
                ColoredString::new(&CellStyle { fg: Some(BasicColor::Red), bold: true, intense: false }, text)
            },
            ProcessState::Terminated(ExitStatus::Exited(code)) => if code == 0 {
                ColoredString::new(
                    &CellStyle { fg: Some(BasicColor::Green), bold: false, intense: false },
                    String::from_str("Finished"),
                )
            } else {
                let mut text = String::from_str("Finished with error - ");
                let number = signed_decimal_string(code as i64);
                text.append(number.as_str());
                ColoredString::new(&CellStyle { fg: Some(BasicColor::Red), bold: true, intense: false }, text)
            },
        }
    }

    /// The cell of a job state; a killed job shows the name of its signal,
    /// or `UNKNOWN` where the platform has none.
    pub fn from_state(state: &PrettyProcessState) -> (c: Self)
        ensures
            is_state_cell(state.0, c@),
            state.0 matches ProcessState::Terminated(ExitStatus::Signaled(number)) ==> (
            common_signal_name(number) is Some ==> c@ == state_cell(
                state.0,
                common_signal_name(number),
            )),
    {
        let found = match state.0 {
            ProcessState::Terminated(ExitStatus::Signaled(number)) => signal_name(number),
            _ => None,
        };
        let ghost name = opt_view(found);
        let c = ColoredString::from_state_with(state, found);
        assert(possible_signal_name(state.0, name) && c@ == state_cell(state.0, name));
        c
    }

    /// The escape sequences that start and end this text's style.
    pub fn color(&self) -> (codes: (String, String))
        ensures
            codes.0@ == ansi_prefix(self@.0),
            codes.1@ == ansi_suffix(),
    {
        (ansi_set_color(&self.color), ansi_reset())
    }

    pub fn style(&self) -> (style: CellStyle)
        ensures
            style == self@.0,
    {
        self.color
    }

    pub fn as_ref(&self) -> (s: &str)
        ensures
            s@ == self@.1,
    {
        self.string.as_str()
    }
}

/// Where a row iterator at column `position` stands after one `next`.
pub open spec fn next_position(position: int) -> int {
    if position < COLUMNS {
        position + 1
    } else {
        position
    }
}

/// Whether `next` at column `position` gives a cell.
pub open spec fn yields_cell(position: int) -> bool {
    position < COLUMNS
}

/// Where a row iterator at column `position` stands after `k` calls of
/// `next`.
pub open spec fn position_after(position: int, k: nat) -> int
    decreases k,
{
    if k == 0 {
        position
    } else {
        next_position(position_after(position, (k - 1) as nat))
    }
}

/// How many cells `k` calls of `next` give, from column `position`.
pub open spec fn cells_given(position: int, k: nat) -> nat
    decreases k,
{
    if k == 0 {
        0
    } else {
        cells_given(position, (k - 1) as nat) + if yields_cell(position_after(position, (k - 1) as nat)) {
            1nat
        } else {
            0nat
        }
    }
}

proof fn lemma_iteration(position: int, k: nat)
    requires
        0 <= position <= COLUMNS,
    ensures
        position_after(position, k) == if position + k < COLUMNS {
            position + k
        } else {
            COLUMNS as int
        },
        cells_given(position, k) == if k < COLUMNS - position {
            k as int
        } else {
            COLUMNS - position
        },
    decreases k,
{
    if k > 0 {
        lemma_iteration(position, (k - 1) as nat);
    }
}

/// The size hint is exact: from a fresh row iterator, after any `k` calls
/// of `next` the iterator stands at column `min(k, 5)`, so `size_hint`
/// gives `5 - min(k, 5)`, and that is the number of cells any further `j`
/// calls give before `next` returns `None` (`min(j, 5 - min(k, 5))`).
pub proof fn lemma_size_hint_exact(k: nat, j: nat)
    ensures
        position_after(0, k) == if k < COLUMNS {
            k as int
        } else {
            COLUMNS as int
        },
        cells_given(position_after(0, k), j) == if j < COLUMNS - position_after(0, k) {
            j as int
        } else {
            COLUMNS - position_after(0, k)
        },
        cells_given(position_after(0, k), COLUMNS as nat) == COLUMNS - position_after(0, k),
{
    lemma_iteration(0, k);
    lemma_iteration(position_after(0, k), j);
    lemma_iteration(position_after(0, k), COLUMNS as nat);
}

impl<'a> PrettyProcessIter<'a> {
    #[verifier::type_invariant]
    spec fn in_bounds(self) -> bool {
        self.field <= COLUMNS
    }

    /// The row whose cells are given.
    pub closed spec fn process(&self) -> PrettyProcess {
        *self.inner
    }

    /// The column of the next cell.
    pub closed spec fn position(&self) -> int {
        self.field as int
    }

    /// The next cell of the row, `None` after the last column.
    pub fn next(&mut self) -> (cell: Option<ColoredString>)
        ensures
            final(self).process() == old(self).process(),
            final(self).position() == next_position(old(self).position()),
            (cell is Some) == yields_cell(old(self).position()),
            cell matches Some(c) ==> is_cell(old(self).process(), old(self).position(), c@),
            0 <= final(self).position() <= COLUMNS,
    {
        proof {
            use_type_invariant(&*self);
        }
        let result = if self.field == 0 {
            let id = decimal_string(self.inner.id as u64);
            ColoredString::from_str(id.as_str())
        } else if self.field == 1 {
            ColoredString::from_str(self.inner.command.as_str())
        } else if self.field == 2 {
            ColoredString::from_state(&self.inner.state)
        } else if self.field == 3 {
            ColoredString::from_fg_bg(&self.inner.fgbg)
        } else if self.field == 4 {
            let pid = decimal_string(self.inner.pid as u64);
            ColoredString::from_str(pid.as_str())
        } else {
            return None;
        };
        self.field = self.field + 1;
        Some(result)
    }

    /// The number of cells left, exactly: `next` gives that many cells and
    /// then `None` (see `lemma_size_hint_exact`).
    pub fn size_hint(&self) -> (hint: (usize, Option<usize>))
        ensures
            0 <= self.position() <= COLUMNS,
            hint.0 == COLUMNS - self.position(),
            hint.1 == Some(hint.0),
    {
        proof {
            use_type_invariant(self);
        }
        let remaining = COLUMNS - self.field;
        (remaining, Some(remaining))
    }
}

impl PrettyProcess {
    /// The cells of this row, from the first column.
    pub fn into_iter(&self) -> (it: PrettyProcessIter<'_>)
        ensures
            it.process() == *self,
            it.position() == 0,
    {
        PrettyProcessIter { inner: self, field: 0 }
    }

    /// All the cells of this row.
    pub fn cells(&self) -> (row: Vec<ColoredString>)
        ensures
            is_row(*self, row_view(row@)),
    {
        let mut it = self.into_iter();
        let mut row: Vec<ColoredString> = Vec::new();
        loop
            invariant
                it.process() == *self,
                0 <= it.position() <= COLUMNS,
                row@.len() == it.position(),
                forall|k: int| 0 <= k < row@.len() ==> #[trigger] is_cell(*self, k, row@[k]@),
            ensures
                row@.len() == COLUMNS,
                forall|k: int| 0 <= k < row@.len() ==> #[trigger] is_cell(*self, k, row@[k]@),
            decreases COLUMNS - it.position(),
        {
            let ghost at = it.position();
            match it.next() {
                Some(c) => {
                    row.push(c);
                    assert(is_cell(*self, at, row@[at]@));
                },
                None => break,
            }
        }
        assert(row_view(row@).len() == COLUMNS);
        assert forall|k: int| 0 <= k < COLUMNS implies #[trigger] is_cell(*self, k, row_view(row@)[k]) by {
            assert(row_view(row@)[k] == row@[k]@);
        }
        row
    }
}

/// Only a running job is in the foreground or in the background: in the
/// foreground when a client is connected to it, in the background when
/// none is; a stopped or finished job has no marker.
pub proof fn lemma_fg_bg_marks_running_jobs(state: ProcessState, connected: bool)
    ensures
        (fg_bg_of(state, connected) == FgBg::Foreground) <==> (state == ProcessState::Running
            && connected),
        (fg_bg_of(state, connected) == FgBg::Background) <==> (state == ProcessState::Running
            && !connected),
        (fg_bg_of(state, connected) == FgBg::Irrelevant) <==> (state != ProcessState::Running),
        fg_bg_cell(fg_bg_of(state, connected)).1.len() == 0 <==> state != ProcessState::Running,
{
    reveal_strlit("Foreground");
    reveal_strlit("Background");
}

/// The state column of a job killed by a signal reads `Killed - ` and the
/// signal's name, or `UNKNOWN` when no name was found; a job killed by one
/// of the signals numbered alike on every platform shows that signal's
/// name, and one killed by a number below 1 shows `UNKNOWN`.
pub proof fn lemma_killed_state_text(number: i32, name: Option<Seq<char>>)
    requires
        possible_name_of(number, name),
    ensures
        state_cell(ProcessState::Terminated(ExitStatus::Signaled(number)), name).1 == "Killed - "@
            + (match name {
            Some(n) => n,
            None => "UNKNOWN"@,
        }),
        common_signal_name(number) matches Some(n) ==> state_cell(
            ProcessState::Terminated(ExitStatus::Signaled(number)),
            name,
        ).1 == "Killed - "@ + n,
        number < 1 ==> state_cell(ProcessState::Terminated(ExitStatus::Signaled(number)), name).1
            == "Killed - "@ + "UNKNOWN"@,
        state_cell(ProcessState::Terminated(ExitStatus::Signaled(number)), name).0 == (CellStyle {
            fg: Some(BasicColor::Red),
            bold: true,
            intense: false,
        }),
{
}

/// The foreground marker of a job in `state`.
pub fn fg_bg(state: ProcessState, connected: bool) -> (f: FgBg)
    ensures
        f == fg_bg_of(state, connected),
        (f == FgBg::Foreground) <==> (state == ProcessState::Running && connected),
        (f == FgBg::Background) <==> (state == ProcessState::Running && !connected),
        (f == FgBg::Irrelevant) <==> (state != ProcessState::Running),
{
    if state == ProcessState::Running {
        if connected {
            FgBg::Foreground
        } else {
            FgBg::Background
        }
    } else {
        FgBg::Irrelevant
    }
}

/// The table row of a job as the server lists it.
pub open spec fn is_pretty(p: Process, row: PrettyProcess) -> bool {
    &&& row.id == p.id as usize
    &&& row.pid == p.pid
    &&& row.state == PrettyProcessState(p.state)
    &&& row.fgbg == fg_bg_of(p.state, p.connected)
    &&& row.command@ == utf8_lossy(p.command@)
}

/// The table row of a job as the server lists it.
pub fn pretty_process(p: &Process) -> (row: PrettyProcess)
    ensures
        is_pretty(*p, row),
        valid_utf8(p.command@) ==> row.command@ == decode_utf8(p.command@),
{
    PrettyProcess {
        id: p.id as usize,
        pid: p.pid,
        state: PrettyProcessState(p.state),
        fgbg: fg_bg(p.state, p.connected),
        command: lossy_string(p.command.as_slice()),
    }
}

impl PrettyProcesses {
    /// The rows of the jobs in the order the server listed them.
    pub fn from_processes(processes: &[Process]) -> (table: Self)
        ensures
            table.0@.len() == processes@.len(),
            forall|i: int| 0 <= i < processes@.len() ==> #[trigger] is_pretty(processes@[i], table.0@[i]),
    {
        let mut rows: Vec<PrettyProcess> = Vec::new();
        let mut i: usize = 0;
        while i < processes.len()
            invariant
                i <= processes@.len(),
                rows@.len() == i,
                forall|k: int| 0 <= k < i ==> #[trigger] is_pretty(processes@[k], rows@[k]),
            decreases processes@.len() - i,
        {
            rows.push(pretty_process(&processes[i]));
            i = i + 1;
        }
        PrettyProcesses(rows)
    }

    /// The header row followed by the row of each job.
    pub fn records(&self) -> (records: Vec<Vec<ColoredString>>)
        ensures
            records@.len() == self.0@.len() + 1,
            row_view(records@[0]@) == header_row(),
            forall|i: int| 0 <= i < self.0@.len() ==> #[trigger] is_row(self.0@[i], row_view(records@[i + 1]@)),
    {
        let bright_white = CellStyle { fg: Some(BasicColor::White), bold: true, intense: false };
        let mut header: Vec<ColoredString> = Vec::new();
        header.push(ColoredString::new(&bright_white, String::from_str("ID")));
        header.push(ColoredString::new(&bright_white, String::from_str("Command")));
        header.push(ColoredString::new(&bright_white, String::from_str("State")));
        header.push(ColoredString::new(&bright_white, String::from_str("Fg/Bg")));
        header.push(ColoredString::new(&bright_white, String::from_str("PID")));
        assert(row_view(header@) =~= header_row());
        let mut records: Vec<Vec<ColoredString>> = Vec::new();
        records.push(header);
        let mut i: usize = 0;
        while i < self.0.len()
            invariant
                i <= self.0@.len(),
                records@.len() == i + 1,
                row_view(records@[0]@) == header_row(),
                forall|k: int| 0 <= k < i ==> #[trigger] is_row(self.0@[k], row_view(records@[k + 1]@)),
            decreases self.0@.len() - i,
        {
            let row = self.0[i].cells();
            records.push(row);
            i = i + 1;
        }
        records
    }

    /// The table to draw: every record with its colour sequences; the
    /// header row centred, the others right-aligned.
    pub fn grid(&self) -> (table: Table)
        ensures
            table.rows@.len() == self.0@.len() + 1,
            table.padding == CELL_PADDING,
            table.border == BorderStyle::Rounded,
            table_row_view(table.rows@[0]@) == header_row(),
            forall|r: int|
                0 <= r < self.0@.len() ==> is_row(
                    self.0@[r],
                    table_row_view(#[trigger] table.rows@[r + 1]@),
                ),
            forall|r: int, c: int|
                0 <= r < table.rows@.len() && 0 <= c < table.rows@[r]@.len() ==> is_drawn(
                    #[trigger] table.rows@[r]@[c],
                    r,
                ),
    {
        let records = self.records();
        let mut rows: Vec<Vec<TableCell>> = Vec::new();
        let mut r: usize = 0;
        while r < records.len()
            invariant
                r <= records@.len(),
                records@.len() == self.0@.len() + 1,
                row_view(records@[0]@) == header_row(),
                forall|i: int| 0 <= i < self.0@.len() ==> #[trigger] is_row(self.0@[i], row_view(records@[i + 1]@)),
                rows@.len() == r,
                forall|i: int| 0 <= i < r ==> #[trigger] table_row_of(rows@[i]@, records@[i]@, i),
            decreases records@.len() - r,
        {
            let record = &records[r];
            let mut row: Vec<TableCell> = Vec::new();
            let mut c: usize = 0;
            while c < record.len()
                invariant
                    c <= record@.len(),
                    row@.len() == c,
                    forall|k: int| 0 <= k < c ==> #[trigger] cell_of(row@[k], record@[k], r as int),
                decreases record@.len() - c,
            {
                let (prefix, suffix) = record[c].color();
                let text = String::from_str(record[c].as_ref());
                let style = record[c].style();
                let alignment = if r == 0 {
                    Alignment::Center
                } else {
                    Alignment::Right
                };
                row.push(TableCell { text, style, prefix, suffix, alignment });
                c = c + 1;
            }
            rows.push(row);
            r = r + 1;
        }
        proof {
            assert forall|i: int| 0 <= i < self.0@.len() implies is_row(
                self.0@[i],
                table_row_view(#[trigger] rows@[i + 1]@),
            ) by {
                assert(table_row_of(rows@[i + 1]@, records@[i + 1]@, i + 1));
                lemma_table_row_view(rows@[i + 1]@, records@[i + 1]@, i + 1);
            }
            assert(table_row_of(rows@[0]@, records@[0]@, 0));
            lemma_table_row_view(rows@[0]@, records@[0]@, 0);
            assert forall|r: int, c: int|
                0 <= r < rows@.len() && 0 <= c < rows@[r]@.len() implies is_drawn(
                    #[trigger] rows@[r]@[c],
                    r,
                ) by {
                assert(table_row_of(rows@[r]@, records@[r]@, r));
                assert(cell_of(rows@[r]@[c], records@[r]@[c], r));
            }
        }
        Table { rows, padding: CELL_PADDING, border: BorderStyle::Rounded }
    }
}

/// What tabled draws for a table: rows of (text, colour prefix, colour
/// suffix, alignment) cells, the padding on the left and right of each
/// cell, and the border style.
pub uninterp spec fn drawn_table(
    cells: Seq<Seq<(Seq<char>, Seq<char>, Seq<char>, Alignment)>>,
    padding: nat,
    border: BorderStyle,
) -> Seq<char>;

/// The cells of a table as tabled receives them.
pub open spec fn drawn_cells(rows: Seq<Vec<TableCell>>) -> Seq<Seq<(Seq<char>, Seq<char>, Seq<char>, Alignment)>> {
    rows.map_values(
        |row: Vec<TableCell>|
            row@.map_values(|c: TableCell| (c.text@, c.prefix@, c.suffix@, c.alignment)),
    )
}

/// `tabled::Table` built from the cell texts, with the border `Style`,
/// the `Padding` on the left and right of every cell, and each cell's
/// `Color` and `Alignment`, printed by its `Display` (which sizes the
/// columns from the texts). Named by `drawn_table`.
#[verifier::external_body]
fn render_table(table: &Table) -> (s: String)
    ensures
        s@ == drawn_table(drawn_cells(table.rows@), table.padding as nat, table.border),
{
    let mut t = tabled::Table::from_iter(table.rows.iter().map(|row| row.iter().map(|c| &c.text)));
    match table.border { BorderStyle::Rounded => t.with(Style::rounded()) };
    t.with(Padding::new(table.padding, table.padding, 0, 0));
    for (r, row) in table.rows.iter().enumerate() {
        for (c, cell) in row.iter().enumerate() {
            t.with(Modify::new((r, c)).with(CellColor::new(cell.prefix.clone(), cell.suffix.clone())).with(match cell.alignment { Alignment::Center => Align::center(), Alignment::Right => Align::right() }));
        }
    }
    t.to_string()
}

impl Table {
    /// The table as printed: the cells with their colours and alignment,
    /// the padding, and the border.
    pub fn render(&self) -> (s: String)
        ensures
            s@ == drawn_table(drawn_cells(self.rows@), self.padding as nat, self.border),
    {
        render_table(self)
    }
}

/// A drawn cell in row `r`: its sequences are those of its style, and it
/// is centred in the header row and right-aligned below.
pub open spec fn is_drawn(cell: TableCell, r: int) -> bool {
    &&& cell.prefix@ == ansi_prefix(cell.style)
    &&& cell.suffix@ == ansi_suffix()
    &&& cell.alignment == (if r == 0 {
        Alignment::Center
    } else {
        Alignment::Right
    })
}

/// The texts and styles of a row of drawn cells.
pub open spec fn table_row_view(row: Seq<TableCell>) -> Seq<(CellStyle, Seq<char>)> {
    row.map_values(|c: TableCell| (c.style, c.text@))
}

/// A drawn cell made from `record` in row `r`.
pub open spec fn cell_of(cell: TableCell, record: ColoredString, r: int) -> bool {
    &&& cell.text@ == record@.1
    &&& cell.style == record@.0
    &&& is_drawn(cell, r)
}

proof fn lemma_table_row_view(row: Seq<TableCell>, record: Seq<ColoredString>, r: int)
    requires
        table_row_of(row, record, r),
    ensures
        table_row_view(row) == row_view(record),
{
    assert forall|k: int| 0 <= k < row.len() implies #[trigger] table_row_view(row)[k] == row_view(record)[k] by {
        assert(cell_of(row[k], record[k], r));
    }
    assert(table_row_view(row) =~= row_view(record));
}

/// A drawn row made from `record` in row `r`.
pub open spec fn table_row_of(row: Seq<TableCell>, record: Seq<ColoredString>, r: int) -> bool {
    row.len() == record.len() && forall|k: int| 0 <= k < row.len() ==> #[trigger] cell_of(row[k], record[k], r)
}

/// `row` is the table row of the job `p` as the server listed it.
pub open spec fn is_process_row(p: Process, row: Seq<(CellStyle, Seq<char>)>) -> bool {
    exists|pretty: PrettyProcess| is_pretty(p, pretty) && is_row(pretty, row)
}

/// What `jobs list` shows for the jobs the server listed: a message when
/// there is none, else the table with the header and one row per job, in
/// the server's order.
pub fn process_listing(processes: &[Process]) -> (listing: ProcessListing)
    ensures
        processes@.len() == 0 <==> listing is NoJobs,
        listing matches ProcessListing::NoJobs(message) ==> message@ == "No jobs found"@,
        listing matches ProcessListing::Jobs(table) ==> {
            &&& table.rows@.len() == processes@.len() + 1
            &&& table_row_view(table.rows@[0]@) == header_row()
            &&& forall|r: int|
                0 <= r < processes@.len() ==> is_process_row(
                    processes@[r],
                    table_row_view(#[trigger] table.rows@[r + 1]@),
                )
            &&& forall|r: int, c: int|
                0 <= r < table.rows@.len() && 0 <= c < table.rows@[r]@.len() ==> is_drawn(
                    #[trigger] table.rows@[r]@[c],
                    r,
                )
        },
{
    if processes.len() == 0 {
        return ProcessListing::NoJobs(String::from_str("No jobs found"));
    }
    let pretty = PrettyProcesses::from_processes(processes);
    let table = pretty.grid();
    assert forall|r: int| 0 <= r < processes@.len() implies is_process_row(
        processes@[r],
        table_row_view(#[trigger] table.rows@[r + 1]@),
    ) by {
        assert(is_pretty(processes@[r], pretty.0@[r]));
        assert(is_row(pretty.0@[r], table_row_view(table.rows@[r + 1]@)));
    }
    ProcessListing::Jobs(table)
}

} // verus!
