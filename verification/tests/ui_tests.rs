use job_security::protocol::{ExitStatus, Process, ProcessState};
use job_security::ui::{
    fg_bg, pretty_process, process_listing, Alignment, BasicColor, BorderStyle, CellStyle, ColoredString, FgBg,
    PrettyProcess, PrettyProcessState, PrettyProcesses, ProcessListing,
};

fn process(id: u32, pid: u32, state: ProcessState, connected: bool, command: &[u8]) -> Process {
    Process { id, pid, state, connected, command: command.to_vec() }
}

fn pretty(state: ProcessState, fgbg: FgBg) -> PrettyProcess {
    PrettyProcess { id: 12, command: "sleep 100".to_string(), state: PrettyProcessState(state), fgbg, pid: 4321 }
}

fn texts(row: &[ColoredString]) -> Vec<String> {
    row.iter().map(|c| c.as_ref().to_string()).collect()
}

#[test]
fn foreground_marker() {
    assert_eq!(fg_bg(ProcessState::Running, true), FgBg::Foreground);
    assert_eq!(fg_bg(ProcessState::Running, false), FgBg::Background);
    assert_eq!(fg_bg(ProcessState::Stopped, true), FgBg::Irrelevant);
    assert_eq!(fg_bg(ProcessState::Terminated(ExitStatus::Exited(0)), false), FgBg::Irrelevant);
}

#[test]
fn iterator_gives_five_cells_then_none() {
    let p = pretty(ProcessState::Running, FgBg::Foreground);
    let mut it = p.into_iter();
    assert_eq!(it.size_hint(), (5, Some(5)));
    let mut cells = Vec::new();
    while let Some(c) = it.next() {
        cells.push(c);
        assert_eq!(it.size_hint().0, 5 - cells.len());
    }
    assert_eq!(texts(&cells), vec!["12", "sleep 100", "Running", "Foreground", "4321"]);
    assert!(it.next().is_none());
    assert_eq!(it.size_hint(), (0, Some(0)));
}

#[test]
fn state_cells() {
    let cell = ColoredString::from_state(&PrettyProcessState(ProcessState::Stopped));
    assert_eq!(cell.as_ref(), "Stopped");
    assert_eq!(cell.style(), CellStyle { fg: Some(BasicColor::Yellow), bold: true, intense: true });
    let cell = ColoredString::from_state(&PrettyProcessState(ProcessState::Terminated(ExitStatus::Exited(0))));
    assert_eq!(cell.as_ref(), "Finished");
    assert_eq!(cell.style(), CellStyle { fg: Some(BasicColor::Green), bold: false, intense: false });
    let cell = ColoredString::from_state(&PrettyProcessState(ProcessState::Terminated(ExitStatus::Exited(2))));
    assert_eq!(cell.as_ref(), "Finished with error - 2");
    assert_eq!(cell.style(), CellStyle { fg: Some(BasicColor::Red), bold: true, intense: false });
    let cell = ColoredString::from_state(&PrettyProcessState(ProcessState::Terminated(ExitStatus::Signaled(9))));
    assert_eq!(cell.as_ref(), "Killed - SIGKILL");
    let cell = ColoredString::from_state(&PrettyProcessState(ProcessState::Terminated(ExitStatus::Signaled(9999))));
    assert_eq!(cell.as_ref(), "Killed - UNKNOWN");
    let cell = ColoredString::from_state_with(
        &PrettyProcessState(ProcessState::Terminated(ExitStatus::Signaled(1))),
        Some("SIGHUP".to_string()),
    );
    assert_eq!(cell.as_ref(), "Killed - SIGHUP");
}

#[test]
fn foreground_cells() {
    assert_eq!(ColoredString::from_fg_bg(&FgBg::Foreground).as_ref(), "Foreground");
    assert!(ColoredString::from_fg_bg(&FgBg::Foreground).style().bold);
    assert_eq!(ColoredString::from_fg_bg(&FgBg::Background).as_ref(), "Background");
    assert_eq!(ColoredString::from_fg_bg(&FgBg::Irrelevant).as_ref(), "");
}

#[test]
fn escape_sequences() {
    let running = ColoredString::from_state(&PrettyProcessState(ProcessState::Running));
    assert_eq!(running.color(), ("\x1b[0m\x1b[1m\x1b[38;5;10m".to_string(), "\x1b[0m".to_string()));
    let finished = ColoredString::from_state(&PrettyProcessState(ProcessState::Terminated(ExitStatus::Exited(0))));
    assert_eq!(finished.color().0, "\x1b[0m\x1b[32m");
    let plain = ColoredString::from_str("x");
    assert_eq!(plain.color().0, "\x1b[0m");
    let header = ColoredString::new(&CellStyle { fg: Some(BasicColor::White), bold: true, intense: false }, "ID".to_string());
    assert_eq!(header.color().0, "\x1b[0m\x1b[1m\x1b[37m");
    let intense_black = ColoredString::new(&CellStyle { fg: Some(BasicColor::Black), bold: false, intense: true }, String::new());
    assert_eq!(intense_black.color().0, "\x1b[0m\x1b[38;5;8m");
    let intense_white = ColoredString::new(&CellStyle { fg: Some(BasicColor::White), bold: false, intense: true }, String::new());
    assert_eq!(intense_white.color().0, "\x1b[0m\x1b[38;5;15m");
}

#[test]
fn records_have_header_and_rows() {
    let table = PrettyProcesses(vec![
        pretty(ProcessState::Running, FgBg::Background),
        pretty(ProcessState::Stopped, FgBg::Irrelevant),
    ]);
    let records = table.records();
    assert_eq!(records.len(), 3);
    assert_eq!(texts(&records[0]), vec!["ID", "Command", "State", "Fg/Bg", "PID"]);
    assert_eq!(texts(&records[1]), vec!["12", "sleep 100", "Running", "Background", "4321"]);
    assert_eq!(texts(&records[2]), vec!["12", "sleep 100", "Stopped", "", "4321"]);
}

#[test]
fn grid_aligns_and_colours() {
    let table = PrettyProcesses(vec![pretty(ProcessState::Running, FgBg::Foreground)]).grid();
    assert_eq!(table.rows.len(), 2);
    for cell in &table.rows[0] {
        assert_eq!(cell.alignment, Alignment::Center);
        assert_eq!(cell.prefix, "\x1b[0m\x1b[1m\x1b[37m");
        assert_eq!(cell.suffix, "\x1b[0m");
    }
    for cell in &table.rows[1] {
        assert_eq!(cell.alignment, Alignment::Right);
    }
    assert_eq!(table.rows[1][2].text, "Running");
    assert_eq!(table.rows[1][0].prefix, "\x1b[0m");
}

#[test]
fn pretty_process_from_server_listing() {
    let p = pretty_process(&process(7, 99, ProcessState::Running, true, b"vim notes"));
    assert_eq!((p.id, p.pid, p.fgbg), (7, 99, FgBg::Foreground));
    assert_eq!(p.command, "vim notes");
    let q = pretty_process(&process(1, 2, ProcessState::Stopped, true, b"a\xffb"));
    assert_eq!(q.command, "a\u{FFFD}b");
    assert_eq!(q.fgbg, FgBg::Irrelevant);
}

#[test]
fn listing_of_no_jobs() {
    match process_listing(&[]) {
        ProcessListing::NoJobs(message) => assert_eq!(message, "No jobs found"),
        ProcessListing::Jobs(_) => panic!("expected no jobs"),
    }
}

#[test]
fn listing_of_jobs() {
    let jobs = vec![
        process(1, 100, ProcessState::Running, false, b"make"),
        process(2, 200, ProcessState::Terminated(ExitStatus::Exited(1)), false, b"cargo test"),
    ];
    match process_listing(&jobs) {
        ProcessListing::Jobs(table) => {
            assert_eq!(table.rows.len(), 3);
            let row: Vec<String> = table.rows[2].iter().map(|c| c.text.clone()).collect();
            assert_eq!(row, vec!["2", "cargo test", "Finished with error - 1", "", "200"]);
            assert_eq!(table.rows[1][3].text, "Background");
        },
        ProcessListing::NoJobs(_) => panic!("expected jobs"),
    }
}

#[test]
fn grid_chooses_padding_and_border() {
    let table = PrettyProcesses(vec![pretty(ProcessState::Stopped, FgBg::Irrelevant)]).grid();
    assert_eq!(table.padding, 1);
    assert_eq!(table.border, BorderStyle::Rounded);
}

#[test]
fn rendered_table_is_rounded_padded_and_coloured() {
    let text = PrettyProcesses(vec![pretty(ProcessState::Stopped, FgBg::Irrelevant)]).grid().render();
    let lines: Vec<&str> = text.lines().collect();
    assert_eq!(lines.len(), 5, "{}", text);
    assert!(lines[0].starts_with('╭') && lines[0].ends_with('╮'), "{}", text);
    assert!(lines[4].starts_with('╰') && lines[4].ends_with('╯'), "{}", text);
    assert!(text.contains("│ \u{1b}[0m\u{1b}[1m\u{1b}[37mID\u{1b}[0m │"), "{}", text);
    assert!(text.contains("\u{1b}[0m\u{1b}[1m\u{1b}[38;5;11mStopped\u{1b}[0m │"), "{}", text);
    assert!(text.contains("│ \u{1b}[0m12\u{1b}[0m │"), "{}", text);
}

#[test]
fn common_signals_are_named() {
    let cell = ColoredString::from_state(&PrettyProcessState(ProcessState::Terminated(ExitStatus::Signaled(15))));
    assert_eq!(cell.as_ref(), "Killed - SIGTERM");
    let cell = ColoredString::from_state(&PrettyProcessState(ProcessState::Terminated(ExitStatus::Signaled(1))));
    assert_eq!(cell.as_ref(), "Killed - SIGHUP");
}
