use ed::{
    welcome_line, welcome_message, Command, Editor, Event, KeyCode, KeyEvent, KeyModifiers,
    Phase, Position, Size, Terminal,
};

fn key(c: char, modifiers: KeyModifiers) -> Event {
    Event::Key(KeyEvent { code: KeyCode::Char(c), modifiers })
}

fn ctrl_q() -> Event {
    key('q', KeyModifiers::control())
}

fn active_terminal() -> Terminal {
    let mut term = Terminal::new();
    term.initialize();
    term
}

fn print(s: &str) -> Command {
    Command::Print(s.to_string())
}

#[test]
fn default_editor_is_running() {
    assert!(!Editor::default().should_quit());
}

#[test]
fn events_without_quit_chord_keep_running() {
    let mut shift_ctrl = KeyModifiers::control();
    shift_ctrl.shift = true;
    let events = vec![
        key('q', KeyModifiers::none()),
        key('a', KeyModifiers::control()),
        key('x', KeyModifiers::none()),
        key('Q', shift_ctrl),
        Event::Key(KeyEvent { code: KeyCode::Other, modifiers: KeyModifiers::control() }),
        Event::Other,
    ];
    let mut editor = Editor::default();
    for e in &events {
        editor.evaluate_event(e);
        assert!(!editor.should_quit());
    }
}

#[test]
fn quit_chord_is_permanent() {
    let mut editor = Editor::default();
    editor.evaluate_event(&ctrl_q());
    assert!(editor.should_quit());
    editor.evaluate_event(&key('a', KeyModifiers::none()));
    assert!(editor.should_quit());
    editor.evaluate_event(&Event::Other);
    assert!(editor.should_quit());
    editor.evaluate_event(&ctrl_q());
    assert!(editor.should_quit());
}

fn rows_for(height: u16, width: u16, message: &str) -> Vec<Command> {
    let mut term = active_terminal();
    Editor::draw_rows(&mut term, Size { width, height }, message);
    term.execute()
}

#[test]
fn row_count_and_welcome_placement() {
    let message = "ed editor -- version 1";
    for &height in &[1u16, 2, 3, 10, 24] {
        let cmds = rows_for(height, 80, message);
        let clears = cmds.iter().filter(|c| **c == Command::ClearLine).count();
        let breaks = cmds.iter().filter(|c| **c == print("\r\n")).count();
        assert_eq!(clears, height as usize);
        assert_eq!(breaks, height as usize - 1);
        assert_eq!(cmds.len(), 3 * height as usize - 1);
        let welcome = Command::Print(welcome_line(message, 80));
        for r in 0..height as usize {
            assert_eq!(cmds[3 * r], Command::ClearLine);
            if r == height as usize / 3 {
                assert_eq!(cmds[3 * r + 1], welcome);
            } else {
                assert_eq!(cmds[3 * r + 1], print("~"));
            }
            if r + 1 < height as usize {
                assert_eq!(cmds[3 * r + 2], print("\r\n"));
            }
        }
    }
}

#[test]
fn banner_from_name_and_version() {
    assert_eq!(welcome_message("ed", "1"), "ed editor -- version 1");
    assert_eq!(welcome_message("myEditor", "1.0"), "myEditor editor -- version 1.0");
}

#[test]
fn welcome_truncated_to_width() {
    let line = welcome_line("myEditor editor -- version 1.0", 10);
    assert_eq!(line.chars().count(), 10);
    assert_eq!(line, "~myEditor ");
}

#[test]
fn narrow_line_clamps_padding_to_zero() {
    let message = "ed editor -- version 1";
    assert_eq!(welcome_line(message, 20), "~ed editor -- versio");
}

#[test]
fn wide_line_centers_banner() {
    let message = "ed editor -- version 1";
    let expected = format!("~{}{}", " ".repeat(8), message);
    assert_eq!(welcome_line(message, 40), expected);
    assert_eq!(welcome_line("abc", 9), "~  abc");
    assert_eq!(welcome_line("abc", 5), "~abc");
}

#[test]
fn zero_width_prints_nothing() {
    assert_eq!(welcome_line("abc", 0), "");
}

#[test]
fn session_lifecycle() {
    let mut term = Terminal::new();
    assert_eq!(term.phase(), Phase::Fresh);
    assert_eq!(term.initialize(), vec![Command::EnterRawMode, Command::ClearScreen]);
    assert_eq!(term.phase(), Phase::Active);
    term.clear_line();
    term.print("x");
    assert_eq!(term.execute(), vec![Command::ClearLine, print("x")]);
    assert_eq!(term.execute(), vec![]);
    term.move_cursor_to(Position { x: 3, y: 4 });
    assert_eq!(
        term.terminate(),
        vec![Command::MoveCursorTo(Position { x: 3, y: 4 }), Command::LeaveRawMode]
    );
    assert_eq!(term.phase(), Phase::Terminated);
}

#[test]
fn end_to_end_five_by_five() {
    let message = welcome_message("ed", "1");
    let size = Size { width: 5, height: 5 };
    let mut term = Terminal::new();
    let mut editor = Editor::default();
    assert_eq!(term.initialize(), vec![Command::EnterRawMode, Command::ClearScreen]);

    let frame = editor.refresh_screen(&mut term, size, &message);
    assert_eq!(frame.iter().filter(|c| **c == Command::ClearLine).count(), 5);
    assert_eq!(frame[0], Command::HideCursor);
    let rows = &frame[1..frame.len() - 2];
    assert_eq!(rows.len(), 14);
    assert_eq!(rows[4], print("~ed e"));
    for r in [0usize, 2, 3, 4] {
        assert_eq!(rows[3 * r + 1], print("~"));
    }
    assert_eq!(frame[frame.len() - 2], Command::MoveCursorTo(Position { x: 0, y: 0 }));
    assert_eq!(frame[frame.len() - 1], Command::ShowCursor);
    assert_eq!(term.execute(), vec![]);

    editor.evaluate_event(&ctrl_q());
    assert!(editor.should_quit());
    let goodbye = editor.refresh_screen(&mut term, size, &message);
    assert_eq!(
        goodbye,
        vec![Command::HideCursor, Command::ClearScreen, print("Goodbye.\r\n"), Command::ShowCursor]
    );
    assert_eq!(term.terminate(), vec![Command::LeaveRawMode]);
    assert_eq!(term.phase(), Phase::Terminated);
}
