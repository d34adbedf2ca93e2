use vstd::prelude::*;
use vstd::string::StringExecFns;
use crate::geometry::Position;

verus! {

/// One operation on the host terminal, in the order the session issued it.
#[derive(Clone, Debug, PartialEq, Eq)]
pub enum Command {
    EnterRawMode,
    LeaveRawMode,
    ClearScreen,
    ClearLine,
    MoveCursorTo(Position),
    HideCursor,
    ShowCursor,
    Print(String),
}

/// What a command is, with printed text as a sequence of characters.
pub enum CommandView {
    EnterRawMode,
    LeaveRawMode,
    ClearScreen,
    ClearLine,
    MoveCursorTo(Position),
    HideCursor,
    ShowCursor,
    Print(Seq<char>),
}

impl View for Command {
    type V = CommandView;

    open spec fn view(&self) -> CommandView {
        match self {
            Command::EnterRawMode => CommandView::EnterRawMode,
            Command::LeaveRawMode => CommandView::LeaveRawMode,
            Command::ClearScreen => CommandView::ClearScreen,
            Command::ClearLine => CommandView::ClearLine,
            Command::MoveCursorTo(p) => CommandView::MoveCursorTo(*p),
            Command::HideCursor => CommandView::HideCursor,
            Command::ShowCursor => CommandView::ShowCursor,
            Command::Print(s) => CommandView::Print(s@),
        }
    }
}

/// The views of a batch of commands.
pub open spec fn views(cs: Seq<Command>) -> Seq<CommandView> {
    cs.map_values(|c: Command| c@)
}

/// Where a session stands in its lifecycle.
#[derive(Clone, Copy, Debug, PartialEq, Eq, Structural)]
pub enum Phase {
    /// Created; the terminal is still in its original mode.
    Fresh,
    /// Initialized: raw mode is on and drawing is allowed.
    Active,
    /// Terminated: the original mode is restored; nothing more may be issued.
    Terminated,
}

pub struct TerminalView {
    pub phase: Phase,
    /// Commands buffered since the last flush.
    pub pending: Seq<CommandView>,
}

/// The terminal session. Every screen and cursor operation goes through it and is
/// buffered; `execute` hands the buffered batch out to be written and flushed to the
/// device. Drawing is allowed only between `initialize` and `terminate`: each drawing
/// operation requires the session to be active.
pub struct Terminal {
    phase: Phase,
    pending: Vec<Command>,
}

impl View for Terminal {
    type V = TerminalView;

    closed spec fn view(&self) -> TerminalView {
        TerminalView { phase: self.phase, pending: views(self.pending@) }
    }
}

impl Terminal {
    pub open spec fn is_active(&self) -> bool {
        self@.phase == Phase::Active
    }

    /// A session on a terminal that has not been touched yet.
    pub fn new() -> (r: Terminal)
        ensures
            r@.phase == Phase::Fresh,
            r@.pending == Seq::<CommandView>::empty(),
    {
        let r = Terminal { phase: Phase::Fresh, pending: Vec::new() };
        assert(views(r.pending@) =~= Seq::<CommandView>::empty());
        r
    }

    pub fn phase(&self) -> (r: Phase)
        ensures
            r == self@.phase,
    {
        self.phase
    }

    /// Starts the session: raw mode on, screen cleared. Returns that batch, to be
    /// carried out at once.
    pub fn initialize(&mut self) -> (r: Vec<Command>)
        requires
            old(self)@.phase == Phase::Fresh,
        ensures
            final(self)@.phase == Phase::Active,
            final(self)@.pending == Seq::<CommandView>::empty(),
            views(r@) == seq![CommandView::EnterRawMode, CommandView::ClearScreen],
    {
        self.phase = Phase::Active;
        self.pending = Vec::new();
        let r = vec![Command::EnterRawMode, Command::ClearScreen];
        assert(views(self.pending@) =~= Seq::<CommandView>::empty());
        assert(views(r@) =~= seq![CommandView::EnterRawMode, CommandView::ClearScreen]);
        r
    }

    /// Ends the session: what is still buffered is handed out, followed by the return
    /// to the terminal's original mode.
    pub fn terminate(&mut self) -> (r: Vec<Command>)
        requires
            old(self).is_active(),
        ensures
            final(self)@.phase == Phase::Terminated,
            final(self)@.pending == Seq::<CommandView>::empty(),
            views(r@) == old(self)@.pending.push(CommandView::LeaveRawMode),
    {
        let mut r = Vec::new();
        std::mem::swap(&mut r, &mut self.pending);
        r.push(Command::LeaveRawMode);
        self.phase = Phase::Terminated;
        assert(views(self.pending@) =~= Seq::<CommandView>::empty());
        assert(views(r@) =~= old(self)@.pending.push(CommandView::LeaveRawMode));
        r
    }

    fn queue(&mut self, c: Command)
        requires
            old(self).is_active(),
        ensures
            final(self)@.phase == Phase::Active,
            final(self)@.pending == old(self)@.pending.push(c@),
    {
        self.pending.push(c);
        assert(views(self.pending@) =~= views(old(self).pending@).push(c@));
    }

    /// Buffers the erasure of the whole viewport.
    pub fn clear_screen(&mut self)
        requires
            old(self).is_active(),
        ensures
            final(self)@.phase == Phase::Active,
            final(self)@.pending == old(self)@.pending.push(CommandView::ClearScreen),
    {
        self.queue(Command::ClearScreen);
    }

    /// Buffers the erasure of the line the cursor is on.
    pub fn clear_line(&mut self)
        requires
            old(self).is_active(),
        ensures
            final(self)@.phase == Phase::Active,
            final(self)@.pending == old(self)@.pending.push(CommandView::ClearLine),
    {
        self.queue(Command::ClearLine);
    }

    /// Buffers a move of the cursor to `p`.
    pub fn move_cursor_to(&mut self, p: Position)
        requires
            old(self).is_active(),
        ensures
            final(self)@.phase == Phase::Active,
            final(self)@.pending == old(self)@.pending.push(CommandView::MoveCursorTo(p)),
    {
        self.queue(Command::MoveCursorTo(p));
    }

    pub fn hide_cursor(&mut self)
        requires
            old(self).is_active(),
        ensures
            final(self)@.phase == Phase::Active,
            final(self)@.pending == old(self)@.pending.push(CommandView::HideCursor),
    {
        self.queue(Command::HideCursor);
    }

    pub fn show_cursor(&mut self)
        requires
            old(self).is_active(),
        ensures
            final(self)@.phase == Phase::Active,
            final(self)@.pending == old(self)@.pending.push(CommandView::ShowCursor),
    {
        self.queue(Command::ShowCursor);
    }

    /// Buffers `text` for printing at the cursor.
    pub fn print(&mut self, text: &str)
        requires
            old(self).is_active(),
        ensures
            final(self)@.phase == Phase::Active,
            final(self)@.pending == old(self)@.pending.push(CommandView::Print(text@)),
    {
        self.queue(Command::Print(String::from_str(text)));
    }

    /// Flushes: hands out every buffered command, in order, and empties the buffer.
    pub fn execute(&mut self) -> (r: Vec<Command>)
        requires
            old(self).is_active(),
        ensures
            final(self)@.phase == Phase::Active,
            final(self)@.pending == Seq::<CommandView>::empty(),
            views(r@) == old(self)@.pending,
    {
        let mut r = Vec::new();
        std::mem::swap(&mut r, &mut self.pending);
        assert(views(self.pending@) =~= Seq::<CommandView>::empty());
        r
    }
}

} // verus!
