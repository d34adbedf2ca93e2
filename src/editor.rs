use vstd::prelude::*;
use crate::geometry::{Position, Size};
use crate::input::{is_quit_chord, Event};
use crate::render::{crlf, frame, goodbye, rows_commands, welcome_line, welcome_row};
use crate::terminal::{views, Command, CommandView, Phase, Terminal};

verus! {

/// The editor's state: whether the quit chord has been seen.
pub struct Editor {
    should_quit: bool,
}

/// Whether the editor is quitting after it saw event `e` while in state `quitting`.
pub open spec fn next_quit(quitting: bool, e: Event) -> bool {
    quitting || is_quit_chord(e)
}

/// Whether the editor is quitting after it saw `events`, in order, starting in state
/// `quitting`.
pub open spec fn quit_after(quitting: bool, events: Seq<Event>) -> bool
    decreases events.len(),
{
    if events.len() == 0 {
        quitting
    } else {
        quit_after(next_quit(quitting, events[0]), events.drop_first())
    }
}

/// After a sequence of events the editor is quitting exactly when it already was, or
/// one of the events is the quit chord.
pub proof fn lemma_quit_after(quitting: bool, events: Seq<Event>)
    ensures
        quit_after(quitting, events) == (quitting || exists|i: int|
            0 <= i < events.len() && is_quit_chord(#[trigger] events[i])),
    decreases events.len(),
{
    if events.len() > 0 {
        let rest = events.drop_first();
        lemma_quit_after(next_quit(quitting, events[0]), rest);
        if exists|i: int| 0 <= i < events.len() && is_quit_chord(#[trigger] events[i]) {
            let i = choose|i: int| 0 <= i < events.len() && is_quit_chord(#[trigger] events[i]);
            if i > 0 {
                assert(rest[i - 1] == events[i]);
            }
        }
        if exists|j: int| 0 <= j < rest.len() && is_quit_chord(#[trigger] rest[j]) {
            let j = choose|j: int| 0 <= j < rest.len() && is_quit_chord(#[trigger] rest[j]);
            assert(events[j + 1] == rest[j]);
        }
    }
}

/// Events that hold no quit chord leave a running editor running, after each of them.
pub proof fn lemma_no_chord_keeps_running(events: Seq<Event>)
    requires
        forall|i: int| 0 <= i < events.len() ==> !is_quit_chord(#[trigger] events[i]),
    ensures
        forall|k: int| 0 <= k <= events.len() ==> !quit_after(false, #[trigger] events.take(k)),
{
    assert forall|k: int| 0 <= k <= events.len() implies !quit_after(
        false,
        #[trigger] events.take(k),
    ) by {
        lemma_quit_after(false, events.take(k));
        if exists|i: int| 0 <= i < events.take(k).len() && is_quit_chord(#[trigger] events.take(k)[i]) {
            let i = choose|i: int|
                0 <= i < events.take(k).len() && is_quit_chord(#[trigger] events.take(k)[i]);
            assert(events.take(k)[i] == events[i]);
        }
    }
}

/// Quitting is for good: once the editor is quitting, no events bring it back.
pub proof fn lemma_quit_is_permanent(events: Seq<Event>)
    ensures
        quit_after(true, events),
{
    lemma_quit_after(true, events);
}

impl Editor {
    /// Whether the editor is quitting.
    pub closed spec fn quitting(&self) -> bool {
        self.should_quit
    }

    /// A running editor.
    pub fn default() -> (r: Editor)
        ensures
            !r.quitting(),
    {
        Editor { should_quit: false }
    }

    pub fn should_quit(&self) -> (r: bool)
        ensures
            r == self.quitting(),
    {
        self.should_quit
    }

    /// Reacts to one input event: the quit chord makes the editor quit; every other
    /// event changes nothing.
    pub fn evaluate_event(&mut self, event: &Event)
        ensures
            final(self).quitting() == next_quit(old(self).quitting(), *event),
    {
        if event.is_quit_chord() {
            self.should_quit = true;
        }
    }

    /// Redraws the screen on a terminal of `size` and flushes. Returns the flushed batch:
    /// what was buffered before, then the cursor hidden, the goodbye screen when
    /// quitting or else every row and the cursor sent home, then the cursor shown.
    pub fn refresh_screen(&self, term: &mut Terminal, size: Size, message: &str) -> (r: Vec<
        Command,
    >)
        requires
            old(term).is_active(),
        ensures
            final(term)@.phase == Phase::Active,
            final(term)@.pending == Seq::<CommandView>::empty(),
            views(r@) == old(term)@.pending + frame(self.quitting(), size, message@),
    {
        term.hide_cursor();
        if self.should_quit {
            term.clear_screen();
            proof {
                reveal_strlit("Goodbye.\r\n");
            }
            assert("Goodbye.\r\n"@ =~= goodbye());
            term.print("Goodbye.\r\n");
        } else {
            Self::draw_rows(term, size, message);
            term.move_cursor_to(Position::origin());
        }
        term.show_cursor();
        let r = term.execute();
        assert(views(r@) =~= old(term)@.pending + frame(self.quitting(), size, message@));
        r
    }

    /// Prints the welcome row for a line of `width` columns.
    pub fn draw_welcome_message(term: &mut Terminal, width: u16, message: &str)
        requires
            old(term).is_active(),
        ensures
            final(term)@.phase == Phase::Active,
            final(term)@.pending == old(term)@.pending.push(
                CommandView::Print(welcome_row(message@, width as nat)),
            ),
    {
        let line = welcome_line(message, width);
        term.print(line.as_str());
    }

    /// Prints the `~` marker of a row with nothing on it.
    pub fn draw_empty_row(term: &mut Terminal)
        requires
            old(term).is_active(),
        ensures
            final(term)@.phase == Phase::Active,
            final(term)@.pending == old(term)@.pending.push(CommandView::Print(seq!['~'])),
    {
        proof {
            reveal_strlit("~");
        }
        assert("~"@ =~= seq!['~']);
        term.print("~");
    }

    /// Draws every row of a terminal of `size`, top to bottom. Nothing is flushed.
    pub fn draw_rows(term: &mut Terminal, size: Size, message: &str)
        requires
            old(term).is_active(),
        ensures
            final(term)@.phase == Phase::Active,
            final(term)@.pending == old(term)@.pending + rows_commands(
                size.height as nat,
                size,
                message@,
            ),
    {
        let height = size.height;
        let mut row: u16 = 0;
        assert(old(term)@.pending + rows_commands(0, size, message@) =~= old(term)@.pending);
        while row < height
            invariant
                row <= height,
                height == size.height,
                term@.phase == Phase::Active,
                term@.pending == old(term)@.pending + rows_commands(row as nat, size, message@),
            decreases height - row,
        {
            let ghost before = term@.pending;
            term.clear_line();
            if row == height / 3 {
                Self::draw_welcome_message(term, size.width, message);
            } else {
                Self::draw_empty_row(term);
            }
            if row + 1 < height {
                proof {
                    reveal_strlit("\r\n");
                }
                assert("\r\n"@ =~= crlf());
                term.print("\r\n");
            }
            assert(term@.pending =~= before + crate::render::row_commands(row as nat, size, message@));
            assert(rows_commands((row + 1) as nat, size, message@) == rows_commands(row as nat, size, message@)
                + crate::render::row_commands(row as nat, size, message@));
            row = row + 1;
        }
    }
}

} // verus!
