use vstd::prelude::*;
use vstd::string::{StrSliceExecFns, StringExecFns};
use crate::geometry::{Position, Size};
use crate::terminal::CommandView;

verus! {

/// The banner text: `<name> editor -- version <version>`.
pub open spec fn banner(name: Seq<char>, version: Seq<char>) -> Seq<char> {
    name + seq![' ', 'e', 'd', 'i', 't', 'o', 'r', ' ', '-', '-', ' ', 'v', 'e', 'r', 's', 'i', 'o', 'n', ' ']
        + version
}

/// Half of the room left beside a message of `len` characters on a line of `width`.
/// A line too narrow for the message leaves no room: the padding is zero, never
/// negative.
pub open spec fn padding(width: nat, len: nat) -> nat {
    if width > len {
        ((width - len) as nat / 2) as nat
    } else {
        0
    }
}

/// The spaces put between the leading `~` and the message: one fewer than the
/// padding, the `~` taking the first column; none when the padding is zero.
pub open spec fn space_count(width: nat, len: nat) -> nat {
    if padding(width, len) > 0 {
        (padding(width, len) - 1) as nat
    } else {
        0
    }
}

/// The welcome row before truncation: `~`, the spaces, then the message.
pub open spec fn assembled(message: Seq<char>, width: nat) -> Seq<char> {
    seq!['~'] + Seq::new(space_count(width, message.len()), |i: int| ' ') + message
}

/// The first `width` characters of `s`, or all of it when it is shorter.
pub open spec fn truncated(s: Seq<char>, width: nat) -> Seq<char> {
    if s.len() > width {
        s.take(width as int)
    } else {
        s
    }
}

/// The welcome row as printed on a line of `width` columns.
pub open spec fn welcome_row(message: Seq<char>, width: nat) -> Seq<char> {
    truncated(assembled(message, width), width)
}

/// The line break printed between rows.
pub open spec fn crlf() -> Seq<char> {
    seq!['\r', '\n']
}

/// The text printed when the editor quits.
pub open spec fn goodbye() -> Seq<char> {
    seq!['G', 'o', 'o', 'd', 'b', 'y', 'e', '.', '\r', '\n']
}

/// What row `row` shows: the welcome row on the row a third of the way down
/// (`height / 3`), the `~` marker on every other row.
pub open spec fn row_text(row: nat, size: Size, message: Seq<char>) -> Seq<char> {
    if row == size.height / 3 {
        welcome_row(message, size.width as nat)
    } else {
        seq!['~']
    }
}

/// The commands that draw row `row`: clear the line, print its text, and, on every
/// row but the last, break to the next line.
pub open spec fn row_commands(row: nat, size: Size, message: Seq<char>) -> Seq<CommandView> {
    let body = seq![CommandView::ClearLine, CommandView::Print(row_text(row, size, message))];
    if row + 1 < size.height {
        body.push(CommandView::Print(crlf()))
    } else {
        body
    }
}

/// The commands that draw the first `n` rows, top to bottom.
pub open spec fn rows_commands(n: nat, size: Size, message: Seq<char>) -> Seq<CommandView>
    decreases n,
{
    if n == 0 {
        Seq::empty()
    } else {
        rows_commands((n - 1) as nat, size, message) + row_commands((n - 1) as nat, size, message)
    }
}

/// One screen refresh: the cursor hidden, then either the goodbye screen or every row
/// followed by the cursor sent home, then the cursor shown.
pub open spec fn frame(should_quit: bool, size: Size, message: Seq<char>) -> Seq<CommandView> {
    if should_quit {
        seq![
            CommandView::HideCursor,
            CommandView::ClearScreen,
            CommandView::Print(goodbye()),
            CommandView::ShowCursor,
        ]
    } else {
        seq![CommandView::HideCursor] + rows_commands(size.height as nat, size, message) + seq![
            CommandView::MoveCursorTo(Position { x: 0, y: 0 }),
            CommandView::ShowCursor,
        ]
    }
}

/// How many times `c` occurs in `s`.
pub open spec fn count_of(s: Seq<CommandView>, c: CommandView) -> nat
    decreases s.len(),
{
    if s.len() == 0 {
        0
    } else {
        count_of(s.drop_last(), c) + (if s.last() == c {
            1nat
        } else {
            0nat
        })
    }
}

proof fn lemma_count_of_concat(a: Seq<CommandView>, b: Seq<CommandView>, c: CommandView)
    ensures
        count_of(a + b, c) == count_of(a, c) + count_of(b, c),
    decreases b.len(),
{
    if b.len() == 0 {
        assert(a + b =~= a);
    } else {
        assert((a + b).drop_last() =~= a + b.drop_last());
        lemma_count_of_concat(a, b.drop_last(), c);
    }
}

/// The welcome row is either empty (on a line of no width) or starts with `~`.
proof fn lemma_welcome_row_start(message: Seq<char>, width: nat)
    ensures
        welcome_row(message, width).len() == 0 || welcome_row(message, width)[0] == '~',
{
    let a = assembled(message, width);
    assert(a[0] == '~');
}

proof fn lemma_row_counts(row: nat, size: Size, message: Seq<char>)
    ensures
        count_of(row_commands(row, size, message), CommandView::ClearLine) == 1,
        count_of(row_commands(row, size, message), CommandView::Print(crlf())) == if row + 1
            < size.height {
            1nat
        } else {
            0nat
        },
{
    let t = row_text(row, size, message);
    lemma_welcome_row_start(message, size.width as nat);
    assert(t != crlf()) by {
        if t.len() == 2 {
            assert(t[0] == '~');
            assert(crlf()[0] == '\r');
        }
    }
    let body = seq![CommandView::ClearLine, CommandView::Print(t)];
    assert(body.drop_last() =~= seq![CommandView::ClearLine]);
    assert(body.drop_last().drop_last() =~= Seq::<CommandView>::empty());
    if row + 1 < size.height {
        let full = body.push(CommandView::Print(crlf()));
        assert(full.drop_last() =~= body);
        reveal_with_fuel(count_of, 4);
    } else {
        reveal_with_fuel(count_of, 3);
    }
}

proof fn lemma_rows_counts(n: nat, size: Size, message: Seq<char>)
    requires
        n <= size.height,
    ensures
        count_of(rows_commands(n, size, message), CommandView::ClearLine) == n,
        n < size.height ==> count_of(rows_commands(n, size, message), CommandView::Print(crlf()))
            == n,
        0 < n == size.height ==> count_of(
            rows_commands(n, size, message),
            CommandView::Print(crlf()),
        ) == n - 1,
    decreases n,
{
    if n > 0 {
        let m = (n - 1) as nat;
        lemma_rows_counts(m, size, message);
        lemma_row_counts(m, size, message);
        lemma_count_of_concat(
            rows_commands(m, size, message),
            row_commands(m, size, message),
            CommandView::ClearLine,
        );
        lemma_count_of_concat(
            rows_commands(m, size, message),
            row_commands(m, size, message),
            CommandView::Print(crlf()),
        );
    }
}

/// Drawing the rows of a terminal `height` rows high clears exactly `height` lines and
/// breaks exactly `height - 1` times: the last row gets no line break.
pub proof fn lemma_row_count(size: Size, message: Seq<char>)
    requires
        size.height >= 1,
    ensures
        count_of(rows_commands(size.height as nat, size, message), CommandView::ClearLine)
            == size.height,
        count_of(rows_commands(size.height as nat, size, message), CommandView::Print(crlf()))
            == size.height - 1,
{
    lemma_rows_counts(size.height as nat, size, message);
}

proof fn lemma_rows_layout(n: nat, size: Size, message: Seq<char>)
    requires
        n <= size.height,
    ensures
        rows_commands(n, size, message).len() == if n < size.height {
            3 * n as int
        } else if n == 0 {
            0
        } else {
            3 * n - 1
        },
        forall|r: int|
            0 <= r < n ==> {
                &&& #[trigger] rows_commands(n, size, message)[3 * r] == CommandView::ClearLine
                &&& rows_commands(n, size, message)[3 * r + 1] == CommandView::Print(
                    row_text(r as nat, size, message),
                )
                &&& r + 1 < size.height ==> rows_commands(n, size, message)[3 * r + 2]
                    == CommandView::Print(crlf())
            },
    decreases n,
{
    if n > 0 {
        let m = (n - 1) as nat;
        lemma_rows_layout(m, size, message);
        let prev = rows_commands(m, size, message);
        let cur = row_commands(m, size, message);
        let all = rows_commands(n, size, message);
        assert(all == prev + cur);
        assert(prev.len() == 3 * m);
        assert forall|r: int| 0 <= r < n implies {
            &&& #[trigger] all[3 * r] == CommandView::ClearLine
            &&& all[3 * r + 1] == CommandView::Print(row_text(r as nat, size, message))
            &&& r + 1 < size.height ==> all[3 * r + 2] == CommandView::Print(crlf())
        } by {
            if r < m {
                assert(prev[3 * r] == CommandView::ClearLine);
            } else {
                assert(r == m);
            }
        }
    }
}

/// Row `r` of a terminal `height` rows high shows the welcome row when
/// `r == height / 3` and the `~` marker otherwise. The commands of row `r` start at
/// index `3 * r`: the line clear, the row's text, then the line break on every row but
/// the last.
pub proof fn lemma_row_placement(size: Size, message: Seq<char>, r: int)
    requires
        0 <= r < size.height,
    ensures
        rows_commands(size.height as nat, size, message).len() == 3 * size.height - 1,
        rows_commands(size.height as nat, size, message)[3 * r] == CommandView::ClearLine,
        rows_commands(size.height as nat, size, message)[3 * r + 1] == CommandView::Print(
            if r == size.height / 3 {
                welcome_row(message, size.width as nat)
            } else {
                seq!['~']
            },
        ),
        r + 1 < size.height ==> rows_commands(size.height as nat, size, message)[3 * r + 2]
            == CommandView::Print(crlf()),
{
    lemma_rows_layout(size.height as nat, size, message);
    assert(rows_commands(size.height as nat, size, message)[3 * r] == CommandView::ClearLine);
}

/// Builds the banner from the product's name and version.
pub fn welcome_message(name: &str, version: &str) -> (r: String)
    ensures
        r@ == banner(name@, version@),
{
    let mut s = String::from_str(name);
    s.append(" editor -- version ");
    s.append(version);
    proof {
        reveal_strlit(" editor -- version ");
    }
    assert(s@ =~= banner(name@, version@));
    s
}

/// Centers `message` on a line of `width` columns behind a leading `~`, and cuts the
/// result to `width` characters so that it never runs past the line.
pub fn welcome_line(message: &str, width: u16) -> (r: String)
    ensures
        r@ == welcome_row(message@, width as nat),
        r@.len() <= width,
        assembled(message@, width as nat).len() > width ==> r@.len() == width
            && r@ == assembled(message@, width as nat).take(width as int),
{
    let len = message.unicode_len();
    let w = width as usize;
    let padding: usize = if w > len {
        (w - len) / 2
    } else {
        0
    };
    let spaces: usize = if padding > 0 {
        padding - 1
    } else {
        0
    };
    assert(padding == crate::render::padding(width as nat, message@.len()));
    assert(spaces == space_count(width as nat, message@.len()));
    let mut s = String::from_str("~");
    proof {
        reveal_strlit("~");
    }
    let mut i: usize = 0;
    while i < spaces
        invariant
            i <= spaces,
            s@ =~= seq!['~'] + Seq::new(i as nat, |k: int| ' '),
        decreases spaces - i,
    {
        proof {
            reveal_strlit(" ");
        }
        s.append(" ");
        i = i + 1;
    }
    s.append(message);
    let ghost full = assembled(message@, width as nat);
    assert(s@ =~= full);
    if s.as_str().unicode_len() > w {
        let cut = String::from_str(s.as_str().substring_char(0, w));
        assert(cut@ =~= full.take(w as int));
        cut
    } else {
        s
    }
}

} // verus!
