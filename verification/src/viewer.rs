//! The viewer: cursor state clamped to the terminal bounds, the
//! full-screen frame, and the key-event decisions of the run loop.
use crate::document::Doc;
use crate::document::lines_of;
use crate::term::bold_string;
use crate::term::clear_all_string;
use crate::term::dec_digits;
use crate::term::esc_bold;
use crate::term::esc_clear_all;
use crate::term::esc_fg_red;
use crate::term::esc_fg_white;
use crate::term::esc_goto;
use crate::term::esc_reset;
use crate::term::fg_red_string;
use crate::term::fg_white_string;
use crate::term::goto_string;
use crate::term::reset_string;
use crate::term::u16_to_string;
use vstd::prelude::*;

verus! {

/// The cursor's logical position: column `x`, row `y`.
#[derive(PartialEq, Eq, Structural, Clone, Copy, Debug)]
pub struct Coordinates {
    pub x: u16,
    pub y: u16,
}

/// The terminal's dimensions, captured once at startup.
#[derive(PartialEq, Eq, Structural, Clone, Copy, Debug)]
pub struct TerminalSize {
    pub x: u16,
    pub y: u16,
}

/// A cursor move direction.
#[derive(PartialEq, Eq, Structural, Clone, Copy, Debug)]
pub enum Direction {
    Left,
    Right,
    Up,
    Down,
}

/// A key event, as the run loop classifies the keys read from the
/// terminal.
#[derive(PartialEq, Eq, Structural, Clone, Copy, Debug)]
pub enum KeyEvent {
    Interrupt,
    Arrow(Direction),
    Other,
}

/// What the run loop does with one key event: stop, write `Output` to
/// the terminal, or nothing.
pub enum Step {
    Quit,
    Output(String),
    Ignore,
}

/// One step toward `bound`, absorbed at the bound.
pub open spec fn clamped_inc(v: u16, bound: u16) -> u16 {
    if v < bound {
        (v + 1) as u16
    } else {
        v
    }
}

/// One step toward zero, absorbed at zero.
pub open spec fn clamped_dec(v: u16) -> u16 {
    if v > 0 {
        (v - 1) as u16
    } else {
        v
    }
}

/// Law: a clamped move never leaves `[0, bound]`, and a move at the
/// boundary it points toward leaves the coordinate unchanged.
pub proof fn lemma_clamped_move_bounded(v: u16, bound: u16)
    requires
        v <= bound,
    ensures
        clamped_inc(v, bound) <= bound,
        clamped_dec(v) <= bound,
        v == bound ==> clamped_inc(v, bound) == v,
        v == 0 ==> clamped_dec(v) == v,
{
}

/// `n` upward moves in a row.
pub open spec fn inc_times(v: u16, bound: u16, n: nat) -> u16
    decreases n,
{
    if n == 0 {
        v
    } else {
        inc_times(clamped_inc(v, bound), bound, (n - 1) as nat)
    }
}

/// `n` downward moves in a row.
pub open spec fn dec_times(v: u16, n: nat) -> u16
    decreases n,
{
    if n == 0 {
        v
    } else {
        dec_times(clamped_dec(v), (n - 1) as nat)
    }
}

/// Law: repeated moves toward the upper bound converge to the bound
/// and stay there.
pub proof fn lemma_inc_converges(v: u16, bound: u16, n: nat)
    requires
        v <= bound,
        n >= bound - v,
    ensures
        inc_times(v, bound, n) == bound,
    decreases n,
{
    if n > 0 {
        lemma_inc_converges(clamped_inc(v, bound), bound, (n - 1) as nat);
    }
}

/// Law: repeated moves toward zero converge to zero and stay there.
pub proof fn lemma_dec_converges(v: u16, n: nat)
    requires
        n >= v,
    ensures
        dec_times(v, n) == 0,
    decreases n,
{
    if n > 0 {
        lemma_dec_converges(clamped_dec(v), (n - 1) as nat);
    }
}

/// The document's lines as they stand in a frame: each line followed
/// by a carriage return and a newline.
pub open spec fn lines_block(lines: Seq<Seq<char>>) -> Seq<char>
    decreases lines.len(),
{
    if lines.len() == 0 {
        seq![]
    } else {
        lines_block(lines.drop_last()) + lines.last() + "\r\n"@
    }
}

/// The viewer: one document, one cursor, the terminal size, the
/// displayed file's name, and the two color prefixes captured from the
/// terminal crate at construction (each the color's escape sequence,
/// or empty when the environment has disabled color).
pub struct TextViewer {
    pub doc: Doc,
    pub doc_length: u16,
    pub cur_pos: Coordinates,
    pub terminal_size: TerminalSize,
    pub file_name: String,
    pub fg_white: String,
    pub fg_red: String,
}

impl TextViewer {
    /// Well-formedness: the cached length counts the document's lines,
    /// the cursor sits within the terminal bounds, the terminal is at
    /// least one column wide and two rows tall (the footer stands two
    /// rows above the bottom), and each captured color prefix is its
    /// color's escape sequence or empty (color disabled).
    pub open spec fn wf(self) -> bool {
        &&& self.doc_length as nat == self.doc@.len()
        &&& self.cur_pos.x <= self.terminal_size.x
        &&& self.cur_pos.y <= self.terminal_size.y
        &&& 1 <= self.terminal_size.x
        &&& 2 <= self.terminal_size.y
        &&& (self.fg_white@ == esc_fg_white() || self.fg_white@ == Seq::<char>::empty())
        &&& (self.fg_red@ == esc_fg_red() || self.fg_red@ == Seq::<char>::empty())
    }

    /// Builds the viewer: the document holds exactly the text's lines,
    /// the cursor starts at column 1 on the row numbered by the line
    /// count, and the color prefixes are captured once from the
    /// terminal crate (empty when the environment disables color).
    pub fn new(text: &str, file_name: String, width: u16, height: u16) -> (v: TextViewer)
        requires
            lines_of(text@).len() <= height,
            1 <= width,
            2 <= height,
        ensures
            v.wf(),
            v.doc@ == lines_of(text@),
            v.doc_length as nat == lines_of(text@).len(),
            v.cur_pos.x == 1,
            v.cur_pos.y == v.doc_length,
            v.terminal_size.x == width,
            v.terminal_size.y == height,
            v.file_name@ == file_name@,
    {
        let doc = Doc::from_text(text);
        let doc_length = doc.line_count() as u16;
        TextViewer {
            doc,
            doc_length,
            cur_pos: Coordinates { x: 1, y: doc_length },
            terminal_size: TerminalSize { x: width, y: height },
            file_name,
            fg_white: fg_white_string(),
            fg_red: fg_red_string(),
        }
    }

    /// Builds the viewer after checking what `new` asks of its caller:
    /// the document must fit the terminal, and the terminal must be at
    /// least one column wide and two rows tall.
    pub fn try_new(text: &str, file_name: String, width: u16, height: u16) -> (r: Option<
        TextViewer,
    >)
        ensures
            r is Some <==> lines_of(text@).len() <= height && 1 <= width && 2 <= height,
            r matches Some(v) ==> v.wf() && v.doc@ == lines_of(text@) && v.doc_length as nat
                == lines_of(text@).len() && v.cur_pos.x == 1 && v.cur_pos.y == v.doc_length
                && v.terminal_size.x == width && v.terminal_size.y == height && v.file_name@
                == file_name@,
    {
        if width < 1 || height < 2 {
            return None;
        }
        let doc = Doc::from_text(text);
        let count = doc.line_count();
        if count > height as usize {
            return None;
        }
        let doc_length = count as u16;
        Some(
            TextViewer {
                doc,
                doc_length,
                cur_pos: Coordinates { x: 1, y: doc_length },
                terminal_size: TerminalSize { x: width, y: height },
                file_name,
                fg_white: fg_white_string(),
                fg_red: fg_red_string(),
            },
        )
    }

    /// The full frame one render writes to the terminal: clear the
    /// screen, the header on the first row, every document line in
    /// order, the footer two rows above the bottom naming the line
    /// count and the file, and the cursor restored to its logical
    /// position. The color prefixes are the ones captured at
    /// construction, so the frame is a function of the viewer state
    /// alone.
    pub open spec fn frame(self) -> Seq<char> {
        esc_clear_all() + esc_goto(1, 1) + self.fg_white@ + "Welcome to Mini text viewer!"@
            + esc_reset() + "\n"@ + lines_block(self.doc@) + esc_goto(
            0,
            (self.terminal_size.y - 2) as u16,
        ) + "\n"@ + self.fg_red@ + esc_bold() + " line-count: "@ + dec_digits(
            self.doc_length as nat,
        ) + " Filename: "@ + self.file_name@ + esc_reset() + "\n"@ + esc_goto(
            self.cur_pos.x,
            self.cur_pos.y,
        ) + "\n"@
    }

    /// Renders the current state: the returned text is exactly the
    /// frame determined by the state, so rendering is idempotent.
    pub fn show_document(&self) -> (out: String)
        requires
            self.wf(),
        ensures
            out@ == self.frame(),
    {
        let mut out = clear_all_string();
        out.append(goto_string(1, 1).as_str());
        out.append(self.fg_white.as_str());
        out.append("Welcome to Mini text viewer!");
        out.append(reset_string().as_str());
        out.append("\n");
        let ghost all = self.doc@;
        let ghost prefix = out@;
        let mut i: usize = 0;
        while i < self.doc.lines.len()
            invariant
                i <= self.doc.lines.len(),
                all == self.doc@,
                out@ == prefix + lines_block(all.take(i as int)),
            decreases self.doc.lines.len() - i,
        {
            let ghost before = out@;
            out.append(self.doc.lines[i].as_str());
            out.append("\r\n");
            proof {
                assert(all[i as int] == self.doc.lines@[i as int]@);
                assert(all.take(i + 1).drop_last() =~= all.take(i as int));
                assert(all.take(i + 1).last() == all[i as int]);
                assert(out@ =~= prefix + lines_block(all.take(i + 1)));
            }
            i = i + 1;
        }
        proof {
            assert(all.take(self.doc.lines.len() as int) =~= all);
        }
        out.append(goto_string(0, self.terminal_size.y - 2).as_str());
        out.append("\n");
        out.append(self.fg_red.as_str());
        out.append(bold_string().as_str());
        out.append(" line-count: ");
        out.append(u16_to_string(self.doc_length).as_str());
        out.append(" Filename: ");
        out.append(self.file_name.as_str());
        out.append(reset_string().as_str());
        out.append("\n");
        out.append(goto_string(self.cur_pos.x, self.cur_pos.y).as_str());
        out.append("\n");
        proof {
            assert(out@ =~= self.frame());
        }
        out
    }

    /// Where the cursor stands after one move in direction `d`.
    pub open spec fn moved(self, d: Direction) -> Coordinates {
        match d {
            Direction::Left => (Coordinates { x: clamped_dec(self.cur_pos.x), y: self.cur_pos.y }),
            Direction::Right => (Coordinates {
                x: clamped_inc(self.cur_pos.x, self.terminal_size.x),
                y: self.cur_pos.y,
            }),
            Direction::Up => (Coordinates { x: self.cur_pos.x, y: clamped_dec(self.cur_pos.y) }),
            Direction::Down => (Coordinates {
                x: self.cur_pos.x,
                y: clamped_inc(self.cur_pos.y, self.terminal_size.y),
            }),
        }
    }

    /// Everything but the cursor is unchanged.
    pub open spec fn same_but_cursor(self, other: TextViewer) -> bool {
        &&& self.doc == other.doc
        &&& self.doc_length == other.doc_length
        &&& self.terminal_size == other.terminal_size
        &&& self.file_name == other.file_name
        &&& self.fg_white == other.fg_white
        &&& self.fg_red == other.fg_red
    }

    /// Places the cursor at `(x, y)` and returns the escape text that
    /// moves the terminal cursor there.
    pub fn set_pos(&mut self, x: u16, y: u16) -> (out: String)
        requires
            old(self).wf(),
            x <= old(self).terminal_size.x,
            y <= old(self).terminal_size.y,
        ensures
            final(self).wf(),
            final(self).cur_pos == (Coordinates { x, y }),
            final(self).same_but_cursor(*old(self)),
            out@ == esc_goto(x, y) + "\n"@,
    {
        self.cur_pos.x = x;
        self.cur_pos.y = y;
        let mut out = goto_string(x, y);
        out.append("\n");
        out
    }

    /// Moves the cursor one column right, absorbed at the terminal's
    /// width, and returns the escape text that repositions the
    /// terminal cursor.
    pub fn inc_x(&mut self) -> (out: String)
        requires
            old(self).wf(),
        ensures
            final(self).wf(),
            final(self).cur_pos == old(self).moved(Direction::Right),
            final(self).same_but_cursor(*old(self)),
            out@ == esc_goto(final(self).cur_pos.x, final(self).cur_pos.y) + "\n"@,
    {
        if self.cur_pos.x < self.terminal_size.x {
            self.cur_pos.x = self.cur_pos.x + 1;
        }
        let mut out = goto_string(self.cur_pos.x, self.cur_pos.y);
        out.append("\n");
        out
    }

    /// Moves the cursor one column left, absorbed at zero, and returns
    /// the escape text that repositions the terminal cursor.
    pub fn dec_x(&mut self) -> (out: String)
        requires
            old(self).wf(),
        ensures
            final(self).wf(),
            final(self).cur_pos == old(self).moved(Direction::Left),
            final(self).same_but_cursor(*old(self)),
            out@ == esc_goto(final(self).cur_pos.x, final(self).cur_pos.y) + "\n"@,
    {
        if self.cur_pos.x > 0 {
            self.cur_pos.x = self.cur_pos.x - 1;
        }
        let mut out = goto_string(self.cur_pos.x, self.cur_pos.y);
        out.append("\n");
        out
    }

    /// Moves the cursor one row down, absorbed at the terminal's
    /// height, and returns the escape text that repositions the
    /// terminal cursor.
    pub fn inc_y(&mut self) -> (out: String)
        requires
            old(self).wf(),
        ensures
            final(self).wf(),
            final(self).cur_pos == old(self).moved(Direction::Down),
            final(self).same_but_cursor(*old(self)),
            out@ == esc_goto(final(self).cur_pos.x, final(self).cur_pos.y) + "\n"@,
    {
        if self.cur_pos.y < self.terminal_size.y {
            self.cur_pos.y = self.cur_pos.y + 1;
        }
        let mut out = goto_string(self.cur_pos.x, self.cur_pos.y);
        out.append("\n");
        out
    }

    /// Moves the cursor one row up, absorbed at zero, and returns the
    /// escape text that repositions the terminal cursor.
    pub fn dec_y(&mut self) -> (out: String)
        requires
            old(self).wf(),
        ensures
            final(self).wf(),
            final(self).cur_pos == old(self).moved(Direction::Up),
            final(self).same_but_cursor(*old(self)),
            out@ == esc_goto(final(self).cur_pos.x, final(self).cur_pos.y) + "\n"@,
    {
        if self.cur_pos.y > 0 {
            self.cur_pos.y = self.cur_pos.y - 1;
        }
        let mut out = goto_string(self.cur_pos.x, self.cur_pos.y);
        out.append("\n");
        out
    }

    /// The run loop's decision for one key event: the interrupt key
    /// ends the loop with the state untouched, an arrow key moves the
    /// cursor and re-renders, and any other key changes nothing.
    pub fn handle_key(&mut self, key: KeyEvent) -> (step: Step)
        requires
            old(self).wf(),
        ensures
            final(self).wf(),
            final(self).same_but_cursor(*old(self)),
            key is Interrupt ==> step is Quit && final(self).cur_pos == old(self).cur_pos,
            key is Other ==> step is Ignore && final(self).cur_pos == old(self).cur_pos,
            key matches KeyEvent::Arrow(d) ==> final(self).cur_pos == old(self).moved(d) && (
            step matches Step::Output(out) && out@ == esc_goto(
                final(self).cur_pos.x,
                final(self).cur_pos.y,
            ) + "\n"@ + final(self).frame()),
    {
        match key {
            KeyEvent::Interrupt => Step::Quit,
            KeyEvent::Other => Step::Ignore,
            KeyEvent::Arrow(d) => {
                let mut out = match d {
                    Direction::Left => self.dec_x(),
                    Direction::Right => self.inc_x(),
                    Direction::Up => self.dec_y(),
                    Direction::Down => self.inc_y(),
                };
                out.append(self.show_document().as_str());
                Step::Output(out)
            },
        }
    }
}

/// Law: from any cursor position within the terminal bounds, a move in
/// any of the four directions leaves both coordinates within
/// `[0, terminal_size]` on their axis, and a move at the boundary it
/// points toward leaves the cursor where it stands.
pub proof fn lemma_move_stays_in_bounds(v: TextViewer, d: Direction)
    requires
        v.wf(),
    ensures
        v.moved(d).x <= v.terminal_size.x,
        v.moved(d).y <= v.terminal_size.y,
        d is Left && v.cur_pos.x == 0 ==> v.moved(d) == v.cur_pos,
        d is Right && v.cur_pos.x == v.terminal_size.x ==> v.moved(d) == v.cur_pos,
        d is Up && v.cur_pos.y == 0 ==> v.moved(d) == v.cur_pos,
        d is Down && v.cur_pos.y == v.terminal_size.y ==> v.moved(d) == v.cur_pos,
{
}

/// Law: rendering is deterministic. Two frames produced from one
/// viewer state, with no change in between, are identical.
pub proof fn lemma_render_deterministic(v: TextViewer, f1: Seq<char>, f2: Seq<char>)
    requires
        f1 == v.frame(),
        f2 == v.frame(),
    ensures
        f1 == f2,
{
}

} // verus!
