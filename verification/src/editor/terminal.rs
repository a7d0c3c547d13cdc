//! The terminal surface: an explicit drawing-intent queue.
//!
//! Drawing operations never reach the display one by one. Each one enqueues
//! a single intent; `execute` commits the whole batch at once and empties the
//! queue. The embedding binary translates each committed intent into a host
//! terminal command and performs one flush per batch, so a frame becomes
//! visible atomically (the anti-flicker discipline).

use vstd::prelude::*;

verus! {

/// Current host geometry in character cells, queried fresh each frame by the
/// embedding binary and handed to the library as plain values.
#[derive(Clone, Copy, PartialEq, Eq, Structural, Debug)]
pub struct TerminalSize {
    pub width: usize,
    pub height: usize,
}

/// A cell coordinate on the terminal: column first, then row.
#[derive(Clone, Copy, PartialEq, Eq, Structural, Debug)]
pub struct TerminalPosition {
    pub col: usize,
    pub row: usize,
}

impl Default for TerminalPosition {
    /// The origin cell (0, 0).
    fn default() -> (p: TerminalPosition)
        ensures
            p.col == 0,
            p.row == 0,
    {
        TerminalPosition { col: 0, row: 0 }
    }
}

/// One pending low-level drawing command, queued during a frame and made
/// visible only when the whole batch is committed.
#[derive(PartialEq, Eq, Debug)]
pub enum Intent {
    /// Clear the whole display.
    ClearScreen,
    /// Clear the line the cursor is on.
    ClearLine,
    /// Move the cursor to the given cell.
    MoveTo(TerminalPosition),
    /// Hide the cursor.
    Hide,
    /// Show the cursor.
    Show,
    /// Write the given text at the cursor.
    Print(String),
}

/// The mathematical shape of an intent: coordinates as unbounded integers and
/// text as a sequence of characters.
#[verifier::ext_equal]
pub enum IntentModel {
    ClearScreen,
    ClearLine,
    MoveTo { col: int, row: int },
    Hide,
    Show,
    Print { text: Seq<char> },
}

impl View for Intent {
    type V = IntentModel;

    open spec fn view(&self) -> IntentModel {
        match self {
            Intent::ClearScreen => IntentModel::ClearScreen,
            Intent::ClearLine => IntentModel::ClearLine,
            Intent::MoveTo(p) => IntentModel::MoveTo { col: p.col as int, row: p.row as int },
            Intent::Hide => IntentModel::Hide,
            Intent::Show => IntentModel::Show,
            Intent::Print(s) => IntentModel::Print { text: s@ },
        }
    }
}

impl DeepView for Intent {
    type V = IntentModel;

    open spec fn deep_view(&self) -> IntentModel {
        self.view()
    }
}

/// The terminal surface. Its state is the ordered queue of intents pending
/// for the current frame; its view is that queue as a sequence of models.
pub struct Terminal {
    queue: Vec<Intent>,
}

impl View for Terminal {
    type V = Seq<IntentModel>;

    closed spec fn view(&self) -> Seq<IntentModel> {
        self.queue.deep_view()
    }
}

impl Terminal {
    /// A surface with nothing pending.
    pub fn new() -> (t: Terminal)
        ensures
            t@ == Seq::<IntentModel>::empty(),
    {
        let t = Terminal { queue: Vec::new() };
        proof {
            assert(t.queue.deep_view() =~= Seq::<IntentModel>::empty());
        }
        t
    }

    /// Enqueue one intent to clear the whole display.
    pub fn clear_screen(&mut self)
        ensures
            final(self)@ == old(self)@.push(IntentModel::ClearScreen),
    {
        self.push_intent(Intent::ClearScreen);
    }

    /// Enqueue one intent to clear the current line.
    pub fn clear_line(&mut self)
        ensures
            final(self)@ == old(self)@.push(IntentModel::ClearLine),
    {
        self.push_intent(Intent::ClearLine);
    }

    /// Enqueue one intent to move the cursor to `pos`.
    pub fn move_cursor_to(&mut self, pos: TerminalPosition)
        ensures
            final(self)@ == old(self)@.push(
                IntentModel::MoveTo { col: pos.col as int, row: pos.row as int },
            ),
    {
        self.push_intent(Intent::MoveTo(pos));
    }

    /// Enqueue one intent to hide the cursor.
    pub fn hide_cursor(&mut self)
        ensures
            final(self)@ == old(self)@.push(IntentModel::Hide),
    {
        self.push_intent(Intent::Hide);
    }

    /// Enqueue one intent to show the cursor.
    pub fn show_cursor(&mut self)
        ensures
            final(self)@ == old(self)@.push(IntentModel::Show),
    {
        self.push_intent(Intent::Show);
    }

    /// Enqueue one intent to move the cursor to the origin.
    pub fn move_to_start(&mut self)
        ensures
            final(self)@ == old(self)@.push(IntentModel::MoveTo { col: 0, row: 0 }),
    {
        self.move_cursor_to(TerminalPosition { col: 0, row: 0 });
    }

    /// Enqueue one intent to print `text` at the cursor.
    pub fn print(&mut self, text: &str)
        ensures
            final(self)@ == old(self)@.push(IntentModel::Print { text: text@ }),
    {
        self.push_intent(Intent::Print(String::from_str(text)));
    }

    /// Commit the batch: hand out every pending intent, in order, and leave
    /// the queue empty. The caller performs the batch as one atomic write to
    /// the display. Committing an empty queue yields an empty batch.
    pub fn execute(&mut self) -> (batch: Vec<Intent>)
        ensures
            batch.deep_view() == old(self)@,
            final(self)@ == Seq::<IntentModel>::empty(),
    {
        let mut batch: Vec<Intent> = Vec::new();
        core::mem::swap(&mut batch, &mut self.queue);
        proof {
            assert(self.queue.deep_view() =~= Seq::<IntentModel>::empty());
        }
        batch
    }

    fn push_intent(&mut self, intent: Intent)
        ensures
            final(self)@ == old(self)@.push(intent@),
    {
        self.queue.push(intent);
        proof {
            assert(self.queue.deep_view() =~= old(self).queue.deep_view().push(
                self.queue[old(self).queue.len() as int]@,
            ));
        }
    }
}

} // verus!
