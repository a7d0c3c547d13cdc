//! The editor control loop as a verified state machine.
//!
//! The editor owns the caret position and the quit flag. Each loop iteration
//! redraws the current state as one committed batch of drawing intents, then
//! interprets one input event: recognized navigation keys move the caret,
//! clamped to the current geometry; the quit combination (control and `q`,
//! with no other modifier) sets the quit flag irreversibly; everything else
//! is ignored. The embedding binary reads the real events, hands them over as
//! plain values, and performs the committed batches.

use vstd::prelude::*;

pub mod terminal;
pub mod view;

use crate::editor::terminal::{Intent, IntentModel, Terminal, TerminalPosition, TerminalSize};

verus! {

/// The caret position in cell coordinates: column `x`, row `y`.
#[derive(Clone, Copy, PartialEq, Eq, Structural, Debug)]
pub struct Location {
    pub x: usize,
    pub y: usize,
}

impl Default for Location {
    /// The origin cell (0, 0).
    fn default() -> (loc: Location)
        ensures
            loc.x == 0,
            loc.y == 0,
    {
        Location { x: 0, y: 0 }
    }
}

/// A named key, the library's own model of what the host keyboard reported.
/// `Other` stands for every key the editor does not react to.
#[derive(Clone, Copy, PartialEq, Eq, Structural, Debug)]
pub enum Key {
    Up,
    Down,
    Left,
    Right,
    Home,
    End,
    PageUp,
    PageDown,
    Tab,
    BackTab,
    Char(char),
    Other,
}

/// The modifier keys active for one key event.
#[derive(Clone, Copy, PartialEq, Eq, Structural, Debug)]
pub struct Modifiers {
    pub shift: bool,
    pub control: bool,
    pub alt: bool,
    pub super_key: bool,
    pub hyper: bool,
    pub meta: bool,
}

impl Modifiers {
    /// Exactly the control modifier and nothing else: the modifier set of the
    /// quit combination.
    pub open spec fn is_control_only(self) -> bool {
        self.control && !self.shift && !self.alt && !self.super_key && !self.hyper && !self.meta
    }

    /// Runtime test for `is_control_only`.
    pub fn control_only(&self) -> (b: bool)
        ensures
            b == self.is_control_only(),
    {
        self.control && !self.shift && !self.alt && !self.super_key && !self.hyper && !self.meta
    }

    /// No modifier at all.
    pub fn none() -> (m: Modifiers)
        ensures
            m == (Modifiers {
                shift: false,
                control: false,
                alt: false,
                super_key: false,
                hyper: false,
                meta: false,
            }),
    {
        Modifiers {
            shift: false,
            control: false,
            alt: false,
            super_key: false,
            hyper: false,
            meta: false,
        }
    }
}

/// One input event as the editor sees it: a key with its modifiers and
/// whether this is a press (releases and repeats must not drive state), or
/// anything else the host may report.
#[derive(Clone, Copy, PartialEq, Eq, Structural, Debug)]
pub enum Event {
    Key { code: Key, modifiers: Modifiers, pressed: bool },
    Other,
}

/// Saturating decrement: `v - d`, floored at zero.
pub open spec fn sat_dec(v: int, d: int) -> int {
    if v >= d {
        v - d
    } else {
        0
    }
}

/// Increment capped at the machine's largest unsigned value.
pub open spec fn capped_add(v: int, d: int) -> int {
    if v + d > usize::MAX {
        usize::MAX as int
    } else {
        v + d
    }
}

/// The smaller of two integers.
pub open spec fn smaller(a: int, b: int) -> int {
    if a <= b {
        a
    } else {
        b
    }
}

/// The column after one key, for a terminal `width` columns wide.
pub open spec fn moved_x(x: int, key: Key, width: int) -> int {
    match key {
        Key::Left => sat_dec(x, 1),
        Key::Right => smaller(sat_dec(width, 1), capped_add(x, 1)),
        Key::Home => 0,
        Key::End => sat_dec(width, 1),
        Key::Tab => smaller(sat_dec(width, 1), capped_add(x, 4)),
        Key::BackTab => sat_dec(x, 4),
        _ => x,
    }
}

/// The row after one key, for a terminal `height` rows tall. Page-down is
/// deliberately not clamped to the last row: it only saturates at the
/// machine's largest unsigned value.
pub open spec fn moved_y(y: int, key: Key, height: int) -> int {
    match key {
        Key::Up => sat_dec(y, 1),
        Key::Down => smaller(sat_dec(height, 1), capped_add(y, 1)),
        Key::PageUp => sat_dec(y, sat_dec(height, 1)),
        Key::PageDown => capped_add(y, sat_dec(height, 1)),
        _ => y,
    }
}

/// The caret after one key under the given geometry.
pub open spec fn moved_location(loc: Location, key: Key, size: TerminalSize) -> Location {
    Location {
        x: moved_x(loc.x as int, key, size.width as int) as usize,
        y: moved_y(loc.y as int, key, size.height as int) as usize,
    }
}

/// A key the caret reacts to.
pub open spec fn is_navigation(key: Key) -> bool {
    match key {
        Key::Char(_) => false,
        Key::Other => false,
        _ => true,
    }
}

/// The designated quit combination: pressing `q` with exactly the control
/// modifier held.
pub open spec fn is_quit_event(ev: Event) -> bool {
    match ev {
        Event::Key { code, modifiers, pressed } => pressed && code == Key::Char('q')
            && modifiers.is_control_only(),
        Event::Other => false,
    }
}

/// A pressed navigation key.
pub open spec fn is_move_event(ev: Event) -> bool {
    match ev {
        Event::Key { code, modifiers, pressed } => pressed && is_navigation(code),
        Event::Other => false,
    }
}

/// The key of a key event; `Other` for anything else.
pub open spec fn event_key(ev: Event) -> Key {
    match ev {
        Event::Key { code, modifiers, pressed } => code,
        Event::Other => Key::Other,
    }
}

/// The editor: the quit flag and the caret position. Created running, with
/// the caret at the origin.
pub struct Editor {
    should_quit: bool,
    location: Location,
}

impl Default for Editor {
    /// A running editor with the caret at the origin.
    fn default() -> (ed: Editor)
        ensures
            !ed.quitting(),
            ed.caret() == (Location { x: 0, y: 0 }),
    {
        Editor { should_quit: false, location: Location { x: 0, y: 0 } }
    }
}

/// The editor state one input event leads to: the quit combination sets the
/// quit flag, a pressed navigation key moves the caret under the given
/// geometry, and every other event leaves the state untouched.
pub closed spec fn eval_spec(ed: Editor, ev: Event, size: TerminalSize) -> Editor {
    if is_quit_event(ev) {
        Editor { should_quit: true, location: ed.location }
    } else if is_move_event(ev) {
        Editor {
            should_quit: ed.should_quit,
            location: moved_location(ed.location, event_key(ev), size),
        }
    } else {
        ed
    }
}

/// What one event does to the editor, stated over the public view: the quit
/// flag is set exactly by the quit combination and never cleared; a pressed
/// navigation key moves the caret and nothing else; every other event leaves
/// the whole state unchanged.
pub proof fn lemma_eval_spec_facts(ed: Editor, ev: Event, size: TerminalSize)
    ensures
        eval_spec(ed, ev, size).quitting() == (ed.quitting() || is_quit_event(ev)),
        is_quit_event(ev) ==> eval_spec(ed, ev, size).caret() == ed.caret(),
        is_move_event(ev) ==> eval_spec(ed, ev, size).caret() == moved_location(
            ed.caret(), event_key(ev), size),
        !is_quit_event(ev) && !is_move_event(ev) ==> eval_spec(ed, ev, size) == ed,
{
}

/// The farewell text drawn once after the quit combination.
pub open spec fn farewell_view() -> Seq<char> {
    "Goodbye.\r\n"@
}

/// The one batch of intents a frame commits for the given state: hide the
/// cursor, go to the origin, then either the farewell content (when
/// quitting) or the rendered rows with the cursor put back on the caret,
/// and finally show the cursor again.
pub open spec fn frame_spec(ed: Editor, size: TerminalSize) -> Seq<IntentModel> {
    seq![IntentModel::Hide, IntentModel::MoveTo { col: 0, row: 0 }] + (if ed.quitting() {
        seq![IntentModel::ClearScreen, IntentModel::Print { text: farewell_view() }]
    } else {
        view::render_spec(size) + seq![
            IntentModel::MoveTo { col: ed.caret().x as int, row: ed.caret().y as int },
        ]
    }) + seq![IntentModel::Show]
}

impl Editor {
    /// Whether the editor has decided to quit.
    pub closed spec fn quitting(&self) -> bool {
        self.should_quit
    }

    /// The current caret position.
    pub closed spec fn caret(&self) -> Location {
        self.location
    }

    /// Runtime view of the quit flag.
    pub fn should_quit(&self) -> (b: bool)
        ensures
            b == self.quitting(),
    {
        self.should_quit
    }

    /// Runtime view of the caret position.
    pub fn location(&self) -> (loc: Location)
        ensures
            loc == self.caret(),
    {
        self.location
    }

    /// Moves the caret for one navigation key, clamped to the given geometry
    /// with saturation at zero; never touches the quit flag.
    pub fn move_caret(&mut self, key: Key, size: TerminalSize)
        ensures
            final(self).caret() == moved_location(old(self).caret(), key, size),
            final(self).quitting() == old(self).quitting(),
    {
        let mut x = self.location.x;
        let mut y = self.location.y;
        let right_edge = size.width.saturating_sub(1);
        let bottom_edge = size.height.saturating_sub(1);
        match key {
            Key::Up => {
                y = y.saturating_sub(1);
            },
            Key::Down => {
                let next = y.saturating_add(1);
                y = if next < bottom_edge {
                    next
                } else {
                    bottom_edge
                };
            },
            Key::Left => {
                x = x.saturating_sub(1);
            },
            Key::Right => {
                let next = x.saturating_add(1);
                x = if next < right_edge {
                    next
                } else {
                    right_edge
                };
            },
            Key::Home => {
                x = 0;
            },
            Key::End => {
                x = right_edge;
            },
            Key::Tab => {
                let next = x.saturating_add(4);
                x = if next < right_edge {
                    next
                } else {
                    right_edge
                };
            },
            Key::BackTab => {
                x = x.saturating_sub(4);
            },
            Key::PageUp => {
                y = y.saturating_sub(bottom_edge);
            },
            Key::PageDown => {
                y = y.saturating_add(bottom_edge);
            },
            Key::Char(_) => {},
            Key::Other => {},
        }
        self.location = Location { x, y };
    }

    /// Interprets one input event: only presses drive state; the quit
    /// combination quits, navigation keys move the caret, and everything
    /// else is silently ignored.
    pub fn evaluate_event(&mut self, event: &Event, size: TerminalSize)
        ensures
            *final(self) == eval_spec(*old(self), *event, size),
            final(self).quitting() == (old(self).quitting() || is_quit_event(*event)),
            is_move_event(*event) ==> final(self).caret() == moved_location(
                old(self).caret(), event_key(*event), size),
            !is_move_event(*event) ==> final(self).caret() == old(self).caret(),
    {
        match event {
            Event::Key { code, modifiers, pressed: true } => {
                match code {
                    Key::Char(c) => {
                        if *c == 'q' && modifiers.control_only() {
                            self.should_quit = true;
                        }
                    },
                    Key::Up | Key::Down | Key::Left | Key::Right | Key::Home | Key::End
                        | Key::PageUp | Key::PageDown | Key::Tab | Key::BackTab => {
                        self.move_caret(*code, size);
                    },
                    Key::Other => {},
                }
            },
            _ => {},
        }
    }

    /// Draws one frame for the current state and commits it: the returned
    /// batch is everything that was pending plus exactly the frame's
    /// intents, and the queue is left empty for the next frame. The batch is
    /// a function of the state and geometry alone, so redrawing an unchanged
    /// state commits an identical batch.
    pub fn refresh_screen(&self, term: &mut Terminal, size: TerminalSize) -> (batch: Vec<Intent>)
        ensures
            batch.deep_view() == old(term)@ + frame_spec(*self, size),
            final(term)@ == Seq::<IntentModel>::empty(),
    {
        term.hide_cursor();
        term.move_to_start();
        if self.should_quit {
            term.clear_screen();
            term.print("Goodbye.\r\n");
        } else {
            view::render(term, size);
            term.move_cursor_to(TerminalPosition { col: self.location.x, row: self.location.y });
        }
        term.show_cursor();
        proof {
            assert(term@ =~= old(term)@ + frame_spec(*self, size));
        }
        term.execute()
    }
}

/// The control loop over a script of events, as a mathematical function:
/// each iteration draws one frame for the current state; the loop stops
/// right after the frame drawn for a quitting state (so the farewell frame
/// is always the last one) or when the script is exhausted, and otherwise
/// consumes one event. Returns the frames in order and the final state.
pub open spec fn run_spec(ed: Editor, size: TerminalSize, events: Seq<Event>) -> (Seq<
    Seq<IntentModel>,
>, Editor)
    decreases events.len(),
{
    let frame = frame_spec(ed, size);
    if ed.quitting() || events.len() == 0 {
        (seq![frame], ed)
    } else {
        let next = eval_spec(ed, events[0], size);
        let rest = run_spec(next, size, events.drop_first());
        (seq![frame] + rest.0, rest.1)
    }
}

impl Editor {
    /// Runs the control loop over a script of input events: per iteration,
    /// draw and commit one frame, exit if quitting, otherwise interpret the
    /// next event; the loop also ends when the script runs out. Returns the
    /// committed frames in order. The geometry is fixed for the whole run.
    pub fn run(&mut self, size: TerminalSize, events: &Vec<Event>) -> (frames: Vec<Vec<Intent>>)
        ensures
            frames.deep_view() == run_spec(*old(self), size, events@).0,
            *final(self) == run_spec(*old(self), size, events@).1,
    {
        let mut frames: Vec<Vec<Intent>> = Vec::new();
        let mut term = Terminal::new();
        let mut i: usize = 0;
        proof {
            assert(events@.skip(0) =~= events@);
            assert(frames.deep_view() =~= Seq::<Seq<IntentModel>>::empty());
        }
        loop
            invariant_except_break
                i <= events@.len(),
                term@ == Seq::<IntentModel>::empty(),
                run_spec(*old(self), size, events@).0 == frames.deep_view() + run_spec(
                    *self, size, events@.skip(i as int)).0,
                run_spec(*old(self), size, events@).1 == run_spec(
                    *self, size, events@.skip(i as int)).1,
            ensures
                frames.deep_view() == run_spec(*old(self), size, events@).0,
                *self == run_spec(*old(self), size, events@).1,
            decreases events@.len() - i,
        {
            let ghost ed0 = *self;
            let ghost frames0 = frames.deep_view();
            let ghost remaining = events@.skip(i as int);
            let batch = self.refresh_screen(&mut term, size);
            frames.push(batch);
            proof {
                assert(batch.deep_view() =~= frame_spec(ed0, size));
                assert(frames.deep_view() =~= frames0.push(frame_spec(ed0, size)));
            }
            if self.should_quit() {
                proof {
                    assert(run_spec(ed0, size, remaining).0 =~~= seq![frame_spec(ed0, size)]);
                    assert(frames.deep_view() =~~= frames0 + run_spec(ed0, size, remaining).0);
                }
                break;
            }
            if i >= events.len() {
                proof {
                    assert(remaining.len() == 0);
                    assert(run_spec(ed0, size, remaining).0 =~~= seq![frame_spec(ed0, size)]);
                    assert(frames.deep_view() =~~= frames0 + run_spec(ed0, size, remaining).0);
                }
                break;
            }
            let ev = events[i];
            self.evaluate_event(&ev, size);
            i = i + 1;
            proof {
                assert(remaining[0] == events@[i - 1]);
                assert(remaining.drop_first() =~= events@.skip(i as int));
                assert(run_spec(ed0, size, remaining).0 =~~= seq![frame_spec(ed0, size)]
                    + run_spec(*self, size, events@.skip(i as int)).0);
                assert(frames0 + run_spec(ed0, size, remaining).0 =~~= frames.deep_view()
                    + run_spec(*self, size, events@.skip(i as int)).0);
            }
        }
        frames
    }
}

/// The caret a sequence of keys leads to, applied left to right under a
/// fixed geometry.
pub open spec fn apply_keys(loc: Location, keys: Seq<Key>, size: TerminalSize) -> Location
    decreases keys.len(),
{
    if keys.len() == 0 {
        loc
    } else {
        apply_keys(moved_location(loc, keys[0], size), keys.drop_first(), size)
    }
}

/// One key keeps the caret's column inside the geometry, whatever the key.
pub proof fn lemma_move_preserves_column_bounds(loc: Location, key: Key, size: TerminalSize)
    requires
        1 <= size.width,
        loc.x < size.width,
    ensures
        moved_location(loc, key, size).x < size.width,
{
}

/// One key other than page-down keeps the caret inside the geometry.
/// Page-down is excluded: by design it is not clamped to the last row, so it
/// can push the caret below the visible rows.
pub proof fn lemma_move_preserves_bounds(loc: Location, key: Key, size: TerminalSize)
    requires
        1 <= size.width,
        1 <= size.height,
        loc.x < size.width,
        loc.y < size.height,
        key != Key::PageDown,
    ensures
        moved_location(loc, key, size).x < size.width,
        moved_location(loc, key, size).y < size.height,
{
}

/// For every geometry of at least one cell and every caret inside it, any
/// sequence of movement keys without page-down leaves the caret inside the
/// geometry: `0 <= column < width` and `0 <= row < height` throughout.
pub proof fn lemma_caret_stays_in_bounds(loc: Location, keys: Seq<Key>, size: TerminalSize)
    requires
        1 <= size.width,
        1 <= size.height,
        loc.x < size.width,
        loc.y < size.height,
        forall|i: int| 0 <= i < keys.len() ==> keys[i] != Key::PageDown,
    ensures
        apply_keys(loc, keys, size).x < size.width,
        apply_keys(loc, keys, size).y < size.height,
    decreases keys.len(),
{
    if keys.len() > 0 {
        lemma_move_preserves_bounds(loc, keys[0], size);
        assert forall|i: int| 0 <= i < keys.drop_first().len() implies keys.drop_first()[i]
            != Key::PageDown by {
            assert(keys.drop_first()[i] == keys[i + 1]);
        }
        lemma_caret_stays_in_bounds(moved_location(loc, keys[0], size), keys.drop_first(), size);
    }
}

/// One interpreted event keeps the caret inside the geometry, unless it is
/// a pressed page-down key: the quit combination and ignored events leave
/// the caret alone, and every other navigation key clamps to the edges.
pub proof fn lemma_eval_preserves_bounds(ed: Editor, ev: Event, size: TerminalSize)
    requires
        1 <= size.width,
        1 <= size.height,
        ed.caret().x < size.width,
        ed.caret().y < size.height,
        !(is_move_event(ev) && event_key(ev) == Key::PageDown),
    ensures
        eval_spec(ed, ev, size).caret().x < size.width,
        eval_spec(ed, ev, size).caret().y < size.height,
{
    if is_move_event(ev) && !is_quit_event(ev) {
        lemma_move_preserves_bounds(ed.caret(), event_key(ev), size);
    }
}

/// Redrawing is idempotent: the committed frame is a function of the state
/// and geometry alone, so two draws of one unchanged state commit identical
/// batches.
pub proof fn lemma_render_idempotent(
    ed: Editor,
    size: TerminalSize,
    first: Seq<IntentModel>,
    second: Seq<IntentModel>,
)
    requires
        first == frame_spec(ed, size),
        second == frame_spec(ed, size),
    ensures
        first == second,
{
}

/// The quit sequence: from a running state, the quit combination sets the
/// quit flag, exactly one more frame is drawn — the frame of the quitting
/// state, which shows the farewell content — and the loop then terminates;
/// no frame follows it, whatever events remain in the script.
pub proof fn lemma_quit_sequence(ed: Editor, size: TerminalSize, events: Seq<Event>)
    requires
        !ed.quitting(),
        events.len() >= 1,
        is_quit_event(events[0]),
    ensures
        ({
            let outcome = run_spec(ed, size, events);
            let after = eval_spec(ed, events[0], size);
            &&& after.quitting()
            &&& outcome.0 == seq![frame_spec(ed, size), frame_spec(after, size)]
            &&& outcome.1 == after
        }),
{
    lemma_eval_spec_facts(ed, events[0], size);
    let after = eval_spec(ed, events[0], size);
    assert(run_spec(after, size, events.drop_first()).0 == seq![frame_spec(after, size)]);
    assert(run_spec(ed, size, events).0 =~~= seq![
        frame_spec(ed, size),
        frame_spec(after, size),
    ]);
}

/// At the right edge, Right leaves the column unchanged.
pub proof fn lemma_right_at_edge(loc: Location, size: TerminalSize)
    requires
        1 <= size.width,
        loc.x == size.width - 1,
    ensures
        moved_location(loc, Key::Right, size).x == loc.x,
{
}

/// At column zero, Left leaves the column unchanged: no underflow.
pub proof fn lemma_left_at_zero(loc: Location, size: TerminalSize)
    requires
        loc.x == 0,
    ensures
        moved_location(loc, Key::Left, size).x == 0,
{
}

/// An unrecognized event — neither the quit combination nor a pressed
/// navigation key — leaves the caret and the quit flag unchanged, and the
/// next frame is therefore identical to the previous one.
pub proof fn lemma_ignored_event(ed: Editor, ev: Event, size: TerminalSize)
    requires
        !is_quit_event(ev),
        !is_move_event(ev),
    ensures
        eval_spec(ed, ev, size) == ed,
        frame_spec(eval_spec(ed, ev, size), size) == frame_spec(ed, size),
{
}

} // verus!
