//! The frame renderer.
//!
//! Each frame is recomputed from the current geometry alone: every row is
//! cleared and then drawn, with a placeholder marker on ordinary rows and a
//! centered welcome banner on the row a third of the way down. The renderer
//! holds no state across frames, so a host resize is reflected immediately.

use vstd::prelude::*;
use vstd::string::*;

use crate::editor::terminal::{IntentModel, Terminal, TerminalSize};

verus! {

/// The fixed greeting shown on the banner row.
pub open spec fn greeting_view() -> Seq<char> {
    "hecto text editor -- version 0.1.0"@
}

/// The greeting as a string slice; its view is `greeting_view`.
pub fn greeting() -> (s: &'static str)
    ensures
        s@ == greeting_view(),
{
    "hecto text editor -- version 0.1.0"
}

/// The banner row index for a given height: integer division by three.
pub open spec fn banner_row(height: int) -> int {
    height / 3
}

/// The banner line for a given width: one marker cell, then `padding - 1`
/// spaces (saturating at zero) where `padding = max(0, width - len) / 2`,
/// then the greeting, the whole truncated to at most `width` cells.
pub open spec fn welcome_line_spec(width: int) -> Seq<char> {
    let msg = greeting_view();
    let padding: int = if width >= msg.len() {
        (width - msg.len()) / 2
    } else {
        0
    };
    let spaces: int = if padding >= 1 {
        padding - 1
    } else {
        0
    };
    let full = seq!['~'] + Seq::new(spaces as nat, |j: int| ' ') + msg;
    if full.len() <= width {
        full
    } else {
        full.take(width)
    }
}

/// Builds the banner line for `width` cells.
pub fn build_welcome_line(width: usize) -> (s: String)
    ensures
        s@ == welcome_line_spec(width as int),
{
    let msg = greeting();
    let len = msg.unicode_len();
    let padding = width.saturating_sub(len) / 2;
    let spaces = padding.saturating_sub(1);
    let mut line = String::from_str("~");
    proof {
        reveal_strlit("~");
        reveal_strlit(" ");
        assert(line@ =~= seq!['~'] + Seq::new(0nat, |j: int| ' '));
    }
    let mut i: usize = 0;
    while i < spaces
        invariant
            i <= spaces,
            line@ == seq!['~'] + Seq::new(i as nat, |j: int| ' '),
        decreases spaces - i,
    {
        line.append(" ");
        i += 1;
        proof {
            reveal_strlit(" ");
            assert(line@ =~= seq!['~'] + Seq::new(i as nat, |j: int| ' '));
        }
    }
    line.append(msg);
    let ghost full = seq!['~'] + Seq::new(spaces as nat, |j: int| ' ') + greeting_view();
    proof {
        assert(line@ =~= full);
    }
    let total = line.as_str().unicode_len();
    if width < total {
        let truncated = line.as_str().substring_char(0, width);
        let banner = String::from_str(truncated);
        proof {
            assert(banner@ =~= welcome_line_spec(width as int));
        }
        banner
    } else {
        proof {
            assert(line@ =~= welcome_line_spec(width as int));
        }
        line
    }
}

/// The banner line never exceeds the terminal width, even when the computed
/// padding and greeting together would: it is truncated to `width` cells.
pub proof fn lemma_banner_never_exceeds_width(width: int)
    requires
        width >= 0,
    ensures
        welcome_line_spec(width).len() <= width,
{
}

/// Exact centering: when the width leaves room, a greeting of length `len`
/// on `width` cells is preceded by exactly `(width - len) / 2` leading
/// cells — the marker and then `(width - len) / 2 - 1` spaces — and is not
/// truncated.
pub proof fn lemma_banner_centering(width: int)
    requires
        width >= greeting_view().len() + 2,
    ensures
        ({
            let msg = greeting_view();
            let padding = (width - msg.len()) / 2;
            let line = welcome_line_spec(width);
            &&& line.len() == padding + msg.len()
            &&& line.len() <= width
            &&& line[0] == '~'
            &&& forall|i: int| 1 <= i < padding ==> line[i] == ' '
            &&& line.subrange(padding, line.len() as int) == msg
        }),
{
    let msg = greeting_view();
    let padding = (width - msg.len()) / 2;
    let spaces = padding - 1;
    let full = seq!['~'] + Seq::new(spaces as nat, |j: int| ' ') + msg;
    assert(padding >= 1) by {
        assert(width - msg.len() >= 2);
    }
    assert(full.len() == padding + msg.len());
    assert(2 * padding <= width - msg.len());
    assert(full.len() <= width);
    assert(welcome_line_spec(width) == full);
    assert(full[0] == '~');
    assert forall|i: int| 1 <= i < padding implies full[i] == ' ' by {
        assert(full[i] == Seq::new(spaces as nat, |j: int| ' ')[i - 1]);
    }
    assert(full.subrange(padding, full.len() as int) =~= msg);
}

/// The text drawn on row `r`: the banner on the banner row, the placeholder
/// marker elsewhere, followed by a line break except after the final row.
pub open spec fn row_line_spec(width: int, height: int, r: int) -> Seq<char> {
    let content = if r == banner_row(height) {
        welcome_line_spec(width)
    } else {
        seq!['~']
    };
    if r + 1 < height {
        content + seq!['\r', '\n']
    } else {
        content
    }
}

/// Builds the text for row `r`.
pub fn build_row_line(size: TerminalSize, r: usize) -> (s: String)
    requires
        r < size.height,
    ensures
        s@ == row_line_spec(size.width as int, size.height as int, r as int),
{
    let mut content = if r == size.height / 3 {
        build_welcome_line(size.width)
    } else {
        let marker = String::from_str("~");
        proof {
            reveal_strlit("~");
            assert(marker@ =~= seq!['~']);
        }
        marker
    };
    if r + 1 < size.height {
        content.append("\r\n");
        proof {
            reveal_strlit("\r\n");
            assert(content@ =~= row_line_spec(size.width as int, size.height as int, r as int));
        }
    }
    content
}

/// The intents one frame of rendering queues for the first `upto` rows:
/// for each row in order, clear the line, then print the row's text.
pub open spec fn render_upto_spec(width: int, height: int, upto: int) -> Seq<IntentModel>
    decreases upto,
{
    if upto <= 0 {
        Seq::empty()
    } else {
        render_upto_spec(width, height, upto - 1) + seq![
            IntentModel::ClearLine,
            IntentModel::Print { text: row_line_spec(width, height, upto - 1) },
        ]
    }
}

/// The intents one frame of rendering queues for the whole geometry.
pub open spec fn render_spec(size: TerminalSize) -> Seq<IntentModel> {
    render_upto_spec(size.width as int, size.height as int, size.height as int)
}

/// Queues one frame of visual content for the current geometry: every row is
/// cleared and redrawn from scratch.
pub fn render(term: &mut Terminal, size: TerminalSize)
    ensures
        final(term)@ == old(term)@ + render_spec(size),
{
    proof {
        assert(term@ =~= old(term)@ + render_upto_spec(
            size.width as int, size.height as int, 0));
    }
    let mut r: usize = 0;
    while r < size.height
        invariant
            r <= size.height,
            term@ == old(term)@ + render_upto_spec(
                size.width as int, size.height as int, r as int),
        decreases size.height - r,
    {
        term.clear_line();
        let line = build_row_line(size, r);
        term.print(line.as_str());
        r += 1;
        proof {
            assert(term@ =~= old(term)@ + render_upto_spec(
                size.width as int, size.height as int, r as int));
        }
    }
}

} // verus!
