//! The listing of the jump list: its entries, and the lines drawn for them.

use vstd::prelude::*;
use vstd::string::StringExecFns;
use crate::history::CAPACITY;
use crate::model::StateView;
use crate::panel::{panel_views, PanelRef, PanelView};
use crate::state::State;

verus! {

/// The colour of the selected entry, in the terminal's 256-colour palette.
pub const RED: u8 = 124;

/// The colour of the title, in the terminal's 256-colour palette.
pub const GREEN: u8 = 154;

/// One row of the listing.
#[derive(Debug)]
pub struct Entry {
    /// The position of the row, counted from 1.
    pub index: usize,
    /// The panel listed in the row.
    pub panel: PanelRef,
    /// Whether the cursor is on the row.
    pub is_selected: bool,
}

/// Mathematical value of an [`Entry`].
pub struct EntryView {
    pub index: int,
    pub panel: PanelView,
    pub is_selected: bool,
}

impl View for Entry {
    type V = EntryView;

    open spec fn view(&self) -> EntryView {
        EntryView { index: self.index as int, panel: self.panel@, is_selected: self.is_selected }
    }
}

/// The mathematical values of a list of entries, in order.
pub open spec fn entry_views(entries: Seq<Entry>) -> Seq<EntryView> {
    entries.map_values(|e: Entry| e@)
}

/// The text of each line.
pub open spec fn line_views(lines: Seq<String>) -> Seq<Seq<char>> {
    lines.map_values(|l: String| l@)
}

/// The character of a decimal digit.
pub open spec fn digit_char(d: nat) -> char {
    if d == 0 {
        '0'
    } else if d == 1 {
        '1'
    } else if d == 2 {
        '2'
    } else if d == 3 {
        '3'
    } else if d == 4 {
        '4'
    } else if d == 5 {
        '5'
    } else if d == 6 {
        '6'
    } else if d == 7 {
        '7'
    } else if d == 8 {
        '8'
    } else {
        '9'
    }
}

/// The decimal numeral of a number, without leading zeros.
pub open spec fn decimal(n: nat) -> Seq<char>
    decreases n,
{
    if n < 10 {
        seq![digit_char(n)]
    } else {
        decimal(n / 10).push(digit_char(n % 10))
    }
}

/// The text wrapped in the escape sequences that switch a terminal to bold
/// type in a colour of the 256-colour palette before it, and back to the
/// terminal's defaults after it.
pub open spec fn bold_in_colour(colour: u8, text: Seq<char>) -> Seq<char> {
    seq!['\x1b', '[', '1', ';', '3', '8', ';', '5', ';'] + decimal(colour as nat) + seq!['m']
        + text + seq!['\x1b', '[', '0', 'm']
}

/// The text of a row: its number, a full stop and a space, then the
/// panel's name, in bold red where the row is selected.
pub open spec fn row_text(entry: EntryView) -> Seq<char> {
    decimal(entry.index as nat) + seq!['.', ' '] + if entry.is_selected {
        bold_in_colour(RED, entry.panel.name)
    } else {
        entry.panel.name
    }
}

impl StateView {
    /// The rows of the listing: every entry of the jump list with its
    /// position, the one under the cursor marked.
    pub open spec fn entries(self) -> Seq<EntryView> {
        Seq::new(
            self.jump_list.len(),
            |i: int|
                EntryView {
                    index: i + 1,
                    panel: self.jump_list[i],
                    is_selected: i + 1 == self.selection,
                },
        )
    }

    /// The lines of the surface: the title, then one line for each row.
    pub open spec fn rendered(self) -> Seq<Seq<char>> {
        seq![bold_in_colour(GREEN, "Jump List\n"@)] + self.entries().map_values(
            |e: EntryView| row_text(e),
        )
    }
}

/// Paints the text bold in a colour of the 256-colour palette, through
/// `ansi_term`: the `ANSIString` that
/// `Style::new().fg(Colour::Fixed(colour)).bold().paint(text)` returns,
/// formatted by its `Display`. The contract is not proved. It states what
/// `ansi_term` writes for such a style: the prefix `ESC [ 1 ; 38 ; 5 ;`
/// with the colour's number and `m`, the text as it is, and the reset
/// `ESC [ 0 m`.
#[verifier::external_body]
pub(crate) fn color_bold(colour: u8, text: &str) -> (r: String)
    ensures
        r@ == bold_in_colour(colour, text@),
{
    format!("{}", ansi_term::Style::new().fg(ansi_term::Colour::Fixed(colour)).bold().paint(text))
}

/// The numeral of one decimal digit.
fn digit_str(d: usize) -> (r: &'static str)
    requires
        d < 10,
    ensures
        r@ == seq![digit_char(d as nat)],
{
    proof {
        reveal_strlit("0");
        reveal_strlit("1");
        reveal_strlit("2");
        reveal_strlit("3");
        reveal_strlit("4");
        reveal_strlit("5");
        reveal_strlit("6");
        reveal_strlit("7");
        reveal_strlit("8");
        reveal_strlit("9");
    }
    if d == 0 {
        "0"
    } else if d == 1 {
        "1"
    } else if d == 2 {
        "2"
    } else if d == 3 {
        "3"
    } else if d == 4 {
        "4"
    } else if d == 5 {
        "5"
    } else if d == 6 {
        "6"
    } else if d == 7 {
        "7"
    } else if d == 8 {
        "8"
    } else {
        "9"
    }
}

/// The decimal numeral of a number.
pub fn decimal_string(n: usize) -> (r: String)
    ensures
        r@ == decimal(n as nat),
    decreases n,
{
    if n < 10 {
        digit_str(n).to_owned()
    } else {
        let mut s = decimal_string(n / 10);
        s.append(digit_str(n % 10));
        s
    }
}

/// The line drawn for a row.
pub fn row_line(entry: &Entry) -> (r: String)
    ensures
        r@ == row_text(entry@),
{
    let mut line = decimal_string(entry.index);
    proof {
        reveal_strlit(". ");
    }
    line.append(". ");
    if entry.is_selected {
        let painted = color_bold(RED, entry.panel.name.as_str());
        line.append(painted.as_str());
    } else {
        line.append(entry.panel.name.as_str());
    }
    line
}

impl State {
    /// The rows of the listing, in the order of the jump list.
    pub fn entries(&self) -> (r: Vec<Entry>)
        ensures
            entry_views(r@) == self@.entries(),
    {
        let list = self.jump_list();
        let selection = self.selection();
        let mut rows: Vec<Entry> = Vec::new();
        let mut i: usize = 0;
        while i < list.len()
            invariant
                i <= list.len(),
                list.len() <= CAPACITY,
                rows.len() == i,
                forall|j: int| 0 <= j < i ==> (#[trigger] rows@[j])@ == self@.entries()[j],
                panel_views(list@) == self@.jump_list,
                selection == self@.selection,
            decreases list.len() - i,
        {
            rows.push(Entry { index: i + 1, panel: list[i].clone(), is_selected: i + 1 == selection });
            i += 1;
        }
        rows
    }

    /// The lines to draw: the title, then one line for each entry of the
    /// jump list, the selected one in bold red.
    pub fn render(&self) -> (r: Vec<String>)
        ensures
            line_views(r@) == self@.rendered(),
    {
        let rows = self.entries();
        let mut lines: Vec<String> = Vec::new();
        lines.push(color_bold(GREEN, "Jump List\n"));
        let ghost title = seq![bold_in_colour(GREEN, "Jump List\n"@)];
        let ghost texts = self@.entries().map_values(|e: EntryView| row_text(e));
        let mut i: usize = 0;
        while i < rows.len()
            invariant
                i <= rows.len(),
                entry_views(rows@) == self@.entries(),
                texts == self@.entries().map_values(|e: EntryView| row_text(e)),
                line_views(lines@) == title + texts.take(i as int),
            decreases rows.len() - i,
        {
            let line = row_line(&rows[i]);
            let ghost drawn = line_views(lines@);
            lines.push(line);
            assert(line_views(lines@) =~= drawn.push(line@));
            i += 1;
        }
        lines
    }
}

} // verus!
