use crate::filter::{Program, ProgramModel};
use crate::text::{pad_right, padded, str_truncate, truncated};
use crate::timestamp::Timestamp;
use vstd::prelude::*;
use vstd::string::*;

verus! {

/// Characters that the channel column holds, its two margins apart.
pub const CHANNEL_WIDTH: usize = 14;

/// Characters that the title column holds, its two margins apart: a longer title is cut.
pub const TITLE_WIDTH: usize = 55;

/// Characters that the column of times holds, its two margins apart.
pub const TIMES_WIDTH: usize = 13;

/// A horizontal rule of `width` characters.
pub open spec fn rule(width: nat) -> Seq<char> {
    Seq::new(width, |i: int| '─')
}

/// A horizontal border of the table: a rule over each column and its margins, with `left`
/// and `right` at the ends and `joint` between two columns.
pub open spec fn border(left: Seq<char>, joint: Seq<char>, right: Seq<char>) -> Seq<char> {
    left + rule((CHANNEL_WIDTH + 2) as nat) + joint + rule((TITLE_WIDTH + 2) as nat) + joint
        + rule((TIMES_WIDTH + 2) as nat) + right
}

/// A line of the table that holds text: each cell between vertical bars, with one space of
/// margin on either side. The first two cells are filled up to the width of their column;
/// the third is taken as it comes. No cell is cut here: one that is too long makes its line
/// longer than the others.
pub open spec fn row(channel: Seq<char>, title: Seq<char>, times: Seq<char>) -> Seq<char> {
    "│ "@ + padded(channel, CHANNEL_WIDTH as nat) + " │ "@ + padded(title, TITLE_WIDTH as nat)
        + " │ "@ + times + " │"@
}

/// The line that names the columns.
pub open spec fn header_row() -> Seq<char> {
    row("Chaine"@, "Titre"@, padded("Horaires"@, TIMES_WIDTH as nat))
}

/// The decimal digit for `d`, where `d` is below ten.
pub open spec fn digit(d: nat) -> char {
    ((48 + d) as u8) as char
}

/// `n` in two decimal digits, where `n` is below a hundred.
pub open spec fn two_digits(n: nat) -> Seq<char> {
    seq![digit(n / 10), digit(n % 10)]
}

/// The wall-clock reading of `t` as hours and minutes, two digits each, around a colon.
pub open spec fn clock_text(t: Timestamp) -> Seq<char> {
    two_digits(t.hour() as nat) + seq![':'] + two_digits(t.minute() as nat)
}

/// The cell that tells when a programme runs: its start, a dash between two spaces, its end.
pub open spec fn times_text(start: Timestamp, end: Timestamp) -> Seq<char> {
    clock_text(start) + " - "@ + clock_text(end)
}

/// The line of the table for `p`: its channel, its title cut to the width of the title
/// column, and its times.
pub open spec fn program_row(p: ProgramModel) -> Seq<char> {
    row(p.channel, truncated(p.title, TITLE_WIDTH as nat), times_text(p.start, p.end))
}

/// The lines of the table for `programs`: a top border, the header, a separator, one line
/// for each programme in the order given, and a bottom border.
pub open spec fn table_lines(programs: Seq<ProgramModel>) -> Seq<Seq<char>> {
    seq![border("┌"@, "┬"@, "┐"@), header_row(), border("├"@, "┼"@, "┤"@)] + programs.map_values(
        |p: ProgramModel| program_row(p),
    ) + seq![border("└"@, "┴"@, "┘"@)]
}

/// A table has four lines more than it has programmes: with none, it is the two outer
/// borders, the header and the separator.
pub proof fn lemma_table_length(programs: Seq<ProgramModel>)
    ensures
        table_lines(programs).len() == programs.len() + 4,
        programs.len() == 0 ==> table_lines(programs) == seq![
            border("┌"@, "┬"@, "┐"@),
            header_row(),
            border("├"@, "┼"@, "┤"@),
            border("└"@, "┴"@, "┘"@),
        ],
{
}

/// The line of a programme is as wide as the borders, 92 characters, where the name of its
/// channel fits its column. A longer name is not cut: it makes the line longer by what it
/// has too much. The title never does, as it is cut to its column.
pub proof fn lemma_program_row_width(p: ProgramModel)
    ensures
        border("┌"@, "┬"@, "┐"@).len() == 92,
        p.channel.len() <= CHANNEL_WIDTH ==> program_row(p).len() == 92,
        p.channel.len() > CHANNEL_WIDTH ==> program_row(p).len() == 92 + p.channel.len()
            - CHANNEL_WIDTH,
{
    reveal_strlit("┌");
    reveal_strlit("┬");
    reveal_strlit("┐");
    reveal_strlit("│ ");
    reveal_strlit(" │ ");
    reveal_strlit(" │");
    reveal_strlit(" - ");
}

fn rule_text(width: usize) -> (text: String)
    ensures
        text@ == rule(width as nat),
{
    let mut text = String::new();
    let mut count: usize = 0;
    while count < width
        invariant
            count <= width,
            text@ == rule(count as nat),
        decreases width - count,
    {
        proof {
            reveal_strlit("─");
        }
        text.append("─");
        count += 1;
    }
    text
}

fn border_text(left: &str, joint: &str, right: &str) -> (text: String)
    ensures
        text@ == border(left@, joint@, right@),
{
    let mut text = left.to_owned();
    text.append(rule_text(CHANNEL_WIDTH + 2).as_str());
    text.append(joint);
    text.append(rule_text(TITLE_WIDTH + 2).as_str());
    text.append(joint);
    text.append(rule_text(TIMES_WIDTH + 2).as_str());
    text.append(right);
    text
}

fn row_text(channel: &str, title: &str, times: &str) -> (text: String)
    ensures
        text@ == row(channel@, title@, times@),
{
    let mut text = "│ ".to_owned();
    text.append(pad_right(channel, CHANNEL_WIDTH).as_str());
    text.append(" │ ");
    text.append(pad_right(title, TITLE_WIDTH).as_str());
    text.append(" │ ");
    text.append(times);
    text.append(" │");
    text
}

fn digit_text(d: u32) -> (text: &'static str)
    requires
        d < 10,
    ensures
        text@ == seq![digit(d as nat)],
{
    proof {
        reveal_strlit("0");
        reveal_strlit("1");
        reveal_strlit("2");
        reveal_strlit("3");
        reveal_strlit("4");
        reveal_strlit("5");
        reveal_strlit("6");
        reveal_strlit("7");
        reveal_strlit("8");
        reveal_strlit("9");
    }
    match d {
        0 => "0",
        1 => "1",
        2 => "2",
        3 => "3",
        4 => "4",
        5 => "5",
        6 => "6",
        7 => "7",
        8 => "8",
        _ => "9",
    }
}

/// The wall-clock reading of `t` as text: hours and minutes, two digits each.
pub fn clock(t: &Timestamp) -> (text: String)
    ensures
        text@ == clock_text(*t),
{
    let hour = t.hour();
    let minute = t.minute();
    let mut text = digit_text(hour / 10).to_owned();
    text.append(digit_text(hour % 10));
    proof {
        reveal_strlit(":");
    }
    text.append(":");
    text.append(digit_text(minute / 10));
    text.append(digit_text(minute % 10));
    text
}

/// The line of the table for `program`.
pub fn render_row(program: &Program) -> (line: String)
    ensures
        line@ == program_row(program@),
{
    let title = str_truncate(program.title.as_str(), TITLE_WIDTH as u32);
    let mut times = clock(&program.start);
    times.append(" - ");
    times.append(clock(&program.end).as_str());
    row_text(program.channel.as_str(), title.as_str(), times.as_str())
}

/// The table for `programs`, line by line and without line ends: a top border, the header,
/// a separator, one line for each programme in the order given, and a bottom border. With
/// no programme the table is those four lines.
pub fn render_table(programs: &Vec<Program>) -> (lines: Vec<String>)
    ensures
        lines.deep_view() == table_lines(programs.deep_view()),
        lines.len() == programs.len() + 4,
{
    let ghost all = programs.deep_view();
    let ghost head = seq![border("┌"@, "┬"@, "┐"@), header_row(), border("├"@, "┼"@, "┤"@)];
    let ghost line_of = |p: ProgramModel| program_row(p);
    let mut lines: Vec<String> = Vec::new();
    lines.push(border_text("┌", "┬", "┐"));
    let header = pad_right("Horaires", TIMES_WIDTH);
    lines.push(row_text("Chaine", "Titre", header.as_str()));
    lines.push(border_text("├", "┼", "┤"));
    let mut i: usize = 0;
    while i < programs.len()
        invariant
            i <= programs.len(),
            all == programs.deep_view(),
            head == seq![border("┌"@, "┬"@, "┐"@), header_row(), border("├"@, "┼"@, "┤"@)],
            line_of == |p: ProgramModel| program_row(p),
            lines.deep_view() == head + all.take(i as int).map_values(line_of),
        decreases programs.len() - i,
    {
        let ghost before = lines.deep_view();
        lines.push(render_row(&programs[i]));
        assert(lines.deep_view() =~= before.push(program_row(all[i as int])));
        i += 1;
    }
    let ghost before = lines.deep_view();
    lines.push(border_text("└", "┴", "┘"));
    assert(lines.deep_view() =~= before.push(border("└"@, "┴"@, "┘"@)));
    lines
}

} // verus!
