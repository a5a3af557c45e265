use evening_guide::filter::Program;
use evening_guide::render::{clock, render_row, render_table};
use evening_guide::text::{pad_right, str_eq, str_truncate};
use evening_guide::timestamp::{Date, Timestamp};

const TODAY: Date = Date { year: 2024, month: 1, day: 31 };

const TOP: &str = "┌────────────────┬─────────────────────────────────────────────────────────┬───────────────┐";
const HEADER: &str = "│ Chaine         │ Titre                                                   │ Horaires      │";
const MIDDLE: &str = "├────────────────┼─────────────────────────────────────────────────────────┼───────────────┤";
const BOTTOM: &str = "└────────────────┴─────────────────────────────────────────────────────────┴───────────────┘";

fn at(hour: u32, minute: u32) -> Timestamp {
    Timestamp::new(TODAY, hour, minute, 0, 0).unwrap()
}

fn program(channel: &str, title: &str, start: Timestamp, end: Timestamp) -> Program {
    Program { start, end, title: title.to_string(), channel: channel.to_string() }
}

#[test]
fn str_eq_compares_characters() {
    assert!(str_eq("", ""));
    assert!(str_eq("TF1", "TF1"));
    assert!(str_eq("Chérie 25", "Chérie 25"));
    assert!(!str_eq("TF1", "TF2"));
    assert!(!str_eq("TF1", "TF"));
    assert!(!str_eq("", "a"));
    assert!(!str_eq("Chérie 25", "Cherie 25"));
}

#[test]
fn title_of_fifty_six_characters_loses_its_last() {
    let long: String = "abcdefghijklmnopqrstuvwxyz0123456789ABCDEFGHIJKLMNOPQRSTU".to_string();
    assert_eq!(long.chars().count(), 57);
    let title: String = long.chars().take(56).collect();
    let cut = str_truncate(&title, 55);
    assert_eq!(cut, "abcdefghijklmnopqrstuvwxyz0123456789ABCDEFGHIJKLMNOPQRS");
    assert_eq!(cut.chars().count(), 55);
}

#[test]
fn title_of_fifty_five_characters_is_unchanged() {
    let title = "abcdefghijklmnopqrstuvwxyz0123456789ABCDEFGHIJKLMNOPQRS";
    assert_eq!(title.chars().count(), 55);
    assert_eq!(str_truncate(title, 55), title);
    assert_eq!(str_truncate("court", 55), "court");
    assert_eq!(str_truncate("", 55), "");
}

#[test]
fn str_truncate_counts_characters_not_bytes() {
    assert_eq!(str_truncate("éàüö", 2), "éà");
    assert_eq!(str_truncate("日本語のテレビ", 3), "日本語");
    assert_eq!(str_truncate("abc", 0), "");
    assert_eq!(str_truncate("abc", 3), "abc");
    assert_eq!(str_truncate("abc", u32::MAX), "abc");
}

#[test]
fn pad_right_fills_with_spaces_and_never_cuts() {
    assert_eq!(pad_right("TF1", 14), "TF1           ");
    assert_eq!(pad_right("", 3), "   ");
    assert_eq!(pad_right("Chérie 25", 14), "Chérie 25     ");
    assert_eq!(pad_right("exactly", 7), "exactly");
    assert_eq!(pad_right("too long for it", 4), "too long for it");
    assert_eq!(pad_right("abc", 0), "abc");
    assert_eq!(pad_right("Chérie 25", 14), format!("{:14}", "Chérie 25"));
}

#[test]
fn clock_has_two_digits_each_side() {
    assert_eq!(clock(&at(20, 50)), "20:50");
    assert_eq!(clock(&at(0, 0)), "00:00");
    assert_eq!(clock(&at(9, 5)), "09:05");
    assert_eq!(clock(&at(23, 59)), "23:59");
    for hour in 0..24 {
        for minute in 0..60 {
            assert_eq!(clock(&at(hour, minute)), format!("{:02}:{:02}", hour, minute));
        }
    }
}

#[test]
fn empty_table_is_header_and_borders() {
    let lines = render_table(&Vec::new());
    assert_eq!(lines, vec![TOP.to_string(), HEADER.to_string(), MIDDLE.to_string(), BOTTOM.to_string()]);
}

#[test]
fn borders_and_header_follow_the_column_widths() {
    let lines = render_table(&Vec::new());
    assert_eq!(
        lines[0],
        format!("┌{}┬{}┬{}┐", "─".repeat(16), "─".repeat(57), "─".repeat(15))
    );
    assert_eq!(lines[1], format!("│ {:14} │ {:55} │ {:13} │", "Chaine", "Titre", "Horaires"));
    assert_eq!(
        lines[2],
        format!("├{}┼{}┼{}┤", "─".repeat(16), "─".repeat(57), "─".repeat(15))
    );
    assert_eq!(
        lines[3],
        format!("└{}┴{}┴{}┘", "─".repeat(16), "─".repeat(57), "─".repeat(15))
    );
    for line in &lines {
        assert_eq!(line.chars().count(), 92);
    }
}

#[test]
fn row_holds_channel_title_and_times() {
    let p = program("France 2", "Le journal de 20 heures", at(20, 50), at(21, 30));
    assert_eq!(
        render_row(&p),
        "│ France 2       │ Le journal de 20 heures                                 │ 20:50 - 21:30 │"
    );
    assert_eq!(render_row(&p).chars().count(), 92);
}

#[test]
fn row_cuts_a_long_title_and_nothing_else() {
    let title = "x".repeat(200);
    let p = program("Une chaine au nom trop long", &title, at(21, 5), at(23, 0));
    assert_eq!(
        render_row(&p),
        format!("│ Une chaine au nom trop long │ {} │ 21:05 - 23:00 │", "x".repeat(55))
    );
}

#[test]
fn table_has_one_line_for_each_program_in_order() {
    let programs = vec![
        program("TF1", "Un", at(20, 50), at(21, 30)),
        program("Arte", "Deux", at(20, 55), at(22, 40)),
        program("M6", "Trois", at(21, 10), at(23, 5)),
    ];
    let lines = render_table(&programs);
    assert_eq!(lines.len(), 7);
    assert_eq!(lines[0], TOP);
    assert_eq!(lines[1], HEADER);
    assert_eq!(lines[2], MIDDLE);
    for (i, p) in programs.iter().enumerate() {
        assert_eq!(lines[3 + i], render_row(p));
        assert_eq!(
            lines[3 + i],
            format!(
                "│ {:14} │ {:55} │ {:02}:{:02} - {:02}:{:02} │",
                p.channel,
                p.title,
                p.start.hour(),
                p.start.minute(),
                p.end.hour(),
                p.end.minute()
            )
        );
    }
    assert_eq!(lines[6], BOTTOM);
}
