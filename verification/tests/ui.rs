use isamedia::app::{KeyCode, KeyEvent};
use isamedia::text::{
    contains, eq_ignoring_ascii_case, is_blank, join, pad_right, push_decimal, push_int,
    push_padded, trim, trim_end,
};
use isamedia::ui::form::{Field, Form, FormEvent};
use isamedia::ui::help::{rows, Section};
use isamedia::ui::input::TextInput;
use isamedia::ui::list::{
    go_round_down, go_round_up, next_entry, per_page, step_cursor, window_end, window_start, Step,
};
use isamedia::ui::picker::{Picker, PickerEvent, PickerItem};
use isamedia::ui::rows::{clip, header_lines};
use isamedia::ui::text::{leader_line, truncate, wrap_text};
use isamedia::ui::theme::{Accent, Theme, ACCENTS, THEMES};

fn key(code: KeyCode) -> KeyEvent {
    KeyEvent::plain(code)
}

#[test]
fn numbers_are_written_in_decimal() {
    let mut text = String::new();
    push_decimal(&mut text, 0);
    push_decimal(&mut text, u64::MAX);
    assert_eq!(text, "018446744073709551615");
    let mut text = String::new();
    push_int(&mut text, i64::MIN);
    assert_eq!(text, "-9223372036854775808");
    let mut text = String::new();
    push_padded(&mut text, 7, 2);
    push_padded(&mut text, 123, 2);
    assert_eq!(text, "07123");
}

#[test]
fn texts_are_trimmed_and_searched() {
    assert_eq!(trim("  a b\t"), "a b");
    assert_eq!(trim_end("  a b\t"), "  a b");
    assert_eq!(trim("\u{a0}x\u{3000}"), "x");
    assert!(is_blank(" \t\n"));
    assert!(!is_blank(" x "));
    assert!(contains("black clover", "ack c"));
    assert!(contains("abc", ""));
    assert!(!contains("abc", "abcd"));
    assert!(eq_ignoring_ascii_case("HTTP", "http"));
    assert!(!eq_ignoring_ascii_case("\u{e9}", "\u{c9}"));
    assert_eq!(pad_right("ab", 4), "ab  ");
    assert_eq!(pad_right("abcd", 2), "abcd");
    assert_eq!(join(&vec!["a".into(), "b".into()], ", "), "a, b");
}

#[test]
fn long_texts_are_cut_with_an_ellipsis() {
    assert_eq!(truncate("short", 10), "short");
    let cut = truncate("a rather long title", 8);
    assert_eq!(cut.chars().count(), 8);
    assert!(cut.ends_with('…'));
}

#[test]
fn words_are_wrapped_at_the_width() {
    assert_eq!(
        wrap_text("the quick brown fox", 9),
        vec!["the quick", "brown fox"]
    );
    assert!(wrap_text("", 9).is_empty());
}

#[test]
fn a_leader_fills_its_gap() {
    assert_eq!(leader_line(0), "");
    assert!(leader_line(9).chars().count() <= 9);
}

#[test]
fn overviews_are_clipped() {
    assert_eq!(clip("short"), "short");
    let long = "word ".repeat(200);
    let clipped = clip(&long);
    assert!(clipped.ends_with("word…"));
    assert_eq!(clipped.chars().count(), 600);
}

#[test]
fn headers_note_what_is_left_out() {
    let overview = vec!["one".to_string(), "two".to_string(), "three".to_string()];
    let lines = header_lines("Title", "", &overview, 2, "  …");
    let texts: Vec<String> = lines
        .iter()
        .map(|l| l.iter().map(|s| s.text.as_str()).collect())
        .collect();
    assert_eq!(texts, vec!["  Title", "", "  one", "  two", "  …", ""]);
}

#[test]
fn cursors_step_within_the_list() {
    assert_eq!(step_cursor(Step::Up, 0, 5, 3), 0);
    assert_eq!(step_cursor(Step::Down, 4, 5, 3), 4);
    assert_eq!(step_cursor(Step::PageDown, 1, 5, 3), 4);
    assert_eq!(step_cursor(Step::PageUp, 4, 5, 3), 1);
    assert_eq!(step_cursor(Step::Home, 4, 5, 3), 0);
    assert_eq!(step_cursor(Step::End, 0, 5, 3), 4);
    assert_eq!(step_cursor(Step::Down, 0, 0, 3), 0);
    assert_eq!(go_round_up(0, 3), 2);
    assert_eq!(go_round_down(2, 3), 0);
    assert_eq!(next_entry(2, 3), 2);
    assert_eq!(next_entry(1, 3), 2);
}

#[test]
fn the_window_keeps_the_cursor_visible() {
    assert_eq!(window_start(0, 10, 4), 0);
    assert_eq!(window_start(5, 10, 4), 2);
    assert_eq!(window_end(2, 10, 4), 6);
    assert_eq!(window_end(8, 10, 4), 10);
    assert_eq!(per_page(9, 3), 3);
    assert_eq!(per_page(1, 3), 1);
}

#[test]
fn a_form_walks_over_hidden_rows() {
    let mut form = Form::new(
        vec![
            Field::text(0, "Host", ""),
            Field::toggle(1, "Move files", false).hidden(),
            Field::select(2, "Quality", vec!["Any".into(), "HD".into()], 0),
        ],
        "Save",
    );
    assert_eq!(form.on_key(key(KeyCode::Char('x'))), FormEvent::Changed(0));
    assert_eq!(form.text(0), "x");
    assert!(form.changed(0));
    form.on_key(key(KeyCode::Down));
    assert_eq!(form.focus, 2);
    assert_eq!(form.on_key(key(KeyCode::Right)), FormEvent::Changed(2));
    assert_eq!(form.selected(2), 1);
    form.reset(2);
    assert!(!form.changed(2));
    form.set_visible(1, true);
    form.on_key(key(KeyCode::Up));
    assert_eq!(form.focus, 1);
    form.on_key(key(KeyCode::Down));
    form.on_key(key(KeyCode::Down));
    assert!(form.action_row_focused());
    assert_eq!(form.on_key(key(KeyCode::Enter)), FormEvent::Save);
    assert_eq!(form.on_key(key(KeyCode::Esc)), FormEvent::Cancel);
}

#[test]
fn inputs_take_characters_and_give_them_back() {
    let mut input = TextInput::with_value("ab");
    assert!(input.on_key(key(KeyCode::Char('c'))));
    assert!(input.on_key(key(KeyCode::Backspace)));
    assert!(input.on_key(key(KeyCode::Backspace)));
    assert_eq!(input.value(), "a");
    input.clear();
    assert!(!input.on_key(key(KeyCode::Backspace)));
    assert_eq!(input.value(), "");
    assert_eq!(TextInput::new().value(), "");
}

#[test]
fn a_picker_filters_below_its_pinned_entries() {
    let mut picker = Picker::new(
        vec![PickerItem::new("unset", "No preference".into())],
        vec![
            PickerItem::new("ger", "German".into()),
            PickerItem::new("ita", "Italian".into()),
        ],
    );
    picker.select("ita");
    assert_eq!(picker.cursor, 2);
    for c in "GER".chars() {
        picker.on_key(key(KeyCode::Char(c)));
    }
    let keys: Vec<String> = picker.rows().into_iter().map(|r| r.key).collect();
    assert_eq!(keys, vec!["unset", "ger"]);
    picker.on_key(key(KeyCode::End));
    picker.on_key(key(KeyCode::Down));
    assert!(matches!(
        picker.on_key(key(KeyCode::Esc)),
        PickerEvent::Cancel
    ));
}

#[test]
fn help_is_as_tall_as_its_longest_column() {
    let list = vec![
        Section {
            title: "Move",
            entries: vec![("a", "b"), ("c", "d")],
        },
        Section {
            title: "Actions",
            entries: vec![("e", "f")],
        },
    ];
    assert_eq!(rows(&list), 3);
    assert_eq!(rows(&Vec::new()), 1);
}

#[test]
fn themes_and_accents_have_titles() {
    for (i, theme) in THEMES.iter().enumerate() {
        assert_eq!(theme.index(), i);
        assert!(!theme.title().is_empty());
    }
    for (i, accent) in ACCENTS.iter().enumerate() {
        assert_eq!(accent.index(), i);
        assert!(!accent.title().is_empty());
    }
    assert_eq!(Theme::default(), Theme::Latte);
    assert_eq!(Accent::default(), Accent::Rosewater);
}

#[test]
fn a_picker_ignores_the_case_of_what_is_typed() {
    for typed in ["GER", "ger", "gEr", "\u{c9}", "\u{e9}"] {
        let mut picker = Picker::new(
            Vec::new(),
            vec![
                PickerItem::new("ger", "German \u{c9}".into()),
                PickerItem::new("ita", "Italian".into()),
            ],
        );
        for c in typed.chars() {
            picker.on_key(key(KeyCode::Char(c)));
        }
        let keys: Vec<String> = picker.rows().into_iter().map(|r| r.key).collect();
        assert_eq!(keys, vec!["ger"]);
    }
}
