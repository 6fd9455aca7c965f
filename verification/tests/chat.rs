//! Chat components, legacy formatting, wrapping and the chat box.

use fpsmaster_app::chat::component::{
    flatten_chat_json, parse_chat_components, ChatSegment, ClickAction, ClickEvent,
};
use fpsmaster_app::chat::lang::Language;
use fpsmaster_app::chat::legacy::{strip_legacy_codes, text_width, Font};
use fpsmaster_app::chat::state::{complete_word, ChatState, MAX_LINES};
use fpsmaster_app::chat::wrap::{clickable_spans, wrap_legacy};

/// A second, in ns.
const SECOND: u64 = 1_000_000_000;

/// The few patterns the tests need.
fn english() -> Language {
    Language {
        entries: vec![
            ("chat.type.text".to_owned(), "<%s> %s".to_owned()),
            ("multiplayer.player.joined".to_owned(), "%s joined the game".to_owned()),
            ("swap".to_owned(), "%2$s before %1$s at 100%%".to_owned()),
        ],
    }
}

/// A font with narrow and wide letters, as the game's own has.
fn font(scale: u16) -> Font {
    let mut table = vec![6 * scale; 128];
    for c in "il.,!:".chars() {
        table[c as usize] = 2 * scale;
    }
    table[' ' as usize] = 4 * scale;
    table['t' as usize] = 4 * scale;
    Font { table, other: 9 * scale }
}

fn width(text: &str, font: &Font) -> i32 {
    text_width(text, font) as i32
}

#[test]
fn plain_text_component_flattens() {
    let lang = english();
    assert_eq!(flatten_chat_json(r#"{"text":"hello"}"#, &lang), "hello");
    assert_eq!(flatten_chat_json(r#""bare string""#, &lang), "bare string");
    assert_eq!(flatten_chat_json("not json", &lang), "not json");
}

#[test]
fn extra_and_colors_flatten_to_legacy_codes() {
    let json = r#"{"text":"A","extra":[{"text":"B","color":"red"},{"text":"C","color":"green","bold":true}]}"#;
    assert_eq!(flatten_chat_json(json, &english()), "A§cB§a§lC");
}

#[test]
fn translate_chat_type_text_formats_like_vanilla() {
    let json = r#"{"translate":"chat.type.text","with":[{"text":"Steve"},{"text":"hi all"}]}"#;
    assert_eq!(flatten_chat_json(json, &english()), "<Steve> hi all");
}

#[test]
fn unknown_translate_falls_back_to_args() {
    let json = r#"{"translate":"death.attack.player","with":["Alice","Bob"]}"#;
    assert_eq!(flatten_chat_json(json, &english()), "Alice Bob");
}

#[test]
fn strip_ignores_codes() {
    assert_eq!(strip_legacy_codes("§a§lhi §cthere"), "hi there");
}

#[test]
fn parse_components_extracts_run_command_and_plain_text() {
    let json = r#"{"text":"hi ","extra":[{"text":"[click]","color":"green","clickEvent":{"action":"run_command","value":"/spawn"}}]}"#;
    let lang = english();
    let segments = parse_chat_components(json, &lang);
    // Concatenated text matches the flattened form.
    let joined: String = segments.iter().map(|s| s.text.as_str()).collect();
    assert_eq!(joined, flatten_chat_json(json, &lang));
    // The plain run carries no click; the bracket run carries the command.
    assert_eq!(segments[0].click, None);
    assert_eq!(
        segments[1].click,
        Some(ClickEvent {
            action: ClickAction::RunCommand,
            value: "/spawn".to_owned(),
        })
    );
}

#[test]
fn parse_components_children_inherit_and_keep_hover() {
    let json = r#"{"text":"a","hoverEvent":{"action":"show_text","value":"tip"},"clickEvent":{"action":"suggest_command","value":"/msg x "},"extra":[{"text":"b"}]}"#;
    let segments = parse_chat_components(json, &english());
    let suggest = Some(ClickEvent {
        action: ClickAction::SuggestCommand,
        value: "/msg x ".to_owned(),
    });
    assert_eq!(segments[0].click, suggest);
    assert_eq!(segments[0].hover.as_deref(), Some("tip"));
    // The child with no events of its own inherits the parent's.
    assert_eq!(segments[1].click, suggest);
    assert_eq!(segments[1].hover.as_deref(), Some("tip"));
}

#[test]
fn complete_word_replaces_last_token() {
    assert_eq!(complete_word("/te", "/tell"), "/tell");
    assert_eq!(complete_word("/tell Ste", "Steve"), "/tell Steve");
    assert_eq!(complete_word("", "/help"), "/help");
    // A trailing space starts a fresh token.
    assert_eq!(complete_word("/tell ", "Steve"), "/tell Steve");
}

#[test]
fn clickable_spans_locate_the_clicked_segment() {
    let segments = vec![
        ChatSegment {
            text: "hi ".to_owned(),
            click: None,
            hover: None,
        },
        ChatSegment {
            text: "[go]".to_owned(),
            click: Some(ClickEvent {
                action: ClickAction::RunCommand,
                value: "/go".to_owned(),
            }),
            hover: None,
        },
    ];
    let font = font(1);
    let rows = clickable_spans(&segments, 10_000, &font);
    assert_eq!(rows.len(), 1);
    let span = &rows[0][0];
    // The clickable run starts after "hi " and covers "[go]".
    assert_eq!(span.x_start as u128, text_width("hi ", &font));
    assert_eq!(span.x_end as u128, text_width("hi [go]", &font));
    assert_eq!(span.event.value, "/go");
}

#[test]
fn wrap_breaks_at_spaces_and_carries_color() {
    // Wrap width = exactly "one two": the second space ends the line and
    // the continuation re-emits the active color.
    let font = font(1);
    let max = width("one two", &font);
    let lines = wrap_legacy("§aone two three", max, &font);
    assert_eq!(lines, vec!["§aone two".to_owned(), "§athree".to_owned()]);
}

#[test]
fn wrap_hard_breaks_long_words() {
    let font = font(1);
    let max = width("aaaa", &font);
    let lines = wrap_legacy("aaaaaaaaaa", max, &font);
    assert_eq!(lines, vec!["aaaa", "aaaa", "aa"]);
}

#[test]
fn wrapped_lines_fit_the_requested_width() {
    let font = font(2);
    let max = width("some words", &font);
    let text = "§b一段 mixed width 文本 with spaces and a veryverylongunbrokenword here";
    for line in wrap_legacy(text, max, &font) {
        assert!(
            width(&line, &font) <= max,
            "line {line:?} exceeds the wrap width"
        );
    }
}

#[test]
fn recall_walks_history_both_ways() {
    let mut chat = ChatState::new();
    chat.record_sent("first".to_owned());
    chat.record_sent("second".to_owned());
    chat.reset_recall();
    assert_eq!(chat.recall_previous().as_deref(), Some("second"));
    assert_eq!(chat.recall_previous().as_deref(), Some("first"));
    assert_eq!(chat.recall_previous(), None);
    assert_eq!(chat.recall_next().as_deref(), Some("second"));
    assert_eq!(chat.recall_next().as_deref(), Some(""));
    assert_eq!(chat.recall_next(), None);
}

#[test]
fn visible_lines_fade_and_expire() {
    let mut chat = ChatState::new();
    let now = 100 * SECOND;
    chat.push_message("fresh".to_owned(), now);
    let visible = chat.visible_lines(now, false);
    assert_eq!(visible.len(), 1);
    assert!(visible[0].1 > 990_000_000);
    // Pretend the line is 9.5s old: it should be fading.
    chat.lines[0].received = now - 9_500_000_000;
    let visible = chat.visible_lines(now, false);
    assert!(visible[0].1 < 600_000_000);
    // At 11s it is gone when closed, but still listed when open.
    chat.lines[0].received = now - 11 * SECOND;
    assert!(chat.visible_lines(now, false).is_empty());
    assert_eq!(chat.visible_lines(now, true).len(), 1);
}

#[test]
fn positional_arguments_and_percent_signs_are_formatted() {
    let json = r#"{"translate":"swap","with":["a","b"]}"#;
    assert_eq!(flatten_chat_json(json, &english()), "b before a at 100%");
}

#[test]
fn an_unfinished_object_is_shown_as_it_is() {
    assert_eq!(flatten_chat_json(r#"{"text":"#, &english()), r#"{"text":"#);
    let segments = parse_chat_components(r#"{"text":"#, &english());
    assert_eq!(segments.len(), 1);
    assert_eq!(segments[0].text, r#"{"text":"#);
}

#[test]
fn numbers_in_arrays_and_escapes_are_read() {
    assert_eq!(flatten_chat_json(r#"["a",{"text":"b"}]"#, &english()), "ab");
    assert_eq!(flatten_chat_json(r#"{"text":"x\"y"}"#, &english()), "x\"y");
}

#[test]
fn every_click_action_is_understood() {
    let lang = english();
    for (name, action) in [
        ("run_command", ClickAction::RunCommand),
        ("suggest_command", ClickAction::SuggestCommand),
        ("open_url", ClickAction::OpenUrl),
        ("copy_to_clipboard", ClickAction::CopyToClipboard),
    ] {
        let json = format!(r#"{{"text":"t","clickEvent":{{"action":"{name}","value":"v"}}}}"#);
        let segments = parse_chat_components(&json, &lang);
        assert_eq!(segments[0].click, Some(ClickEvent { action, value: "v".to_owned() }));
    }
    let segments = parse_chat_components(
        r#"{"text":"t","clickEvent":{"action":"dance","value":"v"}}"#,
        &lang,
    );
    assert_eq!(segments[0].click, None);
}

#[test]
fn segments_join_to_the_flattened_text() {
    let lang = english();
    for json in [
        r#"{"text":"A","bold":true,"extra":["b",{"text":"c","italic":true}]}"#,
        r#"{"translate":"multiplayer.player.joined","color":"yellow","with":["Alex"]}"#,
        "plain",
    ] {
        let joined: String =
            parse_chat_components(json, &lang).iter().map(|s| s.text.as_str()).collect();
        assert_eq!(joined, flatten_chat_json(json, &lang));
    }
}

#[test]
fn stripping_twice_changes_nothing_more() {
    let once = strip_legacy_codes("§lA§rB§");
    assert_eq!(once, "AB");
    assert_eq!(strip_legacy_codes(&once), once);
}

#[test]
fn text_without_codes_is_as_wide_as_with_them() {
    let font = font(1);
    assert_eq!(text_width("hi", &font), 8);
    assert_eq!(text_width("§ah§li", &font), 8);
    assert_eq!(text_width("é", &font), 9);
}

#[test]
fn a_word_carried_over_still_fits() {
    // After the break at the space "wide" and the next letter exceed the line again.
    let font = font(1);
    let max = width("aaaaa", &font);
    for line in wrap_legacy("a bbbbbbbbbb", max, &font) {
        assert!(width(&line, &font) <= max, "line {line:?} is too wide");
    }
}

#[test]
fn a_newline_ends_the_line() {
    assert_eq!(wrap_legacy("one\ntwo", 1000, &font(1)), vec!["one", "two"]);
}

#[test]
fn spans_stand_in_as_many_rows_as_lines() {
    let font = font(1);
    let event = || {
        Some(ClickEvent { action: ClickAction::OpenUrl, value: "u".to_owned() })
    };
    let segments = vec![
        ChatSegment { text: "one ".to_owned(), click: None, hover: None },
        ChatSegment { text: "two three".to_owned(), click: event(), hover: None },
    ];
    let max = width("one two", &font);
    let lines = wrap_legacy("one two three", max, &font);
    let rows = clickable_spans(&segments, max, &font);
    assert_eq!(rows.len(), lines.len());
    assert_eq!(rows[0].len(), 1);
    assert_eq!(rows[0][0].x_start as u128, text_width("one ", &font));
    assert_eq!(rows[1][0].x_start, 0);
    assert_eq!(rows[1][0].x_end as u128, text_width("three", &font));
}

#[test]
fn a_repeated_message_is_recorded_once() {
    let mut chat = ChatState::new();
    chat.record_sent("hi".to_owned());
    chat.record_sent("hi".to_owned());
    assert_eq!(chat.sent.len(), 1);
}

#[test]
fn old_lines_fall_out() {
    let mut chat = ChatState::new();
    for i in 0..(MAX_LINES + 5) {
        chat.push_message(format!("line {i}"), 0);
    }
    assert_eq!(chat.lines().len(), MAX_LINES);
    assert_eq!(chat.lines[0].text, "line 5");
}

#[test]
fn the_action_bar_fades_after_three_seconds() {
    let mut chat = ChatState::new();
    assert!(chat.action_bar(0).is_none());
    chat.set_action_bar("mined".to_owned(), SECOND);
    assert_eq!(chat.action_bar(SECOND), Some(("mined", 1_000_000_000)));
    assert_eq!(chat.action_bar(3_500_000_000), Some(("mined", 500_000_000)));
    assert!(chat.action_bar(4 * SECOND).is_none());
}

#[test]
fn completions_go_round() {
    let mut chat = ChatState::new();
    assert_eq!(chat.next_completion(), None);
    chat.set_completions(vec!["a".to_owned(), "b".to_owned()]);
    assert!(chat.has_completions());
    assert_eq!(chat.next_completion().as_deref(), Some("a"));
    assert_eq!(chat.next_completion().as_deref(), Some("b"));
    assert_eq!(chat.next_completion().as_deref(), Some("a"));
    chat.clear_completions();
    assert!(!chat.has_completions());
}

#[test]
fn words_end_at_any_whitespace() {
    assert_eq!(complete_word("/tell\tSte", "Steve"), "/tell\tSteve");
    assert_eq!(complete_word("a\nb", "c"), "a\nc");
}

#[test]
fn a_last_newline_starts_no_row() {
    let font = font(1);
    let segment =
        |text: &str| ChatSegment { text: text.to_owned(), click: None, hover: None };
    let segments = vec![segment("a\n")];
    assert_eq!(clickable_spans(&segments, 1000, &font).len(), 1);
    assert_eq!(wrap_legacy("a\n", 1000, &font), vec!["a"]);
    // One in the middle does.
    assert_eq!(clickable_spans(&vec![segment("a\nb")], 1000, &font).len(), 2);
}
