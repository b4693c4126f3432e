use ufe::render::{compose, render_for_terminal, Context};
use ufe::report::{drawn_text, label_colors};
use ufe::{ErrorCause, FileHighlight, FileLabel, UserFacingError};

fn plain(summary: &str, related: Vec<UserFacingError>) -> UserFacingError {
    UserFacingError { error: ErrorCause::default().summary(summary.to_string()), related }
}

#[test]
fn summary_alone_is_one_line() {
    let e = plain("entity not found", vec![]);
    assert_eq!(render_for_terminal(&e, 80), "entity not found\n");
}

#[test]
fn extended_reason_follows_an_empty_line() {
    let e = UserFacingError {
        error: ErrorCause::default()
            .summary("Could not read the frobnicate".to_string())
            .extended_reason("Keep the frub available.".to_string()),
        related: vec![],
    };
    assert_eq!(
        render_for_terminal(&e, 80),
        "Could not read the frobnicate\n\nKeep the frub available.\n"
    );
}

#[test]
fn header_stands_once_before_the_related_errors() {
    let e = plain(
        "top",
        vec![plain("first", vec![plain("deep", vec![plain("deeper", vec![])])]), plain("second", vec![])],
    );
    let text = render_for_terminal(&e, 80);
    assert_eq!(text, "top\nDetailed informations:\nfirst\ndeep\ndeeper\nsecond\n");
    assert_eq!(text.matches("Detailed informations:").count(), 1);
}

#[test]
fn width_does_not_cut_the_text() {
    let e = plain("a summary that is longer than the width", vec![]);
    assert_eq!(render_for_terminal(&e, 4), "a summary that is longer than the width\n");
    assert_eq!(render_for_terminal(&e, 0), render_for_terminal(&e, 400));
}

#[test]
fn default_cause_renders_as_an_empty_line() {
    let e = UserFacingError { error: ErrorCause::default(), related: vec![] };
    assert_eq!(render_for_terminal(&e, 80), "\n");
}

#[test]
fn colors_of_two_labels_differ() {
    let colors = label_colors(2);
    assert_eq!(colors.len(), 2);
    assert_ne!(colors[0], colors[1]);
    assert_eq!(colors, vec![201, 155]);
}

#[test]
fn colors_are_the_same_each_time() {
    assert_eq!(label_colors(5), label_colors(5));
    assert_eq!(label_colors(5)[..3], label_colors(3)[..]);
    assert!(label_colors(0).is_empty());
}

fn config() -> FileHighlight {
    FileHighlight {
        path: "app.toml".to_string(),
        content: "name = 1\nport = \"eighty\"\n".to_string(),
        labels: vec![
            FileLabel { range: 0..4, message: "this key".to_string() },
            FileLabel { range: 16..24, message: "is no number".to_string() },
        ],
    }
}

#[test]
fn highlight_is_drawn_with_both_labels_in_their_colors() {
    let e = UserFacingError {
        error: ErrorCause::default().summary("bad config".to_string()).file_highlights(vec![config()]),
        related: vec![],
    };
    assert!(e.is_well_formed());
    let text = render_for_terminal(&e, 80);
    assert!(text.starts_with("bad config\n"));
    assert!(text.contains("app.toml"));
    assert!(text.contains("this key"));
    assert!(text.contains("is no number"));
    let colors = label_colors(2);
    assert!(text.contains(&format!("\u{1b}[38;5;{}m", colors[0])));
    assert!(text.contains(&format!("\u{1b}[38;5;{}m", colors[1])));
    assert!(!text.contains("Detailed informations:"));
}

#[test]
fn highlight_stands_between_the_words_and_the_related_errors() {
    let e = UserFacingError {
        error: ErrorCause::default()
            .summary("bad config".to_string())
            .extended_reason("The port is a number.".to_string())
            .file_highlights(vec![config()]),
        related: vec![plain("parse error", vec![])],
    };
    let text = render_for_terminal(&e, 80);
    let words = "bad config\n\nThe port is a number.\n";
    let tail = "Detailed informations:\nparse error\n";
    assert!(text.starts_with(words));
    assert!(text.ends_with(tail));
    let drawn = &text[words.len()..text.len() - tail.len()];
    assert!(drawn.contains("Error:"));
    assert!(drawn.contains("app.toml:1:1"));
    assert!(drawn.ends_with('\n'));
}

#[test]
fn label_outside_the_content_is_not_well_formed() {
    let mut h = config();
    assert!(h.is_well_formed());
    h.labels.push(FileLabel { range: 20..200, message: "too far".to_string() });
    assert!(!h.is_well_formed());
    let backwards =
        FileHighlight { path: "a".to_string(), content: "abc".to_string(), labels: vec![FileLabel { range: 2..1, message: String::new() }] };
    assert!(!backwards.is_well_formed());
    let at_end =
        FileHighlight { path: "a".to_string(), content: "abc".to_string(), labels: vec![FileLabel { range: 3..3, message: String::new() }] };
    assert!(at_end.is_well_formed());
    let e = UserFacingError {
        error: ErrorCause::default(),
        related: vec![UserFacingError { error: ErrorCause::default().file_highlights(vec![backwards]), related: vec![] }],
    };
    assert!(!e.is_well_formed());
}

fn strings(parts: &[&str]) -> Vec<String> {
    parts.iter().map(|p| p.to_string()).collect()
}

#[test]
fn compose_puts_the_parts_in_their_order() {
    let cause = ErrorCause::default().summary("s".to_string()).extended_reason("r".to_string());
    let outer = Context { max_width: 80, first_run: true };
    let text = compose(&cause, &strings(&["<h1>", "<h2>"]), &strings(&["a\n", "b\n"]), &outer);
    assert_eq!(text, "s\n\nr\n<h1><h2>Detailed informations:\na\nb\n");
    let inner = outer.go_to_inner();
    let text = compose(&cause, &strings(&["<h1>", "<h2>"]), &strings(&["a\n", "b\n"]), &inner);
    assert_eq!(text, "s\n\nr\n<h1><h2>a\nb\n");
}

#[test]
fn compose_leaves_the_header_out_without_related_errors() {
    let cause = ErrorCause::default().summary("s".to_string());
    let outer = Context { max_width: 80, first_run: true };
    assert_eq!(compose(&cause, &strings(&[]), &strings(&[]), &outer), "s\n");
    assert_eq!(compose(&cause, &strings(&["<h>"]), &strings(&[]), &outer), "s\n<h>");
    assert_eq!(compose(&cause, &strings(&[]), &strings(&[""]), &outer), "s\nDetailed informations:\n");
}

#[test]
fn inner_context_keeps_the_width() {
    let outer = Context { max_width: 72, first_run: true };
    let inner = outer.go_to_inner();
    assert_eq!(inner.max_width, 72);
    assert!(!inner.first_run);
    let deeper = inner.go_to_inner();
    assert_eq!(deeper.max_width, 72);
    assert!(!deeper.first_run);
}

#[test]
fn setters_change_one_field_each() {
    let cause = ErrorCause::default();
    assert_eq!(cause.summary, "");
    assert!(cause.extended_reason.is_none());
    assert!(cause.file_highlights.is_empty());
    let cause = cause.summary("a".to_string());
    assert_eq!(cause.summary, "a");
    assert!(cause.extended_reason.is_none());
    let cause = cause.extended_reason("b".to_string());
    assert_eq!(cause.summary, "a");
    assert_eq!(cause.extended_reason.as_deref(), Some("b"));
    let cause = cause.file_highlights(vec![config()]).summary("c".to_string());
    assert_eq!(cause.summary, "c");
    assert_eq!(cause.extended_reason.as_deref(), Some("b"));
    assert_eq!(cause.file_highlights.len(), 1);
    assert_eq!(cause.file_highlights[0].path, "app.toml");
    assert!(cause.is_well_formed());
}

#[test]
fn highlight_without_labels_is_still_drawn() {
    let bare = FileHighlight { path: "empty.toml".to_string(), content: String::new(), labels: vec![] };
    assert!(bare.is_well_formed());
    let e = UserFacingError {
        error: ErrorCause::default().summary("s".to_string()).file_highlights(vec![bare]),
        related: vec![],
    };
    let text = render_for_terminal(&e, 80);
    assert!(text.starts_with("s\n"));
    assert!(text.contains("Error:"));
}

#[test]
fn label_offsets_count_bytes() {
    let umlauts = FileHighlight {
        path: "u.txt".to_string(),
        content: "\u{e4}\u{f6}\u{fc}".to_string(),
        labels: vec![FileLabel { range: 4..6, message: "last".to_string() }],
    };
    assert!(umlauts.is_well_formed());
    let e = UserFacingError {
        error: ErrorCause::default().summary("s".to_string()).file_highlights(vec![umlauts]),
        related: vec![],
    };
    let text = render_for_terminal(&e, 80);
    assert!(text.starts_with("s\n"));
    assert!(text.contains("u.txt:1:1"));
    assert!(text.contains("last"));
    let color = label_colors(1)[0];
    assert!(text.contains(&format!("\u{1b}[38;5;{}m\u{fc}", color)));
    assert!(!text.contains(&format!("\u{1b}[38;5;{}m\u{f6}", color)));
}

#[test]
fn label_inside_a_character_is_not_well_formed() {
    let inside = FileHighlight {
        path: "u.txt".to_string(),
        content: "\u{e4}\u{f6}\u{fc}".to_string(),
        labels: vec![FileLabel { range: 1..2, message: "half".to_string() }],
    };
    assert!(!inside.is_well_formed());
    let ends_inside = FileHighlight {
        path: "u.txt".to_string(),
        content: "\u{e4}\u{f6}\u{fc}".to_string(),
        labels: vec![FileLabel { range: 0..3, message: "half".to_string() }],
    };
    assert!(!ends_inside.is_well_formed());
}

#[test]
fn every_well_formed_pair_of_labels_is_drawn() {
    let content = "a\u{e9}\r\nb\t\u{f6}\n\nz\u{20ac}";
    let mut ranges = vec![];
    for start in 0..=content.len() {
        for end in start..=content.len() {
            if content.is_char_boundary(start) && content.is_char_boundary(end) {
                ranges.push(start..end);
            }
        }
    }
    assert!(ranges.len() > 50);
    let mut drawn = 0;
    for first in &ranges {
        for second in &ranges {
            let highlight = FileHighlight {
                path: "p".to_string(),
                content: content.to_string(),
                labels: vec![
                    FileLabel { range: first.clone(), message: "one".to_string() },
                    FileLabel { range: second.clone(), message: String::new() },
                ],
            };
            assert!(highlight.is_well_formed());
            let e = UserFacingError {
                error: ErrorCause::default().file_highlights(vec![highlight]),
                related: vec![],
            };
            let text = render_for_terminal(&e, 80);
            assert!(text.starts_with("\n"));
            assert!(text.contains("Error:"));
            drawn += 1;
        }
    }
    assert_eq!(drawn, ranges.len() * ranges.len());
}

#[test]
fn related_errors_draw_their_own_highlights() {
    let inner = UserFacingError {
        error: ErrorCause::default().summary("inner".to_string()).file_highlights(vec![config()]),
        related: vec![plain("deepest", vec![])],
    };
    let e = plain("outer", vec![inner, plain("sibling", vec![])]);
    let text = render_for_terminal(&e, 80);
    assert!(text.starts_with("outer\nDetailed informations:\ninner\n"));
    assert!(text.ends_with("deepest\nsibling\n"));
    assert_eq!(text.matches("Detailed informations:").count(), 1);
    assert!(text.contains("is no number"));
}

#[test]
fn drawn_text_is_the_text_or_empty() {
    assert_eq!(drawn_text(Some("Error: \n".to_string())), "Error: \n");
    assert_eq!(drawn_text(Some(String::new())), "");
    assert_eq!(drawn_text(None), "");
}
