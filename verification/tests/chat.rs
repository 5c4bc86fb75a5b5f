use minecli::chat::{
    capabilities, chat_format, format_chat_message, format_name, ChatFormat, MessageContent, COMMONMARK, COMPONENTS,
};

fn content(commonmark: Option<&str>) -> MessageContent {
    MessageContent {
        commonmark: commonmark.map(|s| s.to_string()),
        plain_text: "plain".to_string(),
        ansi: "\u{1b}[1mplain\u{1b}[0m".to_string(),
    }
}

#[test]
fn format_names() {
    assert_eq!(format_name(true), "components");
    assert_eq!(format_name(false), "commonmark");
    assert_ne!(COMMONMARK, COMPONENTS);
}

#[test]
fn formats_by_name() {
    assert_eq!(chat_format("commonmark"), ChatFormat::CommonMark);
    assert_eq!(chat_format("components"), ChatFormat::Components);
    assert_eq!(chat_format("CommonMark"), ChatFormat::Unknown);
    assert_eq!(chat_format(""), ChatFormat::Unknown);
}

#[test]
fn both_formats_are_announced() {
    for use_components in [true, false] {
        let c = capabilities(use_components);
        assert_eq!(c.supported_formats, vec!["components", "commonmark"]);
        let preferred = c.preferred_format.unwrap();
        assert_eq!(preferred, if use_components { "components" } else { "commonmark" });
        assert!(c.supported_formats.contains(&preferred));
    }
}

#[test]
fn commonmark_is_shown_as_it_was_sent() {
    assert_eq!(format_chat_message("commonmark", &content(Some("**plain**"))), "**plain**");
}

#[test]
fn commonmark_without_text_is_shown_plain() {
    assert_eq!(format_chat_message("commonmark", &content(None)), "plain");
}

#[test]
fn components_are_shown_with_styling() {
    let styled = "\u{1b}[1mplain\u{1b}[0m";
    assert_eq!(format_chat_message("components", &content(None)), styled);
    assert_eq!(format_chat_message("components", &content(Some("**plain**"))), styled);
}

#[test]
fn unknown_format_is_shown_plain() {
    for format in ["", "html", "CommonMark", "components "] {
        assert_eq!(format_chat_message(format, &content(Some("**plain**"))), "plain");
    }
}
