use chat_worker::model::Message;
use chat_worker::util::{
    format_message, format_message_no_attachments, is_domain_trusted, is_supported_media,
    strip_parameters,
};

fn msg(content: &str, urls: &[&str]) -> Message {
    Message {
        id: 1,
        channel_id: 2,
        author_name: "alice".to_string(),
        content: content.to_string(),
        attachment_urls: urls.iter().map(|u| u.to_string()).collect(),
    }
}

#[test]
fn strip_parameters_cuts_at_first_question_mark() {
    assert_eq!(
        strip_parameters("https://cdn.discordapp.com/a/cat.png?width=300&height=200".to_string()),
        "https://cdn.discordapp.com/a/cat.png"
    );
    assert_eq!(strip_parameters("a?b?c".to_string()), "a");
    assert_eq!(strip_parameters("?trailing".to_string()), "");
}

#[test]
fn strip_parameters_leaves_plain_links_alone() {
    assert_eq!(strip_parameters("https://media.tenor.com/x.gif".to_string()), "https://media.tenor.com/x.gif");
    assert_eq!(strip_parameters(String::new()), "");
}

#[test]
fn trusted_domains() {
    assert!(is_domain_trusted(&"https://cdn.discordapp.com/attachments/1/2/cat.png".to_string()));
    assert!(is_domain_trusted(&"https://media.tenor.com/x/y.gif".to_string()));
    assert!(!is_domain_trusted(&"https://example.com/cat.png".to_string()));
    assert!(!is_domain_trusted(&"http://cdn.discordapp.com/cat.png".to_string()));
    assert!(!is_domain_trusted(&"".to_string()));
}

#[test]
fn supported_media_suffixes() {
    assert!(is_supported_media(&"a.png".to_string()));
    assert!(is_supported_media(&"a.jpg".to_string()));
    assert!(is_supported_media(&"a.jpeg".to_string()));
    assert!(is_supported_media(&"a.gif".to_string()));
    assert!(!is_supported_media(&"a.bmp".to_string()));
    assert!(!is_supported_media(&"a.PNG".to_string()));
    assert!(!is_supported_media(&"gi".to_string()));
}

#[test]
fn message_line_without_attachment_handling() {
    assert_eq!(format_message_no_attachments(&msg("hi there", &[])), "[alice] hi there");
    assert_eq!(format_message_no_attachments(&msg("", &[])), "[alice]");
}

#[test]
fn message_line_with_attachments() {
    assert_eq!(format_message(&msg("hi", &[])), "[alice] hi");
    assert_eq!(format_message(&msg("", &[])), "[alice]");
    assert_eq!(
        format_message(&msg("look", &["https://cdn.discordapp.com/cat.png?w=1"])),
        "[alice] look https://cdn.discordapp.com/cat.png"
    );
    assert_eq!(
        format_message(&msg("", &["https://cdn.discordapp.com/cat.png?w=1"])),
        "[alice] https://cdn.discordapp.com/cat.png"
    );
}
