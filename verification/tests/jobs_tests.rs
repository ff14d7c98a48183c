use chat_worker::config::Config;
use chat_worker::guild::Server;
use chat_worker::jobs::{
    CreateChannel, DeleteChannel, DeleteMessage, EditMessage, GetGuildPreview, GetMembers,
    GetMessages, GetUserMessages, SendFile, SendMessage,
};

#[test]
fn job_parameters_are_carried_unchanged() {
    let m = GetMessages::new(12, 100);
    assert_eq!((m.channel_id, m.limit), (12, 100));
    let um = GetUserMessages::new(12, 34, 50);
    assert_eq!((um.channel_id, um.user_id, um.limit), (12, 34, 50));
    let mem = GetMembers::new(7, 200);
    assert_eq!((mem.server_id, mem.limit), (7, 200));
    let p = GetGuildPreview::new(7);
    assert_eq!(p.server_id, 7);

    let s = SendMessage::new(5, "hello".to_string(), Some(99));
    assert_eq!((s.channel_id, s.content.as_str(), s.reply_id), (5, "hello", Some(99)));
    let e = EditMessage::new(5, 40, "new".to_string());
    assert_eq!((e.channel_id, e.message_id, e.new_content.as_str()), (5, 40, "new"));
    let d = DeleteMessage::new(5, 40);
    assert_eq!((d.channel_id, d.message_id), (5, 40));
    let f = SendFile::new(5, "cat.png".to_string(), vec![9, 9]);
    assert_eq!((f.channel_id, f.filename.as_str()), (5, "cat.png"));
    assert_eq!(f.bytes, vec![9, 9]);
    let cc = CreateChannel::new(7, "general".to_string());
    assert_eq!((cc.server_id, cc.name.as_str()), (7, "general"));
    let dc = DeleteChannel::new(11);
    assert_eq!(dc.channel_id, 11);
}

#[test]
fn server_entry_starts_without_channels_or_preview() {
    let s = Server::new(3, "alpha".to_string(), Some("hash".to_string()), true, 8, vec!["x".to_string()]);
    assert_eq!(s.id, 3);
    assert_eq!(s.name, "alpha");
    assert_eq!(s.icon.as_deref(), Some("hash"));
    assert!(s.owner);
    assert_eq!(s.permissions, 8);
    assert_eq!(s.features, vec!["x".to_string()]);
    assert!(s.text_channels.is_empty());
    assert!(s.voice_channels.is_empty());
    assert!(s.preview.is_none());
}

#[test]
fn config_carries_its_values() {
    let c = Config::new("example-token".to_string(), true, "firefox".to_string());
    assert_eq!(c.token, "example-token");
    assert!(c.enable_cache);
    assert_eq!(c.browser_name, "firefox");
}
