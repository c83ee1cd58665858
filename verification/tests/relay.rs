use apod::registry::{Registry, Role};
use apod::relay::{
    apply_picked_dir, handle_text_frame, lan_ip_reply, leader_joined_replies, save_dir_reply,
    LeaderAction,
};

#[test]
fn valid_frame_is_broadcast_verbatim() {
    let text = String::from("{\"event\":\"recording-started\",\"t\":3}");
    let out = handle_text_frame(text.clone(), false);
    assert_eq!(out.broadcast, Some(text));
    assert!(matches!(out.action, LeaderAction::Ignore));
}

#[test]
fn unparsable_frame_is_dropped_silently() {
    let out = handle_text_frame(String::from("not json at all"), true);
    assert_eq!(out.broadcast, None);
    assert!(matches!(out.action, LeaderAction::Ignore));
}

#[test]
fn leader_joined_triggers_leader_action() {
    let text = String::from("{\"event\":\"leader-joined\"}");
    let out = handle_text_frame(text.clone(), true);
    assert_eq!(out.broadcast, Some(text));
    assert!(matches!(out.action, LeaderAction::LeaderJoined));
}

#[test]
fn leader_joined_from_follower_is_only_relayed() {
    let text = String::from("{\"event\":\"leader-joined\"}");
    let out = handle_text_frame(text.clone(), false);
    assert_eq!(out.broadcast, Some(text));
    assert!(matches!(out.action, LeaderAction::Ignore));
}

#[test]
fn pick_savedir_triggers_picker_action() {
    let out = handle_text_frame(String::from("{\"event\":\"pick-savedir\"}"), true);
    assert!(matches!(out.action, LeaderAction::PickSaveDir));
}

#[test]
fn non_string_event_is_only_relayed() {
    let text = String::from("{\"event\":7}");
    let out = handle_text_frame(text.clone(), true);
    assert_eq!(out.broadcast, Some(text));
    assert!(matches!(out.action, LeaderAction::Ignore));
}

#[test]
fn missing_event_is_only_relayed() {
    let text = String::from("{\"kind\":\"other\"}");
    let out = handle_text_frame(text.clone(), true);
    assert_eq!(out.broadcast, Some(text));
    assert!(matches!(out.action, LeaderAction::Ignore));
}

#[test]
fn leader_joined_gets_exactly_two_direct_replies() {
    let replies = leader_joined_replies("192.168.1.4", "/media/pods");
    assert_eq!(replies.len(), 2);
    assert_eq!(
        replies[0],
        String::from("{ \"event\":\"lan-ip\", \"ip\": \"192.168.1.4\" }")
    );
    assert_eq!(
        replies[1],
        String::from("{ \"event\":\"set-save-dir\", \"save-dir\": \"/media/pods\" }")
    );
}

#[test]
fn reply_builders_embed_their_argument() {
    assert_eq!(
        lan_ip_reply("10.0.0.2"),
        String::from("{ \"event\":\"lan-ip\", \"ip\": \"10.0.0.2\" }")
    );
    assert_eq!(
        save_dir_reply("/data"),
        String::from("{ \"event\":\"set-save-dir\", \"save-dir\": \"/data\" }")
    );
}

#[test]
fn picked_dir_updates_registry_and_replies() {
    let mut reg = Registry::new(String::from("/old"));
    reg.register(1, Role::Leader);
    let reply = apply_picked_dir(&mut reg, Some(String::from("/new")));
    assert_eq!(
        reply,
        Some(String::from("{ \"event\":\"set-save-dir\", \"save-dir\": \"/new\" }"))
    );
    assert_eq!(reg.get_save_dir(), String::from("/new"));
    assert_eq!(reg.sessions.len(), 1);
}

#[test]
fn cancelled_pick_changes_nothing_and_replies_nothing() {
    let mut reg = Registry::new(String::from("/old"));
    let reply = apply_picked_dir(&mut reg, None);
    assert_eq!(reply, None);
    assert_eq!(reg.get_save_dir(), String::from("/old"));
}
