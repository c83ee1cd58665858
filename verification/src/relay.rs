//! Fan-out of inbound frames and the leader-only commands.
//!
//! Every session's inbound text frame comes through `handle_text_frame`: an
//! unparsable frame is dropped silently (no relay, no reply); a parsable one
//! is broadcast verbatim to every registered session, the sender included.
//! When the sender is the leader, two events are recognized by exact match
//! and answered with direct replies to the sender only: `leader-joined`
//! (the local network address, then the save directory) and `pick-savedir`
//! (run the directory picker; on a chosen path, update the registry and
//! reply with the new path; on cancellation, change nothing).

use vstd::prelude::*;
use vstd::string::StringExecFns;

use crate::json::{json_event, json_valid, parse_frame, ParsedFrame};
use crate::registry::Registry;

verus! {

/// The leader command an inbound frame triggers, if any. The owner performs
/// the side effects (address lookup, directory picker) and feeds the results
/// back through `leader_joined_replies` or `apply_picked_dir`.
pub enum LeaderAction {
    /// No leader command: not the leader, not parsable, or an opaque event.
    Ignore,
    /// Reply to the sender with the local address and the save directory.
    LeaderJoined,
    /// Run the directory picker and apply its result.
    PickSaveDir,
}

/// What one inbound text frame asks the owner to do.
pub struct FrameOutcome {
    /// The payload to deliver to every registered session, unmodified;
    /// `None` when the frame is dropped.
    pub broadcast: Option<String>,
    /// The leader command the frame triggers, if any.
    pub action: LeaderAction,
}

/// Decides what an inbound text frame leads to. A frame that does not parse
/// as a JSON record is dropped silently: no broadcast, no reply, membership
/// untouched. A parsable frame is broadcast verbatim; the two leader-only
/// events are recognized only for the leader session.
pub fn handle_text_frame(text: String, is_leader: bool) -> (out: FrameOutcome)
    ensures
        json_valid(text@) ==> (out.broadcast matches Some(p) && p@ == text@),
        !json_valid(text@) ==> out.broadcast is None && out.action is Ignore,
        (out.action is LeaderJoined) <==> (json_valid(text@) && is_leader && json_event(text@)
            == Some("leader-joined"@)),
        (out.action is PickSaveDir) <==> (json_valid(text@) && is_leader && json_event(text@)
            == Some("pick-savedir"@)),
{
    proof {
        reveal_strlit("leader-joined");
        reveal_strlit("pick-savedir");
        assert("leader-joined"@.len() == 13);
        assert("pick-savedir"@.len() == 12);
    }
    match parse_frame(text.as_str()) {
        ParsedFrame::NotRecord => FrameOutcome { broadcast: None, action: LeaderAction::Ignore },
        ParsedFrame::Record { event } => {
            let action = if is_leader {
                match event {
                    Some(e) => {
                        if e == String::from_str("leader-joined") {
                            LeaderAction::LeaderJoined
                        } else if e == String::from_str("pick-savedir") {
                            LeaderAction::PickSaveDir
                        } else {
                            LeaderAction::Ignore
                        }
                    },
                    None => LeaderAction::Ignore,
                }
            } else {
                LeaderAction::Ignore
            };
            FrameOutcome { broadcast: Some(text), action }
        },
    }
}

/// The direct reply carrying the local network address to the leader.
pub open spec fn lan_ip_reply_spec(ip: Seq<char>) -> Seq<char> {
    "{ \"event\":\"lan-ip\", \"ip\": \""@ + ip + "\" }"@
}

/// The direct reply carrying the current save directory to the leader.
pub open spec fn save_dir_reply_spec(dir: Seq<char>) -> Seq<char> {
    "{ \"event\":\"set-save-dir\", \"save-dir\": \""@ + dir + "\" }"@
}

/// Builds the reply that tells the leader the local network address.
pub fn lan_ip_reply(ip: &str) -> (r: String)
    ensures
        r@ == lan_ip_reply_spec(ip@),
{
    let mut r = String::from_str("{ \"event\":\"lan-ip\", \"ip\": \"");
    r.append(ip);
    r.append("\" }");
    r
}

/// Builds the reply that tells the leader the current save directory.
pub fn save_dir_reply(dir: &str) -> (r: String)
    ensures
        r@ == save_dir_reply_spec(dir@),
{
    let mut r = String::from_str("{ \"event\":\"set-save-dir\", \"save-dir\": \"");
    r.append(dir);
    r.append("\" }");
    r
}

/// The two direct replies a `leader-joined` event earns the leader: the
/// local network address first, then the current save directory — exactly
/// two, to the sender only, never broadcast.
pub fn leader_joined_replies(lan_ip: &str, save_dir: &str) -> (r: Vec<String>)
    ensures
        r@.len() == 2,
        r@[0]@ == lan_ip_reply_spec(lan_ip@),
        r@[1]@ == save_dir_reply_spec(save_dir@),
{
    let mut r: Vec<String> = Vec::new();
    r.push(lan_ip_reply(lan_ip));
    r.push(save_dir_reply(save_dir));
    r
}

/// Applies the directory picker's result after a `pick-savedir` event. A
/// chosen path becomes the registry's save directory and is echoed to the
/// sender; cancellation changes nothing and sends nothing. Membership is
/// untouched either way.
pub fn apply_picked_dir(reg: &mut Registry, picked: Option<String>) -> (reply: Option<String>)
    ensures
        final(reg).sessions@ == old(reg).sessions@,
        match picked {
            None => final(reg).save_dir@ == old(reg).save_dir@ && reply is None,
            Some(d) => final(reg).save_dir@ == d@ && (reply matches Some(r) && r@
                == save_dir_reply_spec(d@)),
        },
{
    match picked {
        None => None,
        Some(d) => {
            let reply = save_dir_reply(d.as_str());
            reg.set_save_dir(d);
            Some(reply)
        },
    }
}

} // verus!
