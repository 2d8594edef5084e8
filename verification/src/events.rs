//! Decision logic of the event loop: which bus messages matter, which
//! player to follow, and which updates constitute a change. The loop that
//! waits on the bus performs these decisions' outcomes.

use vstd::prelude::*;
use crate::player::{TrackMetadata, meta_eq};
use crate::text::{contains_seq, contains_chars, str_to_chars, str_eq, to_lowercase_str, lower_of};

verus! {

/// The service matches the block list when its lowercased name contains
/// any entry as a substring.
pub open spec fn is_blocked_spec(service: Seq<char>, list: Seq<String>) -> bool {
    exists|i: int| 0 <= i < list.len() && contains_seq(lower_of(service), list[i]@)
}

/// Whether the service is matched by the block list.
pub fn is_blocked(service: &str, block_list: &[String]) -> (r: bool)
    ensures
        r == is_blocked_spec(service@, block_list@),
{
    let lower = to_lowercase_str(service);
    let lchars = str_to_chars(lower.as_str());
    let n: usize = block_list.len();
    let mut i: usize = 0;
    while i < n
        invariant
            i <= n,
            n == block_list@.len(),
            lchars@ == lower_of(service@),
            forall|k: int| 0 <= k < i ==> !contains_seq(lower_of(service@), block_list@[k]@),
        decreases n - i,
    {
        if contains_chars(&lchars, &str_to_chars(block_list[i].as_str())) {
            return true;
        }
        i = i + 1;
    }
    false
}

/// Picks the first service of `names` that the block list does not match.
pub fn select_player(names: &Vec<String>, block_list: &[String]) -> (r: Option<usize>)
    ensures
        match r {
            Some(i) => i < names@.len() && !is_blocked_spec(names@[i as int]@, block_list@)
                && forall|k: int| 0 <= k < i ==> is_blocked_spec(names@[k]@, block_list@),
            None => forall|k: int|
                0 <= k < names@.len() ==> is_blocked_spec(names@[k]@, block_list@),
        },
{
    let n: usize = names.len();
    let mut i: usize = 0;
    while i < n
        invariant
            i <= n,
            n == names@.len(),
            forall|k: int| 0 <= k < i ==> is_blocked_spec(names@[k]@, block_list@),
        decreases n - i,
    {
        if !is_blocked(names[i].as_str(), block_list) {
            return Some(i);
        }
        i = i + 1;
    }
    None
}

/// What a bus message asks of the loop.
#[derive(Debug, Clone, Copy, PartialEq, Eq, Structural)]
pub enum MessageKind {
    /// A seek signal of the player interface: re-anchor the position.
    Seek,
    /// A property-change signal: inspect the changed properties.
    Properties,
    /// Anything else: nothing.
    Ignored,
}

/// The routing of a message by its interface and member names.
pub open spec fn classify_message_spec(interface: Option<Seq<char>>, member: Option<Seq<char>>) -> MessageKind {
    if interface == Some("org.mpris.MediaPlayer2.Player"@) && member == Some("Seeked"@) {
        MessageKind::Seek
    } else if interface == Some("org.freedesktop.DBus.Properties"@) {
        MessageKind::Properties
    } else {
        MessageKind::Ignored
    }
}

/// Routes a bus message by its interface and member names.
pub fn classify_message(interface: Option<&str>, member: Option<&str>) -> (r: MessageKind)
    ensures
        r == classify_message_spec(
            match interface {
                Some(s) => Some(s@),
                None => None,
            },
            match member {
                Some(s) => Some(s@),
                None => None,
            },
        ),
{
    match (interface, member) {
        (Some(i), Some(m)) => {
            if str_eq(i, "org.mpris.MediaPlayer2.Player") && str_eq(m, "Seeked") {
                MessageKind::Seek
            } else if str_eq(i, "org.freedesktop.DBus.Properties") {
                MessageKind::Properties
            } else {
                MessageKind::Ignored
            }
        },
        (Some(i), None) => {
            if str_eq(i, "org.freedesktop.DBus.Properties") {
                MessageKind::Properties
            } else {
                MessageKind::Ignored
            }
        },
        _ => MessageKind::Ignored,
    }
}

/// What a property-change signal concerns, by the interface it names.
#[derive(Debug, Clone, Copy, PartialEq, Eq, Structural)]
pub enum PropertiesKind {
    /// The set of player services may have changed: re-select the player.
    PlayerNames,
    /// The followed player's own properties changed: re-read them.
    PlayerProperties,
    /// Anything else: nothing.
    Ignored,
}

/// The routing of a property-change signal by the interface it names.
pub open spec fn classify_properties_spec(interface_name: Seq<char>) -> PropertiesKind {
    if interface_name == "org.mpris.MediaPlayer2"@ || interface_name
        == "org.freedesktop.DBus.Properties"@ || interface_name
        == "com.github.altdesktop.playerctld"@ {
        PropertiesKind::PlayerNames
    } else if interface_name == "org.mpris.MediaPlayer2.Player"@ {
        PropertiesKind::PlayerProperties
    } else {
        PropertiesKind::Ignored
    }
}

/// Routes a property-change signal by the interface it names.
pub fn classify_properties(interface_name: &str) -> (r: PropertiesKind)
    ensures
        r == classify_properties_spec(interface_name@),
{
    if str_eq(interface_name, "org.mpris.MediaPlayer2") || str_eq(
        interface_name,
        "org.freedesktop.DBus.Properties",
    ) || str_eq(interface_name, "com.github.altdesktop.playerctld") {
        PropertiesKind::PlayerNames
    } else if str_eq(interface_name, "org.mpris.MediaPlayer2.Player") {
        PropertiesKind::PlayerProperties
    } else {
        PropertiesKind::Ignored
    }
}

/// Whether a freshly read metadata snapshot differs from the last one the
/// loop adopted.
pub fn track_differs(a: &TrackMetadata, b: &TrackMetadata) -> (r: bool)
    ensures
        r == !meta_eq(*a, *b),
{
    !(a == b)
}

} // verus!
