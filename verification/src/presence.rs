//! The presence tracker: voice-membership changes of one watched participant
//! drive the session lifecycle.
//!
//! The shell receives membership notifications for everyone in the call; the
//! decision of what a notification means — enable casting, disable casting,
//! move along with the participant, or nothing — is taken here, and the shell
//! carries it out.

use vstd::prelude::*;

verus! {

/// Marker key under which the shell stores the watched participant's
/// identity.
pub struct UserIdKey;

/// What one membership notification calls for.
#[derive(Clone, Copy, Debug, PartialEq, Eq, Structural)]
pub enum PresenceAction {
    /// The watched participant appeared: enable casting.
    EnableCasting,
    /// The watched participant left the call: disable casting.
    DisableCasting,
    /// The watched participant moved: follow into this channel, with no
    /// enable or disable toggle.
    MoveToChannel { channel_id: u64 },
    /// Nothing: the notification concerns someone else, or nothing changed.
    NoAction,
}

/// The transition table. `subject` is whom the notification is about;
/// notifications about anyone but the watched participant are disregarded
/// outright. `old_channel` and `new_channel` are the subject's voice channel
/// before and after.
pub open spec fn presence_decision(
    watched: u64,
    subject: u64,
    old_channel: Option<u64>,
    new_channel: Option<u64>,
) -> PresenceAction {
    if subject != watched {
        PresenceAction::NoAction
    } else {
        match (old_channel, new_channel) {
            (None, _) => PresenceAction::EnableCasting,
            (Some(_), None) => PresenceAction::DisableCasting,
            (Some(a), Some(b)) => if a == b {
                PresenceAction::NoAction
            } else {
                PresenceAction::MoveToChannel { channel_id: b }
            },
        }
    }
}

/// Decides what one membership notification calls for.
pub fn presence_transition(
    watched: u64,
    subject: u64,
    old_channel: Option<u64>,
    new_channel: Option<u64>,
) -> (a: PresenceAction)
    ensures
        a == presence_decision(watched, subject, old_channel, new_channel),
{
    if subject != watched {
        PresenceAction::NoAction
    } else {
        match (old_channel, new_channel) {
            (None, _) => PresenceAction::EnableCasting,
            (Some(_), None) => PresenceAction::DisableCasting,
            (Some(a), Some(b)) => if a == b {
                PresenceAction::NoAction
            } else {
                PresenceAction::MoveToChannel { channel_id: b }
            },
        }
    }
}

/// The startup decision: when the coordinator comes up there is no prior
/// membership to compare against, and casting is enabled exactly when the
/// watched participant is already sitting in some voice channel. This is not
/// a row of the transition table — that table's no-prior-state row enables
/// even towards no channel, which at startup would cast to nobody.
pub fn startup_presence(watched_channel: Option<u64>) -> (enable: bool)
    ensures
        enable <==> watched_channel is Some,
{
    watched_channel.is_some()
}

/// The presence transition table, row by row: a notification about the
/// watched participant yields exactly one action — appearing from nowhere
/// enables casting, leaving disables it, moving between two distinct
/// channels only follows, staying put does nothing — and a notification
/// about anyone else does nothing at all.
pub proof fn lemma_presence_table(
    watched: u64,
    subject: u64,
    old_channel: Option<u64>,
    new_channel: Option<u64>,
)
    ensures
        subject != watched ==> presence_decision(watched, subject, old_channel, new_channel)
            == PresenceAction::NoAction,
        subject == watched ==> match (old_channel, new_channel) {
            (None, _) => presence_decision(watched, subject, old_channel, new_channel)
                == PresenceAction::EnableCasting,
            (Some(_), None) => presence_decision(watched, subject, old_channel, new_channel)
                == PresenceAction::DisableCasting,
            (Some(a), Some(b)) => presence_decision(watched, subject, old_channel, new_channel)
                == if a == b {
                    PresenceAction::NoAction
                } else {
                    PresenceAction::MoveToChannel { channel_id: b }
                },
        },
{
}

} // verus!
