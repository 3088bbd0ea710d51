//! The event coordinator: playback-state events from the active session
//! stream become playback and presence actions.
//!
//! The shell runs the long-lived loop — waiting on the stream, joining and
//! leaving the call, talking to the metadata and presence services — and asks
//! this module what each yielded event means. Metadata lookups come back to
//! [`playing_status_update`], which decides what happens to the displayed
//! status; a failed lookup is degraded mode, never an error.

use vstd::prelude::*;
use vstd::string::StringExecFns;

verus! {

/// One playback-state event, in emission order; the track of a `Playing`
/// event is named by its 128-bit identity.
#[derive(Clone, Copy, Debug, PartialEq, Eq, Structural)]
pub enum PlaybackEvent {
    Stopped,
    Started,
    Paused,
    Playing { track_id: u128 },
    /// Catch-all for the event kinds that drive no action.
    Other,
}

/// What one coordinator iteration must do next.
#[derive(Clone, Copy, Debug, PartialEq, Eq, Structural)]
pub enum CoordinatorAction {
    /// Clear the displayed status and leave the voice call.
    ClearStatusAndLeave,
    /// Join the watched participant's channel, configure the output bitrate,
    /// and start reading playback audio from the current sink.
    JoinAndPlay { channel_id: u64 },
    /// Clear the displayed status.
    ClearStatus,
    /// Resolve track metadata, then primary-artist metadata, for the track
    /// now playing.
    ResolveMetadata { track_id: u128 },
    /// Nothing this iteration; an empty wait is simply retried.
    NoAction,
}

/// The coordinator's decision table over one wait on the event stream.
pub open spec fn coordination(
    event: Option<PlaybackEvent>,
    watched_channel: Option<u64>,
) -> CoordinatorAction {
    match event {
        None => CoordinatorAction::NoAction,
        Some(PlaybackEvent::Stopped) => CoordinatorAction::ClearStatusAndLeave,
        Some(PlaybackEvent::Started) => match watched_channel {
            Some(channel_id) => CoordinatorAction::JoinAndPlay { channel_id },
            None => CoordinatorAction::NoAction,
        },
        Some(PlaybackEvent::Paused) => CoordinatorAction::ClearStatus,
        Some(PlaybackEvent::Playing { track_id }) => CoordinatorAction::ResolveMetadata {
            track_id,
        },
        Some(PlaybackEvent::Other) => CoordinatorAction::NoAction,
    }
}

/// One iteration's decision. `event` is what the wait on the active stream
/// yielded — `None` is a transient empty wait, retried without action.
/// `watched_channel` is where the watched participant currently sits; a
/// `Started` with nowhere to join is skipped.
pub fn coordinate(event: &Option<PlaybackEvent>, watched_channel: Option<u64>) -> (a:
    CoordinatorAction)
    ensures
        a == coordination(*event, watched_channel),
{
    match event {
        None => CoordinatorAction::NoAction,
        Some(PlaybackEvent::Stopped) => CoordinatorAction::ClearStatusAndLeave,
        Some(PlaybackEvent::Started) => match watched_channel {
            Some(channel_id) => CoordinatorAction::JoinAndPlay { channel_id },
            None => CoordinatorAction::NoAction,
        },
        Some(PlaybackEvent::Paused) => CoordinatorAction::ClearStatus,
        Some(PlaybackEvent::Playing { track_id }) => CoordinatorAction::ResolveMetadata {
            track_id: *track_id,
        },
        Some(PlaybackEvent::Other) => CoordinatorAction::NoAction,
    }
}

/// Track metadata as resolved from the streaming session: the display name
/// and the credited artists' identities, primary artist first.
#[derive(Clone, Debug)]
pub struct TrackInfo {
    pub name: String,
    pub artists: Vec<u128>,
}

/// Artist metadata: the display name.
#[derive(Clone, Debug)]
pub struct ArtistInfo {
    pub name: String,
}

/// The artist whose lookup follows a successful track lookup: the primary,
/// that is the first credited. A track crediting nobody has none — that
/// counts as a failed resolution, not a fault.
pub fn primary_artist(track: &TrackInfo) -> (r: Option<u128>)
    ensures
        r == if track.artists@.len() > 0 {
            Some(track.artists@[0])
        } else {
            None::<u128>
        },
{
    if track.artists.len() > 0 {
        Some(track.artists[0])
    } else {
        None
    }
}

/// What a `Playing` event does to the displayed status once its lookups have
/// come back.
#[derive(Clone, Debug)]
pub enum StatusUpdate {
    /// Show this listening text.
    SetListening { text: String },
    /// Leave the displayed status exactly as it was.
    KeepStatus,
}

/// The listening text: the artist's name, a separating colon and space, the
/// track's name.
pub open spec fn listening_text(artist: Seq<char>, track: Seq<char>) -> Seq<char> {
    artist + ": "@ + track
}

/// The update a `Playing` event's lookups call for: both resolved — show the
/// listening text; either failed — keep the status.
pub open spec fn playing_update(
    track: Option<TrackInfo>,
    artist: Option<ArtistInfo>,
    u: StatusUpdate,
) -> bool {
    match (track, artist) {
        (Some(t), Some(a)) => u matches StatusUpdate::SetListening { text } && text@
            == listening_text(a.name@, t.name@),
        _ => u is KeepStatus,
    }
}

/// The status text "<artist>: <track>".
pub fn format_listening(artist: &String, track: &String) -> (r: String)
    ensures
        r@ == listening_text(artist@, track@),
{
    let mut r = artist.clone();
    r.append(": ");
    r.append(track.as_str());
    r
}

/// Decides the status update after the metadata lookups of a `Playing` event:
/// `track` is the track resolution's outcome, `artist` the primary-artist
/// resolution's. On any failure the status is kept — degraded mode, silent
/// by design.
pub fn playing_status_update(track: &Option<TrackInfo>, artist: &Option<ArtistInfo>) -> (u:
    StatusUpdate)
    ensures
        playing_update(*track, *artist, u),
{
    match (track, artist) {
        (Some(t), Some(a)) => StatusUpdate::SetListening {
            text: format_listening(&a.name, &t.name),
        },
        _ => StatusUpdate::KeepStatus,
    }
}

/// The status displayed after an update is applied to the current one.
pub open spec fn displayed_after(current: Option<Seq<char>>, u: StatusUpdate) -> Option<
    Seq<char>,
> {
    match u {
        StatusUpdate::SetListening { text } => Some(text@),
        StatusUpdate::KeepStatus => current,
    }
}

/// Degraded metadata: when the track or the primary-artist lookup of a
/// `Playing` event fails, the update it yields leaves the previously
/// displayed status exactly unchanged, whatever that status was.
pub proof fn lemma_degraded_metadata(
    current: Option<Seq<char>>,
    track: Option<TrackInfo>,
    artist: Option<ArtistInfo>,
    u: StatusUpdate,
)
    requires
        playing_update(track, artist, u),
        track is None || artist is None,
    ensures
        displayed_after(current, u) == current,
{
}

} // verus!
