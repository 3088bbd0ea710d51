//! The session controller: the lifecycle of the remote connect session.
//!
//! Enabling builds a fresh sink-backed pipeline and asks the shell to open a
//! connect session and run its protocol loop; disabling requests cooperative
//! shutdown of the session that is active, and is a harmless no-op when none
//! is. The connect session itself is an opaque handle owned by the shell;
//! here each one is identified by the number under which it was opened, and
//! the controller state says which one, if any, is current.

use vstd::prelude::*;
use crate::sink::EmittedSink;
use crate::sink::fresh_sink;

verus! {

/// Playback quality tier requested from the streaming service.
#[derive(Clone, Copy, Debug, PartialEq, Eq, Structural)]
pub enum Bitrate {
    Bitrate96,
    Bitrate160,
    Bitrate320,
}

/// How volume changes requested by the remote controller map to playback.
#[derive(Clone, Copy, Debug, PartialEq, Eq, Structural)]
pub enum VolumeCtrl {
    Linear,
    Log,
    Fixed,
}

/// The device tag under which a connect session advertises itself.
#[derive(Clone, Copy, Debug, PartialEq, Eq, Structural)]
pub enum DeviceType {
    Unknown,
    Computer,
    Tablet,
    Smartphone,
    Speaker,
    Tv,
    Avr,
    Stb,
    AudioDongle,
    GameConsole,
    CastAudio,
    CastVideo,
    Automobile,
    Smartwatch,
    Chromebook,
}

/// Settings of the playback engine. Loudness normalisation is kept off, so
/// its floating-point shaping knobs have no bearing here and stay with the
/// engine outside.
#[derive(Clone, Copy, Debug, PartialEq, Eq, Structural)]
pub struct PlayerSettings {
    pub bitrate: Bitrate,
    pub normalisation: bool,
    pub gapless: bool,
    pub passthrough: bool,
}

/// The advertisement configuration of one connect session.
#[derive(Clone, Debug)]
pub struct ConnectConfig {
    pub name: String,
    pub device_type: DeviceType,
    pub volume: u16,
    pub autoplay: bool,
    pub volume_ctrl: VolumeCtrl,
}

/// What an enable asks of the shell: open a connect session under the given
/// number with the given configuration and run its protocol loop until its
/// shutdown capability is invoked. `replaced_session` names the session that
/// was current before and is now merely replaced, not shut down — starting
/// over an active session is deliberately not guarded.
#[derive(Clone, Debug)]
pub struct ConnectRequest {
    pub session_id: u64,
    pub config: ConnectConfig,
    pub replaced_session: Option<u64>,
}

/// How playback volume is governed, in place of a stand-in mixer pinned to
/// one built-in value.
#[derive(Clone, Copy, Debug, PartialEq, Eq, Structural)]
pub enum VolumePolicy {
    /// The level never moves from the one configured.
    Fixed { level: u16 },
    /// The remote controller may move the level.
    Adjustable { level: u16 },
    /// An external controller governs volume; no local level is kept.
    ExternalController,
}

impl VolumePolicy {
    /// The locally known level, if the policy keeps one.
    pub fn volume(&self) -> (v: Option<u16>)
        ensures
            v == match *self {
                VolumePolicy::Fixed { level } => Some(level),
                VolumePolicy::Adjustable { level } => Some(level),
                VolumePolicy::ExternalController => None::<u16>,
            },
    {
        match self {
            VolumePolicy::Fixed { level } => Some(*level),
            VolumePolicy::Adjustable { level } => Some(*level),
            VolumePolicy::ExternalController => None,
        }
    }

    /// A requested volume change: only an adjustable policy moves.
    pub fn set_volume(&mut self, requested: u16)
        ensures
            *final(self) == match *old(self) {
                VolumePolicy::Adjustable { level } => VolumePolicy::Adjustable {
                    level: requested,
                },
                other => other,
            },
    {
        match self {
            VolumePolicy::Adjustable { level: _ } => {
                *self = VolumePolicy::Adjustable { level: requested };
            },
            _ => {},
        }
    }
}

/// Marker key under which the shell stores the shared player state.
pub struct SpotifyPlayerKey;

/// The player: the playback settings, the sink its engine writes into, and
/// the lifecycle state of the connect session and its event stream.
pub struct SpotifyPlayer {
    pub player_config: PlayerSettings,
    pub emitted_sink: EmittedSink,
    /// The number of the connect session currently held, if any.
    pub spirc: Option<u64>,
    /// The number of the session whose event stream is the active one. The
    /// stream handle itself lives with the shell; enabling replaces it.
    pub event_channel: Option<u64>,
    /// The number the next opened session will get.
    pub next_session_id: u64,
}

impl SpotifyPlayer {
    pub open spec fn wf(self) -> bool {
        &&& self.emitted_sink.wf()
        &&& (self.spirc matches Some(id) ==> id < self.next_session_id)
        &&& (self.event_channel matches Some(id) ==> id < self.next_session_id)
    }

    /// A fresh player: chosen quality, normalisation off, gapless playback, a
    /// fresh empty sink, no connect session yet, and the startup engine's
    /// event stream (number 0) as the active one.
    pub fn new(quality: Bitrate) -> (p: SpotifyPlayer)
        ensures
            p.wf(),
            p.player_config == (PlayerSettings {
                bitrate: quality,
                normalisation: false,
                gapless: true,
                passthrough: false,
            }),
            p.spirc is None,
            p.event_channel == Some(0u64),
            p.next_session_id == 1u64,
            fresh_sink(p.emitted_sink),
    {
        SpotifyPlayer {
            player_config: PlayerSettings {
                bitrate: quality,
                normalisation: false,
                gapless: true,
                passthrough: false,
            },
            emitted_sink: EmittedSink::new(),
            spirc: None,
            event_channel: Some(0),
            next_session_id: 1,
        }
    }

    /// Enabling: the current session (if any) is replaced by a fresh one, the
    /// active event stream becomes the fresh session's stream, and the fresh
    /// session's pipeline is backed by a fresh sink — no byte buffered for
    /// the replaced session survives into the new one.
    pub open spec fn enable_transition(
        pre: SpotifyPlayer,
        post: SpotifyPlayer,
        r: ConnectRequest,
    ) -> bool {
        &&& r.session_id == pre.next_session_id
        &&& r.replaced_session == pre.spirc
        &&& r.config.autoplay
        &&& post.spirc == Some(r.session_id)
        &&& post.event_channel == Some(r.session_id)
        &&& post.next_session_id == pre.next_session_id + 1
        &&& post.player_config == pre.player_config
        &&& fresh_sink(post.emitted_sink)
    }

    /// Disabling: the current session, if one exists, is invalidated and its
    /// shutdown is requested; with none, nothing happens at all.
    pub open spec fn disable_transition(
        pre: SpotifyPlayer,
        post: SpotifyPlayer,
        r: Option<u64>,
    ) -> bool {
        match pre.spirc {
            Some(id) => r == Some(id) && post == SpotifyPlayer { spirc: None, ..pre },
            None => r is None && post == pre,
        }
    }

    /// Makes the player castable: hands back the request under which the
    /// shell is to open a fresh connect session — with the given device
    /// advertisement, autoplay on — and to run its protocol loop. The fresh
    /// session becomes current, its event stream the active one, and its
    /// pipeline is backed by a fresh, empty sink. A session that was already
    /// current is only replaced, never shut down here; the request names it
    /// so the shell can observe the overlap.
    pub fn enable_connect(
        &mut self,
        device_name: String,
        device_type: DeviceType,
        initial_volume: u16,
        volume_ctrl: VolumeCtrl,
    ) -> (r: ConnectRequest)
        requires
            old(self).wf(),
            old(self).next_session_id < u64::MAX,
        ensures
            final(self).wf(),
            SpotifyPlayer::enable_transition(*old(self), *final(self), r),
            r.config.name == device_name,
            r.config.device_type == device_type,
            r.config.volume == initial_volume,
            r.config.volume_ctrl == volume_ctrl,
            r.config.autoplay,
    {
        let session_id = self.next_session_id;
        let replaced_session = self.spirc;
        self.spirc = Some(session_id);
        self.event_channel = Some(session_id);
        self.next_session_id = session_id + 1;
        self.emitted_sink = EmittedSink::new();
        ConnectRequest {
            session_id,
            config: ConnectConfig {
                name: device_name,
                device_type,
                volume: initial_volume,
                autoplay: true,
                volume_ctrl,
            },
            replaced_session,
        }
    }

    /// Requests cooperative shutdown of the current connect session and
    /// forgets it; returns which session to shut down, or `None` — with no
    /// session active this is a no-op and never an error.
    pub fn disable_connect(&mut self) -> (r: Option<u64>)
        requires
            old(self).wf(),
        ensures
            final(self).wf(),
            SpotifyPlayer::disable_transition(*old(self), *final(self), r),
    {
        match self.spirc {
            Some(id) => {
                self.spirc = None;
                Some(id)
            },
            None => None,
        }
    }
}

/// Lifecycle idempotence, first half: a disable when no session is active
/// changes nothing and requests no shutdown.
pub proof fn lemma_disable_inactive(pre: SpotifyPlayer, post: SpotifyPlayer, r: Option<u64>)
    requires
        SpotifyPlayer::disable_transition(pre, post, r),
        pre.spirc is None,
    ensures
        post == pre,
        r is None,
{
}

/// Lifecycle idempotence, second half: a disable right after an enable
/// requests shutdown of exactly the session that the enable opened — the
/// spawned protocol loop is told to stop, and no session stays current.
pub proof fn lemma_enable_then_disable(
    s0: SpotifyPlayer,
    s1: SpotifyPlayer,
    r: ConnectRequest,
    s2: SpotifyPlayer,
    d: Option<u64>,
)
    requires
        SpotifyPlayer::enable_transition(s0, s1, r),
        SpotifyPlayer::disable_transition(s1, s2, d),
    ensures
        d == Some(r.session_id),
        s2.spirc is None,
{
}

} // verus!
