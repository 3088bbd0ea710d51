use aoede::coordinator::{
    coordinate, playing_status_update, primary_artist, ArtistInfo, CoordinatorAction,
    PlaybackEvent, StatusUpdate, TrackInfo,
};
use aoede::player::{Bitrate, DeviceType, SpotifyPlayer, VolumeCtrl, VolumePolicy};
use aoede::presence::{presence_transition, startup_presence, PresenceAction};

#[test]
fn disable_without_session_is_a_noop() {
    let mut player = SpotifyPlayer::new(Bitrate::Bitrate320);
    assert_eq!(player.spirc, None);
    assert_eq!(player.disable_connect(), None);
    assert_eq!(player.spirc, None);
    assert_eq!(player.event_channel, Some(0));
}

#[test]
fn enable_then_disable_shuts_the_opened_session() {
    let mut player = SpotifyPlayer::new(Bitrate::Bitrate320);
    let request = player.enable_connect(
        "aoede".to_string(),
        DeviceType::GameConsole,
        65535,
        VolumeCtrl::Linear,
    );
    assert_eq!(player.spirc, Some(request.session_id));
    assert_eq!(player.event_channel, Some(request.session_id));
    assert_eq!(player.disable_connect(), Some(request.session_id));
    assert_eq!(player.spirc, None);
}

#[test]
fn enable_while_enabled_replaces_without_shutdown() {
    let mut player = SpotifyPlayer::new(Bitrate::Bitrate160);
    let first = player.enable_connect(
        "aoede".to_string(),
        DeviceType::Speaker,
        100,
        VolumeCtrl::Fixed,
    );
    assert_eq!(first.replaced_session, None);
    let second = player.enable_connect(
        "aoede".to_string(),
        DeviceType::Speaker,
        100,
        VolumeCtrl::Fixed,
    );
    assert_eq!(second.replaced_session, Some(first.session_id));
    assert_ne!(second.session_id, first.session_id);
    assert_eq!(player.disable_connect(), Some(second.session_id));
}

#[test]
fn enable_builds_the_requested_configuration() {
    let mut player = SpotifyPlayer::new(Bitrate::Bitrate96);
    let request = player.enable_connect(
        "living room".to_string(),
        DeviceType::AudioDongle,
        32768,
        VolumeCtrl::Log,
    );
    assert_eq!(request.config.name, "living room");
    assert_eq!(request.config.device_type, DeviceType::AudioDongle);
    assert_eq!(request.config.volume, 32768);
    assert_eq!(request.config.volume_ctrl, VolumeCtrl::Log);
    assert!(request.config.autoplay);
}

#[test]
fn enable_gives_a_fresh_empty_sink() {
    let mut player = SpotifyPlayer::new(Bitrate::Bitrate320);
    let leftovers: Vec<u8> = vec![1, 2, 3, 4];
    assert_eq!(player.emitted_sink.write_available(&leftovers, 0), 4);
    player.enable_connect(
        "aoede".to_string(),
        DeviceType::Speaker,
        100,
        VolumeCtrl::Linear,
    );
    // Nothing buffered before the enable reaches the new session's pipeline.
    assert_eq!(player.emitted_sink.read_available(8), Vec::<u8>::new());
    assert_eq!(player.emitted_sink.write_available(&leftovers, 0), 4);
    assert_eq!(player.emitted_sink.read_available(8), leftovers);
}

const WATCHED: u64 = 11;
const OTHER: u64 = 12;
const CHANNEL_A: u64 = 500;
const CHANNEL_B: u64 = 501;

#[test]
fn presence_appearing_enables_casting() {
    let action = presence_transition(WATCHED, WATCHED, None, Some(CHANNEL_A));
    assert_eq!(action, PresenceAction::EnableCasting);
}

#[test]
fn presence_leaving_disables_casting() {
    let action = presence_transition(WATCHED, WATCHED, Some(CHANNEL_A), None);
    assert_eq!(action, PresenceAction::DisableCasting);
}

#[test]
fn presence_moving_only_follows() {
    let action = presence_transition(WATCHED, WATCHED, Some(CHANNEL_A), Some(CHANNEL_B));
    assert_eq!(action, PresenceAction::MoveToChannel { channel_id: CHANNEL_B });
    assert_ne!(action, PresenceAction::EnableCasting);
    assert_ne!(action, PresenceAction::DisableCasting);
}

#[test]
fn presence_staying_put_does_nothing() {
    let action = presence_transition(WATCHED, WATCHED, Some(CHANNEL_A), Some(CHANNEL_A));
    assert_eq!(action, PresenceAction::NoAction);
}

#[test]
fn startup_enables_only_when_already_in_a_channel() {
    assert!(startup_presence(Some(CHANNEL_A)));
    assert!(!startup_presence(None));
}

#[test]
fn presence_of_someone_else_is_disregarded() {
    let action = presence_transition(WATCHED, OTHER, None, Some(CHANNEL_A));
    assert_eq!(action, PresenceAction::NoAction);
}

#[test]
fn coordinator_action_table() {
    assert_eq!(
        coordinate(&Some(PlaybackEvent::Stopped), Some(CHANNEL_A)),
        CoordinatorAction::ClearStatusAndLeave
    );
    assert_eq!(
        coordinate(&Some(PlaybackEvent::Started), Some(CHANNEL_A)),
        CoordinatorAction::JoinAndPlay { channel_id: CHANNEL_A }
    );
    assert_eq!(
        coordinate(&Some(PlaybackEvent::Started), None),
        CoordinatorAction::NoAction
    );
    assert_eq!(
        coordinate(&Some(PlaybackEvent::Paused), Some(CHANNEL_A)),
        CoordinatorAction::ClearStatus
    );
    assert_eq!(
        coordinate(&Some(PlaybackEvent::Playing { track_id: 7 }), None),
        CoordinatorAction::ResolveMetadata { track_id: 7 }
    );
    assert_eq!(
        coordinate(&Some(PlaybackEvent::Other), Some(CHANNEL_A)),
        CoordinatorAction::NoAction
    );
}

#[test]
fn empty_event_wait_is_retried_without_action() {
    assert_eq!(coordinate(&None, Some(CHANNEL_A)), CoordinatorAction::NoAction);
}

#[test]
fn resolved_metadata_sets_the_listening_text() {
    let track = TrackInfo { name: "Song".to_string(), artists: vec![42] };
    let artist = ArtistInfo { name: "Band".to_string() };
    let update = playing_status_update(&Some(track), &Some(artist));
    match update {
        StatusUpdate::SetListening { text } => assert_eq!(text, "Band: Song"),
        StatusUpdate::KeepStatus => panic!("expected a listening text"),
    }
}

#[test]
fn failed_track_lookup_keeps_the_status() {
    let artist = ArtistInfo { name: "Band".to_string() };
    assert!(matches!(
        playing_status_update(&None, &Some(artist)),
        StatusUpdate::KeepStatus
    ));
}

#[test]
fn failed_artist_lookup_keeps_the_status() {
    let track = TrackInfo { name: "Song".to_string(), artists: vec![42] };
    assert!(matches!(
        playing_status_update(&Some(track), &None),
        StatusUpdate::KeepStatus
    ));
}

#[test]
fn primary_artist_is_the_first_credited() {
    let track = TrackInfo { name: "Song".to_string(), artists: vec![42, 43] };
    assert_eq!(primary_artist(&track), Some(42));
    let uncredited = TrackInfo { name: "Song".to_string(), artists: vec![] };
    assert_eq!(primary_artist(&uncredited), None);
}

#[test]
fn fixed_volume_policy_never_moves() {
    let mut policy = VolumePolicy::Fixed { level: 50 };
    assert_eq!(policy.volume(), Some(50));
    policy.set_volume(10000);
    assert_eq!(policy.volume(), Some(50));
}

#[test]
fn adjustable_volume_policy_follows_requests() {
    let mut policy = VolumePolicy::Adjustable { level: 50 };
    policy.set_volume(10000);
    assert_eq!(policy.volume(), Some(10000));
}

#[test]
fn external_volume_policy_keeps_no_level() {
    let mut policy = VolumePolicy::ExternalController;
    policy.set_volume(10000);
    assert_eq!(policy.volume(), None);
}
