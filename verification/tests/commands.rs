use guild_player::action::Action;
use guild_player::music::clear::clear;
use guild_player::music::leave::leave;
use guild_player::music::play::{play, PlayInput};
use guild_player::music::queue::queue;
use guild_player::music::skip::skip;
use guild_player::music::stop::stop;
use guild_player::music::{require_guild, MusicCommandError};
use guild_player::registry::Registry;
use guild_player::session::PlayerPhase;
use guild_player::track::Track;

fn track(uri: &str) -> Track {
    Track {
        uri: uri.to_string(),
        title: format!("title of {uri}"),
        duration_ms: 180_000,
        requester: 7,
    }
}

#[test]
fn play_joins_and_starts_first_track() {
    let mut reg = Registry::new();
    let a = track("a");
    let r = play(&mut reg, 1, Some(42), PlayInput::Resolved(vec![a.clone()]));
    assert_eq!(
        r,
        Ok(vec![
            Action::JoinVoice { guild_id: 1, channel_id: 42 },
            Action::NodePlay { guild_id: 1, track: a.clone() },
        ])
    );
    let s = reg.get(1).unwrap();
    assert_eq!(s.guild_id, 1);
    assert_eq!(s.voice_channel_id, Some(42));
    assert_eq!(s.now_playing, Some(a));
    assert_eq!(s.phase, PlayerPhase::Loading);
    assert!(s.queue.is_empty());
}

#[test]
fn play_enqueues_while_a_track_is_loaded() {
    let mut reg = Registry::new();
    let a = track("a");
    let b = track("b");
    play(&mut reg, 1, Some(42), PlayInput::Resolved(vec![a.clone()])).unwrap();
    let r = play(&mut reg, 1, Some(42), PlayInput::Resolved(vec![b.clone()]));
    assert_eq!(r, Ok(vec![]));
    let snap = queue(&reg, 1).unwrap();
    assert_eq!(snap.now_playing, Some(a));
    assert_eq!(snap.upcoming, vec![b]);
}

#[test]
fn play_enqueues_a_whole_playlist_in_order() {
    let mut reg = Registry::new();
    let a = track("a");
    let b = track("b");
    let c = track("c");
    let r = play(
        &mut reg,
        1,
        Some(42),
        PlayInput::Resolved(vec![a.clone(), b.clone(), c.clone()]),
    );
    assert_eq!(
        r,
        Ok(vec![
            Action::JoinVoice { guild_id: 1, channel_id: 42 },
            Action::NodePlay { guild_id: 1, track: a.clone() },
        ])
    );
    let snap = queue(&reg, 1).unwrap();
    assert_eq!(snap.now_playing, Some(a));
    assert_eq!(snap.upcoming, vec![b, c]);
}

#[test]
fn play_outside_voice_channel_is_refused() {
    let mut reg = Registry::new();
    let r = play(&mut reg, 1, None, PlayInput::Resolved(vec![track("a")]));
    assert_eq!(r, Err(MusicCommandError::NotInVoiceChannel));
    assert!(reg.get(1).is_none());
}

#[test]
fn play_with_failed_or_empty_resolution_is_refused() {
    let mut reg = Registry::new();
    let r = play(&mut reg, 1, Some(42), PlayInput::ResolutionFailed);
    assert_eq!(r, Err(MusicCommandError::TrackResolutionFailed));
    let r = play(&mut reg, 1, Some(42), PlayInput::Resolved(vec![]));
    assert_eq!(r, Err(MusicCommandError::TrackResolutionFailed));
    assert!(reg.get(1).is_none());
}

#[test]
fn stop_keeps_queue_and_resume_starts_its_head() {
    let mut reg = Registry::new();
    let a = track("a");
    let b = track("b");
    play(&mut reg, 1, Some(42), PlayInput::Resolved(vec![a])).unwrap();
    play(&mut reg, 1, Some(42), PlayInput::Resolved(vec![b.clone()])).unwrap();

    let r = stop(&mut reg, 1);
    assert_eq!(r, Ok(Action::NodeStop { guild_id: 1 }));
    let snap = queue(&reg, 1).unwrap();
    assert_eq!(snap.now_playing, None);
    assert_eq!(snap.upcoming, vec![b.clone()]);

    let r = play(&mut reg, 1, Some(42), PlayInput::Resume);
    assert_eq!(r, Ok(vec![Action::NodePlay { guild_id: 1, track: b.clone() }]));
    let snap = queue(&reg, 1).unwrap();
    assert_eq!(snap.now_playing, Some(b));
    assert_eq!(snap.upcoming, vec![]);
}

#[test]
fn resume_with_nothing_queued_only_joins() {
    let mut reg = Registry::new();
    let r = play(&mut reg, 1, Some(42), PlayInput::Resume);
    assert_eq!(r, Ok(vec![Action::JoinVoice { guild_id: 1, channel_id: 42 }]));
    let s = reg.get(1).unwrap();
    assert_eq!(s.now_playing, None);
    assert_eq!(s.phase, PlayerPhase::Idle);
    assert!(s.queue.is_empty());
    assert_eq!(s.voice_channel_id, Some(42));

    let r = play(&mut reg, 1, Some(42), PlayInput::Resume);
    assert_eq!(r, Ok(vec![]));
}

#[test]
fn resume_while_a_track_is_loaded_changes_nothing() {
    let mut reg = Registry::new();
    let a = track("a");
    play(&mut reg, 1, Some(42), PlayInput::Resolved(vec![a.clone()])).unwrap();
    let r = play(&mut reg, 1, Some(42), PlayInput::Resume);
    assert_eq!(r, Ok(vec![]));
    let snap = queue(&reg, 1).unwrap();
    assert_eq!(snap.now_playing, Some(a));
    assert_eq!(snap.upcoming, vec![]);
}

#[test]
fn clear_empties_queue_but_not_the_loaded_track() {
    let mut reg = Registry::new();
    let a = track("a");
    let b = track("b");
    play(&mut reg, 1, Some(42), PlayInput::Resolved(vec![a.clone()])).unwrap();
    play(&mut reg, 1, Some(42), PlayInput::Resolved(vec![b])).unwrap();
    assert_eq!(clear(&mut reg, 1), Ok(()));
    let snap = queue(&reg, 1).unwrap();
    assert_eq!(snap.now_playing, Some(a));
    assert_eq!(snap.upcoming, vec![]);
    assert_eq!(clear(&mut reg, 2), Err(MusicCommandError::NoActiveSession));
}

#[test]
fn leave_twice_reports_not_connected_the_second_time() {
    let mut reg = Registry::new();
    play(&mut reg, 1, Some(42), PlayInput::Resolved(vec![track("a")])).unwrap();
    assert_eq!(leave(&mut reg, 1), Ok(Action::LeaveVoice { guild_id: 1 }));
    assert!(reg.get(1).is_none());
    assert_eq!(leave(&mut reg, 1), Err(MusicCommandError::NotConnected));
    assert!(reg.get(1).is_none());
}

#[test]
fn skip_without_a_loaded_track_changes_nothing() {
    let mut reg = Registry::new();
    assert_eq!(skip(&mut reg, 1), Err(MusicCommandError::NoActiveSession));

    play(&mut reg, 1, Some(42), PlayInput::Resolved(vec![track("a")])).unwrap();
    stop(&mut reg, 1).unwrap();
    let before = queue(&reg, 1).unwrap();
    assert_eq!(skip(&mut reg, 1), Err(MusicCommandError::NoTrackIsPlaying));
    let after = queue(&reg, 1).unwrap();
    assert_eq!(before.upcoming, after.upcoming);
    assert_eq!(before.now_playing, after.now_playing);
}

#[test]
fn skip_with_a_loaded_track_requests_node_stop() {
    let mut reg = Registry::new();
    let a = track("a");
    play(&mut reg, 1, Some(42), PlayInput::Resolved(vec![a.clone()])).unwrap();
    assert_eq!(skip(&mut reg, 1), Ok(Action::NodeStop { guild_id: 1 }));
    let snap = queue(&reg, 1).unwrap();
    assert_eq!(snap.now_playing, Some(a));
}

#[test]
fn stop_errors_mirror_session_state() {
    let mut reg = Registry::new();
    assert_eq!(stop(&mut reg, 1), Err(MusicCommandError::NoActiveSession));
    play(&mut reg, 1, Some(42), PlayInput::Resolved(vec![track("a")])).unwrap();
    assert_eq!(stop(&mut reg, 1), Ok(Action::NodeStop { guild_id: 1 }));
    assert_eq!(stop(&mut reg, 1), Err(MusicCommandError::NoTrackIsPlaying));
}

#[test]
fn queue_view_needs_a_session() {
    let reg = Registry::new();
    assert!(matches!(queue(&reg, 1), Err(MusicCommandError::NoActiveSession)));
}

#[test]
fn commands_are_guild_only() {
    assert_eq!(require_guild(None), Err(MusicCommandError::GuildOnly));
    assert_eq!(require_guild(Some(9)), Ok(9));
}

#[test]
fn sessions_are_independent_between_guilds() {
    let mut reg = Registry::new();
    let a = track("a");
    let b = track("b");
    play(&mut reg, 1, Some(42), PlayInput::Resolved(vec![a.clone()])).unwrap();
    play(&mut reg, 2, Some(50), PlayInput::Resolved(vec![b.clone()])).unwrap();
    stop(&mut reg, 1).unwrap();
    let one = queue(&reg, 1).unwrap();
    let two = queue(&reg, 2).unwrap();
    assert_eq!(one.now_playing, None);
    assert_eq!(two.now_playing, Some(b));
}

#[test]
fn get_or_create_makes_one_session_only() {
    let mut reg = Registry::new();
    let first_channel;
    {
        let s = reg.get_or_create(5);
        assert_eq!(s.guild_id, 5);
        first_channel = s.voice_channel_id;
    }
    {
        let s = reg.get_or_create(5);
        assert_eq!(s.guild_id, 5);
        assert_eq!(s.voice_channel_id, first_channel);
        assert!(s.queue.is_empty());
        assert_eq!(s.now_playing, None);
    }
}

#[test]
fn every_error_has_a_reply() {
    assert_eq!(
        MusicCommandError::GuildOnly.message(),
        "This command only works in a guild."
    );
    assert_eq!(
        MusicCommandError::NotInVoiceChannel.message(),
        "Join a voice channel first."
    );
    assert_eq!(
        MusicCommandError::NoTrackIsPlaying.message(),
        "Nothing is playing right now."
    );
    assert_eq!(
        MusicCommandError::NoActiveSession.message(),
        "There is no active session for this guild."
    );
    assert_eq!(
        MusicCommandError::TrackResolutionFailed.message(),
        "No playable track was found for that query."
    );
    assert_eq!(
        MusicCommandError::NotConnected.message(),
        "The bot is not connected to a voice channel."
    );
    assert_eq!(
        MusicCommandError::NodeUnavailable.message(),
        "The audio node did not answer; nothing was changed."
    );
}
