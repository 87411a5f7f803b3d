use rhyolite::cache::VoiceEvent;
use rhyolite::cache::VoiceServerUpdate;
use rhyolite::cache::VoiceStateUpdate;
use rhyolite::models::track_events::Event;
use rhyolite::models::track_events::TrackEndReason;
use rhyolite::models::Severity;
use rhyolite::models::Track;
use rhyolite::models::TrackInfo;
use rhyolite::Error;
use rhyolite::RhyoliteCache;
use rhyolite::RhyolitePlayer;

fn track(id: &str) -> Track {
    Track {
        encoded: format!("enc-{}", id),
        info: TrackInfo {
            identifier: id.to_string(),
            is_seekable: true,
            author: "Author".to_string(),
            length: 180000,
            is_stream: false,
            position: 0,
            title: "Title".to_string(),
            uri: Some("https://example.com/t".to_string()),
            artwork_url: None,
            isrc: None,
            source_name: "youtube".to_string(),
        },
    }
}

fn server_update(guild: u64, token: &str, endpoint: Option<&str>) -> VoiceEvent {
    VoiceEvent::VoiceServerUpdate(VoiceServerUpdate {
        guild_id: guild,
        token: token.to_string(),
        endpoint: endpoint.map(|e| e.to_string()),
    })
}

fn state_update(guild: Option<u64>, channel: Option<u64>, session: &str) -> VoiceEvent {
    VoiceEvent::VoiceStateUpdate(VoiceStateUpdate {
        guild_id: guild,
        channel_id: channel,
        session_id: session.to_string(),
    })
}

#[test]
fn second_server_update_wins() {
    let mut cache = RhyoliteCache::new();
    assert_eq!(cache.process_vc_event(server_update(7, "T1", Some("e1"))), Ok(()));
    assert_eq!(cache.process_vc_event(server_update(7, "T2", None)), Ok(()));
    let c = cache.voice_credentials(7, 1).unwrap();
    assert_eq!(c.token, "T2");
    assert_eq!(c.endpoint, None);
}

#[test]
fn server_update_keeps_channel_sessions() {
    let mut cache = RhyoliteCache::default();
    cache.process_vc_event(server_update(7, "T1", Some("e1"))).unwrap();
    cache.process_vc_event(state_update(Some(7), Some(3), "s3")).unwrap();
    cache.process_vc_event(server_update(7, "T2", Some("e2"))).unwrap();
    let c = cache.voice_credentials(7, 3).unwrap();
    assert_eq!(c.token, "T2");
    assert_eq!(c.endpoint.as_deref(), Some("e2"));
    assert_eq!(c.session_id.as_deref(), Some("s3"));
}

#[test]
fn no_credentials_before_server_update() {
    let cache = RhyoliteCache::new();
    assert!(cache.voice_credentials(7, 1).is_none());
}

#[test]
fn state_update_for_other_channel_is_ignored() {
    let mut cache = RhyoliteCache::new();
    cache.insert_player(7, RhyolitePlayer { channel_id: 1, track: None });
    cache.process_vc_event(server_update(7, "T", None)).unwrap();
    assert_eq!(cache.process_vc_event(state_update(Some(7), Some(2), "s2")), Ok(()));
    assert_eq!(cache.player(7).unwrap().channel_id, 1);
    assert_eq!(cache.voice_credentials(7, 2).unwrap().session_id, None);
}

#[test]
fn state_update_for_bound_channel_records_session() {
    let mut cache = RhyoliteCache::new();
    cache.insert_player(7, RhyolitePlayer { channel_id: 1, track: None });
    cache.process_vc_event(server_update(7, "T", None)).unwrap();
    cache.process_vc_event(state_update(Some(7), Some(1), "s1")).unwrap();
    assert_eq!(cache.voice_credentials(7, 1).unwrap().session_id.as_deref(), Some("s1"));
    cache.process_vc_event(state_update(Some(7), Some(1), "s1b")).unwrap();
    assert_eq!(cache.voice_credentials(7, 1).unwrap().session_id.as_deref(), Some("s1b"));
}

#[test]
fn state_update_without_player_records_session() {
    let mut cache = RhyoliteCache::new();
    cache.process_vc_event(server_update(7, "T", None)).unwrap();
    cache.process_vc_event(state_update(Some(7), Some(4), "s4")).unwrap();
    assert_eq!(cache.voice_credentials(7, 4).unwrap().session_id.as_deref(), Some("s4"));
    assert!(cache.player(7).is_none());
}

#[test]
fn state_update_without_ids_or_record_changes_nothing() {
    let mut cache = RhyoliteCache::new();
    cache.process_vc_event(state_update(Some(7), Some(4), "s4")).unwrap();
    assert!(cache.voice_credentials(7, 4).is_none());
    cache.process_vc_event(server_update(7, "T", None)).unwrap();
    cache.process_vc_event(state_update(None, Some(4), "s4")).unwrap();
    cache.process_vc_event(state_update(Some(7), None, "s4")).unwrap();
    assert_eq!(cache.voice_credentials(7, 4).unwrap().session_id, None);
    assert_eq!(cache.process_vc_event(VoiceEvent::Other), Ok(()));
}

#[test]
fn track_start_then_end() {
    let mut cache = RhyoliteCache::new();
    cache.insert_player(9, RhyolitePlayer { channel_id: 5, track: None });
    let t = track("abc");
    assert_eq!(cache.update_player(&Event::Start { guild_id: 9, track: t.clone() }), Ok(()));
    let p = cache.player(9).unwrap();
    assert_eq!(p.channel_id, 5);
    let got = p.track.unwrap();
    assert_eq!(got.encoded, "enc-abc");
    assert_eq!(got.info.identifier, "abc");
    assert_eq!(got.info.uri.as_deref(), Some("https://example.com/t"));
    let end = Event::End { guild_id: 9, track: t, reason: TrackEndReason::Finished };
    assert_eq!(cache.update_player(&end), Ok(()));
    let p = cache.player(9).unwrap();
    assert_eq!(p.channel_id, 5);
    assert!(p.track.is_none());
}

#[test]
fn closed_connection_removes_player() {
    let mut cache = RhyoliteCache::new();
    cache.insert_player(9, RhyolitePlayer { channel_id: 5, track: Some(track("x")) });
    let closed = Event::WebSocketClosed {
        guild_id: 9,
        code: 4006,
        reason: "Session is no longer valid.".to_string(),
        by_remote: true,
    };
    assert_eq!(cache.update_player(&closed), Ok(()));
    assert!(cache.player(9).is_none());
    assert_eq!(
        cache.update_player(&Event::Start { guild_id: 9, track: track("y") }),
        Err(Error::UnknownPlayer)
    );
    assert!(cache.player(9).is_none());
}

#[test]
fn end_without_player_fails() {
    let mut cache = RhyoliteCache::new();
    let end = Event::End { guild_id: 3, track: track("a"), reason: TrackEndReason::Stopped };
    assert_eq!(cache.update_player(&end), Err(Error::UnknownPlayer));
    assert!(cache.player(3).is_none());
}

#[test]
fn exception_and_stuck_change_nothing() {
    let mut cache = RhyoliteCache::new();
    cache.insert_player(9, RhyolitePlayer { channel_id: 5, track: Some(track("x")) });
    let ex = Event::Exception { guild_id: 9, track: track("x"), exception: Severity::Fault };
    assert_eq!(cache.update_player(&ex), Ok(()));
    let stuck = Event::Stuck { guild_id: 9, track: track("x"), threshold_ms: 10000 };
    assert_eq!(cache.update_player(&stuck), Ok(()));
    let p = cache.player(9).unwrap();
    assert_eq!(p.track.unwrap().info.identifier, "x");
    let ex = Event::Exception { guild_id: 4, track: track("x"), exception: Severity::Common };
    assert_eq!(cache.update_player(&ex), Ok(()));
}

#[test]
fn insert_player_returns_previous() {
    let mut cache = RhyoliteCache::new();
    assert!(cache.insert_player(1, RhyolitePlayer { channel_id: 2, track: None }).is_none());
    let old = cache.insert_player(1, RhyolitePlayer { channel_id: 3, track: None }).unwrap();
    assert_eq!(old.channel_id, 2);
    assert_eq!(cache.player(1).unwrap().channel_id, 3);
}
