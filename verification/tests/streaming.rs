use media_recommendation_engine::auth::User;
use media_recommendation_engine::notification::{seek_text, Notification, Notifier, SimplifiedType};
use media_recommendation_engine::playlist::{find_playlist, rebase_playlist, Playlist, PlaylistCache};
use media_recommendation_engine::segment_cache::{MediaCache, MediaSegment, MAX_CACHED_SEGMENTS};
use media_recommendation_engine::session::{
    forward_to_client, join_messages, joined_text, left_notice, parse_content_token, update_effects,
    ContentTokenError, SessionOutput, SessionReceivers, SessionState, WSMessageType,
};
use media_recommendation_engine::stream_ident::{StreamIndex, StreamIndicies, StreamListError};

fn segment(index: usize, ident: &str, byte: u8) -> MediaSegment {
    MediaSegment { data: vec![byte; 3], index, stream_ident: ident.to_string() }
}

#[test]
fn stream_list_sorts_indices_after_named_streams() {
    let s = StreamIndicies::try_from("2,v,1,a").ok().unwrap();
    assert_eq!(s.str_repr, "v,a,49,50,");
    assert_eq!(
        s.streams,
        vec![StreamIndex::Video, StreamIndex::Audio, StreamIndex::Index(49), StreamIndex::Index(50)]
    );
}

#[test]
fn stream_list_ends_at_an_empty_entry() {
    let s = StreamIndicies::try_from("v,,2").ok().unwrap();
    assert_eq!(s.str_repr, "v,");
    assert_eq!(s.streams, vec![StreamIndex::Video]);
    let empty = StreamIndicies::try_from("").ok().unwrap();
    assert_eq!(empty.str_repr, "");
    assert!(empty.streams.is_empty());
}

#[test]
fn malformed_stream_lists_are_refused() {
    assert!(matches!(StreamIndicies::try_from("vv"), Err(StreamListError::BadRequest)));
    assert!(matches!(StreamIndicies::try_from("x"), Err(StreamListError::BadRequest)));
    assert!(matches!(StreamIndicies::try_from("v,12"), Err(StreamListError::BadRequest)));
}

#[test]
fn identifier_does_not_depend_on_order() {
    let a = StreamIndicies::new(vec![StreamIndex::Index(3), StreamIndex::Audio, StreamIndex::Index(1)]);
    let b = StreamIndicies::new(vec![StreamIndex::Index(1), StreamIndex::Index(3), StreamIndex::Audio]);
    assert_eq!(a.str_repr, "a,1,3,");
    assert_eq!(a.str_repr, b.str_repr);
}

#[test]
fn cache_finds_segments_by_index_and_streams() {
    let mut cache = MediaCache::new(9);
    cache.extend(vec![segment(0, "v,", 1), segment(1, "v,", 2), segment(0, "a,", 3)]);
    let streams = StreamIndicies::try_from("v").ok().unwrap();
    let found = cache.find_cached_segment(1, &streams).unwrap();
    assert_eq!(found.data, vec![2, 2, 2]);
    assert_eq!(found.index, 1);
    assert!(cache.find_cached_segment(5, &streams).is_none());
    let audio = StreamIndicies::try_from("a").ok().unwrap();
    assert_eq!(cache.find_cached_segment(0, &audio).unwrap().data, vec![3, 3, 3]);
}

#[test]
fn cache_skips_segments_it_holds() {
    let mut cache = MediaCache::new(1);
    cache.extend(vec![segment(0, "v,", 1)]);
    cache.extend(vec![segment(0, "v,", 7), segment(1, "v,", 8)]);
    assert_eq!(cache.cache.len(), 2);
    let streams = StreamIndicies::try_from("v").ok().unwrap();
    assert_eq!(cache.find_cached_segment(0, &streams).unwrap().data, vec![1, 1, 1]);
}

#[test]
fn cache_drops_the_oldest_beyond_its_limit() {
    let mut cache = MediaCache::new(1);
    let many: Vec<MediaSegment> = (0..40).map(|i| segment(i, "v,", i as u8)).collect();
    cache.extend(many);
    assert_eq!(cache.cache.len(), MAX_CACHED_SEGMENTS);
    let streams = StreamIndicies::try_from("v").ok().unwrap();
    assert!(cache.find_cached_segment(7, &streams).is_none());
    assert_eq!(cache.find_cached_segment(8, &streams).unwrap().index, 8);
    assert_eq!(cache.find_cached_segment(39, &streams).unwrap().data, vec![39, 39, 39]);
    cache.reuse();
    assert!(cache.cache.is_empty());
    assert_eq!(cache.session_id, 1);
}

#[test]
fn content_tokens_name_session_and_segment() {
    let t = parse_content_token("123.4.v,a,.ts").ok().unwrap();
    assert_eq!(t.session_id, 123);
    assert_eq!(t.segment, Some(4));
    let t = parse_content_token("123.abc").ok().unwrap();
    assert_eq!(t.session_id, 123);
    assert_eq!(t.segment, None);
    let t = parse_content_token("77").ok().unwrap();
    assert_eq!(t.segment, None);
    assert!(matches!(parse_content_token("x.1"), Err(ContentTokenError::SessionId)));
    assert!(matches!(parse_content_token("4294967296.1"), Err(ContentTokenError::SessionId)));
}

#[test]
fn receivers_join_and_leave() {
    let mut r = SessionReceivers::new();
    r.add_receiver(User::new(1, "ann".to_string(), "h".to_string()), 10);
    r.add_receiver(User::new(2, "bob".to_string(), "h".to_string()), 20);
    r.add_receiver(User::new(1, "ann".to_string(), "h".to_string()), 10);
    assert_eq!(r.receiver_count(), 3);
    assert!(!r.is_free(10));
    r.remove_receiver(10);
    assert_eq!(r.receiver_count(), 1);
    assert!(r.is_free(10));
    assert!(!r.is_free(20));
}

#[test]
fn client_updates_change_state_and_notify() {
    let e = update_effects(WSMessageType::Pause, "bob", 0, 0);
    assert_eq!(e.new_state, Some(SessionState::Paused));
    assert_eq!(e.notification, Some(("bob paused the video".to_string(), SimplifiedType::StateToggle)));
    let e = update_effects(WSMessageType::Play, "bob", 0, 0);
    assert_eq!(e.new_state, Some(SessionState::Playing));
    assert_eq!(e.notification, Some(("bob resumed the video".to_string(), SimplifiedType::StateToggle)));
    let e = update_effects(WSMessageType::Seek, "bob", 1, 5);
    assert_eq!(e.new_state, None);
    assert_eq!(e.notification, Some(("bob skipped to 1:05".to_string(), SimplifiedType::Seek)));
    let e = update_effects(WSMessageType::Update, "bob", 0, 0);
    assert_eq!(e.new_state, None);
    assert_eq!(e.notification, None);
}

#[test]
fn seek_text_uses_hours_after_an_hour() {
    assert_eq!(seek_text("amy", 75, 3), "amy skipped to 1:15:03");
    assert_eq!(seek_text("amy", 60, 30), "amy skipped to 60:30");
    assert_eq!(seek_text("amy", 0, 9), "amy skipped to 0:09");
}

#[test]
fn join_leave_and_forwarding() {
    assert_eq!(joined_text("ann"), "ann joined the session");
    assert_eq!(left_notice("ann", 1), None);
    assert_eq!(left_notice("ann", 3), Some("ann left the session".to_string()));
    assert!(!forward_to_client(Some(5), 5));
    assert!(forward_to_client(Some(5), 6));
    assert!(forward_to_client(None, 5));
}

#[test]
fn stored_playlists_are_rebased_to_the_session() {
    let file = "#EXTM3U\n111.0.v,.ts\n#EXT-X-ENDLIST\n";
    assert_eq!(rebase_playlist(file, 7), "#EXTM3U\n7.0.v,.ts\n#EXT-X-ENDLIST\n");
    assert_eq!(rebase_playlist("#A\r\n5.1.ts\r\n", 9), "#A\n9.1.ts\n");
    assert_eq!(rebase_playlist("", 9), "");
}

#[test]
fn playlists_are_found_by_stream_set() {
    let lists = vec![
        Playlist { identifier: "v,".to_string(), string_repr: "first".to_string() },
        Playlist { identifier: "a,".to_string(), string_repr: "second".to_string() },
        Playlist { identifier: "v,".to_string(), string_repr: "third".to_string() },
    ];
    assert_eq!(find_playlist(&lists, "v,"), Some("first".to_string()));
    assert_eq!(find_playlist(&lists, "a,"), Some("second".to_string()));
    assert_eq!(find_playlist(&lists, "1,"), None);
}

fn note(msg: &str, typ: SimplifiedType) -> Notification {
    Notification { msg: msg.to_string(), origin: 1, typ }
}

#[test]
fn notifier_throttles_seeks() {
    let second: u64 = 1_000_000_000;
    let mut n = Notifier::new();
    let step = n.step(5 * second, Some(note("plain", SimplifiedType::Plain)));
    assert_eq!(step.send.len(), 1);
    assert_eq!(step.send[0].msg, "plain");
    let step = n.step(5 * second, Some(note("seek one", SimplifiedType::Seek)));
    assert_eq!(step.send.len(), 1);
    assert_eq!(step.send[0].msg, "seek one");
    let step = n.step(5 * second + second / 2, Some(note("seek two", SimplifiedType::Seek)));
    assert!(step.send.is_empty());
    assert_eq!(n.wait_duration, second / 2);
    let step = n.step(6 * second + second / 10, None);
    assert_eq!(step.send.len(), 1);
    assert_eq!(step.send[0].msg, "seek two");
}

#[test]
fn join_sends_state_then_notice_then_join() {
    let m = join_messages("ann", 7, SessionState::Paused);
    assert_eq!(m.len(), 3);
    match &m[0] {
        SessionOutput::StateUpdate { message_type, timestamp, state } => {
            assert_eq!(*message_type, WSMessageType::State);
            assert_eq!(*timestamp, 0);
            assert_eq!(*state, SessionState::Paused);
        },
        _ => panic!("the state comes first"),
    }
    match &m[1] {
        SessionOutput::TextNotification { msg, origin } => {
            assert_eq!(msg, "ann joined the session");
            assert_eq!(*origin, 7);
        },
        _ => panic!("the notice comes second"),
    }
    assert!(matches!(m[2], SessionOutput::Join));
}

#[test]
fn new_connections_get_free_ids() {
    let mut r = SessionReceivers::new();
    assert_eq!(r.add_user(User::new(1, "ann".to_string(), "h".to_string()), 0), 0);
    assert_eq!(r.add_user(User::new(2, "bob".to_string(), "h".to_string()), 5), 5);
    let third = r.add_user(User::new(3, "cy".to_string(), "h".to_string()), 5);
    assert_eq!(third, 1);
    assert_eq!(r.pick_connection_id(0), 2);
    assert_eq!(r.pick_connection_id(9), 9);
    let fresh = r.new_connection_id();
    assert!(r.is_free(fresh));
    assert_eq!(r.receiver_count(), 3);
    assert!(!r.remove_user(third));
    assert_eq!(r.receiver_count(), 2);
    assert!(r.is_free(third));
    assert!(!r.remove_user(0));
    assert!(r.remove_user(5));
}

#[test]
fn a_cached_playlist_is_served_again() {
    let mut cache = PlaylistCache::new();
    assert_eq!(cache.cached("0,"), None);
    let text = cache.serve_stored("0,".to_string(), "#EXTM3U\n12.0.0,.ts\n", 4);
    assert_eq!(text, "#EXTM3U\n4.0.0,.ts\n");
    assert_eq!(cache.cached("0,"), Some(text.clone()));
    cache.remember("0,".to_string(), "later".to_string());
    cache.remember("1,".to_string(), "other".to_string());
    assert_eq!(cache.cached("0,"), Some(text));
    assert_eq!(cache.cached("1,"), Some("other".to_string()));
}
