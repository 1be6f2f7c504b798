use media_recommendation_engine::session::{frame_action, parse_content_token, FrameAction, FrameKind};
use media_recommendation_engine::stream_ident::StreamIndex;
use media_recommendation_engine::templating::{raw_targets, slot_of, template_targets};
use media_recommendation_engine::indexing::{direct_match, indirect_match, MatchDecision};
use media_recommendation_engine::transcode::{
    collect_segments, expected_segment_files, segment_arguments, segment_file_name, SegmentTiming,
    PRECOMPUTE_SEGMENTS,
};

fn timing() -> SegmentTiming {
    SegmentTiming {
        start_time: "10".to_string(),
        duration: "20.5".to_string(),
        segment_times: "10,20.5".to_string(),
        keyframe_times: "10,20,30.5".to_string(),
        start_index: 1,
    }
}

#[test]
fn segment_files_are_named_by_index_and_streams() {
    assert_eq!(segment_file_name(3, "v,a,"), "3.v,a,.ts");
    let files = expected_segment_files(5, "v,");
    assert_eq!(files.len(), PRECOMPUTE_SEGMENTS);
    assert_eq!(files[0], (5, "5.v,.ts".to_string()));
    assert_eq!(files[3], (8, "8.v,.ts".to_string()));
}

#[test]
fn ffmpeg_arguments_map_streams_last_first() {
    let streams = [StreamIndex::Video, StreamIndex::Audio, StreamIndex::Index(51)];
    let args = segment_arguments("fatal", timing(), "/m/a.mp4", &streams, Some(0), None, "v,a,51,");
    let expected: Vec<String> = [
        "-loglevel", "fatal", "-copyts", "-ss", "10", "-t", "20.5", "-i", "/m/a.mp4",
        "-map", "0:51", "-map", "0:0",
        "-c", "copy", "-f", "segment", "-segment_times", "10,20.5", "-force_key_frames",
        "10,20,30.5", "-segment_start_number", "1", "-segment_time_delta", "0.5", "-hls_flags",
        "independent_segments", "-segment_format", "mpegts", "%d.v,a,51,.ts", "-y",
    ]
    .iter()
    .map(|s| s.to_string())
    .collect();
    assert_eq!(args, expected);
}

#[test]
fn segments_collected_in_order() {
    let segs = collect_segments(7, "a,", vec![vec![1], vec![2, 2]]);
    assert_eq!(segs.len(), 2);
    assert_eq!(segs[0].index, 7);
    assert_eq!(segs[1].index, 8);
    assert_eq!(segs[1].data, vec![2, 2]);
    assert_eq!(segs[1].stream_ident, "a,");
}

#[test]
fn websocket_frames() {
    assert_eq!(frame_action(Some(FrameKind::Text)), FrameAction::Handle);
    assert_eq!(frame_action(Some(FrameKind::Binary)), FrameAction::Skip);
    assert_eq!(frame_action(Some(FrameKind::Ping)), FrameAction::Skip);
    assert_eq!(frame_action(Some(FrameKind::Pong)), FrameAction::Skip);
    assert_eq!(frame_action(Some(FrameKind::Close)), FrameAction::Stop);
    assert_eq!(frame_action(None), FrameAction::Stop);
}

#[test]
fn template_targets_are_identifiers_in_double_braces() {
    let text = "<p>{{ title }}</p>{{body}}{{fn}}{{a-b}}{ {x} }{{open";
    let raw: Vec<String> = raw_targets(&text.chars().collect::<Vec<_>>())
        .iter()
        .map(|v| v.iter().collect())
        .collect();
    assert_eq!(raw, vec![" title ", "body", "fn", "a-b"]);
    let targets = template_targets(text);
    assert_eq!(targets, vec!["title".to_string(), "body".to_string()]);
    assert_eq!(slot_of(&targets, "body"), Some(1));
    assert_eq!(slot_of(&targets, "fn"), None);
}

#[test]
fn collection_matches_for_a_directory() {
    assert_eq!(direct_match(&vec![], &vec![9]), MatchDecision::Found(9));
    assert_eq!(direct_match(&vec![], &vec![]), MatchDecision::NextAncestor);
    assert_eq!(direct_match(&vec![4], &vec![]), MatchDecision::Found(4));
    assert_eq!(direct_match(&vec![4], &vec![9]), MatchDecision::Found(9));
    assert_eq!(direct_match(&vec![4, 5], &vec![9]), MatchDecision::Indirect);
    assert_eq!(indirect_match(&vec![3]), MatchDecision::Found(3));
    assert_eq!(indirect_match(&vec![]), MatchDecision::NextAncestor);
}

#[test]
fn segment_names_read_back_as_session_and_segment() {
    let token = format!("{}.{}", 77, segment_file_name(3, "v,a,"));
    assert_eq!(token, "77.3.v,a,.ts");
    let t = parse_content_token(&token).ok().unwrap();
    assert_eq!(t.session_id, 77);
    assert_eq!(t.segment, Some(3));
}
