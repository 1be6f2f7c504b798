//! The ffmpeg invocation that cuts a run of segments out of a media file,
//! and the segments it leaves behind.
use vstd::prelude::*;
use crate::text::push_str;
use crate::segment_cache::{MediaSegment, SegmentView};
use crate::stream_ident::StreamIndex;
use crate::text::{owned_string, decimal, push_decimal, string_from_chars};

verus! {

/// How many segments one ffmpeg run produces.
pub const PRECOMPUTE_SEGMENTS: usize = 4;

/// `<index>.<streams>.ts`: the file ffmpeg writes for a segment.
pub open spec fn segment_file(index: nat, ident: Seq<char>) -> Seq<char> {
    decimal(index) + "."@ + ident + ".ts"@
}

pub fn segment_file_name(index: usize, ident: &str) -> (r: String)
    ensures
        r@ == segment_file(index as nat, ident@),
{
    let mut out: Vec<char> = Vec::new();
    push_decimal(&mut out, index as u64);
    push_str(&mut out, ".");
    push_str(&mut out, ident);
    push_str(&mut out, ".ts");
    string_from_chars(out.as_slice())
}

/// The stream of the input file that a requested stream maps to: the best
/// video or audio stream, where the file has one, or the given index.
pub open spec fn mapped_stream(s: StreamIndex, best_video: Option<u64>, best_audio: Option<u64>) -> Option<u64> {
    match s {
        StreamIndex::Video => best_video,
        StreamIndex::Audio => best_audio,
        StreamIndex::Index(i) => Some(i as u64),
    }
}

/// The `-map 0:<stream>` arguments, the last requested stream first.
pub open spec fn map_args(s: Seq<StreamIndex>, best_video: Option<u64>, best_audio: Option<u64>) -> Seq<Seq<char>>
    decreases s.len(),
{
    if s.len() == 0 {
        Seq::empty()
    } else {
        let rest = map_args(s.drop_last(), best_video, best_audio);
        match mapped_stream(s.last(), best_video, best_audio) {
            Some(n) => seq!["-map"@, "0:"@ + decimal(n as nat)] + rest,
            None => rest,
        }
    }
}

/// The times of a run of segments as ffmpeg reads them.
pub struct SegmentTiming {
    pub start_time: String,
    pub duration: String,
    pub segment_times: String,
    pub keyframe_times: String,
    pub start_index: usize,
}

pub open spec fn string_views(s: Seq<String>) -> Seq<Seq<char>> {
    s.map_values(|x: String| x@)
}

/// The arguments of the ffmpeg run: copy the input from the start time
/// for the duration, with the requested streams, cut at the segment
/// times into numbered MPEG-TS files.
pub open spec fn segment_args(
    log_level: Seq<char>,
    t: SegmentTiming,
    source: Seq<char>,
    maps: Seq<Seq<char>>,
    ident: Seq<char>,
) -> Seq<Seq<char>> {
    seq![
        "-loglevel"@,
        log_level,
        "-copyts"@,
        "-ss"@,
        t.start_time@,
        "-t"@,
        t.duration@,
        "-i"@,
        source,
    ] + maps + seq![
        "-c"@,
        "copy"@,
        "-f"@,
        "segment"@,
        "-segment_times"@,
        t.segment_times@,
        "-force_key_frames"@,
        t.keyframe_times@,
        "-segment_start_number"@,
        decimal(t.start_index as nat),
        "-segment_time_delta"@,
        "0.5"@,
        "-hls_flags"@,
        "independent_segments"@,
        "-segment_format"@,
        "mpegts"@,
        "%d."@ + ident + ".ts"@,
        "-y"@,
    ]
}

fn number(n: u64) -> (r: String)
    ensures
        r@ == decimal(n as nat),
{
    let mut out: Vec<char> = Vec::new();
    push_decimal(&mut out, n);
    string_from_chars(out.as_slice())
}

fn map_arguments(streams: &[StreamIndex], best_video: Option<u64>, best_audio: Option<u64>) -> (r: Vec<
    String,
>)
    ensures
        string_views(r@) == map_args(streams@, best_video, best_audio),
{
    let mut out: Vec<String> = Vec::new();
    let mut i: usize = 0;
    while i < streams.len()
        invariant
            i <= streams@.len(),
            string_views(out@) == map_args(streams@.subrange(0, i as int), best_video, best_audio),
        decreases streams@.len() - i,
    {
        let ghost next = streams@.subrange(0, i + 1);
        assert(next.drop_last() =~= streams@.subrange(0, i as int));
        let target = match streams[i] {
            StreamIndex::Video => best_video,
            StreamIndex::Audio => best_audio,
            StreamIndex::Index(n) => Some(n as u64),
        };
        match target {
            Some(n) => {
                let mut label: Vec<char> = Vec::new();
                push_str(&mut label, "0:");
                push_decimal(&mut label, n);
                let ghost before = out@;
                out.insert(0, string_from_chars(label.as_slice()));
                out.insert(0, owned_string("-map"));
                assert(string_views(out@) =~= seq!["-map"@, "0:"@ + decimal(n as nat)]
                    + string_views(before));
            },
            None => {},
        }
        assert(string_views(out@) =~= map_args(next, best_video, best_audio));
        i = i + 1;
    }
    assert(streams@.subrange(0, streams@.len() as int) =~= streams@);
    out
}

/// The arguments of the ffmpeg run for the requested streams; the best
/// video and audio streams of the input are given where it has them.
pub fn segment_arguments(
    log_level: &str,
    timing: SegmentTiming,
    source: &str,
    streams: &[StreamIndex],
    best_video: Option<u64>,
    best_audio: Option<u64>,
    ident: &str,
) -> (r: Vec<String>)
    ensures
        string_views(r@) == segment_args(
            log_level@,
            timing,
            source@,
            map_args(streams@, best_video, best_audio),
            ident@,
        ),
{
    let ghost t = timing;
    let mut args: Vec<String> = Vec::new();
    args.push(owned_string("-loglevel"));
    args.push(owned_string(log_level));
    args.push(owned_string("-copyts"));
    args.push(owned_string("-ss"));
    args.push(timing.start_time);
    args.push(owned_string("-t"));
    args.push(timing.duration);
    args.push(owned_string("-i"));
    args.push(owned_string(source));
    let mut maps = map_arguments(streams, best_video, best_audio);
    let ghost head = args@;
    let ghost map_part = maps@;
    args.append(&mut maps);
    args.push(owned_string("-c"));
    args.push(owned_string("copy"));
    args.push(owned_string("-f"));
    args.push(owned_string("segment"));
    args.push(owned_string("-segment_times"));
    args.push(timing.segment_times);
    args.push(owned_string("-force_key_frames"));
    args.push(timing.keyframe_times);
    args.push(owned_string("-segment_start_number"));
    args.push(number(timing.start_index as u64));
    args.push(owned_string("-segment_time_delta"));
    args.push(owned_string("0.5"));
    args.push(owned_string("-hls_flags"));
    args.push(owned_string("independent_segments"));
    args.push(owned_string("-segment_format"));
    args.push(owned_string("mpegts"));
    let mut template: Vec<char> = Vec::new();
    push_str(&mut template, "%d.");
    push_str(&mut template, ident);
    push_str(&mut template, ".ts");
    args.push(string_from_chars(template.as_slice()));
    args.push(owned_string("-y"));
    assert(string_views(args@) =~= segment_args(
        log_level@,
        t,
        source@,
        map_args(streams@, best_video, best_audio),
        ident@,
    ));
    args
}

/// The files that a run starting at segment `first` is expected to leave,
/// in order.
pub fn expected_segment_files(first: usize, ident: &str) -> (r: Vec<(usize, String)>)
    requires
        first + PRECOMPUTE_SEGMENTS <= usize::MAX,
    ensures
        r@.len() == PRECOMPUTE_SEGMENTS,
        forall|i: int|
            0 <= i < PRECOMPUTE_SEGMENTS ==> (#[trigger] r@[i]).0 == first + i && r@[i].1@
                == segment_file((first + i) as nat, ident@),
{
    let mut out: Vec<(usize, String)> = Vec::new();
    let mut k: usize = 0;
    while k < PRECOMPUTE_SEGMENTS
        invariant
            k <= PRECOMPUTE_SEGMENTS,
            first + PRECOMPUTE_SEGMENTS <= usize::MAX,
            out@.len() == k,
            forall|i: int|
                0 <= i < k ==> (#[trigger] out@[i]).0 == first + i && out@[i].1@ == segment_file(
                    (first + i) as nat,
                    ident@,
                ),
        decreases PRECOMPUTE_SEGMENTS - k,
    {
        let index = first + k;
        out.push((index, segment_file_name(index, ident)));
        k = k + 1;
    }
    out
}

/// The segments of a run from the contents of its files, read in order
/// until the first one missing: the `i`-th is segment `first + i` of the
/// stream set.
pub fn collect_segments(first: usize, ident: &str, files: Vec<Vec<u8>>) -> (r: Vec<MediaSegment>)
    requires
        first + files@.len() <= usize::MAX,
    ensures
        r@.len() == files@.len(),
        forall|i: int|
            0 <= i < r@.len() ==> (#[trigger] r@[i])@ == (SegmentView {
                data: files@[i]@,
                index: (first + i) as usize,
                stream_ident: ident@,
            }),
{
    let ghost all = files@;
    let count = files.len();
    let mut rest = files;
    let mut out: Vec<MediaSegment> = Vec::new();
    let mut k: usize = 0;
    while rest.len() > 0
        invariant
            k + rest@.len() == count,
            all.len() == count,
            first + count <= usize::MAX,
            rest@ == all.subrange(k as int, count as int),
            out@.len() == k,
            forall|i: int|
                0 <= i < k ==> (#[trigger] out@[i])@ == (SegmentView {
                    data: all[i]@,
                    index: (first + i) as usize,
                    stream_ident: ident@,
                }),
        decreases rest@.len(),
    {
        let ghost r0 = rest@;
        let data = rest.remove(0);
        assert(data == all[k as int]);
        assert(rest@ =~= all.subrange(k + 1, count as int));
        out.push(MediaSegment { data, index: first + k, stream_ident: owned_string(ident) });
        k = k + 1;
    }
    out
}

} // verus!
