//! The media toolchain's command lines and the interpretation of its
//! output: argument lists for the transcoder and the probe, assembly of
//! per-track metadata from a probe report, and classification of the
//! album-art extraction outcome.
//!
//! Spawning the processes and decoding their JSON reports happens
//! outside the library; the functions here work on the plain values
//! that cross that boundary.

use vstd::prelude::*;

use crate::text::{all_digits, contains_seq, digits_val, parse_u32};

verus! {

/// Directory whose contents are offered as sweeper jingles.
pub const SWEEPER_DIR: &'static str = "./sweepers";

/// Metadata of one track as reported by the probe.
#[derive(Debug, Clone)]
pub struct Mediainfo {
    pub filename: String,
    pub title: Option<String>,
    pub album: Option<String>,
    pub artist: Option<String>,
    pub album_artist: Option<String>,
    pub publisher: Option<String>,
    pub disc: Option<String>,
    pub track: Option<String>,
    pub genre: Option<String>,
    pub bitrate: Option<u32>,
    pub codec: String,
}

/// Container-level tags of a probe report; every field is optional.
pub struct ProbeTags {
    pub title: Option<String>,
    pub album: Option<String>,
    pub artist: Option<String>,
    pub album_artist: Option<String>,
    pub publisher: Option<String>,
    pub disc: Option<String>,
    pub track: Option<String>,
    pub genre: Option<String>,
}

/// The bitrate a probe report yields: the stream's bitrate string if
/// present, else the container's, parsed as decimal; unparseable or
/// missing strings yield no bitrate.
pub open spec fn spec_bitrate_of(
    stream_bit_rate: Option<Seq<char>>,
    format_bit_rate: Option<Seq<char>>,
) -> Option<u32> {
    let picked = if stream_bit_rate is Some {
        stream_bit_rate
    } else {
        format_bit_rate
    };
    match picked {
        Some(s) => if s.len() > 0 && all_digits(s) && digits_val(s) <= u32::MAX {
            Some(digits_val(s) as u32)
        } else {
            None
        },
        None => None,
    }
}

/// Picks the stream bitrate over the container bitrate and parses it.
pub fn bitrate_of(stream_bit_rate: Option<String>, format_bit_rate: Option<String>) -> (r:
    Option<u32>)
    ensures
        r == spec_bitrate_of(
            match stream_bit_rate {
                Some(s) => Some(s@),
                None => None,
            },
            match format_bit_rate {
                Some(s) => Some(s@),
                None => None,
            },
        ),
{
    let picked = match stream_bit_rate {
        Some(s) => Some(s),
        None => format_bit_rate,
    };
    match picked {
        Some(s) => parse_u32(s.as_str()),
        None => None,
    }
}

/// Assembles a track's metadata from the parts of a probe report.
/// Tag fields carry over when container tags are present and are unset
/// otherwise; the bitrate prefers the stream's over the container's.
pub fn build_mediainfo(
    filename: String,
    codec: String,
    stream_bit_rate: Option<String>,
    format_bit_rate: Option<String>,
    tags: Option<ProbeTags>,
) -> (m: Mediainfo)
    ensures
        m.filename == filename,
        m.codec == codec,
        m.bitrate == spec_bitrate_of(
            match stream_bit_rate {
                Some(s) => Some(s@),
                None => None,
            },
            match format_bit_rate {
                Some(s) => Some(s@),
                None => None,
            },
        ),
        match tags {
            Some(t) => m.title == t.title && m.album == t.album && m.artist == t.artist
                && m.album_artist == t.album_artist && m.publisher == t.publisher && m.disc
                == t.disc && m.track == t.track && m.genre == t.genre,
            None => m.title is None && m.album is None && m.artist is None
                && m.album_artist is None && m.publisher is None && m.disc is None
                && m.track is None && m.genre is None,
        },
{
    let bitrate = bitrate_of(stream_bit_rate, format_bit_rate);
    match tags {
        Some(t) => Mediainfo {
            filename,
            title: t.title,
            album: t.album,
            artist: t.artist,
            album_artist: t.album_artist,
            publisher: t.publisher,
            disc: t.disc,
            track: t.track,
            genre: t.genre,
            bitrate,
            codec,
        },
        None => Mediainfo {
            filename,
            title: None,
            album: None,
            artist: None,
            album_artist: None,
            publisher: None,
            disc: None,
            track: None,
            genre: None,
            bitrate,
            codec,
        },
    }
}

/// The transcoder options shared by every invocation: quiet logging,
/// real-time pacing, a single worker thread, and the input file.
pub open spec fn spec_common_args(input: Seq<char>) -> Seq<Seq<char>> {
    seq!["-hide_banner"@, "-loglevel"@, "fatal"@, "-re"@, "-threads"@, "1"@, "-i"@, input]
}

/// Codec selection: bit-copy, or encode at the given bitrate.
pub open spec fn spec_codec_args(codec: Seq<char>, bitrate_bps: nat, copy_codec: bool) -> Seq<
    Seq<char>,
> {
    if copy_codec {
        seq!["-c:a"@, "copy"@]
    } else {
        seq!["-c:a"@, codec, "-b:a"@, crate::text::dec_digits(bitrate_bps)]
    }
}

/// Full argument list for MP3 output: strip the Xing header, ID3 tags,
/// container metadata and video streams, and frame as MP3 on stdout.
pub open spec fn spec_mp3_args(input: Seq<char>, bitrate_bps: nat, copy_codec: bool) -> Seq<
    Seq<char>,
> {
    spec_common_args(input) + spec_codec_args("mp3"@, bitrate_bps, copy_codec)
        + seq![
        "-write_xing"@,
        "0"@,
        "-id3v2_version"@,
        "0"@,
        "-map_metadata"@,
        "-1"@,
        "-vn"@,
        "-map"@,
        "0:a"@,
        "-f"@,
        "mp3"@,
        "-"@,
    ]
}

/// Full argument list for Ogg/Opus output: container metadata and
/// video streams stripped, framed as Ogg on stdout.
pub open spec fn spec_opus_args(input: Seq<char>, bitrate_bps: nat, copy_codec: bool) -> Seq<
    Seq<char>,
> {
    spec_common_args(input) + spec_codec_args("libopus"@, bitrate_bps, copy_codec)
        + seq!["-map_metadata"@, "-1"@, "-vn"@, "-map"@, "0:a"@, "-f"@, "ogg"@, "-"@]
}

/// The mixing graph for a sweeper: the first second of the track plays
/// unchanged, then the sweeper (delayed by one second) is mixed over the
/// continuing track at weights 1, 1, 0.1 with a half-second dropout
/// transition.
pub open spec fn spec_sweeper_filter() -> Seq<char> {
    "[0]atrim=0:1[in];[1]adelay=1s:all=1[voice];[in][voice][0]amix=inputs=3:weights='1, 1, 0.1':dropout_transition=0.5[out]"@
}

/// Full argument list for a track mixed with a sweeper: two inputs, MP3
/// encoding at the given bitrate, metadata stripped, the mixing graph
/// mapped to stdout.
pub open spec fn spec_sweeper_args(
    input: Seq<char>,
    sweeper: Seq<char>,
    bitrate_bps: nat,
) -> Seq<Seq<char>> {
    seq![
        "-hide_banner"@,
        "-loglevel"@,
        "fatal"@,
        "-re"@,
        "-threads"@,
        "1"@,
        "-i"@,
        input,
        "-i"@,
        sweeper,
        "-c:a"@,
        "mp3"@,
        "-b:a"@,
        crate::text::dec_digits(bitrate_bps),
        "-write_xing"@,
        "0"@,
        "-id3v2_version"@,
        "0"@,
        "-map_metadata"@,
        "-1"@,
        "-vn"@,
        "-filter_complex"@,
        spec_sweeper_filter(),
        "-map"@,
        "[out]"@,
        "-f"@,
        "mp3"@,
        "-"@,
    ]
}

fn push_lit(v: &mut Vec<String>, s: &str)
    ensures
        final(v)@.len() == old(v)@.len() + 1,
        final(v).deep_view() == old(v).deep_view() + seq![s@],
{
    v.push(String::from_str(s));
    assert(final(v).deep_view() =~= old(v).deep_view() + seq![s@]);
}

fn push_common_args(v: &mut Vec<String>, input: &str)
    ensures
        final(v).deep_view() == old(v).deep_view() + spec_common_args(input@),
{
    push_lit(v, "-hide_banner");
    push_lit(v, "-loglevel");
    push_lit(v, "fatal");
    push_lit(v, "-re");
    push_lit(v, "-threads");
    push_lit(v, "1");
    push_lit(v, "-i");
    push_lit(v, input);
    assert(final(v).deep_view() =~= old(v).deep_view() + spec_common_args(input@));
}

fn push_codec_args(v: &mut Vec<String>, codec: &str, bitrate_bps: u32, copy_codec: bool)
    ensures
        final(v).deep_view() == old(v).deep_view() + spec_codec_args(
            codec@,
            bitrate_bps as nat,
            copy_codec,
        ),
{
    if copy_codec {
        push_lit(v, "-c:a");
        push_lit(v, "copy");
    } else {
        push_lit(v, "-c:a");
        push_lit(v, codec);
        push_lit(v, "-b:a");
        let rate = crate::text::u64_to_string(bitrate_bps as u64);
        let ghost pre = v.deep_view();
        v.push(rate);
        assert(v.deep_view() =~= pre + seq![crate::text::dec_digits(bitrate_bps as nat)]);
    }
    assert(final(v).deep_view() =~= old(v).deep_view() + spec_codec_args(
        codec@,
        bitrate_bps as nat,
        copy_codec,
    ));
}

/// Builds the transcoder's argument list for MP3 output.
pub fn build_mp3(input: &str, bitrate_bps: u32, copy_codec: bool) -> (args: Vec<String>)
    ensures
        args.deep_view() == spec_mp3_args(input@, bitrate_bps as nat, copy_codec),
{
    let mut v: Vec<String> = Vec::new();
    push_common_args(&mut v, input);
    push_codec_args(&mut v, "mp3", bitrate_bps, copy_codec);
    push_lit(&mut v, "-write_xing");
    push_lit(&mut v, "0");
    push_lit(&mut v, "-id3v2_version");
    push_lit(&mut v, "0");
    push_lit(&mut v, "-map_metadata");
    push_lit(&mut v, "-1");
    push_lit(&mut v, "-vn");
    push_lit(&mut v, "-map");
    push_lit(&mut v, "0:a");
    push_lit(&mut v, "-f");
    push_lit(&mut v, "mp3");
    push_lit(&mut v, "-");
    assert(v.deep_view() =~= spec_mp3_args(input@, bitrate_bps as nat, copy_codec));
    v
}

/// Builds the transcoder's argument list for Ogg/Opus output.
pub fn build_opus(input: &str, bitrate_bps: u32, copy_codec: bool) -> (args: Vec<String>)
    ensures
        args.deep_view() == spec_opus_args(input@, bitrate_bps as nat, copy_codec),
{
    let mut v: Vec<String> = Vec::new();
    push_common_args(&mut v, input);
    push_codec_args(&mut v, "libopus", bitrate_bps, copy_codec);
    push_lit(&mut v, "-map_metadata");
    push_lit(&mut v, "-1");
    push_lit(&mut v, "-vn");
    push_lit(&mut v, "-map");
    push_lit(&mut v, "0:a");
    push_lit(&mut v, "-f");
    push_lit(&mut v, "ogg");
    push_lit(&mut v, "-");
    assert(v.deep_view() =~= spec_opus_args(input@, bitrate_bps as nat, copy_codec));
    v
}

/// Builds the transcoder's argument list when no sweeper is mixed in:
/// the MP3 build, which matches the stream endpoint's `audio/mpeg`
/// body and strips the Xing header, ID3 tags, container metadata and
/// video streams.
pub fn build_without_sweeper(input: &str, bitrate_bps: u32, copy_codec: bool) -> (args: Vec<
    String,
>)
    ensures
        args.deep_view() == spec_mp3_args(input@, bitrate_bps as nat, copy_codec),
{
    build_mp3(input, bitrate_bps, copy_codec)
}

/// Builds the transcoder's argument list for a track with a sweeper
/// mixed over its opening seconds.
pub fn build_with_sweeper(input: &str, sweeper: &str, bitrate_bps: u32) -> (args: Vec<String>)
    ensures
        args.deep_view() == spec_sweeper_args(input@, sweeper@, bitrate_bps as nat),
{
    let mut v: Vec<String> = Vec::new();
    push_lit(&mut v, "-hide_banner");
    push_lit(&mut v, "-loglevel");
    push_lit(&mut v, "fatal");
    push_lit(&mut v, "-re");
    push_lit(&mut v, "-threads");
    push_lit(&mut v, "1");
    push_lit(&mut v, "-i");
    push_lit(&mut v, input);
    push_lit(&mut v, "-i");
    push_lit(&mut v, sweeper);
    push_lit(&mut v, "-c:a");
    push_lit(&mut v, "mp3");
    push_lit(&mut v, "-b:a");
    let rate = crate::text::u64_to_string(bitrate_bps as u64);
    let ghost pre = v.deep_view();
    v.push(rate);
    assert(v.deep_view() =~= pre + seq![crate::text::dec_digits(bitrate_bps as nat)]);
    push_lit(&mut v, "-write_xing");
    push_lit(&mut v, "0");
    push_lit(&mut v, "-id3v2_version");
    push_lit(&mut v, "0");
    push_lit(&mut v, "-map_metadata");
    push_lit(&mut v, "-1");
    push_lit(&mut v, "-vn");
    push_lit(&mut v, "-filter_complex");
    push_lit(
        &mut v,
        "[0]atrim=0:1[in];[1]adelay=1s:all=1[voice];[in][voice][0]amix=inputs=3:weights='1, 1, 0.1':dropout_transition=0.5[out]",
    );
    push_lit(&mut v, "-map");
    push_lit(&mut v, "[out]");
    push_lit(&mut v, "-f");
    push_lit(&mut v, "mp3");
    push_lit(&mut v, "-");
    assert(v.deep_view() =~= spec_sweeper_args(input@, sweeper@, bitrate_bps as nat));
    v
}

/// The argument list the broadcast loop hands the transcoder: the
/// sweeper build when a sweeper is chosen, else the plain build.
pub fn ffmpeg_args(
    input: &str,
    sweeper: Option<&str>,
    bitrate_bps: u32,
    copy_codec: bool,
) -> (args: Vec<String>)
    ensures
        args.deep_view() == match sweeper {
            Some(s) => spec_sweeper_args(input@, s@, bitrate_bps as nat),
            None => spec_mp3_args(input@, bitrate_bps as nat, copy_codec),
        },
{
    match sweeper {
        Some(s) => build_with_sweeper(input, s, bitrate_bps),
        None => build_without_sweeper(input, bitrate_bps, copy_codec),
    }
}

/// The probe's argument list: quiet logging, the first audio stream,
/// codec and bitrate entries plus container tags, compact JSON output.
pub open spec fn spec_ffprobe_args(input: Seq<char>) -> Seq<Seq<char>> {
    seq![
        "-loglevel"@,
        "fatal"@,
        "-select_streams"@,
        "a:0"@,
        "-show_entries"@,
        "format_tags:stream=codec_name,bit_rate:format=filename,bit_rate"@,
        "-of"@,
        "json=c=1"@,
        input,
    ]
}

/// Builds the probe's argument list.
pub fn ffprobe_args(input: &str) -> (args: Vec<String>)
    ensures
        args.deep_view() == spec_ffprobe_args(input@),
{
    let mut v: Vec<String> = Vec::new();
    push_lit(&mut v, "-loglevel");
    push_lit(&mut v, "fatal");
    push_lit(&mut v, "-select_streams");
    push_lit(&mut v, "a:0");
    push_lit(&mut v, "-show_entries");
    push_lit(&mut v, "format_tags:stream=codec_name,bit_rate:format=filename,bit_rate");
    push_lit(&mut v, "-of");
    push_lit(&mut v, "json=c=1");
    push_lit(&mut v, input);
    assert(v.deep_view() =~= spec_ffprobe_args(input@));
    v
}

/// The argument list that extracts an embedded cover image as PNG on
/// stdout.
pub open spec fn spec_album_art_args(input: Seq<char>) -> Seq<Seq<char>> {
    seq!["-loglevel"@, "fatal"@, "-i"@, input, "-an"@, "-c:v"@, "png"@, "-f"@, "image2pipe"@, "-"@]
}

/// Builds the album-art extraction argument list.
pub fn album_art_args(input: &str) -> (args: Vec<String>)
    ensures
        args.deep_view() == spec_album_art_args(input@),
{
    let mut v: Vec<String> = Vec::new();
    push_lit(&mut v, "-loglevel");
    push_lit(&mut v, "fatal");
    push_lit(&mut v, "-i");
    push_lit(&mut v, input);
    push_lit(&mut v, "-an");
    push_lit(&mut v, "-c:v");
    push_lit(&mut v, "png");
    push_lit(&mut v, "-f");
    push_lit(&mut v, "image2pipe");
    push_lit(&mut v, "-");
    assert(v.deep_view() =~= spec_album_art_args(input@));
    v
}

/// The stderr line the art extractor emits when the file has no
/// embedded image stream.
pub open spec fn spec_no_stream_marker() -> Seq<char> {
    "Output file does not contain any stream"@
}

/// Classifies an album-art extraction run. A failed run whose error
/// text reports a missing image stream means "no art"; any other
/// failure is an error carrying the text; a successful run with no
/// bytes also means "no art"; otherwise the bytes are the PNG image.
pub fn classify_art_output(success: bool, stderr_text: String, stdout: Vec<u8>) -> (r: Result<
    Option<Vec<u8>>,
    String,
>)
    ensures
        match r {
            Ok(art) => (success && stdout@.len() > 0 && art == Some(stdout)) || (art is None
                && (!success && contains_seq(stderr_text@, spec_no_stream_marker()) || (success
                && stdout@.len() == 0))),
            Err(e) => !success && !contains_seq(stderr_text@, spec_no_stream_marker()) && e@
                == "ffmpeg failed: "@ + stderr_text@,
        },
{
    if !success {
        if crate::text::str_contains(
            stderr_text.as_str(),
            "Output file does not contain any stream",
        ) {
            return Ok(None);
        }
        let mut msg = String::from_str("ffmpeg failed: ");
        msg.append(stderr_text.as_str());
        return Err(msg);
    }
    if stdout.len() == 0 {
        return Ok(None);
    }
    Ok(Some(stdout))
}

} // verus!
