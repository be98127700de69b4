use radio::cmd::{album_art_args, build_mediainfo, build_mp3, build_opus, build_with_sweeper,
    build_without_sweeper, classify_art_output, ffmpeg_args, ffprobe_args, ProbeTags,
    SWEEPER_DIR};
use radio::render::{bitrate_header_value, display_bytes, display_time, render_statistics};
use radio::stats::Statistics;

#[test]
fn mp3_arguments() {
    let args = build_mp3("in.mp3", 128_000, false);
    assert_eq!(
        args,
        vec![
            "-hide_banner", "-loglevel", "fatal", "-re", "-threads", "1", "-i", "in.mp3",
            "-c:a", "mp3", "-b:a", "128000", "-write_xing", "0", "-id3v2_version", "0",
            "-map_metadata", "-1", "-vn", "-map", "0:a", "-f", "mp3", "-",
        ]
    );
    let copy = build_mp3("in.mp3", 128_000, true);
    assert!(copy.contains(&"copy".to_string()));
    assert!(!copy.contains(&"-b:a".to_string()));
}

#[test]
fn opus_arguments() {
    let args = build_opus("x.flac", 96_000, false);
    assert_eq!(
        args,
        vec![
            "-hide_banner", "-loglevel", "fatal", "-re", "-threads", "1", "-i", "x.flac",
            "-c:a", "libopus", "-b:a", "96000", "-map_metadata", "-1", "-vn", "-map", "0:a",
            "-f", "ogg", "-",
        ]
    );
}

#[test]
fn no_sweeper_build_strips_metadata() {
    // without a sweeper the loop uses the MP3 build: metadata, Xing
    // header and ID3 tags stripped, matching the stream's audio/mpeg
    let args = build_without_sweeper("x.flac", 96_000, false);
    assert_eq!(args, build_mp3("x.flac", 96_000, false));
    let pos = args.iter().position(|a| a == "-map_metadata").unwrap();
    assert_eq!(args[pos + 1], "-1");
    assert!(args.contains(&"-write_xing".to_string()));
    assert!(args.contains(&"-id3v2_version".to_string()));
    assert!(args.contains(&"-vn".to_string()));
}

#[test]
fn sweeper_arguments() {
    let args = build_with_sweeper("track.mp3", "sweep.mp3", 128_000);
    assert_eq!(&args[..10], &[
        "-hide_banner", "-loglevel", "fatal", "-re", "-threads", "1", "-i", "track.mp3",
        "-i", "sweep.mp3",
    ]);
    assert!(args.contains(&"-filter_complex".to_string()));
    let graph = &args[args.iter().position(|a| a == "-filter_complex").unwrap() + 1];
    assert!(graph.starts_with("[0]atrim=0:1[in];[1]adelay=1s:all=1[voice];"));
    assert!(graph.contains("amix=inputs=3:weights='1, 1, 0.1':dropout_transition=0.5"));
    assert_eq!(args.last().unwrap().as_str(), "-");
}

#[test]
fn dispatch_by_sweeper() {
    assert_eq!(
        ffmpeg_args("t.mp3", Some("s.mp3"), 128_000, true),
        build_with_sweeper("t.mp3", "s.mp3", 128_000)
    );
    assert_eq!(
        ffmpeg_args("t.mp3", None, 128_000, true),
        build_without_sweeper("t.mp3", 128_000, true)
    );
    assert!(ffmpeg_args("t.mp3", None, 128_000, false).contains(&"-map_metadata".to_string()));
    assert!(ffmpeg_args("t.mp3", Some("s.mp3"), 128_000, false)
        .contains(&"-map_metadata".to_string()));
}

#[test]
fn probe_arguments() {
    let args = ffprobe_args("t.mp3");
    assert_eq!(
        args,
        vec![
            "-loglevel", "fatal", "-select_streams", "a:0", "-show_entries",
            "format_tags:stream=codec_name,bit_rate:format=filename,bit_rate", "-of",
            "json=c=1", "t.mp3",
        ]
    );
    let art = album_art_args("t.mp3");
    assert_eq!(
        art,
        vec![
            "-loglevel", "fatal", "-i", "t.mp3", "-an", "-c:v", "png", "-f", "image2pipe",
            "-",
        ]
    );
    assert_eq!(SWEEPER_DIR, "./sweepers");
}

#[test]
fn mediainfo_assembly() {
    let tags = ProbeTags {
        title: Some("T".to_string()),
        album: Some("A".to_string()),
        artist: None,
        album_artist: None,
        publisher: None,
        disc: None,
        track: Some("3".to_string()),
        genre: None,
    };
    let m = build_mediainfo(
        "a.mp3".to_string(),
        "mp3".to_string(),
        Some("128000".to_string()),
        Some("999".to_string()),
        Some(tags),
    );
    assert_eq!(m.filename, "a.mp3");
    assert_eq!(m.codec, "mp3");
    assert_eq!(m.bitrate, Some(128_000), "the stream bitrate wins over the container's");
    assert_eq!(m.title.as_deref(), Some("T"));
    assert_eq!(m.album.as_deref(), Some("A"));
    assert_eq!(m.track.as_deref(), Some("3"));
    assert_eq!(m.artist, None);

    let m = build_mediainfo(
        "b.flac".to_string(),
        "flac".to_string(),
        None,
        Some("900000".to_string()),
        None,
    );
    assert_eq!(m.bitrate, Some(900_000), "the container bitrate is the fallback");
    assert_eq!(m.title, None);

    let m = build_mediainfo("c.wav".to_string(), "pcm_s16le".to_string(), None, None, None);
    assert_eq!(m.bitrate, None);

    let m = build_mediainfo(
        "d.mp3".to_string(),
        "mp3".to_string(),
        Some("N/A".to_string()),
        Some("128000".to_string()),
        None,
    );
    assert_eq!(m.bitrate, None, "an unparseable stream bitrate does not fall back");
}

#[test]
fn art_output_classification() {
    // success with bytes: the image
    let r = classify_art_output(true, String::new(), vec![1, 2, 3]);
    assert_eq!(r.unwrap(), Some(vec![1, 2, 3]));
    // success without bytes: no art
    let r = classify_art_output(true, String::new(), Vec::new());
    assert_eq!(r.unwrap(), None);
    // failure that just means "no image stream": no art
    let stderr = "whatever...\nOutput file does not contain any stream\n".to_string();
    let r = classify_art_output(false, stderr, Vec::new());
    assert_eq!(r.unwrap(), None);
    // any other failure: the error text
    let r = classify_art_output(false, "boom".to_string(), Vec::new());
    assert_eq!(r.unwrap_err(), "ffmpeg failed: boom");
}

#[test]
fn byte_display() {
    assert_eq!(display_bytes(0), "0 B");
    assert_eq!(display_bytes(1023), "1023 B");
    assert_eq!(display_bytes(1024), "1.00 KiB");
    assert_eq!(display_bytes(1536), "1.50 KiB");
    assert_eq!(display_bytes(10 * 1024 + 256), "10.25 KiB");
    assert_eq!(display_bytes(1024 * 1024), "1.00 MiB");
    assert_eq!(display_bytes(5 * 1024 * 1024 + 512 * 1024), "5.50 MiB");
    assert_eq!(display_bytes(1024 * 1024 * 1024), "1.00 GiB");
    assert_eq!(display_bytes(3 * 1024 * 1024 * 1024 + 768 * 1024 * 1024), "3.75 GiB");
}

#[test]
fn time_display() {
    assert_eq!(display_time(0), "00:00:00");
    assert_eq!(display_time(59), "00:00:59");
    assert_eq!(display_time(61), "00:01:01");
    assert_eq!(display_time(3661), "01:01:01");
    assert_eq!(display_time(100 * 3600 + 2), "100:00:02");
}

#[test]
fn statistics_page() {
    let t = Statistics {
        time_played: 3_661_000,
        listeners: 2,
        max_listeners: 5,
        bytes_transcoded: 1024,
        bytes_copied: 0,
        bytes_sent: 2048,
        target_badwidth: 32_000,
    };
    let body = render_statistics(&t);
    assert_eq!(
        body,
        "Time played: 01:01:01\n\
         Listeners: 2\n\
         Max listeners: 5\n\
         Sent: 2.00 KiB\n\
         Transcoded: 1.00 KiB\n\
         Copied: 0 B\n\
         Target bandwidth: 31.25 KiB/s\n"
    );
}

#[test]
fn bitrate_header() {
    let mut c = radio::config::Config::default();
    assert_eq!(bitrate_header_value(&c), "vary");
    c.transcode_all = true;
    assert_eq!(bitrate_header_value(&c), "128000");
}
