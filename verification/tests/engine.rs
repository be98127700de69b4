use radio::art::{AlbumImage, ArtResponse};
use radio::audio::{AudioReader, Data, ScriptReader};
use radio::cmd::Mediainfo;
use radio::config::{Config, DirectoryConfig, DirectoryConfigMode};
use radio::player::{control_step, Error, LoopAction, Player, TaskControlMessage};

fn test_config(shuffle: bool) -> Config {
    Config {
        host: "127.0.0.1".to_string(),
        port: 9005,
        dirs: vec![DirectoryConfig {
            root: "./".to_string(),
            mode: DirectoryConfigMode::Exclude(Vec::new()),
        }],
        enable_webui: true,
        shuffle,
        bitrate: 128_000,
        transcode_all: false,
        enable_mediainfo: true,
        mediainfo_history: 16,
        sweeper_chance_ppm: 0,
    }
}

fn meta_for(name: &str, codec: &str) -> Mediainfo {
    Mediainfo {
        filename: name.to_string(),
        title: None,
        album: None,
        artist: None,
        album_artist: None,
        publisher: None,
        disc: None,
        track: None,
        genre: None,
        bitrate: Some(128_000),
        codec: codec.to_string(),
    }
}

#[test]
fn empty_playlist_is_fatal() {
    let r = Player::new(Vec::new(), Vec::new(), test_config(false));
    assert!(matches!(r, Err(Error::EmptyPlayilist)));
}

#[test]
fn cursor_stays_in_range_sequential() {
    let playlist = vec!["a.mp3".to_string(), "b.mp3".to_string(), "c.mp3".to_string()];
    let mut p = Player::new(playlist, Vec::new(), test_config(false)).unwrap();
    assert_eq!(p.index(), 0);
    for step in 0..50usize {
        p.next();
        assert_eq!(p.index(), (step + 1) % 3);
        assert!(p.index() < 3);
    }
}

#[test]
fn cursor_stays_in_range_shuffle() {
    let playlist = vec![
        "a.mp3".to_string(),
        "b.mp3".to_string(),
        "c.mp3".to_string(),
        "d.mp3".to_string(),
    ];
    let mut p = Player::new(playlist, Vec::new(), test_config(true)).unwrap();
    for _ in 0..200 {
        let before = p.index();
        p.next();
        assert!(p.index() < 4);
        assert_ne!(p.index(), before, "two consecutive shuffle advances repeated");
    }
}

#[test]
fn shuffle_single_track_stays_put() {
    let playlist = vec!["only.mp3".to_string()];
    let mut p = Player::new(playlist, Vec::new(), test_config(true)).unwrap();
    assert_eq!(p.index(), 0);
    assert_eq!(p.current().as_str(), "only.mp3");
    p.next();
    assert_eq!(p.index(), 0);
}

#[test]
fn two_track_sequential_rotation() {
    // Playlist [a.mp3, b.mp3], no shuffle, no forced transcode: the
    // cursor rotates a, b, a and only the copied-bytes counter moves.
    let playlist = vec!["a.mp3".to_string(), "b.mp3".to_string()];
    let config = test_config(false);
    let mut p = Player::new(playlist, Vec::new(), config).unwrap();
    let mut seen = Vec::new();
    for _ in 0..3 {
        let name = p.current().clone();
        seen.push(name.clone());
        let copy = Player::decide_copy_codec(p.config(), "mp3", false);
        assert!(copy);
        p.begin_track(meta_for(&name, "mp3"), None);
        let mut reader = ScriptReader::new(vec![
            Data::Audio(vec![1u8; 4096]),
            Data::Audio(vec![2u8; 4096]),
            Data::Audio(Vec::new()),
        ]);
        loop {
            let d = reader.read_data().unwrap();
            if !p.pump_step(d, copy) {
                break;
            }
        }
        p.next();
    }
    assert_eq!(seen, vec!["a.mp3".to_string(), "b.mp3".to_string(), "a.mp3".to_string()]);
    let newest = &p.read_mediainfo()[0];
    assert_eq!(newest.filename, "a.mp3");
    assert!(p.statistics().bytes_copied > 0);
    assert_eq!(p.statistics().bytes_transcoded, 0);
}

#[test]
fn broken_track_is_skipped_and_never_listed() {
    // Playlist [broken.flac, good.mp3]: the probe fails on the first,
    // so the loop advances without touching the ring; the ring's
    // first entry is good.mp3.
    let playlist = vec!["broken.flac".to_string(), "good.mp3".to_string()];
    let mut p = Player::new(playlist, Vec::new(), test_config(false)).unwrap();
    assert_eq!(p.current().as_str(), "broken.flac");
    // probe failed: skip without pushing metadata
    p.next();
    assert_eq!(p.current().as_str(), "good.mp3");
    p.begin_track(meta_for("good.mp3", "mp3"), None);
    let ring = p.read_mediainfo();
    assert_eq!(ring.len(), 1);
    assert_eq!(ring[0].filename, "good.mp3");
    assert!(ring.iter().all(|m| m.filename != "broken.flac"));
}

#[test]
fn listener_accounting() {
    let playlist = vec!["a.mp3".to_string()];
    let mut p = Player::new(playlist, Vec::new(), test_config(false)).unwrap();
    assert_eq!(p.statistics().listeners, 0);
    let s1 = p.subscribe();
    assert_eq!(p.statistics().listeners, 1);
    assert_eq!(p.statistics().max_listeners, 1);
    let s2 = p.subscribe();
    assert_eq!(p.statistics().listeners, 2);
    assert_eq!(p.statistics().max_listeners, 2);
    p.unsubscribe(s1);
    assert_eq!(p.statistics().listeners, 1);
    assert_eq!(p.statistics().max_listeners, 2);
    let s3 = p.subscribe();
    assert_eq!(p.statistics().listeners, 2);
    assert_eq!(p.statistics().max_listeners, 2);
    p.unsubscribe(s2);
    p.unsubscribe(s3);
    assert_eq!(p.statistics().listeners, 0);
    assert_eq!(p.statistics().max_listeners, 2);
}

#[test]
fn byte_accounting_per_chunk() {
    let playlist = vec!["a.mp3".to_string()];
    let mut p = Player::new(playlist, Vec::new(), test_config(false)).unwrap();
    let a = p.subscribe();
    let _b = p.subscribe();
    p.handle_chunk(&[0u8; 1000], true);
    assert_eq!(p.statistics().bytes_copied, 1000);
    assert_eq!(p.statistics().bytes_transcoded, 0);
    assert_eq!(p.statistics().bytes_sent, 2000);
    p.handle_chunk(&[0u8; 500], false);
    assert_eq!(p.statistics().bytes_copied, 1000);
    assert_eq!(p.statistics().bytes_transcoded, 500);
    assert_eq!(p.statistics().bytes_sent, 3000);
    assert_eq!(
        p.statistics().bytes_copied + p.statistics().bytes_transcoded,
        1500,
        "copied + transcoded must equal total produced bytes"
    );
    p.unsubscribe(a);
    p.handle_chunk(&[0u8; 100], false);
    assert_eq!(p.statistics().bytes_sent, 3100);
}

#[test]
fn publish_never_blocks_and_drops_oldest() {
    // A subscriber that consumes nothing: publishes keep completing,
    // its queue stays bounded, and what remains is the newest chunks
    // in publish order.
    let playlist = vec!["a.mp3".to_string()];
    let mut p = Player::new(playlist, Vec::new(), test_config(false)).unwrap();
    let slow = p.subscribe();
    for i in 0..6u8 {
        p.handle_chunk(&[i], false);
    }
    assert_eq!(p.lag_count(slow), 2);
    let mut rest = Vec::new();
    while let Some(chunk) = p.recv_chunk(slow) {
        rest.push(chunk);
    }
    // queue bound is four messages: the two oldest were dropped
    assert_eq!(rest, vec![vec![2u8], vec![3u8], vec![4u8], vec![5u8]]);
}

#[test]
fn fast_subscriber_sees_every_chunk_in_order() {
    let playlist = vec!["a.mp3".to_string()];
    let mut p = Player::new(playlist, Vec::new(), test_config(false)).unwrap();
    let slow = p.subscribe();
    let fast = p.subscribe();
    let mut fast_seen = Vec::new();
    for i in 0..10u8 {
        p.handle_chunk(&[i], false);
        if let Some(chunk) = p.recv_chunk(fast) {
            fast_seen.push(chunk[0]);
        }
    }
    assert_eq!(fast_seen, (0..10u8).collect::<Vec<_>>());
    assert_eq!(p.lag_count(fast), 0);
    // the slow subscriber lagged but never saw anything out of order
    let mut slow_seen = Vec::new();
    while let Some(chunk) = p.recv_chunk(slow) {
        slow_seen.push(chunk[0]);
    }
    assert_eq!(slow_seen, vec![6, 7, 8, 9]);
    assert_eq!(p.lag_count(slow), 6);
}

#[test]
fn ring_bound_and_newest_first() {
    let mut config = test_config(false);
    config.mediainfo_history = 3;
    let playlist = vec!["a.mp3".to_string()];
    let mut p = Player::new(playlist, Vec::new(), config).unwrap();
    for i in 0..5u32 {
        let name = format!("t{i}.mp3");
        p.begin_track(meta_for(&name, "mp3"), None);
        let expected = std::cmp::min(i as usize + 1, 3);
        assert_eq!(p.read_mediainfo().len(), expected);
        assert_eq!(p.read_mediainfo()[0].filename, name);
    }
    let names: Vec<_> = p.read_mediainfo().iter().map(|m| m.filename.clone()).collect();
    assert_eq!(names, vec!["t4.mp3", "t3.mp3", "t2.mp3"]);
}

#[test]
fn notification_fires_after_metadata_before_bytes() {
    let playlist = vec!["a.mp3".to_string(), "b.mp3".to_string()];
    let mut p = Player::new(playlist, Vec::new(), test_config(false)).unwrap();
    let stream = p.subscribe();
    let mut handle = p.subscribe_next_song();
    assert!(!handle.poll(p.notifier()), "no notification before any track change");

    p.begin_track(meta_for("a.mp3", "mp3"), Some(vec![1, 2, 3]));
    assert!(handle.poll(p.notifier()), "exactly one notification per track change");
    // woken: metadata and art are already the new track's...
    assert_eq!(p.read_mediainfo()[0].filename, "a.mp3");
    assert!(p.album_art().get().is_some());
    // ...and none of its bytes have been missed
    assert!(p.recv_chunk(stream).is_none());

    p.handle_chunk(&[9, 9], true);
    assert!(!handle.poll(p.notifier()), "audio does not notify");
    assert_eq!(p.recv_chunk(stream).unwrap(), vec![9, 9]);

    p.next();
    p.begin_track(meta_for("b.mp3", "mp3"), None);
    assert!(handle.poll(p.notifier()));
    assert!(!handle.poll(p.notifier()), "one advance, one observation");
    assert_eq!(p.read_mediainfo()[0].filename, "b.mp3");
}

#[test]
fn album_art_cache_round_trip() {
    let playlist = vec!["a.mp3".to_string()];
    let mut p = Player::new(playlist, Vec::new(), test_config(false)).unwrap();
    p.begin_track(meta_for("a.mp3", "mp3"), Some(vec![10, 20, 30]));

    // first request: the art and its tag
    let etag = match radio::art::album_art_response(p.album_art(), None) {
        ArtResponse::Png(bytes, etag) => {
            assert_eq!(bytes, vec![10, 20, 30]);
            assert_eq!(etag, "60");
            etag
        },
        _ => panic!("expected the image"),
    };
    // repeat with the tag: not modified
    assert!(matches!(
        radio::art::album_art_response(p.album_art(), Some(etag.as_str())),
        ArtResponse::NotModified
    ));
    // advance to a track without art: no content
    p.next();
    p.begin_track(meta_for("a.mp3", "mp3"), None);
    assert!(matches!(
        radio::art::album_art_response(p.album_art(), None),
        ArtResponse::NoContent
    ));
    // a stale tag no longer matches
    assert!(matches!(
        radio::art::album_art_response(p.album_art(), Some(etag.as_str())),
        ArtResponse::NoContent
    ));
}

#[test]
fn album_art_checksum_is_wrapping_byte_sum() {
    let mut art = AlbumImage::new();
    assert_eq!(art.checksum(), None);
    assert_eq!(art.get(), None);
    art.set(vec![1, 2, 3]);
    assert_eq!(art.checksum(), Some(6));
    assert_eq!(art.get().unwrap().to_vec(), vec![1, 2, 3]);
    art.set(vec![255, 255]);
    assert_eq!(art.checksum(), Some(510));
    art.clear();
    assert_eq!(art.checksum(), None);
    assert_eq!(radio::art::etag_value(&art), "no-image");
}

#[test]
fn no_image_etag_still_answers_not_modified() {
    let art = AlbumImage::new();
    assert!(matches!(
        radio::art::album_art_response(&art, Some("no-image")),
        ArtResponse::NotModified
    ));
}

#[test]
fn pump_step_stops_on_eof_and_error() {
    let playlist = vec!["a.mp3".to_string()];
    let mut p = Player::new(playlist, Vec::new(), test_config(false)).unwrap();
    assert!(p.pump_step(Data::Audio(vec![1]), false));
    assert!(!p.pump_step(Data::Audio(Vec::new()), false));
    assert!(!p.pump_step(Data::Error("boom".to_string()), false));
    assert_eq!(p.statistics().bytes_transcoded, 1);
}

#[test]
fn script_reader_replays_then_ends() {
    let mut r = ScriptReader::new(vec![Data::Audio(vec![7]), Data::Error("e".to_string())]);
    assert!(matches!(r.read_data(), Ok(Data::Audio(v)) if v == vec![7]));
    assert!(matches!(r.read_data(), Ok(Data::Error(e)) if e == "e"));
    assert!(matches!(r.read_data(), Ok(Data::Audio(v)) if v.is_empty()));
    assert!(matches!(r.read_data(), Ok(Data::Audio(v)) if v.is_empty()));
}

#[test]
fn copy_codec_decision() {
    let mut config = test_config(false);
    assert!(Player::decide_copy_codec(&config, "mp3", false));
    assert!(!Player::decide_copy_codec(&config, "mp3", true), "copy is incompatible with mixing");
    assert!(!Player::decide_copy_codec(&config, "flac", false));
    config.transcode_all = true;
    assert!(!Player::decide_copy_codec(&config, "mp3", false));
}

#[test]
fn sweeper_selection_respects_chance_and_list() {
    let playlist = vec!["a.mp3".to_string()];
    let p = Player::new(playlist.clone(), Vec::new(), test_config(false)).unwrap();
    for _ in 0..20 {
        assert!(p.pick_sweeper().is_none(), "zero chance never picks a sweeper");
    }
    let mut config = test_config(false);
    config.sweeper_chance_ppm = 1_000_000;
    let sweepers = vec!["s1.mp3".to_string(), "s2.mp3".to_string()];
    let p = Player::new(playlist, sweepers.clone(), config).unwrap();
    for _ in 0..20 {
        let s = p.pick_sweeper().expect("at certainty there is always a sweeper");
        assert!(sweepers.contains(&s));
    }
}

#[test]
fn sweeper_choice_is_a_function_of_the_draws() {
    let playlist = vec!["a.mp3".to_string()];
    let mut config = test_config(false);
    config.sweeper_chance_ppm = 500_000;
    let sweepers = vec!["s1.mp3".to_string(), "s2.mp3".to_string()];
    let p = Player::new(playlist, sweepers, config).unwrap();
    assert_eq!(p.sweeper_choice(499_999, 1), Some("s2.mp3".to_string()));
    assert_eq!(p.sweeper_choice(0, 0), Some("s1.mp3".to_string()));
    assert_eq!(p.sweeper_choice(500_000, 0), None, "a draw at the chance misses");
    assert_eq!(p.sweeper_choice(999_999, 1), None);
}

#[test]
fn control_decision() {
    assert_eq!(control_step(&TaskControlMessage::Play), LoopAction::PlayTrack);
    assert_eq!(control_step(&TaskControlMessage::Pause), LoopAction::Idle);
}

#[test]
fn bandwidth_and_time_gauges() {
    let playlist = vec!["a.mp3".to_string()];
    let mut p = Player::new(playlist, Vec::new(), test_config(false)).unwrap();
    let _a = p.subscribe();
    let _b = p.subscribe();
    p.record_bandwidth(16_000);
    assert_eq!(p.statistics().target_badwidth, 32_000);
    p.set_time_played(65_500);
    assert_eq!(p.statistics().time_played, 65_500);
}

#[test]
fn set_index_moves_cursor() {
    let playlist = vec!["a.mp3".to_string(), "b.mp3".to_string()];
    let mut p = Player::new(playlist, Vec::new(), test_config(false)).unwrap();
    p.set_index(1);
    assert_eq!(p.index(), 1);
    assert_eq!(p.current().as_str(), "b.mp3");
    assert_eq!(p.files().len(), 2);
}
