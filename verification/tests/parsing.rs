use radio::config::{Bitrate, CliConfig, Config, DirectoryConfigMode, DirectoryConfigModeCli,
    UseConfigArg};
use radio::files::{basename, entry_selected, extension_of, is_image_name,
    is_supported_audio_name, select_art_candidates, stem_of};
use radio::text::{i64_to_string, parse_u32, str_contains, str_eq, str_eq_ignore_ascii_case,
    str_starts_with, u64_to_string};

#[test]
fn parse_u32_accepts_digits_only() {
    assert_eq!(parse_u32("0"), Some(0));
    assert_eq!(parse_u32("128000"), Some(128_000));
    assert_eq!(parse_u32("4294967295"), Some(u32::MAX));
    assert_eq!(parse_u32("4294967296"), None);
    assert_eq!(parse_u32(""), None);
    assert_eq!(parse_u32("12a"), None);
    assert_eq!(parse_u32("-1"), None);
    assert_eq!(parse_u32("+1"), None);
}

#[test]
fn decimal_rendering() {
    assert_eq!(u64_to_string(0), "0");
    assert_eq!(u64_to_string(7), "7");
    assert_eq!(u64_to_string(128000), "128000");
    assert_eq!(u64_to_string(u64::MAX), "18446744073709551615");
    assert_eq!(i64_to_string(0), "0");
    assert_eq!(i64_to_string(-1), "-1");
    assert_eq!(i64_to_string(i64::MIN), "-9223372036854775808");
    assert_eq!(i64_to_string(i64::MAX), "9223372036854775807");
}

#[test]
fn string_helpers() {
    assert!(str_eq("abc", "abc"));
    assert!(!str_eq("abc", "abd"));
    assert!(!str_eq("abc", "abcd"));
    assert!(str_eq_ignore_ascii_case("MP3", "mp3"));
    assert!(str_eq_ignore_ascii_case("FlAc", "fLaC"));
    assert!(!str_eq_ignore_ascii_case("mp3", "mp4"));
    assert!(str_contains("Output file does not contain any stream!", "does not contain"));
    assert!(!str_contains("short", "longer than haystack"));
    assert!(str_contains("anything", ""));
    assert!(str_starts_with("/music/rock/a.mp3", "/music"));
    assert!(!str_starts_with("/music", "/music/rock"));
}

#[test]
fn bitrate_notation() {
    assert_eq!(Bitrate::from_str("128000").unwrap().bits_per_second, 128_000);
    assert_eq!(Bitrate::from_str("128k").unwrap().bits_per_second, 128_000);
    assert_eq!(Bitrate::from_str("128K").unwrap().bits_per_second, 128_000);
    assert_eq!(Bitrate::from_str("1k").unwrap().bits_per_second, 1_000);
    assert!(Bitrate::from_str("0").is_err());
    assert!(Bitrate::from_str("0k").is_err());
    assert!(Bitrate::from_str("k").is_err());
    assert!(Bitrate::from_str("").is_err());
    assert!(Bitrate::from_str("12x").is_err());
    // 4294968 * 1000 does not fit in 32 bits
    assert!(Bitrate::from_str("4294968k").is_err());
    assert_eq!(Bitrate::from_str("4294967k").unwrap().bits_per_second, 4_294_967_000);
}

#[test]
fn use_config_flag() {
    assert!(matches!(UseConfigArg::from_str(""), Ok(UseConfigArg::Default)));
    match UseConfigArg::from_str("/etc/radio.toml") {
        Ok(UseConfigArg::Custom(p)) => assert_eq!(p, "/etc/radio.toml"),
        other => panic!("unexpected: {:?}", other.is_ok()),
    }
    assert_eq!(UseConfigArg::Default.display_string(), "Default");
    assert_eq!(
        UseConfigArg::Custom("x.toml".to_string()).display_string(),
        "Custom(x.toml)"
    );
}

#[test]
fn default_config_values() {
    let c = Config::default();
    assert_eq!(c.host, "0.0.0.0");
    assert_eq!(c.port, 9005);
    assert_eq!(c.dirs.len(), 1);
    assert_eq!(c.dirs[0].root, "./");
    assert!(matches!(&c.dirs[0].mode, DirectoryConfigMode::Exclude(d) if d.is_empty()));
    assert!(c.shuffle);
    assert!(c.enable_webui);
    assert_eq!(c.bitrate, 128_000);
    assert!(!c.transcode_all);
    assert!(c.enable_mediainfo);
    assert_eq!(c.mediainfo_history, 16);
    assert_eq!(c.sweeper_chance_ppm, 0);
}

fn cli(mode: Option<DirectoryConfigModeCli>) -> CliConfig {
    CliConfig {
        host: "127.0.0.1".to_string(),
        port: 8080,
        enable_webui: false,
        shuffle: false,
        transcode_bitrate: Bitrate { bits_per_second: 96_000 },
        enable_mediainfo: true,
        mediainfo_history: 8,
        transcode: true,
        root: "/music".to_string(),
        mode,
    }
}

#[test]
fn config_from_cli_without_mode() {
    let c = Config::from(cli(None));
    assert_eq!(c.host, "127.0.0.1");
    assert_eq!(c.port, 8080);
    assert_eq!(c.bitrate, 96_000);
    assert!(c.transcode_all);
    assert_eq!(c.mediainfo_history, 8);
    assert_eq!(c.sweeper_chance_ppm, 0);
    assert_eq!(c.dirs.len(), 1);
    assert_eq!(c.dirs[0].root, "/music");
    assert!(matches!(&c.dirs[0].mode, DirectoryConfigMode::Exclude(d) if d.is_empty()));
}

#[test]
fn config_from_cli_with_modes() {
    let c = Config::from(cli(Some(DirectoryConfigModeCli {
        included: vec!["/music/rock".to_string()],
        excluded: Vec::new(),
    })));
    assert_eq!(c.dirs.len(), 1);
    assert!(matches!(&c.dirs[0].mode,
        DirectoryConfigMode::Include(d) if d == &vec!["/music/rock".to_string()]));

    let c = Config::from(cli(Some(DirectoryConfigModeCli {
        included: Vec::new(),
        excluded: vec!["/music/talk".to_string()],
    })));
    assert_eq!(c.dirs.len(), 1);
    assert!(matches!(&c.dirs[0].mode,
        DirectoryConfigMode::Exclude(d) if d == &vec!["/music/talk".to_string()]));
}

#[test]
fn supported_audio_extensions() {
    assert!(is_supported_audio_name("song.mp3"));
    assert!(is_supported_audio_name("song.MP3"));
    assert!(is_supported_audio_name("song.FlAc"));
    assert!(is_supported_audio_name("song.opus"));
    assert!(is_supported_audio_name("song.wav"));
    assert!(!is_supported_audio_name("song.ogg"));
    assert!(!is_supported_audio_name("mp3"));
    assert!(!is_supported_audio_name(".mp3"));
    assert!(!is_supported_audio_name("song."));
    assert!(!is_supported_audio_name("song"));
}

#[test]
fn extension_and_stem() {
    assert_eq!(extension_of("a.mp3"), Some("mp3"));
    assert_eq!(extension_of("a.b.c"), Some("c"));
    assert_eq!(extension_of(".hidden"), None);
    assert_eq!(extension_of("plain"), None);
    assert_eq!(extension_of("dot."), Some(""));
    assert_eq!(stem_of("cover.jpg"), "cover");
    assert_eq!(stem_of("a.b.c"), "a.b");
    assert_eq!(stem_of(".hidden"), ".hidden");
    assert_eq!(stem_of("plain"), "plain");
}

#[test]
fn basename_extraction() {
    assert_eq!(basename("/music/rock/a.mp3"), "a.mp3");
    assert_eq!(basename("a.mp3"), "a.mp3");
    assert_eq!(basename("/music/rock/"), "");
    assert_eq!(basename(""), "");
}

#[test]
fn art_candidate_selection() {
    let names = vec![
        "song.mp3".to_string(),
        "front.JPG".to_string(),
        "cover.png".to_string(),
        "back.jpeg".to_string(),
        "notes.txt".to_string(),
    ];
    // a cover image wins alone
    assert_eq!(select_art_candidates(&names), vec!["cover.png".to_string()]);
    // without one, every image is a candidate in listing order
    let names = vec![
        "song.mp3".to_string(),
        "front.JPG".to_string(),
        "back.jpeg".to_string(),
        "Cover.png".to_string(), // stem match is case-sensitive
    ];
    assert_eq!(
        select_art_candidates(&names),
        vec!["front.JPG".to_string(), "back.jpeg".to_string(), "Cover.png".to_string()]
    );
    assert!(is_image_name("x.png") && is_image_name("x.jpg") && is_image_name("x.JPEG"));
    assert!(!is_image_name("x.gif"));
}

#[test]
fn directory_selection_rules() {
    let keep = DirectoryConfigMode::Include(vec!["/music/rock".to_string()]);
    assert!(entry_selected("/music/rock/a.mp3", &keep));
    assert!(!entry_selected("/music/pop/a.mp3", &keep));

    let drop = DirectoryConfigMode::Exclude(vec!["/music/talk".to_string()]);
    assert!(entry_selected("/music/rock/a.mp3", &drop));
    assert!(!entry_selected("/music/talk/a.mp3", &drop));

    let empty_drop = DirectoryConfigMode::Exclude(Vec::new());
    assert!(entry_selected("/anything", &empty_drop));
}
