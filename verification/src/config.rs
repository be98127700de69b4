//! Configuration: the server's options, the bitrate notation, and the
//! mapping from command-line values to a full configuration.
//!
//! Loading a configuration file and parsing the actual command line
//! happen outside the library; the types here carry the resulting
//! plain values and the verified conversions between them.

use vstd::prelude::*;

use crate::text::{all_digits, digits_val, lower_char, parse_u32};

verus! {

/// Whether a scanned directory keeps or drops entries by path prefix.
#[derive(Debug, Clone)]
pub enum DirectoryConfigMode {
    /// Keep an entry only when its path starts with one of these
    /// prefixes.
    Include(Vec<String>),
    /// Drop an entry when its path starts with one of these prefixes.
    Exclude(Vec<String>),
}

/// One directory root to scan, with its keep/drop rule.
#[derive(Debug, Clone)]
pub struct DirectoryConfig {
    pub root: String,
    pub mode: DirectoryConfigMode,
}

/// The server's configuration.
#[derive(Debug)]
pub struct Config {
    pub host: String,
    pub port: u16,
    pub dirs: Vec<DirectoryConfig>,
    pub enable_webui: bool,
    pub shuffle: bool,
    /// Encode bitrate in bits per second.
    pub bitrate: u32,
    /// Re-encode even inputs that could be bit-copied.
    pub transcode_all: bool,
    pub enable_mediainfo: bool,
    /// Capacity of the metadata ring; at least one.
    pub mediainfo_history: usize,
    /// Probability of mixing a sweeper into a track, in parts per
    /// million of one; zero disables sweepers.
    pub sweeper_chance_ppm: u32,
}

impl Config {
    pub open spec fn wf(&self) -> bool {
        &&& self.mediainfo_history >= 1
        &&& self.bitrate >= 1
        &&& self.sweeper_chance_ppm <= 1000000
    }
}

impl Default for Config {
    /// The configuration written into a generated configuration file.
    fn default() -> (c: Config)
        ensures
            c.wf(),
            c.host@ == "0.0.0.0"@,
            c.port == 9005,
            c.dirs@.len() == 1,
            c.dirs@[0].root@ == "./"@,
            c.dirs@[0].mode matches DirectoryConfigMode::Exclude(d) && d@.len() == 0,
            c.enable_webui,
            c.shuffle,
            c.bitrate == 128000,
            !c.transcode_all,
            c.enable_mediainfo,
            c.mediainfo_history == 16,
            c.sweeper_chance_ppm == 0,
    {
        Config {
            host: String::from_str("0.0.0.0"),
            port: 9005,
            dirs: vec![DirectoryConfig {
                root: String::from_str("./"),
                mode: DirectoryConfigMode::Exclude(Vec::new()),
            }],
            enable_webui: true,
            shuffle: true,
            bitrate: 128000,
            transcode_all: false,
            enable_mediainfo: true,
            mediainfo_history: 16,
            sweeper_chance_ppm: 0,
        }
    }
}

/// Which configuration file a command-line flag points at.
#[derive(Debug, Clone)]
pub enum UseConfigArg {
    /// The platform's default configuration path.
    Default,
    /// An explicit path.
    Custom(String),
}

impl UseConfigArg {
    /// Parses the flag's value: an empty value means the default
    /// path, anything else is taken as an explicit path.
    pub fn from_str(s: &str) -> (r: Result<UseConfigArg, String>)
        ensures
            match r {
                Ok(a) => (s@.len() == 0 && a is Default) || (s@.len() > 0 && (a matches
                    UseConfigArg::Custom(p) && p@ == s@)),
                Err(_) => false,
            },
    {
        if s.unicode_len() == 0 {
            Ok(UseConfigArg::Default)
        } else {
            Ok(UseConfigArg::Custom(String::from_str(s)))
        }
    }

    /// What this flag value reads as.
    pub open spec fn spec_display(&self) -> Seq<char> {
        match self {
            UseConfigArg::Default => "Default"@,
            UseConfigArg::Custom(p) => "Custom("@ + p@ + ")"@,
        }
    }

    /// Renders the flag value for messages.
    pub fn display_string(&self) -> (s: String)
        ensures
            s@ == self.spec_display(),
    {
        match self {
            UseConfigArg::Default => String::from_str("Default"),
            UseConfigArg::Custom(p) => {
                let mut s = String::from_str("Custom(");
                s.append(p.as_str());
                s.append(")");
                proof {
                    assert(s@ =~= "Custom("@ + p@ + ")"@);
                }
                s
            },
        }
    }
}

/// The pre-pass over the command line: only the two flags that decide
/// whether a configuration file is generated or used.
pub struct PreCliConfig {
    pub generate_config: Option<UseConfigArg>,
    pub use_config: Option<UseConfigArg>,
}

/// An encode bitrate in bits per second; never zero.
#[derive(Debug, Clone)]
pub struct Bitrate {
    pub bits_per_second: u32,
}

/// The value `s` denotes in bitrate notation: a positive decimal
/// number of bits per second, or such a number with a `k` (or `K`)
/// suffix scaling it by a thousand; anything else (zero included, and
/// scaled values above `u32::MAX`) denotes nothing.
pub open spec fn spec_parse_bitrate(s: Seq<char>) -> Option<u32> {
    if s.len() > 0 && all_digits(s) && 1 <= digits_val(s) <= u32::MAX {
        Some(digits_val(s) as u32)
    } else if s.len() > 1 && lower_char(s.last()) == 'k' && all_digits(s.drop_last()) && 1
        <= digits_val(s.drop_last()) && digits_val(s.drop_last()) * 1000 <= u32::MAX {
        Some((digits_val(s.drop_last()) * 1000) as u32)
    } else {
        None
    }
}

impl Bitrate {
    pub open spec fn wf(&self) -> bool {
        self.bits_per_second >= 1
    }

    /// Parses bitrate notation: `N` for bits per second, `Nk` for
    /// kilobits per second.
    pub fn from_str(s: &str) -> (r: Result<Bitrate, String>)
        ensures
            match r {
                Ok(b) => b.wf() && spec_parse_bitrate(s@) == Some(b.bits_per_second),
                Err(_) => spec_parse_bitrate(s@) is None,
            },
    {
        let n = s.unicode_len();
        match parse_u32(s) {
            Some(v) if v >= 1 => Ok(Bitrate { bits_per_second: v }),
            _ => {
                if n < 2 {
                    return Err(String::from_str("expected a bitrate such as 128000 or 128k"));
                }
                let last = s.get_char(n - 1);
                let code = last as u32;
                let is_k = code == 107 || code == 75;
                if !is_k {
                    assert(lower_char(s@.last()) != 'k');
                    return Err(String::from_str("expected a bitrate such as 128000 or 128k"));
                }
                let prefix = s.substring_char(0, n - 1);
                assert(prefix@ =~= s@.drop_last());
                match parse_u32(prefix) {
                    Some(v) if v >= 1 => {
                        if v <= u32::MAX / 1000 {
                            Ok(Bitrate { bits_per_second: v * 1000 })
                        } else {
                            assert(digits_val(s@.drop_last()) * 1000 > u32::MAX);
                            Err(String::from_str("bitrate does not fit in 32 bits"))
                        }
                    },
                    _ => Err(String::from_str("expected a bitrate such as 128000 or 128k")),
                }
            },
        }
    }
}

/// Include/exclude lists as they arrive from the command line; the
/// two are mutually exclusive there, so at most one is non-empty.
pub struct DirectoryConfigModeCli {
    pub included: Vec<String>,
    pub excluded: Vec<String>,
}

/// The full command-line option set.
pub struct CliConfig {
    pub host: String,
    pub port: u16,
    pub enable_webui: bool,
    pub shuffle: bool,
    pub transcode_bitrate: Bitrate,
    pub enable_mediainfo: bool,
    pub mediainfo_history: usize,
    pub transcode: bool,
    pub root: String,
    pub mode: Option<DirectoryConfigModeCli>,
}

/// The directory list a command line denotes: with no mode, the root
/// with an empty exclude rule; with a mode, one entry per non-empty
/// list, the keep-rule first.
pub open spec fn spec_dirs_from_cli(
    root: String,
    mode: Option<DirectoryConfigModeCli>,
    dirs: Seq<DirectoryConfig>,
) -> bool {
    match mode {
        Some(m) => {
            if m.included@.len() > 0 && m.excluded@.len() > 0 {
                dirs.len() == 2 && dirs[0].root == root && dirs[0].mode == (
                DirectoryConfigMode::Include(m.included)) && dirs[1].root == root
                    && dirs[1].mode == (DirectoryConfigMode::Exclude(m.excluded))
            } else if m.included@.len() > 0 {
                dirs.len() == 1 && dirs[0].root == root && dirs[0].mode == (
                DirectoryConfigMode::Include(m.included))
            } else if m.excluded@.len() > 0 {
                dirs.len() == 1 && dirs[0].root == root && dirs[0].mode == (
                DirectoryConfigMode::Exclude(m.excluded))
            } else {
                dirs.len() == 0
            }
        },
        None => dirs.len() == 1 && dirs[0].root == root && (dirs[0].mode matches
            DirectoryConfigMode::Exclude(e) && e@.len() == 0),
    }
}

impl Config {
    /// Turns parsed command-line options into a configuration.
    /// Sweepers have no command-line switch, so their chance starts at
    /// zero.
    pub fn from(cli: CliConfig) -> (c: Config)
        ensures
            c.host == cli.host,
            c.port == cli.port,
            spec_dirs_from_cli(cli.root, cli.mode, c.dirs@),
            c.enable_webui == cli.enable_webui,
            c.shuffle == cli.shuffle,
            c.bitrate == cli.transcode_bitrate.bits_per_second,
            c.transcode_all == cli.transcode,
            c.enable_mediainfo == cli.enable_mediainfo,
            c.mediainfo_history == cli.mediainfo_history,
            c.sweeper_chance_ppm == 0,
    {
        let CliConfig {
            host,
            port,
            enable_webui,
            shuffle,
            transcode_bitrate,
            enable_mediainfo,
            mediainfo_history,
            transcode,
            root,
            mode,
        } = cli;
        let mut dirs: Vec<DirectoryConfig> = Vec::new();
        match mode {
            Some(m) => {
                let has_included = m.included.len() > 0;
                let has_excluded = m.excluded.len() > 0;
                if has_included {
                    dirs.push(
                        DirectoryConfig {
                            root: root.clone(),
                            mode: DirectoryConfigMode::Include(m.included),
                        },
                    );
                }
                if has_excluded {
                    dirs.push(
                        DirectoryConfig {
                            root: root.clone(),
                            mode: DirectoryConfigMode::Exclude(m.excluded),
                        },
                    );
                }
            },
            None => {
                dirs.push(
                    DirectoryConfig { root, mode: DirectoryConfigMode::Exclude(Vec::new()) },
                );
            },
        }
        Config {
            host,
            port,
            dirs,
            enable_webui,
            shuffle,
            bitrate: transcode_bitrate.bits_per_second,
            transcode_all: transcode,
            enable_mediainfo,
            mediainfo_history,
            sweeper_chance_ppm: 0,
        }
    }
}

/// Errors of configuration loading.
#[derive(Debug)]
pub enum Error {
    /// The file held something that does not parse as a
    /// configuration; carries the parser's message.
    Parse(String),
    /// Reading or writing the file failed; carries the I/O message.
    Io(String),
}

} // verus!
