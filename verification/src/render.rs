//! Human-readable rendering of the statistics page and the stream
//! endpoint's bitrate header.

use vstd::prelude::*;

use crate::config::Config;
use crate::stats::Statistics;
use crate::text::{dec_digits, u64_to_string};

verus! {

/// `n` in decimal, left-padded with one `0` to at least two digits.
pub open spec fn spec_pad2(n: nat) -> Seq<char> {
    if n < 10 {
        seq!['0'] + dec_digits(n)
    } else {
        dec_digits(n)
    }
}

fn pad2(n: u64) -> (s: String)
    ensures
        s@ == spec_pad2(n as nat),
{
    if n < 10 {
        let mut s = String::from_str("0");
        proof {
            reveal_strlit("0");
            assert(s@ =~= seq!['0']);
        }
        s.append(u64_to_string(n).as_str());
        s
    } else {
        u64_to_string(n)
    }
}

/// `secs` seconds as `HH:MM:SS` (hours take more digits when they
/// need them).
pub open spec fn spec_time_display(secs: nat) -> Seq<char> {
    spec_pad2(secs / 3600) + seq![':'] + spec_pad2((secs / 60) % 60) + seq![':'] + spec_pad2(
        secs % 60,
    )
}

/// Renders a duration in seconds as `HH:MM:SS`.
pub fn display_time(secs: u64) -> (s: String)
    ensures
        s@ == spec_time_display(secs as nat),
{
    let mut s = pad2(secs / 3600);
    s.append(":");
    s.append(pad2((secs / 60) % 60).as_str());
    s.append(":");
    s.append(pad2(secs % 60).as_str());
    proof {
        reveal_strlit(":");
        assert(":"@ =~= seq![':']);
        assert(s@ =~= spec_time_display(secs as nat));
    }
    s
}

/// A byte count scaled by `unit`, as `W.FF` with two (truncated)
/// fraction digits.
pub open spec fn spec_scaled(x: nat, unit: nat) -> Seq<char>
    recommends
        unit >= 1,
{
    dec_digits(x / unit) + seq!['.'] + spec_pad2((x % unit) * 100 / unit)
}

fn scaled(x: u64, unit: u64) -> (s: String)
    requires
        1 <= unit <= 0x40000000,
    ensures
        s@ == spec_scaled(x as nat, unit as nat),
{
    let mut s = u64_to_string(x / unit);
    s.append(".");
    let frac = ((x % unit) * 100) / unit;
    s.append(pad2(frac).as_str());
    proof {
        reveal_strlit(".");
        assert("."@ =~= seq!['.']);
        assert(s@ =~= spec_scaled(x as nat, unit as nat));
    }
    s
}

/// A byte count with a binary-scaled unit: plain bytes below one KiB,
/// then KiB, MiB and GiB with two fraction digits.
pub open spec fn spec_bytes_display(x: nat) -> Seq<char> {
    if x < 1024 {
        dec_digits(x) + " B"@
    } else if x < 0x100000 {
        spec_scaled(x, 1024) + " KiB"@
    } else if x < 0x40000000 {
        spec_scaled(x, 0x100000) + " MiB"@
    } else {
        spec_scaled(x, 0x40000000) + " GiB"@
    }
}

/// Renders a byte count for the statistics page.
pub fn display_bytes(x: u64) -> (s: String)
    ensures
        s@ == spec_bytes_display(x as nat),
{
    if x < 1024 {
        let mut s = u64_to_string(x);
        s.append(" B");
        s
    } else if x < 0x100000 {
        let mut s = scaled(x, 1024);
        s.append(" KiB");
        s
    } else if x < 0x40000000 {
        let mut s = scaled(x, 0x100000);
        s.append(" MiB");
        s
    } else {
        let mut s = scaled(x, 0x40000000);
        s.append(" GiB");
        s
    }
}

/// The statistics page: one labelled line per gauge.
pub open spec fn spec_render_statistics(t: Statistics) -> Seq<char> {
    "Time played: "@ + spec_time_display((t.time_played / 1000) as nat) + "\n"@
        + "Listeners: "@ + dec_digits(t.listeners as nat) + "\n"@ + "Max listeners: "@
        + dec_digits(t.max_listeners as nat) + "\n"@ + "Sent: "@ + spec_bytes_display(
        t.bytes_sent as nat,
    ) + "\n"@ + "Transcoded: "@ + spec_bytes_display(t.bytes_transcoded as nat) + "\n"@
        + "Copied: "@ + spec_bytes_display(t.bytes_copied as nat) + "\n"@
        + "Target bandwidth: "@ + spec_bytes_display(t.target_badwidth as nat) + "/s\n"@
}

/// Renders the statistics page body.
pub fn render_statistics(t: &Statistics) -> (s: String)
    ensures
        s@ == spec_render_statistics(*t),
{
    let mut s = String::from_str("Time played: ");
    s.append(display_time(t.time_played / 1000).as_str());
    s.append("\n");
    s.append("Listeners: ");
    s.append(u64_to_string(t.listeners as u64).as_str());
    s.append("\n");
    s.append("Max listeners: ");
    s.append(u64_to_string(t.max_listeners as u64).as_str());
    s.append("\n");
    s.append("Sent: ");
    s.append(display_bytes(t.bytes_sent as u64).as_str());
    s.append("\n");
    s.append("Transcoded: ");
    s.append(display_bytes(t.bytes_transcoded as u64).as_str());
    s.append("\n");
    s.append("Copied: ");
    s.append(display_bytes(t.bytes_copied as u64).as_str());
    s.append("\n");
    s.append("Target bandwidth: ");
    s.append(display_bytes(t.target_badwidth as u64).as_str());
    s.append("/s\n");
    proof {
        assert(s@ =~= spec_render_statistics(*t));
    }
    s
}

/// The stream endpoint's `x-bitrate` value: every listener gets the
/// configured bitrate only when everything is re-encoded; otherwise
/// the bitrate varies with the source.
pub open spec fn spec_bitrate_header(c: Config) -> Seq<char> {
    if c.transcode_all {
        dec_digits(c.bitrate as nat)
    } else {
        "vary"@
    }
}

/// Renders the `x-bitrate` header value.
pub fn bitrate_header_value(c: &Config) -> (s: String)
    ensures
        s@ == spec_bitrate_header(*c),
{
    if c.transcode_all {
        u64_to_string(c.bitrate as u64)
    } else {
        String::from_str("vary")
    }
}

} // verus!
