//! Live operational statistics of the broadcast: listener gauges and
//! byte counters.
//!
//! Byte counters saturate at the machine limit instead of wrapping, so
//! every update has an exact contract and `bytes_sent` is monotonic.

use vstd::prelude::*;

verus! {

/// Counters and gauges kept for the process lifetime.
#[derive(Debug)]
pub struct Statistics {
    /// Milliseconds of playback since the broadcast loop started.
    pub time_played: u64,
    /// Currently connected stream subscribers.
    pub listeners: usize,
    /// The highest value `listeners` has reached.
    pub max_listeners: usize,
    /// Bytes produced by re-encoding tracks.
    pub bytes_transcoded: usize,
    /// Bytes produced by bit-copying tracks.
    pub bytes_copied: usize,
    /// Bytes handed to subscribers: each produced chunk counts once per
    /// subscriber connected at publish time.
    pub bytes_sent: usize,
    /// Most recent one-second produced-bytes figure times the
    /// subscriber count.
    pub target_badwidth: usize,
}

/// `a + b` clamped to the machine word.
pub open spec fn sat_add(a: nat, b: nat) -> nat {
    if a + b > usize::MAX {
        usize::MAX as nat
    } else {
        a + b
    }
}

fn saturating_add_usize(a: usize, b: usize) -> (r: usize)
    ensures
        r == sat_add(a as nat, b as nat),
{
    a.saturating_add(b)
}

/// The exact effect of accounting one chunk of `n` bytes fanned out
/// to `subscribers` listeners.
pub open spec fn spec_record_chunk(s: Statistics, n: nat, subscribers: nat, copy: bool) -> Statistics {
    Statistics {
        bytes_copied: if copy {
            sat_add(s.bytes_copied as nat, n) as usize
        } else {
            s.bytes_copied
        },
        bytes_transcoded: if copy {
            s.bytes_transcoded
        } else {
            sat_add(s.bytes_transcoded as nat, n) as usize
        },
        bytes_sent: sat_add(
            s.bytes_sent as nat,
            if n * subscribers > usize::MAX {
                usize::MAX as nat
            } else {
                n * subscribers
            },
        ) as usize,
        ..s
    }
}

/// The statistics after accounting each chunk size in `sizes`, in
/// order, under a fixed subscriber count and codec decision.
pub open spec fn spec_apply_chunks(
    s: Statistics,
    sizes: Seq<usize>,
    subscribers: nat,
    copy: bool,
) -> Statistics
    decreases sizes.len(),
{
    if sizes.len() == 0 {
        s
    } else {
        spec_record_chunk(
            spec_apply_chunks(s, sizes.drop_last(), subscribers, copy),
            sizes.last() as nat,
            subscribers,
            copy,
        )
    }
}

/// Total of a sequence of chunk sizes.
pub open spec fn spec_total(sizes: Seq<usize>) -> int
    decreases sizes.len(),
{
    if sizes.len() == 0 {
        0
    } else {
        spec_total(sizes.drop_last()) + sizes.last()
    }
}

/// Byte accounting law: as long as no counter saturates, accounting a
/// run of chunks raises `bytes_copied + bytes_transcoded` by exactly
/// the bytes produced, and `bytes_sent` by exactly that total times
/// the subscriber count.
pub proof fn lemma_byte_accounting(s: Statistics, sizes: Seq<usize>, subscribers: nat, copy: bool)
    requires
        s.bytes_copied + s.bytes_transcoded + spec_total(sizes) <= usize::MAX,
        s.bytes_sent + spec_total(sizes) * subscribers <= usize::MAX,
    ensures
        spec_apply_chunks(s, sizes, subscribers, copy).bytes_copied + spec_apply_chunks(
            s,
            sizes,
            subscribers,
            copy,
        ).bytes_transcoded == s.bytes_copied + s.bytes_transcoded + spec_total(sizes),
        spec_apply_chunks(s, sizes, subscribers, copy).bytes_sent == s.bytes_sent + spec_total(
            sizes,
        ) * subscribers,
    decreases sizes.len(),
{
    if sizes.len() > 0 {
        let prefix = sizes.drop_last();
        let last = sizes.last();
        assert(spec_total(sizes) == spec_total(prefix) + last);
        assert(spec_total(prefix) >= 0) by {
            lemma_total_nonneg(prefix);
        }
        assert((spec_total(prefix) + last) * subscribers == spec_total(prefix) * subscribers
            + last * subscribers) by (nonlinear_arith);
        assert(spec_total(prefix) * subscribers >= 0) by (nonlinear_arith)
            requires
                spec_total(prefix) >= 0,
        ;
        assert(last * subscribers >= 0) by (nonlinear_arith);
        lemma_byte_accounting(s, prefix, subscribers, copy);
        let mid = spec_apply_chunks(s, prefix, subscribers, copy);
        assert(last * subscribers <= usize::MAX);
        assert((last as nat) * subscribers == last * subscribers) by (nonlinear_arith);
    }
}

/// A total of chunk sizes is never negative.
proof fn lemma_total_nonneg(sizes: Seq<usize>)
    ensures
        spec_total(sizes) >= 0,
    decreases sizes.len(),
{
    if sizes.len() > 0 {
        lemma_total_nonneg(sizes.drop_last());
    }
}


/// The exact effect of one listener connecting.
pub open spec fn spec_on_subscribe(s: Statistics) -> Statistics {
    Statistics {
        listeners: (s.listeners + 1) as usize,
        max_listeners: if s.listeners + 1 > s.max_listeners {
            (s.listeners + 1) as usize
        } else {
            s.max_listeners
        },
        ..s
    }
}

/// The exact effect of one listener disconnecting.
pub open spec fn spec_on_unsubscribe(s: Statistics) -> Statistics {
    Statistics { listeners: (s.listeners - 1) as usize, ..s }
}

/// The statistics after a run of listener events, oldest first:
/// `true` is a connection, `false` a disconnection.
pub open spec fn spec_apply_listener_events(s: Statistics, events: Seq<bool>) -> Statistics
    decreases events.len(),
{
    if events.len() == 0 {
        s
    } else {
        let t = spec_apply_listener_events(s, events.drop_last());
        if events.last() {
            spec_on_subscribe(t)
        } else {
            spec_on_unsubscribe(t)
        }
    }
}

/// A run of listener events is valid when no disconnection arrives
/// with nobody connected and the gauge never leaves the machine word.
pub open spec fn spec_listener_events_valid(s: Statistics, events: Seq<bool>) -> bool
    decreases events.len(),
{
    if events.len() == 0 {
        true
    } else {
        let t = spec_apply_listener_events(s, events.drop_last());
        spec_listener_events_valid(s, events.drop_last()) && if events.last() {
            t.listeners < usize::MAX
        } else {
            t.listeners > 0
        }
    }
}

/// The highest value the listener gauge takes over a run, the initial
/// state included.
pub open spec fn spec_peak_listeners(s: Statistics, events: Seq<bool>) -> int
    decreases events.len(),
{
    if events.len() == 0 {
        s.listeners as int
    } else {
        let earlier = spec_peak_listeners(s, events.drop_last());
        let now = spec_apply_listener_events(s, events).listeners as int;
        if now > earlier {
            now
        } else {
            earlier
        }
    }
}

/// How many events in the run are connections.
pub open spec fn spec_count_true(events: Seq<bool>) -> int
    decreases events.len(),
{
    if events.len() == 0 {
        0
    } else {
        spec_count_true(events.drop_last()) + if events.last() {
            1int
        } else {
            0int
        }
    }
}

/// Listener accounting law, over any run of connections and
/// disconnections: the gauge ends at its start plus connections minus
/// disconnections (each connection undone by exactly one
/// disconnection), and the peak gauge ends at the highest value the
/// gauge took, unless an earlier peak still stands.
pub proof fn lemma_listener_run(s: Statistics, events: Seq<bool>)
    requires
        s.wf(),
        spec_listener_events_valid(s, events),
    ensures
        spec_apply_listener_events(s, events).wf(),
        spec_apply_listener_events(s, events).listeners == s.listeners + spec_count_true(
            events,
        ) - (events.len() - spec_count_true(events)),
        spec_apply_listener_events(s, events).max_listeners == if spec_peak_listeners(
            s,
            events,
        ) > s.max_listeners {
            spec_peak_listeners(s, events)
        } else {
            s.max_listeners as int
        },
        spec_peak_listeners(s, events) >= spec_apply_listener_events(s, events).listeners,
    decreases events.len(),
{
    if events.len() > 0 {
        lemma_listener_run(s, events.drop_last());
    }
}

impl Statistics {
    /// The listener peak never undercuts the current listener count.
    pub open spec fn wf(&self) -> bool {
        self.listeners <= self.max_listeners
    }

    /// All counters and gauges at zero.
    pub open spec fn spec_zero() -> Statistics {
        Statistics {
            time_played: 0,
            listeners: 0,
            max_listeners: 0,
            bytes_transcoded: 0,
            bytes_copied: 0,
            bytes_sent: 0,
            target_badwidth: 0,
        }
    }

    pub fn new() -> (s: Statistics)
        ensures
            s.wf(),
            s == Statistics::spec_zero(),
    {
        Statistics {
            time_played: 0,
            listeners: 0,
            max_listeners: 0,
            bytes_transcoded: 0,
            bytes_copied: 0,
            bytes_sent: 0,
            target_badwidth: 0,
        }
    }

    /// Accounts one produced chunk of `n` bytes fanned out to
    /// `subscribers` listeners: the chunk lands on exactly one of the
    /// copied/transcoded counters, and `bytes_sent` grows by
    /// `n * subscribers`, saturating at the machine limit.
    pub fn record_chunk(&mut self, n: usize, subscribers: usize, copy_codec: bool)
        requires
            old(self).wf(),
        ensures
            final(self).wf(),
            *final(self) == spec_record_chunk(*old(self), n as nat, subscribers as nat, copy_codec),
            final(self).bytes_sent >= old(self).bytes_sent,
    {
        if copy_codec {
            self.bytes_copied = saturating_add_usize(self.bytes_copied, n);
        } else {
            self.bytes_transcoded = saturating_add_usize(self.bytes_transcoded, n);
        }
        let fanned: usize = match n.checked_mul(subscribers) {
            Some(x) => x,
            None => usize::MAX,
        };
        self.bytes_sent = saturating_add_usize(self.bytes_sent, fanned);
    }

    /// Sets the bandwidth gauge to the bytes accumulated over the last
    /// second times the current subscriber count.
    pub fn record_bandwidth(&mut self, accumulated: usize, subscribers: usize)
        requires
            old(self).wf(),
        ensures
            final(self).wf(),
            final(self).target_badwidth == if accumulated * subscribers > usize::MAX {
                usize::MAX as int
            } else {
                accumulated * subscribers
            },
            *final(self) == (Statistics { target_badwidth: final(self).target_badwidth, ..*old(self) }),
    {
        self.target_badwidth = match accumulated.checked_mul(subscribers) {
            Some(x) => x,
            None => usize::MAX,
        };
    }

    /// Sets the played-time gauge.
    pub fn set_time_played(&mut self, ms: u64)
        requires
            old(self).wf(),
        ensures
            final(self).wf(),
            *final(self) == (Statistics { time_played: ms, ..*old(self) }),
    {
        self.time_played = ms;
    }

    /// One subscriber connected: the gauge rises by one and the peak
    /// follows it upward when passed.
    pub fn on_subscribe(&mut self)
        requires
            old(self).wf(),
            old(self).listeners < usize::MAX,
        ensures
            final(self).wf(),
            final(self).listeners == old(self).listeners + 1,
            final(self).max_listeners == if old(self).listeners + 1 > old(self).max_listeners {
                old(self).listeners + 1
            } else {
                old(self).max_listeners as int
            },
            *final(self) == spec_on_subscribe(*old(self)),
    {
        self.listeners = self.listeners + 1;
        if self.listeners > self.max_listeners {
            self.max_listeners = self.listeners;
        }
    }

    /// One subscriber disconnected: the gauge falls by one; the peak
    /// stays.
    pub fn on_unsubscribe(&mut self)
        requires
            old(self).wf(),
            old(self).listeners > 0,
        ensures
            final(self).wf(),
            final(self).listeners == old(self).listeners - 1,
            *final(self) == spec_on_unsubscribe(*old(self)),
    {
        self.listeners = self.listeners - 1;
    }
}

} // verus!
