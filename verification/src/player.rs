//! The broadcast engine's state and its per-track decisions: the
//! playlist cursor, the metadata ring, the album-art slot, the fan-out
//! bus, the statistics, and the track-change notifier, advanced by the
//! steps of the broadcast loop.
//!
//! The asynchronous loop itself — probing, transcoding, awaiting reads
//! — runs outside the library and drives this state through the
//! methods here, each of which says exactly what it changes.

use vstd::prelude::*;

use crate::art::AlbumImage;
use crate::audio::Data;
use crate::bus::{spec_lag_after_publish, spec_queue_after_publish, Bus};
use crate::cmd::Mediainfo;
use crate::config::Config;
use crate::notify::{Notifier, NotifyHandle};
use crate::ring::{ring_push, FixedDeque};
use crate::stats::{spec_record_chunk, Statistics};
use crate::text::str_eq;

verus! {

/// Bound of each subscriber's queue on the fan-out bus, in messages.
pub const SUBSCRIBER_QUEUE_CAP: usize = 4;

/// Failures of engine construction.
#[derive(Debug)]
pub enum Error {
    /// The playlist scan found nothing to play.
    EmptyPlayilist,
}

/// Control messages of the broadcast loop's latest-value control
/// channel. Only `Play` is ever sent by the HTTP surface; `Pause` is
/// an internal hook kept so future controls stay straightforward.
#[derive(Clone, Copy, Debug, PartialEq, Eq, Structural)]
pub enum TaskControlMessage {
    Play,
    Pause,
}

/// What the broadcast loop's top level does next.
#[derive(Clone, Copy, Debug, PartialEq, Eq, Structural)]
pub enum LoopAction {
    /// Run one track to completion (or until the control changes).
    PlayTrack,
    /// Idle until the control changes.
    Idle,
}

/// The broadcast loop's control decision: under `Play` it runs
/// tracks, under `Pause` it idles, and nothing else depends on the
/// control state.
pub fn control_step(msg: &TaskControlMessage) -> (a: LoopAction)
    ensures
        a is PlayTrack <==> msg is Play,
        a is Idle <==> msg is Pause,
{
    match msg {
        TaskControlMessage::Play => LoopAction::PlayTrack,
        TaskControlMessage::Pause => LoopAction::Idle,
    }
}

/// The views of a list of owned strings.
pub open spec fn views_of_strings(v: Seq<String>) -> Seq<Seq<char>> {
    Seq::new(v.len(), |i: int| v[i]@)
}

/// The broadcast engine's state.
pub struct Player {
    playlist: Vec<String>,
    sweeper_list: Vec<String>,
    index: usize,
    config: Config,
    mediainfo: FixedDeque<Mediainfo>,
    album_art: AlbumImage,
    bus: Bus,
    notifier: Notifier,
    statistics: Statistics,
}

impl Player {
    /// The immutable playlist, as path strings.
    pub closed spec fn spec_playlist(&self) -> Seq<Seq<char>> {
        views_of_strings(self.playlist@)
    }

    /// The immutable sweeper list.
    pub closed spec fn spec_sweepers(&self) -> Seq<Seq<char>> {
        views_of_strings(self.sweeper_list@)
    }

    /// The cursor.
    pub closed spec fn spec_index(&self) -> int {
        self.index as int
    }

    pub closed spec fn spec_config(&self) -> Config {
        self.config
    }

    /// The metadata ring, newest first.
    pub closed spec fn spec_ring(&self) -> Seq<Mediainfo> {
        self.mediainfo@
    }

    pub closed spec fn spec_ring_capacity(&self) -> nat {
        self.mediainfo.spec_capacity()
    }

    /// The held album art; empty means none.
    pub closed spec fn spec_art(&self) -> Seq<u8> {
        self.album_art@
    }

    pub closed spec fn spec_stats(&self) -> Statistics {
        self.statistics
    }

    /// Count of track-change notifications fired so far.
    pub closed spec fn spec_epoch(&self) -> nat {
        self.notifier.spec_epoch()
    }

    pub closed spec fn spec_bus(&self) -> Bus {
        self.bus
    }

    /// Every chunk published so far, in order.
    pub open spec fn spec_history(&self) -> Seq<Seq<u8>> {
        self.spec_bus().spec_history()
    }

    pub open spec fn spec_num_subs(&self) -> nat {
        self.spec_bus().spec_num_subs()
    }

    pub open spec fn spec_has_sub(&self, id: u64) -> bool {
        self.spec_bus().spec_has(id)
    }

    pub open spec fn spec_sub_queue(&self, id: u64) -> Seq<Seq<u8>> {
        self.spec_bus().spec_queue(id)
    }

    pub open spec fn spec_sub_lagged(&self, id: u64) -> nat {
        self.spec_bus().spec_lagged(id)
    }

    pub open spec fn spec_can_subscribe(&self) -> bool {
        self.spec_bus().spec_can_subscribe()
    }

    /// Room is left in the notification epoch counter.
    pub open spec fn spec_can_notify(&self) -> bool {
        self.spec_epoch() < u64::MAX
    }

    pub closed spec fn wf(&self) -> bool {
        &&& self.playlist@.len() >= 1
        &&& (self.index as int) < self.playlist@.len()
        &&& self.config.wf()
        &&& self.mediainfo.wf()
        &&& self.mediainfo.spec_capacity() == self.config.mediainfo_history
        &&& self.bus.wf()
        &&& self.bus.spec_capacity() == SUBSCRIBER_QUEUE_CAP
        &&& self.statistics.wf()
        &&& self.statistics.listeners == self.bus.spec_num_subs()
        &&& (self.config.sweeper_chance_ppm > 0 ==> self.sweeper_list@.len() >= 1)
    }

    /// Listener accounting law: the listener gauge always equals the
    /// number of live subscriptions (each `subscribe` raises it by
    /// one, each `unsubscribe` lowers it by one), and the peak gauge
    /// never undercuts it.
    pub proof fn lemma_listener_accounting(&self)
        requires
            self.wf(),
        ensures
            self.spec_stats().listeners == self.spec_num_subs(),
            self.spec_stats().listeners <= self.spec_stats().max_listeners,
    {
    }

    /// Builds the engine. A non-empty playlist is the one hard
    /// requirement; under shuffle the cursor starts on some valid
    /// index, otherwise on the first track.
    pub fn new(playlist: Vec<String>, sweeper_list: Vec<String>, config: Config) -> (r: Result<
        Player,
        Error,
    >)
        requires
            config.wf(),
            config.sweeper_chance_ppm > 0 ==> sweeper_list@.len() >= 1,
        ensures
            match r {
                Err(e) => playlist@.len() == 0 && e is EmptyPlayilist,
                Ok(p) => {
                    &&& playlist@.len() > 0
                    &&& p.wf()
                    &&& p.spec_playlist() == views_of_strings(playlist@)
                    &&& p.spec_sweepers() == views_of_strings(sweeper_list@)
                    &&& p.spec_config() == config
                    &&& 0 <= p.spec_index() < playlist@.len()
                    &&& (!config.shuffle ==> p.spec_index() == 0)
                    &&& p.spec_ring() == Seq::<Mediainfo>::empty()
                    &&& p.spec_ring_capacity() == config.mediainfo_history
                    &&& p.spec_art() == Seq::<u8>::empty()
                    &&& p.spec_stats() == Statistics::spec_zero()
                    &&& p.spec_epoch() == 0
                    &&& p.spec_history() == Seq::<Seq<u8>>::empty()
                    &&& p.spec_num_subs() == 0
                    &&& p.spec_can_subscribe()
                },
            },
    {
        if playlist.len() == 0 {
            return Err(Error::EmptyPlayilist);
        }
        let index: usize = if config.shuffle {
            crate::random::random_below(playlist.len())
        } else {
            0
        };
        let p = Player {
            playlist,
            sweeper_list,
            index,
            mediainfo: FixedDeque::new(config.mediainfo_history),
            config,
            album_art: AlbumImage::new(),
            bus: Bus::new(SUBSCRIBER_QUEUE_CAP),
            notifier: Notifier::new(),
            statistics: Statistics::new(),
        };
        Ok(p)
    }

    /// Advances the cursor: sequentially to the next track modulo the
    /// playlist length, or under shuffle to a uniformly random other
    /// track (the same one only when the playlist has a single
    /// entry). Nothing else changes.
    pub fn next(&mut self)
        requires
            old(self).wf(),
        ensures
            final(self).wf(),
            0 <= final(self).spec_index() < old(self).spec_playlist().len(),
            !old(self).spec_config().shuffle ==> final(self).spec_index() == (old(self).spec_index() + 1) % (old(self).spec_playlist().len() as int),
            old(self).spec_config().shuffle && old(self).spec_playlist().len() > 1 ==> final(self).spec_index() != old(self).spec_index(),
            final(self).spec_playlist() == old(self).spec_playlist(),
            final(self).spec_sweepers() == old(self).spec_sweepers(),
            final(self).spec_config() == old(self).spec_config(),
            final(self).spec_ring() == old(self).spec_ring(),
            final(self).spec_ring_capacity() == old(self).spec_ring_capacity(),
            final(self).spec_art() == old(self).spec_art(),
            final(self).spec_stats() == old(self).spec_stats(),
            final(self).spec_epoch() == old(self).spec_epoch(),
            final(self).spec_bus() == old(self).spec_bus(),
    {
        let n = self.playlist.len();
        if self.config.shuffle {
            if n > 1 {
                let draw = crate::random::random_below(n - 1);
                self.index = if draw >= self.index {
                    draw + 1
                } else {
                    draw
                };
            } else {
                self.index = 0;
            }
        } else {
            self.index = (self.index + 1) % n;
        }
    }

    /// Moves the cursor to a chosen track.
    pub fn set_index(&mut self, index: usize)
        requires
            old(self).wf(),
            index < old(self).spec_playlist().len(),
        ensures
            final(self).wf(),
            final(self).spec_index() == index,
            final(self).spec_playlist() == old(self).spec_playlist(),
            final(self).spec_sweepers() == old(self).spec_sweepers(),
            final(self).spec_config() == old(self).spec_config(),
            final(self).spec_ring() == old(self).spec_ring(),
            final(self).spec_art() == old(self).spec_art(),
            final(self).spec_stats() == old(self).spec_stats(),
            final(self).spec_epoch() == old(self).spec_epoch(),
            final(self).spec_bus() == old(self).spec_bus(),
    {
        self.index = index;
    }

    /// The cursor.
    pub fn index(&self) -> (i: usize)
        ensures
            i == self.spec_index(),
    {
        self.index
    }

    /// The path under the cursor.
    pub fn current(&self) -> (p: &String)
        requires
            self.wf(),
        ensures
            p@ == self.spec_playlist()[self.spec_index()],
    {
        &self.playlist[self.index]
    }

    /// The whole playlist.
    pub fn files(&self) -> (f: &Vec<String>)
        ensures
            views_of_strings(f@) == self.spec_playlist(),
    {
        &self.playlist
    }

    pub fn config(&self) -> (c: &Config)
        ensures
            *c == self.spec_config(),
    {
        &self.config
    }

    pub fn statistics(&self) -> (s: &Statistics)
        ensures
            *s == self.spec_stats(),
    {
        &self.statistics
    }

    pub fn album_art(&self) -> (a: &AlbumImage)
        ensures
            a@ == self.spec_art(),
    {
        &self.album_art
    }

    /// The metadata ring's snapshot, newest first.
    pub fn read_mediainfo(&self) -> (m: &[Mediainfo])
        ensures
            m@ == self.spec_ring(),
    {
        self.mediainfo.as_slice()
    }

    /// A handle that observes every notification fired after this
    /// call.
    pub fn subscribe_next_song(&self) -> (h: NotifyHandle)
        ensures
            h.spec_seen() == self.spec_epoch(),
    {
        self.notifier.subscribe()
    }

    /// The notifier, for polling a handle against.
    pub fn notifier(&self) -> (n: &Notifier)
        ensures
            n.spec_epoch() == self.spec_epoch(),
    {
        &self.notifier
    }

    /// Whether the subscription id space still has room.
    pub fn can_subscribe_now(&self) -> (r: bool)
        ensures
            r == self.spec_can_subscribe(),
    {
        self.bus.can_subscribe_now()
    }

    /// Whether the notification epoch counter still has room.
    pub fn can_notify_now(&self) -> (r: bool)
        ensures
            r == self.spec_can_notify(),
    {
        self.notifier.has_room()
    }

    /// Whether subscriber `id` is still connected.
    pub fn has_subscriber(&self, id: u64) -> (r: bool)
        requires
            self.wf(),
        ensures
            r == self.spec_has_sub(id),
    {
        self.bus.has(id)
    }

    /// Connects one stream listener: a fresh subscription with an
    /// empty queue, the listener gauge one higher, the peak gauge
    /// following it.
    pub fn subscribe(&mut self) -> (id: u64)
        requires
            old(self).wf(),
            old(self).spec_can_subscribe(),
        ensures
            final(self).wf(),
            !old(self).spec_has_sub(id),
            final(self).spec_has_sub(id),
            final(self).spec_num_subs() == old(self).spec_num_subs() + 1,
            final(self).spec_sub_queue(id) == Seq::<Seq<u8>>::empty(),
            final(self).spec_sub_lagged(id) == 0,
            forall|other: u64|
                old(self).spec_has_sub(other) ==> #[trigger] final(self).spec_has_sub(other)
                    && final(self).spec_sub_queue(other) == old(self).spec_sub_queue(other),
            final(self).spec_stats().listeners == old(self).spec_stats().listeners + 1,
            final(self).spec_stats().max_listeners == if old(self).spec_stats().listeners + 1
                > old(self).spec_stats().max_listeners {
                old(self).spec_stats().listeners + 1
            } else {
                old(self).spec_stats().max_listeners as int
            },
            final(self).spec_stats() == (Statistics {
                listeners: final(self).spec_stats().listeners,
                max_listeners: final(self).spec_stats().max_listeners,
                ..old(self).spec_stats()
            }),
            final(self).spec_history() == old(self).spec_history(),
            final(self).spec_ring() == old(self).spec_ring(),
            final(self).spec_art() == old(self).spec_art(),
            final(self).spec_epoch() == old(self).spec_epoch(),
            final(self).spec_index() == old(self).spec_index(),
            final(self).spec_playlist() == old(self).spec_playlist(),
            final(self).spec_config() == old(self).spec_config(),
    {
        let id = self.bus.subscribe();
        let count = self.bus.subscriber_count();
        assert(self.statistics.listeners < count);
        self.statistics.on_subscribe();
        id
    }

    /// Disconnects one stream listener: its subscription and queue are
    /// gone and the listener gauge is one lower; the peak gauge stays.
    pub fn unsubscribe(&mut self, id: u64)
        requires
            old(self).wf(),
            old(self).spec_has_sub(id),
        ensures
            final(self).wf(),
            !final(self).spec_has_sub(id),
            final(self).spec_num_subs() == old(self).spec_num_subs() - 1,
            forall|other: u64|
                other != id && old(self).spec_has_sub(other) ==> #[trigger] final(self).spec_has_sub(other) && final(self).spec_sub_queue(other) == old(self).spec_sub_queue(other),
            final(self).spec_stats().listeners == old(self).spec_stats().listeners - 1,
            final(self).spec_stats() == (Statistics {
                listeners: final(self).spec_stats().listeners,
                ..old(self).spec_stats()
            }),
            final(self).spec_history() == old(self).spec_history(),
            final(self).spec_ring() == old(self).spec_ring(),
            final(self).spec_art() == old(self).spec_art(),
            final(self).spec_epoch() == old(self).spec_epoch(),
            final(self).spec_index() == old(self).spec_index(),
            final(self).spec_playlist() == old(self).spec_playlist(),
            final(self).spec_config() == old(self).spec_config(),
    {
        self.bus.unsubscribe(id);
        self.statistics.on_unsubscribe();
    }

    /// Hands subscriber `id` its next buffered chunk, if one waits.
    pub fn recv_chunk(&mut self, id: u64) -> (r: Option<Vec<u8>>)
        requires
            old(self).wf(),
            old(self).spec_has_sub(id),
        ensures
            final(self).wf(),
            match r {
                None => old(self).spec_sub_queue(id).len() == 0 && final(self).spec_sub_queue(
                    id,
                ) == old(self).spec_sub_queue(id),
                Some(m) => old(self).spec_sub_queue(id).len() > 0 && m@ == old(self).spec_sub_queue(id)[0] && final(self).spec_sub_queue(id) == old(self).spec_sub_queue(id).drop_first(),
            },
            forall|other: u64|
                other != id && old(self).spec_has_sub(other) ==> #[trigger] final(self).spec_sub_queue(other) == old(self).spec_sub_queue(other) && final(self).spec_sub_lagged(other) == old(self).spec_sub_lagged(other),
            final(self).spec_num_subs() == old(self).spec_num_subs(),
            final(self).spec_has_sub(id),
            forall|other: u64|
                #[trigger] final(self).spec_has_sub(other) == old(self).spec_has_sub(other),
            final(self).spec_history() == old(self).spec_history(),
            final(self).spec_stats() == old(self).spec_stats(),
            final(self).spec_ring() == old(self).spec_ring(),
            final(self).spec_ring_capacity() == old(self).spec_ring_capacity(),
            final(self).spec_art() == old(self).spec_art(),
            final(self).spec_epoch() == old(self).spec_epoch(),
            final(self).spec_index() == old(self).spec_index(),
            final(self).spec_playlist() == old(self).spec_playlist(),
            final(self).spec_sweepers() == old(self).spec_sweepers(),
            final(self).spec_config() == old(self).spec_config(),
    {
        self.bus.recv(id)
    }

    /// How many chunks subscriber `id` has lost to lag.
    pub fn lag_count(&self, id: u64) -> (r: u64)
        requires
            self.wf(),
            self.spec_has_sub(id),
        ensures
            r as nat == self.spec_sub_lagged(id),
    {
        self.bus.lag_count(id)
    }

    /// The sweeper decision for given draws: a sweeper plays exactly
    /// when the chance draw falls below the configured chance and the
    /// sweeper list has entries, and then it is the entry the pick
    /// draw points at.
    pub fn sweeper_choice(&self, chance_draw: usize, pick: usize) -> (r: Option<String>)
        requires
            self.wf(),
            self.spec_sweepers().len() > 0 ==> pick < self.spec_sweepers().len(),
        ensures
            r is Some <==> chance_draw < self.spec_config().sweeper_chance_ppm
                && self.spec_sweepers().len() > 0,
            r matches Some(s) ==> s@ == self.spec_sweepers()[pick as int],
    {
        if (chance_draw as u64) < self.config.sweeper_chance_ppm as u64
            && self.sweeper_list.len() > 0 {
            let s = self.sweeper_list[pick].clone();
            assert(s@ == self.spec_sweepers()[pick as int]);
            Some(s)
        } else {
            None
        }
    }

    /// Draws whether a sweeper plays over the coming track, and which.
    /// With a zero chance there is never one; at certainty there
    /// always is one; any sweeper returned is an entry of the sweeper
    /// list.
    pub fn pick_sweeper(&self) -> (r: Option<String>)
        requires
            self.wf(),
        ensures
            match r {
                Some(s) => self.spec_config().sweeper_chance_ppm > 0 && exists|i: int|
                    0 <= i < self.spec_sweepers().len() && s@ == self.spec_sweepers()[i],
                None => true,
            },
            self.spec_config().sweeper_chance_ppm == 0 ==> r is None,
            self.spec_config().sweeper_chance_ppm == 1000000 ==> r is Some,
    {
        let chance_draw = crate::random::random_below(1000000);
        let pick: usize = if self.sweeper_list.len() > 0 {
            crate::random::random_below(self.sweeper_list.len())
        } else {
            0
        };
        let r = self.sweeper_choice(chance_draw, pick);
        proof {
            if r is Some {
                // the picked index witnesses the existential
                assert(r matches Some(s) && s@ == self.spec_sweepers()[pick as int]);
            }
        }
        r
    }

    /// Whether the coming track's bytes are bit-copied rather than
    /// re-encoded: only when re-encoding is not forced, the source
    /// codec is already `mp3`, and no sweeper is mixed in.
    pub fn decide_copy_codec(config: &Config, codec: &str, sweeper_present: bool) -> (r: bool)
        ensures
            r == (!config.transcode_all && codec@ == "mp3"@ && !sweeper_present),
    {
        !config.transcode_all && str_eq(codec, "mp3") && !sweeper_present
    }

    /// Starts a track: the metadata goes onto the front of the ring,
    /// the album art is replaced or cleared, and only then fires the
    /// track-change notification — before any of the track's bytes
    /// reach the bus, whose history is untouched. A subscriber woken
    /// by the notification therefore reads the new track's metadata
    /// and art, and has missed none of its audio.
    pub fn begin_track(&mut self, meta: Mediainfo, art: Option<Vec<u8>>)
        requires
            old(self).wf(),
            old(self).spec_can_notify(),
        ensures
            final(self).wf(),
            final(self).spec_ring() == ring_push(
                old(self).spec_ring(),
                meta,
                old(self).spec_ring_capacity(),
            ),
            final(self).spec_ring().len() > 0,
            final(self).spec_ring()[0] == meta,
            final(self).spec_art() == match art {
                Some(b) => b@,
                None => Seq::<u8>::empty(),
            },
            final(self).spec_epoch() == old(self).spec_epoch() + 1,
            final(self).spec_history() == old(self).spec_history(),
            final(self).spec_bus() == old(self).spec_bus(),
            final(self).spec_stats() == old(self).spec_stats(),
            final(self).spec_index() == old(self).spec_index(),
            final(self).spec_playlist() == old(self).spec_playlist(),
            final(self).spec_sweepers() == old(self).spec_sweepers(),
            final(self).spec_config() == old(self).spec_config(),
            final(self).spec_ring_capacity() == old(self).spec_ring_capacity(),
    {
        match art {
            Some(b) => self.album_art.set(b),
            None => self.album_art.clear(),
        }
        self.mediainfo.push(meta);
        self.notifier.notify();
    }

    /// Accounts and fans out one chunk of the playing track: the bus
    /// history grows by the chunk, every subscriber's queue takes it
    /// (dropping its oldest when full), and the statistics record the
    /// produced bytes and the fan-out.
    pub fn handle_chunk(&mut self, chunk: &[u8], copy_codec: bool)
        requires
            old(self).wf(),
        ensures
            final(self).wf(),
            final(self).spec_history() == old(self).spec_history().push(chunk@),
            forall|id: u64|
                old(self).spec_has_sub(id) ==> #[trigger] final(self).spec_sub_queue(id)
                    == spec_queue_after_publish(
                    old(self).spec_sub_queue(id),
                    chunk@,
                    SUBSCRIBER_QUEUE_CAP as nat,
                ) && final(self).spec_sub_lagged(id) == spec_lag_after_publish(
                    old(self).spec_sub_lagged(id),
                    old(self).spec_sub_queue(id).len(),
                    SUBSCRIBER_QUEUE_CAP as nat,
                ),
            final(self).spec_num_subs() == old(self).spec_num_subs(),
            forall|id: u64|
                #[trigger] final(self).spec_has_sub(id) == old(self).spec_has_sub(id),
            final(self).spec_stats() == spec_record_chunk(
                old(self).spec_stats(),
                chunk@.len(),
                old(self).spec_num_subs(),
                copy_codec,
            ),
            final(self).spec_ring() == old(self).spec_ring(),
            final(self).spec_ring_capacity() == old(self).spec_ring_capacity(),
            final(self).spec_art() == old(self).spec_art(),
            final(self).spec_epoch() == old(self).spec_epoch(),
            final(self).spec_index() == old(self).spec_index(),
            final(self).spec_playlist() == old(self).spec_playlist(),
            final(self).spec_sweepers() == old(self).spec_sweepers(),
            final(self).spec_config() == old(self).spec_config(),
    {
        let subscribers = self.bus.subscriber_count();
        self.bus.publish(chunk);
        self.statistics.record_chunk(chunk.len(), subscribers, copy_codec);
    }

    /// One step of the pump: audio bytes are fanned out and accounted
    /// and the pump goes on; an empty read (end of stream) or an error
    /// ends it with everything else unchanged.
    pub fn pump_step(&mut self, data: Data, copy_codec: bool) -> (cont: bool)
        requires
            old(self).wf(),
        ensures
            final(self).wf(),
            match data {
                Data::Audio(chunk) => if chunk@.len() > 0 {
                    cont && final(self).spec_history() == old(self).spec_history().push(chunk@)
                        && final(self).spec_stats() == spec_record_chunk(
                        old(self).spec_stats(),
                        chunk@.len(),
                        old(self).spec_num_subs(),
                        copy_codec,
                    ) && (forall|id: u64|
                        old(self).spec_has_sub(id) ==> #[trigger] final(self).spec_sub_queue(id)
                            == spec_queue_after_publish(
                            old(self).spec_sub_queue(id),
                            chunk@,
                            SUBSCRIBER_QUEUE_CAP as nat,
                        ) && final(self).spec_sub_lagged(id) == spec_lag_after_publish(
                            old(self).spec_sub_lagged(id),
                            old(self).spec_sub_queue(id).len(),
                            SUBSCRIBER_QUEUE_CAP as nat,
                        ))
                } else {
                    !cont && *final(self) == *old(self)
                },
                Data::Error(_) => !cont && *final(self) == *old(self),
            },
            final(self).spec_ring() == old(self).spec_ring(),
            final(self).spec_ring_capacity() == old(self).spec_ring_capacity(),
            final(self).spec_art() == old(self).spec_art(),
            final(self).spec_epoch() == old(self).spec_epoch(),
            final(self).spec_index() == old(self).spec_index(),
            final(self).spec_num_subs() == old(self).spec_num_subs(),
            forall|id: u64|
                #[trigger] final(self).spec_has_sub(id) == old(self).spec_has_sub(id),
            final(self).spec_playlist() == old(self).spec_playlist(),
            final(self).spec_sweepers() == old(self).spec_sweepers(),
            final(self).spec_config() == old(self).spec_config(),
    {
        match data {
            Data::Audio(chunk) => {
                if chunk.len() > 0 {
                    self.handle_chunk(chunk.as_slice(), copy_codec);
                    true
                } else {
                    false
                }
            },
            Data::Error(_) => false,
        }
    }

    /// Sets the one-second bandwidth gauge from the bytes accumulated
    /// over the last second and the current subscriber count.
    pub fn record_bandwidth(&mut self, accumulated: usize)
        requires
            old(self).wf(),
        ensures
            final(self).wf(),
            final(self).spec_stats().target_badwidth == if accumulated * old(self).spec_num_subs() > usize::MAX {
                usize::MAX as int
            } else {
                accumulated * old(self).spec_num_subs()
            },
            final(self).spec_stats() == (Statistics {
                target_badwidth: final(self).spec_stats().target_badwidth,
                ..old(self).spec_stats()
            }),
            final(self).spec_history() == old(self).spec_history(),
            final(self).spec_ring() == old(self).spec_ring(),
            final(self).spec_art() == old(self).spec_art(),
            final(self).spec_epoch() == old(self).spec_epoch(),
            final(self).spec_index() == old(self).spec_index(),
            final(self).spec_bus() == old(self).spec_bus(),
    {
        let subscribers = self.bus.subscriber_count();
        self.statistics.record_bandwidth(accumulated, subscribers);
    }

    /// Sets the played-time gauge, in milliseconds since the loop
    /// started.
    pub fn set_time_played(&mut self, ms: u64)
        requires
            old(self).wf(),
        ensures
            final(self).wf(),
            final(self).spec_stats() == (Statistics {
                time_played: ms,
                ..old(self).spec_stats()
            }),
            final(self).spec_history() == old(self).spec_history(),
            final(self).spec_ring() == old(self).spec_ring(),
            final(self).spec_art() == old(self).spec_art(),
            final(self).spec_epoch() == old(self).spec_epoch(),
            final(self).spec_index() == old(self).spec_index(),
            final(self).spec_bus() == old(self).spec_bus(),
    {
        self.statistics.set_time_played(ms);
    }
}

} // verus!
