//! Single-slot album-art holder: the current cover image and its weak
//! checksum, plus the cache-validation decision the art endpoint makes.
//!
//! The checksum is a wrapping byte-sum. It is deliberately weak and
//! cheap; it only feeds `ETag`/`If-None-Match` cache validation and is
//! never security-relevant.

use vstd::prelude::*;

use crate::text::{dec_digits_signed, i64_to_string};

verus! {

/// Wrapping byte-sum of `s`: each byte added into an `i64` that wraps
/// on overflow.
pub open spec fn spec_byte_sum(s: Seq<u8>) -> i64
    decreases s.len(),
{
    if s.len() == 0 {
        0
    } else {
        vstd::wrapping::i64_specs::wrapping_add(spec_byte_sum(s.drop_last()), s.last() as i64)
    }
}

/// The checksum of held art: defined exactly when the buffer is
/// non-empty.
pub open spec fn spec_checksum(s: Seq<u8>) -> Option<i64> {
    if s.len() == 0 {
        None
    } else {
        Some(spec_byte_sum(s))
    }
}

/// The current cover image; empty means "no art".
pub struct AlbumImage {
    bytes: Vec<u8>,
}

impl View for AlbumImage {
    type V = Seq<u8>;

    closed spec fn view(&self) -> Seq<u8> {
        self.bytes@
    }
}

impl AlbumImage {
    pub fn new() -> (a: AlbumImage)
        ensures
            a@ == Seq::<u8>::empty(),
    {
        AlbumImage { bytes: Vec::new() }
    }

    /// The held image, if any.
    pub fn get(&self) -> (r: Option<&[u8]>)
        ensures
            match r {
                Some(s) => self@.len() > 0 && s@ == self@,
                None => self@.len() == 0,
            },
    {
        if self.bytes.len() == 0 {
            None
        } else {
            Some(self.bytes.as_slice())
        }
    }

    /// The wrapping byte-sum of the held image; `None` when no art is
    /// held.
    pub fn checksum(&self) -> (r: Option<i64>)
        ensures
            r == spec_checksum(self@),
    {
        let n = self.bytes.len();
        if n == 0 {
            return None;
        }
        let mut acc: i64 = 0;
        let mut i: usize = 0;
        while i < n
            invariant
                0 <= i <= n,
                n == self@.len(),
                acc == spec_byte_sum(self@.take(i as int)),
            decreases n - i,
        {
            let b = self.bytes[i];
            acc = acc.wrapping_add(b as i64);
            assert(self@.take(i + 1 as int).drop_last() =~= self@.take(i as int));
            i = i + 1;
        }
        assert(self@.take(n as int) =~= self@);
        Some(acc)
    }

    /// Replaces the held image.
    pub fn set(&mut self, new: Vec<u8>)
        ensures
            final(self)@ == new@,
    {
        self.bytes = new;
    }

    /// Empties the slot.
    pub fn clear(&mut self)
        ensures
            final(self)@ == Seq::<u8>::empty(),
    {
        self.bytes.clear();
    }
}

/// The `ETag` the art endpoint serves: the checksum in decimal, or the
/// fixed marker when no art is held.
pub open spec fn spec_etag(art: Seq<u8>) -> Seq<char> {
    match spec_checksum(art) {
        Some(c) => dec_digits_signed(c as int),
        None => "no-image"@,
    }
}

/// Renders the `ETag` value for the held art.
pub fn etag_value(art: &AlbumImage) -> (s: String)
    ensures
        s@ == spec_etag(art@),
{
    match art.checksum() {
        Some(c) => i64_to_string(c),
        None => String::from_str("no-image"),
    }
}

/// How the art endpoint answers, short of HTTP plumbing.
pub enum ArtResponse {
    /// The client's cached copy is current.
    NotModified,
    /// No art is held.
    NoContent,
    /// The held image and the `ETag` to serve with it.
    Png(Vec<u8>, String),
}

/// The request carries an `If-None-Match` that equals the current
/// `ETag`.
pub open spec fn spec_cache_hit(art: Seq<u8>, if_none_match: Option<Seq<char>>) -> bool {
    if_none_match == Some(spec_etag(art))
}

/// Decides the art endpoint's answer: a matching `If-None-Match` is
/// answered "not modified"; otherwise an empty slot yields "no
/// content" and held art is served with its `ETag`.
pub fn album_art_response(art: &AlbumImage, if_none_match: Option<&str>) -> (r: ArtResponse)
    ensures
        r is NotModified <==> spec_cache_hit(
            art@,
            match if_none_match {
                Some(h) => Some(h@),
                None => None,
            },
        ),
        !(r is NotModified) ==> match r {
            ArtResponse::NoContent => art@.len() == 0,
            ArtResponse::Png(bytes, etag) => art@.len() > 0 && bytes@ == art@ && etag@
                == spec_etag(art@),
            ArtResponse::NotModified => false,
        },
{
    let etag = etag_value(art);
    if let Some(h) = if_none_match {
        if crate::text::str_eq(h, etag.as_str()) {
            return ArtResponse::NotModified;
        }
    }
    match art.get() {
        None => ArtResponse::NoContent,
        Some(bytes) => {
            let mut copy: Vec<u8> = Vec::new();
            let n = bytes.len();
            let mut i: usize = 0;
            while i < n
                invariant
                    0 <= i <= n,
                    n == bytes@.len(),
                    copy@ == bytes@.take(i as int),
                decreases n - i,
            {
                copy.push(bytes[i]);
                assert(copy@ =~= bytes@.take(i + 1 as int));
                i = i + 1;
            }
            assert(copy@ =~= bytes@.take(n as int));
            assert(copy@ =~= bytes@);
            ArtResponse::Png(copy, etag)
        },
    }
}

/// ETag round-trip law: a request that presents the `ETag` computed
/// from the currently held bytes is always answered "not modified".
pub proof fn lemma_etag_round_trip(art: Seq<u8>)
    ensures
        spec_cache_hit(art, Some(spec_etag(art))),
{
}

} // verus!
