//! File-name and path rules of the playlist scan: which names count
//! as audio, which as images, which image is the preferred cover, and
//! which walked paths a directory's keep/drop rule selects.
//!
//! Walking the file system happens outside the library; these
//! functions decide over the names and paths handed in.

use vstd::prelude::*;

use crate::config::DirectoryConfigMode;
use crate::text::{is_prefix, lower_seq, str_eq, str_eq_ignore_ascii_case, str_starts_with};

verus! {

/// Index of the last `.` in `s`, or `-1` when there is none.
pub open spec fn last_dot(s: Seq<char>) -> int
    decreases s.len(),
{
    if s.len() == 0 {
        -1
    } else if s.last() == '.' {
        s.len() - 1
    } else {
        last_dot(s.drop_last())
    }
}

proof fn lemma_last_dot_range(s: Seq<char>)
    ensures
        -1 <= last_dot(s) < s.len(),
        last_dot(s) >= 0 ==> s[last_dot(s)] == '.',
        forall|j: int| last_dot(s) < j < s.len() ==> s[j] != '.',
    decreases s.len(),
{
    if s.len() > 0 && s.last() != '.' {
        lemma_last_dot_range(s.drop_last());
        assert forall|j: int| last_dot(s) < j < s.len() implies s[j] != '.' by {
            if j < s.len() - 1 {
                assert(s.drop_last()[j] == s[j]);
            }
        }
    }
}

/// The extension of a file name: what follows the last `.`, provided
/// something precedes that dot (a name that starts with its only dot
/// has no extension).
pub open spec fn spec_extension(s: Seq<char>) -> Option<Seq<char>> {
    if last_dot(s) > 0 {
        Some(s.subrange(last_dot(s) + 1, s.len() as int))
    } else {
        None
    }
}

/// The stem of a file name: what precedes the last `.`, or the whole
/// name when it has no extension.
pub open spec fn spec_stem(s: Seq<char>) -> Seq<char> {
    if last_dot(s) > 0 {
        s.subrange(0, last_dot(s))
    } else {
        s
    }
}

/// Extracts the extension, if the name has one.
pub fn extension_of(name: &str) -> (r: Option<&str>)
    ensures
        match r {
            Some(e) => spec_extension(name@) == Some(e@),
            None => spec_extension(name@) is None,
        },
{
    let n = name.unicode_len();
    let mut i: usize = n;
    proof {
        lemma_last_dot_range(name@);
        assert(name@.take(n as int) =~= name@);
    }
    while i > 0
        invariant
            0 <= i <= n,
            n == name@.len(),
            last_dot(name@) == last_dot(name@.take(i as int)),
        decreases i,
    {
        let c = name.get_char(i - 1);
        proof {
            assert(name@.take(i as int).last() == name@[i - 1]);
            assert(name@.take(i as int).drop_last() =~= name@.take(i - 1 as int));
        }
        if c == '.' {
            proof {
                assert(last_dot(name@.take(i as int)) == i - 1);
            }
            if i - 1 > 0 {
                let e = name.substring_char(i, n);
                proof {
                    assert(e@ =~= name@.subrange(last_dot(name@) + 1, name@.len() as int));
                }
                return Some(e);
            }
            return None;
        }
        i = i - 1;
    }
    proof {
        assert(name@.take(0) =~= Seq::<char>::empty());
        assert(last_dot(name@) == -1);
    }
    None
}

/// Extracts the stem: the name up to its last dot, or all of it.
pub fn stem_of(name: &str) -> (r: &str)
    ensures
        r@ == spec_stem(name@),
{
    let n = name.unicode_len();
    let mut i: usize = n;
    proof {
        lemma_last_dot_range(name@);
        assert(name@.take(n as int) =~= name@);
    }
    while i > 0
        invariant
            0 <= i <= n,
            n == name@.len(),
            last_dot(name@) == last_dot(name@.take(i as int)),
        decreases i,
    {
        let c = name.get_char(i - 1);
        proof {
            assert(name@.take(i as int).last() == name@[i - 1]);
            assert(name@.take(i as int).drop_last() =~= name@.take(i - 1 as int));
        }
        if c == '.' {
            proof {
                assert(last_dot(name@.take(i as int)) == i - 1);
            }
            if i - 1 > 0 {
                let st = name.substring_char(0, i - 1);
                proof {
                    assert(st@ =~= name@.subrange(0, last_dot(name@)));
                }
                return st;
            }
            proof {
                assert(spec_stem(name@) =~= name@);
            }
            return name;
        }
        i = i - 1;
    }
    proof {
        assert(name@.take(0) =~= Seq::<char>::empty());
        assert(last_dot(name@) == -1);
    }
    name
}

/// A name's extension equals `ext` up to ASCII case.
pub open spec fn spec_has_ext(name: Seq<char>, ext: Seq<char>) -> bool {
    match spec_extension(name) {
        Some(e) => lower_seq(e) == lower_seq(ext),
        None => false,
    }
}

fn has_ext(name: &str, ext: &str) -> (r: bool)
    ensures
        r == spec_has_ext(name@, ext@),
{
    match extension_of(name) {
        Some(e) => str_eq_ignore_ascii_case(e, ext),
        None => false,
    }
}

/// The name carries one of the supported audio extensions, compared
/// without regard to ASCII case.
pub open spec fn spec_is_supported_audio(name: Seq<char>) -> bool {
    ||| spec_has_ext(name, "mp3"@)
    ||| spec_has_ext(name, "flac"@)
    ||| spec_has_ext(name, "opus"@)
    ||| spec_has_ext(name, "wav"@)
}

/// Whether a file name belongs on the playlist.
pub fn is_supported_audio_name(name: &str) -> (r: bool)
    ensures
        r == spec_is_supported_audio(name@),
{
    has_ext(name, "mp3") || has_ext(name, "flac") || has_ext(name, "opus") || has_ext(
        name,
        "wav",
    )
}

/// The name carries an image extension usable as album art.
pub open spec fn spec_is_image(name: Seq<char>) -> bool {
    ||| spec_has_ext(name, "png"@)
    ||| spec_has_ext(name, "jpg"@)
    ||| spec_has_ext(name, "jpeg"@)
}

/// Whether a file name is an album-art candidate by extension.
pub fn is_image_name(name: &str) -> (r: bool)
    ensures
        r == spec_is_image(name@),
{
    has_ext(name, "png") || has_ext(name, "jpg") || has_ext(name, "jpeg")
}

/// An image whose stem is exactly `cover`.
pub open spec fn spec_is_cover_image(name: Seq<char>) -> bool {
    spec_is_image(name) && spec_stem(name) == "cover"@
}

/// The image names among `names`, in order.
pub open spec fn spec_image_list(names: Seq<Seq<char>>) -> Seq<Seq<char>>
    decreases names.len(),
{
    if names.len() == 0 {
        Seq::empty()
    } else if spec_is_image(names.last()) {
        spec_image_list(names.drop_last()).push(names.last())
    } else {
        spec_image_list(names.drop_last())
    }
}

/// The first name in `names` whose stem is `cover`, among images.
pub open spec fn spec_first_cover(names: Seq<Seq<char>>) -> Option<Seq<char>>
    decreases names.len(),
{
    if names.len() == 0 {
        None
    } else {
        match spec_first_cover(names.drop_last()) {
            Some(c) => Some(c),
            None => if spec_is_cover_image(names.last()) {
                Some(names.last())
            } else {
                None
            },
        }
    }
}

/// The album-art candidates drawn from a directory listing: a file
/// named `cover` with an image extension wins alone; otherwise every
/// image in the listing is a candidate, in listing order.
pub fn select_art_candidates(names: &Vec<String>) -> (r: Vec<String>)
    ensures
        match spec_first_cover(names.deep_view()) {
            Some(c) => r.deep_view() == seq![c],
            None => r.deep_view() == spec_image_list(names.deep_view()),
        },
{
    let ghost all = names.deep_view();
    let mut images: Vec<String> = Vec::new();
    let mut cover: Option<String> = None;
    let n = names.len();
    let mut i: usize = 0;
    proof {
        assert(all.take(0) =~= Seq::<Seq<char>>::empty());
    }
    while i < n
        invariant
            0 <= i <= n,
            n == names@.len(),
            all == names.deep_view(),
            all.len() == n,
            forall|k: int| 0 <= k < n ==> all[k] == #[trigger] names@[k]@,
            images.deep_view() == spec_image_list(all.take(i as int)),
            match cover {
                Some(c) => spec_first_cover(all.take(i as int)) == Some(c@),
                None => spec_first_cover(all.take(i as int)) is None,
            },
        decreases n - i,
    {
        let name = &names[i];
        proof {
            assert(all.take(i + 1 as int).drop_last() =~= all.take(i as int));
            assert(all.take(i + 1 as int).last() == all[i as int]);
        }
        if is_image_name(name.as_str()) {
            images.push(name.clone());
            proof {
                assert(images.deep_view() =~= spec_image_list(all.take(i + 1 as int)));
            }
            if cover.is_none() {
                if str_eq(stem_of(name.as_str()), "cover") {
                    proof {
                        reveal_strlit("cover");
                    }
                    cover = Some(name.clone());
                }
            }
        } else {
            proof {
                assert(images.deep_view() =~= spec_image_list(all.take(i + 1 as int)));
            }
        }
        i = i + 1;
    }
    proof {
        assert(all.take(n as int) =~= all);
    }
    match cover {
        Some(c) => {
            let mut only: Vec<String> = Vec::new();
            only.push(c);
            proof {
                assert(only.deep_view() =~= seq![spec_first_cover(all).unwrap()]);
            }
            only
        },
        None => images,
    }
}


/// Index of the last path separator in `s`, or `-1` when there is
/// none.
pub open spec fn last_separator(s: Seq<char>) -> int
    decreases s.len(),
{
    if s.len() == 0 {
        -1
    } else if s.last() == '/' {
        s.len() - 1
    } else {
        last_separator(s.drop_last())
    }
}

/// The file-name component of a path: what follows the last `/`, or
/// the whole string when it has none.
pub open spec fn spec_basename(s: Seq<char>) -> Seq<char> {
    s.subrange(last_separator(s) + 1, s.len() as int)
}

proof fn lemma_last_separator_range(s: Seq<char>)
    ensures
        -1 <= last_separator(s) < s.len(),
    decreases s.len(),
{
    if s.len() > 0 && s.last() != '/' {
        lemma_last_separator_range(s.drop_last());
    }
}

/// Extracts the file-name component of a path.
pub fn basename(path: &str) -> (r: &str)
    ensures
        r@ == spec_basename(path@),
{
    let n = path.unicode_len();
    let mut i: usize = n;
    proof {
        lemma_last_separator_range(path@);
        assert(path@.take(n as int) =~= path@);
    }
    while i > 0
        invariant
            0 <= i <= n,
            n == path@.len(),
            last_separator(path@) == last_separator(path@.take(i as int)),
        decreases i,
    {
        let c = path.get_char(i - 1);
        proof {
            assert(path@.take(i as int).last() == path@[i - 1]);
            assert(path@.take(i as int).drop_last() =~= path@.take(i - 1 as int));
        }
        if c == '/' {
            proof {
                assert(last_separator(path@.take(i as int)) == i - 1);
            }
            let b = path.substring_char(i, n);
            proof {
                assert(b@ =~= spec_basename(path@));
            }
            return b;
        }
        i = i - 1;
    }
    proof {
        assert(path@.take(0) =~= Seq::<char>::empty());
        assert(last_separator(path@) == -1);
        assert(spec_basename(path@) =~= path@);
    }
    path
}

/// Whether a walked path is kept under a directory's rule: a keep
/// rule selects paths starting with one of its prefixes, a drop rule
/// selects paths starting with none of its prefixes.
pub open spec fn spec_entry_selected(path: Seq<char>, mode: DirectoryConfigMode) -> bool {
    match mode {
        DirectoryConfigMode::Include(dirs) => exists|i: int|
            0 <= i < dirs@.len() && is_prefix(path, #[trigger] dirs@[i]@),
        DirectoryConfigMode::Exclude(dirs) => forall|i: int|
            0 <= i < dirs@.len() ==> !is_prefix(path, #[trigger] dirs@[i]@),
    }
}

fn any_prefix(path: &str, dirs: &Vec<String>) -> (r: bool)
    ensures
        r == exists|i: int| 0 <= i < dirs@.len() && is_prefix(path@, #[trigger] dirs@[i]@),
{
    let n = dirs.len();
    let mut i: usize = 0;
    while i < n
        invariant
            0 <= i <= n,
            n == dirs@.len(),
            forall|k: int| 0 <= k < i ==> !is_prefix(path@, #[trigger] dirs@[k]@),
        decreases n - i,
    {
        if str_starts_with(path, dirs[i].as_str()) {
            return true;
        }
        i = i + 1;
    }
    false
}

/// Decides whether the scan keeps a walked path.
pub fn entry_selected(path: &str, mode: &DirectoryConfigMode) -> (r: bool)
    ensures
        r == spec_entry_selected(path@, *mode),
{
    match mode {
        DirectoryConfigMode::Include(dirs) => any_prefix(path, dirs),
        DirectoryConfigMode::Exclude(dirs) => !any_prefix(path, dirs),
    }
}

} // verus!
