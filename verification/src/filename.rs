use vstd::prelude::*;
use vstd::string::{StrSliceExecFns, StringExecFns};
use crate::errors::FmmdError;
use crate::numfmt::{pad_track, padded_track};
use crate::tag::Tag;

verus! {

/// Where the file name part of `path` begins: one past the last '/', or
/// zero when the path holds no '/'. Paths are handled textually: the last
/// '/' separates the directory prefix from the file name.
pub open spec fn name_start(path: Seq<char>) -> int {
    match path.index_of_last('/') {
        Some(i) => i + 1,
        None => 0,
    }
}

/// The directory prefix of `path`, up to and including the last '/'
/// (empty when the path holds no '/').
pub open spec fn dir_prefix(path: Seq<char>) -> Seq<char> {
    path.take(name_start(path))
}

/// Whether `path` has a file extension: a '.' inside the file name part,
/// later than the name's first character. A name that starts with its only
/// '.' (a hidden file) has no extension.
pub open spec fn path_splits(path: Seq<char>) -> bool {
    match path.index_of_last('.') {
        Some(d) => d >= name_start(path) + 1,
        None => false,
    }
}

/// The extension of `path`: everything past the last '.' (meaningful only
/// when `path_splits` holds).
pub open spec fn extension(path: Seq<char>) -> Seq<char> {
    match path.index_of_last('.') {
        Some(d) => path.skip(d + 1),
        None => Seq::empty(),
    }
}

/// Whether the tag carries enough metadata to name a file: a non-empty
/// title or a non-zero track number.
pub open spec fn has_metadata(title: Seq<char>, track: u32) -> bool {
    title.len() > 0 || track != 0
}

/// The derived file name: the directory prefix, then the zero-padded track
/// number, '-', the title verbatim, '.', and the original extension.
pub open spec fn derived_name(title: Seq<char>, track: u32, path: Seq<char>) -> Seq<char> {
    dir_prefix(path) + padded_track(track) + seq!['-'] + title + seq!['.'] + extension(path)
}

/// What deriving a file name returns on every input: the derived name, or
/// `NotEnoughMetadata` when title and track are both absent, or
/// `InvalidPath` when the path has no usable extension.
pub open spec fn spec_derive(title: Seq<char>, track: u32, path: Seq<char>) -> Result<
    Seq<char>,
    FmmdError,
> {
    if !has_metadata(title, track) {
        Err(FmmdError::NotEnoughMetadata)
    } else if !path_splits(path) {
        Err(FmmdError::InvalidPath)
    } else {
        Ok(derived_name(title, track, path))
    }
}

/// Whether an executable result agrees with a specified one, value for
/// value.
pub open spec fn derive_agrees(r: Result<String, FmmdError>, m: Result<Seq<char>, FmmdError>) -> bool {
    match (r, m) {
        (Ok(s), Ok(t)) => s@ == t,
        (Err(a), Err(b)) => a == b,
        _ => false,
    }
}

/// The position of the last occurrence of `c` in `s`, if any.
fn last_index(s: &str, c: char) -> (r: Option<usize>)
    ensures
        (match r {
            Some(i) => s@.index_of_last(c) == Some(i as int) && i < s@.len(),
            None => s@.index_of_last(c) is None,
        }),
{
    let n = s.unicode_len();
    let mut i = n;
    while i > 0
        invariant
            i <= n,
            n == s@.len(),
            forall|j: int| i <= j < n ==> s@[j] != c,
        decreases i,
    {
        i = i - 1;
        if s.get_char(i) == c {
            proof {
                s@.index_of_last_ensures(c);
                assert(s@[i as int] == c);
                assert(s@.contains(c));
                assert(s@.index_of_last(c) == Some(i as int));
            }
            return Some(i);
        }
    }
    proof {
        assert(forall|j: int| 0 <= j < s@.len() ==> s@[j] != c);
        assert(!s@.contains(c));
        s@.index_of_last_ensures(c);
    }
    None
}

/// Derives the new name for a file from its tag, or says why none can be
/// built. On success the result is exactly
/// `dir ++ padded track ++ '-' ++ title ++ '.' ++ ext`.
pub fn derive_filename(tag: &Tag, path: &str) -> (r: Result<String, FmmdError>)
    ensures
        derive_agrees(r, spec_derive(tag@.title, tag@.track, path@)),
{
    if tag.title.as_str().is_empty() && tag.track == 0 {
        return Err(FmmdError::NotEnoughMetadata);
    }
    let n = path.unicode_len();
    let slash = last_index(path, '/');
    let dot = last_index(path, '.');
    let start: usize = match slash {
        Some(i) => i + 1,
        None => 0,
    };
    assert(start == name_start(path@));
    let ext_from: usize = match dot {
        Some(d) => {
            if d <= start {
                return Err(FmmdError::InvalidPath);
            }
            d + 1
        },
        None => {
            return Err(FmmdError::InvalidPath);
        },
    };
    assert(path_splits(path@));
    let mut out = path.substring_char(0, start).to_owned();
    out.append(pad_track(tag.track).as_str());
    out.append("-");
    out.append(tag.title.as_str());
    out.append(".");
    out.append(path.substring_char(ext_from, n));
    proof {
        reveal_strlit("-");
        reveal_strlit(".");
        assert(out@ =~= derived_name(tag@.title, tag@.track, path@));
    }
    Ok(out)
}

} // verus!
