//! The cache-ready markers that the runtime waits on.

use vstd::prelude::*;

use crate::cache;
use crate::digest;
use crate::paths;

verus! {

/// How a marker is written: into a temporary file of the same directory, which is
/// then renamed, so that a reader never sees a partial marker.
#[derive(Debug, PartialEq)]
pub struct MarkerWrite {
    pub dir: String,
    pub temporary: String,
    pub path: String,
    pub contents: Vec<u8>,
}

/// Where the markers are.
pub open spec fn marker_dir(cache_root: Seq<char>) -> Seq<char> {
    paths::joined(cache_root, cache::READY_DIR@)
}

/// Whether a write puts these contents at `path`, by way of a file of the same
/// directory that is no marker.
pub open spec fn writes(
    w: MarkerWrite,
    cache_root: Seq<char>,
    image: Seq<char>,
    path: Seq<char>,
    contents: Seq<u8>,
) -> bool {
    &&& w.dir@ == marker_dir(cache_root)
    &&& w.path@ == path
    &&& w.contents@ == contents
    &&& w.temporary@ == paths::joined(
        marker_dir(cache_root),
        digest::text_digest(image) + ".tmp"@,
    )
    &&& w.temporary@ != cache::ready_path(cache_root, image)
    &&& w.temporary@ != cache::failed_path(cache_root, image)
}

/// How the marker of an image that is in the cache is written.
pub fn write_ready(cache_root: &str, image: &str) -> (w: MarkerWrite)
    ensures
        writes(w, cache_root@, image@, cache::ready_path(cache_root@, image@), Seq::empty()),
{
    let key = cache::marker_key(image);
    let path = cache::ready_marker(cache_root, image);
    let dir = paths::join(cache_root, cache::READY_DIR);
    let contents: Vec<u8> = Vec::new();
    proof {
        reveal_strlit("tmp");
        reveal_strlit("ready");
        assert(dir@.last() == 'y');
        temporary_name(dir@, key@, Seq::empty());
        assert(key@ + Seq::<char>::empty() =~= key@);
        assert(contents@ =~= Seq::empty());
    }
    let temporary = paths::with_extension(path.as_str(), "tmp");
    MarkerWrite { dir, temporary, path, contents }
}

/// How the marker of an image that could not be brought into the cache is written:
/// it holds the reason.
pub fn write_failed(cache_root: &str, image: &str, reason: &str) -> (w: MarkerWrite)
    ensures
        writes(
            w,
            cache_root@,
            image@,
            cache::failed_path(cache_root@, image@),
            digest::utf8(reason@),
        ),
{
    let key = cache::marker_key(image);
    let path = cache::failed_marker(cache_root, image);
    let dir = paths::join(cache_root, cache::READY_DIR);
    proof {
        reveal_strlit("tmp");
        reveal_strlit("ready");
        assert(dir@.last() == 'y');
        temporary_name(dir@, key@, ".failed"@);
    }
    let temporary = paths::with_extension(path.as_str(), "tmp");
    MarkerWrite { dir, temporary, path, contents: reason.as_bytes_vec() }
}

/// Replacing the extension of a marker changes its file name only.
proof fn temporary_name(dir: Seq<char>, key: Seq<char>, extension: Seq<char>)
    requires
        key.len() == 64,
        forall|i: int| 0 <= i < key.len() ==> digest::is_hex(#[trigger] key[i]),
        extension == Seq::<char>::empty() || extension == ".failed"@,
        dir.len() > 0,
        dir.last() != '/',
    ensures
        ({
            let path = paths::joined(dir, key + extension);
            let tmp = paths::joined(dir, key + ".tmp"@);
            &&& paths::names_a_file(path)
            &&& paths::without_extension(path).push('.') + "tmp"@ == tmp
            &&& tmp != paths::joined(dir, key)
            &&& tmp != paths::joined(dir, key + ".failed"@)
        }),
{
    reveal_strlit(".failed");
    reveal_strlit(".tmp");
    reveal_strlit("tmp");
    let n = dir.len() as int;
    let file = key + extension;
    let path = paths::joined(dir, file);
    assert(digest::is_hex(key[0]));
    assert(file[0] == key[0]);
    assert(path =~= dir.push('/') + file);
    assert forall|i: int| n < i < path.len() implies path[i] != '/' by {
        let k = i - n - 1;
        if k < 64 {
            assert(path[i] == key[k]);
            assert(digest::is_hex(key[k]));
        } else {
            assert(path[i] == extension[k - 64]);
        }
    }
    paths::after_last_at(path, '/', n);
    assert(paths::file_name(path) =~= file);
    assert(file.len() >= 64);
    if extension.len() > 0 {
        let dot = n + 65;
        assert(path[dot] == '.');
        assert forall|i: int| dot < i < path.len() implies path[i] != '.' by {
            assert(path[i] == extension[i - n - 1 - 64]);
        }
        paths::after_last_at(path, '.', dot);
        assert(paths::without_extension(path) =~= dir.push('/') + key);
    } else {
        assert(file =~= key);
        assert forall|i: int| n <= i < path.len() implies path[i] != '.' by {
            if i > n {
                assert(path[i] == key[i - n - 1]);
                assert(digest::is_hex(key[i - n - 1]));
            }
        }
        last_dot_is_before(path, n);
        assert(paths::without_extension(path) =~= path);
        assert(path =~= dir.push('/') + key);
    }
    assert((key + ".tmp"@)[0] == key[0]);
    assert((key + ".failed"@)[0] == key[0]);
    let tmp = paths::joined(dir, key + ".tmp"@);
    assert(tmp =~= dir.push('/') + key + ".tmp"@);
    assert(paths::without_extension(path).push('.') + "tmp"@ =~= tmp);
    assert(tmp.len() == n + 69);
    assert(paths::joined(dir, key).len() == n + 65);
    assert(paths::joined(dir, key + ".failed"@).len() == n + 72);
}

/// Where no dot comes from `n` on, the last dot is before `n`.
proof fn last_dot_is_before(s: Seq<char>, n: int)
    requires
        0 <= n <= s.len(),
        forall|i: int| n <= i < s.len() ==> s[i] != '.',
    ensures
        paths::after_last(s, '.') <= n,
    decreases s.len(),
{
    if s.len() > n {
        assert(s.last() != '.');
        last_dot_is_before(s.drop_last(), n);
    } else {
        after_last_fits(s, '.');
    }
}

/// The position behind a character lies within the text.
proof fn after_last_fits(s: Seq<char>, c: char)
    ensures
        0 <= paths::after_last(s, c) <= s.len(),
    decreases s.len(),
{
    if s.len() > 0 && s.last() != c {
        after_last_fits(s.drop_last(), c);
    }
}

/// A write that makes a marker puts there what it is told to, by way of a file beside it.
pub proof fn a_marker_holds_what_was_written(
    w: MarkerWrite,
    cache_root: Seq<char>,
    image: Seq<char>,
    path: Seq<char>,
    contents: Seq<u8>,
)
    ensures
        writes(w, cache_root, image, path, contents) ==> {
            &&& w.path@ == path
            &&& w.contents@ == contents
            &&& w.dir@ == paths::joined(cache_root, "ready"@)
            &&& w.temporary@ == paths::joined(w.dir@, digest::text_digest(image) + ".tmp"@)
            &&& path == cache::ready_path(cache_root, image) ==> w.temporary@ != path
            &&& path == cache::failed_path(cache_root, image) ==> w.temporary@ != path
        },
{
}

} // verus!
