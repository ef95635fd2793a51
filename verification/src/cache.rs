//! Cache-ready marker paths, shared so that the daemon (writer) and the runtime
//! (reader) agree. Keyed on the digest of the image reference, the one string
//! both sides hold.

use vstd::prelude::*;

use crate::digest;
use crate::paths;

verus! {

pub const READY_DIR: &'static str = "ready";

/// The marker name of an image: the SHA-256 digest of its reference, as 64
/// hexadecimal digits.
pub fn marker_key(image: &str) -> (out: String)
    ensures
        out@ == digest::text_digest(image@),
        out@.len() == 64,
        forall|i: int| 0 <= i < out@.len() ==> digest::is_hex(#[trigger] out@[i]),
{
    digest::sha256_hex(image)
}

/// Where the ready marker of an image is.
pub open spec fn ready_path(cache_root: Seq<char>, image: Seq<char>) -> Seq<char> {
    paths::joined(paths::joined(cache_root, READY_DIR@), digest::text_digest(image))
}

/// Where the failure marker of an image is.
pub open spec fn failed_path(cache_root: Seq<char>, image: Seq<char>) -> Seq<char> {
    paths::joined(
        paths::joined(cache_root, READY_DIR@),
        digest::text_digest(image) + ".failed"@,
    )
}

/// Where the ready marker of an image is.
pub fn ready_marker(cache_root: &str, image: &str) -> (out: String)
    ensures
        out@ == ready_path(cache_root@, image@),
        out@ != failed_path(cache_root@, image@),
{
    let dir = paths::join(cache_root, READY_DIR);
    let key = marker_key(image);
    proof {
        markers_differ(dir@, key@);
    }
    paths::join(dir.as_str(), key.as_str())
}

/// Where the failure marker of an image is.
pub fn failed_marker(cache_root: &str, image: &str) -> (out: String)
    ensures
        out@ == failed_path(cache_root@, image@),
        out@ != ready_path(cache_root@, image@),
{
    let dir = paths::join(cache_root, READY_DIR);
    let key = marker_key(image);
    proof {
        markers_differ(dir@, key@);
    }
    paths::join(dir.as_str(), key.concat(".failed").as_str())
}

/// The two markers of an image are two files of one directory.
proof fn markers_differ(dir: Seq<char>, key: Seq<char>)
    requires
        key.len() == 64,
        forall|i: int| 0 <= i < key.len() ==> digest::is_hex(#[trigger] key[i]),
    ensures
        paths::joined(dir, key) != paths::joined(dir, key + ".failed"@),
{
    reveal_strlit(".failed");
    assert(digest::is_hex(key[0]));
    assert((key + ".failed"@)[0] == key[0]);
    assert(paths::joined(dir, key).len() + 7 == paths::joined(dir, key + ".failed"@).len());
}

/// The two markers of an image stand side by side, in the directory of markers: one is
/// named by the digest of the image, the other the same with `.failed` behind it.
pub proof fn the_markers_stand_side_by_side(cache_root: Seq<char>, image: Seq<char>)
    ensures
        failed_path(cache_root, image) == ready_path(cache_root, image) + ".failed"@,
        text_digest_is_relative(image) ==> ready_path(cache_root, image) == paths::joined(
            cache_root,
            "ready"@,
        ) + "/"@ + digest::text_digest(image),
{
    reveal_strlit(".failed");
    reveal_strlit("ready");
    reveal_strlit("/");
    let dir = paths::joined(cache_root, "ready"@);
    let key = digest::text_digest(image);
    assert(dir.last() == 'y');
    assert(dir.push('/') + (key + ".failed"@) =~= dir.push('/') + key + ".failed"@);
    assert(dir.push('/') + key =~= dir + "/"@ + key);
}

/// Whether the digest of an image is no absolute path.
pub open spec fn text_digest_is_relative(image: Seq<char>) -> bool {
    digest::text_digest(image).len() == 0 || digest::text_digest(image)[0] != '/'
}

} // verus!
