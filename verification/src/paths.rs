//! Unix paths, as text.

use vstd::prelude::*;

verus! {

/// `path` joined to `base`: an absolute `path` stands alone, any other goes
/// under `base`, after one separator.
pub open spec fn joined(base: Seq<char>, path: Seq<char>) -> Seq<char> {
    if path.len() > 0 && path[0] == '/' {
        path
    } else if base.len() == 0 || base.last() == '/' {
        base + path
    } else {
        base.push('/') + path
    }
}

/// Joins `path` to `base`.
pub fn join(base: &str, path: &str) -> (out: String)
    ensures
        out@ == joined(base@, path@),
{
    if path.unicode_len() > 0 && path.get_char(0) == '/' {
        return path.to_owned();
    }
    let n: usize = base.unicode_len();
    let mut out = base.to_owned();
    if n > 0 && base.get_char(n - 1) != '/' {
        out.push('/');
    }
    out.append(path);
    out
}

/// The position behind the last `c` in `s`, or 0 where there is none.
pub open spec fn after_last(s: Seq<char>, c: char) -> int
    decreases s.len(),
{
    if s.len() == 0 {
        0
    } else if s.last() == c {
        s.len() as int
    } else {
        after_last(s.drop_last(), c)
    }
}

/// The last component of a path that ends in a plain file name.
pub open spec fn file_name(path: Seq<char>) -> Seq<char> {
    path.skip(after_last(path, '/'))
}

/// Whether `path` ends in a file name: one that is no lone dot, and does not begin with
/// two dots.
pub open spec fn names_a_file(path: Seq<char>) -> bool {
    let f = file_name(path);
    f.len() > 0 && f != seq!['.'] && !(f.len() >= 2 && f[0] == '.' && f[1] == '.')
}

/// `path` up to the last dot inside its file name, or all of it where the file
/// name has no dot behind its first character.
pub open spec fn without_extension(path: Seq<char>) -> Seq<char> {
    let dot = after_last(path, '.') - 1;
    if dot > after_last(path, '/') {
        path.take(dot)
    } else {
        path
    }
}

/// The path that replaces the extension of `path`.
pub uninterp spec fn path_with_extension(path: Seq<char>, extension: Seq<char>) -> Seq<char>;

/// Calls `std::path::Path::with_extension`, which panics where the extension
/// holds a separator. Claims that the result depends on the two texts alone; and
/// that where the path ends in a file name, it is the path up to the last dot
/// of that name (a dot that leads the name aside), a dot, and the extension.
/// What it gives for a path that ends in a separator, in a dot component or in a
/// name that begins with two dots is not said.
#[verifier::external_body]
pub(crate) fn with_extension(path: &str, extension: &str) -> (out: String)
    requires
        extension@.len() > 0,
        !extension@.contains('/'),
    ensures
        out@ == path_with_extension(path@, extension@),
        names_a_file(path@) ==> out@ == without_extension(path@).push('.') + extension@,
{
    std::path::Path::new(path).with_extension(extension).to_string_lossy().into_owned()
}

/// A character that ends a text is where its last occurrence is.
pub proof fn after_last_at(s: Seq<char>, c: char, p: int)
    requires
        0 <= p < s.len(),
        s[p] == c,
        forall|i: int| p < i < s.len() ==> s[i] != c,
    ensures
        after_last(s, c) == p + 1,
    decreases s.len(),
{
    if p < s.len() - 1 {
        let t = s.drop_last();
        assert(s.last() != c);
        after_last_at(t, c, p);
    }
}

} // verus!
