//! Names that Kubernetes takes.

use vstd::prelude::*;

use crate::text;

verus! {

/// A lower-case letter or a digit.
pub open spec fn is_name_end(c: char) -> bool {
    text::is_lower(c) || text::is_digit(c)
}

/// Whether `c` is a lower-case letter or a digit.
pub fn name_end(c: char) -> (r: bool)
    ensures
        r == is_name_end(c),
{
    ('a' <= c && c <= 'z') || ('0' <= c && c <= '9')
}

/// A DNS-1123 label: 1 to 63 lower-case letters, digits and dashes, with a letter or
/// a digit at each end.
pub open spec fn dns_label(s: Seq<char>) -> bool {
    &&& 1 <= s.len() <= 63
    &&& forall|i: int| 0 <= i < s.len() ==> is_name_end(#[trigger] s[i]) || s[i] == '-'
    &&& is_name_end(s[0])
    &&& is_name_end(s.last())
}

/// An RFC 1035 label: a DNS-1123 label that begins with a letter.
pub open spec fn rfc1035_label(s: Seq<char>) -> bool {
    dns_label(s) && text::is_lower(s[0])
}

/// A DNS-1123 subdomain: 1 to 253 lower-case letters, digits, dashes and dots. Each of
/// the parts between the dots has a letter or a digit at each end.
pub open spec fn dns_subdomain(s: Seq<char>) -> bool {
    &&& 1 <= s.len() <= 253
    &&& forall|i: int|
        0 <= i < s.len() ==> is_name_end(#[trigger] s[i]) || s[i] == '-' || s[i] == '.'
    &&& is_name_end(s[0])
    &&& is_name_end(s.last())
    &&& forall|i: int|
        0 < i < s.len() - 1 && #[trigger] s[i] == '.' ==> is_name_end(s[i - 1]) && is_name_end(
            s[i + 1],
        )
}

/// Whether `s` is a DNS-1123 label.
pub fn is_dns_label(s: &str) -> (r: bool)
    ensures
        r == dns_label(s@),
{
    let chars = text::chars_of(s);
    let n: usize = chars.len();
    if n == 0 || n > 63 {
        return false;
    }
    let mut i: usize = 0;
    while i < n
        invariant
            i <= n,
            n == chars.len(),
            chars@ == s@,
            forall|k: int| 0 <= k < i ==> is_name_end(#[trigger] s@[k]) || s@[k] == '-',
        decreases n - i,
    {
        if !name_end(chars[i]) && chars[i] != '-' {
            assert(!(is_name_end(s@[i as int]) || s@[i as int] == '-'));
            return false;
        }
        i = i + 1;
    }
    name_end(chars[0]) && name_end(chars[n - 1])
}

/// Whether `s` is a DNS-1123 subdomain.
pub fn is_dns_subdomain(s: &str) -> (r: bool)
    ensures
        r == dns_subdomain(s@),
{
    let chars = text::chars_of(s);
    let n: usize = chars.len();
    if n == 0 || n > 253 || !name_end(chars[0]) || !name_end(chars[n - 1]) {
        return false;
    }
    let mut i: usize = 0;
    while i < n
        invariant
            i <= n,
            n == chars.len(),
            chars@ == s@,
            n >= 1,
            is_name_end(s@[0]),
            is_name_end(s@[n - 1]),
            forall|k: int|
                0 <= k < i ==> is_name_end(#[trigger] s@[k]) || s@[k] == '-' || s@[k] == '.',
            forall|k: int|
                0 < k < i && k < n - 1 && #[trigger] s@[k] == '.' ==> is_name_end(s@[k - 1])
                    && is_name_end(s@[k + 1]),
        decreases n - i,
    {
        let c = chars[i];
        if c == '.' {
            assert(s@[i as int] == '.');
            assert(0 < i && i < n - 1);
            if !name_end(chars[i - 1]) || !name_end(chars[i + 1]) {
                return false;
            }
        } else if !name_end(c) && c != '-' {
            assert(!(is_name_end(s@[i as int]) || s@[i as int] == '-' || s@[i as int] == '.'));
            return false;
        }
        i = i + 1;
    }
    true
}

/// The readable part of a name that is made of another: the first 40 characters of
/// that, in lower case, with dashes for what a label cannot hold, and none at the
/// ends.
pub open spec fn readable_part(name: Seq<char>) -> Seq<char> {
    let d = text::dashed(text::lowered(name));
    text::trimmed_of(
        if d.len() > 40 {
            d.take(40)
        } else {
            d
        },
        '-',
    )
}

/// The readable part of a name that is made of another.
pub fn readable(name: &str) -> (out: String)
    ensures
        out@ == readable_part(name@),
        out@.len() <= 40,
        forall|i: int| 0 <= i < out@.len() ==> is_name_end(#[trigger] out@[i]) || out@[i] == '-',
{
    let lower = text::lower(name);
    let dashed = text::dash(lower.as_str());
    let n: usize = dashed.as_str().unicode_len();
    let head = if n > 40 {
        dashed.as_str().substring_char(0, 40)
    } else {
        dashed.as_str()
    };
    let out = text::trim_matches(head, '-');
    proof {
        assert(head@ == if dashed@.len() > 40 {
            dashed@.take(40)
        } else {
            dashed@
        });
        text::trimmed_of_is_part(head@, '-');
        assert forall|i: int| 0 <= i < out@.len() implies is_name_end(#[trigger] out@[i]) || out@[i]
            == '-' by {
            assert(out@.contains(out@[i]));
            assert(head@.contains(out@[i]));
            let j = choose|j: int| 0 <= j < head@.len() && head@[j] == out@[i];
            assert(dashed@[j] == head@[j]);
            assert(lower@[j] == text::lower_char(name@[j]));
        }
    }
    out
}

/// A name of lower-case letters and digits stays readable as it is, up to its first 40
/// characters.
pub proof fn a_plain_name_stays_readable(name: Seq<char>)
    requires
        name.len() > 0,
        forall|i: int| 0 <= i < name.len() ==> 'a' <= #[trigger] name[i] <= 'z' || '0' <= name[i]
            <= '9',
    ensures
        name.len() <= 40 ==> readable_part(name) == name,
        name.len() > 40 ==> readable_part(name) == name.subrange(0, 40),
{
    let d = text::dashed(text::lowered(name));
    assert(d =~= name) by {
        assert forall|i: int| 0 <= i < name.len() implies d[i] == name[i] by {
            assert(text::lowered(name)[i] == name[i]);
        }
    }
    assert(name.take(40) =~= name.subrange(0, 40));
    let cut = if name.len() > 40 {
        name.take(40)
    } else {
        name
    };
    assert(cut[0] == name[0]);
    assert(cut.last() == name[cut.len() - 1]);
    assert(text::trimmed_of(cut, '-') == cut);
}

} // verus!
