//! Resolving the secrets of a specification into what the proxy substitutes.
//!
//! The guest's variable holds a placeholder, never the value; the proxy swaps one
//! for the other in traffic to the allowed hosts.

use vstd::prelude::*;

use crate::collections;
use crate::digest;
use crate::launch::network::{HostPattern, HostPatternView, SecretEntry, SecretEntryView};
use crate::paths;
use crate::sandbox;
use crate::sandbox::ResolvedSecret;
use crate::text;

verus! {

/// Why the secrets of a specification cannot be resolved.
#[derive(Debug, PartialEq)]
pub enum SecretError {
    Missing { env: String, secret: String, key: String },
    /// Two entries that share a variable would share the placeholder but not the
    /// value.
    DuplicateEnv { env: String },
    InvalidHost { env: String, host: String },
}

#[verifier::ext_equal]
pub enum SecretErrorView {
    Missing { env: Seq<char>, secret: Seq<char>, key: Seq<char> },
    DuplicateEnv { env: Seq<char> },
    InvalidHost { env: Seq<char>, host: Seq<char> },
}

impl View for SecretError {
    type V = SecretErrorView;

    open spec fn view(&self) -> SecretErrorView {
        match *self {
            SecretError::Missing { env, secret, key } => SecretErrorView::Missing {
                env: env@,
                secret: secret@,
                key: key@,
            },
            SecretError::DuplicateEnv { env } => SecretErrorView::DuplicateEnv { env: env@ },
            SecretError::InvalidHost { env, host } => SecretErrorView::InvalidHost {
                env: env@,
                host: host@,
            },
        }
    }
}

/// What a secret error says.
pub open spec fn secret_error_text(e: SecretErrorView) -> Seq<char> {
    match e {
        SecretErrorView::Missing { env, secret, key } => "secret for env "@ + env + ": Secret "@
            + secret + "/"@ + key + " not found or key missing"@,
        SecretErrorView::DuplicateEnv { env } => "secret env var "@ + env
            + " is used by more than one entry"@,
        SecretErrorView::InvalidHost { env, host } => "secret for env "@ + env
            + ": invalid allowed_host "@ + text::debug_text(host),
    }
}

impl SecretError {
    /// The error in words.
    pub fn message(&self) -> (out: String)
        ensures
            out@ == secret_error_text(self@),
    {
        match self {
            SecretError::Missing { env, secret, key } => "secret for env ".to_owned().concat(
                env.as_str(),
            ).concat(": Secret ").concat(secret.as_str()).concat("/").concat(key.as_str()).concat(
                " not found or key missing",
            ),
            SecretError::DuplicateEnv { env } => "secret env var ".to_owned().concat(
                env.as_str(),
            ).concat(" is used by more than one entry"),
            SecretError::InvalidHost { env, host } => "secret for env ".to_owned().concat(
                env.as_str(),
            ).concat(": invalid allowed_host ").concat(text::debug(host.as_str()).as_str()),
        }
    }
}

/// A Secret and a key of it.
pub open spec fn key_ref(s: sandbox::SecretEntry) -> (Seq<char>, Seq<char>) {
    (s.value_from.secret_key_ref.name@, s.value_from.secret_key_ref.key@)
}

/// The keys that the secrets of a specification name, one for each.
pub open spec fn key_refs(specs: Seq<sandbox::SecretEntry>) -> Seq<(Seq<char>, Seq<char>)> {
    Seq::new(specs.len(), |i: int| key_ref(specs[i]))
}

/// The members of `s`, each where it first occurs.
pub open spec fn first_occurrences(s: Seq<(Seq<char>, Seq<char>)>) -> Seq<(Seq<char>, Seq<char>)>
    decreases s.len(),
{
    if s.len() == 0 {
        Seq::empty()
    } else {
        let d = first_occurrences(s.drop_last());
        if d.contains(s.last()) {
            d
        } else {
            d.push(s.last())
        }
    }
}

/// `first_occurrences` lists every member, and each once.
pub proof fn first_occurrences_are_distinct(s: Seq<(Seq<char>, Seq<char>)>)
    ensures
        first_occurrences(s).no_duplicates(),
        first_occurrences(s).to_set() == s.to_set(),
    decreases s.len(),
{
    if s.len() == 0 {
        assert(first_occurrences(s).to_set() =~= s.to_set());
    } else {
        let rest = s.drop_last();
        let d = first_occurrences(rest);
        first_occurrences_are_distinct(rest);
        assert(s =~= rest.push(s.last()));
        collections::push_to_set(rest, s.last());
        if d.contains(s.last()) {
            assert(d.to_set().contains(s.last()));
            assert(rest.to_set().insert(s.last()) =~= rest.to_set());
        } else {
            collections::push_to_set(d, s.last());
            assert forall|i: int, j: int|
                0 <= i < d.push(s.last()).len() && 0 <= j < d.push(s.last()).len() && i
                    != j implies d.push(s.last())[i] != d.push(s.last())[j] by {
                if i < d.len() {
                    assert(d.contains(d[i]));
                }
                if j < d.len() {
                    assert(d.contains(d[j]));
                }
            }
        }
    }
}

/// The views of a list of pairs.
pub open spec fn pairs(s: Seq<(String, String)>) -> Seq<(Seq<char>, Seq<char>)> {
    Seq::new(s.len(), |i: int| (s[i].0@, s[i].1@))
}

fn holds_pair(v: &Vec<(String, String)>, name: &str, key: &str) -> (r: bool)
    ensures
        r == pairs(v@).contains((name@, key@)),
{
    let mut i: usize = 0;
    while i < v.len()
        invariant
            i <= v.len(),
            forall|k: int| 0 <= k < i ==> #[trigger] pairs(v@)[k] != (name@, key@),
        decreases v.len() - i,
    {
        assert(pairs(v@)[i as int] == (v@[i as int].0@, v@[i as int].1@));
        if text::same(v[i].0.as_str(), name) && text::same(v[i].1.as_str(), key) {
            return true;
        }
        i = i + 1;
    }
    false
}

/// The `(secret, key)` pairs to fetch, each once: many entries may share one.
pub fn required_keys(specs: &Vec<sandbox::SecretEntry>) -> (out: Vec<(String, String)>)
    ensures
        pairs(out@) == first_occurrences(key_refs(specs@)),
        pairs(out@).no_duplicates(),
        pairs(out@).to_set() == key_refs(specs@).to_set(),
{
    let mut out: Vec<(String, String)> = Vec::new();
    let ghost all = key_refs(specs@);
    let mut i: usize = 0;
    assert(pairs(out@) =~= Seq::empty());
    assert(all.take(0) =~= Seq::empty());
    while i < specs.len()
        invariant
            i <= specs.len(),
            all == key_refs(specs@),
            pairs(out@) == first_occurrences(all.take(i as int)),
        decreases specs.len() - i,
    {
        let r = &specs[i].value_from.secret_key_ref;
        let ghost before = pairs(out@);
        proof {
            assert(all.take(i + 1).drop_last() =~= all.take(i as int));
            assert(all.take(i + 1).last() == (r.name@, r.key@));
        }
        if !holds_pair(&out, r.name.as_str(), r.key.as_str()) {
            out.push((r.name.clone(), r.key.clone()));
            assert(pairs(out@) =~= before.push((r.name@, r.key@)));
        }
        i = i + 1;
    }
    proof {
        assert(all.take(i as int) =~= all);
        first_occurrences_are_distinct(all);
    }
    out
}

/// Whether a placeholder may hold `c`: ASCII, and neither NUL nor CR nor LF.
pub open spec fn placeholder_char(c: char) -> bool {
    (c as u32) < 128 && c != '\0' && c != '\r' && c != '\n'
}

/// Whether a placeholder may hold a variable's name as it is.
pub open spec fn fits_placeholder(s: Seq<char>) -> bool {
    forall|i: int| 0 <= i < s.len() ==> placeholder_char(#[trigger] s[i])
}

/// A character that an escaped name holds as it is: what a placeholder may hold, but
/// for the escape.
pub open spec fn stands_plain(c: char) -> bool {
    placeholder_char(c) && c != '%'
}

/// The hexadecimal digit of `n` that stands for the multiples of `unit`.
pub open spec fn hex_place(n: int, unit: int) -> char {
    digest::hex_digit((n / unit) % 16)
}

/// A character in an escaped name: itself, or a percent sign and six hexadecimal digits.
pub open spec fn escape(c: char) -> Seq<char> {
    let n = c as int;
    if stands_plain(c) {
        seq![c]
    } else {
        seq![
            '%',
            hex_place(n, 0x100000),
            hex_place(n, 0x10000),
            hex_place(n, 0x1000),
            hex_place(n, 0x100),
            hex_place(n, 0x10),
            hex_place(n, 1),
        ]
    }
}

/// A variable's name, with escapes for what a placeholder may not hold.
pub open spec fn escaped_name(s: Seq<char>) -> Seq<char>
    decreases s.len(),
{
    if s.len() == 0 {
        Seq::empty()
    } else {
        escape(s[0]) + escaped_name(s.drop_first())
    }
}

/// What the guest's variable holds in place of the value: `msb_secret_` and the name,
/// where a placeholder may hold that. Any other name is escaped, and a percent sign
/// before it tells so.
pub open spec fn placeholder_of(env_var: Seq<char>) -> Seq<char> {
    if fits_placeholder(env_var) {
        "msb_secret_"@ + env_var
    } else {
        "msb_secret%"@ + escaped_name(env_var)
    }
}

/// An escaped name holds only what a placeholder may hold.
proof fn escaped_name_fits(s: Seq<char>)
    ensures
        fits_placeholder(escaped_name(s)),
    decreases s.len(),
{
    if s.len() > 0 {
        escaped_name_fits(s.drop_first());
        let (head, rest) = (escape(s[0]), escaped_name(s.drop_first()));
        assert forall|i: int| 0 <= i < escaped_name(s).len() implies placeholder_char(
            #[trigger] escaped_name(s)[i],
        ) by {
            if i < head.len() {
                assert(escaped_name(s)[i] == head[i]);
            } else {
                assert(escaped_name(s)[i] == rest[i - head.len()]);
            }
        }
    }
}

/// The hexadecimal digit of value `d`.
fn hex_char(d: u32) -> (c: char)
    requires
        d < 16,
    ensures
        c == digest::hex_digit(d as int),
{
    if d < 10 {
        (48u8 + d as u8) as char
    } else {
        (87u8 + d as u8) as char
    }
}

fn push_escaped(out: &mut String, c: char)
    ensures
        final(out)@ == old(out)@ + escape(c),
{
    let n: u32 = c as u32;
    if n < 128 && c != '\0' && c != '\r' && c != '\n' && c != '%' {
        out.push(c);
    } else {
        out.push('%');
        out.push(hex_char((n / 0x100000) % 16));
        out.push(hex_char((n / 0x10000) % 16));
        out.push(hex_char((n / 0x1000) % 16));
        out.push(hex_char((n / 0x100) % 16));
        out.push(hex_char((n / 0x10) % 16));
        out.push(hex_char(n % 16));
    }
    assert(out@ =~= old(out)@ + escape(c));
}

/// Whether a placeholder may hold the name `s` as it is.
fn holds_as_is(s: &str) -> (r: bool)
    ensures
        r == fits_placeholder(s@),
{
    let chars = text::chars_of(s);
    let mut i: usize = 0;
    while i < chars.len()
        invariant
            i <= chars.len(),
            chars@ == s@,
            forall|k: int| 0 <= k < i ==> placeholder_char(#[trigger] s@[k]),
        decreases chars.len() - i,
    {
        let c = chars[i];
        if c as u32 >= 128 || c == '\0' || c == '\r' || c == '\n' {
            assert(!placeholder_char(s@[i as int]));
            return false;
        }
        i = i + 1;
    }
    true
}

/// `s` with escapes for what a placeholder may not hold.
fn escape_name(s: &str) -> (out: String)
    ensures
        out@ == escaped_name(s@),
{
    let chars = text::chars_of(s);
    let mut out = String::new();
    let mut i: usize = 0;
    assert(s@.skip(0) =~= s@);
    assert(out@ + escaped_name(s@) =~= escaped_name(s@));
    while i < chars.len()
        invariant
            i <= chars.len(),
            chars@ == s@,
            escaped_name(s@) == out@ + escaped_name(s@.skip(i as int)),
        decreases chars.len() - i,
    {
        let ghost before = out@;
        let ghost rest = s@.skip(i as int);
        push_escaped(&mut out, chars[i]);
        proof {
            assert(rest.drop_first() =~= s@.skip(i + 1));
            assert(before + (escape(rest[0]) + escaped_name(rest.drop_first())) =~= out@
                + escaped_name(rest.drop_first()));
        }
        i = i + 1;
    }
    assert(out@ + escaped_name(s@.skip(i as int)) =~= out@);
    out
}

/// What the guest's variable holds in place of the value. Deterministic and valid per
/// msb's rules: non-empty, ASCII, no NUL, CR or LF.
pub fn placeholder_for(env_var: &str) -> (out: String)
    ensures
        out@ == placeholder_of(env_var@),
        out@.len() > 0,
        fits_placeholder(out@),
{
    proof {
        escaped_name_fits(env_var@);
        reveal_strlit("msb_secret_");
        reveal_strlit("msb_secret%");
    }
    if holds_as_is(env_var) {
        "msb_secret_".to_owned().concat(env_var)
    } else {
        "msb_secret%".to_owned().concat(escape_name(env_var).as_str())
    }
}

/// Distinct digits are written differently.
proof fn hex_digits_differ(d: int, e: int)
    requires
        0 <= d < 16,
        0 <= e < 16,
        digest::hex_digit(d) == digest::hex_digit(e),
    ensures
        d == e,
{
}

/// The last digit and the number without it make the number.
proof fn last_place(m: int, n: int, unit: int)
    requires
        0 <= m,
        0 <= n,
        unit > 0,
        hex_place(m, unit) == hex_place(n, unit),
        m / (16 * unit) == n / (16 * unit),
    ensures
        m / unit == n / unit,
{
    let (p, q) = (m / unit, n / unit);
    vstd::arithmetic::div_mod::lemma_div_denominator(m, unit, 16);
    vstd::arithmetic::div_mod::lemma_div_denominator(n, unit, 16);
    assert(16 * unit == unit * 16);
    assert(p / 16 == q / 16);
    hex_digits_differ(p % 16, q % 16);
}

/// Numbers of six digits that have the same digits are the same.
proof fn six_places(m: int, n: int)
    requires
        0 <= m < 0x1000000,
        0 <= n < 0x1000000,
        hex_place(m, 0x100000) == hex_place(n, 0x100000),
        hex_place(m, 0x10000) == hex_place(n, 0x10000),
        hex_place(m, 0x1000) == hex_place(n, 0x1000),
        hex_place(m, 0x100) == hex_place(n, 0x100),
        hex_place(m, 0x10) == hex_place(n, 0x10),
        hex_place(m, 1) == hex_place(n, 1),
    ensures
        m == n,
{
    last_place(m, n, 0x100000);
    last_place(m, n, 0x10000);
    last_place(m, n, 0x1000);
    last_place(m, n, 0x100);
    last_place(m, n, 0x10);
    last_place(m, n, 1);
}

/// Distinct characters are escaped differently, and neither is the beginning of the
/// other.
proof fn escape_differs(a: char, b: char, x: Seq<char>, y: Seq<char>)
    requires
        escape(a) + x == escape(b) + y,
    ensures
        a == b,
        x == y,
{
    let (l, r) = (escape(a) + x, escape(b) + y);
    assert(l[0] == escape(a)[0]);
    assert(r[0] == escape(b)[0]);
    if !stands_plain(a) {
        assert forall|k: int| 0 <= k < 7 implies escape(a)[k] == escape(b)[k] by {
            assert(l[k] == escape(a)[k]);
            assert(r[k] == escape(b)[k]);
        }
        let (m, n) = (a as int, b as int);
        assert(escape(a)[1] == hex_place(m, 0x100000) && escape(b)[1] == hex_place(n, 0x100000));
        assert(escape(a)[2] == hex_place(m, 0x10000) && escape(b)[2] == hex_place(n, 0x10000));
        assert(escape(a)[3] == hex_place(m, 0x1000) && escape(b)[3] == hex_place(n, 0x1000));
        assert(escape(a)[4] == hex_place(m, 0x100) && escape(b)[4] == hex_place(n, 0x100));
        assert(escape(a)[5] == hex_place(m, 0x10) && escape(b)[5] == hex_place(n, 0x10));
        assert(escape(a)[6] == hex_place(m, 1) && escape(b)[6] == hex_place(n, 1));
        six_places(m, n);
    }
    let k = escape(a).len() as int;
    assert(l.skip(k) =~= x);
    assert(r.skip(k) =~= y);
}

/// Distinct names are escaped differently.
proof fn escaped_names_differ(a: Seq<char>, b: Seq<char>)
    requires
        escaped_name(a) == escaped_name(b),
    ensures
        a == b,
    decreases a.len(),
{
    if a.len() > 0 && b.len() > 0 {
        escape_differs(a[0], b[0], escaped_name(a.drop_first()), escaped_name(b.drop_first()));
        escaped_names_differ(a.drop_first(), b.drop_first());
        assert(a =~= seq![a[0]] + a.drop_first());
        assert(b =~= seq![b[0]] + b.drop_first());
    } else if a.len() > 0 {
        assert(escaped_name(a).len() >= escape(a[0]).len());
    } else if b.len() > 0 {
        assert(escaped_name(b).len() >= escape(b[0]).len());
    } else {
        assert(a =~= b);
    }
}

/// Distinct variables have distinct placeholders.
pub proof fn placeholders_differ(a: Seq<char>, b: Seq<char>)
    requires
        placeholder_of(a) == placeholder_of(b),
    ensures
        a == b,
{
    reveal_strlit("msb_secret_");
    reveal_strlit("msb_secret%");
    let (p, q) = (placeholder_of(a), placeholder_of(b));
    assert(p[10] == q[10]);
    if fits_placeholder(a) {
        assert(p.skip(11) =~= a);
        assert(q.skip(11) =~= b);
    } else {
        assert(p.skip(11) =~= escaped_name(a));
        assert(q.skip(11) =~= escaped_name(b));
        escaped_names_differ(a, b);
    }
}

/// The pattern that an allowed host stands for, where it stands for one: `*.suffix`
/// for all hosts below the suffix, anything else for itself. A bare `*`, an empty
/// host and `*.` without a suffix stand for none.
pub open spec fn pattern_of(host: Seq<char>) -> Option<HostPatternView> {
    if text::has_prefix(host, "*."@) {
        let suffix = host.skip("*."@.len() as int);
        if suffix.len() == 0 {
            None
        } else {
            Some(HostPatternView::Wildcard(suffix))
        }
    } else if host.len() == 0 || host.contains('*') {
        None
    } else {
        Some(HostPatternView::Exact(host))
    }
}

/// The pattern that an allowed host stands for.
pub fn host_pattern(env: &str, host: &str) -> (r: Result<HostPattern, SecretError>)
    ensures
        collections::res(r) == (match pattern_of(host@) {
            Some(p) => Ok(p),
            None => Err(SecretErrorView::InvalidHost { env: env@, host: host@ }),
        }),
{
    if let Some(suffix) = text::strip_prefix(host, "*.") {
        if suffix.as_str().is_empty() {
            return Err(
                SecretError::InvalidHost { env: env.to_owned(), host: host.to_owned() },
            );
        }
        return Ok(HostPattern::Wildcard(suffix));
    }
    proof {
        text::first_pos_is_first(host@, '*');
    }
    if host.is_empty() || text::split_once(host, '*').is_some() {
        return Err(SecretError::InvalidHost { env: env.to_owned(), host: host.to_owned() });
    }
    Ok(HostPattern::Exact(host.to_owned()))
}

/// The host that a pattern stands for, as the specification writes it.
pub open spec fn pattern_text(p: HostPatternView) -> Seq<char> {
    match p {
        HostPatternView::Exact(h) => h,
        HostPatternView::Wildcard(s) => "*."@ + s,
    }
}

/// Writing a pattern down gives back the host that it was read from.
pub proof fn pattern_text_inverts_reading(host: Seq<char>)
    requires
        pattern_of(host) is Some,
    ensures
        pattern_text(pattern_of(host)->0) == host,
{
    if text::has_prefix(host, "*."@) {
        let n = "*."@.len() as int;
        assert("*."@ + host.skip(n) =~= host);
    }
}

/// The plaintext of a key of a Secret.
#[derive(PartialEq)]
pub struct Plaintext {
    pub secret: String,
    pub key: String,
    pub value: String,
}

/// The plaintext of a key, where it was fetched: the first that is listed.
pub open spec fn plaintext_of(
    resolved: Seq<Plaintext>,
    secret: Seq<char>,
    key: Seq<char>,
) -> Option<Seq<char>>
    decreases resolved.len(),
{
    if resolved.len() == 0 {
        None
    } else if resolved[0].secret@ == secret && resolved[0].key@ == key {
        Some(resolved[0].value@)
    } else {
        plaintext_of(resolved.drop_first(), secret, key)
    }
}

fn lookup(resolved: &Vec<Plaintext>, secret: &str, key: &str) -> (r: Option<String>)
    ensures
        collections::opt(r) == plaintext_of(resolved@, secret@, key@),
{
    let mut i: usize = 0;
    assert(resolved@.skip(0) =~= resolved@);
    while i < resolved.len()
        invariant
            i <= resolved.len(),
            plaintext_of(resolved@, secret@, key@) == plaintext_of(
                resolved@.skip(i as int),
                secret@,
                key@,
            ),
        decreases resolved.len() - i,
    {
        assert(resolved@.skip(i as int)[0] == resolved@[i as int]);
        if text::same(resolved[i].secret.as_str(), secret) && text::same(
            resolved[i].key.as_str(),
            key,
        ) {
            return Some(resolved[i].value.clone());
        }
        assert(resolved@.skip(i as int).drop_first() =~= resolved@.skip(i + 1));
        i = i + 1;
    }
    None
}

/// Whether an earlier entry has the same variable.
pub open spec fn env_taken(specs: Seq<sandbox::SecretEntry>, n: int, env: Seq<char>) -> bool {
    exists|j: int| 0 <= j < n && (#[trigger] specs[j]).env@ == env
}

fn env_is_taken(specs: &Vec<sandbox::SecretEntry>, n: usize, env: &str) -> (r: bool)
    requires
        n <= specs.len(),
    ensures
        r == env_taken(specs@, n as int, env@),
{
    let mut i: usize = 0;
    while i < n
        invariant
            i <= n <= specs.len(),
            forall|j: int| 0 <= j < i ==> (#[trigger] specs@[j]).env@ != env@,
        decreases n - i,
    {
        if text::same(specs[i].env.as_str(), env) {
            assert(specs@[i as int].env@ == env@);
            return true;
        }
        i = i + 1;
    }
    false
}

/// The patterns of the first `n` hosts, or the error of the first that stands for
/// none.
pub open spec fn patterns_of(env: Seq<char>, hosts: Seq<Seq<char>>, n: int) -> Result<
    Seq<HostPatternView>,
    SecretErrorView,
>
    decreases n,
{
    if n <= 0 {
        Ok(Seq::empty())
    } else {
        match patterns_of(env, hosts, n - 1) {
            Err(e) => Err(e),
            Ok(ps) => match pattern_of(hosts[n - 1]) {
                Some(p) => Ok(ps.push(p)),
                None => Err(SecretErrorView::InvalidHost { env, host: hosts[n - 1] }),
            },
        }
    }
}

/// An error among the first hosts is the error of all.
proof fn patterns_err_stays(env: Seq<char>, hosts: Seq<Seq<char>>, n: int, m: int)
    requires
        0 <= n <= m,
        patterns_of(env, hosts, n) is Err,
    ensures
        patterns_of(env, hosts, m) == patterns_of(env, hosts, n),
    decreases m,
{
    if n < m {
        patterns_err_stays(env, hosts, n, m - 1);
    }
}

/// There is one pattern for each host.
proof fn patterns_count(env: Seq<char>, hosts: Seq<Seq<char>>, n: int)
    requires
        0 <= n,
        patterns_of(env, hosts, n) is Ok,
    ensures
        patterns_of(env, hosts, n)->Ok_0.len() == n,
    decreases n,
{
    if n > 0 {
        patterns_count(env, hosts, n - 1);
    }
}

/// The patterns of hosts, written down, are the hosts again, in order.
pub proof fn patterns_are_read(env: Seq<char>, hosts: Seq<Seq<char>>, n: int)
    requires
        0 <= n <= hosts.len(),
        patterns_of(env, hosts, n) is Ok,
    ensures
        host_texts(patterns_of(env, hosts, n)->Ok_0) == hosts.take(n),
    decreases n,
{
    if n == 0 {
        assert(host_texts(patterns_of(env, hosts, n)->Ok_0) =~= hosts.take(n));
    } else {
        let before = patterns_of(env, hosts, n - 1)->Ok_0;
        let all = patterns_of(env, hosts, n)->Ok_0;
        patterns_are_read(env, hosts, n - 1);
        patterns_count(env, hosts, n - 1);
        pattern_text_inverts_reading(hosts[n - 1]);
        assert forall|i: int| 0 <= i < n implies host_texts(all)[i] == hosts.take(n)[i] by {
            if i < n - 1 {
                assert(all[i] == before[i]);
                assert(host_texts(before)[i] == hosts.take(n - 1)[i]);
            }
        }
        assert(host_texts(all) =~= hosts.take(n));
    }
}

fn host_patterns(env: &str, hosts: &Vec<String>) -> (r: Result<Vec<HostPattern>, SecretError>)
    ensures
        (match r {
            Ok(v) => Ok(collections::views(v@)),
            Err(e) => Err(e@),
        }) == patterns_of(env@, collections::views(hosts@), hosts@.len() as int),
{
    let mut out: Vec<HostPattern> = Vec::new();
    let ghost all = collections::views(hosts@);
    let mut i: usize = 0;
    assert(collections::views(out@) =~= Seq::empty());
    while i < hosts.len()
        invariant
            i <= hosts.len(),
            all == collections::views(hosts@),
            patterns_of(env@, all, i as int) == Ok::<_, SecretErrorView>(collections::views(out@)),
        decreases hosts.len() - i,
    {
        let ghost before = collections::views(out@);
        assert(all[i as int] == hosts@[i as int]@);
        match host_pattern(env, hosts[i].as_str()) {
            Ok(p) => {
                out.push(p);
                assert(collections::views(out@) =~= before.push(p@));
            },
            Err(e) => {
                proof {
                    assert(patterns_of(env@, all, i + 1) is Err);
                    patterns_err_stays(env@, all, i + 1, hosts@.len() as int);
                }
                return Err(e);
            },
        }
        i = i + 1;
    }
    Ok(out)
}

/// What comes of the entry at `i`: an error for a variable that is taken, then for a
/// value that is missing, then for a host that stands for none.
pub open spec fn entry_outcome(
    specs: Seq<sandbox::SecretEntry>,
    resolved: Seq<Plaintext>,
    i: int,
) -> Result<SecretEntryView, SecretErrorView> {
    let s = specs[i];
    let (secret, key) = key_ref(s);
    if env_taken(specs, i, s.env@) {
        Err(SecretErrorView::DuplicateEnv { env: s.env@ })
    } else {
        match plaintext_of(resolved, secret, key) {
            None => Err(SecretErrorView::Missing { env: s.env@, secret, key }),
            Some(value) => match patterns_of(
                s.env@,
                collections::views(s.allowed_hosts@),
                s.allowed_hosts@.len() as int,
            ) {
                Err(e) => Err(e),
                Ok(allowed_hosts) => Ok(
                    SecretEntryView {
                        env_var: s.env@,
                        value,
                        placeholder: placeholder_of(s.env@),
                        allowed_hosts,
                        require_tls_identity: true,
                    },
                ),
            },
        }
    }
}

/// What comes of the first `n` entries: all of them, or the error of the first that
/// has one.
pub open spec fn entries_outcome(
    specs: Seq<sandbox::SecretEntry>,
    resolved: Seq<Plaintext>,
    n: int,
) -> Result<Seq<SecretEntryView>, SecretErrorView>
    decreases n,
{
    if n <= 0 {
        Ok(Seq::empty())
    } else {
        match entries_outcome(specs, resolved, n - 1) {
            Err(e) => Err(e),
            Ok(done) => match entry_outcome(specs, resolved, n - 1) {
                Err(e) => Err(e),
                Ok(x) => Ok(done.push(x)),
            },
        }
    }
}

/// What comes of all the secrets of a specification.
pub open spec fn resolve_outcome(
    specs: Seq<sandbox::SecretEntry>,
    resolved: Seq<Plaintext>,
) -> Result<Seq<SecretEntryView>, SecretErrorView> {
    entries_outcome(specs, resolved, specs.len() as int)
}

/// An error among the first entries is the error of all.
proof fn entries_err_stays(
    specs: Seq<sandbox::SecretEntry>,
    resolved: Seq<Plaintext>,
    n: int,
    m: int,
)
    requires
        0 <= n <= m,
        entries_outcome(specs, resolved, n) is Err,
    ensures
        entries_outcome(specs, resolved, m) == entries_outcome(specs, resolved, n),
    decreases m,
{
    if n < m {
        entries_err_stays(specs, resolved, n, m - 1);
    }
}

fn resolve_entry(
    specs: &Vec<sandbox::SecretEntry>,
    resolved: &Vec<Plaintext>,
    i: usize,
) -> (r: Result<SecretEntry, SecretError>)
    requires
        i < specs.len(),
    ensures
        collections::res(r) == entry_outcome(specs@, resolved@, i as int),
{
    let s = &specs[i];
    if env_is_taken(specs, i, s.env.as_str()) {
        return Err(SecretError::DuplicateEnv { env: s.env.clone() });
    }
    let name = &s.value_from.secret_key_ref.name;
    let key = &s.value_from.secret_key_ref.key;
    let value = match lookup(resolved, name.as_str(), key.as_str()) {
        Some(v) => v,
        None => {
            return Err(
                SecretError::Missing {
                    env: s.env.clone(),
                    secret: name.clone(),
                    key: key.clone(),
                },
            );
        },
    };
    match host_patterns(s.env.as_str(), &s.allowed_hosts) {
        Ok(allowed_hosts) => Ok(
            SecretEntry {
                env_var: s.env.clone(),
                value,
                placeholder: placeholder_for(s.env.as_str()),
                allowed_hosts,
                require_tls_identity: true,
            },
        ),
        Err(e) => Err(e),
    }
}

/// Resolves the secrets of a specification, given the plaintext that was fetched. A
/// value that is missing is an error: the pod fails to start rather than to boot
/// with an empty secret.
pub fn resolve(specs: &Vec<sandbox::SecretEntry>, resolved: &Vec<Plaintext>) -> (r: Result<
    Vec<SecretEntry>,
    SecretError,
>)
    ensures
        (match r {
            Ok(v) => Ok(collections::views(v@)),
            Err(e) => Err(e@),
        }) == resolve_outcome(specs@, resolved@),
{
    let mut out: Vec<SecretEntry> = Vec::new();
    let mut i: usize = 0;
    assert(collections::views(out@) =~= Seq::empty());
    while i < specs.len()
        invariant
            i <= specs.len(),
            entries_outcome(specs@, resolved@, i as int) == Ok::<_, SecretErrorView>(
                collections::views(out@),
            ),
        decreases specs.len() - i,
    {
        let ghost before = collections::views(out@);
        match resolve_entry(specs, resolved, i) {
            Ok(x) => {
                out.push(x);
                assert(collections::views(out@) =~= before.push(x@));
            },
            Err(e) => {
                proof {
                    assert(entries_outcome(specs@, resolved@, i + 1) is Err);
                    entries_err_stays(specs@, resolved@, i + 1, specs@.len() as int);
                }
                return Err(e);
            },
        }
        i = i + 1;
    }
    Ok(out)
}

/// What resolution comes to, where it succeeds: one secret for each entry, in order,
/// each with its own variable, the plaintext of its key, a pattern for each of its hosts
/// and the placeholder of its variable, which is that of no other.
pub proof fn resolution_is_complete(
    specs: Seq<sandbox::SecretEntry>,
    resolved: Seq<Plaintext>,
    n: int,
)
    requires
        0 <= n <= specs.len(),
        entries_outcome(specs, resolved, n) is Ok,
    ensures
        ({
            let out = entries_outcome(specs, resolved, n)->Ok_0;
            &&& out.len() == n
            &&& forall|i: int|
                0 <= i < n ==> {
                    &&& (#[trigger] out[i]).env_var == specs[i].env@
                    &&& out[i].placeholder == placeholder_of(specs[i].env@)
                    &&& fits_placeholder(specs[i].env@) ==> out[i].placeholder == "msb_secret_"@
                        + specs[i].env@
                    &&& out[i].allowed_hosts.len() == specs[i].allowed_hosts@.len()
                    &&& out[i].require_tls_identity
                    &&& plaintext_of(resolved, key_ref(specs[i]).0, key_ref(specs[i]).1) == Some(
                        out[i].value,
                    )
                }
            &&& forall|i: int, j: int|
                0 <= i < j < n ==> {
                    &&& (#[trigger] out[i]).env_var != (#[trigger] out[j]).env_var
                    &&& out[i].placeholder != out[j].placeholder
                }
        }),
    decreases n,
{
    if n > 0 {
        resolution_is_complete(specs, resolved, n - 1);
        let before = entries_outcome(specs, resolved, n - 1)->Ok_0;
        let out = entries_outcome(specs, resolved, n)->Ok_0;
        let x = entry_outcome(specs, resolved, n - 1)->Ok_0;
        let s = specs[n - 1];
        assert(out == before.push(x));
        patterns_count(s.env@, collections::views(s.allowed_hosts@), s.allowed_hosts@.len() as int);
        assert forall|i: int, j: int| 0 <= i < j < n implies (#[trigger] out[i]).env_var != (
        #[trigger] out[j]).env_var && out[i].placeholder != out[j].placeholder by {
            if j == n - 1 {
                assert(out[i] == before[i]);
                assert(specs[i].env@ == before[i].env_var);
                assert(!env_taken(specs, n - 1, s.env@));
                if out[i].placeholder == out[j].placeholder {
                    placeholders_differ(specs[i].env@, s.env@);
                }
            } else {
                assert(out[i] == before[i]);
                assert(out[j] == before[j]);
            }
        }
    }
}

/// Where the plaintext of a key is mounted.
pub open spec fn mounted_at(
    secrets_dir: Seq<char>,
    secret: Seq<char>,
    key: Seq<char>,
) -> Seq<char> {
    paths::joined(paths::joined(secrets_dir, secret), key)
}

/// Where the plaintext of a key is mounted.
pub fn secret_path(secrets_dir: &str, secret: &str, key: &str) -> (out: String)
    ensures
        out@ == mounted_at(secrets_dir@, secret@, key@),
        out@ == paths::joined(paths::joined(secrets_dir@, secret@), key@),
{
    let dir = paths::join(secrets_dir, secret);
    paths::join(dir.as_str(), key)
}

/// The value that a mounted file holds: without its trailing newlines, so that what
/// is substituted is exactly the secret.
pub fn secret_value(raw: &str) -> (out: String)
    ensures
        out@ == text::trim_end_of(raw@, '\n'),
{
    text::trim_end_matches(raw, '\n')
}

/// The hosts of a secret, as the specification writes them.
pub open spec fn host_texts(ps: Seq<HostPatternView>) -> Seq<Seq<char>> {
    Seq::new(ps.len(), |i: int| pattern_text(ps[i]))
}

fn write_pattern(p: &HostPattern) -> (out: String)
    ensures
        out@ == pattern_text(p@),
{
    match p {
        HostPattern::Exact(h) => h.clone(),
        HostPattern::Wildcard(s) => "*.".to_owned().concat(s.as_str()),
    }
}

/// Whether a resolved secret, as the runtime takes it, is this one.
pub open spec fn is_resolved(out: ResolvedSecret, entry: SecretEntry) -> bool {
    &&& out.env@ == entry@.env_var
    &&& out.value@ == entry@.value
    &&& out.placeholder@ == entry@.placeholder
    &&& collections::views(out.allowed_hosts@) == host_texts(entry@.allowed_hosts)
}

/// A resolved secret as the runtime takes it.
pub fn to_resolved(entry: &SecretEntry) -> (out: ResolvedSecret)
    ensures
        is_resolved(out, *entry),
        out.env@ == entry@.env_var,
        out.value@ == entry@.value,
        out.placeholder@ == entry@.placeholder,
        collections::views(out.allowed_hosts@) == host_texts(entry@.allowed_hosts),
{
    let mut hosts: Vec<String> = Vec::new();
    let ghost all = host_texts(entry@.allowed_hosts);
    let mut i: usize = 0;
    assert(collections::views(hosts@) =~= all.take(0));
    while i < entry.allowed_hosts.len()
        invariant
            i <= entry.allowed_hosts.len(),
            all == host_texts(entry@.allowed_hosts),
            hosts.len() == i,
            collections::views(hosts@) == all.take(i as int),
        decreases entry.allowed_hosts.len() - i,
    {
        let ghost before = hosts@;
        hosts.push(write_pattern(&entry.allowed_hosts[i]));
        proof {
            collections::grown(before, hosts@, all);
        }
        i = i + 1;
    }
    assert(all.take(i as int) =~= all);
    ResolvedSecret {
        env: entry.env_var.clone(),
        value: entry.value.clone(),
        placeholder: entry.placeholder.clone(),
        allowed_hosts: hosts,
    }
}

/// Every key that a secret refers to is fetched: of the Secret that it names.
pub proof fn every_referenced_key_is_fetched(specs: Seq<sandbox::SecretEntry>, i: int)
    requires
        0 <= i < specs.len(),
    ensures
        first_occurrences(key_refs(specs)).contains(
            (
                specs[i].value_from.secret_key_ref.name@,
                specs[i].value_from.secret_key_ref.key@,
            ),
        ),
{
    let refs = key_refs(specs);
    first_occurrences_are_distinct(refs);
    assert(refs[i] == key_ref(specs[i]));
    assert(refs.to_set().contains(refs[i]));
    assert(first_occurrences(refs).to_set().contains(refs[i]));
}

/// Whether an entry can be resolved: no earlier one has its variable, its plaintext was
/// fetched, and each of its hosts stands for something.
pub open spec fn resolvable(
    specs: Seq<sandbox::SecretEntry>,
    resolved: Seq<Plaintext>,
    i: int,
) -> bool {
    &&& forall|j: int| 0 <= j < i ==> (#[trigger] specs[j]).env@ != specs[i].env@
    &&& exists|k: int|
        0 <= k < resolved.len() && (#[trigger] resolved[k]).secret@
            == specs[i].value_from.secret_key_ref.name@ && resolved[k].key@
            == specs[i].value_from.secret_key_ref.key@
    &&& forall|h: int|
        0 <= h < specs[i].allowed_hosts@.len() ==> pattern_of(
            (#[trigger] specs[i].allowed_hosts@[h])@,
        ) is Some
}

/// A plaintext is found exactly where it is listed.
proof fn a_listed_plaintext_is_found(resolved: Seq<Plaintext>, secret: Seq<char>, key: Seq<char>)
    ensures
        plaintext_of(resolved, secret, key) is Some <==> exists|k: int|
            0 <= k < resolved.len() && (#[trigger] resolved[k]).secret@ == secret && resolved[k].key@
                == key,
    decreases resolved.len(),
{
    if resolved.len() > 0 {
        let rest = resolved.drop_first();
        a_listed_plaintext_is_found(rest, secret, key);
        if resolved[0].secret@ == secret && resolved[0].key@ == key {
            assert(resolved[0].secret@ == secret);
        } else {
            if plaintext_of(rest, secret, key) is Some {
                let k = choose|k: int|
                    0 <= k < rest.len() && (#[trigger] rest[k]).secret@ == secret && rest[k].key@
                        == key;
                assert(resolved[k + 1].secret@ == secret);
            }
            if exists|k: int|
                0 <= k < resolved.len() && (#[trigger] resolved[k]).secret@ == secret
                    && resolved[k].key@ == key {
                let k = choose|k: int|
                    0 <= k < resolved.len() && (#[trigger] resolved[k]).secret@ == secret
                        && resolved[k].key@ == key;
                assert(rest[k - 1].secret@ == secret);
            }
        }
    }
}

/// Patterns are read exactly where each host stands for one.
proof fn patterns_are_read_where_all_stand(env: Seq<char>, hosts: Seq<Seq<char>>, n: int)
    requires
        0 <= n <= hosts.len(),
    ensures
        patterns_of(env, hosts, n) is Ok <==> forall|h: int|
            0 <= h < n ==> pattern_of(#[trigger] hosts[h]) is Some,
    decreases n,
{
    if n > 0 {
        patterns_are_read_where_all_stand(env, hosts, n - 1);
        if patterns_of(env, hosts, n) is Err && patterns_of(env, hosts, n - 1) is Ok {
            assert(pattern_of(hosts[n - 1]) is None);
        }
    }
}

/// The secrets of a specification are resolved exactly where each can be; and where one
/// cannot, none is.
pub proof fn a_resolution_succeeds_where_each_entry_does(
    specs: Seq<sandbox::SecretEntry>,
    resolved: Seq<Plaintext>,
    n: int,
)
    requires
        0 <= n <= specs.len(),
    ensures
        entries_outcome(specs, resolved, n) is Ok <==> forall|i: int|
            #![trigger specs[i]]
            0 <= i < n ==> resolvable(specs, resolved, i),
    decreases n,
{
    if n > 0 {
        let s = specs[n - 1];
        let hosts = collections::views(s.allowed_hosts@);
        a_resolution_succeeds_where_each_entry_does(specs, resolved, n - 1);
        a_listed_plaintext_is_found(
            resolved,
            s.value_from.secret_key_ref.name@,
            s.value_from.secret_key_ref.key@,
        );
        patterns_are_read_where_all_stand(s.env@, hosts, hosts.len() as int);
        assert(entry_outcome(specs, resolved, n - 1) is Ok <==> resolvable(
            specs,
            resolved,
            n - 1,
        )) by {
            if forall|h: int| 0 <= h < hosts.len() ==> pattern_of(#[trigger] hosts[h]) is Some {
                assert forall|h: int| 0 <= h < s.allowed_hosts@.len() implies pattern_of(
                    (#[trigger] s.allowed_hosts@[h])@,
                ) is Some by {
                    assert(hosts[h] == s.allowed_hosts@[h]@);
                }
            }
            if resolvable(specs, resolved, n - 1) {
                assert forall|h: int| 0 <= h < hosts.len() implies pattern_of(
                    #[trigger] hosts[h],
                ) is Some by {
                    assert(hosts[h] == s.allowed_hosts@[h]@);
                }
            }
        }
        assert(specs[n - 1] == s);
    }
}

/// A placeholder is ASCII, and holds nothing that would end a line or a string.
pub proof fn a_placeholder_is_ascii(env_var: Seq<char>, c: char)
    requires
        placeholder_of(env_var).contains(c),
    ensures
        0 < c as u32 <= 127,
        c as u32 != 10,
        c as u32 != 13,
{
    reveal_strlit("msb_secret_");
    reveal_strlit("msb_secret%");
    escaped_name_fits(env_var);
    let p = placeholder_of(env_var);
    let i = choose|i: int| 0 <= i < p.len() && p[i] == c;
    let head = if fits_placeholder(env_var) {
        "msb_secret_"@
    } else {
        "msb_secret%"@
    };
    let rest = if fits_placeholder(env_var) {
        env_var
    } else {
        escaped_name(env_var)
    };
    assert(head.len() == 11);
    if i < 11 {
        assert(c == head[i]);
        assert(forall|k: int| 0 <= k < 11 ==> placeholder_char(#[trigger] head[k]));
    } else {
        assert(c == rest[i - 11]);
    }
    assert(placeholder_char(c));
}

} // verus!
