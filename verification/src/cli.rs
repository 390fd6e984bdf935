//! The command-line tool's own computations: which tracks `play` plays and
//! on which output, the progress line, the redacted stream URL, and the
//! ALSA card lines worth showing.
use vstd::prelude::*;

use crate::settings::{output_view, OutputConfig, OutputView};
use crate::text::{
    after_first, before_first, chars_of, debug_quoted, find_infix, pad2, push_pad2, push_str,
    str_debug, string_from_chars,
};

verus! {

// ---------------------------------------------------------------------------
// Durations.

/// Minutes and seconds, each at least two digits (minutes are not wrapped
/// into hours).
pub open spec fn clock_text(ms: u64) -> Seq<char> {
    let s = ms / 1000;
    pad2((s / 60) as nat) + seq![':'] + pad2((s % 60) as nat)
}

pub fn clock(ms: u64) -> (r: String)
    ensures
        r@ == clock_text(ms),
{
    let s = ms / 1000;
    let mut v: Vec<char> = Vec::new();
    push_pad2(s / 60, &mut v);
    v.push(':');
    push_pad2(s % 60, &mut v);
    assert(v@ =~= clock_text(ms));
    string_from_chars(&v)
}

/// The progress line while playing: position and length, or dashes for an
/// unknown length.
pub open spec fn progress_text(position_ms: u64, duration_ms: Option<u64>) -> Seq<char> {
    "  "@ + clock_text(position_ms) + " / "@ + match duration_ms {
        Some(d) => clock_text(d),
        None => "--:--"@,
    }
}

pub fn progress_line(position_ms: u64, duration_ms: Option<u64>) -> (r: String)
    ensures
        r@ == progress_text(position_ms, duration_ms),
{
    let mut v: Vec<char> = Vec::new();
    push_str("  ", &mut v);
    let p = clock(position_ms);
    push_str(p.as_str(), &mut v);
    push_str(" / ", &mut v);
    match duration_ms {
        Some(d) => {
            let t = clock(d);
            push_str(t.as_str(), &mut v);
        },
        None => push_str("--:--", &mut v),
    }
    string_from_chars(&v)
}

// ---------------------------------------------------------------------------
// What `play` plays, and where.

/// What the one-result search of `play --search` found.
#[derive(Debug, Clone)]
pub struct SearchPick {
    pub query: String,
    pub first: Option<u64>,
}

/// The tracks `play` queues: the search's first result, or the ids given;
/// an empty search or no ids at all is an error.
pub open spec fn play_ids_spec(track_ids: Seq<u64>, search: Option<(Seq<char>, Option<u64>)>) -> Result<
    Seq<u64>,
    Seq<char>,
> {
    match search {
        Some((q, first)) => match first {
            Some(id) => Ok(seq![id]),
            None => Err("no results for "@ + str_debug(q)),
        },
        None => if track_ids.len() == 0 {
            Err("give at least one track id, or --search"@)
        } else {
            Ok(track_ids)
        },
    }
}

pub open spec fn pick_view(p: Option<SearchPick>) -> Option<(Seq<char>, Option<u64>)> {
    match p {
        Some(s) => Some((s.query@, s.first)),
        None => None,
    }
}

pub fn play_ids(track_ids: Vec<u64>, search: Option<SearchPick>) -> (r: Result<Vec<u64>, String>)
    ensures
        match r {
            Ok(v) => play_ids_spec(track_ids@, pick_view(search)) == Ok::<Seq<u64>, Seq<char>>(v@),
            Err(e) => play_ids_spec(track_ids@, pick_view(search)) == Err::<Seq<u64>, Seq<char>>(
                e@,
            ),
        },
{
    match search {
        Some(pick) => match pick.first {
            Some(id) => {
                let mut v: Vec<u64> = Vec::new();
                v.push(id);
                assert(v@ =~= seq![id]);
                Ok(v)
            },
            None => {
                let q = debug_quoted(pick.query.as_str());
                let mut m: Vec<char> = Vec::new();
                push_str("no results for ", &mut m);
                push_str(q.as_str(), &mut m);
                Err(string_from_chars(&m))
            },
        },
        None => if track_ids.len() == 0 {
            Err(crate::text::owned("give at least one track id, or --search"))
        } else {
            Ok(track_ids)
        },
    }
}

/// The output `play` uses: the device held exclusively with `--exclusive`
/// (which needs a device), else the shared output on the device, if any.
pub fn play_output(device: Option<String>, exclusive: bool) -> (r: OutputConfig)
    requires
        exclusive ==> device is Some,
    ensures
        output_view(r) == if exclusive {
            OutputView::Exclusive { device: device.unwrap()@ }
        } else {
            OutputView::Shared { device: crate::format::opt_chars(device) }
        },
{
    match device {
        Some(d) => if exclusive {
            OutputConfig::Exclusive { device: d }
        } else {
            OutputConfig::Shared { device: Some(d) }
        },
        None => OutputConfig::Shared { device: None },
    }
}

// ---------------------------------------------------------------------------
// The redacted stream URL.

/// How many UTF-8 bytes a character takes.
pub open spec fn utf8_width(c: char) -> nat {
    if (c as u32) < 0x80 {
        1
    } else if (c as u32) < 0x800 {
        2
    } else if (c as u32) < 0x10000 {
        3
    } else {
        4
    }
}

/// How many UTF-8 bytes a text takes.
pub open spec fn utf8_len(s: Seq<char>) -> nat
    decreases s.len(),
{
    if s.len() == 0 {
        0
    } else {
        utf8_len(s.drop_last()) + utf8_width(s.last())
    }
}

/// Byte `n` of `s` falls between two characters.
pub open spec fn on_boundary(s: Seq<char>, n: nat) -> bool {
    exists|k: int| 0 <= k <= s.len() && #[trigger] utf8_len(s.subrange(0, k)) == n
}

/// The characters of `s` that fill its first `n` bytes.
pub open spec fn byte_prefix(s: Seq<char>, n: nat) -> Seq<char> {
    s.subrange(0, choose|k: int| 0 <= k <= s.len() && #[trigger] utf8_len(s.subrange(0, k)) == n)
}

proof fn lemma_prefix_lengths_grow(s: Seq<char>, a: int, b: int)
    requires
        0 <= a < b <= s.len(),
    ensures
        utf8_len(s.subrange(0, a)) < utf8_len(s.subrange(0, b)),
    decreases b - a,
{
    let t = s.subrange(0, b);
    assert(t.drop_last() =~= s.subrange(0, b - 1));
    if a < b - 1 {
        lemma_prefix_lengths_grow(s, a, b - 1);
    }
}

/// The path part as shown: a leading slash and the path, cut after 40
/// bytes with an ellipsis.
pub open spec fn shown_path(path: Seq<char>) -> Seq<char> {
    let p = seq!['/'] + path;
    if utf8_len(p) > 40 {
        byte_prefix(p, 40).push('…')
    } else {
        p
    }
}

/// The part of a URL after its scheme, up to any further `://`.
pub open spec fn url_rest(u: Seq<char>) -> Option<Seq<char>> {
    match crate::text::first_at(u, "://"@) {
        Some(i) => Some(before_first(u.subrange(i + 3, u.len() as int), "://"@)),
        None => None,
    }
}

/// A URL's host and its path without the query, as `url_host_and_path`
/// reads them; `None` without a scheme separator.
pub open spec fn host_and_path_spec(u: Seq<char>) -> Option<(Seq<char>, Seq<char>)> {
    match url_rest(u) {
        Some(rest) => {
            let hostpath = before_first(rest, seq!['?']);
            Some((before_first(hostpath, seq!['/']), after_first(hostpath, seq!['/'])))
        },
        None => None,
    }
}

/// Cutting the shown path after 40 bytes lands between characters.
pub open spec fn path_cut_ok(u: Seq<char>) -> bool {
    match host_and_path_spec(u) {
        Some((_, path)) => utf8_len(seq!['/'] + path) > 40 ==> on_boundary(seq!['/'] + path, 40),
        None => true,
    }
}

fn width(c: char) -> (r: usize)
    ensures
        r == utf8_width(c),
{
    let cp = c as u32;
    if cp < 0x80 {
        1
    } else if cp < 0x800 {
        2
    } else if cp < 0x10000 {
        3
    } else {
        4
    }
}

/// Whether `s` takes more than `n` bytes.
fn longer_than(s: &Vec<char>, n: usize) -> (r: bool)
    requires
        n < usize::MAX - 4,
    ensures
        r == (utf8_len(s@) > n),
{
    let mut i: usize = 0;
    let mut bytes: usize = 0;
    while i < s.len()
        invariant
            i <= s@.len(),
            n < usize::MAX - 4,
            bytes == utf8_len(s@.subrange(0, i as int)),
            bytes <= n,
        decreases s.len() - i,
    {
        proof {
            let t = s@.subrange(0, i + 1);
            assert(t.drop_last() =~= s@.subrange(0, i as int));
        }
        bytes = bytes + width(s[i]);
        i = i + 1;
        if bytes > n {
            proof {
                if i < s@.len() {
                    lemma_prefix_lengths_grow(s@, i as int, s@.len() as int);
                }
                assert(s@.subrange(0, s@.len() as int) =~= s@);
            }
            return true;
        }
    }
    assert(s@.subrange(0, s@.len() as int) =~= s@);
    false
}

/// The characters filling exactly the first `n` bytes of `s`, when byte
/// `n` falls between characters.
fn take_bytes(s: &Vec<char>, n: usize) -> (r: Vec<char>)
    requires
        on_boundary(s@, n as nat),
        n < usize::MAX - 4,
    ensures
        r@ == byte_prefix(s@, n as nat),
{
    let ghost k0 = choose|k: int| 0 <= k <= s@.len() && #[trigger] utf8_len(s@.subrange(0, k))
        == n;
    let len = s.len();
    let mut out: Vec<char> = Vec::new();
    let mut i: usize = 0;
    let mut bytes: usize = 0;
    assert(s@.subrange(0, 0) =~= Seq::<char>::empty());
    while bytes < n
        invariant
            len == s@.len(),
            0 <= k0 <= s@.len(),
            utf8_len(s@.subrange(0, k0)) == n,
            n < usize::MAX - 4,
            i <= k0,
            bytes == utf8_len(s@.subrange(0, i as int)),
            bytes <= n,
            out@ == s@.subrange(0, i as int),
        decreases k0 - i,
    {
        proof {
            if k0 <= i {
                assert(k0 == i);
            }
            let t = s@.subrange(0, i + 1);
            assert(t.drop_last() =~= s@.subrange(0, i as int));
            if i + 1 < k0 {
                lemma_prefix_lengths_grow(s@, i + 1, k0);
            }
        }
        assert(i < k0);
        bytes = bytes + width(s[i]);
        out.push(s[i]);
        i = i + 1;
        assert(out@ =~= s@.subrange(0, i as int));
    }
    proof {
        if i < k0 {
            lemma_prefix_lengths_grow(s@, i as int, k0);
        }
        let k = choose|k: int| 0 <= k <= s@.len() && #[trigger] utf8_len(s@.subrange(0, k)) == n;
        if k < i {
            lemma_prefix_lengths_grow(s@, k, i as int);
        } else if i < k {
            lemma_prefix_lengths_grow(s@, i as int, k);
        }
    }
    out
}

fn sub_chars(v: &Vec<char>, from: usize, to: usize) -> (r: Vec<char>)
    requires
        from <= to <= v@.len(),
    ensures
        r@ == v@.subrange(from as int, to as int),
{
    let mut out: Vec<char> = Vec::new();
    let mut i: usize = from;
    while i < to
        invariant
            from <= i <= to,
            to <= v@.len(),
            out@ == v@.subrange(from as int, i as int),
        decreases to - i,
    {
        out.push(v[i]);
        i = i + 1;
        assert(out@ =~= v@.subrange(from as int, i as int));
    }
    out
}

fn before_vec(v: &Vec<char>, pat: &Vec<char>) -> (r: Vec<char>)
    ensures
        r@ == before_first(v@, pat@),
{
    match find_infix(v, pat) {
        Some(i) => sub_chars(v, 0, i),
        None => sub_chars(v, 0, v.len()),
    }
}

fn after_vec(v: &Vec<char>, pat: &Vec<char>) -> (r: Vec<char>)
    ensures
        r@ == after_first(v@, pat@),
{
    match find_infix(v, pat) {
        Some(i) => {
            let n = v.len();
            sub_chars(v, i + pat.len(), n)
        },
        None => Vec::new(),
    }
}

/// A URL's host and its path (without the query), the path shown with a
/// leading slash and cut after 40 bytes; `None` without a scheme.
pub fn url_host_and_path(u: &str) -> (r: Option<(String, String)>)
    requires
        path_cut_ok(u@),
    ensures
        match r {
            Some((host, path)) => host_and_path_spec(u@) matches Some((h, p)) && host@ == h
                && path@ == shown_path(p),
            None => host_and_path_spec(u@) is None,
        },
{
    let v = chars_of(u);
    let sep = chars_of("://");
    assert(sep@ == "://"@);
    assert("://"@.len() == 3) by {
        reveal_strlit("://");
    }
    let i = match find_infix(&v, &sep) {
        Some(i) => i,
        None => return None,
    };
    let n = v.len();
    let tail = sub_chars(&v, i + 3, n);
    let rest = before_vec(&tail, &sep);
    let mut q: Vec<char> = Vec::new();
    q.push('?');
    let hostpath = before_vec(&rest, &q);
    let mut slash: Vec<char> = Vec::new();
    slash.push('/');
    let host = before_vec(&hostpath, &slash);
    let path = after_vec(&hostpath, &slash);
    let mut p: Vec<char> = Vec::new();
    p.push('/');
    let mut i2: usize = 0;
    while i2 < path.len()
        invariant
            i2 <= path@.len(),
            p@ == seq!['/'] + path@.subrange(0, i2 as int),
        decreases path.len() - i2,
    {
        p.push(path[i2]);
        i2 = i2 + 1;
        assert(p@ =~= seq!['/'] + path@.subrange(0, i2 as int));
    }
    assert(path@.subrange(0, path@.len() as int) =~= path@);
    assert(q@ =~= seq!['?']);
    assert(slash@ =~= seq!['/']);
    let shown = if longer_than(&p, 40) {
        let mut cut = take_bytes(&p, 40);
        cut.push('…');
        cut
    } else {
        p
    };
    Some((string_from_chars(&host), string_from_chars(&shown)))
}

/// A direct stream URL with its signature left out.
pub open spec fn redacted(u: Seq<char>) -> Seq<char> {
    match host_and_path_spec(u) {
        Some((h, p)) => "https://"@ + h + shown_path(p) + "?<signed>"@,
        None => "<url>"@,
    }
}

pub fn redact_url(u: &str) -> (r: String)
    requires
        path_cut_ok(u@),
    ensures
        r@ == redacted(u@),
{
    match url_host_and_path(u) {
        Some((host, path)) => {
            let mut v: Vec<char> = Vec::new();
            push_str("https://", &mut v);
            push_str(host.as_str(), &mut v);
            push_str(path.as_str(), &mut v);
            push_str("?<signed>", &mut v);
            string_from_chars(&v)
        },
        None => crate::text::owned("<url>"),
    }
}

} // verus!
