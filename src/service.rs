use vstd::prelude::*;

use vstd::string::StringExecFns;
use vstd::utf8::encode_utf8;

use crate::text::{all_digits, decimal_u64, parse_decimal, string_of};
use crate::config::Args;
use crate::registry::{lookup, Registry};
use crate::tiles::{TileMeta, TileSummaryJSON};
use crate::utils::{
    blank_png, chars_of, encode, format_of_name, get_blank_image, gzip_of, mime_type, short_name,
    DataFormat,
};

verus! {

pub open spec fn is_letter(c: char) -> bool {
    ('a' <= c <= 'z') || ('A' <= c <= 'Z')
}

pub open spec fn all_letters(s: Seq<char>) -> bool {
    forall|i: int| 0 <= i < s.len() ==> is_letter(#[trigger] s[i])
}

pub open spec fn ends_with(s: Seq<char>, suffix: Seq<char>) -> bool {
    suffix.len() <= s.len() && s.subrange(s.len() - suffix.len(), s.len() as int) == suffix
}

/// Whether an allowed-host entry admits a host name: "*" admits every host,
/// an entry that starts with a dot admits the names that end with it (the
/// subdomains of that domain), any other entry admits itself alone.
pub open spec fn allowed_by(pattern: Seq<char>, host: Seq<char>) -> bool {
    if pattern == "*"@ {
        true
    } else if pattern.len() > 0 && pattern[0] == '.' {
        ends_with(host, pattern)
    } else {
        host == pattern
    }
}

/// Whether `k` is where the port part of a Host header value starts (or its
/// end, when it names no port). A bracketed IPv6 address keeps its colons.
pub open spec fn port_start(h: Seq<char>, k: int) -> bool {
    &&& 0 <= k <= h.len()
    &&& if h.len() > 0 && h[0] == '[' {
        (k == h.len() && forall|j: int| 0 <= j < h.len() ==> h[j] != ']') || (0 < k && h[k - 1]
            == ']' && forall|j: int| 0 <= j < k - 1 ==> h[j] != ']')
    } else {
        (k == h.len() || h[k] == ':') && forall|j: int| 0 <= j < k ==> h[j] != ':'
    }
}

/// The wildcard entry admits every host.
pub proof fn law_wildcard_admits_all(host: Seq<char>)
    ensures
        allowed_by("*"@, host),
{
}

/// An entry ".domain" admits every subdomain "name.domain" but not the bare
/// "domain"; an entry without a leading dot or a wildcard admits exactly
/// itself.
pub proof fn law_domain_entries(domain: Seq<char>, name: Seq<char>, host: Seq<char>)
    ensures
        allowed_by(seq!['.'] + domain, name + seq!['.'] + domain),
        !allowed_by(seq!['.'] + domain, domain),
        host.len() > 0 && host[0] != '.' && host != "*"@ ==> allowed_by(host, host),
{
    reveal_strlit("*");
    let p = seq!['.'] + domain;
    let h = name + seq!['.'] + domain;
    assert(p[0] == '.');
    assert(p != "*"@);
    assert(h.subrange(h.len() - p.len(), h.len() as int) =~= p);
}

/// Whether the allowed-host entry `pattern` admits `host`.
pub fn is_allowed(pattern: &str, host: &str) -> (r: bool)
    ensures
        r == allowed_by(pattern@, host@),
{
    let p = chars_of(pattern);
    let h = chars_of(host);
    if crate::utils::chars_eq(&p, "*") {
        return true;
    }
    if p.len() > 0 && p[0] == '.' {
        if p.len() > h.len() {
            return false;
        }
        let off = h.len() - p.len();
        let mut i: usize = 0;
        while i < p.len()
            invariant
                p@ == pattern@,
                h@ == host@,
                pattern@ != "*"@,
                p@.len() > 0 && p@[0] == '.',
                off + p@.len() == h@.len(),
                h@.len() == h.len(),
                0 <= i <= p@.len(),
                forall|j: int| 0 <= j < i ==> h@[off + j] == p@[j],
            decreases p@.len() - i,
        {
            if h[off + i] != p[i] {
                assert(h@.subrange(off as int, h@.len() as int)[i as int] != p@[i as int]);
                return false;
            }
            i = i + 1;
        }
        assert(h@.subrange(off as int, h@.len() as int) =~= p@);
        true
    } else {
        crate::utils::chars_eq(&h, pattern)
    }
}

/// The host name of a Host header value: what stands before its port.
pub open spec fn host_of(h: Seq<char>) -> Seq<char> {
    h.subrange(0, choose|k: int| port_start(h, k))
}

proof fn lemma_port_start_unique(h: Seq<char>, k1: int, k2: int)
    requires
        port_start(h, k1),
        port_start(h, k2),
    ensures
        k1 == k2,
{
    if k1 < k2 {
        if h.len() > 0 && h[0] == '[' {
            assert(h[k1 - 1] == ']');
        } else {
            assert(h[k1] == ':');
        }
    } else if k2 < k1 {
        if h.len() > 0 && h[0] == '[' {
            assert(h[k2 - 1] == ']');
        } else {
            assert(h[k2] == ':');
        }
    }
}

proof fn lemma_host_of(h: Seq<char>, k: int)
    requires
        port_start(h, k),
    ensures
        host_of(h) == h.subrange(0, k),
{
    let c = choose|k: int| port_start(h, k);
    lemma_port_start_unique(h, k, c);
}

/// The host name of a Host header value, without its port.
pub fn host_name(host: &str) -> (r: String)
    ensures
        r@ == host_of(host@),
{
    let h = chars_of(host);
    let bracketed = h.len() > 0 && h[0] == '[';
    let mut k: usize = 0;
    while k < h.len()
        invariant
            h@ == host@,
            bracketed == (h@.len() > 0 && h@[0] == '['),
            0 <= k <= h@.len(),
            bracketed ==> forall|j: int| 0 <= j < k ==> h@[j] != ']',
            !bracketed ==> forall|j: int| 0 <= j < k ==> h@[j] != ':',
        decreases h@.len() - k,
    {
        if bracketed && h[k] == ']' {
            proof {
                lemma_host_of(host@, k + 1);
            }
            return string_of(&h, 0, k + 1);
        }
        if !bracketed && h[k] == ':' {
            proof {
                lemma_host_of(host@, k as int);
            }
            return string_of(&h, 0, k);
        }
        k = k + 1;
    }
    proof {
        lemma_host_of(host@, k as int);
    }
    string_of(&h, 0, k)
}

/// Whether some entry of the allowed list admits the host of a Host header.
pub fn host_allowed(allowed_hosts: &Vec<String>, host: &str) -> (r: bool)
    ensures
        r == exists|i: int|
            0 <= i < allowed_hosts@.len() && allowed_by(
                #[trigger] allowed_hosts@[i]@,
                host_of(host@),
            ),
{
    let name = host_name(host);
    let mut i: usize = 0;
    while i < allowed_hosts.len()
        invariant
            0 <= i <= allowed_hosts@.len(),
            name@ == host_of(host@),
            forall|j: int| 0 <= j < i ==> !allowed_by(#[trigger] allowed_hosts@[j]@, name@),
        decreases allowed_hosts@.len() - i,
    {
        if is_allowed(allowed_hosts[i].as_str(), name.as_str()) {
            return true;
        }
        i = i + 1;
    }
    false
}

/// The row that a tile of zoom `z` and URL row `y` has in the database,
/// which counts rows from the bottom: `(1 << z) - 1 - y`, when `y` is a
/// row of that zoom level.
pub open spec fn flipped_y(z: u32, y: u32) -> Option<u32> {
    if z < 32 && (y as u64) < (1u64 << z) {
        Some(((1u64 << z) - 1 - y) as u32)
    } else {
        None
    }
}

/// Turns a URL row into a database row; none for a row outside the zoom level.
pub fn flip_y(z: u32, y: u32) -> (r: Option<u32>)
    ensures
        r == flipped_y(z, y),
{
    if z >= 32 {
        return None;
    }
    let n: u64 = 1u64 << z;
    if (y as u64) < n {
        Some((n - 1 - y as u64) as u32)
    } else {
        None
    }
}

/// A tile URL path: "/services/" + tileset + "/tiles/" + z + "/" + x + "/"
/// + y + "." + format, with an optional trailing slash.
pub open spec fn tile_url_text(
    tp: Seq<char>,
    zs: Seq<char>,
    xs: Seq<char>,
    ys: Seq<char>,
    fs: Seq<char>,
    slash: bool,
) -> Seq<char> {
    "/services/"@ + tp + "/tiles/"@ + zs + seq!['/'] + xs + seq!['/'] + ys + seq!['.'] + fs + (
    if slash {
        seq!['/']
    } else {
        Seq::empty()
    })
}

/// Whether `p` is a tile URL path made of these parts: the coordinates are
/// non-empty runs of digits and the format a non-empty run of ASCII letters.
#[verifier::opaque]
pub open spec fn is_tile_url(
    p: Seq<char>,
    tp: Seq<char>,
    zs: Seq<char>,
    xs: Seq<char>,
    ys: Seq<char>,
    fs: Seq<char>,
    slash: bool,
) -> bool {
    &&& p == tile_url_text(tp, zs, xs, ys, fs, slash)
    &&& zs.len() > 0 && all_digits(zs)
    &&& xs.len() > 0 && all_digits(xs)
    &&& ys.len() > 0 && all_digits(ys)
    &&& fs.len() > 0 && all_letters(fs)
}

/// Where the parts of a tile URL path lie in it.
struct TileUrlSpans {
    tp_end: usize,
    z_start: usize,
    z_end: usize,
    x_end: usize,
    y_end: usize,
    f_end: usize,
}

/// Whether the characters of `lit` stand in `p` from position `at` on.
fn matches_at(p: &Vec<char>, at: usize, lit: &str) -> (r: bool)
    ensures
        r == (at + lit@.len() <= p@.len() && p@.subrange(at as int, at + lit@.len()) == lit@),
{
    let w = chars_of(lit);
    if at > p.len() || w.len() > p.len() - at {
        return false;
    }
    let mut i: usize = 0;
    while i < w.len()
        invariant
            w@ == lit@,
            at + w@.len() <= p@.len(),
            p@.len() <= usize::MAX,
            0 <= i <= w@.len(),
            forall|j: int| 0 <= j < i ==> p@[at + j] == w@[j],
        decreases w@.len() - i,
    {
        if p[at + i] != w[i] {
            assert(p@.subrange(at as int, at + lit@.len())[i as int] != lit@[i as int]);
            return false;
        }
        i = i + 1;
    }
    assert(p@.subrange(at as int, at + lit@.len()) =~= lit@);
    true
}

/// Whether a character belongs to a run of ASCII letters (or of digits).
fn in_run(c: char, letters: bool) -> (r: bool)
    ensures
        r == (if letters {
            is_letter(c)
        } else {
            crate::text::is_digit(c)
        }),
{
    if letters {
        ('a' <= c && c <= 'z') || ('A' <= c && c <= 'Z')
    } else {
        '0' <= c && c <= '9'
    }
}

/// The start of the longest run of ASCII letters (or of digits) that ends
/// at `end`.
fn run_start(p: &Vec<char>, end: usize, letters: bool) -> (r: usize)
    requires
        end <= p@.len(),
    ensures
        r <= end,
        letters ==> all_letters(p@.subrange(r as int, end as int)),
        !letters ==> all_digits(p@.subrange(r as int, end as int)),
        letters ==> forall|j: int| r <= j < end ==> is_letter(#[trigger] p@[j]),
        !letters ==> forall|j: int| r <= j < end ==> crate::text::is_digit(#[trigger] p@[j]),
        r > 0 ==> (letters ==> !is_letter(p@[r - 1])),
        r > 0 ==> (!letters ==> !crate::text::is_digit(p@[r - 1])),
{
    let mut i: usize = end;
    while i > 0 && in_run(p[i - 1], letters)
        invariant
            i <= end <= p@.len(),
            letters ==> forall|j: int| i <= j < end ==> is_letter(#[trigger] p@[j]),
            !letters ==> forall|j: int| i <= j < end ==> crate::text::is_digit(#[trigger] p@[j]),
        decreases i,
    {
        i = i - 1;
    }
    proof {
        if letters {
            assert(all_letters(p@.subrange(i as int, end as int)));
        } else {
            assert(all_digits(p@.subrange(i as int, end as int)));
        }
    }
    i
}

proof fn lemma_tile_url_layout(
    p: Seq<char>,
    tp: Seq<char>,
    zs: Seq<char>,
    xs: Seq<char>,
    ys: Seq<char>,
    fs: Seq<char>,
    slash: bool,
)
    requires
        is_tile_url(p, tp, zs, xs, ys, fs, slash),
    ensures
        ({
            let fe = p.len() - (if slash {
                1int
            } else {
                0int
            });
            let ye = fe - fs.len() - 1;
            let xe = ye - ys.len() - 1;
            let ze = xe - xs.len() - 1;
            let zst = ze - zs.len();
            &&& 17 <= zst
            &&& zst - 7 == 10 + tp.len()
            &&& fs.len() > 0 && ys.len() > 0 && xs.len() > 0 && zs.len() > 0
            &&& p.len() > 0
            &&& slash ==> p[p.len() - 1] == '/'
            &&& !slash ==> is_letter(p[p.len() - 1])
            &&& forall|j: int| fe - fs.len() <= j < fe ==> is_letter(#[trigger] p[j])
            &&& p[ye] == '.'
            &&& forall|j: int| ye - ys.len() <= j < ye ==> crate::text::is_digit(#[trigger] p[j])
            &&& p[xe] == '/'
            &&& forall|j: int| xe - xs.len() <= j < xe ==> crate::text::is_digit(#[trigger] p[j])
            &&& p[ze] == '/'
            &&& forall|j: int| zst <= j < ze ==> crate::text::is_digit(#[trigger] p[j])
            &&& p[zst - 1] == '/'
            &&& p.subrange(zst - 7, zst) == "/tiles/"@
            &&& p.subrange(0, 10) == "/services/"@
            &&& fs == p.subrange(fe - fs.len(), fe)
            &&& ys == p.subrange(ye - ys.len(), ye)
            &&& xs == p.subrange(xe - xs.len(), xe)
            &&& zs == p.subrange(zst, ze)
            &&& tp == p.subrange(10, zst - 7)
        }),
{
    reveal(is_tile_url);
    reveal_strlit("/tiles/");
    reveal_strlit("/services/");
    let fe = p.len() - (if slash {
        1int
    } else {
        0int
    });
    let ye = fe - fs.len() - 1;
    let xe = ye - ys.len() - 1;
    let ze = xe - xs.len() - 1;
    let zst = ze - zs.len();
    assert forall|j: int| fe - fs.len() <= j < fe implies is_letter(#[trigger] p[j]) by {
        assert(p[j] == fs[j - (fe - fs.len())]);
    }
    assert forall|j: int| ye - ys.len() <= j < ye implies crate::text::is_digit(#[trigger] p[j]) by {
        assert(p[j] == ys[j - (ye - ys.len())]);
    }
    assert forall|j: int| xe - xs.len() <= j < xe implies crate::text::is_digit(#[trigger] p[j]) by {
        assert(p[j] == xs[j - (xe - xs.len())]);
    }
    assert forall|j: int| zst <= j < ze implies crate::text::is_digit(#[trigger] p[j]) by {
        assert(p[j] == zs[j - zst]);
    }
    if !slash {
        assert(p[p.len() - 1] == fs[fs.len() - 1]);
    }
    assert(p.subrange(zst - 7, zst) =~= "/tiles/"@);
    assert(p.subrange(0, 10) =~= "/services/"@);
    assert(fs =~= p.subrange(fe - fs.len(), fe));
    assert(ys =~= p.subrange(ye - ys.len(), ye));
    assert(xs =~= p.subrange(xe - xs.len(), xe));
    assert(zs =~= p.subrange(zst, ze));
    assert(tp =~= p.subrange(10, zst - 7));
}

/// A tile URL path splits into its parts in one way only.
proof fn lemma_tile_url_unique(
    p: Seq<char>,
    tp: Seq<char>,
    zs: Seq<char>,
    xs: Seq<char>,
    ys: Seq<char>,
    fs: Seq<char>,
    sl: bool,
    tp2: Seq<char>,
    zs2: Seq<char>,
    xs2: Seq<char>,
    ys2: Seq<char>,
    fs2: Seq<char>,
    sl2: bool,
)
    requires
        is_tile_url(p, tp, zs, xs, ys, fs, sl),
        is_tile_url(p, tp2, zs2, xs2, ys2, fs2, sl2),
    ensures
        tp == tp2 && zs == zs2 && xs == xs2 && ys == ys2 && fs == fs2 && sl == sl2,
{
    lemma_tile_url_layout(p, tp, zs, xs, ys, fs, sl);
    lemma_tile_url_layout(p, tp2, zs2, xs2, ys2, fs2, sl2);
    assert(sl == sl2);
    let fe = p.len() - (if sl {
        1int
    } else {
        0int
    });
    if fs.len() < fs2.len() {
        assert(is_letter(p[fe - fs.len() - 1]));
    }
    if fs2.len() < fs.len() {
        assert(is_letter(p[fe - fs2.len() - 1]));
    }
    let ye = fe - fs.len() - 1;
    if ys.len() < ys2.len() {
        assert(crate::text::is_digit(p[ye - ys.len() - 1]));
    }
    if ys2.len() < ys.len() {
        assert(crate::text::is_digit(p[ye - ys2.len() - 1]));
    }
    let xe = ye - ys.len() - 1;
    if xs.len() < xs2.len() {
        assert(crate::text::is_digit(p[xe - xs.len() - 1]));
    }
    if xs2.len() < xs.len() {
        assert(crate::text::is_digit(p[xe - xs2.len() - 1]));
    }
    let ze = xe - xs.len() - 1;
    if zs.len() < zs2.len() {
        assert(crate::text::is_digit(p[ze - zs.len() - 1]));
    }
    if zs2.len() < zs.len() {
        assert(crate::text::is_digit(p[ze - zs2.len() - 1]));
    }
}

/// Every split of a path that the router sends to a tile read gives that
/// read's coordinates: zoom and column as written, and the database row
/// `(1 << z) - 1 - y` of the written row `y`. Tile and UTF-Grid reads
/// (`dispatch`) both use this row.
pub proof fn law_tile_row_flip(
    p: Seq<char>,
    tileset: Seq<char>,
    z: u32,
    x: u32,
    y: u32,
    format: Seq<char>,
    tp: Seq<char>,
    zs: Seq<char>,
    xs: Seq<char>,
    ys: Seq<char>,
    fs: Seq<char>,
    sl: bool,
)
    requires
        names_tile(p, tileset, z, x, y, format),
        is_tile_url(p, tp, zs, xs, ys, fs, sl),
    ensures
        tileset == tp,
        format == fs,
        coord(zs) == Some(z),
        coord(xs) == Some(x),
        coord(ys) is Some,
        (coord(ys)->0 as u64) < (1u64 << z),
        y == ((1u64 << z) - 1 - coord(ys)->0) as u32,
{
    let (zs1, xs1, ys1, sl1) = choose|zs1: Seq<char>, xs1: Seq<char>, ys1: Seq<char>, sl1: bool|
        #[trigger] is_tile_url(p, tileset, zs1, xs1, ys1, format, sl1) && coord(zs1) == Some(z)
            && coord(xs1) == Some(x) && coord(ys1) is Some && flipped_y(z, coord(ys1)->0) == Some(
            y,
        );
    lemma_tile_url_unique(p, tileset, zs1, xs1, ys1, format, sl1, tp, zs, xs, ys, fs, sl);
}

proof fn lemma_tile_url_parts(p: Seq<char>, tp_end: int, z_end: int, x_end: int, y_end: int, f_end: int)
    requires
        10 <= tp_end,
        tp_end + 7 < z_end,
        z_end + 1 < x_end,
        x_end + 1 < y_end,
        y_end + 1 < f_end <= p.len(),
        f_end == p.len() || (f_end + 1 == p.len() && p[f_end] == '/'),
        p.subrange(0, 10) == "/services/"@,
        p.subrange(tp_end, tp_end + 7) == "/tiles/"@,
        all_digits(p.subrange(tp_end + 7, z_end)),
        p[z_end] == '/',
        all_digits(p.subrange(z_end + 1, x_end)),
        p[x_end] == '/',
        all_digits(p.subrange(x_end + 1, y_end)),
        p[y_end] == '.',
        all_letters(p.subrange(y_end + 1, f_end)),
    ensures
        is_tile_url(
            p,
            p.subrange(10, tp_end),
            p.subrange(tp_end + 7, z_end),
            p.subrange(z_end + 1, x_end),
            p.subrange(x_end + 1, y_end),
            p.subrange(y_end + 1, f_end),
            f_end < p.len(),
        ),
{
    reveal(is_tile_url);
    reveal_strlit("/tiles/");
    reveal_strlit("/services/");
    let tp = p.subrange(10, tp_end);
    let zs = p.subrange(tp_end + 7, z_end);
    let xs = p.subrange(z_end + 1, x_end);
    let ys = p.subrange(x_end + 1, y_end);
    let fs = p.subrange(y_end + 1, f_end);
    assert(zs.len() > 0 && all_digits(zs));
    assert(xs.len() > 0 && all_digits(xs));
    assert(ys.len() > 0 && all_digits(ys));
    assert(fs.len() > 0 && all_letters(fs));
    assert(p =~= tile_url_text(
        p.subrange(10, tp_end),
        p.subrange(tp_end + 7, z_end),
        p.subrange(z_end + 1, x_end),
        p.subrange(x_end + 1, y_end),
        p.subrange(y_end + 1, f_end),
        f_end < p.len(),
    ));
}

/// Finds the parts of a tile URL path, reading it from the end.
#[verifier::rlimit(50)]
fn tile_url_spans(p: &Vec<char>) -> (r: Option<TileUrlSpans>)
    ensures
        r matches Some(s) ==> s.tp_end + 7 == s.z_start && 10 <= s.tp_end && s.z_start < s.z_end
            < s.x_end < s.y_end < s.f_end <= p@.len() && is_tile_url(
            p@,
            p@.subrange(10, s.tp_end as int),
            p@.subrange(s.z_start as int, s.z_end as int),
            p@.subrange(s.z_end + 1, s.x_end as int),
            p@.subrange(s.x_end + 1, s.y_end as int),
            p@.subrange(s.y_end + 1, s.f_end as int),
            s.f_end < p@.len(),
        ),
        r is None ==> forall|tp: Seq<char>, zs: Seq<char>, xs: Seq<char>, ys: Seq<char>, fs: Seq<char>, slash: bool|
            !#[trigger] is_tile_url(p@, tp, zs, xs, ys, fs, slash),
{
    let n = p.len();
    let slash = n > 0 && p[n - 1] == '/';
    let ghost any_url = exists|tp: Seq<char>, zs: Seq<char>, xs: Seq<char>, ys: Seq<char>, fs: Seq<char>, sl: bool|
        #[trigger] is_tile_url(p@, tp, zs, xs, ys, fs, sl);
    let ghost mut tp0 = Seq::<char>::empty();
    let ghost mut zs0 = Seq::<char>::empty();
    let ghost mut xs0 = Seq::<char>::empty();
    let ghost mut ys0 = Seq::<char>::empty();
    let ghost mut fs0 = Seq::<char>::empty();
    let ghost mut sl0 = false;
    proof {
        if any_url {
            let (a, b, c, d, e, f) = choose|tp: Seq<char>, zs: Seq<char>, xs: Seq<char>, ys: Seq<char>, fs: Seq<char>, sl: bool|
                #[trigger] is_tile_url(p@, tp, zs, xs, ys, fs, sl);
            tp0 = a;
            zs0 = b;
            xs0 = c;
            ys0 = d;
            fs0 = e;
            sl0 = f;
            lemma_tile_url_layout(p@, tp0, zs0, xs0, ys0, fs0, sl0);
            assert(sl0 == slash);
        }
    }
    let f_end = if slash {
        n - 1
    } else {
        n
    };
    let ghost fe = f_end as int;
    let f_start = run_start(p, f_end, true);
    proof {
        if any_url {
            let k = fe - fs0.len();
            if f_start < k {
                assert(is_letter(p@[k - 1]));
            }
            if f_start > k {
                assert(is_letter(p@[f_start - 1]));
            }
            assert(f_start == k);
        }
    }
    if f_start == f_end || f_start == 0 || p[f_start - 1] != '.' {
        return None;
    }
    let y_end = f_start - 1;
    let y_start = run_start(p, y_end, false);
    proof {
        if any_url {
            let k = y_end - ys0.len();
            if y_start < k {
                assert(crate::text::is_digit(p@[k - 1]));
            }
            if y_start > k {
                assert(crate::text::is_digit(p@[y_start - 1]));
            }
            assert(y_start == k);
        }
    }
    if y_start == y_end || y_start == 0 || p[y_start - 1] != '/' {
        return None;
    }
    let x_end = y_start - 1;
    let x_start = run_start(p, x_end, false);
    proof {
        if any_url {
            let k = x_end - xs0.len();
            if x_start < k {
                assert(crate::text::is_digit(p@[k - 1]));
            }
            if x_start > k {
                assert(crate::text::is_digit(p@[x_start - 1]));
            }
            assert(x_start == k);
        }
    }
    if x_start == x_end || x_start == 0 || p[x_start - 1] != '/' {
        return None;
    }
    let z_end = x_start - 1;
    let z_start = run_start(p, z_end, false);
    proof {
        if any_url {
            let k = z_end - zs0.len();
            if z_start < k {
                assert(crate::text::is_digit(p@[k - 1]));
            }
            if z_start > k {
                assert(crate::text::is_digit(p@[z_start - 1]));
            }
            assert(z_start == k);
        }
    }
    if z_start == z_end || z_start < 17 {
        return None;
    }
    let tp_end = z_start - 7;
    if !matches_at(p, tp_end, "/tiles/") || !matches_at(p, 0, "/services/") {
        return None;
    }
    proof {
        reveal_strlit("/tiles/");
        reveal_strlit("/services/");
        lemma_tile_url_parts(p@, tp_end as int, z_end as int, x_end as int, y_end as int, f_end as int);
    }
    Some(TileUrlSpans { tp_end, z_start, z_end, x_end, y_end, f_end })
}

/// Where a request path leads.
#[derive(Debug)]
pub enum Route {
    /// Reload the tilesets.
    Reload,
    /// One tile or UTF-Grid; `y` is the database row.
    Tile { tileset: String, z: u32, x: u32, y: u32, format: String },
    /// A tile path whose coordinates are not numbers of the zoom level.
    BadCoordinates,
    /// The list of tilesets.
    List,
    /// The descriptor of one tileset.
    Detail { tileset: String },
    /// The preview page of one tileset.
    Preview { tileset: String },
    /// A file of the preview's assets, relative to the asset root.
    Static { path: String },
    /// Nothing is there.
    NotFound,
}

/// A tile coordinate written in decimal that fits in 32 bits.
pub open spec fn coord(s: Seq<char>) -> Option<u32> {
    match decimal_u64(s) {
        Some(v) => if v <= u32::MAX {
            Some(v as u32)
        } else {
            None
        },
        None => None,
    }
}

pub open spec fn is_any_tile_url(p: Seq<char>) -> bool {
    exists|tp: Seq<char>, zs: Seq<char>, xs: Seq<char>, ys: Seq<char>, fs: Seq<char>, sl: bool|
        #[trigger] is_tile_url(p, tp, zs, xs, ys, fs, sl)
}

/// The tile URL `p` names tile (z, x) of database row `y` of tileset `tp`
/// in format `fs`.
pub open spec fn names_tile(p: Seq<char>, tp: Seq<char>, z: u32, x: u32, y: u32, fs: Seq<char>) -> bool {
    exists|zs: Seq<char>, xs: Seq<char>, ys: Seq<char>, sl: bool|
        #[trigger] is_tile_url(p, tp, zs, xs, ys, fs, sl) && coord(zs) == Some(z) && coord(xs)
            == Some(x) && coord(ys) is Some && flipped_y(z, coord(ys)->0) == Some(y)
}

/// The tile URL `p` has a coordinate that is not a number of its zoom level.
pub open spec fn bad_coordinates(p: Seq<char>) -> bool {
    exists|tp: Seq<char>, zs: Seq<char>, xs: Seq<char>, ys: Seq<char>, fs: Seq<char>, sl: bool|
        #[trigger] is_tile_url(p, tp, zs, xs, ys, fs, sl) && (coord(zs) is None || coord(xs) is None
            || coord(ys) is None || flipped_y(coord(zs)->0, coord(ys)->0) is None)
}

/// What follows "/services/" in a path, without one trailing slash.
pub open spec fn services_rest(p: Seq<char>) -> Option<Seq<char>> {
    if 10 <= p.len() && p.subrange(0, 10) == "/services/"@ {
        let rest = p.subrange(10, p.len() as int);
        Some(
            if rest.len() > 0 && rest.last() == '/' {
                rest.drop_last()
            } else {
                rest
            },
        )
    } else {
        None
    }
}

pub open spec fn has_dot_dot(p: Seq<char>) -> bool {
    exists|i: int| 0 <= i < p.len() - 1 && p[i] == '.' && #[trigger] p[i + 1] == '.'
}

/// A path under the preview's asset tree that does not climb out of it.
pub open spec fn static_path(p: Seq<char>) -> bool {
    8 <= p.len() && p.subrange(0, 8) == "/static/"@ && !has_dot_dot(p)
}

/// Whether `r` is where the request path leads (see `route`).
pub open spec fn route_ok(is_post: bool, path: Seq<char>, allow_reload_api: bool, r: Route) -> bool {
    &&& (r is Reload <==> (is_post && allow_reload_api && path == "/reload"@))
    &&& (!(r is Reload) ==> (is_any_tile_url(path) <==> (r is Tile || r is BadCoordinates)))
    &&& (r matches Route::Tile { tileset, z, x, y, format } ==> names_tile(path, tileset@, z, x, y, format@))
    &&& (r is BadCoordinates ==> bad_coordinates(path))
    &&& (r is List <==> (!(r is Reload) && !is_any_tile_url(path) && (path == "/services"@ || services_rest(path) == Some(Seq::<char>::empty()))))
    &&& (r matches Route::Preview { tileset } ==> services_rest(path) == Some(tileset@ + "/map"@) && tileset@.len() > 0)
    &&& (r matches Route::Detail { tileset } ==> services_rest(path) == Some(tileset@) && !( ends_with(tileset@, "/map"@) && tileset@.len() > 4))
    &&& (r matches Route::Static { path: asset } ==> static_path(path) && asset@ == path.drop_first())
    &&& (r is NotFound ==> !is_any_tile_url(path) && services_rest(path) is None && path != "/services"@ && !static_path(path))
    &&& (!(r is Reload) && !is_any_tile_url(path) && services_rest(path) is Some && services_rest(path)->0.len() > 0 ==> (r is Preview || r is Detail))
    &&& (!(r is Reload) && !is_any_tile_url(path) && services_rest(path) is None && path != "/services"@ && static_path(path) ==> r is Static)
}

/// Decides where a request path leads. "/reload" reloads when the method is
/// POST and the reload API is on. A tile path (see `is_tile_url`) leads to
/// its tile, with the URL row turned into the database row, or to
/// `BadCoordinates`. "/services" lists the tilesets, "/services/<id>/map"
/// is a preview page, "/services/<id>" a descriptor, "/static/..." an asset.
pub fn route(is_post: bool, path: &str, allow_reload_api: bool) -> (r: Route)
    ensures
        route_ok(is_post, path@, allow_reload_api, r),
{
    proof {
        reveal_strlit("/services/");
        reveal_strlit("/services");
        reveal_strlit("/static/");
        reveal_strlit("/map");
    }
    let p = chars_of(path);
    if is_post && allow_reload_api && crate::utils::chars_eq(&p, "/reload") {
        return Route::Reload;
    }
    assert(!(is_post && allow_reload_api && path@ == "/reload"@));
    match tile_url_spans(&p) {
        Some(s) => {
            let ghost zs = p@.subrange(s.z_start as int, s.z_end as int);
            let ghost xs = p@.subrange(s.z_end + 1, s.x_end as int);
            let ghost ys = p@.subrange(s.x_end + 1, s.y_end as int);
            let ghost tp = p@.subrange(10, s.tp_end as int);
            let ghost fs = p@.subrange(s.y_end + 1, s.f_end as int);
            let ghost sl = s.f_end < p@.len();
            assert(is_tile_url(path@, tp, zs, xs, ys, fs, sl));
            let z = parse_decimal(&p, s.z_start, s.z_end);
            let x = parse_decimal(&p, s.z_end + 1, s.x_end);
            let y = parse_decimal(&p, s.x_end + 1, s.y_end);
            match (z, x, y) {
                (Some(z), Some(x), Some(y)) => {
                    if z <= 0xffff_ffff && x <= 0xffff_ffff && y <= 0xffff_ffff {
                        match flip_y(z as u32, y as u32) {
                            Some(row) => {
                                return Route::Tile {
                                    tileset: string_of(&p, 10, s.tp_end),
                                    z: z as u32,
                                    x: x as u32,
                                    y: row,
                                    format: string_of(&p, s.y_end + 1, s.f_end),
                                };
                            },
                            None => {},
                        }
                    }
                },
                _ => {},
            }
            return Route::BadCoordinates;
        },
        None => {},
    }
    let n = p.len();
    if crate::utils::chars_eq(&p, "/services") {
        return Route::List;
    }
    if matches_at(&p, 0, "/services/") {
        let end = if n > 10 && p[n - 1] == '/' {
            n - 1
        } else {
            n
        };
        let ghost d = services_rest(path@)->0;
        assert(d =~= p@.subrange(10, end as int));
        if end == 10 {
            assert(d =~= Seq::<char>::empty());
            return Route::List;
        }
        if end > 14 && matches_at(&p, end - 4, "/map") {
            assert(d =~= p@.subrange(10, end - 4) + "/map"@);
            return Route::Preview { tileset: string_of(&p, 10, end - 4) };
        }
        proof {
            if ends_with(d, "/map"@) && d.len() > 4 {
                assert(p@.subrange(end - 4, end as int) =~= d.subrange(d.len() - 4, d.len() as int));
            }
        }
        return Route::Detail { tileset: string_of(&p, 10, end) };
    }
    if matches_at(&p, 0, "/static/") && !dot_dot(&p) {
        return Route::Static { path: string_of(&p, 1, n) };
    }
    Route::NotFound
}

/// Whether two dots follow each other somewhere in `p`.
fn dot_dot(p: &Vec<char>) -> (r: bool)
    ensures
        r == has_dot_dot(p@),
{
    let mut i: usize = 0;
    while i < p.len() && i + 1 < p.len()
        invariant
            i <= p@.len(),
            forall|j: int| 0 <= j < i && j < p@.len() - 1 ==> !(p@[j] == '.' && #[trigger] p@[j + 1] == '.'),
        decreases p@.len() - i,
    {
        if p[i] == '.' && p[i + 1] == '.' {
            return true;
        }
        i = i + 1;
    }
    false
}

/// A response for the HTTP layer to send.
#[derive(Debug)]
pub struct Response {
    pub status: u16,
    pub content_type: Option<String>,
    /// Whether the body is sent with `Content-Encoding: gzip`.
    pub gzip: bool,
    pub headers: Vec<(String, String)>,
    pub body: Vec<u8>,
}

/// What the handler needs of a request.
#[derive(Debug)]
pub struct Request {
    pub is_post: bool,
    pub path: String,
    pub query: Option<String>,
    pub host: Option<String>,
    pub scheme: Option<String>,
}

/// What the server does for a request: answer at once, or do some work
/// whose result a response builder of this module turns into the answer.
#[derive(Debug)]
pub enum Action {
    Respond(Response),
    /// Reload the tilesets, then answer with `reload_response`.
    Reload,
    /// Send the list as JSON with `json_response`.
    List(Vec<TileSummaryJSON>),
    /// Send the tileset's descriptor, with these URLs, with `json_response`.
    Describe { tileset: String, map: String, tiles: String, grids: Option<String> },
    /// Send the vector or raster preview page with `page_response`.
    Preview { vector: bool },
    /// Send an asset file with `page_response`.
    Static { path: String },
    /// Read a tile and answer with `tile_response`.
    Tile { tileset: String, z: u32, x: u32, y: u32, content_type: String, gzip: bool, vector: bool },
    /// Assemble a UTF-Grid and answer with `grid_response`.
    Grid { tileset: String, z: u32, x: u32, y: u32, grid_format: DataFormat },
}

pub open spec fn has_content_type(r: Response, t: Seq<char>) -> bool {
    r.content_type is Some && r.content_type->0@ == t
}

/// A plain response with a text body and no headers.
pub open spec fn is_text_response(r: Response, status: u16, text: Seq<char>) -> bool {
    &&& r.status == status
    &&& r.body@ == encode_utf8(text)
    &&& r.content_type is None
    &&& !r.gzip
    &&& r.headers@.len() == 0
}

/// The bytes of a text.
fn bytes_of(s: &str) -> (r: Vec<u8>)
    ensures
        r@ == encode_utf8(s@),
{
    vstd::slice::slice_to_vec(s.as_bytes())
}

/// A response with a text body.
pub fn text_response(status: u16, text: &str) -> (r: Response)
    ensures
        is_text_response(r, status, text@),
{
    Response { status, content_type: None, gzip: false, headers: Vec::new(), body: bytes_of(text) }
}

/// 404, "Not Found".
pub fn not_found() -> (r: Response)
    ensures
        is_text_response(r, 404, "Not Found"@),
{
    text_response(404, "Not Found")
}

/// 500, "Internal Server Error".
pub fn server_error() -> (r: Response)
    ensures
        is_text_response(r, 500, "Internal Server Error"@),
{
    text_response(500, "Internal Server Error")
}

/// 400 with a message.
pub fn bad_request(msg: &str) -> (r: Response)
    ensures
        is_text_response(r, 400, msg@),
{
    text_response(400, msg)
}

/// 403, "Forbidden".
pub fn forbidden() -> (r: Response)
    ensures
        is_text_response(r, 403, "Forbidden"@),
{
    text_response(403, "Forbidden")
}

/// 404 for a tileset id that is not registered.
pub fn missing_tileset(tileset: &str) -> (r: Response)
    ensures
        is_text_response(r, 404, "Tileset does not exist: "@ + tileset@),
{
    let msg = "Tileset does not exist: ".to_owned().concat(tileset);
    text_response(404, msg.as_str())
}

/// 200 with a JSON body.
pub fn json_response(body: Vec<u8>) -> (r: Response)
    ensures
        r.status == 200,
        has_content_type(r, "application/json"@),
        !r.gzip,
        r.headers@.len() == 0,
        r.body == body,
{
    Response {
        status: 200,
        content_type: Some("application/json".to_owned()),
        gzip: false,
        headers: Vec::new(),
        body,
    }
}

/// 200 with a page or an asset that was found, 404 for one that was not.
pub fn page_response(body: Option<Vec<u8>>) -> (r: Response)
    ensures
        body is None ==> is_text_response(r, 404, "Not Found"@),
        body matches Some(b) ==> r.status == 200 && r.body == b && r.content_type is None
            && !r.gzip && r.headers@.len() == 0,
{
    match body {
        Some(b) => Response { status: 200, content_type: None, gzip: false, headers: Vec::new(), body: b },
        None => not_found(),
    }
}

/// 200 once a reload has been started.
pub fn reload_response() -> (r: Response)
    ensures
        is_text_response(r, 200, "Reloading tilesets"@),
{
    text_response(200, "Reloading tilesets")
}

/// The answer for a tile read: the blob with its content type (and gzip
/// encoding for vector tiles); for a missing tile, 404 for a vector tileset
/// and a blank PNG for a raster one; 500 when the database failed.
pub fn tile_response(content_type: &str, gzip: bool, vector: bool, read: Result<Option<Vec<u8>>, String>) -> (r: Response)
    ensures
        read is Err ==> is_text_response(r, 500, "Internal Server Error"@),
        read matches Ok(Some(b)) ==> r.status == 200 && r.body == b && has_content_type(
            r,
            content_type@,
        ) && r.gzip == gzip,
        read matches Ok(None) && vector ==> is_text_response(r, 404, "Not Found"@),
        read matches Ok(None) && !vector ==> r.status == 200 && r.body@ == blank_png()
            && has_content_type(r, "image/png"@) && !r.gzip,
        r.headers@.len() == 0,
{
    match read {
        Err(_) => server_error(),
        Ok(Some(b)) => Response {
            status: 200,
            content_type: Some(content_type.to_owned()),
            gzip,
            headers: Vec::new(),
            body: b,
        },
        Ok(None) => if vector {
            not_found()
        } else {
            Response {
                status: 200,
                content_type: Some("image/png".to_owned()),
                gzip: false,
                headers: Vec::new(),
                body: get_blank_image(),
            }
        },
    }
}

/// The answer for a UTF-Grid: its JSON text gzip-encoded, or 404 when it
/// could not be assembled.
pub fn grid_response(json: Option<Vec<u8>>) -> (r: Response)
    ensures
        json is None ==> is_text_response(r, 404, "Not Found"@),
        json matches Some(j) ==> r.status == 200 && r.body@ == gzip_of(j@) && has_content_type(r, "application/json"@) && r.gzip,
        r.headers@.len() == 0,
{
    match json {
        None => not_found(),
        Some(j) => Response {
            status: 200,
            content_type: Some("application/json".to_owned()),
            gzip: true,
            headers: Vec::new(),
            body: encode(j.as_slice()),
        },
    }
}

pub open spec fn header_views(v: Seq<(String, String)>) -> Seq<(Seq<char>, Seq<char>)> {
    v.map_values(|p: (String, String)| (p.0@, p.1@))
}

/// Appends the custom headers to a successful (2xx) response; any other
/// response is left as it is.
pub fn add_headers(resp: &mut Response, headers: &Vec<(String, String)>)
    ensures
        final(resp).status == old(resp).status,
        final(resp).body == old(resp).body,
        final(resp).content_type == old(resp).content_type,
        final(resp).gzip == old(resp).gzip,
        200 <= old(resp).status < 300 ==> header_views(final(resp).headers@) == header_views(
            old(resp).headers@,
        ) + header_views(headers@),
        !(200 <= old(resp).status < 300) ==> final(resp).headers == old(resp).headers,
{
    if resp.status < 200 || resp.status >= 300 {
        return ;
    }
    let ghost start = resp.headers@;
    let mut i: usize = 0;
    while i < headers.len()
        invariant
            0 <= i <= headers@.len(),
            header_views(resp.headers@) == header_views(start) + header_views(
                headers@.subrange(0, i as int),
            ),
            resp.status == old(resp).status,
            resp.body == old(resp).body,
            resp.content_type == old(resp).content_type,
            resp.gzip == old(resp).gzip,
        decreases headers@.len() - i,
    {
        let ghost before = resp.headers@;
        let k = headers[i].0.clone();
        let v = headers[i].1.clone();
        resp.headers.push((k, v));
        assert(header_views(resp.headers@) =~= header_views(before).push((k@, v@)));
        assert(header_views(headers@.subrange(0, i + 1)) =~= header_views(
            headers@.subrange(0, i as int),
        ).push((k@, v@)));
        i = i + 1;
    }
    assert(headers@.subrange(0, headers@.len() as int) =~= headers@);
}

/// The URL under which the tilesets are served: "<scheme>://<host>/services",
/// with "http" when the request names no scheme.
pub open spec fn base_url_of(scheme: Option<String>, host: Seq<char>) -> Seq<char> {
    (match scheme {
        Some(s) => s@,
        None => "http"@,
    }) + "://"@ + host + "/services"@
}

/// The query string to repeat on templated URLs, with its "?".
pub open spec fn query_suffix(query: Option<String>) -> Seq<char> {
    match query {
        Some(q) => "?"@ + q@,
        None => Seq::empty(),
    }
}

/// The list entries of the tilesets: their formats and descriptor URLs, in
/// the registry's order.
pub open spec fn lists(v: Seq<TileSummaryJSON>, s: Seq<TileMeta>, base: Seq<char>) -> bool {
    &&& v.len() == s.len()
    &&& forall|i: int|
        0 <= i < v.len() ==> (#[trigger] v[i]).image_type == s[i].tile_format && v[i].url@ == base
            + "/"@ + s[i].id@
}

pub open spec fn is_response(r: Action, status: u16, text: Seq<char>) -> bool {
    r matches Action::Respond(resp) && is_text_response(resp, status, text)
}

pub open spec fn is_tile_action(
    r: Action,
    tileset: Seq<char>,
    z: u32,
    x: u32,
    y: u32,
    content_type: Seq<char>,
    gzip: bool,
    vector: bool,
) -> bool {
    match r {
        Action::Tile { tileset: t, z: a, x: b, y: c, content_type: ct, gzip: g, vector: v } => t@
            == tileset && a == z && b == x && c == y && ct@ == content_type && g == gzip && v
            == vector,
        _ => false,
    }
}

pub open spec fn is_grid_action(r: Action, tileset: Seq<char>, z: u32, x: u32, y: u32, g: DataFormat) -> bool {
    match r {
        Action::Grid { tileset: t, z: a, x: b, y: c, grid_format } => t@ == tileset && a == z && b
            == x && c == y && grid_format == g,
        _ => false,
    }
}

/// The descriptor URLs of a tileset: its preview page, its tile template and,
/// when it has grids, its UTF-Grid template.
pub open spec fn is_describe_action(r: Action, m: TileMeta, tp: Seq<char>, base: Seq<char>, q: Seq<char>) -> bool {
    match r {
        Action::Describe { tileset, map, tiles, grids } => {
            &&& tileset@ == tp
            &&& map@ == base + "/"@ + tp + "/map"@
            &&& tiles@ == base + "/"@ + tp + "/tiles/{z}/{x}/{y}."@ + short_name(m.tile_format) + q
            &&& match m.grid_format {
                Some(_) => grids matches Some(g) && g@ == base + "/"@ + tp
                    + "/tiles/{z}/{x}/{y}.json"@ + q,
                None => grids is None,
            }
        },
        _ => false,
    }
}

/// What the server does for a route, with the tilesets of `s`.
pub open spec fn dispatch_ok(
    route: Route,
    base: Seq<char>,
    q: Seq<char>,
    s: Seq<TileMeta>,
    disable_preview: bool,
    r: Action,
) -> bool {
    match route {
        Route::Reload => r is Reload,
        Route::BadCoordinates => is_response(r, 400, "Invalid tile coordinates"@),
        Route::NotFound => is_response(r, 404, "Not Found"@),
        Route::Static { path } => r matches Action::Static { path: p } && p == path,
        Route::List => r matches Action::List(v) && lists(v@, s, base),
        Route::Tile { tileset, z, x, y, format } => match lookup(s, tileset@) {
            None => is_response(r, 404, "Tileset does not exist: "@ + tileset@),
            Some(m) => if format@ == "json"@ {
                match m.grid_format {
                    Some(g) => is_grid_action(r, tileset@, z, x, y, g),
                    None => is_response(r, 404, "Not Found"@),
                }
            } else if format@ == "pbf"@ {
                is_tile_action(
                    r,
                    tileset@,
                    z,
                    x,
                    y,
                    mime_type(DataFormat::PBF),
                    true,
                    m.tile_format == DataFormat::PBF,
                )
            } else {
                is_tile_action(
                    r,
                    tileset@,
                    z,
                    x,
                    y,
                    mime_type(format_of_name(format@)),
                    false,
                    m.tile_format == DataFormat::PBF,
                )
            },
        },
        Route::Detail { tileset } => match lookup(s, tileset@) {
            None => is_response(r, 404, "Tileset does not exist: "@ + tileset@),
            Some(m) => is_describe_action(r, m, tileset@, base, q),
        },
        Route::Preview { tileset } => if disable_preview {
            is_response(r, 404, "Not Found"@)
        } else {
            match lookup(s, tileset@) {
                None => is_response(r, 404, "Tileset does not exist: "@ + tileset@),
                Some(m) => r matches Action::Preview { vector } && vector == (m.tile_format
                    == DataFormat::PBF),
            }
        },
    }
}

/// The list entries of all registered tilesets.
pub fn tile_summaries(tilesets: &Registry, base: &str) -> (r: Vec<TileSummaryJSON>)
    ensures
        lists(r@, tilesets@, base@),
{
    let all = tilesets.list();
    let mut out: Vec<TileSummaryJSON> = Vec::new();
    let mut i: usize = 0;
    while i < all.len()
        invariant
            all@ == tilesets@,
            0 <= i <= all@.len(),
            out@.len() == i,
            forall|j: int|
                0 <= j < i ==> (#[trigger] out@[j]).image_type == all@[j].tile_format && out@[j].url@
                    == base@ + "/"@ + all@[j].id@,
        decreases all@.len() - i,
    {
        let url = base.to_owned().concat("/").concat(all[i].id.as_str());
        out.push(TileSummaryJSON { image_type: all[i].tile_format, url });
        i = i + 1;
    }
    out
}

/// Does what a route asks, with the tilesets of one registry snapshot.
pub fn dispatch(route: Route, base: &str, query: &Option<String>, tilesets: &Registry, disable_preview: bool) -> (r: Action)
    ensures
        dispatch_ok(route, base@, query_suffix(*query), tilesets@, disable_preview, r),
{
    let q = match query {
        Some(q) => "?".to_owned().concat(q.as_str()),
        None => String::new(),
    };
    match route {
        Route::Reload => Action::Reload,
        Route::BadCoordinates => Action::Respond(bad_request("Invalid tile coordinates")),
        Route::NotFound => Action::Respond(not_found()),
        Route::Static { path } => Action::Static { path },
        Route::List => Action::List(tile_summaries(tilesets, base)),
        Route::Tile { tileset, z, x, y, format } => match tilesets.get(tileset.as_str()) {
            None => Action::Respond(missing_tileset(tileset.as_str())),
            Some(m) => {
                let f = chars_of(format.as_str());
                let vector = m.tile_format == DataFormat::PBF;
                if crate::utils::chars_eq(&f, "json") {
                    match m.grid_format {
                        Some(g) => Action::Grid { tileset, z, x, y, grid_format: g },
                        None => Action::Respond(not_found()),
                    }
                } else if crate::utils::chars_eq(&f, "pbf") {
                    Action::Tile {
                        tileset,
                        z,
                        x,
                        y,
                        content_type: DataFormat::PBF.content_type().to_owned(),
                        gzip: true,
                        vector,
                    }
                } else {
                    Action::Tile {
                        tileset,
                        z,
                        x,
                        y,
                        content_type: DataFormat::new(format.as_str()).content_type().to_owned(),
                        gzip: false,
                        vector,
                    }
                }
            },
        },
        Route::Detail { tileset } => match tilesets.get(tileset.as_str()) {
            None => Action::Respond(missing_tileset(tileset.as_str())),
            Some(m) => {
                let root = base.to_owned().concat("/").concat(tileset.as_str());
                let map = root.clone().concat("/map");
                let tiles = root.clone().concat("/tiles/{z}/{x}/{y}.").concat(
                    m.tile_format.format(),
                ).concat(q.as_str());
                let grids = match m.grid_format {
                    Some(_) => Some(root.concat("/tiles/{z}/{x}/{y}.json").concat(q.as_str())),
                    None => None,
                };
                Action::Describe { tileset, map, tiles, grids }
            },
        },
        Route::Preview { tileset } => {
            if disable_preview {
                Action::Respond(not_found())
            } else {
                match tilesets.get(tileset.as_str()) {
                    None => Action::Respond(missing_tileset(tileset.as_str())),
                    Some(m) => Action::Preview { vector: m.tile_format == DataFormat::PBF },
                }
            }
        },
    }
}

/// The host that a request names; none counts as empty.
pub open spec fn host_text(host: Option<String>) -> Seq<char> {
    match host {
        Some(h) => h@,
        None => Seq::empty(),
    }
}

/// Whether the allowed-host list admits a Host header value.
pub open spec fn host_ok(allowed_hosts: Seq<String>, host: Seq<char>) -> bool {
    exists|i: int| 0 <= i < allowed_hosts.len() && allowed_by(#[trigger] allowed_hosts[i]@, host_of(host))
}

/// Handles a request with one registry snapshot: a host that the allowed
/// list does not admit is refused with 403; otherwise the path is routed
/// and the route dispatched, with "<scheme>://<host>/services" as the base
/// of the URLs handed out.
pub fn get_service(request: &Request, tilesets: &Registry, args: &Args) -> (r: Action)
    ensures
        !host_ok(args.allowed_hosts@, host_text(request.host)) ==> is_response(r, 403, "Forbidden"@),
        host_ok(args.allowed_hosts@, host_text(request.host)) ==> exists|rt: Route|
            #[trigger] route_ok(request.is_post, request.path@, args.allow_reload_api, rt)
                && dispatch_ok(
                rt,
                base_url_of(request.scheme, host_text(request.host)),
                query_suffix(request.query),
                tilesets@,
                args.disable_preview,
                r,
            ),
{
    let host = match &request.host {
        Some(h) => h.clone(),
        None => String::new(),
    };
    if !host_allowed(&args.allowed_hosts, host.as_str()) {
        return Action::Respond(forbidden());
    }
    let scheme = match &request.scheme {
        Some(s) => s.clone(),
        None => "http".to_owned(),
    };
    let base = scheme.concat("://").concat(host.as_str()).concat("/services");
    let rt = route(request.is_post, request.path.as_str(), args.allow_reload_api);
    let ghost g = rt;
    let r = dispatch(rt, base.as_str(), &request.query, tilesets, args.disable_preview);
    assert(route_ok(request.is_post, request.path@, args.allow_reload_api, g));
    r
}

} // verus!
