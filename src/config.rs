use vstd::prelude::*;
use vstd::string::StringExecFns;

use crate::errors::Error;
use crate::text::{all_digits, digits_value, is_digit, parse_decimal, string_of, trim, trimmed};
use crate::utils::chars_of;

verus! {

/// The server's settings, as given on the command line.
#[derive(Debug)]
pub struct Args {
    /// Where the tileset files are.
    pub directory: String,
    pub port: u16,
    /// Host names that requests may address ("*" for all, ".domain" for
    /// a domain's subdomains).
    pub allowed_hosts: Vec<String>,
    /// Custom headers as given, each "name: value".
    pub header: Vec<String>,
    /// The custom headers that were well formed.
    pub headers: Vec<(String, String)>,
    pub disable_preview: bool,
    pub allow_reload_api: bool,
    pub allow_reload_signal: bool,
    /// How often to reload, as given (such as "1h30m").
    pub reload_interval: Option<String>,
    /// The reload period in seconds.
    pub reload_period: Option<u64>,
    pub disable_watcher: bool,
}

/// Whether the only colon of `h` stands at `i`.
pub open spec fn single_colon_at(h: Seq<char>, i: int) -> bool {
    &&& 0 <= i < h.len()
    &&& h[i] == ':'
    &&& forall|j: int| 0 <= j < h.len() && j != i ==> h[j] != ':'
}

/// The (name, value) pair of a custom header written "name: value": exactly
/// one colon, and neither side empty once trimmed.
pub open spec fn header_pair(h: Seq<char>) -> Option<(Seq<char>, Seq<char>)> {
    if exists|i: int| single_colon_at(h, i) {
        let i = choose|i: int| single_colon_at(h, i);
        let k = trimmed(h.subrange(0, i));
        let v = trimmed(h.subrange(i + 1, h.len() as int));
        if k.len() > 0 && v.len() > 0 {
            Some((k, v))
        } else {
            None
        }
    } else {
        None
    }
}

/// The well-formed pairs among custom headers, in order.
pub open spec fn header_pairs(hs: Seq<String>) -> Seq<(Seq<char>, Seq<char>)>
    decreases hs.len(),
{
    if hs.len() == 0 {
        Seq::empty()
    } else {
        let rest = header_pairs(hs.drop_last());
        match header_pair(hs.last()@) {
            Some(p) => rest.push(p),
            None => rest,
        }
    }
}

pub open spec fn pair_views(v: Seq<(String, String)>) -> Seq<(Seq<char>, Seq<char>)> {
    v.map_values(|p: (String, String)| (p.0@, p.1@))
}

/// Reads a custom header written "name: value"; a header without exactly
/// one colon, or with an empty name or value, gives nothing.
pub fn parse_header(header: &str) -> (r: Option<(String, String)>)
    ensures
        r matches Some(p) ==> header_pair(header@) == Some((p.0@, p.1@)),
        r is None ==> header_pair(header@) is None,
{
    let h = chars_of(header);
    let mut colons: usize = 0;
    let mut at: usize = 0;
    let mut i: usize = 0;
    while i < h.len()
        invariant
            h@ == header@,
            0 <= i <= h@.len(),
            colons <= i,
            colons == 0 ==> forall|j: int| 0 <= j < i ==> h@[j] != ':',
            colons >= 1 ==> at < i && h@[at as int] == ':',
            colons == 1 ==> forall|j: int| 0 <= j < i && j != at ==> h@[j] != ':',
            colons >= 2 ==> exists|j: int| 0 <= j < i && j != at && h@[j] == ':',
        decreases h@.len() - i,
    {
        if h[i] == ':' {
            if colons == 0 {
                at = i;
            }
            colons = colons + 1;
        }
        i = i + 1;
    }
    if colons != 1 {
        return None;
    }
    assert(single_colon_at(header@, at as int));
    proof {
        let c = choose|i: int| single_colon_at(header@, i);
        assert(c == at);
    }
    let k = trim(string_of(&h, 0, at).as_str());
    let v = trim(string_of(&h, at + 1, h.len()).as_str());
    if k.as_str().is_empty() || v.as_str().is_empty() {
        None
    } else {
        Some((k, v))
    }
}

/// Seconds in one unit of a duration: s, m, h or d.
pub open spec fn unit_seconds(c: char) -> Option<nat> {
    if c == 's' {
        Some(1)
    } else if c == 'm' {
        Some(60)
    } else if c == 'h' {
        Some(3600)
    } else if c == 'd' {
        Some(86400)
    } else {
        None
    }
}

/// How many digits open `s`.
pub open spec fn digit_prefix(s: Seq<char>) -> nat
    decreases s.len(),
{
    if s.len() > 0 && is_digit(s[0]) {
        1 + digit_prefix(s.drop_first())
    } else {
        0
    }
}

/// The seconds that a run of `<integer><unit>` pairs adds up to; the empty
/// run adds up to zero.
pub open spec fn pairs_seconds(s: Seq<char>) -> Option<nat>
    decreases s.len(),
{
    if s.len() == 0 {
        Some(0)
    } else {
        let k = digit_prefix(s) as int;
        if k == 0 || k >= s.len() {
            None
        } else {
            match unit_seconds(s[k]) {
                None => None,
                Some(u) => match pairs_seconds(s.subrange(k + 1, s.len() as int)) {
                    Some(t) => Some(digits_value(s.subrange(0, k)) * u + t),
                    None => None,
                },
            }
        }
    }
}

/// The seconds that a duration such as "1h30m" stands for: one or more
/// `<integer><unit>` pairs, summed.
pub open spec fn duration_seconds(s: Seq<char>) -> Option<nat> {
    if s.len() == 0 {
        None
    } else {
        pairs_seconds(s)
    }
}

proof fn lemma_digit_prefix(s: Seq<char>, k: int)
    requires
        0 <= k <= s.len(),
        forall|j: int| 0 <= j < k ==> is_digit(#[trigger] s[j]),
        k == s.len() || !is_digit(s[k]),
    ensures
        digit_prefix(s) == k,
    decreases k,
{
    if k > 0 {
        lemma_digit_prefix(s.drop_first(), k - 1);
    }
}

proof fn lemma_pairs_bound(s: Seq<char>)
    requires
        pairs_seconds(s) is Some,
        s.len() > 0,
    ensures
        pairs_seconds(s)->0 >= digits_value(s.subrange(0, digit_prefix(s) as int)),
{
    let k = digit_prefix(s) as int;
    let u = unit_seconds(s[k])->0;
    let d = digits_value(s.subrange(0, k));
    assert(d * u >= d) by (nonlinear_arith)
        requires
            u >= 1,
    ;
}

/// Reads a duration such as "1h30m" or "2d" into seconds. Anything else, or
/// a total beyond 64 bits, is a `Config` error.
pub fn parse_duration(text: &str) -> (r: Result<u64, Error>)
    ensures
        r matches Ok(v) ==> duration_seconds(text@) == Some(v as nat),
        r is Err ==> (duration_seconds(text@) is None || duration_seconds(text@)->0 > u64::MAX),
        r matches Err(e) ==> e is Config,
{
    let s = chars_of(text);
    let n = s.len();
    if n == 0 {
        return Err(Error::Config("Invalid duration: ".to_owned().concat(text)));
    }
    let mut acc: u64 = 0;
    let mut i: usize = 0;
    assert(s@.subrange(0, n as int) =~= s@);
    while i < n
        invariant
            s@ == text@,
            n == s@.len(),
            0 <= i <= n,
            s@.len() > 0,
            match pairs_seconds(s@.subrange(i as int, n as int)) {
                Some(t) => pairs_seconds(s@) == Some((acc + t) as nat),
                None => pairs_seconds(s@) is None,
            },
        decreases n - i,
    {
        let ghost rest = s@.subrange(i as int, n as int);
        let mut j: usize = i;
        while j < n && '0' <= s[j] && s[j] <= '9'
            invariant
                i <= j <= n,
                n == s@.len(),
                forall|m: int| i <= m < j ==> is_digit(#[trigger] s@[m]),
            decreases n - j,
        {
            j = j + 1;
        }
        proof {
            assert forall|m: int| 0 <= m < j - i implies is_digit(#[trigger] rest[m]) by {
                assert(rest[m] == s@[i + m]);
            }
            if j < n {
                assert(rest[j - i] == s@[j as int]);
            }
            lemma_digit_prefix(rest, j - i);
        }
        if j == i || j == n {
            return Err(Error::Config("Invalid duration: ".to_owned().concat(text)));
        }
        let c = s[j];
        let unit: u64 = if c == 's' {
            1
        } else if c == 'm' {
            60
        } else if c == 'h' {
            3600
        } else if c == 'd' {
            86400
        } else {
            return Err(Error::Config("Invalid duration: ".to_owned().concat(text)));
        };
        assert(rest[j - i] == c);
        assert(rest.subrange(0, j - i) =~= s@.subrange(i as int, j as int));
        assert(rest.subrange(j - i + 1, rest.len() as int) =~= s@.subrange(j + 1, n as int));
        let ghost tail = pairs_seconds(s@.subrange(j + 1, n as int));
        let count = parse_decimal(&s, i, j);
        let total = match count {
            Some(v) => match v.checked_mul(unit) {
                Some(t) => acc.checked_add(t),
                None => None,
            },
            None => None,
        };
        match total {
            Some(t) => {
                acc = t;
            },
            None => {
                proof {
                    if pairs_seconds(s@) is Some {
                        lemma_pairs_bound(rest);
                        assert(all_digits(s@.subrange(i as int, j as int)));
                        assert(digits_value(s@.subrange(i as int, j as int)) * unit as nat >= 0)
                            by (nonlinear_arith);
                    }
                }
                return Err(Error::Config("Invalid duration: ".to_owned().concat(text)));
            },
        }
        i = j + 1;
    }
    assert(s@.subrange(n as int, n as int) =~= Seq::<char>::empty());
    Ok(acc)
}

impl Args {
    /// The settings when nothing but the directory is given: port 3000,
    /// hosts localhost, 127.0.0.1 and [::1], no custom header, preview and
    /// watcher on, reloads by API or signal off, no reload period.
    pub fn new(directory: String) -> (r: Args)
        ensures
            r.directory == directory,
            r.port == 3000,
            r.allowed_hosts@.len() == 3,
            r.allowed_hosts@[0]@ == "localhost"@,
            r.allowed_hosts@[1]@ == "127.0.0.1"@,
            r.allowed_hosts@[2]@ == "[::1]"@,
            r.header@.len() == 0,
            r.headers@.len() == 0,
            !r.disable_preview,
            !r.allow_reload_api,
            !r.allow_reload_signal,
            r.reload_interval is None,
            r.reload_period is None,
            !r.disable_watcher,
    {
        let mut hosts: Vec<String> = Vec::new();
        hosts.push("localhost".to_owned());
        hosts.push("127.0.0.1".to_owned());
        hosts.push("[::1]".to_owned());
        Args {
            directory,
            port: 3000,
            allowed_hosts: hosts,
            header: Vec::new(),
            headers: Vec::new(),
            disable_preview: false,
            allow_reload_api: false,
            allow_reload_signal: false,
            reload_interval: None,
            reload_period: None,
            disable_watcher: false,
        }
    }

    /// Completes the settings once the command line is read: a missing tiles
    /// directory is a `Config` error, each allowed host is trimmed, each
    /// well-formed custom header joins `headers` (the others are left out),
    /// and the reload interval, if given, is read into seconds (a malformed
    /// one is a `Config` error).
    pub fn post_parse(self, directory_exists: bool) -> (r: Result<Args, Error>)
        ensures
            !directory_exists ==> (r matches Err(e) && e matches Error::Config(m) && m@
                == "Directory does not exists: "@ + self.directory@),
            directory_exists ==> (r is Ok <==> (self.reload_interval matches Some(t) ==> (
            duration_seconds(t@) is Some && duration_seconds(t@)->0 <= u64::MAX))),
            r matches Err(e) ==> e is Config,
            r matches Ok(a) ==> {
                &&& a.directory == self.directory
                &&& a.port == self.port
                &&& a.header == self.header
                &&& a.disable_preview == self.disable_preview
                &&& a.allow_reload_api == self.allow_reload_api
                &&& a.allow_reload_signal == self.allow_reload_signal
                &&& a.disable_watcher == self.disable_watcher
                &&& a.reload_interval == self.reload_interval
                &&& a.allowed_hosts@.len() == self.allowed_hosts@.len()
                &&& forall|i: int|
                    0 <= i < a.allowed_hosts@.len() ==> #[trigger] a.allowed_hosts@[i]@ == trimmed(
                        self.allowed_hosts@[i]@,
                    )
                &&& pair_views(a.headers@) == pair_views(self.headers@) + header_pairs(
                    self.header@,
                )
                &&& a.reload_period == match self.reload_interval {
                    Some(t) => Some(duration_seconds(t@)->0 as u64),
                    None => None,
                }
            },
    {
        if !directory_exists {
            return Err(
                Error::Config("Directory does not exists: ".to_owned().concat(self.directory.as_str())),
            );
        }
        let reload_period = match &self.reload_interval {
            Some(t) => match parse_duration(t.as_str()) {
                Ok(v) => Some(v),
                Err(e) => {
                    return Err(e);
                },
            },
            None => None,
        };
        let mut allowed_hosts: Vec<String> = Vec::new();
        let mut i: usize = 0;
        while i < self.allowed_hosts.len()
            invariant
                0 <= i <= self.allowed_hosts@.len(),
                allowed_hosts@.len() == i,
                forall|j: int|
                    0 <= j < i ==> #[trigger] allowed_hosts@[j]@ == trimmed(self.allowed_hosts@[j]@),
            decreases self.allowed_hosts@.len() - i,
        {
            allowed_hosts.push(trim(self.allowed_hosts[i].as_str()));
            i = i + 1;
        }
        let mut headers = self.headers;
        let ghost given = headers@;
        let mut i: usize = 0;
        while i < self.header.len()
            invariant
                0 <= i <= self.header@.len(),
                pair_views(headers@) == pair_views(given) + header_pairs(
                    self.header@.subrange(0, i as int),
                ),
            decreases self.header@.len() - i,
        {
            let ghost before = headers@;
            assert(self.header@.subrange(0, i + 1).drop_last() =~= self.header@.subrange(
                0,
                i as int,
            ));
            match parse_header(self.header[i].as_str()) {
                Some(pair) => {
                    headers.push(pair);
                    assert(pair_views(headers@) =~= pair_views(before).push(
                        (headers@.last().0@, headers@.last().1@),
                    ));
                },
                None => {},
            }
            i = i + 1;
        }
        assert(self.header@.subrange(0, self.header@.len() as int) =~= self.header@);
        Ok(
            Args {
                directory: self.directory,
                port: self.port,
                allowed_hosts,
                header: self.header,
                headers,
                disable_preview: self.disable_preview,
                allow_reload_api: self.allow_reload_api,
                allow_reload_signal: self.allow_reload_signal,
                reload_interval: self.reload_interval,
                reload_period,
                disable_watcher: self.disable_watcher,
            },
        )
    }
}

} // verus!
