//! Configuration resolution: host, port and interpreter overrides with fixed
//! defaults, and the target URL derived from them.

use vstd::prelude::*;
use vstd::string::StrSliceExecFns;
use vstd::string::StringExecFns;

verus! {

/// Port used when no valid port override is given.
pub const DEFAULT_PORT: u16 = 5000;

pub open spec fn is_digit_char(c: char) -> bool {
    '0' <= c && c <= '9'
}

pub open spec fn digit_value(c: char) -> int {
    c as int - '0' as int
}

/// Numeric value of a sequence of decimal digits, most significant first.
pub open spec fn digits_value(s: Seq<char>) -> int
    decreases s.len(),
{
    if s.len() == 0 {
        0
    } else {
        digits_value(s.drop_last()) * 10 + digit_value(s.last())
    }
}

pub open spec fn all_digits(s: Seq<char>) -> bool {
    forall|i: int| 0 <= i < s.len() ==> is_digit_char(#[trigger] s[i])
}

/// The digit portion of a port override: the whole string, or the rest of it
/// after an optional leading '+' sign.
pub open spec fn digits_of(s: Seq<char>) -> Seq<char> {
    if s.len() > 0 && s[0] == '+' {
        s.subrange(1, s.len() as int)
    } else {
        s
    }
}

/// How a port override parses: a non-empty digit string (after an optional
/// leading '+') whose value fits in sixteen bits, and nothing else.
pub open spec fn spec_parse_port(s: Seq<char>) -> Option<u16> {
    let d = digits_of(s);
    if d.len() > 0 && all_digits(d) && digits_value(d) <= 65535 {
        Some(digits_value(d) as u16)
    } else {
        None
    }
}

/// The port the configuration resolves to: a parseable override wins,
/// anything else falls back to the default.
pub open spec fn spec_resolved_port(over: Option<Seq<char>>) -> u16 {
    match over {
        Some(s) => match spec_parse_port(s) {
            Some(p) => p,
            None => DEFAULT_PORT,
        },
        None => DEFAULT_PORT,
    }
}

proof fn lemma_digits_value_nonneg(s: Seq<char>)
    requires
        all_digits(s),
    ensures
        digits_value(s) >= 0,
    decreases s.len(),
{
    if s.len() > 0 {
        assert(all_digits(s.drop_last())) by {
            assert(forall|i: int|
                0 <= i < s.len() - 1 ==> #[trigger] s.drop_last()[i] == s[i]);
        }
        lemma_digits_value_nonneg(s.drop_last());
    }
}

/// The value of a digit string is at least the value of any of its prefixes.
proof fn lemma_digits_value_prefix(s: Seq<char>, k: int)
    requires
        all_digits(s),
        0 <= k <= s.len(),
    ensures
        digits_value(s.subrange(0, k)) <= digits_value(s),
    decreases s.len() - k,
{
    if k == s.len() {
        assert(s.subrange(0, k) =~= s);
    } else {
        let shorter = s.subrange(0, k);
        let longer = s.subrange(0, k + 1);
        assert(longer.drop_last() =~= shorter);
        assert(all_digits(shorter)) by {
            assert(forall|i: int| 0 <= i < k ==> #[trigger] shorter[i] == s[i]);
        }
        lemma_digits_value_nonneg(shorter);
        assert(is_digit_char(s[k]));
        assert(digits_value(longer) == digits_value(shorter) * 10 + digit_value(longer.last()));
        assert(digits_value(shorter) <= digits_value(longer));
        lemma_digits_value_prefix(s, k + 1);
    }
}

/// Parses a port override exactly as `spec_parse_port` describes, returning
/// `None` for anything that is not an in-range decimal number.
#[verifier::loop_isolation(false)]
pub fn parse_port(s: &str) -> (r: Option<u16>)
    ensures
        r == spec_parse_port(s@),
{
    let n = s.unicode_len();
    let start: usize = if n > 0 && s.get_char(0) == '+' {
        1
    } else {
        0
    };
    let ghost d = digits_of(s@);
    proof {
        assert(d =~= s@.subrange(start as int, n as int));
    }
    if start == n {
        return None;
    }
    let mut acc: u32 = 0;
    let mut i: usize = start;
    while i < n
        invariant
            start <= i <= n,
            acc <= 65535,
            all_digits(s@.subrange(start as int, i as int)),
            acc == digits_value(s@.subrange(start as int, i as int)),
        decreases n - i,
    {
        let c = s.get_char(i);
        let v = c as u32;
        if v < 48 || v > 57 {
            proof {
                assert(d[i - start] == s@[i as int]);
                assert(!is_digit_char(d[i - start]));
            }
            return None;
        }
        let ghost prefix = s@.subrange(start as int, i as int);
        let ghost extended = s@.subrange(start as int, i + 1 as int);
        proof {
            assert(extended.drop_last() =~= prefix);
            assert(extended.last() == s@[i as int]);
            assert(is_digit_char(s@[i as int]));
            assert(digit_value(s@[i as int]) == v - 48);
            assert(all_digits(extended));
        }
        acc = acc * 10 + (v - 48);
        if acc > 65535 {
            proof {
                if all_digits(d) {
                    assert(extended =~= d.subrange(0, i + 1 - start as int));
                    lemma_digits_value_prefix(d, i + 1 - start as int);
                    assert(digits_value(d) > 65535);
                }
            }
            return None;
        }
        i += 1;
    }
    proof {
        assert(s@.subrange(start as int, n as int) =~= d);
        lemma_digits_value_nonneg(d);
    }
    Some(acc as u16)
}

/// Resolves the port override: a parseable value is taken, an absent or
/// malformed one silently falls back to the default.
pub fn resolved_port(over: Option<&str>) -> (p: u16)
    ensures
        over matches Some(s) ==> p == spec_resolved_port(Some(s@)),
        over is None ==> p == DEFAULT_PORT,
{
    match over {
        Some(s) => match parse_port(s) {
            Some(p) => p,
            None => DEFAULT_PORT,
        },
        None => DEFAULT_PORT,
    }
}

/// The digit character for one decimal digit.
pub open spec fn dec_digit(d: int) -> char {
    if d == 0 {
        '0'
    } else if d == 1 {
        '1'
    } else if d == 2 {
        '2'
    } else if d == 3 {
        '3'
    } else if d == 4 {
        '4'
    } else if d == 5 {
        '5'
    } else if d == 6 {
        '6'
    } else if d == 7 {
        '7'
    } else if d == 8 {
        '8'
    } else {
        '9'
    }
}

/// Decimal rendering of a non-negative integer, without sign or padding.
pub open spec fn dec_str(n: int) -> Seq<char>
    recommends
        n >= 0,
    decreases n,
{
    if n < 10 {
        seq![dec_digit(n)]
    } else {
        dec_str(n / 10).push(dec_digit(n % 10))
    }
}

fn digit_literal(d: u8) -> (r: &'static str)
    requires
        d < 10,
    ensures
        r@ == seq![dec_digit(d as int)],
{
    if d == 0 {
        proof {
            reveal_strlit("0");
            assert("0"@ =~= seq![dec_digit(0)]);
        }
        "0"
    } else if d == 1 {
        proof {
            reveal_strlit("1");
            assert("1"@ =~= seq![dec_digit(1)]);
        }
        "1"
    } else if d == 2 {
        proof {
            reveal_strlit("2");
            assert("2"@ =~= seq![dec_digit(2)]);
        }
        "2"
    } else if d == 3 {
        proof {
            reveal_strlit("3");
            assert("3"@ =~= seq![dec_digit(3)]);
        }
        "3"
    } else if d == 4 {
        proof {
            reveal_strlit("4");
            assert("4"@ =~= seq![dec_digit(4)]);
        }
        "4"
    } else if d == 5 {
        proof {
            reveal_strlit("5");
            assert("5"@ =~= seq![dec_digit(5)]);
        }
        "5"
    } else if d == 6 {
        proof {
            reveal_strlit("6");
            assert("6"@ =~= seq![dec_digit(6)]);
        }
        "6"
    } else if d == 7 {
        proof {
            reveal_strlit("7");
            assert("7"@ =~= seq![dec_digit(7)]);
        }
        "7"
    } else if d == 8 {
        proof {
            reveal_strlit("8");
            assert("8"@ =~= seq![dec_digit(8)]);
        }
        "8"
    } else {
        proof {
            reveal_strlit("9");
            assert("9"@ =~= seq![dec_digit(9)]);
        }
        "9"
    }
}

/// Renders a port number in decimal.
pub fn u16_to_string(n: u16) -> (r: String)
    ensures
        r@ == dec_str(n as int),
    decreases n,
{
    if n < 10 {
        digit_literal(n as u8).to_owned()
    } else {
        let mut prefix = u16_to_string(n / 10);
        prefix.append(digit_literal((n % 10) as u8));
        proof {
            assert(prefix@ =~= dec_str(n as int));
        }
        prefix
    }
}

/// The target URL derived from a host and a port.
pub open spec fn spec_url(host: Seq<char>, port: u16) -> Seq<char> {
    "http://"@ + host + ":"@ + dec_str(port as int) + "/"@
}

/// Builds the target URL `http://<host>:<port>/`.
pub fn make_target_url(host: &str, port: u16) -> (r: String)
    ensures
        r@ == spec_url(host@, port),
{
    let mut url = "http://".to_owned();
    url.append(host);
    url.append(":");
    let rendered = u16_to_string(port);
    url.append(rendered.as_str());
    url.append("/");
    proof {
        assert(url@ =~= spec_url(host@, port));
    }
    url
}

/// Resolves the host override, defaulting to the loopback name.
pub fn resolved_host(over: Option<String>) -> (h: String)
    ensures
        over matches Some(s) ==> h@ == s@,
        over is None ==> h@ == "127.0.0.1"@,
{
    match over {
        Some(h) => h,
        None => "127.0.0.1".to_owned(),
    }
}

/// Resolves the interpreter override, defaulting to a Python 3 interpreter
/// found on the search path.
pub fn resolved_interpreter(over: Option<String>) -> (p: String)
    ensures
        over matches Some(s) ==> p@ == s@,
        over is None ==> p@ == "python3"@,
{
    match over {
        Some(p) => p,
        None => "python3".to_owned(),
    }
}

/// The immutable server configuration: host, port, and the URL derived from
/// them once at startup.
pub struct ServerConfig {
    pub host: String,
    pub port: u16,
    pub target_url: String,
}

impl ServerConfig {
    /// The target URL is exactly `http://<host>:<port>/`.
    pub open spec fn wf(&self) -> bool {
        self.target_url@ == spec_url(self.host@, self.port)
    }

    /// Builds the configuration from an already-resolved host and port.
    pub fn new(host: String, port: u16) -> (cfg: ServerConfig)
        ensures
            cfg.wf(),
            cfg.host@ == host@,
            cfg.port == port,
    {
        let target_url = make_target_url(host.as_str(), port);
        ServerConfig { host, port, target_url }
    }

    /// The URL the embedded view should load; never fails.
    pub fn get_backend_url(&self) -> (r: String)
        ensures
            r@ == self.target_url@,
    {
        self.target_url.clone()
    }

    /// The URL of the health endpoint probed for readiness.
    pub fn health_url(&self) -> (r: String)
        ensures
            r@ == self.target_url@ + "health"@,
    {
        let mut url = self.target_url.clone();
        url.append("health");
        url
    }
}

} // verus!
