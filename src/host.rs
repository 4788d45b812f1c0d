use vstd::prelude::*;
use vstd::string::StrSliceExecFns;
use vstd::string::StringExecFns;

verus! {

/// Default port of a rendezvous server.
pub const RENDEZVOUS_PORT: i32 = 21116;

pub open spec fn is_digit(c: char) -> bool {
    '0' <= c && c <= '9'
}

pub open spec fn digit_value(c: char) -> int {
    (c as u32) as int - ('0' as u32) as int
}

/// The number a run of decimal digits stands for.
pub open spec fn digits_value(s: Seq<char>) -> int
    decreases s.len(),
{
    if s.len() == 0 {
        0
    } else {
        digits_value(s.drop_last()) * 10 + digit_value(s.last())
    }
}

pub open spec fn all_digits(s: Seq<char>) -> bool {
    forall|i: int| 0 <= i < s.len() ==> is_digit(#[trigger] s[i])
}

pub open spec fn has_sign(s: Seq<char>) -> bool {
    s.len() > 0 && (s[0] == '-' || s[0] == '+')
}

/// An optional sign followed by at least one decimal digit, and its value.
pub open spec fn signed_value(s: Seq<char>) -> Option<int> {
    let body = if has_sign(s) {
        s.drop_first()
    } else {
        s
    };
    if body.len() > 0 && all_digits(body) {
        Some(
            if s.len() > 0 && s[0] == '-' {
                -digits_value(body)
            } else {
                digits_value(body)
            },
        )
    } else {
        None
    }
}

/// The text read as a 32-bit signed integer, as Rust's `str::parse::<i32>` reads it.
pub open spec fn parse_i32_spec(s: Seq<char>) -> Option<int> {
    match signed_value(s) {
        Some(v) => if i32::MIN <= v <= i32::MAX {
            Some(v)
        } else {
            None
        },
        None => None,
    }
}

/// The text read as a 16-bit unsigned integer, as Rust's `str::parse::<u16>` reads it.
pub open spec fn parse_u16_spec(s: Seq<char>) -> Option<int> {
    if s.len() > 0 && s[0] == '-' {
        None
    } else {
        match signed_value(s) {
            Some(v) => if 0 <= v <= u16::MAX {
                Some(v)
            } else {
                None
            },
            None => None,
        }
    }
}

proof fn lemma_digits_value_nonneg(s: Seq<char>)
    requires
        all_digits(s),
    ensures
        digits_value(s) >= 0,
    decreases s.len(),
{
    if s.len() > 0 {
        assert(all_digits(s.drop_last()));
        lemma_digits_value_nonneg(s.drop_last());
        assert(is_digit(s[s.len() - 1]));
    }
}

/// Reads an optional sign and decimal digits; `None` unless the value lies in [lo, hi].
fn parse_bounded(s: &str, lo: i64, hi: i64) -> (r: Option<i64>)
    requires
        -0x1_0000_0000 <= lo <= hi <= 0x1_0000_0000,
    ensures
        r == match signed_value(s@) {
            Some(v) => if lo <= v <= hi {
                Some(v as i64)
            } else {
                None
            },
            None => None::<i64>,
        },
{
    let n = s.unicode_len();
    let mut start: usize = 0;
    let mut neg = false;
    if n > 0 {
        let c = s.get_char(0);
        if c == '-' || c == '+' {
            neg = c == '-';
            start = 1;
        }
    }
    let body = s.substring_char(start, n);
    assert(body@ =~= (if has_sign(s@) {
        s@.drop_first()
    } else {
        s@
    }));
    let m = body.unicode_len();
    if m == 0 {
        return None;
    }
    let (v, over) = digits_prefix(body);
    if over {
        return None;
    }
    let v: i64 = if neg {
        -v
    } else {
        v
    };
    if lo <= v && v <= hi {
        Some(v)
    } else {
        None
    }
}

/// Value of a run of digits, or `(_, true)` when it holds another character or
/// exceeds 2^32.
fn digits_prefix(body: &str) -> (r: (i64, bool))
    ensures
        !r.1 ==> all_digits(body@) && r.0 == digits_value(body@) && 0 <= r.0 <= 0x1_0000_0000,
        r.1 ==> !all_digits(body@) || digits_value(body@) > 0x1_0000_0000,
{
    let n = body.unicode_len();
    let cap: i64 = 0x1_0000_0001;
    let mut acc: i64 = 0;
    let mut over = false;
    let mut i: usize = 0;
    while i < n
        invariant
            i <= n,
            n == body@.len(),
            all_digits(body@.subrange(0, i as int)),
            !over ==> acc == digits_value(body@.subrange(0, i as int)),
            !over ==> 0 <= acc < cap,
            over ==> digits_value(body@.subrange(0, i as int)) >= cap,
            cap == 0x1_0000_0001,
        decreases n - i,
    {
        let c = body.get_char(i);
        if !('0' <= c && c <= '9') {
            return (0, true);
        }
        let ghost pre = body@.subrange(0, i as int);
        let ghost next = body@.subrange(0, i + 1);
        assert(next.drop_last() =~= pre);
        assert(all_digits(next));
        proof {
            lemma_digits_value_nonneg(pre);
        }
        let d = (c as u32 - '0' as u32) as i64;
        assert(digits_value(next) == digits_value(pre) * 10 + d);
        if !over {
            if acc >= 429_496_730 {
                assert(digits_value(next) >= cap) by (nonlinear_arith)
                    requires
                        digits_value(next) == acc * 10 + d,
                        acc >= 429_496_730,
                        d >= 0,
                        cap == 0x1_0000_0001,
                ;
                over = true;
            } else {
                acc = acc * 10 + d;
                if acc >= cap {
                    over = true;
                }
            }
        } else {
            let ghost pv = digits_value(pre);
            assert(digits_value(next) >= cap) by (nonlinear_arith)
                requires
                    digits_value(next) == pv * 10 + d,
                    pv >= cap,
                    d >= 0,
                    cap > 0,
            ;
        }
        i = i + 1;
    }
    assert(body@.subrange(0, n as int) =~= body@);
    if over {
        (0, true)
    } else {
        (acc, false)
    }
}

/// `str::parse::<i32>`, proved against its statement.
pub fn parse_i32(s: &str) -> (r: Option<i32>)
    ensures
        match parse_i32_spec(s@) {
            Some(v) => r == Some(v as i32),
            None => r is None,
        },
{
    match parse_bounded(s, i32::MIN as i64, i32::MAX as i64) {
        Some(v) => Some(v as i32),
        None => None,
    }
}

/// `str::parse::<u16>`, proved against its statement.
pub fn parse_u16(s: &str) -> (r: Option<u16>)
    ensures
        match parse_u16_spec(s@) {
            Some(v) => r == Some(v as u16),
            None => r is None,
        },
{
    if s.unicode_len() > 0 && s.get_char(0) == '-' {
        return None;
    }
    match parse_bounded(s, 0, u16::MAX as i64) {
        Some(v) => Some(v as u16),
        None => None,
    }
}

/// Index of the first `c` in `s` at or after `i`, or the length when there is none.
pub open spec fn find_from(s: Seq<char>, c: char, i: int) -> int
    decreases s.len() - i,
{
    if i < 0 || i >= s.len() {
        s.len() as int
    } else if s[i] == c {
        i
    } else {
        find_from(s, c, i + 1)
    }
}

pub(crate) fn find_char(s: &str, c: char, from: usize) -> (r: usize)
    requires
        from <= s@.len(),
    ensures
        r == find_from(s@, c, from as int),
        from <= r <= s@.len(),
{
    let n = s.unicode_len();
    let mut i = from;
    while i < n
        invariant
            from <= i <= n,
            n == s@.len(),
            find_from(s@, c, from as int) == find_from(s@, c, i as int),
        decreases n - i,
    {
        if s.get_char(i) == c {
            return i;
        }
        i = i + 1;
    }
    i
}

/// The leading DNS label of a host, or the whole host when that label is a number.
pub open spec fn host_prefix_spec(host: Seq<char>) -> Seq<char> {
    let label = host.subrange(0, find_from(host, '.', 0));
    if parse_i32_spec(label) is Some {
        host
    } else {
        label
    }
}

/// The key under which per-host flags of `host` are kept.
pub fn get_host_prefix(host: &str) -> (r: String)
    ensures
        r@ == host_prefix_spec(host@),
{
    let end = find_char(host, '.', 0);
    let label = host.substring_char(0, end);
    if parse_i32(label).is_some() {
        host.to_owned()
    } else {
        label.to_owned()
    }
}

pub open spec fn digit_char(d: int) -> char {
    "0123456789"@[d]
}

/// Decimal text of a natural number, most significant digit first.
pub open spec fn decimal(n: nat) -> Seq<char>
    decreases n,
{
    if n < 10 {
        seq![digit_char(n as int)]
    } else {
        decimal(n / 10) + seq![digit_char((n % 10) as int)]
    }
}

fn append_decimal(out: &mut String, n: u64)
    ensures
        final(out)@ == old(out)@ + decimal(n as nat),
    decreases n,
{
    proof {
        reveal_strlit("0123456789");
    }
    let digits = "0123456789";
    if n >= 10 {
        append_decimal(out, n / 10);
    }
    let d = (n % 10) as usize;
    let ghost mid = out@;
    out.append(digits.substring_char(d, d + 1));
    assert(digits@.subrange(d as int, d + 1) =~= seq![digit_char(d as int)]);
    if n >= 10 {
        assert(final(out)@ =~= old(out)@ + decimal(n as nat)) by {
            assert(mid =~= old(out)@ + decimal((n / 10) as nat));
        }
    } else {
        assert(out@ =~= old(out)@ + decimal(n as nat));
    }
}

/// `host` with `port` appended when it names none.
pub open spec fn check_port_spec(host: Seq<char>, port: nat) -> Seq<char> {
    if find_from(host, ':', 0) < host.len() {
        host
    } else {
        host + seq![':'] + decimal(port)
    }
}

/// Gives a host without a port the default one.
pub fn check_port(host: &str, port: u16) -> (r: String)
    ensures
        r@ == check_port_spec(host@, port as nat),
{
    proof {
        reveal_strlit(":");
    }
    if find_char(host, ':', 0) < host.unicode_len() {
        host.to_owned()
    } else {
        let mut out = host.to_owned();
        out.append(":");
        append_decimal(&mut out, port as u64);
        out
    }
}

/// The host part and port text of `s` when it holds exactly one colon.
pub open spec fn split_host_port(s: Seq<char>) -> Option<(Seq<char>, Seq<char>)> {
    let c = find_from(s, ':', 0);
    if c < s.len() && find_from(s, ':', c + 1) == s.len() {
        Some((s.subrange(0, c), s.subrange(c + 1, s.len() as int)))
    } else {
        None
    }
}

/// `host:port` with its port moved up by `offset`; any other shape is kept as it is.
pub open spec fn increase_port_spec(host: Seq<char>, offset: nat) -> Seq<char> {
    match split_host_port(host) {
        Some((h, p)) => match parse_i32_spec(p) {
            Some(v) => if v > 0 {
                h + seq![':'] + decimal((v + offset) as nat)
            } else {
                host
            },
            None => host,
        },
        None => host,
    }
}

pub fn increase_port(host: &str, offset: u16) -> (r: String)
    ensures
        r@ == increase_port_spec(host@, offset as nat),
{
    proof {
        reveal_strlit(":");
    }
    let n = host.unicode_len();
    let c = find_char(host, ':', 0);
    if c == n {
        return host.to_owned();
    }
    if find_char(host, ':', c + 1) != n {
        return host.to_owned();
    }
    match parse_i32(host.substring_char(c + 1, n)) {
        Some(v) => {
            if v > 0 {
                let mut out = host.substring_char(0, c).to_owned();
                out.append(":");
                append_decimal(&mut out, v as u64 + offset as u64);
                out
            } else {
                host.to_owned()
            }
        },
        None => host.to_owned(),
    }
}

/// Address of the online-status service: the rendezvous port minus one.
pub open spec fn online_server_spec(server: Seq<char>) -> Option<Seq<char>> {
    match split_host_port(server) {
        Some((h, p)) => match parse_u16_spec(p) {
            Some(v) => if v != 0 {
                Some(h + seq![':'] + decimal((v - 1) as nat))
            } else {
                None
            },
            None => None,
        },
        None => None,
    }
}

/// `host:port` of the online-status service next to the rendezvous server `server`,
/// or `None` when `server` is not of the form `host:port` with a port above zero.
pub fn online_server_addr(server: &str) -> (r: Option<String>)
    ensures
        match online_server_spec(server@) {
            Some(a) => r is Some && r.unwrap()@ == a,
            None => r is None,
        },
{
    proof {
        reveal_strlit(":");
    }
    let n = server.unicode_len();
    let c = find_char(server, ':', 0);
    if c == n {
        return None;
    }
    if find_char(server, ':', c + 1) != n {
        return None;
    }
    match parse_u16(server.substring_char(c + 1, n)) {
        Some(v) => {
            if v != 0 {
                let mut out = server.substring_char(0, c).to_owned();
                out.append(":");
                append_decimal(&mut out, (v - 1) as u64);
                Some(out)
            } else {
                None
            }
        },
        None => None,
    }
}

/// Port of the direct-access listener: the configured one when it is a positive
/// number, else the rendezvous port plus two.
pub fn get_direct_port(option: &str) -> (r: i32)
    ensures
        r == match parse_i32_spec(option@) {
            Some(v) => if v > 0 {
                v
            } else {
                RENDEZVOUS_PORT + 2
            },
            None => RENDEZVOUS_PORT + 2,
        },
{
    let mut port = match parse_i32(option) {
        Some(v) => v,
        None => 0,
    };
    if port <= 0 {
        port = RENDEZVOUS_PORT + 2;
    }
    port
}

} // verus!
