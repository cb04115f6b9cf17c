//! The shared data model: transport protocols, observed port bindings,
//! signals, kill outcomes, and the port-token grammar.

use vstd::prelude::*;
use crate::errors::{KillportError, offending_token};

verus! {

/// Transport-layer protocol of an observed socket.
#[derive(Debug, Clone, Copy, PartialEq, Eq, Structural)]
pub enum Protocol {
    Tcp,
    Udp,
}

impl Protocol {
    /// The display name of the protocol.
    pub fn label(&self) -> (r: &'static str)
        ensures
            r@ == protocol_label(*self),
    {
        match self {
            Protocol::Tcp => "TCP",
            Protocol::Udp => "UDP",
        }
    }
}

/// The display name of a protocol, as a sequence of characters.
pub open spec fn protocol_label(p: Protocol) -> Seq<char> {
    match p {
        Protocol::Tcp => "TCP"@,
        Protocol::Udp => "UDP"@,
    }
}

/// One observed binding: a process holding a socket on a port.
///
/// Each value is one (pid, port, protocol) observation; a process bound to
/// several ports appears once per port. Equality is structural: repeated
/// scans produce independent copies with no identity beyond the fields.
#[derive(Debug, PartialEq, Eq)]
pub struct ProcessInfo {
    pub pid: u32,
    pub name: String,
    pub port: u16,
    pub protocol: Protocol,
    pub command: Option<String>,
    pub user: Option<String>,
}

/// The one-line description of a binding: the pid, the process name, and
/// the port with its protocol.
pub open spec fn binding_description(p: ProcessInfo) -> Seq<char> {
    "PID "@ + decimal_digits(p.pid as nat) + " ("@ + p.name@ + ") on port "@ + decimal_digits(
        p.port as nat,
    ) + "/"@ + protocol_label(p.protocol)
}

impl ProcessInfo {
    /// Describes the binding in one line, for reports and logs.
    pub fn describe(&self) -> (r: String)
        ensures
            r@ == binding_description(*self),
    {
        let mut s = String::from_str("PID ");
        s.append(u64_to_string(self.pid as u64).as_str());
        s.append(" (");
        s.append(self.name.as_str());
        s.append(") on port ");
        s.append(u64_to_string(self.port as u64).as_str());
        s.append("/");
        s.append(self.protocol.label());
        s
    }
}

impl Clone for ProcessInfo {
    /// Cloning copies every field exactly.
    fn clone(&self) -> (r: Self)
        ensures
            r == *self,
    {
        ProcessInfo {
            pid: self.pid,
            name: self.name.clone(),
            port: self.port,
            protocol: self.protocol,
            command: self.command.clone(),
            user: self.user.clone(),
        }
    }
}

/// The signal a kill attempt is configured to send.
#[derive(Debug, Clone, Copy, PartialEq, Eq, Structural)]
pub enum KillSignal {
    Term,
    Kill,
    Int,
    Hup,
}

/// The display name of a signal, as a sequence of characters.
pub open spec fn signal_label(s: KillSignal) -> Seq<char> {
    match s {
        KillSignal::Term => "SIGTERM"@,
        KillSignal::Kill => "SIGKILL"@,
        KillSignal::Int => "SIGINT"@,
        KillSignal::Hup => "SIGHUP"@,
    }
}

impl KillSignal {
    /// The display name of the signal.
    pub fn label(&self) -> (r: &'static str)
        ensures
            r@ == signal_label(*self),
    {
        match self {
            KillSignal::Term => "SIGTERM",
            KillSignal::Kill => "SIGKILL",
            KillSignal::Int => "SIGINT",
            KillSignal::Hup => "SIGHUP",
        }
    }
}

/// Outcome of one termination attempt, reported per process.
#[derive(Debug)]
pub struct KillResult {
    /// The binding the attempt targeted.
    pub process: ProcessInfo,
    /// Whether the attempt is counted as successful. A target that had
    /// already vanished counts as success: it is gone.
    pub success: bool,
    /// Human-readable description of the signal(s) actually sent, possibly
    /// an escalation path such as "SIGTERM -> SIGKILL".
    pub signal_sent: String,
    /// The reason for a failure, absent on success.
    pub error: Option<String>,
}

/// The condition a caller waits on: the port becoming free or occupied.
#[derive(Debug, Clone, Copy, PartialEq, Eq, Structural)]
pub enum WaitCondition {
    Free,
    Occupied,
}

/// A single port or an inclusive ascending range, parsed from a token.
///
/// Never represents port 0 or a descending range when built by [`PortSpec::parse`].
#[derive(Debug, Clone, Copy, PartialEq, Eq, Structural)]
pub enum PortSpec {
    Single(u16),
    Range(u16, u16),
}

/// The character of one decimal digit.
pub open spec fn digit_char(d: nat) -> char {
    if d == 0 {
        '0'
    } else if d == 1 {
        '1'
    } else if d == 2 {
        '2'
    } else if d == 3 {
        '3'
    } else if d == 4 {
        '4'
    } else if d == 5 {
        '5'
    } else if d == 6 {
        '6'
    } else if d == 7 {
        '7'
    } else if d == 8 {
        '8'
    } else {
        '9'
    }
}

/// The decimal numeral of `n`, most significant digit first, without
/// leading zeros (zero itself reads as "0").
pub open spec fn decimal_digits(n: nat) -> Seq<char>
    decreases n,
{
    if n < 10 {
        seq![digit_char(n)]
    } else {
        decimal_digits(n / 10).push(digit_char(n % 10))
    }
}

/// The character of one decimal digit.
fn digit_str(d: u64) -> (r: &'static str)
    requires
        d < 10,
    ensures
        r@ =~= seq![digit_char(d as nat)],
{
    proof {
        reveal_strlit("0");
        reveal_strlit("1");
        reveal_strlit("2");
        reveal_strlit("3");
        reveal_strlit("4");
        reveal_strlit("5");
        reveal_strlit("6");
        reveal_strlit("7");
        reveal_strlit("8");
        reveal_strlit("9");
    }
    match d {
        0 => "0",
        1 => "1",
        2 => "2",
        3 => "3",
        4 => "4",
        5 => "5",
        6 => "6",
        7 => "7",
        8 => "8",
        _ => "9",
    }
}

/// Renders `n` as its decimal numeral.
pub fn u64_to_string(n: u64) -> (r: String)
    ensures
        r@ == decimal_digits(n as nat),
    decreases n,
{
    if n < 10 {
        String::from_str(digit_str(n))
    } else {
        let mut s = u64_to_string(n / 10);
        s.append(digit_str(n % 10));
        proof {
            assert(decimal_digits((n / 10) as nat).push(digit_char((n % 10) as nat))
                =~= decimal_digits((n / 10) as nat) + seq![digit_char((n % 10) as nat)]);
        }
        s
    }
}

/// Is `c` a decimal digit?
pub open spec fn is_digit(c: char) -> bool {
    48 <= c as u32 <= 57
}

/// The numeric value of a digit character.
pub open spec fn digit_val(c: char) -> nat {
    (c as u32 - 48) as nat
}

/// Does every position of `s` hold a decimal digit?
pub open spec fn all_digits(s: Seq<char>) -> bool {
    forall|i: int| 0 <= i < s.len() ==> is_digit(#[trigger] s[i])
}

/// The value of `s` read as a decimal numeral.
pub open spec fn dec_value(s: Seq<char>) -> nat
    decreases s.len(),
{
    if s.len() == 0 {
        0
    } else {
        dec_value(s.drop_last()) * 10 + digit_val(s.last())
    }
}

/// Does `s` contain a dash anywhere?
pub open spec fn has_dash(s: Seq<char>) -> bool {
    exists|i: int| 0 <= i < s.len() && s[i] == '-'
}

/// The index of the first dash of `s`.
pub open spec fn dash_index(s: Seq<char>) -> int {
    choose|i: int| 0 <= i < s.len() && s[i] == '-' && (forall|j: int| 0 <= j < i ==> s[j] != '-')
}

/// A token without a dash is valid when it is a non-empty numeral whose
/// value lies in 1..=65535.
pub open spec fn valid_single_token(s: Seq<char>) -> bool {
    &&& s.len() > 0
    &&& all_digits(s)
    &&& 1 <= dec_value(s) <= 65535
}

/// The two sides of a range token are valid when both are non-empty
/// numerals of 16-bit values, the start is at least 1, and the range does
/// not descend.
pub open spec fn valid_range_parts(a: Seq<char>, b: Seq<char>) -> bool {
    &&& a.len() > 0
    &&& all_digits(a)
    &&& dec_value(a) <= 65535
    &&& b.len() > 0
    &&& all_digits(b)
    &&& dec_value(b) <= 65535
    &&& 1 <= dec_value(a)
    &&& dec_value(a) <= dec_value(b)
}

/// The part of a dashed token before its first dash.
pub open spec fn range_left(s: Seq<char>) -> Seq<char> {
    s.subrange(0, dash_index(s))
}

/// The part of a dashed token after its first dash.
pub open spec fn range_right(s: Seq<char>) -> Seq<char> {
    s.subrange(dash_index(s) + 1, s.len() as int)
}

/// Is `s` a well-formed port token: either `N` or `N1-N2` (split at the
/// first dash) with 1 <= N <= 65535, 1 <= N1 <= N2 <= 65535?
pub open spec fn valid_port_token(s: Seq<char>) -> bool {
    if has_dash(s) {
        valid_range_parts(range_left(s), range_right(s))
    } else {
        valid_single_token(s)
    }
}

/// The `PortSpec` a valid token denotes.
pub open spec fn token_spec(s: Seq<char>) -> PortSpec {
    if has_dash(s) {
        PortSpec::Range(dec_value(range_left(s)) as u16, dec_value(range_right(s)) as u16)
    } else {
        PortSpec::Single(dec_value(s) as u16)
    }
}

/// A numeral's value only grows as more digits are appended: every prefix
/// reads as at most the whole.
proof fn lemma_dec_value_prefix(s: Seq<char>, j: int)
    requires
        0 <= j <= s.len(),
    ensures
        dec_value(s.take(j)) <= dec_value(s),
    decreases s.len() - j,
{
    if j < s.len() {
        assert(s.take(j + 1).drop_last() =~= s.take(j));
        assert(s.take(j + 1).last() == s[j]);
        assert(dec_value(s.take(j)) <= dec_value(s.take(j + 1)));
        lemma_dec_value_prefix(s, j + 1);
    } else {
        assert(s.take(j) =~= s);
    }
}

/// Reads the decimal numeral in `s[from..to]` (character positions).
///
/// Returns its value exactly when the slice is a non-empty all-digit
/// numeral that fits in a `u32`.
fn parse_decimal(s: &str, from: usize, to: usize) -> (r: Option<u32>)
    requires
        from <= to <= s@.len(),
    ensures
        r is Some <==> (from < to && all_digits(s@.subrange(from as int, to as int)) && dec_value(
            s@.subrange(from as int, to as int),
        ) <= u32::MAX),
        r matches Some(v) ==> v == dec_value(s@.subrange(from as int, to as int)),
{
    let ghost whole: Seq<char> = s@.subrange(from as int, to as int);
    if from == to {
        return None;
    }
    let mut acc: u64 = 0;
    let mut i: usize = from;
    while i < to
        invariant
            from <= i <= to <= s@.len(),
            whole == s@.subrange(from as int, to as int),
            from < to,
            all_digits(whole.take(i - from)),
            acc == dec_value(whole.take(i - from)),
            acc <= u32::MAX,
        decreases to - i,
    {
        let c = s.get_char(i);
        proof {
            assert(whole[i - from] == s@[i as int]);
        }
        if !('0' <= c && c <= '9') {
            proof {
                assert(!all_digits(whole));
            }
            return None;
        }
        let d: u64 = (c as u32 - 48) as u64;
        let next: u64 = acc * 10 + d;
        proof {
            assert(whole.take(i - from + 1).drop_last() =~= whole.take(i - from));
            assert(whole.take(i - from + 1).last() == whole[i - from]);
        }
        if next > u32::MAX as u64 {
            proof {
                assert(dec_value(whole.take(i - from + 1)) > u32::MAX);
                lemma_dec_value_prefix(whole, i - from + 1);
            }
            return None;
        }
        acc = next;
        i = i + 1;
    }
    proof {
        assert(whole.take(to - from) =~= whole);
    }
    Some(acc as u32)
}

/// The position of the first dash of `s`, if any.
fn find_dash(s: &str) -> (r: Option<usize>)
    ensures
        r is Some <==> has_dash(s@),
        r matches Some(i) ==> 0 <= i < s@.len() && s@[i as int] == '-' && (forall|j: int|
            0 <= j < i ==> s@[j] != '-') && i == dash_index(s@),
{
    let n = s.unicode_len();
    let mut i: usize = 0;
    while i < n
        invariant
            0 <= i <= n == s@.len(),
            forall|j: int| 0 <= j < i ==> s@[j] != '-',
        decreases n - i,
    {
        if s.get_char(i) == '-' {
            proof {
                let k = dash_index(s@);
                assert(0 <= k < s@.len() && s@[k] == '-' && (forall|j: int|
                    0 <= j < k ==> s@[j] != '-'));
                if k < i {
                    assert(s@[k] != '-');
                }
                if i < k {
                    assert(s@[i as int] != '-');
                }
            }
            return Some(i);
        }
        i = i + 1;
    }
    None
}

impl PortSpec {
    /// Is the spec well-formed: no port 0 and no descending range?
    pub open spec fn wf(self) -> bool {
        match self {
            PortSpec::Single(p) => p >= 1,
            PortSpec::Range(s, e) => 1 <= s && s <= e,
        }
    }

    /// Parses a port token: `N` for a single port, `N1-N2` for an inclusive
    /// range, each value within 1..=65535 and the range ascending.
    ///
    /// Succeeds exactly on well-formed tokens and names the offending token
    /// in the error otherwise.
    pub fn parse(s: &str) -> (r: Result<PortSpec, KillportError>)
        ensures
            r is Ok <==> valid_port_token(s@),
            r matches Ok(p) ==> p == token_spec(s@) && p.wf(),
            !has_dash(s@) && !valid_single_token(s@) ==> r matches Err(
                KillportError::InvalidPort(_, _),
            ),
            has_dash(s@) && !valid_port_token(s@) ==> r matches Err(
                KillportError::InvalidPortRange(_),
            ),
            r matches Err(e) ==> offending_token(e) == s@,
    {
        let n = s.unicode_len();
        match find_dash(s) {
            Some(d) => {
                let left = parse_decimal(s, 0, d);
                let right = parse_decimal(s, d + 1, n);
                match (left, right) {
                    (Some(a), Some(b)) => {
                        if a > 65535 || b > 65535 {
                            Err(KillportError::InvalidPortRange(s.to_owned()))
                        } else if a > b {
                            Err(KillportError::InvalidPortRange(s.to_owned()))
                        } else if a == 0 {
                            Err(KillportError::InvalidPortRange(s.to_owned()))
                        } else {
                            Ok(PortSpec::Range(a as u16, b as u16))
                        }
                    },
                    _ => Err(KillportError::InvalidPortRange(s.to_owned())),
                }
            },
            None => {
                proof {
                    assert(s@.subrange(0, n as int) =~= s@);
                }
                match parse_decimal(s, 0, n) {
                    Some(v) => {
                        if v == 0 || v > 65535 {
                            Err(KillportError::InvalidPort(v, s.to_owned()))
                        } else {
                            Ok(PortSpec::Single(v as u16))
                        }
                    },
                    None => Err(KillportError::InvalidPort(0, s.to_owned())),
                }
            },
        }
    }

    /// The ports a spec covers: a single port yields exactly itself; a
    /// range yields the full inclusive ascending sequence from start to
    /// end (and nothing when it descends).
    pub open spec fn covered_ports(self) -> Seq<u16> {
        match self {
            PortSpec::Single(p) => seq![p],
            PortSpec::Range(s, e) => if s <= e {
                Seq::new((e - s + 1) as nat, |i: int| (s + i) as u16)
            } else {
                Seq::empty()
            },
        }
    }

    /// Expands the spec to the concrete ports it covers, in ascending order.
    pub fn expand(&self) -> (r: Vec<u16>)
        ensures
            r@ == self.covered_ports(),
    {
        match self {
            PortSpec::Single(p) => {
                let mut out: Vec<u16> = Vec::new();
                out.push(*p);
                proof {
                    assert(out@ =~= self.covered_ports());
                }
                out
            },
            PortSpec::Range(start, end) => {
                let mut out: Vec<u16> = Vec::new();
                if *start > *end {
                    proof {
                        assert(out@ =~= self.covered_ports());
                    }
                    return out;
                }
                let count: u32 = *end as u32 - *start as u32 + 1;
                let mut i: u32 = 0;
                while i < count
                    invariant
                        count == *end - *start + 1,
                        *start <= *end,
                        0 <= i <= count,
                        out@.len() == i,
                        forall|k: int| 0 <= k < out@.len() ==> out@[k] == *start + k,
                    decreases count - i,
                {
                    out.push((*start as u32 + i) as u16);
                    i = i + 1;
                }
                proof {
                    assert(out@ =~= self.covered_ports());
                }
                out
            },
        }
    }
}

/// For every valid single-port token, parsing succeeds with exactly that
/// port, and expansion covers exactly that port: [`PortSpec::parse`]
/// returns `token_spec` on valid tokens and [`PortSpec::expand`] returns
/// `covered_ports`.
pub proof fn lemma_single_token_round_trip(s: Seq<char>)
    requires
        !has_dash(s),
        valid_single_token(s),
    ensures
        valid_port_token(s),
        token_spec(s) == PortSpec::Single(dec_value(s) as u16),
        token_spec(s).covered_ports() =~= seq![dec_value(s) as u16],
        token_spec(s).wf(),
{
}

/// For every well-formed range token, parsing succeeds with exactly that
/// range, and expansion covers the full ascending inclusive sequence from
/// its start to its end.
pub proof fn lemma_range_token_expansion(s: Seq<char>)
    requires
        has_dash(s),
        valid_range_parts(range_left(s), range_right(s)),
    ensures
        valid_port_token(s),
        token_spec(s) == PortSpec::Range(
            dec_value(range_left(s)) as u16,
            dec_value(range_right(s)) as u16,
        ),
        token_spec(s).wf(),
        token_spec(s).covered_ports().len() == dec_value(range_right(s)) - dec_value(
            range_left(s),
        ) + 1,
        forall|i: int|
            0 <= i < token_spec(s).covered_ports().len() ==> token_spec(s).covered_ports()[i]
                == dec_value(range_left(s)) + i,
{
}

/// The ports a list of specs covers: each spec's covered ports, in the
/// order given.
pub open spec fn flat_covered(specs: Seq<PortSpec>) -> Seq<u16>
    decreases specs.len(),
{
    if specs.len() == 0 {
        Seq::empty()
    } else {
        flat_covered(specs.drop_last()) + specs.last().covered_ports()
    }
}

/// Expands every spec in order into one flat list of concrete ports.
pub fn expand_all(specs: &Vec<PortSpec>) -> (r: Vec<u16>)
    ensures
        r@ == flat_covered(specs@),
{
    let mut out: Vec<u16> = Vec::new();
    let mut i: usize = 0;
    while i < specs.len()
        invariant
            i <= specs@.len(),
            out@ == flat_covered(specs@.take(i as int)),
        decreases specs@.len() - i,
    {
        let sp = specs[i];
        let mut e = sp.expand();
        out.append(&mut e);
        proof {
            assert(specs@.take(i as int + 1).drop_last() =~= specs@.take(i as int));
            assert(specs@.take(i as int + 1).last() == specs@[i as int]);
        }
        i = i + 1;
    }
    proof {
        assert(specs@.take(specs@.len() as int) =~= specs@);
    }
    out
}

} // verus!
