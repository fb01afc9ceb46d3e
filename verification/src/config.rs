//! The process configuration surface.
//!
//! The command line and config file are parsed outside; the core consumes
//! the result read-only as this plain struct. What is verified here is the
//! logic that interprets it: the thread-count text, the bootstrap-node key
//! text, the warning on an empty bootstrap list, and the shape of the
//! runtime's worker pool.

use crate::addr::NodeAddr;
use crate::hexstr::{hex_bytes, is_hex_string, parse_key_hex, KeyTextError};
use crate::keys::PUBLIC_KEY_SIZE;
use vstd::prelude::*;

verus! {

/// How many worker threads the runtime multiplexes tasks onto.
#[derive(Clone, Copy, PartialEq, Eq, Structural, Debug)]
pub enum Threads {
    /// Detect the number of threads from the number of processor cores.
    Auto,
    /// Exactly this many threads.
    N(u16),
}

/// The characters of the one thread-count text that is not a number.
pub open spec fn auto_text() -> Seq<char> {
    seq!['a', 'u', 't', 'o']
}

/// A decimal digit.
pub open spec fn is_decimal_digit(c: char) -> bool {
    '0' <= c && c <= '9'
}

/// One or more decimal digits and nothing else.
pub open spec fn is_decimal_text(s: Seq<char>) -> bool {
    s.len() > 0 && forall|i: int| 0 <= i < s.len() ==> is_decimal_digit(#[trigger] s[i])
}

/// The number a digit string denotes, most significant digit first.
pub open spec fn decimal_value(s: Seq<char>) -> int
    decreases s.len(),
{
    if s.len() == 0 {
        0
    } else {
        decimal_value(s.drop_last()) * 10 + (s.last() as int - '0' as int)
    }
}

/// The digits of an unsigned-number text: an optional leading plus sign is
/// not part of the number.
pub open spec fn unsigned_digits(s: Seq<char>) -> Seq<char> {
    if s.len() > 0 && s[0] == '+' {
        s.skip(1)
    } else {
        s
    }
}

/// Text that denotes a 16-bit thread count: digits after an optional plus
/// sign, denoting a value that fits.
pub open spec fn is_u16_text(s: Seq<char>) -> bool {
    is_decimal_text(unsigned_digits(s)) && decimal_value(unsigned_digits(s)) <= u16::MAX
}

/// A digit string denotes a value of at least zero.
proof fn lemma_decimal_value_nonneg(s: Seq<char>)
    requires
        forall|i: int| 0 <= i < s.len() ==> is_decimal_digit(#[trigger] s[i]),
    ensures
        decimal_value(s) >= 0,
    decreases s.len(),
{
    if s.len() > 0 {
        lemma_decimal_value_nonneg(s.drop_last());
    }
}

/// Extending a digit string never shrinks the value it denotes.
proof fn lemma_decimal_value_extend(s: Seq<char>, k: int)
    requires
        0 <= k <= s.len(),
        forall|i: int| 0 <= i < s.len() ==> is_decimal_digit(#[trigger] s[i]),
    ensures
        decimal_value(s) >= decimal_value(s.subrange(0, k)),
    decreases s.len() - k,
{
    if k == s.len() {
        assert(s.subrange(0, k) =~= s);
    } else {
        lemma_decimal_value_extend(s.drop_last(), k);
        assert(s.drop_last().subrange(0, k) =~= s.subrange(0, k));
        lemma_decimal_value_nonneg(s.drop_last());
    }
}

impl Threads {
    /// Parse a thread-count text: the word `auto`, or a decimal number with
    /// an optional leading plus sign that fits in 16 bits. Succeeds exactly
    /// on those texts.
    pub fn from_str(s: &str) -> (r: Result<Threads, ()>)
        ensures
            match r {
                Ok(Threads::Auto) => s@ == auto_text(),
                Ok(Threads::N(n)) => s@ != auto_text() && is_u16_text(s@) && n == decimal_value(
                    unsigned_digits(s@),
                ),
                Err(_) => s@ != auto_text() && !is_u16_text(s@),
            },
    {
        let len = s.unicode_len();
        if len == 4 && s.get_char(0) == 'a' && s.get_char(1) == 'u' && s.get_char(2) == 't'
            && s.get_char(3) == 'o' {
            proof {
                assert(s@ =~= auto_text());
            }
            return Ok(Threads::Auto);
        }
        proof {
            assert(s@ != auto_text()) by {
                if s@ =~= auto_text() {
                    assert(s@[0] == 'a' && s@[1] == 'u' && s@[2] == 't' && s@[3] == 'o');
                }
            }
        }
        let start: usize = if len > 0 && s.get_char(0) == '+' {
            1
        } else {
            0
        };
        let ghost digits = unsigned_digits(s@);
        proof {
            assert(digits =~= s@.subrange(start as int, len as int));
        }
        if start >= len {
            return Err(());
        }
        let mut value: u32 = 0;
        let mut i: usize = start;
        while i < len
            invariant
                start <= i <= len,
                start < len,
                len == s@.len(),
                s@ != auto_text(),
                digits == unsigned_digits(s@),
                digits =~= s@.subrange(start as int, len as int),
                forall|j: int| start <= j < i ==> is_decimal_digit(#[trigger] s@[j]),
                value == decimal_value(s@.subrange(start as int, i as int)),
                value <= 65535,
            decreases len - i,
        {
            let c = s.get_char(i);
            let code = c as u32;
            if code < 48 || code > 57 {
                proof {
                    assert(!is_decimal_digit(digits[i - start]));
                }
                return Err(());
            }
            let d = code - 48;
            if value > 6553 || (value == 6553 && d > 5) {
                proof {
                    let taken = s@.subrange(start as int, i as int + 1);
                    assert(taken.drop_last() =~= s@.subrange(start as int, i as int));
                    assert(decimal_value(taken) > 65535);
                    if is_decimal_text(digits) {
                        lemma_decimal_value_extend(digits, i - start + 1);
                        assert(digits.subrange(0, i - start + 1) =~= taken);
                    }
                }
                return Err(());
            }
            value = value * 10 + d;
            i = i + 1;
            proof {
                let taken = s@.subrange(start as int, i as int);
                assert(taken.drop_last() =~= s@.subrange(start as int, i as int - 1));
            }
        }
        proof {
            assert(digits =~= s@.subrange(start as int, len as int));
            assert(is_decimal_text(digits));
        }
        Ok(Threads::N(value as u16))
    }
}

/// Where log lines go.
#[derive(Clone, Copy, PartialEq, Eq, Structural, Debug)]
pub enum LogType {
    /// The standard error stream.
    Stderr,
    /// The standard output stream.
    Stdout,
    /// The system log.
    Syslog,
    /// Nowhere.
    NoLog,
}

/// A bootstrap node: a public key and a generic string address, which may
/// be an IP address or a DNS name, resolved (outside) at startup.
#[derive(Clone, Debug, PartialEq, Eq)]
pub struct BootstrapNode {
    /// The node's public key bytes.
    pub pk: Vec<u8>,
    /// The node's address text.
    pub addr: String,
}

impl BootstrapNode {
    /// The public key has a key's size.
    pub open spec fn wf(self) -> bool {
        self.pk@.len() == PUBLIC_KEY_SIZE
    }

    /// Build a bootstrap node from its configuration encoding: the public
    /// key as 64 hex digits, and the address text taken as it is.
    pub fn from_text(pk_hex: &str, addr: String) -> (r: Result<BootstrapNode, KeyTextError>)
        ensures
            match r {
                Ok(node) => {
                    &&& is_hex_string(pk_hex@)
                    &&& node.pk@ == hex_bytes(pk_hex@)
                    &&& node.addr == addr
                    &&& node.wf()
                },
                Err(KeyTextError::NotHex) => !is_hex_string(pk_hex@),
                Err(KeyTextError::WrongLength) => is_hex_string(pk_hex@) && hex_bytes(
                    pk_hex@,
                ).len() != PUBLIC_KEY_SIZE,
            },
    {
        let pk = parse_key_hex(pk_hex)?;
        Ok(BootstrapNode { pk, addr })
    }
}

/// The configuration the core consumes, read-only, after the outside
/// parser built it.
#[derive(Clone, Debug)]
pub struct NodeConfig {
    /// The UDP address to run the DHT node on, when UDP is configured.
    pub udp_addr: Option<NodeAddr>,
    /// The TCP addresses to run relay listeners on; may be empty.
    pub tcp_addrs: Vec<NodeAddr>,
    /// The secret key handed in directly, when one was.
    pub sk: Option<Vec<u8>>,
    /// Whether the secret key arrived as a command-line argument rather
    /// than through the environment; worth a warning, nothing more.
    pub sk_passed_as_arg: bool,
    /// The path of the file the identity keys are stored in.
    pub keys_file: Option<String>,
    /// The nodes to bootstrap from; may be empty.
    pub bootstrap_nodes: Vec<BootstrapNode>,
    /// The worker-thread count.
    pub threads: Threads,
    /// Where log lines go.
    pub log_type: LogType,
    /// The message of the day advertised in bootstrap-info responses.
    pub motd: String,
    /// Whether the local-network discovery broadcaster runs.
    pub lan_discovery_enabled: bool,
}

impl NodeConfig {
    /// An empty bootstrap list is not an error, but it is worth a warning.
    pub fn should_warn_no_bootstrap(&self) -> (r: bool)
        ensures
            r == (self.bootstrap_nodes@.len() == 0),
    {
        self.bootstrap_nodes.len() == 0
    }
}

/// The shape of the runtime's worker pool.
#[derive(Clone, Copy, Debug, PartialEq, Eq)]
pub enum PoolPlan {
    /// A thread count of exactly one runs everything on the current
    /// thread, with no pool at all.
    SingleThread,
    /// A pool of exactly this many workers.
    Workers(u16),
    /// A pool sized from the number of processor cores.
    WorkersAuto,
}

/// Pick the worker-pool shape from the configured thread count.
pub fn plan_runtime(threads: Threads) -> (p: PoolPlan)
    ensures
        match p {
            PoolPlan::SingleThread => threads == Threads::N(1),
            PoolPlan::Workers(n) => threads == Threads::N(n) && n != 1,
            PoolPlan::WorkersAuto => threads == Threads::Auto,
        },
{
    match threads {
        Threads::Auto => PoolPlan::WorkersAuto,
        Threads::N(n) => {
            if n == 1 {
                PoolPlan::SingleThread
            } else {
                PoolPlan::Workers(n)
            }
        },
    }
}

} // verus!
