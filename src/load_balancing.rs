use vstd::prelude::*;
use vstd::arithmetic::div_mod::{lemma_fundamental_div_mod, lemma_fundamental_div_mod_converse};
use vstd::string::StrSliceExecFns;
use vstd::slice::slice_to_vec;
use std::sync::Arc;
use std::sync::atomic::AtomicUsize;
use crate::error::FaucetError;
use std::sync::atomic::Ordering::Relaxed;

verus! {

/// The strategy that picks a backend for each request.
#[derive(Clone, Copy, Debug, PartialEq, Eq, Structural)]
pub enum Strategy {
    RoundRobin,
    IpHash,
}

/// A client or backend IP address, as its octets.
#[derive(Clone, Copy, Debug, PartialEq, Eq)]
pub enum IpAddress {
    V4([u8; 4]),
    V6([u8; 16]),
}

/// A backend network address.
#[derive(Clone, Copy, Debug, PartialEq, Eq)]
pub struct Target {
    pub ip: IpAddress,
    pub port: u16,
}

impl IpAddress {
    pub open spec fn octets(self) -> Seq<u8> {
        match self {
            IpAddress::V4(a) => a@,
            IpAddress::V6(a) => a@,
        }
    }
}

pub const FNV_OFFSET_BASIS: u64 = 0xcbf2_9ce4_8422_2325;

pub const FNV_PRIME: u64 = 0x0100_0000_01b3;

/// The 64-bit FNV-1a hash of a byte sequence.
pub open spec fn fnv1a(bytes: Seq<u8>) -> u64
    decreases bytes.len(),
{
    if bytes.len() == 0 {
        FNV_OFFSET_BASIS
    } else {
        (fnv1a(bytes.drop_last()) ^ (bytes.last() as u64)).wrapping_mul(FNV_PRIME)
    }
}

/// The target index that IP-Hash assigns to an address among `n` targets.
pub open spec fn ip_hash_target(ip: IpAddress, n: nat) -> nat
    recommends
        n > 0,
{
    (fnv1a(ip.octets()) as nat) % n
}

/// The 64-bit FNV-1a hash of the bytes.
pub fn fnv1a_hash(bytes: &[u8]) -> (r: u64)
    ensures
        r == fnv1a(bytes@),
{
    let mut h: u64 = FNV_OFFSET_BASIS;
    let mut i: usize = 0;
    while i < bytes.len()
        invariant
            i <= bytes@.len(),
            h == fnv1a(bytes@.subrange(0, i as int)),
        decreases bytes@.len() - i,
    {
        proof {
            let next = bytes@.subrange(0, i + 1);
            assert(next.drop_last() =~= bytes@.subrange(0, i as int));
            assert(next.last() == bytes@[i as int]);
        }
        h = (h ^ (bytes[i] as u64)).wrapping_mul(FNV_PRIME);
        i = i + 1;
    }
    assert(bytes@.subrange(0, i as int) =~= bytes@);
    h
}

/// The target index for a client address under IP-Hash.
pub fn ip_hash_index(ip: &IpAddress, n: usize) -> (r: usize)
    requires
        n > 0,
    ensures
        r as nat == ip_hash_target(*ip, n as nat),
        r < n,
{
    let h = match ip {
        IpAddress::V4(a) => fnv1a_hash(a.as_slice()),
        IpAddress::V6(a) => fnv1a_hash(a.as_slice()),
    };
    (h % (n as u64)) as usize
}

/// The target index that round robin gives the call holding `ticket`.
pub fn round_robin_index(ticket: usize, n: usize) -> (r: usize)
    requires
        n > 0,
    ensures
        r == ticket % n,
        r < n,
{
    ticket % n
}

fn str_equals(a: &str, b: &str) -> (r: bool)
    ensures
        r == (a@ == b@),
{
    let n = a.unicode_len();
    if n != b.unicode_len() {
        return false;
    }
    let mut i: usize = 0;
    while i < n
        invariant
            n == a@.len(),
            n == b@.len(),
            i <= n,
            forall|j: int| 0 <= j < i ==> a@[j] == b@[j],
        decreases n - i,
    {
        if a.get_char(i) != b.get_char(i) {
            return false;
        }
        i = i + 1;
    }
    assert(a@ =~= b@);
    true
}

impl Strategy {
    /// Parses a strategy from its lowercase name with underscores.
    pub fn from_str(s: &str) -> (r: Result<Strategy, &'static str>)
        ensures
            s@ == "round_robin"@ ==> r matches Ok(Strategy::RoundRobin),
            s@ == "ip_hash"@ ==> r matches Ok(Strategy::IpHash),
            s@ != "round_robin"@ && s@ != "ip_hash"@ ==> (r matches Err(m) && m@
                == "invalid strategy"@),
    {
        proof {
            reveal_strlit("round_robin");
            reveal_strlit("ip_hash");
            assert("round_robin"@.len() != "ip_hash"@.len());
        }
        if str_equals(s, "round_robin") {
            Ok(Strategy::RoundRobin)
        } else if str_equals(s, "ip_hash") {
            Ok(Strategy::IpHash)
        } else {
            Err("invalid strategy")
        }
    }
}

impl std::str::FromStr for Strategy {
    type Err = &'static str;

    fn from_str(s: &str) -> Result<Strategy, &'static str> {
        Strategy::from_str(s)
    }
}

/// Round robin: a shared cursor advanced by one on every acquisition.
pub struct RoundRobin {
    targets: Vec<Target>,
    counter: AtomicUsize,
}

impl RoundRobin {
    #[verifier::type_invariant]
    spec fn inv(&self) -> bool {
        self.targets@.len() > 0
    }

    pub closed spec fn targets(&self) -> Seq<Target> {
        self.targets@
    }

    /// Builds the strategy over the targets; an empty list is refused.
    pub fn new(targets: &[Target]) -> (r: Result<RoundRobin, FaucetError>)
        ensures
            r is Err <==> targets@.len() == 0,
            r matches Err(e) ==> e is MissingArgument,
            r matches Ok(rr) ==> rr.targets() == targets@,
    {
        if targets.len() == 0 {
            return Err(FaucetError::MissingArgument("targets"));
        }
        Ok(RoundRobin { targets: slice_to_vec(targets), counter: AtomicUsize::new(0) })
    }

    /// Draws the next ticket from the shared cursor and returns the index of
    /// the target it selects.
    pub fn entry(&self) -> (r: usize)
        ensures
            r < self.targets().len(),
    {
        proof {
            use_type_invariant(self);
        }
        let ticket = self.counter.fetch_add(1, Relaxed);
        round_robin_index(ticket, self.targets.len())
    }
}

/// IP-Hash: the hash of the client address selects the target.
pub struct IpHash {
    targets: Vec<Target>,
}

impl IpHash {
    #[verifier::type_invariant]
    spec fn inv(&self) -> bool {
        self.targets@.len() > 0
    }

    pub closed spec fn targets(&self) -> Seq<Target> {
        self.targets@
    }

    /// Builds the strategy over the targets; an empty list is refused.
    pub fn new(targets: &[Target]) -> (r: Result<IpHash, FaucetError>)
        ensures
            r is Err <==> targets@.len() == 0,
            r matches Err(e) ==> e is MissingArgument,
            r matches Ok(h) ==> h.targets() == targets@,
    {
        if targets.len() == 0 {
            return Err(FaucetError::MissingArgument("targets"));
        }
        Ok(IpHash { targets: slice_to_vec(targets) })
    }

    /// The index of the target that serves the client address.
    pub fn entry(&self, ip: &IpAddress) -> (r: usize)
        ensures
            r < self.targets().len(),
            r as nat == ip_hash_target(*ip, self.targets().len()),
    {
        proof {
            use_type_invariant(self);
        }
        ip_hash_index(ip, self.targets.len())
    }
}

enum Selector {
    RoundRobin(RoundRobin),
    IpHash(IpHash),
}

/// The facade over the strategy chosen at startup; copies share one state.
pub struct LoadBalancer {
    strategy: Arc<Selector>,
}

impl LoadBalancer {
    pub closed spec fn strategy(&self) -> Strategy {
        match *self.strategy {
            Selector::RoundRobin(_) => Strategy::RoundRobin,
            Selector::IpHash(_) => Strategy::IpHash,
        }
    }

    pub closed spec fn targets(&self) -> Seq<Target> {
        match *self.strategy {
            Selector::RoundRobin(rr) => rr.targets(),
            Selector::IpHash(h) => h.targets(),
        }
    }

    /// `r` is one of the targets, and under IP-Hash the one that the address
    /// hashes to.
    pub open spec fn may_serve(&self, ip: IpAddress, r: Target) -> bool {
        exists|i: int|
            0 <= i < self.targets().len() && r == self.targets()[i] && (self.strategy()
                == Strategy::IpHash ==> i == ip_hash_target(ip, self.targets().len()))
    }

    /// Builds the balancer; an empty target list is a configuration error.
    pub fn new(strategy: Strategy, targets: &[Target]) -> (r: Result<LoadBalancer, FaucetError>)
        ensures
            r is Err <==> targets@.len() == 0,
            r matches Err(e) ==> e is MissingArgument,
            r matches Ok(lb) ==> lb.strategy() == strategy && lb.targets() == targets@,
    {
        let selector = match strategy {
            Strategy::RoundRobin => match RoundRobin::new(targets) {
                Ok(rr) => Selector::RoundRobin(rr),
                Err(e) => return Err(e),
            },
            Strategy::IpHash => match IpHash::new(targets) {
                Ok(h) => Selector::IpHash(h),
                Err(e) => return Err(e),
            },
        };
        Ok(LoadBalancer { strategy: Arc::new(selector) })
    }

    /// The index of the target that serves a request from `ip`.
    pub fn select_target(&self, ip: &IpAddress) -> (r: usize)
        ensures
            r < self.targets().len(),
            self.strategy() == Strategy::IpHash ==> r as nat == ip_hash_target(
                *ip,
                self.targets().len(),
            ),
    {
        match &*self.strategy {
            Selector::RoundRobin(rr) => rr.entry(),
            Selector::IpHash(h) => h.entry(ip),
        }
    }

    /// The target that serves a request from `ip`.
    pub fn get_client(&self, ip: &IpAddress) -> (r: Target)
        ensures
            self.may_serve(*ip, r),
    {
        let i = self.select_target(ip);
        let t = match &*self.strategy {
            Selector::RoundRobin(rr) => rr.targets[i],
            Selector::IpHash(h) => h.targets[i],
        };
        t
    }
}

impl Clone for LoadBalancer {
    fn clone(&self) -> (r: LoadBalancer)
        ensures
            r.strategy() == self.strategy(),
            r.targets() == self.targets(),
    {
        LoadBalancer { strategy: Arc::clone(&self.strategy) }
    }
}

/// Number of tickets in `start .. start + count` that round robin sends to
/// target `t` among `k`.
pub open spec fn hits(start: int, count: nat, k: int, t: int) -> nat
    decreases count,
{
    if count == 0 {
        0
    } else {
        hits(start, (count - 1) as nat, k, t) + (if (start + count - 1) % k == t {
            1nat
        } else {
            0nat
        })
    }
}

/// Number of `i` in `0 .. x` with `i % k == t`.
spec fn hits_below(x: int, k: int, t: int) -> int {
    (x + k - 1 - t) / k
}

proof fn lemma_hits_below_step(x: int, k: int, t: int)
    requires
        x >= 0,
        0 <= t < k,
    ensures
        hits_below(x + 1, k, t) - hits_below(x, k, t) == (if x % k == t {
            1int
        } else {
            0int
        }),
{
    let y = x + k - 1 - t;
    lemma_fundamental_div_mod(y, k);
    lemma_fundamental_div_mod(x, k);
    let q = y / k;
    let r = y % k;
    assert((q + 1) * k == k * q + k && (q - 1) * k == k * q - k && q * k == k * q)
        by (nonlinear_arith);
    if r == k - 1 {
        lemma_fundamental_div_mod_converse(y + 1, k, q + 1, 0);
        lemma_fundamental_div_mod_converse(x, k, q, t);
    } else {
        lemma_fundamental_div_mod_converse(y + 1, k, q, r + 1);
        if r + 1 + t >= k {
            lemma_fundamental_div_mod_converse(x, k, q, r + 1 + t - k);
        } else {
            lemma_fundamental_div_mod_converse(x, k, q - 1, r + 1 + t);
        }
    }
}

proof fn lemma_hits_closed_form(start: int, count: nat, k: int, t: int)
    requires
        start >= 0,
        0 <= t < k,
    ensures
        hits(start, count, k, t) == hits_below(start + count, k, t) - hits_below(start, k, t),
    decreases count,
{
    if count > 0 {
        lemma_hits_closed_form(start, (count - 1) as nat, k, t);
        lemma_hits_below_step(start + count - 1, k, t);
    }
}

proof fn lemma_quotients_close(m: int, n: int, k: int)
    requires
        k > 0,
        0 <= n <= m < n + k,
    ensures
        0 <= m / k - n / k <= 1,
{
    lemma_fundamental_div_mod(m, k);
    lemma_fundamental_div_mod(n, k);
    let qm = m / k;
    let qn = n / k;
    assert(0 <= m % k < k);
    assert(0 <= n % k < k);
    assert(m - n == (qm - qn) * k + (m % k - n % k)) by (nonlinear_arith)
        requires
            m == k * qm + m % k,
            n == k * qn + n % k,
    ;
    if qm - qn >= 2 {
        assert((qm - qn) * k >= 2 * k) by (nonlinear_arith)
            requires
                qm - qn >= 2,
                k > 0,
        ;
    }
    if qm - qn <= -1 {
        assert((qm - qn) * k <= -k) by (nonlinear_arith)
            requires
                qm - qn <= -1,
                k > 0,
        ;
    }
}

proof fn lemma_hits_below_ordered(x: int, k: int, a: int, b: int)
    requires
        x >= 0,
        0 <= a <= b < k,
    ensures
        0 <= hits_below(x, k, a) - hits_below(x, k, b) <= 1,
{
    lemma_quotients_close(x + k - 1 - a, x + k - 1 - b, k);
}

/// Round-robin fairness: over any run of consecutive tickets (the sequential
/// calls of one caller, or the tickets that concurrent callers draw from the
/// shared counter), any two targets are chosen a number of times that
/// differs by at most one.
pub proof fn round_robin_fairness(start: nat, count: nat, k: nat, a: nat, b: nat)
    requires
        k > 0,
        a < k,
        b < k,
    ensures
        hits(start as int, count, k as int, a as int) <= hits(start as int, count, k as int, b as int) + 1,
{
    lemma_hits_closed_form(start as int, count, k as int, a as int);
    lemma_hits_closed_form(start as int, count, k as int, b as int);
    if a <= b {
        lemma_hits_below_ordered(start + count as int, k as int, a as int, b as int);
        lemma_hits_below_ordered(start as int, k as int, a as int, b as int);
    } else {
        lemma_hits_below_ordered(start + count as int, k as int, b as int, a as int);
        lemma_hits_below_ordered(start as int, k as int, b as int, a as int);
    }
}

/// IP-Hash affinity: under IP-Hash, any two requests from one address are
/// served by the same target.
pub proof fn ip_hash_affinity(lb: LoadBalancer, ip: IpAddress, r1: Target, r2: Target)
    requires
        lb.strategy() == Strategy::IpHash,
        lb.may_serve(ip, r1),
        lb.may_serve(ip, r2),
    ensures
        r1 == r2,
{
}

} // verus!
