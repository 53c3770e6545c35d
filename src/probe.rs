use vstd::prelude::*;

verus! {

/// Relies on `chrono::Duration::seconds` and `num_milliseconds`: a whole
/// number of seconds is that many thousand milliseconds; seconds that fit
/// in `u32` are far within the range that `seconds` accepts.
#[verifier::external_body]
fn seconds_to_millis(seconds: u32) -> (r: u64)
    ensures
        r == seconds as u64 * 1000,
{
    chrono::Duration::seconds(seconds as i64).num_milliseconds() as u64
}

/// A bounded retry schedule with a fixed delay between attempts.
#[derive(Clone, Copy, Debug, PartialEq, Eq, Structural)]
pub struct RetryPolicy {
    pub max_attempts: u32,
    pub delay_ms: u64,
}

pub const CNAME_CHECK_ATTEMPTS: u32 = 30;

pub const CNAME_CHECK_DELAY_SECONDS: u32 = 5;

pub const DOMAIN_CHECK_ATTEMPTS: u32 = 100;

pub const DOMAIN_CHECK_DELAY_SECONDS: u32 = 3;

impl RetryPolicy {
    pub fn fixed(max_attempts: u32, delay_seconds: u32) -> (r: RetryPolicy)
        ensures
            r.max_attempts == max_attempts,
            r.delay_ms == delay_seconds * 1000,
    {
        RetryPolicy { max_attempts, delay_ms: seconds_to_millis(delay_seconds) }
    }

    /// The schedule of custom-domain CNAME checks: about two and a half
    /// minutes.
    pub fn cname_check() -> (r: RetryPolicy)
        ensures
            r.max_attempts == 30,
            r.delay_ms == 5000,
    {
        Self::fixed(CNAME_CHECK_ATTEMPTS, CNAME_CHECK_DELAY_SECONDS)
    }

    /// The schedule of plain domain resolution checks: about five minutes.
    pub fn domain_check() -> (r: RetryPolicy)
        ensures
            r.max_attempts == 100,
            r.delay_ms == 3000,
    {
        Self::fixed(DOMAIN_CHECK_ATTEMPTS, DOMAIN_CHECK_DELAY_SECONDS)
    }
}

/// Which record a probe looks up.
#[derive(Clone, Copy, Debug, PartialEq, Eq, Structural)]
pub enum RecordKind {
    Cname,
    Address,
}

#[derive(Clone, Copy, Debug, PartialEq, Eq, Structural)]
pub enum ProgressLevel {
    Info,
    Warn,
}

/// What the caller does after reporting a lookup.
#[derive(Clone, Copy, Debug, PartialEq, Eq, Structural)]
pub enum ProbeStep {
    /// Sleep this many milliseconds, then ask for the next resolver.
    Wait(u64),
    Confirmed,
    /// The budget is spent without a successful lookup.
    GaveUp,
}

/// A readiness probe: one lookup per attempt, each against the next
/// resolver of a fixed pool taken round-robin, until a lookup succeeds or
/// the attempt budget is spent. The waits between attempts are handed to
/// the caller, so the probe itself never blocks.
pub struct ReadinessProbe {
    policy: RetryPolicy,
    pool_size: usize,
    attempts: u32,
    found: Option<String>,
    waited_ms: Ghost<nat>,
}

impl ReadinessProbe {
    pub closed spec fn policy(self) -> RetryPolicy {
        self.policy
    }

    pub closed spec fn pool_size(self) -> nat {
        self.pool_size as nat
    }

    /// Lookups made so far.
    pub closed spec fn attempts(self) -> nat {
        self.attempts as nat
    }

    /// The value of the successful lookup, if there was one.
    pub closed spec fn found(self) -> Option<String> {
        self.found
    }

    /// The total of the waits handed out so far.
    pub closed spec fn waited_ms(self) -> nat {
        self.waited_ms@
    }

    pub open spec fn is_finished(self) -> bool {
        self.found() is Some || self.attempts() == self.policy().max_attempts
    }

    pub closed spec fn wf(self) -> bool {
        &&& self.pool_size > 0
        &&& self.attempts <= self.policy.max_attempts
        &&& self.found is Some ==> self.attempts > 0
        &&& self.waited_ms@ == if self.found is None && self.attempts < self.policy.max_attempts {
            self.attempts * self.policy.delay_ms
        } else if self.attempts == 0 {
            0
        } else {
            (self.attempts - 1) * self.policy.delay_ms
        }
    }

    pub fn new(policy: RetryPolicy, pool_size: usize) -> (r: ReadinessProbe)
        requires
            pool_size > 0,
        ensures
            r.wf(),
            r.policy() == policy,
            r.pool_size() == pool_size,
            r.attempts() == 0,
            r.found() is None,
            r.waited_ms() == 0,
    {
        ReadinessProbe { policy, pool_size, attempts: 0, found: None, waited_ms: Ghost(0) }
    }

    /// The resolver for the next attempt: attempt `i` (counting from zero)
    /// goes to resolver `i % pool_size`. `None` once the probe is finished.
    pub fn next_resolver(&self) -> (r: Option<usize>)
        requires
            self.wf(),
        ensures
            self.is_finished() ==> r is None,
            !self.is_finished() ==> r == Some((self.attempts() % self.pool_size()) as usize),
    {
        if self.found.is_some() || self.attempts == self.policy.max_attempts {
            None
        } else {
            Some(self.attempts as usize % self.pool_size)
        }
    }

    /// Reports the lookup of the current attempt: the value found, or
    /// `None` when the lookup failed.
    pub fn record(&mut self, lookup: Option<String>) -> (step: ProbeStep)
        requires
            old(self).wf(),
            !old(self).is_finished(),
        ensures
            final(self).wf(),
            final(self).policy() == old(self).policy(),
            final(self).pool_size() == old(self).pool_size(),
            final(self).attempts() == old(self).attempts() + 1,
            lookup is Some ==> step == ProbeStep::Confirmed && final(self).found() == lookup
                && final(self).waited_ms() == old(self).waited_ms(),
            lookup is None ==> final(self).found() is None,
            lookup is None && final(self).attempts() < old(self).policy().max_attempts ==> step
                == ProbeStep::Wait(old(self).policy().delay_ms) && final(self).waited_ms()
                == old(self).waited_ms() + old(self).policy().delay_ms,
            lookup is None && final(self).attempts() == old(self).policy().max_attempts ==> step
                == ProbeStep::GaveUp && final(self).waited_ms() == old(self).waited_ms(),
    {
        self.attempts = self.attempts + 1;
        let ghost before = self.waited_ms@;
        proof {
            assert((self.attempts - 1) * self.policy.delay_ms + self.policy.delay_ms == self.attempts
                * self.policy.delay_ms) by (nonlinear_arith);
        }
        match lookup {
            Some(v) => {
                self.found = Some(v);
                ProbeStep::Confirmed
            },
            None => {
                if self.attempts < self.policy.max_attempts {
                    self.waited_ms = Ghost((before + self.policy.delay_ms) as nat);
                    ProbeStep::Wait(self.policy.delay_ms)
                } else {
                    ProbeStep::GaveUp
                }
            },
        }
    }

    /// What a finished probe reports: the resolved value at info level, or,
    /// when nothing could be confirmed, the input unchanged at warning
    /// level. Never an error.
    pub fn outcome(&self, input: &str) -> (r: (String, ProgressLevel))
        requires
            self.wf(),
            self.is_finished(),
        ensures
            self.found() matches Some(v) ==> r.0 == v && r.1 == ProgressLevel::Info,
            self.found() is None ==> r.0@ == input@ && r.1 == ProgressLevel::Warn,
    {
        match &self.found {
            Some(v) => (v.clone(), ProgressLevel::Info),
            None => (String::from_str(input), ProgressLevel::Warn),
        }
    }
}

/// Exhaustion: a probe that finished without a successful lookup made
/// exactly its budget of attempts and waited the fixed delay between each
/// two of them.
pub proof fn lemma_probe_exhaustion(p: ReadinessProbe)
    requires
        p.wf(),
        p.is_finished(),
        p.found() is None,
    ensures
        p.attempts() == p.policy().max_attempts,
        p.policy().max_attempts > 0 ==> p.waited_ms() == (p.policy().max_attempts - 1)
            * p.policy().delay_ms,
{
}

/// `s` without its trailing dots.
pub open spec fn trim_end_dots(s: Seq<char>) -> Seq<char>
    decreases s.len(),
{
    if s.len() > 0 && s.last() == '.' {
        trim_end_dots(s.drop_last())
    } else {
        s
    }
}

proof fn lemma_trim_end_dots_prefix(s: Seq<char>)
    ensures
        trim_end_dots(s) == s.subrange(0, trim_end_dots(s).len() as int),
        trim_end_dots(s).len() <= s.len(),
        trim_end_dots(s).len() < s.len() ==> s[trim_end_dots(s).len() as int] == '.',
        trim_end_dots(s).len() > 0 ==> trim_end_dots(s).last() != '.',
    decreases s.len(),
{
    if s.len() > 0 && s.last() == '.' {
        lemma_trim_end_dots_prefix(s.drop_last());
        assert(s.drop_last().subrange(0, trim_end_dots(s).len() as int) =~= s.subrange(
            0,
            trim_end_dots(s).len() as int,
        ));
    } else {
        assert(s.subrange(0, s.len() as int) =~= s);
    }
}

fn trimmed_len(s: &str) -> (r: usize)
    ensures
        r == trim_end_dots(s@).len(),
{
    let mut n = s.unicode_len();
    assert(s@.subrange(0, n as int) =~= s@);
    while n > 0 && s.get_char(n - 1) == '.'
        invariant
            n <= s@.len(),
            trim_end_dots(s@) == trim_end_dots(s@.subrange(0, n as int)),
        decreases n,
    {
        let ghost t = s@.subrange(0, n as int);
        assert(t.drop_last() =~= s@.subrange(0, n - 1));
        n = n - 1;
    }
    let ghost t = s@.subrange(0, n as int);
    assert(trim_end_dots(t) == t);
    n
}

/// Whether a CNAME value names the expected target, trailing dots aside.
pub fn cname_points_to(cname: &str, target: &str) -> (r: bool)
    ensures
        r == (trim_end_dots(cname@) == trim_end_dots(target@)),
{
    let a = trimmed_len(cname);
    let b = trimmed_len(target);
    proof {
        lemma_trim_end_dots_prefix(cname@);
        lemma_trim_end_dots_prefix(target@);
    }
    if a != b {
        return false;
    }
    let mut i: usize = 0;
    while i < a
        invariant
            a == b,
            a == trim_end_dots(cname@).len(),
            b == trim_end_dots(target@).len(),
            a <= cname@.len(),
            b <= target@.len(),
            trim_end_dots(cname@) == cname@.subrange(0, a as int),
            trim_end_dots(target@) == target@.subrange(0, b as int),
            i <= a,
            forall|k: int| 0 <= k < i ==> cname@[k] == target@[k],
        decreases a - i,
    {
        if cname.get_char(i) != target.get_char(i) {
            assert(trim_end_dots(cname@)[i as int] != trim_end_dots(target@)[i as int]);
            return false;
        }
        i = i + 1;
    }
    assert(trim_end_dots(cname@) =~= trim_end_dots(target@));
    true
}

} // verus!
