//! Configuration and the number of rounds a connection must solve.
use crate::load::capped;
use vstd::prelude::*;

verus! {

/// The difficulty threshold in use: about one hash in a thousand lies below it.
pub const DIFFICULTY: u64 = 18446744073709551;

/// The base amount of work, required even when no traffic was recorded.
pub const DEFAULT_BASE: u64 = 1000;

/// The rounds required when `requests` were counted recently, with base `base`:
/// one more round per hundred requests.
pub open spec fn target_of(requests: u64, base: u64) -> u64 {
    capped(requests as nat / 100 + base as nat)
}

/// The rounds required for `requests` recent requests above base `base`,
/// capped at the largest `u64`.
pub fn target_work(requests: u64, base: u64) -> (r: u64)
    ensures
        r == target_of(requests, base),
{
    (requests / 100).saturating_add(base)
}

/// The rounds required for `requests` recent requests with the default base.
pub fn calculate_target_work_count(requests: u64) -> (r: u64)
    ensures
        r == target_of(requests, DEFAULT_BASE),
{
    target_work(requests, DEFAULT_BASE)
}

/// More traffic never asks for less work.
pub proof fn lemma_target_monotone(a: u64, b: u64, base: u64)
    requires
        a <= b,
    ensures
        target_of(a, base) <= target_of(b, base),
{
    assert(a as nat / 100 <= b as nat / 100) by (nonlinear_arith)
        requires
            a <= b,
    ;
}

/// With a positive base the work required is never zero.
pub proof fn lemma_target_positive(requests: u64, base: u64)
    requires
        base >= 1,
    ensures
        target_of(requests, base) >= 1,
{
}

/// The constants a server runs with: the difficulty threshold and the base
/// amount of work.
pub struct Config {
    difficulty: u64,
    base: u64,
}

impl Config {
    /// The base is positive, so that no connection is let through without work.
    pub open spec fn wf(&self) -> bool {
        self.base_spec() >= 1
    }

    pub closed spec fn difficulty_spec(&self) -> u64 {
        self.difficulty
    }

    pub closed spec fn base_spec(&self) -> u64 {
        self.base
    }

    /// A configuration, or `None` when `base` is zero.
    pub fn new(difficulty: u64, base: u64) -> (r: Option<Config>)
        ensures
            base == 0 <==> r is None,
            r matches Some(c) ==> c.wf() && c.difficulty_spec() == difficulty && c.base_spec() == base,
    {
        if base == 0 {
            None
        } else {
            Some(Config { difficulty, base })
        }
    }

    /// The configuration `DIFFICULTY` and `DEFAULT_BASE`.
    pub fn standard() -> (r: Config)
        ensures
            r.wf(),
            r.difficulty_spec() == DIFFICULTY,
            r.base_spec() == DEFAULT_BASE,
    {
        Config { difficulty: DIFFICULTY, base: DEFAULT_BASE }
    }

    pub fn difficulty(&self) -> (r: u64)
        ensures
            r == self.difficulty_spec(),
    {
        self.difficulty
    }

    pub fn base(&self) -> (r: u64)
        ensures
            r == self.base_spec(),
    {
        self.base
    }

    /// The rounds required under this configuration for `requests` recent requests.
    pub fn target(&self, requests: u64) -> (r: u64)
        requires
            self.wf(),
        ensures
            r == target_of(requests, self.base_spec()),
            r >= 1,
    {
        target_work(requests, self.base)
    }
}

} // verus!
