//! The database of block proofs: its entries, its settings, and when a failed
//! insertion is tried again.

use vstd::arithmetic::power2::*;
use vstd::prelude::*;

verus! {

/// An entry of the database.
#[derive(Debug, Clone)]
pub struct BlockProof {
    pub block_number: u64,
    pub zisk_version: String,
    pub hardware: String,
    pub proof: String,
    /// Proving time in milliseconds.
    pub proving_time: u32,
    pub steps: u64,
}

/// The contents of a [`BlockProof`].
pub struct BlockProofView {
    pub block_number: u64,
    pub zisk_version: Seq<char>,
    pub hardware: Seq<char>,
    pub proof: Seq<char>,
    pub proving_time: u32,
    pub steps: u64,
}

impl View for BlockProof {
    type V = BlockProofView;

    open spec fn view(&self) -> BlockProofView {
        BlockProofView {
            block_number: self.block_number,
            zisk_version: self.zisk_version@,
            hardware: self.hardware@,
            proof: self.proof@,
            proving_time: self.proving_time,
            steps: self.steps,
        }
    }
}

/// Settings of the database writer. Times are in nanoseconds.
#[derive(Debug, Clone, Copy)]
pub struct DbBlockProofsConfig {
    pub queue_capacity: usize,
    pub max_connections: u32,
    pub acquire_timeout_ns: u128,
    pub max_retries: usize,
    pub base_backoff_ns: u128,
}

impl Default for DbBlockProofsConfig {
    fn default() -> (r: Self)
        ensures
            r.queue_capacity == 10,
            r.max_connections == 5,
            r.acquire_timeout_ns == 5_000_000_000,
            r.max_retries == 5,
            r.base_backoff_ns == 200_000_000,
    {
        DbBlockProofsConfig {
            queue_capacity: 10,
            max_connections: 5,
            acquire_timeout_ns: 5_000_000_000,
            max_retries: 5,
            base_backoff_ns: 200_000_000,
        }
    }
}

/// The longest pause between two attempts, in nanoseconds.
pub const MAX_BACKOFF_NS: u64 = 5_000_000_000;

/// The smaller of two numbers.
pub open spec fn least(a: int, b: int) -> int {
    if a <= b {
        a
    } else {
        b
    }
}

/// The factor of the base pause after `failures` failed attempts: it doubles
/// with each one, up to what 32 bits hold.
pub open spec fn backoff_factor(failures: int) -> int {
    least(pow2(((failures - 1) as u32) as nat) as int, u32::MAX as int)
}

/// The pause in nanoseconds after `failures` failed attempts.
pub open spec fn backoff_ns(base_backoff_ns: u128, failures: int) -> int {
    least(base_backoff_ns * backoff_factor(failures), MAX_BACKOFF_NS as int)
}

/// What follows a failed insertion.
#[derive(Debug, Clone, Copy, PartialEq, Eq, Structural)]
pub enum RetryStep {
    GiveUp,
    /// Try again after a pause; `failures` attempts have failed by now.
    RetryAfter { failures: usize, sleep_ns: u64 },
}

/// What follows an insertion that failed after `failures` failed ones.
pub open spec fn after_failure(failures: usize, max_retries: usize, base_backoff_ns: u128) -> RetryStep {
    if failures + 1 > max_retries {
        RetryStep::GiveUp
    } else {
        RetryStep::RetryAfter {
            failures: (failures + 1) as usize,
            sleep_ns: backoff_ns(base_backoff_ns, failures + 1) as u64,
        }
    }
}

/// Two to the power of `exponent`, or the largest 32-bit number if that is
/// smaller.
fn saturating_power_of_two(exponent: u32) -> (r: u32)
    ensures
        r == least(pow2(exponent as nat) as int, u32::MAX as int),
{
    let mut power: u64 = 1;
    let mut i: u32 = 0;
    proof {
        lemma2_to64();
    }
    while i < exponent && i < 32
        invariant
            i <= 32,
            i <= exponent,
            power == pow2(i as nat),
            i < 32 ==> power < 0x1_0000_0000,
            i == 32 ==> power == 0x1_0000_0000,
        decreases 32 - i,
    {
        proof {
            lemma_pow2_unfold((i + 1) as nat);
            lemma2_to64();
            if i + 1 < 32 {
                lemma_pow2_strictly_increases((i + 1) as nat, 32);
            }
        }
        power = power * 2;
        i = i + 1;
    }
    if i < exponent {
        proof {
            lemma_pow2_strictly_increases(32, exponent as nat);
        }
        u32::MAX
    } else if power > u32::MAX as u64 {
        u32::MAX
    } else {
        power as u32
    }
}

/// Decides what follows an insertion that failed after `failures` failed ones:
/// up to `max_retries` further attempts, each after a longer pause.
pub fn insert_with_retries(failures: usize, max_retries: usize, base_backoff_ns: u128) -> (r: RetryStep)
    requires
        failures < usize::MAX,
    ensures
        r == after_failure(failures, max_retries, base_backoff_ns),
{
    let attempt: usize = failures + 1;
    if attempt > max_retries {
        return RetryStep::GiveUp;
    }
    let factor: u32 = saturating_power_of_two((attempt - 1) as u32);
    proof {
        lemma_pow2_pos(((attempt - 1) as u32) as nat);
    }
    let limit: u128 = MAX_BACKOFF_NS as u128;
    let sleep_ns: u64 = if base_backoff_ns >= limit {
        assert(base_backoff_ns * factor >= limit) by (nonlinear_arith)
            requires
                base_backoff_ns >= limit,
                factor >= 1,
        ;
        MAX_BACKOFF_NS
    } else {
        assert(base_backoff_ns * factor <= MAX_BACKOFF_NS * u32::MAX) by (nonlinear_arith)
            requires
                base_backoff_ns <= MAX_BACKOFF_NS,
                factor <= u32::MAX,
        ;
        let backoff: u128 = base_backoff_ns * factor as u128;
        if backoff <= limit {
            backoff as u64
        } else {
            MAX_BACKOFF_NS
        }
    };
    RetryStep::RetryAfter { failures: attempt, sleep_ns }
}

/// An insertion that keeps failing is attempted once and then tried again
/// exactly as often as configured.
pub proof fn law_gives_up_after_retries(failures: usize, max_retries: usize, base_backoff_ns: u128)
    requires
        failures <= max_retries,
    ensures
        after_failure(failures, max_retries, base_backoff_ns) == RetryStep::GiveUp <==> failures
            == max_retries,
{
}

/// Pauses never get shorter from one attempt to the next, and none exceeds the
/// limit.
pub proof fn law_pauses_grow_to_limit(base_backoff_ns: u128, failures: u32)
    requires
        1 <= failures,
    ensures
        0 <= backoff_ns(base_backoff_ns, failures as int) <= MAX_BACKOFF_NS,
        backoff_ns(base_backoff_ns, failures as int) <= backoff_ns(
            base_backoff_ns,
            failures + 1,
        ),
{
    let n = (failures - 1) as nat;
    lemma_pow2_unfold(n + 1);
    lemma_pow2_pos(n);
    let a = backoff_factor(failures as int);
    let b = backoff_factor(failures + 1);
    assert(0 <= a <= b);
    assert(0 <= base_backoff_ns * a <= base_backoff_ns * b) by (nonlinear_arith)
        requires
            0 <= a <= b,
            base_backoff_ns >= 0,
    ;
}

/// After the first failed attempt the pause is the base one, cut at five seconds.
/// Each further failure doubles it up to there, until the factor no longer fits in
/// 32 bits; from then on it is the largest that does, until the failures
/// themselves no longer fit and are counted from the first again.
pub proof fn law_pauses_double(base_backoff_ns: u128, failures: int)
    requires
        1 <= failures <= u32::MAX,
    ensures
        backoff_ns(base_backoff_ns, 1) == if base_backoff_ns <= 5_000_000_000 {
            base_backoff_ns as int
        } else {
            5_000_000_000
        },
        failures <= 31 ==> backoff_ns(base_backoff_ns, failures + 1) == if 2 * backoff_ns(
            base_backoff_ns,
            failures,
        ) <= 5_000_000_000 {
            2 * backoff_ns(base_backoff_ns, failures)
        } else {
            5_000_000_000
        },
        failures > 32 ==> backoff_ns(base_backoff_ns, failures) == if base_backoff_ns
            * 0xffff_ffff <= 5_000_000_000 {
            base_backoff_ns * 0xffff_ffff
        } else {
            5_000_000_000
        },
        backoff_ns(base_backoff_ns, failures + 0x1_0000_0000) == backoff_ns(
            base_backoff_ns,
            failures,
        ),
{
    lemma2_to64();
    if failures <= 31 {
        let n = (failures - 1) as nat;
        lemma_pow2_unfold(n + 1);
        lemma_pow2_pos(n);
        lemma_pow2_strictly_increases(n + 1, 32);
        let p = pow2(n) as int;
        assert(pow2(n + 1) == 2 * p);
        assert(((failures - 1) as u32) as nat == n);
        assert(((failures + 1 - 1) as u32) as nat == n + 1);
        assert(base_backoff_ns * (2 * p) == 2 * (base_backoff_ns * p)) by (nonlinear_arith);
    } else if failures > 32 {
        if failures > 33 {
            lemma_pow2_strictly_increases(32, (failures - 1) as nat);
        }
        assert(((failures - 1) as u32) as nat == (failures - 1) as nat);
    }
    assert(base_backoff_ns * 1 == base_backoff_ns);
    let n: u64 = (failures - 1) as u64;
    assert(n <= 0xffff_fffe ==> (n + 0x1_0000_0000) as u32 == n as u32) by (bit_vector);
}

/// What follows a failed insertion: one more failure is counted, and it is tried
/// again, after the pause for that many failures, exactly if there are no more of
/// them than retries.
pub proof fn law_failures_are_counted(failures: usize, max_retries: usize, base_backoff_ns: u128)
    requires
        failures < usize::MAX,
    ensures
        failures < max_retries <==> after_failure(failures, max_retries, base_backoff_ns)
            is RetryAfter,
        failures < max_retries ==> (after_failure(failures, max_retries, base_backoff_ns)
            matches RetryStep::RetryAfter { failures: counted, sleep_ns } && counted == failures
            + 1 && sleep_ns == backoff_ns(base_backoff_ns, failures + 1)),
{
    lemma_pow2_pos(((failures + 1 - 1) as u32) as nat);
    let factor = backoff_factor(failures + 1);
    assert(base_backoff_ns * factor >= 0) by (nonlinear_arith)
        requires
            base_backoff_ns >= 0,
            factor >= 0,
    ;
}

/// The contents of an entry are those of its fields.
pub proof fn law_entry_contents(entry: BlockProof)
    ensures
        entry@.block_number == entry.block_number,
        entry@.zisk_version == entry.zisk_version@,
        entry@.hardware == entry.hardware@,
        entry@.proof == entry.proof@,
        entry@.proving_time == entry.proving_time,
        entry@.steps == entry.steps,
{
}

} // verus!
