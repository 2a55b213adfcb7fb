//! The sequential hash chain: `2^n` applications of SHA-256 to a 32-byte
//! state that starts as the beacon, with a checkpoint every `2^(n-10)`
//! steps, so that a run always yields 1024 of them.

use vstd::prelude::*;
use vstd::arithmetic::div_mod::{lemma_fundamental_div_mod, lemma_mod_multiples_basic};
use vstd::arithmetic::mul::lemma_mul_strict_inequality;
use vstd::arithmetic::power2::{lemma2_to64, lemma_pow2_adds, lemma_pow2_pos, pow2};
use vstd::bits::{lemma_u64_pow2_no_overflow, lemma_u64_shl_is_mul};
use vstd::string::StringSliceAdditionalSpecFns;
use crate::beacon::{
    beacon_of_text, check_iterations, decode_beacon, valid_iterations, BEACON_LEN, MIN_ITERATIONS,
};
use crate::error::BeaconError;
use crate::seed::seed_words;

verus! {

/// The number of checkpoints of a run, whatever its length.
pub const CHECKPOINTS: u64 = 1024;

/// The SHA-256 digest of `input`.
pub uninterp spec fn sha256(input: Seq<u8>) -> Seq<u8>;

/// Replaces the state by its SHA-256 digest, computed by `crypto::sha2::Sha256`
/// (`new`, `input`, `result`): the 32 bytes written are a function of the 32
/// bytes read and of nothing else.
#[verifier::external_body]
fn sha256_in_place(state: &mut [u8; 32])
    ensures
        final(state)@ == sha256(old(state)@),
{
    let mut hasher = crypto::sha2::Sha256::new();
    crypto::digest::Digest::input(&mut hasher, &state[..]);
    crypto::digest::Digest::result(&mut hasher, &mut state[..]);
}

/// The state of the chain `steps` hash applications after `start`.
pub open spec fn chain_state(start: Seq<u8>, steps: nat) -> Seq<u8>
    decreases steps,
{
    if steps == 0 {
        start
    } else {
        sha256(chain_state(start, (steps - 1) as nat))
    }
}

/// The number of hash steps of a run with exponent `n`.
pub open spec fn chain_length(n: usize) -> nat {
    pow2(n as nat)
}

/// The number of hash steps between two checkpoints of a run with exponent `n`.
pub open spec fn checkpoint_interval(n: usize) -> nat {
    pow2((n - MIN_ITERATIONS) as nat)
}

/// A snapshot of the chain: the state before hash step number `index`.
#[derive(Clone, Copy, Debug, PartialEq, Eq)]
pub struct Checkpoint {
    pub index: u64,
    pub hash: [u8; 32],
}

impl Checkpoint {
    /// Whether this is checkpoint number `k` of the run from `beacon` with
    /// exponent `n`.
    pub open spec fn is_number(self, k: int, beacon: Seq<u8>, n: usize) -> bool {
        &&& self.index == k * checkpoint_interval(n)
        &&& self.hash@ == chain_state(beacon, (k * checkpoint_interval(n)) as nat)
    }
}

/// What a chain in progress stands for.
pub struct ChainView {
    /// The 32 bytes the chain started from.
    pub beacon: Seq<u8>,
    /// The exponent of the chain length.
    pub iterations: usize,
    /// How many checkpoints have been handed out.
    pub emitted: nat,
    /// The current 32-byte state.
    pub state: Seq<u8>,
}

impl ChainView {
    /// The number of hash steps behind the current state.
    pub open spec fn steps_done(self) -> nat {
        self.emitted * checkpoint_interval(self.iterations)
    }

    /// A chain that has not hashed yet.
    pub open spec fn fresh(beacon: Seq<u8>, iterations: usize) -> ChainView {
        ChainView { beacon, iterations, emitted: 0, state: beacon }
    }

    /// What holds of every chain: the exponent is admissible, and the state
    /// is the beacon hashed once for each step done.
    pub open spec fn consistent(self) -> bool {
        &&& valid_iterations(self.iterations)
        &&& self.beacon.len() == BEACON_LEN
        &&& self.emitted <= CHECKPOINTS
        &&& self.state == chain_state(self.beacon, self.steps_done())
    }

    /// Whether all checkpoints are out and all `2^n` steps are done.
    pub open spec fn finished(self) -> bool {
        self.emitted == CHECKPOINTS
    }

    /// The chain at its end: all checkpoints are out, and the state is the
    /// beacon hashed `2^n` times.
    pub open spec fn completed(self) -> ChainView {
        ChainView {
            emitted: CHECKPOINTS as nat,
            state: chain_state(self.beacon, chain_length(self.iterations)),
            ..self
        }
    }

    /// The chain one checkpoint later: one more is out, and the state has
    /// moved on through one interval.
    pub open spec fn advanced(self) -> ChainView {
        ChainView {
            emitted: self.emitted + 1,
            state: chain_state(
                self.beacon,
                (self.emitted + 1) * checkpoint_interval(self.iterations),
            ),
            ..self
        }
    }
}

/// What is left of a run: the checkpoints still to come, in order, and the
/// end of the chain.
#[derive(Debug, PartialEq, Eq)]
pub struct Derivation {
    pub checkpoints: Vec<Checkpoint>,
    pub final_hash: [u8; 32],
}

impl Derivation {
    /// Whether this is what the chain `from` yields when it runs to its
    /// end: each checkpoint not yet handed out, then the beacon hashed
    /// `2^n` times.
    pub open spec fn completes(self, from: ChainView) -> bool {
        &&& checkpoints_left(self.checkpoints@, from)
        &&& self.final_hash@ == chain_state(from.beacon, chain_length(from.iterations))
    }
}

/// Whether `checkpoints` are those that the chain `from` has still to hand
/// out, in order, up to the last of the 1024.
pub open spec fn checkpoints_left(checkpoints: Seq<Checkpoint>, from: ChainView) -> bool {
    &&& checkpoints.len() == CHECKPOINTS - from.emitted
    &&& forall|j: int|
        0 <= j < checkpoints.len() ==> (#[trigger] checkpoints[j]).is_number(
            from.emitted + j,
            from.beacon,
            from.iterations,
        )
}

/// A hash chain that advances from checkpoint to checkpoint.
pub struct HashChain {
    beacon: [u8; 32],
    iterations: usize,
    emitted: u64,
    state: [u8; 32],
}

impl View for HashChain {
    type V = ChainView;

    closed spec fn view(&self) -> ChainView {
        ChainView {
            beacon: self.beacon@,
            iterations: self.iterations,
            emitted: self.emitted as nat,
            state: self.state@,
        }
    }
}

/// Hashing `a` steps and then `b` more is hashing `a + b` steps.
pub proof fn lemma_chain_state_add(start: Seq<u8>, a: nat, b: nat)
    ensures
        chain_state(chain_state(start, a), b) == chain_state(start, a + b),
    decreases b,
{
    if b > 0 {
        lemma_chain_state_add(start, a, (b - 1) as nat);
        assert(a + b - 1 == a + (b - 1) as nat);
    }
}

/// The checkpoints divide the chain evenly: 1024 intervals make up all
/// `2^n` steps, and an interval is between 1 and `2^53` steps long.
pub proof fn lemma_intervals_fill_chain(n: usize)
    requires
        valid_iterations(n),
    ensures
        CHECKPOINTS * checkpoint_interval(n) == chain_length(n),
        0 < checkpoint_interval(n) <= 0x20_0000_0000_0000,
        chain_length(n) <= 0x8000_0000_0000_0000,
{
    lemma2_to64();
    lemma_pow2_adds(10, (n - 10) as nat);
    lemma_pow2_pos((n - 10) as nat);
    lemma_pow2_adds((n - 10) as nat, (63 - n) as nat);
    lemma_pow2_pos((63 - n) as nat);
    lemma_pow2_adds(10, 53);
    lemma_pow2_adds(21, 32);
    lemma_pow2_adds(31, 32);
    let i = pow2((n - 10) as nat);
    let r = pow2((63 - n) as nat);
    assert(i * r == pow2(53));
    assert(i <= i * r) by (nonlinear_arith)
        requires
            i > 0,
            r > 0,
    ;
    assert(1024 * i <= 1024 * pow2(53));
}

/// A run is a function of the beacon and the exponent: two runs from the
/// same beacon with the same exponent end in the same hash, give the same
/// seed, and pass the same checkpoints.
pub proof fn lemma_derivation_is_deterministic(
    first: Derivation,
    second: Derivation,
    beacon: Seq<u8>,
    iterations: usize,
)
    requires
        first.completes(ChainView::fresh(beacon, iterations)),
        second.completes(ChainView::fresh(beacon, iterations)),
    ensures
        first.final_hash == second.final_hash,
        seed_words(first.final_hash@) == seed_words(second.final_hash@),
        first.checkpoints@ == second.checkpoints@,
{
    assert(first.final_hash@ =~= second.final_hash@);
    assert(first.final_hash =~= second.final_hash);
    assert forall|k: int| 0 <= k < first.checkpoints@.len() implies first.checkpoints@[k]
        == second.checkpoints@[k] by {
        let a = first.checkpoints@[k];
        let b = second.checkpoints@[k];
        assert(a.is_number(k, beacon, iterations));
        assert(b.is_number(k, beacon, iterations));
        assert(a.hash@ =~= b.hash@);
        assert(a.hash =~= b.hash);
    }
    assert(first.checkpoints@ =~= second.checkpoints@);
}

/// A whole run passes exactly 1024 checkpoints. The first stands at step
/// 0, each stands at a multiple of the interval `2^(n-10)` and before the
/// end of the chain, and each is one interval after the one before.
pub proof fn lemma_checkpoint_places(run: Derivation, beacon: Seq<u8>, iterations: usize)
    requires
        valid_iterations(iterations),
        run.completes(ChainView::fresh(beacon, iterations)),
    ensures
        run.checkpoints@.len() == CHECKPOINTS,
        run.checkpoints@[0].index == 0,
        forall|k: int|
            0 <= k < CHECKPOINTS ==> {
                &&& (#[trigger] run.checkpoints@[k]).index == k * checkpoint_interval(iterations)
                &&& run.checkpoints@[k].index as int % checkpoint_interval(iterations) as int == 0
                &&& run.checkpoints@[k].index < chain_length(iterations)
            },
        forall|k: int|
            0 < k < CHECKPOINTS ==> (#[trigger] run.checkpoints@[k]).index == run.checkpoints@[k
                - 1].index + checkpoint_interval(iterations),
{
    let interval = checkpoint_interval(iterations) as int;
    lemma_intervals_fill_chain(iterations);
    assert(run.checkpoints@[0].is_number(0, beacon, iterations));
    assert forall|k: int| 0 <= k < CHECKPOINTS implies {
        &&& (#[trigger] run.checkpoints@[k]).index == k * interval
        &&& run.checkpoints@[k].index as int % interval == 0
        &&& run.checkpoints@[k].index < chain_length(iterations)
    } by {
        assert(run.checkpoints@[k].is_number(k, beacon, iterations));
        lemma_mod_multiples_basic(k, interval);
        lemma_mul_strict_inequality(k, 1024, interval);
    }
    assert forall|k: int| 0 < k < CHECKPOINTS implies (#[trigger] run.checkpoints@[k]).index
        == run.checkpoints@[k - 1].index + interval by {
        assert(run.checkpoints@[k].is_number(k, beacon, iterations));
        assert(run.checkpoints@[k - 1].is_number(k - 1, beacon, iterations));
        assert(k * interval == (k - 1) * interval + interval) by (nonlinear_arith);
    }
}

/// Every step of the chain whose number is a multiple of the interval is
/// the place of one of the 1024 checkpoints.
pub proof fn lemma_multiples_are_checkpoints(iterations: usize, step: nat)
    requires
        valid_iterations(iterations),
        step < chain_length(iterations),
        step % checkpoint_interval(iterations) == 0,
    ensures
        0 <= step / checkpoint_interval(iterations) < CHECKPOINTS,
        step == (step / checkpoint_interval(iterations)) * checkpoint_interval(iterations),
{
    let interval = checkpoint_interval(iterations) as int;
    let k = step as int / interval;
    lemma_intervals_fill_chain(iterations);
    lemma_fundamental_div_mod(step as int, interval);
    assert(step == k * interval) by (nonlinear_arith)
        requires
            step == interval * k + 0,
    ;
    assert(k < 1024) by (nonlinear_arith)
        requires
            k * interval < 1024 * interval,
            interval > 0,
    ;
}

impl HashChain {
    #[verifier::type_invariant]
    spec fn well_formed(self) -> bool {
        self@.consistent()
    }

    /// A chain at its start: checks the exponent, and takes the beacon as
    /// the first state. Nothing is hashed yet.
    pub fn new(beacon: [u8; 32], iterations: usize) -> (chain: Result<HashChain, BeaconError>)
        ensures
            valid_iterations(iterations) ==> chain is Ok && chain.unwrap()@ == ChainView::fresh(
                beacon@,
                iterations,
            ),
            !valid_iterations(iterations) ==> chain == Err::<HashChain, BeaconError>(
                BeaconError::IterationRange,
            ),
    {
        match check_iterations(iterations) {
            Ok(()) => Ok(HashChain { beacon, iterations, emitted: 0, state: beacon }),
            Err(e) => Err(e),
        }
    }

    /// A chain at its start, from the beacon as hexadecimal text. The
    /// exponent is checked first, then the beacon; nothing is hashed yet.
    pub fn start(beacon_hex: &str, iterations: usize) -> (chain: Result<HashChain, BeaconError>)
        ensures
            !valid_iterations(iterations) ==> chain == Err::<HashChain, BeaconError>(
                BeaconError::IterationRange,
            ),
            valid_iterations(iterations) ==> match beacon_of_text(beacon_hex.spec_bytes()) {
                Ok(beacon) => chain is Ok && chain.unwrap()@ == ChainView::fresh(
                    beacon,
                    iterations,
                ),
                Err(fault) => chain == Err::<HashChain, BeaconError>(
                    BeaconError::BeaconFormat(fault),
                ),
            },
    {
        match check_iterations(iterations) {
            Ok(()) => match decode_beacon(beacon_hex) {
                Ok(beacon) => HashChain::new(beacon, iterations),
                Err(e) => Err(e),
            },
            Err(e) => Err(e),
        }
    }

    /// The beacon the chain started from.
    pub fn beacon(&self) -> (beacon: [u8; 32])
        ensures
            beacon@ == self@.beacon,
    {
        self.beacon
    }

    /// The exponent of the chain length.
    pub fn iterations(&self) -> (n: usize)
        ensures
            n == self@.iterations,
            self@.consistent(),
    {
        proof {
            use_type_invariant(self);
        }
        self.iterations
    }

    /// How many checkpoints have been handed out.
    pub fn emitted(&self) -> (count: u64)
        ensures
            count == self@.emitted,
            self@.consistent(),
    {
        proof {
            use_type_invariant(self);
        }
        self.emitted
    }

    /// The number of hash steps between two checkpoints.
    pub fn interval(&self) -> (steps: u64)
        ensures
            steps == checkpoint_interval(self@.iterations),
    {
        proof {
            use_type_invariant(self);
            lemma_intervals_fill_chain(self.iterations);
        }
        let shift: u64 = (self.iterations - MIN_ITERATIONS) as u64;
        proof {
            lemma_u64_pow2_no_overflow(shift as nat);
            lemma_u64_shl_is_mul(1, shift);
        }
        1u64 << shift
    }

    /// Whether all 1024 checkpoints are out, and so all `2^n` steps done.
    pub fn is_finished(&self) -> (done: bool)
        ensures
            done == self@.finished(),
    {
        self.emitted == CHECKPOINTS
    }

    /// The current state: the beacon hashed once for each step done.
    pub fn state(&self) -> (state: [u8; 32])
        ensures
            state@ == self@.state,
            self@.consistent(),
    {
        proof {
            use_type_invariant(self);
        }
        self.state
    }

    /// The end of the chain, once all steps are done: the beacon hashed
    /// `2^n` times.
    pub fn final_hash(&self) -> (hash: Option<[u8; 32]>)
        ensures
            hash is Some <==> self@.finished(),
            hash matches Some(h) ==> h@ == self@.state && h@ == chain_state(
                self@.beacon,
                chain_length(self@.iterations),
            ),
    {
        proof {
            use_type_invariant(self);
            lemma_intervals_fill_chain(self.iterations);
        }
        if self.emitted == CHECKPOINTS {
            Some(self.state)
        } else {
            None
        }
    }

    /// Hands out the next checkpoint, which is the current state with its
    /// step number, and then hashes on through one interval. After the
    /// last checkpoint the chain has reached its end; from then on there is
    /// no checkpoint and the chain stays as it is.
    pub fn next_checkpoint(&mut self) -> (checkpoint: Option<Checkpoint>)
        ensures
            old(self)@.consistent(),
            final(self)@.consistent(),
            old(self)@.finished() ==> checkpoint is None && final(self)@ == old(self)@,
            !old(self)@.finished() ==> {
                &&& checkpoint is Some
                &&& checkpoint.unwrap().is_number(
                    old(self)@.emitted as int,
                    old(self)@.beacon,
                    old(self)@.iterations,
                )
                &&& final(self)@ == old(self)@.advanced()
            },
    {
        proof {
            use_type_invariant(&*self);
            lemma_intervals_fill_chain(self.iterations);
        }
        if self.emitted == CHECKPOINTS {
            return None;
        }
        let interval = self.interval();
        let ghost before = self.state@;
        let ghost steps = self@.steps_done();
        assert(self.emitted * interval <= 1023 * interval) by (nonlinear_arith)
            requires
                self.emitted <= 1023,
                interval >= 0,
        ;
        let checkpoint = Checkpoint { index: self.emitted * interval, hash: self.state };
        let mut state = self.state;
        let mut done: u64 = 0;
        while done < interval
            invariant
                done <= interval,
                state@ == chain_state(before, done as nat),
            decreases interval - done,
        {
            sha256_in_place(&mut state);
            done += 1;
        }
        proof {
            lemma_chain_state_add(self.beacon@, steps, interval as nat);
            assert((self.emitted + 1) * interval == self.emitted * interval + interval)
                by (nonlinear_arith);
        }
        *self = HashChain {
            beacon: self.beacon,
            iterations: self.iterations,
            emitted: self.emitted + 1,
            state,
        };
        Some(checkpoint)
    }

    /// Runs the chain to its end and returns the checkpoints met on the
    /// way with the final state.
    pub fn run(self) -> (rest: Derivation)
        ensures
            rest.completes(self@),
    {
        let mut chain = self;
        let mut checkpoints: Vec<Checkpoint> = Vec::new();
        proof {
            use_type_invariant(&chain);
        }
        loop
            invariant_except_break
                chain@.beacon == self@.beacon,
                chain@.iterations == self@.iterations,
                chain@.emitted == self@.emitted + checkpoints@.len(),
                forall|j: int|
                    0 <= j < checkpoints@.len() ==> (#[trigger] checkpoints@[j]).is_number(
                        self@.emitted + j,
                        self@.beacon,
                        self@.iterations,
                    ),
            ensures
                chain@.finished(),
                chain@.beacon == self@.beacon,
                chain@.iterations == self@.iterations,
                checkpoints@.len() == CHECKPOINTS - self@.emitted,
                forall|j: int|
                    0 <= j < checkpoints@.len() ==> (#[trigger] checkpoints@[j]).is_number(
                        self@.emitted + j,
                        self@.beacon,
                        self@.iterations,
                    ),
            decreases CHECKPOINTS - chain@.emitted,
        {
            match chain.next_checkpoint() {
                Some(checkpoint) => {
                    checkpoints.push(checkpoint);
                },
                None => {
                    break ;
                },
            }
        }
        match chain.final_hash() {
            Some(final_hash) => Derivation { checkpoints, final_hash },
            None => {
                proof {
                    assert(false);
                }
                Derivation { checkpoints, final_hash: chain.state() }
            },
        }
    }
}

/// Derives the end of the chain from a beacon and an exponent: checks the
/// exponent, then the beacon, and only then hashes `2^n` times, noting a
/// checkpoint every `2^(n-10)` steps from step 0 on.
pub fn derive_chain(beacon_hex: &str, iterations: usize) -> (outcome: Result<Derivation, BeaconError>)
    ensures
        !valid_iterations(iterations) ==> outcome == Err::<Derivation, BeaconError>(
            BeaconError::IterationRange,
        ),
        valid_iterations(iterations) ==> match beacon_of_text(beacon_hex.spec_bytes()) {
            Ok(beacon) => outcome is Ok && outcome.unwrap().completes(
                ChainView::fresh(beacon, iterations),
            ),
            Err(fault) => outcome == Err::<Derivation, BeaconError>(
                BeaconError::BeaconFormat(fault),
            ),
        },
{
    match HashChain::start(beacon_hex, iterations) {
        Ok(chain) => Ok(chain.run()),
        Err(e) => Err(e),
    }
}

/// As `derive_chain`, from a beacon that is already 32 bytes.
pub fn derive_chain_from_bytes(beacon: [u8; 32], iterations: usize) -> (outcome: Result<
    Derivation,
    BeaconError,
>)
    ensures
        valid_iterations(iterations) ==> outcome is Ok && outcome.unwrap().completes(
            ChainView::fresh(beacon@, iterations),
        ),
        !valid_iterations(iterations) ==> outcome == Err::<Derivation, BeaconError>(
            BeaconError::IterationRange,
        ),
{
    match HashChain::new(beacon, iterations) {
        Ok(chain) => Ok(chain.run()),
        Err(e) => Err(e),
    }
}

} // verus!
