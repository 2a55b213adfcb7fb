//! One run from loading the parameters to handing out their updated form.
//!
//! The pipeline owns the ceremony parameters for the whole run. It never
//! looks into them: it reads them, lets the contribution change them once,
//! and writes them back. Reading and writing files is left to the caller,
//! who hands over bytes and is handed bytes.

use vstd::prelude::*;
use vstd::string::StringSliceAdditionalSpecFns;
use crate::beacon::{beacon_of_text, check_iterations, valid_iterations};
use crate::chain::{
    chain_length, chain_state, checkpoints_left, lemma_intervals_fill_chain, ChainView, Checkpoint,
    HashChain, CHECKPOINTS,
};
use crate::error::{BeaconError, FormatFault};
use crate::seed::{seed_from_hash, seed_words};

verus! {

#[verifier::external_type_specification]
#[verifier::external_body]
pub struct ExMpcParameters(phase2::MPCParameters);

#[verifier::external_type_specification]
#[verifier::external_body]
pub struct ExChaChaRng(rand::ChaChaRng);

#[verifier::external_type_specification]
#[verifier::external_body]
pub struct ExIoError(std::io::Error);

/// What `phase2::MPCParameters::read` makes of serialized parameters, with
/// its checks of the curve points switched on or off as `checked` says:
/// the parameters, or the error it ends in.
pub uninterp spec fn parameters_read(serialized: Seq<u8>, checked: bool) -> Result<
    phase2::MPCParameters,
    std::io::Error,
>;

/// Whether the first secret that `phase2::MPCParameters::contribute` would
/// draw from a generator is zero in the scalar field.
pub uninterp spec fn draws_zero_secret(generator: rand::ChaChaRng) -> bool;

/// The generator that `rand::ChaChaRng` is when made from the words of a seed.
pub uninterp spec fn generator_of(seed: Seq<u32>) -> rand::ChaChaRng;

/// What `phase2::MPCParameters::contribute` makes of parameters with a
/// generator: the parameters after the contribution, and its fingerprint.
pub uninterp spec fn contribution_of(
    parameters: phase2::MPCParameters,
    generator: rand::ChaChaRng,
) -> (phase2::MPCParameters, Seq<u8>);

/// The bytes that `phase2::MPCParameters::write` writes for parameters.
pub uninterp spec fn serialized_form(parameters: phase2::MPCParameters) -> Seq<u8>;

/// Whether reading with all checks accepts serialized parameters.
pub open spec fn parameters_accepted(serialized: Seq<u8>) -> bool {
    parameters_read(serialized, true) is Ok
}

/// The seed of the run from `beacon` with exponent `iterations`: the end of
/// its chain as eight words.
pub open spec fn run_seed(beacon: Seq<u8>, iterations: usize) -> Seq<u32> {
    seed_words(chain_state(beacon, chain_length(iterations)))
}

/// Calls `phase2::MPCParameters::read` on the serialized parameters, with
/// its checks switched on or off as `checked` says. The outcome,
/// parameters or error, is a function of the bytes and of that flag alone.
#[verifier::external_body]
fn read_parameters(serialized: &[u8], checked: bool) -> (parsed: Result<
    phase2::MPCParameters,
    std::io::Error,
>)
    ensures
        parsed == parameters_read(serialized@, checked),
{
    phase2::MPCParameters::read(serialized, checked)
}

/// Calls `rand::SeedableRng::from_seed` for `rand::ChaChaRng` with the eight
/// words of the seed as its key. The generator is a function of the seed
/// alone.
#[verifier::external_body]
fn seeded_generator(seed: &[u32; 8]) -> (generator: rand::ChaChaRng)
    ensures
        generator == generator_of(seed@),
{
    rand::SeedableRng::from_seed(&seed[..])
}

/// Draws from a copy of the generator what `phase2::MPCParameters::contribute`
/// draws first from the generator itself, one `pairing::bls12_381::Fr` by
/// `rand::Rng::gen`, and asks `pairing::Field::is_zero` of it. The
/// generator is left as it is.
#[verifier::external_body]
fn secret_is_zero(generator: &rand::ChaChaRng) -> (zero: bool)
    ensures
        zero == draws_zero_secret(*generator),
{
    let mut copy = *generator;
    let secret: pairing::bls12_381::Fr = rand::Rng::gen(&mut copy);
    pairing::Field::is_zero(&secret)
}

/// Calls `phase2::MPCParameters::contribute`, which changes the parameters
/// in place and returns the 64-byte fingerprint of what it applied. Both
/// are functions of the parameters and of the generator as they were
/// before the call. The call unwraps the inverse of the secret that it
/// draws first, so a generator that draws zero is left out.
#[verifier::external_body]
fn contribute_with(
    params: &mut phase2::MPCParameters,
    rng: &mut rand::ChaChaRng,
) -> (fingerprint: [u8; 64])
    requires
        !draws_zero_secret(*old(rng)),
    ensures
        *final(params) == contribution_of(*old(params), *old(rng)).0,
        fingerprint@ == contribution_of(*old(params), *old(rng)).1,
{
    params.contribute(rng)
}

/// Calls `phase2::MPCParameters::write` into a fresh vector of bytes. The
/// call fails only where its writer does, and a vector takes every write;
/// the bytes are a function of the parameters alone.
#[verifier::external_body]
fn write_parameters(params: &phase2::MPCParameters) -> (written: Result<Vec<u8>, std::io::Error>)
    ensures
        written is Ok,
        written matches Ok(bytes) ==> bytes@ == serialized_form(*params),
{
    let mut serialized = Vec::new();
    params.write(&mut serialized).map(|_| serialized)
}

/// Where a run stands. A run moves forward one stage at a time, or fails;
/// `Done` and `Failed` are final.
#[derive(Clone, Copy, Debug, PartialEq, Eq, Structural)]
pub enum Stage {
    /// The exponent is accepted; nothing is read yet.
    Idle,
    /// The parameters are read and checked.
    Loaded,
    /// The hash chain has reached its end.
    BeaconDerived,
    /// The seed of the generator is fixed.
    Seeded,
    /// The contribution is applied to the parameters.
    Contributed,
    /// The updated parameters are serialized and handed out.
    Persisted,
    /// The run is complete.
    Done,
    /// The run has failed, for the reason given.
    Failed(BeaconError),
}

impl Stage {
    /// Whether a run ends here.
    pub open spec fn is_terminal(self) -> bool {
        self is Done || self is Failed
    }

    /// The place of a stage in the order of a run.
    pub open spec fn rank(self) -> nat {
        match self {
            Stage::Idle => 0,
            Stage::Loaded => 1,
            Stage::BeaconDerived => 2,
            Stage::Seeded => 3,
            Stage::Contributed => 4,
            Stage::Persisted => 5,
            Stage::Done => 6,
            Stage::Failed(_) => 7,
        }
    }

    /// The stage reached when the step taken at this stage succeeds.
    pub open spec fn successor(self) -> Stage {
        match self {
            Stage::Idle => Stage::Loaded,
            Stage::Loaded => Stage::BeaconDerived,
            Stage::BeaconDerived => Stage::Seeded,
            Stage::Seeded => Stage::Contributed,
            Stage::Contributed => Stage::Persisted,
            Stage::Persisted => Stage::Done,
            Stage::Done => Stage::Done,
            Stage::Failed(reason) => Stage::Failed(reason),
        }
    }

    /// The stage reached from this one when a step ends as `outcome` says:
    /// a final stage stays, a success moves on, a failure fails the run.
    pub open spec fn after(self, outcome: Result<(), BeaconError>) -> Stage {
        if self.is_terminal() {
            self
        } else {
            match outcome {
                Ok(_) => self.successor(),
                Err(reason) => Stage::Failed(reason),
            }
        }
    }

    /// Whether a run ends here.
    pub fn terminal(&self) -> (ends: bool)
        ensures
            ends == self.is_terminal(),
    {
        match self {
            Stage::Done => true,
            Stage::Failed(_) => true,
            _ => false,
        }
    }

    /// Moves on from this stage as the outcome of its step says.
    pub fn advance(self, outcome: Result<(), BeaconError>) -> (next: Stage)
        ensures
            next == self.after(outcome),
    {
        match outcome {
            Ok(_) => match self {
                Stage::Idle => Stage::Loaded,
                Stage::Loaded => Stage::BeaconDerived,
                Stage::BeaconDerived => Stage::Seeded,
                Stage::Seeded => Stage::Contributed,
                Stage::Contributed => Stage::Persisted,
                Stage::Persisted => Stage::Done,
                Stage::Done => Stage::Done,
                Stage::Failed(reason) => Stage::Failed(reason),
            },
            Err(reason) => match self {
                Stage::Done => Stage::Done,
                Stage::Failed(earlier) => Stage::Failed(earlier),
                _ => Stage::Failed(reason),
            },
        }
    }
}

/// What a pipeline stands for.
pub struct PipelineView {
    /// Where the run stands.
    pub stage: Stage,
    /// The exponent of the chain length.
    pub iterations: usize,
    /// The parameters, once they are read.
    pub parameters: Option<phase2::MPCParameters>,
    /// The hash chain, once it is started.
    pub chain: Option<ChainView>,
    /// The seed of the generator, once it is fixed.
    pub seed: Option<Seq<u32>>,
    /// The fingerprint of the contribution, once it is applied.
    pub fingerprint: Option<Seq<u8>>,
    /// How many times the contribution was applied to the parameters.
    pub contributions: nat,
    /// The error that reading or serializing the parameters ended in, if
    /// the run failed there.
    pub cause: Option<std::io::Error>,
}

impl PipelineView {
    /// The pipeline at its start: idle where the exponent is admissible,
    /// failed where it is not.
    pub open spec fn start(iterations: usize) -> PipelineView {
        PipelineView {
            stage: if valid_iterations(iterations) {
                Stage::Idle
            } else {
                Stage::Failed(BeaconError::IterationRange)
            },
            iterations,
            parameters: None,
            chain: None,
            seed: None,
            fingerprint: None,
            contributions: 0,
            cause: None,
        }
    }

    /// The end of the chain, once it is reached.
    pub open spec fn final_hash(self) -> Option<Seq<u8>> {
        match self.chain {
            Some(chain) => if chain.finished() {
                Some(chain.state)
            } else {
                None
            },
            None => None,
        }
    }

    /// Whether the chain is started and can hand out a checkpoint.
    pub open spec fn deriving(self) -> bool {
        self.stage is Loaded && self.chain is Some
    }

    /// What holds of every pipeline, stage by stage.
    pub open spec fn consistent(self) -> bool {
        &&& self.chain matches Some(chain) ==> chain.consistent() && chain.iterations
            == self.iterations
        &&& self.contributions <= 1
        &&& self.cause is Some ==> self.stage == Stage::Failed(BeaconError::ParameterFormat)
            || self.stage == Stage::Failed(BeaconError::SerializationWrite)
        &&& !(self.stage is Failed) ==> {
            &&& valid_iterations(self.iterations)
            &&& self.parameters is Some <==> self.stage.rank() >= 1
            &&& self.chain is Some ==> self.stage.rank() >= 1
            &&& self.final_hash() is Some <==> self.stage.rank() >= 2
            &&& self.seed is Some <==> self.stage.rank() >= 3
            &&& self.seed matches Some(seed) ==> Some(seed_words(self.chain.unwrap().state))
                == self.seed
            &&& self.fingerprint is Some <==> self.stage.rank() >= 4
            &&& self.contributions == 1 <==> self.stage.rank() >= 4
        }
    }

    /// After the parameters were read: loaded with the parameters that
    /// reading gave, or failed on the error it ended in, which is then kept
    /// as the cause. Only an idle pipeline reads.
    pub open spec fn loaded(
        self,
        parsed: Result<phase2::MPCParameters, std::io::Error>,
    ) -> PipelineView {
        if self.stage is Idle {
            match parsed {
                Ok(parameters) => PipelineView {
                    stage: Stage::Loaded,
                    parameters: Some(parameters),
                    ..self
                },
                Err(failure) => PipelineView {
                    stage: Stage::Failed(BeaconError::ParameterFormat),
                    cause: Some(failure),
                    ..self
                },
            }
        } else {
            self
        }
    }

    /// After the beacon was decoded: the chain stands at its start, or the
    /// run has failed on the beacon. Only a loaded pipeline whose chain is
    /// not yet started takes a beacon.
    pub open spec fn chain_started(self, beacon: Result<Seq<u8>, FormatFault>) -> PipelineView {
        if self.stage is Loaded && self.chain is None {
            match beacon {
                Ok(bytes) => PipelineView {
                    chain: Some(ChainView::fresh(bytes, self.iterations)),
                    ..self
                },
                Err(fault) => PipelineView {
                    stage: Stage::Failed(BeaconError::BeaconFormat(fault)),
                    ..self
                },
            }
        } else {
            self
        }
    }

    /// After one more checkpoint: the chain has moved on through one
    /// interval, and with the last one the beacon is derived.
    pub open spec fn stepped(self) -> PipelineView {
        if self.deriving() {
            let chain = self.chain.unwrap().advanced();
            PipelineView {
                stage: if chain.finished() {
                    Stage::BeaconDerived
                } else {
                    Stage::Loaded
                },
                chain: Some(chain),
                ..self
            }
        } else {
            self
        }
    }

    /// After the chain ran to its end: all checkpoints are out and the
    /// beacon is derived.
    pub open spec fn derived(self) -> PipelineView {
        if self.deriving() {
            PipelineView {
                stage: Stage::BeaconDerived,
                chain: Some(self.chain.unwrap().completed()),
                ..self
            }
        } else {
            self
        }
    }

    /// After seeding: the seed is the end of the chain as eight words.
    pub open spec fn seeded(self) -> PipelineView {
        if self.stage is BeaconDerived {
            PipelineView {
                stage: Stage::Seeded,
                seed: Some(seed_words(self.chain.unwrap().state)),
                ..self
            }
        } else {
            self
        }
    }

    /// After the contribution: the parameters are what the contribution
    /// makes of them with the generator of the seed, the fingerprint is
    /// the one that came with it, and the contribution is applied once
    /// more than before. Where the generator would draw zero as the secret,
    /// nothing is contributed and the run fails. Only a seeded pipeline
    /// contributes.
    pub open spec fn contributed(self) -> PipelineView {
        if self.stage is Seeded {
            let generator = generator_of(self.seed.unwrap());
            if draws_zero_secret(generator) {
                PipelineView { stage: Stage::Failed(BeaconError::ZeroSecret), ..self }
            } else {
                let made = contribution_of(self.parameters.unwrap(), generator);
                PipelineView {
                    stage: Stage::Contributed,
                    parameters: Some(made.0),
                    fingerprint: Some(made.1),
                    contributions: self.contributions + 1,
                    ..self
                }
            }
        } else {
            self
        }
    }

    /// After the parameters were serialized: persisted if that gave bytes,
    /// failed if it ended in the error `failure`, which is then kept as the
    /// cause. Only a pipeline that has contributed persists.
    pub open spec fn persisted(self, failure: Option<std::io::Error>) -> PipelineView {
        if self.stage is Contributed {
            PipelineView {
                stage: if failure is None {
                    Stage::Persisted
                } else {
                    Stage::Failed(BeaconError::SerializationWrite)
                },
                cause: failure,
                ..self
            }
        } else {
            self
        }
    }

    /// The error in an outcome of reading or serializing, if it is one.
    pub open spec fn failure_of<T>(outcome: Result<T, std::io::Error>) -> Option<std::io::Error> {
        match outcome {
            Ok(_) => None,
            Err(failure) => Some(failure),
        }
    }

    /// After the caller confirmed that the output is in place.
    pub open spec fn finished(self) -> PipelineView {
        if self.stage is Persisted {
            PipelineView { stage: Stage::Done, ..self }
        } else {
            self
        }
    }

    /// After the caller reported a failure of its own.
    pub open spec fn failed(self, reason: BeaconError) -> PipelineView {
        PipelineView { stage: self.stage.after(Err(reason)), ..self }
    }

    /// The bytes that a pipeline hands out for writing: the serialized form
    /// of its parameters, once it stands at `Persisted`.
    pub open spec fn output(self) -> Option<Seq<u8>> {
        if self.stage is Persisted && self.parameters is Some {
            Some(serialized_form(self.parameters.unwrap()))
        } else {
            None
        }
    }

    /// How a whole run ends, given what reading the parameters gave and
    /// what the beacon decoded to: each step in its turn, where a step
    /// that is not due, or comes after a failure, changes nothing.
    pub open spec fn outcome(
        parsed: Result<phase2::MPCParameters, std::io::Error>,
        beacon: Result<Seq<u8>, FormatFault>,
        iterations: usize,
    ) -> PipelineView {
        PipelineView::start(iterations).loaded(parsed).chain_started(
            beacon,
        ).derived().seeded().contributed().persisted(None)
    }
}

/// A run of the beacon contribution, and the owner of its parameters.
pub struct Pipeline {
    stage: Stage,
    iterations: usize,
    params: Option<phase2::MPCParameters>,
    chain: Option<HashChain>,
    seed: Option<[u32; 8]>,
    fingerprint: Option<[u8; 64]>,
    contributions: u8,
    cause: Option<std::io::Error>,
}

impl View for Pipeline {
    type V = PipelineView;

    closed spec fn view(&self) -> PipelineView {
        PipelineView {
            stage: self.stage,
            iterations: self.iterations,
            parameters: self.params,
            chain: match self.chain {
                Some(chain) => Some(chain@),
                None => None,
            },
            seed: match self.seed {
                Some(seed) => Some(seed@),
                None => None,
            },
            fingerprint: match self.fingerprint {
                Some(fingerprint) => Some(fingerprint@),
                None => None,
            },
            contributions: self.contributions as nat,
            cause: self.cause,
        }
    }
}

impl Pipeline {
    #[verifier::type_invariant]
    spec fn well_formed(self) -> bool {
        self@.consistent()
    }

    /// A run for the exponent `iterations`. The exponent is checked here,
    /// before anything is read or hashed: outside `[10, 63]` the run has
    /// failed from the start.
    pub fn new(iterations: usize) -> (pipeline: Pipeline)
        ensures
            pipeline@ == PipelineView::start(iterations),
            pipeline@.consistent(),
    {
        let stage = match check_iterations(iterations) {
            Ok(_) => Stage::Idle,
            Err(reason) => Stage::Failed(reason),
        };
        Pipeline {
            stage,
            iterations,
            params: None,
            chain: None,
            seed: None,
            fingerprint: None,
            contributions: 0,
            cause: None,
        }
    }

    /// Where the run stands.
    pub fn stage(&self) -> (stage: Stage)
        ensures
            stage == self@.stage,
            self@.consistent(),
    {
        proof {
            use_type_invariant(self);
        }
        self.stage
    }

    /// The exponent of the chain length.
    pub fn iterations(&self) -> (n: usize)
        ensures
            n == self@.iterations,
    {
        self.iterations
    }

    /// The end of the chain, once it is reached.
    pub fn final_hash(&self) -> (hash: Option<[u8; 32]>)
        ensures
            hash is Some <==> self@.final_hash() is Some,
            hash matches Some(h) ==> Some(h@) == self@.final_hash() && h@ == chain_state(
                self@.chain.unwrap().beacon,
                chain_length(self@.iterations),
            ),
    {
        proof {
            use_type_invariant(self);
        }
        match &self.chain {
            Some(chain) => chain.final_hash(),
            None => None,
        }
    }

    /// The seed of the generator, once it is fixed.
    pub fn seed_words(&self) -> (seed: Option<[u32; 8]>)
        ensures
            seed is Some <==> self@.seed is Some,
            seed matches Some(s) ==> Some(s@) == self@.seed,
    {
        self.seed
    }

    /// The fingerprint of the contribution, once it is applied.
    pub fn fingerprint(&self) -> (fingerprint: Option<[u8; 64]>)
        ensures
            fingerprint is Some <==> self@.fingerprint is Some,
            fingerprint matches Some(f) ==> Some(f@) == self@.fingerprint,
    {
        self.fingerprint
    }

    /// How many times the contribution was applied: never more than once.
    pub fn contributions(&self) -> (count: u8)
        ensures
            count == self@.contributions,
            count <= 1,
    {
        proof {
            use_type_invariant(self);
        }
        self.contributions
    }

    /// The error that reading or serializing the parameters ended in, if
    /// the run failed there. A run that failed for another reason, or has
    /// not failed, has none.
    pub fn cause(&self) -> (cause: Option<&std::io::Error>)
        ensures
            cause is Some <==> self@.cause is Some,
            cause matches Some(failure) ==> self@.cause == Some(*failure),
            self@.consistent(),
    {
        proof {
            use_type_invariant(self);
        }
        self.cause.as_ref()
    }

    /// Takes what reading the parameters gave. An idle pipeline becomes
    /// loaded on parameters and fails on an error; any other stays as it is.
    pub fn accept_parameters(
        self,
        parsed: Result<phase2::MPCParameters, std::io::Error>,
    ) -> (next: Pipeline)
        ensures
            next@ == self@.loaded(parsed),
            next@.consistent(),
    {
        proof {
            use_type_invariant(&self);
        }
        match self.stage {
            Stage::Idle => match parsed {
                Ok(params) => Pipeline {
                    stage: self.stage.advance(Ok(())),
                    params: Some(params),
                    ..self
                },
                Err(cause) => Pipeline {
                    stage: self.stage.advance(Err(BeaconError::ParameterFormat)),
                    cause: Some(cause),
                    ..self
                },
            },
            _ => self,
        }
    }

    /// Reads the serialized parameters, with full checks. An idle pipeline
    /// becomes loaded with the parameters read, or fails on malformed
    /// parameters with the error as its cause; any other stays as it is and
    /// reads nothing.
    pub fn load(self, serialized: &[u8]) -> (next: Pipeline)
        ensures
            next@ == self@.loaded(parameters_read(serialized@, true)),
            self@.stage is Idle ==> (next@.stage is Loaded <==> parameters_accepted(serialized@)),
            next@.consistent(),
    {
        proof {
            use_type_invariant(&self);
        }
        match self.stage {
            Stage::Idle => {
                let parsed = read_parameters(serialized, true);
                self.accept_parameters(parsed)
            },
            _ => self,
        }
    }

    /// Starts the hash chain from the beacon given as hexadecimal text. A
    /// loaded pipeline whose chain is not yet started takes the beacon, or
    /// fails on one that is not 32 bytes of hexadecimal; any other stays as
    /// it is. Nothing is hashed yet.
    pub fn start_chain(self, beacon_hex: &str) -> (next: Pipeline)
        ensures
            next@ == self@.chain_started(beacon_of_text(beacon_hex.spec_bytes())),
            next@.consistent(),
    {
        proof {
            use_type_invariant(&self);
        }
        match self.stage {
            Stage::Loaded => {
                if self.chain.is_some() {
                    return self;
                }
                match HashChain::start(beacon_hex, self.iterations) {
                    Ok(chain) => {
                        proof {
                            lemma_fresh_chain(chain@.beacon, self.iterations);
                        }
                        Pipeline { chain: Some(chain), ..self }
                    },
                    Err(reason) => Pipeline { stage: self.stage.advance(Err(reason)), ..self },
                }
            },
            _ => self,
        }
    }

    /// Hands out the next checkpoint of the chain and hashes on through
    /// one interval. With the last of the 1024 checkpoints the chain is at
    /// its end and the beacon is derived. A pipeline whose chain is not
    /// running hands out nothing and stays as it is.
    pub fn next_checkpoint(self) -> (next: (Pipeline, Option<Checkpoint>))
        ensures
            next.0@ == self@.stepped(),
            next.0@.consistent(),
            next.1 is Some <==> self@.deriving(),
            next.1 matches Some(checkpoint) ==> checkpoint.is_number(
                self@.chain.unwrap().emitted as int,
                self@.chain.unwrap().beacon,
                self@.iterations,
            ),
    {
        proof {
            use_type_invariant(&self);
        }
        let Pipeline { stage, iterations, params, chain, seed, fingerprint, contributions, cause } =
            self;
        match (stage, chain) {
            (Stage::Loaded, Some(mut chain)) => {
                let checkpoint = chain.next_checkpoint();
                let stage = if chain.is_finished() {
                    stage.advance(Ok(()))
                } else {
                    stage
                };
                (
                    Pipeline {
                        stage,
                        iterations,
                        params,
                        chain: Some(chain),
                        seed,
                        fingerprint,
                        contributions,
                        cause,
                    },
                    checkpoint,
                )
            },
            (stage, chain) => (
                Pipeline {
                    stage,
                    iterations,
                    params,
                    chain,
                    seed,
                    fingerprint,
                    contributions,
                    cause,
                },
                None,
            ),
        }
    }

    /// Runs the chain to its end and returns the checkpoints met on the
    /// way. A pipeline whose chain is not running stays as it is.
    pub fn derive(self) -> (next: (Pipeline, Vec<Checkpoint>))
        ensures
            next.0@ == self@.derived(),
            next.0@.consistent(),
            self@.deriving() ==> checkpoints_left(next.1@, self@.chain.unwrap()),
            !self@.deriving() ==> next.1@.len() == 0,
    {
        proof {
            use_type_invariant(&self);
        }
        let ghost start = self@;
        let ghost budget: int = if start.deriving() {
            CHECKPOINTS - start.chain.unwrap().emitted
        } else {
            0
        };
        let mut pipeline = self;
        let mut checkpoints: Vec<Checkpoint> = Vec::new();
        loop
            invariant_except_break
                start.consistent(),
                start.deriving() ==> budget == CHECKPOINTS - start.chain.unwrap().emitted,
                pipeline@.consistent(),
                !start.deriving() ==> pipeline@ == start && checkpoints@.len() == 0,
                start.deriving() ==> {
                    &&& pipeline@ == PipelineView {
                        stage: pipeline@.stage,
                        chain: pipeline@.chain,
                        ..start
                    }
                    &&& pipeline@.stage is Loaded || pipeline@.stage is BeaconDerived
                    &&& pipeline@.chain matches Some(chain)
                    &&& chain.beacon == start.chain.unwrap().beacon
                    &&& chain.emitted == start.chain.unwrap().emitted + checkpoints@.len()
                    &&& forall|j: int|
                        0 <= j < checkpoints@.len() ==> (#[trigger] checkpoints@[j]).is_number(
                            start.chain.unwrap().emitted + j,
                            start.chain.unwrap().beacon,
                            start.iterations,
                        )
                },
            ensures
                pipeline@ == start.derived(),
                pipeline@.consistent(),
                start.deriving() ==> checkpoints_left(checkpoints@, start.chain.unwrap()),
                !start.deriving() ==> checkpoints@.len() == 0,
            decreases budget - checkpoints@.len(),
        {
            let ghost before = pipeline@;
            let (next, checkpoint) = pipeline.next_checkpoint();
            pipeline = next;
            match checkpoint {
                Some(checkpoint) => {
                    proof {
                        assert(before.deriving());
                        assert(start.deriving());
                        assert(before.final_hash() is None);
                        assert(!before.chain.unwrap().finished());
                    }
                    checkpoints.push(checkpoint);
                },
                None => {
                    proof {
                        if start.deriving() {
                            let chain = pipeline@.chain.unwrap();
                            assert(pipeline@ == before);
                            assert(before.stage is BeaconDerived);
                            assert(before.final_hash() is Some);
                            assert(chain.finished());
                            assert(chain.iterations == start.iterations);
                            assert(start.chain.unwrap().iterations == start.iterations);
                            lemma_intervals_fill_chain(start.iterations);
                            assert(chain.steps_done() == chain_length(start.iterations));
                            assert(chain =~= start.chain.unwrap().completed());
                        }
                    }
                    break ;
                },
            }
        }
        (pipeline, checkpoints)
    }

    /// Fixes the seed of the generator: the end of the chain as eight
    /// big-endian words. Only a pipeline whose beacon is derived is seeded.
    pub fn seed(self) -> (next: Pipeline)
        ensures
            next@ == self@.seeded(),
            next@.consistent(),
    {
        proof {
            use_type_invariant(&self);
        }
        match self.stage {
            Stage::BeaconDerived => {
                match self.final_hash() {
                    Some(hash) => {
                        let seed = seed_from_hash(&hash);
                        Pipeline { stage: self.stage.advance(Ok(())), seed: Some(seed), ..self }
                    },
                    None => self,
                }
            },
            _ => self,
        }
    }

    /// Applies the contribution to the parameters, once, with a generator
    /// made from the seed, and keeps its fingerprint. Only a seeded
    /// pipeline contributes: one that has contributed cannot do so again.
    ///
    /// The contribution cannot work with zero as its secret. Where the
    /// generator would draw zero, nothing is contributed and the run fails
    /// with `ZeroSecret`.
    pub fn contribute(self) -> (next: Pipeline)
        ensures
            next@ == self@.contributed(),
            next@.consistent(),
    {
        proof {
            use_type_invariant(&self);
        }
        let Pipeline { stage, iterations, params, chain, seed, fingerprint, contributions, cause } =
            self;
        match (stage, params, seed) {
            (Stage::Seeded, Some(mut params), Some(seed)) => {
                let mut generator = seeded_generator(&seed);
                if secret_is_zero(&generator) {
                    Pipeline {
                        stage: stage.advance(Err(BeaconError::ZeroSecret)),
                        iterations,
                        params: Some(params),
                        chain,
                        seed: Some(seed),
                        fingerprint,
                        contributions,
                        cause,
                    }
                } else {
                    let fingerprint = contribute_with(&mut params, &mut generator);
                    Pipeline {
                        stage: stage.advance(Ok(())),
                        iterations,
                        params: Some(params),
                        chain,
                        seed: Some(seed),
                        fingerprint: Some(fingerprint),
                        contributions: contributions + 1,
                        cause,
                    }
                }
            },
            (stage, params, seed) => Pipeline {
                stage,
                iterations,
                params,
                chain,
                seed,
                fingerprint,
                contributions,
                cause,
            },
        }
    }

    /// Takes what serializing the parameters gave. A pipeline that has
    /// contributed becomes persisted and hands the bytes on, or fails on an
    /// error; any other stays as it is and hands on nothing.
    pub fn accept_serialized(self, written: Result<Vec<u8>, std::io::Error>) -> (next: (
        Pipeline,
        Option<Vec<u8>>,
    ))
        ensures
            next.0@ == self@.persisted(PipelineView::failure_of(written)),
            next.0@.consistent(),
            next.1 is Some <==> self@.stage is Contributed && written is Ok,
            next.1 matches Some(bytes) ==> bytes@ == written.unwrap()@,
    {
        proof {
            use_type_invariant(&self);
        }
        match self.stage {
            Stage::Contributed => match written {
                Ok(bytes) => (Pipeline { stage: self.stage.advance(Ok(())), ..self }, Some(bytes)),
                Err(cause) => (
                    Pipeline {
                        stage: self.stage.advance(Err(BeaconError::SerializationWrite)),
                        cause: Some(cause),
                        ..self
                    },
                    None,
                ),
            },
            _ => (self, None),
        }
    }

    /// Serializes the updated parameters and hands the bytes out for
    /// writing. A pipeline that has contributed becomes persisted: writing
    /// into memory does not fail. At any earlier stage, and after a
    /// failure, nothing is serialized or handed out.
    pub fn persist(self) -> (next: (Pipeline, Option<Vec<u8>>))
        ensures
            next.0@ == self@.persisted(None),
            next.0@.consistent(),
            self@.stage is Contributed ==> next.0@.stage is Persisted && next.1 is Some,
            next.1 is Some <==> self@.stage is Contributed,
            next.1 matches Some(bytes) ==> Some(bytes@) == next.0@.output(),
    {
        proof {
            use_type_invariant(&self);
        }
        match (self.stage, &self.params) {
            (Stage::Contributed, Some(params)) => {
                let written = write_parameters(params);
                self.accept_serialized(written)
            },
            _ => (self, None),
        }
    }

    /// Ends the run once the caller has put the output in place.
    pub fn finish(self) -> (next: Pipeline)
        ensures
            next@ == self@.finished(),
            next@.consistent(),
    {
        proof {
            use_type_invariant(&self);
        }
        match self.stage {
            Stage::Persisted => Pipeline { stage: self.stage.advance(Ok(())), ..self },
            _ => self,
        }
    }

    /// Fails the run for a reason of the caller's, such as a file that
    /// cannot be opened or created. A run that has ended stays as it is.
    pub fn fail(self, reason: BeaconError) -> (next: Pipeline)
        ensures
            next@ == self@.failed(reason),
            next@.consistent(),
    {
        proof {
            use_type_invariant(&self);
        }
        Pipeline { stage: self.stage.advance(Err(reason)), ..self }
    }
}

/// A whole run, but for the files: reads the parameters, derives the end of
/// the chain from the beacon, seeds the generator, contributes once and
/// serializes the updated parameters. Returns the pipeline as it then
/// stands, the checkpoints passed, and the bytes to put in place, which are
/// there exactly when the run stands at `Persisted`.
///
/// The run fails on a wrong exponent, then on parameters that reading does
/// not accept, then on a beacon that is not 32 bytes of hexadecimal, then
/// on a seed whose generator would draw zero as the secret of the
/// contribution, and succeeds otherwise.
pub fn run(serialized: &[u8], beacon_hex: &str, iterations: usize) -> (outcome: (
    Pipeline,
    Vec<Checkpoint>,
    Option<Vec<u8>>,
))
    ensures
        outcome.0@ == PipelineView::outcome(
            parameters_read(serialized@, true),
            beacon_of_text(beacon_hex.spec_bytes()),
            iterations,
        ),
        outcome.0@.consistent(),
        !valid_iterations(iterations) ==> outcome.0@.stage == Stage::Failed(
            BeaconError::IterationRange,
        ),
        valid_iterations(iterations) ==> (outcome.0@.stage == Stage::Failed(
            BeaconError::ParameterFormat,
        ) <==> !parameters_accepted(serialized@)),
        valid_iterations(iterations) && parameters_accepted(serialized@) ==> match beacon_of_text(
            beacon_hex.spec_bytes(),
        ) {
            Ok(beacon) => if draws_zero_secret(generator_of(run_seed(beacon, iterations))) {
                outcome.0@.stage == Stage::Failed(BeaconError::ZeroSecret)
            } else {
                outcome.0@.stage is Persisted && outcome.2 is Some
            },
            Err(fault) => outcome.0@.stage == Stage::Failed(BeaconError::BeaconFormat(fault)),
        },
        outcome.2 is Some <==> outcome.0@.stage is Persisted,
        outcome.2 matches Some(bytes) ==> Some(bytes@) == outcome.0@.output(),
        match outcome.0@.chain {
            Some(chain) => checkpoints_left(
                outcome.1@,
                ChainView::fresh(chain.beacon, iterations),
            ),
            None => outcome.1@.len() == 0,
        },
{
    let pipeline = Pipeline::new(iterations);
    let pipeline = pipeline.load(serialized);
    let pipeline = pipeline.start_chain(beacon_hex);
    let (pipeline, checkpoints) = pipeline.derive();
    let pipeline = pipeline.seed();
    let pipeline = pipeline.contribute();
    let (pipeline, output) = pipeline.persist();
    proof {
        lemma_how_a_run_ends(
            parameters_read(serialized@, true),
            beacon_hex.spec_bytes(),
            iterations,
        );
    }
    (pipeline, checkpoints, output)
}

/// How a whole run ends is decided in this order: a wrong exponent fails
/// it; then parameters that reading does not accept; then a beacon that is
/// rejected; then a seed whose generator would draw zero as the secret,
/// with nothing contributed. With all four in order it ends persisted,
/// with one contribution made with the generator of the seed of the
/// chain's end, and with the serialized form of the parameters so changed
/// as its output.
pub proof fn lemma_how_a_run_ends(
    parsed: Result<phase2::MPCParameters, std::io::Error>,
    text: Seq<u8>,
    iterations: usize,
)
    ensures
        ({
            let end = PipelineView::outcome(parsed, beacon_of_text(text), iterations);
            &&& end.consistent()
            &&& !valid_iterations(iterations) ==> end == PipelineView::start(iterations)
            &&& valid_iterations(iterations) && parsed is Err ==> end.stage == Stage::Failed(
                BeaconError::ParameterFormat,
            ) && end.cause == Some(parsed->Err_0) && end.output() is None
            &&& valid_iterations(iterations) && parsed is Ok ==> match beacon_of_text(text) {
                Err(fault) => end.stage == Stage::Failed(BeaconError::BeaconFormat(fault))
                    && end.parameters == Some(parsed->Ok_0) && end.output() is None,
                Ok(beacon) => {
                    let seed = run_seed(beacon, iterations);
                    let made = contribution_of(parsed->Ok_0, generator_of(seed));
                    &&& end.final_hash() == Some(chain_state(beacon, chain_length(iterations)))
                    &&& end.seed == Some(seed)
                    &&& if draws_zero_secret(generator_of(seed)) {
                        &&& end.stage == Stage::Failed(BeaconError::ZeroSecret)
                        &&& end.parameters == Some(parsed->Ok_0)
                        &&& end.fingerprint is None
                        &&& end.contributions == 0
                        &&& end.output() is None
                    } else {
                        &&& end.stage is Persisted
                        &&& end.parameters == Some(made.0)
                        &&& end.fingerprint == Some(made.1)
                        &&& end.contributions == 1
                        &&& end.output() == Some(serialized_form(made.0))
                    }
                },
            }
        }),
{
    let idle = PipelineView::start(iterations);
    let loaded = idle.loaded(parsed);
    let started = loaded.chain_started(beacon_of_text(text));
    lemma_steps_keep_consistency(idle, parsed, text, None, BeaconError::InputOpen);
    lemma_steps_keep_consistency(loaded, parsed, text, None, BeaconError::InputOpen);
    lemma_steps_keep_consistency(started, parsed, text, None, BeaconError::InputOpen);
    let derived = started.derived();
    lemma_steps_keep_consistency(derived, parsed, text, None, BeaconError::InputOpen);
    let seeded = derived.seeded();
    lemma_steps_keep_consistency(seeded, parsed, text, None, BeaconError::InputOpen);
    let contributed = seeded.contributed();
    lemma_steps_keep_consistency(contributed, parsed, text, None, BeaconError::InputOpen);
}

/// Nothing but the contribution changes the parameters that a pipeline
/// holds: reading puts them there, the contribution replaces them at
/// `Seeded` and nowhere else, and every other step keeps them as they are.
pub proof fn lemma_only_the_contribution_changes_parameters(
    view: PipelineView,
    parsed: Result<phase2::MPCParameters, std::io::Error>,
    beacon: Result<Seq<u8>, FormatFault>,
    written: Option<std::io::Error>,
    reason: BeaconError,
)
    ensures
        view.parameters is Some ==> view.loaded(parsed).parameters == view.parameters
            || view.stage is Idle,
        view.chain_started(beacon).parameters == view.parameters,
        view.stepped().parameters == view.parameters,
        view.derived().parameters == view.parameters,
        view.seeded().parameters == view.parameters,
        !(view.stage is Seeded) ==> view.contributed().parameters == view.parameters,
        view.persisted(written).parameters == view.parameters,
        view.finished().parameters == view.parameters,
        view.failed(reason).parameters == view.parameters,
{
}

/// A step never moves a run backwards: it leaves the stage as it is or
/// moves to a later one. A success moves one stage on, a failure fails the
/// run for its reason, and a run that has ended stays where it is.
pub proof fn lemma_stage_order(stage: Stage, outcome: Result<(), BeaconError>)
    ensures
        stage.is_terminal() ==> stage.after(outcome) == stage,
        !stage.is_terminal() ==> stage.after(outcome).rank() > stage.rank(),
        !stage.is_terminal() && outcome is Ok ==> stage.after(outcome).rank() == stage.rank() + 1,
        !stage.is_terminal() && outcome is Err ==> stage.after(outcome) == Stage::Failed(
            outcome->Err_0,
        ),
{
}

/// A wrong exponent fails the run at its start, before anything is read
/// or hashed.
pub proof fn lemma_wrong_exponent_fails_at_start(iterations: usize)
    requires
        !valid_iterations(iterations),
    ensures
        PipelineView::start(iterations).stage == Stage::Failed(BeaconError::IterationRange),
        PipelineView::start(iterations).stage.is_terminal(),
        PipelineView::start(iterations).consistent(),
{
}

/// A run that has ended does nothing more: no step changes it, so after a
/// failure nothing is read, hashed, contributed or handed out.
pub proof fn lemma_ended_run_stays(
    view: PipelineView,
    parsed: Result<phase2::MPCParameters, std::io::Error>,
    beacon: Result<Seq<u8>, FormatFault>,
    written: Option<std::io::Error>,
    reason: BeaconError,
)
    requires
        view.stage.is_terminal(),
    ensures
        view.loaded(parsed) == view,
        view.chain_started(beacon) == view,
        view.stepped() == view,
        view.derived() == view,
        view.seeded() == view,
        view.contributed() == view,
        view.persisted(written) == view,
        view.finished() == view,
        view.failed(reason) == view,
{
}

/// Every step keeps a pipeline consistent.
pub proof fn lemma_steps_keep_consistency(
    view: PipelineView,
    parsed: Result<phase2::MPCParameters, std::io::Error>,
    text: Seq<u8>,
    written: Option<std::io::Error>,
    reason: BeaconError,
)
    requires
        view.consistent(),
    ensures
        view.loaded(parsed).consistent(),
        view.chain_started(beacon_of_text(text)).consistent(),
        view.stepped().consistent(),
        view.derived().consistent(),
        view.seeded().consistent(),
        view.contributed().consistent(),
        view.persisted(written).consistent(),
        view.finished().consistent(),
        view.failed(reason).consistent(),
{
    if view.chain is Some {
        lemma_intervals_fill_chain(view.iterations);
    }
    if view.stage is Loaded && view.chain is None {
        if let Ok(bytes) = beacon_of_text(text) {
            lemma_fresh_chain(bytes, view.iterations);
        }
    }
}

/// The contribution is applied at most once in any run and exactly once
/// in a run that gets as far as `Contributed`; a second request changes
/// nothing. So the output, handed out only at `Contributed`, holds exactly
/// one contribution.
pub proof fn lemma_contribution_applied_once(view: PipelineView)
    requires
        view.consistent(),
    ensures
        view.contributions <= 1,
        view.contributed().contributions <= 1,
        view.contributed().contributed() == view.contributed(),
        view.stage is Contributed || view.stage is Persisted || view.stage is Done
            ==> view.contributions == 1,
        view.stage.rank() < 4 ==> view.contributions == 0,
        view.persisted(None).stage is Persisted ==> view.contributions == 1,
{
}

/// A chain at its start is consistent.
proof fn lemma_fresh_chain(beacon: Seq<u8>, iterations: usize)
    requires
        valid_iterations(iterations),
        beacon.len() == 32,
    ensures
        ChainView::fresh(beacon, iterations).consistent(),
        !ChainView::fresh(beacon, iterations).finished(),
{
}

} // verus!
