use std::sync::Arc;

use bellman::groth16::{Parameters, VerifyingKey};
use mpc_beacon::chain::Checkpoint;
use mpc_beacon::error::{BeaconError, FormatFault};
use mpc_beacon::pipeline::{run, Pipeline, Stage};
use pairing::bls12_381::{Bls12, Fr, G1Affine, G2Affine};
use pairing::{CurveAffine, Field};
use phase2::MPCParameters;
use rand::{ChaChaRng, Rng, SeedableRng};

const ZERO_BEACON_SEED: [u32; 8] = [
    0x73b858b1, 0xc953da71, 0xf6c3949a, 0x9042ce57, 0xee7c79c0, 0xe564e2c7, 0x632e9ce9, 0x9d73f968,
];

/// Small parameters that pass every check on reading, with no
/// contribution in them yet.
fn sample_parameters() -> Vec<u8> {
    let g1 = G1Affine::one();
    let g2 = G2Affine::one();
    let vk = VerifyingKey::<Bls12> {
        alpha_g1: g1,
        beta_g1: g1,
        beta_g2: g2,
        gamma_g2: g2,
        delta_g1: g1,
        delta_g2: g2,
        ic: vec![g1],
    };
    let params = Parameters::<Bls12> {
        vk,
        h: Arc::new(vec![g1, g1]),
        l: Arc::new(vec![g1]),
        a: Arc::new(vec![g1]),
        b_g1: Arc::new(vec![g1]),
        b_g2: Arc::new(vec![g2]),
    };
    let mut bytes = Vec::new();
    params.write(&mut bytes).unwrap();
    bytes.extend_from_slice(&[0u8; 64]);
    bytes.extend_from_slice(&[0u8; 4]);
    bytes
}

fn zero_beacon() -> String {
    "0".repeat(64)
}

fn io_error() -> std::io::Error {
    std::io::Error::new(std::io::ErrorKind::Other, "refused")
}

#[test]
fn stages_follow_each_other_on_success() {
    assert_eq!(Stage::Idle.advance(Ok(())), Stage::Loaded);
    assert_eq!(Stage::Loaded.advance(Ok(())), Stage::BeaconDerived);
    assert_eq!(Stage::BeaconDerived.advance(Ok(())), Stage::Seeded);
    assert_eq!(Stage::Seeded.advance(Ok(())), Stage::Contributed);
    assert_eq!(Stage::Contributed.advance(Ok(())), Stage::Persisted);
    assert_eq!(Stage::Persisted.advance(Ok(())), Stage::Done);
}

#[test]
fn any_failure_fails_the_run() {
    let reason = BeaconError::OutputCreate;
    for stage in [
        Stage::Idle,
        Stage::Loaded,
        Stage::BeaconDerived,
        Stage::Seeded,
        Stage::Contributed,
        Stage::Persisted,
    ] {
        assert!(!stage.terminal());
        assert_eq!(stage.advance(Err(reason)), Stage::Failed(reason));
    }
}

#[test]
fn final_stages_stay() {
    let failed = Stage::Failed(BeaconError::IterationRange);
    assert!(Stage::Done.terminal());
    assert!(failed.terminal());
    assert_eq!(Stage::Done.advance(Ok(())), Stage::Done);
    assert_eq!(Stage::Done.advance(Err(BeaconError::InputOpen)), Stage::Done);
    assert_eq!(failed.advance(Ok(())), failed);
    assert_eq!(failed.advance(Err(BeaconError::InputOpen)), failed);
}

#[test]
fn pipeline_starts_idle() {
    let pipeline = Pipeline::new(10);
    assert_eq!(pipeline.stage(), Stage::Idle);
    assert_eq!(pipeline.iterations(), 10);
    assert_eq!(pipeline.final_hash(), None);
    assert_eq!(pipeline.seed_words(), None);
    assert_eq!(pipeline.fingerprint(), None);
    assert_eq!(pipeline.contributions(), 0);
    assert!(pipeline.cause().is_none());
    assert_eq!(Pipeline::new(63).stage(), Stage::Idle);
}

#[test]
fn sixty_four_iterations_fail_before_anything_is_read() {
    let pipeline = Pipeline::new(64);
    assert_eq!(pipeline.stage(), Stage::Failed(BeaconError::IterationRange));
    // Valid parameters and a valid beacon change nothing about it.
    let pipeline = pipeline.load(&sample_parameters());
    assert_eq!(pipeline.stage(), Stage::Failed(BeaconError::IterationRange));
    let pipeline = pipeline.start_chain(&zero_beacon());
    let (pipeline, checkpoint) = pipeline.next_checkpoint();
    assert_eq!(checkpoint, None);
    let pipeline = pipeline.seed().contribute();
    assert_eq!(pipeline.seed_words(), None);
    assert_eq!(pipeline.contributions(), 0);
    let (pipeline, output) = pipeline.persist();
    assert_eq!(output, None);
    assert_eq!(pipeline.finish().stage(), Stage::Failed(BeaconError::IterationRange));
}

#[test]
fn nine_iterations_fail_the_whole_run() {
    let (pipeline, checkpoints, output) = run(&sample_parameters(), &zero_beacon(), 9);
    assert_eq!(pipeline.stage(), Stage::Failed(BeaconError::IterationRange));
    assert!(checkpoints.is_empty());
    assert_eq!(output, None);
    assert_eq!(pipeline.contributions(), 0);
}

#[test]
fn wrong_exponent_comes_before_every_other_failure() {
    let (pipeline, _, output) = run(b"no parameters", "no beacon", 64);
    assert_eq!(pipeline.stage(), Stage::Failed(BeaconError::IterationRange));
    assert_eq!(output, None);
}

#[test]
fn malformed_parameters_fail_the_run() {
    let pipeline = Pipeline::new(10).load(b"these are no parameters");
    assert_eq!(pipeline.stage(), Stage::Failed(BeaconError::ParameterFormat));
    assert!(pipeline.cause().is_some());
    let pipeline = Pipeline::new(10).load(&[]);
    assert_eq!(pipeline.stage(), Stage::Failed(BeaconError::ParameterFormat));
    let mut cut = sample_parameters();
    cut.truncate(cut.len() - 1);
    let (pipeline, checkpoints, output) = run(&cut, &zero_beacon(), 10);
    assert_eq!(pipeline.stage(), Stage::Failed(BeaconError::ParameterFormat));
    assert!(checkpoints.is_empty());
    assert_eq!(output, None);
}

#[test]
fn malformed_parameters_come_before_a_bad_beacon() {
    let (pipeline, _, output) = run(b"", "abc", 10);
    assert_eq!(pipeline.stage(), Stage::Failed(BeaconError::ParameterFormat));
    assert_eq!(output, None);
}

#[test]
fn reading_result_decides_the_stage() {
    let parsed = MPCParameters::read(&sample_parameters()[..], true);
    assert!(parsed.is_ok());
    let pipeline = Pipeline::new(10).accept_parameters(parsed);
    assert_eq!(pipeline.stage(), Stage::Loaded);
    assert!(pipeline.cause().is_none());
    let pipeline = Pipeline::new(10).accept_parameters(Err(io_error()));
    assert_eq!(pipeline.stage(), Stage::Failed(BeaconError::ParameterFormat));
    assert_eq!(pipeline.cause().unwrap().to_string(), "refused");
}

#[test]
fn odd_length_beacon_fails_the_run_and_hands_out_nothing() {
    let odd = "0".repeat(63);
    let (pipeline, checkpoints, output) = run(&sample_parameters(), &odd, 10);
    assert_eq!(
        pipeline.stage(),
        Stage::Failed(BeaconError::BeaconFormat(FormatFault::NotHexadecimal))
    );
    assert!(checkpoints.is_empty());
    assert_eq!(output, None);
    assert_eq!(pipeline.fingerprint(), None);
    assert_eq!(pipeline.contributions(), 0);
}

#[test]
fn beacon_of_another_length_fails_the_run() {
    let pipeline = Pipeline::new(10).load(&sample_parameters()).start_chain("00ff");
    assert_eq!(
        pipeline.stage(),
        Stage::Failed(BeaconError::BeaconFormat(FormatFault::WrongLength))
    );
    let (pipeline, output) = pipeline.persist();
    assert_eq!(output, None);
    assert_eq!(
        pipeline.stage(),
        Stage::Failed(BeaconError::BeaconFormat(FormatFault::WrongLength))
    );
}

#[test]
fn steps_out_of_turn_change_nothing() {
    let pipeline = Pipeline::new(10);
    // Nothing is loaded yet: no chain, no seed, no contribution, no output.
    let pipeline = pipeline.start_chain(&zero_beacon());
    assert_eq!(pipeline.stage(), Stage::Idle);
    let (pipeline, checkpoint) = pipeline.next_checkpoint();
    assert_eq!(checkpoint, None);
    let (pipeline, checkpoints) = pipeline.derive();
    assert!(checkpoints.is_empty());
    let pipeline = pipeline.seed().contribute().finish();
    assert_eq!(pipeline.stage(), Stage::Idle);
    let (pipeline, output) = pipeline.persist();
    assert_eq!(output, None);
    assert_eq!(pipeline.stage(), Stage::Idle);
    assert_eq!(pipeline.contributions(), 0);
    // Loaded, but the chain is not started: there is no checkpoint.
    let pipeline = pipeline.load(&sample_parameters());
    assert_eq!(pipeline.stage(), Stage::Loaded);
    let (pipeline, checkpoint) = pipeline.next_checkpoint();
    assert_eq!(checkpoint, None);
    assert_eq!(pipeline.stage(), Stage::Loaded);
    // A second load reads nothing.
    let pipeline = pipeline.load(b"garbage");
    assert_eq!(pipeline.stage(), Stage::Loaded);
}

#[test]
fn run_step_by_step() {
    let input = sample_parameters();
    let pipeline = Pipeline::new(10).load(&input);
    assert_eq!(pipeline.stage(), Stage::Loaded);
    let mut pipeline = pipeline.start_chain(&zero_beacon());
    assert_eq!(pipeline.stage(), Stage::Loaded);
    // A second beacon is not taken once the chain is started.
    pipeline = pipeline.start_chain("abc");
    assert_eq!(pipeline.stage(), Stage::Loaded);
    let mut seen = 0u64;
    loop {
        let (next, checkpoint) = pipeline.next_checkpoint();
        pipeline = next;
        match checkpoint {
            Some(checkpoint) => {
                assert_eq!(checkpoint.index, seen);
                if seen == 0 {
                    assert_eq!(checkpoint, Checkpoint { index: 0, hash: [0u8; 32] });
                }
                seen += 1;
                let expected = if seen == 1024 { Stage::BeaconDerived } else { Stage::Loaded };
                assert_eq!(pipeline.stage(), expected);
            }
            None => break,
        }
    }
    assert_eq!(seen, 1024);
    assert_eq!(pipeline.stage(), Stage::BeaconDerived);
    let end = hex::decode("73b858b1c953da71f6c3949a9042ce57ee7c79c0e564e2c7632e9ce99d73f968")
        .unwrap();
    assert_eq!(&pipeline.final_hash().unwrap()[..], &end[..]);
    assert_eq!(pipeline.seed_words(), None);

    let pipeline = pipeline.seed();
    assert_eq!(pipeline.stage(), Stage::Seeded);
    assert_eq!(pipeline.seed_words(), Some(ZERO_BEACON_SEED));
    assert_eq!(pipeline.fingerprint(), None);
    assert_eq!(pipeline.contributions(), 0);

    let pipeline = pipeline.contribute();
    assert_eq!(pipeline.stage(), Stage::Contributed);
    assert_eq!(pipeline.contributions(), 1);
    let fingerprint = pipeline.fingerprint().unwrap();

    // Asking again does not contribute again.
    let pipeline = pipeline.contribute();
    assert_eq!(pipeline.stage(), Stage::Contributed);
    assert_eq!(pipeline.contributions(), 1);
    assert_eq!(pipeline.fingerprint().unwrap()[..], fingerprint[..]);

    let (pipeline, output) = pipeline.persist();
    assert_eq!(pipeline.stage(), Stage::Persisted);
    let output = output.unwrap();
    assert_ne!(output, input);
    let (pipeline, again) = pipeline.persist();
    assert_eq!(again, None);
    assert_eq!(pipeline.stage(), Stage::Persisted);

    let pipeline = pipeline.finish();
    assert_eq!(pipeline.stage(), Stage::Done);
    assert_eq!(pipeline.contributions(), 1);
    assert_eq!(pipeline.fail(BeaconError::OutputCreate).stage(), Stage::Done);

    // The output holds exactly the one contribution that the fingerprint names.
    let before = MPCParameters::read(&input[..], true).unwrap();
    let after = MPCParameters::read(&output[..], true).unwrap();
    let verified = phase2::verify_contribution(&before, &after).unwrap();
    assert_eq!(verified[..], fingerprint[..]);
}

#[test]
fn whole_run_agrees_with_the_contribution_made_directly() {
    let input = sample_parameters();
    let (pipeline, checkpoints, output) = run(&input, &zero_beacon(), 10);
    assert_eq!(pipeline.stage(), Stage::Persisted);
    assert_eq!(checkpoints.len(), 1024);
    assert_eq!(checkpoints[0], Checkpoint { index: 0, hash: [0u8; 32] });
    assert_eq!(checkpoints[1023].index, 1023);
    assert_eq!(pipeline.seed_words(), Some(ZERO_BEACON_SEED));
    assert_eq!(pipeline.contributions(), 1);
    let output = output.unwrap();

    let mut expected = MPCParameters::read(&input[..], true).unwrap();
    let mut generator = ChaChaRng::from_seed(&ZERO_BEACON_SEED[..]);
    let fingerprint = expected.contribute(&mut generator);
    let mut serialized = Vec::new();
    expected.write(&mut serialized).unwrap();
    assert_eq!(output, serialized);
    assert_eq!(pipeline.fingerprint().unwrap()[..], fingerprint[..]);
}

#[test]
fn written_parameters_can_be_read_again() {
    let input = sample_parameters();
    let (pipeline, _, output) = run(&input, &"5a".repeat(32), 10);
    assert_eq!(pipeline.stage(), Stage::Persisted);
    let output = output.unwrap();
    let reread = MPCParameters::read(&output[..], true);
    assert!(reread.is_ok());
    // What was read again serializes to the same bytes.
    let mut again = Vec::new();
    reread.unwrap().write(&mut again).unwrap();
    assert_eq!(again, output);
    // And it can go through a further run.
    let (next, _, further) = run(&output, &"a5".repeat(32), 10);
    assert_eq!(next.stage(), Stage::Persisted);
    assert!(MPCParameters::read(&further.unwrap()[..], true).is_ok());
}

#[test]
fn different_beacons_give_different_contributions() {
    let input = sample_parameters();
    let (first, _, first_output) = run(&input, &zero_beacon(), 10);
    let (second, _, second_output) = run(&input, &"01".repeat(32), 10);
    assert_ne!(first.seed_words(), second.seed_words());
    assert_ne!(first.fingerprint().unwrap()[..], second.fingerprint().unwrap()[..]);
    assert_ne!(first_output, second_output);
}

#[test]
fn serializing_result_decides_the_stage() {
    let contributed = || {
        Pipeline::new(10)
            .load(&sample_parameters())
            .start_chain(&zero_beacon())
            .derive()
            .0
            .seed()
            .contribute()
    };
    let (pipeline, output) = contributed().accept_serialized(Ok(vec![1, 2, 3]));
    assert_eq!(pipeline.stage(), Stage::Persisted);
    assert_eq!(output, Some(vec![1, 2, 3]));
    let (pipeline, output) = contributed().accept_serialized(Err(io_error()));
    assert_eq!(pipeline.stage(), Stage::Failed(BeaconError::SerializationWrite));
    assert_eq!(output, None);
    assert_eq!(pipeline.cause().unwrap().to_string(), "refused");
    // Before the contribution nothing is handed on.
    let (pipeline, output) = Pipeline::new(10).accept_serialized(Ok(vec![1, 2, 3]));
    assert_eq!(pipeline.stage(), Stage::Idle);
    assert_eq!(output, None);
}

#[test]
fn caller_can_fail_the_run() {
    let pipeline = Pipeline::new(10).fail(BeaconError::InputOpen);
    assert_eq!(pipeline.stage(), Stage::Failed(BeaconError::InputOpen));
    // The first failure stands.
    let pipeline = pipeline.fail(BeaconError::OutputCreate);
    assert_eq!(pipeline.stage(), Stage::Failed(BeaconError::InputOpen));
    let pipeline = pipeline.load(&sample_parameters());
    assert_eq!(pipeline.stage(), Stage::Failed(BeaconError::InputOpen));

    let (pipeline, _, output) = run(&sample_parameters(), &zero_beacon(), 10);
    assert!(output.is_some());
    let pipeline = pipeline.fail(BeaconError::OutputCreate);
    assert_eq!(pipeline.stage(), Stage::Failed(BeaconError::OutputCreate));
    assert_eq!(pipeline.finish().stage(), Stage::Failed(BeaconError::OutputCreate));
}

#[test]
fn serializing_after_the_contribution_always_hands_out_bytes() {
    for beacon in ["00", "11", "fe"] {
        let pipeline = Pipeline::new(10)
            .load(&sample_parameters())
            .start_chain(&beacon.repeat(32))
            .derive()
            .0
            .seed()
            .contribute();
        assert_eq!(pipeline.stage(), Stage::Contributed);
        let (pipeline, output) = pipeline.persist();
        assert_eq!(pipeline.stage(), Stage::Persisted);
        assert!(output.is_some());
        assert!(pipeline.cause().is_none());
    }
}

#[test]
fn same_parameters_and_beacon_give_the_same_output() {
    let input = sample_parameters();
    let (first, _, first_output) = run(&input, &"3c".repeat(32), 10);
    let (second, _, second_output) = run(&input, &"3c".repeat(32), 10);
    assert_eq!(first.stage(), Stage::Persisted);
    assert_eq!(first.seed_words(), second.seed_words());
    assert_eq!(first.fingerprint().unwrap()[..], second.fingerprint().unwrap()[..]);
    assert_eq!(first_output, second_output);
}

#[test]
fn reading_decides_between_loaded_and_failed() {
    let good = sample_parameters();
    assert!(MPCParameters::read(&good[..], true).is_ok());
    assert_eq!(Pipeline::new(10).load(&good).stage(), Stage::Loaded);
    let mut bad = good.clone();
    bad[0] ^= 0xff;
    assert!(MPCParameters::read(&bad[..], true).is_err());
    assert_eq!(Pipeline::new(10).load(&bad).stage(), Stage::Failed(BeaconError::ParameterFormat));
}

#[test]
fn ordinary_seeds_draw_a_secret_that_can_be_used() {
    for beacon in ["00", "01", "7f", "ff"] {
        let (pipeline, _, output) = run(&sample_parameters(), &beacon.repeat(32), 10);
        let seed = pipeline.seed_words().unwrap();
        let mut generator = ChaChaRng::from_seed(&seed[..]);
        let secret: Fr = generator.gen();
        assert!(!secret.is_zero());
        assert_eq!(pipeline.stage(), Stage::Persisted);
        assert_eq!(pipeline.contributions(), 1);
        assert!(output.is_some());
    }
}

#[test]
fn failure_on_the_secret_is_final_like_any_other() {
    let failed = Stage::Failed(BeaconError::ZeroSecret);
    assert!(failed.terminal());
    assert_eq!(Stage::Seeded.advance(Err(BeaconError::ZeroSecret)), failed);
    assert_eq!(failed.advance(Ok(())), failed);
}
