use num_bigint::BigUint;
use zkp_auth::crypto::signer::error::SignerError;
use zkp_auth::crypto::signer::Builder;
use zkp_auth::crypto::signer::Signer;
use zkp_auth::crypto::verification::Verifier;
use zkp_auth::crypto::Group;
use zkp_auth::zkp::registry::GroupRegistry;

fn test_setup_with_simple_signer(k: Option<u32>) -> Signer {
    let mut signer = Builder::new()
        .with_group(23u32, 11u32, 4u32, 9u32)
        .unwrap()
        .with_secret(6u32)
        .unwrap()
        .build()
        .unwrap();

    if let Some(k) = k {
        signer.override_k(k);
    }

    signer
}

fn test_setup_with_2048_bit_signer() -> Signer {
    let registry = GroupRegistry::new().unwrap();

    Builder::new()
        .with_2048_bit_group(&registry)
        .with_random_secret()
        .unwrap()
        .build()
        .unwrap()
}

#[test]
fn can_build_signer_with_simple_values_and_fixed_k() {
    let _ = test_setup_with_simple_signer(Some(7u32));
}

#[test]
fn verifier_with_fixed_c_can_verify_solution_from_simple_signer_with_fixed_k() {
    let signer = test_setup_with_simple_signer(Some(7u32));
    let mut verifier = Verifier::from(signer.create_statement());

    verifier.override_c(4u32);

    let solution = signer.solve_challenge(verifier.create_challenge());

    assert!(verifier.verify_solution(solution));
}

#[test]
fn verifier_with_fixed_c_rejects_invalid_solution_from_simple_signer_with_fixed_k() {
    let signer = test_setup_with_simple_signer(Some(7u32));
    let mut verifier = Verifier::from(signer.create_statement());

    verifier.override_c(4u32);

    let solution = BigUint::from(2u32); // an invalid solution to the simple example

    assert!(!verifier.verify_solution(solution));
}

#[test]
fn can_build_signer_with_simple_values() {
    let _ = test_setup_with_simple_signer(None);
}

#[test]
fn verifier_with_fixed_c_can_verify_solution_from_simple_signer() {
    let signer = test_setup_with_simple_signer(None);
    let mut verifier = Verifier::from(signer.create_statement());

    verifier.override_c(4u32);

    let solution = signer.solve_challenge(verifier.create_challenge());

    assert!(verifier.verify_solution(solution));
}

#[test]
fn verifier_with_fixed_c_rejects_invalid_solution_from_simple_signer() {
    let signer = test_setup_with_simple_signer(None);
    let mut verifier = Verifier::from(signer.create_statement());

    verifier.override_c(4u32);

    let offset = BigUint::from(1u32);
    let solution = (signer.solve_challenge(verifier.create_challenge()) + offset)
        .modpow(&BigUint::from(1u32), signer.q());

    assert!(!verifier.verify_solution(solution));
}

#[test]
fn verifier_can_verify_solution_from_simple_signer() {
    let signer = test_setup_with_simple_signer(None);
    let verifier = Verifier::from(signer.create_statement());
    let solution = signer.solve_challenge(verifier.create_challenge());

    assert!(verifier.verify_solution(solution));
}

#[test]
fn verifier_rejects_invalid_solution_from_simple_signer() {
    let signer = test_setup_with_simple_signer(None);
    let verifier = Verifier::from(signer.create_statement());
    let offset = BigUint::from(1u32);
    let solution = (signer.solve_challenge(verifier.create_challenge()) + offset)
        .modpow(&BigUint::from(1u32), signer.q());

    assert!(!verifier.verify_solution(solution));
}

#[test]
fn verifier_can_verify_solution_from_2048_bit_signer() {
    let signer = test_setup_with_2048_bit_signer();
    let verifier = Verifier::from(signer.create_statement());
    let solution = signer.solve_challenge(verifier.create_challenge());

    assert!(verifier.verify_solution(solution));
}

#[test]
fn verifier_rejects_invalid_solution_from_2048_bit_signer() {
    let signer = test_setup_with_2048_bit_signer();
    let verifier = Verifier::from(signer.create_statement());
    let offset = BigUint::from(1u32);
    let solution = (signer.solve_challenge(verifier.create_challenge()) + offset)
        .modpow(&BigUint::from(1u32), signer.q());

    assert!(!verifier.verify_solution(solution));
}

fn tiny_group() -> Group {
    Group {
        p: BigUint::from(23u32),
        q: BigUint::from(11u32),
        alpha: BigUint::from(4u32),
        beta: BigUint::from(9u32),
    }
}

#[test]
fn tiny_group_statement_has_the_expected_powers() {
    let signer = test_setup_with_simple_signer(Some(7u32));
    let statement = signer.create_statement();

    assert_eq!(statement.group.p, BigUint::from(23u32));
    assert_eq!(statement.group.q, BigUint::from(11u32));
    assert_eq!(statement.group.alpha, BigUint::from(4u32));
    assert_eq!(statement.group.beta, BigUint::from(9u32));
    assert_eq!(statement.y, (BigUint::from(2u32), BigUint::from(3u32)));
    assert_eq!(statement.r, (BigUint::from(8u32), BigUint::from(4u32)));
    assert_eq!(signer.q(), &BigUint::from(11u32));
}

#[test]
fn tiny_group_round_trip() {
    let signer = test_setup_with_simple_signer(Some(7u32));
    let mut verifier = Verifier::from(signer.create_statement());
    verifier.override_c(4u32);

    assert_eq!(verifier.create_challenge(), BigUint::from(4u32));

    let solution = signer.solve_challenge(verifier.create_challenge());

    assert_eq!(solution, BigUint::from(5u32));
    assert!(verifier.verify_solution(solution));
}

#[test]
fn tiny_group_rejection() {
    let signer = test_setup_with_simple_signer(Some(7u32));
    let mut verifier = Verifier::from(signer.create_statement());
    verifier.override_c(4u32);

    assert!(!verifier.verify_solution(BigUint::from(2u32)));
    assert!(!verifier.verify_solution(BigUint::from(6u32)));
}

#[test]
fn drawn_challenge_is_below_q() {
    let signer = test_setup_with_simple_signer(None);
    for _ in 0..50 {
        let verifier = Verifier::from(signer.create_statement());
        assert!(verifier.create_challenge() < BigUint::from(11u32));
    }
}

#[test]
fn verifier_with_given_challenge_keeps_it() {
    let signer = test_setup_with_simple_signer(Some(7u32));
    let verifier = Verifier::with_challenge(signer.create_statement(), BigUint::from(4u32));

    assert_eq!(verifier.create_challenge(), BigUint::from(4u32));
    assert!(verifier.verify_solution(BigUint::from(5u32)));
}

#[test]
fn group_powers_of_the_tiny_group() {
    let group = tiny_group();

    assert!(group.is_well_formed());
    assert_eq!(
        group.powers(&BigUint::from(6u32)),
        (BigUint::from(2u32), BigUint::from(3u32))
    );
    assert_eq!(
        group.powers(&BigUint::from(0u32)),
        (BigUint::from(1u32), BigUint::from(1u32))
    );
    assert_eq!(group.reduce(&BigUint::from(24u32)), BigUint::from(2u32));
}

#[test]
fn group_clone_keeps_the_parameters() {
    let group = tiny_group();
    let copy = group.clone();

    assert_eq!(copy.p, group.p);
    assert_eq!(copy.q, group.q);
    assert_eq!(copy.alpha, group.alpha);
    assert_eq!(copy.beta, group.beta);
}

#[test]
fn groups_that_are_not_well_formed() {
    let make = |p: u32, q: u32, alpha: u32, beta: u32| Group {
        p: BigUint::from(p),
        q: BigUint::from(q),
        alpha: BigUint::from(alpha),
        beta: BigUint::from(beta),
    };

    assert!(!make(23, 11, 4, 4).is_well_formed());
    assert!(!make(23, 11, 1, 9).is_well_formed());
    assert!(!make(23, 11, 4, 1).is_well_formed());
    assert!(!make(23, 11, 23, 9).is_well_formed());
    assert!(!make(23, 11, 4, 23).is_well_formed());
    assert!(!make(23, 0, 4, 9).is_well_formed());
    assert!(!make(23, 23, 4, 9).is_well_formed());
    assert!(!make(0, 0, 0, 0).is_well_formed());
}

#[test]
fn response_in_both_branches() {
    let group = tiny_group();
    let respond = |k: u32, x: u32, c: u32| {
        group.respond(&BigUint::from(k), &BigUint::from(x), &BigUint::from(c))
    };

    // k >= c*x: (k - c*x) mod q
    assert_eq!(respond(7, 3, 2), BigUint::from(1u32));
    assert_eq!(respond(10, 0, 9), BigUint::from(10u32));
    assert_eq!(respond(6, 6, 1), BigUint::from(0u32));
    // k < c*x: q - ((c*x - k) mod q)
    assert_eq!(respond(7, 6, 4), BigUint::from(5u32));
    assert_eq!(respond(0, 10, 10), BigUint::from(10u32));
    assert_eq!(respond(3, 5, 5), BigUint::from(0u32));
    assert_eq!(respond(1, 4, 3), BigUint::from(0u32));
}

#[test]
fn response_where_the_product_exceeds_the_nonce_by_a_multiple_of_q() {
    let group = tiny_group();
    let k = BigUint::from(1u32);
    let x = BigUint::from(6u32);
    let c = BigUint::from(2u32);

    let s = group.respond(&k, &x, &c);

    assert_eq!(s, BigUint::from(0u32));

    let y = group.powers(&x);
    let r = group.powers(&k);
    assert!(group.check((&y.0, &y.1), (&r.0, &r.1), &c, &s));
}

#[test]
fn signer_answers_below_q_where_the_product_exceeds_the_nonce_by_q() {
    let mut signer = Builder::new()
        .with_group(23u32, 11u32, 4u32, 9u32)
        .unwrap()
        .with_secret(4u32)
        .unwrap()
        .build()
        .unwrap();
    signer.override_k(1u32);
    let mut verifier = Verifier::from(signer.create_statement());
    verifier.override_c(3u32);

    let solution = signer.solve_challenge(BigUint::from(3u32));

    assert_eq!(solution, BigUint::from(0u32));
    assert!(verifier.verify_solution(solution));
}

#[test]
fn honest_answers_are_accepted_and_their_successors_rejected_in_the_tiny_group() {
    let group = tiny_group();
    let q = BigUint::from(11u32);
    let one = BigUint::from(1u32);

    for x in 0..11u32 {
        for k in 0..11u32 {
            for c in 0..11u32 {
                let (x, k, c) = (BigUint::from(x), BigUint::from(k), BigUint::from(c));
                let y = group.powers(&x);
                let r = group.powers(&k);
                let s = group.respond(&k, &x, &c);
                let off_by_one = (&s + &one) % &q;

                assert!(s < q);
                assert_eq!((&s + &c * &x) % &q, &k % &q);
                assert!(group.check((&y.0, &y.1), (&r.0, &r.1), &c, &s));
                assert!(!group.check((&y.0, &y.1), (&r.0, &r.1), &c, &off_by_one));
            }
        }
    }
}

#[test]
fn builder_wants_generators_first() {
    assert!(matches!(
        Builder::new().with_moduli(23, 11),
        Err(SignerError::GeneratorsNotSet)
    ));
    assert!(matches!(
        Builder::new().with_secret(6),
        Err(SignerError::GeneratorsNotSet)
    ));
    assert!(matches!(
        Builder::new().with_random_secret(),
        Err(SignerError::GeneratorsNotSet)
    ));
    assert!(matches!(
        Builder::new().build(),
        Err(SignerError::GeneratorsNotSet)
    ));
}

#[test]
fn builder_wants_moduli_before_the_secret() {
    let with_generators = || Builder::new().with_generators(4, 9).unwrap();

    assert!(matches!(
        with_generators().with_secret(6),
        Err(SignerError::ModuliNotSet)
    ));
    assert!(matches!(
        with_generators().with_random_secret(),
        Err(SignerError::ModuliNotSet)
    ));
    assert!(matches!(
        with_generators().build(),
        Err(SignerError::ModuliNotSet)
    ));
}

#[test]
fn builder_rejects_invalid_generators() {
    for (alpha, beta) in [(4u32, 4u32), (1, 9), (4, 1), (0, 9), (4, 0)] {
        match Builder::new().with_generators(alpha, beta) {
            Err(SignerError::InvalidGenerators((a, b))) => {
                assert_eq!(a, BigUint::from(alpha));
                assert_eq!(b, BigUint::from(beta));
            }
            _ => panic!("generators ({}, {}) were accepted", alpha, beta),
        }
    }
    assert!(matches!(
        Builder::new().with_group(23, 11, 4, 4),
        Err(SignerError::InvalidGenerators(_))
    ));
}

#[test]
fn builder_rejects_invalid_moduli() {
    for (p, q) in [(23u32, 0u32), (23, 23), (23, 24), (9, 5), (4, 3), (0, 0)] {
        match Builder::new().with_generators(4, 9).unwrap().with_moduli(p, q) {
            Err(SignerError::InvalidModuli((a, b))) => {
                assert_eq!(a, BigUint::from(p));
                assert_eq!(b, BigUint::from(q));
            }
            _ => panic!("moduli ({}, {}) were accepted", p, q),
        }
    }
    assert!(matches!(
        Builder::new().with_group(23, 0, 4, 9),
        Err(SignerError::InvalidModuli(_))
    ));
}

#[test]
fn builder_rejects_a_secret_that_is_not_below_q() {
    let with_group = || Builder::new().with_group(23, 11, 4, 9).unwrap();

    assert!(matches!(
        with_group().with_secret(11),
        Err(SignerError::InvalidSecret)
    ));
    assert!(matches!(
        with_group().with_secret(12),
        Err(SignerError::InvalidSecret)
    ));
    assert!(with_group().with_secret(10).is_ok());
    assert!(with_group().with_secret(0).is_ok());
}

#[test]
fn builder_tests_the_parts_again_when_it_builds() {
    // the generators are replaced after the moduli were accepted
    let builder = Builder::new()
        .with_group(23, 11, 4, 9)
        .unwrap()
        .with_generators(30, 9)
        .unwrap();

    match builder.build() {
        Err(SignerError::InvalidModuli((p, q))) => {
            assert_eq!(p, BigUint::from(23u32));
            assert_eq!(q, BigUint::from(11u32));
        }
        _ => panic!("a generator above p was accepted"),
    }
}

#[test]
fn builder_draws_secret_and_nonce_below_q() {
    for _ in 0..20 {
        let signer = Builder::new()
            .with_group(23, 11, 4, 9)
            .unwrap()
            .with_random_secret()
            .unwrap()
            .build()
            .unwrap();
        let statement = signer.create_statement();
        let group = &statement.group;

        assert!((0..11u32).any(|x| group.powers(&BigUint::from(x)) == statement.y));
        assert!((0..11u32).any(|k| group.powers(&BigUint::from(k)) == statement.r));
    }
}

#[test]
fn signer_error_messages() {
    assert_eq!(SignerError::GeneratorsNotSet.message(), "Generators not set");
    assert_eq!(SignerError::ModuliNotSet.message(), "Moduli not set");
    assert_eq!(SignerError::InvalidSecret.message(), "Invalid secret");
    assert_eq!(
        SignerError::InvalidGenerators((BigUint::from(4u32), BigUint::from(0u32))).message(),
        "Invalid generators (alpha, beta) => (4, 0)"
    );
    assert_eq!(
        SignerError::InvalidModuli((BigUint::from(4294967295u32), BigUint::from(120u32)))
            .message(),
        "Invalid moduli (p, q) => (4294967295, 120)"
    );
}
