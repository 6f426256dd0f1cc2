use num_bigint::BigUint;
use zkp_auth::crypto::Group as GroupNumbers;
use zkp_auth::grpc::auth::messages::Challenge;
use zkp_auth::grpc::auth::messages::Commitment;
use zkp_auth::grpc::auth::messages::Group;
use zkp_auth::grpc::auth::messages::ProtoGroup;
use zkp_auth::grpc::auth::messages::Signature;
use zkp_auth::grpc::auth::messages::Solution;
use zkp_auth::zkp::error::CryptoError;
use zkp_auth::zkp::error::Error;
use zkp_auth::zkp::hex::strip_white_space;
use zkp_auth::zkp::parse_hex_number;
use zkp_auth::zkp::registry::GroupRegistry;
use zkp_auth::zkp::registry::MODP_1024_160_G;
use zkp_auth::zkp::registry::MODP_1024_160_P;
use zkp_auth::zkp::registry::MODP_1024_160_Q;
use zkp_auth::zkp::registry::MODP_2048_224_G;
use zkp_auth::zkp::registry::MODP_2048_224_P;
use zkp_auth::zkp::registry::MODP_2048_224_Q;
use zkp_auth::zkp::registry::MODP_2048_256_G;
use zkp_auth::zkp::registry::MODP_2048_256_P;
use zkp_auth::zkp::registry::MODP_2048_256_Q;
use zkp_auth::zkp::second_generator;
use zkp_auth::zkp::signer::Signer;
use zkp_auth::zkp::verification::Verifier;
use zkp_auth::zkp::GroupParams;

fn valid_solution_passes_for(group: &GroupParams) {
    // Set up the signer and get a commitment.
    let signer = Signer::from(group);
    let secret = signer.create_random_secret();
    let signature = signer.create_signature(&secret);
    let commitment = signer.create_commitment();

    // Set up the verifier and get a challenge.
    let verifier = Verifier::try_from((signature, commitment)).unwrap();
    let challenge = verifier.create_challenge();

    // Create a valid solution to the challenge.
    let solution = signer.create_solution(&secret, challenge);

    // Test to make sure that the solution passes.
    assert!(verifier.verify_solution(solution));
}

fn invalid_solution_is_rejected_for(group: &GroupParams) {
    // Set up the signer and get a commitment.
    let signer = Signer::from(group);
    let secret = signer.create_random_secret();
    let signature = signer.create_signature(&secret);
    let commitment = signer.create_commitment();

    // Set up the verifier and get a challenge.
    let verifier = Verifier::try_from((signature, commitment)).unwrap();
    let challenge = verifier.create_challenge();

    // Create an invalid solution to the challenge.
    let solution = signer.create_invalid_solution(&secret, challenge);

    // Test to make sure that the invalid solution is rejected.
    assert!(!verifier.verify_solution(solution));
}

fn valid_solution_passes_for_named(group: Group) {
    let registry = GroupRegistry::new().unwrap();

    // Set up the signer and get a commitment.
    let signer = Signer::try_from(&registry, group).unwrap();
    let secret = signer.create_secret();
    let signature = signer.create_signature(&secret);
    let commitment = signer.create_commitment();

    // Set up the verifier and get a challenge.
    let verifier = Verifier::try_from((signature, commitment)).unwrap();
    let challenge = verifier.create_challenge();

    // Create a valid solution to the challenge.
    let solution = signer.create_solution(&secret, challenge);

    // Test to make sure that the solution passes.
    assert!(verifier.verify_solution(solution));
}

fn invalid_solution_is_rejected_for_named(group: Group) {
    let registry = GroupRegistry::new().unwrap();

    // Set up the signer and get a commitment.
    let signer = Signer::try_from(&registry, group).unwrap();
    let secret = signer.create_secret();
    let signature = signer.create_signature(&secret);
    let commitment = signer.create_commitment();

    // Set up the verifier and get a challenge.
    let verifier = Verifier::try_from((signature, commitment)).unwrap();
    let challenge = verifier.create_challenge();

    // Create an invalid solution to the challenge.
    let solution = signer.create_invalid_solution(&secret, challenge);

    assert!(!verifier.verify_solution(solution));
}

#[test]
fn valid_4_bit_q_group_solution_passes() {
    let registry = GroupRegistry::new().unwrap();
    valid_solution_passes_for(registry.lookup(Group::ModP004BitQGroup).unwrap())
}

#[test]
fn invalid_4_bit_q_group_solution_is_rejected() {
    let registry = GroupRegistry::new().unwrap();
    invalid_solution_is_rejected_for(registry.lookup(Group::ModP004BitQGroup).unwrap())
}

#[test]
fn valid_160_bit_q_group_solution_passes() {
    let registry = GroupRegistry::new().unwrap();
    valid_solution_passes_for(registry.lookup(Group::ModP160BitQGroup).unwrap())
}

#[test]
fn invalid_160_bit_q_group_solution_is_rejected() {
    let registry = GroupRegistry::new().unwrap();
    invalid_solution_is_rejected_for(registry.lookup(Group::ModP160BitQGroup).unwrap())
}

#[test]
fn valid_224_bit_q_group_solution_passes() {
    let registry = GroupRegistry::new().unwrap();
    valid_solution_passes_for(registry.lookup(Group::ModP224BitQGroup).unwrap())
}

#[test]
fn invalid_224_bit_q_group_solution_is_rejected() {
    let registry = GroupRegistry::new().unwrap();
    invalid_solution_is_rejected_for(registry.lookup(Group::ModP224BitQGroup).unwrap())
}

#[test]
fn valid_256_bit_q_group_solution_passes() {
    let registry = GroupRegistry::new().unwrap();
    valid_solution_passes_for(registry.lookup(Group::ModP256BitQGroup).unwrap())
}

#[test]
fn invalid_256_bit_q_group_solution_is_rejected() {
    let registry = GroupRegistry::new().unwrap();
    invalid_solution_is_rejected_for(registry.lookup(Group::ModP256BitQGroup).unwrap())
}

#[test]
fn test_valid_4_bit_q_group_solution_passes() {
    valid_solution_passes_for_named(Group::ModP004BitQGroup)
}

#[test]
fn test_invalid_4_bit_q_group_solution_is_rejected() {
    invalid_solution_is_rejected_for_named(Group::ModP004BitQGroup)
}

#[test]
fn test_valid_160_bit_q_group_solution_passes() {
    valid_solution_passes_for_named(Group::ModP160BitQGroup)
}

#[test]
fn test_invalid_160_bit_q_group_solution_is_rejected() {
    invalid_solution_is_rejected_for_named(Group::ModP160BitQGroup)
}

#[test]
fn test_valid_224_bit_q_group_solution_passes() {
    valid_solution_passes_for_named(Group::ModP224BitQGroup)
}

#[test]
fn test_invalid_224_bit_q_group_solution_is_rejected() {
    invalid_solution_is_rejected_for_named(Group::ModP224BitQGroup)
}

#[test]
fn test_valid_256_bit_q_group_solution_passes() {
    valid_solution_passes_for_named(Group::ModP256BitQGroup)
}

#[test]
fn test_invalid_256_bit_q_group_solution_is_rejected() {
    invalid_solution_is_rejected_for_named(Group::ModP256BitQGroup)
}

fn numbers(p: u32, q: u32, alpha: u32, beta: u32) -> GroupNumbers {
    GroupNumbers {
        p: BigUint::from(p),
        q: BigUint::from(q),
        alpha: BigUint::from(alpha),
        beta: BigUint::from(beta),
    }
}

fn tiny_group() -> GroupParams {
    GroupParams::new(numbers(23, 11, 4, 9)).unwrap()
}

#[test]
fn tiny_group_round_trip_in_messages() {
    let group = tiny_group();
    let signer = Signer::with_nonce(&group, BigUint::from(7u32));
    let secret = BigUint::from(6u32);

    let signature = signer.create_signature(&secret);
    assert_eq!(
        signature,
        Signature {
            group: Some(ProtoGroup {
                p: vec![23],
                q: vec![11],
                alpha: vec![4],
                beta: vec![9],
            }),
            y1: vec![2],
            y2: vec![3],
        }
    );

    let commitment = signer.create_commitment();
    assert_eq!(
        commitment,
        Commitment {
            r1: vec![8],
            r2: vec![4],
        }
    );

    let verifier = Verifier::with_challenge((signature, commitment), BigUint::from(4u32)).unwrap();
    let challenge = verifier.create_challenge();
    assert_eq!(challenge, Challenge { c: vec![4] });

    let solution = signer.create_solution(&secret, challenge);
    assert_eq!(solution, Solution { s: vec![5] });
    assert!(verifier.verify_solution(solution));
}

#[test]
fn tiny_group_rejection_in_messages() {
    let group = tiny_group();
    let signer = Signer::with_nonce(&group, BigUint::from(7u32));
    let secret = BigUint::from(6u32);
    let verifier = Verifier::with_challenge(
        (signer.create_signature(&secret), signer.create_commitment()),
        BigUint::from(4u32),
    )
    .unwrap();

    assert!(!verifier.verify_solution(Solution { s: vec![2] }));

    let invalid = signer.create_invalid_solution(&secret, verifier.create_challenge());
    assert_eq!(invalid, Solution { s: vec![6] });
    assert!(!verifier.verify_solution(invalid));
}

#[test]
fn invalid_solution_wraps_around_q() {
    let group = tiny_group();
    // k = 10, c*x = 0: s = 10, and the answer that is off by one is 0
    let signer = Signer::with_nonce(&group, BigUint::from(10u32));
    let secret = BigUint::from(0u32);

    assert_eq!(
        signer.create_solution(&secret, Challenge { c: vec![3] }),
        Solution { s: vec![10] }
    );
    assert_eq!(
        signer.create_invalid_solution(&secret, Challenge { c: vec![3] }),
        Solution { s: vec![0] }
    );
}

#[test]
fn numbers_travel_in_their_shortest_form() {
    let group = tiny_group();
    // k = c*x: the answer is zero, which is the single byte 0
    let signer = Signer::with_nonce(&group, BigUint::from(6u32));
    let solution = signer.create_solution(&BigUint::from(3u32), Challenge { c: vec![2] });
    assert_eq!(solution, Solution { s: vec![0] });

    let registry = GroupRegistry::new().unwrap();
    let big = registry.lookup(Group::ModP160BitQGroup).unwrap();
    let signer = Signer::from(big);
    let signature = signer.create_signature(&signer.create_random_secret());
    let commitment = signer.create_commitment();
    let proto = signature.group.unwrap();

    assert_eq!(proto.p.len(), 128);
    assert_eq!(proto.q.len(), 20);
    for bytes in [
        &proto.p,
        &proto.q,
        &proto.alpha,
        &proto.beta,
        &signature.y1,
        &signature.y2,
        &commitment.r1,
        &commitment.r2,
    ] {
        assert!(!bytes.is_empty());
        assert!(bytes.len() <= 128);
        assert!(bytes.len() == 1 || bytes[0] != 0);
    }
}

#[test]
fn leading_zero_bytes_do_not_change_a_number() {
    let group = tiny_group();
    let signer = Signer::with_nonce(&group, BigUint::from(7u32));
    let secret = BigUint::from(6u32);
    let mut signature = signer.create_signature(&secret);
    signature.y1 = vec![0, 0, 2];
    let commitment = Commitment {
        r1: vec![0, 8],
        r2: vec![4],
    };
    let verifier = Verifier::with_challenge((signature, commitment), BigUint::from(4u32)).unwrap();

    assert!(verifier.verify_solution(Solution { s: vec![0, 5] }));
    assert!(!verifier.verify_solution(Solution { s: vec![] }));
    assert_eq!(
        signer.create_solution(&secret, Challenge { c: vec![0, 0, 4] }),
        Solution { s: vec![5] }
    );
}

#[test]
fn drawn_values_are_below_q() {
    let group = tiny_group();
    let q = BigUint::from(11u32);

    for _ in 0..50 {
        let signer = Signer::from(&group);
        assert!(signer.create_random_secret() < q);

        let commitment = signer.create_commitment();
        let numbers = group.group();
        assert!((0..11u32).any(|k| {
            let r = numbers.powers(&BigUint::from(k));
            commitment.r1 == r.0.to_bytes_be() && commitment.r2 == r.1.to_bytes_be()
        }));

        let verifier =
            Verifier::try_from((signer.create_signature(&BigUint::from(6u32)), commitment))
                .unwrap();
        assert!(BigUint::from_bytes_be(&verifier.create_challenge().c) < q);
    }
}

#[test]
fn secret_from_password_is_the_digest_modulo_q() {
    // SHA-256("password") =
    // 5e884898da28047151d0e56f8dc6292773603d0d6aabbdd62a11ef721d1542d8
    let digest = BigUint::parse_bytes(
        b"5e884898da28047151d0e56f8dc6292773603d0d6aabbdd62a11ef721d1542d8",
        16,
    )
    .unwrap();
    let group = tiny_group();
    let signer = Signer::from(&group);

    assert_eq!(
        signer.create_secret_from_password(String::from("password")),
        BigUint::from(4u32)
    );

    let registry = GroupRegistry::new().unwrap();
    let signer = Signer::from(registry.lookup(Group::ModP160BitQGroup).unwrap());

    assert_eq!(
        signer.create_secret_from_password(String::from("password")),
        BigUint::parse_bytes(b"1167902204507369181714757485189874013813427761927", 10).unwrap()
    );

    // a digest below q is the secret itself
    let group = registry.lookup(Group::ModP256BitQGroup).unwrap();
    assert!(digest < group.group().q);
    assert_eq!(
        Signer::from(group).create_secret_from_password(String::from("password")),
        digest
    );
}

#[test]
fn secret_from_password_is_the_same_every_time() {
    let registry = GroupRegistry::new().unwrap();
    let group = registry.lookup(Group::ModP256BitQGroup).unwrap();
    let first = Signer::from(group).create_secret_from_password(String::from("correct horse"));
    let second = Signer::from(group).create_secret_from_password(String::from("correct horse"));
    let other = Signer::from(group).create_secret_from_password(String::from("correct horsf"));

    assert_eq!(first, second);
    assert!(first != other);
    assert!(first < group.group().q);
}

#[test]
fn signer_for_the_unspecified_group_fails() {
    let registry = GroupRegistry::new().unwrap();

    assert!(matches!(
        Signer::try_from(&registry, Group::UnspecifiedGroup),
        Err(CryptoError::GroupNotSpecified)
    ));
    assert!(matches!(
        registry.lookup(Group::UnspecifiedGroup),
        Err(CryptoError::GroupNotSpecified)
    ));
}

#[test]
fn verifier_wants_a_well_formed_group() {
    let group = tiny_group();
    let signer = Signer::with_nonce(&group, BigUint::from(7u32));
    let secret = BigUint::from(6u32);

    let mut without_group = signer.create_signature(&secret);
    without_group.group = None;
    assert!(matches!(
        Verifier::try_from((without_group.clone(), signer.create_commitment())),
        Err(Error::GroupNotSpecified)
    ));
    assert!(matches!(
        Verifier::with_challenge(
            (without_group, signer.create_commitment()),
            BigUint::from(4u32)
        ),
        Err(Error::GroupNotSpecified)
    ));

    let mut with_zero_moduli = signer.create_signature(&secret);
    with_zero_moduli.group = Some(ProtoGroup {
        p: vec![0],
        q: vec![],
        alpha: vec![4],
        beta: vec![9],
    });
    assert!(matches!(
        Verifier::try_from((with_zero_moduli, signer.create_commitment())),
        Err(Error::InvalidGroup)
    ));

    let mut with_equal_generators = signer.create_signature(&secret);
    with_equal_generators.group = Some(ProtoGroup {
        p: vec![23],
        q: vec![11],
        alpha: vec![4],
        beta: vec![4],
    });
    assert!(matches!(
        Verifier::with_challenge(
            (with_equal_generators, signer.create_commitment()),
            BigUint::from(4u32)
        ),
        Err(Error::InvalidGroup)
    ));
}

#[test]
fn group_params_accept_what_is_well_formed() {
    let group = tiny_group();
    assert_eq!(group.group().p, BigUint::from(23u32));
    assert_eq!(group.group().q, BigUint::from(11u32));
    assert_eq!(group.group().alpha, BigUint::from(4u32));
    assert_eq!(group.group().beta, BigUint::from(9u32));

    for (p, q, alpha, beta) in [
        (23u32, 11u32, 4u32, 4u32),
        (23, 11, 1, 9),
        (23, 11, 4, 1),
        (23, 11, 4, 0),
        (23, 11, 23, 9),
        (23, 11, 4, 24),
        (23, 0, 4, 9),
        (23, 23, 4, 9),
    ] {
        assert!(matches!(
            GroupParams::new(numbers(p, q, alpha, beta)),
            Err(CryptoError::InvalidParameters)
        ));
    }
}

#[test]
fn group_params_to_and_from_messages() {
    let proto = tiny_group().to_proto();
    assert_eq!(
        proto,
        ProtoGroup {
            p: vec![23],
            q: vec![11],
            alpha: vec![4],
            beta: vec![9],
        }
    );

    let back = GroupParams::from_proto(&proto).unwrap();
    assert_eq!(back.group().p, BigUint::from(23u32));
    assert_eq!(back.group().beta, BigUint::from(9u32));

    let padded = ProtoGroup {
        p: vec![0, 23],
        q: vec![0, 0, 11],
        alpha: vec![4],
        beta: vec![0, 9],
    };
    assert_eq!(GroupParams::from_proto(&padded).unwrap().to_proto(), proto);

    let big = ProtoGroup {
        p: vec![1, 0, 1],
        q: vec![1, 0],
        alpha: vec![2],
        beta: vec![1, 0, 0],
    };
    let params = GroupParams::from_proto(&big).unwrap();
    assert_eq!(params.group().p, BigUint::from(65537u32));
    assert_eq!(params.group().q, BigUint::from(256u32));
    assert_eq!(params.group().beta, BigUint::from(65536u32));
    assert_eq!(params.to_proto(), big);

    let broken = ProtoGroup {
        p: vec![],
        q: vec![],
        alpha: vec![],
        beta: vec![],
    };
    assert!(matches!(
        GroupParams::from_proto(&broken),
        Err(CryptoError::InvalidParameters)
    ));
}

#[test]
fn second_generator_is_a_power_that_differs_from_the_first() {
    let p = BigUint::from(23u32);
    let alpha = BigUint::from(4u32);
    let of = |r: u32| second_generator(&p, &alpha, &BigUint::from(r));

    assert_eq!(of(0), None);
    assert_eq!(of(1), None);
    assert_eq!(of(2), Some(BigUint::from(16u32)));
    assert_eq!(of(3), Some(BigUint::from(18u32)));
    assert_eq!(of(11), None);
    assert_eq!(of(12), None);
}

#[test]
fn group_from_its_base_draws_a_second_generator() {
    for _ in 0..20 {
        let group = GroupParams::from((
            BigUint::from(23u32),
            BigUint::from(11u32),
            BigUint::from(4u32),
        ))
        .unwrap();
        let numbers = group.group();

        assert!(numbers.is_well_formed());
        assert_eq!(numbers.p, BigUint::from(23u32));
        assert_eq!(numbers.q, BigUint::from(11u32));
        assert_eq!(numbers.alpha, BigUint::from(4u32));
        assert!((2..11u32).any(|r| BigUint::from(4u32).pow(r) % 23u32 == numbers.beta));
    }
}

#[test]
fn group_from_an_invalid_base_fails() {
    for (p, q, alpha) in [
        (23u32, 11u32, 1u32),
        (23, 11, 0),
        (23, 11, 23),
        (23, 0, 4),
        (23, 23, 4),
        (0, 0, 0),
    ] {
        assert!(matches!(
            GroupParams::from((BigUint::from(p), BigUint::from(q), BigUint::from(alpha))),
            Err(CryptoError::InvalidParameters)
        ));
    }
}

#[test]
fn group_from_a_base_without_second_generator_fails() {
    // every power of 22 modulo 23 is 1 or 22
    assert!(matches!(
        GroupParams::from((
            BigUint::from(23u32),
            BigUint::from(2u32),
            BigUint::from(22u32)
        )),
        Err(CryptoError::GeneratorNotFound)
    ));
}

#[test]
fn group_from_hexadecimal_text() {
    let group = GroupParams::from_hex((" 17 ", "0B", "\n 04\t")).unwrap();
    let numbers = group.group();

    assert_eq!(numbers.p, BigUint::from(23u32));
    assert_eq!(numbers.q, BigUint::from(11u32));
    assert_eq!(numbers.alpha, BigUint::from(4u32));
    assert!(numbers.is_well_formed());

    assert!(matches!(
        GroupParams::from_hex(("17", "B", "04")),
        Err(CryptoError::InvalidHex)
    ));
    assert!(matches!(
        GroupParams::from_hex(("1G", "0B", "04")),
        Err(CryptoError::InvalidHex)
    ));
    assert!(matches!(
        GroupParams::from_hex(("17", "0B", "0x04")),
        Err(CryptoError::InvalidHex)
    ));
    assert!(matches!(
        GroupParams::from_hex(("17", "0B", "01")),
        Err(CryptoError::InvalidParameters)
    ));
}

#[test]
fn hexadecimal_numbers() {
    assert_eq!(parse_hex_number("0A ff").unwrap(), BigUint::from(0x0affu32));
    assert_eq!(parse_hex_number("  de AD\n be\tEF ").unwrap(), BigUint::from(0xdeadbeefu32));
    assert_eq!(parse_hex_number("").unwrap(), BigUint::from(0u32));
    assert_eq!(parse_hex_number(" \n ").unwrap(), BigUint::from(0u32));
    assert_eq!(parse_hex_number("0000").unwrap(), BigUint::from(0u32));
    assert_eq!(parse_hex_number("abc"), Err(CryptoError::InvalidHex));
    assert_eq!(parse_hex_number("a bc d"), Ok(BigUint::from(0xabcdu32)));
    assert_eq!(parse_hex_number("zz"), Err(CryptoError::InvalidHex));
    assert_eq!(parse_hex_number("12-4"), Err(CryptoError::InvalidHex));
    assert_eq!(parse_hex_number("\u{e9}\u{e9}"), Err(CryptoError::InvalidHex));
}

#[test]
fn white_space_is_stripped() {
    assert_eq!(strip_white_space(" a b\tc\nd\r\n"), "abcd");
    assert_eq!(strip_white_space(""), "");
    assert_eq!(strip_white_space("  \n"), "");
    assert_eq!(strip_white_space("abc"), "abc");
    assert_eq!(strip_white_space("a\u{a0}b\u{2003}c"), "abc");
    assert_eq!(strip_white_space("\u{e9} \u{4e2d}"), "\u{e9}\u{4e2d}");
}

fn plain_hex(text: &str) -> BigUint {
    let digits: String = text.chars().filter(|c| !c.is_whitespace()).collect();
    BigUint::parse_bytes(digits.as_bytes(), 16).unwrap()
}

#[test]
fn registry_holds_the_named_groups() {
    let registry = GroupRegistry::new().unwrap();

    let tiny = registry.lookup(Group::ModP004BitQGroup).unwrap().group();
    assert_eq!(tiny.p, BigUint::from(23u32));
    assert_eq!(tiny.q, BigUint::from(11u32));
    assert_eq!(tiny.alpha, BigUint::from(4u32));

    for (id, p, q, g, p_bits, q_bits) in [
        (
            Group::ModP160BitQGroup,
            MODP_1024_160_P,
            MODP_1024_160_Q,
            MODP_1024_160_G,
            1024u64,
            160u64,
        ),
        (
            Group::ModP224BitQGroup,
            MODP_2048_224_P,
            MODP_2048_224_Q,
            MODP_2048_224_G,
            2048,
            224,
        ),
        (
            Group::ModP256BitQGroup,
            MODP_2048_256_P,
            MODP_2048_256_Q,
            MODP_2048_256_G,
            2048,
            256,
        ),
    ] {
        let group = registry.lookup(id).unwrap().group();

        assert_eq!(group.p, plain_hex(p));
        assert_eq!(group.q, plain_hex(q));
        assert_eq!(group.alpha, plain_hex(g));
        assert_eq!(group.p.bits(), p_bits);
        assert_eq!(group.q.bits(), q_bits);
    }
}

#[test]
fn registry_groups_are_subgroups_of_order_q() {
    let registry = GroupRegistry::new().unwrap();
    let one = BigUint::from(1u32);

    for id in [
        Group::ModP004BitQGroup,
        Group::ModP160BitQGroup,
        Group::ModP224BitQGroup,
        Group::ModP256BitQGroup,
    ] {
        let group = registry.lookup(id).unwrap().group();

        assert!(group.is_well_formed());
        assert_eq!((&group.p - &one) % &group.q, BigUint::from(0u32));
        assert_eq!(group.alpha.modpow(&group.q, &group.p), one);
        assert_eq!(group.beta.modpow(&group.q, &group.p), one);
        assert!(group.alpha != group.beta);
        assert!(group.beta > one);
    }
}

#[test]
fn first_bytes_of_the_1024_bit_modulus() {
    let registry = GroupRegistry::new().unwrap();
    let proto = registry.lookup(Group::ModP160BitQGroup).unwrap().to_proto();

    assert_eq!(&proto.p[..4], &[0xB1, 0x0B, 0x8F, 0x96]);
    assert_eq!(&proto.p[124..], &[0x2E, 0x4A, 0x43, 0x71]);
    assert_eq!(&proto.q[..4], &[0xF5, 0x18, 0xAA, 0x87]);
    assert_eq!(&proto.alpha[..4], &[0xA4, 0xD1, 0xCB, 0xD5]);
}

#[test]
fn group_names() {
    for (group, name) in [
        (Group::UnspecifiedGroup, "UNSPECIFIED_GROUP"),
        (Group::ModP004BitQGroup, "MOD_P_004_BIT_Q_GROUP"),
        (Group::ModP160BitQGroup, "MOD_P_160_BIT_Q_GROUP"),
        (Group::ModP224BitQGroup, "MOD_P_224_BIT_Q_GROUP"),
        (Group::ModP256BitQGroup, "MOD_P_256_BIT_Q_GROUP"),
    ] {
        assert_eq!(group.as_str_name(), name);
        assert_eq!(Group::from_str_name(name), Some(group));
    }
    assert_eq!(Group::from_str_name("MOD_P_512_BIT_Q_GROUP"), None);
    assert_eq!(Group::from_str_name("mod_p_004_bit_q_group"), None);
    assert_eq!(Group::from_str_name(""), None);
}

#[test]
fn engine_error_messages() {
    assert_eq!(Error::GroupNotSpecified.message(), "Group not specified");
    assert_eq!(Error::InvalidGroup.message(), "Invalid group parameters");
    assert_eq!(CryptoError::GroupNotSpecified.message(), "Group not specified");
    assert_eq!(CryptoError::InvalidParameters.message(), "Invalid group parameters");
    assert_eq!(CryptoError::InvalidHex.message(), "Invalid hexadecimal digits");
    assert_eq!(CryptoError::GeneratorNotFound.message(), "No second generator found");
}

#[test]
fn registry_lookup_by_name() {
    let registry = GroupRegistry::new().unwrap();

    for (name, id) in [
        ("MOD_P_004_BIT_Q_GROUP", Group::ModP004BitQGroup),
        ("MOD_P_160_BIT_Q_GROUP", Group::ModP160BitQGroup),
        ("MOD_P_224_BIT_Q_GROUP", Group::ModP224BitQGroup),
        ("MOD_P_256_BIT_Q_GROUP", Group::ModP256BitQGroup),
    ] {
        let by_name = registry.lookup_name(name).unwrap().group();
        let by_id = registry.lookup(id).unwrap().group();

        assert_eq!(by_name.p, by_id.p);
        assert_eq!(by_name.q, by_id.q);
        assert_eq!(by_name.alpha, by_id.alpha);
        assert_eq!(by_name.beta, by_id.beta);
    }
    for name in ["UNSPECIFIED_GROUP", "MOD_P_512_BIT_Q_GROUP", "", "1"] {
        assert!(matches!(
            registry.lookup_name(name),
            Err(CryptoError::GroupNotSpecified)
        ));
    }
}

#[test]
fn answers_in_messages_lie_below_q() {
    let group = tiny_group();
    // c*x - k == q: the answer is zero, not q
    let signer = Signer::with_nonce(&group, BigUint::from(1u32));
    assert_eq!(
        signer.create_solution(&BigUint::from(4u32), Challenge { c: vec![3] }),
        Solution { s: vec![0] }
    );
    assert_eq!(
        signer.create_invalid_solution(&BigUint::from(4u32), Challenge { c: vec![3] }),
        Solution { s: vec![1] }
    );

    for k in 0..11u32 {
        for x in 0..11u32 {
            for c in 0..11u8 {
                let signer = Signer::with_nonce(&group, BigUint::from(k));
                let solution = signer.create_solution(&BigUint::from(x), Challenge { c: vec![c] });

                assert_eq!(solution.s.len(), 1);
                assert!(solution.s[0] < 11);
                assert_eq!((solution.s[0] as u32 + c as u32 * x) % 11, k);
            }
        }
    }
}

#[test]
fn messages_in_decimal_digits() {
    let group = tiny_group();
    let signer = Signer::with_nonce(&group, BigUint::from(7u32));
    let signature = signer.create_signature(&BigUint::from(6u32));

    assert_eq!(signature.tracing_string(), "{y1: 2, y2: 3}");
    assert_eq!(
        signature.group.unwrap().tracing_string(),
        "{p: 23, q: 11, alpha: 4, beta: 9}"
    );
    assert_eq!(signer.create_commitment().tracing_string(), "{r1: 8, r2: 4}");
    assert_eq!(
        Commitment {
            r1: vec![],
            r2: vec![0, 1, 0, 0],
        }
        .tracing_string(),
        "{r1: 0, r2: 65536}"
    );
    assert_eq!(
        Signature {
            group: None,
            y1: vec![255, 255, 255, 255, 255, 255, 255, 255, 255],
            y2: vec![0],
        }
        .tracing_string(),
        "{y1: 4722366482869645213695, y2: 0}"
    );
}

#[test]
fn every_white_space_character_is_stripped_and_no_other() {
    let white: Vec<u32> = (0x9..=0xd)
        .chain([0x20, 0x85, 0xa0, 0x1680])
        .chain(0x2000..=0x200a)
        .chain([0x2028, 0x2029, 0x202f, 0x205f, 0x3000])
        .collect();
    assert_eq!(white.len(), 25);

    for code in 0..=0x3100u32 {
        let c = char::from_u32(code).unwrap();
        let text: String = ['a', c, 'b'].iter().collect();
        let stripped = strip_white_space(&text);

        if white.contains(&code) {
            assert_eq!(stripped, "ab");
        } else {
            assert_eq!(stripped, text);
        }
    }
    for c in ['\u{180e}', '\u{200b}', '\u{feff}', '\u{1f600}'] {
        let text: String = ['a', c, 'b'].iter().collect();
        assert_eq!(strip_white_space(&text), text);
    }
}
