use cerberus::communication::{decryption, signing, ModeratorRequest};
use cerberus::coordinator::{pow_fits_u64, Coordinator};
use cerberus::error::CerberusError;
use cerberus::moderator::ModeratorState;
use cerberus::parameters::GlobalParameters;
use cerberus::scalar::Scalar;
use cerberus::token::{SignedToken, UnsignedToken, TOKEN_LEN};
use cerberus::UserId;

struct Cluster {
    coordinator: Coordinator,
    moderators: Vec<ModeratorState>,
}

fn setup(n: usize, t_sig: usize, t_dec: usize, batch_size: usize) -> Result<Cluster, CerberusError> {
    let mut plan = Coordinator::setup_moderators(n, t_sig, t_dec, batch_size)?;
    let requests = std::mem::take(&mut plan.requests);
    let mut moderators = Vec::new();
    let mut responses = Vec::new();
    for request in requests {
        let mut moderator = ModeratorState::new();
        responses.push(moderator.handle_setup(request)?);
        moderators.push(moderator);
    }
    let coordinator = Coordinator::init(plan, responses)?;
    Ok(Cluster { coordinator, moderators })
}

fn create_tokens(cluster: &mut Cluster, user_ids: &Vec<UserId>) -> Result<Vec<SignedToken>, CerberusError> {
    let signing_requests = cluster.coordinator.prepare_tokens(user_ids)?;
    let request = signing::Request { signing_requests };
    let mut responses = Vec::new();
    for moderator in cluster.moderators.iter_mut() {
        responses.push(moderator.handle_signing(&request)?);
    }
    cluster.coordinator.complete_tokens(&request.signing_requests, responses)
}

fn decryption_responses(cluster: &Cluster, token: &SignedToken) -> Vec<decryption::Response> {
    let request = decryption::Request { message: b"hello world".to_vec(), x_1: token.token.x_1 };
    cluster.moderators.iter().map(|m| m.handle_decryption(&request).unwrap()).collect()
}

fn decrypt(cluster: &Cluster, token: &SignedToken) -> Result<UserId, CerberusError> {
    let responses = decryption_responses(cluster, token);
    cluster.coordinator.request_token_decryption(token, &responses)
}

fn random_ids(n: usize) -> Vec<UserId> {
    (0..n).map(|_| UserId::random()).collect()
}

#[test]
fn single_token_decrypts_to_its_id() {
    let mut cluster = setup(5, 3, 3, 1).unwrap();
    let ids = random_ids(1);
    let tokens = create_tokens(&mut cluster, &ids).unwrap();
    assert_eq!(tokens.len(), 1);
    assert!(tokens[0].verify(&cluster.coordinator.frost_public_key_package));
    assert_eq!(decrypt(&cluster, &tokens[0]), Ok(ids[0]));
}

#[test]
fn two_batches_in_a_row_stay_in_sync() {
    let mut cluster = setup(5, 4, 3, 10).unwrap();
    let ids = random_ids(10);
    let first = create_tokens(&mut cluster, &ids).unwrap();
    let second = create_tokens(&mut cluster, &ids).unwrap();
    let keys = &cluster.coordinator.frost_public_key_package;
    assert!(first.iter().all(|t| t.verify(keys)));
    assert!(second.iter().all(|t| t.verify(keys)));
    assert_eq!(decrypt(&cluster, &second[0]), Ok(ids[0]));
}

#[test]
fn hundred_signatures_verify() {
    let mut cluster = setup(3, 2, 2, 100).unwrap();
    let ids = random_ids(100);
    let tokens = create_tokens(&mut cluster, &ids).unwrap();
    assert_eq!(tokens.len(), 100);
    let keys = &cluster.coordinator.frost_public_key_package;
    assert!(tokens.iter().all(|t| t.verify(keys)));
}

#[test]
fn every_token_decrypts_to_the_supplied_id() {
    let mut cluster = setup(4, 2, 3, 5).unwrap();
    let ids = random_ids(5);
    let tokens = create_tokens(&mut cluster, &ids).unwrap();
    for (token, id) in tokens.iter().zip(ids.iter()) {
        assert_eq!(decrypt(&cluster, token), Ok(*id));
    }
}

#[test]
fn tampered_randomness_fails_the_batch() {
    let mut cluster = setup(5, 3, 3, 1).unwrap();
    let ids = random_ids(1);
    let randomness = vec![Scalar::random()];
    let honest = cluster.coordinator.create_signing_requests(&ids, &randomness, 1_700_000_000).unwrap();
    let mut tampered = cluster.coordinator.create_signing_requests(&ids, &randomness, 1_700_000_000).unwrap();
    tampered[0].elgamal_randomness = Scalar::random();
    let honest = signing::Request { signing_requests: honest };
    let tampered = signing::Request { signing_requests: tampered };

    let mut responses = Vec::new();
    let mut failure = None;
    for (j, moderator) in cluster.moderators.iter_mut().enumerate() {
        let request = if j == 2 { &tampered } else { &honest };
        match moderator.handle_signing(request) {
            Ok(r) => responses.push(r),
            Err(e) => failure = Some(e),
        }
    }
    assert_eq!(failure, Some(CerberusError::EncryptionMismatch));
    // the coordinator cannot complete the batch without every moderator
    assert_eq!(
        cluster.coordinator.complete_tokens(&honest.signing_requests, responses).err(),
        Some(CerberusError::WrongBatchSize)
    );
}

#[test]
fn decryption_with_too_few_shares_fails() {
    let mut cluster = setup(5, 3, 3, 1).unwrap();
    let ids = random_ids(1);
    let tokens = create_tokens(&mut cluster, &ids).unwrap();
    let mut responses = decryption_responses(&cluster, &tokens[0]);
    responses.truncate(2);
    assert_eq!(
        cluster.coordinator.request_token_decryption(&tokens[0], &responses),
        Err(CerberusError::NotEnoughShares)
    );
    // the shares alone, one short of the threshold, do not give the id
    let shares: Vec<_> = responses.iter().map(|r| r.decryption_share).collect();
    assert_eq!(tokens[0].token.x_1.decrypt_with_shares(&shares, 3), Err(CerberusError::NotEnoughShares));
    assert_ne!(tokens[0].token.x_1.decrypt_with_shares(&shares, 2), Ok(ids[0]));
}

#[test]
fn restart_after_shutdown() {
    let mut cluster = setup(5, 3, 3, 10).unwrap();
    let ids = random_ids(10);
    assert!(create_tokens(&mut cluster, &ids).is_ok());
    for moderator in cluster.moderators.iter_mut() {
        assert_eq!(moderator.handle_shutdown(), Ok(()));
        assert!(matches!(moderator, ModeratorState::Halted));
    }
    let mut cluster = setup(5, 3, 3, 10).unwrap();
    let tokens = create_tokens(&mut cluster, &ids).unwrap();
    assert!(tokens.iter().all(|t| t.verify(&cluster.coordinator.frost_public_key_package)));
}

#[test]
fn mutated_tokens_fail_verification() {
    let mut cluster = setup(3, 2, 2, 1).unwrap();
    let ids = random_ids(1);
    let mut tokens = create_tokens(&mut cluster, &ids).unwrap();
    let keys = &cluster.coordinator.frost_public_key_package;
    let token = &mut tokens[0];
    assert!(token.verify(keys));
    let x_1_before = token.token.x_1;

    token.token.timestamp += 1;
    assert!(!token.verify(keys));
    token.token.timestamp -= 1;

    token.token.x_1.c_2[0] ^= 1;
    assert!(!token.verify(keys));
    token.token.x_1.c_2[0] ^= 1;

    token.token.x_1.c_1 = cluster.coordinator.group_public_elgamal_key.0;
    assert!(!token.verify(keys));
    token.token.x_1 = x_1_before;
    assert!(token.verify(keys));

    token.token.pk_e[5] = 1;
    assert!(!token.verify(keys));
}

#[test]
fn setup_parameter_errors() {
    assert_eq!(Coordinator::setup_moderators(5, 0, 3, 1).err(), Some(CerberusError::InvalidParameters));
    assert_eq!(Coordinator::setup_moderators(5, 6, 3, 1).err(), Some(CerberusError::InvalidParameters));
    assert_eq!(Coordinator::setup_moderators(5, 3, 0, 1).err(), Some(CerberusError::InvalidParameters));
    assert_eq!(Coordinator::setup_moderators(3, 2, 2, 0).err(), Some(CerberusError::InvalidParameters));
    // 100^19 does not fit in u64
    assert_eq!(Coordinator::setup_moderators(100, 2, 20, 1).err(), Some(CerberusError::InvalidParameters));
    // the signature scheme needs at least two signers
    assert_eq!(Coordinator::setup_moderators(5, 1, 3, 1).err(), Some(CerberusError::SigningFailure));
    let plan = Coordinator::setup_moderators(7, 4, 4, 2).unwrap();
    assert_eq!(plan.requests.len(), 7);
    assert!(plan.requests.iter().all(|r| r.batch_size == 2));
    assert!(plan
        .requests
        .iter()
        .zip(1u64..)
        .all(|(r, i)| r.elgamal_secret_share.identifier == Scalar::from_u64(i)));
}

#[test]
fn wrong_batch_sizes_are_refused() {
    let mut cluster = setup(3, 2, 2, 2).unwrap();
    assert_eq!(cluster.coordinator.prepare_tokens(&random_ids(3)).err(), Some(CerberusError::WrongBatchSize));
    let one = cluster.coordinator.create_signing_requests(&random_ids(1), &vec![Scalar::random()], 0).err();
    assert_eq!(one, Some(CerberusError::WrongBatchSize));

    let reqs = cluster.coordinator.prepare_tokens(&random_ids(2)).unwrap();
    let mut short = reqs;
    short.pop();
    let request = signing::Request { signing_requests: short };
    assert_eq!(cluster.moderators[0].handle_signing(&request).err(), Some(CerberusError::WrongBatchSize));
}

#[test]
fn moderator_state_machine() {
    let mut state = ModeratorState::new();
    let empty = signing::Request { signing_requests: vec![] };
    assert_eq!(state.handle_signing(&empty).err(), Some(CerberusError::UnexpectedRequest));
    assert_eq!(state.handle_shutdown(), Err(CerberusError::UnexpectedRequest));

    let mut plan = Coordinator::setup_moderators(3, 2, 2, 4).unwrap();
    let mut requests = std::mem::take(&mut plan.requests);
    let response = state.handle_setup(requests.remove(0)).unwrap();
    assert_eq!(response.nonce_commitments.len(), 4);
    assert_eq!(state.handle_setup(requests.remove(0)).err(), Some(CerberusError::UnexpectedRequest));

    assert_eq!(state.handle_shutdown(), Ok(()));
    let request = decryption::Request {
        message: vec![],
        x_1: cerberus::elgamal::EncryptedUserId {
            c_1: cerberus::point::Point { bytes: [0u8; 32] },
            c_2: [0u8; 32],
        },
    };
    assert_eq!(state.handle_decryption(&request).err(), Some(CerberusError::UnexpectedRequest));
}

#[test]
fn moderator_rejects_mismatched_claims() {
    let cluster = setup(3, 2, 2, 1).unwrap();
    let ids = random_ids(1);
    let mut reqs = cluster.coordinator.create_signing_requests(&ids, &vec![Scalar::random()], 5).unwrap();
    let moderator = match &cluster.moderators[1] {
        ModeratorState::Ready(m) => m,
        _ => panic!("moderator is not set up"),
    };
    assert_eq!(moderator.verify_signing_request(&reqs[0]), Ok(()));
    reqs[0].user_id = UserId([9u8; 32]);
    assert_eq!(moderator.verify_signing_request(&reqs[0]), Err(CerberusError::EncryptionMismatch));
    reqs[0].signing_package.message.pop();
    assert_eq!(moderator.verify_signing_request(&reqs[0]), Err(CerberusError::InvalidEncoding));
}

#[test]
fn token_encoding() {
    let mut x_1 = cerberus::elgamal::EncryptedUserId {
        c_1: cerberus::point::Point { bytes: [1u8; 32] },
        c_2: [2u8; 32],
    };
    x_1.c_2[31] = 7;
    let token = UnsignedToken { timestamp: -2, x_1, pk_e: [3u8; 32] };
    let bytes = token.to_bytes();
    assert_eq!(bytes.len(), TOKEN_LEN);
    assert_eq!(&bytes[..8], &[0xfe, 0xff, 0xff, 0xff, 0xff, 0xff, 0xff, 0xff]);
    assert_eq!(bytes[8], 1);
    assert_eq!(bytes[40], 2);
    assert_eq!(bytes[71], 7);
    assert_eq!(bytes[72], 3);
    assert_eq!(UnsignedToken::from_bytes(&bytes), Some(token));
    let stamped = UnsignedToken { timestamp: 258, ..token };
    assert_eq!(&stamped.to_bytes()[..8], &[2, 1, 0, 0, 0, 0, 0, 0]);
    assert_eq!(UnsignedToken::from_bytes(&bytes[..103].to_vec()), None);
    let mut longer = bytes.clone();
    longer.push(0);
    assert_eq!(UnsignedToken::from_bytes(&longer), None);
}

#[test]
fn fan_out_bodies() {
    let same = ModeratorRequest::Same(7u32);
    assert_eq!(*same.body_for(0), 7);
    assert_eq!(*same.body_for(4), 7);
    let unique = ModeratorRequest::Unique(vec![1u32, 2, 3]);
    assert_eq!(*unique.body_for(0), 1);
    assert_eq!(*unique.body_for(2), 3);
}

#[test]
fn parameter_defaults() {
    let p = GlobalParameters::with_defaults(None, None, None);
    assert_eq!((p.n, p.t_sig, p.t_enc), (5, 5, 3));
    let p = GlobalParameters::with_defaults(Some(7), None, Some(4));
    assert_eq!((p.n, p.t_sig, p.t_enc), (7, 5, 4));
}

#[test]
fn powers_that_fit() {
    assert!(pow_fits_u64(7, 3));
    assert!(pow_fits_u64(2, 63));
    assert!(!pow_fits_u64(2, 64));
    assert!(pow_fits_u64(1, 1000));
    assert!(pow_fits_u64(u64::MAX, 1));
    assert!(!pow_fits_u64(u64::MAX, 2));
}

#[test]
fn package_without_own_commitment_is_refused() {
    let mut cluster = setup(3, 2, 2, 1).unwrap();
    let ids = random_ids(1);
    let mut reqs = cluster.coordinator.create_signing_requests(&ids, &vec![Scalar::random()], 9).unwrap();
    reqs[0].signing_package.commitments.clear();
    let request = signing::Request { signing_requests: reqs };
    assert_eq!(cluster.moderators[0].handle_signing(&request).err(), Some(CerberusError::InvalidPackage));
}

#[test]
fn share_of_unknown_signer_is_refused() {
    let mut cluster = setup(3, 2, 2, 1).unwrap();
    let ids = random_ids(1);
    let signing_requests = cluster.coordinator.prepare_tokens(&ids).unwrap();
    let mut request = signing::Request { signing_requests };
    let mut responses = Vec::new();
    for moderator in cluster.moderators.iter_mut() {
        responses.push(moderator.handle_signing(&request).unwrap());
    }
    request.signing_requests[0].signing_package.commitments.remove(0);
    assert_eq!(
        cluster.coordinator.complete_tokens(&request.signing_requests, responses).err(),
        Some(CerberusError::InvalidPackage)
    );
}

#[test]
fn shares_of_another_slot_do_not_aggregate() {
    let mut cluster = setup(3, 2, 2, 2).unwrap();
    let ids = random_ids(2);
    let signing_requests = cluster.coordinator.prepare_tokens(&ids).unwrap();
    let request = signing::Request { signing_requests };
    let mut responses = Vec::new();
    for moderator in cluster.moderators.iter_mut() {
        responses.push(moderator.handle_signing(&request).unwrap());
    }
    responses[0].signature_shares.swap(0, 1);
    assert_eq!(
        cluster.coordinator.complete_tokens(&request.signing_requests, responses).err(),
        Some(CerberusError::SigningFailure)
    );
}
