use cerberus::bytes::xor_bytes;
use cerberus::elgamal::{generate_private_key_shares, DecryptionShare, EncryptedUserId};
use cerberus::error::CerberusError;
use cerberus::point::{base_mul, Point};
use cerberus::scalar::Scalar;
use cerberus::shamir::{combine_shares, create_shares, lagrange_coefficient, split_with_coefficients};
use cerberus::UserId;
use rand::seq::SliceRandom;

const N_MODERATORS: usize = 5;
const DECRYPTION_THRESHOLD: usize = 3;

fn s(x: u64) -> Scalar {
    Scalar::from_u64(x)
}

#[test]
fn test_share_creation() {
    let (shares, _) = create_shares(&Scalar::random(), N_MODERATORS, DECRYPTION_THRESHOLD);

    // check that shares have correct indices
    assert!(shares.iter().zip(1u64..).all(|(share, i)| share.x == Scalar::from_u64(i)));
}

#[test]
fn test_lagrange() {
    let (shares, _) = create_shares(&Scalar::random(), N_MODERATORS, DECRYPTION_THRESHOLD);
    let identifiers: Vec<Scalar> = shares[..DECRYPTION_THRESHOLD].iter().map(|s| s.x).collect();
    let coefficient = lagrange_coefficient(&shares[0].x, &identifiers);

    let share = &shares[0];
    let other_shares = &shares[1..DECRYPTION_THRESHOLD];
    assert_eq!(other_shares.len(), DECRYPTION_THRESHOLD - 1, "Incorrect number of shares.");

    let manual_coefficient = other_shares
        .iter()
        .map(|other| other.x.mul(&other.x.sub(&share.x).invert()))
        .fold(Scalar::from_u64(1), |acc, f| acc.mul(&f));

    assert_eq!(
        coefficient, manual_coefficient,
        "Manually calculated coefficient doesn't match coefficient calculated by function."
    );
}

#[test]
fn test_secret_recovery() {
    let mut rng = rand::thread_rng();
    let secret = Scalar::random();

    let (mut shares, _) = create_shares(&secret, N_MODERATORS, DECRYPTION_THRESHOLD);

    // mix up the shares so we aren't just taking the first `k` every time
    shares.shuffle(&mut rng);

    // recombine k shares to get back the secret
    let recovered_secret = combine_shares(&shares[..DECRYPTION_THRESHOLD].to_vec(), DECRYPTION_THRESHOLD);

    assert!(recovered_secret.is_some(), "Secret recovery failed");
    assert_eq!(secret, recovered_secret.unwrap(), "Recovered secret doesn't match original");
}

#[test]
fn test_decryption() {
    let n_shares = 7;
    let decryption_threshold = 4;

    let (pk, shares) = generate_private_key_shares(n_shares, decryption_threshold);

    let id = UserId::random();

    let x_1 = pk.encrypt(&id, &Scalar::random()).unwrap();

    let decryption_shares: Vec<_> = shares[..decryption_threshold]
        .iter()
        .map(|share| share.decryption_share(&x_1).unwrap())
        .collect();

    let id_decrypted = x_1.decrypt_with_shares(&decryption_shares, decryption_threshold);

    assert!(id_decrypted.is_ok(), "Unable to decrypt id");

    assert_eq!(id, id_decrypted.unwrap(), "Decrypted id is incorrect");
}

#[test]
fn xor_of_known_bytes() {
    let mut a = [0u8; 32];
    let mut b = [0u8; 32];
    a[0] = 0b1100;
    b[0] = 0b1010;
    a[31] = 0xff;
    b[31] = 0x0f;
    let r = xor_bytes(a, &b);
    assert_eq!(r[0], 0b0110);
    assert_eq!(r[31], 0xf0);
    assert!(r[1..31].iter().all(|x| *x == 0));
}

#[test]
fn scalar_arithmetic_values() {
    assert_eq!(s(2).mul(&s(3)), s(6));
    assert_eq!(s(2).add(&s(3)), s(5));
    assert_eq!(s(5).sub(&s(3)), s(2));
    assert_eq!(s(2).invert().mul(&s(2)), s(1));
    assert_eq!(s(0).invert(), s(0));
    // 0 - 1 is the group order minus one
    let minus_one = s(0).sub(&s(1));
    assert_eq!(minus_one.add(&s(1)), s(0));
    assert_eq!(minus_one.bytes[0], 0xec);
    assert_eq!(minus_one.bytes[31], 0x10);
}

#[test]
fn canonical_scalar_bytes() {
    let mut order = [0u8; 32];
    order.copy_from_slice(&s(0).sub(&s(1)).bytes);
    order[0] += 1; // the group order itself
    assert!(Scalar::from_canonical_bytes(order).is_none());
    assert_eq!(Scalar::from_canonical_bytes(s(7).bytes), Some(s(7)));
}

#[test]
fn base_point_encoding() {
    // the compressed Ristretto base point
    let expected: [u8; 32] = [
        0xe2, 0xf2, 0xae, 0x0a, 0x6a, 0xbc, 0x4e, 0x71, 0xa8, 0x84, 0xa9, 0x61, 0xc5, 0x00, 0x51, 0x5f,
        0x58, 0xe3, 0x0b, 0x6a, 0xa5, 0x82, 0xdd, 0x8d, 0xb6, 0xa6, 0x59, 0x45, 0xe0, 0x8d, 0x2d, 0x76,
    ];
    assert_eq!(base_mul(&s(1)).bytes, expected);
    assert_eq!(base_mul(&s(0)).bytes, [0u8; 32]);
}

#[test]
fn encryption_hides_the_identity() {
    let (pk, _) = generate_private_key_shares(3, 2);
    let id = UserId([7u8; 32]);
    let r = s(11);
    let ct = pk.encrypt(&id, &r).unwrap();
    assert_ne!(ct.c_2, id.0);
    assert_eq!(ct.c_1, base_mul(&r));
    // deterministic in (id, r, Y)
    assert_eq!(pk.encrypt(&id, &r).unwrap(), ct);
}

#[test]
fn split_evaluates_the_polynomial() {
    // f(x) = 4 + 3x + 2x^2
    let shares = split_with_coefficients(&vec![s(4), s(3), s(2)], 3);
    assert_eq!(shares.len(), 3);
    assert_eq!(shares[0].y, s(9));
    assert_eq!(shares[1].y, s(18));
    assert_eq!(shares[2].y, s(31));
    assert_eq!(combine_shares(&shares[1..].to_vec(), 3), None);
    assert_eq!(combine_shares(&shares, 3), Some(s(4)));
}

#[test]
fn shamir_recovers_secret_from_any_threshold_subset() {
    let secret = Scalar::random();
    let (shares, _) = create_shares(&secret, 6, 4);
    for skip in 0..6 {
        for skip2 in (skip + 1)..6 {
            let subset: Vec<_> =
                (0..6).filter(|i| *i != skip && *i != skip2).map(|i| shares[i]).collect();
            assert_eq!(combine_shares(&subset, 4), Some(secret));
        }
    }
}

#[test]
fn decryption_errors() {
    let (pk, shares) = generate_private_key_shares(5, 3);
    let id = UserId::random();
    let x_1 = pk.encrypt(&id, &Scalar::random()).unwrap();
    let ds: Vec<DecryptionShare> = shares.iter().map(|k| k.decryption_share(&x_1).unwrap()).collect();

    assert_eq!(x_1.decrypt_with_shares(&vec![], 0), Err(CerberusError::NotEnoughShares));
    assert_eq!(x_1.decrypt_with_shares(&vec![ds[0], ds[1], ds[0]], 3), Err(CerberusError::DuplicateShare));
    // one share short of the threshold fails
    assert_eq!(x_1.decrypt_with_shares(&ds[..2].to_vec(), 3), Err(CerberusError::NotEnoughShares));
    // and, without the count check, does not give the identity back
    assert_ne!(x_1.decrypt_with_shares(&ds[..2].to_vec(), 2), Ok(id));
    // any threshold subset gives it
    assert_eq!(x_1.decrypt_with_shares(&vec![ds[4], ds[1], ds[2]], 3), Ok(id));

    let bad = EncryptedUserId { c_1: Point { bytes: [0xff; 32] }, c_2: x_1.c_2 };
    assert_eq!(shares[0].decryption_share(&bad), Err(CerberusError::InvalidPoint));
}
