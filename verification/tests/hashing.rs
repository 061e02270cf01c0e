use umbral_pre::curve::{CurvePoint, CurveScalar};
use umbral_pre::hashing::{
    append_bytes, hash_capsule_points, hash_to_polynomial_arg, hash_to_shared_secret,
};

fn from_hex(text: &str) -> Vec<u8> {
    let digits: Vec<u8> = text
        .bytes()
        .map(|c| match c {
            b'0'..=b'9' => c - b'0',
            b'a'..=b'f' => c - b'a' + 10,
            _ => panic!("not a hex digit"),
        })
        .collect();
    digits.chunks(2).map(|pair| pair[0] * 16 + pair[1]).collect()
}

fn multiple(k: u8) -> CurvePoint {
    let mut bytes = [0u8; 32];
    bytes[31] = k;
    CurvePoint::generator().mul(&CurveScalar::from_bytes(&bytes).unwrap())
}

#[test]
fn append_bytes_appends() {
    let mut buffer: Vec<u8> = vec![1, 2];
    append_bytes(&mut buffer, &[3, 4, 5]);
    assert_eq!(buffer, vec![1, 2, 3, 4, 5]);
    append_bytes(&mut buffer, &[]);
    assert_eq!(buffer, vec![1, 2, 3, 4, 5]);
}

#[test]
fn hash_capsule_points_known_value() {
    let h = hash_capsule_points(&multiple(1), &multiple(2));
    assert_eq!(
        h.to_scalar().to_array().to_vec(),
        from_hex("ed77aca7e914a15e4c84f0aaa28bec2b33fe8b0f40144993a684238a7acf212d")
    );
}

#[test]
fn hash_to_polynomial_arg_known_value() {
    let x = hash_to_polynomial_arg(&multiple(1), &multiple(2), &multiple(3), &[7u8; 32]);
    assert_eq!(
        x.to_scalar().to_array().to_vec(),
        from_hex("a7b2fa8ec22d64990155dbf19f0ea1480443de094bca836357d2ee0a22c183ed")
    );
}

#[test]
fn hash_to_shared_secret_known_value() {
    let d = hash_to_shared_secret(&multiple(1), &multiple(2), &multiple(3));
    assert_eq!(
        d.to_scalar().to_array().to_vec(),
        from_hex("0075175d90ea4d210411e122ce42e37f06e6b3ef157528d1fe277a653565e18a")
    );
}

#[test]
fn hashes_depend_on_every_input() {
    let base = hash_to_polynomial_arg(&multiple(1), &multiple(2), &multiple(3), &[7u8; 32]);
    assert_ne!(base, hash_to_polynomial_arg(&multiple(4), &multiple(2), &multiple(3), &[7u8; 32]));
    assert_ne!(base, hash_to_polynomial_arg(&multiple(1), &multiple(4), &multiple(3), &[7u8; 32]));
    assert_ne!(base, hash_to_polynomial_arg(&multiple(1), &multiple(2), &multiple(4), &[7u8; 32]));
    assert_ne!(base, hash_to_polynomial_arg(&multiple(1), &multiple(2), &multiple(3), &[8u8; 32]));
    assert_ne!(
        hash_capsule_points(&multiple(1), &multiple(2)),
        hash_capsule_points(&multiple(2), &multiple(1))
    );
}

#[test]
fn roles_are_separated() {
    // the same points under two roles give different scalars
    let as_secret = hash_to_shared_secret(&multiple(1), &multiple(2), &multiple(3));
    let as_argument = hash_to_polynomial_arg(&multiple(1), &multiple(2), &multiple(3), &[0u8; 32]);
    assert_ne!(as_secret, as_argument);
}
