use umbral_pre::curve::CurvePoint;
use umbral_pre::keys::{PublicKey, SecretKey};
use umbral_pre::secret_box::SecretBox;

fn key_of(k: u8) -> SecretKey {
    let mut bytes = vec![0u8; 32];
    bytes[31] = k;
    SecretKey::from_secret(SecretBox::new(bytes)).unwrap()
}

#[test]
fn secret_box_lends_what_it_was_given() {
    let boxed = SecretBox::new(vec![9, 8, 7]);
    assert_eq!(boxed.as_secret(), &[9u8, 8, 7][..]);
    assert_eq!(SecretBox::new(Vec::new()).as_secret().len(), 0);
}

#[test]
fn secret_key_from_secret_checks_the_encoding() {
    assert!(SecretKey::from_secret(SecretBox::new(vec![0u8; 32])).is_none());
    assert!(SecretKey::from_secret(SecretBox::new(vec![0xffu8; 32])).is_none());
    assert!(SecretKey::from_secret(SecretBox::new(vec![1u8; 16])).is_none());
    assert!(SecretKey::from_secret(SecretBox::new(vec![1u8; 32])).is_some());
}

#[test]
fn public_key_is_the_generator_taken_by_the_secret() {
    let one = key_of(1);
    assert_eq!(one.public_key().to_point(), CurvePoint::generator());
    let two = key_of(2);
    assert_eq!(
        two.public_key().to_point(),
        CurvePoint::generator().add(&CurvePoint::generator())
    );
    assert_eq!(two.to_secret_scalar().as_secret()[31], 2);
}

#[test]
fn public_key_keeps_its_point() {
    let point = CurvePoint::generator();
    assert_eq!(PublicKey::from_point(point).to_point(), point);
}

#[test]
fn random_secret_keys_differ() {
    let first = SecretKey::random(&mut rand_core::OsRng);
    let second = SecretKey::random(&mut rand_core::OsRng);
    assert_ne!(first.public_key(), second.public_key());
}
