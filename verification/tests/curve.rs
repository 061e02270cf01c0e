use rand_core::OsRng;
use umbral_pre::curve::{
    bytes_equal, CurvePoint, CurveScalar, NonZeroCurveScalar, SecretScalar, POINT_SIZE,
    SCALAR_SIZE,
};
use umbral_pre::secret_box::SecretBox;

fn unhex(text: &str) -> Vec<u8> {
    let digits: Vec<u8> = text
        .bytes()
        .map(|c| match c {
            b'0'..=b'9' => c - b'0',
            b'a'..=b'f' => c - b'a' + 10,
            _ => panic!("not a hex digit"),
        })
        .collect();
    digits.chunks(2).map(|pair| pair[0] * 16 + pair[1]).collect()
}

fn scalar(text: &str) -> CurveScalar {
    CurveScalar::from_bytes(&unhex(text)).unwrap()
}

fn small(k: u8) -> CurveScalar {
    let mut bytes = [0u8; 32];
    bytes[31] = k;
    CurveScalar::from_bytes(&bytes).unwrap()
}

fn point(text: &str) -> CurvePoint {
    CurvePoint::from_bytes(&unhex(text)).unwrap()
}

const ORDER: &str = "fffffffffffffffffffffffffffffffebaaedce6af48a03bbfd25e8cd0364141";
const ORDER_LESS_ONE: &str = "fffffffffffffffffffffffffffffffebaaedce6af48a03bbfd25e8cd0364140";
const G1: &str = "0279be667ef9dcbbac55a06295ce870b07029bfcdb2dce28d959f2815b16f81798";
const G2: &str = "02c6047f9441ed7d6d3045406e95c07cd85c778e4b8cef3ca7abac09b95c709ee5";
const G3: &str = "02f9308a019258c31049344f85f89d5229b531c845836f99b08601f113bce036f9";
const G6: &str = "03fff97bd5755eeea420453a14355235d382f6472f8568a18b2f057a1460297556";

#[test]
fn widths_of_encodings() {
    assert_eq!(SCALAR_SIZE, 32);
    assert_eq!(POINT_SIZE, 33);
    assert_eq!(small(1).to_array().len(), SCALAR_SIZE);
    assert_eq!(CurvePoint::generator().to_array().len(), POINT_SIZE);
}

#[test]
fn bytes_equal_compares_content_and_length() {
    assert!(bytes_equal(&[1, 2, 3], &[1, 2, 3]));
    assert!(!bytes_equal(&[1, 2, 3], &[1, 2, 4]));
    assert!(!bytes_equal(&[1, 2, 3], &[1, 2]));
    assert!(bytes_equal(&[], &[]));
}

#[test]
fn scalar_one_is_one() {
    assert_eq!(CurveScalar::one(), small(1));
    let mut expected = [0u8; 32];
    expected[31] = 1;
    assert_eq!(CurveScalar::one().to_array(), expected);
}

#[test]
fn scalar_from_bytes_accepts_below_order_only() {
    assert!(CurveScalar::from_bytes(&unhex(ORDER_LESS_ONE)).is_some());
    assert!(CurveScalar::from_bytes(&unhex(ORDER)).is_none());
    assert!(CurveScalar::from_bytes(&[0xff; 32]).is_none());
    assert!(CurveScalar::from_bytes(&[0u8; 32]).is_some());
}

#[test]
fn scalar_from_bytes_rejects_wrong_width() {
    assert!(CurveScalar::from_bytes(&[0u8; 31]).is_none());
    assert!(CurveScalar::from_bytes(&[0u8; 33]).is_none());
    assert!(CurveScalar::from_bytes(&[]).is_none());
}

#[test]
fn scalar_round_trip() {
    let bytes = unhex("ed77aca7e914a15e4c84f0aaa28bec2b33fe8b0f40144993a684238a7acf212f");
    assert_eq!(scalar("ed77aca7e914a15e4c84f0aaa28bec2b33fe8b0f40144993a684238a7acf212f")
        .to_array()
        .to_vec(), bytes);
}

#[test]
fn scalar_add_wraps_at_order() {
    assert_eq!(small(2).add(&small(3)), small(5));
    assert_eq!(scalar(ORDER_LESS_ONE).add(&small(2)), small(1));
    assert_eq!(scalar(ORDER_LESS_ONE).add(&small(1)), small(0));
}

#[test]
fn scalar_sub_wraps_at_zero() {
    assert_eq!(small(5).sub(&small(3)), small(2));
    assert_eq!(small(0).sub(&small(1)), scalar(ORDER_LESS_ONE));
    assert_eq!(small(7).sub(&small(7)), small(0));
}

#[test]
fn scalar_mul_reduces() {
    assert_eq!(small(6).mul(&small(7)), small(42));
    // (n - 1)^2 = 1 (mod n)
    assert_eq!(scalar(ORDER_LESS_ONE).mul(&scalar(ORDER_LESS_ONE)), small(1));
    assert_eq!(small(0).mul(&small(9)), small(0));
}

#[test]
fn scalar_invert_known_values() {
    assert_eq!(
        small(2).invert(),
        Some(scalar("7fffffffffffffffffffffffffffffff5d576e7357a4501ddfe92f46681b20a1"))
    );
    assert_eq!(
        small(3).invert(),
        Some(scalar("aaaaaaaaaaaaaaaaaaaaaaaaaaaaaaa9d1c9e899ca306ad27fe1945de0242b81"))
    );
    assert_eq!(small(1).invert(), Some(small(1)));
}

#[test]
fn scalar_invert_of_zero_is_none() {
    assert_eq!(small(0).invert(), None);
}

#[test]
fn scalar_inverse_times_scalar_is_one() {
    let x = scalar("3a2db3bc346d315a9e29b68d75c8fa3819822de59ac653835d3fe9678b694316");
    assert_eq!(x.invert().unwrap().mul(&x), small(1));
}

#[test]
fn scalar_equals_is_equality() {
    assert!(small(4).equals(&small(4)));
    assert!(!small(4).equals(&small(5)));
}

#[test]
fn digest_reduction_known_values() {
    // zero goes to one
    assert_eq!(NonZeroCurveScalar::from_digest(&[0u8; 32]).to_scalar(), small(1));
    // n - 2 goes to n - 1, the largest scalar
    let mut below: [u8; 32] = [0u8; 32];
    below.copy_from_slice(&unhex(
        "fffffffffffffffffffffffffffffffebaaedce6af48a03bbfd25e8cd036413f",
    ));
    assert_eq!(NonZeroCurveScalar::from_digest(&below).to_scalar(), scalar(ORDER_LESS_ONE));
    // n - 1 folds back to one
    let mut edge: [u8; 32] = [0u8; 32];
    edge.copy_from_slice(&unhex(ORDER_LESS_ONE));
    assert_eq!(NonZeroCurveScalar::from_digest(&edge).to_scalar(), small(1));
    // 2^256 - 1 goes to 2^256 - n + 1
    assert_eq!(
        NonZeroCurveScalar::from_digest(&[0xff; 32]).to_scalar(),
        scalar("000000000000000000000000000000014551231950b75fc4402da1732fc9bec0")
    );
}

#[test]
fn nonzero_scalar_from_bytes_rejects_zero() {
    assert!(NonZeroCurveScalar::from_bytes(&[0u8; 32]).is_none());
    assert!(NonZeroCurveScalar::from_bytes(&unhex(ORDER)).is_none());
    assert!(NonZeroCurveScalar::from_bytes(&[0u8; 5]).is_none());
    let one = NonZeroCurveScalar::from_bytes(&small(1).to_array()).unwrap();
    assert_eq!(one.to_scalar(), small(1));
}

#[test]
fn nonzero_scalar_invert_known_value() {
    let two = NonZeroCurveScalar::from_bytes(&small(2).to_array()).unwrap();
    assert_eq!(
        two.invert().to_scalar(),
        scalar("7fffffffffffffffffffffffffffffff5d576e7357a4501ddfe92f46681b20a1")
    );
}

#[test]
fn secret_scalar_random_is_a_nonzero_scalar() {
    let secret = SecretScalar::random(&mut OsRng);
    assert_eq!(secret.as_secret().len(), 32);
    assert!(NonZeroCurveScalar::from_bytes(secret.as_secret()).is_some());
}

#[test]
fn secret_scalar_random_draws_differ() {
    let first = SecretScalar::random(&mut OsRng);
    let second = SecretScalar::random(&mut OsRng);
    assert_ne!(first.as_secret(), second.as_secret());
}

#[test]
fn secret_scalar_from_secret_checks_the_encoding() {
    assert!(SecretScalar::from_secret(SecretBox::new(vec![0u8; 32])).is_none());
    assert!(SecretScalar::from_secret(SecretBox::new(unhex(ORDER))).is_none());
    assert!(SecretScalar::from_secret(SecretBox::new(vec![1u8; 31])).is_none());
    let seven = SecretScalar::from_secret(SecretBox::new(small(7).to_array().to_vec())).unwrap();
    assert_eq!(seven.as_secret(), &small(7).to_array()[..]);
}

#[test]
fn secret_scalar_arithmetic() {
    let seven = SecretScalar::from_secret(SecretBox::new(small(7).to_array().to_vec())).unwrap();
    let five = SecretScalar::from_secret(SecretBox::new(small(5).to_array().to_vec())).unwrap();
    assert_eq!(seven.add(&five), small(12));
    assert_eq!(seven.add_scalar(&small(3)), small(10));
    assert_eq!(seven.mul(&small(6)), small(42));
    let top = SecretScalar::from_secret(SecretBox::new(unhex(ORDER_LESS_ONE))).unwrap();
    assert_eq!(top.add(&five), small(4));
    assert_eq!(top.add_scalar(&small(1)), small(0));
}

#[test]
fn generator_has_its_standard_encoding() {
    assert_eq!(CurvePoint::generator().to_array().to_vec(), unhex(G1));
}

#[test]
fn identity_is_all_zeroes() {
    assert_eq!(CurvePoint::identity().to_array(), [0u8; 33]);
}

#[test]
fn point_from_bytes_round_trip() {
    assert_eq!(point(G2).to_array().to_vec(), unhex(G2));
    assert_eq!(point(G6).to_array().to_vec(), unhex(G6));
    assert_eq!(CurvePoint::from_bytes(&[0u8; 33]), Some(CurvePoint::identity()));
}

#[test]
fn point_from_bytes_rejects_what_is_no_canonical_point() {
    // wrong width
    assert!(CurvePoint::from_bytes(&unhex(G1)[..32]).is_none());
    assert!(CurvePoint::from_bytes(&[]).is_none());
    // no point has the first coordinate 5
    let mut off_curve = [0u8; 33];
    off_curve[0] = 2;
    off_curve[32] = 5;
    assert!(CurvePoint::from_bytes(&off_curve).is_none());
    // a first coordinate that is not below the field's modulus
    let mut too_large = unhex("02fffffffffffffffffffffffffffffffffffffffffffffffffffffffefffffc2f");
    assert!(CurvePoint::from_bytes(&too_large).is_none());
    too_large[32] = 0x30;
    assert!(CurvePoint::from_bytes(&too_large).is_none());
    // tags other than 2 and 3
    for tag in [0u8, 1, 4, 5, 6, 7, 0xff] {
        let mut bytes = unhex(G1);
        bytes[0] = tag;
        assert!(CurvePoint::from_bytes(&bytes).is_none(), "tag {}", tag);
    }
}

#[test]
fn point_add_known_values() {
    let g = CurvePoint::generator();
    assert_eq!(g.add(&g), point(G2));
    assert_eq!(g.add(&point(G2)), point(G3));
    assert_eq!(point(G3).add(&point(G3)), point(G6));
    assert_eq!(g.add(&CurvePoint::identity()), g);
    assert_eq!(CurvePoint::identity().add(&CurvePoint::identity()), CurvePoint::identity());
}

#[test]
fn point_add_of_opposites_is_identity() {
    let g = CurvePoint::generator();
    let opposite = point("0379be667ef9dcbbac55a06295ce870b07029bfcdb2dce28d959f2815b16f81798");
    assert_eq!(g.add(&opposite), CurvePoint::identity());
}

#[test]
fn point_mul_known_values() {
    let g = CurvePoint::generator();
    assert_eq!(g.mul(&small(1)), g);
    assert_eq!(g.mul(&small(2)), point(G2));
    assert_eq!(g.mul(&small(3)), point(G3));
    assert_eq!(point(G2).mul(&small(3)), point(G6));
    assert_eq!(g.mul(&small(0)), CurvePoint::identity());
    assert_eq!(
        g.mul(&scalar(ORDER_LESS_ONE)),
        point("0379be667ef9dcbbac55a06295ce870b07029bfcdb2dce28d959f2815b16f81798")
    );
    assert_eq!(CurvePoint::identity().mul(&small(5)), CurvePoint::identity());
}

#[test]
fn point_mul_secret_agrees_with_mul() {
    let three = SecretScalar::from_secret(SecretBox::new(small(3).to_array().to_vec())).unwrap();
    assert_eq!(CurvePoint::generator().mul_secret(&three), point(G3));
    assert_eq!(point(G2).mul_secret(&three), point(G6));
}

#[test]
fn multiples_of_a_point_add_as_their_factors() {
    // s·Q + t·Q = (s + t)·Q and k·(t·Q) = (t·k)·Q, on scalars near the order
    let q = point(G3);
    let s = scalar(ORDER_LESS_ONE);
    let t = scalar("3a2db3bc346d315a9e29b68d75c8fa3819822de59ac653835d3fe9678b694316");
    assert_eq!(q.mul(&s).add(&q.mul(&t)), q.mul(&s.add(&t)));
    assert_eq!(q.mul(&t).mul(&s), q.mul(&t.mul(&s)));
}

#[test]
fn point_equals_is_equality() {
    assert!(point(G2).equals(&CurvePoint::generator().mul(&small(2))));
    assert!(!point(G2).equals(&point(G3)));
}
