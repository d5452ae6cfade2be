use fp12_tower::fp::Fp;
use fp12_tower::fp12::Fp12;
use fp12_tower::fp2::Fp2;
use fp12_tower::fp6::Fp6;
use fp12_tower::mersenne61::Mersenne61;

type F = Fp12<Mersenne61>;

fn fp6(v: [u64; 6]) -> Fp6<Mersenne61> {
    Fp6::new(
        Fp2::new(Fp::new(v[0]), Fp::new(v[1])),
        Fp2::new(Fp::new(v[2]), Fp::new(v[3])),
        Fp2::new(Fp::new(v[4]), Fp::new(v[5])),
    )
}

#[test]
fn one_is_one_and_zero() {
    let one = F::one();
    assert!(one.c0 == fp6([1, 0, 0, 0, 0, 0]));
    assert!(one.c1 == fp6([0; 6]));
    assert!(one.is_one());
    assert!(!one.is_zero());
}

#[test]
fn identities_on_one() {
    let one = F::one();
    assert!(F::zero().add(&one) == one);
    assert!(one.mul(&one) == one);
    assert!(one.inverse() == Some(one));
    let mut c = one;
    c.conjugate();
    assert!(c == one);
    let mut f = one;
    f.frobenius_map(0);
    assert!(f == one);
}
