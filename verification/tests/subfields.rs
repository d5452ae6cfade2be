use core::cmp::Ordering;
use fp12_tower::codec::CodecError;
use fp12_tower::fp::Fp;
use fp12_tower::fp2::Fp2;
use fp12_tower::fp6::Fp6;
use fp12_tower::mersenne61::Mersenne61;
use fp12_tower::params::Fp12Parameters;

type B = Fp<Mersenne61>;

fn fp2(v: [u64; 2]) -> Fp2<Mersenne61> {
    Fp2::new(Fp::new(v[0]), Fp::new(v[1]))
}

fn fp6(v: [u64; 6]) -> Fp6<Mersenne61> {
    Fp6::new(fp2([v[0], v[1]]), fp2([v[2], v[3]]), fp2([v[4], v[5]]))
}

fn w2(a: &Fp2<Mersenne61>) -> [u64; 2] {
    [a.c0.to_u64(), a.c1.to_u64()]
}

fn w6(a: &Fp6<Mersenne61>) -> [u64; 6] {
    [a.c0.c0.to_u64(), a.c0.c1.to_u64(), a.c1.c0.to_u64(), a.c1.c1.to_u64(), a.c2.c0.to_u64(), a.c2.c1.to_u64()]
}

#[test]
fn parameter_set_hands_out_its_numbers() {
    assert_eq!(Mersenne61::modulus(), 2305843009213693951);
    assert_eq!(Mersenne61::fp2_nonresidue(), 2305843009213693950);
    assert_eq!(Mersenne61::fp6_nonresidue(), (4, 1));
    assert_eq!(Mersenne61::frobenius_coeff_fp2_c1(0), 1);
    assert_eq!(Mersenne61::frobenius_coeff_fp2_c1(1), 2305843009213693950);
    assert_eq!(Mersenne61::frobenius_coeff_fp6_c1(0), (1, 0));
    assert_eq!(Mersenne61::frobenius_coeff_fp6_c1(5), (741384404709786945, 1402963498244348811));
    assert_eq!(Mersenne61::frobenius_coeff_fp6_c2(3), (838598681417677834, 870636647555611426));
    assert_eq!(Mersenne61::frobenius_coeff_fp12_c1(0), (1, 0));
    assert_eq!(Mersenne61::frobenius_coeff_fp12_c1(11), (2083704645767965806, 1241599369935362490));
}

#[test]
fn base_field_arithmetic() {
    let (x, y) = (B::new(996598463537490930), B::new(989230978872734775));
    assert_eq!(x.add(&y).to_u64(), 1985829442410225705);
    assert_eq!(x.sub(&y).to_u64(), 7367484664756155);
    assert_eq!(y.sub(&x).to_u64(), 2298475524548937796);
    assert_eq!(x.neg().to_u64(), 1309244545676203021);
    assert_eq!(B::zero().neg().to_u64(), 0);
    assert_eq!(x.double().to_u64(), 1993196927074981860);
    assert_eq!(x.mul(&y).to_u64(), 648626697263621591);
    assert_eq!(x.square().to_u64(), 213961577889654905);
    assert_eq!(x.mul_by_nonresidue().to_u64(), 1309244545676203021);
    assert_eq!(B::new(2305843009213693950).add(&B::new(2305843009213693950)).to_u64(), 2305843009213693949);
    assert_eq!(B::new(2305843009213693950).mul(&B::new(2305843009213693950)).to_u64(), 1);
}

#[test]
fn base_field_inverse() {
    let x = B::new(996598463537490930);
    let v = x.inverse().expect("a nonzero residue has an inverse");
    assert_eq!(v.to_u64(), 192769916899681613);
    assert_eq!(x.mul(&v).to_u64(), 1);
    assert!(B::zero().inverse().is_none());
    assert_eq!(B::one().inverse().expect("one has an inverse").to_u64(), 1);
    assert_eq!(B::new(2305843009213693950).inverse().expect("minus one has an inverse").to_u64(), 2305843009213693950);
    assert_eq!(B::new(2).inverse().expect("two has an inverse").to_u64(), 1152921504606846976);
}

#[test]
fn base_field_construction() {
    assert_eq!(B::new(2305843009213693951).to_u64(), 0);
    assert_eq!(B::new(u64::MAX).to_u64(), 7);
    assert_eq!(B::from_u128(u128::MAX).to_u64(), 63);
    assert_eq!(B::from_canonical(2305843009213693950).map(|x| x.to_u64()), Some(2305843009213693950));
    assert!(B::from_canonical(2305843009213693951).is_none());
    assert!(B::zero().is_zero());
    assert!(!B::one().is_zero());
    assert!(B::new(5) == B::new(2305843009213693951 + 5));
    assert_eq!(B::new(5).cmp(&B::new(6)), Ordering::Less);
}

#[test]
fn base_field_codec() {
    assert_eq!(B::flag_mask(), 0xe0);
    let x = B::new(996598463537490930);
    assert_eq!(x.encode(0), 996598463537490930u64.to_le_bytes().to_vec());
    let flagged = x.encode(0xa0);
    assert_eq!(flagged[7], 996598463537490930u64.to_le_bytes()[7] | 0xa0);
    assert!(B::decode(&flagged, true) == Ok((x, 0xa0)));
    assert!(B::decode(&flagged, false) == Err(CodecError::NotCanonical { coordinate: 0 }));
    assert!(B::decode(&flagged[..5], true) == Err(CodecError::UnexpectedEnd { coordinate: 0 }));
    assert!(B::decode(&2305843009213693951u64.to_le_bytes(), true) == Err(CodecError::NotCanonical { coordinate: 0 }));
    let bits = B::new(6).to_bits_le();
    assert_eq!(bits.len(), 64);
    assert_eq!(&bits[..4], &[false, true, true, false]);
    let bits = B::new(6).to_bits_be();
    assert_eq!(&bits[60..], &[false, true, true, false]);
}

#[test]
fn quadratic_extension_arithmetic() {
    let (a, b) = (fp2([2138601912305271832, 1116318352334421363]), fp2([2261278253203396074, 1794808340941328861]));
    assert_eq!(w2(&a.add(&b)), [2094037156294973955, 605283684062056273]);
    assert_eq!(w2(&a.sub(&b)), [2183166668315569709, 1627353020606786453]);
    assert_eq!(w2(&a.neg()), [167241096908422119, 1189524656879272588]);
    assert_eq!(w2(&a.double()), [1971360815396849713, 2232636704668842726]);
    assert_eq!(w2(&a.mul(&b)), [911450925028071743, 579596748680596077]);
    assert_eq!(w2(&a.square()), [441841981459124821, 1337086412316714173]);
    assert_eq!(w2(&a.mul_by_fp(&Fp::new(996598463537490930))), [712875398437814954, 282268565072228420]);
    assert_eq!(w2(&a.mul_by_nonresidue()), [520560269245584112, 1992189303215569382]);
    assert_eq!(w2(&a.conjugate()), [2138601912305271832, 1189524656879272588]);
    assert_eq!(w2(&a.inverse().expect("a nonzero element has an inverse")), [1795362028711216019, 123073266211532168]);
    assert!(Fp2::<Mersenne61>::zero().inverse().is_none());
    assert!(a.mul(&Fp2::one()) == a);
    assert!(Fp2::<Mersenne61>::zero().is_zero());
    assert_eq!(w2(&Fp2::<Mersenne61>::from_words((2305843009213693951 + 2, 3))), [2, 3]);
}

#[test]
fn quadratic_extension_frobenius() {
    let a = fp2([2138601912305271832, 1116318352334421363]);
    assert_eq!(w2(&a.frobenius_map(0)), [2138601912305271832, 1116318352334421363]);
    assert_eq!(w2(&a.frobenius_map(1)), [2138601912305271832, 1189524656879272588]);
    assert_eq!(w2(&a.frobenius_map(2)), [2138601912305271832, 1116318352334421363]);
    assert_eq!(w2(&a.frobenius_map(7)), [2138601912305271832, 1189524656879272588]);
}

#[test]
fn cubic_extension_arithmetic() {
    let (u, v) = (fp6([878557806809937901, 1832743580221592288, 539582262896337267, 59268364072531926, 2184113934372936109, 102340321076918720]), fp6([2114785977067740855, 1013153772789470911, 930753644095702006, 1079656422241125685, 1569355041385561198, 1981377837483139242]));
    assert_eq!(w6(&u.add(&v)), [687500774663984805, 540054343797369248, 1470335906992039273, 1138924786313657611, 1447625966544803356, 2083718158560057962]);
    assert_eq!(w6(&u.sub(&v)), [1069614838955890997, 819589807432121377, 1914671628014329212, 1285454951045100192, 614758892987374911, 426805492807473429]);
    assert_eq!(w6(&u.neg()), [1427285202403756050, 473099428992101663, 1766260746317356684, 2246574645141162025, 121729074840757842, 2203502688136775231]);
    assert_eq!(w6(&u.double()), [1757115613619875802, 1359644151229490625, 1079164525792674534, 118536728145063852, 2062384859532178267, 204680642153837440]);
    assert_eq!(w6(&u.mul(&v)), [1862792672093177437, 133523827798468969, 1954430002351573216, 1016838190210030696, 1200856729273822017, 1143233677104507057]);
    assert_eq!(w6(&u.square()), [698875383991399280, 121018919398625757, 598189794653653800, 1646182874289265557, 1745903918442118857, 1058747725769945477]);
    assert_eq!(w6(&u.mul_by_nonresidue()), [1716586388773743863, 287632209466917038, 878557806809937901, 1832743580221592288, 539582262896337267, 59268364072531926]);
    assert_eq!(w6(&u.mul_by_fp(&Fp::new(996598463537490930))), [1593144539965035631, 2009815447003281101, 431694463643371297, 736823531195813497, 1310493314727215932, 1757652786790503674]);
    assert_eq!(w6(&u.mul_by_fp2(&fp2([1596244067105134729, 628522556197125798]))), [908987531645992442, 1084283784776800687, 108844519227021998, 1991934499640784529, 1127124744919064861, 608157118276468839]);
    assert_eq!(w6(&u.inverse().expect("a nonzero element has an inverse")), [2125886511310575873, 379348504851784354, 316057478123248873, 1513050763142802753, 1242190379814793725, 546246329022493257]);
    assert!(u.mul(&u.inverse().expect("a nonzero element has an inverse")) == Fp6::one());
    assert!(Fp6::<Mersenne61>::zero().inverse().is_none());
    assert!(Fp6::<Mersenne61>::zero().is_zero());
}

#[test]
fn cubic_extension_sparse_products() {
    let u = fp6([878557806809937901, 1832743580221592288, 539582262896337267, 59268364072531926, 2184113934372936109, 102340321076918720]);
    let (c0, c1) = (fp2([1596244067105134729, 628522556197125798]), fp2([1431209587269180165, 395455679552658577]));
    assert_eq!(w6(&u.mul_by_01(&c0, &c1)), [359088620200114056, 1691593807005701377, 1527005144746413839, 1776077758271003816, 1948075792713702064, 612791198302741053]);
    assert!(u.mul_by_01(&c0, &c1) == u.mul(&Fp6::new(c0, c1, Fp2::zero())));
    assert_eq!(w6(&u.mul_by_1(&c1)), [1755944097767815565, 607310022228900690, 1418160625519391841, 2089986267843913238, 820951047794637203, 4634080026272214]);
    assert!(u.mul_by_1(&c1) == u.mul(&Fp6::new(Fp2::zero(), c1, Fp2::zero())));
}

#[test]
fn cubic_extension_frobenius() {
    let u = fp6([878557806809937901, 1832743580221592288, 539582262896337267, 59268364072531926, 2184113934372936109, 102340321076918720]);
    assert_eq!(w6(&u.frobenius_map(0)), [878557806809937901, 1832743580221592288, 539582262896337267, 59268364072531926, 2184113934372936109, 102340321076918720]);
    assert_eq!(w6(&u.frobenius_map(1)), [878557806809937901, 473099428992101663, 2112376761789285181, 1272868244915826054, 2075421267395402296, 334742974155626146]);
    assert_eq!(w6(&u.frobenius_map(4)), [878557806809937901, 1832743580221592288, 213758074166641148, 1363658417446901773, 2084978965795022529, 1550107851998945932]);
    assert_eq!(w6(&u.frobenius_map(6)), [878557806809937901, 1832743580221592288, 539582262896337267, 59268364072531926, 2184113934372936109, 102340321076918720]);
    assert_eq!(w6(&u.frobenius_map(9)), [878557806809937901, 473099428992101663, 466542271883226654, 1282171747675871136, 1778744915964239398, 447545553817159371]);
}

#[test]
fn subfield_codec_and_order() {
    let u = fp6([878557806809937901, 1832743580221592288, 539582262896337267, 59268364072531926, 2184113934372936109, 102340321076918720]);
    let bytes = u.encode(0x40);
    assert_eq!(bytes.len(), 48);
    assert!(Fp6::<Mersenne61>::decode(&bytes, true) == Ok((u, 0x40)));
    assert!(Fp6::<Mersenne61>::decode(&bytes[..20], true) == Err(CodecError::UnexpectedEnd { coordinate: 2 }));
    let a = fp2([2138601912305271832, 1116318352334421363]);
    let bytes = a.encode(0);
    assert_eq!(bytes.len(), 16);
    assert!(Fp2::<Mersenne61>::decode(&bytes, false) == Ok((a, 0)));
    assert_eq!(fp6([0, 0, 9, 9, 1, 0]).cmp(&fp6([5, 5, 0, 0, 2, 0])), Ordering::Less);
    assert_eq!(fp6([0, 0, 9, 9, 2, 0]).cmp(&fp6([5, 5, 0, 0, 2, 0])), Ordering::Greater);
    assert_eq!(u.to_bits_le().len(), 384);
    assert_eq!(a.to_bits_be().len(), 128);
}
