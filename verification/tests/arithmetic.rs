use fp12_tower::fp::Fp;
use fp12_tower::fp12::Fp12;
use fp12_tower::fp2::Fp2;
use fp12_tower::fp6::Fp6;
use fp12_tower::mersenne61::Mersenne61;

type F = Fp12<Mersenne61>;

fn fp2(v: [u64; 2]) -> Fp2<Mersenne61> {
    Fp2::new(Fp::new(v[0]), Fp::new(v[1]))
}

fn fp12(v: [u64; 12]) -> F {
    let h = |i: usize| Fp6::new(fp2([v[i], v[i + 1]]), fp2([v[i + 2], v[i + 3]]), fp2([v[i + 4], v[i + 5]]));
    Fp12::new(h(0), h(6))
}

fn words(a: &F) -> [u64; 12] {
    let mut w = [0u64; 12];
    let halves = [&a.c0, &a.c1];
    for (h, half) in halves.iter().enumerate() {
        let coords = [&half.c0, &half.c1, &half.c2];
        for (i, c) in coords.iter().enumerate() {
            w[6 * h + 2 * i] = c.c0.to_u64();
            w[6 * h + 2 * i + 1] = c.c1.to_u64();
        }
    }
    w
}

#[test]
fn addition_commutes_and_associates() {
    let (a, b, c) = (fp12([1163225484784997711, 2302562517565311603, 74838756243271063, 1844657840949337737, 1350969266587338378, 144514464206968309, 510744589517815196, 435161868705511111, 1171209606007428047, 1513091137937346976, 1652619780497720912, 119439529128843719]), fp12([1998424955854634645, 1063248327353558909, 1178004105944745130, 1115818741287417488, 1194624949316573938, 1610873322842960162, 1505630881444526053, 1022588239969455263, 2080872642944333052, 685355819551794616, 1050430662511007123, 879186583150531721]), fp12([1814840073200781369, 653095953136209269, 464164138317059052, 26952712278436442, 1029212891289104458, 1295942789081413534, 1445412976345071509, 684765643905397476, 1586075338255425092, 169306455938720457, 760078395239348156, 1442974437280548226]));
    assert!(a.add(&b) == b.add(&a));
    assert!(a.add(&b).add(&c) == a.add(&b.add(&c)));
    assert_eq!(words(&a.add(&b)), [855807431425938405, 1059967835705176561, 1252842862188016193, 654633573023061274, 239751206690218365, 1755387787049928471, 2016375470962341249, 1457750108674966374, 946239239738067148, 2198446957489141592, 397207433795034084, 998626112279375440]);
}

#[test]
fn multiplication_distributes_over_addition() {
    let (a, b, c) = (fp12([1163225484784997711, 2302562517565311603, 74838756243271063, 1844657840949337737, 1350969266587338378, 144514464206968309, 510744589517815196, 435161868705511111, 1171209606007428047, 1513091137937346976, 1652619780497720912, 119439529128843719]), fp12([1998424955854634645, 1063248327353558909, 1178004105944745130, 1115818741287417488, 1194624949316573938, 1610873322842960162, 1505630881444526053, 1022588239969455263, 2080872642944333052, 685355819551794616, 1050430662511007123, 879186583150531721]), fp12([1814840073200781369, 653095953136209269, 464164138317059052, 26952712278436442, 1029212891289104458, 1295942789081413534, 1445412976345071509, 684765643905397476, 1586075338255425092, 169306455938720457, 760078395239348156, 1442974437280548226]));
    assert!(a.mul(&b.add(&c)) == a.mul(&b).add(&a.mul(&c)));
    assert!(b.add(&c).mul(&a) == b.mul(&a).add(&c.mul(&a)));
}

#[test]
fn multiplication_commutes_and_associates() {
    let (a, b, c) = (fp12([1163225484784997711, 2302562517565311603, 74838756243271063, 1844657840949337737, 1350969266587338378, 144514464206968309, 510744589517815196, 435161868705511111, 1171209606007428047, 1513091137937346976, 1652619780497720912, 119439529128843719]), fp12([1998424955854634645, 1063248327353558909, 1178004105944745130, 1115818741287417488, 1194624949316573938, 1610873322842960162, 1505630881444526053, 1022588239969455263, 2080872642944333052, 685355819551794616, 1050430662511007123, 879186583150531721]), fp12([1814840073200781369, 653095953136209269, 464164138317059052, 26952712278436442, 1029212891289104458, 1295942789081413534, 1445412976345071509, 684765643905397476, 1586075338255425092, 169306455938720457, 760078395239348156, 1442974437280548226]));
    assert!(a.mul(&b) == b.mul(&a));
    assert!(a.mul(&b).mul(&c) == a.mul(&b.mul(&c)));
}

#[test]
fn zero_and_one_are_neutral() {
    let a = fp12([1163225484784997711, 2302562517565311603, 74838756243271063, 1844657840949337737, 1350969266587338378, 144514464206968309, 510744589517815196, 435161868705511111, 1171209606007428047, 1513091137937346976, 1652619780497720912, 119439529128843719]);
    assert!(a.add(&F::zero()) == a);
    assert!(F::zero().add(&a) == a);
    assert!(a.mul(&F::one()) == a);
    assert!(F::one().mul(&a) == a);
    assert!(a.mul(&F::zero()).is_zero());
}

#[test]
fn negation_is_the_additive_inverse() {
    let (a, b) = (fp12([1163225484784997711, 2302562517565311603, 74838756243271063, 1844657840949337737, 1350969266587338378, 144514464206968309, 510744589517815196, 435161868705511111, 1171209606007428047, 1513091137937346976, 1652619780497720912, 119439529128843719]), fp12([1998424955854634645, 1063248327353558909, 1178004105944745130, 1115818741287417488, 1194624949316573938, 1610873322842960162, 1505630881444526053, 1022588239969455263, 2080872642944333052, 685355819551794616, 1050430662511007123, 879186583150531721]));
    assert!(a.add(&a.neg()).is_zero());
    assert!(a.sub(&a).is_zero());
    assert!(a.sub(&b) == a.add(&b.neg()));
    assert!(a.neg().neg() == a);
    assert_eq!(words(&a.neg()), [1142617524428696240, 3280491648382348, 2231004252970422888, 461185168264356214, 954873742626355573, 2161328545006725642, 1795098419695878755, 1870681140508182840, 1134633403206265904, 792751871276346975, 653223228715973039, 2186403480084850232]);
    assert_eq!(words(&a.sub(&b)), [1470643538144057017, 1239314190211752694, 1202677659512219884, 728839099661920249, 156344317270764440, 839484150577702098, 1310956717286983094, 1718416637949749799, 1396179972276788946, 827735318385552360, 602189117986713789, 1546095955192005949]);
}

#[test]
fn product_has_the_expected_value() {
    let (a, b) = (fp12([1163225484784997711, 2302562517565311603, 74838756243271063, 1844657840949337737, 1350969266587338378, 144514464206968309, 510744589517815196, 435161868705511111, 1171209606007428047, 1513091137937346976, 1652619780497720912, 119439529128843719]), fp12([1998424955854634645, 1063248327353558909, 1178004105944745130, 1115818741287417488, 1194624949316573938, 1610873322842960162, 1505630881444526053, 1022588239969455263, 2080872642944333052, 685355819551794616, 1050430662511007123, 879186583150531721]));
    assert_eq!(words(&a.mul(&b)), [2231124465275623449, 794844782092977221, 446555081755359290, 1436275987185228794, 1125761133258029799, 1681549563434203234, 473135741908262529, 554129474008956904, 92968216510779024, 958926803249855809, 41621751286465506, 262887051311559570]);
}

#[test]
fn square_is_the_product_with_itself() {
    let a = fp12([1163225484784997711, 2302562517565311603, 74838756243271063, 1844657840949337737, 1350969266587338378, 144514464206968309, 510744589517815196, 435161868705511111, 1171209606007428047, 1513091137937346976, 1652619780497720912, 119439529128843719]);
    assert!(a.square() == a.mul(&a));
    assert_eq!(words(&a.square()), [1816411143825917086, 2231410586928461441, 455957566893891217, 1198670892792208490, 1220416207491452639, 564115547811111537, 819209946049378066, 307224366047548495, 1512922698482486885, 474537960272096420, 1504385525362139601, 1794142675264060035]);
    let mut s = a;
    s.square_in_place();
    assert!(s == a.square());
}

#[test]
fn double_is_the_sum_with_itself() {
    let a = fp12([1163225484784997711, 2302562517565311603, 74838756243271063, 1844657840949337737, 1350969266587338378, 144514464206968309, 510744589517815196, 435161868705511111, 1171209606007428047, 1513091137937346976, 1652619780497720912, 119439529128843719]);
    assert!(a.double() == a.add(&a));
    assert_eq!(words(&a.double()), [20607960356301471, 2299282025916929255, 149677512486542126, 1383472672684981523, 396095523960982805, 289028928413936618, 1021489179035630392, 870323737411022222, 36576202801162143, 720339266661000001, 999396551781747873, 238879058257687438]);
    let mut s = a;
    s.double_in_place();
    assert!(s == a.double());
}

#[test]
fn inverse_times_element_is_one() {
    let a = fp12([1163225484784997711, 2302562517565311603, 74838756243271063, 1844657840949337737, 1350969266587338378, 144514464206968309, 510744589517815196, 435161868705511111, 1171209606007428047, 1513091137937346976, 1652619780497720912, 119439529128843719]);
    let v = a.inverse().expect("a nonzero element has an inverse");
    assert!(a.mul(&v).is_one());
    assert!(v.mul(&a).is_one());
    assert_eq!(words(&v), [2118273785442339684, 40228661531377930, 1634022667575407549, 73583920637244591, 124872059033770813, 670657299629228596, 258886814493333700, 1056907279363432835, 534701320726076448, 1686274862309118383, 225605509917379065, 148992616171916296]);
}

#[test]
fn zero_has_no_inverse() {
    assert!(F::zero().inverse().is_none());
    let mut z = F::zero();
    assert!(!z.inverse_in_place());
    assert!(z.is_zero());
    assert!(F::one().div(&F::zero()).is_none());
    let mut o = F::one();
    assert!(!o.div_assign(&F::zero()));
    assert!(o.is_one());
}

#[test]
fn inverse_in_place_and_division() {
    let (a, b) = (fp12([1163225484784997711, 2302562517565311603, 74838756243271063, 1844657840949337737, 1350969266587338378, 144514464206968309, 510744589517815196, 435161868705511111, 1171209606007428047, 1513091137937346976, 1652619780497720912, 119439529128843719]), fp12([1998424955854634645, 1063248327353558909, 1178004105944745130, 1115818741287417488, 1194624949316573938, 1610873322842960162, 1505630881444526053, 1022588239969455263, 2080872642944333052, 685355819551794616, 1050430662511007123, 879186583150531721]));
    let mut v = a;
    assert!(v.inverse_in_place());
    assert_eq!(words(&v), [2118273785442339684, 40228661531377930, 1634022667575407549, 73583920637244591, 124872059033770813, 670657299629228596, 258886814493333700, 1056907279363432835, 534701320726076448, 1686274862309118383, 225605509917379065, 148992616171916296]);
    let q = b.div(&a).expect("the divisor is nonzero");
    assert_eq!(words(&q), [1182399864993610554, 1716850206402298753, 2090362062925752021, 1250479458666450568, 384813222896622219, 2170642450421963142, 1755676983202065511, 1714825044590707097, 788251040778472709, 604311677787943746, 2288563469923081340, 2225758180676497732]);
    assert!(q.mul(&a) == b);
    let mut r = b;
    assert!(r.div_assign(&a));
    assert!(r == q);
}

#[test]
fn assigning_operations_agree_with_the_others() {
    let (a, b) = (fp12([1163225484784997711, 2302562517565311603, 74838756243271063, 1844657840949337737, 1350969266587338378, 144514464206968309, 510744589517815196, 435161868705511111, 1171209606007428047, 1513091137937346976, 1652619780497720912, 119439529128843719]), fp12([1998424955854634645, 1063248327353558909, 1178004105944745130, 1115818741287417488, 1194624949316573938, 1610873322842960162, 1505630881444526053, 1022588239969455263, 2080872642944333052, 685355819551794616, 1050430662511007123, 879186583150531721]));
    let mut x = a;
    x.add_assign(&b);
    assert!(x == a.add(&b));
    let mut y = a;
    y.sub_assign(&b);
    assert!(y == a.sub(&b));
    let mut z = a;
    z.mul_assign(&b);
    assert!(z == a.mul(&b));
}

#[test]
fn mul_by_fp_scales_every_coordinate() {
    let mut a = fp12([1163225484784997711, 2302562517565311603, 74838756243271063, 1844657840949337737, 1350969266587338378, 144514464206968309, 510744589517815196, 435161868705511111, 1171209606007428047, 1513091137937346976, 1652619780497720912, 119439529128843719]);
    a.mul_by_fp(&Fp::new(1276890185313066147));
    assert_eq!(words(&a), [213630999035195732, 534632791241060780, 2286667147017270974, 1339567675255218434, 1787574188672412451, 1294246917006225656, 1642361937105554833, 1957513280596137388, 722731007391793977, 643485570859633831, 1870198010411729124, 1923058542116376137]);
}

#[test]
fn conjugate_is_an_involution_and_fixes_the_base() {
    let a = fp12([1163225484784997711, 2302562517565311603, 74838756243271063, 1844657840949337737, 1350969266587338378, 144514464206968309, 510744589517815196, 435161868705511111, 1171209606007428047, 1513091137937346976, 1652619780497720912, 119439529128843719]);
    let mut c = a;
    c.conjugate();
    assert_eq!(words(&c), [1163225484784997711, 2302562517565311603, 74838756243271063, 1844657840949337737, 1350969266587338378, 144514464206968309, 1795098419695878755, 1870681140508182840, 1134633403206265904, 792751871276346975, 653223228715973039, 2186403480084850232]);
    c.conjugate();
    assert!(c == a);
    let mut base = fp12([1163225484784997711, 2302562517565311603, 74838756243271063, 1844657840949337737, 1350969266587338378, 144514464206968309, 0, 0, 0, 0, 0, 0]);
    let before = base;
    base.conjugate();
    assert!(base == before);
}

#[test]
fn mul_by_034_is_the_product_with_the_dense_element() {
    let a = fp12([1163225484784997711, 2302562517565311603, 74838756243271063, 1844657840949337737, 1350969266587338378, 144514464206968309, 510744589517815196, 435161868705511111, 1171209606007428047, 1513091137937346976, 1652619780497720912, 119439529128843719]);
    let (c0, c3, c4) = (fp2([1328826225111607637, 236324473276318910]), fp2([455744588589003977, 376697103000127692]), fp2([1810584578262204540, 2302671731541338135]));
    let dense = fp12([1328826225111607637, 236324473276318910, 0, 0, 0, 0, 455744588589003977, 376697103000127692, 1810584578262204540, 2302671731541338135, 0, 0]);
    let mut s = a;
    s.mul_by_034(&c0, &c3, &c4);
    assert!(s == a.mul(&dense));
    assert_eq!(words(&s), [1295956503837921539, 904153244751135559, 2048192390523193576, 857015824877529840, 1257801935705670533, 553156084375041888, 1088346641872114711, 779250020010554995, 23567371204431508, 633800888614698055, 395097169463758452, 157330701070841178]);
}

#[test]
fn mul_by_014_is_the_product_with_the_dense_element() {
    let a = fp12([1163225484784997711, 2302562517565311603, 74838756243271063, 1844657840949337737, 1350969266587338378, 144514464206968309, 510744589517815196, 435161868705511111, 1171209606007428047, 1513091137937346976, 1652619780497720912, 119439529128843719]);
    let (c0, c1, c4) = (fp2([1328826225111607637, 236324473276318910]), fp2([1475821861692685714, 1962243045743646060]), fp2([1810584578262204540, 2302671731541338135]));
    let dense = fp12([1328826225111607637, 236324473276318910, 1475821861692685714, 1962243045743646060, 0, 0, 0, 0, 1810584578262204540, 2302671731541338135, 0, 0]);
    let mut s = a;
    s.mul_by_014(&c0, &c1, &c4);
    assert!(s == a.mul(&dense));
    assert_eq!(words(&s), [1870102171083087087, 487177175029338200, 1039925821329464391, 1262527771875922672, 833589102687200661, 899386643034981194, 2222887988529959635, 1926335576198088459, 156492718162280291, 1729893417544065551, 856572308601076166, 998441423708124999]);
}

#[test]
fn mul_fp6_by_nonresidue_shifts_through_xi() {
    let a = fp12([1163225484784997711, 2302562517565311603, 74838756243271063, 1844657840949337737, 1350969266587338378, 144514464206968309, 510744589517815196, 435161868705511111, 1171209606007428047, 1513091137937346976, 1652619780497720912, 119439529128843719]);
    let r = F::mul_fp6_by_nonresidue(&a.c0);
    let shifted = fp12([647676583714997301, 1929027123415211614, 1163225484784997711, 2302562517565311603, 74838756243271063, 1844657840949337737, 0, 0, 0, 0, 0, 0]);
    assert!(r == shifted.c0);
}
