use fp12_tower::fp::Fp;
use fp12_tower::fp12::Fp12;
use fp12_tower::fp2::Fp2;
use fp12_tower::fp6::Fp6;
use fp12_tower::mersenne61::Mersenne61;

type F = Fp12<Mersenne61>;

fn fp2(v: [u64; 2]) -> Fp2<Mersenne61> {
    Fp2::new(Fp::new(v[0]), Fp::new(v[1]))
}

fn fp12(v: [u64; 12]) -> F {
    let h = |i: usize| Fp6::new(fp2([v[i], v[i + 1]]), fp2([v[i + 2], v[i + 3]]), fp2([v[i + 4], v[i + 5]]));
    Fp12::new(h(0), h(6))
}

fn words(a: &F) -> [u64; 12] {
    let mut w = [0u64; 12];
    let halves = [&a.c0, &a.c1];
    for (h, half) in halves.iter().enumerate() {
        let coords = [&half.c0, &half.c1, &half.c2];
        for (i, c) in coords.iter().enumerate() {
            w[6 * h + 2 * i] = c.c0.to_u64();
            w[6 * h + 2 * i + 1] = c.c1.to_u64();
        }
    }
    w
}

#[test]
fn frobenius_of_power_zero_is_the_identity() {
    let a = fp12([1163225484784997711, 2302562517565311603, 74838756243271063, 1844657840949337737, 1350969266587338378, 144514464206968309, 510744589517815196, 435161868705511111, 1171209606007428047, 1513091137937346976, 1652619780497720912, 119439529128843719]);
    let mut f = a;
    f.frobenius_map(0);
    assert!(f == a);
}

#[test]
fn frobenius_twelve_times_returns_the_element() {
    let a = fp12([1163225484784997711, 2302562517565311603, 74838756243271063, 1844657840949337737, 1350969266587338378, 144514464206968309, 510744589517815196, 435161868705511111, 1171209606007428047, 1513091137937346976, 1652619780497720912, 119439529128843719]);
    let mut f = a;
    for _ in 0..12 {
        f.frobenius_map(1);
    }
    assert!(f == a);
    let mut g = a;
    g.frobenius_map(12);
    assert!(g == a);
}

#[test]
fn frobenius_is_additive_and_multiplicative() {
    let (a, b) = (fp12([1163225484784997711, 2302562517565311603, 74838756243271063, 1844657840949337737, 1350969266587338378, 144514464206968309, 510744589517815196, 435161868705511111, 1171209606007428047, 1513091137937346976, 1652619780497720912, 119439529128843719]), fp12([1998424955854634645, 1063248327353558909, 1178004105944745130, 1115818741287417488, 1194624949316573938, 1610873322842960162, 1505630881444526053, 1022588239969455263, 2080872642944333052, 685355819551794616, 1050430662511007123, 879186583150531721]));
    for power in 0..14usize {
        let (mut fa, mut fb) = (a, b);
        fa.frobenius_map(power);
        fb.frobenius_map(power);
        let mut sum = a.add(&b);
        sum.frobenius_map(power);
        assert!(sum == fa.add(&fb));
        let mut product = a.mul(&b);
        product.frobenius_map(power);
        assert!(product == fa.mul(&fb));
    }
}

#[test]
fn frobenius_of_power_1_is_the_power_of_the_prime() {
    let mut a = fp12([1163225484784997711, 2302562517565311603, 74838756243271063, 1844657840949337737, 1350969266587338378, 144514464206968309, 510744589517815196, 435161868705511111, 1171209606007428047, 1513091137937346976, 1652619780497720912, 119439529128843719]);
    a.frobenius_map(1);
    assert_eq!(words(&a), [1163225484784997711, 3280491648382348, 1653740362660373059, 1777010240629084009, 2278359667073925603, 952712165767044434, 496879656435605758, 845421280167774780, 1641185824810164115, 1058243171123945617, 1348211035267627251, 1361884694341140468]);
}

#[test]
fn frobenius_of_power_2_is_the_power_of_the_prime() {
    let mut a = fp12([1163225484784997711, 2302562517565311603, 74838756243271063, 1844657840949337737, 1350969266587338378, 144514464206968309, 510744589517815196, 435161868705511111, 1171209606007428047, 1513091137937346976, 1652619780497720912, 119439529128843719]);
    a.frobenius_map(2);
    assert_eq!(words(&a), [1163225484784997711, 2302562517565311603, 1237274190843108431, 95090997742286736, 776251306703242767, 47664339407170456, 290346861269568946, 785782409648087189, 1134633403206265904, 792751871276346975, 647361536099461477, 1400000697756321767]);
}

#[test]
fn frobenius_of_power_3_is_the_power_of_the_prime() {
    let mut a = fp12([1163225484784997711, 2302562517565311603, 74838756243271063, 1844657840949337737, 1350969266587338378, 144514464206968309, 510744589517815196, 435161868705511111, 1171209606007428047, 1513091137937346976, 1652619780497720912, 119439529128843719]);
    a.frobenius_map(3);
    assert_eq!(words(&a), [1163225484784997711, 3280491648382348, 445203072420673271, 444252213246533732, 2285183431137125495, 2266349766230416880, 1410981288161505618, 1836990552686661594, 664657184403529836, 1247599838089748334, 248864307310209060, 2137051824703640382]);
}

#[test]
fn frobenius_of_power_5_is_the_power_of_the_prime() {
    let mut a = fp12([1163225484784997711, 2302562517565311603, 74838756243271063, 1844657840949337737, 1350969266587338378, 144514464206968309, 510744589517815196, 435161868705511111, 1171209606007428047, 1513091137937346976, 1652619780497720912, 119439529128843719]);
    a.frobenius_map(5);
    assert_eq!(words(&a), [1163225484784997711, 3280491648382348, 206899574132647621, 84580555338076210, 48142920216336804, 1392624086429926588, 914101631725899860, 991569272518886814, 1641185824810164115, 1058243171123945617, 1206496281256275760, 775167130362499914]);
}

#[test]
fn frobenius_of_power_7_is_the_power_of_the_prime() {
    let mut a = fp12([1163225484784997711, 2302562517565311603, 74838756243271063, 1844657840949337737, 1350969266587338378, 144514464206968309, 510744589517815196, 435161868705511111, 1171209606007428047, 1513091137937346976, 1652619780497720912, 119439529128843719]);
    a.frobenius_map(7);
    assert_eq!(words(&a), [1163225484784997711, 3280491648382348, 1653740362660373059, 1777010240629084009, 2278359667073925603, 952712165767044434, 1808963352778088193, 1460421729045919171, 664657184403529836, 1247599838089748334, 957631973946066700, 943958314872553483]);
}

#[test]
fn frobenius_of_power_13_is_the_power_of_the_prime() {
    let mut a = fp12([1163225484784997711, 2302562517565311603, 74838756243271063, 1844657840949337737, 1350969266587338378, 144514464206968309, 510744589517815196, 435161868705511111, 1171209606007428047, 1513091137937346976, 1652619780497720912, 119439529128843719]);
    a.frobenius_map(13);
    assert_eq!(words(&a), [1163225484784997711, 3280491648382348, 1653740362660373059, 1777010240629084009, 2278359667073925603, 952712165767044434, 496879656435605758, 845421280167774780, 1641185824810164115, 1058243171123945617, 1348211035267627251, 1361884694341140468]);
}

#[test]
fn frobenius_composes() {
    let a = fp12([1163225484784997711, 2302562517565311603, 74838756243271063, 1844657840949337737, 1350969266587338378, 144514464206968309, 510744589517815196, 435161868705511111, 1171209606007428047, 1513091137937346976, 1652619780497720912, 119439529128843719]);
    let mut f = a;
    f.frobenius_map(3);
    f.frobenius_map(4);
    let mut g = a;
    g.frobenius_map(7);
    assert!(f == g);
}

#[test]
fn cyclotomic_square_is_the_square_on_the_subgroup() {
    let f = fp12([2302162242644187691, 1374921114270699, 1003711090917030114, 1699202915694609109, 1350110929300186953, 2020294041281009238, 354757999640553424, 1518079898398008784, 1947694034914858735, 1731015447115792888, 912644714650937547, 381420174783102917]);
    let mut a = f;
    a.conjugate();
    let a = a.mul(&f.inverse().expect("f is nonzero"));
    assert_eq!(words(&a), [1371915751769510520, 966531186370357745, 1534717050925023314, 60573019436455335, 2198544875074292503, 2084847930519380570, 1402808384925024614, 840153029701771647, 2136257020547356149, 1827201760427386087, 204082356595374392, 713103167077097056]);
    let mut norm = a;
    norm.conjugate();
    assert!(norm.mul(&a).is_one());
    assert!(a.cyclotomic_square() == a.square());
    assert_eq!(words(&a.cyclotomic_square()), [613685566114841931, 1795871676299378306, 1162242112527157558, 590730876737140565, 2007747943152784013, 1539553836034985028, 1045515177844787120, 1452790811937838217, 923047429656667600, 2291633303493949425, 327207871990143014, 1027934466288929663]);
}

#[test]
fn cyclotomic_exp_is_repeated_multiplication() {
    let a = fp12([1371915751769510520, 966531186370357745, 1534717050925023314, 60573019436455335, 2198544875074292503, 2084847930519380570, 1402808384925024614, 840153029701771647, 2136257020547356149, 1827201760427386087, 204082356595374392, 713103167077097056]);
    for e in [0u64, 1, 2, 5, 17] {
        let mut expected = F::one();
        for _ in 0..e {
            expected = expected.mul(&a);
        }
        assert!(a.cyclotomic_exp(&[e]) == expected);
    }
}

#[test]
fn cyclotomic_exp_of_zero_limbs_and_of_zero_is_one() {
    let a = fp12([1371915751769510520, 966531186370357745, 1534717050925023314, 60573019436455335, 2198544875074292503, 2084847930519380570, 1402808384925024614, 840153029701771647, 2136257020547356149, 1827201760427386087, 204082356595374392, 713103167077097056]);
    assert!(a.cyclotomic_exp(&[]).is_one());
    assert!(a.cyclotomic_exp(&[0]).is_one());
    assert!(a.cyclotomic_exp(&[0, 0, 0]).is_one());
}

#[test]
fn cyclotomic_exp_reads_the_limbs_least_significant_first() {
    let a = fp12([1371915751769510520, 966531186370357745, 1534717050925023314, 60573019436455335, 2198544875074292503, 2084847930519380570, 1402808384925024614, 840153029701771647, 2136257020547356149, 1827201760427386087, 204082356595374392, 713103167077097056]);
    assert_eq!(words(&a.cyclotomic_exp(&[15132376222941642752])), [1925769748486112702, 309845904982564770, 1603921660155651635, 441765999204533142, 2302533369308905414, 1204607130285900879, 368738059187875350, 64911147378211340, 2026295838803028542, 681229433601480176, 1817369880958761399, 3931863462912999]);
    assert_eq!(words(&a.cyclotomic_exp(&[0, 1])), [229315772134945968, 1795105895511289155, 336002651760816923, 1422271120708166961, 1483004663640618293, 416804738251679026, 286931082176450983, 41273369315122373, 118125566296591738, 195969857376787641, 1985790802616642120, 1070566754187189439]);
    assert_eq!(words(&a.cyclotomic_exp(&[9586122913090633729, 1660523435060625408, 2230234197602682880])), [1942860727496405868, 2164388154192349652, 819821192247793956, 837818635345530732, 1286099402961020499, 1334341061068102123, 925439999206513198, 1215780630469879569, 1974437602871205468, 2293185883918425888, 1268045112895245193, 2205209249171697027]);
    assert_eq!(words(&a.cyclotomic_exp(&[15132376222941642752, 0])), [1925769748486112702, 309845904982564770, 1603921660155651635, 441765999204533142, 2302533369308905414, 1204607130285900879, 368738059187875350, 64911147378211340, 2026295838803028542, 681229433601480176, 1817369880958761399, 3931863462912999]);
}

#[test]
fn cyclotomic_exp_agrees_off_the_subgroup_too() {
    let a = fp12([1163225484784997711, 2302562517565311603, 74838756243271063, 1844657840949337737, 1350969266587338378, 144514464206968309, 510744589517815196, 435161868705511111, 1171209606007428047, 1513091137937346976, 1652619780497720912, 119439529128843719]);
    assert_eq!(words(&a.cyclotomic_exp(&[15132376222941642752])), [2202701903896748390, 632805307333069673, 987493413042742003, 1676924946431670988, 212648098371020218, 400012104745294578, 1436648952228107393, 1073684072742708061, 263631936957852032, 1613420657048763355, 826829330667170546, 2232023619426029821]);
}
