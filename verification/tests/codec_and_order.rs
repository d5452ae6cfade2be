use fp12_tower::fp::Fp;
use fp12_tower::fp12::Fp12;
use fp12_tower::fp2::Fp2;
use fp12_tower::fp6::Fp6;
use fp12_tower::mersenne61::Mersenne61;
use core::cmp::Ordering;
use fp12_tower::codec::{CodecError, Compress, Validate};
type F = Fp12<Mersenne61>;

fn fp2(v: [u64; 2]) -> Fp2<Mersenne61> {
    Fp2::new(Fp::new(v[0]), Fp::new(v[1]))
}

fn fp12(v: [u64; 12]) -> F {
    let h = |i: usize| Fp6::new(fp2([v[i], v[i + 1]]), fp2([v[i + 2], v[i + 3]]), fp2([v[i + 4], v[i + 5]]));
    Fp12::new(h(0), h(6))
}

fn words(a: &F) -> [u64; 12] {
    let mut w = [0u64; 12];
    let halves = [&a.c0, &a.c1];
    for (h, half) in halves.iter().enumerate() {
        let coords = [&half.c0, &half.c1, &half.c2];
        for (i, c) in coords.iter().enumerate() {
            w[6 * h + 2 * i] = c.c0.to_u64();
            w[6 * h + 2 * i + 1] = c.c1.to_u64();
        }
    }
    w
}

#[test]
fn encoding_is_the_words_in_order() {
    let a = fp12([1163225484784997711, 2302562517565311603, 74838756243271063, 1844657840949337737, 1350969266587338378, 144514464206968309, 510744589517815196, 435161868705511111, 1171209606007428047, 1513091137937346976, 1652619780497720912, 119439529128843719]);
    let bytes = a.to_bytes_le();
    assert_eq!(bytes.len(), 96);
    assert_eq!(bytes, vec![79, 149, 74, 86, 106, 155, 36, 16, 115, 10, 156, 4, 105, 88, 244, 31, 151, 237, 79, 201, 115, 225, 9, 1, 137, 158, 236, 109, 136, 138, 153, 25, 138, 134, 104, 229, 99, 155, 191, 18, 245, 85, 246, 183, 35, 107, 1, 2, 156, 125, 41, 133, 127, 135, 22, 7, 199, 182, 252, 251, 105, 1, 10, 6, 207, 19, 153, 107, 238, 248, 64, 16, 160, 17, 140, 141, 95, 148, 255, 20, 80, 198, 89, 53, 239, 72, 239, 22, 199, 89, 221, 113, 158, 85, 168, 1]);
    assert_eq!(a.serialize_with_mode(Compress::Yes), bytes);
    assert_eq!(a.serialize_with_mode(Compress::No), bytes);
    assert_eq!(a.serialized_size(Compress::Yes), 96);
    assert_eq!(a.serialized_size_with_flags(), 96);
    assert_eq!(bytes.len(), 2 * a.c0.encode(0).len());
    assert_eq!(bytes.len(), 2 * a.c1.encode(0).len());
    assert_eq!(a.serialize_with_flags(0), Ok(bytes));
}

#[test]
fn decoding_undoes_encoding() {
    for a in [fp12([1163225484784997711, 2302562517565311603, 74838756243271063, 1844657840949337737, 1350969266587338378, 144514464206968309, 510744589517815196, 435161868705511111, 1171209606007428047, 1513091137937346976, 1652619780497720912, 119439529128843719]), fp12([1998424955854634645, 1063248327353558909, 1178004105944745130, 1115818741287417488, 1194624949316573938, 1610873322842960162, 1505630881444526053, 1022588239969455263, 2080872642944333052, 685355819551794616, 1050430662511007123, 879186583150531721]), F::zero(), F::one()] {
        let bytes = a.to_bytes_le();
        assert!(F::from_bytes_le(&bytes) == Ok(a));
        assert!(F::deserialize_with_mode(&bytes, Compress::Yes, Validate::Yes) == Ok(a));
        assert!(F::deserialize_with_flags(&bytes) == Ok((a, 0)));
        let mut longer = bytes.clone();
        longer.extend_from_slice(&[0xff, 0x01]);
        assert!(F::from_bytes_le(&longer) == Ok(a));
    }
}

#[test]
fn flags_ride_in_the_last_byte() {
    let a = fp12([1163225484784997711, 2302562517565311603, 74838756243271063, 1844657840949337737, 1350969266587338378, 144514464206968309, 510744589517815196, 435161868705511111, 1171209606007428047, 1513091137937346976, 1652619780497720912, 119439529128843719]);
    let plain = a.to_bytes_le();
    for flags in [0x20u8, 0x40, 0x80, 0xe0, 0xa0] {
        let bytes = a.serialize_with_flags(flags).expect("the flags fit");
        assert_eq!(bytes.len(), 96);
        assert_eq!(&bytes[..95], &plain[..95]);
        assert_eq!(bytes[95], plain[95] | flags);
        assert!(F::deserialize_with_flags(&bytes) == Ok((a, flags)));
    }
}

#[test]
fn flags_that_need_other_bits_are_refused() {
    let a = fp12([1163225484784997711, 2302562517565311603, 74838756243271063, 1844657840949337737, 1350969266587338378, 144514464206968309, 510744589517815196, 435161868705511111, 1171209606007428047, 1513091137937346976, 1652619780497720912, 119439529128843719]);
    for flags in [0x01u8, 0x10, 0x1f, 0xff] {
        assert_eq!(a.serialize_with_flags(flags), Err(CodecError::FlagsDoNotFit));
    }
}

#[test]
fn truncated_input_names_the_coordinate() {
    let bytes = fp12([1163225484784997711, 2302562517565311603, 74838756243271063, 1844657840949337737, 1350969266587338378, 144514464206968309, 510744589517815196, 435161868705511111, 1171209606007428047, 1513091137937346976, 1652619780497720912, 119439529128843719]).to_bytes_le();
    assert!(F::from_bytes_le(&[]) == Err(CodecError::UnexpectedEnd { coordinate: 0 }));
    assert!(F::from_bytes_le(&bytes[..7]) == Err(CodecError::UnexpectedEnd { coordinate: 0 }));
    assert!(F::from_bytes_le(&bytes[..8]) == Err(CodecError::UnexpectedEnd { coordinate: 1 }));
    assert!(F::from_bytes_le(&bytes[..50]) == Err(CodecError::UnexpectedEnd { coordinate: 6 }));
    assert!(F::from_bytes_le(&bytes[..95]) == Err(CodecError::UnexpectedEnd { coordinate: 11 }));
    assert!(F::deserialize_with_flags(&bytes[..95]) == Err(CodecError::UnexpectedEnd { coordinate: 11 }));
}

#[test]
fn words_that_are_no_residues_name_the_coordinate() {
    let good = fp12([1163225484784997711, 2302562517565311603, 74838756243271063, 1844657840949337737, 1350969266587338378, 144514464206968309, 510744589517815196, 435161868705511111, 1171209606007428047, 1513091137937346976, 1652619780497720912, 119439529128843719]).to_bytes_le();
    for coordinate in [0usize, 3, 7, 11] {
        let mut bytes = good.clone();
        bytes[8 * coordinate..8 * coordinate + 8].copy_from_slice(&2305843009213693951u64.to_le_bytes());
        assert!(F::from_bytes_le(&bytes) == Err(CodecError::NotCanonical { coordinate }));
    }
    let mut bytes = good.clone();
    bytes[95] |= 0x80;
    assert!(F::from_bytes_le(&bytes) == Err(CodecError::NotCanonical { coordinate: 11 }));
    assert!(F::deserialize_with_flags(&bytes) == Ok((fp12([1163225484784997711, 2302562517565311603, 74838756243271063, 1844657840949337737, 1350969266587338378, 144514464206968309, 510744589517815196, 435161868705511111, 1171209606007428047, 1513091137937346976, 1652619780497720912, 119439529128843719]), 0x80)));
    let mut bytes = good.clone();
    bytes[47] |= 0x80;
    assert!(F::deserialize_with_flags(&bytes) == Err(CodecError::NotCanonical { coordinate: 5 }));
}

#[test]
fn the_largest_residue_round_trips() {
    let top = fp12([2305843009213693950, 2305843009213693950, 2305843009213693950, 2305843009213693950, 2305843009213693950, 2305843009213693950, 2305843009213693950, 2305843009213693950, 2305843009213693950, 2305843009213693950, 2305843009213693950, 2305843009213693950]);
    let bytes = top.serialize_with_flags(0xe0).expect("the flags fit");
    assert_eq!(bytes[95], 0xff);
    assert!(F::deserialize_with_flags(&bytes) == Ok((top, 0xe0)));
}

#[test]
fn check_always_succeeds() {
    let a = fp12([1163225484784997711, 2302562517565311603, 74838756243271063, 1844657840949337737, 1350969266587338378, 144514464206968309, 510744589517815196, 435161868705511111, 1171209606007428047, 1513091137937346976, 1652619780497720912, 119439529128843719]);
    assert_eq!(a.check(), Ok(()));
    assert_eq!(F::batch_check(&[a, F::zero()]), Ok(()));
    assert_eq!(F::batch_check(&[]), Ok(()));
}

#[test]
fn order_goes_by_c1_first() {
    let (lo, hi) = (fp12([2305843009213693950, 2305843009213693950, 2305843009213693950, 2305843009213693950, 2305843009213693950, 2305843009213693950, 5, 0, 0, 0, 0, 0]), fp12([0, 0, 0, 0, 0, 0, 6, 0, 0, 0, 0, 0]));
    assert_eq!(lo.cmp(&hi), Ordering::Less);
    assert_eq!(hi.cmp(&lo), Ordering::Greater);
    assert_eq!(lo.partial_cmp(&hi), Some(Ordering::Less));
}

#[test]
fn order_goes_by_c0_among_equal_c1() {
    let (lo, hi, top) = (fp12([1, 2, 3, 4, 5, 6, 510744589517815196, 435161868705511111, 1171209606007428047, 1513091137937346976, 1652619780497720912, 119439529128843719]), fp12([1, 2, 4, 4, 5, 5, 510744589517815196, 435161868705511111, 1171209606007428047, 1513091137937346976, 1652619780497720912, 119439529128843719]), fp12([9, 9, 9, 9, 0, 7, 510744589517815196, 435161868705511111, 1171209606007428047, 1513091137937346976, 1652619780497720912, 119439529128843719]));
    assert_eq!(lo.cmp(&hi), Ordering::Greater);
    assert_eq!(hi.cmp(&lo), Ordering::Less);
    assert_eq!(lo.cmp(&top), Ordering::Less);
    assert_eq!(hi.cmp(&top), Ordering::Less);
    assert_eq!(lo.cmp(&lo), Ordering::Equal);
}

#[test]
fn exactly_one_of_less_equal_greater() {
    let all = [fp12([1163225484784997711, 2302562517565311603, 74838756243271063, 1844657840949337737, 1350969266587338378, 144514464206968309, 510744589517815196, 435161868705511111, 1171209606007428047, 1513091137937346976, 1652619780497720912, 119439529128843719]), fp12([1998424955854634645, 1063248327353558909, 1178004105944745130, 1115818741287417488, 1194624949316573938, 1610873322842960162, 1505630881444526053, 1022588239969455263, 2080872642944333052, 685355819551794616, 1050430662511007123, 879186583150531721]), fp12([1814840073200781369, 653095953136209269, 464164138317059052, 26952712278436442, 1029212891289104458, 1295942789081413534, 1445412976345071509, 684765643905397476, 1586075338255425092, 169306455938720457, 760078395239348156, 1442974437280548226]), F::zero(), F::one()];
    for x in &all {
        for y in &all {
            let (lt, eq, gt) = (x.cmp(y) == Ordering::Less, x == y, y.cmp(x) == Ordering::Less);
            assert_eq!(lt as u8 + eq as u8 + gt as u8, 1);
            assert_eq!(x.cmp(y), x.cmp(y));
            assert_eq!(eq, x.cmp(y) == Ordering::Equal);
        }
    }
}

#[test]
fn order_below_the_tower() {
    assert_eq!(Fp::<Mersenne61>::new(3).cmp(&Fp::new(4)), Ordering::Less);
    assert_eq!(Fp::<Mersenne61>::new(2305843009213693951 + 3).cmp(&Fp::new(3)), Ordering::Equal);
    assert_eq!(fp2([9, 1]).cmp(&fp2([0, 2])), Ordering::Less);
    assert_eq!(fp2([9, 2]).cmp(&fp2([0, 2])), Ordering::Greater);
    let (x, y) = (fp12([1, 2, 3, 4, 5, 6, 510744589517815196, 435161868705511111, 1171209606007428047, 1513091137937346976, 1652619780497720912, 119439529128843719]).c0, fp12([1, 2, 4, 4, 5, 5, 510744589517815196, 435161868705511111, 1171209606007428047, 1513091137937346976, 1652619780497720912, 119439529128843719]).c0);
    assert_eq!(x.cmp(&y), Ordering::Greater);
}

#[test]
fn integers_embed_in_the_first_coordinate() {
    assert_eq!(words(&F::from(5u8)), [5, 0, 0, 0, 0, 0, 0, 0, 0, 0, 0, 0]);
    assert_eq!(words(&F::from(65535u16)), [65535, 0, 0, 0, 0, 0, 0, 0, 0, 0, 0, 0]);
    assert_eq!(words(&F::from(4000000000u32)), [4000000000, 0, 0, 0, 0, 0, 0, 0, 0, 0, 0, 0]);
    assert_eq!(words(&F::from(u64::MAX)), [7, 0, 0, 0, 0, 0, 0, 0, 0, 0, 0, 0]);
    assert_eq!(words(&F::from(u128::MAX)), [63, 0, 0, 0, 0, 0, 0, 0, 0, 0, 0, 0]);
    assert_eq!(words(&F::from(2305843009213693951u64)), [0; 12]);
    assert!(F::from(1u8).is_one());
    assert!(F::from(0u32).is_zero());
    assert!(F::from(7u8).add(&F::from(8u8)) == F::from(15u64));
}

#[test]
fn base_field_embeds_and_characteristic_is_the_prime() {
    assert_eq!(words(&F::from_base_prime_field(Fp::new(77))), [77, 0, 0, 0, 0, 0, 0, 0, 0, 0, 0, 0]);
    assert_eq!(F::characteristic(), 2305843009213693951);
    assert!(F::default().is_zero());
}

#[test]
fn bits_are_c0_then_c1() {
    let a = fp12([5, 0, 1152921504606846976, 0, 0, 0, 0, 3, 0, 0, 0, 1152921504606846977]);
    let le = a.to_bits_le();
    let be = a.to_bits_be();
    assert_eq!(le.len(), 768);
    assert_eq!(be.len(), 768);
    let set = |bits: &Vec<bool>| bits.iter().enumerate().filter(|(_, b)| **b).map(|(i, _)| i).collect::<Vec<usize>>();
    assert_eq!(set(&le), vec![0, 2, 188, 448, 449, 704, 764]);
    assert_eq!(set(&be), vec![61, 63, 131, 510, 511, 707, 767]);
}

#[test]
fn bits_of_a_random_element() {
    let a = fp12([1163225484784997711, 2302562517565311603, 74838756243271063, 1844657840949337737, 1350969266587338378, 144514464206968309, 510744589517815196, 435161868705511111, 1171209606007428047, 1513091137937346976, 1652619780497720912, 119439529128843719]);
    let w = words(&a);
    let le = a.to_bits_le();
    let be = a.to_bits_be();
    for i in 0..768 {
        assert_eq!(le[i], (w[i / 64] >> (i % 64)) & 1 == 1);
        assert_eq!(be[i], (w[i / 64] >> (63 - i % 64)) & 1 == 1);
    }
}

#[test]
fn elements_from_arbitrary_bytes() {
    let r = F::from_random_bytes_with_flags(&[46, 133, 166, 44, 197, 232, 231, 99, 207, 103, 166, 42, 26, 237, 208, 227, 34, 200, 29, 197, 152, 186, 240, 64, 63, 241, 136, 242, 102, 12, 36, 75, 102, 63, 84, 86, 60, 245, 235, 216, 14, 247, 226, 11, 52, 114, 47, 249, 105, 60, 39, 64, 84, 250, 164, 12, 151, 202, 177, 209, 74, 171, 54, 24, 98, 228, 134, 151, 243, 2, 249, 119, 201, 155, 142, 156, 37, 134, 31, 137, 190, 89, 222, 176, 107, 127, 231, 253, 1, 43, 255, 249, 13, 41, 185, 214]).expect("every word is below the modulus");
    assert_eq!(words(&r.0), [281449435289257262, 274980273910081487, 67759159715416098, 802780269874049343, 1795798515932479334, 1814794742716888846, 911128264396192873, 1744770243486665367, 1727415177315804258, 657391566717885385, 2154831047225661886, 1637385079531449089]);
    assert_eq!(r.1, 192);
    let r = F::from_random_bytes_with_flags(&[99, 45, 59, 141, 53, 27, 95, 162, 238, 39, 124, 187, 55, 187, 249, 198, 251, 74, 189, 232, 71, 208, 118, 149, 155, 178, 62, 92, 40, 254, 126, 159, 229, 154, 100, 34, 106, 80, 14, 104, 142, 192, 193, 209, 21, 195, 66, 237, 94, 231, 252, 247, 7, 195, 16, 177, 214, 148, 16, 169, 199, 112, 39, 140, 0, 168, 92, 248, 180, 157, 55, 87, 153, 50, 207, 168, 232, 183, 203, 208, 128, 180, 52, 102, 235, 217, 216, 134, 129, 246, 114, 33, 78, 32, 113, 129, 123, 242, 10, 216, 114, 186, 200, 251, 166, 177, 232, 21, 183, 170, 5, 174, 109, 199, 148, 35, 168, 88, 41, 187, 6, 250, 88, 222, 67, 185, 171, 248, 232, 157, 46]).expect("every word is below the modulus");
    assert_eq!(words(&r.0), [170885227680050531, 791444935423802236, 602425386996168400, 1031441010617148831, 531122677072908737, 551990660772729027, 1825989324407594152, 447180728368347112, 1234072203469160838, 1271980784318863370, 586475960747820458, 1777718179072113158]);
    assert_eq!(r.1, 224);
    let r = F::from_random_bytes_with_flags(&[80, 143, 120, 212, 14, 203, 134, 5, 241, 21, 237, 242, 202, 142, 162, 201, 178, 186, 146, 185, 69, 237, 208, 136, 137, 233, 173, 174, 95, 253, 109, 58, 58, 75, 216, 156, 15, 112, 233, 230]).expect("every word is below the modulus");
    assert_eq!(words(&r.0), [7901008, 13307604, 15795590, 15920405, 3382873802, 3113401010, 13692229, 15305096, 6270637, 3829245, 2631420730, 3874058255]);
    assert_eq!(r.1, 0);
    let r = F::from_random_bytes_with_flags(&[]).expect("every word is below the modulus");
    assert_eq!(words(&r.0), [0, 0, 0, 0, 0, 0, 0, 0, 0, 0, 0, 0]);
    assert_eq!(r.1, 0);
    let r = F::from_random_bytes_with_flags(&[79, 149, 74, 86, 106, 155, 36, 16, 115, 10, 156, 4, 105, 88, 244, 31, 151, 237, 79, 201, 115, 225, 9, 1, 137, 158, 236, 109, 136, 138, 153, 25, 138, 134, 104, 229, 99, 155, 191, 18, 245, 85, 246, 183, 35, 107, 1, 2, 156, 125, 41, 133, 127, 135, 22, 7, 199, 182, 252, 251, 105, 1, 10, 6, 207, 19, 153, 107, 238, 248, 64, 16, 160, 17, 140, 141, 95, 148, 255, 20, 80, 198, 89, 53, 239, 72, 239, 22, 199, 89, 221, 113, 158, 85, 168, 1]).expect("every word is below the modulus");
    assert_eq!(words(&r.0), [1163225484784997711, 2302562517565311603, 74838756243271063, 1844657840949337737, 1350969266587338378, 144514464206968309, 510744589517815196, 435161868705511111, 1171209606007428047, 1513091137937346976, 1652619780497720912, 119439529128843719]);
    assert_eq!(r.1, 0);
    assert!(F::from_random_bytes_with_flags(&[255, 255, 255, 255, 255, 255, 255, 31, 207, 103, 166, 42, 26, 237, 208, 227, 34, 200, 29, 197, 152, 186, 240, 64, 63, 241, 136, 242, 102, 12, 36, 75, 102, 63, 84, 86, 60, 245, 235, 216, 14, 247, 226, 11, 52, 114, 47, 249, 105, 60, 39, 64, 84, 250, 164, 12, 151, 202, 177, 209, 74, 171, 54, 24, 98, 228, 134, 151, 243, 2, 249, 119, 201, 155, 142, 156, 37, 134, 31, 137, 190, 89, 222, 176, 107, 127, 231, 253, 1, 43, 255, 249, 13, 41, 185, 214]).is_none());
    assert!(F::from_random_bytes(&[255, 255, 255, 255, 255, 255, 255, 31, 207, 103, 166, 42, 26, 237, 208, 227, 34, 200, 29, 197, 152, 186, 240, 64, 63, 241, 136, 242, 102, 12, 36, 75, 102, 63, 84, 86, 60, 245, 235, 216, 14, 247, 226, 11, 52, 114, 47, 249, 105, 60, 39, 64, 84, 250, 164, 12, 151, 202, 177, 209, 74, 171, 54, 24, 98, 228, 134, 151, 243, 2, 249, 119, 201, 155, 142, 156, 37, 134, 31, 137, 190, 89, 222, 176, 107, 127, 231, 253, 1, 43, 255, 249, 13, 41, 185, 214]).is_none());
    assert_eq!(words(&F::from_random_bytes(&[46, 133, 166, 44, 197, 232, 231, 99, 207, 103, 166, 42, 26, 237, 208, 227, 34, 200, 29, 197, 152, 186, 240, 64, 63, 241, 136, 242, 102, 12, 36, 75, 102, 63, 84, 86, 60, 245, 235, 216, 14, 247, 226, 11, 52, 114, 47, 249, 105, 60, 39, 64, 84, 250, 164, 12, 151, 202, 177, 209, 74, 171, 54, 24, 98, 228, 134, 151, 243, 2, 249, 119, 201, 155, 142, 156, 37, 134, 31, 137, 190, 89, 222, 176, 107, 127, 231, 253, 1, 43, 255, 249, 13, 41, 185, 214]).expect("every word is below the modulus")), [281449435289257262, 274980273910081487, 67759159715416098, 802780269874049343, 1795798515932479334, 1814794742716888846, 911128264396192873, 1744770243486665367, 1727415177315804258, 657391566717885385, 2154831047225661886, 1637385079531449089]);
}
