use vstd::prelude::*;
use crate::params::Fp12Parameters;
use vstd::arithmetic::div_mod::lemma_mod_mod;
use crate::mersenne61::Mersenne61;
use crate::tower::F2;
use crate::alg_fp::{lemma_fp_mul_is, lemma_fp_add_is};
use crate::alg_fp2::{f2_nr, lemma_f2_mul_is};
use crate::frobenius::{frobenius_unit, frobenius_multiplicative, frobenius_chain};

verus! {

proof fn lemma_multiplicative_at_0()
    ensures
        frobenius_multiplicative(Mersenne61::tower(), 0),
{
    let t = Mersenne61::tower();
    let p = t.p;
    reveal(f2_nr);
    lemma_fp_mul_is(p, 1, 1, 0, 1);
    lemma_fp_mul_is(p, 0, 0, 0, 0);
    lemma_fp_mul_is(p, 2305843009213693950, 0, 0, 0);
    lemma_fp_mul_is(p, 1, 0, 0, 0);
    lemma_fp_mul_is(p, 0, 1, 0, 0);
    lemma_fp_add_is(p, 1, 0, 0, 1);
    lemma_fp_add_is(p, 0, 0, 0, 0);
    lemma_f2_mul_is(t, F2 { c0: 1, c1: 0 }, F2 { c0: 1, c1: 0 }, 1, 0, 0, 0, 0, F2 { c0: 1, c1: 0 });
    lemma_fp_mul_is(p, 4, 1, 0, 4);
    lemma_fp_mul_is(p, 4, 0, 0, 0);
    lemma_fp_add_is(p, 4, 0, 0, 4);
    lemma_fp_add_is(p, 0, 1, 0, 1);
    lemma_f2_mul_is(t, F2 { c0: 4, c1: 1 }, F2 { c0: 1, c1: 0 }, 4, 0, 0, 0, 1, F2 { c0: 4, c1: 1 });
}

proof fn lemma_multiplicative_at_1()
    ensures
        frobenius_multiplicative(Mersenne61::tower(), 1),
{
    let t = Mersenne61::tower();
    let p = t.p;
    reveal(f2_nr);
    lemma_fp_mul_is(p, 2305843009213693950, 2305843009213693950, 2305843009213693949, 1);
    lemma_fp_mul_is(p, 1776781251329465812, 1776781251329465812, 1369109519798766115, 586378254237548979);
    lemma_fp_mul_is(p, 1930085167172986323, 1930085167172986323, 1615560442604242823, 49882364734796656);
    lemma_fp_mul_is(p, 2305843009213693950, 49882364734796656, 49882364734796655, 2255960644478897295);
    lemma_fp_mul_is(p, 1776781251329465812, 1930085167172986323, 1487238777661400589, 1444626223314952137);
    lemma_fp_mul_is(p, 1930085167172986323, 1776781251329465812, 1487238777661400589, 1444626223314952137);
    lemma_fp_add_is(p, 586378254237548979, 2255960644478897295, 1, 536495889502752323);
    lemma_fp_add_is(p, 1444626223314952137, 1444626223314952137, 1, 583409437416210323);
    lemma_f2_mul_is(t, F2 { c0: 1776781251329465812, c1: 1930085167172986323 }, F2 { c0: 1776781251329465812, c1: 1930085167172986323 }, 586378254237548979, 49882364734796656, 2255960644478897295, 1444626223314952137, 1444626223314952137, F2 { c0: 536495889502752323, c1: 583409437416210323 });
    lemma_fp_mul_is(p, 1776781251329465812, 536495889502752323, 413400146529868974, 232933236765705002);
    lemma_fp_mul_is(p, 1930085167172986323, 583409437416210323, 488337626215822486, 1860587125622430143);
    lemma_fp_mul_is(p, 2305843009213693950, 1860587125622430143, 1860587125622430142, 445255883591263808);
    lemma_fp_mul_is(p, 1776781251329465812, 583409437416210323, 449549664095855974, 1995696917218964002);
    lemma_fp_mul_is(p, 1930085167172986323, 536495889502752323, 449069062568854345, 717059564208911234);
    lemma_fp_add_is(p, 232933236765705002, 445255883591263808, 0, 678189120356968810);
    lemma_fp_add_is(p, 1995696917218964002, 717059564208911234, 1, 406913472214181285);
    lemma_f2_mul_is(t, F2 { c0: 1776781251329465812, c1: 1930085167172986323 }, F2 { c0: 536495889502752323, c1: 583409437416210323 }, 232933236765705002, 1860587125622430143, 445255883591263808, 1995696917218964002, 717059564208911234, F2 { c0: 678189120356968810, c1: 406913472214181285 });
    lemma_fp_mul_is(p, 4, 678189120356968810, 1, 406913472214181289);
    lemma_fp_mul_is(p, 1, 406913472214181285, 0, 406913472214181285);
    lemma_fp_mul_is(p, 2305843009213693950, 406913472214181285, 406913472214181284, 1898929536999512666);
    lemma_fp_mul_is(p, 4, 406913472214181285, 0, 1627653888856725140);
    lemma_fp_mul_is(p, 1, 678189120356968810, 0, 678189120356968810);
    lemma_fp_add_is(p, 406913472214181289, 1898929536999512666, 1, 4);
    lemma_fp_add_is(p, 1627653888856725140, 678189120356968810, 0, 2305843009213693950);
    lemma_f2_mul_is(t, F2 { c0: 4, c1: 1 }, F2 { c0: 678189120356968810, c1: 406913472214181285 }, 406913472214181289, 406913472214181285, 1898929536999512666, 1627653888856725140, 678189120356968810, F2 { c0: 4, c1: 2305843009213693950 });
    lemma_fp_mul_is(p, 1, 2305843009213693950, 0, 2305843009213693950);
    lemma_fp_mul_is(p, 884783226220888461, 884783226220888461, 339503320162632147, 1206520935150905724);
    lemma_fp_mul_is(p, 433516364344364222, 433516364344364222, 81504437814455971, 1735582693035133863);
    lemma_fp_mul_is(p, 2305843009213693950, 1735582693035133863, 1735582693035133862, 570260316178560088);
    lemma_fp_mul_is(p, 884783226220888461, 433516364344364222, 166346106795429955, 2117964088193340137);
    lemma_fp_mul_is(p, 433516364344364222, 884783226220888461, 166346106795429955, 2117964088193340137);
    lemma_fp_add_is(p, 1206520935150905724, 570260316178560088, 0, 1776781251329465812);
    lemma_fp_add_is(p, 2117964088193340137, 2117964088193340137, 1, 1930085167172986323);
    lemma_f2_mul_is(t, F2 { c0: 884783226220888461, c1: 433516364344364222 }, F2 { c0: 884783226220888461, c1: 433516364344364222 }, 1206520935150905724, 1735582693035133863, 570260316178560088, 2117964088193340137, 2117964088193340137, F2 { c0: 1776781251329465812, c1: 1930085167172986323 });
}

proof fn lemma_multiplicative_at_2()
    ensures
        frobenius_multiplicative(Mersenne61::tower(), 2),
{
    let t = Mersenne61::tower();
    let p = t.p;
    reveal(f2_nr);
    lemma_fp_mul_is(p, 1, 1, 0, 1);
    lemma_fp_mul_is(p, 636260618972345635, 636260618972345635, 175565974629435410, 1669582390241348315);
    lemma_fp_mul_is(p, 0, 0, 0, 0);
    lemma_fp_mul_is(p, 2305843009213693950, 0, 0, 0);
    lemma_fp_mul_is(p, 636260618972345635, 0, 0, 0);
    lemma_fp_mul_is(p, 0, 636260618972345635, 0, 0);
    lemma_fp_add_is(p, 1669582390241348315, 0, 0, 1669582390241348315);
    lemma_fp_add_is(p, 0, 0, 0, 0);
    lemma_f2_mul_is(t, F2 { c0: 636260618972345635, c1: 0 }, F2 { c0: 636260618972345635, c1: 0 }, 1669582390241348315, 0, 0, 0, 0, F2 { c0: 1669582390241348315, c1: 0 });
    lemma_fp_mul_is(p, 636260618972345635, 1669582390241348315, 460694644342910224, 1);
    lemma_fp_mul_is(p, 0, 1669582390241348315, 0, 0);
    lemma_fp_add_is(p, 1, 0, 0, 1);
    lemma_f2_mul_is(t, F2 { c0: 636260618972345635, c1: 0 }, F2 { c0: 1669582390241348315, c1: 0 }, 1, 0, 0, 0, 0, F2 { c0: 1, c1: 0 });
    lemma_fp_mul_is(p, 4, 1, 0, 4);
    lemma_fp_mul_is(p, 1, 0, 0, 0);
    lemma_fp_mul_is(p, 4, 0, 0, 0);
    lemma_fp_add_is(p, 4, 0, 0, 4);
    lemma_fp_add_is(p, 0, 1, 0, 1);
    lemma_f2_mul_is(t, F2 { c0: 4, c1: 1 }, F2 { c0: 1, c1: 0 }, 4, 0, 0, 0, 1, F2 { c0: 4, c1: 1 });
    lemma_fp_mul_is(p, 636260618972345636, 636260618972345636, 175565974629435411, 636260618972345635);
    lemma_fp_mul_is(p, 636260618972345636, 0, 0, 0);
    lemma_fp_mul_is(p, 0, 636260618972345636, 0, 0);
    lemma_fp_add_is(p, 636260618972345635, 0, 0, 636260618972345635);
    lemma_f2_mul_is(t, F2 { c0: 636260618972345636, c1: 0 }, F2 { c0: 636260618972345636, c1: 0 }, 636260618972345635, 0, 0, 0, 0, F2 { c0: 636260618972345635, c1: 0 });
}

proof fn lemma_multiplicative_at_3()
    ensures
        frobenius_multiplicative(Mersenne61::tower(), 3),
{
    let t = Mersenne61::tower();
    let p = t.p;
    reveal(f2_nr);
    lemma_fp_mul_is(p, 2305843009213693950, 2305843009213693950, 2305843009213693949, 1);
    lemma_fp_mul_is(p, 2093520362388135145, 2093520362388135145, 1900748442205663732, 1572220845315685893);
    lemma_fp_mul_is(p, 1278637353010052768, 1278637353010052768, 709030698959019515, 733622163898008059);
    lemma_fp_mul_is(p, 2305843009213693950, 733622163898008059, 733622163898008058, 1572220845315685892);
    lemma_fp_mul_is(p, 2093520362388135145, 1278637353010052768, 1160900080335232497, 435318323777805713);
    lemma_fp_mul_is(p, 1278637353010052768, 2093520362388135145, 1160900080335232497, 435318323777805713);
    lemma_fp_add_is(p, 1572220845315685893, 1572220845315685892, 1, 838598681417677834);
    lemma_fp_add_is(p, 435318323777805713, 435318323777805713, 0, 870636647555611426);
    lemma_f2_mul_is(t, F2 { c0: 2093520362388135145, c1: 1278637353010052768 }, F2 { c0: 2093520362388135145, c1: 1278637353010052768 }, 1572220845315685893, 733622163898008059, 1572220845315685892, 435318323777805713, 435318323777805713, F2 { c0: 838598681417677834, c1: 870636647555611426 });
    lemma_fp_mul_is(p, 2093520362388135145, 838598681417677834, 761380288425805328, 232933236765705002);
    lemma_fp_mul_is(p, 1278637353010052768, 870636647555611426, 482785919950235775, 1860587125622430143);
    lemma_fp_mul_is(p, 2305843009213693950, 1860587125622430143, 1860587125622430142, 445255883591263808);
    lemma_fp_mul_is(p, 2093520362388135145, 870636647555611426, 790468189992069168, 1995696917218964002);
    lemma_fp_mul_is(p, 1278637353010052768, 838598681417677834, 465020209078010178, 717059564208911234);
    lemma_fp_add_is(p, 232933236765705002, 445255883591263808, 0, 678189120356968810);
    lemma_fp_add_is(p, 1995696917218964002, 717059564208911234, 1, 406913472214181285);
    lemma_f2_mul_is(t, F2 { c0: 2093520362388135145, c1: 1278637353010052768 }, F2 { c0: 838598681417677834, c1: 870636647555611426 }, 232933236765705002, 1860587125622430143, 445255883591263808, 1995696917218964002, 717059564208911234, F2 { c0: 678189120356968810, c1: 406913472214181285 });
    lemma_fp_mul_is(p, 4, 678189120356968810, 1, 406913472214181289);
    lemma_fp_mul_is(p, 1, 406913472214181285, 0, 406913472214181285);
    lemma_fp_mul_is(p, 2305843009213693950, 406913472214181285, 406913472214181284, 1898929536999512666);
    lemma_fp_mul_is(p, 4, 406913472214181285, 0, 1627653888856725140);
    lemma_fp_mul_is(p, 1, 678189120356968810, 0, 678189120356968810);
    lemma_fp_add_is(p, 406913472214181289, 1898929536999512666, 1, 4);
    lemma_fp_add_is(p, 1627653888856725140, 678189120356968810, 0, 2305843009213693950);
    lemma_f2_mul_is(t, F2 { c0: 4, c1: 1 }, F2 { c0: 678189120356968810, c1: 406913472214181285 }, 406913472214181289, 406913472214181285, 1898929536999512666, 1627653888856725140, 678189120356968810, F2 { c0: 4, c1: 2305843009213693950 });
    lemma_fp_mul_is(p, 1, 2305843009213693950, 0, 2305843009213693950);
    lemma_fp_mul_is(p, 1106921589666616606, 1106921589666616606, 531378502688218864, 1046760181194067572);
    lemma_fp_mul_is(p, 1497760003622695683, 1497760003622695683, 972869800540684161, 1259082828019626378);
    lemma_fp_mul_is(p, 2305843009213693950, 1259082828019626378, 1259082828019626377, 1046760181194067573);
    lemma_fp_mul_is(p, 1106921589666616606, 1497760003622695683, 719000763505780214, 639318676505026384);
    lemma_fp_mul_is(p, 1497760003622695683, 1106921589666616606, 719000763505780214, 639318676505026384);
    lemma_fp_add_is(p, 1046760181194067572, 1046760181194067573, 0, 2093520362388135145);
    lemma_fp_add_is(p, 639318676505026384, 639318676505026384, 0, 1278637353010052768);
    lemma_f2_mul_is(t, F2 { c0: 1106921589666616606, c1: 1497760003622695683 }, F2 { c0: 1106921589666616606, c1: 1497760003622695683 }, 1046760181194067572, 1259082828019626378, 1046760181194067573, 639318676505026384, 639318676505026384, F2 { c0: 2093520362388135145, c1: 1278637353010052768 });
}

proof fn lemma_multiplicative_at_4()
    ensures
        frobenius_multiplicative(Mersenne61::tower(), 4),
{
    let t = Mersenne61::tower();
    let p = t.p;
    reveal(f2_nr);
    lemma_fp_mul_is(p, 1, 1, 0, 1);
    lemma_fp_mul_is(p, 1669582390241348315, 1669582390241348315, 1208887745898438090, 636260618972345635);
    lemma_fp_mul_is(p, 0, 0, 0, 0);
    lemma_fp_mul_is(p, 2305843009213693950, 0, 0, 0);
    lemma_fp_mul_is(p, 1669582390241348315, 0, 0, 0);
    lemma_fp_mul_is(p, 0, 1669582390241348315, 0, 0);
    lemma_fp_add_is(p, 636260618972345635, 0, 0, 636260618972345635);
    lemma_fp_add_is(p, 0, 0, 0, 0);
    lemma_f2_mul_is(t, F2 { c0: 1669582390241348315, c1: 0 }, F2 { c0: 1669582390241348315, c1: 0 }, 636260618972345635, 0, 0, 0, 0, F2 { c0: 636260618972345635, c1: 0 });
    lemma_fp_mul_is(p, 1669582390241348315, 636260618972345635, 460694644342910224, 1);
    lemma_fp_mul_is(p, 0, 636260618972345635, 0, 0);
    lemma_fp_add_is(p, 1, 0, 0, 1);
    lemma_f2_mul_is(t, F2 { c0: 1669582390241348315, c1: 0 }, F2 { c0: 636260618972345635, c1: 0 }, 1, 0, 0, 0, 0, F2 { c0: 1, c1: 0 });
    lemma_fp_mul_is(p, 4, 1, 0, 4);
    lemma_fp_mul_is(p, 1, 0, 0, 0);
    lemma_fp_mul_is(p, 4, 0, 0, 0);
    lemma_fp_add_is(p, 4, 0, 0, 4);
    lemma_fp_add_is(p, 0, 1, 0, 1);
    lemma_f2_mul_is(t, F2 { c0: 4, c1: 1 }, F2 { c0: 1, c1: 0 }, 4, 0, 0, 0, 1, F2 { c0: 4, c1: 1 });
    lemma_fp_mul_is(p, 636260618972345635, 636260618972345635, 175565974629435410, 1669582390241348315);
    lemma_fp_mul_is(p, 636260618972345635, 0, 0, 0);
    lemma_fp_add_is(p, 1669582390241348315, 0, 0, 1669582390241348315);
    lemma_f2_mul_is(t, F2 { c0: 636260618972345635, c1: 0 }, F2 { c0: 636260618972345635, c1: 0 }, 1669582390241348315, 0, 0, 0, 0, F2 { c0: 1669582390241348315, c1: 0 });
}

proof fn lemma_multiplicative_at_5()
    ensures
        frobenius_multiplicative(Mersenne61::tower(), 5),
{
    let t = Mersenne61::tower();
    let p = t.p;
    reveal(f2_nr);
    lemma_fp_mul_is(p, 2305843009213693950, 2305843009213693950, 2305843009213693949, 1);
    lemma_fp_mul_is(p, 741384404709786945, 741384404709786945, 238373052003362246, 147243909660459079);
    lemma_fp_mul_is(p, 1402963498244348811, 1402963498244348811, 853616906936446235, 1522338480580889236);
    lemma_fp_mul_is(p, 2305843009213693950, 1522338480580889236, 1522338480580889235, 783504528632804715);
    lemma_fp_mul_is(p, 741384404709786945, 1402963498244348811, 451086762550299994, 425898462120936101);
    lemma_fp_mul_is(p, 1402963498244348811, 741384404709786945, 451086762550299994, 425898462120936101);
    lemma_fp_add_is(p, 147243909660459079, 783504528632804715, 0, 930748438293263794);
    lemma_fp_add_is(p, 425898462120936101, 425898462120936101, 0, 851796924241872202);
    lemma_f2_mul_is(t, F2 { c0: 741384404709786945, c1: 1402963498244348811 }, F2 { c0: 741384404709786945, c1: 1402963498244348811 }, 147243909660459079, 1522338480580889236, 783504528632804715, 425898462120936101, 425898462120936101, F2 { c0: 930748438293263794, c1: 851796924241872202 });
    lemma_fp_mul_is(p, 741384404709786945, 930748438293263794, 299258177638868728, 232933236765705002);
    lemma_fp_mul_is(p, 1402963498244348811, 851796924241872202, 518265982485802129, 1860587125622430143);
    lemma_fp_mul_is(p, 2305843009213693950, 1860587125622430143, 1860587125622430142, 445255883591263808);
    lemma_fp_mul_is(p, 741384404709786945, 851796924241872202, 273873352647731288, 1995696917218964002);
    lemma_fp_mul_is(p, 1402963498244348811, 930748438293263794, 566303117669172700, 717059564208911234);
    lemma_fp_add_is(p, 232933236765705002, 445255883591263808, 0, 678189120356968810);
    lemma_fp_add_is(p, 1995696917218964002, 717059564208911234, 1, 406913472214181285);
    lemma_f2_mul_is(t, F2 { c0: 741384404709786945, c1: 1402963498244348811 }, F2 { c0: 930748438293263794, c1: 851796924241872202 }, 232933236765705002, 1860587125622430143, 445255883591263808, 1995696917218964002, 717059564208911234, F2 { c0: 678189120356968810, c1: 406913472214181285 });
    lemma_fp_mul_is(p, 4, 678189120356968810, 1, 406913472214181289);
    lemma_fp_mul_is(p, 1, 406913472214181285, 0, 406913472214181285);
    lemma_fp_mul_is(p, 2305843009213693950, 406913472214181285, 406913472214181284, 1898929536999512666);
    lemma_fp_mul_is(p, 4, 406913472214181285, 0, 1627653888856725140);
    lemma_fp_mul_is(p, 1, 678189120356968810, 0, 678189120356968810);
    lemma_fp_add_is(p, 406913472214181289, 1898929536999512666, 1, 4);
    lemma_fp_add_is(p, 1627653888856725140, 678189120356968810, 0, 2305843009213693950);
    lemma_f2_mul_is(t, F2 { c0: 4, c1: 1 }, F2 { c0: 678189120356968810, c1: 406913472214181285 }, 406913472214181289, 406913472214181285, 1898929536999512666, 1627653888856725140, 678189120356968810, F2 { c0: 4, c1: 2305843009213693950 });
    lemma_fp_mul_is(p, 1, 2305843009213693950, 0, 2305843009213693950);
    lemma_fp_mul_is(p, 222138363445728145, 222138363445728145, 21400178727333870, 52561892868720655);
    lemma_fp_mul_is(p, 1064243639278331461, 1064243639278331461, 491193250892919860, 1617020497372627661);
    lemma_fp_mul_is(p, 2305843009213693950, 1617020497372627661, 1617020497372627660, 688822511841066290);
    lemma_fp_mul_is(p, 222138363445728145, 1064243639278331461, 102526208155615664, 1854403253729021381);
    lemma_fp_mul_is(p, 1064243639278331461, 222138363445728145, 102526208155615664, 1854403253729021381);
    lemma_fp_add_is(p, 52561892868720655, 688822511841066290, 0, 741384404709786945);
    lemma_fp_add_is(p, 1854403253729021381, 1854403253729021381, 1, 1402963498244348811);
    lemma_f2_mul_is(t, F2 { c0: 222138363445728145, c1: 1064243639278331461 }, F2 { c0: 222138363445728145, c1: 1064243639278331461 }, 52561892868720655, 1617020497372627661, 688822511841066290, 1854403253729021381, 1854403253729021381, F2 { c0: 741384404709786945, c1: 1402963498244348811 });
}

proof fn lemma_multiplicative_at_6()
    ensures
        frobenius_multiplicative(Mersenne61::tower(), 6),
{
    let t = Mersenne61::tower();
    let p = t.p;
    reveal(f2_nr);
    lemma_fp_mul_is(p, 1, 1, 0, 1);
    lemma_fp_mul_is(p, 0, 0, 0, 0);
    lemma_fp_mul_is(p, 2305843009213693950, 0, 0, 0);
    lemma_fp_mul_is(p, 1, 0, 0, 0);
    lemma_fp_mul_is(p, 0, 1, 0, 0);
    lemma_fp_add_is(p, 1, 0, 0, 1);
    lemma_fp_add_is(p, 0, 0, 0, 0);
    lemma_f2_mul_is(t, F2 { c0: 1, c1: 0 }, F2 { c0: 1, c1: 0 }, 1, 0, 0, 0, 0, F2 { c0: 1, c1: 0 });
    lemma_fp_mul_is(p, 4, 1, 0, 4);
    lemma_fp_mul_is(p, 4, 0, 0, 0);
    lemma_fp_add_is(p, 4, 0, 0, 4);
    lemma_fp_add_is(p, 0, 1, 0, 1);
    lemma_f2_mul_is(t, F2 { c0: 4, c1: 1 }, F2 { c0: 1, c1: 0 }, 4, 0, 0, 0, 1, F2 { c0: 4, c1: 1 });
    lemma_fp_mul_is(p, 2305843009213693950, 2305843009213693950, 2305843009213693949, 1);
    lemma_fp_mul_is(p, 0, 2305843009213693950, 0, 0);
    lemma_f2_mul_is(t, F2 { c0: 2305843009213693950, c1: 0 }, F2 { c0: 2305843009213693950, c1: 0 }, 1, 0, 0, 0, 0, F2 { c0: 1, c1: 0 });
}

proof fn lemma_multiplicative_at_7()
    ensures
        frobenius_multiplicative(Mersenne61::tower(), 7),
{
    let t = Mersenne61::tower();
    let p = t.p;
    reveal(f2_nr);
    lemma_fp_mul_is(p, 2305843009213693950, 2305843009213693950, 2305843009213693949, 1);
    lemma_fp_mul_is(p, 1776781251329465812, 1776781251329465812, 1369109519798766115, 586378254237548979);
    lemma_fp_mul_is(p, 1930085167172986323, 1930085167172986323, 1615560442604242823, 49882364734796656);
    lemma_fp_mul_is(p, 2305843009213693950, 49882364734796656, 49882364734796655, 2255960644478897295);
    lemma_fp_mul_is(p, 1776781251329465812, 1930085167172986323, 1487238777661400589, 1444626223314952137);
    lemma_fp_mul_is(p, 1930085167172986323, 1776781251329465812, 1487238777661400589, 1444626223314952137);
    lemma_fp_add_is(p, 586378254237548979, 2255960644478897295, 1, 536495889502752323);
    lemma_fp_add_is(p, 1444626223314952137, 1444626223314952137, 1, 583409437416210323);
    lemma_f2_mul_is(t, F2 { c0: 1776781251329465812, c1: 1930085167172986323 }, F2 { c0: 1776781251329465812, c1: 1930085167172986323 }, 586378254237548979, 49882364734796656, 2255960644478897295, 1444626223314952137, 1444626223314952137, F2 { c0: 536495889502752323, c1: 583409437416210323 });
    lemma_fp_mul_is(p, 1776781251329465812, 536495889502752323, 413400146529868974, 232933236765705002);
    lemma_fp_mul_is(p, 1930085167172986323, 583409437416210323, 488337626215822486, 1860587125622430143);
    lemma_fp_mul_is(p, 2305843009213693950, 1860587125622430143, 1860587125622430142, 445255883591263808);
    lemma_fp_mul_is(p, 1776781251329465812, 583409437416210323, 449549664095855974, 1995696917218964002);
    lemma_fp_mul_is(p, 1930085167172986323, 536495889502752323, 449069062568854345, 717059564208911234);
    lemma_fp_add_is(p, 232933236765705002, 445255883591263808, 0, 678189120356968810);
    lemma_fp_add_is(p, 1995696917218964002, 717059564208911234, 1, 406913472214181285);
    lemma_f2_mul_is(t, F2 { c0: 1776781251329465812, c1: 1930085167172986323 }, F2 { c0: 536495889502752323, c1: 583409437416210323 }, 232933236765705002, 1860587125622430143, 445255883591263808, 1995696917218964002, 717059564208911234, F2 { c0: 678189120356968810, c1: 406913472214181285 });
    lemma_fp_mul_is(p, 4, 678189120356968810, 1, 406913472214181289);
    lemma_fp_mul_is(p, 1, 406913472214181285, 0, 406913472214181285);
    lemma_fp_mul_is(p, 2305843009213693950, 406913472214181285, 406913472214181284, 1898929536999512666);
    lemma_fp_mul_is(p, 4, 406913472214181285, 0, 1627653888856725140);
    lemma_fp_mul_is(p, 1, 678189120356968810, 0, 678189120356968810);
    lemma_fp_add_is(p, 406913472214181289, 1898929536999512666, 1, 4);
    lemma_fp_add_is(p, 1627653888856725140, 678189120356968810, 0, 2305843009213693950);
    lemma_f2_mul_is(t, F2 { c0: 4, c1: 1 }, F2 { c0: 678189120356968810, c1: 406913472214181285 }, 406913472214181289, 406913472214181285, 1898929536999512666, 1627653888856725140, 678189120356968810, F2 { c0: 4, c1: 2305843009213693950 });
    lemma_fp_mul_is(p, 1, 2305843009213693950, 0, 2305843009213693950);
    lemma_fp_mul_is(p, 1421059782992805490, 1421059782992805490, 875779876934549176, 1206520935150905724);
    lemma_fp_mul_is(p, 1872326644869329729, 1872326644869329729, 1520314718339421478, 1735582693035133863);
    lemma_fp_mul_is(p, 2305843009213693950, 1735582693035133863, 1735582693035133862, 570260316178560088);
    lemma_fp_mul_is(p, 1421059782992805490, 1872326644869329729, 1153889525443871223, 2117964088193340137);
    lemma_fp_mul_is(p, 1872326644869329729, 1421059782992805490, 1153889525443871223, 2117964088193340137);
    lemma_fp_add_is(p, 1206520935150905724, 570260316178560088, 0, 1776781251329465812);
    lemma_fp_add_is(p, 2117964088193340137, 2117964088193340137, 1, 1930085167172986323);
    lemma_f2_mul_is(t, F2 { c0: 1421059782992805490, c1: 1872326644869329729 }, F2 { c0: 1421059782992805490, c1: 1872326644869329729 }, 1206520935150905724, 1735582693035133863, 570260316178560088, 2117964088193340137, 2117964088193340137, F2 { c0: 1776781251329465812, c1: 1930085167172986323 });
}

proof fn lemma_multiplicative_at_8()
    ensures
        frobenius_multiplicative(Mersenne61::tower(), 8),
{
    let t = Mersenne61::tower();
    let p = t.p;
    reveal(f2_nr);
    lemma_fp_mul_is(p, 1, 1, 0, 1);
    lemma_fp_mul_is(p, 636260618972345635, 636260618972345635, 175565974629435410, 1669582390241348315);
    lemma_fp_mul_is(p, 0, 0, 0, 0);
    lemma_fp_mul_is(p, 2305843009213693950, 0, 0, 0);
    lemma_fp_mul_is(p, 636260618972345635, 0, 0, 0);
    lemma_fp_mul_is(p, 0, 636260618972345635, 0, 0);
    lemma_fp_add_is(p, 1669582390241348315, 0, 0, 1669582390241348315);
    lemma_fp_add_is(p, 0, 0, 0, 0);
    lemma_f2_mul_is(t, F2 { c0: 636260618972345635, c1: 0 }, F2 { c0: 636260618972345635, c1: 0 }, 1669582390241348315, 0, 0, 0, 0, F2 { c0: 1669582390241348315, c1: 0 });
    lemma_fp_mul_is(p, 636260618972345635, 1669582390241348315, 460694644342910224, 1);
    lemma_fp_mul_is(p, 0, 1669582390241348315, 0, 0);
    lemma_fp_add_is(p, 1, 0, 0, 1);
    lemma_f2_mul_is(t, F2 { c0: 636260618972345635, c1: 0 }, F2 { c0: 1669582390241348315, c1: 0 }, 1, 0, 0, 0, 0, F2 { c0: 1, c1: 0 });
    lemma_fp_mul_is(p, 4, 1, 0, 4);
    lemma_fp_mul_is(p, 1, 0, 0, 0);
    lemma_fp_mul_is(p, 4, 0, 0, 0);
    lemma_fp_add_is(p, 4, 0, 0, 4);
    lemma_fp_add_is(p, 0, 1, 0, 1);
    lemma_f2_mul_is(t, F2 { c0: 4, c1: 1 }, F2 { c0: 1, c1: 0 }, 4, 0, 0, 0, 1, F2 { c0: 4, c1: 1 });
    lemma_fp_mul_is(p, 1669582390241348315, 1669582390241348315, 1208887745898438090, 636260618972345635);
    lemma_fp_mul_is(p, 1669582390241348315, 0, 0, 0);
    lemma_fp_add_is(p, 636260618972345635, 0, 0, 636260618972345635);
    lemma_f2_mul_is(t, F2 { c0: 1669582390241348315, c1: 0 }, F2 { c0: 1669582390241348315, c1: 0 }, 636260618972345635, 0, 0, 0, 0, F2 { c0: 636260618972345635, c1: 0 });
}

proof fn lemma_multiplicative_at_9()
    ensures
        frobenius_multiplicative(Mersenne61::tower(), 9),
{
    let t = Mersenne61::tower();
    let p = t.p;
    reveal(f2_nr);
    lemma_fp_mul_is(p, 2305843009213693950, 2305843009213693950, 2305843009213693949, 1);
    lemma_fp_mul_is(p, 2093520362388135145, 2093520362388135145, 1900748442205663732, 1572220845315685893);
    lemma_fp_mul_is(p, 1278637353010052768, 1278637353010052768, 709030698959019515, 733622163898008059);
    lemma_fp_mul_is(p, 2305843009213693950, 733622163898008059, 733622163898008058, 1572220845315685892);
    lemma_fp_mul_is(p, 2093520362388135145, 1278637353010052768, 1160900080335232497, 435318323777805713);
    lemma_fp_mul_is(p, 1278637353010052768, 2093520362388135145, 1160900080335232497, 435318323777805713);
    lemma_fp_add_is(p, 1572220845315685893, 1572220845315685892, 1, 838598681417677834);
    lemma_fp_add_is(p, 435318323777805713, 435318323777805713, 0, 870636647555611426);
    lemma_f2_mul_is(t, F2 { c0: 2093520362388135145, c1: 1278637353010052768 }, F2 { c0: 2093520362388135145, c1: 1278637353010052768 }, 1572220845315685893, 733622163898008059, 1572220845315685892, 435318323777805713, 435318323777805713, F2 { c0: 838598681417677834, c1: 870636647555611426 });
    lemma_fp_mul_is(p, 2093520362388135145, 838598681417677834, 761380288425805328, 232933236765705002);
    lemma_fp_mul_is(p, 1278637353010052768, 870636647555611426, 482785919950235775, 1860587125622430143);
    lemma_fp_mul_is(p, 2305843009213693950, 1860587125622430143, 1860587125622430142, 445255883591263808);
    lemma_fp_mul_is(p, 2093520362388135145, 870636647555611426, 790468189992069168, 1995696917218964002);
    lemma_fp_mul_is(p, 1278637353010052768, 838598681417677834, 465020209078010178, 717059564208911234);
    lemma_fp_add_is(p, 232933236765705002, 445255883591263808, 0, 678189120356968810);
    lemma_fp_add_is(p, 1995696917218964002, 717059564208911234, 1, 406913472214181285);
    lemma_f2_mul_is(t, F2 { c0: 2093520362388135145, c1: 1278637353010052768 }, F2 { c0: 838598681417677834, c1: 870636647555611426 }, 232933236765705002, 1860587125622430143, 445255883591263808, 1995696917218964002, 717059564208911234, F2 { c0: 678189120356968810, c1: 406913472214181285 });
    lemma_fp_mul_is(p, 4, 678189120356968810, 1, 406913472214181289);
    lemma_fp_mul_is(p, 1, 406913472214181285, 0, 406913472214181285);
    lemma_fp_mul_is(p, 2305843009213693950, 406913472214181285, 406913472214181284, 1898929536999512666);
    lemma_fp_mul_is(p, 4, 406913472214181285, 0, 1627653888856725140);
    lemma_fp_mul_is(p, 1, 678189120356968810, 0, 678189120356968810);
    lemma_fp_add_is(p, 406913472214181289, 1898929536999512666, 1, 4);
    lemma_fp_add_is(p, 1627653888856725140, 678189120356968810, 0, 2305843009213693950);
    lemma_f2_mul_is(t, F2 { c0: 4, c1: 1 }, F2 { c0: 678189120356968810, c1: 406913472214181285 }, 406913472214181289, 406913472214181285, 1898929536999512666, 1627653888856725140, 678189120356968810, F2 { c0: 4, c1: 2305843009213693950 });
    lemma_fp_mul_is(p, 1, 2305843009213693950, 0, 2305843009213693950);
    lemma_fp_mul_is(p, 1198921419547077345, 1198921419547077345, 623378332568679603, 1046760181194067572);
    lemma_fp_mul_is(p, 808083005590998268, 808083005590998268, 283192802508986746, 1259082828019626378);
    lemma_fp_mul_is(p, 2305843009213693950, 1259082828019626378, 1259082828019626377, 1046760181194067573);
    lemma_fp_mul_is(p, 1198921419547077345, 808083005590998268, 420162179430161876, 639318676505026384);
    lemma_fp_mul_is(p, 808083005590998268, 1198921419547077345, 420162179430161876, 639318676505026384);
    lemma_fp_add_is(p, 1046760181194067572, 1046760181194067573, 0, 2093520362388135145);
    lemma_fp_add_is(p, 639318676505026384, 639318676505026384, 0, 1278637353010052768);
    lemma_f2_mul_is(t, F2 { c0: 1198921419547077345, c1: 808083005590998268 }, F2 { c0: 1198921419547077345, c1: 808083005590998268 }, 1046760181194067572, 1259082828019626378, 1046760181194067573, 639318676505026384, 639318676505026384, F2 { c0: 2093520362388135145, c1: 1278637353010052768 });
}

proof fn lemma_multiplicative_at_10()
    ensures
        frobenius_multiplicative(Mersenne61::tower(), 10),
{
    let t = Mersenne61::tower();
    let p = t.p;
    reveal(f2_nr);
    lemma_fp_mul_is(p, 1, 1, 0, 1);
    lemma_fp_mul_is(p, 1669582390241348315, 1669582390241348315, 1208887745898438090, 636260618972345635);
    lemma_fp_mul_is(p, 0, 0, 0, 0);
    lemma_fp_mul_is(p, 2305843009213693950, 0, 0, 0);
    lemma_fp_mul_is(p, 1669582390241348315, 0, 0, 0);
    lemma_fp_mul_is(p, 0, 1669582390241348315, 0, 0);
    lemma_fp_add_is(p, 636260618972345635, 0, 0, 636260618972345635);
    lemma_fp_add_is(p, 0, 0, 0, 0);
    lemma_f2_mul_is(t, F2 { c0: 1669582390241348315, c1: 0 }, F2 { c0: 1669582390241348315, c1: 0 }, 636260618972345635, 0, 0, 0, 0, F2 { c0: 636260618972345635, c1: 0 });
    lemma_fp_mul_is(p, 1669582390241348315, 636260618972345635, 460694644342910224, 1);
    lemma_fp_mul_is(p, 0, 636260618972345635, 0, 0);
    lemma_fp_add_is(p, 1, 0, 0, 1);
    lemma_f2_mul_is(t, F2 { c0: 1669582390241348315, c1: 0 }, F2 { c0: 636260618972345635, c1: 0 }, 1, 0, 0, 0, 0, F2 { c0: 1, c1: 0 });
    lemma_fp_mul_is(p, 4, 1, 0, 4);
    lemma_fp_mul_is(p, 1, 0, 0, 0);
    lemma_fp_mul_is(p, 4, 0, 0, 0);
    lemma_fp_add_is(p, 4, 0, 0, 4);
    lemma_fp_add_is(p, 0, 1, 0, 1);
    lemma_f2_mul_is(t, F2 { c0: 4, c1: 1 }, F2 { c0: 1, c1: 0 }, 4, 0, 0, 0, 1, F2 { c0: 4, c1: 1 });
    lemma_fp_mul_is(p, 1669582390241348316, 1669582390241348316, 1208887745898438091, 1669582390241348315);
    lemma_fp_mul_is(p, 1669582390241348316, 0, 0, 0);
    lemma_fp_mul_is(p, 0, 1669582390241348316, 0, 0);
    lemma_fp_add_is(p, 1669582390241348315, 0, 0, 1669582390241348315);
    lemma_f2_mul_is(t, F2 { c0: 1669582390241348316, c1: 0 }, F2 { c0: 1669582390241348316, c1: 0 }, 1669582390241348315, 0, 0, 0, 0, F2 { c0: 1669582390241348315, c1: 0 });
}

proof fn lemma_multiplicative_at_11()
    ensures
        frobenius_multiplicative(Mersenne61::tower(), 11),
{
    let t = Mersenne61::tower();
    let p = t.p;
    reveal(f2_nr);
    lemma_fp_mul_is(p, 2305843009213693950, 2305843009213693950, 2305843009213693949, 1);
    lemma_fp_mul_is(p, 741384404709786945, 741384404709786945, 238373052003362246, 147243909660459079);
    lemma_fp_mul_is(p, 1402963498244348811, 1402963498244348811, 853616906936446235, 1522338480580889236);
    lemma_fp_mul_is(p, 2305843009213693950, 1522338480580889236, 1522338480580889235, 783504528632804715);
    lemma_fp_mul_is(p, 741384404709786945, 1402963498244348811, 451086762550299994, 425898462120936101);
    lemma_fp_mul_is(p, 1402963498244348811, 741384404709786945, 451086762550299994, 425898462120936101);
    lemma_fp_add_is(p, 147243909660459079, 783504528632804715, 0, 930748438293263794);
    lemma_fp_add_is(p, 425898462120936101, 425898462120936101, 0, 851796924241872202);
    lemma_f2_mul_is(t, F2 { c0: 741384404709786945, c1: 1402963498244348811 }, F2 { c0: 741384404709786945, c1: 1402963498244348811 }, 147243909660459079, 1522338480580889236, 783504528632804715, 425898462120936101, 425898462120936101, F2 { c0: 930748438293263794, c1: 851796924241872202 });
    lemma_fp_mul_is(p, 741384404709786945, 930748438293263794, 299258177638868728, 232933236765705002);
    lemma_fp_mul_is(p, 1402963498244348811, 851796924241872202, 518265982485802129, 1860587125622430143);
    lemma_fp_mul_is(p, 2305843009213693950, 1860587125622430143, 1860587125622430142, 445255883591263808);
    lemma_fp_mul_is(p, 741384404709786945, 851796924241872202, 273873352647731288, 1995696917218964002);
    lemma_fp_mul_is(p, 1402963498244348811, 930748438293263794, 566303117669172700, 717059564208911234);
    lemma_fp_add_is(p, 232933236765705002, 445255883591263808, 0, 678189120356968810);
    lemma_fp_add_is(p, 1995696917218964002, 717059564208911234, 1, 406913472214181285);
    lemma_f2_mul_is(t, F2 { c0: 741384404709786945, c1: 1402963498244348811 }, F2 { c0: 930748438293263794, c1: 851796924241872202 }, 232933236765705002, 1860587125622430143, 445255883591263808, 1995696917218964002, 717059564208911234, F2 { c0: 678189120356968810, c1: 406913472214181285 });
    lemma_fp_mul_is(p, 4, 678189120356968810, 1, 406913472214181289);
    lemma_fp_mul_is(p, 1, 406913472214181285, 0, 406913472214181285);
    lemma_fp_mul_is(p, 2305843009213693950, 406913472214181285, 406913472214181284, 1898929536999512666);
    lemma_fp_mul_is(p, 4, 406913472214181285, 0, 1627653888856725140);
    lemma_fp_mul_is(p, 1, 678189120356968810, 0, 678189120356968810);
    lemma_fp_add_is(p, 406913472214181289, 1898929536999512666, 1, 4);
    lemma_fp_add_is(p, 1627653888856725140, 678189120356968810, 0, 2305843009213693950);
    lemma_f2_mul_is(t, F2 { c0: 4, c1: 1 }, F2 { c0: 678189120356968810, c1: 406913472214181285 }, 406913472214181289, 406913472214181285, 1898929536999512666, 1627653888856725140, 678189120356968810, F2 { c0: 4, c1: 2305843009213693950 });
    lemma_fp_mul_is(p, 1, 2305843009213693950, 0, 2305843009213693950);
    lemma_fp_mul_is(p, 2083704645767965806, 2083704645767965806, 1882966461049571531, 52561892868720655);
    lemma_fp_mul_is(p, 1241599369935362490, 1241599369935362490, 668548981549950889, 1617020497372627661);
    lemma_fp_mul_is(p, 2305843009213693950, 1617020497372627661, 1617020497372627660, 688822511841066290);
    lemma_fp_mul_is(p, 2083704645767965806, 1241599369935362490, 1121987214645250009, 1854403253729021381);
    lemma_fp_mul_is(p, 1241599369935362490, 2083704645767965806, 1121987214645250009, 1854403253729021381);
    lemma_fp_add_is(p, 52561892868720655, 688822511841066290, 0, 741384404709786945);
    lemma_fp_add_is(p, 1854403253729021381, 1854403253729021381, 1, 1402963498244348811);
    lemma_f2_mul_is(t, F2 { c0: 2083704645767965806, c1: 1241599369935362490 }, F2 { c0: 2083704645767965806, c1: 1241599369935362490 }, 52561892868720655, 1617020497372627661, 688822511841066290, 1854403253729021381, 1854403253729021381, F2 { c0: 741384404709786945, c1: 1402963498244348811 });
}

proof fn lemma_chain_one_at_0()
    ensures
        frobenius_chain(Mersenne61::tower(), 1, 0),
{
    let t = Mersenne61::tower();
    let p = t.p;
    lemma_fp_mul_is(p, 2305843009213693950, 2305843009213693950, 2305843009213693949, 1);
    lemma_fp_mul_is(p, 1, 2305843009213693950, 0, 2305843009213693950);
    lemma_fp_mul_is(p, 0, 2305843009213693950, 0, 0);
    lemma_fp_mul_is(p, 1, 1776781251329465812, 0, 1776781251329465812);
    lemma_fp_mul_is(p, 0, 1930085167172986323, 0, 0);
    lemma_fp_mul_is(p, 2305843009213693950, 0, 0, 0);
    lemma_fp_mul_is(p, 1, 1930085167172986323, 0, 1930085167172986323);
    lemma_fp_mul_is(p, 0, 1776781251329465812, 0, 0);
    lemma_fp_add_is(p, 1776781251329465812, 0, 0, 1776781251329465812);
    lemma_fp_add_is(p, 1930085167172986323, 0, 0, 1930085167172986323);
    lemma_f2_mul_is(t, F2 { c0: 1, c1: 0 }, F2 { c0: 1776781251329465812, c1: 1930085167172986323 }, 1776781251329465812, 0, 0, 1930085167172986323, 0, F2 { c0: 1776781251329465812, c1: 1930085167172986323 });
    lemma_fp_mul_is(p, 1, 536495889502752323, 0, 536495889502752323);
    lemma_fp_mul_is(p, 0, 583409437416210323, 0, 0);
    lemma_fp_mul_is(p, 1, 583409437416210323, 0, 583409437416210323);
    lemma_fp_mul_is(p, 0, 536495889502752323, 0, 0);
    lemma_fp_add_is(p, 536495889502752323, 0, 0, 536495889502752323);
    lemma_fp_add_is(p, 583409437416210323, 0, 0, 583409437416210323);
    lemma_f2_mul_is(t, F2 { c0: 1, c1: 0 }, F2 { c0: 536495889502752323, c1: 583409437416210323 }, 536495889502752323, 0, 0, 583409437416210323, 0, F2 { c0: 536495889502752323, c1: 583409437416210323 });
    lemma_fp_mul_is(p, 1, 884783226220888461, 0, 884783226220888461);
    lemma_fp_mul_is(p, 0, 433516364344364222, 0, 0);
    lemma_fp_mul_is(p, 1, 433516364344364222, 0, 433516364344364222);
    lemma_fp_mul_is(p, 0, 884783226220888461, 0, 0);
    lemma_fp_add_is(p, 884783226220888461, 0, 0, 884783226220888461);
    lemma_fp_add_is(p, 433516364344364222, 0, 0, 433516364344364222);
    lemma_f2_mul_is(t, F2 { c0: 1, c1: 0 }, F2 { c0: 884783226220888461, c1: 433516364344364222 }, 884783226220888461, 0, 0, 433516364344364222, 0, F2 { c0: 884783226220888461, c1: 433516364344364222 });
}

proof fn lemma_chain_one_at_1()
    ensures
        frobenius_chain(Mersenne61::tower(), 1, 1),
{
    let t = Mersenne61::tower();
    let p = t.p;
    lemma_fp_mul_is(p, 2305843009213693950, 2305843009213693950, 2305843009213693949, 1);
    lemma_fp_mul_is(p, 1930085167172986323, 2305843009213693950, 1930085167172986322, 375757842040707628);
    lemma_fp_mul_is(p, 1776781251329465812, 1776781251329465812, 1369109519798766115, 586378254237548979);
    lemma_fp_mul_is(p, 375757842040707628, 1930085167172986323, 314524724568743499, 2255960644478897295);
    lemma_fp_mul_is(p, 2305843009213693950, 2255960644478897295, 2255960644478897294, 49882364734796656);
    lemma_fp_mul_is(p, 1776781251329465812, 1930085167172986323, 1487238777661400589, 1444626223314952137);
    lemma_fp_mul_is(p, 375757842040707628, 1776781251329465812, 289542473668065222, 861216785898741814);
    lemma_fp_add_is(p, 586378254237548979, 49882364734796656, 0, 636260618972345635);
    lemma_fp_add_is(p, 1444626223314952137, 861216785898741814, 1, 0);
    lemma_f2_mul_is(t, F2 { c0: 1776781251329465812, c1: 375757842040707628 }, F2 { c0: 1776781251329465812, c1: 1930085167172986323 }, 586378254237548979, 2255960644478897295, 49882364734796656, 1444626223314952137, 861216785898741814, F2 { c0: 636260618972345635, c1: 0 });
    lemma_fp_mul_is(p, 583409437416210323, 2305843009213693950, 583409437416210322, 1722433571797483628);
    lemma_fp_mul_is(p, 536495889502752323, 536495889502752323, 124825427534852174, 2140621875018896855);
    lemma_fp_mul_is(p, 1722433571797483628, 583409437416210323, 435798966839392504, 471039484777548540);
    lemma_fp_mul_is(p, 2305843009213693950, 471039484777548540, 471039484777548539, 1834803524436145411);
    lemma_fp_mul_is(p, 536495889502752323, 583409437416210323, 135740709068326299, 1857639137954312980);
    lemma_fp_mul_is(p, 1722433571797483628, 536495889502752323, 400755180434426023, 448203871259380971);
    lemma_fp_add_is(p, 2140621875018896855, 1834803524436145411, 1, 1669582390241348315);
    lemma_fp_add_is(p, 1857639137954312980, 448203871259380971, 1, 0);
    lemma_f2_mul_is(t, F2 { c0: 536495889502752323, c1: 1722433571797483628 }, F2 { c0: 536495889502752323, c1: 583409437416210323 }, 2140621875018896855, 471039484777548540, 1834803524436145411, 1857639137954312980, 448203871259380971, F2 { c0: 1669582390241348315, c1: 0 });
    lemma_fp_mul_is(p, 433516364344364222, 2305843009213693950, 433516364344364221, 1872326644869329729);
    lemma_fp_mul_is(p, 884783226220888461, 884783226220888461, 339503320162632147, 1206520935150905724);
    lemma_fp_mul_is(p, 1872326644869329729, 433516364344364222, 352011926529908250, 570260316178560088);
    lemma_fp_mul_is(p, 2305843009213693950, 570260316178560088, 570260316178560087, 1735582693035133863);
    lemma_fp_mul_is(p, 884783226220888461, 433516364344364222, 166346106795429955, 2117964088193340137);
    lemma_fp_mul_is(p, 1872326644869329729, 884783226220888461, 718437119425458505, 187878921020353814);
    lemma_fp_add_is(p, 1206520935150905724, 1735582693035133863, 1, 636260618972345636);
    lemma_fp_add_is(p, 2117964088193340137, 187878921020353814, 1, 0);
    lemma_f2_mul_is(t, F2 { c0: 884783226220888461, c1: 1872326644869329729 }, F2 { c0: 884783226220888461, c1: 433516364344364222 }, 1206520935150905724, 570260316178560088, 1735582693035133863, 2117964088193340137, 187878921020353814, F2 { c0: 636260618972345636, c1: 0 });
}

proof fn lemma_chain_one_at_2()
    ensures
        frobenius_chain(Mersenne61::tower(), 1, 2),
{
    let t = Mersenne61::tower();
    let p = t.p;
    lemma_fp_mul_is(p, 2305843009213693950, 2305843009213693950, 2305843009213693949, 1);
    lemma_fp_mul_is(p, 1, 2305843009213693950, 0, 2305843009213693950);
    lemma_fp_mul_is(p, 0, 2305843009213693950, 0, 0);
    lemma_fp_mul_is(p, 636260618972345635, 1776781251329465812, 490274461111231725, 2093520362388135145);
    lemma_fp_mul_is(p, 0, 1930085167172986323, 0, 0);
    lemma_fp_mul_is(p, 2305843009213693950, 0, 0, 0);
    lemma_fp_mul_is(p, 636260618972345635, 1930085167172986323, 532576232739103687, 1278637353010052768);
    lemma_fp_mul_is(p, 0, 1776781251329465812, 0, 0);
    lemma_fp_add_is(p, 2093520362388135145, 0, 0, 2093520362388135145);
    lemma_fp_add_is(p, 1278637353010052768, 0, 0, 1278637353010052768);
    lemma_f2_mul_is(t, F2 { c0: 636260618972345635, c1: 0 }, F2 { c0: 1776781251329465812, c1: 1930085167172986323 }, 2093520362388135145, 0, 0, 1278637353010052768, 0, F2 { c0: 2093520362388135145, c1: 1278637353010052768 });
    lemma_fp_mul_is(p, 1669582390241348315, 536495889502752323, 388458401535371961, 838598681417677834);
    lemma_fp_mul_is(p, 0, 583409437416210323, 0, 0);
    lemma_fp_mul_is(p, 1669582390241348315, 583409437416210323, 422426903791196769, 870636647555611426);
    lemma_fp_mul_is(p, 0, 536495889502752323, 0, 0);
    lemma_fp_add_is(p, 838598681417677834, 0, 0, 838598681417677834);
    lemma_fp_add_is(p, 870636647555611426, 0, 0, 870636647555611426);
    lemma_f2_mul_is(t, F2 { c0: 1669582390241348315, c1: 0 }, F2 { c0: 536495889502752323, c1: 583409437416210323 }, 838598681417677834, 0, 0, 870636647555611426, 0, F2 { c0: 838598681417677834, c1: 870636647555611426 });
    lemma_fp_mul_is(p, 636260618972345636, 884783226220888461, 244141826187734090, 1106921589666616606);
    lemma_fp_mul_is(p, 0, 433516364344364222, 0, 0);
    lemma_fp_mul_is(p, 636260618972345636, 433516364344364222, 119621929684816459, 1497760003622695683);
    lemma_fp_mul_is(p, 0, 884783226220888461, 0, 0);
    lemma_fp_add_is(p, 1106921589666616606, 0, 0, 1106921589666616606);
    lemma_fp_add_is(p, 1497760003622695683, 0, 0, 1497760003622695683);
    lemma_f2_mul_is(t, F2 { c0: 636260618972345636, c1: 0 }, F2 { c0: 884783226220888461, c1: 433516364344364222 }, 1106921589666616606, 0, 0, 1497760003622695683, 0, F2 { c0: 1106921589666616606, c1: 1497760003622695683 });
}

proof fn lemma_chain_one_at_3()
    ensures
        frobenius_chain(Mersenne61::tower(), 1, 3),
{
    let t = Mersenne61::tower();
    let p = t.p;
    lemma_fp_mul_is(p, 2305843009213693950, 2305843009213693950, 2305843009213693949, 1);
    lemma_fp_mul_is(p, 1278637353010052768, 2305843009213693950, 1278637353010052767, 1027205656203641183);
    lemma_fp_mul_is(p, 2093520362388135145, 1776781251329465812, 1613174754007280211, 147243909660459079);
    lemma_fp_mul_is(p, 1027205656203641183, 1930085167172986323, 859813262547704094, 783504528632804715);
    lemma_fp_mul_is(p, 2305843009213693950, 783504528632804715, 783504528632804714, 1522338480580889236);
    lemma_fp_mul_is(p, 2093520362388135145, 1930085167172986323, 1752362403890561434, 425898462120936101);
    lemma_fp_mul_is(p, 1027205656203641183, 1776781251329465812, 791519519719856046, 1879944547092757850);
    lemma_fp_add_is(p, 147243909660459079, 1522338480580889236, 0, 1669582390241348315);
    lemma_fp_add_is(p, 425898462120936101, 1879944547092757850, 1, 0);
    lemma_f2_mul_is(t, F2 { c0: 2093520362388135145, c1: 1027205656203641183 }, F2 { c0: 1776781251329465812, c1: 1930085167172986323 }, 147243909660459079, 783504528632804715, 1522338480580889236, 425898462120936101, 1879944547092757850, F2 { c0: 1669582390241348315, c1: 0 });
    lemma_fp_mul_is(p, 870636647555611426, 2305843009213693950, 870636647555611425, 1435206361658082525);
    lemma_fp_mul_is(p, 838598681417677834, 536495889502752323, 195115081003035177, 1789147667343994055);
    lemma_fp_mul_is(p, 1435206361658082525, 583409437416210323, 363126601718057405, 1152887048371648420);
    lemma_fp_mul_is(p, 2305843009213693950, 1152887048371648420, 1152887048371648419, 1152955960842045531);
    lemma_fp_mul_is(p, 838598681417677834, 583409437416210323, 212176797374726354, 241054359068995728);
    lemma_fp_mul_is(p, 1435206361658082525, 536495889502752323, 333926598879916952, 2064788650144698223);
    lemma_fp_add_is(p, 1789147667343994055, 1152955960842045531, 1, 636260618972345635);
    lemma_fp_add_is(p, 241054359068995728, 2064788650144698223, 1, 0);
    lemma_f2_mul_is(t, F2 { c0: 838598681417677834, c1: 1435206361658082525 }, F2 { c0: 536495889502752323, c1: 583409437416210323 }, 1789147667343994055, 1152887048371648420, 1152955960842045531, 241054359068995728, 2064788650144698223, F2 { c0: 636260618972345635, c1: 0 });
    lemma_fp_mul_is(p, 1497760003622695683, 2305843009213693950, 1497760003622695682, 808083005590998268);
    lemma_fp_mul_is(p, 1106921589666616606, 884783226220888461, 424740822061758570, 2253281116344973296);
    lemma_fp_mul_is(p, 808083005590998268, 433516364344364222, 151925870613254085, 1617020497372627661);
    lemma_fp_mul_is(p, 2305843009213693950, 1617020497372627661, 1617020497372627660, 688822511841066290);
    lemma_fp_mul_is(p, 1106921589666616606, 433516364344364222, 208109841497923062, 451439755484672570);
    lemma_fp_mul_is(p, 808083005590998268, 884783226220888461, 310072405573217017, 1854403253729021381);
    lemma_fp_add_is(p, 2253281116344973296, 688822511841066290, 1, 636260618972345635);
    lemma_fp_add_is(p, 451439755484672570, 1854403253729021381, 1, 0);
    lemma_f2_mul_is(t, F2 { c0: 1106921589666616606, c1: 808083005590998268 }, F2 { c0: 884783226220888461, c1: 433516364344364222 }, 2253281116344973296, 1617020497372627661, 688822511841066290, 451439755484672570, 1854403253729021381, F2 { c0: 636260618972345635, c1: 0 });
}

proof fn lemma_chain_one_at_4()
    ensures
        frobenius_chain(Mersenne61::tower(), 1, 4),
{
    let t = Mersenne61::tower();
    let p = t.p;
    lemma_fp_mul_is(p, 2305843009213693950, 2305843009213693950, 2305843009213693949, 1);
    lemma_fp_mul_is(p, 1, 2305843009213693950, 0, 2305843009213693950);
    lemma_fp_mul_is(p, 0, 2305843009213693950, 0, 0);
    lemma_fp_mul_is(p, 1669582390241348315, 1776781251329465812, 1286506790218234085, 741384404709786945);
    lemma_fp_mul_is(p, 0, 1930085167172986323, 0, 0);
    lemma_fp_mul_is(p, 2305843009213693950, 0, 0, 0);
    lemma_fp_mul_is(p, 1669582390241348315, 1930085167172986323, 1397508934433882634, 1402963498244348811);
    lemma_fp_mul_is(p, 0, 1776781251329465812, 0, 0);
    lemma_fp_add_is(p, 741384404709786945, 0, 0, 741384404709786945);
    lemma_fp_add_is(p, 1402963498244348811, 0, 0, 1402963498244348811);
    lemma_f2_mul_is(t, F2 { c0: 1669582390241348315, c1: 0 }, F2 { c0: 1776781251329465812, c1: 1930085167172986323 }, 741384404709786945, 0, 0, 1402963498244348811, 0, F2 { c0: 741384404709786945, c1: 1402963498244348811 });
    lemma_fp_mul_is(p, 636260618972345635, 536495889502752323, 148037487967380361, 930748438293263794);
    lemma_fp_mul_is(p, 0, 583409437416210323, 0, 0);
    lemma_fp_mul_is(p, 636260618972345635, 583409437416210323, 160982533625013553, 851796924241872202);
    lemma_fp_mul_is(p, 0, 536495889502752323, 0, 0);
    lemma_fp_add_is(p, 930748438293263794, 0, 0, 930748438293263794);
    lemma_fp_add_is(p, 851796924241872202, 0, 0, 851796924241872202);
    lemma_f2_mul_is(t, F2 { c0: 636260618972345635, c1: 0 }, F2 { c0: 536495889502752323, c1: 583409437416210323 }, 930748438293263794, 0, 0, 851796924241872202, 0, F2 { c0: 930748438293263794, c1: 851796924241872202 });
    lemma_fp_mul_is(p, 636260618972345635, 884783226220888461, 244141826187734090, 222138363445728145);
    lemma_fp_mul_is(p, 0, 433516364344364222, 0, 0);
    lemma_fp_mul_is(p, 636260618972345635, 433516364344364222, 119621929684816459, 1064243639278331461);
    lemma_fp_mul_is(p, 0, 884783226220888461, 0, 0);
    lemma_fp_add_is(p, 222138363445728145, 0, 0, 222138363445728145);
    lemma_fp_add_is(p, 1064243639278331461, 0, 0, 1064243639278331461);
    lemma_f2_mul_is(t, F2 { c0: 636260618972345635, c1: 0 }, F2 { c0: 884783226220888461, c1: 433516364344364222 }, 222138363445728145, 0, 0, 1064243639278331461, 0, F2 { c0: 222138363445728145, c1: 1064243639278331461 });
}

proof fn lemma_chain_one_at_5()
    ensures
        frobenius_chain(Mersenne61::tower(), 1, 5),
{
    let t = Mersenne61::tower();
    let p = t.p;
    lemma_fp_mul_is(p, 2305843009213693950, 2305843009213693950, 2305843009213693949, 1);
    lemma_fp_mul_is(p, 1402963498244348811, 2305843009213693950, 1402963498244348810, 902879510969345140);
    lemma_fp_mul_is(p, 741384404709786945, 1776781251329465812, 571278228852885297, 1572220845315685893);
    lemma_fp_mul_is(p, 902879510969345140, 1930085167172986323, 755747180056538728, 1572220845315685892);
    lemma_fp_mul_is(p, 2305843009213693950, 1572220845315685892, 1572220845315685891, 733622163898008059);
    lemma_fp_mul_is(p, 741384404709786945, 1930085167172986323, 620569152794010622, 435318323777805713);
    lemma_fp_mul_is(p, 902879510969345140, 1776781251329465812, 695719257941544542, 1870524685435888238);
    lemma_fp_add_is(p, 1572220845315685893, 733622163898008059, 1, 1);
    lemma_fp_add_is(p, 435318323777805713, 1870524685435888238, 1, 0);
    lemma_f2_mul_is(t, F2 { c0: 741384404709786945, c1: 902879510969345140 }, F2 { c0: 1776781251329465812, c1: 1930085167172986323 }, 1572220845315685893, 1572220845315685892, 733622163898008059, 435318323777805713, 1870524685435888238, F2 { c0: 1, c1: 0 });
    lemma_fp_mul_is(p, 851796924241872202, 2305843009213693950, 851796924241872201, 1454046084971821749);
    lemma_fp_mul_is(p, 930748438293263794, 536495889502752323, 216555380964864970, 681916476064496992);
    lemma_fp_mul_is(p, 1454046084971821749, 583409437416210323, 367893306274970736, 681916476064496991);
    lemma_fp_mul_is(p, 2305843009213693950, 681916476064496991, 681916476064496990, 1623926533149196960);
    lemma_fp_mul_is(p, 930748438293263794, 583409437416210323, 235491930973157669, 207149512190385243);
    lemma_fp_mul_is(p, 1454046084971821749, 536495889502752323, 338309999691161669, 2098693497023308708);
    lemma_fp_add_is(p, 681916476064496992, 1623926533149196960, 1, 1);
    lemma_fp_add_is(p, 207149512190385243, 2098693497023308708, 1, 0);
    lemma_f2_mul_is(t, F2 { c0: 930748438293263794, c1: 1454046084971821749 }, F2 { c0: 536495889502752323, c1: 583409437416210323 }, 681916476064496992, 681916476064496991, 1623926533149196960, 207149512190385243, 2098693497023308708, F2 { c0: 1, c1: 0 });
    lemma_fp_mul_is(p, 1064243639278331461, 2305843009213693950, 1064243639278331460, 1241599369935362490);
    lemma_fp_mul_is(p, 222138363445728145, 884783226220888461, 85237501899126423, 1046760181194067572);
    lemma_fp_mul_is(p, 1241599369935362490, 433516364344364222, 233430308427710057, 1046760181194067573);
    lemma_fp_mul_is(p, 2305843009213693950, 1046760181194067573, 1046760181194067572, 1259082828019626378);
    lemma_fp_mul_is(p, 222138363445728145, 433516364344364222, 41763734702493106, 639318676505026384);
    lemma_fp_mul_is(p, 1241599369935362490, 884783226220888461, 476418512368646973, 1666524332708667567);
    lemma_fp_add_is(p, 1046760181194067572, 1259082828019626378, 0, 2305843009213693950);
    lemma_fp_add_is(p, 639318676505026384, 1666524332708667567, 1, 0);
    lemma_f2_mul_is(t, F2 { c0: 222138363445728145, c1: 1241599369935362490 }, F2 { c0: 884783226220888461, c1: 433516364344364222 }, 1046760181194067572, 1046760181194067573, 1259082828019626378, 639318676505026384, 1666524332708667567, F2 { c0: 2305843009213693950, c1: 0 });
}

proof fn lemma_chain_one_at_6()
    ensures
        frobenius_chain(Mersenne61::tower(), 1, 6),
{
    let t = Mersenne61::tower();
    let p = t.p;
    lemma_fp_mul_is(p, 2305843009213693950, 2305843009213693950, 2305843009213693949, 1);
    lemma_fp_mul_is(p, 1, 2305843009213693950, 0, 2305843009213693950);
    lemma_fp_mul_is(p, 0, 2305843009213693950, 0, 0);
    lemma_fp_mul_is(p, 1, 1776781251329465812, 0, 1776781251329465812);
    lemma_fp_mul_is(p, 0, 1930085167172986323, 0, 0);
    lemma_fp_mul_is(p, 2305843009213693950, 0, 0, 0);
    lemma_fp_mul_is(p, 1, 1930085167172986323, 0, 1930085167172986323);
    lemma_fp_mul_is(p, 0, 1776781251329465812, 0, 0);
    lemma_fp_add_is(p, 1776781251329465812, 0, 0, 1776781251329465812);
    lemma_fp_add_is(p, 1930085167172986323, 0, 0, 1930085167172986323);
    lemma_f2_mul_is(t, F2 { c0: 1, c1: 0 }, F2 { c0: 1776781251329465812, c1: 1930085167172986323 }, 1776781251329465812, 0, 0, 1930085167172986323, 0, F2 { c0: 1776781251329465812, c1: 1930085167172986323 });
    lemma_fp_mul_is(p, 1, 536495889502752323, 0, 536495889502752323);
    lemma_fp_mul_is(p, 0, 583409437416210323, 0, 0);
    lemma_fp_mul_is(p, 1, 583409437416210323, 0, 583409437416210323);
    lemma_fp_mul_is(p, 0, 536495889502752323, 0, 0);
    lemma_fp_add_is(p, 536495889502752323, 0, 0, 536495889502752323);
    lemma_fp_add_is(p, 583409437416210323, 0, 0, 583409437416210323);
    lemma_f2_mul_is(t, F2 { c0: 1, c1: 0 }, F2 { c0: 536495889502752323, c1: 583409437416210323 }, 536495889502752323, 0, 0, 583409437416210323, 0, F2 { c0: 536495889502752323, c1: 583409437416210323 });
    lemma_fp_mul_is(p, 2305843009213693950, 884783226220888461, 884783226220888460, 1421059782992805490);
    lemma_fp_mul_is(p, 0, 433516364344364222, 0, 0);
    lemma_fp_mul_is(p, 2305843009213693950, 433516364344364222, 433516364344364221, 1872326644869329729);
    lemma_fp_mul_is(p, 0, 884783226220888461, 0, 0);
    lemma_fp_add_is(p, 1421059782992805490, 0, 0, 1421059782992805490);
    lemma_fp_add_is(p, 1872326644869329729, 0, 0, 1872326644869329729);
    lemma_f2_mul_is(t, F2 { c0: 2305843009213693950, c1: 0 }, F2 { c0: 884783226220888461, c1: 433516364344364222 }, 1421059782992805490, 0, 0, 1872326644869329729, 0, F2 { c0: 1421059782992805490, c1: 1872326644869329729 });
}

proof fn lemma_chain_one_at_7()
    ensures
        frobenius_chain(Mersenne61::tower(), 1, 7),
{
    let t = Mersenne61::tower();
    let p = t.p;
    lemma_fp_mul_is(p, 2305843009213693950, 2305843009213693950, 2305843009213693949, 1);
    lemma_fp_mul_is(p, 1930085167172986323, 2305843009213693950, 1930085167172986322, 375757842040707628);
    lemma_fp_mul_is(p, 1776781251329465812, 1776781251329465812, 1369109519798766115, 586378254237548979);
    lemma_fp_mul_is(p, 375757842040707628, 1930085167172986323, 314524724568743499, 2255960644478897295);
    lemma_fp_mul_is(p, 2305843009213693950, 2255960644478897295, 2255960644478897294, 49882364734796656);
    lemma_fp_mul_is(p, 1776781251329465812, 1930085167172986323, 1487238777661400589, 1444626223314952137);
    lemma_fp_mul_is(p, 375757842040707628, 1776781251329465812, 289542473668065222, 861216785898741814);
    lemma_fp_add_is(p, 586378254237548979, 49882364734796656, 0, 636260618972345635);
    lemma_fp_add_is(p, 1444626223314952137, 861216785898741814, 1, 0);
    lemma_f2_mul_is(t, F2 { c0: 1776781251329465812, c1: 375757842040707628 }, F2 { c0: 1776781251329465812, c1: 1930085167172986323 }, 586378254237548979, 2255960644478897295, 49882364734796656, 1444626223314952137, 861216785898741814, F2 { c0: 636260618972345635, c1: 0 });
    lemma_fp_mul_is(p, 583409437416210323, 2305843009213693950, 583409437416210322, 1722433571797483628);
    lemma_fp_mul_is(p, 536495889502752323, 536495889502752323, 124825427534852174, 2140621875018896855);
    lemma_fp_mul_is(p, 1722433571797483628, 583409437416210323, 435798966839392504, 471039484777548540);
    lemma_fp_mul_is(p, 2305843009213693950, 471039484777548540, 471039484777548539, 1834803524436145411);
    lemma_fp_mul_is(p, 536495889502752323, 583409437416210323, 135740709068326299, 1857639137954312980);
    lemma_fp_mul_is(p, 1722433571797483628, 536495889502752323, 400755180434426023, 448203871259380971);
    lemma_fp_add_is(p, 2140621875018896855, 1834803524436145411, 1, 1669582390241348315);
    lemma_fp_add_is(p, 1857639137954312980, 448203871259380971, 1, 0);
    lemma_f2_mul_is(t, F2 { c0: 536495889502752323, c1: 1722433571797483628 }, F2 { c0: 536495889502752323, c1: 583409437416210323 }, 2140621875018896855, 471039484777548540, 1834803524436145411, 1857639137954312980, 448203871259380971, F2 { c0: 1669582390241348315, c1: 0 });
    lemma_fp_mul_is(p, 1872326644869329729, 2305843009213693950, 1872326644869329728, 433516364344364222);
    lemma_fp_mul_is(p, 1421059782992805490, 884783226220888461, 545279906058256313, 1099322074062788227);
    lemma_fp_mul_is(p, 433516364344364222, 433516364344364222, 81504437814455971, 1735582693035133863);
    lemma_fp_mul_is(p, 2305843009213693950, 1735582693035133863, 1735582693035133862, 570260316178560088);
    lemma_fp_mul_is(p, 1421059782992805490, 433516364344364222, 267170257548934266, 187878921020353814);
    lemma_fp_mul_is(p, 433516364344364222, 884783226220888461, 166346106795429955, 2117964088193340137);
    lemma_fp_add_is(p, 1099322074062788227, 570260316178560088, 0, 1669582390241348315);
    lemma_fp_add_is(p, 187878921020353814, 2117964088193340137, 1, 0);
    lemma_f2_mul_is(t, F2 { c0: 1421059782992805490, c1: 433516364344364222 }, F2 { c0: 884783226220888461, c1: 433516364344364222 }, 1099322074062788227, 1735582693035133863, 570260316178560088, 187878921020353814, 2117964088193340137, F2 { c0: 1669582390241348315, c1: 0 });
}

proof fn lemma_chain_one_at_8()
    ensures
        frobenius_chain(Mersenne61::tower(), 1, 8),
{
    let t = Mersenne61::tower();
    let p = t.p;
    lemma_fp_mul_is(p, 2305843009213693950, 2305843009213693950, 2305843009213693949, 1);
    lemma_fp_mul_is(p, 1, 2305843009213693950, 0, 2305843009213693950);
    lemma_fp_mul_is(p, 0, 2305843009213693950, 0, 0);
    lemma_fp_mul_is(p, 636260618972345635, 1776781251329465812, 490274461111231725, 2093520362388135145);
    lemma_fp_mul_is(p, 0, 1930085167172986323, 0, 0);
    lemma_fp_mul_is(p, 2305843009213693950, 0, 0, 0);
    lemma_fp_mul_is(p, 636260618972345635, 1930085167172986323, 532576232739103687, 1278637353010052768);
    lemma_fp_mul_is(p, 0, 1776781251329465812, 0, 0);
    lemma_fp_add_is(p, 2093520362388135145, 0, 0, 2093520362388135145);
    lemma_fp_add_is(p, 1278637353010052768, 0, 0, 1278637353010052768);
    lemma_f2_mul_is(t, F2 { c0: 636260618972345635, c1: 0 }, F2 { c0: 1776781251329465812, c1: 1930085167172986323 }, 2093520362388135145, 0, 0, 1278637353010052768, 0, F2 { c0: 2093520362388135145, c1: 1278637353010052768 });
    lemma_fp_mul_is(p, 1669582390241348315, 536495889502752323, 388458401535371961, 838598681417677834);
    lemma_fp_mul_is(p, 0, 583409437416210323, 0, 0);
    lemma_fp_mul_is(p, 1669582390241348315, 583409437416210323, 422426903791196769, 870636647555611426);
    lemma_fp_mul_is(p, 0, 536495889502752323, 0, 0);
    lemma_fp_add_is(p, 838598681417677834, 0, 0, 838598681417677834);
    lemma_fp_add_is(p, 870636647555611426, 0, 0, 870636647555611426);
    lemma_f2_mul_is(t, F2 { c0: 1669582390241348315, c1: 0 }, F2 { c0: 536495889502752323, c1: 583409437416210323 }, 838598681417677834, 0, 0, 870636647555611426, 0, F2 { c0: 838598681417677834, c1: 870636647555611426 });
    lemma_fp_mul_is(p, 1669582390241348315, 884783226220888461, 640641400033154370, 1198921419547077345);
    lemma_fp_mul_is(p, 0, 433516364344364222, 0, 0);
    lemma_fp_mul_is(p, 1669582390241348315, 433516364344364222, 313894434659547762, 808083005590998268);
    lemma_fp_mul_is(p, 0, 884783226220888461, 0, 0);
    lemma_fp_add_is(p, 1198921419547077345, 0, 0, 1198921419547077345);
    lemma_fp_add_is(p, 808083005590998268, 0, 0, 808083005590998268);
    lemma_f2_mul_is(t, F2 { c0: 1669582390241348315, c1: 0 }, F2 { c0: 884783226220888461, c1: 433516364344364222 }, 1198921419547077345, 0, 0, 808083005590998268, 0, F2 { c0: 1198921419547077345, c1: 808083005590998268 });
}

proof fn lemma_chain_one_at_9()
    ensures
        frobenius_chain(Mersenne61::tower(), 1, 9),
{
    let t = Mersenne61::tower();
    let p = t.p;
    lemma_fp_mul_is(p, 2305843009213693950, 2305843009213693950, 2305843009213693949, 1);
    lemma_fp_mul_is(p, 1278637353010052768, 2305843009213693950, 1278637353010052767, 1027205656203641183);
    lemma_fp_mul_is(p, 2093520362388135145, 1776781251329465812, 1613174754007280211, 147243909660459079);
    lemma_fp_mul_is(p, 1027205656203641183, 1930085167172986323, 859813262547704094, 783504528632804715);
    lemma_fp_mul_is(p, 2305843009213693950, 783504528632804715, 783504528632804714, 1522338480580889236);
    lemma_fp_mul_is(p, 2093520362388135145, 1930085167172986323, 1752362403890561434, 425898462120936101);
    lemma_fp_mul_is(p, 1027205656203641183, 1776781251329465812, 791519519719856046, 1879944547092757850);
    lemma_fp_add_is(p, 147243909660459079, 1522338480580889236, 0, 1669582390241348315);
    lemma_fp_add_is(p, 425898462120936101, 1879944547092757850, 1, 0);
    lemma_f2_mul_is(t, F2 { c0: 2093520362388135145, c1: 1027205656203641183 }, F2 { c0: 1776781251329465812, c1: 1930085167172986323 }, 147243909660459079, 783504528632804715, 1522338480580889236, 425898462120936101, 1879944547092757850, F2 { c0: 1669582390241348315, c1: 0 });
    lemma_fp_mul_is(p, 870636647555611426, 2305843009213693950, 870636647555611425, 1435206361658082525);
    lemma_fp_mul_is(p, 838598681417677834, 536495889502752323, 195115081003035177, 1789147667343994055);
    lemma_fp_mul_is(p, 1435206361658082525, 583409437416210323, 363126601718057405, 1152887048371648420);
    lemma_fp_mul_is(p, 2305843009213693950, 1152887048371648420, 1152887048371648419, 1152955960842045531);
    lemma_fp_mul_is(p, 838598681417677834, 583409437416210323, 212176797374726354, 241054359068995728);
    lemma_fp_mul_is(p, 1435206361658082525, 536495889502752323, 333926598879916952, 2064788650144698223);
    lemma_fp_add_is(p, 1789147667343994055, 1152955960842045531, 1, 636260618972345635);
    lemma_fp_add_is(p, 241054359068995728, 2064788650144698223, 1, 0);
    lemma_f2_mul_is(t, F2 { c0: 838598681417677834, c1: 1435206361658082525 }, F2 { c0: 536495889502752323, c1: 583409437416210323 }, 1789147667343994055, 1152887048371648420, 1152955960842045531, 241054359068995728, 2064788650144698223, F2 { c0: 636260618972345635, c1: 0 });
    lemma_fp_mul_is(p, 808083005590998268, 2305843009213693950, 808083005590998267, 1497760003622695683);
    lemma_fp_mul_is(p, 1198921419547077345, 884783226220888461, 460042404159129890, 52561892868720655);
    lemma_fp_mul_is(p, 1497760003622695683, 433516364344364222, 281590493731110136, 688822511841066290);
    lemma_fp_mul_is(p, 2305843009213693950, 688822511841066290, 688822511841066289, 1617020497372627661);
    lemma_fp_mul_is(p, 1198921419547077345, 433516364344364222, 225406522846441159, 1854403253729021381);
    lemma_fp_mul_is(p, 1497760003622695683, 884783226220888461, 574710820647671443, 451439755484672570);
    lemma_fp_add_is(p, 52561892868720655, 1617020497372627661, 0, 1669582390241348316);
    lemma_fp_add_is(p, 1854403253729021381, 451439755484672570, 1, 0);
    lemma_f2_mul_is(t, F2 { c0: 1198921419547077345, c1: 1497760003622695683 }, F2 { c0: 884783226220888461, c1: 433516364344364222 }, 52561892868720655, 688822511841066290, 1617020497372627661, 1854403253729021381, 451439755484672570, F2 { c0: 1669582390241348316, c1: 0 });
}

proof fn lemma_chain_one_at_10()
    ensures
        frobenius_chain(Mersenne61::tower(), 1, 10),
{
    let t = Mersenne61::tower();
    let p = t.p;
    lemma_fp_mul_is(p, 2305843009213693950, 2305843009213693950, 2305843009213693949, 1);
    lemma_fp_mul_is(p, 1, 2305843009213693950, 0, 2305843009213693950);
    lemma_fp_mul_is(p, 0, 2305843009213693950, 0, 0);
    lemma_fp_mul_is(p, 1669582390241348315, 1776781251329465812, 1286506790218234085, 741384404709786945);
    lemma_fp_mul_is(p, 0, 1930085167172986323, 0, 0);
    lemma_fp_mul_is(p, 2305843009213693950, 0, 0, 0);
    lemma_fp_mul_is(p, 1669582390241348315, 1930085167172986323, 1397508934433882634, 1402963498244348811);
    lemma_fp_mul_is(p, 0, 1776781251329465812, 0, 0);
    lemma_fp_add_is(p, 741384404709786945, 0, 0, 741384404709786945);
    lemma_fp_add_is(p, 1402963498244348811, 0, 0, 1402963498244348811);
    lemma_f2_mul_is(t, F2 { c0: 1669582390241348315, c1: 0 }, F2 { c0: 1776781251329465812, c1: 1930085167172986323 }, 741384404709786945, 0, 0, 1402963498244348811, 0, F2 { c0: 741384404709786945, c1: 1402963498244348811 });
    lemma_fp_mul_is(p, 636260618972345635, 536495889502752323, 148037487967380361, 930748438293263794);
    lemma_fp_mul_is(p, 0, 583409437416210323, 0, 0);
    lemma_fp_mul_is(p, 636260618972345635, 583409437416210323, 160982533625013553, 851796924241872202);
    lemma_fp_mul_is(p, 0, 536495889502752323, 0, 0);
    lemma_fp_add_is(p, 930748438293263794, 0, 0, 930748438293263794);
    lemma_fp_add_is(p, 851796924241872202, 0, 0, 851796924241872202);
    lemma_f2_mul_is(t, F2 { c0: 636260618972345635, c1: 0 }, F2 { c0: 536495889502752323, c1: 583409437416210323 }, 930748438293263794, 0, 0, 851796924241872202, 0, F2 { c0: 930748438293263794, c1: 851796924241872202 });
    lemma_fp_mul_is(p, 1669582390241348316, 884783226220888461, 640641400033154370, 2083704645767965806);
    lemma_fp_mul_is(p, 0, 433516364344364222, 0, 0);
    lemma_fp_mul_is(p, 1669582390241348316, 433516364344364222, 313894434659547762, 1241599369935362490);
    lemma_fp_mul_is(p, 0, 884783226220888461, 0, 0);
    lemma_fp_add_is(p, 2083704645767965806, 0, 0, 2083704645767965806);
    lemma_fp_add_is(p, 1241599369935362490, 0, 0, 1241599369935362490);
    lemma_f2_mul_is(t, F2 { c0: 1669582390241348316, c1: 0 }, F2 { c0: 884783226220888461, c1: 433516364344364222 }, 2083704645767965806, 0, 0, 1241599369935362490, 0, F2 { c0: 2083704645767965806, c1: 1241599369935362490 });
}

proof fn lemma_chain_one_at_11()
    ensures
        frobenius_chain(Mersenne61::tower(), 1, 11),
{
    let t = Mersenne61::tower();
    let p = t.p;
    lemma_fp_mul_is(p, 2305843009213693950, 2305843009213693950, 2305843009213693949, 1);
    lemma_fp_mul_is(p, 1402963498244348811, 2305843009213693950, 1402963498244348810, 902879510969345140);
    lemma_fp_mul_is(p, 741384404709786945, 1776781251329465812, 571278228852885297, 1572220845315685893);
    lemma_fp_mul_is(p, 902879510969345140, 1930085167172986323, 755747180056538728, 1572220845315685892);
    lemma_fp_mul_is(p, 2305843009213693950, 1572220845315685892, 1572220845315685891, 733622163898008059);
    lemma_fp_mul_is(p, 741384404709786945, 1930085167172986323, 620569152794010622, 435318323777805713);
    lemma_fp_mul_is(p, 902879510969345140, 1776781251329465812, 695719257941544542, 1870524685435888238);
    lemma_fp_add_is(p, 1572220845315685893, 733622163898008059, 1, 1);
    lemma_fp_add_is(p, 435318323777805713, 1870524685435888238, 1, 0);
    lemma_f2_mul_is(t, F2 { c0: 741384404709786945, c1: 902879510969345140 }, F2 { c0: 1776781251329465812, c1: 1930085167172986323 }, 1572220845315685893, 1572220845315685892, 733622163898008059, 435318323777805713, 1870524685435888238, F2 { c0: 1, c1: 0 });
    lemma_fp_mul_is(p, 851796924241872202, 2305843009213693950, 851796924241872201, 1454046084971821749);
    lemma_fp_mul_is(p, 930748438293263794, 536495889502752323, 216555380964864970, 681916476064496992);
    lemma_fp_mul_is(p, 1454046084971821749, 583409437416210323, 367893306274970736, 681916476064496991);
    lemma_fp_mul_is(p, 2305843009213693950, 681916476064496991, 681916476064496990, 1623926533149196960);
    lemma_fp_mul_is(p, 930748438293263794, 583409437416210323, 235491930973157669, 207149512190385243);
    lemma_fp_mul_is(p, 1454046084971821749, 536495889502752323, 338309999691161669, 2098693497023308708);
    lemma_fp_add_is(p, 681916476064496992, 1623926533149196960, 1, 1);
    lemma_fp_add_is(p, 207149512190385243, 2098693497023308708, 1, 0);
    lemma_f2_mul_is(t, F2 { c0: 930748438293263794, c1: 1454046084971821749 }, F2 { c0: 536495889502752323, c1: 583409437416210323 }, 681916476064496992, 681916476064496991, 1623926533149196960, 207149512190385243, 2098693497023308708, F2 { c0: 1, c1: 0 });
    lemma_fp_mul_is(p, 1241599369935362490, 2305843009213693950, 1241599369935362489, 1064243639278331461);
    lemma_fp_mul_is(p, 2083704645767965806, 884783226220888461, 799545724321762037, 1259082828019626379);
    lemma_fp_mul_is(p, 1064243639278331461, 433516364344364222, 200086055916654164, 1259082828019626378);
    lemma_fp_mul_is(p, 2305843009213693950, 1259082828019626378, 1259082828019626377, 1046760181194067573);
    lemma_fp_mul_is(p, 2083704645767965806, 433516364344364222, 391752629641871115, 1666524332708667567);
    lemma_fp_mul_is(p, 1064243639278331461, 884783226220888461, 408364713852241487, 639318676505026384);
    lemma_fp_add_is(p, 1259082828019626379, 1046760181194067573, 1, 1);
    lemma_fp_add_is(p, 1666524332708667567, 639318676505026384, 1, 0);
    lemma_f2_mul_is(t, F2 { c0: 2083704645767965806, c1: 1064243639278331461 }, F2 { c0: 884783226220888461, c1: 433516364344364222 }, 1259082828019626379, 1259082828019626378, 1046760181194067573, 1666524332708667567, 639318676505026384, F2 { c0: 1, c1: 0 });
}

/// Every table of the parameter set begins with one.
pub proof fn lemma_mersenne61_unit()
    ensures
        frobenius_unit(Mersenne61::tower()),
{
}

/// The coefficients of every power are those of a map that respects
/// products.
pub proof fn lemma_mersenne61_multiplicative(power: nat)
    ensures
        frobenius_multiplicative(Mersenne61::tower(), power),
{
    let r = power % 12;
    lemma_mod_mod(power as int, 2, 6);
    lemma_mod_mod(power as int, 6, 2);
    if r == 0 {
        lemma_multiplicative_at_0();
    } else if r == 1 {
        lemma_multiplicative_at_1();
    } else if r == 2 {
        lemma_multiplicative_at_2();
    } else if r == 3 {
        lemma_multiplicative_at_3();
    } else if r == 4 {
        lemma_multiplicative_at_4();
    } else if r == 5 {
        lemma_multiplicative_at_5();
    } else if r == 6 {
        lemma_multiplicative_at_6();
    } else if r == 7 {
        lemma_multiplicative_at_7();
    } else if r == 8 {
        lemma_multiplicative_at_8();
    } else if r == 9 {
        lemma_multiplicative_at_9();
    } else if r == 10 {
        lemma_multiplicative_at_10();
    } else if r == 11 {
        lemma_multiplicative_at_11();
    }
}

/// The coefficients of every power fit together with those of the next.
pub proof fn lemma_mersenne61_chain_one(n: nat)
    ensures
        frobenius_chain(Mersenne61::tower(), 1, n),
{
    let r = n % 12;
    lemma_mod_mod(n as int, 2, 6);
    lemma_mod_mod(n as int, 6, 2);
    lemma_mod_mod(n as int + 1, 2, 6);
    lemma_mod_mod(n as int + 1, 6, 2);
    if r == 0 {
        lemma_chain_one_at_0();
    } else if r == 1 {
        lemma_chain_one_at_1();
    } else if r == 2 {
        lemma_chain_one_at_2();
    } else if r == 3 {
        lemma_chain_one_at_3();
    } else if r == 4 {
        lemma_chain_one_at_4();
    } else if r == 5 {
        lemma_chain_one_at_5();
    } else if r == 6 {
        lemma_chain_one_at_6();
    } else if r == 7 {
        lemma_chain_one_at_7();
    } else if r == 8 {
        lemma_chain_one_at_8();
    } else if r == 9 {
        lemma_chain_one_at_9();
    } else if r == 10 {
        lemma_chain_one_at_10();
    } else if r == 11 {
        lemma_chain_one_at_11();
    }
}

} // verus!
