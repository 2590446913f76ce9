//! The sRGB transfer curve, sampled for 8-bit codes and held as integers.
//!
//! Linear light is measured in units of 1/3_294_600_000_000 of full
//! intensity. The unit is chosen so that on the linear toe of the curve
//! (codes 0 to 10) one code step is exactly 1_000_000_000 units: a mix that
//! lands exactly halfway between two codes is then seen as a tie, and goes
//! to the upper one.

use vstd::prelude::*;

verus! {

/// Linear light at full intensity.
pub const FULL_LIGHT: u64 = 3_294_600_000_000;

/// `LINEAR[c]` is the linear light of the 8-bit code `c`: the sRGB decoding
/// of `c / 255`, rounded to the nearest unit.
pub const LINEAR: [u64; 256] = [
    0, 1000000000, 2000000000, 3000000000,
    4000000000, 5000000000, 6000000000, 7000000000,
    8000000000, 9000000000, 10000000000, 11025496728,
    12112621030, 13259832689, 14468044936, 15738150937,
    17071024928, 18467523245, 19928485277, 21454734325,
    23047078403, 24706310970, 26433211610, 28228546661,
    30093069800, 32027522583, 34032634953, 36109125714,
    38257702969, 40479064541, 42773898355, 45142882808,
    47586687112, 50105971618, 52701388122, 55373580155,
    58123183257, 60950825235, 63857126409, 66842699846,
    69908151585, 73054080840, 76281080210, 79589735865,
    82980627728, 86454329655, 90011409594, 93652429751,
    97377946739, 101188511723, 105084670562, 109066963944,
    113135927512, 117292091987, 121535983291, 125868122658,
    130289026743, 134799207729, 139399173431, 144089427390,
    148870468969, 153742793445, 158706892098, 163763252291,
    168912357559, 174154687683, 179490718767, 184920923317,
    190445770307, 196065725252, 201781250271, 207592804160,
    213500842446, 219505817456, 225608178369, 231808371282,
    238106839258, 244504022385, 251000357828, 257596279879,
    264292220008, 271088606910, 277985866553, 284984422226,
    292084694577, 299287101665, 306592058995, 313999979562,
    321511273894, 329126350083, 336845613832, 344669468487,
    352598315072, 360632552330, 368772576751, 377018782610,
    385371561997, 393831304850, 402398398988, 411073230136,
    419856181963, 428747636104, 437747972191, 446857567882,
    456076798886, 465406038991, 474845660089, 484396032203,
    494057523510, 503830500367, 513715327332, 523712367192,
    533821980981, 544044528005, 554380365865, 564829850474,
    575393336084, 586071175300, 596863719106, 607771316881,
    618794316422, 629933063958, 641187904173, 652559180222,
    664047233751, 675652404912, 687375032381, 699215453376,
    711174003675, 723251017628, 735446828176, 747761766866,
    760196163868, 772750347988, 785424646682, 798219386075,
    811134890972, 824171484871, 837329489982, 850609227235,
    864011016297, 877535175584, 891182022272, 904951872314,
    918845040451, 932861840221, 947002583975, 961267582889,
    975657146972, 990171585082, 1004811204935, 1019576313115,
    1034467215088, 1049484215211, 1064627616744, 1079897721857,
    1095294831646, 1110819246138, 1126471264304, 1142251184067,
    1158159302314, 1174195914903, 1190361316675, 1206655801460,
    1223079662090, 1239633190406, 1256316677266, 1273130412555,
    1290074685194, 1307149783149, 1324355993435, 1341693602131,
    1359162894384, 1376764154416, 1394497665536, 1412363710144,
    1430362569741, 1448494524936, 1466759855453, 1485158840139,
    1503691756970, 1522358883061, 1541160494671, 1560096867209,
    1579168275244, 1598374992509, 1617717291909, 1637195445528,
    1656809724634, 1676560399689, 1696447740349, 1716472015479,
    1736633493150, 1756932440653, 1777369124499, 1797943810430,
    1818656763421, 1839508247689, 1860498526695, 1881627863155,
    1902896519040, 1924304755584, 1945852833293, 1967541011943,
    1989369550593, 2011338707584, 2033448740548, 2055699906413,
    2078092461406, 2100626661061, 2123302760220, 2146121013043,
    2169081673009, 2192184992921, 2215431224913, 2238820620453,
    2262353430349, 2286029904753, 2309850293162, 2333814844431,
    2357923806769, 2382177427746, 2406575954302, 2431119632743,
    2455808708752, 2480643427390, 2505624033103, 2530750769722,
    2556023880469, 2581443607962, 2607010194220, 2632723880662,
    2658584908117, 2684593516823, 2710749946434, 2737054436022,
    2763507224081, 2790108548532, 2816858646726, 2843757755446,
    2870806110912, 2898003948787, 2925351504174, 2952849011627,
    2980496705149, 3008294818199, 3036243583691, 3064343234004,
    3092594000977, 3120996115921, 3149549809615, 3178255312313,
    3207112853747, 3236122663127, 3265284969151, 3294600000000,
];

/// `HALFWAY[k]` is the linear light of the point halfway between the codes
/// `k` and `k + 1`: the sRGB decoding of `(k + 1/2) / 255`, rounded to the
/// nearest unit. Light at or above it encodes to a code greater than `k`.
pub const HALFWAY: [u64; 255] = [
    500000000, 1500000000, 2500000000, 3500000000,
    4500000000, 5500000000, 6500000000, 7500000000,
    8500000000, 9500000000, 10504176160, 11561605853,
    12678658379, 13856257460, 15095306147, 16396688005,
    17761268197, 19189894473, 20683398074, 22242594561,
    23868284584, 25561254581, 27322277439, 29152113095,
    31051509098, 33021201139, 35061913533, 37174359679,
    39359242493, 41617254798, 43949079714, 46355391002,
    48836853405, 51394122959, 54027847292, 56738665907,
    59527210444, 62394104938, 65339966055, 68365403320,
    71471019333, 74657409977, 77925164613, 81274866264,
    84707091800, 88222412102, 91821392228, 95504591567,
    99272563992, 103125857998, 107065016841, 111090578671,
    115203076655, 119403039100, 123690989570, 128067446996,
    132532925784, 137087935921, 141732983072, 146468568677,
    151295190047, 156213340449, 161223509192, 166326181718,
    171521839672, 176810960990, 182194019966, 187671487333,
    193243830324, 198911512750, 204674995061, 210534734409,
    216491184714, 222544796722, 228696018064, 234945293312,
    241293064037, 247739768857, 254285843495, 260931720826,
    267677830926, 274524601121, 281472456034, 288521817628,
    295673105251, 302926735679, 310283123159, 317742679445,
    325305813844, 332972933249, 340744442178, 348620742814,
    356602235034, 364689316452, 372882382445, 381181826192,
    389588038703, 398101408852, 406722323408, 415451167066,
    424288322471, 433234170255, 442289089059, 451453455563,
    460727644513, 470112028746, 479606979215, 489212865018,
    498930053418, 508758909870, 518699798044, 528753079848,
    538919115449, 549198263297, 559590880147, 570097321078,
    580717939517, 591453087255, 602303114473, 613268369755,
    624349200112, 635545950998, 646858966330, 658288588507,
    669835158426, 681499015497, 693280497668, 705179941433,
    717197681853, 729334052573, 741589385836, 753964012496,
    766458262041, 779072462599, 791806940960, 804662022586,
    817638031628, 830735290937, 843954122083, 857294845360,
    870757779810, 884343243227, 898051552174, 911883021996,
    925837966832, 939916699624, 954119532134, 968446774954,
    982898737515, 997475728103, 1012178053866, 1027006020829,
    1041959933901, 1057040096890, 1072246812509, 1087580382391,
    1103041107094, 1118629286117, 1134345217906, 1150189199865,
    1166161528365, 1182262498753, 1198492405365, 1214851541531,
    1231340199586, 1247958670877, 1264707245776, 1281586213686,
    1298595863046, 1315736481349, 1333008355139, 1350411770028,
    1367947010700, 1385614360919, 1403414103539, 1421346520510,
    1439411892886, 1457610500831, 1475942623631, 1494408539696,
    1513008526572, 1531742860944, 1550611818644, 1569615674662,
    1588754703147, 1608029177417, 1627439369967, 1646985552472,
    1666667995796, 1686486969996, 1706442744333, 1726535587273,
    1746765766498, 1767133548906, 1787639200625, 1808282987012,
    1829065172662, 1849986021413, 1871045796353, 1892244759825,
    1913583173431, 1935061298040, 1956679393792, 1978437720105,
    2000336535677, 2022376098495, 2044556665837, 2066878494281,
    2089341839707, 2111946957301, 2134694101566, 2157583526317,
    2180615484698, 2203790229174, 2227108011549, 2250569082957,
    2274173693879, 2297922094138, 2321814532911, 2345851258728,
    2370032519479, 2394358562418, 2418829634167, 2443445980720,
    2468207847450, 2493115479109, 2518169119834, 2543369013151,
    2568715401982, 2594208528643, 2619848634852, 2645635961734,
    2671570749822, 2697653239060, 2723883668811, 2750262277859,
    2776789304410, 2803464986099, 2830289559993, 2857263262594,
    2884386329841, 2911658997119, 2939081499254, 2966654070525,
    2994376944663, 3022250354853, 3050274533742, 3078449713439,
    3106776125517, 3135254001021, 3163883570468, 3192665063850,
    3221598710638, 3250684739786, 3279923379731,
];

/// The linear light of the 8-bit code `c`.
#[verifier::opaque]
pub open spec fn spec_decode(c: int) -> int
    recommends
        0 <= c <= 255,
{
    LINEAR[c] as int
}

/// The linear light of the point halfway between the codes `k` and `k + 1`.
#[verifier::opaque]
pub open spec fn spec_halfway(k: int) -> int
    recommends
        0 <= k < 255,
{
    HALFWAY[k] as int
}

/// The first code from `from` on whose upper halfway point lies above
/// `milli` thousandths of a unit; 255 where none does.
pub open spec fn spec_first_above(milli: int, from: nat) -> nat
    decreases 255 - from,
{
    if from >= 255 || milli < 1000 * spec_halfway(from as int) {
        from
    } else {
        spec_first_above(milli, from + 1)
    }
}

/// The 8-bit code nearest to `milli` thousandths of a unit of linear light:
/// the code whose two halfway points enclose the light. Light exactly on a
/// halfway point goes to the upper code.
pub open spec fn spec_encode(milli: int) -> nat {
    spec_first_above(milli, 0)
}

/// Between every two neighbouring codes lies their halfway point, and the
/// codes span the whole range of light.
pub proof fn lemma_tables_interleave()
    ensures
        forall|k: int|
            0 <= k < 255 ==> spec_decode(k) < #[trigger] spec_halfway(k) <= spec_decode(k + 1),
        spec_decode(0) == 0,
        spec_decode(255) == FULL_LIGHT,
{
    reveal(spec_decode);
    reveal(spec_halfway);
}

/// The halfway points below code `c` are at most its light, and those from
/// `c` on are above it.
pub proof fn lemma_halfway_around(c: int, k: int)
    requires
        0 <= c <= 255,
        0 <= k < 255,
    ensures
        k < c ==> spec_halfway(k) <= spec_decode(c),
        k >= c ==> spec_decode(c) < spec_halfway(k),
    decreases
            if k < c {
                c - k
            } else {
                k - c
            },
{
    lemma_tables_interleave();
    if k + 1 < c {
        lemma_halfway_around(c, k + 1);
        assert(spec_halfway(k) <= spec_decode(k + 1) < spec_halfway(k + 1));
    } else if k > c {
        lemma_halfway_around(c, k - 1);
        assert(spec_halfway(k - 1) <= spec_decode(k) < spec_halfway(k));
    } else {
        assert(spec_decode(k) < spec_halfway(k) <= spec_decode(k + 1));
    }
}

/// No code holds more than full light, and no halfway point either.
pub proof fn lemma_light_bounded(c: int)
    requires
        0 <= c <= 255,
    ensures
        0 <= spec_decode(c) <= FULL_LIGHT,
        c < 255 ==> 0 < spec_halfway(c) <= FULL_LIGHT,
{
    lemma_tables_interleave();
    if c < 255 {
        lemma_halfway_around(255, c);
        lemma_halfway_around(0, c);
        assert(spec_decode(c) < spec_halfway(c));
    }
    if c > 0 {
        lemma_halfway_around(c, c - 1);
        lemma_halfway_around(0, c - 1);
    }
}

/// What `spec_first_above` finds: a code in range, every halfway point
/// between `from` and it at or below the light, and its own above.
pub proof fn lemma_first_above(milli: int, from: nat)
    requires
        from <= 255,
    ensures
        from <= spec_first_above(milli, from) <= 255,
        forall|k: int|
            from <= k < spec_first_above(milli, from) ==> 1000 * #[trigger] spec_halfway(k)
                <= milli,
        spec_first_above(milli, from) < 255 ==> milli < 1000 * spec_halfway(
            spec_first_above(milli, from) as int,
        ),
    decreases 255 - from,
{
    if from < 255 && milli >= 1000 * spec_halfway(from as int) {
        lemma_first_above(milli, from + 1);
    }
}

/// The code that `spec_encode` gives is the one whose halfway points
/// enclose the light.
pub proof fn lemma_encode_encloses(milli: int)
    ensures
        spec_encode(milli) <= 255,
        spec_encode(milli) > 0 ==> 1000 * spec_halfway(spec_encode(milli) - 1) <= milli,
        spec_encode(milli) < 255 ==> milli < 1000 * spec_halfway(spec_encode(milli) as int),
{
    lemma_first_above(milli, 0);
}

/// Encoding the light of a code gives the code back.
pub proof fn lemma_encode_decode(c: u8)
    ensures
        spec_encode(1000 * spec_decode(c as int)) == c,
{
    let milli = 1000 * spec_decode(c as int);
    let found = spec_encode(milli);
    lemma_first_above(milli, 0);
    if found < c {
        lemma_halfway_around(c as int, found as int);
    } else if found > c {
        lemma_halfway_around(c as int, c as int);
        assert(1000 * spec_halfway(c as int) <= milli);
    }
}

/// The linear light of the 8-bit code `c`.
pub fn decode(c: u8) -> (light: u64)
    ensures
        light == spec_decode(c as int),
        light <= FULL_LIGHT,
{
    proof {
        lemma_light_bounded(c as int);
        reveal(spec_decode);
    }
    LINEAR[c as usize]
}

/// The linear light of the point halfway between the codes `k` and `k + 1`.
fn halfway(k: u8) -> (light: u64)
    requires
        k < 255,
    ensures
        light == spec_halfway(k as int),
        light <= FULL_LIGHT,
{
    proof {
        lemma_light_bounded(k as int);
        reveal(spec_halfway);
    }
    HALFWAY[k as usize]
}

/// The 8-bit code nearest to `milli` thousandths of a unit of linear light.
pub fn encode(milli: u64) -> (c: u8)
    ensures
        c == spec_encode(milli as int),
{
    let mut k: u8 = 0;
    while k < 255
        invariant
            spec_first_above(milli as int, k as nat) == spec_encode(milli as int),
        decreases 255 - k,
    {
        if milli < 1000 * halfway(k) {
            return k;
        }
        k += 1;
    }
    k
}

} // verus!
