//! The voice catalogue's ids are pairwise distinct, so looking a voice up
//! by id finds the one voice with it.
//!
//! The proof compares fingerprints: the number each id spells in base 128 is
//! worked out once per catalogue entry; distinct fingerprints mean distinct
//! ids.

use crate::tts::voices::voice_table;
use vstd::prelude::*;

verus! {

/// The fingerprint of the first `k` characters of `s`: the number they spell
/// in base 128 (exact for ASCII text).
pub open spec fn fingerprint_upto(s: Seq<char>, k: int) -> int
    decreases k,
{
    if k <= 0 {
        0
    } else {
        fingerprint_upto(s, k - 1) * 128 + (s[k - 1] as int)
    }
}

/// The fingerprint of a text.
pub open spec fn fingerprint(s: Seq<char>) -> int {
    fingerprint_upto(s, s.len() as int)
}

/// The fingerprint of catalogue entry `i`'s id.
spec fn id_fingerprint(i: int) -> int {
    if i == 0 {
        4132143996787127223444427767446253int
    } else if i == 1 {
        32282374974900663064320770995176int
    } else if i == 2 {
        528914431588772463645831682703653613int
    } else if i == 3 {
        252206037806321788195903846391int
    } else if i == 4 {
        8665734047150328986480581400948591196909int
    } else if i == 5 {
        528914431588765196928746423387321320int
    } else if i == 6 {
        32282372839209334767708611965928int
    } else if i == 7 {
        351523911665620434012299563306291570098933786034139608168227555319118573int
    } else if i == 8 {
        3971152157182826292806905302300663int
    } else if i == 9 {
        8328109688740278525612587068562077285101int
    } else if i == 10 {
        1065997993022421107880484809381472894482021int
    } else if i == 11 {
        1065965059443344055802588913182233908392676int
    } else if i == 12 {
        1153280462284521088292377116037636551292919int
    } else if i == 13 {
        70390653215607665015486093194755209965int
    } else if i == 14 {
        32609188877355563205745700452343int
    } else if i == 15 {
        68386425672523974088056007226669300461int
    } else if i == 16 {
        534268950566595972585523942782565101int
    } else if i == 17 {
        8669056468102704359744638453475029235703int
    } else if i == 18 {
        67727003657050853658466122900329674743int
    } else if i == 19 {
        8669056468102528615754586635993779698413int
    } else if i == 20 {
        140487577360802018350741640382710205847861997int
    } else if i == 21 {
        523357008996595811283704652884555767int
    } else if i == 22 {
        8574681235400513815352883324140016792552int
    } else if i == 23 {
        76377374348187014068037941742137932525int
    } else if i == 24 {
        9776303916568112351161569178728288385773int
    } else if i == 25 {
        76377374348186243187476318585802619629int
    } else if i == 26 {
        1141455649790624783486267632379687633320685int
    } else if i == 27 {
        2393805998869708348485340163430860789279897582317int
    } else if i == 28 {
        606961141248384496943588535671880429int
    } else if i == 29 {
        75042948977513048736433256412271508205int
    } else if i == 30 {
        55058038531848564int
    } else if i == 31 {
        55058036921415265int
    } else if i == 32 {
        3360476165625int
    } else if i == 33 {
        430140938779489int
    } else if i == 34 {
        55058041476526312int
    } else if i == 35 {
        55058036667660281int
    } else if i == 36 {
        7047429139312932453int
    } else if i == 37 {
        902070912106733662689int
    } else if i == 38 {
        55058041224934130int
    } else if i == 39 {
        55058036673835621int
    } else if i == 40 {
        430140932487525int
    } else if i == 41 {
        430381429502189int
    } else if i == 42 {
        902575328592259478252int
    } else if i == 43 {
        430381459029240int
    } else if i == 44 {
        430381437875311int
    } else if i == 45 {
        430381438121187int
    } else if i == 46 {
        430381452652781int
    } else if i == 47 {
        430381461238251int
    } else if i == 48 {
        7051369513058350322int
    } else if i == 49 {
        55088827802040929int
    } else if i == 50 {
        434538966382305int
    } else if i == 51 {
        55620986621030885int
    } else if i == 52 {
        116645667868378970928737int
    } else if i == 53 {
        434538980996729int
    } else if i == 54 {
        7123427141458113509int
    } else if i == 55 {
        7123427037302911724int
    } else if i == 56 {
        434779486728932int
    } else if i == 57 {
        3396714836719int
    } else if i == 58 {
        7123427451748530533int
    } else {
        0
    }
}

/// The fingerprint of each catalogue entry's id.
proof fn lemma_id_fingerprint(i: int)
    requires
        0 <= i < voice_table().len(),
    ensures
        fingerprint(voice_table()[i].id@) == id_fingerprint(i),
{
    if i == 0 {
        assert(voice_table()[0].id@ == "en_US-amy-medium"@);
        assert(fingerprint("en_US-amy-medium"@) == 4132143996787127223444427767446253int) by {
            reveal_strlit("en_US-amy-medium");
            reveal_with_fuel(fingerprint_upto, 17);
        }
    } else if i == 1 {
        assert(voice_table()[1].id@ == "en_US-ryan-high"@);
        assert(fingerprint("en_US-ryan-high"@) == 32282374974900663064320770995176int) by {
            reveal_strlit("en_US-ryan-high");
            reveal_with_fuel(fingerprint_upto, 16);
        }
    } else if i == 2 {
        assert(voice_table()[2].id@ == "en_US-ryan-medium"@);
        assert(fingerprint("en_US-ryan-medium"@) == 528914431588772463645831682703653613int) by {
            reveal_strlit("en_US-ryan-medium");
            reveal_with_fuel(fingerprint_upto, 18);
        }
    } else if i == 3 {
        assert(voice_table()[3].id@ == "en_GB-alan-low"@);
        assert(fingerprint("en_GB-alan-low"@) == 252206037806321788195903846391int) by {
            reveal_strlit("en_GB-alan-low");
            reveal_with_fuel(fingerprint_upto, 15);
        }
    } else if i == 4 {
        assert(voice_table()[4].id@ == "en_US-lessac-medium"@);
        assert(fingerprint("en_US-lessac-medium"@) == 8665734047150328986480581400948591196909int) by {
            reveal_strlit("en_US-lessac-medium");
            reveal_with_fuel(fingerprint_upto, 20);
        }
    } else if i == 5 {
        assert(voice_table()[5].id@ == "en_US-lessac-high"@);
        assert(fingerprint("en_US-lessac-high"@) == 528914431588765196928746423387321320int) by {
            reveal_strlit("en_US-lessac-high");
            reveal_with_fuel(fingerprint_upto, 18);
        }
    } else if i == 6 {
        assert(voice_table()[6].id@ == "en_GB-cori-high"@);
        assert(fingerprint("en_GB-cori-high"@) == 32282372839209334767708611965928int) by {
            reveal_strlit("en_GB-cori-high");
            reveal_with_fuel(fingerprint_upto, 16);
        }
    } else if i == 7 {
        assert(voice_table()[7].id@ == "en_GB-northern_english_male-medium"@);
        assert(fingerprint("en_GB-northern_english_male-medium"@) == 351523911665620434012299563306291570098933786034139608168227555319118573int) by {
            reveal_strlit("en_GB-northern_english_male-medium");
            reveal_with_fuel(fingerprint_upto, 35);
        }
    } else if i == 8 {
        assert(voice_table()[8].id@ == "ar_JO-kareem-low"@);
        assert(fingerprint("ar_JO-kareem-low"@) == 3971152157182826292806905302300663int) by {
            reveal_strlit("ar_JO-kareem-low");
            reveal_with_fuel(fingerprint_upto, 17);
        }
    } else if i == 9 {
        assert(voice_table()[9].id@ == "ar_JO-kareem-medium"@);
        assert(fingerprint("ar_JO-kareem-medium"@) == 8328109688740278525612587068562077285101int) by {
            reveal_strlit("ar_JO-kareem-medium");
            reveal_with_fuel(fingerprint_upto, 20);
        }
    } else if i == 10 {
        assert(voice_table()[10].id@ == "ar_AE-emirati-female"@);
        assert(fingerprint("ar_AE-emirati-female"@) == 1065997993022421107880484809381472894482021int) by {
            reveal_strlit("ar_AE-emirati-female");
            reveal_with_fuel(fingerprint_upto, 21);
        }
    } else if i == 11 {
        assert(voice_table()[11].id@ == "ar-zayd0-diacritized"@);
        assert(fingerprint("ar-zayd0-diacritized"@) == 1065965059443344055802588913182233908392676int) by {
            reveal_strlit("ar-zayd0-diacritized");
            reveal_with_fuel(fingerprint_upto, 21);
        }
    } else if i == 12 {
        assert(voice_table()[12].id@ == "it_IT-riccardo-x_low"@);
        assert(fingerprint("it_IT-riccardo-x_low"@) == 1153280462284521088292377116037636551292919int) by {
            reveal_strlit("it_IT-riccardo-x_low");
            reveal_with_fuel(fingerprint_upto, 21);
        }
    } else if i == 13 {
        assert(voice_table()[13].id@ == "it_IT-paola-medium"@);
        assert(fingerprint("it_IT-paola-medium"@) == 70390653215607665015486093194755209965int) by {
            reveal_strlit("it_IT-paola-medium");
            reveal_with_fuel(fingerprint_upto, 19);
        }
    } else if i == 14 {
        assert(voice_table()[14].id@ == "fr_FR-siwis-low"@);
        assert(fingerprint("fr_FR-siwis-low"@) == 32609188877355563205745700452343int) by {
            reveal_strlit("fr_FR-siwis-low");
            reveal_with_fuel(fingerprint_upto, 16);
        }
    } else if i == 15 {
        assert(voice_table()[15].id@ == "fr_FR-siwis-medium"@);
        assert(fingerprint("fr_FR-siwis-medium"@) == 68386425672523974088056007226669300461int) by {
            reveal_strlit("fr_FR-siwis-medium");
            reveal_with_fuel(fingerprint_upto, 19);
        }
    } else if i == 16 {
        assert(voice_table()[16].id@ == "fr_FR-upmc-medium"@);
        assert(fingerprint("fr_FR-upmc-medium"@) == 534268950566595972585523942782565101int) by {
            reveal_strlit("fr_FR-upmc-medium");
            reveal_with_fuel(fingerprint_upto, 18);
        }
    } else if i == 17 {
        assert(voice_table()[17].id@ == "es_ES-mls_10246-low"@);
        assert(fingerprint("es_ES-mls_10246-low"@) == 8669056468102704359744638453475029235703int) by {
            reveal_strlit("es_ES-mls_10246-low");
            reveal_with_fuel(fingerprint_upto, 20);
        }
    } else if i == 18 {
        assert(voice_table()[18].id@ == "es_ES-carlfm-x_low"@);
        assert(fingerprint("es_ES-carlfm-x_low"@) == 67727003657050853658466122900329674743int) by {
            reveal_strlit("es_ES-carlfm-x_low");
            reveal_with_fuel(fingerprint_upto, 19);
        }
    } else if i == 19 {
        assert(voice_table()[19].id@ == "es_ES-davefx-medium"@);
        assert(fingerprint("es_ES-davefx-medium"@) == 8669056468102528615754586635993779698413int) by {
            reveal_strlit("es_ES-davefx-medium");
            reveal_with_fuel(fingerprint_upto, 20);
        }
    } else if i == 20 {
        assert(voice_table()[20].id@ == "de_DE-thorsten-medium"@);
        assert(fingerprint("de_DE-thorsten-medium"@) == 140487577360802018350741640382710205847861997int) by {
            reveal_strlit("de_DE-thorsten-medium");
            reveal_with_fuel(fingerprint_upto, 22);
        }
    } else if i == 21 {
        assert(voice_table()[21].id@ == "de_DE-eva_k-x_low"@);
        assert(fingerprint("de_DE-eva_k-x_low"@) == 523357008996595811283704652884555767int) by {
            reveal_strlit("de_DE-eva_k-x_low");
            reveal_with_fuel(fingerprint_upto, 18);
        }
    } else if i == 22 {
        assert(voice_table()[22].id@ == "de_DE-thorsten-high"@);
        assert(fingerprint("de_DE-thorsten-high"@) == 8574681235400513815352883324140016792552int) by {
            reveal_strlit("de_DE-thorsten-high");
            reveal_with_fuel(fingerprint_upto, 20);
        }
    } else if i == 23 {
        assert(voice_table()[23].id@ == "ru_RU-irina-medium"@);
        assert(fingerprint("ru_RU-irina-medium"@) == 76377374348187014068037941742137932525int) by {
            reveal_strlit("ru_RU-irina-medium");
            reveal_with_fuel(fingerprint_upto, 19);
        }
    } else if i == 24 {
        assert(voice_table()[24].id@ == "ru_RU-ruslan-medium"@);
        assert(fingerprint("ru_RU-ruslan-medium"@) == 9776303916568112351161569178728288385773int) by {
            reveal_strlit("ru_RU-ruslan-medium");
            reveal_with_fuel(fingerprint_upto, 20);
        }
    } else if i == 25 {
        assert(voice_table()[25].id@ == "ru_RU-denis-medium"@);
        assert(fingerprint("ru_RU-denis-medium"@) == 76377374348186243187476318585802619629int) by {
            reveal_strlit("ru_RU-denis-medium");
            reveal_with_fuel(fingerprint_upto, 19);
        }
    } else if i == 26 {
        assert(voice_table()[26].id@ == "hi_IN-pratham-medium"@);
        assert(fingerprint("hi_IN-pratham-medium"@) == 1141455649790624783486267632379687633320685int) by {
            reveal_strlit("hi_IN-pratham-medium");
            reveal_with_fuel(fingerprint_upto, 21);
        }
    } else if i == 27 {
        assert(voice_table()[27].id@ == "hi_IN-priyamvada-medium"@);
        assert(fingerprint("hi_IN-priyamvada-medium"@) == 2393805998869708348485340163430860789279897582317int) by {
            reveal_strlit("hi_IN-priyamvada-medium");
            reveal_with_fuel(fingerprint_upto, 24);
        }
    } else if i == 28 {
        assert(voice_table()[28].id@ == "tr_TR-dfki-medium"@);
        assert(fingerprint("tr_TR-dfki-medium"@) == 606961141248384496943588535671880429int) by {
            reveal_strlit("tr_TR-dfki-medium");
            reveal_with_fuel(fingerprint_upto, 18);
        }
    } else if i == 29 {
        assert(voice_table()[29].id@ == "pt_BR-faber-medium"@);
        assert(fingerprint("pt_BR-faber-medium"@) == 75042948977513048736433256412271508205int) by {
            reveal_strlit("pt_BR-faber-medium");
            reveal_with_fuel(fingerprint_upto, 19);
        }
    } else if i == 30 {
        assert(voice_table()[30].id@ == "af_heart"@);
        assert(fingerprint("af_heart"@) == 55058038531848564int) by {
            reveal_strlit("af_heart");
            reveal_with_fuel(fingerprint_upto, 9);
        }
    } else if i == 31 {
        assert(voice_table()[31].id@ == "af_bella"@);
        assert(fingerprint("af_bella"@) == 55058036921415265int) by {
            reveal_strlit("af_bella");
            reveal_with_fuel(fingerprint_upto, 9);
        }
    } else if i == 32 {
        assert(voice_table()[32].id@ == "af_sky"@);
        assert(fingerprint("af_sky"@) == 3360476165625int) by {
            reveal_strlit("af_sky");
            reveal_with_fuel(fingerprint_upto, 7);
        }
    } else if i == 33 {
        assert(voice_table()[33].id@ == "af_nova"@);
        assert(fingerprint("af_nova"@) == 430140938779489int) by {
            reveal_strlit("af_nova");
            reveal_with_fuel(fingerprint_upto, 8);
        }
    } else if i == 34 {
        assert(voice_table()[34].id@ == "af_sarah"@);
        assert(fingerprint("af_sarah"@) == 55058041476526312int) by {
            reveal_strlit("af_sarah");
            reveal_with_fuel(fingerprint_upto, 9);
        }
    } else if i == 35 {
        assert(voice_table()[35].id@ == "af_alloy"@);
        assert(fingerprint("af_alloy"@) == 55058036667660281int) by {
            reveal_strlit("af_alloy");
            reveal_with_fuel(fingerprint_upto, 9);
        }
    } else if i == 36 {
        assert(voice_table()[36].id@ == "af_nicole"@);
        assert(fingerprint("af_nicole"@) == 7047429139312932453int) by {
            reveal_strlit("af_nicole");
            reveal_with_fuel(fingerprint_upto, 10);
        }
    } else if i == 37 {
        assert(voice_table()[37].id@ == "af_jessica"@);
        assert(fingerprint("af_jessica"@) == 902070912106733662689int) by {
            reveal_strlit("af_jessica");
            reveal_with_fuel(fingerprint_upto, 11);
        }
    } else if i == 38 {
        assert(voice_table()[38].id@ == "af_river"@);
        assert(fingerprint("af_river"@) == 55058041224934130int) by {
            reveal_strlit("af_river");
            reveal_with_fuel(fingerprint_upto, 9);
        }
    } else if i == 39 {
        assert(voice_table()[39].id@ == "af_aoede"@);
        assert(fingerprint("af_aoede"@) == 55058036673835621int) by {
            reveal_strlit("af_aoede");
            reveal_with_fuel(fingerprint_upto, 9);
        }
    } else if i == 40 {
        assert(voice_table()[40].id@ == "af_kore"@);
        assert(fingerprint("af_kore"@) == 430140932487525int) by {
            reveal_strlit("af_kore");
            reveal_with_fuel(fingerprint_upto, 8);
        }
    } else if i == 41 {
        assert(voice_table()[41].id@ == "am_adam"@);
        assert(fingerprint("am_adam"@) == 430381429502189int) by {
            reveal_strlit("am_adam");
            reveal_with_fuel(fingerprint_upto, 8);
        }
    } else if i == 42 {
        assert(voice_table()[42].id@ == "am_michael"@);
        assert(fingerprint("am_michael"@) == 902575328592259478252int) by {
            reveal_strlit("am_michael");
            reveal_with_fuel(fingerprint_upto, 11);
        }
    } else if i == 43 {
        assert(voice_table()[43].id@ == "am_onyx"@);
        assert(fingerprint("am_onyx"@) == 430381459029240int) by {
            reveal_strlit("am_onyx");
            reveal_with_fuel(fingerprint_upto, 8);
        }
    } else if i == 44 {
        assert(voice_table()[44].id@ == "am_echo"@);
        assert(fingerprint("am_echo"@) == 430381437875311int) by {
            reveal_strlit("am_echo");
            reveal_with_fuel(fingerprint_upto, 8);
        }
    } else if i == 45 {
        assert(voice_table()[45].id@ == "am_eric"@);
        assert(fingerprint("am_eric"@) == 430381438121187int) by {
            reveal_strlit("am_eric");
            reveal_with_fuel(fingerprint_upto, 8);
        }
    } else if i == 46 {
        assert(voice_table()[46].id@ == "am_liam"@);
        assert(fingerprint("am_liam"@) == 430381452652781int) by {
            reveal_strlit("am_liam");
            reveal_with_fuel(fingerprint_upto, 8);
        }
    } else if i == 47 {
        assert(voice_table()[47].id@ == "am_puck"@);
        assert(fingerprint("am_puck"@) == 430381461238251int) by {
            reveal_strlit("am_puck");
            reveal_with_fuel(fingerprint_upto, 8);
        }
    } else if i == 48 {
        assert(voice_table()[48].id@ == "am_fenrir"@);
        assert(fingerprint("am_fenrir"@) == 7051369513058350322int) by {
            reveal_strlit("am_fenrir");
            reveal_with_fuel(fingerprint_upto, 10);
        }
    } else if i == 49 {
        assert(voice_table()[49].id@ == "am_santa"@);
        assert(fingerprint("am_santa"@) == 55088827802040929int) by {
            reveal_strlit("am_santa");
            reveal_with_fuel(fingerprint_upto, 9);
        }
    } else if i == 50 {
        assert(voice_table()[50].id@ == "bf_emma"@);
        assert(fingerprint("bf_emma"@) == 434538966382305int) by {
            reveal_strlit("bf_emma");
            reveal_with_fuel(fingerprint_upto, 8);
        }
    } else if i == 51 {
        assert(voice_table()[51].id@ == "bf_alice"@);
        assert(fingerprint("bf_alice"@) == 55620986621030885int) by {
            reveal_strlit("bf_alice");
            reveal_with_fuel(fingerprint_upto, 9);
        }
    } else if i == 52 {
        assert(voice_table()[52].id@ == "bf_isabella"@);
        assert(fingerprint("bf_isabella"@) == 116645667868378970928737int) by {
            reveal_strlit("bf_isabella");
            reveal_with_fuel(fingerprint_upto, 12);
        }
    } else if i == 53 {
        assert(voice_table()[53].id@ == "bf_lily"@);
        assert(fingerprint("bf_lily"@) == 434538980996729int) by {
            reveal_strlit("bf_lily");
            reveal_with_fuel(fingerprint_upto, 8);
        }
    } else if i == 54 {
        assert(voice_table()[54].id@ == "bm_george"@);
        assert(fingerprint("bm_george"@) == 7123427141458113509int) by {
            reveal_strlit("bm_george");
            reveal_with_fuel(fingerprint_upto, 10);
        }
    } else if i == 55 {
        assert(voice_table()[55].id@ == "bm_daniel"@);
        assert(fingerprint("bm_daniel"@) == 7123427037302911724int) by {
            reveal_strlit("bm_daniel");
            reveal_with_fuel(fingerprint_upto, 10);
        }
    } else if i == 56 {
        assert(voice_table()[56].id@ == "bm_fred"@);
        assert(fingerprint("bm_fred"@) == 434779486728932int) by {
            reveal_strlit("bm_fred");
            reveal_with_fuel(fingerprint_upto, 8);
        }
    } else if i == 57 {
        assert(voice_table()[57].id@ == "bm_leo"@);
        assert(fingerprint("bm_leo"@) == 3396714836719int) by {
            reveal_strlit("bm_leo");
            reveal_with_fuel(fingerprint_upto, 7);
        }
    } else if i == 58 {
        assert(voice_table()[58].id@ == "bm_pierre"@);
        assert(fingerprint("bm_pierre"@) == 7123427451748530533int) by {
            reveal_strlit("bm_pierre");
            reveal_with_fuel(fingerprint_upto, 10);
        }
    }
}

/// Entries' fingerprints differ.
proof fn lemma_fingerprints_distinct(i: int, j: int)
    requires
        0 <= i < j < voice_table().len(),
    ensures
        id_fingerprint(i) != id_fingerprint(j),
{
}

/// Catalogue law: the ids of the catalogue's voices are pairwise distinct,
/// so `find(id)` is the one entry with that id.
pub proof fn lemma_voice_ids_distinct()
    ensures
        forall|i: int, j: int|
            0 <= i < j < voice_table().len() ==> #[trigger] voice_table()[i].id@
                != #[trigger] voice_table()[j].id@,
{
    assert forall|i: int, j: int| 0 <= i < j < voice_table().len() implies #[trigger] voice_table()[i].id@
        != #[trigger] voice_table()[j].id@ by {
        lemma_id_fingerprint(i);
        lemma_id_fingerprint(j);
        lemma_fingerprints_distinct(i, j);
    }
}

} // verus!
