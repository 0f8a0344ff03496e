use damage_eval::eval::eval_with;
use damage_eval::fx::{Fx, FX_SCALE};
use damage_eval::game::GameChampionStats;
use damage_eval::local::{LocalStatsGold, LocalStatsHashMap, LocalStatsStruct, ModifierValue};
use damage_eval::text::{contains_chars, replace_word, str_to_chars};
use damage_eval::tool::assing_stats;

fn units(u: i64) -> Fx {
    Fx { v: u * FX_SCALE }
}

#[test]
fn substitution_respects_word_boundaries() {
    // currentAD must not match inside bonusAD: the sum is 15, not 105.
    let reps = vec![
        ("currentAD".to_owned(), units(10)),
        ("bonusAD".to_owned(), units(5)),
    ];
    let r = eval_with(&"currentAD + bonusAD".to_owned(), &reps);
    assert_eq!(r.v, 15 * FX_SCALE);
}

#[test]
fn substitution_skips_embedded_names() {
    let reps = vec![("currentAD".to_owned(), units(10))];
    // inside a longer word the name must not be replaced, so the text
    // stays non-arithmetic and evaluates to zero
    let r = eval_with(&"XcurrentAD".to_owned(), &reps);
    assert_eq!(r.v, 0);
    let r = eval_with(&"currentAD+1".to_owned(), &reps);
    assert_eq!(r.v, 11 * FX_SCALE);
}

#[test]
fn replace_word_rewrites_every_occurrence() {
    let out = replace_word("a+level*level", "level", "3.000000");
    assert_eq!(out, "a+3.000000*3.000000");
    let out = replace_word("levels", "level", "3");
    assert_eq!(out, "levels");
}

#[test]
fn substring_search_finds_needles() {
    let hay = str_to_chars("GeneralSummonerDotSpell");
    assert!(contains_chars(&hay, &str_to_chars("SummonerDot")));
    assert!(!contains_chars(&hay, &str_to_chars("SummonerFlash")));
    assert!(contains_chars(&hay, &str_to_chars("")));
}

fn tool_with_mods(id: u64, mods: Vec<(String, ModifierValue)>) -> (u64, LocalStatsStruct) {
    (
        id,
        LocalStatsStruct {
            name: format!("tool-{}", id),
            stats: LocalStatsHashMap { raw: vec![], modifiers: mods },
            stack: false,
            gold: LocalStatsGold { base: 0, purchasable: true, total: 1000, sell: 700 },
            maps: vec![],
        },
    )
}

#[test]
fn numeric_modifiers_add_and_text_modifiers_subtract() {
    let mut cs = GameChampionStats::default();
    cs.attack_damage = units(100);
    cs.armor_penetration_percent = units(1);
    let tools = vec![tool_with_mods(
        7,
        vec![
            ("attackDamage".to_owned(), ModifierValue::Number(units(50))),
            (
                "armorPenetrationPercent".to_owned(),
                ModifierValue::Text("30%".to_owned()),
            ),
            ("noSuchStat".to_owned(), ModifierValue::Number(units(9))),
        ],
    )];
    let out = assing_stats(7, &cs, &tools);
    assert_eq!(out.attack_damage.v, 150 * FX_SCALE);
    // the percentage text is subtracted: 1 - 30 = -29
    assert_eq!(out.armor_penetration_percent.v, -29 * FX_SCALE);
    // untouched stats stay
    assert_eq!(out.max_health.v, 0);
}

#[test]
fn unknown_tools_change_nothing() {
    let mut cs = GameChampionStats::default();
    cs.attack_damage = units(100);
    let tools = vec![];
    let out = assing_stats(42, &cs, &tools);
    assert_eq!(out.attack_damage.v, 100 * FX_SCALE);
}

#[test]
fn camel_pairs_round_trip() {
    let mut cs = GameChampionStats::default();
    cs.ability_power = units(80);
    cs.crit_damage = units(200);
    cs.magic_penetration_flat = Fx { v: 2_500_000 };
    let pairs = cs.into_hashmap_camel();
    assert_eq!(pairs.len(), 15);
    let back = GameChampionStats::from_hashmap_camel(pairs);
    assert_eq!(back.ability_power.v, 80 * FX_SCALE);
    assert_eq!(back.crit_damage.v, 200 * FX_SCALE);
    assert_eq!(back.magic_penetration_flat.v, 2_500_000);
    assert_eq!(back.attack_damage.v, 0);
}
