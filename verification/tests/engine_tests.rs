use damage_eval::fx::{Fx, FX_SCALE};
use damage_eval::game::{
    GameAbilities, GameAbility, GameActivePlayer, GameChampionStats, GameCoreStats, GameData,
    GameEvents, GameFullRunes, GamePassive, GamePlayer, GamePlayerItems, GameProps, GameRuneProp,
    GameScores, GameSummonerSpell, GameSummonerSpells, RiotChampionTarget,
};
use damage_eval::local::{
    LocalChampion, LocalChampionAbility, LocalItems, LocalRuneData, LocalRuneForm, LocalRunes,
    LocalStatsGold, LocalStatsHashMap, LocalStatsStruct, ModifierValue,
};
use damage_eval::riot::{RiotChampionImage, RiotChampionPassive, RiotChampionStats, RiotItems};
use damage_eval::damage::filter_spell;
use damage_eval::service::calculate;
use damage_eval::store::{get_champion, item_api, AbilityPackSlot, CalcError, RefStore};
use damage_eval::target::{all_stats, AllStatsAdaptativeType, AllStatsForm};

fn units(u: i64) -> Fx {
    Fx { v: u * FX_SCALE }
}

fn zero() -> Fx {
    Fx { v: 0 }
}

fn champ_growth(hp: i64, armor: i64, mr: i64, ad: i64) -> RiotChampionStats {
    RiotChampionStats {
        hp: units(hp),
        hpperlevel: zero(),
        mp: zero(),
        mpperlevel: zero(),
        armor: units(armor),
        armorperlevel: zero(),
        spellblock: units(mr),
        spellblockperlevel: zero(),
        attackrange: zero(),
        attackdamage: units(ad),
        attackdamageperlevel: zero(),
        attackspeedperlevel: zero(),
        attackspeed: zero(),
    }
}

fn target(id: &str, name: &str, stats: RiotChampionStats) -> RiotChampionTarget {
    RiotChampionTarget {
        id: id.to_owned(),
        name: name.to_owned(),
        stats,
        spells: vec![],
        passive: RiotChampionPassive {
            name: "passive".to_owned(),
            description: "does things".to_owned(),
            image: RiotChampionImage { full: "p.png".to_owned() },
        },
    }
}

fn abilities() -> GameAbilities {
    GameAbilities {
        passive: GamePassive { display_name: "P".to_owned(), id: "p".to_owned() },
        q: GameAbility { ability_level: 1 },
        w: GameAbility { ability_level: 0 },
        e: GameAbility { ability_level: 0 },
        r: GameAbility { ability_level: 0 },
    }
}

fn attacker_stats() -> GameChampionStats {
    let mut cs = GameChampionStats::default();
    cs.attack_damage = units(100);
    cs.crit_damage = units(200);
    cs.attack_range = units(500);
    cs.armor_penetration_percent = units(1);
    cs.magic_penetration_percent = units(1);
    cs.max_health = units(1000);
    cs.current_health = units(1000);
    cs
}

fn active_player() -> GameActivePlayer {
    GameActivePlayer {
        summoner_name: "me".to_owned(),
        level: 10,
        abilities: abilities(),
        champion_stats: attacker_stats(),
        full_runes: GameFullRunes {
            general_runes: vec![GameRuneProp { display_name: "R".to_owned(), id: 9999 }],
        },
        champion_name: None,
        champion: None,
        dragon: None,
        base_stats: None,
        bonus_stats: None,
        team: None,
        skin: None,
        tool: None,
        relevant: None,
    }
}

fn player(name: &str, team: &str, champ: &str, spell_one: &str) -> GamePlayer {
    GamePlayer {
        champion_name: champ.to_owned(),
        level: 10,
        position: "MID".to_owned(),
        summoner_name: name.to_owned(),
        scores: GameScores { assists: 0, kills: 0, deaths: 0 },
        items: vec![],
        summoner_spells: GameSummonerSpells {
            summoner_spell_one: GameSummonerSpell {
                display_name: "one".to_owned(),
                raw_description: spell_one.to_owned(),
            },
            summoner_spell_two: GameSummonerSpell {
                display_name: "two".to_owned(),
                raw_description: "GeneralFlash".to_owned(),
            },
        },
        skin_id: 0,
        team: team.to_owned(),
        champion: None,
        dragon: None,
        bonus_stats: None,
        base_stats: None,
        champion_stats: None,
        damage: None,
        tool: None,
    }
}

fn tool_entry(id: u64, mods: Vec<(String, ModifierValue)>) -> (u64, LocalStatsStruct) {
    (
        id,
        LocalStatsStruct {
            name: format!("tool-{}", id),
            stats: LocalStatsHashMap { raw: vec![], modifiers: mods },
            stack: false,
            gold: LocalStatsGold { base: 0, purchasable: true, total: 1000, sell: 700 },
            maps: vec![],
        },
    )
}

fn store() -> RefStore {
    RefStore {
        local_items: LocalItems { data: vec![] },
        local_runes: LocalRunes {
            data: vec![(
                9999,
                LocalRuneData {
                    name: "TestRune".to_owned(),
                    rune_type: "magic".to_owned(),
                    min: LocalRuneForm { melee: "1".to_owned(), ranged: "2".to_owned() },
                    max: None,
                },
            )],
        },
        local_stats: vec![
            tool_entry(1001, vec![]),
            tool_entry(
                1002,
                vec![("attackDamage".to_owned(), ModifierValue::Number(units(50)))],
            ),
        ],
        ids: vec![
            (
                "TestChamp".to_owned(),
                vec![("en_US".to_owned(), "Testy".to_owned())],
            ),
            (
                "VillainChamp".to_owned(),
                vec![("en_US".to_owned(), "Villain".to_owned())],
            ),
        ],
        item_cache: RiotItems { data: vec![] },
        champion_cache: vec![
            ("TestChamp".to_owned(), target("TestChamp", "Testy", champ_growth(0, 0, 0, 0))),
            (
                "VillainChamp".to_owned(),
                target("VillainChamp", "Villain", champ_growth(1000, 80, 30, 50)),
            ),
        ],
    }
}

fn game() -> GameProps {
    GameProps {
        active_player: active_player(),
        all_players: vec![
            player("me", "ORDER", "Testy", "GeneralDot SummonerDot"),
            player("buddy", "ORDER", "Testy", "GeneralFlash"),
            player("them", "CHAOS", "Villain", "GeneralFlash"),
        ],
        events: GameEvents { events: vec![] },
        game_data: GameData { game_time: zero(), map_number: 11 },
    }
}

fn empty_pack() -> LocalChampion {
    vec![]
}

#[test]
fn basic_attack_and_crit_follow_the_multiplier() {
    // AD 100 with full armor-penetration percent against 80 armor:
    // the physical multiplier is 100/180, the basic attack 55.5555,
    // and the crit doubles it through 200 crit damage.
    let out = calculate(game(), 1001, &store(), &empty_pack()).unwrap();
    assert_eq!(out.all_players.len(), 3);
    let them = out.all_players.iter().find(|p| p.summoner_name == "them").unwrap();
    let dmg = them.damage.as_ref().unwrap();
    assert_eq!(dmg.abilities.len(), 2);
    assert_eq!(dmg.abilities[0].0, "A");
    assert_eq!(dmg.abilities[0].1.min.v, 55_555_500);
    assert_eq!(dmg.abilities[0].1.damage_type, "physical");
    assert_eq!(dmg.abilities[1].0, "C");
    assert_eq!(dmg.abilities[1].1.min.v, 111_111_000);
    assert_eq!(dmg.abilities[1].1.damage_type, "physical");
}

#[test]
fn ignite_contributes_true_damage_by_level() {
    let out = calculate(game(), 1001, &store(), &empty_pack()).unwrap();
    let them = out.all_players.iter().find(|p| p.summoner_name == "them").unwrap();
    let dmg = them.damage.as_ref().unwrap();
    assert_eq!(dmg.spell.len(), 1);
    assert_eq!(dmg.spell[0].0, "SummonerDot");
    assert_eq!(dmg.spell[0].1.min.v, 250 * FX_SCALE);
    assert_eq!(dmg.spell[0].1.damage_type, "true");
    assert_eq!(dmg.spell[0].1.name.as_deref(), Some("Ignite"));
}

#[test]
fn form_picks_the_ranged_formula() {
    // attack range 500 exceeds 350, so the rune's ranged formula "2"
    // is evaluated rather than the melee "1"
    let out = calculate(game(), 1001, &store(), &empty_pack()).unwrap();
    let them = out.all_players.iter().find(|p| p.summoner_name == "them").unwrap();
    let dmg = them.damage.as_ref().unwrap();
    assert_eq!(dmg.runes.len(), 1);
    assert_eq!(dmg.runes[0].0, 9999);
    assert_eq!(dmg.runes[0].1.min.v, 2 * FX_SCALE);
    assert_eq!(dmg.runes[0].1.name.as_deref(), Some("TestRune"));
}

#[test]
fn teammates_pass_through_unenriched() {
    let out = calculate(game(), 1001, &store(), &empty_pack()).unwrap();
    let buddy = out.all_players.iter().find(|p| p.summoner_name == "buddy").unwrap();
    assert!(buddy.damage.is_none());
    assert!(buddy.tool.is_none());
    assert!(buddy.base_stats.is_none());
}

#[test]
fn empty_modifier_tool_swings_nothing() {
    let out = calculate(game(), 1001, &store(), &empty_pack()).unwrap();
    let them = out.all_players.iter().find(|p| p.summoner_name == "them").unwrap();
    let tool = them.tool.as_ref().unwrap();
    assert_eq!(tool.sum.v, 0);
    let dif = tool.dif.as_ref().unwrap();
    for (_, d) in dif.abilities.iter().chain(dif.spell.iter()) {
        assert_eq!(d.min.v, 0);
        if let Some(m) = d.max {
            assert_eq!(m.v, 0);
        }
    }
    for (_, d) in dif.items.iter().chain(dif.runes.iter()) {
        assert_eq!(d.min.v, 0);
    }
    assert!(tool.rec.is_none());
}

#[test]
fn tool_sum_adds_every_recorded_change() {
    // +50 attack damage: A goes from 55.5555 to 83.33325 and C from
    // 111.111 to 166.6665; runes and spells move nothing.
    let out = calculate(game(), 1002, &store(), &empty_pack()).unwrap();
    let them = out.all_players.iter().find(|p| p.summoner_name == "them").unwrap();
    let tool = them.tool.as_ref().unwrap();
    let dif = tool.dif.as_ref().unwrap();
    assert_eq!(dif.abilities[0].1.min.v, 27_777_750);
    assert_eq!(dif.abilities[1].1.min.v, 55_555_500);
    assert_eq!(tool.sum.v, 27_777_750 + 55_555_500);
    assert_eq!(tool.max.abilities[0].1.min.v, 83_333_250);
}

#[test]
fn the_active_player_is_prepared() {
    let out = calculate(game(), 1001, &store(), &empty_pack()).unwrap();
    let a = out.active_player;
    assert_eq!(a.team.as_deref(), Some("ORDER"));
    assert_eq!(a.champion_name.as_deref(), Some("Testy"));
    assert_eq!(a.champion.as_ref().unwrap().id, "TestChamp");
    let tool = a.tool.unwrap();
    assert_eq!(tool.id, 1001);
    assert_eq!(tool.name, "tool-1001");
    assert!(!tool.active);
    assert_eq!(tool.gold, Some(1000));
    let rel = a.relevant.unwrap();
    assert_eq!(rel.abilities.min, vec!["A".to_owned(), "C".to_owned()]);
    assert_eq!(rel.runes.min, vec![9999]);
    assert_eq!(rel.spell.min, vec!["SummonerDot".to_owned()]);
    // the active player's bonus split: all stats are bonus over a
    // zero-growth champion
    assert_eq!(a.bonus_stats.unwrap().attack_damage.v, 100 * FX_SCALE);
    assert_eq!(a.base_stats.unwrap().attack_damage.v, 0);
}

#[test]
fn running_twice_returns_identical_numbers() {
    let out1 = calculate(game(), 1002, &store(), &empty_pack()).unwrap();
    let out2 = calculate(game(), 1002, &store(), &empty_pack()).unwrap();
    let t1 = out1.all_players.iter().find(|p| p.summoner_name == "them").unwrap();
    let t2 = out2.all_players.iter().find(|p| p.summoner_name == "them").unwrap();
    let d1 = t1.damage.as_ref().unwrap();
    let d2 = t2.damage.as_ref().unwrap();
    assert_eq!(d1.abilities.len(), d2.abilities.len());
    for (a, b) in d1.abilities.iter().zip(d2.abilities.iter()) {
        assert_eq!(a.0, b.0);
        assert_eq!(a.1.min, b.1.min);
        assert_eq!(a.1.max, b.1.max);
        assert_eq!(a.1.damage_type, b.1.damage_type);
    }
    assert_eq!(
        t1.tool.as_ref().unwrap().sum,
        t2.tool.as_ref().unwrap().sum
    );
}

#[test]
fn abilities_evaluate_per_rank_and_keep_placeholders() {
    let pack: LocalChampion = vec![
        (
            "Q".to_owned(),
            LocalChampionAbility {
                ability_type: "physical".to_owned(),
                area: None,
                min: vec!["currentAD".to_owned()],
                max: Some(vec!["currentAD*2".to_owned()]),
            },
        ),
        (
            "W".to_owned(),
            LocalChampionAbility {
                ability_type: "magic".to_owned(),
                area: None,
                min: vec![],
                max: None,
            },
        ),
    ];
    let out = calculate(game(), 1001, &store(), &pack).unwrap();
    let them = out.all_players.iter().find(|p| p.summoner_name == "them").unwrap();
    let dmg = them.damage.as_ref().unwrap();
    assert_eq!(dmg.abilities.len(), 4);
    assert_eq!(dmg.abilities[0].0, "Q");
    assert_eq!(dmg.abilities[0].1.min.v, 100 * FX_SCALE);
    assert_eq!(dmg.abilities[0].1.max.unwrap().v, 200 * FX_SCALE);
    // W is unlearned and has no rank formulas: the zero placeholder
    assert_eq!(dmg.abilities[1].0, "W");
    assert_eq!(dmg.abilities[1].1.min.v, 0);
    assert_eq!(dmg.abilities[1].1.damage_type, "mixed");
}

#[test]
fn unknown_tool_fails_the_request() {
    assert_eq!(
        calculate(game(), 4242, &store(), &empty_pack()).unwrap_err(),
        CalcError::ToolNotFound
    );
}

#[test]
fn missing_attacker_fails_the_request() {
    let mut data = game();
    data.active_player.summoner_name = "nobody".to_owned();
    assert_eq!(
        calculate(data, 1001, &store(), &empty_pack()).unwrap_err(),
        CalcError::AttackerNotFound
    );
}

#[test]
fn unusable_pack_keys_fail_the_request() {
    let pack: LocalChampion = vec![(
        "Z".to_owned(),
        LocalChampionAbility {
            ability_type: "magic".to_owned(),
            area: None,
            min: vec!["1".to_owned()],
            max: None,
        },
    )];
    assert_eq!(
        calculate(game(), 1001, &store(), &pack).unwrap_err(),
        CalcError::UnknownAbilityKey
    );
}

#[test]
fn unresolved_opponents_pass_through() {
    let mut data = game();
    data.all_players[2].champion_name = "NobodyKnows".to_owned();
    let out = calculate(data, 1001, &store(), &empty_pack()).unwrap();
    let them = out.all_players.iter().find(|p| p.summoner_name == "them").unwrap();
    assert!(them.damage.is_none());
    assert!(them.tool.is_none());
    assert!(them.champion.is_none());
}

#[test]
fn ignite_is_listed_once_even_from_both_slots() {
    let spells = GameSummonerSpells {
        summoner_spell_one: GameSummonerSpell {
            display_name: "one".to_owned(),
            raw_description: "Has SummonerDot inside".to_owned(),
        },
        summoner_spell_two: GameSummonerSpell {
            display_name: "two".to_owned(),
            raw_description: "SummonerDot".to_owned(),
        },
    };
    let rel = filter_spell(&spells);
    assert_eq!(rel.min, vec!["SummonerDot".to_owned()]);
    assert!(rel.max.is_empty());

    let none = GameSummonerSpells {
        summoner_spell_one: GameSummonerSpell {
            display_name: "one".to_owned(),
            raw_description: "GeneralFlash".to_owned(),
        },
        summoner_spell_two: GameSummonerSpell {
            display_name: "two".to_owned(),
            raw_description: "GeneralHeal".to_owned(),
        },
    };
    assert!(filter_spell(&none).min.is_empty());
}

#[test]
fn champion_names_resolve_through_the_alias_table() {
    let s = store();
    assert_eq!(get_champion(&s.ids, &"Testy".to_owned()), "TestChamp");
    assert_eq!(get_champion(&s.ids, &"Villain".to_owned()), "VillainChamp");
    assert_eq!(get_champion(&s.ids, &"Unknown".to_owned()), "TargetDummy");
}

#[test]
fn missing_items_are_reported() {
    let s = store();
    assert_eq!(item_api(1234, &s.item_cache).unwrap_err(), CalcError::ItemNotFound);
}

#[test]
fn the_pack_slot_holds_what_was_installed() {
    let mut slot = AbilityPackSlot::new();
    assert!(!slot.holds(&"TestChamp".to_owned()));
    slot.install("TestChamp".to_owned(), empty_pack());
    assert!(slot.holds(&"TestChamp".to_owned()));
    assert!(!slot.holds(&"Other".to_owned()));
    assert_eq!(slot.id.as_deref(), Some("TestChamp"));
}

#[test]
fn growth_stats_follow_the_level_curve() {
    let mut g = champ_growth(100, 0, 0, 0);
    g.hpperlevel = units(10);
    let base = GameCoreStats::base_stats(&g, 3);
    // 100 + 10 * 2 * (0.7025 + 0.0175 * 2) = 114.75
    assert_eq!(base.max_health.v, 114_750_000);
    assert_eq!(base.ability_power.v, 0);
}

fn defender_for_properties(def_hp: i64, with_steelcaps: bool) -> GamePlayer {
    let mut p = player("them", "CHAOS", "Villain", "GeneralFlash");
    if with_steelcaps {
        p.items = vec![GamePlayerItems { item_id: 3143 }];
    }
    let base = GameCoreStats {
        max_health: units(def_hp),
        armor: units(80),
        magic_resist: units(30),
        attack_damage: units(50),
        resource_max: zero(),
        ability_power: zero(),
    };
    p.base_stats = Some(base);
    p.champion_stats = Some(base);
    p.bonus_stats = Some(GameCoreStats::default());
    p
}

fn prepared_active(bonus_ad: i64, ap: i64) -> GameActivePlayer {
    let mut a = active_player();
    a.champion_stats.ability_power = units(ap);
    a.champion = Some(target("TestChamp", "Testy", champ_growth(0, 0, 0, 0)));
    a.base_stats = Some(GameCoreStats::default());
    a.bonus_stats = Some(GameCoreStats {
        max_health: zero(),
        armor: zero(),
        magic_resist: zero(),
        attack_damage: units(bonus_ad),
        resource_max: zero(),
        ability_power: units(ap),
    });
    a.relevant = Some(damage_eval::game::GameRelevant {
        abilities: damage_eval::game::GameRelevantProps { min: vec![], max: vec![] },
        items: damage_eval::game::GameRelevantIds { min: vec![], max: vec![] },
        runes: damage_eval::game::GameRelevantIds { min: vec![], max: vec![] },
        spell: damage_eval::game::GameRelevantProps { min: vec![], max: vec![] },
    });
    a
}

#[test]
fn steelcaps_and_randuin_flags_follow_item_3143() {
    let ctx = all_stats(&defender_for_properties(1000, true), &prepared_active(30, 40));
    assert_eq!(ctx.property.steelcaps.v, 880_000);
    assert_eq!(ctx.property.randuin.v, 700_000);
    assert_eq!(ctx.property.rocksolid.v, 3_500_000);
    let ctx = all_stats(&defender_for_properties(1000, false), &prepared_active(30, 40));
    assert_eq!(ctx.property.steelcaps.v, FX_SCALE);
    assert_eq!(ctx.property.randuin.v, FX_SCALE);
    assert_eq!(ctx.property.rocksolid.v, 0);
}

#[test]
fn adaptive_type_flips_with_ability_power() {
    // 0.35 * 30 = 10.5 against 0.2 * 40 = 8: physical
    let ctx = all_stats(&defender_for_properties(1000, false), &prepared_active(30, 40));
    assert!(matches!(ctx.active_player.adaptative.adaptative_type, AllStatsAdaptativeType::Physical));
    // raising ability power to 100 gives 20 > 10.5: magic
    let ctx = all_stats(&defender_for_properties(1000, false), &prepared_active(30, 100));
    assert!(matches!(ctx.active_player.adaptative.adaptative_type, AllStatsAdaptativeType::Magic));
}

#[test]
fn excess_health_caps_at_two_and_a_half_thousand() {
    // defender holds 3000 more health than the attacker's 1000
    let ctx = all_stats(&defender_for_properties(4000, false), &prepared_active(30, 40));
    assert_eq!(ctx.property.excess_health.v, 2_500_000_000);
    let ctx = all_stats(&defender_for_properties(1500, false), &prepared_active(30, 40));
    assert_eq!(ctx.property.excess_health.v, 500 * FX_SCALE);
}

#[test]
fn over_health_folds_into_its_band() {
    let ctx = all_stats(&defender_for_properties(1000, false), &prepared_active(30, 40));
    assert_eq!(ctx.property.over_health.v, 650_000);
    let ctx = all_stats(&defender_for_properties(1500, false), &prepared_active(30, 40));
    assert_eq!(ctx.property.over_health.v, 1_500_000);
    let ctx = all_stats(&defender_for_properties(3000, false), &prepared_active(30, 40));
    assert_eq!(ctx.property.over_health.v, 2_000_000);
}

#[test]
fn the_form_follows_attack_range() {
    let ctx = all_stats(&defender_for_properties(1000, false), &prepared_active(30, 40));
    assert!(matches!(ctx.active_player.form, AllStatsForm::Ranged));
    let mut a = prepared_active(30, 40);
    a.champion_stats.attack_range = units(350);
    let ctx = all_stats(&defender_for_properties(1000, false), &a);
    assert!(matches!(ctx.active_player.form, AllStatsForm::Melee));
}
