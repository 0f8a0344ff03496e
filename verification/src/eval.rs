//! Binding substitution and formula evaluation against an evaluation
//! context.
//!
//! A formula names its inputs (`currentAD`, `bonusHP`, ...).  Each
//! binding is substituted at word boundaries with the decimal text of
//! its fixed-point value, one binding after the other, and the
//! resulting arithmetic text is evaluated.  A binding is skipped when
//! its name is not a usable identifier or when the running text is not
//! ASCII; the catalogs never trigger either case, and the contract
//! records the policy exactly.

use crate::expr::eval_formula_s;
use crate::expr::eval_formula_chars;
use crate::fx::{fx_chars, fx_to_chars, sat64, Fx, FX_SCALE};
use crate::target::TargetAllStats;
use crate::text::{
    all_ascii, chars_to_string, is_word_name, replace_word, str_to_chars, word_name_ok,
    word_replaced, MAX_BINDING_NAME,
};
use vstd::prelude::*;
use vstd::utf8::is_ascii_chars;

verus! {

/// A binding table: name to value.
pub type TargetReplacements = Vec<(String, Fx)>;

/// View of a binding table.
pub open spec fn reps_view(v: Seq<(String, Fx)>) -> Seq<(Seq<char>, int)> {
    v.map_values(|p: (String, Fx)| (p.0@, p.1@))
}

/// One substitution round: word-boundary replacement of `name` by the
/// decimal text of `val`, or the text unchanged when the name is not a
/// usable identifier of sensible length or the text is not ASCII.
pub open spec fn subst_one_s(t: Seq<char>, name: Seq<char>, val: int) -> Seq<char> {
    let v = fx_chars(val);
    if is_word_name(name) && name.len() <= MAX_BINDING_NAME as nat && is_ascii_chars(t)
        && is_ascii_chars(name) && is_ascii_chars(v) {
        word_replaced(t, name, v)
    } else {
        t
    }
}

/// The text after the bindings from position `i` on have been
/// substituted, one after the other.
pub open spec fn subst_from_s(t: Seq<char>, reps: Seq<(Seq<char>, int)>, i: int) -> Seq<char>
    decreases reps.len() - i,
{
    if i < 0 || i >= reps.len() {
        t
    } else {
        subst_from_s(subst_one_s(t, reps[i].0, reps[i].1), reps, i + 1)
    }
}

/// The value of a formula under a binding table: substitute every
/// binding, then evaluate the arithmetic text.
pub open spec fn eval_with_s(formula: Seq<char>, reps: Seq<(Seq<char>, int)>) -> int {
    eval_formula_s(subst_from_s(formula, reps, 0))
}

/// Substitute every binding into the formula, in table order.
fn substitute(formula: &String, reps: &TargetReplacements) -> (r: String)
    ensures
        r@ == subst_from_s(formula@, reps_view(reps@), 0),
{
    let mut text: String = formula.clone();
    let mut i: usize = 0;
    while i < reps.len()
        invariant
            i <= reps@.len(),
            subst_from_s(formula@, reps_view(reps@), 0) == subst_from_s(
                text@,
                reps_view(reps@),
                i as int,
            ),
        decreases reps@.len() - i,
    {
        let name: &String = &reps[i].0;
        let val: Fx = reps[i].1;
        let val_chars = fx_to_chars(val);
        let name_chars = str_to_chars(name.as_str());
        let text_chars = str_to_chars(text.as_str());
        proof {
            assert(reps_view(reps@)[i as int] == (name@, val@));
        }
        if word_name_ok(&name_chars) && name_chars.len() <= MAX_BINDING_NAME && all_ascii(
            &text_chars,
        ) && all_ascii(&name_chars) && all_ascii(&val_chars) {
            let val_str = chars_to_string(&val_chars);
            text = replace_word(text.as_str(), name.as_str(), val_str.as_str());
        }
        i = i + 1;
    }
    text
}

/// Evaluate a formula under a binding table.
pub fn eval_with(formula: &String, reps: &TargetReplacements) -> (r: Fx)
    ensures
        r@ == eval_with_s(formula@, reps_view(reps@)),
{
    let text = substitute(formula, reps);
    let chars = str_to_chars(text.as_str());
    eval_formula_chars(&chars)
}

proof fn lemma_reps_view_push(s: Seq<(String, Fx)>, p: (String, Fx))
    ensures
        reps_view(s.push(p)) =~= reps_view(s).push((p.0@, p.1@)),
{
}

/// The binding table drawn from an evaluation context, in substitution
/// order.
pub open spec fn replacements_s(stats: TargetAllStats) -> Seq<(Seq<char>, int)> {
    let x = stats.active_player;
    let y = stats.player;
    let z = stats.property;
    let k = x.champion_stats;
    let t = x.base_stats;
    let n = x.bonus_stats;
    let m = y.champion_stats;
    seq![
        ("steelcapsEffect"@, z.steelcaps@),
        ("attackReductionEffect"@, z.rocksolid@),
        ("exceededHP"@, z.excess_health@),
        ("missingHP"@, z.missing_health@),
        ("magicMod"@, x.multiplier.magic@),
        ("physicalMod"@, x.multiplier.physical@),
        ("level"@, sat64(x.level as int * (FX_SCALE as int))),
        ("currentAP"@, k.ability_power@),
        ("currentAD"@, k.attack_damage@),
        ("currentLethality"@, k.physical_lethality@),
        ("maxHP"@, k.max_health@),
        ("maxMana"@, k.resource_max@),
        ("currentMR"@, k.magic_resist@),
        ("currentArmor"@, k.armor@),
        ("currentHealth"@, k.current_health@),
        ("basicAttack"@, FX_SCALE as int),
        ("attackSpeed"@, FX_SCALE as int),
        ("critChance"@, k.crit_chance@),
        ("critDamage"@, k.crit_damage@),
        ("adaptative"@, x.adaptative.ratio@),
        ("baseHP"@, t.max_health@),
        ("baseMana"@, t.resource_max@),
        ("baseArmor"@, t.armor@),
        ("baseMR"@, t.magic_resist@),
        ("baseAD"@, t.attack_damage@),
        ("bonusAD"@, n.attack_damage@),
        ("bonusHP"@, n.max_health@),
        ("bonusArmor"@, n.armor@),
        ("bonusMR"@, n.magic_resist@),
        ("expectedHealth"@, m.max_health@),
        ("expectedMana"@, m.resource_max@),
        ("expectedArmor"@, m.armor@),
        ("expectedMR"@, m.magic_resist@),
        ("expectedAD"@, m.attack_damage@),
        ("expectedBonusHealth"@, y.bonus_stats.max_health@),
    ]
}

/// Build the binding table of an evaluation context.
#[verifier::rlimit(60)]
pub fn json_replacements(stats: &TargetAllStats) -> (r: TargetReplacements)
    ensures
        reps_view(r@) == replacements_s(*stats),
{
    let x = &stats.active_player;
    let y = &stats.player;
    let z = &stats.property;
    let k = &x.champion_stats;
    let t = &x.base_stats;
    let n = &x.bonus_stats;
    let m = &y.champion_stats;

    let mut r: TargetReplacements = Vec::new();
    r.push(("steelcapsEffect".to_owned(), z.steelcaps));
    r.push(("attackReductionEffect".to_owned(), z.rocksolid));
    r.push(("exceededHP".to_owned(), z.excess_health));
    r.push(("missingHP".to_owned(), z.missing_health));
    r.push(("magicMod".to_owned(), x.multiplier.magic));
    r.push(("physicalMod".to_owned(), x.multiplier.physical));
    r.push(("level".to_owned(), Fx::from_units(x.level as i64)));
    r.push(("currentAP".to_owned(), k.ability_power));
    r.push(("currentAD".to_owned(), k.attack_damage));
    r.push(("currentLethality".to_owned(), k.physical_lethality));
    r.push(("maxHP".to_owned(), k.max_health));
    r.push(("maxMana".to_owned(), k.resource_max));
    r.push(("currentMR".to_owned(), k.magic_resist));
    r.push(("currentArmor".to_owned(), k.armor));
    r.push(("currentHealth".to_owned(), k.current_health));
    r.push(("basicAttack".to_owned(), Fx { v: FX_SCALE }));
    r.push(("attackSpeed".to_owned(), Fx { v: FX_SCALE }));
    r.push(("critChance".to_owned(), k.crit_chance));
    r.push(("critDamage".to_owned(), k.crit_damage));
    r.push(("adaptative".to_owned(), x.adaptative.ratio));
    r.push(("baseHP".to_owned(), t.max_health));
    r.push(("baseMana".to_owned(), t.resource_max));
    r.push(("baseArmor".to_owned(), t.armor));
    r.push(("baseMR".to_owned(), t.magic_resist));
    r.push(("baseAD".to_owned(), t.attack_damage));
    r.push(("bonusAD".to_owned(), n.attack_damage));
    r.push(("bonusHP".to_owned(), n.max_health));
    r.push(("bonusArmor".to_owned(), n.armor));
    r.push(("bonusMR".to_owned(), n.magic_resist));
    r.push(("expectedHealth".to_owned(), m.max_health));
    r.push(("expectedMana".to_owned(), m.resource_max));
    r.push(("expectedArmor".to_owned(), m.armor));
    r.push(("expectedMR".to_owned(), m.magic_resist));
    r.push(("expectedAD".to_owned(), m.attack_damage));
    r.push(("expectedBonusHealth".to_owned(), y.bonus_stats.max_health));
    proof {
        assert(reps_view(r@) =~= replacements_s(*stats));
    }
    r
}

/// The full binding table: the caller's extra bindings first, then
/// the context's.  A caller binding is substituted before any context
/// binding of the same name, and substituted digits are never touched
/// again, so on a name collision the caller's value wins.
pub open spec fn full_reps_s(stats: TargetAllStats, inc: Option<Seq<(Seq<char>, int)>>) -> Seq<
    (Seq<char>, int),
> {
    match inc {
        Option::Some(extra) => extra + replacements_s(stats),
        Option::None => replacements_s(stats),
    }
}

/// View of an optional extra binding table.
pub open spec fn inc_view(inc: Option<Vec<(String, Fx)>>) -> Option<Seq<(Seq<char>, int)>> {
    match inc {
        Option::Some(v) => Option::Some(reps_view(v@)),
        Option::None => Option::None,
    }
}

/// Evaluate a pair of formulas against a context, with optional extra
/// bindings; a missing upper formula yields a missing upper value.
/// Extra bindings are substituted before the context's, so on a name
/// collision the caller's value overrides the context's.
pub fn evaluate(
    min: &String,
    max: Option<&String>,
    rep: &TargetAllStats,
    inc: Option<TargetReplacements>,
) -> (r: (Fx, Option<Fx>))
    ensures
        r.0@ == eval_with_s(min@, full_reps_s(*rep, inc_view(inc))),
        match (r.1, max) {
            (Option::Some(v), Option::Some(f)) => v@ == eval_with_s(
                f@,
                full_reps_s(*rep, inc_view(inc)),
            ),
            (Option::None, Option::None) => true,
            _ => false,
        },
{
    let context: TargetReplacements = json_replacements(rep);
    match inc {
        Option::Some(extra) => {
            let mut replacements: TargetReplacements = extra;
            let ghost extra0 = replacements@;
            let mut j: usize = 0;
            proof {
                assert(reps_view(extra0) + reps_view(context@.subrange(0, 0)) =~= reps_view(
                    extra0,
                ));
            }
            while j < context.len()
                invariant
                    j <= context@.len(),
                    reps_view(context@) == replacements_s(*rep),
                    reps_view(replacements@) == reps_view(extra0) + reps_view(
                        context@.subrange(0, j as int),
                    ),
                decreases context@.len() - j,
            {
                let p: (String, Fx) = (context[j].0.clone(), context[j].1);
                let ghost pre = replacements@;
                replacements.push(p);
                proof {
                    lemma_reps_view_push(pre, p);
                    assert(context@.subrange(0, j + 1) =~= context@.subrange(0, j as int).push(
                        context@[j as int],
                    ));
                    lemma_reps_view_push(context@.subrange(0, j as int), context@[j as int]);
                    assert(reps_view(replacements@) =~= reps_view(extra0) + reps_view(
                        context@.subrange(0, j + 1),
                    ));
                }
                j = j + 1;
            }
            proof {
                assert(context@.subrange(0, context@.len() as int) =~= context@);
            }
            let res_min = eval_with(min, &replacements);
            let res_max = match max {
                Option::Some(f) => Option::Some(eval_with(f, &replacements)),
                Option::None => Option::None,
            };
            (res_min, res_max)
        },
        Option::None => {
            let res_min = eval_with(min, &context);
            let res_max = match max {
                Option::Some(f) => Option::Some(eval_with(f, &context)),
                Option::None => Option::None,
            };
            (res_min, res_max)
        },
    }
}

} // verus!
