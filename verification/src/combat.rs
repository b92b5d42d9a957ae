//! Attack resolution: ability modifiers, critical hits, damage, and the
//! function that resolves one attack roll against a defender.

use crate::character::Character;
use crate::character::CharacterView;
use crate::character::Combatants;
use crate::character::CombatantsView;
use crate::character::Vitality;
use vstd::prelude::*;

verus! {

/// The ability modifier for a score: half the score, rounded toward zero,
/// minus five. This is truncating division, matching the executable `/`.
pub open spec fn spec_modifier_for(score: int) -> int {
    (if score >= 0 {
        score / 2
    } else {
        -((-score) / 2)
    }) - 5
}

/// The ability modifier derived from an ability score: `score / 2 - 5`
/// with truncating division. Total: no score is rejected.
pub fn modifier_for(score: i64) -> (modifier: i64)
    ensures
        modifier == spec_modifier_for(score as int),
{
    score / 2 - 5
}

/// The damage multiplier for a roll: 2 on a critical hit (a roll of
/// exactly 20), 1 otherwise.
pub open spec fn spec_crit_multiplier(roll: int) -> int {
    if roll == 20 {
        2
    } else {
        1
    }
}

/// The damage multiplier for a roll. Only a roll of exactly 20 is a
/// critical hit; 19 and 21 both are not.
pub fn get_crit_multiplier(roll: i64) -> (multiplier: i64)
    ensures
        multiplier == spec_crit_multiplier(roll as int),
{
    if roll == 20 {
        2
    } else {
        1
    }
}

/// Vitality as a function of hit points: dead iff the hit points are at
/// or below zero.
pub open spec fn spec_vitality(hit_points: int) -> Vitality {
    if hit_points <= 0 {
        Vitality::Dead
    } else {
        Vitality::Alive
    }
}

/// Classify a hit-point value: `Dead` iff it is at or below zero.
pub fn get_vitality(hit_points: i64) -> (vitality: Vitality)
    ensures
        vitality == spec_vitality(hit_points as int),
{
    if hit_points <= 0 {
        Vitality::Dead
    } else {
        Vitality::Alive
    }
}

/// The hit points a defender loses: the full damage when the roll meets
/// or exceeds the armor class, nothing otherwise.
pub open spec fn spec_hit_point_reduction(roll: int, armor_class: int, damage: int) -> int {
    if roll >= armor_class {
        damage
    } else {
        0
    }
}

/// The hit points a defender loses to a roll: the attack connects iff the
/// (modified) roll meets or exceeds the (modified) armor class.
pub fn get_hit_point_reduction(roll: i64, armor_class: i64, damage: i64) -> (reduction: i64)
    ensures
        reduction == spec_hit_point_reduction(roll as int, armor_class as int, damage as int),
{
    if roll >= armor_class {
        damage
    } else {
        0
    }
}

/// The damage a connecting attack deals: base damage 1 plus the strength
/// modifier, both doubled on a critical hit, floored at 1.
pub open spec fn spec_modified_damage(roll: int, modifier: int) -> int {
    let damage = spec_crit_multiplier(roll) * (1 + modifier);
    if damage < 1 {
        1
    } else {
        damage
    }
}

/// The damage a connecting attack deals, never below 1 however negative
/// the strength modifier is. The bounds on `modifier` only keep the
/// doubled sum within the machine integer range.
pub fn get_modified_damage(roll: i64, modifier: i64) -> (damage: i64)
    requires
        1 + modifier <= i64::MAX,
        i64::MIN <= spec_crit_multiplier(roll as int) * (1 + modifier),
        spec_crit_multiplier(roll as int) * (1 + modifier) <= i64::MAX,
    ensures
        damage == spec_modified_damage(roll as int, modifier as int),
        damage >= 1,
{
    let normal_damage: i64 = 1;
    let crit_multiplier: i64 = get_crit_multiplier(roll);
    let modified_damage: i64 = crit_multiplier * (normal_damage + modifier);
    if modified_damage < 1 {
        1
    } else {
        modified_damage
    }
}

/// Hit points adjusted by the constitution modifier, floored at 1. Used
/// only to decide vitality, never stored as the displayed hit points.
pub open spec fn spec_modified_hit_points(hit_points: int, modifier: int) -> int {
    let modified = hit_points + modifier;
    if modified >= 1 {
        modified
    } else {
        1
    }
}

/// Hit points adjusted by an ability modifier, floored at 1.
pub fn get_modified_hit_points(hit_points: i64, modifier: i64) -> (modified: i64)
    requires
        i64::MIN <= hit_points + modifier <= i64::MAX,
    ensures
        modified == spec_modified_hit_points(hit_points as int, modifier as int),
        modified >= 1,
{
    let modified_hit_points: i64 = hit_points + modifier;
    if modified_hit_points >= 1 {
        modified_hit_points
    } else {
        1
    }
}

/// What one attack resolution returns, over the mathematical model.
///
/// In order: the attacker's strength modifier is added to the roll; the
/// defender's dexterity modifier is added to the armor class; the attack
/// connects iff the modified roll meets or exceeds the modified armor
/// class. A connecting attack subtracts the modified damage from the
/// defender's stored hit points. Vitality, however, is decided from the
/// constitution-adjusted hit points (floored at 1) minus that same damage:
/// the stored hit points and the death check deliberately run on separate
/// tracks. The attacker gains 10 experience whether or not the attack
/// connects; every other field passes through unchanged.
pub open spec fn spec_attack(combatants: CombatantsView, roll: int) -> CombatantsView {
    let attacker = combatants.attacker;
    let defender = combatants.defender;
    let strength_modifier = spec_modifier_for(attacker.strength);
    let dexterity_modifier = spec_modifier_for(defender.dexterity);
    let constitution_modifier = spec_modifier_for(defender.constitution);
    let modified_roll = roll + strength_modifier;
    let modified_damage = spec_modified_damage(roll, strength_modifier);
    let modified_armor_class = defender.armor_class + dexterity_modifier;
    let modified_hit_points = spec_modified_hit_points(defender.hit_points, constitution_modifier);
    let hit_point_reduction = spec_hit_point_reduction(
        modified_roll,
        modified_armor_class,
        modified_damage,
    );
    CombatantsView {
        attacker: CharacterView {
            name: attacker.name,
            alignment: attacker.alignment,
            armor_class: attacker.armor_class,
            hit_points: attacker.hit_points,
            vitality: attacker.vitality,
            strength: attacker.strength,
            dexterity: attacker.dexterity,
            constitution: attacker.constitution,
            wisdom: attacker.wisdom,
            intelligence: attacker.intelligence,
            charisma: attacker.charisma,
            experience: attacker.experience + 10,
        },
        defender: CharacterView {
            name: defender.name,
            alignment: defender.alignment,
            armor_class: defender.armor_class,
            hit_points: defender.hit_points - hit_point_reduction,
            vitality: spec_vitality(modified_hit_points - hit_point_reduction),
            strength: defender.strength,
            dexterity: defender.dexterity,
            constitution: defender.constitution,
            wisdom: defender.wisdom,
            intelligence: defender.intelligence,
            charisma: defender.charisma,
            experience: defender.experience,
        },
    }
}

/// Whether every intermediate value of one attack resolution fits in a
/// machine integer. The rules themselves are total over all integers;
/// these bounds are only what the fixed-width representation forces.
pub open spec fn attack_fits(combatants: CombatantsView, roll: int) -> bool {
    let strength_modifier = spec_modifier_for(combatants.attacker.strength);
    let dexterity_modifier = spec_modifier_for(combatants.defender.dexterity);
    let constitution_modifier = spec_modifier_for(combatants.defender.constitution);
    let modified_damage = spec_modified_damage(roll, strength_modifier);
    let modified_armor_class = combatants.defender.armor_class + dexterity_modifier;
    &&& i64::MIN <= roll + strength_modifier <= i64::MAX
    &&& i64::MIN <= spec_crit_multiplier(roll) * (1 + strength_modifier) <= i64::MAX
    &&& i64::MIN <= modified_armor_class <= i64::MAX
    &&& i64::MIN <= combatants.defender.hit_points + constitution_modifier <= i64::MAX
    &&& (roll + strength_modifier >= modified_armor_class ==> i64::MIN
        <= combatants.defender.hit_points - modified_damage)
    &&& combatants.attacker.experience + 10 <= i64::MAX
}

/// Resolve one attack roll. Returns the pair with the defender's hit
/// points and vitality updated and the attacker's experience raised by 10;
/// the precondition only keeps the arithmetic within machine integers.
pub fn attack(combatants: Combatants, roll: i64) -> (result: Combatants)
    requires
        attack_fits(combatants@, roll as int),
    ensures
        result@ == spec_attack(combatants@, roll as int),
{
    let attacker = combatants.attacker;
    let defender = combatants.defender;
    let strength_modifier: i64 = modifier_for(attacker.strength);
    let dexterity_modifier: i64 = modifier_for(defender.dexterity);
    let constitution_modifier: i64 = modifier_for(defender.constitution);
    let modified_roll: i64 = roll + strength_modifier;
    let modified_damage: i64 = get_modified_damage(roll, strength_modifier);
    let modified_armor_class: i64 = defender.armor_class + dexterity_modifier;
    let modified_hit_points: i64 = get_modified_hit_points(
        defender.hit_points,
        constitution_modifier,
    );
    let hit_point_reduction: i64 = get_hit_point_reduction(
        modified_roll,
        modified_armor_class,
        modified_damage,
    );
    let new_hit_points: i64 = defender.hit_points - hit_point_reduction;
    let new_vitality = get_vitality(modified_hit_points - hit_point_reduction);
    Combatants {
        attacker: Character {
            name: attacker.name,
            alignment: attacker.alignment,
            armor_class: attacker.armor_class,
            hit_points: attacker.hit_points,
            vitality: attacker.vitality,
            strength: attacker.strength,
            dexterity: attacker.dexterity,
            constitution: attacker.constitution,
            wisdom: attacker.wisdom,
            intelligence: attacker.intelligence,
            charisma: attacker.charisma,
            experience: attacker.experience + 10,
        },
        defender: Character {
            name: defender.name,
            alignment: defender.alignment,
            armor_class: defender.armor_class,
            hit_points: new_hit_points,
            vitality: new_vitality,
            strength: defender.strength,
            dexterity: defender.dexterity,
            constitution: defender.constitution,
            wisdom: defender.wisdom,
            intelligence: defender.intelligence,
            charisma: defender.charisma,
            experience: defender.experience,
        },
    }
}

/// Damage never falls below 1, however negative the strength modifier:
/// the floor applies to critical and non-critical rolls alike.
pub proof fn lemma_minimum_damage(roll: int, modifier: int)
    ensures
        spec_modified_damage(roll, modifier) >= 1,
{
}

/// A critical hit doubles both the base damage and the strength-modifier
/// contribution: with a non-negative modifier, a roll of 20 deals
/// `2 * (1 + modifier)`, twice what any other roll deals. (With a negative
/// modifier the floor at 1 breaks the doubling.)
pub proof fn lemma_critical_hit_doubles_damage(roll: int, modifier: int)
    requires
        roll != 20,
        modifier >= 0,
    ensures
        spec_modified_damage(20, modifier) == 2 * (1 + modifier),
        spec_modified_damage(20, modifier) == 2 * spec_modified_damage(roll, modifier),
{
}

/// Whether the attack connects: the strength-modified roll meets or
/// exceeds the dexterity-modified armor class.
pub open spec fn attack_hits(combatants: CombatantsView, roll: int) -> bool {
    roll + spec_modifier_for(combatants.attacker.strength) >= combatants.defender.armor_class
        + spec_modifier_for(combatants.defender.dexterity)
}

/// A miss leaves a living defender entirely unchanged: hit points,
/// vitality, and every other field. (A dead defender is the exception:
/// vitality is always recomputed, and the constitution-adjusted hit
/// points are floored at 1, so even a missed dead defender is classified
/// alive again.)
pub proof fn lemma_miss_leaves_defender_unchanged(combatants: CombatantsView, roll: int)
    requires
        !attack_hits(combatants, roll),
        combatants.defender.vitality == Vitality::Alive,
    ensures
        spec_attack(combatants, roll).defender == combatants.defender,
{
}

/// A connecting attack reduces the defender's stored hit points by exactly
/// the modified damage, and by nothing else.
pub proof fn lemma_hit_reduces_hit_points_by_damage(combatants: CombatantsView, roll: int)
    requires
        attack_hits(combatants, roll),
    ensures
        spec_attack(combatants, roll).defender.hit_points == combatants.defender.hit_points
            - spec_modified_damage(roll, spec_modifier_for(combatants.attacker.strength)),
{
}

/// Every resolution grants the attacker exactly 10 experience, hit or
/// miss; the defender's experience never moves.
pub proof fn lemma_attack_grants_experience(combatants: CombatantsView, roll: int)
    ensures
        spec_attack(combatants, roll).attacker.experience == combatants.attacker.experience + 10,
        spec_attack(combatants, roll).defender.experience == combatants.defender.experience,
{
}

/// Resolution is not idempotent: feeding the returned pair back in with
/// the same roll wounds the defender again by the same damage, since a
/// resolution changes nothing that the hit test or the damage reads.
pub proof fn lemma_repeated_attack_wounds_again(combatants: CombatantsView, roll: int)
    requires
        attack_hits(combatants, roll),
    ensures
        attack_hits(spec_attack(combatants, roll), roll),
        spec_attack(spec_attack(combatants, roll), roll).defender.hit_points
            < spec_attack(combatants, roll).defender.hit_points,
        spec_attack(spec_attack(combatants, roll), roll).defender.hit_points
            == combatants.defender.hit_points - 2 * spec_modified_damage(
            roll,
            spec_modifier_for(combatants.attacker.strength),
        ),
{
}

} // verus!
