//! The combatant data model: alignment, vitality, a character snapshot, and
//! the attacker/defender pair that one attack resolution transforms.

use vstd::prelude::*;

verus! {

/// A character's moral outlook. Descriptive only: it never enters the
/// combat arithmetic.
#[derive(PartialEq, Eq, Structural, Clone, Copy, Debug)]
pub enum Alignment {
    Good,
    Neutral,
    Evil,
}

/// Whether a character is alive or dead. Derived from hit points after an
/// attack, never set directly by a caller.
#[derive(PartialEq, Eq, Structural, Clone, Copy, Debug)]
pub enum Vitality {
    Alive,
    Dead,
}

/// One combatant snapshot. A value type: an attack never mutates a
/// `Character` in place, it returns new snapshots.
pub struct Character {
    pub name: String,
    pub alignment: Alignment,
    pub armor_class: i64,
    pub hit_points: i64,
    pub vitality: Vitality,
    pub strength: i64,
    pub dexterity: i64,
    pub constitution: i64,
    pub wisdom: i64,
    pub intelligence: i64,
    pub charisma: i64,
    pub experience: i64,
}

/// The mathematical model of a `Character`: the same fields over
/// unbounded integers, with the name as a sequence of characters.
pub ghost struct CharacterView {
    pub name: Seq<char>,
    pub alignment: Alignment,
    pub armor_class: int,
    pub hit_points: int,
    pub vitality: Vitality,
    pub strength: int,
    pub dexterity: int,
    pub constitution: int,
    pub wisdom: int,
    pub intelligence: int,
    pub charisma: int,
    pub experience: int,
}

impl View for Character {
    type V = CharacterView;

    open spec fn view(&self) -> CharacterView {
        CharacterView {
            name: self.name@,
            alignment: self.alignment,
            armor_class: self.armor_class as int,
            hit_points: self.hit_points as int,
            vitality: self.vitality,
            strength: self.strength as int,
            dexterity: self.dexterity as int,
            constitution: self.constitution as int,
            wisdom: self.wisdom as int,
            intelligence: self.intelligence as int,
            charisma: self.charisma as int,
            experience: self.experience as int,
        }
    }
}

/// The default template: an unnamed evil character with armor class 10,
/// 5 hit points, every ability score 10, and no experience.
pub open spec fn default_character_view() -> CharacterView {
    CharacterView {
        name: Seq::empty(),
        alignment: Alignment::Evil,
        armor_class: 10,
        hit_points: 5,
        vitality: Vitality::Alive,
        strength: 10,
        dexterity: 10,
        constitution: 10,
        wisdom: 10,
        intelligence: 10,
        charisma: 10,
        experience: 0,
    }
}

impl Default for Character {
    /// Build the default template, from which callers override fields.
    fn default() -> (c: Character)
        ensures
            c@ == default_character_view(),
    {
        let name = String::new();
        proof {
            assert(name@ =~= Seq::<char>::empty());
        }
        Character {
            name,
            alignment: Alignment::Evil,
            armor_class: 10,
            hit_points: 5,
            vitality: Vitality::Alive,
            strength: 10,
            dexterity: 10,
            constitution: 10,
            wisdom: 10,
            intelligence: 10,
            charisma: 10,
            experience: 0,
        }
    }
}

/// The attacker/defender pair that one attack resolution consumes and
/// produces. The roles are positional only: the same two characters may be
/// paired the other way round for the next round.
pub struct Combatants {
    pub attacker: Character,
    pub defender: Character,
}

/// The mathematical model of a `Combatants` pair.
pub ghost struct CombatantsView {
    pub attacker: CharacterView,
    pub defender: CharacterView,
}

impl View for Combatants {
    type V = CombatantsView;

    open spec fn view(&self) -> CombatantsView {
        CombatantsView { attacker: self.attacker@, defender: self.defender@ }
    }
}

} // verus!
