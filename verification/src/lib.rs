//! A verified resolver for one attack in a simple tabletop-style combat
//! system: given an attacker, a defender, and a roll, compute the new pair
//! of combatants.

pub mod character;
pub mod combat;

pub use character::Alignment;
pub use character::Character;
pub use character::CharacterView;
pub use character::Combatants;
pub use character::CombatantsView;
pub use character::Vitality;
pub use character::default_character_view;
pub use combat::attack;
pub use combat::get_crit_multiplier;
pub use combat::get_hit_point_reduction;
pub use combat::get_modified_damage;
pub use combat::get_modified_hit_points;
pub use combat::get_vitality;
pub use combat::modifier_for;
