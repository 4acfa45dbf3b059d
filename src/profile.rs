//! Named controller profiles: an ordered list of entries and a few settings.
use vstd::prelude::*;

use crate::codes::{AxisCode, AxisDirection, ButtonCode};
use crate::keyboard::KeyboardCode;
use crate::rules::{Mapping, MappingRule};

verus! {

/// A complete controller profile.
#[derive(Debug, Clone)]
pub struct Profile {
    pub name: String,
    pub description: String,
    pub game_name: Option<String>,
    pub mappings: Vec<Mapping>,
    pub settings: ProfileSettings,
}

/// Settings that travel with a profile.
#[derive(Debug, Clone, Copy, PartialEq, Eq, Structural)]
pub struct ProfileSettings {
    pub vibration_enabled: bool,
    /// Strength of vibration, 0 to 100.
    pub vibration_intensity: u8,
}

pub fn default_vibration_enabled() -> (r: bool)
    ensures
        r,
{
    true
}

pub fn default_vibration_intensity() -> (r: u8)
    ensures
        r == 100,
{
    100
}

impl Default for ProfileSettings {
    fn default() -> (r: Self)
        ensures
            r.vibration_enabled,
            r.vibration_intensity == 100,
    {
        ProfileSettings {
            vibration_enabled: default_vibration_enabled(),
            vibration_intensity: default_vibration_intensity(),
        }
    }
}

/// The rules of the default profile, in the order it lists them.
pub open spec fn default_rules() -> Seq<MappingRule> {
    seq![
        MappingRule::ButtonToKey { source: ButtonCode::North, target: KeyboardCode::W },
        MappingRule::ButtonToKey { source: ButtonCode::West, target: KeyboardCode::A },
        MappingRule::ButtonToKey { source: ButtonCode::South, target: KeyboardCode::S },
        MappingRule::ButtonToKey { source: ButtonCode::East, target: KeyboardCode::D },
        MappingRule::ButtonToKey { source: ButtonCode::Select, target: KeyboardCode::Escape },
        MappingRule::ButtonToKey { source: ButtonCode::Start, target: KeyboardCode::Enter },
        MappingRule::AxisDirectionToKey {
            source: AxisCode::DPadY,
            direction: AxisDirection::Negative,
            target: KeyboardCode::Up,
        },
        MappingRule::AxisDirectionToKey {
            source: AxisCode::DPadY,
            direction: AxisDirection::Positive,
            target: KeyboardCode::Down,
        },
        MappingRule::AxisDirectionToKey {
            source: AxisCode::DPadX,
            direction: AxisDirection::Negative,
            target: KeyboardCode::Left,
        },
        MappingRule::AxisDirectionToKey {
            source: AxisCode::DPadX,
            direction: AxisDirection::Positive,
            target: KeyboardCode::Right,
        },
    ]
}

impl Profile {
    /// The built-in profile: face buttons to W/A/S/D, Select to Escape, Start to Enter,
    /// the D-pad to the arrow keys.
    pub fn default_profile() -> (r: Self)
        ensures
            r.name@ == "Default"@,
            r.description@ == "Default button mappings"@,
            r.game_name is None,
            r.mappings@.len() == default_rules().len(),
            forall|i: int|
                0 <= i < r.mappings@.len() ==> #[trigger] r.mappings@[i].names_rule(
                    default_rules()[i],
                ),
            r.settings.vibration_enabled,
            r.settings.vibration_intensity == 100,
    {
        let rules = vec![
            MappingRule::button_to_key(ButtonCode::North, KeyboardCode::W),
            MappingRule::button_to_key(ButtonCode::West, KeyboardCode::A),
            MappingRule::button_to_key(ButtonCode::South, KeyboardCode::S),
            MappingRule::button_to_key(ButtonCode::East, KeyboardCode::D),
            MappingRule::button_to_key(ButtonCode::Select, KeyboardCode::Escape),
            MappingRule::button_to_key(ButtonCode::Start, KeyboardCode::Enter),
            MappingRule::axis_direction_to_key(
                AxisCode::DPadY,
                AxisDirection::Negative,
                KeyboardCode::Up,
            ),
            MappingRule::axis_direction_to_key(
                AxisCode::DPadY,
                AxisDirection::Positive,
                KeyboardCode::Down,
            ),
            MappingRule::axis_direction_to_key(
                AxisCode::DPadX,
                AxisDirection::Negative,
                KeyboardCode::Left,
            ),
            MappingRule::axis_direction_to_key(
                AxisCode::DPadX,
                AxisDirection::Positive,
                KeyboardCode::Right,
            ),
        ];
        assert(rules@ =~= default_rules());
        let mut mappings: Vec<Mapping> = Vec::new();
        let mut i: usize = 0;
        while i < rules.len()
            invariant
                rules@ == default_rules(),
                i <= rules@.len(),
                mappings@.len() == i,
                forall|j: int| 0 <= j < i ==> #[trigger] mappings@[j].names_rule(rules@[j]),
            decreases rules@.len() - i,
        {
            mappings.push(Mapping::from_rule(&rules[i]));
            i = i + 1;
        }
        Profile {
            name: String::from_str("Default"),
            description: String::from_str("Default button mappings"),
            game_name: None,
            mappings,
            settings: ProfileSettings::default(),
        }
    }
}

} // verus!
