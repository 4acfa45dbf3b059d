//! Mapping rules, the named profile entries they are written as, and how a
//! profile entry resolves to a rule.
use vstd::prelude::*;

use crate::codes::{AxisCode, AxisDirection, ButtonCode};
use crate::keyboard::KeyboardCode;

verus! {

/// One rule of a rule table.
#[derive(Debug, Clone, Copy, PartialEq, Eq, Structural)]
pub enum MappingRule {
    ButtonToKey { source: ButtonCode, target: KeyboardCode },
    AxisDirectionToKey { source: AxisCode, direction: AxisDirection, target: KeyboardCode },
}

impl MappingRule {
    pub fn button_to_key(source: ButtonCode, target: KeyboardCode) -> (r: Self)
        ensures
            r == (MappingRule::ButtonToKey { source, target }),
    {
        MappingRule::ButtonToKey { source, target }
    }

    pub fn axis_direction_to_key(
        source: AxisCode,
        direction: AxisDirection,
        target: KeyboardCode,
    ) -> (r: Self)
        ensures
            r == (MappingRule::AxisDirectionToKey { source, direction, target }),
    {
        MappingRule::AxisDirectionToKey { source, direction, target }
    }
}

/// The kind of device a profile entry targets.
#[derive(Debug, Clone, Copy, PartialEq, Eq, Structural)]
pub enum TargetType {
    Keyboard,
    Mouse,
    Gamepad,
}

/// A profile entry, written with names rather than codes.
#[derive(Debug, Clone)]
pub struct Mapping {
    /// Name of the source button or axis.
    pub source_name: String,
    /// Name of the axis direction; present exactly for axis entries.
    pub source_direction: Option<String>,
    pub target_type: TargetType,
    /// Name of the target key.
    pub target_name: String,
}

/// Why a profile entry does not resolve to a rule.
#[derive(Debug, Clone, Copy, PartialEq, Eq, Structural)]
pub enum MappingError {
    /// The source names no button (or, with a direction, no axis).
    UnknownSource,
    /// The direction is neither `Positive` nor `Negative`.
    UnknownDirection,
    /// The target names no key.
    UnknownTarget,
    /// Only keyboard targets can be mapped.
    UnsupportedTarget,
}

/// The rule a profile entry denotes, or why it denotes none. Sources are checked first,
/// then the direction, then the target.
pub open spec fn resolve_mapping(m: Mapping) -> Result<MappingRule, MappingError> {
    match m.source_direction {
        None => {
            let source = ButtonCode::spec_from_name(m.source_name@);
            if source == ButtonCode::Unknown {
                Err(MappingError::UnknownSource)
            } else {
                match resolve_target(m) {
                    Ok(target) => Ok(MappingRule::ButtonToKey { source, target }),
                    Err(e) => Err(e),
                }
            }
        },
        Some(d) => {
            let source = AxisCode::spec_from_name(m.source_name@);
            if source == AxisCode::Unknown {
                Err(MappingError::UnknownSource)
            } else {
                match AxisDirection::spec_from_name(d@) {
                    None => Err(MappingError::UnknownDirection),
                    Some(direction) => match resolve_target(m) {
                        Ok(target) => Ok(MappingRule::AxisDirectionToKey { source, direction, target }),
                        Err(e) => Err(e),
                    },
                }
            }
        },
    }
}

/// The key a profile entry targets.
pub open spec fn resolve_target(m: Mapping) -> Result<KeyboardCode, MappingError> {
    if m.target_type != TargetType::Keyboard {
        Err(MappingError::UnsupportedTarget)
    } else {
        match KeyboardCode::spec_from_name(m.target_name@) {
            Some(k) => Ok(k),
            None => Err(MappingError::UnknownTarget),
        }
    }
}

/// The rules of a list of entries in order, or the error of the first entry that
/// does not resolve.
pub open spec fn resolve_all(ms: Seq<Mapping>) -> Result<Seq<MappingRule>, MappingError>
    decreases ms.len(),
{
    if ms.len() == 0 {
        Ok(Seq::empty())
    } else {
        match resolve_all(ms.drop_last()) {
            Err(e) => Err(e),
            Ok(rules) => match resolve_mapping(ms.last()) {
                Err(e) => Err(e),
                Ok(rule) => Ok(rules.push(rule)),
            },
        }
    }
}

fn resolve_target_of(m: &Mapping) -> (r: Result<KeyboardCode, MappingError>)
    ensures
        r == resolve_target(*m),
{
    if m.target_type != TargetType::Keyboard {
        return Err(MappingError::UnsupportedTarget);
    }
    match KeyboardCode::from_name(m.target_name.as_str()) {
        Some(k) => Ok(k),
        None => Err(MappingError::UnknownTarget),
    }
}

impl Mapping {
    /// The rule this entry denotes: a button entry when it has no direction, an axis entry
    /// when it has one.
    pub fn to_rule(&self) -> (r: Result<MappingRule, MappingError>)
        ensures
            r == resolve_mapping(*self),
    {
        match &self.source_direction {
            None => {
                let source = ButtonCode::from_name(self.source_name.as_str());
                if source == ButtonCode::Unknown {
                    return Err(MappingError::UnknownSource);
                }
                match resolve_target_of(self) {
                    Ok(target) => Ok(MappingRule::ButtonToKey { source, target }),
                    Err(e) => Err(e),
                }
            },
            Some(d) => {
                let source = AxisCode::from_name(self.source_name.as_str());
                if source == AxisCode::Unknown {
                    return Err(MappingError::UnknownSource);
                }
                match AxisDirection::from_name(d.as_str()) {
                    None => Err(MappingError::UnknownDirection),
                    Some(direction) => match resolve_target_of(self) {
                        Ok(target) => Ok(
                            MappingRule::AxisDirectionToKey { source, direction, target },
                        ),
                        Err(e) => Err(e),
                    },
                }
            },
        }
    }

    /// The entry that writes a rule with the codes' display names.
    pub open spec fn names_rule(self, rule: MappingRule) -> bool {
        &&& self.target_type == TargetType::Keyboard
        &&& match rule {
            MappingRule::ButtonToKey { source, target } => {
                &&& self.source_name@ == source.spec_label()
                &&& self.source_direction is None
                &&& self.target_name@ == target.spec_label()
            },
            MappingRule::AxisDirectionToKey { source, direction, target } => {
                &&& self.source_name@ == source.spec_label()
                &&& self.source_direction matches Some(d) && d@ == direction.spec_label()
                &&& self.target_name@ == target.spec_label()
            },
        }
    }

    /// Writes a rule as a keyboard entry, with the codes' display names.
    pub fn from_rule(rule: &MappingRule) -> (r: Mapping)
        ensures
            r.names_rule(*rule),
    {
        match rule {
            MappingRule::ButtonToKey { source, target } => Mapping {
                source_name: source.to_string(),
                source_direction: None,
                target_type: TargetType::Keyboard,
                target_name: target.to_string(),
            },
            MappingRule::AxisDirectionToKey { source, direction, target } => Mapping {
                source_name: source.to_string(),
                source_direction: Some(direction.to_string()),
                target_type: TargetType::Keyboard,
                target_name: target.to_string(),
            },
        }
    }
}

} // verus!
