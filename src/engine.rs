//! The mapping engine: turns input events into keyboard events, tracking the
//! last value of each D-pad axis so that direction changes are edge-triggered.
use std::collections::HashMap;
use vstd::prelude::*;

use crate::codes::{direction_of, value_to_direction, AxisCode, AxisDirection, ButtonCode};
use crate::input::InputEvent;
use crate::keyboard::{KeyboardCode, KeyboardEventType, OutputEvent};
use crate::profile::Profile;
use crate::rules::{resolve_all, MappingError, MappingRule};

verus! {

broadcast use vstd::std_specs::hash::group_hash_axioms;

/// The abstract state of an engine: its two rule tables and the last value seen on
/// each tracked axis.
pub struct EngineView {
    pub buttons: Map<ButtonCode, KeyboardCode>,
    pub axes: Map<(AxisCode, AxisDirection), KeyboardCode>,
    pub states: Map<AxisCode, i32>,
}

/// The slot of an axis direction in the axis rule table.
pub open spec fn axis_slot(axis: AxisCode, direction: AxisDirection) -> u8 {
    (axis.spec_index() * 2 + direction.spec_index()) as u8
}

/// Only the two D-pad axes are mapped to discrete directions.
pub open spec fn is_dpad_axis(axis: AxisCode) -> bool {
    axis == AxisCode::DPadX || axis == AxisCode::DPadY
}

/// The last value seen on an axis; zero (neutral) before any.
pub open spec fn axis_value(e: EngineView, axis: AxisCode) -> int {
    if e.states.contains_key(axis) {
        e.states[axis] as int
    } else {
        0
    }
}

/// The release that closes direction `d` of `axis`, if a rule maps it.
pub open spec fn release_of(e: EngineView, axis: AxisCode, d: Option<AxisDirection>) -> Seq<
    OutputEvent,
> {
    match d {
        Some(d) => if e.axes.contains_key((axis, d)) {
            seq![OutputEvent::release(e.axes[(axis, d)])]
        } else {
            Seq::empty()
        },
        None => Seq::empty(),
    }
}

/// The press that opens direction `d` of `axis`, if a rule maps it.
pub open spec fn press_of(e: EngineView, axis: AxisCode, d: Option<AxisDirection>) -> Seq<
    OutputEvent,
> {
    match d {
        Some(d) => if e.axes.contains_key((axis, d)) {
            seq![OutputEvent::press(e.axes[(axis, d)])]
        } else {
            Seq::empty()
        },
        None => Seq::empty(),
    }
}

/// What a move of `axis` from `old_value` to `new_value` emits: nothing while the direction
/// stays the same, else the release of the old direction before the press of the new one.
pub open spec fn axis_outputs(e: EngineView, axis: AxisCode, old_value: int, new_value: int) -> Seq<
    OutputEvent,
> {
    let od = direction_of(old_value);
    let nd = direction_of(new_value);
    if od == nd {
        Seq::empty()
    } else {
        release_of(e, axis, od) + press_of(e, axis, nd)
    }
}

/// What the engine emits for an event.
pub open spec fn outputs_for(e: EngineView, ev: InputEvent) -> Seq<OutputEvent> {
    match ev {
        InputEvent::Button { code, pressed, .. } => if e.buttons.contains_key(code) {
            if pressed {
                seq![OutputEvent::press(e.buttons[code])]
            } else {
                seq![OutputEvent::release(e.buttons[code])]
            }
        } else {
            Seq::empty()
        },
        InputEvent::Axis { code, value, .. } => if is_dpad_axis(code) {
            axis_outputs(e, code, axis_value(e, code), value as int)
        } else {
            Seq::empty()
        },
        InputEvent::Sync { .. } => Seq::empty(),
    }
}

/// The engine's state after an event: a D-pad sample is remembered, nothing else changes.
pub open spec fn state_after(e: EngineView, ev: InputEvent) -> EngineView {
    match ev {
        InputEvent::Axis { code, value, .. } => if is_dpad_axis(code) {
            EngineView { buttons: e.buttons, axes: e.axes, states: e.states.insert(code, value) }
        } else {
            e
        },
        _ => e,
    }
}

/// The button table of a rule list; a later rule for a button replaces an earlier one.
pub open spec fn buttons_of(rules: Seq<MappingRule>) -> Map<ButtonCode, KeyboardCode>
    decreases rules.len(),
{
    if rules.len() == 0 {
        Map::empty()
    } else {
        let m = buttons_of(rules.drop_last());
        match rules.last() {
            MappingRule::ButtonToKey { source, target } => m.insert(source, target),
            _ => m,
        }
    }
}

/// The axis table of a rule list; a later rule for an axis direction replaces an earlier one.
pub open spec fn axes_of(rules: Seq<MappingRule>) -> Map<(AxisCode, AxisDirection), KeyboardCode>
    decreases rules.len(),
{
    if rules.len() == 0 {
        Map::empty()
    } else {
        let m = axes_of(rules.drop_last());
        match rules.last() {
            MappingRule::AxisDirectionToKey { source, direction, target } => m.insert(
                (source, direction),
                target,
            ),
            _ => m,
        }
    }
}

/// A fresh engine built from a rule list.
pub open spec fn engine_of(rules: Seq<MappingRule>) -> EngineView {
    EngineView { buttons: buttons_of(rules), axes: axes_of(rules), states: Map::empty() }
}

/// The rule table built into the program.
pub open spec fn hardcoded_rules() -> Seq<MappingRule> {
    seq![
        MappingRule::ButtonToKey { source: ButtonCode::South, target: KeyboardCode::S },
        MappingRule::ButtonToKey { source: ButtonCode::East, target: KeyboardCode::D },
        MappingRule::ButtonToKey { source: ButtonCode::West, target: KeyboardCode::A },
        MappingRule::AxisDirectionToKey {
            source: AxisCode::DPadY,
            direction: AxisDirection::Negative,
            target: KeyboardCode::Up,
        },
        MappingRule::AxisDirectionToKey {
            source: AxisCode::DPadY,
            direction: AxisDirection::Positive,
            target: KeyboardCode::Down,
        },
        MappingRule::AxisDirectionToKey {
            source: AxisCode::DPadX,
            direction: AxisDirection::Negative,
            target: KeyboardCode::Left,
        },
        MappingRule::AxisDirectionToKey {
            source: AxisCode::DPadX,
            direction: AxisDirection::Positive,
            target: KeyboardCode::Right,
        },
    ]
}

/// The button table as seen through button codes.
pub open spec fn button_view(m: Map<u8, KeyboardCode>) -> Map<ButtonCode, KeyboardCode> {
    Map::new(|b: ButtonCode| m.contains_key(b.spec_index()), |b: ButtonCode| m[b.spec_index()])
}

/// The axis table as seen through axis directions.
pub open spec fn axis_view(m: Map<u8, KeyboardCode>) -> Map<(AxisCode, AxisDirection), KeyboardCode> {
    Map::new(
        |k: (AxisCode, AxisDirection)| m.contains_key(axis_slot(k.0, k.1)),
        |k: (AxisCode, AxisDirection)| m[axis_slot(k.0, k.1)],
    )
}

/// The axis values as seen through axis codes.
pub open spec fn state_view(m: Map<u8, i32>) -> Map<AxisCode, i32> {
    Map::new(|a: AxisCode| m.contains_key(a.spec_index()), |a: AxisCode| m[a.spec_index()])
}

proof fn lemma_button_index_injective(b1: ButtonCode, b2: ButtonCode)
    ensures
        b1.spec_index() == b2.spec_index() <==> b1 == b2,
{
    b1.lemma_index_round_trip();
    b2.lemma_index_round_trip();
}

proof fn lemma_axis_index_injective(a1: AxisCode, a2: AxisCode)
    ensures
        a1.spec_index() == a2.spec_index() <==> a1 == a2,
{
    a1.lemma_index_round_trip();
    a2.lemma_index_round_trip();
}

proof fn lemma_axis_slot_injective(a1: AxisCode, d1: AxisDirection, a2: AxisCode, d2: AxisDirection)
    ensures
        axis_slot(a1, d1) == axis_slot(a2, d2) <==> (a1 == a2 && d1 == d2),
{
    lemma_axis_index_injective(a1, a2);
    a1.lemma_index_round_trip();
    a2.lemma_index_round_trip();
}

proof fn lemma_button_view_insert(m: Map<u8, KeyboardCode>, b: ButtonCode, k: KeyboardCode)
    ensures
        button_view(m.insert(b.spec_index(), k)) == button_view(m).insert(b, k),
{
    assert forall|c: ButtonCode| #![auto] true implies (c.spec_index() == b.spec_index() <==> c
        == b) by {
        lemma_button_index_injective(c, b);
    }
    assert(button_view(m.insert(b.spec_index(), k)) =~= button_view(m).insert(b, k));
}

proof fn lemma_axis_view_insert(
    m: Map<u8, KeyboardCode>,
    a: AxisCode,
    d: AxisDirection,
    k: KeyboardCode,
)
    ensures
        axis_view(m.insert(axis_slot(a, d), k)) == axis_view(m).insert((a, d), k),
{
    assert forall|x: (AxisCode, AxisDirection)| #![auto]
        true implies (axis_slot(x.0, x.1) == axis_slot(a, d) <==> x == (a, d)) by {
        lemma_axis_slot_injective(x.0, x.1, a, d);
    }
    assert(axis_view(m.insert(axis_slot(a, d), k)) =~= axis_view(m).insert((a, d), k));
}

proof fn lemma_state_view_insert(m: Map<u8, i32>, a: AxisCode, v: i32)
    ensures
        state_view(m.insert(a.spec_index(), v)) == state_view(m).insert(a, v),
{
    assert forall|c: AxisCode| #![auto] true implies (c.spec_index() == a.spec_index() <==> c
        == a) by {
        lemma_axis_index_injective(c, a);
    }
    assert(state_view(m.insert(a.spec_index(), v)) =~= state_view(m).insert(a, v));
}

/// Translates input events into keyboard events by a fixed rule table.
pub struct MappingEngine {
    button_rules: HashMap<u8, KeyboardCode>,
    axis_rules: HashMap<u8, KeyboardCode>,
    axis_states: HashMap<u8, i32>,
}

impl View for MappingEngine {
    type V = EngineView;

    closed spec fn view(&self) -> EngineView {
        EngineView {
            buttons: button_view(self.button_rules@),
            axes: axis_view(self.axis_rules@),
            states: state_view(self.axis_states@),
        }
    }
}

fn axis_slot_of(axis: AxisCode, direction: AxisDirection) -> (r: u8)
    ensures
        r == axis_slot(axis, direction),
{
    proof {
        axis.lemma_index_round_trip();
    }
    axis.index() * 2 + direction.index()
}

fn same_direction(a: Option<AxisDirection>, b: Option<AxisDirection>) -> (r: bool)
    ensures
        r == (a == b),
{
    match (a, b) {
        (None, None) => true,
        (Some(x), Some(y)) => x == y,
        _ => false,
    }
}

impl MappingEngine {
    /// An engine whose tables hold the rules of the list, a later rule for the same
    /// button or axis direction replacing an earlier one, and with no axis state.
    pub fn from_rule_table(rules: &Vec<MappingRule>) -> (r: Self)
        ensures
            r@ == engine_of(rules@),
    {
        let mut button_rules: HashMap<u8, KeyboardCode> = HashMap::new();
        let mut axis_rules: HashMap<u8, KeyboardCode> = HashMap::new();
        let axis_states: HashMap<u8, i32> = HashMap::new();
        let mut i: usize = 0;
        assert(state_view(axis_states@) =~= Map::empty());
        assert(button_view(button_rules@) =~= Map::empty());
        assert(axis_view(axis_rules@) =~= Map::empty());
        assert(rules@.take(0) =~= Seq::empty());
        while i < rules.len()
            invariant
                i <= rules@.len(),
                button_view(button_rules@) == buttons_of(rules@.take(i as int)),
                axis_view(axis_rules@) == axes_of(rules@.take(i as int)),
            decreases rules@.len() - i,
        {
            let rule = rules[i];
            assert(rules@.take(i + 1).drop_last() =~= rules@.take(i as int));
            assert(rules@.take(i + 1).last() == rule);
            match rule {
                MappingRule::ButtonToKey { source, target } => {
                    proof {
                        lemma_button_view_insert(button_rules@, source, target);
                    }
                    button_rules.insert(source.index(), target);
                },
                MappingRule::AxisDirectionToKey { source, direction, target } => {
                    proof {
                        lemma_axis_view_insert(axis_rules@, source, direction, target);
                    }
                    axis_rules.insert(axis_slot_of(source, direction), target);
                },
            }
            i = i + 1;
        }
        assert(rules@.take(rules@.len() as int) =~= rules@);
        MappingEngine { button_rules, axis_rules, axis_states }
    }

    /// An engine with the built-in rules: South to S, East to D, West to A, and the
    /// D-pad to the arrow keys.
    pub fn new_hardcoded() -> (r: Self)
        ensures
            r@ == engine_of(hardcoded_rules()),
    {
        let rules = vec![
            MappingRule::button_to_key(ButtonCode::South, KeyboardCode::S),
            MappingRule::button_to_key(ButtonCode::East, KeyboardCode::D),
            MappingRule::button_to_key(ButtonCode::West, KeyboardCode::A),
            MappingRule::axis_direction_to_key(
                AxisCode::DPadY,
                AxisDirection::Negative,
                KeyboardCode::Up,
            ),
            MappingRule::axis_direction_to_key(
                AxisCode::DPadY,
                AxisDirection::Positive,
                KeyboardCode::Down,
            ),
            MappingRule::axis_direction_to_key(
                AxisCode::DPadX,
                AxisDirection::Negative,
                KeyboardCode::Left,
            ),
            MappingRule::axis_direction_to_key(
                AxisCode::DPadX,
                AxisDirection::Positive,
                KeyboardCode::Right,
            ),
        ];
        assert(rules@ =~= hardcoded_rules());
        Self::from_rule_table(&rules)
    }

    /// An engine with the rules of a profile's entries, in order. Fails with the error of the
    /// first entry that does not resolve.
    pub fn load_from_profile(profile: &Profile) -> (r: Result<Self, MappingError>)
        ensures
            match r {
                Ok(e) => resolve_all(profile.mappings@) matches Ok(rules) && e@ == engine_of(
                    rules,
                ),
                Err(err) => resolve_all(profile.mappings@) == Err::<Seq<MappingRule>, _>(err),
            },
    {
        let mut rules: Vec<MappingRule> = Vec::new();
        let mut i: usize = 0;
        assert(profile.mappings@.take(0) =~= Seq::empty());
        while i < profile.mappings.len()
            invariant
                i <= profile.mappings@.len(),
                resolve_all(profile.mappings@.take(i as int)) == Ok::<_, MappingError>(rules@),
            decreases profile.mappings@.len() - i,
        {
            let next = profile.mappings[i].to_rule();
            assert(profile.mappings@.take(i + 1).drop_last() =~= profile.mappings@.take(i as int));
            match next {
                Ok(rule) => {
                    rules.push(rule);
                },
                Err(e) => {
                    proof {
                        lemma_resolve_all_keeps_error(profile.mappings@, i + 1);
                    }
                    return Err(e);
                },
            }
            i = i + 1;
        }
        assert(profile.mappings@.take(profile.mappings@.len() as int) =~= profile.mappings@);
        Ok(Self::from_rule_table(&rules))
    }

    /// The keyboard events for one input event (see `outputs_for`); only a D-pad sample
    /// changes the engine (see `state_after`).
    pub fn process(&mut self, event: &InputEvent) -> (r: Vec<OutputEvent>)
        ensures
            r@ == outputs_for(old(self)@, *event),
            final(self)@ == state_after(old(self)@, *event),
    {
        match event {
            InputEvent::Button { code, pressed, .. } => self.process_button(*code, *pressed),
            InputEvent::Axis { code, value, .. } => self.process_axis(*code, *value),
            InputEvent::Sync { .. } => Vec::new(),
        }
    }

    fn process_button(&self, code: ButtonCode, pressed: bool) -> (r: Vec<OutputEvent>)
        ensures
            r@ == outputs_for(
                self@,
                InputEvent::Button { code, pressed, timestamp: arbitrary() },
            ),
    {
        match self.button_rules.get(&code.index()) {
            Some(target) => {
                let event_type = if pressed {
                    KeyboardEventType::Press
                } else {
                    KeyboardEventType::Release
                };
                vec![OutputEvent::Keyboard { code: *target, event_type }]
            },
            None => Vec::new(),
        }
    }

    fn process_axis(&mut self, code: AxisCode, new_value: i32) -> (r: Vec<OutputEvent>)
        ensures
            r@ == outputs_for(
                old(self)@,
                InputEvent::Axis { code, value: new_value, timestamp: arbitrary() },
            ),
            final(self)@ == state_after(
                old(self)@,
                InputEvent::Axis { code, value: new_value, timestamp: arbitrary() },
            ),
    {
        if !(code == AxisCode::DPadX || code == AxisCode::DPadY) {
            return Vec::new();
        }
        let key = code.index();
        let old_value: i32 = match self.axis_states.get(&key) {
            Some(v) => *v,
            None => 0,
        };
        proof {
            lemma_state_view_insert(self.axis_states@, code, new_value);
        }
        self.axis_states.insert(key, new_value);

        let mut events: Vec<OutputEvent> = Vec::new();
        let old_direction = value_to_direction(old_value);
        let new_direction = value_to_direction(new_value);
        if !same_direction(old_direction, new_direction) {
            if let Some(d) = old_direction {
                if let Some(target) = self.axis_rules.get(&axis_slot_of(code, d)) {
                    events.push(
                        OutputEvent::Keyboard {
                            code: *target,
                            event_type: KeyboardEventType::Release,
                        },
                    );
                }
            }
            if let Some(d) = new_direction {
                if let Some(target) = self.axis_rules.get(&axis_slot_of(code, d)) {
                    events.push(
                        OutputEvent::Keyboard { code: *target, event_type: KeyboardEventType::Press },
                    );
                }
            }
        }
        assert(events@ =~= outputs_for(
            old(self)@,
            InputEvent::Axis { code, value: new_value, timestamp: arbitrary() },
        ));
        events
    }
}

/// Whether an engine's tables map a rule's source to the rule's target.
pub open spec fn holds_rule(e: EngineView, rule: MappingRule) -> bool {
    match rule {
        MappingRule::ButtonToKey { source, target } => e.buttons.contains_key(source)
            && e.buttons[source] == target,
        MappingRule::AxisDirectionToKey { source, direction, target } => e.axes.contains_key(
            (source, direction),
        ) && e.axes[(source, direction)] == target,
    }
}

/// Two rules with the same source: the same button, or the same direction of the same axis.
pub open spec fn same_source(a: MappingRule, b: MappingRule) -> bool {
    match (a, b) {
        (
            MappingRule::ButtonToKey { source: s1, .. },
            MappingRule::ButtonToKey { source: s2, .. },
        ) => s1 == s2,
        (
            MappingRule::AxisDirectionToKey { source: s1, direction: d1, .. },
            MappingRule::AxisDirectionToKey { source: s2, direction: d2, .. },
        ) => s1 == s2 && d1 == d2,
        _ => false,
    }
}

/// Where a rule stands in a derived rule table: buttons first, then axis directions.
spec fn table_order(rule: MappingRule) -> int {
    match rule {
        MappingRule::ButtonToKey { source, .. } => source.spec_index() as int,
        MappingRule::AxisDirectionToKey { source, direction, .. } => 20 + axis_slot(
            source,
            direction,
        ) as int,
    }
}

proof fn lemma_table_order_bounds(rule: MappingRule)
    ensures
        0 <= table_order(rule) < 38,
        rule is ButtonToKey <==> table_order(rule) < 20,
{
    match rule {
        MappingRule::ButtonToKey { source, .. } => source.lemma_index_round_trip(),
        MappingRule::AxisDirectionToKey { source, .. } => source.lemma_index_round_trip(),
    }
}

proof fn lemma_push_keeps_contents(s: Seq<MappingRule>, x: MappingRule)
    ensures
        forall|y: MappingRule| s.contains(y) ==> #[trigger] s.push(x).contains(y),
        s.push(x).contains(x),
{
    assert forall|y: MappingRule| s.contains(y) implies #[trigger] s.push(x).contains(y) by {
        let j = choose|j: int| 0 <= j < s.len() && s[j] == y;
        assert(s.push(x)[j] == y);
    }
    assert(s.push(x)[s.len() as int] == x);
}

proof fn lemma_ordered_no_duplicates(s: Seq<MappingRule>)
    requires
        forall|j1: int, j2: int|
            0 <= j1 < j2 < s.len() ==> table_order(#[trigger] s[j1]) < table_order(
                #[trigger] s[j2],
            ),
    ensures
        s.no_duplicates(),
{
}

impl MappingEngine {
    /// The effective rules of the engine's tables: each mapped button and each mapped axis
    /// direction once, buttons first.
    pub fn rule_table(&self) -> (r: Vec<MappingRule>)
        ensures
            r@.no_duplicates(),
            forall|x: MappingRule| #[trigger] r@.contains(x) <==> holds_rule(self@, x),
    {
        let mut out: Vec<MappingRule> = Vec::new();
        let mut i: u8 = 0;
        while i < 20
            invariant
                i <= 20,
                forall|j: int|
                    0 <= j < out@.len() ==> holds_rule(self@, #[trigger] out@[j]) && table_order(
                        out@[j],
                    ) < i,
                forall|j1: int, j2: int|
                    0 <= j1 < j2 < out@.len() ==> table_order(#[trigger] out@[j1]) < table_order(
                        #[trigger] out@[j2],
                    ),
                forall|x: MappingRule|
                    holds_rule(self@, x) && table_order(x) < i ==> #[trigger] out@.contains(x),
            decreases 20 - i,
        {
            let b = ButtonCode::at(i);
            proof {
                ButtonCode::lemma_at_round_trip(i);
            }
            let ghost before = out@;
            match self.button_rules.get(&i) {
                Some(target) => {
                    let rule = MappingRule::ButtonToKey { source: b, target: *target };
                    out.push(rule);
                    proof {
                        lemma_push_keeps_contents(before, rule);
                    }
                },
                None => {},
            }
            proof {
                assert forall|x: MappingRule|
                    holds_rule(self@, x) && table_order(x) < i + 1 implies #[trigger] out@.contains(
                    x,
                ) by {
                    lemma_table_order_bounds(x);
                    if table_order(x) == i as int {
                        if let MappingRule::ButtonToKey { source, target } = x {
                            lemma_button_index_injective(source, b);
                        }
                    }
                }
            }
            i = i + 1;
        }
        let mut s: u8 = 0;
        while s < 18
            invariant
                s <= 18,
                forall|j: int|
                    0 <= j < out@.len() ==> holds_rule(self@, #[trigger] out@[j]) && table_order(
                        out@[j],
                    ) < 20 + s,
                forall|j1: int, j2: int|
                    0 <= j1 < j2 < out@.len() ==> table_order(#[trigger] out@[j1]) < table_order(
                        #[trigger] out@[j2],
                    ),
                forall|x: MappingRule|
                    holds_rule(self@, x) && table_order(x) < 20 + s ==> #[trigger] out@.contains(
                        x,
                    ),
            decreases 18 - s,
        {
            let a = AxisCode::at(s / 2);
            let d = if s % 2 == 0 {
                AxisDirection::Positive
            } else {
                AxisDirection::Negative
            };
            proof {
                AxisCode::lemma_at_round_trip(s / 2);
                assert(axis_slot(a, d) == s);
            }
            let ghost before = out@;
            match self.axis_rules.get(&s) {
                Some(target) => {
                    let rule = MappingRule::AxisDirectionToKey {
                        source: a,
                        direction: d,
                        target: *target,
                    };
                    out.push(rule);
                    proof {
                        lemma_push_keeps_contents(before, rule);
                    }
                },
                None => {},
            }
            proof {
                assert forall|x: MappingRule|
                    holds_rule(self@, x) && table_order(x) < 20 + s + 1 implies #[trigger] out@.contains(
                    x,
                ) by {
                    lemma_table_order_bounds(x);
                    if table_order(x) == 20 + s {
                        if let MappingRule::AxisDirectionToKey { source, direction, target } = x {
                            lemma_axis_slot_injective(source, direction, a, d);
                        }
                    }
                }
            }
            s = s + 1;
        }
        proof {
            lemma_ordered_no_duplicates(out@);
            assert forall|x: MappingRule| #[trigger] out@.contains(x) implies holds_rule(self@, x) by {
                let j = choose|j: int| 0 <= j < out@.len() && out@[j] == x;
            }
            assert forall|x: MappingRule| holds_rule(self@, x) implies #[trigger] out@.contains(x) by {
                lemma_table_order_bounds(x);
            }
        }
        out
    }
}

/// Once an entry fails to resolve, every longer list fails with the same error.
proof fn lemma_resolve_all_keeps_error(ms: Seq<crate::rules::Mapping>, n: int)
    requires
        0 <= n <= ms.len(),
        resolve_all(ms.take(n)) is Err,
    ensures
        resolve_all(ms) == resolve_all(ms.take(n)),
    decreases ms.len() - n,
{
    if n < ms.len() {
        assert(ms.take(n + 1).drop_last() =~= ms.take(n));
        lemma_resolve_all_keeps_error(ms, n + 1);
    } else {
        assert(ms.take(n) =~= ms);
    }
}

} // verus!
