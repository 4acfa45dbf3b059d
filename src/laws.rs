//! Properties of the event model and the mapping engine that hold for all inputs.
use vstd::prelude::*;

use crate::codes::{direction_of, AxisCode};
use crate::engine::{
    axes_of, axis_value, buttons_of, engine_of, holds_rule, is_dpad_axis, outputs_for, same_source, state_after,
    EngineView,
};
use crate::input::{is_trigger_axis, InputEvent, ANALOG_CENTER, DEAD_ZONE};
use crate::keyboard::OutputEvent;
use crate::rules::MappingRule;

verus! {

/// An axis sample is in the deadzone exactly when its axis is not a trigger and its value
/// lies within ten of the center, both ends included; on a trigger axis it never is.
pub proof fn lemma_deadzone_boundary(code: AxisCode, value: i32, timestamp: std::time::Instant)
    ensures
        (InputEvent::Axis { code, value, timestamp }).spec_in_deadzone() <==> (!is_trigger_axis(code)
            && ANALOG_CENTER - DEAD_ZONE <= value <= ANALOG_CENTER + DEAD_ZONE),
        is_trigger_axis(code) ==> !(InputEvent::Axis { code, value, timestamp }).spec_in_deadzone(),
{
}

/// Feeding the same axis sample twice in a row: the second emits nothing and leaves the
/// engine as the first left it. When the first moves a D-pad axis out of neutral into a
/// mapped direction, the first emits exactly that direction's press.
pub proof fn lemma_repeated_sample_is_silent(
    e: EngineView,
    code: AxisCode,
    value: i32,
    t1: std::time::Instant,
    t2: std::time::Instant,
)
    ensures
        outputs_for(
            state_after(e, InputEvent::Axis { code, value, timestamp: t1 }),
            InputEvent::Axis { code, value, timestamp: t2 },
        ) == Seq::<OutputEvent>::empty(),
        state_after(
            state_after(e, InputEvent::Axis { code, value, timestamp: t1 }),
            InputEvent::Axis { code, value, timestamp: t2 },
        ) == state_after(e, InputEvent::Axis { code, value, timestamp: t1 }),
        is_dpad_axis(code) && axis_value(e, code) == 0 && direction_of(value as int) is Some
            && e.axes.contains_key((code, direction_of(value as int)->Some_0)) ==> outputs_for(
            e,
            InputEvent::Axis { code, value, timestamp: t1 },
        ) == seq![OutputEvent::press(e.axes[(code, direction_of(value as int)->Some_0)])],
{
    let e1 = state_after(e, InputEvent::Axis { code, value, timestamp: t1 });
    if is_dpad_axis(code) {
        assert(axis_value(e1, code) == value as int);
        assert(e1.states.insert(code, value) =~= e1.states);
        if axis_value(e, code) == 0 && direction_of(value as int) is Some && e.axes.contains_key(
            (code, direction_of(value as int)->Some_0),
        ) {
            assert(outputs_for(e, InputEvent::Axis { code, value, timestamp: t1 }) =~= seq![
                OutputEvent::press(e.axes[(code, direction_of(value as int)->Some_0)]),
            ]);
        }
    }
}

/// When a D-pad axis goes straight from one mapped direction to the opposite one, the
/// engine emits exactly two events: the release of the old direction's key, then the
/// press of the new direction's key.
pub proof fn lemma_direction_flip_order(
    e: EngineView,
    code: AxisCode,
    v1: i32,
    v2: i32,
    t1: std::time::Instant,
    t2: std::time::Instant,
)
    requires
        is_dpad_axis(code),
        direction_of(v1 as int) is Some,
        direction_of(v2 as int) is Some,
        direction_of(v1 as int) != direction_of(v2 as int),
        e.axes.contains_key((code, direction_of(v1 as int)->Some_0)),
        e.axes.contains_key((code, direction_of(v2 as int)->Some_0)),
    ensures
        outputs_for(
            state_after(e, InputEvent::Axis { code, value: v1, timestamp: t1 }),
            InputEvent::Axis { code, value: v2, timestamp: t2 },
        ) == seq![
            OutputEvent::release(e.axes[(code, direction_of(v1 as int)->Some_0)]),
            OutputEvent::press(e.axes[(code, direction_of(v2 as int)->Some_0)]),
        ],
{
    let e1 = state_after(e, InputEvent::Axis { code, value: v1, timestamp: t1 });
    assert(axis_value(e1, code) == v1 as int);
    assert(outputs_for(e1, InputEvent::Axis { code, value: v2, timestamp: t2 }) =~= seq![
        OutputEvent::release(e.axes[(code, direction_of(v1 as int)->Some_0)]),
        OutputEvent::press(e.axes[(code, direction_of(v2 as int)->Some_0)]),
    ]);
}

/// A button without a rule, a sample of an axis other than the D-pad's, and a frame
/// marker each emit nothing and leave the engine unchanged.
pub proof fn lemma_unmapped_inputs_are_silent(e: EngineView, ev: InputEvent)
    requires
        match ev {
            InputEvent::Button { code, .. } => !e.buttons.contains_key(code),
            InputEvent::Axis { code, .. } => !is_dpad_axis(code),
            InputEvent::Sync { .. } => true,
        },
    ensures
        outputs_for(e, ev) == Seq::<OutputEvent>::empty(),
        state_after(e, ev) == e,
{
}

/// Building an engine from a rule list whose sources are all distinct: the rules that
/// hold in the engine are exactly the rules of the list, and the list has no repeats,
/// so re-deriving the engine's rule table gives the list back, none dropped or doubled.
pub proof fn lemma_rule_table_round_trip(rules: Seq<MappingRule>)
    requires
        forall|i: int, j: int|
            0 <= i < j < rules.len() ==> !same_source(#[trigger] rules[i], #[trigger] rules[j]),
    ensures
        forall|x: MappingRule| #[trigger] holds_rule(engine_of(rules), x) <==> rules.contains(x),
        rules.no_duplicates(),
    decreases rules.len(),
{
    if rules.len() > 0 {
        let prev = rules.drop_last();
        let last = rules.last();
        assert forall|i: int, j: int| 0 <= i < j < prev.len() implies !same_source(
            #[trigger] prev[i],
            #[trigger] prev[j],
        ) by {
            assert(prev[i] == rules[i] && prev[j] == rules[j]);
        }
        lemma_rule_table_round_trip(prev);
        match last {
            MappingRule::ButtonToKey { source, target } => {
                assert(buttons_of(rules) == buttons_of(prev).insert(source, target));
                assert(axes_of(rules) == axes_of(prev));
            },
            MappingRule::AxisDirectionToKey { source, direction, target } => {
                assert(buttons_of(rules) == buttons_of(prev));
                assert(axes_of(rules) == axes_of(prev).insert((source, direction), target));
            },
        }
        assert forall|x: MappingRule| #[trigger]
            holds_rule(engine_of(rules), x) <==> rules.contains(x) by {
            assert(holds_rule(engine_of(prev), x) <==> prev.contains(x));
            if rules.contains(x) {
                let k = choose|k: int| 0 <= k < rules.len() && rules[k] == x;
                if k < rules.len() - 1 {
                    assert(prev[k] == x);
                }
            }
            if prev.contains(x) {
                let k = choose|k: int| 0 <= k < prev.len() && prev[k] == x;
                assert(rules[k] == x);
                assert(!same_source(rules[k], rules[rules.len() - 1]));
            }
            if x == last {
                assert(rules[rules.len() - 1] == x);
            }
            assert(rules.contains(x) <==> (prev.contains(x) || x == last));
            if same_source(x, last) {
                assert(!prev.contains(x));
                assert(holds_rule(engine_of(rules), x) <==> x == last);
            } else {
                assert(x != last);
                assert(holds_rule(engine_of(rules), x) <==> holds_rule(engine_of(prev), x));
            }
        }
        assert forall|i: int, j: int| 0 <= i < j < rules.len() implies rules[i] != rules[j] by {
            assert(!same_source(rules[i], rules[j]));
        }
    }
}

} // verus!
