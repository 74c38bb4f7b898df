//! The action registry: the fixed table of logical action names this
//! application cares about, independent of controller hardware.
//!
//! Exactly one action set is used. The digital names map to boolean
//! pressed states, the analog names to 2-D values. The registry is fixed
//! at build time and never mutated.

use vstd::prelude::*;

verus! {

/// The one action set activated on every controller.
pub open spec fn action_set_name_spec() -> Seq<char> {
    "GameControls"@
}

/// The logical digital action names, in registry order.
pub open spec fn digital_action_names() -> Seq<Seq<char>> {
    seq![
        "confirm"@,
        "cancel"@,
        "end_turn"@,
        "menu"@,
        "move_up"@,
        "move_down"@,
        "move_left"@,
        "move_right"@,
        "zoom_in"@,
        "zoom_out"@,
        "gamepad_drag"@,
        "cursor_speed_down"@,
        "cursor_speed_up"@,
    ]
}

/// The logical analog action names, in registry order.
pub open spec fn analog_action_names() -> Seq<Seq<char>> {
    seq!["cursor_move"@, "map_pan"@]
}

/// The registry declares each logical name exactly once, and no name is
/// both digital and analog. A handle cache whose name sequences equal the
/// registry's therefore holds exactly one entry per declared name,
/// partitioned correctly by kind.
pub proof fn lemma_registry_names_distinct()
    ensures
        digital_action_names().no_duplicates(),
        analog_action_names().no_duplicates(),
        forall|i: int, j: int|
            0 <= i < digital_action_names().len() && 0 <= j < analog_action_names().len()
                ==> digital_action_names()[i] != analog_action_names()[j],
{
    reveal_strlit("confirm");
    reveal_strlit("cancel");
    reveal_strlit("end_turn");
    reveal_strlit("menu");
    reveal_strlit("move_up");
    reveal_strlit("move_down");
    reveal_strlit("move_left");
    reveal_strlit("move_right");
    reveal_strlit("zoom_in");
    reveal_strlit("zoom_out");
    reveal_strlit("gamepad_drag");
    reveal_strlit("cursor_speed_down");
    reveal_strlit("cursor_speed_up");
    reveal_strlit("cursor_move");
    reveal_strlit("map_pan");
    let d = digital_action_names();
    assert(d[0] == "confirm"@ && d[1] == "cancel"@ && d[2] == "end_turn"@ && d[3] == "menu"@);
    assert(d[4] == "move_up"@ && d[5] == "move_down"@ && d[6] == "move_left"@ && d[7]
        == "move_right"@);
    assert(d[8] == "zoom_in"@ && d[9] == "zoom_out"@ && d[10] == "gamepad_drag"@ && d[11]
        == "cursor_speed_down"@ && d[12] == "cursor_speed_up"@);
    let a = analog_action_names();
    assert(a[0] == "cursor_move"@ && a[1] == "map_pan"@);
    // Same-length names differ at the index named here; the rest differ
    // in length already.
    assert("confirm"@[0] == 'c' && "move_up"@[0] == 'm' && "zoom_in"@[0] == 'z');
    assert("end_turn"@[0] == 'e' && "zoom_out"@[0] == 'z');
    assert("move_down"@[5] == 'd' && "move_left"@[5] == 'l');
    assert("move_up"@[1] == 'o' && "map_pan"@[1] == 'a');
    assert forall|i: int, j: int| 0 <= i < j < d.len() implies d[i] != d[j] by {}
    assert(a[0] != a[1]);
    assert forall|i: int, j: int|
        0 <= i < d.len() && 0 <= j < a.len() implies d[i] != a[j] by {}
}

/// The name of the one action set.
pub fn action_set_name() -> (r: &'static str)
    ensures
        r@ == action_set_name_spec(),
{
    "GameControls"
}

/// The digital action names as owned strings, in registry order.
pub fn digital_names() -> (r: Vec<String>)
    ensures
        r@.len() == digital_action_names().len(),
        forall|i: int| 0 <= i < r@.len() ==> r@[i]@ == digital_action_names()[i],
{
    let mut v: Vec<String> = Vec::new();
    v.push("confirm".to_owned());
    v.push("cancel".to_owned());
    v.push("end_turn".to_owned());
    v.push("menu".to_owned());
    v.push("move_up".to_owned());
    v.push("move_down".to_owned());
    v.push("move_left".to_owned());
    v.push("move_right".to_owned());
    v.push("zoom_in".to_owned());
    v.push("zoom_out".to_owned());
    v.push("gamepad_drag".to_owned());
    v.push("cursor_speed_down".to_owned());
    v.push("cursor_speed_up".to_owned());
    v
}

/// The analog action names as owned strings, in registry order.
pub fn analog_names() -> (r: Vec<String>)
    ensures
        r@.len() == analog_action_names().len(),
        forall|i: int| 0 <= i < r@.len() ==> r@[i]@ == analog_action_names()[i],
{
    let mut v: Vec<String> = Vec::new();
    v.push("cursor_move".to_owned());
    v.push("map_pan".to_owned());
    v
}

} // verus!
