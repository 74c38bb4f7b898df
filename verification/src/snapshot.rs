//! Hardware-agnostic controller snapshots and the glyph-map builder: the
//! pure step from native readings to the values handed to consumers.

use crate::kinds::classify_code;
use crate::kinds::classify_input_type;
use crate::kinds::ControllerKind;
use vstd::prelude::*;

verus! {

/// A 2-D analog reading, carried as the raw bit patterns of the two native
/// single-precision components. The bridge never computes on the values, it
/// only moves them, so they stay opaque bit patterns here; consumers decode
/// them at the boundary.
#[derive(Clone, Copy, Debug, PartialEq, Eq, Structural)]
pub struct AnalogPair {
    /// Bit pattern of the first (x) component.
    pub x_bits: u32,
    /// Bit pattern of the second (y) component.
    pub y_bits: u32,
}

/// The per-controller result of one poll: identity, family, one pressed
/// state per digital action, one 2-D value per analog action. Produced
/// fresh every poll and never persisted.
pub struct ControllerSnapshot {
    /// The native controller handle; never zero.
    pub handle: u64,
    /// The controller family.
    pub kind: ControllerKind,
    /// Digital action name, paired with its pressed state.
    pub actions: Vec<(String, bool)>,
    /// Analog action name, paired with its current 2-D value.
    pub analogs: Vec<(String, AnalogPair)>,
}

impl ControllerSnapshot {
    /// The digital action names of this snapshot, in order.
    pub open spec fn action_names(self) -> Seq<Seq<char>> {
        self.actions@.map_values(|p: (String, bool)| p.0@)
    }

    /// The analog action names of this snapshot, in order.
    pub open spec fn analog_names(self) -> Seq<Seq<char>> {
        self.analogs@.map_values(|p: (String, AnalogPair)| p.0@)
    }
}

/// Assembles one snapshot from native readings handed in as plain values:
/// the controller handle, its input-type code, and one reading per name.
/// The result's mappings hold exactly the given names, in the given order.
pub fn build_snapshot(
    handle: u64,
    type_code: u32,
    digital_names: &Vec<String>,
    pressed: &Vec<bool>,
    analog_names: &Vec<String>,
    values: &Vec<AnalogPair>,
) -> (r: ControllerSnapshot)
    requires
        handle != 0,
        digital_names@.len() == pressed@.len(),
        analog_names@.len() == values@.len(),
    ensures
        r.handle == handle,
        r.kind == classify_code(type_code),
        r.actions@.len() == digital_names@.len(),
        forall|i: int|
            0 <= i < digital_names@.len() ==> (#[trigger] r.actions@[i]).0@ == digital_names@[i]@
                && r.actions@[i].1 == pressed@[i],
        r.analogs@.len() == analog_names@.len(),
        forall|i: int|
            0 <= i < analog_names@.len() ==> (#[trigger] r.analogs@[i]).0@ == analog_names@[i]@
                && r.analogs@[i].1 == values@[i],
{
    let kind = classify_input_type(type_code);
    let mut actions: Vec<(String, bool)> = Vec::new();
    let mut i: usize = 0;
    while i < digital_names.len()
        invariant
            i <= digital_names@.len(),
            digital_names@.len() == pressed@.len(),
            actions@.len() == i,
            forall|j: int|
                0 <= j < i ==> (#[trigger] actions@[j]).0@ == digital_names@[j]@ && actions@[j].1
                    == pressed@[j],
        decreases digital_names@.len() - i,
    {
        actions.push((digital_names[i].clone(), pressed[i]));
        i += 1;
    }
    let mut analogs: Vec<(String, AnalogPair)> = Vec::new();
    let mut k: usize = 0;
    while k < analog_names.len()
        invariant
            k <= analog_names@.len(),
            analog_names@.len() == values@.len(),
            analogs@.len() == k,
            forall|j: int|
                0 <= j < k ==> (#[trigger] analogs@[j]).0@ == analog_names@[j]@ && analogs@[j].1
                    == values@[j],
        decreases analog_names@.len() - k,
    {
        analogs.push((analog_names[k].clone(), values[k]));
        k += 1;
    }
    ControllerSnapshot { handle, kind, actions, analogs }
}

/// The glyph mapping built from one resolved path per digital action:
/// `lookups[i]` is the glyph path of the first origin bound to action `i`,
/// or `None` where no origin is bound. Actions without an origin and
/// actions whose resolved path is empty are omitted; the rest keep
/// registry order.
pub open spec fn glyph_entries(names: Seq<Seq<char>>, lookups: Seq<Option<Seq<char>>>) -> Seq<
    (Seq<char>, Seq<char>),
>
    decreases names.len(),
{
    if names.len() == 0 || names.len() != lookups.len() {
        seq![]
    } else {
        let init = glyph_entries(names.drop_last(), lookups.drop_last());
        match lookups.last() {
            Some(p) => if p.len() > 0 {
                init.push((names.last(), p))
            } else {
                init
            },
            None => init,
        }
    }
}

/// Every glyph entry is sound: its name is one of the given action names,
/// its path is that action's resolved path, and the path is not empty. In
/// particular no entry exists for an action with no bound origin or an
/// empty resolved path.
pub proof fn lemma_glyph_entries_sound(
    names: Seq<Seq<char>>,
    lookups: Seq<Option<Seq<char>>>,
    j: int,
)
    requires
        names.len() == lookups.len(),
        0 <= j < glyph_entries(names, lookups).len(),
    ensures
        glyph_entries(names, lookups)[j].1.len() > 0,
        exists|i: int|
            0 <= i < names.len() && names[i] == glyph_entries(names, lookups)[j].0 && lookups[i]
                == Some(glyph_entries(names, lookups)[j].1),
    decreases names.len(),
{
    if names.len() > 0 {
        let init = glyph_entries(names.drop_last(), lookups.drop_last());
        if j < init.len() {
            lemma_glyph_entries_sound(names.drop_last(), lookups.drop_last(), j);
            let i = choose|i: int|
                0 <= i < names.drop_last().len() && names.drop_last()[i] == init[j].0
                    && lookups.drop_last()[i] == Some(init[j].1);
            assert(names[i] == glyph_entries(names, lookups)[j].0 && lookups[i] == Some(
                glyph_entries(names, lookups)[j].1,
            ));
        } else {
            let last = names.len() - 1;
            assert(names[last] == glyph_entries(names, lookups)[j].0 && lookups[last] == Some(
                glyph_entries(names, lookups)[j].1,
            ));
        }
    }
}

/// The glyph mapping depends on the resolved paths alone: with no
/// intervening rebinding the lookups are unchanged, and equal lookups give
/// an identical mapping.
pub proof fn lemma_glyphs_deterministic(
    names: Seq<Seq<char>>,
    lookups: Seq<Option<Seq<char>>>,
    r1: Seq<(Seq<char>, Seq<char>)>,
    r2: Seq<(Seq<char>, Seq<char>)>,
)
    requires
        r1 == glyph_entries(names, lookups),
        r2 == glyph_entries(names, lookups),
    ensures
        r1 == r2,
{
}

/// Builds the glyph mapping from one optional resolved path per action
/// name, omitting unbound actions and empty paths.
pub fn collect_glyphs(names: &Vec<String>, lookups: &Vec<Option<String>>) -> (r: Vec<
    (String, String),
>)
    requires
        names@.len() == lookups@.len(),
    ensures
        r.deep_view() == glyph_entries(names.deep_view(), lookups.deep_view()),
{
    let mut r: Vec<(String, String)> = Vec::new();
    let mut i: usize = 0;
    while i < names.len()
        invariant
            i <= names@.len(),
            names@.len() == lookups@.len(),
            r.deep_view() == glyph_entries(
                names.deep_view().take(i as int),
                lookups.deep_view().take(i as int),
            ),
        decreases names@.len() - i,
    {
        let ghost prev = r.deep_view();
        match &lookups[i] {
            Some(path) => {
                if !path.as_str().is_empty() {
                    r.push((names[i].clone(), path.clone()));
                    proof {
                        assert(r.deep_view() =~= prev.push((names@[i as int]@, path@)));
                    }
                }
            },
            None => {},
        }
        proof {
            let dn = names.deep_view();
            let dl = lookups.deep_view();
            assert(dn.take(i + 1).drop_last() =~= dn.take(i as int));
            assert(dl.take(i + 1).drop_last() =~= dl.take(i as int));
            assert(dn.take(i + 1).last() == dn[i as int]);
            assert(dl.take(i + 1).last() == dl[i as int]);
            assert(r.deep_view() =~= glyph_entries(dn.take(i + 1), dl.take(i + 1)));
        }
        i += 1;
    }
    proof {
        assert(names.deep_view().take(names@.len() as int) =~= names.deep_view());
        assert(lookups.deep_view().take(lookups@.len() as int) =~= lookups.deep_view());
    }
    r
}

} // verus!
