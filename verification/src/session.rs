//! Process-wide session state and the decision core of the five bridge
//! operations.
//!
//! A [`Session`] spans "not yet established" (no native client),
//! "established" (identity held, input not initialized) and "initialized"
//! (action handles cached). It lives until process exit and is never torn
//! down. The native SDK itself cannot be linked into this library's test
//! binaries, so the unverified shell owns the client and performs the
//! native calls; every decision — gating, ordering, cache content, and
//! the shape of every result — is made here, over plain values, and is
//! verified. The shell that shares one session across threads wraps it in
//! a mutual-exclusion lock; every operation here is a short synchronous
//! critical section with no suspension point.

use crate::errors::BridgeError;
use crate::kinds::classify_code;
use crate::kinds::kind_label;
use crate::kinds::ControllerKind;
use crate::registry::analog_action_names;
use crate::registry::analog_names;
use crate::registry::digital_action_names;
use crate::registry::digital_names;
use crate::snapshot::build_snapshot;
use crate::snapshot::collect_glyphs;
use crate::snapshot::glyph_entries;
use crate::snapshot::AnalogPair;
use crate::snapshot::ControllerSnapshot;
use vstd::prelude::*;

verus! {

/// Opaque native handles resolved once at init and immutable thereafter.
/// A name that the external manifest does not declare resolves to a zero
/// handle, not an error: reads against it yield inert defaults, a
/// documented limitation of the underlying SDK.
pub struct HandleCache {
    /// Handle of the one action set.
    pub action_set: u64,
    /// Digital action name, paired with its native handle, in registry order.
    pub digital: Vec<(String, u64)>,
    /// Analog action name, paired with its native handle, in registry order.
    pub analog: Vec<(String, u64)>,
}

impl HandleCache {
    /// The digital names held, in order.
    pub open spec fn digital_names(self) -> Seq<Seq<char>> {
        self.digital@.map_values(|p: (String, u64)| p.0@)
    }

    /// The analog names held, in order.
    pub open spec fn analog_names(self) -> Seq<Seq<char>> {
        self.analog@.map_values(|p: (String, u64)| p.0@)
    }

    /// The digital handles held, in order.
    pub open spec fn digital_handles(self) -> Seq<u64> {
        self.digital@.map_values(|p: (String, u64)| p.1)
    }

    /// The analog handles held, in order.
    pub open spec fn analog_handles(self) -> Seq<u64> {
        self.analog@.map_values(|p: (String, u64)| p.1)
    }

    /// The cache holds exactly the registry's names, partitioned by kind,
    /// in registry order: one entry per declared logical action.
    pub open spec fn wf(self) -> bool {
        self.digital_names() == digital_action_names() && self.analog_names()
            == analog_action_names()
    }
}

/// The established native state: the identity resolved once at session
/// start, and the handle cache once init has succeeded.
struct SessionCore {
    /// Display name of the current user, read once at session start.
    user_name: String,
    /// Numeric identity of the current user, read once at session start.
    steam_id: u64,
    /// The handle cache; `None` until init succeeds.
    handles: Option<HandleCache>,
}

/// The process-wide session. Operations that need the native client fail
/// with `SessionUnavailable` while it was never established; operations
/// that need the handle cache fail with `NotInitialized` before a
/// successful init.
pub struct Session {
    steam: Option<SessionCore>,
}

/// One per-controller set of native readings, as the shell hands them in:
/// the controller handle, its input-type code, one pressed state per
/// registry digital action and one 2-D value per registry analog action,
/// in registry order.
pub struct ControllerReading {
    /// The native controller handle; zero marks a reserved/invalid slot.
    pub handle: u64,
    /// The native input-type code of the controller.
    pub type_code: u32,
    /// Pressed state per digital action, in registry order.
    pub pressed: Vec<bool>,
    /// 2-D value per analog action, in registry order.
    pub values: Vec<AnalogPair>,
}

/// A reading carries exactly one value per registry action of each kind.
pub open spec fn reading_wf(r: ControllerReading) -> bool {
    r.pressed@.len() == digital_action_names().len() && r.values@.len()
        == analog_action_names().len()
}

/// One snapshot is well-formed when its handle is nonzero and its two
/// mappings hold exactly the registry's names of the matching kind.
pub open spec fn snapshot_wf(s: ControllerSnapshot) -> bool {
    s.handle != 0 && s.action_names() == digital_action_names() && s.analog_names()
        == analog_action_names()
}

/// The plain-value content of one snapshot: handle, family, and the two
/// name/value mappings.
pub open spec fn snap_view(s: ControllerSnapshot) -> (
    u64,
    ControllerKind,
    Seq<(Seq<char>, bool)>,
    Seq<(Seq<char>, AnalogPair)>,
) {
    (
        s.handle,
        s.kind,
        s.actions@.map_values(|p: (String, bool)| (p.0@, p.1)),
        s.analogs@.map_values(|p: (String, AnalogPair)| (p.0@, p.1)),
    )
}

/// The content of all snapshots in one poll's result, in order.
pub open spec fn poll_view(rs: Seq<ControllerSnapshot>) -> Seq<
    (u64, ControllerKind, Seq<(Seq<char>, bool)>, Seq<(Seq<char>, AnalogPair)>),
> {
    rs.map_values(|s: ControllerSnapshot| snap_view(s))
}

/// The snapshot one reading must yield: the handle, the classified
/// family, and the registry names zipped with the given readings.
pub open spec fn expected_snapshot(r: ControllerReading) -> (
    u64,
    ControllerKind,
    Seq<(Seq<char>, bool)>,
    Seq<(Seq<char>, AnalogPair)>,
) {
    (
        r.handle,
        classify_code(r.type_code),
        Seq::new(digital_action_names().len(), |i: int| (digital_action_names()[i], r.pressed@[i])),
        Seq::new(analog_action_names().len(), |i: int| (analog_action_names()[i], r.values@[i])),
    )
}

/// What one poll must return for the given readings: one snapshot per
/// reading with a nonzero handle, in enumeration order; zero handles are
/// reserved/invalid and filtered out.
pub open spec fn expected_snapshots(rs: Seq<ControllerReading>) -> Seq<
    (u64, ControllerKind, Seq<(Seq<char>, bool)>, Seq<(Seq<char>, AnalogPair)>),
>
    decreases rs.len(),
{
    if rs.len() == 0 {
        seq![]
    } else {
        let init = expected_snapshots(rs.drop_last());
        if rs.last().handle == 0 {
            init
        } else {
            init.push(expected_snapshot(rs.last()))
        }
    }
}

impl Session {
    /// The native client session was established.
    pub closed spec fn available(self) -> bool {
        self.steam is Some
    }

    /// Init succeeded: the handle cache is populated.
    pub closed spec fn initialized(self) -> bool {
        self.available() && self.steam->Some_0.handles is Some
    }

    /// The display name resolved at session start.
    pub closed spec fn user_name_spec(self) -> Seq<char> {
        self.steam->Some_0.user_name@
    }

    /// The numeric identity resolved at session start.
    pub closed spec fn steam_id_spec(self) -> u64 {
        self.steam->Some_0.steam_id
    }

    /// The cached action-set handle, once initialized.
    pub closed spec fn action_set_spec(self) -> u64 {
        self.steam->Some_0.handles->Some_0.action_set
    }

    /// The cached digital handles in registry order, once initialized.
    pub closed spec fn digital_handles_spec(self) -> Seq<u64> {
        self.steam->Some_0.handles->Some_0.digital_handles()
    }

    /// The cached analog handles in registry order, once initialized.
    pub closed spec fn analog_handles_spec(self) -> Seq<u64> {
        self.steam->Some_0.handles->Some_0.analog_handles()
    }

    /// A populated handle cache holds exactly the registry's names.
    pub closed spec fn wf(self) -> bool {
        self.initialized() ==> self.steam->Some_0.handles->Some_0.wf()
    }

    /// A session whose native client was never established. Every
    /// operation on it fails: with `SessionUnavailable` where the client
    /// is needed, with `NotInitialized` where a successful init is.
    pub fn unavailable() -> (s: Session)
        ensures
            !s.available(),
            !s.initialized(),
            s.wf(),
    {
        Session { steam: None }
    }

    /// Establishes the session with the identity the shell resolved from
    /// the native client at session start. The input subsystem stays
    /// uninitialized until init runs.
    pub fn establish(user_name: String, steam_id: u64) -> (s: Session)
        ensures
            s.available(),
            !s.initialized(),
            s.wf(),
            s.user_name_spec() == user_name@,
            s.steam_id_spec() == steam_id,
    {
        Session { steam: Some(SessionCore { user_name, steam_id, handles: None }) }
    }

    /// The user's display name, resolved once at session start.
    pub fn user_name(&self) -> (r: Result<String, BridgeError>)
        ensures
            r is Ok <==> self.available(),
            r is Ok ==> r->Ok_0@ == self.user_name_spec(),
            !self.available() ==> r == Result::<String, BridgeError>::Err(
                BridgeError::SessionUnavailable,
            ),
    {
        match &self.steam {
            Some(core) => Ok(core.user_name.clone()),
            None => Err(BridgeError::SessionUnavailable),
        }
    }

    /// The user's numeric identity, resolved once at session start.
    pub fn steam_id(&self) -> (r: Result<u64, BridgeError>)
        ensures
            r is Ok <==> self.available(),
            r is Ok ==> r->Ok_0 == self.steam_id_spec(),
            !self.available() ==> r == Result::<u64, BridgeError>::Err(
                BridgeError::SessionUnavailable,
            ),
    {
        match &self.steam {
            Some(core) => Ok(core.steam_id),
            None => Err(BridgeError::SessionUnavailable),
        }
    }

    /// Whether the native input subsystem may be started now: `Ok` only
    /// on an established, not yet initialized session. The shell runs the
    /// native startup only after this gate passes — a second native init
    /// is undefined behaviour in the underlying SDK, so re-init is
    /// rejected with `AlreadyInitialized` rather than re-resolved.
    pub fn begin_init(&self) -> (r: Result<(), BridgeError>)
        ensures
            r is Ok <==> self.available() && !self.initialized(),
            !self.available() ==> r == Result::<(), BridgeError>::Err(
                BridgeError::SessionUnavailable,
            ),
            self.initialized() ==> r == Result::<(), BridgeError>::Err(
                BridgeError::AlreadyInitialized,
            ),
    {
        match &self.steam {
            None => Err(BridgeError::SessionUnavailable),
            Some(core) => {
                if core.handles.is_some() {
                    Err(BridgeError::AlreadyInitialized)
                } else {
                    Ok(())
                }
            },
        }
    }

    /// Completes init from the native startup's outcome: whether the
    /// subsystem started, the resolved action-set handle, and one
    /// resolved handle per registry name of each kind, in registry order.
    /// On success the cache holds exactly those names and handles and is
    /// immutable thereafter.
    ///
    /// Fails with `SessionUnavailable` before the session was
    /// established, with `AlreadyInitialized` after a successful init,
    /// and with `InitFailure` when the subsystem reported startup
    /// failure. On any failure the session is unchanged.
    pub fn finish_init(
        &mut self,
        started: bool,
        action_set: u64,
        digital_handles: &Vec<u64>,
        analog_handles: &Vec<u64>,
    ) -> (r: Result<bool, BridgeError>)
        requires
            digital_handles@.len() == digital_action_names().len(),
            analog_handles@.len() == analog_action_names().len(),
        ensures
            !old(self).available() ==> r == Result::<bool, BridgeError>::Err(
                BridgeError::SessionUnavailable,
            ),
            old(self).initialized() ==> r == Result::<bool, BridgeError>::Err(
                BridgeError::AlreadyInitialized,
            ),
            old(self).available() && !old(self).initialized() && !started ==> r == Result::<
                bool,
                BridgeError,
            >::Err(BridgeError::InitFailure),
            r is Ok <==> old(self).available() && !old(self).initialized() && started,
            r is Ok ==> r->Ok_0 == true && final(self).initialized() && final(self).wf()
                && final(self).action_set_spec() == action_set && final(self).digital_handles_spec()
                == digital_handles@ && final(self).analog_handles_spec() == analog_handles@,
            !(r is Ok) ==> *final(self) == *old(self),
            final(self).available() == old(self).available(),
            final(self).available() ==> final(self).user_name_spec() == old(self).user_name_spec()
                && final(self).steam_id_spec() == old(self).steam_id_spec(),
    {
        match &mut self.steam {
            None => Err(BridgeError::SessionUnavailable),
            Some(core) => {
                if core.handles.is_some() {
                    return Err(BridgeError::AlreadyInitialized);
                }
                if !started {
                    return Err(BridgeError::InitFailure);
                }
                let dnames = digital_names();
                let mut digital: Vec<(String, u64)> = Vec::new();
                let mut i: usize = 0;
                while i < dnames.len()
                    invariant
                        i <= dnames@.len(),
                        dnames@.len() == digital_action_names().len(),
                        digital_handles@.len() == digital_action_names().len(),
                        forall|j: int| 0 <= j < dnames@.len() ==> dnames@[j]@
                            == digital_action_names()[j],
                        digital@.len() == i,
                        forall|j: int|
                            0 <= j < i ==> (#[trigger] digital@[j]).0@ == digital_action_names()[j]
                                && digital@[j].1 == digital_handles@[j],
                    decreases dnames@.len() - i,
                {
                    digital.push((dnames[i].clone(), digital_handles[i]));
                    i += 1;
                }
                let anames = analog_names();
                let mut analog: Vec<(String, u64)> = Vec::new();
                let mut k: usize = 0;
                while k < anames.len()
                    invariant
                        k <= anames@.len(),
                        anames@.len() == analog_action_names().len(),
                        analog_handles@.len() == analog_action_names().len(),
                        forall|j: int| 0 <= j < anames@.len() ==> anames@[j]@
                            == analog_action_names()[j],
                        analog@.len() == k,
                        forall|j: int|
                            0 <= j < k ==> (#[trigger] analog@[j]).0@ == analog_action_names()[j]
                                && analog@[j].1 == analog_handles@[j],
                    decreases anames@.len() - k,
                {
                    analog.push((anames[k].clone(), analog_handles[k]));
                    k += 1;
                }
                let cache = HandleCache { action_set, digital, analog };
                proof {
                    assert(cache.digital_names() =~= digital_action_names());
                    assert(cache.analog_names() =~= analog_action_names());
                    assert(cache.digital_handles() =~= digital_handles@);
                    assert(cache.analog_handles() =~= analog_handles@);
                }
                core.handles = Some(cache);
                Ok(true)
            },
        }
    }

    /// The cached handles the shell needs to drive native reads: the
    /// action-set handle and each name's handle, exactly as stored.
    /// Fails with `NotInitialized` before a successful init.
    pub fn action_handles(&self) -> (r: Result<HandleCache, BridgeError>)
        requires
            self.wf(),
        ensures
            r is Ok <==> self.initialized(),
            !self.initialized() ==> r == Result::<HandleCache, BridgeError>::Err(
                BridgeError::NotInitialized,
            ),
            r is Ok ==> r->Ok_0.wf() && r->Ok_0.action_set == self.action_set_spec()
                && r->Ok_0.digital_handles() == self.digital_handles_spec()
                && r->Ok_0.analog_handles() == self.analog_handles_spec(),
    {
        match &self.steam {
            None => Err(BridgeError::NotInitialized),
            Some(core) => match &core.handles {
                None => Err(BridgeError::NotInitialized),
                Some(cache) => {
                    let digital = clone_pairs(&cache.digital);
                    let analog = clone_pairs(&cache.analog);
                    let copy = HandleCache { action_set: cache.action_set, digital, analog };
                    proof {
                        assert(copy.digital_names() =~= cache.digital_names());
                        assert(copy.analog_names() =~= cache.analog_names());
                        assert(copy.digital_handles() =~= cache.digital_handles());
                        assert(copy.analog_handles() =~= cache.analog_handles());
                    }
                    Ok(copy)
                },
            },
        }
    }

    /// Assembles one poll's result from the readings the shell gathered,
    /// one reading per enumerated controller in enumeration order.
    ///
    /// Fails with `NotInitialized` before a successful init and never
    /// partially succeeds. On success the result holds exactly one
    /// snapshot per nonzero reading handle, in order — also when no
    /// controller is connected, which yields an empty list, not an error.
    /// Zero handles are reserved/invalid and are filtered out. Every
    /// snapshot pairs the registry's names with the given readings; the
    /// order is subsystem-defined and not stable across calls, so callers
    /// key by handle, not by position.
    pub fn poll(&self, readings: &Vec<ControllerReading>) -> (r: Result<
        Vec<ControllerSnapshot>,
        BridgeError,
    >)
        requires
            self.wf(),
            forall|i: int| 0 <= i < readings@.len() ==> reading_wf(#[trigger] readings@[i]),
        ensures
            r is Ok <==> self.initialized(),
            !self.initialized() ==> r == Result::<Vec<ControllerSnapshot>, BridgeError>::Err(
                BridgeError::NotInitialized,
            ),
            r is Ok ==> poll_view(r->Ok_0@) == expected_snapshots(readings@),
            r is Ok ==> forall|i: int|
                0 <= i < r->Ok_0@.len() ==> snapshot_wf(#[trigger] r->Ok_0@[i]),
    {
        match &self.steam {
            None => Err(BridgeError::NotInitialized),
            Some(core) => match &core.handles {
                None => Err(BridgeError::NotInitialized),
                Some(_cache) => {
                    let dnames = digital_names();
                    let anames = analog_names();
                    let mut result: Vec<ControllerSnapshot> = Vec::new();
                    let mut idx: usize = 0;
                    while idx < readings.len()
                        invariant
                            idx <= readings@.len(),
                            dnames@.len() == digital_action_names().len(),
                            anames@.len() == analog_action_names().len(),
                            forall|j: int| 0 <= j < dnames@.len() ==> dnames@[j]@
                                == digital_action_names()[j],
                            forall|j: int| 0 <= j < anames@.len() ==> anames@[j]@
                                == analog_action_names()[j],
                            forall|i: int| 0 <= i < readings@.len() ==> reading_wf(
                                #[trigger] readings@[i],
                            ),
                            poll_view(result@) == expected_snapshots(readings@.take(idx as int)),
                            forall|i: int|
                                0 <= i < result@.len() ==> snapshot_wf(#[trigger] result@[i]),
                        decreases readings@.len() - idx,
                    {
                        let ghost prev = result@;
                        let rd = &readings[idx];
                        if rd.handle != 0 {
                            let snap = build_snapshot(
                                rd.handle,
                                rd.type_code,
                                &dnames,
                                &rd.pressed,
                                &anames,
                                &rd.values,
                            );
                            proof {
                                assert(snap.action_names() =~= digital_action_names());
                                assert(snap.analog_names() =~= analog_action_names());
                                assert(snap.actions@.map_values(|p: (String, bool)| (p.0@, p.1))
                                    =~= Seq::new(
                                    digital_action_names().len(),
                                    |i: int| (digital_action_names()[i], rd.pressed@[i]),
                                ));
                                assert(snap.analogs@.map_values(
                                    |p: (String, AnalogPair)| (p.0@, p.1),
                                ) =~= Seq::new(
                                    analog_action_names().len(),
                                    |i: int| (analog_action_names()[i], rd.values@[i]),
                                ));
                                assert(snap_view(snap) == expected_snapshot(readings@[idx as int]));
                            }
                            result.push(snap);
                            proof {
                                assert(poll_view(result@) =~= poll_view(prev).push(
                                    snap_view(snap),
                                ));
                            }
                        }
                        proof {
                            assert(readings@.take(idx + 1).drop_last() =~= readings@.take(
                                idx as int,
                            ));
                            assert(readings@.take(idx + 1).last() == readings@[idx as int]);
                            assert(poll_view(result@) =~= expected_snapshots(
                                readings@.take(idx + 1),
                            ));
                        }
                        idx += 1;
                    }
                    proof {
                        assert(readings@.take(readings@.len() as int) =~= readings@);
                    }
                    Ok(result)
                },
            },
        }
    }

    /// The label of the controller family whose native input-type code
    /// the shell read for one handle. A pure lookup with no state change;
    /// unrecognized codes label as "unknown", never an error.
    pub fn controller_type(&self, type_code: u32) -> (r: Result<String, BridgeError>)
        ensures
            r is Ok <==> self.available(),
            !self.available() ==> r == Result::<String, BridgeError>::Err(
                BridgeError::SessionUnavailable,
            ),
            r is Ok ==> r->Ok_0@ == kind_label(classify_code(type_code)),
    {
        match &self.steam {
            None => Err(BridgeError::SessionUnavailable),
            Some(_core) => {
                let kind = crate::kinds::classify_input_type(type_code);
                Ok(kind.label())
            },
        }
    }

    /// The glyph mapping for one controller, from the per-action lookups
    /// the shell resolved: `lookups[i]` is the glyph path of the first
    /// origin bound to registry digital action `i`, or `None` where no
    /// origin is bound. Actions with no bound origin or an empty resolved
    /// path are omitted, so the mapping may be empty; it is fresh on
    /// every call because bindings can change live.
    ///
    /// Fails with `SessionUnavailable` before the session was established
    /// and with `NotInitialized` before a successful init. On success,
    /// every entry pairs a registry digital name with that action's
    /// nonempty resolved path.
    pub fn glyphs(&self, lookups: &Vec<Option<String>>) -> (r: Result<
        Vec<(String, String)>,
        BridgeError,
    >)
        requires
            lookups@.len() == digital_action_names().len(),
        ensures
            r is Ok <==> self.initialized(),
            !self.available() ==> r == Result::<Vec<(String, String)>, BridgeError>::Err(
                BridgeError::SessionUnavailable,
            ),
            self.available() && !self.initialized() ==> r == Result::<
                Vec<(String, String)>,
                BridgeError,
            >::Err(BridgeError::NotInitialized),
            r is Ok ==> r->Ok_0.deep_view() == glyph_entries(
                digital_action_names(),
                lookups.deep_view(),
            ),
            r is Ok ==> forall|j: int|
                0 <= j < r->Ok_0@.len() ==> (#[trigger] r->Ok_0@[j].1@).len() > 0 && exists|i: int|
                    0 <= i < digital_action_names().len() && r->Ok_0@[j].0@
                        == digital_action_names()[i],
    {
        match &self.steam {
            None => Err(BridgeError::SessionUnavailable),
            Some(core) => match &core.handles {
                None => Err(BridgeError::NotInitialized),
                Some(_cache) => {
                    let dnames = digital_names();
                    proof {
                        assert(dnames.deep_view() =~= digital_action_names());
                    }
                    let glyphs = collect_glyphs(&dnames, lookups);
                    proof {
                        let lk = lookups.deep_view();
                        assert(glyphs.deep_view() == glyph_entries(digital_action_names(), lk));
                        assert forall|j: int|
                            0 <= j < glyphs@.len() implies (#[trigger] glyphs@[j].1@).len() > 0
                            && exists|i: int|
                            0 <= i < digital_action_names().len() && glyphs@[j].0@
                                == digital_action_names()[i] by {
                            assert(glyphs.deep_view()[j] == (glyphs@[j].0@, glyphs@[j].1@));
                            crate::snapshot::lemma_glyph_entries_sound(
                                digital_action_names(),
                                lk,
                                j,
                            );
                        }
                    }
                    Ok(glyphs)
                },
            },
        }
    }

    /// The outcome of one binding-panel request: the shell asks the
    /// platform overlay to open its rebinding screen and hands back
    /// whether the overlay accepted. No local state changes.
    pub fn show_binding_panel(&self, accepted: bool) -> (r: Result<bool, BridgeError>)
        ensures
            r is Ok <==> self.available(),
            !self.available() ==> r == Result::<bool, BridgeError>::Err(
                BridgeError::SessionUnavailable,
            ),
            r is Ok ==> r->Ok_0 == accepted,
    {
        match &self.steam {
            None => Err(BridgeError::SessionUnavailable),
            Some(_core) => Ok(accepted),
        }
    }
}

/// An element-for-element copy of one name/handle list.
fn clone_pairs(src: &Vec<(String, u64)>) -> (r: Vec<(String, u64)>)
    ensures
        r@.len() == src@.len(),
        forall|i: int|
            0 <= i < src@.len() ==> (#[trigger] r@[i]).0@ == src@[i].0@ && r@[i].1 == src@[i].1,
{
    let mut r: Vec<(String, u64)> = Vec::new();
    let mut i: usize = 0;
    while i < src.len()
        invariant
            i <= src@.len(),
            r@.len() == i,
            forall|j: int|
                0 <= j < i ==> (#[trigger] r@[j]).0@ == src@[j].0@ && r@[j].1 == src@[j].1,
        decreases src@.len() - i,
    {
        r.push((src[i].0.clone(), src[i].1));
        i += 1;
    }
    r
}

} // verus!
