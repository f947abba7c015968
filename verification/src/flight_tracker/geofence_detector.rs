//! Geofence detection logic: whether a fix lies inside a geofence, and exits.
//!
//! The horizontal test (distance from the center against a layer's radius) is computed by
//! the caller and passed in, one answer per layer.

use vstd::prelude::*;

use crate::fixes::Fix;
use crate::geofence::{Geofence, GeofenceLayer};

verus! {

/// Result of checking a fix against a geofence
#[derive(Clone, Copy, Debug, PartialEq, Eq, Structural)]
pub enum GeofenceCheckResult {
    /// Aircraft is inside the geofence at this layer
    Inside { layer: GeofenceLayer },
    /// Aircraft is outside the geofence; this is the layer covering its altitude
    Outside { exited_layer: GeofenceLayer },
    /// No layer covers this altitude
    NoLayerAtAltitude,
    /// Cannot determine - missing altitude data
    MissingAltitude,
}

/// The layer covers the altitude.
pub open spec fn covers(l: GeofenceLayer, alt: i32) -> bool {
    l.floor_ft <= alt <= l.ceiling_ft
}

/// First layer at or after `i` that covers the altitude.
pub open spec fn first_covering(layers: Seq<GeofenceLayer>, alt: i32, i: int) -> Option<int>
    decreases layers.len() - i,
{
    if i < 0 || i >= layers.len() {
        None
    } else if covers(layers[i], alt) {
        Some(i)
    } else {
        first_covering(layers, alt, i + 1)
    }
}

/// First layer at or after `i` that covers the altitude and holds the position.
pub open spec fn first_inside(layers: Seq<GeofenceLayer>, within: Seq<bool>, alt: i32, i: int) -> Option<int>
    decreases layers.len() - i,
{
    if i < 0 || i >= layers.len() {
        None
    } else if covers(layers[i], alt) && within[i] {
        Some(i)
    } else {
        first_inside(layers, within, alt, i + 1)
    }
}

/// The check of a fix with this altitude, given for each layer whether the position lies
/// within its radius: inside the first covering layer that holds it, else outside the first
/// covering layer.
pub open spec fn check_spec(alt: Option<i32>, layers: Seq<GeofenceLayer>, within: Seq<bool>) -> GeofenceCheckResult {
    match alt {
        None => GeofenceCheckResult::MissingAltitude,
        Some(a) => match first_covering(layers, a, 0) {
            None => GeofenceCheckResult::NoLayerAtAltitude,
            Some(k) => match first_inside(layers, within, a, 0) {
                Some(j) => GeofenceCheckResult::Inside { layer: layers[j] },
                None => GeofenceCheckResult::Outside { exited_layer: layers[k] },
            },
        },
    }
}

/// Check if a fix is within a geofence boundary.
///
/// `within_radius[i]` says whether the fix's horizontal distance from the center is at most
/// the radius of layer `i`. Returns `Inside` for the first layer covering the fix's
/// altitude whose radius holds it, `Outside` with the first covering layer otherwise,
/// `NoLayerAtAltitude` if no layer covers the altitude, `MissingAltitude` without altitude.
pub fn check_fix_against_geofence(fix: &Fix, geofence: &Geofence, within_radius: &[bool]) -> (r:
    GeofenceCheckResult)
    requires
        within_radius@.len() == geofence.layers@.len(),
    ensures
        r == check_spec(fix.altitude_msl_feet, geofence.layers@, within_radius@),
{
    let altitude_ft = match fix.altitude_msl_feet {
        Some(alt) => alt,
        None => return GeofenceCheckResult::MissingAltitude,
    };
    let layers = &geofence.layers;
    let n = layers.len();
    let ghost ls = layers@;
    let mut first: Option<usize> = None;
    let mut i: usize = 0;
    while i < n
        invariant
            n == ls.len(),
            ls == geofence.layers@,
            layers@ == ls,
            fix.altitude_msl_feet == Some(altitude_ft),
            within_radius@.len() == n,
            i <= n,
            first is None ==> first_covering(ls, altitude_ft, 0) == first_covering(
                ls,
                altitude_ft,
                i as int,
            ),
            first matches Some(k) ==> first_covering(ls, altitude_ft, 0) == Some(k as int) && k < n,
            first_inside(ls, within_radius@, altitude_ft, 0) == first_inside(
                ls,
                within_radius@,
                altitude_ft,
                i as int,
            ),
        decreases n - i,
    {
        let layer = layers[i];
        if layer.contains_altitude(altitude_ft) {
            assert(covers(ls[i as int], altitude_ft));
            assert(first_covering(ls, altitude_ft, i as int) == Some(i as int));
            if first.is_none() {
                first = Some(i);
            }
            if within_radius[i] {
                assert(first_inside(ls, within_radius@, altitude_ft, i as int) == Some(i as int));
                return GeofenceCheckResult::Inside { layer };
            }
        }
        i = i + 1;
    }
    match first {
        None => GeofenceCheckResult::NoLayerAtAltitude,
        Some(k) => GeofenceCheckResult::Outside { exited_layer: layers[k] },
    }
}

/// Check if an aircraft has transitioned from inside to outside a geofence: the exited
/// layer when it was inside and is now outside.
pub fn has_exited_geofence(was_inside: bool, current_check: &GeofenceCheckResult) -> (r: Option<
    GeofenceLayer,
>)
    ensures
        r == (if was_inside && current_check is Outside {
            Some(current_check->exited_layer)
        } else {
            None
        }),
{
    if !was_inside {
        return None;
    }
    match current_check {
        GeofenceCheckResult::Outside { exited_layer } => Some(*exited_layer),
        _ => None,
    }
}

/// Determine if a check result indicates the aircraft is inside the geofence
pub fn is_inside(result: &GeofenceCheckResult) -> (r: bool)
    ensures
        r == result is Inside,
{
    match result {
        GeofenceCheckResult::Inside { .. } => true,
        _ => false,
    }
}

/// Whether the aircraft was inside a geofence before: its last recorded status, else not.
pub open spec fn was_inside(previous: Seq<(u128, bool)>, id: u128) -> bool
    decreases previous.len(),
{
    if previous.len() == 0 {
        false
    } else if previous[0].0 == id {
        previous[0].1
    } else {
        was_inside(previous.drop_first(), id)
    }
}

/// The exits among checked geofences (index of the geofence and exited layer).
pub open spec fn exits_spec(checks: Seq<(u128, GeofenceCheckResult)>, previous: Seq<(u128, bool)>) -> Seq<(int, GeofenceLayer)>
    decreases checks.len(),
{
    if checks.len() == 0 {
        Seq::empty()
    } else {
        let k = checks.len() - 1;
        let rest = exits_spec(checks.drop_last(), previous);
        if was_inside(previous, checks[k].0) && checks[k].1 is Outside {
            rest.push((k, checks[k].1->exited_layer))
        } else {
            rest
        }
    }
}

fn lookup_status(previous: &Vec<(u128, bool)>, id: u128) -> (r: bool)
    ensures
        r == was_inside(previous@, id),
{
    let mut i: usize = 0;
    assert(previous@.subrange(0, previous@.len() as int) =~= previous@);
    while i < previous.len()
        invariant
            i <= previous@.len(),
            was_inside(previous@, id) == was_inside(previous@.subrange(i as int, previous@.len() as int), id),
        decreases previous@.len() - i,
    {
        let (pid, inside) = previous[i];
        let ghost rest = previous@.subrange(i as int, previous@.len() as int);
        assert(rest.drop_first() =~= previous@.subrange(i as int + 1, previous@.len() as int));
        if pid == id {
            return inside;
        }
        i = i + 1;
    }
    false
}

/// From the checks of a fix against each geofence (geofence id and result) and the previous
/// inside/outside status: the exits (index into `checks` and exited layer) and the new
/// status of every checked geofence.
pub fn geofence_transitions(checks: &Vec<(u128, GeofenceCheckResult)>, previous: &Vec<(u128, bool)>) -> (r: (
    Vec<(usize, GeofenceLayer)>,
    Vec<(u128, bool)>,
))
    ensures
        r.0@.len() == exits_spec(checks@, previous@).len(),
        forall|i: int|
            0 <= i < r.0@.len() ==> (#[trigger] r.0@[i]).0 as int == exits_spec(checks@, previous@)[i].0
                && r.0@[i].1 == exits_spec(checks@, previous@)[i].1,
        r.1@.len() == checks@.len(),
        forall|i: int|
            0 <= i < r.1@.len() ==> (#[trigger] r.1@[i]).0 == checks@[i].0 && r.1@[i].1 == checks@[i].1 is Inside,
{
    let mut exits: Vec<(usize, GeofenceLayer)> = Vec::new();
    let mut status: Vec<(u128, bool)> = Vec::new();
    let mut i: usize = 0;
    while i < checks.len()
        invariant
            i <= checks@.len(),
            exits@.len() == exits_spec(checks@.subrange(0, i as int), previous@).len(),
            forall|j: int|
                0 <= j < exits@.len() ==> (#[trigger] exits@[j]).0 as int == exits_spec(
                    checks@.subrange(0, i as int),
                    previous@,
                )[j].0 && exits@[j].1 == exits_spec(checks@.subrange(0, i as int), previous@)[j].1,
            status@.len() == i,
            forall|j: int|
                0 <= j < i ==> (#[trigger] status@[j]).0 == checks@[j].0 && status@[j].1 == checks@[j].1 is Inside,
        decreases checks@.len() - i,
    {
        let (id, result) = checks[i];
        let ghost pre = checks@.subrange(0, i as int + 1);
        assert(pre.drop_last() =~= checks@.subrange(0, i as int));
        let was = lookup_status(previous, id);
        if let Some(layer) = has_exited_geofence(was, &result) {
            exits.push((i, layer));
        }
        status.push((id, is_inside(&result)));
        i = i + 1;
    }
    assert(checks@.subrange(0, checks@.len() as int) =~= checks@);
    (exits, status)
}


/// The status recorded after a fix: for each checked geofence, whether the aircraft is
/// inside.
pub open spec fn status_spec(checks: Seq<(u128, GeofenceCheckResult)>) -> Seq<(u128, bool)> {
    checks.map_values(|c: (u128, GeofenceCheckResult)| (c.0, c.1 is Inside))
}

/// The geofences are checked once each.
pub open spec fn distinct_ids(checks: Seq<(u128, GeofenceCheckResult)>) -> bool {
    forall|i: int, j: int| 0 <= i < j < checks.len() ==> checks[i].0 != checks[j].0
}

/// Law: every reported exit is of a geofence the aircraft was inside before and is
/// outside of now, with the layer it left.
pub proof fn lemma_exit_needs_inside_then_outside(
    checks: Seq<(u128, GeofenceCheckResult)>,
    previous: Seq<(u128, bool)>,
)
    ensures
        forall|i: int|
            0 <= i < exits_spec(checks, previous).len() ==> {
                let (k, layer) = #[trigger] exits_spec(checks, previous)[i];
                &&& 0 <= k < checks.len()
                &&& was_inside(previous, checks[k].0)
                &&& checks[k].1 is Outside
                &&& layer == checks[k].1->exited_layer
            },
    decreases checks.len(),
{
    if checks.len() > 0 {
        lemma_exit_needs_inside_then_outside(checks.drop_last(), previous);
        let rest = exits_spec(checks.drop_last(), previous);
        assert forall|i: int| 0 <= i < rest.len() implies {
            let (k, layer) = #[trigger] rest[i];
            &&& 0 <= k < checks.len()
            &&& was_inside(previous, checks[k].0)
            &&& checks[k].1 is Outside
            &&& layer == checks[k].1->exited_layer
        } by {
            let (k, layer) = rest[i];
            assert(checks.drop_last()[k] == checks[k]);
        }
    }
}

proof fn lemma_was_inside_at(st: Seq<(u128, bool)>, k: int)
    requires
        0 <= k < st.len(),
        forall|i: int| 0 <= i < k ==> (#[trigger] st[i]).0 != st[k].0,
    ensures
        was_inside(st, st[k].0) == st[k].1,
    decreases k,
{
    if k > 0 {
        let rest = st.drop_first();
        assert(rest[k - 1] == st[k]);
        assert forall|i: int| 0 <= i < k - 1 implies (#[trigger] rest[i]).0 != rest[k - 1].0 by {
            assert(rest[i] == st[i + 1]);
        }
        lemma_was_inside_at(rest, k - 1);
    }
}

/// Law: once an exit (or any position outside) is recorded for a geofence, the next fix
/// reports no exit from it; a new exit needs the aircraft to be seen inside again.
pub proof fn lemma_no_repeated_exit(
    checks: Seq<(u128, GeofenceCheckResult)>,
    previous: Seq<(u128, bool)>,
    next: Seq<(u128, GeofenceCheckResult)>,
    k: int,
    j: int,
)
    requires
        distinct_ids(checks),
        0 <= k < checks.len(),
        !(checks[k].1 is Inside),
        0 <= j < next.len(),
        next[j].0 == checks[k].0,
    ensures
        forall|i: int|
            0 <= i < exits_spec(next, status_spec(checks)).len() ==> (#[trigger] exits_spec(
                next,
                status_spec(checks),
            )[i]).0 != j,
{
    let st = status_spec(checks);
    assert(st[k] == (checks[k].0, false));
    assert forall|i: int| 0 <= i < k implies (#[trigger] st[i]).0 != st[k].0 by {
        assert(st[i] == (checks[i].0, checks[i].1 is Inside));
    }
    lemma_was_inside_at(st, k);
    lemma_exit_needs_inside_then_outside(next, st);
}

} // verus!
