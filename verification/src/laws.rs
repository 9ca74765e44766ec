//! Guarantees that span more than one operation, stated over the store's
//! mathematical image and proved once and for all.

use vstd::prelude::*;

use crate::helpers::{blank, capacity_violation, vessel_name_violation, vessel_violations};
use crate::registry::RegistryView;
use crate::types::VesselPayloadView;

verus! {

/// Every id a well-formed store holds lies strictly below the matching
/// counter. `add_vessel` and `add_voyage` issue the counter's current value
/// and move it up, and no operation ever moves a counter down, so a newly
/// created record's id is strictly greater than every id issued before it.
pub proof fn lemma_fresh_id_above_stored(r: RegistryView)
    requires
        r.wf(),
    ensures
        forall|k: u64| #[trigger] r.vessels.dom().contains(k) ==> k < r.next_vessel_id,
        forall|k: u64| #[trigger] r.voyages.dom().contains(k) ==> k < r.next_voyage_id,
{
    assert forall|k: u64| #[trigger] r.vessels.dom().contains(k) implies k < r.next_vessel_id by {
        assert(r.vessel_ok(k));
    }
    assert forall|k: u64| #[trigger] r.voyages.dom().contains(k) implies k < r.next_voyage_id by {
        assert(r.voyage_ok(k));
    }
}

/// Validation accumulates violations instead of stopping at the first one:
/// a blank name always contributes its message, and a zero capacity then
/// contributes its own message as well, so both are reported together.
pub proof fn lemma_vessel_violations_accumulate(p: VesselPayloadView)
    requires
        blank(p.name),
    ensures
        vessel_violations(p).contains(vessel_name_violation(p.name)),
        p.capacity == 0 ==> vessel_violations(p).contains(capacity_violation()),
        p.capacity == 0 ==> vessel_violations(p).len() >= 2,
{
    let vs = vessel_violations(p);
    assert(vs[0] == vessel_name_violation(p.name));
    assert(vs.contains(vs[0]));
    if p.capacity == 0 {
        assert(vs[vs.len() - 1] == capacity_violation());
        assert(vs.contains(vs[vs.len() - 1]));
    }
}

/// A live vessel's back-reference index lists a voyage id at exactly one
/// position: the id occurs, and any two positions holding it coincide.
pub proof fn lemma_voyage_listed_once(r: RegistryView, vessel_id: u64, voyage_id: u64)
    requires
        r.wf(),
        r.vessels.dom().contains(vessel_id),
        r.vessels[vessel_id].voyages_ids.contains(voyage_id),
    ensures
        exists|i: int|
            0 <= i < r.vessels[vessel_id].voyages_ids.len() && r.vessels[vessel_id].voyages_ids[i]
                == voyage_id,
        forall|i: int, j: int|
            0 <= i < r.vessels[vessel_id].voyages_ids.len() && 0 <= j
                < r.vessels[vessel_id].voyages_ids.len() && #[trigger] r.vessels[vessel_id].voyages_ids[i]
                == voyage_id && #[trigger] r.vessels[vessel_id].voyages_ids[j] == voyage_id ==> i
                == j,
{
    assert(r.vessel_ok(vessel_id));
}

/// The back-reference index and the voyage rows agree in both directions: a
/// live vessel lists exactly the live voyages whose `vessel_id` names it,
/// each of which carries the vessel's own admin and no snapshot.
pub proof fn lemma_index_matches_rows(r: RegistryView, vessel_id: u64)
    requires
        r.wf(),
        r.vessels.dom().contains(vessel_id),
    ensures
        forall|i: int|
            0 <= i < r.vessels[vessel_id].voyages_ids.len() ==> {
                let y = #[trigger] r.vessels[vessel_id].voyages_ids[i];
                &&& r.voyages.dom().contains(y)
                &&& r.voyages[y].vessel_id == vessel_id
                &&& r.voyages[y].admin_principal == r.vessels[vessel_id].admin_principal
                &&& r.voyages[y].vessel_data is None
            },
        forall|y: u64|
            #[trigger] r.voyages.dom().contains(y) && r.voyages[y].vessel_id == vessel_id
                ==> r.vessels[vessel_id].voyages_ids.contains(y),
{
    assert(r.vessel_ok(vessel_id));
    assert forall|i: int| 0 <= i < r.vessels[vessel_id].voyages_ids.len() implies {
        let y = #[trigger] r.vessels[vessel_id].voyages_ids[i];
        &&& r.voyages.dom().contains(y)
        &&& r.voyages[y].vessel_id == vessel_id
        &&& r.voyages[y].admin_principal == r.vessels[vessel_id].admin_principal
        &&& r.voyages[y].vessel_data is None
    } by {
        let y = r.vessels[vessel_id].voyages_ids[i];
        assert(r.voyages.dom().contains(y));
        assert(r.voyage_ok(y));
    }
    assert forall|y: u64|
        #[trigger] r.voyages.dom().contains(y) && r.voyages[y].vessel_id
            == vessel_id implies r.vessels[vessel_id].voyages_ids.contains(y) by {
        assert(r.voyage_ok(y));
    }
}

/// Round trip: storing a record under its own id and reading that id back
/// yields the very record that was stored — every field compares equal.
pub proof fn lemma_round_trip<V>(before: Map<u64, V>, after: Map<u64, V>, id: u64, record: V)
    requires
        after == before.insert(id, record),
    ensures
        after.contains_key(id),
        after[id] == record,
{
}

} // verus!
