//! The entity store: both collections, both id counters, and the eight
//! operations of the service. The registry keeps the vessel–voyage relation
//! consistent: a live vessel's `voyages_ids` lists exactly the live voyages
//! created against it, and a voyage outlives its vessel only in detached
//! form, carrying a frozen snapshot of it.

use std::collections::BTreeMap;

use vstd::prelude::*;
use vstd::string::StringExecFns;

use crate::helpers::{is_caller_vessel_admin, is_caller_voyage_admin, validate_vessel_payload,
    validate_voyage_payload, vessel_violations, voyage_violations, msg_views};
use crate::text::{decimal_digits, push_u64_decimal};
use crate::types::{Error, Vessel, VesselPayload, VesselView, Voyage, VoyagePayload, VoyageView};

verus! {

/// The message carried by `NotFound` for a missing vessel.
pub open spec fn vessel_not_found_msg(id: u64) -> Seq<char> {
    "a vessel with id="@ + decimal_digits(id) + " not found"@
}

/// The message carried by `NotFound` for a missing voyage.
pub open spec fn voyage_not_found_msg(id: u64) -> Seq<char> {
    "a voyage with id="@ + decimal_digits(id) + " not found"@
}

/// The mathematical image of a [`Registry`]: both collections as maps from
/// id to record image, and the two counters from which ids are issued.
#[verifier::ext_equal]
pub struct RegistryView {
    pub vessels: Map<u64, VesselView>,
    pub voyages: Map<u64, VoyageView>,
    pub next_vessel_id: u64,
    pub next_voyage_id: u64,
}

impl RegistryView {
    /// The conditions a stored vessel keeps: it sits under its own id, its
    /// id was issued by the counter, and its back-reference index lists,
    /// without repetition, only live voyages created against it.
    pub open spec fn vessel_ok(self, k: u64) -> bool {
        let v = self.vessels[k];
        &&& v.id == k
        &&& k < self.next_vessel_id
        &&& v.voyages_ids.no_duplicates()
        &&& forall|i: int|
            0 <= i < v.voyages_ids.len() ==> {
                &&& self.voyages.dom().contains(#[trigger] v.voyages_ids[i])
                &&& self.voyages[v.voyages_ids[i]].vessel_id == k
            }
    }

    /// The conditions a stored voyage keeps: it sits under its own id, both
    /// its id and its vessel reference were issued by the counters, and —
    /// while its vessel lives — it is listed by that vessel, shares its
    /// admin, and carries no snapshot yet.
    pub open spec fn voyage_ok(self, k: u64) -> bool {
        let y = self.voyages[k];
        &&& y.id == k
        &&& k < self.next_voyage_id
        &&& y.vessel_id < self.next_vessel_id
        &&& self.vessels.dom().contains(y.vessel_id) ==> {
            &&& self.vessels[y.vessel_id].voyages_ids.contains(k)
            &&& y.admin_principal == self.vessels[y.vessel_id].admin_principal
            &&& y.vessel_data is None
        }
    }

    /// Well-formedness of the whole store.
    pub open spec fn wf(self) -> bool {
        &&& forall|k: u64| #[trigger] self.vessels.dom().contains(k) ==> self.vessel_ok(k)
        &&& forall|k: u64| #[trigger] self.voyages.dom().contains(k) ==> self.voyage_ok(k)
    }
}

/// The store object: both entity collections and both id counters. Every
/// operation of the service is a method on it; the host hands each call the
/// calling principal and, where needed, the current timestamp.
pub struct Registry {
    vessels: BTreeMap<u64, Vessel>,
    voyages: BTreeMap<u64, Voyage>,
    vessel_id_counter: u64,
    voyage_id_counter: u64,
}

impl View for Registry {
    type V = RegistryView;

    closed spec fn view(&self) -> RegistryView {
        RegistryView {
            vessels: self.vessels@.map_values(|v: Vessel| v@),
            voyages: self.voyages@.map_values(|y: Voyage| y@),
            next_vessel_id: self.vessel_id_counter,
            next_voyage_id: self.voyage_id_counter,
        }
    }
}

fn vessel_not_found(id: u64) -> (e: Error)
    ensures
        e matches Error::NotFound { msg } && msg@ == vessel_not_found_msg(id),
{
    let mut msg = "a vessel with id=".to_owned();
    push_u64_decimal(&mut msg, id);
    msg.append(" not found");
    proof {
        assert(msg@ =~= vessel_not_found_msg(id));
    }
    Error::NotFound { msg }
}

fn voyage_not_found(id: u64) -> (e: Error)
    ensures
        e matches Error::NotFound { msg } && msg@ == voyage_not_found_msg(id),
{
    let mut msg = "a voyage with id=".to_owned();
    push_u64_decimal(&mut msg, id);
    msg.append(" not found");
    proof {
        assert(msg@ =~= voyage_not_found_msg(id));
    }
    Error::NotFound { msg }
}

impl Registry {
    /// An empty store: no records, both counters at zero.
    pub fn new() -> (r: Registry)
        ensures
            r@.vessels == Map::<u64, VesselView>::empty(),
            r@.voyages == Map::<u64, VoyageView>::empty(),
            r@.next_vessel_id == 0,
            r@.next_voyage_id == 0,
            r@.wf(),
    {
        let r = Registry {
            vessels: BTreeMap::new(),
            voyages: BTreeMap::new(),
            vessel_id_counter: 0,
            voyage_id_counter: 0,
        };
        proof {
            assert(r@.vessels =~= Map::<u64, VesselView>::empty());
            assert(r@.voyages =~= Map::<u64, VoyageView>::empty());
        }
        r
    }

    /// The value the vessel counter will issue next.
    pub fn next_vessel_id(&self) -> (r: u64)
        ensures
            r == self@.next_vessel_id,
    {
        self.vessel_id_counter
    }

    /// The value the voyage counter will issue next.
    pub fn next_voyage_id(&self) -> (r: u64)
        ensures
            r == self@.next_voyage_id,
    {
        self.voyage_id_counter
    }

    /// Point lookup of a vessel row.
    pub fn _get_vessel(&self, id: &u64) -> (r: Option<Vessel>)
        ensures
            match r {
                Some(v) => self@.vessels.contains_key(*id) && v@ == self@.vessels[*id],
                None => !self@.vessels.contains_key(*id),
            },
    {
        match self.vessels.get(id) {
            Some(v) => Some(v.clone()),
            None => None,
        }
    }

    /// Point lookup of a voyage row.
    pub fn _get_voyage(&self, id: &u64) -> (r: Option<Voyage>)
        ensures
            match r {
                Some(y) => self@.voyages.contains_key(*id) && y@ == self@.voyages[*id],
                None => !self@.voyages.contains_key(*id),
            },
    {
        match self.voyages.get(id) {
            Some(y) => Some(y.clone()),
            None => None,
        }
    }

    /// Upserts a vessel row under its own id.
    pub fn do_insert_vessel(&mut self, vessel: &Vessel)
        ensures
            final(self)@.vessels == old(self)@.vessels.insert(vessel@.id, vessel@),
            final(self)@.voyages == old(self)@.voyages,
            final(self)@.next_vessel_id == old(self)@.next_vessel_id,
            final(self)@.next_voyage_id == old(self)@.next_voyage_id,
    {
        let v = vessel.clone();
        let id = v.id;
        self.vessels.insert(id, v);
        proof {
            assert(self@.vessels =~= old(self)@.vessels.insert(vessel@.id, vessel@));
            assert(self@.voyages =~= old(self)@.voyages);
        }
    }

    /// Upserts a voyage row under its own id.
    pub fn do_insert_voyage(&mut self, voyage: &Voyage)
        ensures
            final(self)@.voyages == old(self)@.voyages.insert(voyage@.id, voyage@),
            final(self)@.vessels == old(self)@.vessels,
            final(self)@.next_vessel_id == old(self)@.next_vessel_id,
            final(self)@.next_voyage_id == old(self)@.next_voyage_id,
    {
        let y = voyage.clone();
        let id = y.id;
        self.voyages.insert(id, y);
        proof {
            assert(self@.voyages =~= old(self)@.voyages.insert(voyage@.id, voyage@));
            assert(self@.vessels =~= old(self)@.vessels);
        }
    }

    /// Read operation: the vessel stored under `id`, or `NotFound`.
    pub fn get_vessel(&self, id: u64) -> (r: Result<Vessel, Error>)
        ensures
            self@.vessels.contains_key(id) ==> (r matches Ok(v) && v@ == self@.vessels[id]),
            !self@.vessels.contains_key(id) ==> (r matches Err(Error::NotFound { msg }) && msg@
                == vessel_not_found_msg(id)),
    {
        match self._get_vessel(&id) {
            Some(vessel) => Ok(vessel),
            None => Err(vessel_not_found(id)),
        }
    }

    /// Read operation: the voyage stored under `id`, or `NotFound`.
    pub fn get_voyage(&self, id: u64) -> (r: Result<Voyage, Error>)
        ensures
            self@.voyages.contains_key(id) ==> (r matches Ok(y) && y@ == self@.voyages[id]),
            !self@.voyages.contains_key(id) ==> (r matches Err(Error::NotFound { msg }) && msg@
                == voyage_not_found_msg(id)),
    {
        match self._get_voyage(&id) {
            Some(voyage) => Ok(voyage),
            None => Err(voyage_not_found(id)),
        }
    }

    /// Create operation for vessels. A valid payload is stored under a fresh
    /// id — strictly above every id the counter issued before — with the
    /// caller recorded as admin, the clock reading as `last_update`, and an
    /// empty voyage index; the stored record is returned. An invalid payload
    /// changes nothing and reports every violation.
    pub fn add_vessel(&mut self, vessel: VesselPayload, caller: String, now: u64) -> (r: Result<
        Vessel,
        Error,
    >)
        requires
            old(self)@.wf(),
            old(self)@.next_vessel_id < u64::MAX,
        ensures
            final(self)@.wf(),
            vessel_violations(vessel@).len() > 0 ==> (r matches Err(
                Error::InvalidPayload { errors },
            ) && msg_views(errors@) == vessel_violations(vessel@) && final(self)@ == old(self)@),
            vessel_violations(vessel@).len() == 0 ==> (r matches Ok(v) && {
                &&& v@.id == old(self)@.next_vessel_id
                &&& v@.name == vessel@.name
                &&& v@.captain == vessel@.captain
                &&& v@.capacity == vessel@.capacity
                &&& v@.current_location == vessel@.current_location
                &&& v@.admin_principal == caller@
                &&& v@.last_update == now
                &&& v@.voyages_ids == Seq::<u64>::empty()
                &&& !old(self)@.vessels.contains_key(v@.id)
                &&& final(self)@.vessels == old(self)@.vessels.insert(v@.id, v@)
                &&& final(self)@.voyages == old(self)@.voyages
                &&& final(self)@.next_vessel_id == old(self)@.next_vessel_id + 1
                &&& final(self)@.next_voyage_id == old(self)@.next_voyage_id
            }),
    {
        match validate_vessel_payload(&vessel) {
            Err(e) => {
                return Err(e);
            },
            Ok(()) => {},
        }
        let id = self.vessel_id_counter;
        self.vessel_id_counter = id + 1;
        let vessel_rec = Vessel {
            id,
            name: vessel.name,
            admin_principal: caller,
            captain: vessel.captain,
            capacity: vessel.capacity,
            current_location: vessel.current_location,
            last_update: now,
            voyages_ids: Vec::new(),
        };
        proof {
            assert(!old(self)@.vessels.contains_key(id));
        }
        self.do_insert_vessel(&vessel_rec);
        proof {
            let oldv = old(self)@;
            let newv = self@;
            assert forall|k: u64| #[trigger] newv.vessels.dom().contains(k) implies newv.vessel_ok(
                k,
            ) by {
                if k == id {
                    assert(newv.vessels[k] == vessel_rec@);
                } else {
                    assert(oldv.vessels.dom().contains(k));
                    assert(oldv.vessel_ok(k));
                }
            }
            assert forall|k: u64| #[trigger] newv.voyages.dom().contains(k) implies newv.voyage_ok(
                k,
            ) by {
                assert(oldv.voyage_ok(k));
                let y = oldv.voyages[k];
                assert(y.vessel_id != id);
            }
        }
        Ok(vessel_rec)
    }

    /// Create operation for voyages. The referenced vessel must exist, the
    /// caller must be its admin and the payload must validate against the
    /// clock reading; then the voyage is stored under a fresh id with the
    /// vessel's admin copied onto it, the clock reading as departure time
    /// and no snapshot, and that id is appended to the vessel's index. A
    /// failed lookup, authorization or validation changes nothing — in
    /// particular no voyage id is consumed.
    pub fn add_voyage(&mut self, voyage: VoyagePayload, caller: String, now: u64) -> (r: Result<
        Voyage,
        Error,
    >)
        requires
            old(self)@.wf(),
            old(self)@.next_voyage_id < u64::MAX,
        ensures
            final(self)@.wf(),
            !old(self)@.vessels.contains_key(voyage@.vessel_id) ==> (r matches Err(
                Error::NotFound { msg },
            ) && msg@ == vessel_not_found_msg(voyage@.vessel_id) && final(self)@ == old(self)@),
            old(self)@.vessels.contains_key(voyage@.vessel_id) && old(self)@.vessels[voyage@.vessel_id].admin_principal
                != caller@ ==> (r matches Err(Error::NotVesselAdmin) && final(self)@ == old(
                self,
            )@),
            old(self)@.vessels.contains_key(voyage@.vessel_id) && old(self)@.vessels[voyage@.vessel_id].admin_principal
                == caller@ && voyage_violations(voyage@, now).len() > 0 ==> (r matches Err(
                Error::InvalidPayload { errors },
            ) && msg_views(errors@) == voyage_violations(voyage@, now) && final(self)@ == old(
                self,
            )@),
            old(self)@.vessels.contains_key(voyage@.vessel_id) && old(self)@.vessels[voyage@.vessel_id].admin_principal
                == caller@ && voyage_violations(voyage@, now).len() == 0 ==> (r matches Ok(y) && {
                let vid = voyage@.vessel_id;
                let stored_vessel = old(self)@.vessels[vid];
                &&& y@.id == old(self)@.next_voyage_id
                &&& y@.vessel_id == vid
                &&& y@.admin_principal == stored_vessel.admin_principal
                &&& y@.departure_port == voyage@.departure_port
                &&& y@.destination_port == voyage@.destination_port
                &&& y@.departure_time == now
                &&& y@.arrival_time == voyage@.arrival_time
                &&& y@.vessel_data is None
                &&& !stored_vessel.voyages_ids.contains(y@.id)
                &&& !old(self)@.voyages.contains_key(y@.id)
                &&& final(self)@.vessels == old(self)@.vessels.insert(
                    vid,
                    (VesselView { voyages_ids: stored_vessel.voyages_ids.push(y@.id), ..stored_vessel }),
                )
                &&& final(self)@.voyages == old(self)@.voyages.insert(y@.id, y@)
                &&& final(self)@.next_voyage_id == old(self)@.next_voyage_id + 1
                &&& final(self)@.next_vessel_id == old(self)@.next_vessel_id
            }),
    {
        let vid = voyage.vessel_id;
        let mut vessel = match self.get_vessel(vid) {
            Ok(v) => v,
            Err(e) => {
                return Err(e);
            },
        };
        match is_caller_vessel_admin(&vessel, &caller) {
            Err(e) => {
                return Err(e);
            },
            Ok(()) => {},
        }
        match validate_voyage_payload(&voyage, now) {
            Err(e) => {
                return Err(e);
            },
            Ok(()) => {},
        }
        let id = self.voyage_id_counter;
        self.voyage_id_counter = id + 1;
        let voyage_rec = Voyage {
            id,
            vessel_id: vid,
            admin_principal: vessel.admin_principal.clone(),
            departure_port: voyage.departure_port,
            destination_port: voyage.destination_port,
            departure_time: now,
            arrival_time: voyage.arrival_time,
            vessel_data: None,
        };
        proof {
            let oldv = old(self)@;
            assert(oldv.vessel_ok(vid));
            assert(!oldv.voyages.dom().contains(id));
            assert forall|i: int| 0 <= i < oldv.vessels[vid].voyages_ids.len() implies oldv.vessels[vid].voyages_ids[i]
                != id by {
                assert(oldv.voyages.dom().contains(oldv.vessels[vid].voyages_ids[i]));
                assert(oldv.voyage_ok(oldv.vessels[vid].voyages_ids[i]));
            }
            assert(!oldv.vessels[vid].voyages_ids.contains(id));
        }
        vessel.voyages_ids.push(id);
        self.do_insert_vessel(&vessel);
        self.do_insert_voyage(&voyage_rec);
        proof {
            let oldv = old(self)@;
            let newv = self@;
            let old_vessel = oldv.vessels[vid];
            assert(vessel@ == (VesselView { voyages_ids: old_vessel.voyages_ids.push(id), ..old_vessel }));
            assert(newv.vessels =~= oldv.vessels.insert(
                vid,
                (VesselView { voyages_ids: old_vessel.voyages_ids.push(id), ..old_vessel }),
            ));
            assert forall|k: u64| #[trigger] newv.vessels.dom().contains(k) implies newv.vessel_ok(
                k,
            ) by {
                assert(oldv.vessels.dom().contains(k));
                assert(oldv.vessel_ok(k));
                if k == vid {
                    let lst = newv.vessels[k].voyages_ids;
                    assert(lst == old_vessel.voyages_ids.push(id));
                    assert forall|i: int| 0 <= i < lst.len() implies {
                        &&& newv.voyages.dom().contains(#[trigger] lst[i])
                        &&& newv.voyages[lst[i]].vessel_id == k
                    } by {
                        if i < lst.len() - 1 {
                            assert(lst[i] == old_vessel.voyages_ids[i]);
                            assert(oldv.voyages.dom().contains(lst[i]));
                            assert(oldv.voyage_ok(lst[i]));
                            assert(lst[i] != id);
                        } else {
                            assert(lst[i] == id);
                        }
                    }
                } else {
                    assert(newv.vessels[k] == oldv.vessels[k]);
                    assert forall|i: int| 0 <= i < newv.vessels[k].voyages_ids.len() implies {
                        &&& newv.voyages.dom().contains(#[trigger] newv.vessels[k].voyages_ids[i])
                        &&& newv.voyages[newv.vessels[k].voyages_ids[i]].vessel_id == k
                    } by {
                        assert(oldv.voyages.dom().contains(oldv.vessels[k].voyages_ids[i]));
                        assert(oldv.voyage_ok(oldv.vessels[k].voyages_ids[i]));
                    }
                }
            }
            assert forall|k: u64| #[trigger] newv.voyages.dom().contains(k) implies newv.voyage_ok(
                k,
            ) by {
                if k == id {
                    assert(newv.voyages[k] == voyage_rec@);
                    assert(oldv.vessel_ok(vid));
                    assert(newv.vessels[vid].voyages_ids.last() == id);
                    assert(newv.vessels[vid].voyages_ids.contains(id));
                } else {
                    assert(oldv.voyages.dom().contains(k));
                    assert(oldv.voyage_ok(k));
                    let y = oldv.voyages[k];
                    assert(newv.voyages[k] == y);
                    if newv.vessels.dom().contains(y.vessel_id) {
                        assert(oldv.vessels.dom().contains(y.vessel_id));
                        if y.vessel_id == vid {
                            let old_lst = oldv.vessels[vid].voyages_ids;
                            let i = choose|i: int| 0 <= i < old_lst.len() && old_lst[i] == k;
                            assert(newv.vessels[vid].voyages_ids[i] == k);
                            assert(newv.vessels[vid].voyages_ids.contains(k));
                        }
                    }
                }
            }
        }
        Ok(voyage_rec)
    }

    /// Update operation for vessels: the caller-supplied fields are
    /// overwritten and `last_update` is stamped with the clock reading; id,
    /// admin and the voyage index are untouched. A failed lookup,
    /// authorization or validation changes nothing.
    pub fn update_vessel(&mut self, id: u64, updated_vessel: VesselPayload, caller: String, now: u64) -> (r: Result<(), Error>)
        requires
            old(self)@.wf(),
        ensures
            final(self)@.wf(),
            !old(self)@.vessels.contains_key(id) ==> (r matches Err(Error::NotFound { msg }) && msg@
                == vessel_not_found_msg(id) && final(self)@ == old(self)@),
            old(self)@.vessels.contains_key(id) && old(self)@.vessels[id].admin_principal != caller@
                ==> (r matches Err(Error::NotVesselAdmin) && final(self)@ == old(self)@),
            old(self)@.vessels.contains_key(id) && old(self)@.vessels[id].admin_principal == caller@
                && vessel_violations(updated_vessel@).len() > 0 ==> (r matches Err(
                Error::InvalidPayload { errors },
            ) && msg_views(errors@) == vessel_violations(updated_vessel@) && final(self)@ == old(
                self,
            )@),
            old(self)@.vessels.contains_key(id) && old(self)@.vessels[id].admin_principal == caller@
                && vessel_violations(updated_vessel@).len() == 0 ==> (r is Ok && {
                let stored = old(self)@.vessels[id];
                &&& final(self)@.vessels == old(self)@.vessels.insert(
                    id,
                    (VesselView {
                        name: updated_vessel@.name,
                        captain: updated_vessel@.captain,
                        capacity: updated_vessel@.capacity,
                        current_location: updated_vessel@.current_location,
                        last_update: now,
                        ..stored
                    }),
                )
                &&& final(self)@.voyages == old(self)@.voyages
                &&& final(self)@.next_vessel_id == old(self)@.next_vessel_id
                &&& final(self)@.next_voyage_id == old(self)@.next_voyage_id
            }),
    {
        let mut existing_vessel = match self._get_vessel(&id) {
            Some(v) => v,
            None => {
                return Err(vessel_not_found(id));
            },
        };
        match is_caller_vessel_admin(&existing_vessel, &caller) {
            Err(e) => {
                return Err(e);
            },
            Ok(()) => {},
        }
        match validate_vessel_payload(&updated_vessel) {
            Err(e) => {
                return Err(e);
            },
            Ok(()) => {},
        }
        existing_vessel.name = updated_vessel.name;
        existing_vessel.captain = updated_vessel.captain;
        existing_vessel.capacity = updated_vessel.capacity;
        existing_vessel.current_location = updated_vessel.current_location;
        existing_vessel.last_update = now;
        self.do_insert_vessel(&existing_vessel);
        proof {
            let oldv = old(self)@;
            let newv = self@;
            assert(newv.vessels =~= oldv.vessels.insert(id, existing_vessel@));
            assert forall|k: u64| #[trigger] newv.vessels.dom().contains(k) implies newv.vessel_ok(
                k,
            ) by {
                assert(oldv.vessels.dom().contains(k));
                assert(oldv.vessel_ok(k));
                assert(newv.vessels[k].voyages_ids == oldv.vessels[k].voyages_ids);
                assert forall|i: int| 0 <= i < newv.vessels[k].voyages_ids.len() implies {
                    &&& newv.voyages.dom().contains(#[trigger] newv.vessels[k].voyages_ids[i])
                    &&& newv.voyages[newv.vessels[k].voyages_ids[i]].vessel_id == k
                } by {
                    assert(oldv.voyages.dom().contains(oldv.vessels[k].voyages_ids[i]));
                    assert(oldv.voyage_ok(oldv.vessels[k].voyages_ids[i]));
                }
            }
            assert forall|k: u64| #[trigger] newv.voyages.dom().contains(k) implies newv.voyage_ok(
                k,
            ) by {
                assert(oldv.voyage_ok(k));
                let y = oldv.voyages[k];
                if newv.vessels.dom().contains(y.vessel_id) {
                    assert(oldv.vessels.dom().contains(y.vessel_id));
                    assert(newv.vessels[y.vessel_id].voyages_ids == oldv.vessels[y.vessel_id].voyages_ids);
                    assert(newv.vessels[y.vessel_id].admin_principal == oldv.vessels[y.vessel_id].admin_principal);
                }
            }
        }
        Ok(())
    }

    /// Update operation for voyages: ports and times are overwritten from
    /// the payload; id, vessel reference, admin and snapshot are untouched.
    /// The voyage's vessel is re-resolved and must still exist — a detached
    /// voyage cannot be updated — and authorization is checked against that
    /// vessel's current admin. A failed lookup, authorization or validation
    /// changes nothing.
    pub fn update_voyage(&mut self, id: u64, updated_voyage: VoyagePayload, caller: String, now: u64) -> (r: Result<(), Error>)
        requires
            old(self)@.wf(),
        ensures
            final(self)@.wf(),
            !old(self)@.voyages.contains_key(id) ==> (r matches Err(Error::NotFound { msg }) && msg@
                == voyage_not_found_msg(id) && final(self)@ == old(self)@),
            old(self)@.voyages.contains_key(id) && !old(self)@.vessels.contains_key(
                old(self)@.voyages[id].vessel_id,
            ) ==> (r matches Err(Error::NotFound { msg }) && msg@ == vessel_not_found_msg(
                old(self)@.voyages[id].vessel_id,
            ) && final(self)@ == old(self)@),
            old(self)@.voyages.contains_key(id) && old(self)@.vessels.contains_key(
                old(self)@.voyages[id].vessel_id,
            ) && old(self)@.vessels[old(self)@.voyages[id].vessel_id].admin_principal != caller@
                ==> (r matches Err(Error::NotVesselAdmin) && final(self)@ == old(self)@),
            old(self)@.voyages.contains_key(id) && old(self)@.vessels.contains_key(
                old(self)@.voyages[id].vessel_id,
            ) && old(self)@.vessels[old(self)@.voyages[id].vessel_id].admin_principal == caller@
                && voyage_violations(updated_voyage@, now).len() > 0 ==> (r matches Err(
                Error::InvalidPayload { errors },
            ) && msg_views(errors@) == voyage_violations(updated_voyage@, now) && final(self)@
                == old(self)@),
            old(self)@.voyages.contains_key(id) && old(self)@.vessels.contains_key(
                old(self)@.voyages[id].vessel_id,
            ) && old(self)@.vessels[old(self)@.voyages[id].vessel_id].admin_principal == caller@
                && voyage_violations(updated_voyage@, now).len() == 0 ==> (r is Ok && {
                let stored = old(self)@.voyages[id];
                &&& final(self)@.voyages == old(self)@.voyages.insert(
                    id,
                    (VoyageView {
                        departure_port: updated_voyage@.departure_port,
                        destination_port: updated_voyage@.destination_port,
                        departure_time: updated_voyage@.departure_time,
                        arrival_time: updated_voyage@.arrival_time,
                        ..stored
                    }),
                )
                &&& final(self)@.vessels == old(self)@.vessels
                &&& final(self)@.next_vessel_id == old(self)@.next_vessel_id
                &&& final(self)@.next_voyage_id == old(self)@.next_voyage_id
            }),
    {
        let mut existing_voyage = match self._get_voyage(&id) {
            Some(y) => y,
            None => {
                return Err(voyage_not_found(id));
            },
        };
        let vessel = match self.get_vessel(existing_voyage.vessel_id) {
            Ok(v) => v,
            Err(e) => {
                return Err(e);
            },
        };
        match is_caller_vessel_admin(&vessel, &caller) {
            Err(e) => {
                return Err(e);
            },
            Ok(()) => {},
        }
        match validate_voyage_payload(&updated_voyage, now) {
            Err(e) => {
                return Err(e);
            },
            Ok(()) => {},
        }
        existing_voyage.departure_port = updated_voyage.departure_port;
        existing_voyage.destination_port = updated_voyage.destination_port;
        existing_voyage.departure_time = updated_voyage.departure_time;
        existing_voyage.arrival_time = updated_voyage.arrival_time;
        self.do_insert_voyage(&existing_voyage);
        proof {
            let oldv = old(self)@;
            let newv = self@;
            assert(newv.voyages =~= oldv.voyages.insert(id, existing_voyage@));
            assert forall|k: u64| #[trigger] newv.vessels.dom().contains(k) implies newv.vessel_ok(
                k,
            ) by {
                assert(oldv.vessel_ok(k));
                assert forall|i: int| 0 <= i < newv.vessels[k].voyages_ids.len() implies {
                    &&& newv.voyages.dom().contains(#[trigger] newv.vessels[k].voyages_ids[i])
                    &&& newv.voyages[newv.vessels[k].voyages_ids[i]].vessel_id == k
                } by {
                    assert(oldv.voyages.dom().contains(oldv.vessels[k].voyages_ids[i]));
                    assert(oldv.voyage_ok(oldv.vessels[k].voyages_ids[i]));
                }
            }
            assert forall|k: u64| #[trigger] newv.voyages.dom().contains(k) implies newv.voyage_ok(
                k,
            ) by {
                assert(oldv.voyage_ok(k));
            }
        }
        Ok(())
    }

    /// Delete operation for voyages: the row is removed; if the owning
    /// vessel still lives, the voyage's id is struck from its index — a
    /// vanished vessel is silently skipped. Authorization is checked against
    /// the voyage's own recorded admin. A failed lookup or authorization
    /// changes nothing.
    pub fn delete_voyage(&mut self, id: u64, caller: String) -> (r: Result<(), Error>)
        requires
            old(self)@.wf(),
        ensures
            final(self)@.wf(),
            !old(self)@.voyages.contains_key(id) ==> (r matches Err(Error::NotFound { msg }) && msg@
                == voyage_not_found_msg(id) && final(self)@ == old(self)@),
            old(self)@.voyages.contains_key(id) && old(self)@.voyages[id].admin_principal != caller@
                ==> (r matches Err(Error::NotVoyageAdmin) && final(self)@ == old(self)@),
            old(self)@.voyages.contains_key(id) && old(self)@.voyages[id].admin_principal == caller@
                ==> (r is Ok && {
                let vid = old(self)@.voyages[id].vessel_id;
                &&& final(self)@.voyages == old(self)@.voyages.remove(id)
                &&& (old(self)@.vessels.contains_key(vid) ==> {
                    let stored = old(self)@.vessels[vid];
                    &&& final(self)@.vessels == old(self)@.vessels.insert(
                        vid,
                        (VesselView {
                            voyages_ids: stored.voyages_ids.filter(|x: u64| x != id),
                            ..stored
                        }),
                    )
                    &&& !final(self)@.vessels[vid].voyages_ids.contains(id)
                })
                &&& (!old(self)@.vessels.contains_key(vid) ==> final(self)@.vessels == old(
                    self,
                )@.vessels)
                &&& final(self)@.next_vessel_id == old(self)@.next_vessel_id
                &&& final(self)@.next_voyage_id == old(self)@.next_voyage_id
            }),
    {
        let voyage = match self._get_voyage(&id) {
            Some(y) => y,
            None => {
                return Err(voyage_not_found(id));
            },
        };
        match is_caller_voyage_admin(&voyage, &caller) {
            Err(e) => {
                return Err(e);
            },
            Ok(()) => {},
        }
        let vessel_opt = self._get_vessel(&voyage.vessel_id);
        match vessel_opt {
            Some(mut vessel) => {
                vessel.voyages_ids = remove_listed_id(&vessel.voyages_ids, id);
                self.do_insert_vessel(&vessel);
            },
            None => {},
        }
        self.voyages.remove(&id);
        proof {
            let oldv = old(self)@;
            let newv = self@;
            let vid = oldv.voyages[id].vessel_id;
            assert(newv.voyages =~= oldv.voyages.remove(id));
            if oldv.vessels.dom().contains(vid) {
                let stored = oldv.vessels[vid];
                assert(newv.vessels =~= oldv.vessels.insert(
                    vid,
                    (VesselView {
                        voyages_ids: stored.voyages_ids.filter(|x: u64| x != id),
                        ..stored
                    }),
                ));
            } else {
                assert(newv.vessels =~= oldv.vessels);
            }
            assert forall|k: u64| #[trigger] newv.vessels.dom().contains(k) implies newv.vessel_ok(
                k,
            ) by {
                assert(oldv.vessels.dom().contains(k));
                assert(oldv.vessel_ok(k));
                let old_lst = oldv.vessels[k].voyages_ids;
                let new_lst = newv.vessels[k].voyages_ids;
                if k == vid && oldv.vessels.dom().contains(vid) {
                    assert(new_lst == old_lst.filter(|x: u64| x != id));
                    lemma_filter_keeps_no_duplicates(old_lst, |x: u64| x != id);
                    assert forall|i: int| 0 <= i < new_lst.len() implies {
                        &&& newv.voyages.dom().contains(#[trigger] new_lst[i])
                        &&& newv.voyages[new_lst[i]].vessel_id == k
                    } by {
                        old_lst.lemma_filter_pred(|x: u64| x != id, i);
                        lemma_filter_element_origin(old_lst, |x: u64| x != id, i);
                        let j = choose|j: int| 0 <= j < old_lst.len() && old_lst[j] == new_lst[i];
                        assert(oldv.voyages.dom().contains(old_lst[j]));
                        assert(oldv.voyage_ok(old_lst[j]));
                    }
                } else {
                    assert(new_lst == old_lst);
                    assert forall|i: int| 0 <= i < new_lst.len() implies {
                        &&& newv.voyages.dom().contains(#[trigger] new_lst[i])
                        &&& newv.voyages[new_lst[i]].vessel_id == k
                    } by {
                        assert(oldv.voyages.dom().contains(old_lst[i]));
                        assert(oldv.voyage_ok(old_lst[i]));
                        assert(oldv.voyages[old_lst[i]].vessel_id == k);
                        if old_lst[i] == id {
                            assert(vid == k);
                            assert(oldv.vessels.dom().contains(k));
                            assert(false);
                        }
                    }
                }
            }
            assert forall|k: u64| #[trigger] newv.voyages.dom().contains(k) implies newv.voyage_ok(
                k,
            ) by {
                assert(oldv.voyages.dom().contains(k));
                assert(oldv.voyage_ok(k));
                let y = oldv.voyages[k];
                if newv.vessels.dom().contains(y.vessel_id) {
                    assert(oldv.vessels.dom().contains(y.vessel_id));
                    if y.vessel_id == vid && oldv.vessels.dom().contains(vid) {
                        let old_lst = oldv.vessels[vid].voyages_ids;
                        let i = choose|i: int| 0 <= i < old_lst.len() && old_lst[i] == k;
                        old_lst.lemma_filter_contains(|x: u64| x != id, i);
                        assert(newv.vessels[vid].voyages_ids.contains(k));
                    }
                }
            }
            if oldv.voyages[id].admin_principal == caller@ && oldv.vessels.dom().contains(vid) {
                let pred = |x: u64| x != id;
                let filtered = oldv.vessels[vid].voyages_ids.filter(pred);
                assert forall|i: int| 0 <= i < filtered.len() implies filtered[i] != id by {
                    oldv.vessels[vid].voyages_ids.lemma_filter_pred(pred, i);
                }
                assert(!filtered.contains(id));
            }
        }
        Ok(())
    }

    /// Delete operation for vessels: every voyage the vessel's index lists
    /// is stamped with a frozen snapshot of the vessel as it stood before
    /// deletion — detaching it while preserving history — and then the
    /// vessel row is removed. The voyage rows themselves survive. A failed
    /// lookup or authorization changes nothing.
    pub fn delete_vessel(&mut self, id: u64, caller: String) -> (r: Result<(), Error>)
        requires
            old(self)@.wf(),
        ensures
            final(self)@.wf(),
            !old(self)@.vessels.contains_key(id) ==> (r matches Err(Error::NotFound { msg }) && msg@
                == vessel_not_found_msg(id) && final(self)@ == old(self)@),
            old(self)@.vessels.contains_key(id) && old(self)@.vessels[id].admin_principal != caller@
                ==> (r matches Err(Error::NotVesselAdmin) && final(self)@ == old(self)@),
            old(self)@.vessels.contains_key(id) && old(self)@.vessels[id].admin_principal == caller@
                ==> (r is Ok && {
                let snapshot = old(self)@.vessels[id];
                &&& final(self)@.vessels == old(self)@.vessels.remove(id)
                &&& final(self)@.voyages.dom() == old(self)@.voyages.dom()
                &&& forall|k: u64| #[trigger] old(self)@.voyages.dom().contains(k)
                    ==> final(self)@.voyages[k] == (if snapshot.voyages_ids.contains(k) {
                        (VoyageView { vessel_data: Some(snapshot), ..old(self)@.voyages[k] })
                    } else {
                        old(self)@.voyages[k]
                    })
                &&& final(self)@.next_vessel_id == old(self)@.next_vessel_id
                &&& final(self)@.next_voyage_id == old(self)@.next_voyage_id
            }),
    {
        let vessel = match self._get_vessel(&id) {
            Some(v) => v,
            None => {
                return Err(vessel_not_found(id));
            },
        };
        match is_caller_vessel_admin(&vessel, &caller) {
            Err(e) => {
                return Err(e);
            },
            Ok(()) => {},
        }
        let ghost oldv = self@;
        let ghost snapshot = oldv.vessels[id];
        let n = vessel.voyages_ids.len();
        let mut i: usize = 0;
        while i < n
            invariant
                oldv.wf(),
                oldv == old(self)@,
                oldv.vessels.dom().contains(id),
                snapshot == oldv.vessels[id],
                vessel@ == snapshot,
                n == snapshot.voyages_ids.len(),
                0 <= i <= n,
                self@.vessels == oldv.vessels,
                self@.next_vessel_id == oldv.next_vessel_id,
                self@.next_voyage_id == oldv.next_voyage_id,
                self@.voyages.dom() == oldv.voyages.dom(),
                forall|k: u64| #[trigger] oldv.voyages.dom().contains(k) ==> self@.voyages[k] == (
                    if snapshot.voyages_ids.subrange(0, i as int).contains(k) {
                        (VoyageView { vessel_data: Some(snapshot), ..oldv.voyages[k] })
                    } else {
                        oldv.voyages[k]
                    }),
            decreases n - i,
        {
            let voyage_id = vessel.voyages_ids[i];
            proof {
                assert(oldv.vessel_ok(id));
                assert(snapshot.voyages_ids[i as int] == voyage_id);
                assert(oldv.voyages.dom().contains(voyage_id));
            }
            let voyage_opt = self._get_voyage(&voyage_id);
            match voyage_opt {
                Some(mut voyage) => {
                    voyage.vessel_data = Some(vessel.clone());
                    self.do_insert_voyage(&voyage);
                },
                None => {},
            }
            proof {
                assert forall|k: u64| #[trigger] oldv.voyages.dom().contains(k) implies self@.voyages[k]
                    == (if snapshot.voyages_ids.subrange(0, i + 1 as int).contains(k) {
                        (VoyageView { vessel_data: Some(snapshot), ..oldv.voyages[k] })
                    } else {
                        oldv.voyages[k]
                    }) by {
                    let pre = snapshot.voyages_ids.subrange(0, i as int);
                    let post = snapshot.voyages_ids.subrange(0, i + 1 as int);
                    assert(post.drop_last() =~= pre);
                    assert(post.last() == voyage_id);
                    if k == voyage_id {
                        assert(post[i as int] == voyage_id);
                        assert(post.contains(k));
                    } else {
                        assert(pre.contains(k) <==> post.contains(k)) by {
                            if post.contains(k) {
                                let j = choose|j: int| 0 <= j < post.len() && post[j] == k;
                                assert(j < post.len() - 1);
                                assert(pre[j] == k);
                            }
                            if pre.contains(k) {
                                let j = choose|j: int| 0 <= j < pre.len() && pre[j] == k;
                                assert(post[j] == k);
                            }
                        }
                    }
                }
            }
            i = i + 1;
        }
        self.vessels.remove(&id);
        proof {
            let newv = self@;
            assert(newv.vessels =~= oldv.vessels.remove(id));
            assert(snapshot.voyages_ids.subrange(0, n as int) =~= snapshot.voyages_ids);
            assert forall|k: u64| #[trigger] newv.vessels.dom().contains(k) implies newv.vessel_ok(
                k,
            ) by {
                assert(oldv.vessels.dom().contains(k));
                assert(oldv.vessel_ok(k));
                let lst = newv.vessels[k].voyages_ids;
                assert(lst == oldv.vessels[k].voyages_ids);
                assert forall|j: int| 0 <= j < lst.len() implies {
                    &&& newv.voyages.dom().contains(#[trigger] lst[j])
                    &&& newv.voyages[lst[j]].vessel_id == k
                } by {
                    assert(oldv.voyages.dom().contains(lst[j]));
                    assert(oldv.voyage_ok(lst[j]));
                }
            }
            assert forall|k: u64| #[trigger] newv.voyages.dom().contains(k) implies newv.voyage_ok(
                k,
            ) by {
                assert(oldv.voyages.dom().contains(k));
                assert(oldv.voyage_ok(k));
                let y_old = oldv.voyages[k];
                let y_new = newv.voyages[k];
                if snapshot.voyages_ids.contains(k) {
                    assert(oldv.voyage_ok(k));
                    assert(y_old.vessel_id == id) by {
                        let j = choose|j: int|
                            0 <= j < snapshot.voyages_ids.len() && snapshot.voyages_ids[j] == k;
                        assert(oldv.vessel_ok(id));
                    }
                    assert(!newv.vessels.dom().contains(y_new.vessel_id));
                } else {
                    assert(y_new == y_old);
                    if newv.vessels.dom().contains(y_new.vessel_id) {
                        assert(oldv.vessels.dom().contains(y_old.vessel_id));
                        assert(newv.vessels[y_new.vessel_id] == oldv.vessels[y_old.vessel_id]);
                    }
                }
            }
        }
        Ok(())
    }
}

/// Everything a filtered sequence holds was already in the sequence.
proof fn lemma_filter_element_origin(s: Seq<u64>, pred: spec_fn(u64) -> bool, i: int)
    requires
        0 <= i < s.filter(pred).len(),
    ensures
        s.contains(s.filter(pred)[i]),
    decreases s.len(),
{
    reveal(Seq::filter);
    if s.len() > 0 {
        let sub = s.drop_last().filter(pred);
        if pred(s.last()) && i == s.filter(pred).len() - 1 {
            assert(s.filter(pred)[i] == s.last());
            assert(s[s.len() - 1] == s.last());
        } else {
            assert(s.filter(pred)[i] == sub[i]);
            lemma_filter_element_origin(s.drop_last(), pred, i);
            let j = choose|j: int| 0 <= j < s.drop_last().len() && s.drop_last()[j] == sub[i];
            assert(s[j] == sub[i]);
        }
    }
}

/// Filtering keeps a duplicate-free sequence duplicate-free.
proof fn lemma_filter_keeps_no_duplicates(s: Seq<u64>, pred: spec_fn(u64) -> bool)
    requires
        s.no_duplicates(),
    ensures
        s.filter(pred).no_duplicates(),
    decreases s.len(),
{
    reveal(Seq::filter);
    if s.len() > 0 {
        assert(s.drop_last().no_duplicates());
        lemma_filter_keeps_no_duplicates(s.drop_last(), pred);
        let sub = s.drop_last().filter(pred);
        if pred(s.last()) {
            assert(!sub.contains(s.last())) by {
                if sub.contains(s.last()) {
                    let i = choose|i: int| 0 <= i < sub.len() && sub[i] == s.last();
                    lemma_filter_element_origin(s.drop_last(), pred, i);
                    let j = choose|j: int|
                        0 <= j < s.drop_last().len() && s.drop_last()[j] == sub[i];
                    assert(s[j] == s[s.len() - 1]);
                    assert(false);
                }
            }
            assert forall|a: int, b: int|
                0 <= a < b < sub.push(s.last()).len() implies sub.push(s.last())[a] != sub.push(
                s.last(),
            )[b] by {
                if b == sub.len() {
                    assert(sub.push(s.last())[a] == sub[a]);
                    assert(!sub.contains(s.last()));
                }
            }
        }
    }
}

/// A copy of `list` without every occurrence of `id`, order kept.
fn remove_listed_id(list: &Vec<u64>, id: u64) -> (r: Vec<u64>)
    ensures
        r@ == list@.filter(|x: u64| x != id),
{
    let ghost pred = |x: u64| x != id;
    let mut r: Vec<u64> = Vec::new();
    let mut i: usize = 0;
    while i < list.len()
        invariant
            0 <= i <= list@.len(),
            r@ == list@.subrange(0, i as int).filter(pred),
            pred == (|x: u64| x != id),
        decreases list@.len() - i,
    {
        let x = list[i];
        proof {
            let pre = list@.subrange(0, i as int);
            let post = list@.subrange(0, i + 1 as int);
            assert(post.drop_last() =~= pre);
            assert(post.last() == list@[i as int]);
            reveal_with_fuel(Seq::filter, 2);
            assert(post.filter(pred) == if pred(list@[i as int]) {
                pre.filter(pred).push(list@[i as int])
            } else {
                pre.filter(pred)
            });
        }
        if x != id {
            r.push(x);
        }
        i = i + 1;
    }
    proof {
        assert(list@.subrange(0, list@.len() as int) =~= list@);
    }
    r
}

} // verus!
