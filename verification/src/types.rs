//! The entity records of the service — vessels and voyages — together with
//! the payloads a caller hands to the mutating operations and the error type
//! every operation returns.

use vstd::prelude::*;

verus! {

/// A registered vessel. `admin_principal` records the caller that created
/// the record and never changes afterwards; `voyages_ids` is the derived
/// back-reference index of the live voyages created against this vessel.
pub struct Vessel {
    pub id: u64,
    pub name: String,
    pub captain: String,
    pub admin_principal: String,
    pub capacity: u32,
    pub current_location: String,
    pub last_update: u64,
    pub voyages_ids: Vec<u64>,
}

/// The caller-supplied part of a vessel record.
pub struct VesselPayload {
    pub name: String,
    pub captain: String,
    pub capacity: u32,
    pub current_location: String,
}

/// A voyage. `vessel_id` names the vessel the voyage was created against;
/// `admin_principal` is copied from that vessel at creation time.
/// `vessel_data` stays `None` while the vessel lives and is stamped with a
/// frozen snapshot of it when the vessel is deleted.
pub struct Voyage {
    pub id: u64,
    pub vessel_id: u64,
    pub admin_principal: String,
    pub departure_port: String,
    pub destination_port: String,
    pub departure_time: u64,
    pub arrival_time: Option<u64>,
    pub vessel_data: Option<Vessel>,
}

/// The caller-supplied part of a voyage record.
pub struct VoyagePayload {
    pub vessel_id: u64,
    pub departure_port: String,
    pub destination_port: String,
    pub departure_time: u64,
    pub arrival_time: Option<u64>,
}

/// What an operation reports when it cannot run to completion. Validation
/// failures carry every violated constraint, not only the first one.
pub enum Error {
    NotFound { msg: String },
    InvalidPayload { errors: Vec<String> },
    NotVesselAdmin,
    NotVoyageAdmin,
}

/// The mathematical image of a [`Vessel`].
pub struct VesselView {
    pub id: u64,
    pub name: Seq<char>,
    pub captain: Seq<char>,
    pub admin_principal: Seq<char>,
    pub capacity: u32,
    pub current_location: Seq<char>,
    pub last_update: u64,
    pub voyages_ids: Seq<u64>,
}

/// The mathematical image of a [`VesselPayload`].
pub struct VesselPayloadView {
    pub name: Seq<char>,
    pub captain: Seq<char>,
    pub capacity: u32,
    pub current_location: Seq<char>,
}

/// The mathematical image of a [`Voyage`].
pub struct VoyageView {
    pub id: u64,
    pub vessel_id: u64,
    pub admin_principal: Seq<char>,
    pub departure_port: Seq<char>,
    pub destination_port: Seq<char>,
    pub departure_time: u64,
    pub arrival_time: Option<u64>,
    pub vessel_data: Option<VesselView>,
}

/// The mathematical image of a [`VoyagePayload`].
pub struct VoyagePayloadView {
    pub vessel_id: u64,
    pub departure_port: Seq<char>,
    pub destination_port: Seq<char>,
    pub departure_time: u64,
    pub arrival_time: Option<u64>,
}

impl View for Vessel {
    type V = VesselView;

    open spec fn view(&self) -> VesselView {
        VesselView {
            id: self.id,
            name: self.name@,
            captain: self.captain@,
            admin_principal: self.admin_principal@,
            capacity: self.capacity,
            current_location: self.current_location@,
            last_update: self.last_update,
            voyages_ids: self.voyages_ids@,
        }
    }
}

impl View for VesselPayload {
    type V = VesselPayloadView;

    open spec fn view(&self) -> VesselPayloadView {
        VesselPayloadView {
            name: self.name@,
            captain: self.captain@,
            capacity: self.capacity,
            current_location: self.current_location@,
        }
    }
}

impl View for Voyage {
    type V = VoyageView;

    open spec fn view(&self) -> VoyageView {
        VoyageView {
            id: self.id,
            vessel_id: self.vessel_id,
            admin_principal: self.admin_principal@,
            departure_port: self.departure_port@,
            destination_port: self.destination_port@,
            departure_time: self.departure_time,
            arrival_time: self.arrival_time,
            vessel_data: match self.vessel_data {
                Some(v) => Some(v@),
                None => None,
            },
        }
    }
}

impl View for VoyagePayload {
    type V = VoyagePayloadView;

    open spec fn view(&self) -> VoyagePayloadView {
        VoyagePayloadView {
            vessel_id: self.vessel_id,
            departure_port: self.departure_port@,
            destination_port: self.destination_port@,
            departure_time: self.departure_time,
            arrival_time: self.arrival_time,
        }
    }
}

impl Clone for Vessel {
    fn clone(&self) -> (res: Self)
        ensures
            res@ == self@,
    {
        let res = Vessel {
            id: self.id,
            name: self.name.clone(),
            captain: self.captain.clone(),
            admin_principal: self.admin_principal.clone(),
            capacity: self.capacity,
            current_location: self.current_location.clone(),
            last_update: self.last_update,
            voyages_ids: self.voyages_ids.clone(),
        };
        proof {
            assert(res.voyages_ids@ =~= self.voyages_ids@);
        }
        res
    }
}

impl Clone for VesselPayload {
    fn clone(&self) -> (res: Self)
        ensures
            res@ == self@,
    {
        VesselPayload {
            name: self.name.clone(),
            captain: self.captain.clone(),
            capacity: self.capacity,
            current_location: self.current_location.clone(),
        }
    }
}

impl Clone for VoyagePayload {
    fn clone(&self) -> (res: Self)
        ensures
            res@ == self@,
    {
        VoyagePayload {
            vessel_id: self.vessel_id,
            departure_port: self.departure_port.clone(),
            destination_port: self.destination_port.clone(),
            departure_time: self.departure_time,
            arrival_time: self.arrival_time,
        }
    }
}

impl Clone for Voyage {
    fn clone(&self) -> (res: Self)
        ensures
            res@ == self@,
    {
        Voyage {
            id: self.id,
            vessel_id: self.vessel_id,
            admin_principal: self.admin_principal.clone(),
            departure_port: self.departure_port.clone(),
            destination_port: self.destination_port.clone(),
            departure_time: self.departure_time,
            arrival_time: self.arrival_time,
            vessel_data: match &self.vessel_data {
                Some(v) => Some(v.clone()),
                None => None,
            },
        }
    }
}

} // verus!
