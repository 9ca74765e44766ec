//! Payload validation and ownership checks.
//!
//! Validation collects every violated constraint into a list of messages and
//! fails only when that list is non-empty — later violations are never
//! dropped because an earlier one fired.

use vstd::prelude::*;
use vstd::string::{StrSliceExecFns, StringExecFns};

use crate::text::{decimal_digits, push_u64_decimal};
use crate::types::{Error, Vessel, VesselPayload, VesselPayloadView, Voyage, VoyagePayload,
    VoyagePayloadView};

verus! {

/// A character of the Unicode `White_Space` class — exactly the characters
/// that `str::trim` strips.
pub open spec fn is_space_char(c: char) -> bool {
    ||| c == '\u{0009}'
    ||| c == '\u{000a}'
    ||| c == '\u{000b}'
    ||| c == '\u{000c}'
    ||| c == '\u{000d}'
    ||| c == ' '
    ||| c == '\u{0085}'
    ||| c == '\u{00a0}'
    ||| c == '\u{1680}'
    ||| c == '\u{2000}'
    ||| c == '\u{2001}'
    ||| c == '\u{2002}'
    ||| c == '\u{2003}'
    ||| c == '\u{2004}'
    ||| c == '\u{2005}'
    ||| c == '\u{2006}'
    ||| c == '\u{2007}'
    ||| c == '\u{2008}'
    ||| c == '\u{2009}'
    ||| c == '\u{200a}'
    ||| c == '\u{2028}'
    ||| c == '\u{2029}'
    ||| c == '\u{202f}'
    ||| c == '\u{205f}'
    ||| c == '\u{3000}'
}

/// A string is blank when every character is whitespace — equivalently, when
/// trimming leaves it empty. The empty string is blank.
pub open spec fn blank(s: Seq<char>) -> bool {
    forall|i: int| 0 <= i < s.len() ==> is_space_char(#[trigger] s[i])
}

fn space_char(c: char) -> (r: bool)
    ensures
        r == is_space_char(c),
{
    c == '\u{0009}' || c == '\u{000a}' || c == '\u{000b}' || c == '\u{000c}' || c == '\u{000d}'
        || c == ' ' || c == '\u{0085}' || c == '\u{00a0}' || c == '\u{1680}' || c == '\u{2000}'
        || c == '\u{2001}' || c == '\u{2002}' || c == '\u{2003}' || c == '\u{2004}' || c
        == '\u{2005}' || c == '\u{2006}' || c == '\u{2007}' || c == '\u{2008}' || c == '\u{2009}'
        || c == '\u{200a}' || c == '\u{2028}' || c == '\u{2029}' || c == '\u{202f}' || c
        == '\u{205f}' || c == '\u{3000}'
}

/// A field value is invalid when it holds no character beyond whitespace.
pub fn is_invalid_string_input(str_input: &str) -> (r: bool)
    ensures
        r == blank(str_input@),
{
    let n = str_input.unicode_len();
    let mut i: usize = 0;
    while i < n
        invariant
            n == str_input@.len(),
            0 <= i <= n,
            forall|j: int| 0 <= j < i ==> is_space_char(#[trigger] str_input@[j]),
        decreases n - i,
    {
        let c = str_input.get_char(i);
        if !space_char(c) {
            proof {
                assert(!is_space_char(str_input@[i as int]));
            }
            return false;
        }
        i = i + 1;
    }
    true
}

/// The views of a list of messages.
pub open spec fn msg_views(v: Seq<String>) -> Seq<Seq<char>> {
    v.map_values(|s: String| s@)
}

/// The message recorded when a vessel's name is blank.
pub open spec fn vessel_name_violation(name: Seq<char>) -> Seq<char> {
    "Vessel name='"@ + name + "' cannot be empty."@
}

/// The message recorded when a vessel's captain is blank.
pub open spec fn captain_violation(captain: Seq<char>) -> Seq<char> {
    "Captain='"@ + captain + "' cannot be empty."@
}

/// The message recorded when a vessel's current location is blank.
pub open spec fn location_violation(location: Seq<char>) -> Seq<char> {
    "Current location='"@ + location + "' cannot be empty."@
}

/// The message recorded when a vessel's capacity is zero.
pub open spec fn capacity_violation() -> Seq<char> {
    "Capacity cannot be set to zero"@
}

/// The message recorded when a voyage's departure port is blank.
pub open spec fn departure_port_violation(port: Seq<char>) -> Seq<char> {
    "Voyage departure port='"@ + port + "' cannot be empty."@
}

/// The message recorded when a voyage's destination port is blank.
pub open spec fn destination_port_violation(port: Seq<char>) -> Seq<char> {
    "Voyage destination port='"@ + port + "' cannot be empty."@
}

/// The message recorded when a voyage's departure time lies in the past.
pub open spec fn departure_time_violation(t: u64, now: u64) -> Seq<char> {
    "Departure time="@ + decimal_digits(t)
        + " needs to be equal or greater than the current timestamp="@ + decimal_digits(now)
}

/// The message recorded when a voyage's arrival time does not lie after its
/// departure time.
pub open spec fn arrival_time_violation(arrival: u64, departure: u64) -> Seq<char> {
    "Arrival time="@ + decimal_digits(arrival) + " needs to be greater than the departure time="@
        + decimal_digits(departure)
}

/// Every constraint a vessel payload violates, in the order checked: name,
/// captain, current location, capacity.
pub open spec fn vessel_violations(p: VesselPayloadView) -> Seq<Seq<char>> {
    let name_part: Seq<Seq<char>> = if blank(p.name) {
        seq![vessel_name_violation(p.name)]
    } else {
        Seq::empty()
    };
    let captain_part: Seq<Seq<char>> = if blank(p.captain) {
        seq![captain_violation(p.captain)]
    } else {
        Seq::empty()
    };
    let location_part: Seq<Seq<char>> = if blank(p.current_location) {
        seq![location_violation(p.current_location)]
    } else {
        Seq::empty()
    };
    let capacity_part: Seq<Seq<char>> = if p.capacity == 0 {
        seq![capacity_violation()]
    } else {
        Seq::empty()
    };
    name_part + captain_part + location_part + capacity_part
}

/// Every constraint a voyage payload violates against the clock reading
/// `now`, in the order checked: departure port, destination port, departure
/// time, arrival time.
pub open spec fn voyage_violations(p: VoyagePayloadView, now: u64) -> Seq<Seq<char>> {
    let departure_part: Seq<Seq<char>> = if blank(p.departure_port) {
        seq![departure_port_violation(p.departure_port)]
    } else {
        Seq::empty()
    };
    let destination_part: Seq<Seq<char>> = if blank(p.destination_port) {
        seq![destination_port_violation(p.destination_port)]
    } else {
        Seq::empty()
    };
    let time_part: Seq<Seq<char>> = if p.departure_time < now {
        seq![departure_time_violation(p.departure_time, now)]
    } else {
        Seq::empty()
    };
    let arrival_part: Seq<Seq<char>> = match p.arrival_time {
        Some(arrival) => if arrival <= p.departure_time {
            seq![arrival_time_violation(arrival, p.departure_time)]
        } else {
            Seq::empty()
        },
        None => Seq::empty(),
    };
    departure_part + destination_part + time_part + arrival_part
}

/// Builds `prefix`, then the offending field value, then `suffix`.
fn interpolated_msg(prefix: &str, value: &str, suffix: &str) -> (m: String)
    ensures
        m@ == prefix@ + value@ + suffix@,
{
    let mut m = prefix.to_owned();
    m.append(value);
    m.append(suffix);
    proof {
        assert(m@ =~= prefix@ + value@ + suffix@);
    }
    m
}

fn departure_time_msg(t: u64, now: u64) -> (m: String)
    ensures
        m@ == departure_time_violation(t, now),
{
    let mut m = "Departure time=".to_owned();
    push_u64_decimal(&mut m, t);
    m.append(" needs to be equal or greater than the current timestamp=");
    push_u64_decimal(&mut m, now);
    proof {
        assert(m@ =~= departure_time_violation(t, now));
    }
    m
}

fn arrival_time_msg(arrival: u64, departure: u64) -> (m: String)
    ensures
        m@ == arrival_time_violation(arrival, departure),
{
    let mut m = "Arrival time=".to_owned();
    push_u64_decimal(&mut m, arrival);
    m.append(" needs to be greater than the departure time=");
    push_u64_decimal(&mut m, departure);
    proof {
        assert(m@ =~= arrival_time_violation(arrival, departure));
    }
    m
}

/// Checks every field constraint of a vessel payload and reports the full
/// list of violations, or nothing when all constraints hold.
pub fn validate_vessel_payload(payload: &VesselPayload) -> (r: Result<(), Error>)
    ensures
        r is Ok <==> vessel_violations(payload@).len() == 0,
        vessel_violations(payload@).len() > 0 ==> (r matches Err(Error::InvalidPayload { errors })
            && msg_views(errors@) == vessel_violations(payload@)),
{
    let mut errors: Vec<String> = Vec::new();
    if is_invalid_string_input(payload.name.as_str()) {
        errors.push(interpolated_msg("Vessel name='", payload.name.as_str(), "' cannot be empty."));
    }
    if is_invalid_string_input(payload.captain.as_str()) {
        errors.push(interpolated_msg("Captain='", payload.captain.as_str(), "' cannot be empty."));
    }
    if is_invalid_string_input(payload.current_location.as_str()) {
        errors.push(
            interpolated_msg(
                "Current location='",
                payload.current_location.as_str(),
                "' cannot be empty.",
            ),
        );
    }
    if payload.capacity == 0 {
        errors.push("Capacity cannot be set to zero".to_owned());
    }
    proof {
        assert(msg_views(errors@) =~= vessel_violations(payload@));
    }
    if errors.is_empty() {
        Ok(())
    } else {
        Err(Error::InvalidPayload { errors })
    }
}

/// Checks every field constraint of a voyage payload against the clock
/// reading `now` and reports the full list of violations, or nothing when
/// all constraints hold.
pub fn validate_voyage_payload(payload: &VoyagePayload, now: u64) -> (r: Result<(), Error>)
    ensures
        r is Ok <==> voyage_violations(payload@, now).len() == 0,
        voyage_violations(payload@, now).len() > 0 ==> (r matches Err(
            Error::InvalidPayload { errors },
        ) && msg_views(errors@) == voyage_violations(payload@, now)),
{
    let mut errors: Vec<String> = Vec::new();
    if is_invalid_string_input(payload.departure_port.as_str()) {
        errors.push(
            interpolated_msg(
                "Voyage departure port='",
                payload.departure_port.as_str(),
                "' cannot be empty.",
            ),
        );
    }
    if is_invalid_string_input(payload.destination_port.as_str()) {
        errors.push(
            interpolated_msg(
                "Voyage destination port='",
                payload.destination_port.as_str(),
                "' cannot be empty.",
            ),
        );
    }
    if payload.departure_time < now {
        errors.push(departure_time_msg(payload.departure_time, now));
    }
    match payload.arrival_time {
        Some(arrival) => {
            if arrival <= payload.departure_time {
                errors.push(arrival_time_msg(arrival, payload.departure_time));
            }
        },
        None => {},
    }
    proof {
        assert(msg_views(errors@) =~= voyage_violations(payload@, now));
    }
    if errors.is_empty() {
        Ok(())
    } else {
        Err(Error::InvalidPayload { errors })
    }
}

/// Passes exactly when `caller` is the principal that created the vessel.
pub fn is_caller_vessel_admin(vessel: &Vessel, caller: &String) -> (r: Result<(), Error>)
    ensures
        r is Ok <==> vessel@.admin_principal == caller@,
        r is Err ==> r matches Err(Error::NotVesselAdmin),
{
    if !(vessel.admin_principal == *caller) {
        Err(Error::NotVesselAdmin)
    } else {
        Ok(())
    }
}

/// Passes exactly when `caller` is the principal recorded on the voyage —
/// the admin of the vessel it was created against.
pub fn is_caller_voyage_admin(voyage: &Voyage, caller: &String) -> (r: Result<(), Error>)
    ensures
        r is Ok <==> voyage@.admin_principal == caller@,
        r is Err ==> r matches Err(Error::NotVoyageAdmin),
{
    if !(voyage.admin_principal == *caller) {
        Err(Error::NotVoyageAdmin)
    } else {
        Ok(())
    }
}

} // verus!
