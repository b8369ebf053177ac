use vstd::prelude::*;
use vstd::string::StringExecFns;

use crate::error::CotyledonError;
use crate::infra::SimpleDuration;

verus! {

/// The growth catalog: how many seconds each known plant type needs to mature.
pub open spec fn catalog_grow_time(plant_type: Seq<char>) -> Option<u64> {
    if plant_type == "carrot"@ {
        Some(86_400)
    } else if plant_type == "potato"@ {
        Some(60)
    } else if plant_type == "onion"@ {
        Some(3_600)
    } else {
        None
    }
}

/// The names of the catalog's plant types, in listing order.
pub open spec fn catalog_names() -> Seq<Seq<char>> {
    seq!["carrot"@, "potato"@, "onion"@]
}

/// Whether a plant that has grown `elapsed` seconds is mature, for a type that
/// needs `grow_time`: it must strictly exceed it.
pub open spec fn matures(grow_time: u64, elapsed: u64) -> bool {
    elapsed > grow_time
}

/// A plant exactly at its growth time is not yet mature; one second later it is.
pub proof fn lemma_maturity_boundary(grow_time: u64)
    requires
        grow_time < u64::MAX,
    ensures
        !matures(grow_time, grow_time),
        matures(grow_time, (grow_time + 1) as u64),
{
}

/// A catalog entry: the time a plant type needs to grow.
pub struct CotyledonPlant {
    pub grow_time: SimpleDuration,
}

impl CotyledonPlant {
    /// A plant is mature once its elapsed time strictly exceeds the growth time.
    pub fn is_mature(&self, dur: SimpleDuration) -> (r: bool)
        ensures
            r == matures(self.grow_time.0, dur.0),
    {
        dur.as_secs() > self.grow_time.as_secs()
    }
}

/// Looks a plant type up in the growth catalog.
pub fn lookup_plant(plant_type: &str) -> (r: Option<CotyledonPlant>)
    ensures
        match r {
            Some(c) => catalog_grow_time(plant_type@) == Some(c.grow_time.0),
            None => catalog_grow_time(plant_type@).is_none(),
        },
{
    let name = String::from_str(plant_type);
    if name == String::from_str("carrot") {
        Some(CotyledonPlant { grow_time: SimpleDuration(86_400) })
    } else if name == String::from_str("potato") {
        Some(CotyledonPlant { grow_time: SimpleDuration(60) })
    } else if name == String::from_str("onion") {
        Some(CotyledonPlant { grow_time: SimpleDuration(3_600) })
    } else {
        None
    }
}

/// The plant types that can be sown.
pub fn plant_types() -> (r: Vec<String>)
    ensures
        r@.len() == catalog_names().len(),
        forall|i: int| 0 <= i < r@.len() ==> (#[trigger] r@[i])@ == catalog_names()[i],
{
    let mut r: Vec<String> = Vec::new();
    r.push(String::from_str("carrot"));
    r.push(String::from_str("potato"));
    r.push(String::from_str("onion"));
    r
}

/// Relies on std::time::SystemTime::now and SystemTime::duration_since(UNIX_EPOCH):
/// the whole seconds since the Unix epoch, or None where the clock reads before it.
#[verifier::external_body]
fn unix_seconds_now() -> (r: Option<u64>) {
    match std::time::SystemTime::now().duration_since(std::time::UNIX_EPOCH) {
        Ok(d) => Some(d.as_secs()),
        Err(_) => None,
    }
}

/// One planted item: its type and the second it was planted at.
#[derive(Debug, Clone)]
pub struct Plant {
    pub plant_type: String,
    pub planted: SimpleDuration,
}

pub open spec fn invalid_type_message(plant_type: Seq<char>) -> Seq<char> {
    "`"@ + plant_type + "` is not a valid plant type"@
}

pub open spec fn future_plant_message() -> Seq<char> {
    "The timestamp for this plant is in the future!"@
}

/// The error for a plant type that the catalog does not hold.
fn invalid_type_error(plant_type: &str) -> (e: CotyledonError)
    ensures
        e is InvalidPlantType,
        e->InvalidPlantType_0@ == invalid_type_message(plant_type@),
{
    let mut msg = String::from_str("`");
    msg.append(plant_type);
    msg.append("` is not a valid plant type");
    CotyledonError::InvalidPlantType(msg)
}

impl Plant {
    /// Sows a plant of a catalog type at the given time, in seconds since the epoch.
    pub fn new_at(plant_type: String, now: u64) -> (r: Result<Self, CotyledonError>)
        ensures
            match r {
                Ok(p) => catalog_grow_time(plant_type@).is_some() && p.plant_type@ == plant_type@
                    && p.planted.0 == now,
                Err(e) => catalog_grow_time(plant_type@).is_none() && e
                    is InvalidPlantType && e->InvalidPlantType_0@ == invalid_type_message(
                    plant_type@,
                ),
            },
    {
        if lookup_plant(plant_type.as_str()).is_none() {
            return Err(invalid_type_error(plant_type.as_str()));
        }
        Ok(Plant { plant_type, planted: SimpleDuration(now) })
    }

    /// Sows a plant of a catalog type now, by the system clock.
    pub fn new(plant_type: String) -> (r: Result<Self, CotyledonError>)
        ensures
            catalog_grow_time(plant_type@).is_none() <==> r matches Err(
                CotyledonError::InvalidPlantType(_),
            ),
            catalog_grow_time(plant_type@).is_none() ==> r->Err_0->InvalidPlantType_0@
                == invalid_type_message(plant_type@),
            match r {
                Ok(p) => p.plant_type@ == plant_type@,
                Err(e) => e is InvalidPlantType || e is InternalError,
            },
    {
        if lookup_plant(plant_type.as_str()).is_none() {
            return Err(invalid_type_error(plant_type.as_str()));
        }
        match unix_seconds_now() {
            Some(now) => Plant::new_at(plant_type, now),
            None => Err(
                CotyledonError::InternalError(String::from_str("Time drift detected")),
            ),
        }
    }

    pub fn get_type(&self) -> (r: &str)
        ensures
            r@ == self.plant_type@,
    {
        self.plant_type.as_str()
    }

    /// The time since planting, as of `now`; a plant dated after `now` is an internal fault.
    pub fn elapsed_at(&self, now: u64) -> (r: Result<SimpleDuration, CotyledonError>)
        ensures
            match r {
                Ok(d) => self.planted.0 <= now && d.0 == now - self.planted.0,
                Err(e) => now < self.planted.0 && e is InternalError
                    && e->InternalError_0@ == future_plant_message(),
            },
    {
        if now < self.planted.as_secs() {
            Err(
                CotyledonError::InternalError(
                    String::from_str("The timestamp for this plant is in the future!"),
                ),
            )
        } else {
            Ok(SimpleDuration(now - self.planted.as_secs()))
        }
    }

    /// The time since planting, by the system clock.
    pub fn elapsed(&self) -> (r: Result<SimpleDuration, CotyledonError>)
        ensures
            r is Err ==> r->Err_0 is InternalError,
    {
        match unix_seconds_now() {
            Some(now) => self.elapsed_at(now),
            None => Err(
                CotyledonError::InternalError(
                    String::from_str("The timestamp given is in the future!"),
                ),
            ),
        }
    }

    /// The time since planting as of `now`, and whether that exceeds the growth
    /// time of the plant's type.
    pub fn ripeness_at(&self, now: u64) -> (r: Result<(SimpleDuration, bool), CotyledonError>)
        ensures
            match r {
                Ok((d, mature)) => self.planted.0 <= now && d.0 == now - self.planted.0
                    && catalog_grow_time(self.plant_type@) is Some && mature == matures(
                    catalog_grow_time(self.plant_type@)->Some_0,
                    d.0,
                ),
                Err(e) => e is InternalError && (now < self.planted.0 || catalog_grow_time(
                    self.plant_type@,
                ) is None),
            },
    {
        let d = match self.elapsed_at(now) {
            Ok(d) => d,
            Err(e) => return Err(e),
        };
        match lookup_plant(self.plant_type.as_str()) {
            Some(c) => Ok((d, c.is_mature(d))),
            None => Err(
                CotyledonError::InternalError(String::from_str("Plant type missing from catalog")),
            ),
        }
    }

    /// The time since planting and whether the plant is mature, by the system clock.
    pub fn ripeness(&self) -> (r: Result<(SimpleDuration, bool), CotyledonError>)
        ensures
            r is Err ==> r->Err_0 is InternalError,
            r matches Ok((d, m)) ==> catalog_grow_time(self.plant_type@) is Some && m == matures(
                catalog_grow_time(self.plant_type@)->Some_0,
                d.0,
            ),
    {
        match unix_seconds_now() {
            Some(now) => self.ripeness_at(now),
            None => Err(
                CotyledonError::InternalError(
                    String::from_str("The timestamp given is in the future!"),
                ),
            ),
        }
    }
}

} // verus!
