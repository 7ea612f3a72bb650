//! Object labels and the conversion from dataset label names.

use vstd::prelude::*;

verus! {

use crate::text::str_eq;

/// Why a label table could not be built.
#[derive(Debug)]
pub enum LabelError {
    InternalError,
    ValueError(String),
}

/// The closed set of object labels.  Labels are compared for equality only;
/// no order is defined on them.
#[derive(Debug, Clone, Copy, PartialEq, Eq, Structural)]
pub enum Label {
    Unknown,
    Car,
    Truck,
    Bus,
    Bicycle,
    Motorbike,
    Pedestrian,
    Animal,
}

impl Label {
    /// The label's display name.
    pub open spec fn spec_name(self) -> Seq<char> {
        match self {
            Label::Unknown => "Unknown"@,
            Label::Car => "Car"@,
            Label::Truck => "Truck"@,
            Label::Bus => "Bus"@,
            Label::Bicycle => "Bicycle"@,
            Label::Motorbike => "Motorbike"@,
            Label::Pedestrian => "Pedestrian"@,
            Label::Animal => "Animal"@,
        }
    }

    /// Returns the label's name as a string.
    pub fn name(&self) -> (r: String)
        ensures
            r@ == self.spec_name(),
    {
        match self {
            Label::Unknown => "Unknown".to_owned(),
            Label::Car => "Car".to_owned(),
            Label::Truck => "Truck".to_owned(),
            Label::Bus => "Bus".to_owned(),
            Label::Bicycle => "Bicycle".to_owned(),
            Label::Motorbike => "Motorbike".to_owned(),
            Label::Pedestrian => "Pedestrian".to_owned(),
            Label::Animal => "Animal".to_owned(),
        }
    }
}

/// The autoware label table: which `Label` a dataset name canonicalises to.
/// A name outside the table falls back to `Label::Unknown`.
pub open spec fn spec_autoware_label(name: Seq<char>) -> Label {
    if name == "car"@ || name == "vehicle.car"@ || name == "vehicle.construction"@
        || name == "vehicle.emergency (ambulance & police)"@ || name == "vehicle.police"@
        || name == "vehicle.fire"@ || name == "vehicle.ambulance"@ {
        Label::Car
    } else if name == "truck"@ || name == "vehicle.truck"@ || name == "trailer"@
        || name == "vehicle.trailer"@ {
        Label::Truck
    } else if name == "bus"@ || name == "vehicle.bus"@ || name == "vehicle.bus (bendy & rigid)"@
        || name == "vehicle.bus.rigid"@ || name == "vehicle.bus.bendy"@ {
        Label::Bus
    } else if name == "bicycle"@ || name == "vehicle.bicycle"@ {
        Label::Bicycle
    } else if name == "motorbike"@ || name == "vehicle.motorcycle"@ {
        Label::Motorbike
    } else if name == "pedestrian"@ || name == "pedestrian.adult"@ || name == "pedestrian.child"@
        || name == "pedestrian.construction_worker"@ || name == "pedestrian.personal_mobility"@
        || name == "pedestrian.police_officer"@ || name == "pedestrian.stroller"@
        || name == "pedestrian.wheelchair"@ || name == "human.pedestrian.adult"@
        || name == "human.pedestrian.child"@ || name == "human.pedestrian.construction_worker"@
        || name == "human.pedestrian.personal_mobility"@
        || name == "human.pedestrian.police_officer"@ || name == "human.pedestrian.stroller"@
        || name == "human.pedestrian.wheelchair"@ {
        Label::Pedestrian
    } else if name == "animal"@ {
        Label::Animal
    } else {
        Label::Unknown
    }
}

/// Converts dataset label names into `Label` values.
///
/// Only the autoware table exists, so the converter itself carries no state;
/// `new` checks the requested prefix and `convert` applies the table.
#[derive(Debug, Clone, Copy)]
pub struct LabelConverter {}

impl LabelConverter {
    /// Build a converter for the given label prefix (`"autoware"` when
    /// absent).  Any other prefix is a value error carrying the prefix.
    pub fn new(label_prefix: Option<&str>) -> (r: Result<LabelConverter, LabelError>)
        ensures
            match label_prefix {
                Some(p) => if p@ == "autoware"@ {
                    r is Ok
                } else {
                    r matches Err(LabelError::ValueError(s)) && s@ == p@
                },
                None => r is Ok,
            },
    {
        let prefix = match label_prefix {
            Some(value) => value,
            None => "autoware",
        };
        if str_eq(prefix, "autoware") {
            Ok(LabelConverter {})
        } else {
            Err(LabelError::ValueError(prefix.to_owned()))
        }
    }

    /// Canonicalise a dataset label name; names outside the table become
    /// `Label::Unknown`.
    pub fn convert(&self, name: &str) -> (r: Label)
        ensures
            r == spec_autoware_label(name@),
    {
        if str_eq(name, "car") || str_eq(name, "vehicle.car") || str_eq(name, "vehicle.construction")
            || str_eq(name, "vehicle.emergency (ambulance & police)")
            || str_eq(name, "vehicle.police") || str_eq(name, "vehicle.fire")
            || str_eq(name, "vehicle.ambulance") {
            Label::Car
        } else if str_eq(name, "truck") || str_eq(name, "vehicle.truck") || str_eq(name, "trailer")
            || str_eq(name, "vehicle.trailer") {
            Label::Truck
        } else if str_eq(name, "bus") || str_eq(name, "vehicle.bus")
            || str_eq(name, "vehicle.bus (bendy & rigid)") || str_eq(name, "vehicle.bus.rigid")
            || str_eq(name, "vehicle.bus.bendy") {
            Label::Bus
        } else if str_eq(name, "bicycle") || str_eq(name, "vehicle.bicycle") {
            Label::Bicycle
        } else if str_eq(name, "motorbike") || str_eq(name, "vehicle.motorcycle") {
            Label::Motorbike
        } else if str_eq(name, "pedestrian") || str_eq(name, "pedestrian.adult")
            || str_eq(name, "pedestrian.child") || str_eq(name, "pedestrian.construction_worker")
            || str_eq(name, "pedestrian.personal_mobility")
            || str_eq(name, "pedestrian.police_officer") || str_eq(name, "pedestrian.stroller")
            || str_eq(name, "pedestrian.wheelchair") || str_eq(name, "human.pedestrian.adult")
            || str_eq(name, "human.pedestrian.child")
            || str_eq(name, "human.pedestrian.construction_worker")
            || str_eq(name, "human.pedestrian.personal_mobility")
            || str_eq(name, "human.pedestrian.police_officer")
            || str_eq(name, "human.pedestrian.stroller")
            || str_eq(name, "human.pedestrian.wheelchair") {
            Label::Pedestrian
        } else if str_eq(name, "animal") {
            Label::Animal
        } else {
            Label::Unknown
        }
    }
}

/// Convert a list of label names with the given converter.
pub fn convert_labels(target_labels: &Vec<&str>, converter: &LabelConverter) -> (r: Result<
    Vec<Label>,
    LabelError,
>)
    ensures
        r matches Ok(labels) && labels@.len() == target_labels@.len(),
        r matches Ok(labels) ==> forall|i: int|
            0 <= i < labels@.len() ==> labels@[i] == spec_autoware_label(target_labels@[i]@),
{
    let mut ret: Vec<Label> = Vec::new();
    let n = target_labels.len();
    let mut k: usize = 0;
    while k < n
        invariant
            n == target_labels@.len(),
            0 <= k <= n,
            ret@.len() == k,
            forall|i: int| 0 <= i < k ==> ret@[i] == spec_autoware_label(target_labels@[i]@),
        decreases n - k,
    {
        let label = converter.convert(target_labels[k]);
        ret.push(label);
        k = k + 1;
    }
    Ok(ret)
}

} // verus!
