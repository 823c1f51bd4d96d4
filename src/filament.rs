use vstd::prelude::*;
use vstd::string::*;

use crate::error::FilamentError;

verus! {

/// The mathematical content of a roll: texts as character sequences,
/// diameter in micrometres, masses in milligrams.
pub struct RollView {
    pub id: Seq<char>,
    pub name: Seq<char>,
    pub material: Seq<char>,
    pub color: Seq<char>,
    pub diameter: int,
    pub weight: int,
    pub remaining_weight: int,
    pub manufacturer: Seq<char>,
    pub storage_location: Option<Seq<char>>,
}

impl RollView {
    /// The descriptive texts are present and the physical sizes positive.
    pub open spec fn has_valid_fields(self) -> bool {
        &&& self.name.len() > 0
        &&& self.material.len() > 0
        &&& self.color.len() > 0
        &&& self.manufacturer.len() > 0
        &&& self.diameter > 0
        &&& self.weight > 0
    }

    /// Every rule a stored roll obeys: valid fields, a non-empty id, and a
    /// remaining mass between nothing and the full roll.
    pub open spec fn is_valid(self) -> bool {
        &&& self.has_valid_fields()
        &&& self.id.len() > 0
        &&& 0 <= self.remaining_weight <= self.weight
    }

    /// The same roll with a new remaining mass.
    pub open spec fn with_remaining(self, remaining_weight: int) -> RollView {
        RollView { remaining_weight, ..self }
    }

    /// Remaining mass as a whole percentage of the full roll, rounded down;
    /// zero for a roll of no mass.
    pub open spec fn percent_left(self) -> int {
        if self.weight == 0 {
            0
        } else {
            self.remaining_weight * 100 / self.weight
        }
    }
}

/// One physical spool of filament.
///
/// The fields are private and the type invariant holds for every value, so a
/// roll that breaks one of its rules cannot exist.
#[derive(Debug)]
pub struct FilamentRoll {
    id: String,
    name: String,
    material: String,
    color: String,
    diameter: i64,
    weight: i64,
    remaining_weight: i64,
    manufacturer: String,
    storage_location: Option<String>,
}

/// The text of an optional string.
pub open spec fn opt_text(s: Option<String>) -> Option<Seq<char>> {
    match s {
        Some(t) => Some(t@),
        None => None,
    }
}

impl View for FilamentRoll {
    type V = RollView;

    closed spec fn view(&self) -> RollView {
        RollView {
            id: self.id@,
            name: self.name@,
            material: self.material@,
            color: self.color@,
            diameter: self.diameter as int,
            weight: self.weight as int,
            remaining_weight: self.remaining_weight as int,
            manufacturer: self.manufacturer@,
            storage_location: opt_text(self.storage_location),
        }
    }
}

impl FilamentRoll {
    #[verifier::type_invariant]
    pub open spec fn valid(&self) -> bool {
        self@.is_valid()
    }
}

/// Relies on uuid::Uuid::new_v4 and the hyphenated text form of a Uuid: a
/// random identifier written as 36 characters. The call panics only when the
/// operating system's random source fails.
#[verifier::external_body]
fn fresh_id() -> (r: String)
    ensures
        r@.len() == 36,
{
    uuid::Uuid::new_v4().to_string()
}

/// What a builder holds before validation.
pub struct BuilderView {
    pub id: Option<Seq<char>>,
    pub name: Seq<char>,
    pub material: Seq<char>,
    pub color: Seq<char>,
    pub diameter: int,
    pub weight: int,
    pub remaining_weight: Option<int>,
    pub manufacturer: Seq<char>,
    pub storage_location: Option<Seq<char>>,
}

impl BuilderView {
    /// The remaining mass the roll will get: the one given, else a full roll.
    pub open spec fn effective_remaining(self) -> int {
        match self.remaining_weight {
            Some(w) => w,
            None => self.weight,
        }
    }

    /// The roll this builder describes, given the id it ends up with.
    pub open spec fn roll_with_id(self, id: Seq<char>) -> RollView {
        RollView {
            id,
            name: self.name,
            material: self.material,
            color: self.color,
            diameter: self.diameter,
            weight: self.weight,
            remaining_weight: self.effective_remaining(),
            manufacturer: self.manufacturer,
            storage_location: self.storage_location,
        }
    }

    /// Whether `build` accepts: the fields are valid, a given id is not
    /// empty, and the remaining mass lies within the roll.
    pub open spec fn is_acceptable(self) -> bool {
        &&& self.name.len() > 0
        &&& self.material.len() > 0
        &&& self.color.len() > 0
        &&& self.manufacturer.len() > 0
        &&& self.diameter > 0
        &&& self.weight > 0
        &&& (self.id matches Some(id) ==> id.len() > 0)
        &&& 0 <= self.effective_remaining() <= self.weight
    }
}

impl BuilderView {
    /// The message of the first rule the fields break, checked in the order
    /// name, material, colour, diameter, weight, manufacturer, remaining
    /// mass, id; none when `build` accepts.
    pub open spec fn build_problem(self) -> Option<Seq<char>> {
        if self.name.len() == 0 {
            Some("Name cannot be empty"@)
        } else if self.material.len() == 0 {
            Some("Material cannot be empty"@)
        } else if self.color.len() == 0 {
            Some("Color cannot be empty"@)
        } else if self.diameter <= 0 {
            Some("Diameter must be positive"@)
        } else if self.weight <= 0 {
            Some("Weight must be positive"@)
        } else if self.manufacturer.len() == 0 {
            Some("Manufacturer cannot be empty"@)
        } else if self.effective_remaining() < 0 || self.effective_remaining() > self.weight {
            Some(remaining_problem(self.effective_remaining()))
        } else if self.id matches Some(id) && id.len() == 0 {
            Some("Id cannot be empty"@)
        } else {
            None
        }
    }
}

/// The message for a remaining mass outside a roll's bounds.
pub open spec fn remaining_problem(w: int) -> Seq<char> {
    if w < 0 {
        "Remaining weight cannot be negative"@
    } else {
        "Remaining weight cannot exceed total weight"@
    }
}

/// Collects the fields of a roll; all validation happens in `build`.
pub struct FilamentRollBuilder {
    id: Option<String>,
    name: String,
    material: String,
    color: String,
    diameter: i64,
    weight: i64,
    remaining_weight: Option<i64>,
    manufacturer: String,
    storage_location: Option<String>,
}

impl View for FilamentRollBuilder {
    type V = BuilderView;

    closed spec fn view(&self) -> BuilderView {
        BuilderView {
            id: opt_text(self.id),
            name: self.name@,
            material: self.material@,
            color: self.color@,
            diameter: self.diameter as int,
            weight: self.weight as int,
            remaining_weight: match self.remaining_weight {
                Some(w) => Some(w as int),
                None => None,
            },
            manufacturer: self.manufacturer@,
            storage_location: opt_text(self.storage_location),
        }
    }
}

/// An `InvalidData` error carrying this message.
fn invalid(msg: &str) -> (e: FilamentError)
    ensures
        e matches FilamentError::InvalidData(m) && m@ == msg@,
{
    FilamentError::InvalidData(String::from_str(msg))
}

impl FilamentRollBuilder {
    /// Starts a builder from the required fields; id, remaining mass and
    /// storage location are unset.
    pub fn new(
        name: String,
        material: String,
        color: String,
        diameter: i64,
        weight: i64,
        manufacturer: String,
    ) -> (b: Self)
        ensures
            b@ == (BuilderView {
                id: None,
                name: name@,
                material: material@,
                color: color@,
                diameter: diameter as int,
                weight: weight as int,
                remaining_weight: None,
                manufacturer: manufacturer@,
                storage_location: None,
            }),
    {
        FilamentRollBuilder {
            id: None,
            name,
            material,
            color,
            diameter,
            weight,
            remaining_weight: None,
            manufacturer,
            storage_location: None,
        }
    }

    /// Sets the id the roll will carry.
    pub fn with_id(self, id: &str) -> (b: Self)
        ensures
            b@ == (BuilderView { id: Some(id@), ..self@ }),
    {
        FilamentRollBuilder { id: Some(id.to_owned()), ..self }
    }

    /// Sets the remaining mass, in milligrams.
    pub fn with_remaining_weight(self, remaining_weight: i64) -> (b: Self)
        ensures
            b@ == (BuilderView { remaining_weight: Some(remaining_weight as int), ..self@ }),
    {
        FilamentRollBuilder { remaining_weight: Some(remaining_weight), ..self }
    }

    /// Sets where the roll is kept.
    pub fn with_storage_location(self, storage_location: &str) -> (b: Self)
        ensures
            b@ == (BuilderView { storage_location: Some(storage_location@), ..self@ }),
    {
        FilamentRollBuilder { storage_location: Some(storage_location.to_owned()), ..self }
    }

    /// Validates the collected fields and produces the roll. Without an id a
    /// fresh random one is assigned; without a remaining mass the roll is full.
    pub fn build(self) -> (r: Result<FilamentRoll, FilamentError>)
        ensures
            r is Ok <==> self@.is_acceptable(),
            r matches Err(FilamentError::InvalidData(m)) ==> self@.build_problem() == Some(m@),
            r matches Ok(f) ==> f@ == self@.roll_with_id(f@.id) && f@.is_valid(),
            r matches Ok(f) ==> match self@.id {
                Some(id) => f@.id == id,
                None => f@.id.len() == 36,
            },
            r matches Err(e) ==> e is InvalidData,
    {
        if self.name.as_str().is_empty() {
            return Err(invalid("Name cannot be empty"));
        }
        if self.material.as_str().is_empty() {
            return Err(invalid("Material cannot be empty"));
        }
        if self.color.as_str().is_empty() {
            return Err(invalid("Color cannot be empty"));
        }
        if self.diameter <= 0 {
            return Err(invalid("Diameter must be positive"));
        }
        if self.weight <= 0 {
            return Err(invalid("Weight must be positive"));
        }
        if self.manufacturer.as_str().is_empty() {
            return Err(invalid("Manufacturer cannot be empty"));
        }
        let remaining_weight = match self.remaining_weight {
            Some(w) => w,
            None => self.weight,
        };
        if remaining_weight < 0 {
            return Err(invalid("Remaining weight cannot be negative"));
        }
        if remaining_weight > self.weight {
            return Err(invalid("Remaining weight cannot exceed total weight"));
        }
        let id = match self.id {
            Some(id) => {
                if id.as_str().is_empty() {
                    return Err(invalid("Id cannot be empty"));
                }
                id
            },
            None => fresh_id(),
        };
        Ok(
            FilamentRoll {
                id,
                name: self.name,
                material: self.material,
                color: self.color,
                diameter: self.diameter,
                weight: self.weight,
                remaining_weight,
                manufacturer: self.manufacturer,
                storage_location: self.storage_location,
            },
        )
    }
}

impl FilamentRoll {
    /// Creates a full roll with a fresh random id and no storage location.
    pub fn new(
        name: String,
        material: String,
        color: String,
        diameter: i64,
        weight: i64,
        manufacturer: String,
    ) -> (r: Result<Self, FilamentError>)
        ensures
            r is Ok <==> name@.len() > 0 && material@.len() > 0 && color@.len() > 0
                && manufacturer@.len() > 0 && diameter > 0 && weight > 0,
            r matches Ok(f) ==> f@ == (RollView {
                id: f@.id,
                name: name@,
                material: material@,
                color: color@,
                diameter: diameter as int,
                weight: weight as int,
                remaining_weight: weight as int,
                manufacturer: manufacturer@,
                storage_location: None,
            }) && f@.id.len() == 36 && f@.is_valid(),
            r matches Err(e) ==> e is InvalidData,
            r matches Err(FilamentError::InvalidData(m)) ==> (BuilderView {
                id: None,
                name: name@,
                material: material@,
                color: color@,
                diameter: diameter as int,
                weight: weight as int,
                remaining_weight: None,
                manufacturer: manufacturer@,
                storage_location: None,
            }).build_problem() == Some(m@),
    {
        FilamentRollBuilder::new(name, material, color, diameter, weight, manufacturer).build()
    }

    /// Rebuilds a roll whose every field is known, as when it is read back
    /// from storage.
    pub fn with_id(
        id: &str,
        name: &str,
        material: &str,
        color: &str,
        diameter: i64,
        weight: i64,
        remaining_weight: i64,
        manufacturer: &str,
        storage_location: &str,
    ) -> (r: Result<Self, FilamentError>)
        ensures
            r is Ok <==> (RollView {
                id: id@,
                name: name@,
                material: material@,
                color: color@,
                diameter: diameter as int,
                weight: weight as int,
                remaining_weight: remaining_weight as int,
                manufacturer: manufacturer@,
                storage_location: Some(storage_location@),
            }).is_valid(),
            r matches Ok(f) ==> f@ == (RollView {
                id: id@,
                name: name@,
                material: material@,
                color: color@,
                diameter: diameter as int,
                weight: weight as int,
                remaining_weight: remaining_weight as int,
                manufacturer: manufacturer@,
                storage_location: Some(storage_location@),
            }) && f@.is_valid(),
            r matches Err(e) ==> e is InvalidData,
            r matches Err(FilamentError::InvalidData(m)) ==> (BuilderView {
                id: Some(id@),
                name: name@,
                material: material@,
                color: color@,
                diameter: diameter as int,
                weight: weight as int,
                remaining_weight: Some(remaining_weight as int),
                manufacturer: manufacturer@,
                storage_location: Some(storage_location@),
            }).build_problem() == Some(m@),
    {
        FilamentRollBuilder::new(
            name.to_owned(),
            material.to_owned(),
            color.to_owned(),
            diameter,
            weight,
            manufacturer.to_owned(),
        ).with_id(id).with_remaining_weight(remaining_weight).with_storage_location(
            storage_location,
        ).build()
    }

    /// Sets the remaining mass, in milligrams. A value below zero or above
    /// the full roll is refused and leaves the roll as it was.
    pub fn update_remaining_weight(&mut self, new_weight: i64) -> (r: Result<(), FilamentError>)
        ensures
            r is Ok <==> 0 <= new_weight <= old(self)@.weight,
            r is Ok ==> final(self)@ == old(self)@.with_remaining(new_weight as int),
            r matches Err(e) ==> e is InvalidData && final(self)@ == old(self)@,
            r matches Err(FilamentError::InvalidData(m)) ==> m@ == remaining_problem(
                new_weight as int,
            ),
    {
        proof {
            use_type_invariant(&*self);
        }
        if new_weight < 0 {
            return Err(invalid("Remaining weight cannot be negative"));
        }
        if new_weight > self.weight {
            return Err(invalid("Remaining weight cannot exceed total weight"));
        }
        self.remaining_weight = new_weight;
        Ok(())
    }

    /// Remaining mass as a whole percentage of the full roll, rounded down.
    pub fn percentage_remaining(&self) -> (r: u64)
        ensures
            r == self@.percent_left(),
            r <= 100,
    {
        proof {
            use_type_invariant(self);
        }
        if self.weight == 0 {
            return 0;
        }
        let rem = self.remaining_weight as i128;
        let total = self.weight as i128;
        let scaled = rem * 100;
        let pct = scaled / total;
        assert(0 <= pct <= 100) by (nonlinear_arith)
            requires
                0 <= rem <= total,
                total > 0,
                scaled == rem * 100,
                pct == scaled / total,
        {
            assert(scaled <= total * 100);
        }
        pct as u64
    }

    pub fn id(&self) -> (r: &str)
        ensures
            r@ == self@.id,
    {
        self.id.as_str()
    }

    pub fn name(&self) -> (r: &str)
        ensures
            r@ == self@.name,
    {
        self.name.as_str()
    }

    pub fn material(&self) -> (r: &str)
        ensures
            r@ == self@.material,
    {
        self.material.as_str()
    }

    pub fn color(&self) -> (r: &str)
        ensures
            r@ == self@.color,
    {
        self.color.as_str()
    }

    /// Diameter in micrometres.
    pub fn diameter(&self) -> (r: i64)
        ensures
            r == self@.diameter,
    {
        self.diameter
    }

    /// Mass of the full roll in milligrams.
    pub fn weight(&self) -> (r: i64)
        ensures
            r == self@.weight,
    {
        self.weight
    }

    /// Mass left on the roll in milligrams.
    pub fn remaining_weight(&self) -> (r: i64)
        ensures
            r == self@.remaining_weight,
    {
        self.remaining_weight
    }

    pub fn manufacturer(&self) -> (r: &str)
        ensures
            r@ == self@.manufacturer,
    {
        self.manufacturer.as_str()
    }

    /// Whether the roll carries exactly this id.
    pub(crate) fn has_id(&self, id: &String) -> (r: bool)
        ensures
            r == (self@.id == id@),
    {
        self.id == *id
    }

    /// Whether the roll is of exactly this material (case matters).
    pub(crate) fn has_material(&self, material: &String) -> (r: bool)
        ensures
            r == (self@.material == material@),
    {
        self.material == *material
    }

    /// Whether a storage location was given, even an empty one.
    pub fn has_storage_location(&self) -> (r: bool)
        ensures
            r == self@.storage_location is Some,
    {
        self.storage_location.is_some()
    }

    /// Where the roll is kept; empty when no location was given.
    pub fn storage_location(&self) -> (r: &str)
        ensures
            r@ == match self@.storage_location {
                Some(s) => s,
                None => Seq::empty(),
            },
    {
        match &self.storage_location {
            Some(s) => s.as_str(),
            None => {
                proof {
                    reveal_strlit("");
                }
                ""
            },
        }
    }
}

impl Clone for FilamentRoll {
    fn clone(&self) -> (r: Self)
        ensures
            r@ == self@,
    {
        proof {
            use_type_invariant(self);
        }
        FilamentRoll {
            id: self.id.clone(),
            name: self.name.clone(),
            material: self.material.clone(),
            color: self.color.clone(),
            diameter: self.diameter,
            weight: self.weight,
            remaining_weight: self.remaining_weight,
            manufacturer: self.manufacturer.clone(),
            storage_location: match &self.storage_location {
                Some(s) => Some(s.clone()),
                None => None,
            },
        }
    }
}

fn same_location(a: &Option<String>, b: &Option<String>) -> (r: bool)
    ensures
        r == (opt_text(*a) == opt_text(*b)),
{
    match (a, b) {
        (Some(x), Some(y)) => *x == *y,
        (None, None) => true,
        _ => false,
    }
}

impl PartialEq for FilamentRoll {
    fn eq(&self, other: &FilamentRoll) -> (r: bool) {
        self.id == other.id && self.name == other.name && self.material == other.material
            && self.color == other.color && self.diameter == other.diameter && self.weight
            == other.weight && self.remaining_weight == other.remaining_weight
            && self.manufacturer == other.manufacturer && same_location(
            &self.storage_location,
            &other.storage_location,
        )
    }
}

impl vstd::std_specs::cmp::PartialEqSpecImpl for FilamentRoll {
    open spec fn obeys_eq_spec() -> bool {
        true
    }

    open spec fn eq_spec(&self, other: &FilamentRoll) -> bool {
        self@ == other@
    }
}

} // verus!
