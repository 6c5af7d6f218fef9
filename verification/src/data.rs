//! The persisted data model: a document wrapping one person record.

use vstd::prelude::*;

verus! {

/// The payload record being persisted.
#[derive(Debug, Clone, PartialEq, Eq)]
pub struct Person {
    pub name: String,
    pub age: u32,
}

/// The top-level persisted unit, wrapping exactly one record.
#[derive(Debug, Clone, PartialEq, Eq)]
pub struct SaveData {
    pub person: Person,
}

/// The all-defaults record: empty name, age zero.
pub open spec fn person_is_default(p: Person) -> bool {
    p.name@ == Seq::<char>::empty() && p.age == 0
}

/// The all-defaults document, substituted when no usable file contents exist.
pub open spec fn save_data_is_default(d: SaveData) -> bool {
    person_is_default(d.person)
}

impl Default for Person {
    fn default() -> (r: Person)
        ensures
            person_is_default(r),
    {
        Person { name: String::new(), age: 0 }
    }
}

impl Default for SaveData {
    fn default() -> (r: SaveData)
        ensures
            save_data_is_default(r),
    {
        SaveData { person: Person::default() }
    }
}

} // verus!
