//! An identifier, label and description for a game entity.
use vstd::prelude::*;
use crate::uuid::Uuid;

verus! {

/// An entity descriptor.
#[derive(Clone, Debug, PartialEq)]
pub struct Descriptor {
    id: Uuid,
    label: String,
    description: String,
}

impl Descriptor {
    /// A descriptor made of the given parts.
    pub fn new(id: Uuid, label: String, description: String) -> (r: Descriptor)
        ensures
            r.id() == id,
            r.label() == label@,
            r.description() == description@,
    {
        Descriptor { id, label, description }
    }

    /// The identifier.
    pub closed spec fn id(&self) -> Uuid {
        self.id
    }

    /// The label.
    pub closed spec fn label(&self) -> Seq<char> {
        self.label@
    }

    /// The description.
    pub closed spec fn description(&self) -> Seq<char> {
        self.description@
    }

    /// The identifier.
    pub fn get_id(&self) -> (r: Uuid)
        ensures
            r == self.id(),
    {
        self.id
    }

    /// The label.
    pub fn get_label(&self) -> (r: &str)
        ensures
            r@ == self.label(),
    {
        self.label.as_str()
    }

    /// The description.
    pub fn get_description(&self) -> (r: &str)
        ensures
            r@ == self.description(),
    {
        self.description.as_str()
    }
}

} // verus!
