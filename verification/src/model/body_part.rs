use vstd::prelude::*;

verus! {

/// Subdivision level a new part's mesh is built with.
pub const DEFAULT_SUBDIVISION: u32 = 2;

/// Segment count for round meshes other than spheres and capsules.
pub const DEFAULT_RESOLUTION: u32 = 32;

/// The structure of a body part: its identity, name, place in the hierarchy
/// and material slot. Its shape, size and transform are geometry kept beside
/// it by the caller.
#[derive(Clone, Debug, PartialEq)]
pub struct BodyPart {
    pub id: u32,
    pub name: String,
    pub parent_id: Option<u32>,
    pub children: Vec<u32>,
    pub material_id: u32,
    pub subdivisions: u32,
    pub is_sculpted: bool,
}

impl BodyPart {
    /// A part without a parent.
    pub fn is_root(&self) -> (r: bool)
        ensures
            r == self.parent_id.is_none(),
    {
        self.parent_id.is_none()
    }
}

/// Builds a new standalone body part.
pub struct BodyPartBuilder {
    id: u32,
    name: String,
}

impl BodyPartBuilder {
    pub closed spec fn spec_id(&self) -> u32 {
        self.id
    }

    pub closed spec fn spec_name(&self) -> Seq<char> {
        self.name@
    }

    /// A builder for part `id`, named `Body` until told otherwise.
    pub fn new(id: u32) -> (b: Self)
        ensures
            b.spec_id() == id,
            b.spec_name() == "Body"@,
    {
        BodyPartBuilder { id, name: "Body".to_owned() }
    }

    pub fn name(self, name: String) -> (b: Self)
        ensures
            b.spec_id() == self.spec_id(),
            b.spec_name() == name@,
    {
        BodyPartBuilder { id: self.id, name }
    }

    /// A root part with the builder's id and name, no children, the first
    /// material, the default subdivision level, and no sculpting.
    pub fn build(self) -> (part: BodyPart)
        ensures
            part.id == self.spec_id(),
            part.name@ == self.spec_name(),
            part.parent_id is None,
            part.children@ == Seq::<u32>::empty(),
            part.material_id == 0,
            part.subdivisions == DEFAULT_SUBDIVISION,
            !part.is_sculpted,
    {
        BodyPart {
            id: self.id,
            name: self.name,
            parent_id: None,
            children: Vec::new(),
            material_id: 0,
            subdivisions: DEFAULT_SUBDIVISION,
            is_sculpted: false,
        }
    }
}

} // verus!
