use vstd::prelude::*;

verus! {

/// What a left click in the viewport does.
#[derive(Clone, Copy, Debug, PartialEq, Eq, Structural)]
pub enum SculptMode {
    Select,
    AddBodyPart,
    Sculpt,
}

impl SculptMode {
    /// The label the toolbar shows.
    pub fn to_string(&self) -> (s: String)
        ensures
            s@ == match self {
                SculptMode::Select => "Select"@,
                SculptMode::AddBodyPart => "Add Body Part"@,
                SculptMode::Sculpt => "Sculpt"@,
            },
    {
        match self {
            SculptMode::AddBodyPart => "Add Body Part".to_owned(),
            SculptMode::Select => "Select".to_owned(),
            SculptMode::Sculpt => "Sculpt".to_owned(),
        }
    }
}

impl Default for SculptMode {
    fn default() -> (mode: Self)
        ensures
            mode == SculptMode::Select,
    {
        SculptMode::Select
    }
}

/// The shape a newly added body part gets.
#[derive(Clone, Copy, Debug, PartialEq, Eq, Structural)]
pub enum SculptBodyPartType {
    Sphere,
    Capsule,
    Cone,
    Torus,
    Cylinder,
}

impl SculptBodyPartType {
    pub open spec fn to_string_spec(&self) -> Seq<char> {
        match self {
            SculptBodyPartType::Sphere => "Sphere"@,
            SculptBodyPartType::Capsule => "Capsule"@,
            SculptBodyPartType::Cone => "Cone"@,
            SculptBodyPartType::Torus => "Torus"@,
            SculptBodyPartType::Cylinder => "Cylinder"@,
        }
    }

    /// The name of the shape, which a newly added part of it is named after.
    pub fn to_string(&self) -> (s: String)
        ensures
            s@ == self.to_string_spec(),
    {
        match self {
            SculptBodyPartType::Sphere => "Sphere".to_owned(),
            SculptBodyPartType::Capsule => "Capsule".to_owned(),
            SculptBodyPartType::Cone => "Cone".to_owned(),
            SculptBodyPartType::Torus => "Torus".to_owned(),
            SculptBodyPartType::Cylinder => "Cylinder".to_owned(),
        }
    }
}

impl Default for SculptBodyPartType {
    fn default() -> (shape: Self)
        ensures
            shape == SculptBodyPartType::Sphere,
    {
        SculptBodyPartType::Sphere
    }
}

/// How a sculpt stroke moves the vertices under the brush.
#[derive(Clone, Copy, Debug, PartialEq, Eq, Structural)]
pub enum BrushMode {
    Pull,
    Push,
    Smooth,
    Flatten,
}

impl BrushMode {
    /// The label the brush panel shows.
    pub fn to_string(&self) -> (s: String)
        ensures
            s@ == match self {
                BrushMode::Pull => "Pull"@,
                BrushMode::Push => "Push"@,
                BrushMode::Smooth => "Smooth"@,
                BrushMode::Flatten => "Flatten"@,
            },
    {
        match self {
            BrushMode::Pull => "Pull".to_owned(),
            BrushMode::Push => "Push".to_owned(),
            BrushMode::Smooth => "Smooth".to_owned(),
            BrushMode::Flatten => "Flatten".to_owned(),
        }
    }
}

impl Default for BrushMode {
    fn default() -> (mode: Self)
        ensures
            mode == BrushMode::Pull,
    {
        BrushMode::Pull
    }
}

/// The id the next added body part gets.
#[derive(Clone, Copy, Debug, PartialEq, Eq, Structural)]
pub struct BodyPartId(pub u32);

impl Default for BodyPartId {
    /// Added parts are numbered from 100 up, clear of the starting creature.
    fn default() -> (id: Self)
        ensures
            id.0 == 100,
    {
        BodyPartId(100)
    }
}

/// Issues fresh ids.
pub trait IdGenerator {
    /// Another id can be issued without running out.
    spec fn can_issue(&self) -> bool;

    /// Issues an id.
    fn next(&mut self) -> (id: u32)
        requires
            old(self).can_issue(),
    ;
}

impl IdGenerator for BodyPartId {
    open spec fn can_issue(&self) -> bool {
        self.0 < u32::MAX
    }

    /// Issues the current id and moves on to the following one, so ids come
    /// out strictly increasing and never repeat.
    fn next(&mut self) -> (id: u32)
        ensures
            id == old(self).0,
            final(self).0 == old(self).0 + 1,
    {
        let id = self.0;
        self.0 = self.0 + 1;
        id
    }
}

} // verus!
