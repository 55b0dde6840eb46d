use vstd::prelude::*;

use super::body_part::{BodyPart, DEFAULT_SUBDIVISION};

verus! {

/// A creature: its body parts and the materials they refer to by index.
pub struct Monster<M> {
    pub parts: Vec<BodyPart>,
    pub materials: Vec<M>,
}

/// `part` has exactly these structural fields, the default subdivision level
/// and no sculpting.
pub open spec fn part_is(
    part: BodyPart,
    id: u32,
    name: Seq<char>,
    parent_id: Option<u32>,
    children: Seq<u32>,
    material_id: u32,
) -> bool {
    &&& part.id == id
    &&& part.name@ == name
    &&& part.parent_id == parent_id
    &&& part.children@ == children
    &&& part.material_id == material_id
    &&& part.subdivisions == DEFAULT_SUBDIVISION
    &&& !part.is_sculpted
}

/// The starting creature: a body with a head, tail, belly and dorsal fin, and
/// two eyes on the head; skin is material 0, belly 1, eyes 2.
pub open spec fn is_hatchling(parts: Seq<BodyPart>) -> bool {
    &&& parts.len() == 7
    &&& part_is(parts[0], 0, "Body"@, None, seq![1u32, 2, 3, 4], 0)
    &&& part_is(parts[1], 1, "Head"@, Some(0u32), seq![5u32, 6], 0)
    &&& part_is(parts[2], 2, "Tail"@, Some(0u32), Seq::<u32>::empty(), 0)
    &&& part_is(parts[3], 3, "Belly"@, Some(0u32), Seq::<u32>::empty(), 1)
    &&& part_is(parts[4], 4, "DorsalFin"@, Some(0u32), Seq::<u32>::empty(), 0)
    &&& part_is(parts[5], 5, "LeftEye"@, Some(1u32), Seq::<u32>::empty(), 2)
    &&& part_is(parts[6], 6, "RightEye"@, Some(1u32), Seq::<u32>::empty(), 2)
}

/// Each part's id is its position, each parent link is matched by a child
/// entry in the parent, each child entry by a parent link in the child, and
/// exactly the first part is a root.
pub open spec fn links_agree(parts: Seq<BodyPart>) -> bool {
    &&& forall|i: int| 0 <= i < parts.len() ==> #[trigger] parts[i].id == i
    &&& forall|i: int|
        0 <= i < parts.len() && (#[trigger] parts[i].parent_id) is Some ==> {
            let p = parts[i].parent_id->0 as int;
            &&& 0 <= p < parts.len()
            &&& parts[p].children@.contains(i as u32)
        }
    &&& forall|j: int, k: int|
        0 <= j < parts.len() && 0 <= k < parts[j].children@.len() ==> {
            let c = #[trigger] parts[j].children@[k] as int;
            &&& 0 <= c < parts.len()
            &&& parts[c].parent_id == Some(j as u32)
        }
    &&& forall|i: int| 0 <= i < parts.len() ==> ((#[trigger] parts[i].parent_id is None) <==> i == 0)
}

/// Every part's material index names one of the materials.
pub open spec fn materials_in_range<M>(parts: Seq<BodyPart>, materials: Seq<M>) -> bool {
    forall|i: int| 0 <= i < parts.len() ==> #[trigger] parts[i].material_id < materials.len()
}

/// The structure of a hatchling agrees with itself: parent links and child
/// lists match, and every material index is in range.
pub proof fn lemma_hatchling_consistent<M>(parts: Seq<BodyPart>, materials: Seq<M>)
    requires
        is_hatchling(parts),
        materials.len() == 3,
    ensures
        links_agree(parts),
        materials_in_range(parts, materials),
{
    assert(parts[0].children@[0] == 1u32);
    assert(parts[0].children@[1] == 2u32);
    assert(parts[0].children@[2] == 3u32);
    assert(parts[0].children@[3] == 4u32);
    assert(parts[1].children@[0] == 5u32);
    assert(parts[1].children@[1] == 6u32);
    assert forall|j: int, k: int|
        0 <= j < parts.len() && 0 <= k < parts[j].children@.len() implies {
        let c = #[trigger] parts[j].children@[k] as int;
        &&& 0 <= c < parts.len()
        &&& parts[c].parent_id == Some(j as u32)
    } by {
        if j == 0 {
            assert(0 <= k < 4);
        } else if j == 1 {
            assert(0 <= k < 2);
        } else {
            assert(parts[j].children@.len() == 0);
        }
    }
}

/// In the starting creature the skin parts (body, head, tail, dorsal fin)
/// use material 0, the belly material 1 and both eyes material 2; both eyes
/// hang under the head and use the same material, which is not the skin's.
pub proof fn lemma_hatchling_materials(parts: Seq<BodyPart>)
    requires
        is_hatchling(parts),
    ensures
        parts.len() == 7,
        parts[0].material_id == 0,
        parts[1].material_id == 0,
        parts[2].material_id == 0,
        parts[3].material_id == 1,
        parts[4].material_id == 0,
        parts[5].material_id == 2,
        parts[6].material_id == 2,
        parts[5].material_id == parts[6].material_id,
        parts[5].material_id != parts[0].material_id,
        parts[5].parent_id == Some(parts[1].id) && parts[6].parent_id == Some(parts[1].id),
{
}

fn make_part(id: u32, name: &str, parent_id: Option<u32>, children: Vec<u32>, material_id: u32) -> (part:
    BodyPart)
    ensures
        part_is(part, id, name@, parent_id, children@, material_id),
{
    BodyPart {
        id,
        name: name.to_owned(),
        parent_id,
        children,
        material_id,
        subdivisions: DEFAULT_SUBDIVISION,
        is_sculpted: false,
    }
}

impl<M> Default for Monster<M> {
    fn default() -> (monster: Self)
        ensures
            monster.parts@ == Seq::<BodyPart>::empty(),
            monster.materials@ == Seq::<M>::empty(),
    {
        Self::new()
    }
}

impl<M> Monster<M> {
    /// A creature with no parts and no materials.
    pub fn new() -> (monster: Self)
        ensures
            monster.parts@ == Seq::<BodyPart>::empty(),
            monster.materials@ == Seq::<M>::empty(),
    {
        Monster { parts: Vec::new(), materials: Vec::new() }
    }

    /// The starting creature, with the given skin, belly and eye materials.
    pub fn default_hatchling(skin: M, belly: M, eye: M) -> (monster: Self)
        ensures
            monster.materials@ == seq![skin, belly, eye],
            is_hatchling(monster.parts@),
            monster.parts@.len() == 7,
            monster.parts@[0].material_id == 0 && monster.parts@[1].material_id == 0
                && monster.parts@[2].material_id == 0 && monster.parts@[4].material_id == 0,
            monster.parts@[3].material_id == 1,
            monster.parts@[5].material_id == 2 && monster.parts@[6].material_id == 2,
            links_agree(monster.parts@),
            materials_in_range(monster.parts@, monster.materials@),
    {
        let mut monster = Self::new();
        monster.materials.push(skin);
        monster.materials.push(belly);
        monster.materials.push(eye);
        monster.parts.push(Self::build_body());
        monster.parts.push(Self::build_head());
        monster.parts.push(Self::build_tail());
        monster.parts.push(Self::build_belly());
        monster.parts.push(Self::build_dorsal_fin());
        monster.parts.push(Self::build_left_eye());
        monster.parts.push(Self::build_right_eye());
        proof {
            assert(monster.materials@ =~= seq![skin, belly, eye]);
            lemma_hatchling_consistent(monster.parts@, monster.materials@);
        }
        monster
    }

    fn build_body() -> (part: BodyPart)
        ensures
            part_is(part, 0, "Body"@, None, seq![1u32, 2, 3, 4], 0),
    {
        let part = make_part(0, "Body", None, vec![1, 2, 3, 4], 0);
        assert(part.children@ =~= seq![1u32, 2, 3, 4]);
        part
    }

    fn build_head() -> (part: BodyPart)
        ensures
            part_is(part, 1, "Head"@, Some(0u32), seq![5u32, 6], 0),
    {
        let part = make_part(1, "Head", Some(0), vec![5, 6], 0);
        assert(part.children@ =~= seq![5u32, 6]);
        part
    }

    fn build_tail() -> (part: BodyPart)
        ensures
            part_is(part, 2, "Tail"@, Some(0u32), Seq::<u32>::empty(), 0),
    {
        make_part(2, "Tail", Some(0), Vec::new(), 0)
    }

    fn build_belly() -> (part: BodyPart)
        ensures
            part_is(part, 3, "Belly"@, Some(0u32), Seq::<u32>::empty(), 1),
    {
        make_part(3, "Belly", Some(0), Vec::new(), 1)
    }

    fn build_dorsal_fin() -> (part: BodyPart)
        ensures
            part_is(part, 4, "DorsalFin"@, Some(0u32), Seq::<u32>::empty(), 0),
    {
        make_part(4, "DorsalFin", Some(0), Vec::new(), 0)
    }

    fn build_left_eye() -> (part: BodyPart)
        ensures
            part_is(part, 5, "LeftEye"@, Some(1u32), Seq::<u32>::empty(), 2),
    {
        make_part(5, "LeftEye", Some(1), Vec::new(), 2)
    }

    fn build_right_eye() -> (part: BodyPart)
        ensures
            part_is(part, 6, "RightEye"@, Some(1u32), Seq::<u32>::empty(), 2),
    {
        make_part(6, "RightEye", Some(1), Vec::new(), 2)
    }
}

} // verus!
