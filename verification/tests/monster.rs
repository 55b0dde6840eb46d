use leviathan_lab::model::body_part::{BodyPartBuilder, DEFAULT_SUBDIVISION};
use leviathan_lab::model::monster::Monster;
use leviathan_lab::scene::spawner::Spawner;

#[test]
fn new_monster_is_empty() {
    let m: Monster<u8> = Monster::new();
    assert!(m.parts.is_empty());
    assert!(m.materials.is_empty());
}

#[test]
fn hatchling_has_seven_linked_parts() {
    let m = Monster::default_hatchling("skin", "belly", "eye");
    assert_eq!(m.materials, vec!["skin", "belly", "eye"]);
    let names: Vec<&str> = m.parts.iter().map(|p| p.name.as_str()).collect();
    assert_eq!(names, vec!["Body", "Head", "Tail", "Belly", "DorsalFin", "LeftEye", "RightEye"]);
    for (i, part) in m.parts.iter().enumerate() {
        assert_eq!(part.id as usize, i);
        assert_eq!(part.subdivisions, DEFAULT_SUBDIVISION);
        assert!(!part.is_sculpted);
        assert!((part.material_id as usize) < m.materials.len());
        if let Some(p) = part.parent_id {
            assert!(m.parts[p as usize].children.contains(&part.id));
        }
        for c in &part.children {
            assert_eq!(m.parts[*c as usize].parent_id, Some(part.id));
        }
    }
    assert!(m.parts[0].is_root());
    assert_eq!(m.parts[0].children, vec![1, 2, 3, 4]);
    assert_eq!(m.parts[1].children, vec![5, 6]);
    assert_eq!(m.parts[3].material_id, 1);
    assert_eq!(m.parts[5].material_id, 2);
    assert_eq!(m.parts[6].parent_id, Some(1));
}

#[test]
fn builder_makes_a_root_part() {
    let part = BodyPartBuilder::new(101).build();
    assert_eq!(part.id, 101);
    assert_eq!(part.name, "Body");
    assert!(part.is_root());
    assert!(part.children.is_empty());
    assert_eq!(part.material_id, 0);
    assert_eq!(part.subdivisions, 2);
    let named = BodyPartBuilder::new(5).name("Fin".to_string()).build();
    assert_eq!(named.name, "Fin");
    assert_eq!(named.id, 5);
}

#[test]
fn spawner_links_the_hatchling_entities() {
    let m = Monster::default_hatchling(0u8, 1u8, 2u8);
    let entities: Vec<u64> = vec![100, 101, 102, 103, 104, 105, 106];
    let (hierarchy, links) = Spawner::link_parts(&m.parts, &entities);
    assert_eq!(hierarchy.entities.len(), 7);
    assert_eq!(hierarchy.entities.get(&4), Some(&104));
    assert_eq!(
        links,
        vec![(100, 101), (100, 102), (100, 103), (100, 104), (101, 105), (101, 106)]
    );
}

#[test]
fn spawner_skips_links_to_unknown_parents() {
    let mut orphan = BodyPartBuilder::new(8).build();
    orphan.parent_id = Some(77);
    let root = BodyPartBuilder::new(9).build();
    let (hierarchy, links) = Spawner::link_parts(&vec![orphan, root], &vec![1, 2]);
    assert_eq!(hierarchy.entities.get(&8), Some(&1));
    assert!(links.is_empty());
}

#[test]
fn default_monster_is_empty() {
    let m: Monster<u8> = Monster::default();
    assert!(m.parts.is_empty() && m.materials.is_empty());
}
