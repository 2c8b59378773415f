use hover_arena::shared::entity::{Entity, EntityIndex};
use hover_arena::shared::parent::{resolve_parent_chain, MissingParent, ParentLinks, MAX_PARENTS};

fn entity(bits: u64) -> Entity {
    Entity { bits }
}

/// Entities 1..=n, each with a transform and a parent naming the next one;
/// the last one has no parent.
fn chain(n: u64) -> (EntityIndex, ParentLinks) {
    let mut index = EntityIndex::new();
    let mut links = ParentLinks::new();
    for i in 1..=n {
        index.insert(i as u128, entity(i));
        if i < n {
            links.insert(entity(i), i as u128 + 1);
        }
    }
    (index, links)
}

#[test]
fn a_parent_without_parent_contributes_nothing() {
    let (index, links) = chain(1);
    assert_eq!(resolve_parent_chain(&index, &links, 1), Ok(Vec::new()));
}

#[test]
fn ancestors_are_listed_nearest_first() {
    let (index, links) = chain(4);
    assert_eq!(
        resolve_parent_chain(&index, &links, 1),
        Ok(vec![entity(1), entity(2), entity(3)])
    );
    assert_eq!(resolve_parent_chain(&index, &links, 3), Ok(vec![entity(3)]));
}

#[test]
fn a_long_chain_is_cut_off() {
    let (index, links) = chain(10);
    let found = resolve_parent_chain(&index, &links, 1).unwrap();
    assert_eq!(found, vec![entity(1), entity(2), entity(3), entity(4)]);
    assert_eq!(found.len(), MAX_PARENTS);
}

#[test]
fn a_cycle_ends_after_four_ancestors() {
    let mut index = EntityIndex::new();
    let mut links = ParentLinks::new();
    index.insert(1, entity(1));
    index.insert(2, entity(2));
    links.insert(entity(1), 2);
    links.insert(entity(2), 1);
    assert_eq!(
        resolve_parent_chain(&index, &links, 1),
        Ok(vec![entity(1), entity(2), entity(1), entity(2)])
    );
    // an entity that is its own parent
    let mut own = ParentLinks::new();
    own.insert(entity(1), 1);
    assert_eq!(resolve_parent_chain(&index, &own, 1), Ok(vec![entity(1); 4]));
}

#[test]
fn a_missing_parent_is_named() {
    let (index, mut links) = chain(3);
    assert_eq!(resolve_parent_chain(&index, &links, 9), Err(MissingParent { id: 9 }));
    links.insert(entity(3), 77);
    assert_eq!(resolve_parent_chain(&index, &links, 1), Err(MissingParent { id: 77 }));
}

#[test]
fn a_missing_parent_beyond_the_cut_is_not_looked_for() {
    let (index, mut links) = chain(5);
    links.insert(entity(5), 77);
    assert_eq!(
        resolve_parent_chain(&index, &links, 1),
        Ok(vec![entity(1), entity(2), entity(3), entity(4)])
    );
    assert_eq!(resolve_parent_chain(&index, &links, 2), Err(MissingParent { id: 77 }));
}

#[test]
fn the_index_binds_and_forgets() {
    let mut index = EntityIndex::new();
    assert_eq!(index.get(1), None);
    index.insert(1, entity(5));
    index.insert(1, entity(6));
    assert_eq!(index.get(1), Some(entity(6)));
    assert_eq!(index.get_or_create(1, || entity(7)), entity(6));
    assert_eq!(index.get_or_create(2, || entity(7)), entity(7));
    assert_eq!(index.remove(1), Some(entity(6)));
    assert_eq!(index.remove(1), None);
    assert_eq!(index.get(1), None);
    let mut links = ParentLinks::new();
    assert_eq!(links.get(entity(1)), None);
    links.insert(entity(1), 3);
    assert_eq!(links.get(entity(1)), Some(3));
}

#[test]
fn the_keys_of_a_table_come_each_once() {
    let mut table: std::collections::HashMap<u128, u8> = std::collections::HashMap::new();
    assert!(hover_arena::shared::keys::keys_of(&table).is_empty());
    for key in [5u128, 1, 9, 1] {
        table.insert(key, 0);
    }
    let mut keys = hover_arena::shared::keys::keys_of(&table);
    keys.sort();
    assert_eq!(keys, vec![1, 5, 9]);
}
