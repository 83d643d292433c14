use mini_ecs::component::{ComponentSet, SparseSet};
use mini_ecs::entity::Entity;

fn mock_entity(id: usize) -> Entity {
    Entity { id }
}

#[derive(Debug, PartialEq, Copy, Clone)]
struct Position {
    x: f32,
    y: f32,
}

#[test]
fn test_insert_and_get() {
    let mut set = SparseSet::<Position>::new();

    let e0 = mock_entity(0);
    let e1 = mock_entity(1);

    set.insert(e0, Position { x: 10.0, y: 20.0 });

    assert!(set.contains(&e0));
    assert!(!set.contains(&e1));
    assert_eq!(set.get(&e0), Some(&Position { x: 10.0, y: 20.0 }));
    assert_eq!(set.get(&e1), None);

    if let Some(pos) = set.get_mut(&e0) {
        pos.x = 99.0;
    }

    assert_eq!(set.get(&e0), Some(&Position { x: 99.0, y: 20.0 }));
}

#[test]
fn test_sparse_auto_resize() {
    let mut set = SparseSet::<Position>::new();
    let e_100 = mock_entity(100);

    set.insert(e_100, Position { x: 5.0, y: 5.0 });

    assert!(set.contains(&e_100));
    assert_eq!(set.get(&e_100), Some(&Position { x: 5.0, y: 5.0 }));
    assert_eq!(set.sparse_len(), 101);
    assert_eq!(set.get_dense().len(), 1);
}

#[test]
fn test_deletion_swap_remove_and_index_repair() {
    let mut set = SparseSet::<Position>::new();
    let e0 = mock_entity(0);
    let e1 = mock_entity(1);
    let e2 = mock_entity(2);

    set.insert(e0, Position { x: 0.0, y: 0.0 });
    set.insert(e1, Position { x: 1.0, y: 1.0 });
    set.insert(e2, Position { x: 2.0, y: 2.0 });

    set.deletion(e1);

    assert!(!set.contains(&e1));
    assert_eq!(set.get(&e1), None);

    assert!(set.contains(&e2));
    assert_eq!(set.get(&e2), Some(&Position { x: 2.0, y: 2.0 }));

    assert!(set.contains(&e0));
    assert_eq!(set.get(&e0), Some(&Position { x: 0.0, y: 0.0 }));

    assert_eq!(set.get_dense().len(), 2);
}

#[test]
fn test_delete_last_element() {
    let mut set = SparseSet::<Position>::new();
    let e0 = mock_entity(0);
    let e1 = mock_entity(1);

    set.insert(e0, Position { x: 0.0, y: 0.0 });
    set.insert(e1, Position { x: 1.0, y: 1.0 });

    set.deletion(e1);

    assert!(!set.contains(&e1));
    assert!(set.contains(&e0));
    assert_eq!(set.get_dense().len(), 1);
}

#[test]
fn test_delete_non_existent() {
    let mut set = SparseSet::<Position>::new();
    let e0 = mock_entity(0);
    let e1 = mock_entity(1);

    set.insert(e0, Position { x: 0.0, y: 0.0 });

    set.deletion(e1);
    assert_eq!(set.get_dense().len(), 1);
}

#[test]
fn test_component_set_trait_downcast() {
    let mut set = SparseSet::<Position>::new();
    let entity = mock_entity(0);
    set.insert(entity, Position { x: 1.0, y: 2.0 });

    assert_eq!(set.get(&entity), Some(&Position { x: 1.0, y: 2.0 }));

    let trait_obj: &mut dyn ComponentSet = &mut set;
    trait_obj.deletion(entity);

    assert!(!set.contains(&entity));
}

#[test]
fn deletion_moves_last_entity_into_the_gap() {
    let mut set = SparseSet::<u32>::new();
    for id in 0..4 {
        set.insert(mock_entity(id), id as u32 * 10);
    }
    set.deletion(mock_entity(1));
    assert_eq!(
        set.get_dense().clone(),
        vec![mock_entity(0), mock_entity(3), mock_entity(2)]
    );
    assert_eq!(set.get(&mock_entity(3)), Some(&30));
    assert_eq!(set.get(&mock_entity(2)), Some(&20));
    assert_eq!(set.get(&mock_entity(0)), Some(&0));
    assert_eq!(set.sparse_len(), 4);
}

#[test]
fn dense_lists_each_holder_once() {
    let mut set = SparseSet::<u8>::new();
    set.insert(mock_entity(7), 1);
    set.insert(mock_entity(2), 2);
    set.insert(mock_entity(5), 3);
    set.deletion(mock_entity(7));
    set.insert(mock_entity(9), 4);
    let dense = set.get_dense().clone();
    assert_eq!(dense.len(), 3);
    for id in 0..10 {
        let listed = dense.iter().filter(|e| e.id == id).count();
        assert_eq!(listed, if set.contains(&mock_entity(id)) { 1 } else { 0 });
    }
}

#[test]
fn deletion_right_after_first_insert_restores_contents() {
    let mut set = SparseSet::<i64>::new();
    set.insert(mock_entity(0), -1);
    set.insert(mock_entity(3), -3);
    set.insert(mock_entity(8), 42);
    set.deletion(mock_entity(8));
    assert_eq!(set.get(&mock_entity(0)), Some(&-1));
    assert_eq!(set.get(&mock_entity(3)), Some(&-3));
    assert_eq!(set.get(&mock_entity(8)), None);
    assert_eq!(set.get_dense().len(), 2);
}

#[test]
fn insert_again_reads_back_newest_component() {
    let mut set = SparseSet::<u8>::new();
    let e = mock_entity(1);
    set.insert(e, 1);
    set.insert(e, 2);
    assert_eq!(set.get(&e), Some(&2));
    assert_eq!(set.get_dense().len(), 2);
}

#[test]
fn get_mut_of_missing_entity_is_none() {
    let mut set = SparseSet::<u8>::new();
    set.insert(mock_entity(0), 1);
    assert!(set.get_mut(&mock_entity(4)).is_none());
    assert!(set.get_mut(&mock_entity(1)).is_none());
    assert_eq!(set.get(&mock_entity(0)), Some(&1));
}

#[test]
fn deleting_the_only_entity_empties_the_set() {
    let mut set = SparseSet::<u8>::new();
    set.insert(mock_entity(3), 9);
    set.deletion(mock_entity(3));
    assert!(!set.contains(&mock_entity(3)));
    assert_eq!(set.get_dense().len(), 0);
    assert_eq!(set.sparse_len(), 4);
}
