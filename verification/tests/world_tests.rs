use mini_ecs::entity::Entity;
use mini_ecs::world::{shorter_of_two, shortest_of_three, World};

#[test]
fn entity_spawning() {
    let mut world = World::new();
    let entity_1 = world.spawn();
    let entity_2 = world.spawn();

    assert_eq!(entity_1.id, 0);
    assert_eq!(entity_2.id, 1);
}

#[test]
fn spawn_counts_entities() {
    let mut world = World::new();
    assert_eq!(world.spawned(), 0);
    for expected in 0..5 {
        assert_eq!(world.spawn().id, expected);
    }
    assert_eq!(world.spawned(), 5);
}

fn entities(ids: &[usize]) -> Vec<Entity> {
    ids.iter().map(|&id| Entity { id }).collect()
}

#[test]
fn shorter_list_is_picked_first_on_tie() {
    let a = entities(&[1, 2]);
    let b = entities(&[3, 4]);
    let c = entities(&[5]);
    assert_eq!(shorter_of_two(&a, &b), &a[..]);
    assert_eq!(shorter_of_two(&a, &c), &c[..]);
    assert_eq!(shortest_of_three(&a, &b, &c), &c[..]);
    assert_eq!(shortest_of_three(&c, &a, &b), &c[..]);
    assert_eq!(shortest_of_three(&a, &b, &a), &a[..]);
    let empty = entities(&[]);
    assert_eq!(shortest_of_three(&a, &empty, &c), &empty[..]);
}
