use crayon_res::ecs::World;

#[derive(Debug, Copy, Clone, PartialEq, Eq)]
struct Position {
    x: i32,
    y: i32,
}

#[test]
fn mod_basic() {
    let mut world: World<Position> = World::new();

    let e1 = world.create();
    world.assign(e1, Position { x: 1, y: 2 });

    {
        let p = world.fetch(e1).unwrap();
        assert_eq!(p, Position { x: 1, y: 2 });
    }

    {
        let mut p = world.fetch(e1).unwrap();
        p.x = 2;
        p.y = 5;
        world.assign(e1, p);
    }

    {
        let p = world.fetch(e1).unwrap();
        assert_eq!(p, Position { x: 2, y: 5 });
    }

    world.remove(e1);
    assert_eq!(world.fetch(e1), None);
}

#[test]
fn mod_free() {
    let mut world: World<Position> = World::new();

    let e1 = world.create();
    assert!(world.is_alive(e1));
    assert!(!world.has(e1));
    assert_eq!(world.fetch(e1), None);

    world.assign(e1, Position { x: 1, y: 2 });
    assert!(world.has(e1));
    world.fetch(e1).unwrap();

    world.free(e1);
    assert!(!world.is_alive(e1));
    assert!(!world.has(e1));
    assert_eq!(world.fetch(e1), None);
}

#[test]
fn duplicated_assign() {
    let mut world: World<Position> = World::new();

    let e1 = world.create();
    assert!(world.assign(e1, Position { x: 1, y: 2 }) == None);
    assert!(world.assign(e1, Position { x: 2, y: 4 }) == Some(Position { x: 1, y: 2 }));

    assert!(world.fetch(e1) == Some(Position { x: 2, y: 4 }))
}

#[test]
fn freed_slot_is_reused_with_a_new_version() {
    let mut world: World<Position> = World::new();
    let e1 = world.create();
    world.assign(e1, Position { x: 7, y: 8 });
    assert!(world.free(e1));
    assert!(!world.free(e1));

    let e2 = world.create();
    assert_eq!(e2.index, e1.index);
    assert_ne!(e2.version, e1.version);
    assert!(world.is_alive(e2));
    assert!(!world.is_alive(e1));
    assert!(!world.has(e2));
    assert_eq!(world.assign(e1, Position { x: 0, y: 0 }), None);
    assert!(!world.has(e2));
}

#[test]
fn entities_keep_their_own_components() {
    let mut world: World<Position> = World::new();
    let a = world.create();
    let b = world.create();
    world.assign(a, Position { x: 1, y: 1 });
    world.assign(b, Position { x: 2, y: 2 });
    assert_eq!(world.remove(a), Some(Position { x: 1, y: 1 }));
    assert_eq!(world.fetch(a), None);
    assert_eq!(world.fetch(b), Some(Position { x: 2, y: 2 }));
    assert!(world.is_alive(a));
}
