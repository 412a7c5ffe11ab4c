// A `&mut` argument of a structured type comes back as the child left it.
use sandcrust::{reply_len, restore_changed_vars, store_changed_vars, ArgKind};

#[derive(PartialEq, Debug, Clone)]
struct Entity {
    x: f32,
    y: f32,
}

#[derive(PartialEq, Debug, Clone)]
struct World {
    entities: Vec<Entity>,
}

/// Frames of this test: an argument's value, or the empty frame that stands
/// for an argument the reply does not carry.
#[derive(PartialEq, Debug, Clone)]
enum Frame {
    Empty,
    World(World),
}

fn complex_struct_vec(world: &mut World) {
    world.entities[0] = Entity { x: 1.0, ..world.entities[0] };
}

#[test]
fn complex_struct_vec_test() {
    let mut world = World { entities: vec![Entity { x: 0.0, y: 4.0 }, Entity { x: 10.0, y: 20.5 }] };
    let new_world = World { entities: vec![Entity { x: 1.0, y: 4.0 }, Entity { x: 10.0, y: 20.5 }] };
    let kinds = vec![ArgKind::MutRef];
    // the argument goes down; the child works on its copy
    let mut child_world = world.clone();
    complex_struct_vec(&mut child_world);
    let reply = store_changed_vars(&kinds, vec![Frame::World(child_world)], None);
    assert_eq!(reply.len(), reply_len(&kinds, false));
    let (mut restored, _ret) = restore_changed_vars(&kinds, vec![Frame::World(world)], reply, false).unwrap();
    world = match restored.remove(0) {
        Frame::World(w) => w,
        Frame::Empty => panic!("argument expected"),
    };
    assert!(world == new_world)
}

// make sure the comparison is a useful one
#[test]
#[should_panic(expected = "assertion failed")]
fn complex_struct_vec_test_fail() {
    let world = World { entities: vec![Entity { x: 0.0, y: 4.0 }, Entity { x: 10.0, y: 20.5 }] };
    let new_world = World { entities: vec![Entity { x: 1.0, y: 4.0 }, Entity { x: 10.0, y: 20.5 }] };
    assert!(world == new_world)
}
