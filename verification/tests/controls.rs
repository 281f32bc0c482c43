use kv6view::camera::Movement;
use kv6view::controls::{Command, KeyBindings};

fn bindings() -> KeyBindings {
    KeyBindings {
        exit: 1,
        forward: 17,
        backward: 31,
        left: 30,
        right: 32,
        up: 57,
        down: 29,
        boost: 42,
        move_light: 38,
        show_light: 37,
    }
}

#[test]
fn movement_keys_are_found() {
    let b = bindings();
    assert_eq!(b.movement(17), Some(Movement::Forward));
    assert_eq!(b.movement(31), Some(Movement::Backward));
    assert_eq!(b.movement(30), Some(Movement::Left));
    assert_eq!(b.movement(32), Some(Movement::Right));
    assert_eq!(b.movement(57), Some(Movement::Up));
    assert_eq!(b.movement(29), Some(Movement::Down));
    assert_eq!(b.movement(42), Some(Movement::Boost));
}

#[test]
fn command_keys_are_found() {
    let b = bindings();
    assert_eq!(b.command(1), Some(Command::Exit));
    assert_eq!(b.command(38), Some(Command::MoveLight));
    assert_eq!(b.command(37), Some(Command::ShowLight));
}

#[test]
fn unbound_keys_ask_for_nothing() {
    let b = bindings();
    for key in [0u32, 2, 16, 18, 100, u32::MAX] {
        assert_eq!(b.movement(key), None);
        assert_eq!(b.command(key), None);
    }
}

#[test]
fn movement_keys_are_no_commands_and_the_other_way_round() {
    let b = bindings();
    for key in [17u32, 31, 30, 32, 57, 29, 42] {
        assert_eq!(b.command(key), None);
    }
    for key in [1u32, 38, 37] {
        assert_eq!(b.movement(key), None);
    }
}

#[test]
fn first_binding_wins() {
    let mut b = bindings();
    b.left = 17;
    b.up = 31;
    b.boost = 31;
    assert_eq!(b.movement(17), Some(Movement::Forward));
    assert_eq!(b.movement(31), Some(Movement::Backward));
    b.show_light = 1;
    b.move_light = 1;
    assert_eq!(b.command(1), Some(Command::Exit));
    b.exit = 2;
    assert_eq!(b.command(1), Some(Command::MoveLight));
}

#[test]
fn a_key_may_ask_for_a_movement_and_a_command() {
    let mut b = bindings();
    b.exit = 17;
    assert_eq!(b.movement(17), Some(Movement::Forward));
    assert_eq!(b.command(17), Some(Command::Exit));
    assert!(!b.is_unambiguous());
}

#[test]
fn distinct_keys_are_unambiguous() {
    assert!(bindings().is_unambiguous());
}

#[test]
fn any_key_bound_twice_is_ambiguous() {
    let set = |b: &mut KeyBindings, k: usize, v: u32| match k {
        0 => b.forward = v,
        1 => b.backward = v,
        2 => b.left = v,
        3 => b.right = v,
        4 => b.up = v,
        5 => b.down = v,
        6 => b.boost = v,
        7 => b.exit = v,
        8 => b.move_light = v,
        _ => b.show_light = v,
    };
    for i in 0..10 {
        for j in 0..10 {
            if i != j {
                let mut b = bindings();
                set(&mut b, i, 1000);
                set(&mut b, j, 1000);
                assert!(!b.is_unambiguous());
            }
        }
    }
}
