//! Key bindings: which key asks for which movement or command.

use crate::camera::Movement;
use vstd::prelude::*;

verus! {

/// What a key outside the movement keys asks for.
#[derive(Clone, Copy, Debug, PartialEq, Eq, Structural)]
pub enum Command {
    /// Leave the viewer.
    Exit,
    /// Point the light along the camera's line of sight.
    MoveLight,
    /// Show or hide the light marker.
    ShowLight,
}

/// The key of every movement and command, as the windowing layer numbers keys.
#[derive(Clone, Copy, Debug, PartialEq, Eq, Structural)]
pub struct KeyBindings {
    pub exit: u32,
    pub forward: u32,
    pub backward: u32,
    pub left: u32,
    pub right: u32,
    pub up: u32,
    pub down: u32,
    pub boost: u32,
    pub move_light: u32,
    pub show_light: u32,
}

impl KeyBindings {
    /// The key bound to `m`.
    pub open spec fn key_of(&self, m: Movement) -> u32 {
        match m {
            Movement::Forward => self.forward,
            Movement::Backward => self.backward,
            Movement::Left => self.left,
            Movement::Right => self.right,
            Movement::Up => self.up,
            Movement::Down => self.down,
            Movement::Boost => self.boost,
        }
    }

    /// The key bound to `c`.
    pub open spec fn command_key_of(&self, c: Command) -> u32 {
        match c {
            Command::Exit => self.exit,
            Command::MoveLight => self.move_light,
            Command::ShowLight => self.show_light,
        }
    }

    /// The movement that `key` asks for: the first one bound to it, taking
    /// the movements in the order of [`Movement`].
    pub open spec fn spec_movement(&self, key: u32) -> Option<Movement> {
        if key == self.forward {
            Some(Movement::Forward)
        } else if key == self.backward {
            Some(Movement::Backward)
        } else if key == self.left {
            Some(Movement::Left)
        } else if key == self.right {
            Some(Movement::Right)
        } else if key == self.up {
            Some(Movement::Up)
        } else if key == self.down {
            Some(Movement::Down)
        } else if key == self.boost {
            Some(Movement::Boost)
        } else {
            None
        }
    }

    /// The command that `key` asks for: the first one bound to it, taking
    /// the commands in the order of [`Command`].
    pub open spec fn spec_command(&self, key: u32) -> Option<Command> {
        if key == self.exit {
            Some(Command::Exit)
        } else if key == self.move_light {
            Some(Command::MoveLight)
        } else if key == self.show_light {
            Some(Command::ShowLight)
        } else {
            None
        }
    }

    /// The ten keys, those of the movements first.
    pub open spec fn all_keys(&self) -> Seq<u32> {
        seq![
            self.forward,
            self.backward,
            self.left,
            self.right,
            self.up,
            self.down,
            self.boost,
            self.exit,
            self.move_light,
            self.show_light,
        ]
    }

    /// No key is bound twice.
    pub open spec fn unambiguous(&self) -> bool {
        &&& forall|m: Movement, n: Movement| self.key_of(m) == self.key_of(n) ==> m == n
        &&& forall|c: Command, d: Command|
            self.command_key_of(c) == self.command_key_of(d) ==> c == d
        &&& forall|m: Movement, c: Command| self.key_of(m) != self.command_key_of(c)
    }

    /// The movement that `key` asks for, if any.
    #[verifier::when_used_as_spec(spec_movement)]
    pub fn movement(&self, key: u32) -> (r: Option<Movement>)
        ensures
            r == self.spec_movement(key),
    {
        if key == self.forward {
            Some(Movement::Forward)
        } else if key == self.backward {
            Some(Movement::Backward)
        } else if key == self.left {
            Some(Movement::Left)
        } else if key == self.right {
            Some(Movement::Right)
        } else if key == self.up {
            Some(Movement::Up)
        } else if key == self.down {
            Some(Movement::Down)
        } else if key == self.boost {
            Some(Movement::Boost)
        } else {
            None
        }
    }

    /// The command that `key` asks for, if any.
    #[verifier::when_used_as_spec(spec_command)]
    pub fn command(&self, key: u32) -> (r: Option<Command>)
        ensures
            r == self.spec_command(key),
    {
        if key == self.exit {
            Some(Command::Exit)
        } else if key == self.move_light {
            Some(Command::MoveLight)
        } else if key == self.show_light {
            Some(Command::ShowLight)
        } else {
            None
        }
    }

    /// Whether no key is bound twice.
    pub fn is_unambiguous(&self) -> (r: bool)
        ensures
            r == self.unambiguous(),
    {
        let keys: [u32; 10] = [
            self.forward,
            self.backward,
            self.left,
            self.right,
            self.up,
            self.down,
            self.boost,
            self.exit,
            self.move_light,
            self.show_light,
        ];
        assert(keys@ =~= self.all_keys());
        let mut i: usize = 0;
        while i < 10
            invariant
                i <= 10,
                keys@ == self.all_keys(),
                forall|a: int, b: int| 0 <= a < i && a < b < 10 ==> keys@[a] != keys@[b],
            decreases 10 - i,
        {
            let mut j: usize = i + 1;
            while j < 10
                invariant
                    i < j <= 10,
                    keys@ == self.all_keys(),
                    forall|b: int| i < b < j ==> keys@[i as int] != keys@[b],
                decreases 10 - j,
            {
                if keys[i] == keys[j] {
                    proof {
                        self.lemma_unambiguous_keys();
                    }
                    return false;
                }
                j += 1;
            }
            i += 1;
        }
        proof {
            self.lemma_unambiguous_keys();
        }
        true
    }

    /// The bindings are unambiguous exactly when the ten keys, listed
    /// movements first, are pairwise different.
    proof fn lemma_unambiguous_keys(&self)
        ensures
            self.unambiguous() <==> forall|a: int, b: int|
                0 <= a < b < 10 ==> self.all_keys()[a] != self.all_keys()[b],
    {
        let keys = self.all_keys();
        let movement_at = |a: int|
            if a == 0 {
                Movement::Forward
            } else if a == 1 {
                Movement::Backward
            } else if a == 2 {
                Movement::Left
            } else if a == 3 {
                Movement::Right
            } else if a == 4 {
                Movement::Up
            } else if a == 5 {
                Movement::Down
            } else {
                Movement::Boost
            };
        let command_at = |a: int|
            if a == 7 {
                Command::Exit
            } else if a == 8 {
                Command::MoveLight
            } else {
                Command::ShowLight
            };
        if self.unambiguous() {
            assert forall|a: int, b: int| 0 <= a < b < 10 implies keys[a] != keys[b] by {
                if b < 7 {
                    assert(keys[a] == self.key_of(movement_at(a)));
                    assert(keys[b] == self.key_of(movement_at(b)));
                } else if a < 7 {
                    assert(keys[a] == self.key_of(movement_at(a)));
                    assert(keys[b] == self.command_key_of(command_at(b)));
                } else {
                    assert(keys[a] == self.command_key_of(command_at(a)));
                    assert(keys[b] == self.command_key_of(command_at(b)));
                }
            }
        }
        if forall|a: int, b: int| 0 <= a < b < 10 ==> keys[a] != keys[b] {
            assert(keys[0] != keys[1] && keys[0] != keys[2] && keys[0] != keys[3] && keys[0]
                != keys[4] && keys[0] != keys[5] && keys[0] != keys[6] && keys[0] != keys[7]
                && keys[0] != keys[8] && keys[0] != keys[9]);
            assert(keys[1] != keys[2] && keys[1] != keys[3] && keys[1] != keys[4] && keys[1]
                != keys[5] && keys[1] != keys[6] && keys[1] != keys[7] && keys[1] != keys[8]
                && keys[1] != keys[9]);
            assert(keys[2] != keys[3] && keys[2] != keys[4] && keys[2] != keys[5] && keys[2]
                != keys[6] && keys[2] != keys[7] && keys[2] != keys[8] && keys[2] != keys[9]);
            assert(keys[3] != keys[4] && keys[3] != keys[5] && keys[3] != keys[6] && keys[3]
                != keys[7] && keys[3] != keys[8] && keys[3] != keys[9]);
            assert(keys[4] != keys[5] && keys[4] != keys[6] && keys[4] != keys[7] && keys[4]
                != keys[8] && keys[4] != keys[9]);
            assert(keys[5] != keys[6] && keys[5] != keys[7] && keys[5] != keys[8] && keys[5]
                != keys[9]);
            assert(keys[6] != keys[7] && keys[6] != keys[8] && keys[6] != keys[9]);
            assert(keys[7] != keys[8] && keys[7] != keys[9]);
            assert(keys[8] != keys[9]);
        }
    }

    /// With unambiguous bindings a key asks for a movement exactly when it is
    /// the key of that movement, likewise for commands, and no key asks for both.
    pub proof fn lemma_unambiguous_lookup(&self, key: u32)
        requires
            self.unambiguous(),
        ensures
            forall|m: Movement| self.spec_movement(key) == Some(m) <==> key == self.key_of(m),
            forall|c: Command| self.spec_command(key) == Some(c) <==> key == self.command_key_of(c),
            !(self.spec_movement(key) is Some && self.spec_command(key) is Some),
    {
        assert forall|m: Movement| self.spec_movement(key) == Some(m) <==> key == self.key_of(
            m,
        ) by {
            if key == self.key_of(m) {
                let found = self.spec_movement(key);
                assert(found is Some);
                assert(self.key_of(found->Some_0) == key);
            }
        }
        assert forall|c: Command| self.spec_command(key) == Some(c) <==> key
            == self.command_key_of(c) by {
            if key == self.command_key_of(c) {
                let found = self.spec_command(key);
                assert(found is Some);
                assert(self.command_key_of(found->Some_0) == key);
            }
        }
        if self.spec_movement(key) is Some && self.spec_command(key) is Some {
            assert(self.key_of(self.spec_movement(key)->Some_0) == key);
            assert(self.command_key_of(self.spec_command(key)->Some_0) == key);
        }
    }
}

} // verus!
