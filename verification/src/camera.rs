//! The discrete side of the free camera: which movement keys are held, and
//! what they ask of one simulation tick.
//!
//! A tick sums one signed step along a basis vector of the camera for every
//! held movement key, in a fixed order, and doubles the result while the
//! boost key is held. Which steps, in which order and with which factor is
//! decided here; the vector arithmetic is the caller's.

use crate::controls::KeyBindings;
use vstd::prelude::*;

verus! {

/// Simulation ticks per second.
pub const TICKS_PER_SECOND: u32 = 60;

/// What a position gains per unit of velocity and squared tick length.
pub const MOVEMENT_SPEED: u32 = 32;

/// What a held key asks of the camera.
#[derive(Clone, Copy, Debug, PartialEq, Eq, Structural)]
pub enum Movement {
    Forward,
    Backward,
    Left,
    Right,
    Up,
    Down,
    Boost,
}

/// A basis vector of the camera.
#[derive(Clone, Copy, Debug, PartialEq, Eq, Structural)]
pub enum Axis {
    Forward,
    Right,
    Up,
}

/// One step of a tick's acceleration: a tick length along `axis`, or against it.
#[derive(Clone, Copy, Debug, PartialEq, Eq, Structural)]
pub struct Thrust {
    pub axis: Axis,
    pub negative: bool,
}

/// The movement keys that are held.
#[derive(Clone, Copy, Debug, PartialEq, Eq, Structural)]
pub struct Intents {
    forward: bool,
    backward: bool,
    left: bool,
    right: bool,
    up: bool,
    down: bool,
    boost: bool,
}

/// The step that a movement asks for; boost asks for none.
pub open spec fn thrust_of(m: Movement) -> Option<Thrust> {
    match m {
        Movement::Forward => Some(Thrust { axis: Axis::Forward, negative: false }),
        Movement::Backward => Some(Thrust { axis: Axis::Forward, negative: true }),
        Movement::Left => Some(Thrust { axis: Axis::Right, negative: true }),
        Movement::Right => Some(Thrust { axis: Axis::Right, negative: false }),
        Movement::Up => Some(Thrust { axis: Axis::Up, negative: false }),
        Movement::Down => Some(Thrust { axis: Axis::Up, negative: true }),
        Movement::Boost => None,
    }
}

/// The steps of `held` that `m` contributes.
pub open spec fn thrust_if_held(held: Set<Movement>, m: Movement) -> Seq<Thrust> {
    if held.contains(m) && thrust_of(m) is Some {
        seq![thrust_of(m)->Some_0]
    } else {
        Seq::empty()
    }
}

/// The steps that a tick sums while `held` is held, in the order in which it sums them.
pub open spec fn thrusts_of(held: Set<Movement>) -> Seq<Thrust> {
    thrust_if_held(held, Movement::Forward) + thrust_if_held(held, Movement::Backward)
        + thrust_if_held(held, Movement::Left) + thrust_if_held(held, Movement::Right)
        + thrust_if_held(held, Movement::Up) + thrust_if_held(held, Movement::Down)
}

/// The factor on a tick's acceleration while `held` is held.
pub open spec fn boost_factor_of(held: Set<Movement>) -> u8 {
    if held.contains(Movement::Boost) {
        2
    } else {
        1
    }
}

/// The steps of `terms` along `axis`, those against it counted negative.
pub open spec fn net_thrust(terms: Seq<Thrust>, axis: Axis) -> int
    decreases terms.len(),
{
    if terms.len() == 0 {
        0
    } else {
        net_thrust(terms.drop_last(), axis) + if terms.last().axis != axis {
            0int
        } else if terms.last().negative {
            -1int
        } else {
            1int
        }
    }
}

impl View for Intents {
    type V = Set<Movement>;

    closed spec fn view(&self) -> Set<Movement> {
        Set::new(|m: Movement| self.holds(m))
    }
}

impl Intents {
    /// Whether `m` is held.
    pub closed spec fn holds(&self, m: Movement) -> bool {
        match m {
            Movement::Forward => self.forward,
            Movement::Backward => self.backward,
            Movement::Left => self.left,
            Movement::Right => self.right,
            Movement::Up => self.up,
            Movement::Down => self.down,
            Movement::Boost => self.boost,
        }
    }

    /// The view holds exactly what is held.
    pub proof fn lemma_view_holds(&self, m: Movement)
        ensures
            self@.contains(m) == self.holds(m),
    {
    }

    /// No key held.
    pub fn new() -> (r: Intents)
        ensures
            r@ == Set::<Movement>::empty(),
    {
        let r = Intents {
            forward: false,
            backward: false,
            left: false,
            right: false,
            up: false,
            down: false,
            boost: false,
        };
        assert(r@ =~= Set::<Movement>::empty());
        r
    }

    /// Whether `m` is held.
    pub fn is_held(&self, m: Movement) -> (r: bool)
        ensures
            r == self@.contains(m),
    {
        match m {
            Movement::Forward => self.forward,
            Movement::Backward => self.backward,
            Movement::Left => self.left,
            Movement::Right => self.right,
            Movement::Up => self.up,
            Movement::Down => self.down,
            Movement::Boost => self.boost,
        }
    }

    /// Records that the key of `m` went down or up.
    pub fn set(&mut self, m: Movement, pressed: bool)
        ensures
            final(self)@ == if pressed {
                old(self)@.insert(m)
            } else {
                old(self)@.remove(m)
            },
    {
        match m {
            Movement::Forward => {
                self.forward = pressed;
            },
            Movement::Backward => {
                self.backward = pressed;
            },
            Movement::Left => {
                self.left = pressed;
            },
            Movement::Right => {
                self.right = pressed;
            },
            Movement::Up => {
                self.up = pressed;
            },
            Movement::Down => {
                self.down = pressed;
            },
            Movement::Boost => {
                self.boost = pressed;
            },
        }
        assert(self@ =~= if pressed {
            old(self)@.insert(m)
        } else {
            old(self)@.remove(m)
        });
    }

    /// Takes a key event: a key bound to a movement sets or clears it, any
    /// other key, or none, changes nothing.
    pub fn handle_keyboard(&mut self, bindings: &KeyBindings, key: Option<u32>, pressed: bool)
        ensures
            final(self)@ == match key {
                Some(k) => match bindings.spec_movement(k) {
                    Some(m) => if pressed {
                        old(self)@.insert(m)
                    } else {
                        old(self)@.remove(m)
                    },
                    None => old(self)@,
                },
                None => old(self)@,
            },
    {
        if let Some(k) = key {
            if let Some(m) = bindings.movement(k) {
                self.set(m, pressed);
            }
        }
    }

    /// The steps that the next tick sums, in the order in which it sums them.
    pub fn thrusts(&self) -> (terms: Vec<Thrust>)
        ensures
            terms@ == thrusts_of(self@),
    {
        let mut terms: Vec<Thrust> = Vec::new();
        if self.forward {
            terms.push(Thrust { axis: Axis::Forward, negative: false });
        }
        if self.backward {
            terms.push(Thrust { axis: Axis::Forward, negative: true });
        }
        if self.left {
            terms.push(Thrust { axis: Axis::Right, negative: true });
        }
        if self.right {
            terms.push(Thrust { axis: Axis::Right, negative: false });
        }
        if self.up {
            terms.push(Thrust { axis: Axis::Up, negative: false });
        }
        if self.down {
            terms.push(Thrust { axis: Axis::Up, negative: true });
        }
        assert(terms@ =~= thrusts_of(self@));
        terms
    }

    /// The factor on the next tick's acceleration: 2 while boost is held, else 1.
    pub fn boost_factor(&self) -> (factor: u8)
        ensures
            factor == boost_factor_of(self@),
    {
        if self.boost {
            2
        } else {
            1
        }
    }
}

/// One if `m` is held, else zero.
pub open spec fn held_count(held: Set<Movement>, m: Movement) -> int {
    if held.contains(m) {
        1
    } else {
        0
    }
}

/// The net of two lists of steps one behind the other is the sum of their nets.
pub proof fn lemma_net_thrust_add(a: Seq<Thrust>, b: Seq<Thrust>, axis: Axis)
    ensures
        net_thrust(a + b, axis) == net_thrust(a, axis) + net_thrust(b, axis),
    decreases b.len(),
{
    if b.len() == 0 {
        assert(a + b =~= a);
    } else {
        assert((a + b).drop_last() =~= a + b.drop_last());
        lemma_net_thrust_add(a, b.drop_last(), axis);
    }
}

/// The net of what one movement contributes: one step along its own axis if
/// it is held, nothing otherwise.
proof fn lemma_net_thrust_if_held(held: Set<Movement>, m: Movement, axis: Axis)
    ensures
        net_thrust(thrust_if_held(held, m), axis) == match thrust_of(m) {
            Some(t) => if held.contains(m) && t.axis == axis {
                if t.negative {
                    -1int
                } else {
                    1int
                }
            } else {
                0int
            },
            None => 0int,
        },
{
    let s = thrust_if_held(held, m);
    if s.len() > 0 {
        assert(s.drop_last().len() == 0);
        assert(net_thrust(s.drop_last(), axis) == 0);
    }
}

/// Along each axis the steps of a tick add up to the key along it minus the
/// key against it: opposite keys cancel, and no key reaches another axis.
pub proof fn lemma_net_thrust_of(held: Set<Movement>)
    ensures
        net_thrust(thrusts_of(held), Axis::Forward) == held_count(held, Movement::Forward)
            - held_count(held, Movement::Backward),
        net_thrust(thrusts_of(held), Axis::Right) == held_count(held, Movement::Right)
            - held_count(held, Movement::Left),
        net_thrust(thrusts_of(held), Axis::Up) == held_count(held, Movement::Up) - held_count(
            held,
            Movement::Down,
        ),
{
    let part = |m: Movement| thrust_if_held(held, m);
    let a1 = part(Movement::Forward);
    let a2 = a1 + part(Movement::Backward);
    let a3 = a2 + part(Movement::Left);
    let a4 = a3 + part(Movement::Right);
    let a5 = a4 + part(Movement::Up);
    assert forall|axis: Axis|
        net_thrust(thrusts_of(held), axis) == net_thrust(part(Movement::Forward), axis)
            + net_thrust(part(Movement::Backward), axis) + net_thrust(part(Movement::Left), axis)
            + net_thrust(part(Movement::Right), axis) + net_thrust(part(Movement::Up), axis)
            + net_thrust(part(Movement::Down), axis) by {
        lemma_net_thrust_add(a1, part(Movement::Backward), axis);
        lemma_net_thrust_add(a2, part(Movement::Left), axis);
        lemma_net_thrust_add(a3, part(Movement::Right), axis);
        lemma_net_thrust_add(a4, part(Movement::Up), axis);
        lemma_net_thrust_add(a5, part(Movement::Down), axis);
    }
    assert forall|m: Movement, axis: Axis|
        #[trigger] net_thrust(thrust_if_held(held, m), axis) == match thrust_of(m) {
            Some(t) => if held.contains(m) && t.axis == axis {
                if t.negative {
                    -1int
                } else {
                    1int
                }
            } else {
                0int
            },
            None => 0int,
        } by {
        lemma_net_thrust_if_held(held, m, axis);
    }
}

/// Holding boost leaves the steps of a tick as they are and doubles their factor.
pub proof fn lemma_boost_doubles(held: Set<Movement>)
    ensures
        thrusts_of(held.insert(Movement::Boost)) == thrusts_of(held.remove(Movement::Boost)),
        boost_factor_of(held.insert(Movement::Boost)) == 2 * boost_factor_of(
            held.remove(Movement::Boost),
        ),
{
    assert(thrusts_of(held.insert(Movement::Boost)) =~= thrusts_of(held.remove(Movement::Boost)));
}

} // verus!
