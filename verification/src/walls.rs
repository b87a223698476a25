//! What a contact with an arena wall decides: whether friction acts, how a
//! wheel picks up spin, and when the automatic reversal of the clock fires.

use vstd::prelude::*;

verus! {

/// The four sides of the arena.
#[derive(Clone, Copy, Debug, PartialEq, Eq, Structural)]
pub enum Wall {
    Floor,
    Left,
    Right,
    Ceiling,
}

/// Which of the four walls take part in collisions.
#[derive(Clone, Copy, Debug, PartialEq, Eq, Structural)]
pub struct Walls {
    pub ceiling: bool,
    pub floor: bool,
    pub left: bool,
    pub right: bool,
}

impl Walls {
    /// Whether `wall` takes part in collisions.
    pub open spec fn has(self, wall: Wall) -> bool {
        match wall {
            Wall::Floor => self.floor,
            Wall::Left => self.left,
            Wall::Right => self.right,
            Wall::Ceiling => self.ceiling,
        }
    }

    /// An arena closed on all four sides.
    pub fn closed() -> (walls: Walls)
        ensures
            forall|wall: Wall| walls.has(wall),
    {
        Walls { ceiling: true, floor: true, left: true, right: true }
    }

    /// Whether `wall` takes part in collisions.
    pub fn enabled(&self, wall: Wall) -> (on: bool)
        ensures
            on == self.has(wall),
    {
        match wall {
            Wall::Floor => self.floor,
            Wall::Left => self.left,
            Wall::Right => self.right,
            Wall::Ceiling => self.ceiling,
        }
    }

    /// Switches one wall on or off and leaves the other three as they are.
    pub fn toggle(&mut self, wall: Wall)
        ensures
            final(self).has(wall) == !old(self).has(wall),
            forall|other: Wall| other != wall ==> final(self).has(other) == old(self).has(other),
    {
        match wall {
            Wall::Floor => {
                self.floor = !self.floor;
            },
            Wall::Left => {
                self.left = !self.left;
            },
            Wall::Right => {
                self.right = !self.right;
            },
            Wall::Ceiling => {
                self.ceiling = !self.ceiling;
            },
        }
    }
}

/// A direction in the plane of the arena.
#[derive(Clone, Copy, Debug, PartialEq, Eq, Structural)]
pub enum Axis {
    Horizontal,
    Vertical,
}

/// How a contact sets the spin of the vertex that made it.
#[derive(Clone, Copy, Debug, PartialEq, Eq, Structural)]
pub enum Spin {
    /// The spin is left alone.
    Keep,
    /// The spin becomes the velocity along the wall.
    Along,
    /// The spin becomes the negated velocity along the wall.
    Against,
}

/// What a vertex does when it touches a wall. The velocity across the wall is
/// always reflected and scaled by the bounce; the rest depends on the wall and
/// on whether the vertex is a wheel.
#[derive(Clone, Copy, Debug, PartialEq, Eq, Structural)]
pub struct Response {
    /// The velocity component that runs along the wall.
    pub tangent: Axis,
    /// Whether wall friction slows the tangential component.
    pub friction: bool,
    /// What becomes of the spin.
    pub spin: Spin,
}

/// The direction that runs along a wall.
pub open spec fn tangent_of(wall: Wall) -> Axis {
    match wall {
        Wall::Floor | Wall::Ceiling => Axis::Horizontal,
        Wall::Left | Wall::Right => Axis::Vertical,
    }
}

/// The sense in which a wheel rolls along each wall.
pub open spec fn wheel_spin_on(wall: Wall) -> Spin {
    match wall {
        Wall::Floor | Wall::Right => Spin::Along,
        Wall::Left | Wall::Ceiling => Spin::Against,
    }
}

/// What a vertex does when it touches `wall`: a plain point rubs along it
/// and keeps its spin, a wheel rolls.
pub open spec fn response_to(wall: Wall, is_wheel: bool) -> Response {
    Response {
        tangent: tangent_of(wall),
        friction: !is_wheel,
        spin: if is_wheel { wheel_spin_on(wall) } else { Spin::Keep },
    }
}

/// Decides the response to a contact. A wheel never loses tangential
/// velocity to wall friction: it rolls, and takes its spin from that velocity.
pub fn respond(wall: Wall, is_wheel: bool) -> (response: Response)
    ensures
        response == response_to(wall, is_wheel),
        is_wheel ==> !response.friction && response.spin != Spin::Keep,
{
    let tangent = match wall {
        Wall::Floor => Axis::Horizontal,
        Wall::Ceiling => Axis::Horizontal,
        Wall::Left => Axis::Vertical,
        Wall::Right => Axis::Vertical,
    };
    let spin = if !is_wheel {
        Spin::Keep
    } else {
        match wall {
            Wall::Floor => Spin::Along,
            Wall::Right => Spin::Along,
            Wall::Left => Spin::Against,
            Wall::Ceiling => Spin::Against,
        }
    };
    Response { tangent, friction: !is_wheel, spin }
}

/// Which side wall the automatic reversal last fired on, told by the
/// direction in which the body has been driving since.
#[derive(Clone, Copy, Debug, PartialEq, Eq, Structural)]
pub enum DriveMode {
    /// No side wall has been struck yet.
    Neutral,
    /// The right wall was struck last.
    DrivingLeft,
    /// The left wall was struck last.
    DrivingRight,
}

impl DriveMode {
    /// Whether a contact with `wall` reverses the clock: only a side wall does,
    /// and only if it is not the one that was struck last.
    pub open spec fn flips_on(self, wall: Wall) -> bool {
        match wall {
            Wall::Left => self != DriveMode::DrivingRight,
            Wall::Right => self != DriveMode::DrivingLeft,
            _ => false,
        }
    }

    /// The mode after a contact with `wall`.
    pub open spec fn after(self, wall: Wall) -> DriveMode {
        match wall {
            Wall::Left => DriveMode::DrivingRight,
            Wall::Right => DriveMode::DrivingLeft,
            _ => self,
        }
    }
}

/// The signed clock speed together with the automatic reversal that flips it.
#[derive(Clone, Copy, Debug, PartialEq, Eq, Structural)]
pub struct Drive {
    /// Clock units per tick; negative runs the cycle backwards.
    pub clock_speed: i32,
    /// Whether side-wall contacts reverse the clock.
    pub auto_reverse: bool,
    pub mode: DriveMode,
}

impl Drive {
    /// The speed can be negated.
    pub open spec fn wf(self) -> bool {
        self.clock_speed > i32::MIN
    }

    /// The drive after one tick in contact with `wall`.
    pub open spec fn struck(self, wall: Wall) -> Drive {
        if !self.auto_reverse {
            self
        } else if self.mode.flips_on(wall) {
            Drive {
                clock_speed: (-self.clock_speed) as i32,
                auto_reverse: true,
                mode: self.mode.after(wall),
            }
        } else {
            Drive { mode: self.mode.after(wall), ..self }
        }
    }

    /// The drive after `ticks` ticks in a row in contact with `wall`.
    pub open spec fn struck_for(self, wall: Wall, ticks: nat) -> Drive
        decreases ticks,
    {
        if ticks == 0 {
            self
        } else {
            self.struck(wall).struck_for(wall, (ticks - 1) as nat)
        }
    }

    /// A drive that has struck no wall yet.
    pub fn new(clock_speed: i32, auto_reverse: bool) -> (drive: Drive)
        ensures
            drive == (Drive { clock_speed, auto_reverse, mode: DriveMode::Neutral }),
    {
        Drive { clock_speed, auto_reverse, mode: DriveMode::Neutral }
    }

    /// Records a contact with `wall` and says whether it reversed the clock.
    pub fn strike(&mut self, wall: Wall) -> (flipped: bool)
        requires
            old(self).wf(),
        ensures
            *final(self) == old(self).struck(wall),
            final(self).wf(),
            flipped == (old(self).auto_reverse && old(self).mode.flips_on(wall)),
            flipped ==> final(self).clock_speed == -old(self).clock_speed,
            !flipped ==> final(self).clock_speed == old(self).clock_speed,
    {
        if !self.auto_reverse {
            return false;
        }
        match wall {
            Wall::Left => {
                let flipped = !matches!(self.mode, DriveMode::DrivingRight);
                if flipped {
                    self.clock_speed = -self.clock_speed;
                }
                self.mode = DriveMode::DrivingRight;
                flipped
            },
            Wall::Right => {
                let flipped = !matches!(self.mode, DriveMode::DrivingLeft);
                if flipped {
                    self.clock_speed = -self.clock_speed;
                }
                self.mode = DriveMode::DrivingLeft;
                flipped
            },
            _ => false,
        }
    }
}

/// A vertex that stays in contact with one wall reverses the clock at most
/// once, however many ticks the contact lasts: the first tick decides, and
/// the ticks after it change nothing.
pub proof fn lemma_one_flip_per_contact(drive: Drive, wall: Wall, ticks: nat)
    requires
        drive.wf(),
        ticks >= 1,
    ensures
        drive.struck_for(wall, ticks) == drive.struck(wall),
        drive.struck(wall).clock_speed == if drive.auto_reverse && drive.mode.flips_on(wall) {
            -drive.clock_speed
        } else {
            drive.clock_speed as int
        },
    decreases ticks,
{
    if ticks > 1 {
        lemma_one_flip_per_contact(drive.struck(wall), wall, (ticks - 1) as nat);
        assert(drive.struck(wall).struck(wall) == drive.struck(wall));
    } else {
        assert(drive.struck(wall).struck_for(wall, 0) == drive.struck(wall));
    }
}

/// After the left wall reversed the clock, only the right wall can reverse it
/// again, and the other way round: each crossing of the arena flips once.
pub proof fn lemma_side_walls_alternate(drive: Drive, first: Wall, second: Wall)
    requires
        drive.wf(),
        drive.auto_reverse,
        first == Wall::Left || first == Wall::Right,
    ensures
        drive.struck(first).mode.flips_on(second) <==> (second == Wall::Left || second
            == Wall::Right) && second != first,
{
}

} // verus!
