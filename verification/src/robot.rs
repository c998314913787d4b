use vstd::prelude::*;

use crate::order::Order;

verus! {

/// A step on the grid, as `(dx, dy)`.
pub type Orientation = (i64, i64);

/// A cell of the grid, as `(x, y)`.
pub type Position = (i64, i64);

/// A pair of machine integers, read as a pair of mathematical integers.
pub open spec fn ints(pair: (i64, i64)) -> (int, int) {
    (pair.0 as int, pair.1 as int)
}

/// Whether a step is one cell long and points north, east, south or west.
pub open spec fn is_compass(step: (int, int)) -> bool {
    ||| step == (0int, 1int)
    ||| step == (1int, 0int)
    ||| step == (0int, -1int)
    ||| step == (-1int, 0int)
}

/// A robot as mathematics: the cell it stands on and the step it would take next.
///
/// The grid has no edge here, so every order can be applied to every state.
pub struct RobotState {
    pub position: (int, int),
    pub orientation: (int, int),
}

impl RobotState {
    /// The state of a robot that nobody has placed: on the origin, facing north.
    pub open spec fn start() -> RobotState {
        RobotState { position: (0, 0), orientation: (0, 1) }
    }

    /// Whether the robot faces one of the four compass directions.
    pub open spec fn faces_compass(self) -> bool {
        is_compass(self.orientation)
    }

    /// One step ahead: the orientation is added to the position and stays as it is.
    pub open spec fn move_forward(self) -> RobotState {
        RobotState {
            position: (
                self.position.0 + self.orientation.0,
                self.position.1 + self.orientation.1,
            ),
            orientation: self.orientation,
        }
    }

    /// A quarter turn clockwise: `(dx, dy)` becomes `(dy, -dx)`; the position stays.
    pub open spec fn rotate_right(self) -> RobotState {
        RobotState {
            position: self.position,
            orientation: (self.orientation.1, -self.orientation.0),
        }
    }

    /// A quarter turn anticlockwise: `(dx, dy)` becomes `(-dy, dx)`; the position stays.
    pub open spec fn rotate_left(self) -> RobotState {
        RobotState {
            position: self.position,
            orientation: (-self.orientation.1, self.orientation.0),
        }
    }

    /// The state after one order.
    pub open spec fn apply(self, order: Order) -> RobotState {
        match order {
            Order::MoveForward => self.move_forward(),
            Order::TurnLeft => self.rotate_left(),
            Order::TurnRight => self.rotate_right(),
        }
    }

    /// Whether both coordinates of the position can be held in an `i64`.
    pub open spec fn in_reach(self) -> bool {
        &&& i64::MIN <= self.position.0 <= i64::MAX
        &&& i64::MIN <= self.position.1 <= i64::MAX
    }

    /// Whether a machine robot in this state can carry the order out: a turn always, a step
    /// only where the cell ahead is still in reach.
    pub open spec fn accepts(self, order: Order) -> bool {
        order == Order::MoveForward ==> self.move_forward().in_reach()
    }

    /// Four quarter turns clockwise bring the robot back to where it was.
    pub proof fn lemma_rotate_right_four_times(self)
        ensures
            self.rotate_right().rotate_right().rotate_right().rotate_right() == self,
    {
    }

    /// Four quarter turns anticlockwise bring the robot back to where it was.
    pub proof fn lemma_rotate_left_four_times(self)
        ensures
            self.rotate_left().rotate_left().rotate_left().rotate_left() == self,
    {
    }

    /// A quarter turn one way and then the other changes nothing, whichever comes first.
    pub proof fn lemma_opposite_turns_cancel(self)
        ensures
            self.rotate_left().rotate_right() == self,
            self.rotate_right().rotate_left() == self,
    {
    }

    /// A step ahead adds the orientation to the position, coordinate by coordinate, and leaves
    /// the orientation alone.
    pub proof fn lemma_move_forward_adds_orientation(self)
        ensures
            self.move_forward().position.0 == self.position.0 + self.orientation.0,
            self.move_forward().position.1 == self.position.1 + self.orientation.1,
            self.move_forward().orientation == self.orientation,
    {
    }

    /// No order can turn a robot away from the compass, and only a step moves it.
    pub proof fn lemma_apply_keeps_compass(self, order: Order)
        requires
            self.faces_compass(),
        ensures
            self.apply(order).faces_compass(),
            order != Order::MoveForward ==> self.apply(order).position == self.position,
    {
    }
}

/// A robot on the grid. It stands on a cell and faces north, east, south or west, always.
///
/// Orders are its only way to change: a step moves it, a turn makes it face elsewhere.
#[derive(Debug, PartialEq, Eq)]
pub struct Robot {
    position: Position,
    orientation: Orientation,
}

impl View for Robot {
    type V = RobotState;

    closed spec fn view(&self) -> RobotState {
        RobotState { position: ints(self.position), orientation: ints(self.orientation) }
    }
}

impl Robot {
    /// Holds of every robot there is: it faces a compass direction.
    #[verifier::type_invariant]
    pub open spec fn faces_compass(self) -> bool {
        self@.faces_compass()
    }

    /// Reading is repeatable: a robot's state fixes what `get_position` and `get_orientation`
    /// return, so two readings of the same robot, with no order in between, are equal.
    pub proof fn lemma_readings_agree(self, first: (i64, i64), second: (i64, i64))
        requires
            (ints(first) == self@.position && ints(second) == self@.position) || (ints(first)
                == self@.orientation && ints(second) == self@.orientation),
        ensures
            first == second,
    {
    }

    /// A robot on the given cell, facing the given way.
    pub fn new(position: Position, orientation: Orientation) -> (robot: Self)
        requires
            is_compass(ints(orientation)),
        ensures
            robot@.position == ints(position),
            robot@.orientation == ints(orientation),
    {
        Self { position, orientation }
    }

    /// A robot on the given cell, facing the given way, where each is given. A robot that is
    /// given no cell stands on the origin; one that is given no orientation faces north.
    pub fn initialize(
        maybe_position: Option<Position>,
        maybe_orientation: Option<Orientation>,
    ) -> (robot: Self)
        requires
            maybe_orientation matches Some(orientation) ==> is_compass(ints(orientation)),
        ensures
            robot@.position == match maybe_position {
                Some(position) => ints(position),
                None => RobotState::start().position,
            },
            robot@.orientation == match maybe_orientation {
                Some(orientation) => ints(orientation),
                None => RobotState::start().orientation,
            },
    {
        let position = maybe_position.unwrap_or((0, 0));
        let orientation = maybe_orientation.unwrap_or((0, 1));

        Self::new(position, orientation)
    }

    /// Takes one step the way the robot faces.
    pub fn move_forward(&mut self) -> (robot: &mut Self)
        requires
            old(self)@.move_forward().in_reach(),
        ensures
            robot@ == old(self)@.move_forward(),
            robot@.position.0 == old(self)@.position.0 + old(self)@.orientation.0,
            robot@.position.1 == old(self)@.position.1 + old(self)@.orientation.1,
            robot@.orientation == old(self)@.orientation,
            *final(self) == *final(robot),
    {
        proof {
            use_type_invariant(&*self);
        }
        self.position.0 = self.position.0 + self.orientation.0;
        self.position.1 = self.position.1 + self.orientation.1;

        self
    }

    /// Turns the robot a quarter turn clockwise, on the spot.
    pub fn rotate_right(&mut self) -> (robot: &mut Self)
        ensures
            robot@ == old(self)@.rotate_right(),
            *final(self) == *final(robot),
    {
        proof {
            use_type_invariant(&*self);
        }
        self.orientation = (self.orientation.1, -self.orientation.0);

        self
    }

    /// Turns the robot a quarter turn anticlockwise, on the spot.
    pub fn rotate_left(&mut self) -> (robot: &mut Self)
        ensures
            robot@ == old(self)@.rotate_left(),
            *final(self) == *final(robot),
    {
        proof {
            use_type_invariant(&*self);
        }
        self.orientation = (-self.orientation.1, self.orientation.0);

        self
    }

    /// Whether the robot can carry the order out without leaving the cells that an `i64`
    /// can number.
    pub fn can_do(&self, order: Order) -> (possible: bool)
        ensures
            possible == self@.accepts(order),
    {
        match order {
            Order::MoveForward => {
                self.position.0.checked_add(self.orientation.0).is_some()
                    && self.position.1.checked_add(self.orientation.1).is_some()
            },
            Order::TurnLeft => true,
            Order::TurnRight => true,
        }
    }

    /// Carries one order out. The robot comes back, so that orders can be chained.
    pub fn please_do(&mut self, order: Order) -> (robot: &mut Self)
        requires
            old(self)@.accepts(order),
        ensures
            robot@ == old(self)@.apply(order),
            *final(self) == *final(robot),
    {
        match order {
            Order::MoveForward => self.move_forward(),
            Order::TurnLeft => self.rotate_left(),
            Order::TurnRight => self.rotate_right(),
        }
    }

    /// The cell the robot stands on. Asking changes nothing: the answer is the same until the
    /// next order.
    pub fn get_position(&self) -> (position: &Position)
        ensures
            ints(*position) == self@.position,
    {
        &self.position
    }

    /// The way the robot faces. Asking changes nothing: the answer is the same until the next
    /// order.
    pub fn get_orientation(&self) -> (orientation: &Orientation)
        ensures
            ints(*orientation) == self@.orientation,
            is_compass(ints(*orientation)),
    {
        proof {
            use_type_invariant(self);
        }
        &self.orientation
    }
}

impl Default for Robot {
    /// A robot on the origin, facing north.
    fn default() -> (robot: Self)
        ensures
            robot@ == RobotState::start(),
    {
        Self::initialize(None, None)
    }
}

} // verus!
