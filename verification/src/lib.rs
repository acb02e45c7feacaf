//! Control kernel for a single elevator car serving floors 0 through 5.
//!
//! The car tracks its current floor, its operating mode, and a FIFO queue of
//! pending destination floors, and advances one floor per [`Elevator::step`].
//! An external driver (a simulator, a hardware tick loop, a UI) owns the car,
//! submits requests with [`Elevator::call`], operates the doors, and reads the
//! observable state after each operation.
//!
//! The queue is deliberately a plain FIFO: requests are served in arrival
//! order, not grouped by direction or distance. This is a documented
//! limitation of the kernel, not an accident.

use vstd::prelude::*;

verus! {

/// Lowest floor the car can serve.
pub const MIN_FLOOR: i32 = 0;

/// Highest floor the car can serve.
pub const MAX_FLOOR: i32 = 5;

/// `f` is a floor the car can serve.
pub open spec fn valid_floor(f: i32) -> bool {
    MIN_FLOOR <= f && f <= MAX_FLOOR
}

/// Operating mode of the car. The variants are mutually exclusive; motion is
/// forbidden while the doors are open.
#[derive(Clone, Copy, Debug, PartialEq, Eq, Structural)]
pub enum State {
    /// Stationary, doors closed, no committed direction.
    Idle,
    /// Committed to advancing toward higher floors.
    MovingUp,
    /// Committed to advancing toward lower floors.
    MovingDown,
    /// Stationary with the doors open.
    DoorsOpen,
}

/// Why an operation was rejected. Every error is tied to a single
/// precondition on the caller's request or on the car's current mode.
#[derive(Clone, Copy, Debug, PartialEq, Eq, Structural)]
pub enum ElevatorError {
    /// The requested floor lies outside `[MIN_FLOOR, MAX_FLOOR]`.
    InvalidFloor(i32),
    /// The doors are already open.
    DoorsAlreadyOpen,
    /// The doors are already closed.
    DoorsAlreadyClosed,
    /// The doors may not open while the car is moving.
    CannotOpenWhileMoving,
    /// The car may not move while the doors are open.
    CannotMoveDoorsOpen,
    /// There is no pending destination to move toward.
    EmptyQueue,
}

/// Mathematical snapshot of a car: its mode, its floor, and the pending
/// destinations as a sequence, head first. The contracts of every operation
/// are stated over this view.
#[verifier::ext_equal]
pub struct ElevatorView {
    pub state: State,
    pub floor: i32,
    pub queue: Seq<i32>,
}

impl ElevatorView {
    /// Well-formedness. Construction establishes it and every operation
    /// preserves it: the car stands on a valid floor, every queued
    /// destination is a valid floor, no destination is queued twice, and the
    /// head of the queue is never the floor the car already stands on.
    pub open spec fn wf(self) -> bool {
        &&& valid_floor(self.floor)
        &&& forall|i: int| 0 <= i < self.queue.len() ==> valid_floor(#[trigger] self.queue[i])
        &&& forall|i: int, j: int|
            #![trigger self.queue[i], self.queue[j]]
            0 <= i < j < self.queue.len() ==> self.queue[i] != self.queue[j]
        &&& self.queue.len() > 0 ==> self.queue[0] != self.floor
    }

    /// The car after a request for `floor`. An out-of-range floor, a request
    /// for the current floor, and a re-request of a queued floor all leave
    /// the car unchanged. Otherwise the floor joins the tail of the queue,
    /// and an idle car commits to the direction of the new request; a car
    /// already moving, or standing with open doors, keeps its mode.
    pub open spec fn call_next(self, floor: i32) -> ElevatorView {
        if !valid_floor(floor) || floor == self.floor || self.queue.contains(floor) {
            self
        } else {
            ElevatorView {
                state: if self.state is Idle {
                    if floor < self.floor {
                        State::MovingDown
                    } else {
                        State::MovingUp
                    }
                } else {
                    self.state
                },
                floor: self.floor,
                queue: self.queue.push(floor),
            }
        }
    }

    /// What a request for `floor` reports: rejected exactly when the floor
    /// is out of range.
    pub open spec fn call_result(self, floor: i32) -> Result<(), ElevatorError> {
        if valid_floor(floor) {
            Ok(())
        } else {
            Err(ElevatorError::InvalidFloor(floor))
        }
    }

    /// The car after one step. Open doors forbid motion and change nothing.
    /// An empty queue forces the mode back to `Idle`, correcting a stale
    /// moving mode. Otherwise the car moves one floor toward the head of the
    /// queue; on arrival the head is consumed and the doors open,
    /// unconditionally, whatever the direction of travel was.
    pub open spec fn step_next(self) -> ElevatorView {
        if self.state is DoorsOpen {
            self
        } else if self.queue.len() == 0 {
            ElevatorView { state: State::Idle, floor: self.floor, queue: self.queue }
        } else {
            let destination: i32 = self.queue[0];
            let moved: i32 = if self.floor < destination {
                (self.floor + 1) as i32
            } else if self.floor > destination {
                (self.floor - 1) as i32
            } else {
                self.floor
            };
            if moved == destination {
                ElevatorView { state: State::DoorsOpen, floor: moved, queue: self.queue.drop_first() }
            } else {
                ElevatorView { state: self.state, floor: moved, queue: self.queue }
            }
        }
    }

    /// What one step reports: rejected while the doors are open or when
    /// nothing is queued, successful otherwise.
    pub open spec fn step_result(self) -> Result<(), ElevatorError> {
        if self.state is DoorsOpen {
            Err(ElevatorError::CannotMoveDoorsOpen)
        } else if self.queue.len() == 0 {
            Err(ElevatorError::EmptyQueue)
        } else {
            Ok(())
        }
    }

    /// The car after opening the doors: only an idle car opens them; a
    /// moving car or one with open doors is unchanged.
    pub open spec fn open_doors_next(self) -> ElevatorView {
        if self.state is Idle {
            ElevatorView { state: State::DoorsOpen, floor: self.floor, queue: self.queue }
        } else {
            self
        }
    }

    /// What opening the doors reports: each rejected mode has its own error.
    pub open spec fn open_doors_result(self) -> Result<(), ElevatorError> {
        match self.state {
            State::Idle => Ok(()),
            State::MovingUp => Err(ElevatorError::CannotOpenWhileMoving),
            State::MovingDown => Err(ElevatorError::CannotOpenWhileMoving),
            State::DoorsOpen => Err(ElevatorError::DoorsAlreadyOpen),
        }
    }

    /// The car after closing the doors: with nothing queued it falls back to
    /// `Idle`; otherwise it commits toward the head of the queue. A head
    /// above the current floor means up; any other head, the current floor
    /// included, means down.
    pub open spec fn close_doors_next(self) -> ElevatorView {
        if !(self.state is DoorsOpen) {
            self
        } else if self.queue.len() == 0 {
            ElevatorView { state: State::Idle, floor: self.floor, queue: self.queue }
        } else if self.queue[0] > self.floor {
            ElevatorView { state: State::MovingUp, floor: self.floor, queue: self.queue }
        } else {
            ElevatorView { state: State::MovingDown, floor: self.floor, queue: self.queue }
        }
    }

    /// What closing the doors reports: rejected exactly when they are not
    /// open.
    pub open spec fn close_doors_result(self) -> Result<(), ElevatorError> {
        if self.state is DoorsOpen {
            Ok(())
        } else {
            Err(ElevatorError::DoorsAlreadyClosed)
        }
    }
}

/// The elevator car. The driver owns exactly one instance and mutates it
/// through the methods below; the fields are readable directly, and the
/// accessors expose the same data.
#[derive(Clone, Debug, PartialEq)]
pub struct Elevator {
    /// Current operating mode.
    pub state: State,
    /// Current physical floor; always within `[MIN_FLOOR, MAX_FLOOR]`.
    pub floor: i32,
    /// Pending destination floors in arrival order, head first.
    pub queue: Vec<i32>,
}

impl View for Elevator {
    type V = ElevatorView;

    open spec fn view(&self) -> ElevatorView {
        ElevatorView { state: self.state, floor: self.floor, queue: self.queue@ }
    }
}

impl Elevator {
    /// Creates a car standing idle at `floor` with nothing queued.
    /// Succeeds exactly when `floor` is within range.
    pub fn new(floor: i32) -> (r: Result<Self, ElevatorError>)
        ensures
            r is Ok <==> valid_floor(floor),
            r matches Ok(e) ==> e@.state is Idle && e@.floor == floor
                && e@.queue == Seq::<i32>::empty() && e@.wf(),
            r matches Err(err) ==> err == ElevatorError::InvalidFloor(floor),
    {
        if floor < MIN_FLOOR || floor > MAX_FLOOR {
            return Err(ElevatorError::InvalidFloor(floor));
        }
        Ok(Self { state: State::Idle, floor, queue: Vec::new() })
    }

    /// True when `floor` is already queued.
    fn queue_contains(&self, floor: i32) -> (r: bool)
        ensures
            r == self@.queue.contains(floor),
    {
        let mut i: usize = 0;
        while i < self.queue.len()
            invariant
                i <= self.queue.len(),
                forall|j: int| 0 <= j < i ==> self.queue@[j] != floor,
            decreases self.queue.len() - i,
        {
            if self.queue[i] == floor {
                return true;
            }
            i += 1;
        }
        false
    }

    /// Requests that the car eventually visit `floor`. Fails exactly when
    /// `floor` is out of range. A request for the current floor or for a
    /// floor already queued succeeds and changes nothing; any other valid
    /// floor joins the tail of the queue, and an idle car commits to the
    /// direction of the request.
    pub fn call(&mut self, floor: i32) -> (r: Result<(), ElevatorError>)
        requires
            old(self)@.wf(),
        ensures
            final(self)@ == old(self)@.call_next(floor),
            r == old(self)@.call_result(floor),
            final(self)@.wf(),
            r is Ok <==> valid_floor(floor),
            !valid_floor(floor) ==> r == Err::<(), ElevatorError>(ElevatorError::InvalidFloor(floor))
                && final(self)@ == old(self)@,
            final(self).floor == old(self).floor,
    {
        if floor < MIN_FLOOR || floor > MAX_FLOOR {
            return Err(ElevatorError::InvalidFloor(floor));
        }
        if floor == self.floor || self.queue_contains(floor) {
            return Ok(());
        }
        if self.floor > floor {
            self.queue.push(floor);
            if self.state == State::Idle {
                self.state = State::MovingDown;
            }
        } else {
            self.queue.push(floor);
            if self.state == State::Idle {
                self.state = State::MovingUp;
            }
        }
        Ok(())
    }

    /// Advances the car one floor toward the head of the queue. Fails
    /// without moving while the doors are open; fails on an empty queue and,
    /// as a side effect of that failure, forces the mode back to `Idle`. On
    /// success the floor changes by exactly one, and arrival at the head
    /// consumes it and opens the doors, whatever the mode was.
    pub fn step(&mut self) -> (r: Result<(), ElevatorError>)
        requires
            old(self)@.wf(),
        ensures
            final(self)@ == old(self)@.step_next(),
            r == old(self)@.step_result(),
            final(self)@.wf(),
            r is Ok <==> !(old(self).state is DoorsOpen) && old(self)@.queue.len() > 0,
            old(self).state is DoorsOpen ==> r == Err::<(), ElevatorError>(ElevatorError::CannotMoveDoorsOpen)
                && final(self)@ == old(self)@,
            !(old(self).state is DoorsOpen) && old(self)@.queue.len() == 0 ==> r
                == Err::<(), ElevatorError>(ElevatorError::EmptyQueue) && final(self).state is Idle
                && final(self).floor == old(self).floor && final(self)@.queue == old(self)@.queue,
            r is Ok ==> final(self).floor - old(self).floor == 1
                || old(self).floor - final(self).floor == 1,
            r is Ok && final(self).floor == old(self)@.queue[0] ==> final(self).state is DoorsOpen
                && final(self)@.queue == old(self)@.queue.drop_first(),
            r is Ok && final(self).floor != old(self)@.queue[0] ==> final(self).state
                == old(self).state && final(self)@.queue == old(self)@.queue,
    {
        if self.state == State::DoorsOpen {
            return Err(ElevatorError::CannotMoveDoorsOpen);
        }
        if self.queue.len() == 0 {
            self.state = State::Idle;
            return Err(ElevatorError::EmptyQueue);
        }
        let destination: i32 = self.queue[0];
        if self.floor < destination {
            self.floor = self.floor + 1;
        } else if self.floor > destination {
            self.floor = self.floor - 1;
        }
        if self.floor == destination {
            self.state = State::DoorsOpen;
            self.queue.remove(0);
        }
        Ok(())
    }

    /// Opens the doors. Only an idle car may open them: open doors and
    /// motion each have their own error, and a failed call changes nothing.
    pub fn open_doors(&mut self) -> (r: Result<(), ElevatorError>)
        requires
            old(self)@.wf(),
        ensures
            final(self)@ == old(self)@.open_doors_next(),
            r == old(self)@.open_doors_result(),
            final(self)@.wf(),
            r is Ok <==> old(self).state is Idle,
            r is Ok ==> final(self).state is DoorsOpen,
            r is Err ==> final(self)@ == old(self)@,
            final(self).floor == old(self).floor && final(self)@.queue == old(self)@.queue,
    {
        if self.state == State::DoorsOpen {
            return Err(ElevatorError::DoorsAlreadyOpen);
        }
        if self.state == State::MovingUp || self.state == State::MovingDown {
            return Err(ElevatorError::CannotOpenWhileMoving);
        }
        self.state = State::DoorsOpen;
        Ok(())
    }

    /// Closes the doors; fails exactly when they are not open. With nothing
    /// queued the car falls back to `Idle`; otherwise it commits toward the
    /// head of the queue — up when the head is above the current floor,
    /// down otherwise.
    pub fn close_doors(&mut self) -> (r: Result<(), ElevatorError>)
        requires
            old(self)@.wf(),
        ensures
            final(self)@ == old(self)@.close_doors_next(),
            r == old(self)@.close_doors_result(),
            final(self)@.wf(),
            r is Ok <==> old(self).state is DoorsOpen,
            r is Err ==> r == Err::<(), ElevatorError>(ElevatorError::DoorsAlreadyClosed)
                && final(self)@ == old(self)@,
            r is Ok && old(self)@.queue.len() == 0 ==> final(self).state is Idle,
            r is Ok && old(self)@.queue.len() > 0 ==> final(self).state == (if old(self)@.queue[0]
                > old(self).floor {
                State::MovingUp
            } else {
                State::MovingDown
            }),
            final(self).floor == old(self).floor && final(self)@.queue == old(self)@.queue,
    {
        if self.state != State::DoorsOpen {
            return Err(ElevatorError::DoorsAlreadyClosed);
        }
        if self.queue.len() == 0 {
            self.state = State::Idle;
        } else {
            let next: i32 = self.queue[0];
            if next > self.floor {
                self.state = State::MovingUp;
            } else {
                self.state = State::MovingDown;
            }
        }
        Ok(())
    }

    /// Current operating mode.
    pub fn state(&self) -> (r: State)
        ensures
            r == self@.state,
    {
        self.state
    }

    /// Current physical floor.
    pub fn floor(&self) -> (r: i32)
        ensures
            r == self@.floor,
    {
        self.floor
    }

    /// The pending destinations in arrival order, head first.
    pub fn queue(&self) -> (r: &Vec<i32>)
        ensures
            r@ == self@.queue,
    {
        &self.queue
    }

    /// A full snapshot of the car: same mode, floor and queue.
    pub fn status(&self) -> (r: Elevator)
        ensures
            r@ == self@,
    {
        let queue = self.queue.clone();
        Elevator { state: self.state, floor: self.floor, queue }
    }
}

/// Law: a request repeated back to back is absorbed. Once `call` has queued
/// `floor` (or left the car unchanged), an immediate second request for the
/// same floor — one not standing at the car's current floor — changes
/// nothing more and reports the same outcome.
pub proof fn lemma_call_idempotent(v: ElevatorView, floor: i32)
    requires
        floor != v.floor,
    ensures
        v.call_next(floor).call_next(floor) == v.call_next(floor),
        v.call_next(floor).call_result(floor) == v.call_result(floor),
{
    if valid_floor(floor) && !v.queue.contains(floor) {
        let pushed = v.call_next(floor).queue;
        assert(pushed[v.queue.len() as int] == floor);
        assert(pushed.contains(floor));
    }
}

} // verus!
