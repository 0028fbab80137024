//! The close protocol of a handle.
use vstd::prelude::*;

verus! {

/// Serializes close without making an in-progress close look completed.
#[derive(Debug, Clone, Copy, PartialEq, Eq, Structural)]
pub enum CloseState {
    /// The handle works.
    Open,
    /// One caller closes the handle, and others wait for it.
    Closing { waiters: usize },
    /// The handle is closed.
    Closed,
}

/// What a caller of close does.
#[derive(Debug, Clone, Copy, PartialEq, Eq, Structural)]
pub enum CloseTurn {
    /// Perform the close.
    Perform,
    /// Wait for the caller that performs it, then ask again.
    Wait,
    /// Return: the handle is closed.
    Done,
}

impl CloseState {
    /// What a caller of close does in this state.
    pub open spec fn turn(self) -> CloseTurn {
        match self {
            CloseState::Open => CloseTurn::Perform,
            CloseState::Closing { .. } => CloseTurn::Wait,
            CloseState::Closed => CloseTurn::Done,
        }
    }

    /// The state after a caller has asked.
    pub open spec fn asked(self) -> CloseState {
        match self {
            CloseState::Open => CloseState::Closing { waiters: 0 },
            CloseState::Closing { waiters } => CloseState::Closing {
                waiters: (waiters + 1) as usize,
            },
            CloseState::Closed => CloseState::Closed,
        }
    }

    /// The state after the close that one caller performs.
    pub open spec fn finished(self, succeeded: bool) -> CloseState {
        if succeeded {
            CloseState::Closed
        } else {
            CloseState::Open
        }
    }

    /// Whether one more caller can be counted.
    pub open spec fn has_room(self) -> bool {
        self matches CloseState::Closing { waiters } ==> waiters < usize::MAX
    }

    /// Takes a caller of close in.
    pub fn ask(&mut self) -> (turn: CloseTurn)
        requires
            old(self).has_room(),
        ensures
            turn == old(self).turn(),
            *final(self) == old(self).asked(),
    {
        match *self {
            CloseState::Open => {
                *self = CloseState::Closing { waiters: 0 };
                CloseTurn::Perform
            },
            CloseState::Closing { waiters } => {
                *self = CloseState::Closing { waiters: waiters + 1 };
                CloseTurn::Wait
            },
            CloseState::Closed => CloseTurn::Done,
        }
    }

    /// Ends the close that one caller performs, and tells how many others to wake.
    pub fn finish(&mut self, succeeded: bool) -> (woken: usize)
        requires
            *old(self) is Closing,
        ensures
            woken == old(self)->waiters,
            *final(self) == old(self).finished(succeeded),
    {
        let woken: usize = match *self {
            CloseState::Closing { waiters } => waiters,
            _ => 0,
        };
        *self = if succeeded {
            CloseState::Closed
        } else {
            CloseState::Open
        };
        woken
    }

    /// Whether the handle works.
    pub fn is_open(&self) -> (open: bool)
        ensures
            open == (*self is Open),
    {
        matches!(self, CloseState::Open)
    }
}

/// One step of a close, in the order of the variants.
#[derive(Debug, Clone, Copy, PartialEq, Eq, Structural)]
pub enum CloseStep {
    /// Keep secondary work from starting.
    HoldSecondaryWork,
    /// Stop recording queries.
    DropQueryMetrics,
    /// Shut the metrics runtime down.
    StopQueryMetrics,
    /// Stop the index worker and wait for it.
    StopIndexWorker,
    /// Stop the storage warm task.
    StopSlateWarm,
    /// Stop the full-text warm task.
    StopFtsWarm,
    /// Stop the vector refresh task.
    StopVectorRefresh,
    /// Close the full-text cache.
    CloseFtsCache,
    /// Close storage.
    CloseStorage,
    /// Close the storage cache.
    CloseSlateCache,
}

impl CloseStep {
    /// Place of the step in a close.
    pub open spec fn place(self) -> int {
        match self {
            CloseStep::HoldSecondaryWork => 0,
            CloseStep::DropQueryMetrics => 1,
            CloseStep::StopQueryMetrics => 2,
            CloseStep::StopIndexWorker => 3,
            CloseStep::StopSlateWarm => 4,
            CloseStep::StopFtsWarm => 5,
            CloseStep::StopVectorRefresh => 6,
            CloseStep::CloseFtsCache => 7,
            CloseStep::CloseStorage => 8,
            CloseStep::CloseSlateCache => 9,
        }
    }

    /// The first step of a close.
    pub fn first() -> (step: Self)
        ensures
            step.place() == 0,
    {
        CloseStep::HoldSecondaryWork
    }

    /// The step that follows.
    pub fn next(self) -> (next: Option<Self>)
        ensures
            match next {
                Some(next) => next.place() == self.place() + 1,
                None => self is CloseSlateCache,
            },
    {
        match self {
            CloseStep::HoldSecondaryWork => Some(CloseStep::DropQueryMetrics),
            CloseStep::DropQueryMetrics => Some(CloseStep::StopQueryMetrics),
            CloseStep::StopQueryMetrics => Some(CloseStep::StopIndexWorker),
            CloseStep::StopIndexWorker => Some(CloseStep::StopSlateWarm),
            CloseStep::StopSlateWarm => Some(CloseStep::StopFtsWarm),
            CloseStep::StopFtsWarm => Some(CloseStep::StopVectorRefresh),
            CloseStep::StopVectorRefresh => Some(CloseStep::CloseFtsCache),
            CloseStep::CloseFtsCache => Some(CloseStep::CloseStorage),
            CloseStep::CloseStorage => Some(CloseStep::CloseSlateCache),
            CloseStep::CloseSlateCache => None,
        }
    }

    /// Whether a failure of the step ends the close.
    pub fn can_fail(self) -> (fails: bool)
        ensures
            fails == (self is CloseStorage || self is CloseSlateCache),
    {
        match self {
            CloseStep::CloseStorage | CloseStep::CloseSlateCache => true,
            _ => false,
        }
    }
}

/// Places tell steps apart.
pub proof fn law_places_identify_steps(left: CloseStep, right: CloseStep)
    ensures
        left.place() == right.place() <==> left == right,
{
}

/// Every task that may touch storage or a cache has been stopped before either is closed,
/// and storage is closed before its cache.
pub proof fn law_tasks_stop_before_storage_closes(task: CloseStep)
    requires
        task is StopIndexWorker || task is StopSlateWarm || task is StopFtsWarm
            || task is StopVectorRefresh,
    ensures
        task.place() < CloseStep::CloseFtsCache.place(),
        task.place() < CloseStep::CloseStorage.place(),
        CloseStep::CloseStorage.place() < CloseStep::CloseSlateCache.place(),
{
}

/// While one caller performs a close, no other caller does, however many ask.
pub proof fn law_one_caller_performs_a_close(state: CloseState, callers: nat)
    requires
        state is Closing,
    ensures
        asked_often(state, callers) is Closing,
        asked_often(state, callers).turn() is Wait,
    decreases callers,
{
    if callers > 0 {
        law_one_caller_performs_a_close(state, (callers - 1) as nat);
    }
}

/// The state after several callers have asked.
pub open spec fn asked_often(state: CloseState, callers: nat) -> CloseState
    decreases callers,
{
    if callers == 0 {
        state
    } else {
        asked_often(state, (callers - 1) as nat).asked()
    }
}

/// A closed handle stays closed and answers at once; after a failed close the next caller
/// performs another one.
pub proof fn law_close_is_idempotent_and_retryable(state: CloseState)
    requires
        state is Closing,
    ensures
        state.finished(true).turn() is Done,
        state.finished(true).asked() == state.finished(true),
        state.finished(false).turn() is Perform,
{
}

/// The first caller of an open handle performs the close, callers behind it are counted and
/// wait, and a closed handle is done with at once.
pub proof fn law_callers_of_close_take_turns(waiters: usize)
    requires
        waiters < usize::MAX,
    ensures
        CloseState::Open.turn() == CloseTurn::Perform,
        CloseState::Open.asked() == (CloseState::Closing { waiters: 0 }),
        (CloseState::Closing { waiters }).turn() == CloseTurn::Wait,
        (CloseState::Closing { waiters }).asked() == (CloseState::Closing {
            waiters: (waiters + 1) as usize,
        }),
        CloseState::Closed.turn() == CloseTurn::Done,
        CloseState::Closed.asked() == CloseState::Closed,
        (CloseState::Closing { waiters }).finished(true) == CloseState::Closed,
        (CloseState::Closing { waiters }).finished(false) == CloseState::Open,
        CloseState::Open.has_room() && CloseState::Closed.has_room() && (CloseState::Closing {
            waiters,
        }).has_room(),
{
}

/// A close takes its steps in one order: work is held back and recording ends before tasks
/// are stopped, the worker first, and caches and storage go last, storage before its cache.
pub proof fn law_close_steps_are_in_order()
    ensures
        CloseStep::HoldSecondaryWork.place() < CloseStep::DropQueryMetrics.place()
            < CloseStep::StopQueryMetrics.place() < CloseStep::StopIndexWorker.place()
            < CloseStep::StopSlateWarm.place() < CloseStep::StopFtsWarm.place()
            < CloseStep::StopVectorRefresh.place() < CloseStep::CloseFtsCache.place()
            < CloseStep::CloseStorage.place() < CloseStep::CloseSlateCache.place(),
{
}

} // verus!
