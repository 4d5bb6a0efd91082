//! Running a simulation over a clock.
use vstd::prelude::*;
use crate::clock::Clock;
use crate::money::CashValue;
use crate::schedule::DateTime;
use crate::sim::uk::{SimError, SimState, UKSimulationState};
use crate::strat::InvestmentStrategy;

pub mod uk;

verus! {

/// What a simulation is worth.
#[derive(Clone, Copy, Debug, PartialEq, Eq, Structural)]
pub struct SimulationValue(pub CashValue);

/// A simulation that a runner can drive.
pub trait SimulationState {
    /// What every tick keeps true of the state.
    spec fn sound(&self) -> bool;

    /// Whether the figures of the state lie within what a tick accepts.
    spec fn in_limits(&self) -> bool;

    /// Whether the state is at rest: a tick leaves it so.
    spec fn at_rest(&self) -> bool;

    /// What the state is worth.
    spec fn worth(&self) -> int;

    fn within_limits(&self) -> (ok: bool)
        ensures
            ok == self.in_limits(),
    ;

    /// What a tick at a time makes of the state and how it ends: whether
    /// `after` and `outcome` are what a tick of this state at `now` gives.
    spec fn stepped(&self, after: &Self, now: int, outcome: Result<(), SimError>) -> bool;

    /// What the reading of its worth makes of the state.
    spec fn valued(&self, after: &Self) -> bool;

    fn update(&mut self, now: DateTime) -> (outcome: Result<(), SimError>)
        requires
            old(self).sound(),
            old(self).in_limits(),
        ensures
            final(self).sound(),
            old(self).at_rest() ==> final(self).at_rest(),
            old(self).stepped(final(self), now as int, outcome),
    ;

    fn get_state(&mut self) -> (value: SimulationValue)
        requires
            old(self).sound(),
        ensures
            final(self).sound(),
            value.0@ == old(self).worth(),
            final(self).worth() == old(self).worth(),
            old(self).at_rest() ==> final(self).at_rest(),
            old(self).valued(final(self)),
    ;
}

impl<S: InvestmentStrategy> SimulationState for UKSimulationState<S> {
    open spec fn sound(&self) -> bool {
        UKSimulationState::sound(self)
    }

    open spec fn in_limits(&self) -> bool {
        UKSimulationState::in_limits(self)
    }

    /// At rest is an unrecoverable household, and one without flows,
    /// emergency fund, money and history.
    open spec fn at_rest(&self) -> bool {
        self.sim_state == SimState::Unrecoverable || self.dormant()
    }

    open spec fn worth(&self) -> int {
        self.isa.strat.value() + self.gia.strat.value() + self.sipp.strat.value()
            + self.bank.balance@
    }

    /// An unrecoverable household stays as it is. One that is ready passes
    /// through the steps of a tick in their order.
    open spec fn stepped(&self, after: &Self, now: int, outcome: Result<(), SimError>) -> bool {
        match self.sim_state {
            SimState::Unrecoverable => outcome.is_ok() && *after == *self,
            SimState::Ready => exists|
                checked: Self,
                recorded: Self,
                swept: Self,
                taxed: Self,
                traded: Self,
                paid: Self,
                swept_again: Self,
            |
                UKSimulationState::ticked(
                    self,
                    &checked,
                    &recorded,
                    &swept,
                    &taxed,
                    &traded,
                    &paid,
                    &swept_again,
                    after,
                    now,
                    outcome,
                ),
        }
    }

    /// Reading the worth changes nothing.
    open spec fn valued(&self, after: &Self) -> bool {
        *after == *self
    }

    fn within_limits(&self) -> (ok: bool) {
        self.check_limits()
    }

    fn update(&mut self, now: DateTime) -> (outcome: Result<(), SimError>) {
        UKSimulationState::update(self, now)
    }

    fn get_state(&mut self) -> (value: SimulationValue) {
        SimulationValue(self.get_total_value())
    }
}

/// A clock and the simulation that it drives.
pub struct SimRunner<T: SimulationState> {
    pub clock: Clock,
    pub state: T,
}

impl<T: SimulationState> SimRunner<T> {
    /// What a run makes of a runner and how it ends, given the states of the
    /// simulation before each tick that was begun.
    ///
    /// The states start with the state before the run. The clock moves on
    /// by a day for each tick. Each state but the last lies within what a
    /// tick accepts, and a tick on the day that follows makes the next of
    /// it without an error. The run ends well when the clock has reached
    /// its last day: then the worth of the last state is read and returned.
    /// It ends in an error on the day on which the last state does not lie
    /// within what a tick accepts, and stays as it is then; or on which a
    /// tick of the last state ends in that error.
    pub open spec fn ran(
        pre: &Self,
        post: &Self,
        states: Seq<T>,
        outcome: Result<SimulationValue, SimError>,
    ) -> bool {
        let first = pre.clock.pos as int;
        let ticks = states.len() - 1;
        let last = pre.clock.length_in_days as int;
        &&& states.len() >= 1
        &&& states[0] == pre.state
        &&& post.clock.start == pre.clock.start
        &&& post.clock.length_in_days == pre.clock.length_in_days
        &&& first + ticks <= last
        &&& forall|k: int|
            0 <= k < ticks ==> (#[trigger] states[k]).in_limits() && states[k].stepped(
                &states[k + 1],
                pre.clock.day(first + k + 1),
                Ok(()),
            )
        &&& match outcome {
            Ok(value) => {
                &&& first + ticks == last
                &&& post.clock.pos == last
                &&& states.last().valued(&post.state)
                &&& value.0@ == states.last().worth()
            },
            Err(error) => {
                &&& first + ticks < last
                &&& post.clock.pos == first + ticks + 1
                &&& if !states.last().in_limits() {
                    error == SimError::OutOfRange && post.state == states.last()
                } else {
                    states.last().stepped(
                        &post.state,
                        pre.clock.day(first + ticks + 1),
                        Err(error),
                    )
                }
            },
        }
    }

    /// Ticks the clock to its end, advancing the simulation at each tick,
    /// and returns what the simulation is worth then. Stops at the first
    /// error, and where the figures of the simulation have left what a tick
    /// accepts.
    ///
    /// A simulation at rest is at rest at the end, however long the clock
    /// runs.
    pub fn run(&mut self) -> (outcome: Result<SimulationValue, SimError>)
        requires
            old(self).clock.wf(),
            old(self).state.sound(),
        ensures
            final(self).clock.wf(),
            final(self).state.sound(),
            old(self).state.at_rest() ==> final(self).state.at_rest(),
            exists|states: Seq<T>| Self::ran(old(self), final(self), states, outcome),
    {
        let ghost mut states: Seq<T> = seq![self.state];
        while self.clock.has_next()
            invariant
                self.clock.wf(),
                self.state.sound(),
                old(self).state.at_rest() ==> self.state.at_rest(),
                self.clock.start == old(self).clock.start,
                self.clock.length_in_days == old(self).clock.length_in_days,
                old(self).clock.pos <= self.clock.pos <= self.clock.length_in_days,
                states.len() == self.clock.pos - old(self).clock.pos + 1,
                states[0] == old(self).state,
                states.last() == self.state,
                forall|k: int|
                    0 <= k < states.len() - 1 ==> (#[trigger] states[k]).in_limits()
                        && states[k].stepped(
                        &states[k + 1],
                        old(self).clock.day(old(self).clock.pos + k + 1),
                        Ok(()),
                    ),
            decreases self.clock.length_in_days - self.clock.pos,
        {
            self.clock.tick();
            if !self.state.within_limits() {
                proof {
                    assert(Self::ran(old(self), self, states, Err(SimError::OutOfRange)));
                }
                return Err(SimError::OutOfRange);
            }
            let now = self.clock.now();
            let ghost before = states;
            let tick = self.state.update(now);
            match tick {
                Err(error) => {
                    proof {
                        assert(Self::ran(old(self), self, states, Err(error)));
                    }
                    return Err(error);
                },
                Ok(done) => {
                    assert(done == ());
                },
            }
            proof {
                assert(tick == Ok::<(), SimError>(()));
                assert(before.last().stepped(&self.state, now as int, Ok(())));
                states = states.push(self.state);
                assert(states[0] == before[0]);
                assert(states.last() == self.state);
                assert forall|k: int| 0 <= k < states.len() - 1 implies (#[trigger] states[k]).in_limits()
                    && states[k].stepped(
                    &states[k + 1],
                    old(self).clock.day(old(self).clock.pos + k + 1),
                    Ok(()),
                ) by {
                    assert(states[k] == before[k]);
                    if k < before.len() - 1 {
                        assert(states[k + 1] == before[k + 1]);
                        assert(before[k].in_limits());
                    } else {
                        assert(states[k + 1] == self.state);
                        assert(now == old(self).clock.day(old(self).clock.pos + k + 1));
                    }
                }
            }
        }
        let value = self.state.get_state();
        proof {
            assert(Self::ran(old(self), self, states, Ok(value)));
        }
        Ok(value)
    }
}

} // verus!
