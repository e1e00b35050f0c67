//! The guarded on/off state of the single physical output.
//!
//! [`ActuatorGuard`] owns the output-pin handle and the logical value that
//! was last committed to it. It performs no I/O: [`ActuatorGuard::set`]
//! commits the value and returns the level that the pin must be driven to,
//! and the caller drives the pin through [`ActuatorGuard::handle_mut`]
//! before it lets go of the guard. Every mutation takes `&mut self`, so two
//! writers can reach one guard only one after the other; a caller that
//! shares the guard between execution contexts keeps it behind a lock and
//! holds the lock from `set` until the pin has been driven.

use vstd::prelude::*;

verus! {

/// Electrical level of the output pin.
#[derive(Clone, Copy, Debug, PartialEq, Eq, Structural)]
pub enum PinLevel {
    Low,
    High,
}

/// The level that stands for a logical value: high for on, low for off.
pub open spec fn level_of(value: bool) -> PinLevel {
    if value {
        PinLevel::High
    } else {
        PinLevel::Low
    }
}

/// Computes [`level_of`].
pub fn level_for(value: bool) -> (level: PinLevel)
    ensures
        level == level_of(value),
{
    if value {
        PinLevel::High
    } else {
        PinLevel::Low
    }
}

/// Why a write could not be applied.
#[derive(Clone, Copy, Debug, PartialEq, Eq, Structural)]
pub enum ActuatorError {
    /// No output-pin handle has been bound yet.
    NotInitialized,
}

/// What an observer can know of the actuator: whether a handle is bound,
/// and the value that was last committed.
#[derive(Clone, Copy, Debug, PartialEq, Eq, Structural)]
pub struct ActuatorState {
    pub initialized: bool,
    pub on: bool,
}

impl ActuatorState {
    /// The state at creation: no handle, output off.
    pub open spec fn unbound() -> ActuatorState {
        ActuatorState { initialized: false, on: false }
    }

    /// The state right after a handle was bound: armed, output off.
    pub open spec fn armed() -> ActuatorState {
        ActuatorState { initialized: true, on: false }
    }

    /// The committed value, or nothing while no handle is bound.
    pub open spec fn get(self) -> Option<bool> {
        if self.initialized {
            Some(self.on)
        } else {
            None
        }
    }

    /// The state after one write: the value is committed when a handle is
    /// bound, and the write is dropped when none is.
    pub open spec fn write(self, value: bool) -> ActuatorState {
        if self.initialized {
            ActuatorState { initialized: true, on: value }
        } else {
            self
        }
    }

    /// The level that one write drives the pin to, or nothing when the
    /// write is dropped.
    pub open spec fn drive(self, value: bool) -> Option<PinLevel> {
        if self.initialized {
            Some(level_of(value))
        } else {
            None
        }
    }

    /// The state after the writes `values`, applied from first to last.
    pub open spec fn write_all(self, values: Seq<bool>) -> ActuatorState
        decreases values.len(),
    {
        if values.len() == 0 {
            self
        } else {
            self.write_all(values.drop_last()).write(values.last())
        }
    }
}

/// Owner of the output-pin handle and of the value committed to it.
pub struct ActuatorGuard<P> {
    handle: Option<P>,
    on: bool,
}

impl<P> View for ActuatorGuard<P> {
    type V = ActuatorState;

    closed spec fn view(&self) -> ActuatorState {
        ActuatorState { initialized: self.handle is Some, on: self.on }
    }
}

impl<P> ActuatorGuard<P> {
    /// The bound handle, if any.
    pub closed spec fn handle(&self) -> Option<P> {
        self.handle
    }

    /// A guard without a handle.
    pub fn new() -> (guard: Self)
        ensures
            guard@ == ActuatorState::unbound(),
            guard.handle() is None,
    {
        ActuatorGuard { handle: None, on: false }
    }

    /// Installs the output-pin handle. The output counts as off from here
    /// on, so the handle is expected to have been driven low.
    ///
    /// A guard is bound once; binding a bound guard is a programming error.
    pub fn bind(&mut self, handle: P)
        requires
            !old(self)@.initialized,
        ensures
            final(self)@ == ActuatorState::armed(),
            final(self).handle() == Some(handle),
    {
        self.handle = Some(handle);
        self.on = false;
    }

    /// Whether a handle has been bound.
    pub fn is_initialized(&self) -> (bound: bool)
        ensures
            bound == self@.initialized,
    {
        self.handle.is_some()
    }

    /// The last committed value, or `None` while no handle is bound.
    pub fn get(&self) -> (value: Option<bool>)
        ensures
            value == self@.get(),
    {
        if self.handle.is_some() {
            Some(self.on)
        } else {
            None
        }
    }

    /// Commits `value` and returns the level to drive the pin to, or
    /// reports that no handle is bound and changes nothing.
    pub fn try_set(&mut self, value: bool) -> (result: Result<PinLevel, ActuatorError>)
        ensures
            final(self).handle() == old(self).handle(),
            final(self)@ == old(self)@.write(value),
            old(self)@.initialized ==> result == Ok::<PinLevel, ActuatorError>(level_of(value)),
            !old(self)@.initialized ==> result == Err::<PinLevel, ActuatorError>(
                ActuatorError::NotInitialized,
            ),
    {
        if self.handle.is_some() {
            self.on = value;
            Ok(level_for(value))
        } else {
            Err(ActuatorError::NotInitialized)
        }
    }

    /// Commits `value` and returns the level to drive the pin to. While no
    /// handle is bound the write is dropped: nothing changes, nothing is to
    /// be driven, and the caller is not failed.
    pub fn set(&mut self, value: bool) -> (action: Option<PinLevel>)
        ensures
            final(self).handle() == old(self).handle(),
            final(self)@ == old(self)@.write(value),
            action == old(self)@.drive(value),
    {
        match self.try_set(value) {
            Ok(level) => Some(level),
            Err(_) => None,
        }
    }

    /// The bound handle, for driving the pin. The logical state is not
    /// touched by what the caller does with the handle.
    pub fn handle_mut(&mut self) -> (pin: Option<&mut P>)
        ensures
            pin is Some <==> old(self)@.initialized,
            final(self)@ == old(self)@,
            pin matches Some(p) ==> old(self).handle() == Some(*p) && final(self).handle() == Some(
                *final(p),
            ),
            pin is None ==> final(self).handle() is None,
    {
        self.handle.as_mut()
    }
}

/// Last write wins. After one or more writes to a bound actuator, taken in
/// the order in which the writers held it, the committed value is the value
/// of the last write.
pub proof fn lemma_last_write_wins(state: ActuatorState, values: Seq<bool>)
    requires
        state.initialized,
        values.len() > 0,
    ensures
        state.write_all(values).initialized,
        state.write_all(values).get() == Some(values.last()),
{
    lemma_writes_keep_binding(state, values.drop_last());
}

/// No torn value. Whatever number of the writes has completed, an observer
/// of a bound actuator sees the value of the latest of them, whole: the
/// value before the first write, and after `k` writes the value of write
/// `k`.
pub proof fn lemma_observer_sees_latest_write(state: ActuatorState, values: Seq<bool>, k: int)
    requires
        state.initialized,
        0 <= k <= values.len(),
    ensures
        k == 0 ==> state.write_all(values.take(k)).get() == state.get(),
        k > 0 ==> state.write_all(values.take(k)).get() == Some(values[k - 1]),
{
    if k > 0 {
        lemma_last_write_wins(state, values.take(k));
    }
}

/// Writes neither bind nor unbind an actuator.
pub proof fn lemma_writes_keep_binding(state: ActuatorState, values: Seq<bool>)
    ensures
        state.write_all(values).initialized == state.initialized,
    decreases values.len(),
{
    if values.len() > 0 {
        lemma_writes_keep_binding(state, values.drop_last());
    }
}

/// Writes before binding are dropped. However many writes reach an actuator
/// without a handle, its state stays what it was and none of them drives
/// the pin.
pub proof fn lemma_unbound_writes_are_dropped(state: ActuatorState, values: Seq<bool>)
    requires
        !state.initialized,
    ensures
        state.write_all(values) == state,
        state.write_all(values).get() is None,
        forall|value: bool| state.drive(value) is None,
    decreases values.len(),
{
    if values.len() > 0 {
        lemma_unbound_writes_are_dropped(state, values.drop_last());
    }
}

} // verus!
