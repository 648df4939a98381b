//! The single GPU context, handed out to one holder at a time.
//!
//! The context is either parked (current nowhere) or out with exactly one
//! holder, who makes it current, does its GPU work and parks it again. While
//! it is out, `begin` gives nothing to anyone else.
use vstd::prelude::*;

verus! {

#[derive(Clone, Copy, Debug, PartialEq, Eq, Structural)]
pub enum GlState {
    /// No context yet.
    Uninitialized,
    /// Current nowhere; the next `begin` hands it out.
    Parked,
    /// Out with the one holder that `begin` handed it to.
    Current,
    /// Making it current or not current failed; there is no recovery.
    Lost,
}

#[derive(Clone, Copy, Debug, PartialEq, Eq, Structural)]
pub enum GlError {
    /// `end` or `fail` was called while no holder had the context.
    NotHeld,
}

/// Holds the parked context `C` between its uses.
pub struct GlContextSlot<C> {
    parked: Option<C>,
    state: GlState,
}

impl<C> GlContextSlot<C> {
    pub closed spec fn wf(&self) -> bool {
        (self.state == GlState::Parked) == self.parked.is_some()
    }

    pub closed spec fn state_spec(&self) -> GlState {
        self.state
    }

    pub fn new() -> (r: GlContextSlot<C>)
        ensures
            r.wf(),
            r.state_spec() == GlState::Uninitialized,
    {
        GlContextSlot { parked: None, state: GlState::Uninitialized }
    }

    pub fn state(&self) -> (r: GlState)
        ensures
            r == self.state_spec(),
    {
        self.state
    }

    /// Takes the context once: a slot that has had one keeps the first.
    pub fn install(&mut self, context: C) -> (taken: bool)
        requires
            old(self).wf(),
        ensures
            final(self).wf(),
            taken == (old(self).state_spec() == GlState::Uninitialized),
            final(self).state_spec() == if taken {
                GlState::Parked
            } else {
                old(self).state_spec()
            },
    {
        if self.state == GlState::Uninitialized {
            self.parked = Some(context);
            self.state = GlState::Parked;
            true
        } else {
            false
        }
    }

    /// Hands the parked context out. Gives `None` and changes nothing when
    /// there is none to hand out: before initialisation, while a holder has
    /// it, or once it is lost.
    pub fn begin(&mut self) -> (r: Option<C>)
        requires
            old(self).wf(),
        ensures
            final(self).wf(),
            old(self).state_spec() == GlState::Parked ==> r is Some && final(self).state_spec()
                == GlState::Current,
            old(self).state_spec() != GlState::Parked ==> r is None && final(self).state_spec()
                == old(self).state_spec(),
    {
        if self.state == GlState::Parked {
            self.state = GlState::Current;
            self.parked.take()
        } else {
            None
        }
    }

    /// Parks the context again after use.
    pub fn end(&mut self, context: C) -> (r: Result<(), GlError>)
        requires
            old(self).wf(),
        ensures
            final(self).wf(),
            old(self).state_spec() == GlState::Current ==> r is Ok && final(self).state_spec()
                == GlState::Parked,
            old(self).state_spec() != GlState::Current ==> r == Err::<(), GlError>(
                GlError::NotHeld,
            ) && final(self).state_spec() == old(self).state_spec(),
    {
        if self.state == GlState::Current {
            self.parked = Some(context);
            self.state = GlState::Parked;
            Ok(())
        } else {
            Err(GlError::NotHeld)
        }
    }

    /// Records that the holder could not make the context current or not
    /// current: it is gone for good.
    pub fn fail(&mut self) -> (r: Result<(), GlError>)
        requires
            old(self).wf(),
        ensures
            final(self).wf(),
            old(self).state_spec() == GlState::Current ==> r is Ok && final(self).state_spec()
                == GlState::Lost,
            old(self).state_spec() != GlState::Current ==> r == Err::<(), GlError>(
                GlError::NotHeld,
            ) && final(self).state_spec() == old(self).state_spec(),
    {
        if self.state == GlState::Current {
            self.state = GlState::Lost;
            Ok(())
        } else {
            Err(GlError::NotHeld)
        }
    }
}

} // verus!
