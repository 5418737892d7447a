use vstd::prelude::*;

verus! {

/// The contents of a `Registry`: the handle, if one is held, and whether the
/// slot has been taken.
pub struct RegistryState<H> {
    pub slot: Option<H>,
    pub sealed: bool,
}

impl<H> RegistryState<H> {
    /// A sealed slot holds nothing.
    pub open spec fn wf(self) -> bool {
        self.sealed ==> self.slot is None
    }

    /// The state right after start-up.
    pub open spec fn empty() -> RegistryState<H> {
        RegistryState { slot: None, sealed: false }
    }

    /// The state after `store(h)`: the handle goes in only if the slot is
    /// empty and was never taken.
    pub open spec fn after_store(self, h: H) -> RegistryState<H> {
        if self.slot is None && !self.sealed {
            RegistryState { slot: Some(h), sealed: false }
        } else {
            self
        }
    }

    /// The state after a take: empty and sealed.
    pub open spec fn after_take(self) -> RegistryState<H> {
        RegistryState { slot: None, sealed: true }
    }

    /// What `take_and_terminate` reports: whether a handle was present.
    pub open spec fn holds_handle(self) -> bool {
        self.slot is Some
    }
}

/// The one slot that holds the backend's process handle.
///
/// Once the handle has been taken the slot is sealed: it stays empty for the
/// rest of the run, so a backend is never launched or killed twice.
pub struct Registry<H> {
    slot: Option<H>,
    sealed: bool,
}

impl<H> View for Registry<H> {
    type V = RegistryState<H>;

    closed spec fn view(&self) -> RegistryState<H> {
        RegistryState { slot: self.slot, sealed: self.sealed }
    }
}

impl<H> Registry<H> {
    #[verifier::type_invariant]
    spec fn inv(self) -> bool {
        self.sealed ==> self.slot is None
    }

    pub fn new() -> (r: Registry<H>)
        ensures
            r@ == RegistryState::<H>::empty(),
            r@.wf(),
    {
        Registry { slot: None, sealed: false }
    }

    /// Stores the handle of a freshly launched backend. Where the slot is
    /// occupied or sealed the handle is handed back and nothing changes.
    pub fn store(&mut self, h: H) -> (refused: Option<H>)
        ensures
            final(self)@ == old(self)@.after_store(h),
            final(self)@.wf(),
            refused == (if old(self)@.slot is None && !old(self)@.sealed { None } else { Some(h) }),
    {
        proof {
            use_type_invariant(&*self);
        }
        if self.slot.is_none() && !self.sealed {
            self.slot = Some(h);
            None
        } else {
            Some(h)
        }
    }

    /// Removes the handle, if any, and seals the slot. The caller owns the
    /// handle that comes back and is the only one to terminate it.
    pub fn take(&mut self) -> (r: Option<H>)
        ensures
            r == old(self)@.slot,
            final(self)@ == old(self)@.after_take(),
            final(self)@.wf(),
    {
        let mut taken = Registry { slot: None, sealed: true };
        core::mem::swap(self, &mut taken);
        taken.slot
    }

    /// Takes the handle out and, where one was there, hands it to `kill`,
    /// which terminates the process and ignores any failure of its own.
    /// Returns whether a handle was present; with none, `kill` is not called.
    pub fn take_and_terminate<F: FnOnce(H)>(&mut self, kill: F) -> (r: bool)
        requires
            forall|h: H| kill.requires((h,)),
        ensures
            r == old(self)@.holds_handle(),
            old(self)@.slot is Some ==> kill.ensures((old(self)@.slot->Some_0,), ()),
            final(self)@ == old(self)@.after_take(),
            final(self)@.wf(),
    {
        match self.take() {
            Some(h) => {
                kill(h);
                true
            },
            None => false,
        }
    }

    pub fn is_empty(&self) -> (r: bool)
        ensures
            r == (self@.slot is None),
    {
        self.slot.is_none()
    }
}

/// What the window reports to the shutdown hook.
#[derive(Clone, Copy, Debug, PartialEq, Eq, Structural)]
pub enum WindowEvent {
    Destroyed,
    Other,
}

/// The shutdown hook: armed while the window lives, fired once it is
/// destroyed. It never re-arms.
#[derive(Clone, Copy, Debug, PartialEq, Eq, Structural)]
pub enum Hook {
    Armed,
    Fired,
}

impl Hook {
    pub fn new() -> (r: Hook)
        ensures
            r == Hook::Armed,
    {
        Hook::Armed
    }

    /// Reacts to `event`. On the first `Destroyed` it takes the handle out of
    /// `registry`, kills the process through `kill` if there was one, and
    /// returns whether there was; every other event, and any later
    /// `Destroyed`, returns `false`, leaves the registry alone and kills
    /// nothing.
    pub fn on_window_event<H, F: FnOnce(H)>(
        &mut self,
        event: WindowEvent,
        registry: &mut Registry<H>,
        kill: F,
    ) -> (r: bool)
        requires
            forall|h: H| kill.requires((h,)),
        ensures
            final(registry)@.wf(),
            (event == WindowEvent::Destroyed && *old(self) == Hook::Armed) ==> {
                &&& r == old(registry)@.holds_handle()
                &&& final(registry)@ == old(registry)@.after_take()
                &&& *final(self) == Hook::Fired
            },
            (event == WindowEvent::Destroyed && *old(self) == Hook::Armed && old(registry)@.slot is Some)
                ==> kill.ensures((old(registry)@.slot->Some_0,), ()),
            !(event == WindowEvent::Destroyed && *old(self) == Hook::Armed) ==> {
                &&& !r
                &&& final(registry)@ == old(registry)@
                &&& *final(self) == *old(self)
            },
    {
        proof {
            use_type_invariant(&*registry);
        }
        match (event, *self) {
            (WindowEvent::Destroyed, Hook::Armed) => {
                *self = Hook::Fired;
                registry.take_and_terminate(kill)
            },
            _ => false,
        }
    }
}

/// A second take after a first finds nothing: at most one termination is
/// ever attempted for a stored handle.
pub proof fn lemma_take_is_idempotent<H>(h: H)
    ensures
        ({
            let stored = RegistryState::<H>::empty().after_store(h);
            let once = stored.after_take();
            let twice = once.after_take();
            &&& stored.slot == Some(h)
            &&& stored.holds_handle()
            &&& !once.holds_handle()
            &&& once.slot is None
            &&& twice == once
        }),
{
}

/// On a registry where nothing was ever stored, take-and-terminate reports
/// that no handle was present, and the slot stays empty, now and after any
/// later store attempt.
pub proof fn lemma_take_when_never_stored<H>(h: H)
    ensures
        !RegistryState::<H>::empty().holds_handle(),
        RegistryState::<H>::empty().after_take().slot is None,
        RegistryState::<H>::empty().after_take().after_store(h).slot is None,
{
}

/// Once the slot has been taken, no store fills it again.
pub proof fn lemma_sealed_stays_empty<H>(r: RegistryState<H>, h: H)
    requires
        r.wf(),
        r.sealed,
    ensures
        r.after_store(h).slot is None,
        !r.after_store(h).after_take().holds_handle(),
{
}

} // verus!
