//! The order of the hooks. The pipeline keeps the hooks that were
//! registered, and says for each moment which of them run, in which order,
//! and whether the rest still run after one has failed. Calling the hooks
//! is left to the store.

use vstd::prelude::*;
use crate::error::HookError;
use crate::hook::{Capability, LifecyclePoint};

verus! {

/// One registered hook.
#[derive(Debug, PartialEq, Eq)]
pub struct Registration {
    /// The name of the hook.
    pub name: String,
    /// The moment at which it runs.
    pub point: LifecyclePoint,
    /// The access that it declared.
    pub capability: Capability,
    /// Whether a failure of this hook stops the hooks after it.
    pub aborting: bool,
}

/// The mathematical value of a [`Registration`].
pub struct RegistrationView {
    pub name: Seq<char>,
    pub point: LifecyclePoint,
    pub capability: Capability,
    pub aborting: bool,
}

impl View for Registration {
    type V = RegistrationView;

    open spec fn view(&self) -> RegistrationView {
        RegistrationView {
            name: self.name@,
            point: self.point,
            capability: self.capability,
            aborting: self.aborting,
        }
    }
}

/// Whether a hook runs at `point` when the store offers `capability`: it is
/// registered for that moment and declared exactly that access.
pub open spec fn is_called(hook: RegistrationView, point: LifecyclePoint, capability: Capability) -> bool {
    hook.point == point && hook.capability == capability
}

/// Whether the hooks after `hook` still run once it has returned: they do,
/// unless it failed and its failures abort.
pub open spec fn goes_on(hook: RegistrationView, failed: bool) -> bool {
    !(failed && hook.aborting)
}

/// The hooks of a store, in the order in which they were registered.
#[derive(Debug)]
pub struct HookPipeline {
    hooks: Vec<Registration>,
}

impl View for HookPipeline {
    type V = Seq<RegistrationView>;

    closed spec fn view(&self) -> Seq<RegistrationView> {
        self.hooks@.map_values(|r: Registration| r@)
    }
}

impl HookPipeline {
    /// A pipeline without hooks.
    pub fn new() -> (pipeline: HookPipeline)
        ensures
            pipeline@ == Seq::<RegistrationView>::empty(),
    {
        let pipeline = HookPipeline { hooks: Vec::new() };
        assert(pipeline@ =~= Seq::<RegistrationView>::empty());
        pipeline
    }

    /// Registers a hook behind those that are registered already.
    pub fn register(&mut self, hook: Registration)
        ensures
            final(self)@ == old(self)@.push(hook@),
    {
        self.hooks.push(hook);
        assert(self@ =~= old(self)@.push(hook@));
    }

    /// How many hooks are registered.
    pub fn len(&self) -> (n: usize)
        ensures
            n == self@.len(),
    {
        self.hooks.len()
    }

    /// The hook at a position.
    pub fn get(&self, position: usize) -> (hook: Option<&Registration>)
        ensures
            position < self@.len() ==> (hook matches Some(r) && r@ == self@[position as int]),
            position >= self@.len() ==> hook is None,
    {
        if position < self.hooks.len() {
            Some(&self.hooks[position])
        } else {
            None
        }
    }

    /// The positions of the hooks that run at `point` when the store offers
    /// `capability`: every hook that is registered for the moment and
    /// declared this access, no other, each once, in the order of
    /// registration.
    pub fn dispatch(&self, point: LifecyclePoint, capability: Capability) -> (called: Vec<usize>)
        ensures
            forall|k: int|
                0 <= k < called@.len() ==> (#[trigger] called@[k]) < self@.len() && is_called(
                    self@[called@[k] as int],
                    point,
                    capability,
                ),
            forall|k: int, l: int|
                0 <= k < l < called@.len() ==> (#[trigger] called@[k]) < (#[trigger] called@[l]),
            forall|i: int|
                0 <= i < self@.len() && is_called(#[trigger] self@[i], point, capability)
                    ==> exists|k: int| 0 <= k < called@.len() && called@[k] == i,
    {
        let mut called: Vec<usize> = Vec::new();
        let mut i: usize = 0;
        while i < self.hooks.len()
            invariant
                i <= self.hooks.len(),
                forall|k: int|
                    0 <= k < called@.len() ==> (#[trigger] called@[k]) < i && is_called(
                        self@[called@[k] as int],
                        point,
                        capability,
                    ),
                forall|k: int, l: int|
                0 <= k < l < called@.len() ==> (#[trigger] called@[k]) < (#[trigger] called@[l]),
                forall|j: int|
                    0 <= j < i && is_called(#[trigger] self@[j], point, capability)
                        ==> exists|k: int| 0 <= k < called@.len() && called@[k] == j,
            decreases self.hooks.len() - i,
        {
            let hook = &self.hooks[i];
            assert(hook@ == self@[i as int]);
            if hook.point == point && hook.capability == capability {
                let ghost before = called@;
                called.push(i);
                assert forall|j: int|
                    0 <= j < i + 1 && is_called(
                        #[trigger] self@[j],
                        point,
                        capability,
                    ) implies exists|k: int| 0 <= k < called@.len() && called@[k] == j by {
                    if j < i {
                        let k = choose|k: int| 0 <= k < before.len() && before[k] == j;
                        assert(called@[k] == j);
                    } else {
                        assert(called@[before.len() as int] == j);
                    }
                }
            }
            i += 1;
        }
        called
    }
}

/// Whether the hooks after `hook` still run once it has returned `result`.
/// A failure stops them only where the hook was registered as aborting; any
/// other failure is for the store to log.
pub fn continues_after(hook: &Registration, result: &Result<(), HookError>) -> (go_on: bool)
    ensures
        go_on == goes_on(hook@, result is Err),
{
    match result {
        Ok(_) => true,
        Err(_) => !hook.aborting,
    }
}

} // verus!
