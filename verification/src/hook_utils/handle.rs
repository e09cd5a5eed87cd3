//! Handles to installed hooks.

use core::marker::PhantomData;
use vstd::prelude::*;
use crate::engine::backend::{
    destroy_step, spec_destroy_step, Backend, DestroyState, DestroyStep, DestroyStepView,
};
use crate::engine::destroy;
use crate::engine::manager::{spec_destroy, HookManager};
use crate::error::Error;
use crate::hook_utils::registry::HookRegistry;
use crate::platform::{Reply, Request};

verus! {

/// An installed hook: the function that was hooked, the detour in its place
/// and the way to the original.
#[derive(Debug)]
pub struct HookHandle {
    pub target: usize,
    pub detour: usize,
    pub original: usize,
}

/// The removal of one hook, in progress.
#[derive(Debug)]
pub struct UnhookOp {
    pub handle: HookHandle,
    pub state: DestroyState,
}

/// What a step of a removal leads to.
#[derive(Debug)]
pub enum UnhookProgress {
    Continue(UnhookOp, Request),
    Done(Result<(), Error>),
}

impl HookHandle {
    /// The address of the function that was hooked.
    pub fn target_ptr(&self) -> (r: usize)
        ensures
            r == self.target,
    {
        self.target
    }

    /// The address of the detour.
    pub fn detour_ptr(&self) -> (r: usize)
        ensures
            r == self.detour,
    {
        self.detour
    }

    /// The address through which the original function is called.
    pub fn original_ptr(&self) -> (r: usize)
        ensures
            r == self.original,
    {
        self.original
    }

    /// Begins the removal of the hook.
    ///
    /// Fails as `destroy` does on the target of the handle, and changes the
    /// registry of the engine as `destroy` does.
    pub fn unhook(self, manager: &mut HookManager, backend: Backend) -> (r: Result<
        (UnhookOp, Request),
        Error,
    >)
        ensures
            self.target == 0 ==> r is Err && r->Err_0 == Error::NullPointer && final(manager)@
                == old(manager)@,
            self.target != 0 ==> final(manager)@ == spec_destroy(
                old(manager)@,
                backend,
                self.target,
            ).0 && match spec_destroy(old(manager)@, backend, self.target).1 {
                Ok((state, request)) => r is Ok && r->Ok_0.0.state == state && r->Ok_0.0.handle
                    == self && r->Ok_0.1@ == request,
                Err(e) => r is Err && r->Err_0 == e,
            },
    {
        match destroy(manager, backend, self.target) {
            Ok((state, request)) => Ok((UnhookOp { handle: self, state }, request)),
            Err(e) => Err(e),
        }
    }
}

/// Whether `r` is what the step `outcome` of the engine's removal means for
/// the removal `op`, which finds the entries `targets` and `detours` and
/// leaves `new_targets` and `new_detours`: the hook leaves the registry of
/// this layer once its removal has succeeded, and not before.
pub open spec fn unhook_settles<C>(
    op: UnhookOp,
    outcome: DestroyStepView,
    targets: Map<usize, usize>,
    new_targets: Map<usize, usize>,
    detours: Map<usize, crate::hook_utils::registry::HookMeta<C>>,
    new_detours: Map<usize, crate::hook_utils::registry::HookMeta<C>>,
    r: UnhookProgress,
) -> bool {
    match outcome {
        DestroyStepView::Continue(state, request) => {
            &&& r matches UnhookProgress::Continue(next, asked)
            &&& next.handle == op.handle
            &&& next.state == state
            &&& asked@ == request
            &&& new_targets == targets
            &&& new_detours == detours
        },
        DestroyStepView::Done(Ok(())) => {
            &&& r == UnhookProgress::Done(Ok(()))
            &&& new_targets == targets.remove(op.handle.target)
            &&& new_detours == detours.remove(op.handle.detour)
        },
        DestroyStepView::Done(Err(e)) => {
            &&& r == UnhookProgress::Done(Err(e))
            &&& new_targets == targets
            &&& new_detours == detours
        },
    }
}

/// Takes one step of the removal of a hook: `reply` is what the platform
/// answered to the request of the step before.
pub fn unhook_resume<C>(op: UnhookOp, registry: &mut HookRegistry<C>, reply: Reply) -> (r:
    UnhookProgress)
    ensures
        unhook_settles(
            op,
            spec_destroy_step(op.state, reply@),
            old(registry).targets(),
            final(registry).targets(),
            old(registry).detours(),
            final(registry).detours(),
            r,
        ),
{
    match destroy_step(op.state, reply) {
        DestroyStep::Continue(state, request) => UnhookProgress::Continue(
            UnhookOp { handle: op.handle, state },
            request,
        ),
        DestroyStep::Done(Ok(())) => {
            registry.remove(op.handle.target, op.handle.detour);
            UnhookProgress::Done(Ok(()))
        },
        DestroyStep::Done(Err(e)) => UnhookProgress::Done(Err(e)),
    }
}

/// A [`HookHandle`] that remembers the type of the hooked function.
#[derive(Debug)]
pub struct TypedHookHandle<F> {
    pub inner: HookHandle,
    pub _marker: PhantomData<F>,
}

impl<F> TypedHookHandle<F> {
    /// Wraps `inner`.
    pub fn new(inner: HookHandle) -> (r: Self)
        ensures
            r.inner == inner,
    {
        TypedHookHandle { inner, _marker: PhantomData }
    }

    /// The address through which the original function is called.
    pub fn original_ptr(&self) -> (r: usize)
        ensures
            r == self.inner.original,
    {
        self.inner.original
    }

    /// Begins the removal of the hook, as `HookHandle::unhook` does.
    pub fn unhook(self, manager: &mut HookManager, backend: Backend) -> (r: Result<
        (UnhookOp, Request),
        Error,
    >)
        ensures
            self.inner.target == 0 ==> r is Err && r->Err_0 == Error::NullPointer && final(manager)@
                == old(manager)@,
            self.inner.target != 0 ==> final(manager)@ == spec_destroy(
                old(manager)@,
                backend,
                self.inner.target,
            ).0 && match spec_destroy(old(manager)@, backend, self.inner.target).1 {
                Ok((state, request)) => r is Ok && r->Ok_0.0.state == state && r->Ok_0.0.handle
                    == self.inner && r->Ok_0.1@ == request,
                Err(e) => r is Err && r->Err_0 == e,
            },
    {
        self.inner.unhook(manager, backend)
    }
}

} // verus!
