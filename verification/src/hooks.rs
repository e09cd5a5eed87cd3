//! The short way to the common hooks.

use vstd::prelude::*;
use crate::engine::backend::Backend;
use crate::engine::manager::{spec_destroy, HookManager};
use crate::error::Error;
use crate::hook_utils::builder::InstallOp;
use crate::hook_utils::handle::{TypedHookHandle, UnhookOp};
use crate::hook_utils::install_begins;
use crate::hook_utils::registry::HookRegistry;
use crate::options::Options;
use crate::platform::Request;

verus! {

/// A function that was replaced: the handle of the hook and the original
/// function, ready to be called.
pub struct ReplaceHandle<F: Copy> {
    pub handle: TypedHookHandle<F>,
    pub original: F,
}

impl<F: Copy> ReplaceHandle<F> {
    /// Joins the handle of a hook with the original function behind it.
    pub fn new(handle: TypedHookHandle<F>, original: F) -> (r: Self)
        ensures
            r.handle == handle,
            r.original == original,
    {
        ReplaceHandle { handle, original }
    }

    /// The original function.
    pub fn original(&self) -> (r: F)
        ensures
            r == self.original,
    {
        self.original
    }

    /// Begins to put the original function back, as `HookHandle::unhook`
    /// does.
    pub fn unreplace(self, manager: &mut HookManager, backend: Backend) -> (r: Result<
        (UnhookOp, Request),
        Error,
    >)
        ensures
            self.handle.inner.target == 0 ==> r is Err && r->Err_0 == Error::NullPointer && final(manager)@
                == old(manager)@,
            self.handle.inner.target != 0 ==> final(manager)@ == spec_destroy(
                old(manager)@,
                backend,
                self.handle.inner.target,
            ).0 && match spec_destroy(old(manager)@, backend, self.handle.inner.target).1 {
                Ok((state, request)) => r is Ok && r->Ok_0.0.state == state && r->Ok_0.0.handle
                    == self.handle.inner && r->Ok_0.1@ == request,
                Err(e) => r is Err && r->Err_0 == e,
            },
    {
        self.handle.unhook(manager, backend)
    }
}

/// Begins the installation of a hook on `target` without callbacks.
pub fn install<C>(
    manager: &HookManager,
    registry: &HookRegistry<C>,
    backend: Backend,
    options: &Options,
    target: usize,
    detour: usize,
) -> (r: Result<(InstallOp<C>, Request), Error>)
    ensures
        install_begins(manager, registry, backend, options, target, detour, None, None, r),
{
    crate::hook_utils::install(manager, registry, backend, options, target, detour)
}

/// Begins the installation of a hook on `target` with the callbacks given.
pub fn install_with<C>(
    manager: &HookManager,
    registry: &HookRegistry<C>,
    backend: Backend,
    options: &Options,
    target: usize,
    detour: usize,
    before: Option<C>,
    after: Option<C>,
) -> (r: Result<(InstallOp<C>, Request), Error>)
    ensures
        install_begins(manager, registry, backend, options, target, detour, before, after, r),
{
    crate::hook_utils::hook_fn_with(
        manager,
        registry,
        backend,
        options,
        target,
        detour,
        before,
        after,
    )
}

/// Begins the installation of a hook on the address `target`.
pub fn install_addr<C>(
    manager: &HookManager,
    registry: &HookRegistry<C>,
    backend: Backend,
    options: &Options,
    target: usize,
    detour: usize,
) -> (r: Result<(InstallOp<C>, Request), Error>)
    ensures
        install_begins(manager, registry, backend, options, target, detour, None, None, r),
{
    crate::hook_utils::install_addr(manager, registry, backend, options, target, detour)
}

/// Begins the replacement of `target` by `replacement`.
pub fn replace<C>(
    manager: &HookManager,
    registry: &HookRegistry<C>,
    backend: Backend,
    options: &Options,
    target: usize,
    replacement: usize,
) -> (r: Result<(InstallOp<C>, Request), Error>)
    ensures
        install_begins(manager, registry, backend, options, target, replacement, None, None, r),
{
    install(manager, registry, backend, options, target, replacement)
}

} // verus!
