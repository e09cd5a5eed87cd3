//! Installing a hook together with its callbacks.

use vstd::prelude::*;
use crate::engine::backend::Backend;
use crate::engine::hook;
use crate::engine::manager::{
    spec_hook, spec_hook_resume, HookManager, HookOp, HookOpView, HookProgress, HookProgressView,
};
use crate::engine::backend::{decoded_stolen, encoded_moved};
use crate::error::Error;
use crate::hook_utils::handle::HookHandle;
use crate::hook_utils::registry::{HookMeta, HookRegistry};
use crate::options::Options;
use crate::platform::{Reply, Request};

verus! {

/// A hook that is yet to be installed.
pub struct HookBuilder<C> {
    pub target: usize,
    pub detour: usize,
    pub before: Option<C>,
    pub after: Option<C>,
}

/// The installation of a hook with callbacks, in progress.
pub struct InstallOp<C> {
    pub target: usize,
    pub detour: usize,
    pub before: Option<C>,
    pub after: Option<C>,
    pub hook: HookOp,
}

/// What a step of an installation leads to.
pub enum InstallProgress<C> {
    Continue(InstallOp<C>, Request),
    Done(Result<HookHandle, Error>),
}

/// Whether `r` is what the step `progress` of the engine's installation
/// means for the installation `op`, which finds the entries `targets` and
/// `detours` and leaves `new_targets` and `new_detours`: the hook is entered
/// with its callbacks once the engine has installed it, and not before.
pub open spec fn install_settles<C>(
    op: InstallOp<C>,
    progress: HookProgressView,
    targets: Map<usize, usize>,
    new_targets: Map<usize, usize>,
    detours: Map<usize, HookMeta<C>>,
    new_detours: Map<usize, HookMeta<C>>,
    r: InstallProgress<C>,
) -> bool {
    match progress {
        HookProgressView::Continue(hook, request) => {
            &&& r matches InstallProgress::Continue(next, asked)
            &&& next.target == op.target
            &&& next.detour == op.detour
            &&& next.before == op.before
            &&& next.after == op.after
            &&& next.hook@ == hook
            &&& asked@ == request
            &&& new_targets == targets
            &&& new_detours == detours
        },
        HookProgressView::Done(Ok(original)) => {
            &&& r matches InstallProgress::Done(Ok(handle))
            &&& handle == (HookHandle { target: op.target, detour: op.detour, original })
            &&& new_targets == targets.insert(op.target, op.detour)
            &&& new_detours == detours.insert(
                op.detour,
                HookMeta { original, before: op.before, after: op.after },
            )
        },
        HookProgressView::Done(Err(e)) => {
            &&& r matches InstallProgress::Done(Err(failure))
            &&& failure == e
            &&& new_targets == targets
            &&& new_detours == detours
        },
    }
}

impl<C> HookBuilder<C> {
    /// A hook on `target` that sends callers to `detour`, without callbacks.
    pub fn new(target: usize, detour: usize) -> (r: Self)
        ensures
            r.target == target,
            r.detour == detour,
            r.before is None,
            r.after is None,
    {
        HookBuilder { target, detour, before: None, after: None }
    }

    /// Sets the callback to run before the detour.
    pub fn before(self, callback: C) -> (r: Self)
        ensures
            r.target == self.target,
            r.detour == self.detour,
            r.before == Some(callback),
            r.after == self.after,
    {
        HookBuilder { before: Some(callback), ..self }
    }

    /// Sets the callback to run after the detour.
    pub fn after(self, callback: C) -> (r: Self)
        ensures
            r.target == self.target,
            r.detour == self.detour,
            r.before == self.before,
            r.after == Some(callback),
    {
        HookBuilder { after: Some(callback), ..self }
    }

    /// Begins the installation.
    ///
    /// Fails with `NullPointer` where target or detour is null, with
    /// `AlreadyHooked` where either is in use by a hook of `registry`, and
    /// otherwise as the engine's `hook` does.
    pub fn install(
        self,
        manager: &HookManager,
        registry: &HookRegistry<C>,
        backend: Backend,
        options: &Options,
    ) -> (r: Result<(InstallOp<C>, Request), Error>)
        ensures
            self.target == 0 || self.detour == 0 ==> r is Err && r->Err_0 == Error::NullPointer,
            self.target != 0 && self.detour != 0 && (registry.targets().contains_key(self.target)
                || registry.detours().contains_key(self.detour)) ==> r is Err && r->Err_0
                == Error::AlreadyHooked,
            self.target != 0 && self.detour != 0 && !registry.targets().contains_key(self.target)
                && !registry.detours().contains_key(self.detour) ==> match spec_hook(
                manager@,
                backend,
                *options,
                self.target,
                self.detour,
            ) {
                Ok((op, request)) => {
                    &&& r matches Ok((started, asked))
                    &&& started.target == self.target
                    &&& started.detour == self.detour
                    &&& started.before == self.before
                    &&& started.after == self.after
                    &&& started.hook@ == op
                    &&& asked@ == request
                },
                Err(e) => r is Err && r->Err_0 == e,
            },
    {
        if self.target == 0 || self.detour == 0 {
            return Err(Error::NullPointer);
        }
        if registry.contains(self.target, self.detour) {
            return Err(Error::AlreadyHooked);
        }
        install_raw(manager, backend, options, self.target, self.detour, self.before, self.after)
    }
}

/// Begins the installation of a hook on `target` through the engine.
pub fn install_raw<C>(
    manager: &HookManager,
    backend: Backend,
    options: &Options,
    target: usize,
    detour: usize,
    before: Option<C>,
    after: Option<C>,
) -> (r: Result<(InstallOp<C>, Request), Error>)
    ensures
        target == 0 || detour == 0 ==> r is Err && r->Err_0 == Error::NullPointer,
        target != 0 && detour != 0 ==> match spec_hook(manager@, backend, *options, target, detour) {
            Ok((op, request)) => {
                &&& r matches Ok((started, asked))
                &&& started.target == target
                &&& started.detour == detour
                &&& started.before == before
                &&& started.after == after
                &&& started.hook@ == op
                &&& asked@ == request
            },
            Err(e) => r is Err && r->Err_0 == e,
        },
{
    match hook(manager, backend, options, target, detour) {
        Ok((op, request)) => Ok((InstallOp { target, detour, before, after, hook: op }, request)),
        Err(e) => Err(e),
    }
}

/// Enters what a step of the engine's installation led to.
pub fn install_settle<C>(
    target: usize,
    detour: usize,
    before: Option<C>,
    after: Option<C>,
    registry: &mut HookRegistry<C>,
    progress: HookProgress,
) -> (r: InstallProgress<C>)
    ensures
        install_settles(
            InstallOp { target, detour, before, after, hook: HookOp::Discarding },
            progress@,
            old(registry).targets(),
            final(registry).targets(),
            old(registry).detours(),
            final(registry).detours(),
            r,
        ),
{
    match progress {
        HookProgress::Continue(hook, request) => InstallProgress::Continue(
            InstallOp { target, detour, before, after, hook },
            request,
        ),
        HookProgress::Done(Ok(original)) => {
            registry.insert(target, detour, original, before, after);
            InstallProgress::Done(Ok(HookHandle { target, detour, original }))
        },
        HookProgress::Done(Err(e)) => InstallProgress::Done(Err(e)),
    }
}

/// Takes one step of an installation: `reply` is what the platform answered
/// to the request of the step before.
///
/// The engine takes its step, as `HookManager::hook_resume` says, and what
/// that led to is entered as `install_settles` says.
pub fn install_resume<C>(
    op: InstallOp<C>,
    manager: &mut HookManager,
    registry: &mut HookRegistry<C>,
    reply: Reply,
) -> (r: InstallProgress<C>)
    ensures
        ({
            let named = spec_hook_resume(
                old(manager)@,
                op.hook@,
                reply@,
                match op.hook@ {
                    HookOpView::Building(state) => decoded_stolen(state, reply@),
                    HookOpView::Discarding => None,
                },
                match op.hook@ {
                    HookOpView::Building(state) => encoded_moved(state, reply@),
                    HookOpView::Discarding => None,
                },
            );
            let unnamed = spec_hook_resume(old(manager)@, op.hook@, reply@, None, None);
            ||| final(manager)@ == named.0 && install_settles(
                op,
                named.1,
                old(registry).targets(),
                final(registry).targets(),
                old(registry).detours(),
                final(registry).detours(),
                r,
            )
            ||| final(manager)@ == unnamed.0 && install_settles(
                op,
                unnamed.1,
                old(registry).targets(),
                final(registry).targets(),
                old(registry).detours(),
                final(registry).detours(),
                r,
            )
        }),
{
    let progress: HookProgress = manager.hook_resume(op.hook, reply);
    install_settle(op.target, op.detour, op.before, op.after, registry, progress)
}

} // verus!
