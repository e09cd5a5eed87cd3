//! A hook with a fixed place, to be installed and removed in turn.

use vstd::prelude::*;
use crate::engine::backend::Backend;
use crate::engine::manager::{spec_destroy, spec_hook, HookManager};
use crate::error::Error;
use crate::hook_utils::builder::{HookBuilder, InstallOp};
use crate::hook_utils::handle::{HookHandle, UnhookOp};
use crate::hook_utils::registry::HookRegistry;
use crate::options::Options;
use crate::platform::Request;

verus! {

/// A place for one hook and the callbacks around its detour.
///
/// The place is empty or holds the handle of the hook that is installed
/// through it; it never holds two.
pub struct StaticHook<C> {
    pub handle: Option<HookHandle>,
    pub before: Option<C>,
    pub after: Option<C>,
}

impl<C> StaticHook<C> {
    /// An empty place without callbacks.
    pub fn new() -> (r: Self)
        ensures
            r.handle is None,
            r.before is None,
            r.after is None,
    {
        StaticHook { handle: None, before: None, after: None }
    }

    /// Sets the callback to run before the detour.
    pub fn set_before(&mut self, cb: C)
        ensures
            final(self).before == Some(cb),
            final(self).after == old(self).after,
            final(self).handle == old(self).handle,
    {
        self.before = Some(cb);
    }

    /// Sets the callback to run after the detour.
    pub fn set_after(&mut self, cb: C)
        ensures
            final(self).after == Some(cb),
            final(self).before == old(self).before,
            final(self).handle == old(self).handle,
    {
        self.after = Some(cb);
    }

    /// Begins the installation of a hook on `target` through this place.
    ///
    /// Fails with `AlreadyHooked` where the place is taken, and otherwise as
    /// `HookBuilder::install` does for a hook without callbacks.
    pub fn install(
        &self,
        manager: &HookManager,
        registry: &HookRegistry<C>,
        backend: Backend,
        options: &Options,
        target: usize,
        detour: usize,
    ) -> (r: Result<(InstallOp<C>, Request), Error>)
        ensures
            self.handle is Some ==> r is Err && r->Err_0 == Error::AlreadyHooked,
            self.handle is None && (target == 0 || detour == 0) ==> r is Err && r->Err_0
                == Error::NullPointer,
            self.handle is None && target != 0 && detour != 0 && (registry.targets().contains_key(
                target,
            ) || registry.detours().contains_key(detour)) ==> r is Err && r->Err_0
                == Error::AlreadyHooked,
            self.handle is None && target != 0 && detour != 0 && !registry.targets().contains_key(
                target,
            ) && !registry.detours().contains_key(detour) ==> match spec_hook(
                manager@,
                backend,
                *options,
                target,
                detour,
            ) {
                Ok((op, request)) => {
                    &&& r matches Ok((started, asked))
                    &&& started.target == target
                    &&& started.detour == detour
                    &&& started.before is None
                    &&& started.after is None
                    &&& started.hook@ == op
                    &&& asked@ == request
                },
                Err(e) => r is Err && r->Err_0 == e,
            },
    {
        if self.handle.is_some() {
            return Err(Error::AlreadyHooked);
        }
        HookBuilder::new(target, detour).install(manager, registry, backend, options)
    }

    /// Takes in how the installation ended: the handle of a hook that was
    /// installed fills the place.
    pub fn installed(&mut self, outcome: Result<HookHandle, Error>) -> (r: Result<(), Error>)
        ensures
            final(self).before == old(self).before,
            final(self).after == old(self).after,
            match outcome {
                Ok(handle) => r is Ok && final(self).handle == Some(handle),
                Err(e) => r == Err::<(), Error>(e) && final(self).handle == old(self).handle,
            },
    {
        match outcome {
            Ok(handle) => {
                self.handle = Some(handle);
                Ok(())
            },
            Err(e) => Err(e),
        }
    }

    /// Begins the removal of the hook in this place and empties the place.
    ///
    /// Fails with `HookNotFound` where the place is empty, and otherwise as
    /// `HookHandle::unhook` does.
    pub fn uninstall(&mut self, manager: &mut HookManager, backend: Backend) -> (r: Result<
        (UnhookOp, Request),
        Error,
    >)
        ensures
            final(self).handle is None,
            final(self).before == old(self).before,
            final(self).after == old(self).after,
            old(self).handle is None ==> r is Err && r->Err_0 == Error::HookNotFound,
            old(self).handle is None ==> final(manager)@ == old(manager)@,
            old(self).handle matches Some(handle) ==> {
                &&& handle.target == 0 ==> r is Err && r->Err_0 == Error::NullPointer && final(manager)@
                    == old(manager)@
                &&& handle.target != 0 ==> final(manager)@ == spec_destroy(
                    old(manager)@,
                    backend,
                    handle.target,
                ).0 && match spec_destroy(old(manager)@, backend, handle.target).1 {
                    Ok((state, request)) => r is Ok && r->Ok_0.0.state == state && r->Ok_0.0.handle
                        == handle && r->Ok_0.1@ == request,
                    Err(e) => r is Err && r->Err_0 == e,
                }
            },
    {
        match self.handle.take() {
            Some(handle) => handle.unhook(manager, backend),
            None => Err(Error::HookNotFound),
        }
    }

    /// The address through which the original function is called.
    pub fn original(&self) -> (r: usize)
        requires
            self.handle is Some,
        ensures
            r == self.handle->Some_0.original,
    {
        match &self.handle {
            Some(handle) => handle.original,
            None => 0,
        }
    }
}

impl<C: Fn()> StaticHook<C> {
    /// Runs the callback that is set to run before the detour, if one is
    /// set: what that callback ensures of a call holds afterwards.
    pub fn call_before(&self)
        requires
            self.before matches Some(cb) ==> call_requires(cb, ()),
        ensures
            self.before matches Some(cb) ==> call_ensures(cb, (), ()),
    {
        match &self.before {
            Some(cb) => cb(),
            None => {},
        }
    }

    /// Runs the callback that is set to run after the detour, if one is
    /// set: what that callback ensures of a call holds afterwards.
    pub fn call_after(&self)
        requires
            self.after matches Some(cb) ==> call_requires(cb, ()),
        ensures
            self.after matches Some(cb) ==> call_ensures(cb, (), ()),
    {
        match &self.after {
            Some(cb) => cb(),
            None => {},
        }
    }
}

} // verus!
