//! Hooks with callbacks: handles, the builder and the registry behind them.

pub mod builder;
pub mod handle;
pub mod registry;
pub mod static_hook;

use vstd::prelude::*;
use crate::engine::backend::Backend;
use crate::engine::manager::{spec_hook, HookManager};
use crate::error::Error;
use crate::hook_utils::builder::{HookBuilder, InstallOp};
use crate::hook_utils::registry::HookRegistry;
use crate::options::Options;
use crate::platform::Request;

verus! {

/// What the beginning of an installation on `target` with the callbacks
/// `before` and `after` has to return: `NullPointer` where target or detour
/// is null, `AlreadyHooked` where either is in use by a hook of this layer,
/// and otherwise what the engine's `hook` begins with.
pub open spec fn install_begins<C>(
    manager: &HookManager,
    registry: &HookRegistry<C>,
    backend: Backend,
    options: &Options,
    target: usize,
    detour: usize,
    before: Option<C>,
    after: Option<C>,
    r: Result<(InstallOp<C>, Request), Error>,
) -> bool {
    if target == 0 || detour == 0 {
        r is Err && r->Err_0 == Error::NullPointer
    } else if registry.targets().contains_key(target) || registry.detours().contains_key(detour) {
        r is Err && r->Err_0 == Error::AlreadyHooked
    } else {
        match spec_hook(manager@, backend, *options, target, detour) {
            Ok((op, request)) => {
                &&& r matches Ok((started, asked))
                &&& started.target == target
                &&& started.detour == detour
                &&& started.before == before
                &&& started.after == after
                &&& started.hook@ == op
                &&& asked@ == request
            },
            Err(e) => r is Err && r->Err_0 == e,
        }
    }
}

/// Begins the installation of a hook on `target` with the callbacks given.
pub fn hook_fn_with<C>(
    manager: &HookManager,
    registry: &HookRegistry<C>,
    backend: Backend,
    options: &Options,
    target: usize,
    detour: usize,
    before: Option<C>,
    after: Option<C>,
) -> (r: Result<(InstallOp<C>, Request), Error>)
    ensures
        install_begins(manager, registry, backend, options, target, detour, before, after, r),
{
    let mut b: HookBuilder<C> = HookBuilder::new(target, detour);
    match before {
        Some(callback) => {
            b = b.before(callback);
        },
        None => {},
    }
    match after {
        Some(callback) => {
            b = b.after(callback);
        },
        None => {},
    }
    b.install(manager, registry, backend, options)
}

/// Begins the installation of a hook on `target` without callbacks.
pub fn hook_fn<C>(
    manager: &HookManager,
    registry: &HookRegistry<C>,
    backend: Backend,
    options: &Options,
    target: usize,
    detour: usize,
) -> (r: Result<(InstallOp<C>, Request), Error>)
    ensures
        install_begins(manager, registry, backend, options, target, detour, None, None, r),
{
    HookBuilder::new(target, detour).install(manager, registry, backend, options)
}

/// Begins the installation of a hook on `target` without callbacks.
pub fn install<C>(
    manager: &HookManager,
    registry: &HookRegistry<C>,
    backend: Backend,
    options: &Options,
    target: usize,
    detour: usize,
) -> (r: Result<(InstallOp<C>, Request), Error>)
    ensures
        install_begins(manager, registry, backend, options, target, detour, None, None, r),
{
    hook_fn(manager, registry, backend, options, target, detour)
}

/// Begins the installation of a hook on the address `target`.
pub fn install_addr<C>(
    manager: &HookManager,
    registry: &HookRegistry<C>,
    backend: Backend,
    options: &Options,
    target: usize,
    detour: usize,
) -> (r: Result<(InstallOp<C>, Request), Error>)
    ensures
        install_begins(manager, registry, backend, options, target, detour, None, None, r),
{
    HookBuilder::new(target, detour).install(manager, registry, backend, options)
}

/// Runs the callback that is entered to run before `detour`, if there is
/// one: what that callback ensures of a call holds afterwards.
pub fn call_before<C: Fn()>(registry: &HookRegistry<C>, detour: usize)
    requires
        registry.detours().contains_key(detour) ==> (registry.detours()[detour].before matches Some(
            cb,
        ) ==> call_requires(cb, ())),
    ensures
        registry.detours().contains_key(detour) ==> (registry.detours()[detour].before matches Some(
            cb,
        ) ==> call_ensures(cb, (), ())),
{
    match registry.get_before(detour) {
        Some(cb) => cb(),
        None => {},
    }
}

/// Runs the callback that is entered to run after `detour`, if there is
/// one: what that callback ensures of a call holds afterwards.
pub fn call_after<C: Fn()>(registry: &HookRegistry<C>, detour: usize)
    requires
        registry.detours().contains_key(detour) ==> (registry.detours()[detour].after matches Some(
            cb,
        ) ==> call_requires(cb, ())),
    ensures
        registry.detours().contains_key(detour) ==> (registry.detours()[detour].after matches Some(
            cb,
        ) ==> call_ensures(cb, (), ())),
{
    match registry.get_after(detour) {
        Some(cb) => cb(),
        None => {},
    }
}

/// The address through which the original function behind `detour` is
/// called, if `detour` is entered.
pub fn original<C>(registry: &HookRegistry<C>, detour: usize) -> (r: Option<usize>)
    ensures
        registry.detours().contains_key(detour) ==> r == Some(registry.detours()[detour].original),
        !registry.detours().contains_key(detour) ==> r is None,
{
    registry.get_original(detour)
}

} // verus!
