//! The registry of installed hooks.
//!
//! One record stands for each hook that is installed, under the address that
//! it patched. An address has at most one record: a second hook on it is
//! refused until the first is taken out. A record is made when a build has
//! succeeded and leaves the registry when the removal of its hook begins.

use std::collections::HashMap;
use vstd::prelude::*;
use crate::engine::backend::{
    decoded_stolen, encoded_moved, hook_build, hook_destroy, spec_hook_build, spec_hook_destroy,
    spec_step, step, Backend, BuildState, BuildStateView, DestroyState, HookBuildView,
    Step, StepView,
};
use crate::error::Error;
use crate::options::Options;
use crate::platform::{Reply, ReplyView, Request, RequestView};

verus! {

broadcast use vstd::std_specs::hash::group_hash_axioms;

/// What it takes to remove one hook.
#[derive(Debug)]
pub struct HookInfo {
    /// The bytes that the detour overwrote.
    pub original: Vec<u8>,
    pub patch_len: usize,
    pub trampoline: usize,
    pub trampoline_size: usize,
}

/// The record of one installed hook.
pub ghost struct HookRecord {
    /// The bytes that were overwritten at the target, as they were.
    pub original_bytes: Seq<u8>,
    /// The number of bytes that were overwritten.
    pub patch_length: usize,
    /// The block that holds the trampoline, which this record owns.
    pub trampoline_address: usize,
    pub trampoline_size: usize,
}

impl View for HookInfo {
    type V = HookRecord;

    open spec fn view(&self) -> HookRecord {
        HookRecord {
            original_bytes: self.original@,
            patch_length: self.patch_len,
            trampoline_address: self.trampoline,
            trampoline_size: self.trampoline_size,
        }
    }
}

/// The record of the hook that `build` describes.
pub open spec fn record_of(build: HookBuildView) -> HookRecord {
    HookRecord {
        original_bytes: build.original,
        patch_length: build.patch_len,
        trampoline_address: build.trampoline,
        trampoline_size: build.trampoline_size,
    }
}

/// The installation of one hook, in progress.
#[derive(Debug)]
pub enum HookOp {
    /// The hook is being built.
    Building(BuildState),
    /// The hook was built, but its address had got a record meanwhile: the
    /// trampoline is being freed.
    Discarding,
}

/// A [`HookOp`] over views.
pub ghost enum HookOpView {
    Building(BuildStateView),
    Discarding,
}

impl View for HookOp {
    type V = HookOpView;

    open spec fn view(&self) -> HookOpView {
        match *self {
            HookOp::Building(state) => HookOpView::Building(state@),
            HookOp::Discarding => HookOpView::Discarding,
        }
    }
}

/// What a step of an installation leads to.
#[derive(Debug)]
pub enum HookProgress {
    Continue(HookOp, Request),
    /// The installation has ended; on success with the address of the
    /// trampoline, through which the original function is called.
    Done(Result<usize, Error>),
}

/// A [`HookProgress`] over views.
pub ghost enum HookProgressView {
    Continue(HookOpView, RequestView),
    Done(Result<usize, Error>),
}

impl View for HookProgress {
    type V = HookProgressView;

    open spec fn view(&self) -> HookProgressView {
        match *self {
            HookProgress::Continue(op, request) => HookProgressView::Continue(op@, request@),
            HookProgress::Done(r) => HookProgressView::Done(r),
        }
    }
}

/// The beginning of an installation at `target`: `AlreadyHooked` where the
/// address has a record, else the beginning of the build.
pub open spec fn spec_hook(
    registry: Map<usize, HookRecord>,
    backend: Backend,
    options: Options,
    target: usize,
    replacement: usize,
) -> Result<(HookOpView, RequestView), Error> {
    if registry.contains_key(target) {
        Err(Error::AlreadyHooked)
    } else {
        match spec_hook_build(backend, options, target, replacement) {
            Ok((state, request)) => Ok((HookOpView::Building(state), request)),
            Err(e) => Err(e),
        }
    }
}

/// What a step of the build means for the registry. A build that succeeded
/// gets its record, and the installation ends with the address of the
/// trampoline; should the address have got a record meanwhile, the registry
/// stays and the trampoline is freed.
pub open spec fn spec_settle(registry: Map<usize, HookRecord>, target: usize, outcome: StepView) -> (
    Map<usize, HookRecord>,
    HookProgressView,
) {
    match outcome {
        StepView::Continue(state, request) => (
            registry,
            HookProgressView::Continue(HookOpView::Building(state), request),
        ),
        StepView::Done(Err(e)) => (registry, HookProgressView::Done(Err(e))),
        StepView::Done(Ok(build)) => if registry.contains_key(target) {
            (
                registry,
                HookProgressView::Continue(
                    HookOpView::Discarding,
                    RequestView::FreeExecutable {
                        address: build.trampoline,
                        size: build.trampoline_size,
                    },
                ),
            )
        } else {
            (registry.insert(target, record_of(build)), HookProgressView::Done(Ok(build.trampoline)))
        },
    }
}

/// One step of an installation, given what decoding and encoding make of the
/// code.
pub open spec fn spec_hook_resume(
    registry: Map<usize, HookRecord>,
    op: HookOpView,
    reply: ReplyView,
    stolen: Option<nat>,
    moved: Option<Seq<u8>>,
) -> (Map<usize, HookRecord>, HookProgressView) {
    match op {
        HookOpView::Building(state) => spec_settle(
            registry,
            state.target,
            spec_step(state, reply, stolen, moved),
        ),
        HookOpView::Discarding => (registry, HookProgressView::Done(Err(Error::AlreadyHooked))),
    }
}

/// The beginning of the removal of the hook at `target`: `HookNotFound`
/// where the address has no record. Else the record leaves the registry, and
/// its bytes are what is written back.
pub open spec fn spec_destroy(registry: Map<usize, HookRecord>, backend: Backend, target: usize) -> (
    Map<usize, HookRecord>,
    Result<(DestroyState, RequestView), Error>,
) {
    if !registry.contains_key(target) {
        (registry, Err(Error::HookNotFound))
    } else {
        let record = registry[target];
        (
            registry.remove(target),
            spec_hook_destroy(
                backend,
                target,
                record.original_bytes,
                record.patch_length,
                record.trampoline_address,
                record.trampoline_size,
            ),
        )
    }
}

/// The registry of installed hooks, by the address that each patched.
pub struct HookManager {
    hooks: HashMap<usize, HookInfo>,
}

impl View for HookManager {
    type V = Map<usize, HookRecord>;

    closed spec fn view(&self) -> Map<usize, HookRecord> {
        Map::new(|k: usize| self.hooks@.contains_key(k), |k: usize| self.hooks@[k]@)
    }
}

impl HookManager {
    /// A registry without hooks.
    pub fn new() -> (r: HookManager)
        ensures
            r@ == Map::<usize, HookRecord>::empty(),
    {
        let r = HookManager { hooks: HashMap::new() };
        assert(r@ =~= Map::<usize, HookRecord>::empty());
        r
    }

    /// Whether the address `target` has a record.
    pub fn contains(&self, target: usize) -> (r: bool)
        ensures
            r == self@.contains_key(target),
    {
        self.hooks.contains_key(&target)
    }

    /// The address of the trampoline of the hook at `target`, if there is
    /// one.
    pub fn trampoline(&self, target: usize) -> (r: Option<usize>)
        ensures
            match r {
                Some(address) => self@.contains_key(target) && address
                    == self@[target].trampoline_address,
                None => !self@.contains_key(target),
            },
    {
        match self.hooks.get(&target) {
            Some(info) => Some(info.trampoline),
            None => None,
        }
    }

    /// Begins the installation of a hook at `target` that sends callers to
    /// `replacement`.
    ///
    /// Fails with `AlreadyHooked` where the address has a record, and with
    /// `UnsupportedPlatform` where there is no backend; in both cases nothing
    /// is asked of the platform.
    pub fn hook(&self, backend: Backend, options: &Options, target: usize, replacement: usize) -> (r:
        Result<(HookOp, Request), Error>)
        ensures
            match spec_hook(self@, backend, *options, target, replacement) {
                Ok((op, request)) => r is Ok && r->Ok_0.0@ == op && r->Ok_0.1@ == request,
                Err(e) => r == Err::<(HookOp, Request), Error>(e),
            },
    {
        if self.contains(target) {
            return Err(Error::AlreadyHooked);
        }
        match hook_build(backend, options, target, replacement) {
            Ok((state, request)) => Ok((HookOp::Building(state), request)),
            Err(e) => Err(e),
        }
    }

    /// Enters what a step of the build at `target` led to.
    pub fn settle(&mut self, target: usize, outcome: Step) -> (r: HookProgress)
        ensures
            (final(self)@, r@) == spec_settle(old(self)@, target, outcome@),
    {
        match outcome {
            Step::Continue(state, request) => HookProgress::Continue(
                HookOp::Building(state),
                request,
            ),
            Step::Done(Err(e)) => HookProgress::Done(Err(e)),
            Step::Done(Ok(build)) => {
                if self.contains(target) {
                    HookProgress::Continue(
                        HookOp::Discarding,
                        Request::FreeExecutable {
                            address: build.trampoline,
                            size: build.trampoline_size,
                        },
                    )
                } else {
                    let trampoline: usize = build.trampoline;
                    let info = HookInfo {
                        original: build.original,
                        patch_len: build.patch_len,
                        trampoline: build.trampoline,
                        trampoline_size: build.trampoline_size,
                    };
                    self.hooks.insert(target, info);
                    assert(self@ =~= old(self)@.insert(target, record_of(build@)));
                    HookProgress::Done(Ok(trampoline))
                }
            },
        }
    }

    /// Takes one step of an installation: `reply` is what the platform
    /// answered to the request of the step before.
    ///
    /// The step is the one that `spec_hook_resume` gives for what the decoder
    /// and the encoder make of the code. Should the decoder not be had, the
    /// step is the one for code that cannot be decoded or moved.
    pub fn hook_resume(&mut self, op: HookOp, reply: Reply) -> (r: HookProgress)
        ensures
            (final(self)@, r@) == spec_hook_resume(
                old(self)@,
                op@,
                reply@,
                match op@ {
                    HookOpView::Building(state) => decoded_stolen(state, reply@),
                    HookOpView::Discarding => None,
                },
                match op@ {
                    HookOpView::Building(state) => encoded_moved(state, reply@),
                    HookOpView::Discarding => None,
                },
            ) || (final(self)@, r@) == spec_hook_resume(old(self)@, op@, reply@, None, None),
    {
        match op {
            HookOp::Building(state) => {
                let target: usize = state.target;
                let outcome: Step = step(state, reply);
                self.settle(target, outcome)
            },
            HookOp::Discarding => HookProgress::Done(Err(Error::AlreadyHooked)),
        }
    }

    /// Begins the removal of the hook at `target`.
    ///
    /// Fails with `HookNotFound` where the address has no record; the
    /// registry stays as it is and nothing is asked of the platform. Else
    /// the record leaves the registry, whatever comes of the removal.
    pub fn destroy(&mut self, backend: Backend, target: usize) -> (r: Result<
        (DestroyState, Request),
        Error,
    >)
        ensures
            final(self)@ == spec_destroy(old(self)@, backend, target).0,
            match spec_destroy(old(self)@, backend, target).1 {
                Ok((state, request)) => r is Ok && r->Ok_0.0 == state && r->Ok_0.1@ == request,
                Err(e) => r == Err::<(DestroyState, Request), Error>(e),
            },
    {
        match self.hooks.remove(&target) {
            None => {
                assert(self@ =~= old(self)@);
                Err(Error::HookNotFound)
            },
            Some(info) => {
                assert(self@ =~= old(self)@.remove(target));
                hook_destroy(
                    backend,
                    target,
                    info.original,
                    info.patch_len,
                    info.trampoline,
                    info.trampoline_size,
                )
            },
        }
    }
}

/// An address carries one hook at a time.
///
/// Once an installation at `target` has succeeded, every further one at that
/// address is refused with `AlreadyHooked`, whatever it asks for, and a
/// refusal asks nothing of the platform. This holds until the hook at the
/// address is removed.
pub proof fn lemma_single_ownership(
    registry: Map<usize, HookRecord>,
    target: usize,
    build: HookBuildView,
    backend: Backend,
    options: Options,
    replacement: usize,
)
    ensures
        spec_hook(
            spec_settle(registry, target, StepView::Done(Ok(build))).0,
            backend,
            options,
            target,
            replacement,
        ) == Err::<(HookOpView, RequestView), Error>(Error::AlreadyHooked),
{
}

/// To remove a hook from an address that carries none fails with
/// `HookNotFound`, leaves the registry as it is and asks nothing of the
/// platform.
pub proof fn lemma_unknown_teardown(registry: Map<usize, HookRecord>, backend: Backend, target: usize)
    requires
        !registry.contains_key(target),
    ensures
        spec_destroy(registry, backend, target) == (
            registry,
            Err::<(DestroyState, RequestView), Error>(Error::HookNotFound),
        ),
{
}

/// After a hook is removed its address is free again: an installation there
/// is not refused for a hook in the way.
pub proof fn lemma_destroy_frees_address(
    registry: Map<usize, HookRecord>,
    backend: Backend,
    options: Options,
    target: usize,
    replacement: usize,
)
    requires
        registry.contains_key(target),
    ensures
        spec_hook(spec_destroy(registry, backend, target).0, backend, options, target, replacement)
            != Err::<(HookOpView, RequestView), Error>(Error::AlreadyHooked),
{
}

} // verus!
