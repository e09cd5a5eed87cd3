//! Building the hook at one address.
//!
//! A build reads the code at the target, allocates a trampoline, fills it
//! with the stolen instructions and a jump back, and at last overwrites the
//! target with a jump to the replacement. Every one of these touches the
//! process, so a build is a state machine: each step takes what the platform
//! answered to the last request and says what to ask next, or how the build
//! ended. The overwrite is the last request of a build that succeeds, and a
//! build that fails frees the trampoline that it holds before it ends.

pub mod unix_aarch64;
pub mod x86_64_common;

use vstd::prelude::*;
use vstd::slice::slice_subrange;
use crate::bytes::append_bytes;
use crate::engine::backend::unix_aarch64::UnixAarch64;
use crate::engine::backend::x86_64_common::{
    assemble_trampoline, decode_prologue, detour_with_nops, move_code, moved_code, reencoded,
    stolen_len, Moved, MIN_PATCH_LEN,
};
use crate::error::Error;
use crate::options::Options;
use crate::platform::{Reply, ReplyView, Request, RequestView};

verus! {

/// The size of the block that holds a trampoline.
pub const TRAMPOLINE_SIZE: usize = 256;

/// How far from the target a near trampoline may lie: the reach of a signed
/// 32-bit displacement.
pub const NEAR_RANGE: usize = 0x7fff_ffff;

/// The number of bytes to read at an x86-64 target: enough for every
/// instruction that begins within the first `MIN_PATCH_LEN` bytes.
pub const X86_64_WINDOW: usize = 64;

/// The operating system and architecture that the engine works on.
#[derive(Clone, Copy, Debug, PartialEq, Eq, Structural)]
pub enum Backend {
    UnixAarch64,
    UnixX86_64,
    WindowsX86_64,
    /// No backend exists for this target: every operation fails.
    Unsupported,
}

impl Backend {
    /// Whether the instructions are x86-64.
    pub open spec fn spec_is_x86_64(self) -> bool {
        self == Backend::UnixX86_64 || self == Backend::WindowsX86_64
    }

    /// Whether hooks can be built at all.
    pub open spec fn spec_is_supported(self) -> bool {
        self != Backend::Unsupported
    }

    /// The number of bytes to read at a target.
    pub open spec fn spec_window(self) -> usize {
        if self.spec_is_x86_64() {
            X86_64_WINDOW
        } else {
            UnixAarch64::PATCH_LEN
        }
    }

    #[verifier::when_used_as_spec(spec_is_x86_64)]
    pub fn is_x86_64(self) -> (r: bool)
        ensures
            r == self.spec_is_x86_64(),
    {
        match self {
            Backend::UnixX86_64 => true,
            Backend::WindowsX86_64 => true,
            _ => false,
        }
    }

    #[verifier::when_used_as_spec(spec_is_supported)]
    pub fn is_supported(self) -> (r: bool)
        ensures
            r == self.spec_is_supported(),
    {
        match self {
            Backend::Unsupported => false,
            _ => true,
        }
    }

    #[verifier::when_used_as_spec(spec_window)]
    pub fn window(self) -> (r: usize)
        ensures
            r == self.spec_window(),
    {
        if self.is_x86_64() {
            X86_64_WINDOW
        } else {
            UnixAarch64::PATCH_LEN
        }
    }
}

/// A hook that was built: what it takes to call the original function and to
/// take the hook out again.
#[derive(Debug)]
pub struct HookBuild {
    /// The address of the trampoline, which is the way to the original
    /// function.
    pub trampoline: usize,
    pub trampoline_size: usize,
    /// The bytes that the detour overwrote.
    pub original: Vec<u8>,
    pub patch_len: usize,
}

/// A [`HookBuild`] with its bytes as a sequence.
pub ghost struct HookBuildView {
    pub trampoline: usize,
    pub trampoline_size: usize,
    pub original: Seq<u8>,
    pub patch_len: usize,
}

impl View for HookBuild {
    type V = HookBuildView;

    open spec fn view(&self) -> HookBuildView {
        HookBuildView {
            trampoline: self.trampoline,
            trampoline_size: self.trampoline_size,
            original: self.original@,
            patch_len: self.patch_len,
        }
    }
}

/// Where a build stands: what it waits for.
#[derive(Clone, Copy, Debug, PartialEq, Eq, Structural)]
pub enum Phase {
    /// For the code at the target.
    Reading,
    /// For the first trampoline block.
    Allocating,
    /// For the first block, which was out of reach, to be freed.
    Retrying,
    /// For the allocation callback to offer a block.
    AskingCallback,
    /// For a block near the target.
    AllocatingNear,
    /// For the trampoline to be written.
    Writing,
    /// For the target to be overwritten.
    Patching,
    /// For the trampoline to be freed, after a failure.
    Abandoning,
}

/// A build in progress.
#[derive(Debug)]
pub struct BuildState {
    pub backend: Backend,
    /// The address to hook.
    pub target: usize,
    /// The address to send callers to.
    pub replacement: usize,
    /// The address of the allocation callback; zero for none.
    pub callback: usize,
    pub phase: Phase,
    /// The stolen bytes, once they are read.
    pub original: Vec<u8>,
    /// The trampoline block, once there is one.
    pub trampoline: usize,
    /// Why the build is given up, once it is.
    pub error: Error,
}

/// A [`BuildState`] with its bytes as a sequence.
pub ghost struct BuildStateView {
    pub backend: Backend,
    pub target: usize,
    pub replacement: usize,
    pub callback: usize,
    pub phase: Phase,
    pub original: Seq<u8>,
    pub trampoline: usize,
    pub error: Error,
}

impl View for BuildState {
    type V = BuildStateView;

    open spec fn view(&self) -> BuildStateView {
        BuildStateView {
            backend: self.backend,
            target: self.target,
            replacement: self.replacement,
            callback: self.callback,
            phase: self.phase,
            original: self.original@,
            trampoline: self.trampoline,
            error: self.error,
        }
    }
}

/// What a step of a build leads to.
#[derive(Debug)]
pub enum Step {
    /// The build goes on: the platform is to handle the request and to hand
    /// its reply to the next step.
    Continue(BuildState, Request),
    /// The build has ended.
    Done(Result<HookBuild, Error>),
}

/// A [`Step`] over views.
pub ghost enum StepView {
    Continue(BuildStateView, RequestView),
    Done(Result<HookBuildView, Error>),
}

impl View for Step {
    type V = StepView;

    open spec fn view(&self) -> StepView {
        match *self {
            Step::Continue(state, request) => StepView::Continue(state@, request@),
            Step::Done(Ok(build)) => StepView::Done(Ok(build@)),
            Step::Done(Err(e)) => StepView::Done(Err(e)),
        }
    }
}

// ---------------------------------------------------------------------------
// The transitions
// ---------------------------------------------------------------------------

/// The first request of a build, and the state that waits for its answer;
/// `UnsupportedPlatform` where there is no backend.
pub open spec fn spec_hook_build(backend: Backend, options: Options, target: usize, replacement: usize)
    -> Result<(BuildStateView, RequestView), Error> {
    if !backend.spec_is_supported() {
        Err(Error::UnsupportedPlatform)
    } else {
        Ok(
            (
                BuildStateView {
                    backend,
                    target,
                    replacement,
                    callback: options.alloc_near_code_callback,
                    phase: Phase::Reading,
                    original: Seq::empty(),
                    trampoline: 0,
                    error: Error::InvalidInput,
                },
                RequestView::ReadCode { address: target, len: backend.spec_window() },
            ),
        )
    }
}

/// Gives the build up with `error`: the trampoline block is freed first.
pub open spec fn spec_abandon(s: BuildStateView, error: Error) -> StepView {
    StepView::Continue(
        BuildStateView { phase: Phase::Abandoning, error, ..s },
        RequestView::FreeExecutable { address: s.trampoline, size: TRAMPOLINE_SIZE },
    )
}

/// After the code at the target was read: the stolen bytes are fixed and the
/// trampoline block is asked for. On x86-64 `stolen` is the number of bytes
/// that decoding found, if it found one.
pub open spec fn spec_after_read(s: BuildStateView, code: Seq<u8>, stolen: Option<nat>) -> StepView {
    let next = RequestView::AllocExecutable { size: TRAMPOLINE_SIZE };
    if s.backend.spec_is_x86_64() {
        match stolen {
            Some(n) if MIN_PATCH_LEN <= n <= code.len() => StepView::Continue(
                BuildStateView { phase: Phase::Allocating, original: code.take(n as int), ..s },
                next,
            ),
            _ => StepView::Done(Err(Error::DecodeFailed)),
        }
    } else if !s.backend.spec_is_supported() {
        StepView::Done(Err(Error::UnsupportedPlatform))
    } else if code.len() < UnixAarch64::PATCH_LEN {
        StepView::Done(Err(Error::InvalidInput))
    } else {
        StepView::Continue(
            BuildStateView {
                phase: Phase::Allocating,
                original: code.take(UnixAarch64::PATCH_LEN as int),
                ..s
            },
            next,
        )
    }
}

/// What the trampoline at `trampoline` holds. On x86-64 `moved` is what the
/// encoder made of the stolen instructions there, if it could move them.
pub open spec fn spec_image(s: BuildStateView, trampoline: usize, moved: Option<Seq<u8>>) -> Result<
    Seq<u8>,
    Error,
> {
    if s.backend.spec_is_x86_64() {
        x86_64_common::spec_assemble(
            moved,
            s.target as u64,
            s.original.len(),
            TRAMPOLINE_SIZE as nat,
        )
    } else if s.original.len() < 4 {
        Err(Error::RelocationFailed)
    } else if unix_aarch64::spec_trampoline(s.original, s.target as u64, trampoline as u64).len()
        > TRAMPOLINE_SIZE {
        Err(Error::EncodeFailed)
    } else {
        Ok(unix_aarch64::spec_trampoline(s.original, s.target as u64, trampoline as u64))
    }
}

/// After a block for the trampoline was had. Where x86-64 instructions cannot
/// be moved to the first block, the block is freed and one near the target is
/// sought; any other failure gives the build up.
pub open spec fn spec_after_alloc(
    s: BuildStateView,
    trampoline: usize,
    moved: Option<Seq<u8>>,
    first: bool,
) -> StepView {
    let held = BuildStateView { trampoline, ..s };
    if s.backend.spec_is_x86_64() && first && moved is None {
        StepView::Continue(
            BuildStateView { phase: Phase::Retrying, ..held },
            RequestView::FreeExecutable { address: trampoline, size: TRAMPOLINE_SIZE },
        )
    } else {
        match spec_image(held, trampoline, moved) {
            Ok(image) => StepView::Continue(
                BuildStateView { phase: Phase::Writing, ..held },
                RequestView::WriteTrampoline { address: trampoline, bytes: image },
            ),
            Err(e) => spec_abandon(held, e),
        }
    }
}

/// The request for a block near the target.
pub open spec fn spec_alloc_near(s: BuildStateView) -> StepView {
    StepView::Continue(
        BuildStateView { phase: Phase::AllocatingNear, ..s },
        RequestView::AllocExecutableNear {
            size: TRAMPOLINE_SIZE,
            anchor: s.target,
            range: NEAR_RANGE,
        },
    )
}

/// The second try for a block: the registered callback is asked where there
/// is one, the platform where there is none.
pub open spec fn spec_retry(s: BuildStateView) -> StepView {
    if s.callback != 0 {
        StepView::Continue(
            BuildStateView { phase: Phase::AskingCallback, ..s },
            RequestView::CallAllocCallback {
                callback: s.callback,
                size: TRAMPOLINE_SIZE as u32,
                anchor: s.target,
                range: NEAR_RANGE,
            },
        )
    } else {
        spec_alloc_near(s)
    }
}

/// The bytes that overwrite the target: a jump to the replacement over all
/// the stolen bytes. `PatchTooSmall` where the stolen bytes cannot hold it.
pub open spec fn spec_detour(s: BuildStateView) -> Result<Seq<u8>, Error> {
    if s.backend.spec_is_x86_64() {
        if s.original.len() < MIN_PATCH_LEN {
            Err(Error::PatchTooSmall)
        } else {
            Ok(x86_64_common::spec_detour(s.replacement as u64, s.original.len()))
        }
    } else if s.original.len() != UnixAarch64::PATCH_LEN {
        Err(Error::PatchTooSmall)
    } else {
        Ok(unix_aarch64::spec_abs_jmp(s.replacement as u64))
    }
}

/// After the trampoline was written: the target is overwritten.
pub open spec fn spec_after_write(s: BuildStateView) -> StepView {
    match spec_detour(s) {
        Ok(bytes) => StepView::Continue(
            BuildStateView { phase: Phase::Patching, ..s },
            RequestView::PatchCode { address: s.target, bytes },
        ),
        Err(e) => spec_abandon(s, e),
    }
}

/// The hook that a build has made.
pub open spec fn spec_built(s: BuildStateView) -> HookBuildView {
    HookBuildView {
        trampoline: s.trampoline,
        trampoline_size: TRAMPOLINE_SIZE,
        original: s.original,
        patch_len: s.original.len() as usize,
    }
}

/// One step of a build: from the state `s` and the platform's `reply` to the
/// next state and request, or to the end.
///
/// `stolen` and `moved` are what decoding and encoding made of x86-64 code;
/// they count only in the steps that decode or encode. A reply of a kind
/// that the state does not wait for ends the build with `InvalidInput`.
pub open spec fn spec_step(
    s: BuildStateView,
    reply: ReplyView,
    stolen: Option<nat>,
    moved: Option<Seq<u8>>,
) -> StepView {
    match s.phase {
        Phase::Reading => match reply {
            ReplyView::Code(code) => spec_after_read(s, code, stolen),
            _ => StepView::Done(Err(Error::InvalidInput)),
        },
        Phase::Allocating => match reply {
            ReplyView::Allocated(Ok(block)) => spec_after_alloc(s, block, moved, true),
            ReplyView::Allocated(Err(e)) => StepView::Done(Err(e)),
            _ => StepView::Done(Err(Error::InvalidInput)),
        },
        Phase::Retrying => spec_retry(s),
        Phase::AskingCallback => match reply {
            ReplyView::CallbackResult(block) => if block == 0 {
                spec_alloc_near(s)
            } else {
                spec_after_alloc(s, block, moved, false)
            },
            _ => StepView::Done(Err(Error::InvalidInput)),
        },
        Phase::AllocatingNear => match reply {
            ReplyView::Allocated(Ok(block)) => spec_after_alloc(s, block, moved, false),
            ReplyView::Allocated(Err(e)) => StepView::Done(Err(e)),
            _ => StepView::Done(Err(Error::InvalidInput)),
        },
        Phase::Writing => match reply {
            ReplyView::Completed(Ok(())) => spec_after_write(s),
            ReplyView::Completed(Err(e)) => spec_abandon(s, e),
            _ => spec_abandon(s, Error::InvalidInput),
        },
        Phase::Patching => match reply {
            ReplyView::Completed(Ok(())) => StepView::Done(Ok(spec_built(s))),
            ReplyView::Completed(Err(e)) => spec_abandon(s, e),
            _ => spec_abandon(s, Error::InvalidInput),
        },
        Phase::Abandoning => StepView::Done(Err(s.error)),
    }
}

/// The block that `reply` offers for the trampoline, if it offers one.
pub open spec fn offered_block(reply: ReplyView) -> Option<usize> {
    match reply {
        ReplyView::Allocated(Ok(block)) => Some(block),
        ReplyView::CallbackResult(block) => Some(block),
        _ => None,
    }
}

/// What the decoder makes of the code that `reply` holds: the number of bytes
/// to steal.
pub open spec fn decoded_stolen(s: BuildStateView, reply: ReplyView) -> Option<nat> {
    match reply {
        ReplyView::Code(code) => stolen_len(code, s.target as u64),
        _ => None,
    }
}

/// What the encoder makes of the stolen instructions at the block that
/// `reply` offers.
pub open spec fn encoded_moved(s: BuildStateView, reply: ReplyView) -> Option<Seq<u8>> {
    match offered_block(reply) {
        Some(block) => reencoded(s.original, s.target as u64, block as u64),
        None => None,
    }
}

// ---------------------------------------------------------------------------
// The machine
// ---------------------------------------------------------------------------

/// Begins the build of a hook at `target` that sends callers to
/// `replacement`: the code at the target is to be read.
///
/// Fails with `UnsupportedPlatform`, before anything is asked of the
/// platform, where there is no backend.
pub fn hook_build(backend: Backend, options: &Options, target: usize, replacement: usize) -> (r:
    Result<(BuildState, Request), Error>)
    ensures
        match spec_hook_build(backend, *options, target, replacement) {
            Ok((state, request)) => r is Ok && r->Ok_0.0@ == state && r->Ok_0.1@ == request,
            Err(e) => r == Err::<(BuildState, Request), Error>(e),
        },
{
    if !backend.is_supported() {
        return Err(Error::UnsupportedPlatform);
    }
    let state = BuildState {
        backend,
        target,
        replacement,
        callback: options.alloc_near_code_callback,
        phase: Phase::Reading,
        original: Vec::new(),
        trampoline: 0,
        error: Error::InvalidInput,
    };
    Ok((state, Request::ReadCode { address: target, len: backend.window() }))
}

fn abandon(state: BuildState, error: Error) -> (r: Step)
    ensures
        r@ == spec_abandon(state@, error),
{
    let address: usize = state.trampoline;
    Step::Continue(
        BuildState { phase: Phase::Abandoning, error, ..state },
        Request::FreeExecutable { address, size: TRAMPOLINE_SIZE },
    )
}

/// The first `n` bytes of `code`.
fn prefix(code: &Vec<u8>, n: usize) -> (r: Vec<u8>)
    requires
        n <= code@.len(),
    ensures
        r@ == code@.take(n as int),
{
    let mut out: Vec<u8> = Vec::new();
    append_bytes(&mut out, slice_subrange(code.as_slice(), 0, n));
    assert(out@ =~= code@.take(n as int));
    out
}

/// The number of stolen bytes as the transitions take it.
pub open spec fn stolen_view(stolen: Option<usize>) -> Option<nat> {
    match stolen {
        Some(n) => Some(n as nat),
        None => None,
    }
}

fn after_read(state: BuildState, code: Vec<u8>, stolen: Option<usize>) -> (r: Step)
    ensures
        r@ == spec_after_read(state@, code@, stolen_view(stolen)),
{
    let next = Request::AllocExecutable { size: TRAMPOLINE_SIZE };
    if state.backend.is_x86_64() {
        match stolen {
            Some(n) => {
                if MIN_PATCH_LEN <= n && n <= code.len() {
                    let original: Vec<u8> = prefix(&code, n);
                    Step::Continue(BuildState { phase: Phase::Allocating, original, ..state }, next)
                } else {
                    Step::Done(Err(Error::DecodeFailed))
                }
            },
            None => Step::Done(Err(Error::DecodeFailed)),
        }
    } else if !state.backend.is_supported() {
        Step::Done(Err(Error::UnsupportedPlatform))
    } else if code.len() < UnixAarch64::PATCH_LEN {
        Step::Done(Err(Error::InvalidInput))
    } else {
        let original: Vec<u8> = prefix(&code, UnixAarch64::PATCH_LEN);
        Step::Continue(BuildState { phase: Phase::Allocating, original, ..state }, next)
    }
}

fn after_alloc(state: BuildState, block: usize, moved: Moved, first: bool) -> (r: Step)
    ensures
        r@ == spec_after_alloc(state@, block, moved_code(moved), first),
{
    let held = BuildState { trampoline: block, ..state };
    let x86_64: bool = held.backend.is_x86_64();
    let movable: bool = match moved {
        Moved::Code(_) => true,
        _ => false,
    };
    if x86_64 && first && !movable {
        return Step::Continue(
            BuildState { phase: Phase::Retrying, ..held },
            Request::FreeExecutable { address: block, size: TRAMPOLINE_SIZE },
        );
    }
    let image: Result<Vec<u8>, Error> = if x86_64 {
        assemble_trampoline(moved, held.target as u64, held.original.len(), TRAMPOLINE_SIZE)
    } else {
        UnixAarch64::build_trampoline(
            held.original.as_slice(),
            held.target as u64,
            block as u64,
            TRAMPOLINE_SIZE,
        )
    };
    match image {
        Ok(bytes) => Step::Continue(
            BuildState { phase: Phase::Writing, ..held },
            Request::WriteTrampoline { address: block, bytes },
        ),
        Err(e) => abandon(held, e),
    }
}

fn alloc_near(state: BuildState) -> (r: Step)
    ensures
        r@ == spec_alloc_near(state@),
{
    let anchor: usize = state.target;
    Step::Continue(
        BuildState { phase: Phase::AllocatingNear, ..state },
        Request::AllocExecutableNear { size: TRAMPOLINE_SIZE, anchor, range: NEAR_RANGE },
    )
}

fn retry(state: BuildState) -> (r: Step)
    ensures
        r@ == spec_retry(state@),
{
    if state.callback != 0 {
        let callback: usize = state.callback;
        let anchor: usize = state.target;
        Step::Continue(
            BuildState { phase: Phase::AskingCallback, ..state },
            Request::CallAllocCallback {
                callback,
                size: TRAMPOLINE_SIZE as u32,
                anchor,
                range: NEAR_RANGE,
            },
        )
    } else {
        alloc_near(state)
    }
}

fn after_write(state: BuildState) -> (r: Step)
    ensures
        r@ == spec_after_write(state@),
{
    let address: usize = state.target;
    if state.backend.is_x86_64() {
        if state.original.len() < MIN_PATCH_LEN {
            abandon(state, Error::PatchTooSmall)
        } else {
            let bytes: Vec<u8> = detour_with_nops(state.replacement as u64, state.original.len());
            Step::Continue(
                BuildState { phase: Phase::Patching, ..state },
                Request::PatchCode { address, bytes },
            )
        }
    } else if state.original.len() != UnixAarch64::PATCH_LEN {
        abandon(state, Error::PatchTooSmall)
    } else {
        let jump: [u8; 16] = UnixAarch64::abs_jmp(state.replacement as u64);
        let mut bytes: Vec<u8> = Vec::new();
        append_bytes(&mut bytes, jump.as_slice());
        assert(bytes@ =~= unix_aarch64::spec_abs_jmp(state.replacement as u64));
        Step::Continue(
            BuildState { phase: Phase::Patching, ..state },
            Request::PatchCode { address, bytes },
        )
    }
}

/// Takes one step of a build, given what decoding and encoding made of the
/// code: `stolen` is the number of bytes to steal, `moved` the outcome of
/// moving the stolen instructions to the block that `reply` offers.
pub fn advance(state: BuildState, reply: Reply, stolen: Option<usize>, moved: Moved) -> (r: Step)
    ensures
        r@ == spec_step(state@, reply@, stolen_view(stolen), moved_code(moved)),
{
    match state.phase {
        Phase::Reading => match reply {
            Reply::Code(code) => after_read(state, code, stolen),
            _ => Step::Done(Err(Error::InvalidInput)),
        },
        Phase::Allocating => match reply {
            Reply::Allocated(Ok(block)) => after_alloc(state, block, moved, true),
            Reply::Allocated(Err(e)) => Step::Done(Err(e)),
            _ => Step::Done(Err(Error::InvalidInput)),
        },
        Phase::Retrying => retry(state),
        Phase::AskingCallback => match reply {
            Reply::CallbackResult(block) => {
                if block == 0 {
                    alloc_near(state)
                } else {
                    after_alloc(state, block, moved, false)
                }
            },
            _ => Step::Done(Err(Error::InvalidInput)),
        },
        Phase::AllocatingNear => match reply {
            Reply::Allocated(Ok(block)) => after_alloc(state, block, moved, false),
            Reply::Allocated(Err(e)) => Step::Done(Err(e)),
            _ => Step::Done(Err(Error::InvalidInput)),
        },
        Phase::Writing => match reply {
            Reply::Completed(Ok(())) => after_write(state),
            Reply::Completed(Err(e)) => abandon(state, e),
            _ => abandon(state, Error::InvalidInput),
        },
        Phase::Patching => match reply {
            Reply::Completed(Ok(())) => {
                let patch_len: usize = state.original.len();
                Step::Done(
                    Ok(
                        HookBuild {
                            trampoline: state.trampoline,
                            trampoline_size: TRAMPOLINE_SIZE,
                            original: state.original,
                            patch_len,
                        },
                    ),
                )
            },
            Reply::Completed(Err(e)) => abandon(state, e),
            _ => abandon(state, Error::InvalidInput),
        },
        Phase::Abandoning => Step::Done(Err(state.error)),
    }
}

/// Whether the step from `state` on `reply` decodes the code that was read.
fn decodes(state: &BuildState, reply: &Reply) -> (r: bool)
    ensures
        r == (state.phase == Phase::Reading && state.backend.spec_is_x86_64() && reply is Code),
{
    let reading: bool = match state.phase {
        Phase::Reading => true,
        _ => false,
    };
    let code: bool = match reply {
        Reply::Code(_) => true,
        _ => false,
    };
    reading && code && state.backend.is_x86_64()
}

/// The block to which the step from `state` on `reply` moves the stolen
/// instructions, if it moves them.
fn encodes(state: &BuildState, reply: &Reply) -> (r: Option<usize>)
    ensures
        r == (if state.backend.spec_is_x86_64() && (state.phase == Phase::Allocating || state.phase
            == Phase::AllocatingNear || state.phase == Phase::AskingCallback) {
            offered_block(reply@)
        } else {
            None
        }),
{
    let waiting: bool = match state.phase {
        Phase::Allocating => true,
        Phase::AllocatingNear => true,
        Phase::AskingCallback => true,
        _ => false,
    };
    if !(waiting && state.backend.is_x86_64()) {
        return None;
    }
    match reply {
        Reply::Allocated(Ok(block)) => Some(*block),
        Reply::CallbackResult(block) => Some(*block),
        _ => None,
    }
}

/// Takes one step of a build: `reply` is what the platform answered to the
/// request of the step before.
///
/// The step is the one that `spec_step` gives for what the decoder and the
/// encoder make of the code. Should the decoder not be had, the step is the
/// one for code that cannot be decoded or moved.
pub fn step(state: BuildState, reply: Reply) -> (r: Step)
    ensures
        r@ == spec_step(
            state@,
            reply@,
            decoded_stolen(state@, reply@),
            encoded_moved(state@, reply@),
        ) || r@ == spec_step(state@, reply@, None, None),
{
    let stolen: Option<usize> = if decodes(&state, &reply) {
        match &reply {
            Reply::Code(code) => match decode_prologue(code.as_slice(), state.target as u64) {
                Ok(n) => Some(n),
                Err(_) => None,
            },
            _ => None,
        }
    } else {
        None
    };
    let moved: Moved = match encodes(&state, &reply) {
        Some(block) => move_code(state.original.as_slice(), state.target as u64, block as u64),
        None => Moved::NoDecoder,
    };
    advance(state, reply, stolen, moved)
}

// ---------------------------------------------------------------------------
// Taking a hook out
// ---------------------------------------------------------------------------

/// Where the removal of a hook stands: what it waits for.
#[derive(Clone, Copy, Debug, PartialEq, Eq, Structural)]
pub enum DestroyState {
    /// For the original bytes to be written back; the trampoline is freed
    /// after that.
    Restoring { trampoline: usize, trampoline_size: usize },
    /// For the trampoline to be freed.
    Releasing,
}

/// What a step of a removal leads to.
#[derive(Debug)]
pub enum DestroyStep {
    Continue(DestroyState, Request),
    Done(Result<(), Error>),
}

/// A [`DestroyStep`] over views.
pub ghost enum DestroyStepView {
    Continue(DestroyState, RequestView),
    Done(Result<(), Error>),
}

impl View for DestroyStep {
    type V = DestroyStepView;

    open spec fn view(&self) -> DestroyStepView {
        match *self {
            DestroyStep::Continue(state, request) => DestroyStepView::Continue(state, request@),
            DestroyStep::Done(r) => DestroyStepView::Done(r),
        }
    }
}

/// The first request of the removal of the hook at `target`: the original
/// bytes are written back, exactly as they were saved. `UnsupportedPlatform`
/// where there is no backend, `PatchTooSmall` where the saved bytes are not
/// as many as were overwritten.
pub open spec fn spec_hook_destroy(
    backend: Backend,
    target: usize,
    original: Seq<u8>,
    patch_len: usize,
    trampoline: usize,
    trampoline_size: usize,
) -> Result<(DestroyState, RequestView), Error> {
    if !backend.spec_is_supported() {
        Err(Error::UnsupportedPlatform)
    } else if patch_len != original.len() {
        Err(Error::PatchTooSmall)
    } else {
        Ok(
            (
                DestroyState::Restoring { trampoline, trampoline_size },
                RequestView::PatchCode { address: target, bytes: original },
            ),
        )
    }
}

/// One step of a removal: once the bytes are back, the trampoline is freed,
/// and the outcome of that is the outcome of the removal. Where the bytes
/// could not be written back the removal ends with that error, and the
/// trampoline stays.
pub open spec fn spec_destroy_step(state: DestroyState, reply: ReplyView) -> DestroyStepView {
    match state {
        DestroyState::Restoring { trampoline, trampoline_size } => match reply {
            ReplyView::Completed(Ok(())) => DestroyStepView::Continue(
                DestroyState::Releasing,
                RequestView::FreeExecutable { address: trampoline, size: trampoline_size },
            ),
            ReplyView::Completed(Err(e)) => DestroyStepView::Done(Err(e)),
            _ => DestroyStepView::Done(Err(Error::InvalidInput)),
        },
        DestroyState::Releasing => match reply {
            ReplyView::Completed(r) => DestroyStepView::Done(r),
            _ => DestroyStepView::Done(Err(Error::InvalidInput)),
        },
    }
}

/// Begins the removal of the hook at `target`.
pub fn hook_destroy(
    backend: Backend,
    target: usize,
    original: Vec<u8>,
    patch_len: usize,
    trampoline: usize,
    trampoline_size: usize,
) -> (r: Result<(DestroyState, Request), Error>)
    ensures
        match spec_hook_destroy(backend, target, original@, patch_len, trampoline, trampoline_size) {
            Ok((state, request)) => r is Ok && r->Ok_0.0 == state && r->Ok_0.1@ == request,
            Err(e) => r == Err::<(DestroyState, Request), Error>(e),
        },
{
    if !backend.is_supported() {
        return Err(Error::UnsupportedPlatform);
    }
    if patch_len != original.len() {
        return Err(Error::PatchTooSmall);
    }
    Ok(
        (
            DestroyState::Restoring { trampoline, trampoline_size },
            Request::PatchCode { address: target, bytes: original },
        ),
    )
}

/// Takes one step of a removal.
pub fn destroy_step(state: DestroyState, reply: Reply) -> (r: DestroyStep)
    ensures
        r@ == spec_destroy_step(state, reply@),
{
    match state {
        DestroyState::Restoring { trampoline, trampoline_size } => match reply {
            Reply::Completed(Ok(())) => DestroyStep::Continue(
                DestroyState::Releasing,
                Request::FreeExecutable { address: trampoline, size: trampoline_size },
            ),
            Reply::Completed(Err(e)) => DestroyStep::Done(Err(e)),
            _ => DestroyStep::Done(Err(Error::InvalidInput)),
        },
        DestroyState::Releasing => match reply {
            Reply::Completed(r) => DestroyStep::Done(r),
            _ => DestroyStep::Done(Err(Error::InvalidInput)),
        },
    }
}

} // verus!
