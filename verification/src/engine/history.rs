//! What a whole build does to the memory of the process.
//!
//! A build is followed through its steps over a model of memory, the
//! platform handling each request as the boundary says. The outcome is all or
//! nothing: a build that fails leaves the code at the target as it was, and
//! one that succeeds has saved exactly the bytes that stood there and has
//! put the detour in their place.

use vstd::prelude::*;
use crate::engine::backend::x86_64_common::reencoded;
use crate::engine::backend::{
    encoded_moved, offered_block, spec_built, spec_detour, spec_hook_build,
    spec_image, spec_step, Backend, BuildStateView, DestroyState, HookBuildView, Phase, StepView,
    TRAMPOLINE_SIZE,
};
use crate::engine::manager::{record_of, spec_destroy, spec_settle, HookRecord};
use crate::error::Error;
use crate::options::Options;
use crate::platform::{
    answers, effect, lemma_read_after_write, lemma_read_apart_from_write, mem_read, mem_write,
    ReplyView, RequestView,
};

verus! {

/// What comes back in one turn: the platform's reply, and what decoding and
/// encoding make of the code in the step that takes it.
pub ghost struct Turn {
    pub reply: ReplyView,
    pub stolen: Option<nat>,
    pub moved: Option<Seq<u8>>,
}

/// The code at the target of the build, as far as a build reads it.
pub open spec fn target_code(mem: Map<int, u8>, s: BuildStateView) -> Seq<u8> {
    mem_read(mem, s.target as int, s.backend.spec_window() as nat)
}

/// Whether the block at `block` lies apart from the code at the target.
pub open spec fn apart(block: usize, s: BuildStateView) -> bool {
    block + TRAMPOLINE_SIZE <= s.target || s.target + s.backend.spec_window() <= block
}

/// Whether `turn` is what may come back for `request` when memory is `mem`:
/// the reply answers the request, a block that it offers is apart from the
/// code at the target, and what is moved there is what the encoder makes of
/// the stolen instructions.
pub open spec fn admissible(mem: Map<int, u8>, s: BuildStateView, request: RequestView, turn: Turn)
    -> bool {
    &&& answers(mem, request, turn.reply)
    &&& offered_block(turn.reply) matches Some(block) ==> apart(block, s)
    &&& turn.moved is None || turn.moved == encoded_moved(s, turn.reply)
}

/// Memory and build after the turns `turns`, from the state `s` with the
/// request `request` pending; turns after the end of the build do not count.
pub open spec fn run(mem: Map<int, u8>, s: BuildStateView, request: RequestView, turns: Seq<Turn>) -> (
    Map<int, u8>,
    StepView,
)
    decreases turns.len(),
{
    if turns.len() == 0 {
        (mem, StepView::Continue(s, request))
    } else {
        let turn = turns.first();
        let after = effect(mem, request, turn.reply);
        match spec_step(s, turn.reply, turn.stolen, turn.moved) {
            StepView::Continue(next, asked) => run(after, next, asked, turns.drop_first()),
            StepView::Done(r) => (after, StepView::Done(r)),
        }
    }
}

/// Whether every turn of `turns` is admissible where it is taken.
pub open spec fn all_admissible(
    mem: Map<int, u8>,
    s: BuildStateView,
    request: RequestView,
    turns: Seq<Turn>,
) -> bool
    decreases turns.len(),
{
    if turns.len() == 0 {
        true
    } else {
        let turn = turns.first();
        let after = effect(mem, request, turn.reply);
        admissible(mem, s, request, turn) && match spec_step(
            s,
            turn.reply,
            turn.stolen,
            turn.moved,
        ) {
            StepView::Continue(next, asked) => all_admissible(after, next, asked, turns.drop_first()),
            StepView::Done(_) => true,
        }
    }
}

/// Where a build began: the memory of the process at that time, and what
/// was asked for.
pub ghost struct Origin {
    pub mem: Map<int, u8>,
    pub backend: Backend,
    pub target: usize,
    pub replacement: usize,
}

/// The detour that a build for `backend` puts over the stolen bytes
/// `original`.
pub open spec fn detour_for(backend: Backend, replacement: usize, original: Seq<u8>) -> Result<
    Seq<u8>,
    Error,
> {
    spec_detour(
        BuildStateView {
            backend,
            target: 0,
            replacement,
            callback: 0,
            phase: Phase::Reading,
            original,
            trampoline: 0,
            error: Error::InvalidInput,
        },
    )
}

/// What the trampoline at `trampoline` holds for a build for `backend` at
/// `target` that stole `original`: the stolen instructions as they read at
/// the trampoline, then the jump back.
pub open spec fn image_for(backend: Backend, target: usize, original: Seq<u8>, trampoline: usize)
    -> Result<Seq<u8>, Error> {
    spec_image(
        BuildStateView {
            backend,
            target,
            replacement: 0,
            callback: 0,
            phase: Phase::Reading,
            original,
            trampoline,
            error: Error::InvalidInput,
        },
        trampoline,
        reencoded(original, target as u64, trampoline as u64),
    )
}

/// Whether the block of `s` holds the trampoline.
pub open spec fn filled(mem: Map<int, u8>, s: BuildStateView) -> bool {
    let image = image_for(s.backend, s.target, s.original, s.trampoline);
    &&& image is Ok
    &&& image->Ok_0.len() <= TRAMPOLINE_SIZE
    &&& mem_read(mem, s.trampoline as int, image->Ok_0.len()) == image->Ok_0
}

/// The code at the target of the build that began at `origin`, as far as a
/// build reads it.
pub open spec fn code_at_target(origin: Origin, mem: Map<int, u8>) -> Seq<u8> {
    mem_read(mem, origin.target as int, origin.backend.spec_window() as nat)
}

/// Whether the stolen bytes of `s` are the code that stood at the target when
/// the build began, and are enough for the detour.
pub open spec fn saved(origin: Origin, s: BuildStateView) -> bool {
    &&& s.original.len() <= s.backend.spec_window()
    &&& s.original == mem_read(origin.mem, s.target as int, s.original.len())
    &&& spec_detour(s) is Ok
}

/// What holds between the steps of a build: it is the build that began at
/// `origin`, the code at the target is untouched, the stolen bytes are the
/// code that stood there, and the pending request is the one of the phase.
pub open spec fn in_order(origin: Origin, mem: Map<int, u8>, s: BuildStateView, request: RequestView)
    -> bool {
    &&& s.backend == origin.backend
    &&& s.target == origin.target
    &&& s.replacement == origin.replacement
    &&& s.backend.spec_is_supported()
    &&& code_at_target(origin, mem) == code_at_target(origin, origin.mem)
    &&& match s.phase {
        Phase::Reading => request == (RequestView::ReadCode {
            address: s.target,
            len: s.backend.spec_window(),
        }),
        Phase::Allocating => request is AllocExecutable && saved(origin, s),
        Phase::Retrying => request is FreeExecutable && saved(origin, s),
        Phase::AskingCallback => request is CallAllocCallback && saved(origin, s),
        Phase::AllocatingNear => request is AllocExecutableNear && saved(origin, s),
        Phase::Writing => {
            &&& saved(origin, s)
            &&& apart(s.trampoline, s)
            &&& request matches RequestView::WriteTrampoline { address, bytes }
            &&& address == s.trampoline
            &&& bytes.len() <= TRAMPOLINE_SIZE
            &&& image_for(s.backend, s.target, s.original, s.trampoline) == Ok::<Seq<u8>, Error>(
                bytes,
            )
        },
        Phase::Patching => {
            &&& saved(origin, s)
            &&& apart(s.trampoline, s)
            &&& filled(mem, s)
            &&& request == (RequestView::PatchCode {
                address: s.target,
                bytes: spec_detour(s)->Ok_0,
            })
        },
        Phase::Abandoning => request is FreeExecutable,
    }
}

/// What the end of a build means for memory: after a failure the code at the
/// target is what it was; after a success the saved bytes are the code that
/// stood at the target, as many as were overwritten, the detour stands in
/// their place, and the trampoline holds the stolen instructions as they
/// read there, followed by the jump back.
pub open spec fn all_or_nothing(origin: Origin, mem: Map<int, u8>, r: Result<HookBuildView, Error>)
    -> bool {
    match r {
        Err(_) => code_at_target(origin, mem) == code_at_target(origin, origin.mem),
        Ok(build) => {
            let detour = detour_for(origin.backend, origin.replacement, build.original);
            let image = image_for(origin.backend, origin.target, build.original, build.trampoline);
            &&& build.patch_len == build.original.len()
            &&& build.original == mem_read(origin.mem, origin.target as int, build.patch_len as nat)
            &&& detour is Ok
            &&& detour->Ok_0.len() == build.patch_len
            &&& mem_read(mem, origin.target as int, build.patch_len as nat) == detour->Ok_0
            &&& image is Ok
            &&& mem_read(mem, build.trampoline as int, image->Ok_0.len()) == image->Ok_0
        },
    }
}

/// The detour is as long as the stolen bytes.
proof fn lemma_detour_len(s: BuildStateView)
    requires
        spec_detour(s) is Ok,
    ensures
        spec_detour(s)->Ok_0.len() == s.original.len(),
        spec_detour(s) == detour_for(s.backend, s.replacement, s.original),
{
}

/// What a step has to establish: the build stays in order, or has ended with
/// all or nothing.
pub open spec fn step_in_order(
    origin: Origin,
    mem: Map<int, u8>,
    s: BuildStateView,
    request: RequestView,
    turn: Turn,
) -> bool {
    match spec_step(s, turn.reply, turn.stolen, turn.moved) {
        StepView::Continue(next, asked) => in_order(
            origin,
            effect(mem, request, turn.reply),
            next,
            asked,
        ),
        StepView::Done(r) => all_or_nothing(origin, effect(mem, request, turn.reply), r),
    }
}

/// The step that takes the code at the target.
proof fn lemma_step_reading(
    origin: Origin,
    mem: Map<int, u8>,
    s: BuildStateView,
    request: RequestView,
    turn: Turn,
)
    requires
        in_order(origin, mem, s, request),
        admissible(mem, s, request, turn),
        s.phase == Phase::Reading,
    ensures
        step_in_order(origin, mem, s, request, turn),
{
    let code = mem_read(mem, s.target as int, s.backend.spec_window() as nat);
    match spec_step(s, turn.reply, turn.stolen, turn.moved) {
        StepView::Continue(next, asked) => {
            let n = next.original.len();
            assert(code == code_at_target(origin, origin.mem));
            assert(code.take(n as int) =~= mem_read(origin.mem, s.target as int, n));
        },
        StepView::Done(r) => {},
    }
}

/// The steps that wait for a block, or for one to be freed.
proof fn lemma_step_block(
    origin: Origin,
    mem: Map<int, u8>,
    s: BuildStateView,
    request: RequestView,
    turn: Turn,
)
    requires
        in_order(origin, mem, s, request),
        admissible(mem, s, request, turn),
        s.phase == Phase::Allocating || s.phase == Phase::AskingCallback || s.phase
            == Phase::AllocatingNear || s.phase == Phase::Retrying,
    ensures
        step_in_order(origin, mem, s, request, turn),
{
    match spec_step(s, turn.reply, turn.stolen, turn.moved) {
        StepView::Continue(next, asked) => {
            assert(spec_detour(next) == spec_detour(s));
        },
        StepView::Done(r) => {},
    }
}

/// The step that follows the write of the trampoline.
proof fn lemma_step_writing(
    origin: Origin,
    mem: Map<int, u8>,
    s: BuildStateView,
    request: RequestView,
    turn: Turn,
)
    requires
        in_order(origin, mem, s, request),
        admissible(mem, s, request, turn),
        s.phase == Phase::Writing,
    ensures
        step_in_order(origin, mem, s, request, turn),
{
    let window = s.backend.spec_window() as nat;
    match request {
        RequestView::WriteTrampoline { address, bytes } => {
            if turn.reply matches ReplyView::Completed(Ok(_)) {
                lemma_read_apart_from_write(mem, address as int, bytes, s.target as int, window);
                lemma_read_after_write(mem, address as int, bytes);
            }
        },
        _ => {},
    }
}

/// The end of a build that has overwritten the target.
proof fn lemma_patched(origin: Origin, mem: Map<int, u8>, s: BuildStateView)
    requires
        s.backend == origin.backend,
        s.target == origin.target,
        s.replacement == origin.replacement,
        saved(origin, s),
        apart(s.trampoline, s),
        filled(mem, s),
    ensures
        all_or_nothing(
            origin,
            mem_write(mem, s.target as int, spec_detour(s)->Ok_0),
            Ok(spec_built(s)),
        ),
{
    lemma_detour_len(s);
    let detour = spec_detour(s)->Ok_0;
    let image = image_for(s.backend, s.target, s.original, s.trampoline)->Ok_0;
    lemma_read_after_write(mem, s.target as int, detour);
    lemma_read_apart_from_write(mem, s.target as int, detour, s.trampoline as int, image.len());
}

/// The step that follows the overwrite of the target, and the last step of
/// a build that was given up.
proof fn lemma_step_patching(
    origin: Origin,
    mem: Map<int, u8>,
    s: BuildStateView,
    request: RequestView,
    turn: Turn,
)
    requires
        in_order(origin, mem, s, request),
        admissible(mem, s, request, turn),
        s.phase == Phase::Patching || s.phase == Phase::Abandoning,
    ensures
        step_in_order(origin, mem, s, request, turn),
{
    if s.phase == Phase::Patching && turn.reply matches ReplyView::Completed(Ok(_)) {
        lemma_patched(origin, mem, s);
    }
}

/// One step keeps a build in order, or ends it with all or nothing.
proof fn lemma_step(origin: Origin, mem: Map<int, u8>, s: BuildStateView, request: RequestView, turn: Turn)
    requires
        in_order(origin, mem, s, request),
        admissible(mem, s, request, turn),
    ensures
        step_in_order(origin, mem, s, request, turn),
{
    match s.phase {
        Phase::Reading => lemma_step_reading(origin, mem, s, request, turn),
        Phase::Writing => lemma_step_writing(origin, mem, s, request, turn),
        Phase::Patching => lemma_step_patching(origin, mem, s, request, turn),
        Phase::Abandoning => lemma_step_patching(origin, mem, s, request, turn),
        _ => lemma_step_block(origin, mem, s, request, turn),
    }
}

/// A build is all or nothing.
///
/// Take a build that began when memory was `origin.mem`, and let the platform
/// answer its requests in `turns`: each reply of the kind that is asked for,
/// what is read being what memory holds, and every block offered for the
/// trampoline apart from the code at the target. If the build has ended by
/// then, then after a failure the code at the target is what it was before,
/// and after a success the saved bytes are the code that stood there and the
/// detour stands in their place.
pub proof fn lemma_build_all_or_nothing(origin: Origin, options: Options, turns: Seq<Turn>)
    requires
        spec_hook_build(origin.backend, options, origin.target, origin.replacement) matches Ok(
            (s, request),
        ) && all_admissible(origin.mem, s, request, turns) && run(origin.mem, s, request, turns).1
            is Done,
    ensures
        ({
            let begun = spec_hook_build(origin.backend, options, origin.target, origin.replacement);
            let ended = run(origin.mem, begun->Ok_0.0, begun->Ok_0.1, turns);
            all_or_nothing(origin, ended.0, ended.1->Done_0)
        }),
{
    let begun = spec_hook_build(origin.backend, options, origin.target, origin.replacement);
    lemma_run(origin, origin.mem, begun->Ok_0.0, begun->Ok_0.1, turns);
}

/// A build that is in order ends with all or nothing.
proof fn lemma_run(
    origin: Origin,
    mem: Map<int, u8>,
    s: BuildStateView,
    request: RequestView,
    turns: Seq<Turn>,
)
    requires
        in_order(origin, mem, s, request),
        all_admissible(mem, s, request, turns),
        run(mem, s, request, turns).1 is Done,
    ensures
        all_or_nothing(
            origin,
            run(mem, s, request, turns).0,
            run(mem, s, request, turns).1->Done_0,
        ),
    decreases turns.len(),
{
    if turns.len() > 0 {
        let turn = turns.first();
        lemma_step(origin, mem, s, request, turn);
        match spec_step(s, turn.reply, turn.stolen, turn.moved) {
            StepView::Continue(next, asked) => {
                lemma_run(origin, effect(mem, request, turn.reply), next, asked, turns.drop_first());
            },
            StepView::Done(r) => {},
        }
    }
}

/// Removing a hook puts back what the hook overwrote.
///
/// Where the registry holds a record for `target` whose saved bytes are as
/// many as were overwritten, the removal takes the record out and asks for
/// exactly those bytes to be written to the target; once that is done, the
/// code at the target is those bytes again, whatever memory held before.
pub proof fn lemma_destroy_restores(
    registry: Map<usize, HookRecord>,
    backend: Backend,
    target: usize,
    mem: Map<int, u8>,
)
    requires
        registry.contains_key(target),
        backend.spec_is_supported(),
        registry[target].patch_length == registry[target].original_bytes.len(),
    ensures
        ({
            let record = registry[target];
            let request = RequestView::PatchCode { address: target, bytes: record.original_bytes };
            let begun = spec_destroy(registry, backend, target);
            &&& begun.0 == registry.remove(target)
            &&& begun.1 == Ok::<(DestroyState, RequestView), Error>(
                (
                    DestroyState::Restoring {
                        trampoline: record.trampoline_address,
                        trampoline_size: record.trampoline_size,
                    },
                    request,
                ),
            )
            &&& mem_read(
                effect(mem, request, ReplyView::Completed(Ok(()))),
                target as int,
                record.patch_length as nat,
            ) == record.original_bytes
        }),
{
    lemma_read_after_write(mem, target as int, registry[target].original_bytes);
}

/// A hook that is installed and removed again leaves the code at the target
/// as it was before the hook.
///
/// Take a build as in `lemma_build_all_or_nothing` that succeeded, at an
/// address without a record. Its record enters the registry; the removal
/// that follows takes it out again and writes the saved bytes back, and
/// then the code at the target is what stood there when the build began.
pub proof fn lemma_hook_then_destroy(
    origin: Origin,
    options: Options,
    turns: Seq<Turn>,
    registry: Map<usize, HookRecord>,
    mem: Map<int, u8>,
)
    requires
        !registry.contains_key(origin.target),
        spec_hook_build(origin.backend, options, origin.target, origin.replacement) matches Ok(
            (s, request),
        ) && all_admissible(origin.mem, s, request, turns) && run(origin.mem, s, request, turns).1
            matches StepView::Done(Ok(_)),
    ensures
        ({
            let begun = spec_hook_build(origin.backend, options, origin.target, origin.replacement);
            let ended = run(origin.mem, begun->Ok_0.0, begun->Ok_0.1, turns);
            let build = ended.1->Done_0->Ok_0;
            let installed = spec_settle(registry, origin.target, ended.1);
            let removal = spec_destroy(installed.0, origin.backend, origin.target);
            let request = RequestView::PatchCode { address: origin.target, bytes: build.original };
            &&& installed.0 == registry.insert(origin.target, record_of(build))
            &&& removal.0 == registry
            &&& removal.1 matches Ok((_, asked)) && asked == request
            &&& mem_read(
                effect(mem, request, ReplyView::Completed(Ok(()))),
                origin.target as int,
                build.patch_len as nat,
            ) == mem_read(origin.mem, origin.target as int, build.patch_len as nat)
        }),
{
    lemma_build_all_or_nothing(origin, options, turns);
    let begun = spec_hook_build(origin.backend, options, origin.target, origin.replacement);
    let ended = run(origin.mem, begun->Ok_0.0, begun->Ok_0.1, turns);
    let build = ended.1->Done_0->Ok_0;
    let installed = spec_settle(registry, origin.target, ended.1);
    assert(installed.0.remove(origin.target) =~= registry);
    lemma_destroy_restores(installed.0, origin.backend, origin.target, mem);
}

} // verus!
