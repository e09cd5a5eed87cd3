use dobby_rs::engine::backend::unix_aarch64::UnixAarch64;
use dobby_rs::engine::backend::x86_64_common::Moved;
use dobby_rs::engine::backend::{
    advance, destroy_step, hook_build, hook_destroy, step, Backend, DestroyState, DestroyStep,
    Phase, Step, NEAR_RANGE, TRAMPOLINE_SIZE,
};
use dobby_rs::engine::manager::{HookManager, HookOp, HookProgress};
use dobby_rs::engine::{code_patch, destroy, hook, import_table_replace, instrument};
use dobby_rs::options::{register_alloc_near_code_callback, Options};
use dobby_rs::platform::{Reply, Request};
use dobby_rs::Error;

const TARGET: usize = 0x7000_0000_1000;
const FAKE: usize = 0x7000_0000_8000;
const FAR_BLOCK: usize = 0x1_0000_0000;
const NEAR_BLOCK: usize = 0x7000_0001_0000;
const CALLBACK: usize = 0x7000_0002_0000;

const PROLOGUE: [u8; 17] = [
    0x55, 0x48, 0x89, 0xE5, 0x48, 0x83, 0xEC, 0x20, 0x48, 0x89, 0x7D, 0xF8, 0xB8, 0x05, 0x00, 0x00,
    0x00,
];

/// A process for the engine to work on: a few bytes of memory and a record
/// of what was asked.
struct Process {
    base: usize,
    code: Vec<u8>,
    blocks: Vec<(usize, Vec<u8>)>,
    freed: Vec<(usize, usize)>,
    asked: Vec<&'static str>,
    first_block: Result<usize, Error>,
    near_block: Result<usize, Error>,
    callback_block: usize,
    write_fails: Option<Error>,
    patch_fails: Option<Error>,
}

impl Process {
    fn new(code: &[u8]) -> Process {
        let mut bytes = code.to_vec();
        bytes.resize(128, 0x90);
        Process {
            base: TARGET,
            code: bytes,
            blocks: Vec::new(),
            freed: Vec::new(),
            asked: Vec::new(),
            first_block: Ok(FAR_BLOCK),
            near_block: Ok(NEAR_BLOCK),
            callback_block: 0,
            write_fails: None,
            patch_fails: None,
        }
    }

    fn serve(&mut self, request: Request) -> Reply {
        match request {
            Request::ReadCode { address, len } => {
                self.asked.push("read");
                let at = address - self.base;
                Reply::Code(self.code[at..at + len].to_vec())
            }
            Request::AllocExecutable { size } => {
                self.asked.push("alloc");
                assert_eq!(size, TRAMPOLINE_SIZE);
                Reply::Allocated(self.first_block)
            }
            Request::AllocExecutableNear { size, anchor, range } => {
                self.asked.push("alloc_near");
                assert_eq!((size, anchor, range), (TRAMPOLINE_SIZE, TARGET, NEAR_RANGE));
                Reply::Allocated(self.near_block)
            }
            Request::CallAllocCallback { callback, size, anchor, range } => {
                self.asked.push("callback");
                assert_eq!((callback, size, anchor, range), (CALLBACK, 256, TARGET, NEAR_RANGE));
                Reply::CallbackResult(self.callback_block)
            }
            Request::FreeExecutable { address, size } => {
                self.asked.push("free");
                self.freed.push((address, size));
                Reply::Completed(Ok(()))
            }
            Request::WriteTrampoline { address, bytes } => {
                self.asked.push("write");
                match self.write_fails {
                    Some(e) => Reply::Completed(Err(e)),
                    None => {
                        self.blocks.push((address, bytes));
                        Reply::Completed(Ok(()))
                    }
                }
            }
            Request::PatchCode { address, bytes } => {
                self.asked.push("patch");
                match self.patch_fails {
                    Some(e) => Reply::Completed(Err(e)),
                    None => {
                        let at = address - self.base;
                        self.code[at..at + bytes.len()].copy_from_slice(&bytes);
                        Reply::Completed(Ok(()))
                    }
                }
            }
        }
    }

    fn install(
        &mut self,
        manager: &mut HookManager,
        backend: Backend,
        options: &Options,
        address: usize,
        fake: usize,
    ) -> Result<usize, Error> {
        let (mut op, mut request) = hook(manager, backend, options, address, fake)?;
        loop {
            let reply = self.serve(request);
            match manager.hook_resume(op, reply) {
                HookProgress::Continue(next, asked) => {
                    op = next;
                    request = asked;
                }
                HookProgress::Done(r) => return r,
            }
        }
    }

    fn remove(
        &mut self,
        manager: &mut HookManager,
        backend: Backend,
        address: usize,
    ) -> Result<(), Error> {
        let (mut state, mut request) = destroy(manager, backend, address)?;
        loop {
            let reply = self.serve(request);
            match destroy_step(state, reply) {
                DestroyStep::Continue(next, asked) => {
                    state = next;
                    request = asked;
                }
                DestroyStep::Done(r) => return r,
            }
        }
    }
}

fn jump(dest: usize) -> Vec<u8> {
    let mut out = vec![0xFF, 0x25, 0, 0, 0, 0];
    out.extend_from_slice(&(dest as u64).to_le_bytes());
    out
}

fn rip_relative_code() -> Vec<u8> {
    // mov rax, [rip+0x10], then single-byte instructions
    let mut code = vec![0x48, 0x8B, 0x05, 0x10, 0x00, 0x00, 0x00];
    code.extend_from_slice(&[0x90; 7]);
    code
}

#[test]
fn hook_patches_target_and_fills_trampoline() {
    let mut process = Process::new(&PROLOGUE);
    let before = process.code.clone();
    let mut manager = HookManager::new();
    let r = process.install(&mut manager, Backend::UnixX86_64, &Options::new(), TARGET, FAKE);
    assert_eq!(r, Ok(FAR_BLOCK));
    assert_eq!(process.asked, vec!["read", "alloc", "write", "patch"]);
    // the detour over the seventeen stolen bytes
    let mut detour = jump(FAKE);
    detour.extend_from_slice(&[0x90; 3]);
    assert_eq!(&process.code[..17], &detour[..]);
    assert_eq!(&process.code[17..], &before[17..]);
    // the trampoline: the stolen instructions, then the way back
    let mut trampoline = PROLOGUE.to_vec();
    trampoline.extend_from_slice(&jump(TARGET + 17));
    assert_eq!(process.blocks, vec![(FAR_BLOCK, trampoline)]);
    assert!(process.freed.is_empty());
    assert!(manager.contains(TARGET));
    assert_eq!(manager.trampoline(TARGET), Some(FAR_BLOCK));
}

#[test]
fn destroy_after_hook_restores_original_bytes() {
    let mut process = Process::new(&PROLOGUE);
    let before = process.code.clone();
    let mut manager = HookManager::new();
    let backend = Backend::WindowsX86_64;
    process.install(&mut manager, backend, &Options::new(), TARGET, FAKE).expect("hooked");
    assert_ne!(process.code, before);
    assert_eq!(process.remove(&mut manager, backend, TARGET), Ok(()));
    assert_eq!(process.code, before);
    assert_eq!(process.freed, vec![(FAR_BLOCK, TRAMPOLINE_SIZE)]);
    assert!(!manager.contains(TARGET));
    assert_eq!(manager.trampoline(TARGET), None);
    // the address is free again
    assert!(process.install(&mut manager, backend, &Options::new(), TARGET, FAKE).is_ok());
}

#[test]
fn second_hook_on_an_address_is_refused() {
    let mut process = Process::new(&PROLOGUE);
    let mut manager = HookManager::new();
    let backend = Backend::UnixX86_64;
    process.install(&mut manager, backend, &Options::new(), TARGET, FAKE).expect("hooked");
    let hooked = process.code.clone();
    let asked = process.asked.len();
    let r = process.install(&mut manager, backend, &Options::new(), TARGET, FAKE + 0x100);
    assert_eq!(r, Err(Error::AlreadyHooked));
    assert_eq!(process.code, hooked);
    assert_eq!(process.asked.len(), asked);
    assert_eq!(process.asked.iter().filter(|a| **a == "patch").count(), 1);
}

#[test]
fn destroy_of_unknown_address_is_refused() {
    let mut process = Process::new(&PROLOGUE);
    let before = process.code.clone();
    let mut manager = HookManager::new();
    assert_eq!(
        process.remove(&mut manager, Backend::UnixX86_64, TARGET),
        Err(Error::HookNotFound)
    );
    assert_eq!(process.code, before);
    assert!(process.asked.is_empty());
}

#[test]
fn null_addresses_are_refused() {
    let mut process = Process::new(&PROLOGUE);
    let mut manager = HookManager::new();
    let backend = Backend::UnixX86_64;
    let options = Options::new();
    assert_eq!(process.install(&mut manager, backend, &options, 0, FAKE), Err(Error::NullPointer));
    assert_eq!(process.install(&mut manager, backend, &options, TARGET, 0), Err(Error::NullPointer));
    assert_eq!(process.remove(&mut manager, backend, 0), Err(Error::NullPointer));
    assert_eq!(code_patch(backend, 0, Some(&[1, 2])).err(), Some(Error::NullPointer));
    assert_eq!(code_patch(backend, TARGET, None).err(), Some(Error::NullPointer));
    assert!(process.asked.is_empty());
    // a null address is reported before a missing backend is
    assert_eq!(
        code_patch(Backend::Unsupported, 0, Some(&[1])).err(),
        Some(Error::NullPointer)
    );
}

#[test]
fn code_patch_asks_for_the_write() {
    let mut process = Process::new(&PROLOGUE);
    let request = code_patch(Backend::UnixAarch64, TARGET + 2, Some(&[0xAA, 0xBB])).expect("ok");
    match &request {
        Request::PatchCode { address, bytes } => {
            assert_eq!(*address, TARGET + 2);
            assert_eq!(bytes, &vec![0xAA, 0xBB]);
        }
        _ => panic!("not a patch"),
    }
    match process.serve(request) {
        Reply::Completed(r) => assert_eq!(r, Ok(())),
        _ => panic!("not completed"),
    }
    assert_eq!(&process.code[..5], &[0x55, 0x48, 0xAA, 0xBB, 0x48]);
}

#[test]
fn invalid_code_fails_to_decode_and_stays() {
    // two valid instructions, then a byte that is none in 64-bit code
    let mut process = Process::new(&[0x90, 0x90, 0x06]);
    let before = process.code.clone();
    let mut manager = HookManager::new();
    let r = process.install(&mut manager, Backend::UnixX86_64, &Options::new(), TARGET, FAKE);
    assert_eq!(r, Err(Error::DecodeFailed));
    assert_eq!(process.code, before);
    assert_eq!(process.asked, vec!["read"]);
    assert!(!manager.contains(TARGET));
}

#[test]
fn unsupported_platform_fails_every_operation() {
    let mut process = Process::new(&PROLOGUE);
    let mut manager = HookManager::new();
    let options = Options::new();
    assert_eq!(
        process.install(&mut manager, Backend::Unsupported, &options, TARGET, FAKE),
        Err(Error::UnsupportedPlatform)
    );
    assert_eq!(
        code_patch(Backend::Unsupported, TARGET, Some(&[1])).err(),
        Some(Error::UnsupportedPlatform)
    );
    assert_eq!(
        hook_destroy(Backend::Unsupported, TARGET, vec![1], 1, FAR_BLOCK, 256).err(),
        Some(Error::UnsupportedPlatform)
    );
    assert!(process.asked.is_empty());
    assert!(!Backend::Unsupported.is_supported());
    assert!(Backend::UnixAarch64.is_supported());
    assert!(Backend::WindowsX86_64.is_x86_64());
    assert!(!Backend::UnixAarch64.is_x86_64());
    assert_eq!(Backend::UnixX86_64.window(), 64);
    assert_eq!(Backend::UnixAarch64.window(), 16);
}

#[test]
fn allocation_failure_ends_the_build() {
    let mut process = Process::new(&PROLOGUE);
    process.first_block = Err(Error::Unix(12));
    let before = process.code.clone();
    let mut manager = HookManager::new();
    let r = process.install(&mut manager, Backend::UnixX86_64, &Options::new(), TARGET, FAKE);
    assert_eq!(r, Err(Error::Unix(12)));
    assert_eq!(process.asked, vec!["read", "alloc"]);
    assert_eq!(process.code, before);
}

#[test]
fn trampoline_out_of_reach_is_retried_near() {
    let mut process = Process::new(&rip_relative_code());
    let mut manager = HookManager::new();
    let r = process.install(&mut manager, Backend::UnixX86_64, &Options::new(), TARGET, FAKE);
    assert_eq!(r, Ok(NEAR_BLOCK));
    assert_eq!(process.asked, vec!["read", "alloc", "free", "alloc_near", "write", "patch"]);
    assert_eq!(process.freed, vec![(FAR_BLOCK, TRAMPOLINE_SIZE)]);
    // the displacement of the load is recomputed for the near block
    let mut trampoline = vec![0x48, 0x8B, 0x05, 0x10, 0x10, 0xFF, 0xFF];
    trampoline.extend_from_slice(&[0x90; 7]);
    trampoline.extend_from_slice(&jump(TARGET + 14));
    assert_eq!(process.blocks, vec![(NEAR_BLOCK, trampoline)]);
    assert_eq!(&process.code[..14], &jump(FAKE)[..]);
}

#[test]
fn retry_asks_the_registered_callback_first() {
    let mut options = Options::new();
    register_alloc_near_code_callback(&mut options, Some(CALLBACK));
    // the callback offers a block
    let mut process = Process::new(&rip_relative_code());
    process.callback_block = NEAR_BLOCK + 0x1000;
    let mut manager = HookManager::new();
    let r = process.install(&mut manager, Backend::UnixX86_64, &options, TARGET, FAKE);
    assert_eq!(r, Ok(NEAR_BLOCK + 0x1000));
    assert_eq!(process.asked, vec!["read", "alloc", "free", "callback", "write", "patch"]);
    // the callback has none: the platform is asked
    let mut process = Process::new(&rip_relative_code());
    let mut manager = HookManager::new();
    let r = process.install(&mut manager, Backend::UnixX86_64, &options, TARGET, FAKE);
    assert_eq!(r, Ok(NEAR_BLOCK));
    assert_eq!(
        process.asked,
        vec!["read", "alloc", "free", "callback", "alloc_near", "write", "patch"]
    );
}

#[test]
fn second_block_out_of_reach_fails_and_is_freed() {
    let mut process = Process::new(&rip_relative_code());
    process.near_block = Ok(FAR_BLOCK + 0x1000);
    let before = process.code.clone();
    let mut manager = HookManager::new();
    let r = process.install(&mut manager, Backend::UnixX86_64, &Options::new(), TARGET, FAKE);
    assert_eq!(r, Err(Error::EncodeFailed));
    assert_eq!(process.asked, vec!["read", "alloc", "free", "alloc_near", "free"]);
    assert_eq!(
        process.freed,
        vec![(FAR_BLOCK, TRAMPOLINE_SIZE), (FAR_BLOCK + 0x1000, TRAMPOLINE_SIZE)]
    );
    assert_eq!(process.code, before);
    assert!(!manager.contains(TARGET));
}

#[test]
fn near_allocation_failure_ends_the_build() {
    let mut process = Process::new(&rip_relative_code());
    process.near_block = Err(Error::Win32(8));
    let mut manager = HookManager::new();
    let r = process.install(&mut manager, Backend::WindowsX86_64, &Options::new(), TARGET, FAKE);
    assert_eq!(r, Err(Error::Win32(8)));
    assert_eq!(process.asked, vec!["read", "alloc", "free", "alloc_near"]);
    assert_eq!(process.freed, vec![(FAR_BLOCK, TRAMPOLINE_SIZE)]);
}

#[test]
fn failed_write_frees_the_trampoline() {
    let mut process = Process::new(&PROLOGUE);
    process.write_fails = Some(Error::Win32(5));
    let before = process.code.clone();
    let mut manager = HookManager::new();
    let r = process.install(&mut manager, Backend::WindowsX86_64, &Options::new(), TARGET, FAKE);
    assert_eq!(r, Err(Error::Win32(5)));
    assert_eq!(process.asked, vec!["read", "alloc", "write", "free"]);
    assert_eq!(process.freed, vec![(FAR_BLOCK, TRAMPOLINE_SIZE)]);
    assert_eq!(process.code, before);
}

#[test]
fn failed_patch_frees_the_trampoline() {
    let mut process = Process::new(&PROLOGUE);
    process.patch_fails = Some(Error::Unix(13));
    let before = process.code.clone();
    let mut manager = HookManager::new();
    let r = process.install(&mut manager, Backend::UnixX86_64, &Options::new(), TARGET, FAKE);
    assert_eq!(r, Err(Error::Unix(13)));
    assert_eq!(process.asked, vec!["read", "alloc", "write", "patch", "free"]);
    assert_eq!(process.freed, vec![(FAR_BLOCK, TRAMPOLINE_SIZE)]);
    assert_eq!(process.code, before);
    assert!(!manager.contains(TARGET));
}

#[test]
fn failed_restore_keeps_the_trampoline() {
    let mut process = Process::new(&PROLOGUE);
    let mut manager = HookManager::new();
    let backend = Backend::UnixX86_64;
    process.install(&mut manager, backend, &Options::new(), TARGET, FAKE).expect("hooked");
    process.patch_fails = Some(Error::Unix(13));
    assert_eq!(process.remove(&mut manager, backend, TARGET), Err(Error::Unix(13)));
    assert!(process.freed.is_empty());
    // the record has left the registry all the same
    assert!(!manager.contains(TARGET));
}

#[test]
fn restore_with_wrong_length_is_refused() {
    assert_eq!(
        hook_destroy(Backend::UnixX86_64, TARGET, vec![1, 2, 3], 4, FAR_BLOCK, 256).err(),
        Some(Error::PatchTooSmall)
    );
    let (state, request) =
        hook_destroy(Backend::UnixX86_64, TARGET, vec![1, 2, 3], 3, FAR_BLOCK, 256).expect("ok");
    assert_eq!(state, DestroyState::Restoring { trampoline: FAR_BLOCK, trampoline_size: 256 });
    match request {
        Request::PatchCode { address, bytes } => assert_eq!((address, bytes), (TARGET, vec![1, 2, 3])),
        _ => panic!("not a patch"),
    }
}

#[test]
fn aarch64_hook_steals_four_instructions() {
    let nop = 0xD503_201Fu32.to_le_bytes();
    let mut code = Vec::new();
    for _ in 0..3 {
        code.extend_from_slice(&nop);
    }
    code.extend_from_slice(&0x1400_0004u32.to_le_bytes()); // b +16
    for _ in 0..8 {
        code.extend_from_slice(&nop);
    }
    let mut process = Process::new(&code);
    process.first_block = Ok(TARGET + 0x1000);
    let before = process.code.clone();
    let mut manager = HookManager::new();
    let backend = Backend::UnixAarch64;
    let r = process.install(&mut manager, backend, &Options::new(), TARGET, FAKE);
    assert_eq!(r, Ok(TARGET + 0x1000));
    assert_eq!(process.asked, vec!["read", "alloc", "write", "patch"]);
    // ldr x17, #8; br x17; the replacement
    let mut detour = vec![0x51, 0x00, 0x00, 0x58, 0x20, 0x02, 0x1F, 0xD6];
    detour.extend_from_slice(&(FAKE as u64).to_le_bytes());
    assert_eq!(UnixAarch64::abs_jmp(FAKE as u64).to_vec(), detour);
    assert_eq!(&process.code[..16], &detour[..]);
    assert_eq!(&process.code[16..], &before[16..]);
    // the branch still reaches target + 12 + 16, now 0x1000 - 16 bytes back
    let mut trampoline = Vec::new();
    for _ in 0..3 {
        trampoline.extend_from_slice(&nop);
    }
    trampoline.extend_from_slice(&(0x1400_0000u32 | (0x0400_0000 - 0x3FC)).to_le_bytes());
    let mut back = vec![0x51, 0x00, 0x00, 0x58, 0x20, 0x02, 0x1F, 0xD6];
    back.extend_from_slice(&((TARGET + 16) as u64).to_le_bytes());
    trampoline.extend_from_slice(&back);
    assert_eq!(process.blocks, vec![(TARGET + 0x1000, trampoline)]);
    // and out again
    assert_eq!(process.remove(&mut manager, backend, TARGET), Ok(()));
    assert_eq!(process.code, before);
}

#[test]
fn aarch64_trampoline_of_too_few_bytes() {
    assert_eq!(
        UnixAarch64::build_trampoline(&[1, 2, 3], 0x1000, 0x2000, 256),
        Err(Error::RelocationFailed)
    );
    let nops = [0x1F, 0x20, 0x03, 0xD5, 0x1F, 0x20, 0x03, 0xD5];
    assert_eq!(
        UnixAarch64::build_trampoline(&nops, 0x1000, 0x2000, 23),
        Err(Error::EncodeFailed)
    );
    assert_eq!(UnixAarch64::build_trampoline(&nops, 0x1000, 0x2000, 24).map(|t| t.len()), Ok(24));
}

#[test]
fn reply_of_the_wrong_kind_ends_the_build() {
    let options = Options::new();
    let (state, _) = hook_build(Backend::UnixX86_64, &options, TARGET, FAKE).expect("ok");
    assert_eq!(state.phase, Phase::Reading);
    match step(state, Reply::CallbackResult(1)) {
        Step::Done(r) => assert_eq!(r.err(), Some(Error::InvalidInput)),
        Step::Continue(..) => panic!("went on"),
    }
    // a short read on aarch64
    let (state, _) = hook_build(Backend::UnixAarch64, &options, TARGET, FAKE).expect("ok");
    match step(state, Reply::Code(vec![0; 15])) {
        Step::Done(r) => assert_eq!(r.err(), Some(Error::InvalidInput)),
        Step::Continue(..) => panic!("went on"),
    }
}

#[test]
fn lost_race_discards_the_trampoline() {
    let mut process = Process::new(&PROLOGUE);
    let mut first = HookManager::new();
    let backend = Backend::UnixX86_64;
    let options = Options::new();
    // an installation begins while the address is free
    let (mut op, mut request) = hook(&first, backend, &options, TARGET, FAKE).expect("begun");
    // another one gets there first
    let mut other = Process::new(&PROLOGUE);
    other.first_block = Ok(FAR_BLOCK + 0x2000);
    other.install(&mut first, backend, &options, TARGET, FAKE).expect("hooked");
    let r = loop {
        let reply = process.serve(request);
        match first.hook_resume(op, reply) {
            HookProgress::Continue(next, asked) => {
                if let HookOp::Discarding = next {
                    assert!(matches!(asked, Request::FreeExecutable { .. }));
                }
                op = next;
                request = asked;
            }
            HookProgress::Done(r) => break r,
        }
    };
    assert_eq!(r, Err(Error::AlreadyHooked));
    assert_eq!(process.freed, vec![(FAR_BLOCK, TRAMPOLINE_SIZE)]);
    assert_eq!(first.trampoline(TARGET), Some(FAR_BLOCK + 0x2000));
}

#[test]
fn entry_points_that_no_backend_serves() {
    assert_eq!(import_table_replace(None, "open", 0), Err(Error::NullPointer));
    assert_eq!(import_table_replace(Some("libc.so"), "open", FAKE), Err(Error::UnsupportedPlatform));
    assert_eq!(instrument(0, FAKE), Err(Error::NullPointer));
    assert_eq!(instrument(TARGET, FAKE), Err(Error::UnsupportedPlatform));
}

fn expect_continue(step: Step) -> (dobby_rs::engine::backend::BuildState, Request) {
    match step {
        Step::Continue(state, request) => (state, request),
        Step::Done(r) => panic!("ended with {:?}", r),
    }
}

#[test]
fn advance_follows_what_the_codec_found() {
    let options = Options::new();
    let (state, request) = hook_build(Backend::UnixX86_64, &options, TARGET, FAKE).expect("ok");
    assert!(matches!(request, Request::ReadCode { address: TARGET, len: 64 }));
    // fifteen bytes are to be stolen
    let code: Vec<u8> = (0..64).collect();
    let (state, request) =
        expect_continue(advance(state, Reply::Code(code.clone()), Some(15), Moved::NoDecoder));
    assert_eq!(state.phase, Phase::Allocating);
    assert_eq!(state.original, code[..15].to_vec());
    assert!(matches!(request, Request::AllocExecutable { size: 256 }));
    // the encoder made three bytes of them
    let (state, request) = expect_continue(advance(
        state,
        Reply::Allocated(Ok(FAR_BLOCK)),
        None,
        Moved::Code(vec![0xAA, 0xBB, 0xCC]),
    ));
    assert_eq!((state.phase, state.trampoline), (Phase::Writing, FAR_BLOCK));
    let mut image = vec![0xAA, 0xBB, 0xCC];
    image.extend_from_slice(&jump(TARGET + 15));
    match request {
        Request::WriteTrampoline { address, bytes } => assert_eq!((address, bytes), (FAR_BLOCK, image)),
        _ => panic!("not a write"),
    }
    let (state, request) =
        expect_continue(advance(state, Reply::Completed(Ok(())), None, Moved::NoDecoder));
    assert_eq!(state.phase, Phase::Patching);
    let mut detour = jump(FAKE);
    detour.push(0x90);
    match request {
        Request::PatchCode { address, bytes } => assert_eq!((address, bytes), (TARGET, detour)),
        _ => panic!("not a patch"),
    }
    match advance(state, Reply::Completed(Ok(())), None, Moved::NoDecoder) {
        Step::Done(Ok(build)) => {
            assert_eq!(build.trampoline, FAR_BLOCK);
            assert_eq!(build.trampoline_size, 256);
            assert_eq!(build.original, code[..15].to_vec());
            assert_eq!(build.patch_len, 15);
        }
        _ => panic!("not built"),
    }
}

#[test]
fn advance_refuses_a_stolen_length_out_of_range() {
    let options = Options::new();
    for stolen in [None, Some(13), Some(65)] {
        let (state, _) = hook_build(Backend::UnixX86_64, &options, TARGET, FAKE).expect("ok");
        match advance(state, Reply::Code(vec![0x90; 64]), stolen, Moved::NoDecoder) {
            Step::Done(r) => assert_eq!(r.err(), Some(Error::DecodeFailed)),
            Step::Continue(..) => panic!("went on"),
        }
    }
}

#[test]
fn advance_gives_up_on_a_trampoline_too_large() {
    let options = Options::new();
    let (state, _) = hook_build(Backend::UnixX86_64, &options, TARGET, FAKE).expect("ok");
    let (state, _) =
        expect_continue(advance(state, Reply::Code(vec![0x90; 64]), Some(14), Moved::NoDecoder));
    let (state, request) = expect_continue(advance(
        state,
        Reply::Allocated(Ok(FAR_BLOCK)),
        None,
        Moved::Code(vec![0; 243]),
    ));
    assert_eq!((state.phase, state.error), (Phase::Abandoning, Error::EncodeFailed));
    assert!(matches!(request, Request::FreeExecutable { address: FAR_BLOCK, size: 256 }));
    match advance(state, Reply::Completed(Err(Error::Unix(1))), None, Moved::NoDecoder) {
        Step::Done(r) => assert_eq!(r.err(), Some(Error::EncodeFailed)),
        Step::Continue(..) => panic!("went on"),
    }
}
