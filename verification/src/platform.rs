//! The boundary to the operating system.
//!
//! The engine never touches memory itself. Whatever has to be read,
//! allocated, written or freed leaves it as a [`Request`], and what the
//! operating system made of it comes back as a [`Reply`]. What a request
//! means for the memory of the process is stated here once, over a model of
//! that memory, together with the arithmetic on pages that a platform needs
//! to open a window for writing.

use vstd::prelude::*;
use crate::error::Error;

verus! {

// ---------------------------------------------------------------------------
// Requests and replies
// ---------------------------------------------------------------------------

/// Something for the platform to do.
#[derive(Debug)]
#[allow(inconsistent_fields)]
pub enum Request {
    /// Read `len` bytes of code at `address`. Answered by `Reply::Code`.
    ReadCode { address: usize, len: usize },
    /// Allocate `size` bytes that can be read, written and executed.
    /// Answered by `Reply::Allocated`.
    AllocExecutable { size: usize },
    /// Allocate as `AllocExecutable` does, within `range` bytes of `anchor`;
    /// a platform that cannot search allocates anywhere. Answered by
    /// `Reply::Allocated`.
    AllocExecutableNear { size: usize, anchor: usize, range: usize },
    /// Call the registered allocation callback, which lies at `callback`.
    /// Answered by `Reply::CallbackResult`.
    CallAllocCallback { callback: usize, size: u32, anchor: usize, range: usize },
    /// Free the block of `size` bytes at `address`; a null address is
    /// nothing to free. Answered by `Reply::Completed`.
    FreeExecutable { address: usize, size: usize },
    /// Copy `bytes` into the freshly allocated block at `address` and flush
    /// the instruction cache over them. Answered by `Reply::Completed`.
    WriteTrampoline { address: usize, bytes: Vec<u8> },
    /// Grant write and execute permission on the pages that hold the range,
    /// copy `bytes` to `address`, restore the permission and flush the
    /// instruction cache. Answered by `Reply::Completed`; an error means
    /// that nothing was written.
    PatchCode { address: usize, bytes: Vec<u8> },
}

/// A [`Request`] with its bytes as a sequence.
#[allow(inconsistent_fields)]
pub ghost enum RequestView {
    ReadCode { address: usize, len: usize },
    AllocExecutable { size: usize },
    AllocExecutableNear { size: usize, anchor: usize, range: usize },
    CallAllocCallback { callback: usize, size: u32, anchor: usize, range: usize },
    FreeExecutable { address: usize, size: usize },
    WriteTrampoline { address: usize, bytes: Seq<u8> },
    PatchCode { address: usize, bytes: Seq<u8> },
}

impl View for Request {
    type V = RequestView;

    open spec fn view(&self) -> RequestView {
        match *self {
            Request::ReadCode { address, len } => RequestView::ReadCode { address, len },
            Request::AllocExecutable { size } => RequestView::AllocExecutable { size },
            Request::AllocExecutableNear { size, anchor, range } => RequestView::AllocExecutableNear {
                size,
                anchor,
                range,
            },
            Request::CallAllocCallback {
                callback,
                size,
                anchor,
                range,
            } => RequestView::CallAllocCallback { callback, size, anchor, range },
            Request::FreeExecutable { address, size } => RequestView::FreeExecutable {
                address,
                size,
            },
            Request::WriteTrampoline { address, bytes } => RequestView::WriteTrampoline {
                address,
                bytes: bytes@,
            },
            Request::PatchCode { address, bytes } => RequestView::PatchCode { address, bytes: bytes@ },
        }
    }
}

/// What the platform made of a [`Request`].
#[derive(Debug)]
pub enum Reply {
    /// The bytes that were read.
    Code(Vec<u8>),
    /// The address of the new block, or the error of the operating system.
    Allocated(Result<usize, Error>),
    /// What the allocation callback returned; zero means that it has no
    /// block to offer.
    CallbackResult(usize),
    /// Whether the request was carried out.
    Completed(Result<(), Error>),
}

/// A [`Reply`] with its bytes as a sequence.
pub ghost enum ReplyView {
    Code(Seq<u8>),
    Allocated(Result<usize, Error>),
    CallbackResult(usize),
    Completed(Result<(), Error>),
}

impl View for Reply {
    type V = ReplyView;

    open spec fn view(&self) -> ReplyView {
        match *self {
            Reply::Code(bytes) => ReplyView::Code(bytes@),
            Reply::Allocated(r) => ReplyView::Allocated(r),
            Reply::CallbackResult(p) => ReplyView::CallbackResult(p),
            Reply::Completed(r) => ReplyView::Completed(r),
        }
    }
}

// ---------------------------------------------------------------------------
// Memory
// ---------------------------------------------------------------------------

/// The `len` bytes of `mem` from `address` on.
pub open spec fn mem_read(mem: Map<int, u8>, address: int, len: nat) -> Seq<u8> {
    Seq::new(len, |i: int| mem[address + i])
}

/// `mem` with `bytes` stored from `address` on.
pub open spec fn mem_write(mem: Map<int, u8>, address: int, bytes: Seq<u8>) -> Map<int, u8> {
    Map::new(
        |a: int| true,
        |a: int|
            if address <= a < address + bytes.len() {
                bytes[a - address]
            } else {
                mem[a]
            },
    )
}

/// Whether `reply` is an answer that a platform may give to `request` when
/// memory is `mem`: it is of the kind that the request asks for, and what
/// was read is what memory holds.
pub open spec fn answers(mem: Map<int, u8>, request: RequestView, reply: ReplyView) -> bool {
    match request {
        RequestView::ReadCode { address, len } => reply == ReplyView::Code(
            mem_read(mem, address as int, len as nat),
        ),
        RequestView::AllocExecutable { .. } => reply is Allocated,
        RequestView::AllocExecutableNear { .. } => reply is Allocated,
        RequestView::CallAllocCallback { .. } => reply is CallbackResult,
        RequestView::FreeExecutable { .. } => reply is Completed,
        RequestView::WriteTrampoline { .. } => reply is Completed,
        RequestView::PatchCode { .. } => reply is Completed,
    }
}

/// Memory after the platform has handled `request` and answered `reply`: a
/// write that was carried out stores its bytes, and nothing else changes
/// what memory holds.
pub open spec fn effect(mem: Map<int, u8>, request: RequestView, reply: ReplyView) -> Map<int, u8> {
    match (request, reply) {
        (
            RequestView::WriteTrampoline { address, bytes },
            ReplyView::Completed(Ok(_)),
        ) => mem_write(mem, address as int, bytes),
        (RequestView::PatchCode { address, bytes }, ReplyView::Completed(Ok(_))) => mem_write(
            mem,
            address as int,
            bytes,
        ),
        _ => mem,
    }
}

/// What was written is what is read back.
pub proof fn lemma_read_after_write(mem: Map<int, u8>, address: int, bytes: Seq<u8>)
    ensures
        mem_read(mem_write(mem, address, bytes), address, bytes.len()) == bytes,
{
    assert(mem_read(mem_write(mem, address, bytes), address, bytes.len()) =~= bytes);
}

/// A write leaves every range that it does not meet as it was.
pub proof fn lemma_read_apart_from_write(
    mem: Map<int, u8>,
    address: int,
    bytes: Seq<u8>,
    other: int,
    len: nat,
)
    requires
        other + len <= address || address + bytes.len() <= other,
    ensures
        mem_read(mem_write(mem, address, bytes), other, len) == mem_read(mem, other, len),
{
    assert(mem_read(mem_write(mem, address, bytes), other, len) =~= mem_read(mem, other, len));
}

// ---------------------------------------------------------------------------
// Pages
// ---------------------------------------------------------------------------

/// The page size to assume where the operating system reports none.
pub const DEFAULT_PAGE_SIZE: usize = 4096;

/// The page size to work with, given what the operating system reported.
pub fn page_size(reported: i64) -> (r: usize)
    ensures
        r > 0,
        0 < reported <= usize::MAX ==> r == reported,
        !(0 < reported <= usize::MAX) ==> r == DEFAULT_PAGE_SIZE,
{
    if reported <= 0 || reported as u64 > usize::MAX as u64 {
        DEFAULT_PAGE_SIZE
    } else {
        reported as usize
    }
}

/// The start of the page that holds `addr`.
pub open spec fn spec_page_align_down(addr: int, page: int) -> int {
    addr - addr % page
}

/// The first page boundary at or after `addr`.
pub open spec fn spec_page_align_up(addr: int, page: int) -> int {
    if addr % page == 0 {
        addr
    } else {
        addr - addr % page + page
    }
}

/// Rounds `addr` down to a multiple of `page`.
pub fn page_align_down(addr: usize, page: usize) -> (r: usize)
    requires
        page > 0,
    ensures
        r == spec_page_align_down(addr as int, page as int),
        r <= addr < r + page,
        r % page == 0,
{
    assert(0 <= addr % page <= addr) by (nonlinear_arith)
        requires
            page > 0,
            addr >= 0,
    ;
    let r: usize = addr - addr % page;
    assert(r % page == 0) by (nonlinear_arith)
        requires
            r == addr - addr % page,
            page > 0,
    ;
    r
}

/// Rounds `addr` up to a multiple of `page`; `None` where that is beyond the
/// address space.
pub fn page_align_up(addr: usize, page: usize) -> (r: Option<usize>)
    requires
        page > 0,
    ensures
        spec_page_align_up(addr as int, page as int) <= usize::MAX ==> r == Some(
            spec_page_align_up(addr as int, page as int) as usize,
        ),
        spec_page_align_up(addr as int, page as int) > usize::MAX ==> r is None,
        r matches Some(up) ==> addr <= up < addr + page && up % page == 0,
{
    let rem: usize = addr % page;
    assert(0 <= addr % page <= addr) by (nonlinear_arith)
        requires
            page > 0,
            addr >= 0,
    ;
    if rem == 0 {
        Some(addr)
    } else {
        let down: usize = addr - rem;
        assert(down % page == 0) by (nonlinear_arith)
            requires
                down == addr - addr % page,
                page > 0,
        ;
        match down.checked_add(page) {
            Some(up) => {
                assert(up % page == 0) by (nonlinear_arith)
                    requires
                        up == down + page,
                        down % page == 0,
                        page > 0,
                ;
                Some(up)
            },
            None => None,
        }
    }
}

/// The pages that hold the `size` bytes at `address`, as the start of the
/// first and the length in bytes up to the end of the last.
pub open spec fn spec_covering_pages(address: int, size: int, page: int) -> (int, int) {
    (
        spec_page_align_down(address, page),
        spec_page_align_up(address + size, page) - spec_page_align_down(address, page),
    )
}

/// The range of whole pages whose protection has to change for a write of
/// `size` bytes at `address`: it starts at a page boundary, ends at one, and
/// holds every byte of the write, also where the write crosses from one
/// page into the next.
///
/// Fails with `InvalidInput` where the range would end beyond the address
/// space.
pub fn covering_pages(address: usize, size: usize, page: usize) -> (r: Result<(usize, usize), Error>)
    requires
        page > 0,
    ensures
        spec_page_align_up(address + size, page as int) <= usize::MAX ==> r == Ok::<
            (usize, usize),
            Error,
        >(
            (
                spec_covering_pages(address as int, size as int, page as int).0 as usize,
                spec_covering_pages(address as int, size as int, page as int).1 as usize,
            ),
        ),
        spec_page_align_up(address + size, page as int) > usize::MAX ==> r == Err::<
            (usize, usize),
            Error,
        >(Error::InvalidInput),
        r matches Ok((start, len)) ==> {
            &&& start % page == 0
            &&& (start + len) % (page as int) == 0
            &&& start <= address
            &&& address + size <= start + len
            &&& address < start + page
            &&& start + len < address + size + page
        },
{
    let start: usize = page_align_down(address, page);
    let last: usize = match address.checked_add(size) {
        Some(last) => last,
        None => {
            return Err(Error::InvalidInput);
        },
    };
    match page_align_up(last, page) {
        Some(end) => Ok((start, end - start)),
        None => Err(Error::InvalidInput),
    }
}

} // verus!
