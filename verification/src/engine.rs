//! The hook engine: backends, the registry of installed hooks and the
//! public operations.
//!
//! An operation that fails at once returns its error and nothing else, so
//! nothing is asked of the platform and no memory is touched. One that goes
//! on returns the first request for the platform together with the state
//! that takes the reply.

pub mod backend;
pub mod history;
pub mod manager;

use vstd::prelude::*;
use crate::bytes::append_bytes;
use crate::engine::backend::{Backend, DestroyState};
use crate::engine::manager::{spec_destroy, spec_hook, HookManager, HookOp};
use crate::error::Error;
use crate::options::Options;
use crate::platform::{Request, RequestView};

verus! {

/// What `code_patch` asks of the platform: `NullPointer` where the address is
/// null or there is no buffer, `UnsupportedPlatform` where there is no
/// backend, else the write of the buffer to the address.
pub open spec fn spec_code_patch(backend: Backend, address: usize, buffer: Option<Seq<u8>>) -> Result<
    RequestView,
    Error,
> {
    match buffer {
        Some(bytes) if address != 0 => if backend.spec_is_supported() {
            Ok(RequestView::PatchCode { address, bytes })
        } else {
            Err(Error::UnsupportedPlatform)
        },
        _ => Err(Error::NullPointer),
    }
}

/// The view of an optional buffer.
pub open spec fn buffer_view(buffer: Option<&[u8]>) -> Option<Seq<u8>> {
    match buffer {
        Some(bytes) => Some(bytes@),
        None => None,
    }
}

/// Overwrites the code at `address` with `buffer`.
///
/// On success the request that does so is returned; what the platform
/// answers to it is the outcome of the patch.
pub fn code_patch(backend: Backend, address: usize, buffer: Option<&[u8]>) -> (r: Result<
    Request,
    Error,
>)
    ensures
        address == 0 || buffer is None ==> r == Err::<Request, Error>(Error::NullPointer),
        match spec_code_patch(backend, address, buffer_view(buffer)) {
            Ok(request) => r is Ok && r->Ok_0@ == request,
            Err(e) => r == Err::<Request, Error>(e),
        },
{
    match buffer {
        Some(source) => {
            if address == 0 {
                return Err(Error::NullPointer);
            }
            if !backend.is_supported() {
                return Err(Error::UnsupportedPlatform);
            }
            let mut bytes: Vec<u8> = Vec::new();
            append_bytes(&mut bytes, source);
            assert(bytes@ =~= source@);
            Ok(Request::PatchCode { address, bytes })
        },
        None => Err(Error::NullPointer),
    }
}

/// Begins the installation of a hook at `address` that sends callers to
/// `fake_func`.
///
/// Fails with `NullPointer` where either address is null, with
/// `AlreadyHooked` where `address` carries a hook, and with
/// `UnsupportedPlatform` where there is no backend.
pub fn hook(
    manager: &HookManager,
    backend: Backend,
    options: &Options,
    address: usize,
    fake_func: usize,
) -> (r: Result<(HookOp, Request), Error>)
    ensures
        address == 0 || fake_func == 0 ==> r == Err::<(HookOp, Request), Error>(Error::NullPointer),
        address != 0 && fake_func != 0 && manager@.contains_key(address) ==> r == Err::<
            (HookOp, Request),
            Error,
        >(Error::AlreadyHooked),
        address != 0 && fake_func != 0 ==> match spec_hook(
            manager@,
            backend,
            *options,
            address,
            fake_func,
        ) {
            Ok((op, request)) => r is Ok && r->Ok_0.0@ == op && r->Ok_0.1@ == request,
            Err(e) => r == Err::<(HookOp, Request), Error>(e),
        },
{
    if address == 0 || fake_func == 0 {
        return Err(Error::NullPointer);
    }
    manager.hook(backend, options, address, fake_func)
}

/// Begins the removal of the hook at `address`.
///
/// Fails with `NullPointer` where the address is null and with
/// `HookNotFound` where it carries no hook; in both cases the registry stays
/// as it is.
pub fn destroy(manager: &mut HookManager, backend: Backend, address: usize) -> (r: Result<
    (DestroyState, Request),
    Error,
>)
    ensures
        address == 0 ==> r == Err::<(DestroyState, Request), Error>(Error::NullPointer),
        address == 0 ==> final(manager)@ == old(manager)@,
        address != 0 && !old(manager)@.contains_key(address) ==> r == Err::<
            (DestroyState, Request),
            Error,
        >(Error::HookNotFound) && final(manager)@ == old(manager)@,
        address != 0 ==> final(manager)@ == spec_destroy(old(manager)@, backend, address).0
            && match spec_destroy(old(manager)@, backend, address).1 {
            Ok((state, request)) => r is Ok && r->Ok_0.0 == state && r->Ok_0.1@ == request,
            Err(e) => r == Err::<(DestroyState, Request), Error>(e),
        },
{
    if address == 0 {
        return Err(Error::NullPointer);
    }
    manager.destroy(backend, address)
}

/// Replaces an entry of an import table. No backend does this: the call
/// fails with `NullPointer` where `fake_func` is null and with
/// `UnsupportedPlatform` otherwise.
pub fn import_table_replace(image_name: Option<&str>, symbol_name: &str, fake_func: usize) -> (r:
    Result<usize, Error>)
    ensures
        fake_func == 0 ==> r == Err::<usize, Error>(Error::NullPointer),
        fake_func != 0 ==> r == Err::<usize, Error>(Error::UnsupportedPlatform),
{
    if fake_func == 0 {
        return Err(Error::NullPointer);
    }
    Err(Error::UnsupportedPlatform)
}

/// Instruments the code at `address` with the handler at `pre_handler`. No
/// backend does this: the call fails with `NullPointer` where `address` is
/// null and with `UnsupportedPlatform` otherwise.
pub fn instrument(address: usize, pre_handler: usize) -> (r: Result<(), Error>)
    ensures
        address == 0 ==> r == Err::<(), Error>(Error::NullPointer),
        address != 0 ==> r == Err::<(), Error>(Error::UnsupportedPlatform),
{
    if address == 0 {
        return Err(Error::NullPointer);
    }
    Err(Error::UnsupportedPlatform)
}

} // verus!
