//! Settings for the retry that follows a trampoline out of reach.

use vstd::prelude::*;

verus! {

/// The settings of the engine.
///
/// The allocation callback is held by its address; zero stands for none. The
/// platform calls it with the size of the block, the address to stay near
/// and the range, and gets the address of a block or zero.
#[derive(Clone, Copy, Debug, PartialEq, Eq, Structural)]
pub struct Options {
    pub near_trampoline: bool,
    pub alloc_near_code_callback: usize,
}

impl Options {
    /// The settings of a fresh engine: no near trampolines, no callback.
    pub fn new() -> (r: Options)
        ensures
            r == (Options { near_trampoline: false, alloc_near_code_callback: 0 }),
    {
        Options { near_trampoline: false, alloc_near_code_callback: 0 }
    }
}

impl Default for Options {
    fn default() -> (r: Options)
        ensures
            r == (Options { near_trampoline: false, alloc_near_code_callback: 0 }),
    {
        Options::new()
    }
}

/// Whether near trampolines are asked for.
pub fn near_trampoline_enabled(options: &Options) -> (r: bool)
    ensures
        r == options.near_trampoline,
{
    options.near_trampoline
}

/// The address of the registered allocation callback, if there is one.
pub fn alloc_near_code_callback(options: &Options) -> (r: Option<usize>)
    ensures
        options.alloc_near_code_callback == 0 ==> r is None,
        options.alloc_near_code_callback != 0 ==> r == Some(options.alloc_near_code_callback),
{
    let p: usize = options.alloc_near_code_callback;
    if p == 0 {
        None
    } else {
        Some(p)
    }
}

/// Asks for near trampolines, or no longer.
pub fn set_near_trampoline(options: &mut Options, enable: bool)
    ensures
        *final(options) == (Options { near_trampoline: enable, ..*old(options) }),
{
    options.near_trampoline = enable;
}

/// Registers the allocation callback at the address `handler`, or removes
/// the registered one where `handler` is `None`.
pub fn register_alloc_near_code_callback(options: &mut Options, handler: Option<usize>)
    ensures
        *final(options) == (Options {
            alloc_near_code_callback: match handler {
                Some(address) => address,
                None => 0,
            },
            ..*old(options)
        }),
{
    options.alloc_near_code_callback =
    match handler {
        Some(address) => address,
        None => 0,
    };
}

/// Sets both settings at once.
pub fn set_options(
    options: &mut Options,
    enable_near_trampoline: bool,
    alloc_near_code_callback: Option<usize>,
)
    ensures
        *final(options) == (Options {
            near_trampoline: enable_near_trampoline,
            alloc_near_code_callback: match alloc_near_code_callback {
                Some(address) => address,
                None => 0,
            },
        }),
{
    set_near_trampoline(options, enable_near_trampoline);
    register_alloc_near_code_callback(options, alloc_near_code_callback);
}

} // verus!
