//! What is known of each installed hook beyond the engine's own record: the
//! way to the original function and the callbacks to run around a detour.

use std::collections::HashMap;
use vstd::prelude::*;

verus! {

broadcast use vstd::std_specs::hash::group_hash_axioms;

/// What belongs to one detour.
pub struct HookMeta<C> {
    /// The address through which the original function is called.
    pub original: usize,
    /// The callback to run before the detour does its work.
    pub before: Option<C>,
    /// The callback to run after it.
    pub after: Option<C>,
}

/// The hooks that were installed through this layer, by detour and by
/// target.
pub struct HookRegistry<C> {
    by_detour: HashMap<usize, HookMeta<C>>,
    by_target: HashMap<usize, usize>,
}

impl<C> HookRegistry<C> {
    /// What is entered under each detour.
    pub closed spec fn detours(&self) -> Map<usize, HookMeta<C>> {
        self.by_detour@
    }

    /// The detour that is entered under each target.
    pub closed spec fn targets(&self) -> Map<usize, usize> {
        self.by_target@
    }

    /// A registry without entries.
    pub fn new() -> (r: Self)
        ensures
            r.detours() == Map::<usize, HookMeta<C>>::empty(),
            r.targets() == Map::<usize, usize>::empty(),
    {
        HookRegistry { by_detour: HashMap::new(), by_target: HashMap::new() }
    }

    /// Whether `target` or `detour` is in use by an entry.
    pub fn contains(&self, target: usize, detour: usize) -> (r: bool)
        ensures
            r == (self.targets().contains_key(target) || self.detours().contains_key(detour)),
    {
        self.by_target.contains_key(&target) || self.by_detour.contains_key(&detour)
    }

    /// Enters a hook under its target and under its detour; an entry that
    /// either had gives way.
    pub fn insert(
        &mut self,
        target: usize,
        detour: usize,
        original: usize,
        before: Option<C>,
        after: Option<C>,
    )
        ensures
            final(self).targets() == old(self).targets().insert(target, detour),
            final(self).detours() == old(self).detours().insert(
                detour,
                HookMeta { original, before, after },
            ),
    {
        self.by_target.insert(target, detour);
        self.by_detour.insert(detour, HookMeta { original, before, after });
    }

    /// Takes out what is entered under `target` and under `detour`.
    pub fn remove(&mut self, target: usize, detour: usize)
        ensures
            final(self).targets() == old(self).targets().remove(target),
            final(self).detours() == old(self).detours().remove(detour),
    {
        self.by_target.remove(&target);
        self.by_detour.remove(&detour);
    }

    /// The callback to run before `detour`, if it has one.
    pub fn get_before(&self, detour: usize) -> (r: Option<&C>)
        ensures
            match r {
                Some(cb) => self.detours().contains_key(detour) && self.detours()[detour].before
                    == Some(*cb),
                None => !self.detours().contains_key(detour)
                    || self.detours()[detour].before is None,
            },
    {
        match self.by_detour.get(&detour) {
            Some(meta) => meta.before.as_ref(),
            None => None,
        }
    }

    /// The callback to run after `detour`, if it has one.
    pub fn get_after(&self, detour: usize) -> (r: Option<&C>)
        ensures
            match r {
                Some(cb) => self.detours().contains_key(detour) && self.detours()[detour].after
                    == Some(*cb),
                None => !self.detours().contains_key(detour)
                    || self.detours()[detour].after is None,
            },
    {
        match self.by_detour.get(&detour) {
            Some(meta) => meta.after.as_ref(),
            None => None,
        }
    }

    /// The way to the original function behind `detour`.
    pub fn get_original(&self, detour: usize) -> (r: Option<usize>)
        ensures
            self.detours().contains_key(detour) ==> r == Some(self.detours()[detour].original),
            !self.detours().contains_key(detour) ==> r is None,
    {
        match self.by_detour.get(&detour) {
            Some(meta) => Some(meta.original),
            None => None,
        }
    }
}

} // verus!
