//! Names for addresses.
//!
//! An alias stands for the address of a symbol, so that a hook can be put on
//! a name. An alias names one address at a time: to register it again
//! replaces what it stood for.

use vstd::prelude::*;
use crate::engine::backend::Backend;
use crate::engine::manager::HookManager;
use crate::error::Error;
use crate::hook_utils::builder::InstallOp;
use crate::hook_utils::registry::HookRegistry;
use crate::hook_utils::{install_addr, install_begins};
use crate::options::Options;
use crate::platform::Request;

verus! {

/// What an alias stands for.
#[derive(Debug)]
pub struct SymbolAlias {
    pub alias: String,
    /// The symbol that was resolved, where the alias came from one.
    pub symbol_name: Option<String>,
    /// The image in which the symbol was looked up; `None` for all images.
    pub image_name: Option<String>,
    pub address: usize,
}

/// A [`SymbolAlias`] with its names as sequences of characters.
pub ghost struct SymbolAliasView {
    pub alias: Seq<char>,
    pub symbol_name: Option<Seq<char>>,
    pub image_name: Option<Seq<char>>,
    pub address: usize,
}

/// The characters of an optional name.
pub open spec fn name_view(name: Option<String>) -> Option<Seq<char>> {
    match name {
        Some(s) => Some(s@),
        None => None,
    }
}

impl View for SymbolAlias {
    type V = SymbolAliasView;

    open spec fn view(&self) -> SymbolAliasView {
        SymbolAliasView {
            alias: self.alias@,
            symbol_name: name_view(self.symbol_name),
            image_name: name_view(self.image_name),
            address: self.address,
        }
    }
}

fn copy_of_name(name: &Option<String>) -> (r: Option<String>)
    ensures
        r == *name,
{
    match name {
        Some(s) => Some(s.clone()),
        None => None,
    }
}

impl SymbolAlias {
    /// The address that the alias stands for.
    pub fn address(&self) -> (r: usize)
        ensures
            r == self.address,
    {
        self.address
    }

    /// A copy of this entry.
    pub fn duplicate(&self) -> (r: SymbolAlias)
        ensures
            r == *self,
    {
        SymbolAlias {
            alias: self.alias.clone(),
            symbol_name: copy_of_name(&self.symbol_name),
            image_name: copy_of_name(&self.image_name),
            address: self.address,
        }
    }
}

impl Clone for SymbolAlias {
    fn clone(&self) -> (r: SymbolAlias)
        ensures
            r == *self,
    {
        self.duplicate()
    }
}

/// The registered aliases.
pub struct AliasMap {
    entries: Vec<SymbolAlias>,
}

/// Whether no alias occurs twice among `entries`.
pub open spec fn distinct_aliases(entries: Seq<SymbolAlias>) -> bool {
    forall|i: int, j: int|
        0 <= i < j < entries.len() ==> (#[trigger] entries[i]).alias@ != (#[trigger] entries[j]).alias@
}

/// Whether `entries` hold exactly what `aliases` maps: every entry under its
/// alias, and nothing else.
pub open spec fn holds(entries: Seq<SymbolAlias>, aliases: Map<Seq<char>, SymbolAliasView>) -> bool {
    &&& forall|i: int|
        0 <= i < entries.len() ==> aliases.contains_key((#[trigger] entries[i]).alias@)
            && aliases[entries[i].alias@] == entries[i]@
    &&& forall|name: Seq<char>| #[trigger]
        aliases.contains_key(name) ==> exists|i: int|
            0 <= i < entries.len() && (#[trigger] entries[i]).alias@ == name
}

impl View for AliasMap {
    type V = Map<Seq<char>, SymbolAliasView>;

    closed spec fn view(&self) -> Map<Seq<char>, SymbolAliasView> {
        Map::new(
            |name: Seq<char>|
                exists|i: int| 0 <= i < self.entries@.len() && (#[trigger] self.entries@[i]).alias@ == name,
            |name: Seq<char>|
                self.entries@[choose|i: int|
                    0 <= i < self.entries@.len() && (#[trigger] self.entries@[i]).alias@ == name]@,
        )
    }
}

impl AliasMap {
    /// No alias occurs twice: what every map holds that `new` made and the
    /// methods changed.
    pub closed spec fn wf(&self) -> bool {
        distinct_aliases(self.entries@)
    }

    proof fn lemma_holds(&self)
        requires
            distinct_aliases(self.entries@),
        ensures
            holds(self.entries@, self@),
    {
        assert forall|i: int| 0 <= i < self.entries@.len() implies self@.contains_key(
            (#[trigger] self.entries@[i]).alias@,
        ) && self@[self.entries@[i].alias@] == self.entries@[i]@ by {
            let name = self.entries@[i].alias@;
            let k = choose|k: int|
                0 <= k < self.entries@.len() && (#[trigger] self.entries@[k]).alias@ == name;
            assert(k == i);
        }
    }

    /// No aliases.
    pub fn new() -> (r: AliasMap)
        ensures
            r.wf(),
            r@ == Map::<Seq<char>, SymbolAliasView>::empty(),
    {
        let r = AliasMap { entries: Vec::new() };
        assert(r@ =~= Map::<Seq<char>, SymbolAliasView>::empty());
        r
    }

    fn find(&self, name: &String) -> (r: Option<usize>)
        ensures
            match r {
                Some(i) => i < self.entries@.len() && self.entries@[i as int].alias@ == name@,
                None => forall|i: int|
                    0 <= i < self.entries@.len() ==> (#[trigger] self.entries@[i]).alias@ != name@,
            },
    {
        let mut i: usize = 0;
        while i < self.entries.len()
            invariant
                i <= self.entries@.len(),
                forall|k: int| 0 <= k < i ==> (#[trigger] self.entries@[k]).alias@ != name@,
            decreases self.entries@.len() - i,
        {
            if self.entries[i].alias == *name {
                return Some(i);
            }
            i += 1;
        }
        None
    }

    /// Enters `entry` under its alias; what the alias stood for gives way.
    pub fn insert(&mut self, entry: SymbolAlias)
        requires
            old(self).wf(),
        ensures
            final(self).wf(),
            final(self)@ == old(self)@.insert(entry.alias@, entry@),
    {
        proof {
            self.lemma_holds();
        }
        let ghost before = self.entries@;
        let ghost name = entry.alias@;
        let found: Option<usize> = self.find(&entry.alias);
        let ghost pos: int = match found {
            Some(i) => i as int,
            None => before.len() as int,
        };
        match found {
            Some(i) => {
                self.entries.set(i, entry);
                assert(distinct_aliases(self.entries@)) by {
                    assert forall|a: int, b: int| 0 <= a < b < self.entries@.len() implies (
                    #[trigger] self.entries@[a]).alias@ != (#[trigger] self.entries@[b]).alias@ by {
                        assert(before[a].alias@ != before[b].alias@);
                    }
                }
            },
            None => {
                self.entries.push(entry);
                assert(distinct_aliases(self.entries@)) by {
                    assert forall|a: int, b: int| 0 <= a < b < self.entries@.len() implies (
                    #[trigger] self.entries@[a]).alias@ != (#[trigger] self.entries@[b]).alias@ by {
                        if b < before.len() {
                            assert(before[a].alias@ != before[b].alias@);
                        } else {
                            assert(before[a].alias@ != name);
                        }
                    }
                }
            },
        }
        proof {
            self.lemma_holds();
            let now = self.entries@;
            assert forall|k: Seq<char>| self@.contains_key(k) <==> old(self)@.insert(
                name,
                entry@,
            ).contains_key(k) by {
                if self@.contains_key(k) {
                    let i = choose|i: int| 0 <= i < now.len() && (#[trigger] now[i]).alias@ == k;
                    if k != name {
                        assert(before[i].alias@ == k);
                    }
                }
                if old(self)@.contains_key(k) && k != name {
                    let i = choose|i: int|
                        0 <= i < before.len() && (#[trigger] before[i]).alias@ == k;
                    assert(now[i].alias@ == k);
                }
                if k == name {
                    assert(now[pos].alias@ == k);
                }
            }
            assert forall|k: Seq<char>| self@.contains_key(k) implies self@[k] == old(self)@.insert(
                name,
                entry@,
            )[k] by {
                let i = choose|i: int| 0 <= i < now.len() && (#[trigger] now[i]).alias@ == k;
                if k != name {
                    assert(before[i].alias@ == k);
                    assert(before[i] == now[i]);
                } else {
                    assert(now[pos].alias@ == k);
                    assert(i == pos);
                }
            }
            assert(self@ =~= old(self)@.insert(name, entry@));
        }
    }

    /// What `name` stands for, if it is registered.
    pub fn get(&self, name: &str) -> (r: Option<&SymbolAlias>)
        requires
            self.wf(),
        ensures
            match r {
                Some(entry) => self@.contains_key(name@) && self@[name@] == entry@,
                None => !self@.contains_key(name@),
            },
    {
        proof {
            self.lemma_holds();
        }
        let key: String = name.to_owned();
        match self.find(&key) {
            Some(i) => Some(&self.entries[i]),
            None => None,
        }
    }
}

fn owned_name(name: Option<&str>) -> (r: Option<String>)
    ensures
        match name {
            Some(s) => r is Some && r->Some_0@ == s@,
            None => r is None,
        },
{
    match name {
        Some(s) => Some(s.to_owned()),
        None => None,
    }
}

/// The characters of an optional name.
pub open spec fn str_view(name: Option<&str>) -> Option<Seq<char>> {
    match name {
        Some(s) => Some(s@),
        None => None,
    }
}

/// Registers `alias` for `address`.
///
/// Fails with `NullPointer`, and leaves the aliases as they are, where the
/// address is null.
pub fn register_alias(aliases: &mut AliasMap, alias: String, address: usize) -> (r: Result<(), Error>)
    requires
        old(aliases).wf(),
    ensures
        final(aliases).wf(),
        address == 0 ==> r == Err::<(), Error>(Error::NullPointer) && final(aliases)@ == old(aliases)@,
        address != 0 ==> r is Ok && final(aliases)@ == old(aliases)@.insert(
            alias@,
            SymbolAliasView { alias: alias@, symbol_name: None, image_name: None, address },
        ),
{
    if address == 0 {
        return Err(Error::NullPointer);
    }
    aliases.insert(SymbolAlias { alias, symbol_name: None, image_name: None, address });
    Ok(())
}

/// Registers `alias` for `address`, which is where `symbol_name` was found
/// in `image_name`.
///
/// Fails with `NullPointer`, and leaves the aliases as they are, where the
/// address is null.
pub fn register_alias_with_symbol(
    aliases: &mut AliasMap,
    alias: String,
    image_name: Option<&str>,
    symbol_name: &str,
    address: usize,
) -> (r: Result<(), Error>)
    requires
        old(aliases).wf(),
    ensures
        final(aliases).wf(),
        address == 0 ==> r == Err::<(), Error>(Error::NullPointer) && final(aliases)@ == old(aliases)@,
        address != 0 ==> r is Ok && final(aliases)@ == old(aliases)@.insert(
            alias@,
            SymbolAliasView {
                alias: alias@,
                symbol_name: Some(symbol_name@),
                image_name: str_view(image_name),
                address,
            },
        ),
{
    if address == 0 {
        return Err(Error::NullPointer);
    }
    aliases.insert(
        SymbolAlias {
            alias,
            symbol_name: Some(symbol_name.to_owned()),
            image_name: owned_name(image_name),
            address,
        },
    );
    Ok(())
}

/// Registers `alias` for `address`, which is where `symbol_name` was found
/// in the image `image_name`.
pub fn register_alias_with_symbol_in(
    aliases: &mut AliasMap,
    alias: String,
    image_name: &str,
    symbol_name: &str,
    address: usize,
) -> (r: Result<(), Error>)
    requires
        old(aliases).wf(),
    ensures
        final(aliases).wf(),
        address == 0 ==> r == Err::<(), Error>(Error::NullPointer) && final(aliases)@ == old(aliases)@,
        address != 0 ==> r is Ok && final(aliases)@ == old(aliases)@.insert(
            alias@,
            SymbolAliasView {
                alias: alias@,
                symbol_name: Some(symbol_name@),
                image_name: Some(image_name@),
                address,
            },
        ),
{
    register_alias_with_symbol(aliases, alias, Some(image_name), symbol_name, address)
}

/// The address that `name` stands for, if it is registered.
pub fn get_alias(aliases: &AliasMap, name: &str) -> (r: Option<usize>)
    requires
        aliases.wf(),
    ensures
        aliases@.contains_key(name@) ==> r == Some(aliases@[name@].address),
        !aliases@.contains_key(name@) ==> r is None,
{
    match aliases.get(name) {
        Some(entry) => Some(entry.address()),
        None => None,
    }
}

/// All that is known of `name`, if it is registered.
pub fn get_alias_info(aliases: &AliasMap, name: &str) -> (r: Option<SymbolAlias>)
    requires
        aliases.wf(),
    ensures
        aliases@.contains_key(name@) ==> r is Some && r->Some_0@ == aliases@[name@],
        !aliases@.contains_key(name@) ==> r is None,
{
    match aliases.get(name) {
        Some(entry) => Some(entry.duplicate()),
        None => None,
    }
}

/// Registers `alias` for `resolved`, the address that the loader gave for
/// `symbol_name` in `image_name`, and returns that address.
///
/// Fails with `SymbolNotFound`, and leaves the aliases as they are, where
/// the loader found nothing and `resolved` is null.
pub fn resolve_and_register_alias(
    aliases: &mut AliasMap,
    alias: String,
    image_name: Option<&str>,
    symbol_name: &str,
    resolved: usize,
) -> (r: Result<usize, Error>)
    requires
        old(aliases).wf(),
    ensures
        final(aliases).wf(),
        resolved == 0 ==> r == Err::<usize, Error>(Error::SymbolNotFound) && final(aliases)@ == old(aliases)@,
        resolved != 0 ==> r == Ok::<usize, Error>(resolved) && final(aliases)@ == old(aliases)@.insert(
            alias@,
            SymbolAliasView {
                alias: alias@,
                symbol_name: Some(symbol_name@),
                image_name: str_view(image_name),
                address: resolved,
            },
        ),
{
    if resolved == 0 {
        return Err(Error::SymbolNotFound);
    }
    match register_alias_with_symbol(aliases, alias, image_name, symbol_name, resolved) {
        Ok(()) => Ok(resolved),
        Err(e) => Err(e),
    }
}

/// As `resolve_and_register_alias`, for a symbol of the image `image_name`.
pub fn resolve_and_register_alias_in(
    aliases: &mut AliasMap,
    alias: String,
    image_name: &str,
    symbol_name: &str,
    resolved: usize,
) -> (r: Result<usize, Error>)
    requires
        old(aliases).wf(),
    ensures
        final(aliases).wf(),
        resolved == 0 ==> r == Err::<usize, Error>(Error::SymbolNotFound) && final(aliases)@ == old(aliases)@,
        resolved != 0 ==> r == Ok::<usize, Error>(resolved) && final(aliases)@ == old(aliases)@.insert(
            alias@,
            SymbolAliasView {
                alias: alias@,
                symbol_name: Some(symbol_name@),
                image_name: Some(image_name@),
                address: resolved,
            },
        ),
{
    resolve_and_register_alias(aliases, alias, Some(image_name), symbol_name, resolved)
}

/// Begins the installation of a hook on what `name` stands for.
///
/// Fails with `SymbolNotFound` where `name` is not registered, and otherwise
/// as `install_addr` does.
pub fn hook_alias<C>(
    aliases: &AliasMap,
    manager: &HookManager,
    registry: &HookRegistry<C>,
    backend: Backend,
    options: &Options,
    name: &str,
    detour: usize,
) -> (r: Result<(InstallOp<C>, Request), Error>)
    requires
        aliases.wf(),
    ensures
        !aliases@.contains_key(name@) ==> r is Err && r->Err_0 == Error::SymbolNotFound,
        aliases@.contains_key(name@) ==> install_begins(
            manager,
            registry,
            backend,
            options,
            aliases@[name@].address,
            detour,
            None,
            None,
            r,
        ),
{
    match get_alias(aliases, name) {
        Some(target) => install_addr(manager, registry, backend, options, target, detour),
        None => Err(Error::SymbolNotFound),
    }
}

/// Begins the installation of a hook on `resolved`, the address that the
/// loader gave for `symbol_name` in `image_name`, and registers `alias` for
/// it where one is given.
///
/// Fails with `NullPointer` where `detour` is null and with `SymbolNotFound`
/// where `resolved` is null; the aliases stay as they are in both cases.
pub fn hook_symbol<C>(
    aliases: &mut AliasMap,
    manager: &HookManager,
    registry: &HookRegistry<C>,
    backend: Backend,
    options: &Options,
    image_name: Option<&str>,
    symbol_name: &str,
    detour: usize,
    alias: Option<&str>,
    resolved: usize,
) -> (r: Result<(InstallOp<C>, Request), Error>)
    requires
        old(aliases).wf(),
    ensures
        final(aliases).wf(),
        detour == 0 ==> r is Err && r->Err_0 == Error::NullPointer && final(aliases)@ == old(aliases)@,
        detour != 0 && resolved == 0 ==> r is Err && r->Err_0 == Error::SymbolNotFound && final(aliases)@ == old(aliases)@,
        detour != 0 && resolved != 0 ==> install_begins(
            manager,
            registry,
            backend,
            options,
            resolved,
            detour,
            None,
            None,
            r,
        ) && final(aliases)@ == (match alias {
            Some(name) => old(aliases)@.insert(
                name@,
                SymbolAliasView {
                    alias: name@,
                    symbol_name: Some(symbol_name@),
                    image_name: str_view(image_name),
                    address: resolved,
                },
            ),
            None => old(aliases)@,
        }),
{
    if detour == 0 {
        return Err(Error::NullPointer);
    }
    if resolved == 0 {
        return Err(Error::SymbolNotFound);
    }
    match alias {
        Some(name) => {
            let _ = register_alias_with_symbol(
                aliases,
                name.to_owned(),
                image_name,
                symbol_name,
                resolved,
            );
        },
        None => {},
    }
    install_addr(manager, registry, backend, options, resolved, detour)
}

/// As `hook_symbol`, for a symbol that is looked up in all images.
pub fn hook_symbol_default<C>(
    aliases: &mut AliasMap,
    manager: &HookManager,
    registry: &HookRegistry<C>,
    backend: Backend,
    options: &Options,
    symbol_name: &str,
    detour: usize,
    alias: Option<&str>,
    resolved: usize,
) -> (r: Result<(InstallOp<C>, Request), Error>)
    requires
        old(aliases).wf(),
    ensures
        final(aliases).wf(),
        detour == 0 ==> r is Err && r->Err_0 == Error::NullPointer && final(aliases)@ == old(aliases)@,
        detour != 0 && resolved == 0 ==> r is Err && r->Err_0 == Error::SymbolNotFound && final(aliases)@
            == old(aliases)@,
        detour != 0 && resolved != 0 ==> install_begins(
            manager,
            registry,
            backend,
            options,
            resolved,
            detour,
            None,
            None,
            r,
        ) && final(aliases)@ == (match alias {
            Some(name) => old(aliases)@.insert(
                name@,
                SymbolAliasView {
                    alias: name@,
                    symbol_name: Some(symbol_name@),
                    image_name: None,
                    address: resolved,
                },
            ),
            None => old(aliases)@,
        }),
{
    hook_symbol(
        aliases,
        manager,
        registry,
        backend,
        options,
        None,
        symbol_name,
        detour,
        alias,
        resolved,
    )
}

/// As `hook_symbol`, for a symbol of the image `image_name`.
pub fn hook_symbol_in<C>(
    aliases: &mut AliasMap,
    manager: &HookManager,
    registry: &HookRegistry<C>,
    backend: Backend,
    options: &Options,
    image_name: &str,
    symbol_name: &str,
    detour: usize,
    alias: Option<&str>,
    resolved: usize,
) -> (r: Result<(InstallOp<C>, Request), Error>)
    requires
        old(aliases).wf(),
    ensures
        final(aliases).wf(),
        detour == 0 ==> r is Err && r->Err_0 == Error::NullPointer && final(aliases)@ == old(aliases)@,
        detour != 0 && resolved == 0 ==> r is Err && r->Err_0 == Error::SymbolNotFound && final(aliases)@
            == old(aliases)@,
        detour != 0 && resolved != 0 ==> install_begins(
            manager,
            registry,
            backend,
            options,
            resolved,
            detour,
            None,
            None,
            r,
        ) && final(aliases)@ == (match alias {
            Some(name) => old(aliases)@.insert(
                name@,
                SymbolAliasView {
                    alias: name@,
                    symbol_name: Some(symbol_name@),
                    image_name: Some(image_name@),
                    address: resolved,
                },
            ),
            None => old(aliases)@,
        }),
{
    hook_symbol(
        aliases,
        manager,
        registry,
        backend,
        options,
        Some(image_name),
        symbol_name,
        detour,
        alias,
        resolved,
    )
}

} // verus!
