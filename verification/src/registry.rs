//! Provider and game registry: append-only until frozen, with validated,
//! unique identifiers and a reserved `"core"` identifier.
//!
//! Providers and games form two separate namespaces; within each,
//! identifiers are unique. The identifier `"core"` is special: it appears
//! at most once across both namespaces, and only for an entry whose source
//! is [`ProviderSource::Core`]. Once the registry is frozen every further
//! registration fails and leaves the entries untouched.

use vstd::prelude::*;

use crate::ids::{normalize_id, normalized_of, valid_id};

verus! {

/// Where a registered provider or game implementation comes from:
/// built into the application, or loaded from a named plugin.
#[derive(Debug, Clone)]
pub enum ProviderSource {
    Core,
    Plugin(String),
}

/// Everything a registry or context operation can fail with.
#[derive(Debug, Clone)]
pub enum RegistryError {
    InvalidId(String),
    ProviderAlreadyExists(String),
    GameAlreadyExists(String),
    ReservedCoreId(String),
    NotFound(String),
    RegistryFrozen,
}

/// One registered mod-data provider. The polymorphic provider object
/// itself lives outside the registry, associated by registration order.
pub struct ProviderEntry {
    pub id: String,
    pub source: ProviderSource,
}

/// One registered game, together with the identifier of the mod provider
/// it requires. That reference is validated lazily, at resolution time,
/// not at registration time.
pub struct GameEntry {
    pub id: String,
    pub source: ProviderSource,
    pub required_provider_id: String,
}

/// The registry: accumulates provider and game entries, enforces the
/// identifier invariants, and transitions to a frozen, read-only state.
pub struct Registry {
    providers: Vec<ProviderEntry>,
    games: Vec<GameEntry>,
    frozen: bool,
}

impl Registry {
    /// The registered providers, in registration order.
    pub closed spec fn providers(self) -> Seq<ProviderEntry> {
        self.providers@
    }

    /// The registered games, in registration order.
    pub closed spec fn games(self) -> Seq<GameEntry> {
        self.games@
    }

    /// Whether the registry has been frozen.
    pub closed spec fn frozen(self) -> bool {
        self.frozen
    }

    /// The reserved identifier.
    pub open spec fn core_id() -> Seq<char> {
        "core"@
    }

    pub open spec fn has_provider(self, id: Seq<char>) -> bool {
        exists|i: int| 0 <= i < self.providers().len() && (#[trigger] self.providers()[i]).id@ == id
    }

    pub open spec fn has_game(self, id: Seq<char>) -> bool {
        exists|i: int| 0 <= i < self.games().len() && (#[trigger] self.games()[i]).id@ == id
    }

    /// The reserved-identifier rule for a prospective entry.
    pub open spec fn source_allowed(id: Seq<char>, source: ProviderSource) -> bool {
        id == Self::core_id() ==> source is Core
    }

    /// The registry's invariant: identifiers valid and unique per
    /// namespace, the reserved identifier held at most once in total and
    /// only by a core-sourced entry, and every game's provider reference
    /// a valid identifier.
    pub open spec fn wf(self) -> bool {
        &&& forall|i: int| 0 <= i < self.providers().len()
            ==> valid_id((#[trigger] self.providers()[i]).id@)
        &&& forall|i: int, j: int|
            #![trigger self.providers()[i], self.providers()[j]]
            0 <= i < j < self.providers().len()
                ==> self.providers()[i].id@ != self.providers()[j].id@
        &&& forall|i: int| 0 <= i < self.games().len()
            ==> valid_id((#[trigger] self.games()[i]).id@)
        &&& forall|i: int, j: int|
            #![trigger self.games()[i], self.games()[j]]
            0 <= i < j < self.games().len()
                ==> self.games()[i].id@ != self.games()[j].id@
        &&& forall|i: int| 0 <= i < self.providers().len()
            && (#[trigger] self.providers()[i]).id@ == Self::core_id()
            ==> self.providers()[i].source is Core
        &&& forall|i: int| 0 <= i < self.games().len()
            && (#[trigger] self.games()[i]).id@ == Self::core_id()
            ==> self.games()[i].source is Core
        &&& !(self.has_provider(Self::core_id()) && self.has_game(Self::core_id()))
        &&& forall|i: int| 0 <= i < self.games().len()
            ==> valid_id((#[trigger] self.games()[i]).required_provider_id@)
    }

    /// A fresh, empty, unfrozen registry.
    pub fn new() -> (r: Registry)
        ensures
            r.wf(),
            !r.frozen(),
            r.providers().len() == 0,
            r.games().len() == 0,
    {
        Registry { providers: Vec::new(), games: Vec::new(), frozen: false }
    }

    pub fn provider_count(&self) -> (n: usize)
        ensures
            n == self.providers().len(),
    {
        self.providers.len()
    }

    pub fn game_count(&self) -> (n: usize)
        ensures
            n == self.games().len(),
    {
        self.games.len()
    }

    pub fn is_frozen(&self) -> (b: bool)
        ensures
            b == self.frozen(),
    {
        self.frozen
    }

    /// Index of the provider entry holding `id` (already normalized).
    pub(crate) fn find_provider(&self, id: &String) -> (r: Option<usize>)
        ensures
            match r {
                Some(j) => j < self.providers().len() && self.providers()[j as int].id@ == id@,
                None => !self.has_provider(id@),
            },
    {
        let mut j: usize = 0;
        while j < self.providers.len()
            invariant
                j <= self.providers@.len(),
                forall|k: int| 0 <= k < j ==> (#[trigger] self.providers@[k]).id@ != id@,
            decreases self.providers@.len() - j,
        {
            if self.providers[j].id == *id {
                return Some(j);
            }
            j += 1;
        }
        None
    }

    /// Index of the game entry holding `id` (already normalized).
    pub(crate) fn find_game(&self, id: &String) -> (r: Option<usize>)
        ensures
            match r {
                Some(j) => j < self.games().len() && self.games()[j as int].id@ == id@,
                None => !self.has_game(id@),
            },
    {
        let mut j: usize = 0;
        while j < self.games.len()
            invariant
                j <= self.games@.len(),
                forall|k: int| 0 <= k < j ==> (#[trigger] self.games@[k]).id@ != id@,
            decreases self.games@.len() - j,
        {
            if self.games[j].id == *id {
                return Some(j);
            }
            j += 1;
        }
        None
    }

    /// The provider entry at a given index, in registration order.
    pub fn provider_at(&self, i: usize) -> (r: &ProviderEntry)
        requires
            i < self.providers().len(),
        ensures
            *r == self.providers()[i as int],
    {
        &self.providers[i]
    }

    /// The game entry at a given index, in registration order.
    pub fn game_at(&self, i: usize) -> (r: &GameEntry)
        requires
            i < self.games().len(),
        ensures
            *r == self.games()[i as int],
    {
        &self.games[i]
    }

    /// Register a mod provider under `raw_id`.
    ///
    /// The identifier is normalized first. Registration fails on a frozen
    /// registry, on an invalid identifier, on a non-core source claiming
    /// the reserved identifier, and on an identifier already taken; a
    /// failed registration leaves the registry exactly as it was.
    pub fn register_provider(&mut self, raw_id: &str, source: ProviderSource) -> (r: Result<
        (),
        RegistryError,
    >)
        requires
            old(self).wf(),
        ensures
            final(self).wf(),
            match r {
                Ok(()) => {
                    &&& !old(self).frozen()
                    &&& valid_id(normalized_of(raw_id@))
                    &&& Self::source_allowed(normalized_of(raw_id@), source)
                    &&& !old(self).has_provider(normalized_of(raw_id@))
                    &&& !(normalized_of(raw_id@) == Self::core_id() && old(self).has_game(
                        Self::core_id(),
                    ))
                    &&& final(self).providers().len() == old(self).providers().len() + 1
                    &&& forall|i: int| 0 <= i < old(self).providers().len()
                        ==> #[trigger] final(self).providers()[i] == old(self).providers()[i]
                    &&& final(self).providers().last().id@ == normalized_of(raw_id@)
                    &&& final(self).providers().last().source == source
                    &&& final(self).games() == old(self).games()
                    &&& final(self).frozen() == old(self).frozen()
                },
                Err(e) => {
                    &&& final(self).providers() == old(self).providers()
                    &&& final(self).games() == old(self).games()
                    &&& final(self).frozen() == old(self).frozen()
                    &&& match e {
                        RegistryError::RegistryFrozen => old(self).frozen(),
                        RegistryError::InvalidId(_) => !old(self).frozen() && !valid_id(
                            normalized_of(raw_id@),
                        ),
                        RegistryError::ReservedCoreId(_) => {
                            &&& !old(self).frozen()
                            &&& valid_id(normalized_of(raw_id@))
                            &&& normalized_of(raw_id@) == Self::core_id()
                            &&& !(source is Core)
                        },
                        RegistryError::ProviderAlreadyExists(_) => {
                            &&& !old(self).frozen()
                            &&& valid_id(normalized_of(raw_id@))
                            &&& Self::source_allowed(normalized_of(raw_id@), source)
                            &&& (old(self).has_provider(normalized_of(raw_id@)) || (
                            normalized_of(raw_id@) == Self::core_id() && old(self).has_game(
                                Self::core_id(),
                            )))
                        },
                        _ => false,
                    }
                },
            },
    {
        if self.frozen {
            return Err(RegistryError::RegistryFrozen);
        }
        let n = match normalize_id(raw_id) {
            Ok(s) => s,
            Err(e) => { return Err(e) },
        };
        let core: String = "core".to_owned();
        if n == core {
            if !(matches!(source, ProviderSource::Core)) {
                return Err(RegistryError::ReservedCoreId(n));
            }
            if self.find_game(&n).is_some() {
                return Err(RegistryError::ProviderAlreadyExists(n));
            }
        }
        if self.find_provider(&n).is_some() {
            return Err(RegistryError::ProviderAlreadyExists(n));
        }
        self.providers.push(ProviderEntry { id: n, source });
        Ok(())
    }

    /// Register a game under `raw_id`, requiring the provider named by
    /// `raw_required_provider_id`.
    ///
    /// Both identifiers are normalized; the provider reference is not
    /// checked for existence here (it is resolved lazily at use time).
    /// The same freeze, validity, reserved-identifier and uniqueness
    /// rules apply as for providers; a failed registration leaves the
    /// registry exactly as it was.
    pub fn register_game(
        &mut self,
        raw_id: &str,
        source: ProviderSource,
        raw_required_provider_id: &str,
    ) -> (r: Result<(), RegistryError>)
        requires
            old(self).wf(),
        ensures
            final(self).wf(),
            match r {
                Ok(()) => {
                    &&& !old(self).frozen()
                    &&& valid_id(normalized_of(raw_id@))
                    &&& valid_id(normalized_of(raw_required_provider_id@))
                    &&& Self::source_allowed(normalized_of(raw_id@), source)
                    &&& !old(self).has_game(normalized_of(raw_id@))
                    &&& !(normalized_of(raw_id@) == Self::core_id() && old(self).has_provider(
                        Self::core_id(),
                    ))
                    &&& final(self).games().len() == old(self).games().len() + 1
                    &&& forall|i: int| 0 <= i < old(self).games().len()
                        ==> #[trigger] final(self).games()[i] == old(self).games()[i]
                    &&& final(self).games().last().id@ == normalized_of(raw_id@)
                    &&& final(self).games().last().source == source
                    &&& final(self).games().last().required_provider_id@ == normalized_of(
                        raw_required_provider_id@,
                    )
                    &&& final(self).providers() == old(self).providers()
                    &&& final(self).frozen() == old(self).frozen()
                },
                Err(e) => {
                    &&& final(self).providers() == old(self).providers()
                    &&& final(self).games() == old(self).games()
                    &&& final(self).frozen() == old(self).frozen()
                    &&& match e {
                        RegistryError::RegistryFrozen => old(self).frozen(),
                        RegistryError::InvalidId(_) => !old(self).frozen() && (!valid_id(
                            normalized_of(raw_id@),
                        ) || !valid_id(normalized_of(raw_required_provider_id@))),
                        RegistryError::ReservedCoreId(_) => {
                            &&& !old(self).frozen()
                            &&& valid_id(normalized_of(raw_id@))
                            &&& valid_id(normalized_of(raw_required_provider_id@))
                            &&& normalized_of(raw_id@) == Self::core_id()
                            &&& !(source is Core)
                        },
                        RegistryError::GameAlreadyExists(_) => {
                            &&& !old(self).frozen()
                            &&& valid_id(normalized_of(raw_id@))
                            &&& valid_id(normalized_of(raw_required_provider_id@))
                            &&& Self::source_allowed(normalized_of(raw_id@), source)
                            &&& (old(self).has_game(normalized_of(raw_id@)) || (normalized_of(
                                raw_id@,
                            ) == Self::core_id() && old(self).has_provider(Self::core_id())))
                        },
                        _ => false,
                    }
                },
            },
    {
        if self.frozen {
            return Err(RegistryError::RegistryFrozen);
        }
        let n = match normalize_id(raw_id) {
            Ok(s) => s,
            Err(e) => { return Err(e) },
        };
        let req = match normalize_id(raw_required_provider_id) {
            Ok(s) => s,
            Err(e) => { return Err(e) },
        };
        let core: String = "core".to_owned();
        if n == core {
            if !(matches!(source, ProviderSource::Core)) {
                return Err(RegistryError::ReservedCoreId(n));
            }
            if self.find_provider(&n).is_some() {
                return Err(RegistryError::GameAlreadyExists(n));
            }
        }
        if self.find_game(&n).is_some() {
            return Err(RegistryError::GameAlreadyExists(n));
        }
        self.games.push(GameEntry { id: n, source, required_provider_id: req });
        Ok(())
    }

    /// Freeze the registry: entries are kept as they are, and every
    /// later registration attempt fails with `RegistryFrozen`.
    pub fn freeze(&mut self)
        requires
            old(self).wf(),
        ensures
            final(self).wf(),
            final(self).frozen(),
            final(self).providers() == old(self).providers(),
            final(self).games() == old(self).games(),
    {
        self.frozen = true;
    }

    /// Look up a provider entry; the identifier is normalized first, so
    /// callers need not pre-normalize.
    pub fn get_provider(&self, raw_id: &str) -> (r: Result<&ProviderEntry, RegistryError>)
        requires
            self.wf(),
        ensures
            match r {
                Ok(e) => {
                    &&& valid_id(normalized_of(raw_id@))
                    &&& self.has_provider(normalized_of(raw_id@))
                    &&& e.id@ == normalized_of(raw_id@)
                    &&& exists|i: int| 0 <= i < self.providers().len() && *e
                        == #[trigger] self.providers()[i]
                },
                Err(e) => match e {
                    RegistryError::InvalidId(_) => !valid_id(normalized_of(raw_id@)),
                    RegistryError::NotFound(_) => valid_id(normalized_of(raw_id@))
                        && !self.has_provider(normalized_of(raw_id@)),
                    _ => false,
                },
            },
    {
        let n = match normalize_id(raw_id) {
            Ok(s) => s,
            Err(e) => { return Err(e) },
        };
        match self.find_provider(&n) {
            Some(j) => Ok(&self.providers[j]),
            None => Err(RegistryError::NotFound(n)),
        }
    }

    /// Look up a game entry; the identifier is normalized first.
    pub fn get_game(&self, raw_id: &str) -> (r: Result<&GameEntry, RegistryError>)
        requires
            self.wf(),
        ensures
            match r {
                Ok(e) => {
                    &&& valid_id(normalized_of(raw_id@))
                    &&& self.has_game(normalized_of(raw_id@))
                    &&& e.id@ == normalized_of(raw_id@)
                    &&& exists|i: int| 0 <= i < self.games().len() && *e == #[trigger] self.games()[i]
                },
                Err(e) => match e {
                    RegistryError::InvalidId(_) => !valid_id(normalized_of(raw_id@)),
                    RegistryError::NotFound(_) => valid_id(normalized_of(raw_id@))
                        && !self.has_game(normalized_of(raw_id@)),
                    _ => false,
                },
            },
    {
        let n = match normalize_id(raw_id) {
            Ok(s) => s,
            Err(e) => { return Err(e) },
        };
        match self.find_game(&n) {
            Some(j) => Ok(&self.games[j]),
            None => Err(RegistryError::NotFound(n)),
        }
    }
}

} // verus!
