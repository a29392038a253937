//! The context: a read-only view over one frozen registry plus the single
//! mutable "active game" selection, which is either unset or names a
//! registered game.

use vstd::prelude::*;
use vstd::string::*;

use crate::discovery::DiscoveryQuery;
use crate::ids::{normalize_id, normalized_of, valid_id};
use crate::registry::{Registry, RegistryError};

verus! {

/// The single source of truth for "what providers and games exist" and
/// "which game is active right now". Built from exactly one frozen
/// registry; only the active-game selection changes afterwards.
pub struct Context {
    registry: Registry,
    active: Option<String>,
}

impl Context {
    /// The frozen registry this context was built from.
    pub closed spec fn registry(self) -> Registry {
        self.registry
    }

    /// The active game's normalized identifier, if one is selected.
    pub closed spec fn active_id(self) -> Option<Seq<char>> {
        match self.active {
            Some(s) => Some(s@),
            None => None,
        }
    }

    /// The context's invariant: its registry is well-formed and frozen,
    /// and the active selection, when set, names a registered game.
    pub open spec fn wf(self) -> bool {
        &&& self.registry().wf()
        &&& self.registry().frozen()
        &&& match self.active_id() {
            Some(g) => self.registry().has_game(g) && valid_id(g),
            None => true,
        }
    }

    /// Build a context over a frozen registry, with no game active yet.
    pub fn new(registry: Registry) -> (r: Context)
        requires
            registry.wf(),
            registry.frozen(),
        ensures
            r.wf(),
            r.registry() == registry,
            r.active_id() is None,
    {
        Context { registry, active: None }
    }

    /// Read access to the underlying registry.
    pub fn registry_ref(&self) -> (r: &Registry)
        ensures
            *r == self.registry(),
    {
        &self.registry
    }

    /// Select the active game. The identifier is normalized and looked
    /// up; on `NotFound` or an invalid identifier the previous selection
    /// is kept. Activating a different game silently replaces the
    /// previous selection.
    pub fn activate_game(&mut self, raw_id: &str) -> (r: Result<(), RegistryError>)
        requires
            old(self).wf(),
        ensures
            final(self).wf(),
            final(self).registry() == old(self).registry(),
            match r {
                Ok(()) => {
                    &&& valid_id(normalized_of(raw_id@))
                    &&& old(self).registry().has_game(normalized_of(raw_id@))
                    &&& final(self).active_id() == Some(normalized_of(raw_id@))
                },
                Err(e) => {
                    &&& final(self).active_id() == old(self).active_id()
                    &&& match e {
                        RegistryError::InvalidId(_) => !valid_id(normalized_of(raw_id@)),
                        RegistryError::NotFound(_) => valid_id(normalized_of(raw_id@)) && !old(
                            self,
                        ).registry().has_game(normalized_of(raw_id@)),
                        _ => false,
                    }
                },
            },
    {
        let n = match normalize_id(raw_id) {
            Ok(s) => s,
            Err(e) => { return Err(e) },
        };
        match self.registry.find_game(&n) {
            Some(_) => {
                self.active = Some(n);
                Ok(())
            },
            None => Err(RegistryError::NotFound(n)),
        }
    }

    /// The current selection, or none.
    pub fn active_game(&self) -> (r: Option<String>)
        ensures
            match r {
                Some(s) => self.active_id() == Some(s@),
                None => self.active_id() is None,
            },
    {
        match &self.active {
            Some(s) => Some(s.clone()),
            None => None,
        }
    }

    /// The provider identifier the active game requires; none when no
    /// game is active.
    pub fn active_game_required_provider(&self) -> (r: Option<String>)
        requires
            self.wf(),
        ensures
            match r {
                Some(p) => {
                    &&& self.active_id() matches Some(g)
                    &&& exists|i: int|
                        0 <= i < self.registry().games().len()
                            && (#[trigger] self.registry().games()[i]).id@
                            == self.active_id()->Some_0
                            && self.registry().games()[i].required_provider_id@ == p@
                },
                None => self.active_id() is None,
            },
    {
        match &self.active {
            Some(g) => {
                match self.registry.find_game(g) {
                    Some(j) => Some(self.registry.game_at(j).required_provider_id.clone()),
                    None => None,
                }
            },
            None => None,
        }
    }

    /// Resolve a mod provider by identifier; the result is the index of
    /// its entry, in registration order, through which the caller maps
    /// to the provider implementation it holds.
    pub fn get_mod_provider(&self, raw_id: &str) -> (r: Result<usize, RegistryError>)
        requires
            self.wf(),
        ensures
            match r {
                Ok(i) => {
                    &&& valid_id(normalized_of(raw_id@))
                    &&& i < self.registry().providers().len()
                    &&& self.registry().providers()[i as int].id@ == normalized_of(raw_id@)
                },
                Err(e) => match e {
                    RegistryError::InvalidId(_) => !valid_id(normalized_of(raw_id@)),
                    RegistryError::NotFound(_) => valid_id(normalized_of(raw_id@))
                        && !self.registry().has_provider(normalized_of(raw_id@)),
                    _ => false,
                },
            },
    {
        let n = match normalize_id(raw_id) {
            Ok(s) => s,
            Err(e) => { return Err(e) },
        };
        match self.registry.find_provider(&n) {
            Some(j) => Ok(j),
            None => Err(RegistryError::NotFound(n)),
        }
    }

    /// Resolve a game provider by identifier, as an index into the
    /// registered games.
    pub fn get_game_provider(&self, raw_id: &str) -> (r: Result<usize, RegistryError>)
        requires
            self.wf(),
        ensures
            match r {
                Ok(i) => {
                    &&& valid_id(normalized_of(raw_id@))
                    &&& i < self.registry().games().len()
                    &&& self.registry().games()[i as int].id@ == normalized_of(raw_id@)
                },
                Err(e) => match e {
                    RegistryError::InvalidId(_) => !valid_id(normalized_of(raw_id@)),
                    RegistryError::NotFound(_) => valid_id(normalized_of(raw_id@))
                        && !self.registry().has_game(normalized_of(raw_id@)),
                    _ => false,
                },
            },
    {
        let n = match normalize_id(raw_id) {
            Ok(s) => s,
            Err(e) => { return Err(e) },
        };
        match self.registry.find_game(&n) {
            Some(j) => Ok(j),
            None => Err(RegistryError::NotFound(n)),
        }
    }

    /// The identifiers of all registered games, in registration order.
    pub fn list_games(&self) -> (r: Vec<String>)
        ensures
            r@.len() == self.registry().games().len(),
            forall|i: int| 0 <= i < r@.len() ==> (#[trigger] r@[i])@
                == self.registry().games()[i].id@,
    {
        let mut out: Vec<String> = Vec::new();
        let mut j: usize = 0;
        let n = self.registry.game_count();
        while j < n
            invariant
                n == self.registry().games().len(),
                j <= n,
                out@.len() == j,
                forall|i: int| 0 <= i < j ==> (#[trigger] out@[i])@
                    == self.registry().games()[i].id@,
            decreases n - j,
        {
            out.push(self.registry.game_at(j).id.clone());
            j += 1;
        }
        out
    }

    /// The discovery query `get_discovery_mods` issues for the active
    /// game: the active game's identifier and the requested page, with
    /// every other field unset. Fails with `NotFound` when no game is
    /// active.
    pub fn discovery_query(&self, page: Option<u32>) -> (r: Result<DiscoveryQuery, RegistryError>)
        ensures
            match r {
                Ok(q) => {
                    &&& self.active_id() == Some(q.game_id@)
                    &&& q.page == page
                    &&& q.page_size is None
                    &&& q.search is None
                    &&& q.tags is None
                    &&& q.sort is None
                },
                Err(e) => self.active_id() is None && e is NotFound,
            },
    {
        match &self.active {
            Some(g) => Ok(
                DiscoveryQuery {
                    game_id: g.clone(),
                    page,
                    page_size: None,
                    search: None,
                    tags: None,
                    sort: None,
                },
            ),
            None => Err(RegistryError::NotFound(String::from_str("no active game selected"))),
        }
    }
}

} // verus!
