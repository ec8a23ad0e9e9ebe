//! The process-wide shared cache store.
//!
//! [`SharedState`] holds the data that is identical for every player in a
//! run: the game-version list, the champion catalog and the decoded
//! profile-icon textures.  The version list and the catalog are write-once:
//! the first successful population wins and every later attempt is a no-op,
//! so a reader observes either "unset" or the one final value.  The icon
//! cache and the per-champion image slots accept one writer per key and an
//! entry, once inserted, is never replaced.
//!
//! Decoded textures are carried as opaque `u64` tokens handed out by the
//! rendering layer's uploader; the core stores and compares them, nothing
//! more.

use vstd::prelude::*;

use std::collections::HashMap;

verus! {

broadcast use vstd::std_specs::hash::group_hash_axioms;

/// One champion of the catalog: its asset key and display name (immutable
/// after population), an image slot that is filled at most once, and the
/// dedup flag that marks an artwork fetch as started.
#[derive(Debug, Clone)]
pub struct Champ {
    pub key: String,
    pub name: String,
    pub image: Option<u64>,
    pub image_started: bool,
}

impl Champ {
    /// The same champion with its artwork slot filled.
    pub open spec fn with_image(self, texture: u64) -> Champ {
        Champ { image: Some(texture), ..self }
    }

    /// The same champion with its artwork fetch marked as started.
    pub open spec fn with_started(self) -> Champ {
        Champ { image_started: true, ..self }
    }
}

/// The shared cache store, created once at startup and threaded into both
/// the worker pool and the presentation layer.
pub struct SharedState {
    /// Write-once ordered list of game versions, newest first.
    pub versions: Option<Vec<String>>,
    /// Write-once champion catalog, keyed by champion id.
    pub champs: Option<HashMap<i64, Champ>>,
    /// Decoded profile-icon textures, keyed by icon id; entries are never
    /// replaced or removed within a run.
    pub player_icons: HashMap<i16, u64>,
}

impl SharedState {
    /// Whether the version list has been populated.
    pub open spec fn versions_set(self) -> bool {
        self.versions is Some
    }

    /// Whether the champion catalog has been populated.
    pub open spec fn champs_set(self) -> bool {
        self.champs is Some
    }

    /// The catalog contents; meaningful only once the catalog is populated.
    pub open spec fn catalog(self) -> Map<i64, Champ>
        recommends
            self.champs_set(),
    {
        self.champs->Some_0@
    }

    /// Whether the catalog is populated and has an entry for `id`.
    pub open spec fn has_champ(self, id: i64) -> bool {
        self.champs_set() && self.catalog().contains_key(id)
    }

    /// Whether an artwork fetch for champion `id` has been started.
    pub open spec fn image_started(self, id: i64) -> bool {
        self.has_champ(id) && self.catalog()[id].image_started
    }

    /// An empty store: nothing populated yet.
    pub fn new() -> (r: SharedState)
        ensures
            !r.versions_set(),
            !r.champs_set(),
            r.player_icons@ =~= Map::<i16, u64>::empty(),
    {
        SharedState { versions: None, champs: None, player_icons: HashMap::new() }
    }

    /// Populate the version list.  Write-once: the first population wins and
    /// a later one is discarded, so concurrent attempts are idempotent no-ops.
    pub fn set_versions(&mut self, v: Vec<String>) -> (won: bool)
        ensures
            won == !old(self).versions_set(),
            won ==> final(self).versions == Some(v),
            !won ==> final(self).versions == old(self).versions,
            final(self).champs == old(self).champs,
            final(self).player_icons == old(self).player_icons,
    {
        if self.versions.is_none() {
            self.versions = Some(v);
            true
        } else {
            false
        }
    }

    /// Populate the champion catalog.  Write-once, as for the version list.
    pub fn set_champs(&mut self, catalog: HashMap<i64, Champ>) -> (won: bool)
        ensures
            won == !old(self).champs_set(),
            won ==> final(self).champs == Some(catalog),
            !won ==> final(self).champs == old(self).champs,
            final(self).versions == old(self).versions,
            final(self).player_icons == old(self).player_icons,
    {
        if self.champs.is_none() {
            self.champs = Some(catalog);
            true
        } else {
            false
        }
    }

    /// Record a decoded profile icon.  An entry, once present, is never
    /// replaced: a duplicate insertion is discarded.
    pub fn insert_icon(&mut self, id: i16, texture: u64) -> (inserted: bool)
        ensures
            inserted == !old(self).player_icons@.contains_key(id),
            inserted ==> final(self).player_icons@ == old(self).player_icons@.insert(id, texture),
            !inserted ==> final(self).player_icons == old(self).player_icons,
            final(self).versions == old(self).versions,
            final(self).champs == old(self).champs,
    {
        if self.player_icons.contains_key(&id) {
            false
        } else {
            self.player_icons.insert(id, texture);
            true
        }
    }

    /// Fill a champion's artwork slot.  A response for a champion the
    /// catalog does not know (the catalog was never populated, or the
    /// response is stale) is ignored.
    pub fn update_champ_image(&mut self, champ_id: i64, texture: u64) -> (updated: bool)
        ensures
            updated == old(self).has_champ(champ_id),
            updated ==> final(self).champs_set() && final(self).catalog()
                == old(self).catalog().insert(champ_id, old(self).catalog()[champ_id].with_image(texture)),
            !updated ==> final(self).champs == old(self).champs,
            final(self).versions == old(self).versions,
            final(self).player_icons == old(self).player_icons,
    {
        if let Some(map) = &mut self.champs {
            let next = match map.get(&champ_id) {
                Some(c) => Champ {
                    key: c.key.clone(),
                    name: c.name.clone(),
                    image: Some(texture),
                    image_started: c.image_started,
                },
                None => {
                    return false;
                },
            };
            map.insert(champ_id, next);
            true
        } else {
            false
        }
    }

    /// The per-champion dedup guard: atomically test the "fetch started"
    /// flag and set it.  Returns true exactly when this call started the
    /// fetch; the flag is never cleared within a run, so for each champion
    /// at most one call ever returns true.
    pub fn try_start_champ_image(&mut self, champ_id: i64) -> (started: bool)
        ensures
            started == (old(self).has_champ(champ_id) && !old(self).image_started(champ_id)),
            started ==> final(self).champs_set() && final(self).catalog()
                == old(self).catalog().insert(champ_id, old(self).catalog()[champ_id].with_started()),
            !started ==> final(self).champs == old(self).champs,
            final(self).image_started(champ_id) == (old(self).image_started(champ_id) || started),
            final(self).versions == old(self).versions,
            final(self).player_icons == old(self).player_icons,
    {
        if let Some(map) = &mut self.champs {
            let next = match map.get(&champ_id) {
                Some(c) => {
                    if c.image_started {
                        return false;
                    }
                    Champ {
                        key: c.key.clone(),
                        name: c.name.clone(),
                        image: c.image,
                        image_started: true,
                    }
                },
                None => {
                    return false;
                },
            };
            map.insert(champ_id, next);
            true
        } else {
            false
        }
    }

    /// The newest game version, if the list is populated and non-empty.
    pub fn first_version(&self) -> (r: Option<&String>)
        ensures
            match r {
                Some(v) => self.versions_set() && self.versions->Some_0@.len() > 0
                    && *v == self.versions->Some_0@[0],
                None => !self.versions_set() || self.versions->Some_0@.len() == 0,
            },
    {
        match &self.versions {
            Some(vs) => {
                if vs.len() > 0 {
                    Some(&vs[0])
                } else {
                    None
                }
            },
            None => None,
        }
    }

    /// The game version at `index`, if the list is populated that far.
    pub fn version_at(&self, index: usize) -> (r: Option<&String>)
        ensures
            match r {
                Some(v) => self.versions_set() && index < self.versions->Some_0@.len()
                    && *v == self.versions->Some_0@[index as int],
                None => !self.versions_set() || index >= self.versions->Some_0@.len(),
            },
    {
        match &self.versions {
            Some(vs) => {
                if index < vs.len() {
                    Some(&vs[index])
                } else {
                    None
                }
            },
            None => None,
        }
    }

    /// Look up a champion in the catalog.
    pub fn get_champ(&self, id: i64) -> (r: Option<&Champ>)
        ensures
            match r {
                Some(c) => self.has_champ(id) && *c == self.catalog()[id],
                None => !self.has_champ(id),
            },
    {
        match &self.champs {
            Some(map) => map.get(&id),
            None => None,
        }
    }

    /// Look up a decoded profile icon.
    pub fn icon_texture(&self, id: i16) -> (r: Option<u64>)
        ensures
            match r {
                Some(t) => self.player_icons@.contains_key(id) && t == self.player_icons@[id],
                None => !self.player_icons@.contains_key(id),
            },
    {
        match self.player_icons.get(&id) {
            Some(t) => Some(*t),
            None => None,
        }
    }
}

} // verus!
