//! The cached list of media players, the selection that survives a refresh of
//! that list, and the timing of list and metadata refreshes.
//!
//! Times are milliseconds of a monotonic clock.
use vstd::prelude::*;

verus! {

/// Least time between two refreshes of the player list.
pub const LIST_REFRESH_MS: u64 = 3000;

/// Age at which the selected player's metadata is fetched again.
pub const METADATA_REFRESH_MS: u64 = 1000;

/// Time from `then` to `now`; zero when the clock reads earlier than `then`.
pub open spec fn elapsed(now: u64, then: u64) -> int {
    if now >= then {
        now - then
    } else {
        0
    }
}

/// First index at or after `i` whose identifier is `id`, if any.
pub open spec fn index_from(ids: Seq<Seq<char>>, id: Seq<char>, i: int) -> Option<int>
    decreases ids.len() - i,
{
    if i < 0 || i >= ids.len() {
        None
    } else if ids[i] == id {
        Some(i)
    } else {
        index_from(ids, id, i + 1)
    }
}

/// The selection after a refresh to `ids`: the new index of the player that
/// was selected before (`previous`), else the first player.
pub open spec fn resolve_selection(previous: Option<Seq<char>>, ids: Seq<Seq<char>>) -> nat {
    match previous {
        Some(id) => match index_from(ids, id, 0) {
            Some(k) => k as nat,
            None => 0,
        },
        None => 0,
    }
}

pub open spec fn views(v: Seq<String>) -> Seq<Seq<char>> {
    v.map_values(|s: String| s@)
}

pub struct PlayerCacheView {
    /// Stable identifiers of the players, in the order the source listed them.
    pub players: Seq<Seq<char>>,
    pub selected: nat,
    /// The selection when metadata was last fetched.
    pub fetched_for: nat,
    pub last_list_refresh: u64,
    pub last_metadata_fetch: u64,
}

impl PlayerCacheView {
    pub open spec fn selected_id(self) -> Option<Seq<char>> {
        if self.selected < self.players.len() {
            Some(self.players[self.selected as int])
        } else {
            None
        }
    }

    pub open spec fn list_refresh_due(self, now: u64) -> bool {
        elapsed(now, self.last_list_refresh) >= LIST_REFRESH_MS
    }

    pub open spec fn metadata_due(self, now: u64) -> bool {
        elapsed(now, self.last_metadata_fetch) >= METADATA_REFRESH_MS
            || self.fetched_for != self.selected
    }

    /// The state after the list is replaced by `ids` at `now`.
    pub open spec fn refreshed(self, ids: Seq<Seq<char>>, now: u64) -> PlayerCacheView {
        PlayerCacheView {
            players: ids,
            selected: resolve_selection(self.selected_id(), ids),
            last_list_refresh: now,
            ..self
        }
    }

    /// The state after metadata was fetched at `now`.
    pub open spec fn fetched(self, now: u64) -> PlayerCacheView {
        PlayerCacheView { fetched_for: self.selected, last_metadata_fetch: now, ..self }
    }

    /// The state after the user picked the player at `index`.
    pub open spec fn picked(self, index: nat) -> PlayerCacheView {
        if index < self.players.len() {
            PlayerCacheView { selected: index, ..self }
        } else {
            self
        }
    }
}

/// Player identifiers, the selected index and the refresh clocks.
pub struct PlayerCache {
    players: Vec<String>,
    selected: usize,
    fetched_for: usize,
    last_list_refresh: u64,
    last_metadata_fetch: u64,
}

impl View for PlayerCache {
    type V = PlayerCacheView;

    closed spec fn view(&self) -> PlayerCacheView {
        PlayerCacheView {
            players: views(self.players@),
            selected: self.selected as nat,
            fetched_for: self.fetched_for as nat,
            last_list_refresh: self.last_list_refresh,
            last_metadata_fetch: self.last_metadata_fetch,
        }
    }
}

fn elapsed_ms(now: u64, then: u64) -> (r: u64)
    ensures
        r == elapsed(now, then),
{
    if now >= then {
        now - then
    } else {
        0
    }
}

impl PlayerCache {
    /// A cache over the players `ids`, found at `now`, with the first selected.
    /// Metadata counts as fetched at `now` for that selection.
    pub fn new(ids: Vec<String>, now: u64) -> (r: PlayerCache)
        ensures
            r@.players == views(ids@),
            r@.selected == 0,
            r@.fetched_for == 0,
            r@.last_list_refresh == now,
            r@.last_metadata_fetch == now,
    {
        PlayerCache {
            players: ids,
            selected: 0,
            fetched_for: 0,
            last_list_refresh: now,
            last_metadata_fetch: now,
        }
    }

    pub fn len(&self) -> (r: usize)
        ensures
            r == self@.players.len(),
    {
        self.players.len()
    }

    pub fn selected(&self) -> (r: usize)
        ensures
            r == self@.selected,
    {
        self.selected
    }

    /// Identifier of the selected player, if the selection is in the list.
    pub fn selected_id(&self) -> (r: Option<String>)
        ensures
            r.is_some() == self@.selected_id().is_some(),
            r matches Some(s) ==> self@.selected_id() == Some(s@),
    {
        if self.selected < self.players.len() {
            Some(self.players[self.selected].clone())
        } else {
            None
        }
    }

    /// Whether the player list is old enough to be fetched again.
    pub fn list_refresh_due(&self, now: u64) -> (r: bool)
        ensures
            r == self@.list_refresh_due(now),
    {
        elapsed_ms(now, self.last_list_refresh) >= LIST_REFRESH_MS
    }

    /// Replaces the player list by `ids`, fetched at `now`, keeping the
    /// previously selected player selected when it is still listed.
    pub fn refresh(&mut self, ids: Vec<String>, now: u64)
        ensures
            final(self)@ == old(self)@.refreshed(views(ids@), now),
    {
        let previous = self.selected_id();
        let mut selected: usize = 0;
        let ghost new_ids = views(ids@);
        assert(new_ids.len() == ids@.len());
        match previous {
            Some(id) => {
                let mut i: usize = 0;
                let mut found = false;
                while i < ids.len() && !found
                    invariant
                        i <= ids@.len(),
                        !found ==> selected == 0,
                        !found ==> index_from(views(ids@), id@, 0) == index_from(
                            views(ids@),
                            id@,
                            i as int,
                        ),
                        found ==> index_from(views(ids@), id@, 0) == Some(selected as int),
                    decreases ids@.len() - i + (if found { 0int } else { 1int }),
                {
                    assert(views(ids@)[i as int] == ids@[i as int]@);
                    if ids[i] == id {
                        selected = i;
                        found = true;
                    } else {
                        i = i + 1;
                    }
                }
                assert(found || index_from(views(ids@), id@, i as int) == None::<int>);
            },
            None => {},
        }
        assert(selected == resolve_selection(self@.selected_id(), views(ids@)));
        self.players = ids;
        self.selected = selected;
        self.last_list_refresh = now;
    }

    /// Brings the selection back into the list: the last player when it lies
    /// past the end. Returns the selected index, or none for an empty list.
    pub fn clamp_selection(&mut self) -> (r: Option<usize>)
        ensures
            old(self)@.players.len() == 0 ==> r.is_none() && final(self)@ == old(self)@,
            old(self)@.players.len() > 0 ==> {
                let sel = if old(self)@.selected < old(self)@.players.len() {
                    old(self)@.selected
                } else {
                    (old(self)@.players.len() - 1) as nat
                };
                &&& r == Some(sel as usize)
                &&& final(self)@ == PlayerCacheView { selected: sel, ..old(self)@ }
            },
    {
        let n = self.players.len();
        if n == 0 {
            return None;
        }
        if self.selected >= n {
            self.selected = n - 1;
        }
        Some(self.selected)
    }

    /// Selects the player at `index`; an index past the list is ignored.
    pub fn pick(&mut self, index: usize)
        ensures
            final(self)@ == old(self)@.picked(index as nat),
    {
        if index < self.players.len() {
            self.selected = index;
        }
    }

    /// Whether the selected player's metadata must be fetched now: it is at
    /// least a second old, or the selection changed since the last fetch.
    pub fn metadata_due(&self, now: u64) -> (r: bool)
        ensures
            r == self@.metadata_due(now),
    {
        elapsed_ms(now, self.last_metadata_fetch) >= METADATA_REFRESH_MS
            || self.fetched_for != self.selected
    }

    /// Records that metadata was fetched at `now` for the current selection.
    pub fn note_metadata_fetch(&mut self, now: u64)
        ensures
            final(self)@ == old(self)@.fetched(now),
    {
        self.fetched_for = self.selected;
        self.last_metadata_fetch = now;
    }
}

/// A refresh keeps the selected player: when the identifier that was selected
/// is found in the new list, the selection moves to its (first) index there,
/// whatever that index is; only when it is gone does the selection fall back
/// to the first player.
pub proof fn lemma_selection_follows_player(c: PlayerCacheView, ids: Seq<Seq<char>>, now: u64, k: int)
    requires
        c.selected < c.players.len(),
        0 <= k < ids.len(),
        ids[k] == c.players[c.selected as int],
        forall|j: int| 0 <= j < k ==> ids[j] != ids[k],
    ensures
        c.refreshed(ids, now).selected == k,
        c.refreshed(ids, now).selected_id() == c.selected_id(),
{
    lemma_index_from(ids, ids[k], 0, k);
}

proof fn lemma_index_from(ids: Seq<Seq<char>>, id: Seq<char>, i: int, k: int)
    requires
        0 <= i <= k < ids.len(),
        ids[k] == id,
        forall|j: int| i <= j < k ==> ids[j] != id,
    ensures
        index_from(ids, id, i) == Some(k),
    decreases k - i,
{
    if i < k {
        lemma_index_from(ids, id, i + 1, k);
    }
}

/// Metadata is fetched at most once per second while the selection stays the
/// same, and is due at once whenever the selection changes.
pub proof fn lemma_metadata_pacing(c: PlayerCacheView, fetched_at: u64, now: u64, index: nat)
    ensures
        fetched_at <= now < fetched_at + METADATA_REFRESH_MS ==> !c.fetched(
            fetched_at,
        ).metadata_due(now),
        index < c.players.len() && index != c.selected ==> c.fetched(fetched_at).picked(
            index,
        ).metadata_due(now),
{
}

} // verus!
