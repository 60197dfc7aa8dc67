//! Route changes requested by the user.

use vstd::prelude::*;
use crate::model::Location;
use crate::state::{AppState, Route, NavigationResult};
use crate::forge::{first_index_of, holds_id, find_index, opt_view};

verus! {

/// The most parent links followed when revealing a location.
pub const MAX_ANCESTOR_STEPS: usize = 51;

/// A navigation request.
#[derive(Debug, Clone, PartialEq, Eq)]
pub enum NavMessage {
    Navigate(Route),
    BackToUniverses,
    BackToUniverse(String),
    OpenTimeline(String),
    GoToLocation(String, String),
}

/// The parent of the first location with id `id`, if it has one.
pub open spec fn parent_of(locs: Seq<Location>, id: Seq<char>) -> Option<Seq<char>> {
    if holds_id(locs, id) {
        let i = choose|i: int| first_index_of(locs, id, i);
        opt_view(locs[i].parent_id)
    } else {
        None
    }
}

/// The ancestors of location `id` reached within `steps` parent links.
pub open spec fn ancestors(locs: Seq<Location>, id: Seq<char>, steps: nat) -> Set<Seq<char>>
    decreases steps,
{
    if steps == 0 {
        Set::empty()
    } else {
        match parent_of(locs, id) {
            Some(p) => ancestors(locs, p, (steps - 1) as nat).insert(p),
            None => Set::empty(),
        }
    }
}

impl crate::model::Keyed for Location {
    open spec fn key(&self) -> Seq<char> {
        self.id@
    }

    fn id_str(&self) -> (r: &str) {
        self.id.as_str()
    }

    fn duplicate(&self) -> (r: Self) {
        Location {
            id: self.id.clone(),
            universe_id: self.universe_id.clone(),
            parent_id: crate::model::copy_opt_string(&self.parent_id),
            name: self.name.clone(),
            description: self.description.clone(),
            kind: self.kind.clone(),
        }
    }
}

proof fn lemma_first_index_unique(locs: Seq<Location>, id: Seq<char>, i: int)
    requires
        first_index_of(locs, id, i),
    ensures
        (choose|j: int| first_index_of(locs, id, j)) == i,
{
    let j = choose|j: int| first_index_of(locs, id, j);
    if j < i {
        assert(locs[j].id@ == id);
    } else if j > i {
        assert(locs[i].id@ == id);
    }
}

/// What a navigation request does: changing the route to a chosen screen
/// needs an open project (else it is denied and nothing changes); going to
/// a location also selects it and expands its ancestors. Nothing else
/// changes.
pub open spec fn navigated(s: &AppState, t: &AppState, msg: NavMessage, r: NavigationResult) -> bool {
    match msg {
        NavMessage::Navigate(route) => if s.active_project is Some {
            r == NavigationResult::Handled && *t == (AppState { route: route, ..*s })
        } else {
            r is Denied && r->attempted == route && *t == *s
        },
        NavMessage::BackToUniverses => r == NavigationResult::Handled && *t == (AppState { route: Route::UniverseList, ..*s }),
        NavMessage::BackToUniverse(id) => r == NavigationResult::Handled
            && *t == (AppState { route: Route::UniverseDetail { universe_id: id }, ..*s }),
        NavMessage::OpenTimeline(id) => r == NavigationResult::Handled
            && *t == (AppState { route: Route::Timeline { universe_id: id }, ..*s }),
        NavMessage::GoToLocation(uid, lid) => r == NavigationResult::Handled && *t == (AppState {
            route: Route::Locations { universe_id: uid },
            selected_location: Some(lid),
            expanded_locations: t.expanded_locations,
            ..*s
        }) && t.expanded_locations@ == s.expanded_locations@ + ancestors(s.locations@, lid@, MAX_ANCESTOR_STEPS as nat),
    }
}

impl AppState {
    /// Shows location `location_id` of universe `universe_id`: selects it
    /// and expands its ancestors so that it is visible.
    pub fn go_to_location(&mut self, universe_id: String, location_id: String)
        ensures
            final(self).route == (Route::Locations { universe_id }),
            final(self).selected_location == Some(location_id),
            final(self).expanded_locations@ == old(self).expanded_locations@ + ancestors(
                old(self).locations@,
                location_id@,
                MAX_ANCESTOR_STEPS as nat,
            ),
            *final(self) == (AppState {
                route: final(self).route,
                selected_location: final(self).selected_location,
                expanded_locations: final(self).expanded_locations,
                ..*old(self)
            }),
    {
        let ghost locs = self.locations@;
        let ghost base = self.expanded_locations@;
        let mut current: Option<String> = Some(location_id.clone());
        let mut steps: usize = 0;
        assert(base + ancestors(locs, location_id@, 0) =~= base);
        while steps < MAX_ANCESTOR_STEPS && current.is_some()
            invariant
                locs == self.locations@,
                steps <= MAX_ANCESTOR_STEPS,
                current is Some ==> base + ancestors(locs, location_id@, MAX_ANCESTOR_STEPS as nat)
                    == self.expanded_locations@ + ancestors(locs, current->Some_0@, (MAX_ANCESTOR_STEPS - steps) as nat),
                current is None ==> base + ancestors(locs, location_id@, MAX_ANCESTOR_STEPS as nat)
                    == self.expanded_locations@,
                *self == (AppState { expanded_locations: self.expanded_locations, ..*old(self) }),
            decreases MAX_ANCESTOR_STEPS - steps,
        {
            let curr = match current {
                Some(c) => c,
                None => String::new(),
            };
            let ghost rem = (MAX_ANCESTOR_STEPS - steps) as nat;
            match find_index(&self.locations, curr.as_str()) {
                Some(i) => {
                    proof {
                        lemma_first_index_unique(locs, curr@, i as int);
                    }
                    match &self.locations[i].parent_id {
                        Some(p) => {
                            let p2 = p.clone();
                            self.expanded_locations.insert(p2.clone());
                            current = Some(p2);
                        },
                        None => {
                            current = None;
                        },
                    }
                },
                None => {
                    current = None;
                },
            }
            proof {
                if current is Some {
                    assert(base + ancestors(locs, location_id@, MAX_ANCESTOR_STEPS as nat)
                        =~= self.expanded_locations@ + ancestors(locs, current->Some_0@, (rem - 1) as nat));
                } else {
                    assert(base + ancestors(locs, location_id@, MAX_ANCESTOR_STEPS as nat)
                        =~= self.expanded_locations@);
                }
            }
            steps = steps + 1;
        }
        proof {
            if current is Some {
                assert(steps == MAX_ANCESTOR_STEPS);
                assert(ancestors(locs, current->Some_0@, 0) =~= Set::<Seq<char>>::empty());
                assert(self.expanded_locations@ + Set::<Seq<char>>::empty() =~= self.expanded_locations@);
            }
        }
        self.route = Route::Locations { universe_id };
        self.selected_location = Some(location_id);
    }

    /// Handles a navigation request. Changing the route to a chosen screen
    /// needs an open project; otherwise it is denied and the route stays.
    pub fn try_handle_navigation(&mut self, msg: NavMessage) -> (r: NavigationResult)
        ensures
            navigated(old(self), final(self), msg, r),
    {
        match msg {
            NavMessage::Navigate(route) => {
                if self.active_project.is_none() {
                    return NavigationResult::Denied { attempted: route, reason: String::from_str("No active project") };
                }
                self.route = route;
                NavigationResult::Handled
            },
            NavMessage::BackToUniverses => {
                self.route = Route::UniverseList;
                NavigationResult::Handled
            },
            NavMessage::BackToUniverse(id) => {
                self.route = Route::UniverseDetail { universe_id: id };
                NavigationResult::Handled
            },
            NavMessage::OpenTimeline(id) => {
                self.route = Route::Timeline { universe_id: id };
                NavigationResult::Handled
            },
            NavMessage::GoToLocation(uid, lid) => {
                self.go_to_location(uid, lid);
                NavigationResult::Handled
            },
        }
    }
}

/// The ids of the locations whose parent is `parent`, in list order.
pub open spec fn children_of(locs: Seq<Location>, parent: Option<Seq<char>>) -> Seq<Seq<char>>
    decreases locs.len(),
{
    if locs.len() == 0 {
        Seq::empty()
    } else if opt_view(locs.last().parent_id) == parent {
        children_of(locs.drop_last(), parent).push(locs.last().id@)
    } else {
        children_of(locs.drop_last(), parent)
    }
}

/// The cache holds the children lists of `locs`: top-level ids apart, and
/// for each parent with children its list.
pub open spec fn caches_children(roots: Seq<String>, by_parent: Map<Seq<char>, Vec<String>>, locs: Seq<Location>) -> bool {
    &&& crate::kanban::id_views(roots) == children_of(locs, None)
    &&& forall|k: Seq<char>| #[trigger] by_parent.contains_key(k) <==> children_of(locs, Some(k)).len() > 0
    &&& forall|k: Seq<char>| #[trigger] by_parent.contains_key(k) ==> crate::kanban::id_views(by_parent[k]@)
        == children_of(locs, Some(k))
}

impl AppState {
    /// Rebuilds the children lists of the locations.
    pub fn rebuild_locations_cache(&mut self)
        ensures
            caches_children(final(self).location_roots@, final(self).locations_children_map@, final(self).locations@),
            *final(self) == (AppState {
                location_roots: final(self).location_roots,
                locations_children_map: final(self).locations_children_map,
                ..*old(self)
            }),
    {
        let mut roots: Vec<String> = Vec::new();
        let mut map: vstd::hash_map::StringHashMap<Vec<String>> = vstd::hash_map::StringHashMap::new();
        let ghost locs = self.locations@;
        assert(crate::kanban::id_views(roots@) =~= children_of(locs.take(0), None));
        assert forall|k: Seq<char>| #[trigger] map@.contains_key(k) <==> children_of(locs.take(0), Some(k)).len() > 0 by {
            assert(locs.take(0).len() == 0);
        }
        let mut i: usize = 0;
        while i < self.locations.len()
            invariant
                locs == self.locations@,
                i <= locs.len(),
                caches_children(roots@, map@, locs.take(i as int)),
            decreases self.locations.len() - i,
        {
            let ghost pre = locs.take(i as int);
            let ghost post = locs.take(i + 1);
            assert(post.drop_last() =~= pre);
            assert(post.last() == locs[i as int]);
            let id = self.locations[i].id.clone();
            match &self.locations[i].parent_id {
                None => {
                    let ghost r0 = roots@;
                    roots.push(id);
                    assert(crate::kanban::id_views(roots@) =~= crate::kanban::id_views(r0).push(locs[i as int].id@));
                    assert forall|k: Seq<char>| #[trigger] map@.contains_key(k) <==> children_of(post, Some(k)).len() > 0 by {
                        assert(children_of(post, Some(k)) == children_of(pre, Some(k)));
                    }
                    assert forall|k: Seq<char>| #[trigger] map@.contains_key(k) implies crate::kanban::id_views(map@[k]@)
                        == children_of(post, Some(k)) by {
                        assert(children_of(post, Some(k)) == children_of(pre, Some(k)));
                    }
                },
                Some(p) => {
                    let ghost pk = p@;
                    let mut list: Vec<String> = match map.get(p.as_str()) {
                        Some(l) => {
                            let mut c: Vec<String> = Vec::new();
                            let mut j: usize = 0;
                            while j < l.len()
                                invariant
                                    j <= l@.len(),
                                    c@ == l@.take(j as int),
                                decreases l.len() - j,
                            {
                                c.push(l[j].clone());
                                assert(c@ =~= l@.take(j + 1));
                                j = j + 1;
                            }
                            assert(l@.take(l@.len() as int) =~= l@);
                            c
                        },
                        None => Vec::new(),
                    };
                    let ghost l0 = crate::kanban::id_views(list@);
                    assert(l0 == children_of(pre, Some(pk))) by {
                        if !map@.contains_key(pk) {
                            assert(children_of(pre, Some(pk)).len() == 0);
                            assert(children_of(pre, Some(pk)) =~= Seq::<Seq<char>>::empty());
                            assert(list@ =~= Seq::<String>::empty());
                            assert(l0 =~= Seq::<Seq<char>>::empty());
                        }
                    }
                    list.push(id);
                    assert(crate::kanban::id_views(list@) =~= l0.push(locs[i as int].id@));
                    let ghost m0 = map@;
                    map.insert(p.clone(), list);
                    assert(crate::kanban::id_views(roots@) == children_of(post, None));
                    assert forall|k: Seq<char>| #[trigger] map@.contains_key(k) <==> children_of(post, Some(k)).len() > 0 by {
                        if k != pk {
                            assert(children_of(post, Some(k)) == children_of(pre, Some(k)));
                            assert(m0.contains_key(k) == map@.contains_key(k));
                        }
                    }
                    assert forall|k: Seq<char>| #[trigger] map@.contains_key(k) implies crate::kanban::id_views(map@[k]@)
                        == children_of(post, Some(k)) by {
                        if k != pk {
                            assert(children_of(post, Some(k)) == children_of(pre, Some(k)));
                            assert(m0.contains_key(k));
                        }
                    }
                },
            }
            i = i + 1;
        }
        assert(locs.take(locs.len() as int) =~= locs);
        self.location_roots = roots;
        self.locations_children_map = map;
    }

    /// The ids of the children of `parent` (top-level locations for `None`),
    /// from the cache.
    pub fn get_location_children(&self, parent: &Option<String>) -> (r: Vec<String>)
        ensures
            crate::kanban::id_views(r@) == match parent {
                None => crate::kanban::id_views(self.location_roots@),
                Some(p) => if self.locations_children_map@.contains_key(p@) {
                    crate::kanban::id_views(self.locations_children_map@[p@]@)
                } else {
                    Seq::empty()
                },
            },
    {
        let src: Option<&Vec<String>> = match parent {
            None => Some(&self.location_roots),
            Some(p) => self.locations_children_map.get(p.as_str()),
        };
        let mut r: Vec<String> = Vec::new();
        match src {
            Some(l) => {
                let mut j: usize = 0;
                while j < l.len()
                    invariant
                        j <= l@.len(),
                        r@ == l@.take(j as int),
                    decreases l.len() - j,
                {
                    r.push(l[j].clone());
                    assert(r@ =~= l@.take(j + 1));
                    j = j + 1;
                }
                assert(l@.take(l@.len() as int) =~= l@);
            },
            None => {
                assert(crate::kanban::id_views(r@) =~= Seq::<Seq<char>>::empty());
            },
        }
        r
    }
}

} // verus!
