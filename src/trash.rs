//! The trash page: searching, selecting entries, and the bulk restore and
//! permanent delete of the selection.

use vstd::prelude::*;
use crate::state::{AppState, DbAction};
use crate::kanban::{id_views, without, remove_id, key_listed};
use crate::model::TrashEntry;
use crate::queue::QueueView;

verus! {

/// The commands that restore each of `ids`, in order.
pub open spec fn restores(ids: Seq<String>) -> Seq<DbAction> {
    ids.map_values(|i: String| DbAction::RestoreFromTrash(i))
}

/// The commands that delete each of `ids` for good, in order.
pub open spec fn permanent_deletes(ids: Seq<String>) -> Seq<DbAction> {
    ids.map_values(|i: String| DbAction::PermanentDelete(i))
}

impl AppState {
    /// The trash search text changed.
    pub fn trash_search_changed(&mut self, query: String)
        ensures
            *final(self) == (AppState { trash_search_query: query, ..*old(self) }),
    {
        self.trash_search_query = query;
    }

    /// Toggles trash entry `id` in the selection: a selected id leaves it,
    /// another joins it at the end.
    pub fn toggle_trash_selection(&mut self, id: String)
        ensures
            key_listed(old(self).trash_selected@, id@) ==> id_views(final(self).trash_selected@) == without(
                id_views(old(self).trash_selected@),
                id@,
            ),
            !key_listed(old(self).trash_selected@, id@) ==> final(self).trash_selected@
                == old(self).trash_selected@.push(id),
            *final(self) == (AppState { trash_selected: final(self).trash_selected, ..*old(self) }),
    {
        let mut found = false;
        let mut i: usize = 0;
        while i < self.trash_selected.len()
            invariant
                i <= self.trash_selected@.len(),
                self.trash_selected == old(self).trash_selected,
                found <==> key_listed(self.trash_selected@.take(i as int), id@),
            decreases self.trash_selected.len() - i,
        {
            proof {
                let t = self.trash_selected@;
                assert forall|x: Seq<char>| key_listed(t.take(i + 1), x) <==> (key_listed(t.take(i as int), x) || t[i as int]@ == x) by {
                    if key_listed(t.take(i + 1), x) {
                        let j = choose|j: int| 0 <= j < i + 1 && #[trigger] t.take(i + 1)[j]@ == x;
                        if j < i {
                            assert(t.take(i as int)[j]@ == x);
                        }
                    }
                    if key_listed(t.take(i as int), x) {
                        let j = choose|j: int| 0 <= j < i && #[trigger] t.take(i as int)[j]@ == x;
                        assert(t.take(i + 1)[j]@ == x);
                    }
                    if t[i as int]@ == x {
                        assert(t.take(i + 1)[i as int]@ == x);
                    }
                }
            }
            if crate::text::str_eq(self.trash_selected[i].as_str(), id.as_str()) {
                found = true;
            }
            i = i + 1;
        }
        assert(self.trash_selected@.take(self.trash_selected@.len() as int) =~= self.trash_selected@);
        if found {
            self.trash_selected = remove_id(&self.trash_selected, id.as_str());
        } else {
            self.trash_selected.push(id);
        }
    }

    /// Selects every trash entry, in list order.
    pub fn select_all_trash(&mut self)
        ensures
            id_views(final(self).trash_selected@) == old(self).trash_entries@.map_values(|e: TrashEntry| e.id@),
            *final(self) == (AppState { trash_selected: final(self).trash_selected, ..*old(self) }),
    {
        let mut sel: Vec<String> = Vec::new();
        let mut i: usize = 0;
        while i < self.trash_entries.len()
            invariant
                i <= self.trash_entries@.len(),
                sel@.len() == i,
                id_views(sel@) == self.trash_entries@.take(i as int).map_values(|e: TrashEntry| e.id@),
                *self == *old(self),
            decreases self.trash_entries.len() - i,
        {
            let ghost before = sel@;
            sel.push(self.trash_entries[i].id.clone());
            assert forall|j: int| 0 <= j < i + 1 implies #[trigger] id_views(sel@)[j]
                == self.trash_entries@.take(i + 1).map_values(|e: TrashEntry| e.id@)[j] by {
                if j < i {
                    assert(sel@[j] == before[j]);
                    assert(id_views(before)[j] == self.trash_entries@.take(i as int).map_values(|e: TrashEntry| e.id@)[j]);
                }
            }
            assert(id_views(sel@) =~= self.trash_entries@.take(i + 1).map_values(|e: TrashEntry| e.id@));
            i = i + 1;
        }
        assert(self.trash_entries@.take(self.trash_entries@.len() as int) =~= self.trash_entries@);
        self.trash_selected = sel;
    }

    /// Clears the trash selection.
    pub fn deselect_all_trash(&mut self)
        ensures
            final(self).trash_selected@.len() == 0,
            *final(self) == (AppState { trash_selected: final(self).trash_selected, ..*old(self) }),
    {
        self.trash_selected = Vec::new();
    }

    /// Restores the selected entries: one restore per selected id is
    /// queued, in selection order, and the selection empties.
    pub fn restore_selected(&mut self)
        ensures
            final(self).db.view() == (QueueView {
                pending: old(self).db.view().pending + restores(old(self).trash_selected@),
                ..old(self).db.view()
            }),
            final(self).trash_selected@.len() == 0,
            *final(self) == (AppState { trash_selected: final(self).trash_selected, db: final(self).db, ..*old(self) }),
    {
        let mut i: usize = 0;
        let ghost p0 = self.db.view().pending;
        assert(restores(self.trash_selected@.take(0)) =~= Seq::<DbAction>::empty());
        assert(p0 + restores(self.trash_selected@.take(0)) =~= p0);
        while i < self.trash_selected.len()
            invariant
                i <= self.trash_selected@.len(),
                self.trash_selected == old(self).trash_selected,
                p0 == old(self).db.view().pending,
                self.db.view() == (QueueView { pending: p0 + restores(self.trash_selected@.take(i as int)), ..old(self).db.view() }),
                *self == (AppState { db: self.db, ..*old(self) }),
            decreases self.trash_selected.len() - i,
        {
            self.db.enqueue(DbAction::RestoreFromTrash(self.trash_selected[i].clone()));
            assert(restores(self.trash_selected@.take(i + 1)) =~= restores(self.trash_selected@.take(i as int)).push(DbAction::RestoreFromTrash(self.trash_selected@[i as int])));
            assert(p0 + restores(self.trash_selected@.take(i + 1)) =~= (p0 + restores(self.trash_selected@.take(i as int))).push(DbAction::RestoreFromTrash(self.trash_selected@[i as int])));
            i = i + 1;
        }
        assert(self.trash_selected@.take(self.trash_selected@.len() as int) =~= self.trash_selected@);
        self.trash_selected = Vec::new();
    }

    /// Deletes the selected entries for good: one permanent delete per
    /// selected id is queued, in selection order, and the selection empties.
    pub fn delete_selected_forever(&mut self)
        ensures
            final(self).db.view() == (QueueView {
                pending: old(self).db.view().pending + permanent_deletes(old(self).trash_selected@),
                ..old(self).db.view()
            }),
            final(self).trash_selected@.len() == 0,
            *final(self) == (AppState { trash_selected: final(self).trash_selected, db: final(self).db, ..*old(self) }),
    {
        let mut i: usize = 0;
        let ghost p0 = self.db.view().pending;
        assert(permanent_deletes(self.trash_selected@.take(0)) =~= Seq::<DbAction>::empty());
        assert(p0 + permanent_deletes(self.trash_selected@.take(0)) =~= p0);
        while i < self.trash_selected.len()
            invariant
                i <= self.trash_selected@.len(),
                self.trash_selected == old(self).trash_selected,
                p0 == old(self).db.view().pending,
                self.db.view() == (QueueView { pending: p0 + permanent_deletes(self.trash_selected@.take(i as int)), ..old(self).db.view() }),
                *self == (AppState { db: self.db, ..*old(self) }),
            decreases self.trash_selected.len() - i,
        {
            self.db.enqueue(DbAction::PermanentDelete(self.trash_selected[i].clone()));
            assert(permanent_deletes(self.trash_selected@.take(i + 1)) =~= permanent_deletes(self.trash_selected@.take(i as int)).push(DbAction::PermanentDelete(self.trash_selected@[i as int])));
            assert(p0 + permanent_deletes(self.trash_selected@.take(i + 1)) =~= (p0 + permanent_deletes(self.trash_selected@.take(i as int))).push(DbAction::PermanentDelete(self.trash_selected@[i as int])));
            i = i + 1;
        }
        assert(self.trash_selected@.take(self.trash_selected@.len() as int) =~= self.trash_selected@);
        self.trash_selected = Vec::new();
    }
}

} // verus!
