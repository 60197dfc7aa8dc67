//! Kanban board data with id indices, and the placement of a dropped card:
//! between its neighbours where there is room, else provisionally at the
//! boundary with a rebalance of the column.

use vstd::prelude::*;
use vstd::hash_map::StringHashMap;
use crate::model::{Keyed, Board, BoardColumn, Card};
use crate::merge::by_id;
use crate::text::str_eq;

verus! {

/// The gap between two positions below which no position fits between them.
pub const MIN_GAP: i64 = 1;

/// The distance left after the last card when a card is appended.
pub const APPEND_STEP: i64 = 1000;

/// The spacing of positions after a rebalance.
pub const REBALANCE_STEP: i64 = 1000;

impl Keyed for BoardColumn {
    open spec fn key(&self) -> Seq<char> {
        self.id@
    }

    fn id_str(&self) -> (r: &str) {
        self.id.as_str()
    }

    fn duplicate(&self) -> (r: Self) {
        BoardColumn {
            id: self.id.clone(),
            board_id: self.board_id.clone(),
            name: self.name.clone(),
            position: self.position,
        }
    }
}

/// Where a dropped card goes in its column.
#[derive(Debug, Clone, Copy, PartialEq, Eq)]
pub struct DropPlacement {
    pub position: i64,
    pub needs_rebalance: bool,
}

/// The position of a card dropped into a column whose cards, in order,
/// have positions `pos`, before the card at `target` (or at the end where
/// there is none).
pub open spec fn placement(pos: Seq<i64>, target: Option<int>) -> DropPlacement {
    match target {
        Some(idx) => {
            let neighbor = pos[idx] as int;
            let prev = if idx > 0 { pos[idx - 1] as int } else { 0 };
            if neighbor - prev > MIN_GAP {
                DropPlacement { position: (prev + (neighbor - prev) / 2) as i64, needs_rebalance: false }
            } else {
                DropPlacement {
                    position: if neighbor < i64::MAX { (neighbor + 1) as i64 } else { i64::MAX },
                    needs_rebalance: true,
                }
            }
        },
        None => if pos.len() == 0 {
            DropPlacement { position: APPEND_STEP, needs_rebalance: false }
        } else {
            DropPlacement {
                position: if pos.last() as int + APPEND_STEP <= i64::MAX {
                    (pos.last() + APPEND_STEP) as i64
                } else {
                    i64::MAX
                },
                needs_rebalance: false,
            }
        },
    }
}

/// The positions of a list of cards.
pub open spec fn positions(cards: Seq<Card>) -> Seq<i64> {
    cards.map_values(|c: Card| c.position)
}

/// The index of the first card with id `h`, where there is one.
pub open spec fn hovered_index(cards: Seq<Card>, hovered: Option<Seq<char>>) -> Option<int> {
    match hovered {
        Some(h) => if crate::forge::holds_id(cards, h) {
            Some(choose|i: int| crate::forge::first_index_of(cards, h, i))
        } else {
            None
        },
        None => None,
    }
}

/// The placement of a card dropped into `cards` before the card `hovered`.
pub open spec fn drop_spec(cards: Seq<Card>, hovered: Option<Seq<char>>) -> DropPlacement {
    placement(positions(cards), hovered_index(cards, hovered))
}

/// The cards of column `col` of a board, in column order.
pub open spec fn column_cards(d: KanbanBoardData, col: Seq<char>) -> Seq<Card> {
    if d.cards_by_column@.contains_key(col) {
        cards_in(column_lists(d.cards_by_column@)[col], d.cards_by_id@)
    } else {
        Seq::empty()
    }
}

/// The placement of a card dropped into a column holding `cards` (in
/// order), before the card with id `hovered` where it is in the column, at
/// the end otherwise. Where there is room, the new position lies strictly
/// between the neighbour and its predecessor (the midpoint); where there is
/// none, it is provisional and the column needs a rebalance.
pub fn drop_position(cards: &Vec<Card>, hovered: Option<&str>) -> (r: DropPlacement)
    ensures
        match hovered {
            Some(h) => match crate::forge::holds_id(cards@, h@) {
                true => exists|i: int| crate::forge::first_index_of(cards@, h@, i)
                    && r == placement(positions(cards@), Some(i)),
                false => r == placement(positions(cards@), None),
            },
            None => r == placement(positions(cards@), None),
        },
        r == drop_spec(cards@, match hovered {
            Some(h) => Some(h@),
            None => None,
        }),
{
    let idx = match hovered {
        Some(h) => crate::forge::find_index(cards, h),
        None => None,
    };
    match idx {
        Some(i) => {
            proof {
                crate::forge::lemma_first_index_unique(cards@, hovered->Some_0@, i as int);
            }
            let neighbor = cards[i].position;
            let prev: i64 = if i > 0 { cards[i - 1].position } else { 0 };
            let gap: i128 = neighbor as i128 - prev as i128;
            if gap > MIN_GAP as i128 {
                let half: i128 = gap / 2;
                DropPlacement { position: (prev as i128 + half) as i64, needs_rebalance: false }
            } else {
                DropPlacement {
                    position: if neighbor < i64::MAX { neighbor + 1 } else { i64::MAX },
                    needs_rebalance: true,
                }
            }
        },
        None => {
            if cards.len() == 0 {
                DropPlacement { position: APPEND_STEP, needs_rebalance: false }
            } else {
                let last = cards[cards.len() - 1].position;
                DropPlacement {
                    position: if last <= i64::MAX - APPEND_STEP { last + APPEND_STEP } else { i64::MAX },
                    needs_rebalance: false,
                }
            }
        },
    }
}

/// Where there is room, the midpoint lies strictly between the neighbour
/// and its predecessor.
pub proof fn lemma_midpoint_between(pos: Seq<i64>, idx: int)
    requires
        0 <= idx < pos.len(),
        !placement(pos, Some(idx)).needs_rebalance,
    ensures
        (if idx > 0 { pos[idx - 1] as int } else { 0 }) < placement(pos, Some(idx)).position < pos[idx],
{
}

/// Positions after a rebalance of a column of `n` cards: evenly spaced,
/// starting at one step.
pub open spec fn rebalanced_position(i: int) -> int {
    (i + 1) * REBALANCE_STEP
}

/// Reassigns evenly spaced positions to the cards of a column, keeping
/// their order.
pub fn rebalance_column(cards: &mut Vec<Card>)
    requires
        old(cards)@.len() < 9_223_372_036_854_775,
    ensures
        final(cards)@.len() == old(cards)@.len(),
        forall|i: int| 0 <= i < final(cards)@.len() ==> (#[trigger] final(cards)@[i]).position == rebalanced_position(i)
            && final(cards)@[i].id == old(cards)@[i].id
            && final(cards)@[i].column_id == old(cards)@[i].column_id
            && final(cards)@[i].title == old(cards)@[i].title
            && final(cards)@[i].description == old(cards)@[i].description
            && final(cards)@[i].priority == old(cards)@[i].priority,
{
    let mut i: usize = 0;
    while i < cards.len()
        invariant
            cards@.len() == old(cards)@.len(),
            cards@.len() < 9_223_372_036_854_775,
            i <= cards@.len(),
            forall|j: int| 0 <= j < i ==> (#[trigger] cards@[j]).position == rebalanced_position(j),
            forall|j: int| 0 <= j < cards@.len() ==> (#[trigger] cards@[j]).id == old(cards)@[j].id
                && cards@[j].column_id == old(cards)@[j].column_id
                && cards@[j].title == old(cards)@[j].title
                && cards@[j].description == old(cards)@[j].description
                && cards@[j].priority == old(cards)@[j].priority,
        decreases cards.len() - i,
    {
        let mut c = cards.remove(i);
        c.position = ((i as i64) + 1) * REBALANCE_STEP;
        cards.insert(i, c);
        i = i + 1;
    }
}

/// After a rebalance positions strictly increase along the column.
pub proof fn lemma_rebalance_increasing(i: int, j: int)
    requires
        0 <= i < j,
    ensures
        rebalanced_position(i) < rebalanced_position(j),
{
}

/// The ids of a list of id texts.
pub open spec fn id_views(s: Seq<String>) -> Seq<Seq<char>> {
    s.map_values(|x: String| x@)
}

/// The column lists, viewed as id sequences.
pub open spec fn column_lists(m: Map<Seq<char>, Vec<String>>) -> Map<Seq<char>, Seq<Seq<char>>> {
    m.map_values(|v: Vec<String>| id_views(v@))
}

/// The cards with the ids `ids`, in order, skipping ids that `m` lacks.
pub open spec fn cards_in(ids: Seq<Seq<char>>, m: Map<Seq<char>, Card>) -> Seq<Card>
    decreases ids.len(),
{
    if ids.len() == 0 {
        Seq::empty()
    } else if m.contains_key(ids.last()) {
        cards_in(ids.drop_last(), m).push(m[ids.last()])
    } else {
        cards_in(ids.drop_last(), m)
    }
}

/// The card index built from columns with their cards.
pub open spec fn card_index(s: Seq<(BoardColumn, Vec<Card>)>) -> Map<Seq<char>, Card>
    decreases s.len(),
{
    if s.len() == 0 {
        Map::empty()
    } else {
        card_index(s.drop_last()).union_prefer_right(by_id(s.last().1@))
    }
}

/// The column lists built from columns with their cards.
pub open spec fn column_index(s: Seq<(BoardColumn, Vec<Card>)>) -> Map<Seq<char>, Seq<Seq<char>>>
    decreases s.len(),
{
    if s.len() == 0 {
        Map::empty()
    } else {
        column_index(s.drop_last()).insert(
            s.last().0.id@,
            s.last().1@.map_values(|c: Card| c.id@),
        )
    }
}

/// `s` without the id `x`.
pub open spec fn without(s: Seq<Seq<char>>, x: Seq<char>) -> Seq<Seq<char>>
    decreases s.len(),
{
    if s.len() == 0 {
        Seq::empty()
    } else if s.last() == x {
        without(s.drop_last(), x)
    } else {
        without(s.drop_last(), x).push(s.last())
    }
}

/// A board with its columns in display order and its cards indexed by id
/// and by column.
pub struct KanbanBoardData {
    pub board: Board,
    pub columns: Vec<BoardColumn>,
    pub cards_by_id: StringHashMap<Card>,
    pub cards_by_column: StringHashMap<Vec<String>>,
    /// The keys of `cards_by_column`, so that every list can be visited.
    pub column_keys: Vec<String>,
    /// The keys of `cards_by_id`, so that every card can be visited.
    pub card_keys: Vec<String>,
}

/// `k` is one of the texts of `v`.
pub open spec fn key_listed(v: Seq<String>, k: Seq<char>) -> bool {
    exists|i: int| 0 <= i < v.len() && #[trigger] v[i]@ == k
}

/// The texts of `v`, as a set.
pub open spec fn keys_of(v: Seq<String>) -> Set<Seq<char>> {
    Set::new(|k: Seq<char>| key_listed(v, k))
}

proof fn lemma_keys_push(v: Seq<String>, x: String)
    ensures
        keys_of(v.push(x)) == keys_of(v).insert(x@),
{
    assert(v.push(x)[v.len() as int] == x);
    assert forall|k: Seq<char>| keys_of(v).contains(k) implies keys_of(v.push(x)).contains(k) by {
        let i = choose|i: int| 0 <= i < v.len() && #[trigger] v[i]@ == k;
        assert(v.push(x)[i] == v[i]);
    }
    assert forall|k: Seq<char>| keys_of(v.push(x)).contains(k) implies keys_of(v).insert(x@).contains(k) by {
        let i = choose|i: int| 0 <= i < v.len() + 1 && #[trigger] v.push(x)[i]@ == k;
        if i < v.len() {
            assert(v[i] == v.push(x)[i]);
        }
    }
    assert(keys_of(v.push(x)) =~= keys_of(v).insert(x@));
}

/// The ids of `cards`, as texts.
fn card_ids(cards: &Vec<Card>) -> (r: Vec<String>)
    ensures
        id_views(r@) == cards@.map_values(|c: Card| c.id@),
{
    let mut r: Vec<String> = Vec::new();
    let mut i: usize = 0;
    while i < cards.len()
        invariant
            i <= cards@.len(),
            r@.len() == i,
            id_views(r@) == cards@.take(i as int).map_values(|c: Card| c.id@),
        decreases cards.len() - i,
    {
        let ghost before = r@;
        r.push(cards[i].id.clone());
        assert forall|j: int| 0 <= j < i + 1 implies #[trigger] id_views(r@)[j] == cards@.take(i + 1).map_values(|c: Card| c.id@)[j] by {
            if j < i {
                assert(r@[j] == before[j]);
                assert(id_views(before)[j] == cards@.take(i as int).map_values(|c: Card| c.id@)[j]);
            }
        }
        assert(id_views(r@) =~= cards@.take(i + 1).map_values(|c: Card| c.id@));
        i = i + 1;
    }
    assert(cards@.take(cards@.len() as int) =~= cards@);
    r
}

impl KanbanBoardData {
    /// The key lists name exactly the keys of the two maps.
    pub open spec fn keys_wf(&self) -> bool {
        &&& keys_of(self.column_keys@) == self.cards_by_column@.dom()
        &&& keys_of(self.card_keys@) == self.cards_by_id@.dom()
    }

    /// The board data from columns (in display order) with their cards.
    pub fn from_columns_and_cards(board: Board, columns_with_cards: Vec<(BoardColumn, Vec<Card>)>) -> (r: Self)
        ensures
            r.board == board,
            r.columns@ == columns_with_cards@.map_values(|p: (BoardColumn, Vec<Card>)| p.0),
            r.cards_by_id@ == card_index(columns_with_cards@),
            column_lists(r.cards_by_column@) == column_index(columns_with_cards@),
            r.keys_wf(),
    {
        let mut columns: Vec<BoardColumn> = Vec::new();
        let mut column_keys: Vec<String> = Vec::new();
        let mut card_keys: Vec<String> = Vec::new();
        let mut cards_by_id: StringHashMap<Card> = StringHashMap::new();
        let mut cards_by_column: StringHashMap<Vec<String>> = StringHashMap::new();
        let ghost s = columns_with_cards@;
        assert(column_lists(cards_by_column@) =~= column_index(s.take(0)));
        assert(cards_by_id@ =~= card_index(s.take(0)));
        assert(keys_of(column_keys@) =~= cards_by_column@.dom());
        assert(keys_of(card_keys@) =~= cards_by_id@.dom());
        let mut i: usize = 0;
        while i < columns_with_cards.len()
            invariant
                s == columns_with_cards@,
                i <= s.len(),
                columns@ == s.take(i as int).map_values(|p: (BoardColumn, Vec<Card>)| p.0),
                cards_by_id@ == card_index(s.take(i as int)),
                column_lists(cards_by_column@) == column_index(s.take(i as int)),
                keys_of(column_keys@) == cards_by_column@.dom(),
                keys_of(card_keys@) == cards_by_id@.dom(),
            decreases s.len() - i,
        {
            let col = columns_with_cards[i].0.duplicate();
            let cards = &columns_with_cards[i].1;
            assert(s.take(i + 1).drop_last() =~= s.take(i as int));
            assert(s.take(i + 1).last() == s[i as int]);
            let ghost before = cards_by_id@;
            let mut j: usize = 0;
            while j < cards.len()
                invariant
                    j <= cards@.len(),
                    cards_by_id@ == before.union_prefer_right(by_id(cards@.take(j as int))),
                    keys_of(card_keys@) == cards_by_id@.dom(),
                decreases cards.len() - j,
            {
                let c = cards[j].duplicate();
                assert(cards@.take(j + 1).drop_last() =~= cards@.take(j as int));
                let key = c.id.clone();
                proof {
                    lemma_keys_push(card_keys@, key);
                }
                card_keys.push(key);
                cards_by_id.insert(c.id.clone(), c);
                assert(cards_by_id@.dom() =~= keys_of(card_keys@));
                assert(cards_by_id@ =~= before.union_prefer_right(by_id(cards@.take(j + 1))));
                j = j + 1;
            }
            assert(cards@.take(cards@.len() as int) =~= cards@);
            let ids = card_ids(cards);
            let ghost ids_v = id_views(ids@);
            cards_by_column.insert(col.id.clone(), ids);
            assert(column_lists(cards_by_column@) =~= column_index(s.take(i + 1)));
            let ckey = col.id.clone();
            proof {
                lemma_keys_push(column_keys@, ckey);
            }
            column_keys.push(ckey);
            assert(cards_by_column@.dom() =~= keys_of(column_keys@));
            columns.push(col);
            assert(columns@ =~= s.take(i + 1).map_values(|p: (BoardColumn, Vec<Card>)| p.0));
            i = i + 1;
        }
        assert(s.take(s.len() as int) =~= s);
        KanbanBoardData { board, columns, cards_by_id, cards_by_column, column_keys, card_keys }
    }

    /// The card with id `card_id`.
    pub fn get_card(&self, card_id: &str) -> (r: Option<&Card>)
        ensures
            match r {
                Some(c) => self.cards_by_id@.contains_key(card_id@) && *c == self.cards_by_id@[card_id@],
                None => !self.cards_by_id@.contains_key(card_id@),
            },
    {
        self.cards_by_id.get(card_id)
    }

    /// The cards of column `column_id`, in column order.
    pub fn get_column_cards(&self, column_id: &str) -> (r: Vec<Card>)
        ensures
            r@ == column_cards(*self, column_id@),
    {
        let mut r: Vec<Card> = Vec::new();
        match self.cards_by_column.get(column_id) {
            Some(ids) => {
                let ghost iv = id_views(ids@);
                let mut i: usize = 0;
                assert(cards_in(iv.take(0), self.cards_by_id@) =~= Seq::<Card>::empty());
                while i < ids.len()
                    invariant
                        iv == id_views(ids@),
                        i <= ids@.len(),
                        r@ == cards_in(iv.take(i as int), self.cards_by_id@),
                    decreases ids.len() - i,
                {
                    assert(iv.take(i + 1).drop_last() =~= iv.take(i as int));
                    assert(iv.take(i + 1).last() == ids@[i as int]@);
                    match self.cards_by_id.get(ids[i].as_str()) {
                        Some(c) => r.push(c.duplicate()),
                        None => {},
                    }
                    i = i + 1;
                }
                assert(iv.take(iv.len() as int) =~= iv);
            },
            None => {},
        }
        r
    }
}

proof fn lemma_without_idempotent(s: Seq<Seq<char>>, x: Seq<char>)
    ensures
        without(without(s, x), x) == without(s, x),
    decreases s.len(),
{
    if s.len() > 0 {
        lemma_without_idempotent(s.drop_last(), x);
        if s.last() != x {
            let w = without(s.drop_last(), x).push(s.last());
            assert(w.drop_last() =~= without(s.drop_last(), x));
        }
    }
}

/// `v` without the id `id`.
pub fn remove_id(v: &Vec<String>, id: &str) -> (r: Vec<String>)
    ensures
        id_views(r@) == without(id_views(v@), id@),
{
    let mut r: Vec<String> = Vec::new();
    let ghost iv = id_views(v@);
    let mut i: usize = 0;
    assert(without(iv.take(0), id@) =~= Seq::<Seq<char>>::empty());
    assert(id_views(r@) =~= Seq::<Seq<char>>::empty());
    while i < v.len()
        invariant
            iv == id_views(v@),
            i <= v@.len(),
            id_views(r@) == without(iv.take(i as int), id@),
        decreases v.len() - i,
    {
        assert(iv.take(i + 1).drop_last() =~= iv.take(i as int));
        assert(iv.take(i + 1).last() == v@[i as int]@);
        if !str_eq(v[i].as_str(), id) {
            let ghost before = r@;
            r.push(v[i].clone());
            assert(id_views(r@) =~= id_views(before).push(v@[i as int]@));
        }
        i = i + 1;
    }
    assert(iv.take(iv.len() as int) =~= iv);
    r
}

/// `k` is the id of one of `cols`.
pub open spec fn listed(cols: Seq<BoardColumn>, k: Seq<char>) -> bool {
    exists|i: int| 0 <= i < cols.len() && #[trigger] cols[i].id@ == k
}

/// The column lists after card `card` was taken out of the lists under
/// the keys of `keys`.
pub open spec fn taken_out_keys(m: Map<Seq<char>, Seq<Seq<char>>>, keys: Seq<String>, card: Seq<char>) -> Map<Seq<char>, Seq<Seq<char>>> {
    Map::new(
        |k: Seq<char>| m.contains_key(k),
        |k: Seq<char>| if key_listed(keys, k) { without(m[k], card) } else { m[k] },
    )
}

/// The column lists after card `card` moved to column `dest`: out of every
/// list that held it, then appended to `dest`.
pub open spec fn moved(m: Map<Seq<char>, Seq<Seq<char>>>, card: Seq<char>, dest: Seq<char>) -> Map<Seq<char>, Seq<Seq<char>>> {
    let t = Map::new(|k: Seq<char>| m.contains_key(k), |k: Seq<char>| without(m[k], card));
    t.insert(dest, if t.contains_key(dest) { t[dest] } else { Seq::empty() }.push(card))
}

impl KanbanBoardData {
    /// Moves card `card_id` to the end of column `new_column_id`: it leaves
    /// every list that held it, and its column id changes.
    pub fn move_card_to_column(&mut self, card_id: &str, new_column_id: &str)
        requires
            old(self).keys_wf(),
        ensures
            final(self).keys_wf(),
            column_lists(final(self).cards_by_column@) == moved(
                column_lists(old(self).cards_by_column@),
                card_id@,
                new_column_id@,
            ),
            final(self).cards_by_id@.dom() == old(self).cards_by_id@.dom(),
            forall|k: Seq<char>| k != card_id@ && #[trigger] old(self).cards_by_id@.contains_key(k)
                ==> final(self).cards_by_id@[k] == old(self).cards_by_id@[k],
            old(self).cards_by_id@.contains_key(card_id@) ==> ({
                let a = old(self).cards_by_id@[card_id@];
                let b = final(self).cards_by_id@[card_id@];
                b.column_id@ == new_column_id@ && b.id == a.id && b.title == a.title
                    && b.description == a.description && b.position == a.position
                    && b.priority == a.priority
            }),
            final(self).columns@ == old(self).columns@,
            final(self).board == old(self).board,
    {
        let ghost m0 = column_lists(self.cards_by_column@);
        let ghost keys = self.column_keys@;
        let mut i: usize = 0;
        assert(column_lists(self.cards_by_column@) =~= taken_out_keys(m0, keys.take(0), card_id@));
        while i < self.column_keys.len()
            invariant
                keys == self.column_keys@,
                keys == old(self).column_keys@,
                self.card_keys == old(self).card_keys,
                m0 == column_lists(old(self).cards_by_column@),
                self.cards_by_column@.dom() == old(self).cards_by_column@.dom(),
                self.cards_by_id@ == old(self).cards_by_id@,
                self.board == old(self).board,
                self.columns == old(self).columns,
                i <= keys.len(),
                column_lists(self.cards_by_column@) == taken_out_keys(m0, keys.take(i as int), card_id@),
            decreases self.column_keys.len() - i,
        {
            let ghost before = column_lists(self.cards_by_column@);
            let cid = self.column_keys[i].clone();
            let ghost k = cid@;
            let found = match self.cards_by_column.get(cid.as_str()) {
                Some(list) => Some(remove_id(list, card_id)),
                None => None,
            };
            match found {
                Some(nl) => {
                    let ghost nv = id_views(nl@);
                    assert(before.contains_key(k));
                    assert(nv == without(before[k], card_id@));
                    self.cards_by_column.insert(cid, nl);
                    assert(column_lists(self.cards_by_column@) =~= before.insert(k, nv));
                    assert(self.cards_by_column@.dom() =~= old(self).cards_by_column@.dom());
                },
                None => {
                    assert(!before.contains_key(k));
                },
            }
            proof {
                if m0.contains_key(k) {
                    lemma_without_idempotent(m0[k], card_id@);
                }
                assert forall|kk: Seq<char>| key_listed(keys.take(i + 1), kk) <==> (key_listed(keys.take(i as int), kk) || kk == k) by {
                    if key_listed(keys.take(i + 1), kk) {
                        let j = choose|j: int| 0 <= j < i + 1 && #[trigger] keys.take(i + 1)[j]@ == kk;
                        if j < i {
                            assert(keys.take(i as int)[j]@ == kk);
                        }
                    }
                    if key_listed(keys.take(i as int), kk) {
                        let j = choose|j: int| 0 <= j < i && #[trigger] keys.take(i as int)[j]@ == kk;
                        assert(keys.take(i + 1)[j]@ == kk);
                    }
                    if kk == k {
                        assert(keys.take(i + 1)[i as int]@ == kk);
                    }
                }
            }
            assert(column_lists(self.cards_by_column@) =~= taken_out_keys(m0, keys.take(i + 1), card_id@));
            i = i + 1;
        }
        assert(keys.take(keys.len() as int) =~= keys);
        let ghost t = column_lists(self.cards_by_column@);
        assert(t =~= Map::new(|kk: Seq<char>| m0.contains_key(kk), |kk: Seq<char>| without(m0[kk], card_id@))) by {
            assert forall|kk: Seq<char>| m0.contains_key(kk) implies key_listed(keys, kk) by {
                assert(old(self).cards_by_column@.contains_key(kk));
                assert(keys_of(keys).contains(kk));
            }
        }
        let is_new = !self.cards_by_column.contains_key(new_column_id);
        let mut dest: Vec<String> = match self.cards_by_column.get(new_column_id) {
            Some(l) => {
                let mut c: Vec<String> = Vec::new();
                let mut j: usize = 0;
                while j < l.len()
                    invariant
                        j <= l@.len(),
                        c@ == l@.take(j as int),
                    decreases l.len() - j,
                {
                    c.push(l[j].clone());
                    assert(c@ =~= l@.take(j + 1));
                    j = j + 1;
                }
                assert(l@.take(l@.len() as int) =~= l@);
                c
            },
            None => Vec::new(),
        };
        let ghost d0 = id_views(dest@);
        assert(d0 == if t.contains_key(new_column_id@) { t[new_column_id@] } else { Seq::empty() });
        dest.push(card_id.to_string());
        assert(id_views(dest@) =~= d0.push(card_id@));
        let ghost before2 = self.cards_by_column@;
        self.cards_by_column.insert(new_column_id.to_string(), dest);
        assert(column_lists(self.cards_by_column@) =~= column_lists(before2).insert(new_column_id@, d0.push(card_id@)));
        assert(column_lists(self.cards_by_column@) =~= moved(m0, card_id@, new_column_id@));
        if is_new {
            let nk = new_column_id.to_string();
            proof {
                lemma_keys_push(self.column_keys@, nk);
            }
            self.column_keys.push(nk);
        }
        assert(keys_of(self.column_keys@) =~= self.cards_by_column@.dom());
        let moved_card = match self.cards_by_id.get(card_id) {
            Some(c) => {
                let mut c2 = c.duplicate();
                c2.column_id = new_column_id.to_string();
                Some(c2)
            },
            None => None,
        };
        match moved_card {
            Some(c2) => {
                self.cards_by_id.insert(card_id.to_string(), c2);
                assert(self.cards_by_id@.dom() =~= old(self).cards_by_id@.dom());
            },
            None => {},
        }
    }
}

/// The ids a board interns: its column ids, every card id, and the column
/// id each card names.
pub open spec fn board_ids(pm: &KanbanBoardData) -> Set<Seq<char>> {
    Set::new(
        |k: Seq<char>|
            listed(pm.columns@, k) || pm.cards_by_id@.contains_key(k) || exists|c: Seq<char>|
                #[trigger] pm.cards_by_id@.contains_key(c) && pm.cards_by_id@[c].column_id@ == k,
    )
}

/// Interned board ids, shared by the per-frame drag and hover comparisons.
pub struct PmIdPool {
    map: StringHashMap<String>,
}

impl PmIdPool {
    /// The interned ids.
    pub closed spec fn view(&self) -> Set<Seq<char>> {
        self.map@.dom()
    }

    /// Every entry is its own key.
    pub closed spec fn wf(&self) -> bool {
        forall|k: Seq<char>| #[trigger] self.map@.contains_key(k) ==> self.map@[k]@ == k
    }

    /// An empty pool.
    pub fn new() -> (r: Self)
        ensures
            r.wf(),
            r.view() == Set::<Seq<char>>::empty(),
    {
        PmIdPool { map: StringHashMap::new() }
    }

    /// Interns exactly the ids of board `pm`: its column ids, its card ids
    /// and the column ids its cards name; earlier entries are dropped.
    pub fn rebuild_from_pm(&mut self, pm: &KanbanBoardData)
        requires
            pm.keys_wf(),
        ensures
            final(self).wf(),
            final(self).view() == board_ids(pm),
    {
        self.map.clear();
        let ghost cols = pm.columns@;
        let mut c: usize = 0;
        while c < pm.columns.len()
            invariant
                cols == pm.columns@,
                c <= cols.len(),
                self.wf(),
                forall|k: Seq<char>| #[trigger] self.map@.contains_key(k) <==> listed(cols.take(c as int), k),
            decreases pm.columns.len() - c,
        {
            let cid = pm.columns[c].id.clone();
            let ghost m0 = self.map@;
            self.map.insert(cid.clone(), cid);
            assert forall|k: Seq<char>| #[trigger] self.map@.contains_key(k) <==> listed(cols.take(c + 1), k) by {
                if listed(cols.take(c + 1), k) {
                    let j = choose|j: int| 0 <= j < c + 1 && #[trigger] cols.take(c + 1)[j].id@ == k;
                    if j < c {
                        assert(cols.take(c as int)[j].id@ == k);
                        assert(m0.contains_key(k));
                    }
                }
                if k != cols[c as int].id@ {
                    assert(m0.contains_key(k) == self.map@.contains_key(k));
                    if listed(cols.take(c as int), k) {
                        let j = choose|j: int| 0 <= j < c && #[trigger] cols.take(c as int)[j].id@ == k;
                        assert(cols.take(c + 1)[j].id@ == k);
                    }
                } else {
                    assert(cols.take(c + 1)[c as int].id@ == k);
                }
            }
            c = c + 1;
        }
        assert(cols.take(cols.len() as int) =~= cols);
        let ghost ck = pm.card_keys@;
        let ghost cards = pm.cards_by_id@;
        let mut j: usize = 0;
        while j < pm.card_keys.len()
            invariant
                cols == pm.columns@,
                ck == pm.card_keys@,
                cards == pm.cards_by_id@,
                pm.keys_wf(),
                j <= ck.len(),
                self.wf(),
                forall|k: Seq<char>| #[trigger] self.map@.contains_key(k) <==> (listed(cols, k) || key_listed(
                    ck.take(j as int),
                    k,
                ) || exists|x: Seq<char>| #[trigger] key_listed(ck.take(j as int), x) && cards.contains_key(x)
                    && cards[x].column_id@ == k),
            decreases pm.card_keys.len() - j,
        {
            let key = pm.card_keys[j].clone();
            let ghost kv = key@;
            let ghost m0 = self.map@;
            assert(keys_of(ck).contains(kv));
            let colid: Option<String> = match pm.cards_by_id.get(key.as_str()) {
                Some(card) => Some(card.column_id.clone()),
                None => None,
            };
            self.map.insert(key.clone(), key);
            let ghost m1 = self.map@;
            match colid {
                Some(cc) => {
                    self.map.insert(cc.clone(), cc);
                },
                None => {},
            }
            proof {
                assert forall|x: Seq<char>| key_listed(ck.take(j + 1), x) <==> (key_listed(ck.take(j as int), x) || x == kv) by {
                    if key_listed(ck.take(j + 1), x) {
                        let i = choose|i: int| 0 <= i < j + 1 && #[trigger] ck.take(j + 1)[i]@ == x;
                        if i < j {
                            assert(ck.take(j as int)[i]@ == x);
                        }
                    }
                    if key_listed(ck.take(j as int), x) {
                        let i = choose|i: int| 0 <= i < j && #[trigger] ck.take(j as int)[i]@ == x;
                        assert(ck.take(j + 1)[i]@ == x);
                    }
                    if x == kv {
                        assert(ck.take(j + 1)[j as int]@ == x);
                    }
                }
                assert forall|k: Seq<char>| #[trigger] self.map@.contains_key(k) <==> (listed(cols, k) || key_listed(
                    ck.take(j + 1),
                    k,
                ) || exists|x: Seq<char>| #[trigger] key_listed(ck.take(j + 1), x) && cards.contains_key(x)
                    && cards[x].column_id@ == k) by {
                    if exists|x: Seq<char>| #[trigger] key_listed(ck.take(j + 1), x) && cards.contains_key(x)
                        && cards[x].column_id@ == k {
                        let x = choose|x: Seq<char>| #[trigger] key_listed(ck.take(j + 1), x) && cards.contains_key(x)
                            && cards[x].column_id@ == k;
                        if x != kv {
                            assert(key_listed(ck.take(j as int), x));
                        }
                    }
                    if k != kv && !(cards.contains_key(kv) && cards[kv].column_id@ == k) {
                        assert(m0.contains_key(k) == self.map@.contains_key(k));
                        if exists|x: Seq<char>| #[trigger] key_listed(ck.take(j as int), x) && cards.contains_key(x)
                            && cards[x].column_id@ == k {
                            let x = choose|x: Seq<char>| #[trigger] key_listed(ck.take(j as int), x) && cards.contains_key(x)
                                && cards[x].column_id@ == k;
                            assert(key_listed(ck.take(j + 1), x));
                        }
                    }
                    if cards.contains_key(kv) && cards[kv].column_id@ == k {
                        assert(ck.take(j + 1)[j as int]@ == kv);
                        assert(key_listed(ck.take(j + 1), kv));
                    }
                }
            }
            j = j + 1;
        }
        assert(ck.take(ck.len() as int) =~= ck);
        assert forall|x: Seq<char>| key_listed(ck, x) <==> cards.contains_key(x) by {
            assert(keys_of(ck).contains(x) == key_listed(ck, x));
        }
        assert(self.view() =~= board_ids(pm));
    }

    /// The interned copy of `id`, or a fresh one where it is not interned.
    pub fn get(&self, id: &str) -> (r: String)
        requires
            self.wf(),
        ensures
            r@ == id@,
    {
        match self.map.get(id) {
            Some(s) => s.clone(),
            None => id.to_string(),
        }
    }
}

} // verus!
