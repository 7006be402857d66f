//! The canvas's interaction state and its per-tick transitions: pressing,
//! moving and releasing the pointer, adding and deleting items.
use crate::canvas::CursorCoords;
use crate::geometry::{
    CANVAS_LIMIT,
    Rect,
    Vec2,
    box_fits,
    clamp_of,
    fits_on_canvas,
    in_range,
    is_exact_bound,
    lemma_surrounding_is_exact,
    surrounding,
};
use crate::events::{AddItemEvent, bundle_for, spec_bundle_for};
use crate::hit::{topmost, topmost_hit};
use crate::item::{Item, ItemBundle, ItemCounter, next_count};
use crate::select::{Selected, SelectedRect, SelectionBox};
use vstd::prelude::*;

verus! {

/// The boxes of the selected items where they are now, in item order.
pub open spec fn selected_bounds(items: Seq<Item>) -> Seq<Rect>
    decreases items.len(),
{
    if items.len() == 0 {
        Seq::empty()
    } else {
        let init = selected_bounds(items.drop_last());
        if items.last().selected is Some {
            init.push(items.last().bounds())
        } else {
            init
        }
    }
}

/// The boxes of the selected items where they rested when the press began.
pub open spec fn selected_rest_bounds(items: Seq<Item>) -> Seq<Rect>
    decreases items.len(),
{
    if items.len() == 0 {
        Seq::empty()
    } else {
        let init = selected_rest_bounds(items.drop_last());
        if items.last().selected is Some {
            init.push(items.last().rest_bounds())
        } else {
            init
        }
    }
}

/// The rectangle around the selection: the union of the selected boxes
/// where they are, and the union of where they rested; `None` when nothing
/// is selected.
pub open spec fn group_rect(items: Seq<Item>) -> Option<SelectedRect> {
    match (surrounding(selected_bounds(items)), surrounding(selected_rest_bounds(items))) {
        (Some(r), Some(i)) => Some(SelectedRect { rect: r, initial_rect: i }),
        _ => None,
    }
}

pub open spec fn some_selected(items: Seq<Item>) -> bool {
    exists|i: int| 0 <= i < items.len() && (#[trigger] items[i]).selected is Some
}

/// The items that are not selected, in order.
pub open spec fn unselected_items(items: Seq<Item>) -> Seq<Item>
    decreases items.len(),
{
    if items.len() == 0 {
        Seq::empty()
    } else {
        let init = unselected_items(items.drop_last());
        if items.last().selected is None {
            init.push(items.last())
        } else {
            init
        }
    }
}

/// The ids of the selected items, in order.
pub open spec fn selected_ids(items: Seq<Item>) -> Seq<u64>
    decreases items.len(),
{
    if items.len() == 0 {
        Seq::empty()
    } else {
        let init = selected_ids(items.drop_last());
        if items.last().selected is Some {
            init.push(items.last().id)
        } else {
            init
        }
    }
}

pub open spec fn deselect(it: Item) -> Item {
    Item { selected: None, ..it }
}

/// Selected, resting where it stands.
pub open spec fn select_here(it: Item) -> Item {
    Item { selected: Some(Selected { start_position: it.position }), ..it }
}

/// What a rubber-band rectangle `r` makes of an item: selected exactly when
/// their boxes overlap.
pub open spec fn sweep(it: Item, r: Rect) -> Item {
    if r.overlaps(it.bounds()) {
        select_here(it)
    } else {
        deselect(it)
    }
}

/// A selected item moved by `d` from where it rested; others stay.
pub open spec fn drag(it: Item, d: Vec2) -> Item {
    match it.selected {
        Some(s) => Item { position: s.start_position.spec_plus(d), ..it },
        None => it,
    }
}

/// A selected item takes where it stands as its new resting place.
pub open spec fn settle(it: Item) -> Item {
    match it.selected {
        Some(_) => select_here(it),
        None => it,
    }
}

/// The whole interaction state of a canvas, as a mathematical value.
pub ghost struct BoardView {
    pub items: Seq<Item>,
    pub cursor: CursorCoords,
    pub counter: u64,
    pub selection_box: Option<SelectionBox>,
    pub selected_rect: Option<SelectedRect>,
    pub next_id: u64,
}

impl BoardView {
    /// The state's invariant: items are well formed, in increasing id order,
    /// below the next id and no higher than the counter; the pointer is on
    /// the canvas; a rubber-band box exists only while the button is held,
    /// spanning from the press to the pointer; and the group rectangle is
    /// exactly the union of the selected items' boxes.
    pub open spec fn wf(self) -> bool {
        &&& forall|i: int| 0 <= i < self.items.len() ==> (#[trigger] self.items[i]).wf()
        &&& forall|i: int, j: int|
            0 <= i < j < self.items.len() ==> self.items[i].id < self.items[j].id
        &&& forall|i: int| 0 <= i < self.items.len() ==> (#[trigger] self.items[i]).id < self.next_id
        &&& forall|i: int| 0 <= i < self.items.len() ==> (#[trigger] self.items[i]).z <= self.counter
        &&& self.cursor.wf()
        &&& self.selection_box is Some ==> {
            &&& self.cursor.hold_start == Some(self.selection_box.unwrap().start_position)
            &&& self.selection_box.unwrap().end_position == self.cursor.current
        }
        &&& self.selected_rect == group_rect(self.items)
    }

    /// A press began inside the resting group rectangle and no rubber-band
    /// box is open: moving the pointer moves the selection.
    pub open spec fn dragging(self) -> bool {
        &&& self.cursor.hold_start is Some
        &&& self.selection_box is None
        &&& self.selected_rect is Some
        &&& self.selected_rect.unwrap().initial_rect.spec_contains(self.cursor.hold_start.unwrap())
    }

    /// How far a drag to `p` moves the selection: the pointer's displacement
    /// since the press, cut short where the group would leave the canvas.
    pub open spec fn drag_offset(self, p: Vec2) -> Vec2 {
        let r = self.selected_rect.unwrap().initial_rect;
        let d = p.spec_minus(self.cursor.hold_start.unwrap());
        Vec2 {
            x: clamp_of(d.x as int, -CANVAS_LIMIT - r.min.x, CANVAS_LIMIT - r.max.x) as i64,
            y: clamp_of(d.y as int, -CANVAS_LIMIT - r.min.y, CANVAS_LIMIT - r.max.y) as i64,
        }
    }

    /// A press at `p` while the button is up. A click on an item selects
    /// it: an item already selected leaves the selection as it is, ready to
    /// be dragged; an item clicked inside the resting group rectangle joins
    /// the selection; elsewhere it replaces the selection and comes to the
    /// front. A press on no item inside the group rectangle starts a drag of
    /// the selection; anywhere else it clears the selection and opens a
    /// rubber-band box at `p`.
    pub open spec fn pressed_fresh(self, p: Vec2) -> BoardView {
        let cursor = CursorCoords { current: p, hold_start: Some(p) };
        let in_group = self.selected_rect is Some && self.selected_rect.unwrap().initial_rect.spec_contains(p);
        match topmost(self.items, p) {
            Some(i) => if self.items[i].selected is Some {
                BoardView { cursor, ..self }
            } else {
                let base = if in_group {
                    self.items
                } else {
                    self.items.map_values(|it: Item| deselect(it))
                };
                let counter = if in_group {
                    self.counter
                } else {
                    next_count(self.counter)
                };
                let hit = select_here(self.items[i]);
                let items = base.update(i, Item { z: if in_group { hit.z } else { counter }, ..hit });
                BoardView { items, cursor, counter, selected_rect: group_rect(items), ..self }
            },
            None => if in_group {
                BoardView { cursor, ..self }
            } else {
                BoardView {
                    items: self.items.map_values(|it: Item| deselect(it)),
                    cursor,
                    selection_box: Some(SelectionBox { start_position: p, end_position: p }),
                    selected_rect: None,
                    ..self
                }
            },
        }
    }

    /// A press at `p`. One that comes while the button is still held is
    /// taken as a release followed by a press.
    pub open spec fn pressed(self, p: Vec2) -> BoardView {
        if self.cursor.hold_start is Some {
            self.released().pressed_fresh(p)
        } else {
            self.pressed_fresh(p)
        }
    }

    /// The pointer moves to `p`. While a rubber-band box is open it follows
    /// the pointer, and the selection becomes exactly the items whose boxes
    /// overlap it; while dragging, the selected items move with the
    /// pointer from where they rested; otherwise only the pointer moves.
    pub open spec fn moved(self, p: Vec2) -> BoardView {
        let cursor = CursorCoords { current: p, hold_start: self.cursor.hold_start };
        if self.selection_box is Some {
            let b = SelectionBox {
                start_position: self.selection_box.unwrap().start_position,
                end_position: p,
            };
            let items = self.items.map_values(|it: Item| sweep(it, b.spec_rect()));
            BoardView {
                items,
                cursor,
                selection_box: Some(b),
                selected_rect: group_rect(items),
                ..self
            }
        } else if self.dragging() {
            let d = self.drag_offset(p);
            let items = self.items.map_values(|it: Item| drag(it, d));
            BoardView { items, cursor, selected_rect: group_rect(items), ..self }
        } else {
            BoardView { cursor, ..self }
        }
    }

    /// A new item from `bundle` centered at `position`, on top of all
    /// others, with the next id; the selection is cleared.
    pub open spec fn added(self, bundle: ItemBundle, position: Vec2) -> BoardView {
        let counter = next_count(self.counter);
        let item = Item {
            id: self.next_id,
            kind: bundle.kind,
            position,
            half_extents: bundle.half_extents,
            z: counter,
            selected: None,
        };
        BoardView {
            items: self.items.map_values(|it: Item| deselect(it)).push(item),
            counter,
            selected_rect: None,
            next_id: (self.next_id + 1) as u64,
            ..self
        }
    }

    /// The selected items are removed; the others keep their order.
    pub open spec fn deleted(self) -> BoardView {
        BoardView { items: unselected_items(self.items), selected_rect: None, ..self }
    }

    /// Item `k` can take half extents `h`: its box stays on the canvas, both
    /// where it is and, if selected, where it rests.
    pub open spec fn resizable(self, k: int, h: Vec2) -> bool {
        &&& box_fits(self.items[k].position, h)
        &&& self.items[k].selected is Some ==> box_fits(
            self.items[k].selected.unwrap().start_position,
            h,
        )
    }

    /// Item `k` takes half extents `h`; the group rectangle follows.
    pub open spec fn resized(self, k: int, h: Vec2) -> BoardView {
        let items = self.items.update(k, Item { half_extents: h, ..self.items[k] });
        BoardView { items, selected_rect: group_rect(items), ..self }
    }

    /// Releasing the button: any rubber-band box closes and every selected
    /// item rests where it stands.
    pub open spec fn released(self) -> BoardView {
        let items = self.items.map_values(|it: Item| settle(it));
        BoardView {
            items,
            cursor: CursorCoords { current: self.cursor.current, hold_start: None },
            selection_box: None,
            selected_rect: group_rect(items),
            ..self
        }
    }
}

/// The interaction state of a canvas: its items in the order they were
/// placed, the pointer, the depth counter, the rubber-band box while one is
/// drawn and the rectangle around the selection while there is one.
pub struct Board {
    pub items: Vec<Item>,
    pub cursor: CursorCoords,
    pub counter: ItemCounter,
    pub selection_box: Option<SelectionBox>,
    pub selected_rect: Option<SelectedRect>,
    pub next_id: u64,
}

impl View for Board {
    type V = BoardView;

    open spec fn view(&self) -> BoardView {
        BoardView {
            items: self.items@,
            cursor: self.cursor,
            counter: self.counter@,
            selection_box: self.selection_box,
            selected_rect: self.selected_rect,
            next_id: self.next_id,
        }
    }
}

proof fn lemma_selected_bounds_facts(items: Seq<Item>)
    requires
        forall|i: int| 0 <= i < items.len() ==> (#[trigger] items[i]).wf(),
    ensures
        selected_bounds(items).len() == selected_rest_bounds(items).len(),
        selected_bounds(items).len() > 0 <==> some_selected(items),
        forall|k: int|
            0 <= k < selected_bounds(items).len() ==> (#[trigger] selected_bounds(
                items,
            )[k]).in_canvas(),
        forall|k: int|
            0 <= k < selected_rest_bounds(items).len() ==> (#[trigger] selected_rest_bounds(
                items,
            )[k]).in_canvas(),
        forall|j: int|
            0 <= j < items.len() && (#[trigger] items[j]).selected is Some ==> selected_bounds(
                items,
            ).contains(items[j].bounds()) && selected_rest_bounds(items).contains(
                items[j].rest_bounds(),
            ),
    decreases items.len(),
{
    if items.len() > 0 {
        let init = items.drop_last();
        lemma_selected_bounds_facts(init);
        let l = items.len() - 1;
        assert forall|j: int| 0 <= j < l implies items[j] == #[trigger] init[j] by {}
        if some_selected(init) {
            let j = choose|j: int| 0 <= j < init.len() && (#[trigger] init[j]).selected is Some;
            assert(items[j].selected is Some);
        }
        if some_selected(items) && items[l].selected is None {
            let j = choose|j: int| 0 <= j < items.len() && (#[trigger] items[j]).selected is Some;
            assert(init[j].selected is Some);
        }
        let sb = selected_bounds(items);
        let sr = selected_rest_bounds(items);
        let ib = selected_bounds(init);
        let ir = selected_rest_bounds(init);
        assert forall|j: int|
            0 <= j < items.len() && (#[trigger] items[j]).selected is Some implies sb.contains(
            items[j].bounds()) && sr.contains(items[j].rest_bounds()) by {
            if j == l {
                assert(sb[sb.len() - 1] == items[j].bounds());
                assert(sr[sr.len() - 1] == items[j].rest_bounds());
            } else {
                assert(init[j].selected is Some);
                let k1 = choose|k: int| 0 <= k < ib.len() && ib[k] == init[j].bounds();
                let k2 = choose|k: int| 0 <= k < ir.len() && ir[k] == init[j].rest_bounds();
                assert(sb[k1] == ib[k1]);
                assert(sr[k2] == ir[k2]);
            }
        }
        assert(items[l].wf());
        assert forall|k: int| 0 <= k < sb.len() implies (#[trigger] sb[k]).in_canvas() by {
            if k < ib.len() {
                assert(sb[k] == ib[k]);
            }
        }
        assert forall|k: int| 0 <= k < sr.len() implies (#[trigger] sr[k]).in_canvas() by {
            if k < ir.len() {
                assert(sr[k] == ir[k]);
            }
        }
    }
}

/// What the group rectangle is made of: it exists exactly when something is
/// selected, lies on the canvas, and holds every selected item's box, both
/// where it is and where it rested.
proof fn lemma_group_rect_facts(items: Seq<Item>)
    requires
        forall|i: int| 0 <= i < items.len() ==> (#[trigger] items[i]).wf(),
    ensures
        group_rect(items) is Some <==> some_selected(items),
        group_rect(items) is Some ==> {
            let g = group_rect(items).unwrap();
            &&& g.rect.in_canvas()
            &&& g.initial_rect.in_canvas()
            &&& is_exact_bound(g.rect, selected_bounds(items))
            &&& is_exact_bound(g.initial_rect, selected_rest_bounds(items))
            &&& forall|j: int|
                0 <= j < items.len() && (#[trigger] items[j]).selected is Some ==> {
                    let b = items[j].rest_bounds();
                    &&& g.initial_rect.min.x <= b.min.x
                    &&& g.initial_rect.min.y <= b.min.y
                    &&& b.max.x <= g.initial_rect.max.x
                    &&& b.max.y <= g.initial_rect.max.y
                }
        },
{
    lemma_selected_bounds_facts(items);
    let sb = selected_bounds(items);
    let sr = selected_rest_bounds(items);
    if sb.len() > 0 {
        lemma_surrounding_is_exact(sb);
        lemma_surrounding_is_exact(sr);
        let g = group_rect(items).unwrap();
        let a = choose|i: int| 0 <= i < sb.len() && g.rect.min.x == #[trigger] sb[i].min.x;
        let b = choose|i: int| 0 <= i < sb.len() && g.rect.min.y == #[trigger] sb[i].min.y;
        let c = choose|i: int| 0 <= i < sb.len() && g.rect.max.x == #[trigger] sb[i].max.x;
        let d = choose|i: int| 0 <= i < sb.len() && g.rect.max.y == #[trigger] sb[i].max.y;
        assert(sb[a].in_canvas() && sb[b].in_canvas() && sb[c].in_canvas() && sb[d].in_canvas());
        assert(sb[a].min.x <= sb[a].max.x && sb[a].max.x <= g.rect.max.x);
        assert(sb[b].min.y <= sb[b].max.y && sb[b].max.y <= g.rect.max.y);
        let a = choose|i: int| 0 <= i < sr.len() && g.initial_rect.min.x == #[trigger] sr[i].min.x;
        let b = choose|i: int| 0 <= i < sr.len() && g.initial_rect.min.y == #[trigger] sr[i].min.y;
        let c = choose|i: int| 0 <= i < sr.len() && g.initial_rect.max.x == #[trigger] sr[i].max.x;
        let d = choose|i: int| 0 <= i < sr.len() && g.initial_rect.max.y == #[trigger] sr[i].max.y;
        assert(sr[a].in_canvas() && sr[b].in_canvas() && sr[c].in_canvas() && sr[d].in_canvas());
        assert(sr[a].min.x <= sr[a].max.x && sr[a].max.x <= g.initial_rect.max.x);
        assert(sr[b].min.y <= sr[b].max.y && sr[b].max.y <= g.initial_rect.max.y);
        assert forall|j: int|
            0 <= j < items.len() && (#[trigger] items[j]).selected is Some implies {
            let b = items[j].rest_bounds();
            &&& g.initial_rect.min.x <= b.min.x
            &&& g.initial_rect.min.y <= b.min.y
            &&& b.max.x <= g.initial_rect.max.x
            &&& b.max.y <= g.initial_rect.max.y
        } by {
            let k = choose|k: int| 0 <= k < sr.len() && sr[k] == items[j].rest_bounds();
            assert(g.initial_rect.min.x <= sr[k].min.x);
        }
    }
}

/// The group rectangle of `items`, computed in one pass.
fn get_surrounding_rect(items: &Vec<Item>) -> (r: Option<SelectedRect>)
    requires
        forall|i: int| 0 <= i < items@.len() ==> (#[trigger] items@[i]).wf(),
    ensures
        r == group_rect(items@),
{
    let mut current: Option<Rect> = None;
    let mut resting: Option<Rect> = None;
    let n = items.len();
    for i in 0..n
        invariant
            n == items@.len(),
            forall|k: int| 0 <= k < items@.len() ==> (#[trigger] items@[k]).wf(),
            current == surrounding(selected_bounds(items@.take(i as int))),
            resting == surrounding(selected_rest_bounds(items@.take(i as int))),
    {
        let ghost pre = items@.take(i as int);
        let ghost post = items@.take(i + 1);
        assert(post.drop_last() =~= pre);
        assert(post.last() == items@[i as int]);
        let it = items[i];
        match it.selected {
            Some(s) => {
                let b = it.rect();
                let rb = Rect::from_center_half_size(s.start_position, it.half_extents);
                assert(selected_bounds(pre).push(b).drop_last() =~= selected_bounds(pre));
                assert(selected_rest_bounds(pre).push(rb).drop_last() =~= selected_rest_bounds(
                    pre,
                ));
                current =
                match current {
                    None => Some(b),
                    Some(c) => Some(c.union(&b)),
                };
                resting =
                match resting {
                    None => Some(rb),
                    Some(c) => Some(c.union(&rb)),
                };
            },
            None => {},
        }
    }
    assert(items@.take(n as int) =~= items@);
    match (current, resting) {
        (Some(c), Some(rs)) => Some(SelectedRect { rect: c, initial_rect: rs }),
        _ => None,
    }
}

/// Clears every item's selection.
fn deselect_all(items: &mut Vec<Item>)
    ensures
        final(items)@ == old(items)@.map_values(|it: Item| deselect(it)),
{
    let ghost orig = items@;
    let n = items.len();
    for i in 0..n
        invariant
            n == items@.len(),
            orig.len() == n,
            forall|j: int| 0 <= j < i ==> items@[j] == deselect(orig[j]),
            forall|j: int| i <= j < n ==> items@[j] == orig[j],
    {
        let it = items[i];
        items.set(i, Item { selected: None, ..it });
    }
    assert(items@ =~= orig.map_values(|it: Item| deselect(it)));
}

/// Selects exactly the items whose boxes overlap `r`, each resting where it
/// stands.
fn sweep_all(items: &mut Vec<Item>, r: Rect)
    requires
        forall|i: int| 0 <= i < old(items)@.len() ==> (#[trigger] old(items)@[i]).wf(),
    ensures
        final(items)@ == old(items)@.map_values(|it: Item| sweep(it, r)),
{
    let ghost orig = items@;
    let n = items.len();
    for i in 0..n
        invariant
            n == items@.len(),
            orig.len() == n,
            forall|j: int| 0 <= j < n ==> (#[trigger] orig[j]).wf(),
            forall|j: int| 0 <= j < i ==> items@[j] == sweep(orig[j], r),
            forall|j: int| i <= j < n ==> items@[j] == orig[j],
    {
        let it = items[i];
        let b = it.rect();
        if r.intersect(&b).is_empty() {
            items.set(i, Item { selected: None, ..it });
        } else {
            items.set(i, Item { selected: Some(Selected::new(it.position)), ..it });
        }
    }
    assert(items@ =~= orig.map_values(|it: Item| sweep(it, r)));
}

/// Every selected item takes where it stands as where it rests.
fn settle_all(items: &mut Vec<Item>)
    ensures
        final(items)@ == old(items)@.map_values(|it: Item| settle(it)),
{
    let ghost orig = items@;
    let n = items.len();
    for i in 0..n
        invariant
            n == items@.len(),
            orig.len() == n,
            forall|j: int| 0 <= j < i ==> items@[j] == settle(orig[j]),
            forall|j: int| i <= j < n ==> items@[j] == orig[j],
    {
        let it = items[i];
        if it.selected.is_some() {
            items.set(i, Item { selected: Some(Selected::new(it.position)), ..it });
        }
    }
    assert(items@ =~= orig.map_values(|it: Item| settle(it)));
}

/// Moves every selected item to where it rested plus `d`.
fn drag_all(items: &mut Vec<Item>, d: Vec2)
    requires
        forall|i: int|
            0 <= i < old(items)@.len() && (#[trigger] old(items)@[i]).selected is Some ==> {
                let s = old(items)@[i].selected.unwrap().start_position;
                &&& in_range(s.x + d.x)
                &&& in_range(s.y + d.y)
            },
    ensures
        final(items)@ == old(items)@.map_values(|it: Item| drag(it, d)),
{
    let ghost orig = items@;
    let n = items.len();
    for i in 0..n
        invariant
            n == items@.len(),
            orig.len() == n,
            forall|j: int|
                0 <= j < n && (#[trigger] orig[j]).selected is Some ==> {
                    let s = orig[j].selected.unwrap().start_position;
                    &&& in_range(s.x + d.x)
                    &&& in_range(s.y + d.y)
                },
            forall|j: int| 0 <= j < i ==> items@[j] == drag(orig[j], d),
            forall|j: int| i <= j < n ==> items@[j] == orig[j],
    {
        let it = items[i];
        match it.selected {
            Some(s) => {
                items.set(i, Item { position: s.start_position.plus(d), ..it });
            },
            None => {},
        }
    }
    assert(items@ =~= orig.map_values(|it: Item| drag(it, d)));
}

impl Board {
    /// An empty canvas, the pointer at the origin and the button up.
    pub fn new() -> (r: Board)
        ensures
            r@.wf(),
            r@.items.len() == 0,
            r@.counter == 0,
            r@.next_id == 0,
            r@.cursor == (CursorCoords { current: Vec2 { x: 0, y: 0 }, hold_start: None }),
            r@.selection_box is None,
            r@.selected_rect is None,
    {
        let r = Board {
            items: Vec::new(),
            cursor: CursorCoords::new(),
            counter: ItemCounter::new(),
            selection_box: None,
            selected_rect: None,
            next_id: 0,
        };
        assert(selected_bounds(r.items@) =~= Seq::empty());
        r
    }

    /// Recomputes the group rectangle from the selection: it appears when
    /// something becomes selected, follows every change, and goes when the
    /// selection empties.
    fn update_selected_rect(&mut self)
        requires
            forall|i: int| 0 <= i < old(self).items@.len() ==> (#[trigger] old(self).items@[i]).wf(),
        ensures
            final(self)@ == (BoardView { selected_rect: group_rect(old(self).items@), ..old(self)@ }),
    {
        self.selected_rect = get_surrounding_rect(&self.items);
    }

    /// Closes the rubber-band box, if one is open.
    fn end_selection_box(&mut self)
        ensures
            final(self)@ == (BoardView { selection_box: None, ..old(self)@ }),
    {
        self.selection_box = None;
    }

    /// The primary button goes up: the rubber-band box closes, and what was
    /// dragged now rests where it was left.
    pub fn release(&mut self)
        requires
            old(self)@.wf(),
        ensures
            final(self)@ == old(self)@.released(),
            final(self)@.wf(),
    {
        let ghost s = self@;
        self.end_selection_box();
        settle_all(&mut self.items);
        assert forall|i: int| 0 <= i < self.items@.len() implies (#[trigger] self.items@[i]).wf()
            && self.items@[i].id == s.items[i].id && self.items@[i].z == s.items[i].z by {
            assert(s.items[i].wf());
        }
        self.update_selected_rect();
        self.cursor.hold_start = None;
        assert(self@ == s.released());
    }

    /// Places a new item from `bundle` centered at `position` and returns
    /// its id. It comes to the front, and the selection is cleared. Nothing
    /// changes, and `None` is returned, when its box would not lie on the
    /// canvas or the ids are used up.
    pub fn add_item(&mut self, bundle: ItemBundle, position: Vec2) -> (r: Option<u64>)
        requires
            old(self)@.wf(),
        ensures
            final(self)@.wf(),
            r is None <==> !(box_fits(position, bundle.half_extents) && old(self).next_id < u64::MAX),
            r is None ==> final(self)@ == old(self)@,
            r is Some ==> r.unwrap() == old(self).next_id && final(self)@ == old(self)@.added(
                bundle,
                position,
            ),
    {
        if !fits_on_canvas(position, bundle.half_extents) || self.next_id == u64::MAX {
            return None;
        }
        let ghost s = self@;
        self.clear_selected_on_insert();
        self.counter.increment();
        let id = self.next_id;
        let item = Item {
            id,
            kind: bundle.kind,
            position,
            half_extents: bundle.half_extents,
            z: self.counter.count(),
            selected: None,
        };
        self.items.push(item);
        self.next_id = self.next_id + 1;
        self.selected_rect = None;
        assert forall|i: int| 0 <= i < self.items@.len() implies (#[trigger] self.items@[i]).wf()
            && self.items@[i].selected is None && self.items@[i].id < self.next_id
            && self.items@[i].z <= self@.counter && (i < s.items.len() ==> self.items@[i].id
            == s.items[i].id) by {
            if i < s.items.len() {
                assert(s.items[i].wf());
            }
        }
        proof {
            lemma_group_rect_facts(self.items@);
        }
        assert(self@ == s.added(bundle, position));
        Some(id)
    }

    /// A new item clears the selection.
    fn clear_selected_on_insert(&mut self)
        ensures
            final(self)@ == (BoardView {
                items: old(self)@.items.map_values(|it: Item| deselect(it)),
                ..old(self)@
            }),
    {
        deselect_all(&mut self.items);
    }

    /// The primary button goes down at `position`; see
    /// [`BoardView::pressed`].
    pub fn press(&mut self, position: Vec2)
        requires
            old(self)@.wf(),
            position.in_canvas(),
        ensures
            final(self)@ == old(self)@.pressed(position),
            final(self)@.wf(),
    {
        if self.cursor.is_holding() {
            self.release();
        }
        self.select_entities(position);
    }

    /// A press while the button is up: picks what the press acts on.
    fn select_entities(&mut self, position: Vec2)
        requires
            old(self)@.wf(),
            position.in_canvas(),
            old(self).cursor.hold_start is None,
        ensures
            final(self)@ == old(self)@.pressed_fresh(position),
            final(self)@.wf(),
    {
        let ghost s = self@;
        self.cursor.current = position;
        self.cursor.hold_start = Some(position);
        let in_group = match self.selected_rect {
            Some(g) => g.initial_rect.contains(position),
            None => false,
        };
        match topmost_hit(&self.items, position) {
            Some(i) => {
                if self.items[i].selected.is_none() {
                    if !in_group {
                        deselect_all(&mut self.items);
                        self.counter.increment();
                    }
                    let it = self.items[i];
                    let z = if in_group {
                        it.z
                    } else {
                        self.counter.count()
                    };
                    self.items.set(i, Item { z, selected: Some(Selected::new(it.position)), ..it });
                    assert forall|j: int| 0 <= j < self.items@.len() implies (#[trigger] self.items@[j]).wf()
                        && self.items@[j].id == s.items[j].id && self.items@[j].z <= self@.counter by {
                        assert(s.items[j].wf());
                        assert(s.items[j].z <= s.counter);
                    }
                    self.update_selected_rect();
                    assert(self@ == s.pressed_fresh(position));
                }
            },
            None => {
                if !in_group {
                    deselect_all(&mut self.items);
                    self.start_selection_box(position);
                    self.selected_rect = None;
                    assert forall|j: int| 0 <= j < self.items@.len() implies (#[trigger] self.items@[j]).wf()
                        && self.items@[j].selected is None by {
                        assert(s.items[j].wf());
                    }
                    proof {
                        lemma_group_rect_facts(self.items@);
                    }
                    assert(self@ == s.pressed_fresh(position));
                }
            },
        }
    }

    /// Opens a rubber-band box of no area at `position`.
    fn start_selection_box(&mut self, position: Vec2)
        ensures
            final(self)@ == (BoardView {
                selection_box: Some(SelectionBox { start_position: position, end_position: position }),
                ..old(self)@
            }),
    {
        self.selection_box = Some(SelectionBox { start_position: position, end_position: position });
    }

    /// The pointer moves to `position` (the button held or not); see
    /// [`BoardView::moved`].
    pub fn move_pointer(&mut self, position: Vec2)
        requires
            old(self)@.wf(),
            position.in_canvas(),
        ensures
            final(self)@ == old(self)@.moved(position),
            final(self)@.wf(),
    {
        match self.selection_box {
            Some(b) => {
                self.size_selection_box(b, position);
            },
            None => {
                self.move_selected_entities(position);
            },
        }
    }

    /// Stretches the rubber-band box to `position` and selects exactly what
    /// it overlaps.
    fn size_selection_box(&mut self, b: SelectionBox, position: Vec2)
        requires
            old(self)@.wf(),
            position.in_canvas(),
            old(self).selection_box == Some(b),
        ensures
            final(self)@ == old(self)@.moved(position),
            final(self)@.wf(),
    {
        let ghost s = self@;
        self.cursor.current = position;
        let mut b = b;
        b.update(position);
        self.selection_box = Some(b);
        let r = b.rect();
        sweep_all(&mut self.items, r);
        assert forall|j: int| 0 <= j < self.items@.len() implies (#[trigger] self.items@[j]).wf()
            && self.items@[j].id == s.items[j].id && self.items@[j].z == s.items[j].z by {
            assert(s.items[j].wf());
        }
        self.update_selected_rect();
    }

    /// While dragging, moves the selection with the pointer from where it
    /// rested, keeping the group on the canvas.
    fn move_selected_entities(&mut self, position: Vec2)
        requires
            old(self)@.wf(),
            position.in_canvas(),
            old(self).selection_box is None,
        ensures
            final(self)@ == old(self)@.moved(position),
            final(self)@.wf(),
    {
        let ghost s = self@;
        self.cursor.current = position;
        match (self.cursor.hold_start, self.selected_rect) {
            (Some(h), Some(g)) => {
                if g.initial_rect.contains(h) {
                    proof {
                        lemma_group_rect_facts(self.items@);
                    }
                    let r = g.initial_rect;
                    let d0 = position.minus(h);
                    let lo_x = -CANVAS_LIMIT - r.min.x;
                    let hi_x = CANVAS_LIMIT - r.max.x;
                    let lo_y = -CANVAS_LIMIT - r.min.y;
                    let hi_y = CANVAS_LIMIT - r.max.y;
                    let dx = if d0.x < lo_x {
                        lo_x
                    } else if d0.x > hi_x {
                        hi_x
                    } else {
                        d0.x
                    };
                    let dy = if d0.y < lo_y {
                        lo_y
                    } else if d0.y > hi_y {
                        hi_y
                    } else {
                        d0.y
                    };
                    let d = Vec2::new(dx, dy);
                    assert(d == s.drag_offset(position));
                    assert forall|j: int|
                        0 <= j < self.items@.len() && (#[trigger] self.items@[j]).selected
                            is Some implies {
                        let st = self.items@[j].selected.unwrap().start_position;
                        &&& in_range(st.x + d.x)
                        &&& in_range(st.y + d.y)
                    } by {
                        assert(s.items[j].wf());
                    }
                    drag_all(&mut self.items, d);
                    assert forall|j: int| 0 <= j < self.items@.len() implies (
                    #[trigger] self.items@[j]).wf() && self.items@[j].id == s.items[j].id
                        && self.items@[j].z == s.items[j].z by {
                        assert(s.items[j].wf());
                    }
                    self.update_selected_rect();
                }
            },
            _ => {},
        }
    }

    /// Deletes the selected items and returns their ids, in order.
    pub fn delete_item(&mut self) -> (removed: Vec<u64>)
        requires
            old(self)@.wf(),
        ensures
            final(self)@ == old(self)@.deleted(),
            final(self)@.wf(),
            removed@ == selected_ids(old(self)@.items),
    {
        let ghost s = self@;
        let mut kept: Vec<Item> = Vec::new();
        let mut removed: Vec<u64> = Vec::new();
        let n = self.items.len();
        for i in 0..n
            invariant
                n == self.items@.len(),
                self@ == s,
                s.wf(),
                kept@ == unselected_items(s.items.take(i as int)),
                removed@ == selected_ids(s.items.take(i as int)),
                forall|a: int|
                    0 <= a < kept@.len() ==> {
                        &&& (#[trigger] kept@[a]).wf()
                        &&& kept@[a].id < s.next_id
                        &&& kept@[a].z <= s.counter
                        &&& kept@[a].selected is None
                    },
                forall|a: int, b: int| 0 <= a < b < kept@.len() ==> kept@[a].id < kept@[b].id,
                forall|a: int, k: int|
                    0 <= a < kept@.len() && i <= k < n ==> kept@[a].id < s.items[k].id,
        {
            let ghost pre = s.items.take(i as int);
            let ghost post = s.items.take(i + 1);
            assert(post.drop_last() =~= pre);
            assert(post.last() == s.items[i as int]);
            let it = self.items[i];
            assert(s.items[i as int].wf());
            if it.selected.is_none() {
                kept.push(it);
            } else {
                removed.push(it.id);
            }
        }
        assert(s.items.take(n as int) =~= s.items);
        self.items = kept;
        self.selected_rect = None;
        proof {
            lemma_group_rect_facts(self.items@);
        }
        removed
    }

    /// Gives the item `id` new half extents, as when a text box's text is
    /// laid out anew. Returns whether it did: nothing changes when no item
    /// has that id or its box would leave the canvas.
    pub fn set_half_extents(&mut self, id: u64, half_extents: Vec2) -> (r: bool)
        requires
            old(self)@.wf(),
        ensures
            final(self)@.wf(),
            r <==> exists|k: int|
                0 <= k < old(self)@.items.len() && (#[trigger] old(self)@.items[k]).id == id
                    && old(self)@.resizable(k, half_extents),
            r ==> exists|k: int|
                0 <= k < old(self)@.items.len() && (#[trigger] old(self)@.items[k]).id == id
                    && final(self)@ == old(self)@.resized(k, half_extents),
            !r ==> final(self)@ == old(self)@,
    {
        let ghost s = self@;
        let n = self.items.len();
        let mut i: usize = 0;
        while i < n
            invariant
                n == self.items@.len(),
                self@ == s,
                s == old(self)@,
                s.wf(),
                0 <= i <= n,
                forall|k: int| 0 <= k < i ==> (#[trigger] s.items[k]).id != id,
            decreases n - i,
        {
            if self.items[i].id == id {
                let it = self.items[i];
                let fits_here = fits_on_canvas(it.position, half_extents);
                let fits_rest = match it.selected {
                    Some(sel) => fits_on_canvas(sel.start_position, half_extents),
                    None => true,
                };
                proof {
                    assert forall|k: int|
                        0 <= k < s.items.len() && (#[trigger] s.items[k]).id == id implies k
                        == i as int by {
                        if k < i as int {
                        } else if k > i as int {
                            assert(s.items[i as int].id < s.items[k].id);
                        }
                    }
                }
                if !(fits_here && fits_rest) {
                    return false;
                }
                self.items.set(i, Item { half_extents, ..it });
                assert forall|j: int| 0 <= j < self.items@.len() implies (#[trigger] self.items@[j]).wf()
                    && self.items@[j].id == s.items[j].id && self.items@[j].z == s.items[j].z by {
                    assert(s.items[j].wf());
                }
                self.update_selected_rect();
                assert(self@ == s.resized(i as int, half_extents));
                return true;
            }
            i = i + 1;
        }
        false
    }

    /// Carries out an add command: places the item it asks for at the
    /// origin; see [`Board::add_item`].
    pub fn add_requested_item(&mut self, event: &AddItemEvent) -> (r: Option<u64>)
        requires
            old(self)@.wf(),
        ensures
            final(self)@.wf(),
            spec_bundle_for(*event) is None ==> r is None && final(self)@ == old(self)@,
            spec_bundle_for(*event) is Some ==> {
                let b = spec_bundle_for(*event).unwrap();
                let origin = Vec2 { x: 0, y: 0 };
                &&& r is None <==> !(box_fits(origin, b.half_extents) && old(self).next_id < u64::MAX)
                &&& r is None ==> final(self)@ == old(self)@
                &&& r is Some ==> r.unwrap() == old(self).next_id && final(self)@ == old(self)@.added(b, origin)
            },
    {
        match bundle_for(event) {
            Some(b) => self.add_item(b, Vec2::zero()),
            None => None,
        }
    }
}

/// With nothing selected there is nothing to bound.
proof fn lemma_none_selected(items: Seq<Item>)
    requires
        forall|i: int| 0 <= i < items.len() ==> (#[trigger] items[i]).selected is None,
    ensures
        selected_bounds(items) == Seq::<Rect>::empty(),
        selected_rest_bounds(items) == Seq::<Rect>::empty(),
        group_rect(items) is None,
        items.map_values(|it: Item| settle(it)) == items,
    decreases items.len(),
{
    if items.len() > 0 {
        let init = items.drop_last();
        assert forall|i: int| 0 <= i < init.len() implies (#[trigger] init[i]).selected
            is None by {
            assert(init[i] == items[i]);
        }
        lemma_none_selected(init);
        assert(items.last() == items[items.len() - 1]);
    }
    assert(items.map_values(|it: Item| settle(it)) =~= items);
}

/// The group rectangle is always exactly the min/max union of the selected
/// items' boxes where they are now, and its resting rectangle that of where
/// they rested; it exists exactly when something is selected. Every
/// transition of the board keeps this invariant, so it holds after each
/// change of the selection.
pub proof fn lemma_group_rect_is_union(s: BoardView)
    requires
        s.wf(),
    ensures
        s.selected_rect is Some <==> some_selected(s.items),
        s.selected_rect is Some ==> is_exact_bound(s.selected_rect.unwrap().rect, selected_bounds(s.items)),
        s.selected_rect is Some ==> is_exact_bound(
            s.selected_rect.unwrap().initial_rect,
            selected_rest_bounds(s.items),
        ),
{
    lemma_group_rect_facts(s.items);
}

/// While a rubber-band box is open, each move of the pointer decides every
/// item's selection afresh from the box alone: an item swept in, then out,
/// then in again is selected, not selected, and selected again, within the
/// one gesture.
pub proof fn lemma_sweep_is_live(s: BoardView, p1: Vec2, p2: Vec2, p3: Vec2, k: int)
    requires
        s.selection_box is Some,
        0 <= k < s.items.len(),
    ensures
        ({
            let start = s.selection_box.unwrap().start_position;
            let b1 = SelectionBox { start_position: start, end_position: p1 };
            let b2 = SelectionBox { start_position: start, end_position: p2 };
            let b3 = SelectionBox { start_position: start, end_position: p3 };
            let s1 = s.moved(p1);
            let s2 = s1.moved(p2);
            let s3 = s2.moved(p3);
            &&& s3.selection_box == Some(b3)
            &&& s3.items.len() == s.items.len()
            &&& s3.items[k].bounds() == s.items[k].bounds()
            &&& (s1.items[k].selected is Some <==> b1.spec_rect().overlaps(s.items[k].bounds()))
            &&& (s2.items[k].selected is Some <==> b2.spec_rect().overlaps(s.items[k].bounds()))
            &&& (s3.items[k].selected is Some <==> b3.spec_rect().overlaps(s.items[k].bounds()))
        }),
{
    let s1 = s.moved(p1);
    let s2 = s1.moved(p2);
    assert(s1.items[k] == sweep(s.items[k], s1.selection_box.unwrap().spec_rect()));
    assert(s2.items[k] == sweep(s1.items[k], s2.selection_box.unwrap().spec_rect()));
}

/// What a press changes: positions never, and the selected items stay
/// resting where they stand; the group rectangle still bounds the selection.
proof fn lemma_fresh_press_keeps_rest(s: BoardView, p: Vec2)
    requires
        forall|i: int| 0 <= i < s.items.len() ==> (#[trigger] s.items[i]).wf(),
        forall|i: int|
            0 <= i < s.items.len() && (#[trigger] s.items[i]).selected is Some
                ==> s.items[i].selected.unwrap().start_position == s.items[i].position,
        s.selected_rect == group_rect(s.items),
    ensures
        ({
            let t = s.pressed_fresh(p);
            &&& t.items.len() == s.items.len()
            &&& forall|i: int| 0 <= i < t.items.len() ==> (#[trigger] t.items[i]).wf()
            &&& forall|i: int|
                0 <= i < t.items.len() ==> (#[trigger] t.items[i]).position == s.items[i].position
            &&& forall|i: int|
                0 <= i < t.items.len() && (#[trigger] t.items[i]).selected is Some
                    ==> t.items[i].selected.unwrap().start_position == t.items[i].position
            &&& t.selected_rect == group_rect(t.items)
            &&& t.cursor.hold_start == Some(p)
        }),
{
    let t = s.pressed_fresh(p);
    assert forall|i: int| 0 <= i < t.items.len() implies (#[trigger] t.items[i]).wf()
        && t.items[i].position == s.items[i].position && (t.items[i].selected is Some
        ==> t.items[i].selected.unwrap().start_position == t.items[i].position) by {
        assert(s.items[i].wf());
    }
    let in_group = s.selected_rect is Some && s.selected_rect.unwrap().initial_rect.spec_contains(p);
    if topmost(s.items, p) is None && !in_group {
        assert forall|i: int| 0 <= i < t.items.len() implies (#[trigger] t.items[i]).selected
            is None by {}
        lemma_none_selected(t.items);
    }
}

/// Releasing commits a drag: pressing again anywhere and not moving the
/// pointer leaves every item exactly where the release left it, with no
/// drift from an outdated resting place.
pub proof fn lemma_commit_sets_baseline(t: BoardView, q: Vec2)
    requires
        t.wf(),
        q.in_canvas(),
    ensures
        ({
            let s1 = t.released();
            let s3 = s1.pressed(q).moved(q);
            &&& s3.items.len() == s1.items.len()
            &&& forall|k: int|
                0 <= k < s3.items.len() ==> (#[trigger] s3.items[k]).position == s1.items[k].position
        }),
{
    let s1 = t.released();
    assert forall|i: int| 0 <= i < s1.items.len() implies (#[trigger] s1.items[i]).wf() && (
    s1.items[i].selected is Some ==> s1.items[i].selected.unwrap().start_position
        == s1.items[i].position) by {
        assert(t.items[i].wf());
    }
    lemma_fresh_press_keeps_rest(s1, q);
    let s2 = s1.pressed(q);
    let s3 = s2.moved(q);
    if s2.selection_box is None && s2.dragging() {
        lemma_group_rect_facts(s2.items);
        let d = s2.drag_offset(q);
        assert(d == Vec2 { x: 0, y: 0 });
        assert forall|k: int| 0 <= k < s3.items.len() implies (#[trigger] s3.items[k]).position
            == s1.items[k].position by {
            assert(s3.items[k] == drag(s2.items[k], d));
        }
    } else if s2.selection_box is Some {
        assert forall|k: int| 0 <= k < s3.items.len() implies (#[trigger] s3.items[k]).position
            == s1.items[k].position by {
            assert(s3.items[k] == sweep(s2.items[k], s3.selection_box.unwrap().spec_rect()));
        }
    }
}

/// Items placed one after another are stacked in that order; clicking the
/// first of them afterwards, where nothing covers it, brings it above the
/// last.
pub proof fn lemma_click_brings_to_front(
    s: BoardView,
    a: ItemBundle,
    pa: Vec2,
    b: ItemBundle,
    pb: Vec2,
    c: ItemBundle,
    pc: Vec2,
    q: Vec2,
)
    requires
        s.counter + 4 <= u64::MAX,
        topmost(s.added(a, pa).added(b, pb).added(c, pc).items, q) == Some(s.items.len() as int),
    ensures
        ({
            let s3 = s.added(a, pa).added(b, pb).added(c, pc);
            let n = s.items.len() as int;
            let s4 = s3.pressed(q);
            &&& s3.items[n].z < s3.items[n + 1].z
            &&& s3.items[n + 1].z < s3.items[n + 2].z
            &&& s4.items[n].z > s4.items[n + 2].z
        }),
{
    let s1 = s.added(a, pa);
    let s2 = s1.added(b, pb);
    let s3 = s2.added(c, pc);
    let n = s.items.len() as int;
    assert(s1.items[n].z == s.counter + 1);
    assert(s2.items[n].z == s.counter + 1);
    assert(s2.items[n + 1].z == s.counter + 2);
    assert(s3.items[n].z == s.counter + 1);
    assert(s3.items[n + 1].z == s.counter + 2);
    assert(s3.items[n + 2].z == s.counter + 3);
    assert forall|i: int| 0 <= i < s3.items.len() implies (#[trigger] s3.items[i]).selected
        is None by {
        if i < s2.items.len() {
            assert(s3.items[i] == deselect(s2.items[i]));
        }
    }
    lemma_none_selected(s3.items);
    let r = if s3.cursor.hold_start is Some {
        s3.released()
    } else {
        s3
    };
    assert(r.items == s3.items);
    assert(r.selected_rect is None);
    let s4 = s3.pressed(q);
    assert(s4 == r.pressed_fresh(q));
    assert(s4.items[n].z == s.counter + 4);
    assert(s4.items[n + 2] == deselect(s3.items[n + 2]));
}

} // verus!