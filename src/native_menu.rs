use vstd::prelude::*;

use crate::error::Error;
use crate::menu::{item_slots, slots_from, MenuBuilder, MenuItem};

verus! {

/// One past the largest command id.
pub const ID_LIMIT: usize = 65536;

/// `b` holds what `a` holds, its event cloned.
pub open spec fn slot_clone<T: Clone>(a: Option<T>, b: Option<T>) -> bool {
    match (a, b) {
        (None, None) => true,
        (Some(x), Some(y)) => cloned(x, y),
        _ => false,
    }
}

/// `b` is `a` slot by slot, each event cloned.
pub open spec fn slots_cloned<T: Clone>(a: Seq<Option<T>>, b: Seq<Option<T>>) -> bool {
    &&& a.len() == b.len()
    &&& forall|k: int| 0 <= k < a.len() ==> #[trigger] slot_clone(a[k], b[k])
}

/// The lookup table of a built menu: the item in slot `k` (see
/// `MenuBuilder::slots`) has the command id `first_id + k`.
pub struct NativeMenu<T> {
    pub first_id: usize,
    pub slots: Vec<Option<T>>,
}

impl<T> NativeMenu<T> {
    /// Every id of the table is a command id: above zero, and within the
    /// low word that a command carries.
    pub open spec fn wf(&self) -> bool {
        1 <= self.first_id && self.first_id + self.slots@.len() <= ID_LIMIT
    }

    /// The event that the command id `id` stands for, if any.
    pub open spec fn event_of(&self, id: int) -> Option<T> {
        if self.first_id <= id < self.first_id + self.slots@.len() {
            self.slots@[id - self.first_id]
        } else {
            None
        }
    }

    /// The event of the command id `id`; nothing for an id that is not in
    /// this menu or that stands for a separator or a submenu.
    pub fn lookup(&self, id: usize) -> (r: Option<&T>)
        requires
            self.wf(),
        ensures
            r is Some <==> self.event_of(id as int) is Some,
            r matches Some(e) ==> self.event_of(id as int) == Some(*e),
    {
        if id < self.first_id || id - self.first_id >= self.slots.len() {
            return None;
        }
        match &self.slots[id - self.first_id] {
            Some(e) => Some(e),
            None => None,
        }
    }
}

/// Appends to `out` the slots of `items`, each event cloned.
fn push_slots<T: Clone>(items: &Vec<MenuItem<T>>, out: &mut Vec<Option<T>>)
    ensures
        final(out)@.len() == old(out)@.len() + slots_from(items@, 0).len(),
        final(out)@.subrange(0, old(out)@.len() as int) == old(out)@,
        slots_cloned(
            slots_from(items@, 0),
            final(out)@.subrange(old(out)@.len() as int, final(out)@.len() as int),
        ),
    decreases items@,
{
    let ghost start = out@.len();
    let ghost done: Seq<Option<T>> = Seq::empty();
    let mut i: usize = 0;
    while i < items.len()
        invariant
            0 <= i <= items@.len(),
            start <= out@.len(),
            out@.subrange(0, start as int) == old(out)@,
            old(out)@.len() == start,
            slots_from(items@, 0) == done + slots_from(items@, i as int),
            slots_cloned(done, out@.subrange(start as int, out@.len() as int)),
        decreases items@.len() - i,
    {
        let ghost before = out@;
        proof {
            assert(slots_from(items@, i as int) == item_slots(items@[i as int]) + slots_from(
                items@,
                i + 1,
            ));
        }
        match &items[i] {
            MenuItem::Separator => {
                out.push(None);
            },
            MenuItem::Item { event, .. } => {
                out.push(Some(event.clone()));
            },
            MenuItem::CheckableItem { event, .. } => {
                out.push(Some(event.clone()));
            },
            MenuItem::ChildMenu { children, .. } => {
                out.push(None);
                let ghost mid = out@;
                proof {
                    assert(decreases_to!(items@ => items@[i as int]));
                }
                push_slots(&children.menu_items, out);
                proof {
                    let inner = slots_from(children.menu_items@, 0);
                    let tail = out@.subrange(before.len() as int, out@.len() as int);
                    let added = item_slots(items@[i as int]);
                    assert(added == seq![None] + inner);
                    assert(out@.subrange(0, mid.len() as int) == mid);
                    assert(out@[before.len() as int] == mid[before.len() as int]);
                    assert forall|k: int| 0 <= k < added.len() implies #[trigger] slot_clone(
                        added[k],
                        tail[k],
                    ) by {
                        if k > 0 {
                            assert(added[k] == inner[k - 1]);
                            assert(tail[k] == out@.subrange(mid.len() as int, out@.len() as int)[k
                                - 1]);
                        } else {
                            assert(tail[0] == out@[before.len() as int]);
                        }
                    }
                    assert(out@.subrange(0, before.len() as int) =~= mid.subrange(
                        0,
                        before.len() as int,
                    ));
                }
            },
        }
        proof {
            let added = item_slots(items@[i as int]);
            let tail = out@.subrange(before.len() as int, out@.len() as int);
            assert(out@.len() == before.len() + added.len());
            assert(out@.subrange(0, before.len() as int) =~= before);
            assert(slots_cloned(added, tail)) by {
                match items@[i as int] {
                    MenuItem::ChildMenu { .. } => {},
                    _ => {
                        assert(tail[0] == out@[before.len() as int]);
                    },
                }
            }
            assert(out@.subrange(start as int, out@.len() as int) =~= before.subrange(
                start as int,
                before.len() as int,
            ) + tail);
            assert(out@.subrange(0, start as int) =~= before.subrange(0, start as int));
            let d2 = done + added;
            assert(slots_from(items@, 0) =~= d2 + slots_from(items@, i + 1));
            assert forall|k: int| 0 <= k < d2.len() implies #[trigger] slot_clone(
                d2[k],
                out@.subrange(start as int, out@.len() as int)[k],
            ) by {
                if k < done.len() {
                    assert(slot_clone(done[k], before.subrange(start as int, before.len() as int)[k]));
                } else {
                    assert(slot_clone(added[k - done.len()], tail[k - done.len()]));
                }
            }
            done = d2;
        }
        i = i + 1;
    }
    proof {
        assert(slots_from(items@, i as int) == Seq::<Option<T>>::empty());
        assert(done =~= slots_from(items@, 0));
    }
}

impl<T: Clone> MenuBuilder<T> {
    /// Builds the command table of this menu, its ids counted from `first_id`.
    /// A menu without items gives no table: it shows no menu at all. When the
    /// ids would not all be command ids, the build fails with `OsError`.
    pub fn build(&self, first_id: usize) -> (r: Result<Option<NativeMenu<T>>, Error>)
        ensures
            r is Err <==> (self.menu_items@.len() > 0 && !(1 <= first_id && first_id
                + self.slots().len() <= ID_LIMIT)),
            r is Err ==> r == Err::<Option<NativeMenu<T>>, Error>(Error::OsError),
            r matches Ok(o) ==> (o is None <==> self.menu_items@.len() == 0),
            r matches Ok(Some(m)) ==> m.first_id == first_id && m.wf() && slots_cloned(
                self.slots(),
                m.slots@,
            ),
    {
        if self.menu_items.len() == 0 {
            return Ok(None);
        }
        let mut slots: Vec<Option<T>> = Vec::new();
        push_slots(&self.menu_items, &mut slots);
        proof {
            assert(slots@.subrange(0, slots@.len() as int) =~= slots@);
        }
        if first_id < 1 || first_id > ID_LIMIT || slots.len() > ID_LIMIT - first_id {
            return Err(Error::OsError);
        }
        Ok(Some(NativeMenu { first_id, slots }))
    }
}

/// Building one menu twice, from any two first ids, gives tables that agree
/// item by item: the id of each item, counted from that build's first id,
/// maps back to (a clone of) the event of that item, the same item in both,
/// and no id outside the menu's range maps to an event.
pub proof fn lemma_builds_agree<T: Clone>(
    model: MenuBuilder<T>,
    first: NativeMenu<T>,
    second: NativeMenu<T>,
)
    requires
        first.wf(),
        second.wf(),
        slots_cloned(model.slots(), first.slots@),
        slots_cloned(model.slots(), second.slots@),
    ensures
        forall|k: int|
            0 <= k < model.slots().len() ==> {
                &&& slot_clone(model.slots()[k], #[trigger] first.event_of(first.first_id + k))
                &&& slot_clone(model.slots()[k], second.event_of(second.first_id + k))
                &&& (first.event_of(first.first_id + k) is Some <==> second.event_of(
                    second.first_id + k,
                ) is Some)
            },
        forall|id: int|
            !(first.first_id <= id < first.first_id + model.slots().len()) ==> (
            #[trigger] first.event_of(id)) is None,
{
    assert forall|k: int| 0 <= k < model.slots().len() implies {
        &&& slot_clone(model.slots()[k], #[trigger] first.event_of(first.first_id + k))
        &&& slot_clone(model.slots()[k], second.event_of(second.first_id + k))
        &&& (first.event_of(first.first_id + k) is Some <==> second.event_of(
            second.first_id + k,
        ) is Some)
    } by {
        assert(slot_clone(model.slots()[k], first.slots@[k]));
        assert(slot_clone(model.slots()[k], second.slots@[k]));
    }
}

/// An item that gives an event: neither a separator nor a submenu.
pub open spec fn is_leaf<T>(item: MenuItem<T>) -> bool {
    item is Item || item is CheckableItem
}

proof fn lemma_leaf_slots<T>(items: Seq<MenuItem<T>>, i: int)
    requires
        0 <= i <= items.len(),
        forall|j: int| 0 <= j < items.len() ==> is_leaf(#[trigger] items[j]),
    ensures
        slots_from(items, i).len() == items.len() - i,
        forall|k: int| 0 <= k < items.len() - i ==> (#[trigger] slots_from(items, i)[k]) is Some,
    decreases items.len() - i,
{
    if i < items.len() {
        lemma_leaf_slots(items, i + 1);
        assert(is_leaf(items[i]));
        let head = item_slots(items[i]);
        assert(head.len() == 1 && head[0] is Some);
        assert forall|k: int| 0 <= k < items.len() - i implies (#[trigger] slots_from(
            items,
            i,
        )[k]) is Some by {
            if k > 0 {
                assert(slots_from(items, i)[k] == slots_from(items, i + 1)[k - 1]);
            }
        }
    }
}

/// A submenu of `n` clickable items takes `n + 1` command ids: the first for
/// the submenu itself, which maps to no event, and one for each item, which
/// maps to that item's event.
pub proof fn lemma_child_menu_ids<T>(item: MenuItem<T>)
    requires
        item matches MenuItem::ChildMenu { children, .. } && forall|j: int|
            0 <= j < children.menu_items@.len() ==> is_leaf(#[trigger] children.menu_items@[j]),
    ensures
        item matches MenuItem::ChildMenu { children, .. } && {
            &&& item_slots(item).len() == children.menu_items@.len() + 1
            &&& item_slots(item)[0] is None
            &&& forall|k: int|
                1 <= k <= children.menu_items@.len() ==> (#[trigger] item_slots(item)[k]) is Some
        },
{
    match item {
        MenuItem::ChildMenu { children, .. } => {
            lemma_leaf_slots(children.menu_items@, 0);
            let inner = slots_from(children.menu_items@, 0);
            assert forall|k: int| 1 <= k <= children.menu_items@.len() implies (
            #[trigger] item_slots(item)[k]) is Some by {
                assert(item_slots(item)[k] == inner[k - 1]);
            }
        },
        _ => {},
    }
}

proof fn lemma_slots_suffix<T>(items: Seq<MenuItem<T>>, i: int, j: int)
    requires
        0 <= i <= j <= items.len(),
    ensures
        slots_from(items, j).len() <= slots_from(items, i).len(),
        slots_from(items, i).subrange(
            slots_from(items, i).len() - slots_from(items, j).len(),
            slots_from(items, i).len() as int,
        ) == slots_from(items, j),
    decreases j - i,
{
    if i < j {
        lemma_slots_suffix(items, i + 1, j);
        let a = slots_from(items, i);
        let b = slots_from(items, i + 1);
        let c = slots_from(items, j);
        assert(a == item_slots(items[i]) + b);
        assert(a.subrange(a.len() - c.len(), a.len() as int) =~= b.subrange(
            b.len() - c.len(),
            b.len() as int,
        ));
    } else {
        let a = slots_from(items, i);
        assert(a.subrange(0, a.len() as int) =~= a);
    }
}

/// The first command id of the item `items[j]` of a menu, counted from the
/// menu's first id: the number of ids its earlier items (and what is under
/// them) take.
pub open spec fn offset_of<T>(model: MenuBuilder<T>, j: int) -> int {
    model.slots().len() - slots_from(model.menu_items@, j).len()
}

/// In a built menu, a submenu of `n` clickable items that stands at
/// position `j` takes the `n + 1` ids from `first_id + offset_of(model, j)`
/// on: the first maps to no event, each of the others to (a clone of) the
/// event of that item of the submenu.
pub proof fn lemma_child_menu_ids_in_table<T: Clone>(model: MenuBuilder<T>, table: NativeMenu<T>, j: int)
    requires
        table.wf(),
        slots_cloned(model.slots(), table.slots@),
        0 <= j < model.menu_items@.len(),
        model.menu_items@[j] matches MenuItem::ChildMenu { children, .. } && forall|q: int|
            0 <= q < children.menu_items@.len() ==> is_leaf(#[trigger] children.menu_items@[q]),
    ensures
        model.menu_items@[j] matches MenuItem::ChildMenu { children, .. } && {
            let base = table.first_id + offset_of(model, j);
            &&& table.event_of(base) is None
            &&& forall|k: int|
                1 <= k <= children.menu_items@.len() ==> {
                    &&& (#[trigger] table.event_of(base + k)) is Some
                    &&& slot_clone(
                        item_slots(children.menu_items@[k - 1]).first(),
                        table.event_of(base + k),
                    )
                }
        },
{
    let items = model.menu_items@;
    lemma_slots_suffix(items, 0, j);
    lemma_child_menu_ids(items[j]);
    let all = model.slots();
    let off = offset_of(model, j);
    let tail = slots_from(items, j);
    assert(tail == item_slots(items[j]) + slots_from(items, j + 1));
    assert forall|k: int| 0 <= k < item_slots(items[j]).len() implies all[off + k] == #[trigger] item_slots(
        items[j],
    )[k] by {
        assert(all.subrange(off, all.len() as int)[k] == tail[k]);
    }
    match items[j] {
        MenuItem::ChildMenu { children, .. } => {
            let base = table.first_id + off;
            let inner = slots_from(children.menu_items@, 0);
            assert(item_slots(items[j]) == seq![None] + inner);
            assert(all[off + 0] == item_slots(items[j])[0]);
            assert(slot_clone(all[off], table.slots@[off]));
            assert(table.event_of(base) == table.slots@[off]);
            assert forall|k: int| 1 <= k <= children.menu_items@.len() implies {
                &&& (#[trigger] table.event_of(base + k)) is Some
                &&& slot_clone(
                    item_slots(children.menu_items@[k - 1]).first(),
                    table.event_of(base + k),
                )
            } by {
                lemma_leaf_slots(children.menu_items@, 0);
                lemma_leaf_slots(children.menu_items@, k);
                assert(all[off + k] == item_slots(items[j])[k]);
                assert(item_slots(items[j])[k] == inner[k - 1]);
                assert(inner == item_slots(children.menu_items@[0]) + slots_from(children.menu_items@, 1));
                lemma_nth_leaf(children.menu_items@, 0, k - 1);
                assert(slot_clone(all[off + k], table.slots@[off + k]));
                assert(table.event_of(base + k) == table.slots@[off + k]);
            }
        },
        _ => {},
    }
}

proof fn lemma_nth_leaf<T>(items: Seq<MenuItem<T>>, i: int, k: int)
    requires
        0 <= i <= items.len(),
        0 <= k < items.len() - i,
        forall|q: int| 0 <= q < items.len() ==> is_leaf(#[trigger] items[q]),
    ensures
        slots_from(items, i)[k] == item_slots(items[i + k]).first(),
    decreases k,
{
    assert(is_leaf(items[i]));
    assert(item_slots(items[i]).len() == 1);
    assert(slots_from(items, i) == item_slots(items[i]) + slots_from(items, i + 1));
    lemma_leaf_slots(items, i + 1);
    if k > 0 {
        lemma_nth_leaf(items, i + 1, k - 1);
        assert(slots_from(items, i)[k] == slots_from(items, i + 1)[k - 1]);
    }
}

} // verus!
