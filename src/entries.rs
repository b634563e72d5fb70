use vstd::prelude::*;

use crate::menu::{item_slots, slots_from, MenuBuilder, MenuItem};

verus! {

/// What a native menu entry is.
#[derive(Debug, Clone, Copy, PartialEq, Eq, Structural)]
pub enum EntryKind {
    Separator,
    Item,
    Checkable { checked: bool },
    Submenu,
}

/// One entry of the native menu tree: its command id, the id of the
/// submenu it is in (none at the top level), what it is, its text and
/// whether it is greyed out.
pub struct NativeEntry {
    pub id: usize,
    pub parent: Option<usize>,
    pub kind: EntryKind,
    pub name: Option<String>,
    pub disabled: bool,
}

/// The entries of `items[i..]`, in `parent`, the first with the id `id`:
/// each item in depth-first order, a submenu followed by its own items.
pub open spec fn entries_from<T>(items: Seq<MenuItem<T>>, i: int, parent: Option<usize>, id: int) -> Seq<
    NativeEntry,
>
    decreases items, items.len() - i,
{
    if 0 <= i < items.len() {
        item_entries(items[i], parent, id) + entries_from(
            items,
            i + 1,
            parent,
            id + item_slots(items[i]).len(),
        )
    } else {
        Seq::empty()
    }
}

/// The entries of one item with the id `id`, and of what is under it.
pub open spec fn item_entries<T>(item: MenuItem<T>, parent: Option<usize>, id: int) -> Seq<NativeEntry>
    decreases item,
{
    match item {
        MenuItem::Separator => seq![
            NativeEntry {
                id: id as usize,
                parent,
                kind: EntryKind::Separator,
                name: None,
                disabled: false,
            },
        ],
        MenuItem::Item { name, disabled, .. } => seq![
            NativeEntry { id: id as usize, parent, kind: EntryKind::Item, name: Some(name), disabled },
        ],
        MenuItem::CheckableItem { name, is_checked, disabled, .. } => seq![
            NativeEntry {
                id: id as usize,
                parent,
                kind: EntryKind::Checkable { checked: is_checked },
                name: Some(name),
                disabled,
            },
        ],
        MenuItem::ChildMenu { name, children, disabled, .. } => seq![
            NativeEntry {
                id: id as usize,
                parent,
                kind: EntryKind::Submenu,
                name: Some(name),
                disabled,
            },
        ] + entries_from(children.menu_items@, 0, Some(id as usize), id + 1),
    }
}

/// The entries line up with the slots: entry `k` has the id `id + k`, and it
/// gives an event exactly when slot `k` holds one.
pub open spec fn entries_match<T>(e: Seq<NativeEntry>, s: Seq<Option<T>>, id: int) -> bool {
    &&& e.len() == s.len()
    &&& forall|k: int|
        0 <= k < e.len() ==> (#[trigger] e[k]).id == id + k && ((e[k].kind is Item
            || e[k].kind is Checkable) <==> s[k] is Some)
}

proof fn lemma_concat_match<T>(
    e1: Seq<NativeEntry>,
    s1: Seq<Option<T>>,
    e2: Seq<NativeEntry>,
    s2: Seq<Option<T>>,
    id: int,
)
    requires
        entries_match(e1, s1, id),
        entries_match(e2, s2, id + s1.len()),
    ensures
        entries_match(e1 + e2, s1 + s2, id),
{
    assert forall|k: int| 0 <= k < (e1 + e2).len() implies (#[trigger] (e1 + e2)[k]).id == id + k
        && (((e1 + e2)[k].kind is Item || (e1 + e2)[k].kind is Checkable) <==> (s1 + s2)[k] is Some) by {
        if k >= e1.len() {
            assert(e2[k - e1.len()].id == id + s1.len() + (k - e1.len()));
        } else {
            assert(e1[k].id == id + k);
        }
    }
}

proof fn lemma_entries_match<T>(items: Seq<MenuItem<T>>, i: int, parent: Option<usize>, id: int)
    requires
        0 <= i <= items.len(),
        0 <= id,
        id + slots_from(items, i).len() <= usize::MAX,
    ensures
        entries_match(entries_from(items, i, parent, id), slots_from(items, i), id),
    decreases items, items.len() - i,
{
    if i < items.len() {
        let n = item_slots(items[i]).len();
        assert(slots_from(items, i) == item_slots(items[i]) + slots_from(items, i + 1));
        lemma_item_entries_match(items[i], parent, id);
        lemma_entries_match(items, i + 1, parent, id + n);
        lemma_concat_match(
            item_entries(items[i], parent, id),
            item_slots(items[i]),
            entries_from(items, i + 1, parent, id + n),
            slots_from(items, i + 1),
            id,
        );
    }
}

proof fn lemma_item_entries_match<T>(item: MenuItem<T>, parent: Option<usize>, id: int)
    requires
        0 <= id,
        id + item_slots(item).len() <= usize::MAX,
    ensures
        entries_match(item_entries(item, parent, id), item_slots(item), id),
    decreases item,
{
    match item {
        MenuItem::ChildMenu { name, children, disabled, .. } => {
            let head = seq![
                NativeEntry {
                    id: id as usize,
                    parent,
                    kind: EntryKind::Submenu,
                    name: Some(name),
                    disabled,
                },
            ];
            let s_head: Seq<Option<T>> = seq![None];
            assert(decreases_to!(item => children));
            lemma_entries_match(children.menu_items@, 0, Some(id as usize), id + 1);
            assert(entries_match(head, s_head, id));
            lemma_concat_match(
                head,
                s_head,
                entries_from(children.menu_items@, 0, Some(id as usize), id + 1),
                slots_from(children.menu_items@, 0),
                id,
            );
        },
        _ => {},
    }
}

/// Appends the entries of `items`, in `parent`, the first with the id
/// `first_id + old(out).len()`.
fn push_entries<T>(items: &Vec<MenuItem<T>>, parent: Option<usize>, first_id: usize, out: &mut Vec<NativeEntry>)
    requires
        first_id + old(out)@.len() + slots_from(items@, 0).len() <= usize::MAX,
    ensures
        final(out)@ == old(out)@ + entries_from(items@, 0, parent, first_id + old(out)@.len()),
    decreases items@,
{
    let ghost id0 = first_id + out@.len();
    let ghost start = out@;
    proof {
        lemma_entries_match(items@, 0, parent, id0);
    }
    let mut i: usize = 0;
    while i < items.len()
        invariant
            0 <= i <= items@.len(),
            id0 == first_id + start.len(),
            id0 + slots_from(items@, 0).len() <= usize::MAX,
            start.len() <= out@.len(),
            out@.subrange(0, start.len() as int) == start,
            slots_from(items@, 0).len() == (out@.len() - start.len()) + slots_from(items@, i as int).len(),
            entries_from(items@, 0, parent, id0) == out@.subrange(start.len() as int, out@.len() as int)
                + entries_from(items@, i as int, parent, first_id + out@.len()),
        decreases items@.len() - i,
    {
        let ghost before = out@;
        let ghost n = item_slots(items@[i as int]).len();
        proof {
            assert(slots_from(items@, i as int) == item_slots(items@[i as int]) + slots_from(items@, i + 1));
            lemma_item_entries_match(items@[i as int], parent, first_id + out@.len());
        }
        let id = first_id + out.len();
        match &items[i] {
            MenuItem::Separator => {
                out.push(NativeEntry { id, parent, kind: EntryKind::Separator, name: None, disabled: false });
            },
            MenuItem::Item { name, disabled, .. } => {
                out.push(NativeEntry { id, parent, kind: EntryKind::Item, name: Some(name.clone()), disabled: *disabled });
            },
            MenuItem::CheckableItem { name, is_checked, disabled, .. } => {
                out.push(NativeEntry {
                    id,
                    parent,
                    kind: EntryKind::Checkable { checked: *is_checked },
                    name: Some(name.clone()),
                    disabled: *disabled,
                });
            },
            MenuItem::ChildMenu { name, children, disabled, .. } => {
                out.push(NativeEntry { id, parent, kind: EntryKind::Submenu, name: Some(name.clone()), disabled: *disabled });
                proof {
                    assert(decreases_to!(items@ => items@[i as int]));
                }
                push_entries(&children.menu_items, Some(id), first_id, out);
            },
        }
        proof {
            let added = item_entries(items@[i as int], parent, first_id + before.len());
            assert(out@ =~= before + added);
            assert(out@.subrange(0, start.len() as int) =~= before.subrange(0, start.len() as int));
            assert(out@.subrange(start.len() as int, out@.len() as int) =~= before.subrange(
                start.len() as int,
                before.len() as int,
            ) + added);
            assert(first_id + out@.len() == first_id + before.len() + n);
        }
        i = i + 1;
    }
    proof {
        assert(out@ =~= start + out@.subrange(start.len() as int, out@.len() as int));
    }
}

impl<T> MenuBuilder<T> {
    /// The entries of the native menu tree, the first with the id
    /// `first_id`; their ids are those of the command table that
    /// `build(first_id)` gives.
    pub fn entries(&self, first_id: usize) -> (r: Vec<NativeEntry>)
        requires
            first_id + self.slots().len() <= usize::MAX,
        ensures
            r@ == entries_from(self.menu_items@, 0, None, first_id as int),
            entries_match(r@, self.slots(), first_id as int),
    {
        let mut out: Vec<NativeEntry> = Vec::new();
        push_entries(&self.menu_items, None, first_id, &mut out);
        proof {
            assert(out@ =~= entries_from(self.menu_items@, 0, None, first_id as int));
            lemma_entries_match(self.menu_items@, 0, None, first_id as int);
        }
        out
    }
}

} // verus!
