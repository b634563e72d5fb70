use vstd::prelude::*;

use vstd::std_specs::cmp::PartialEqSpec;

use crate::icon::Icon;

verus! {

/// One entry of a menu.
pub enum MenuItem<T> {
    Separator,
    Item { name: String, event: T, disabled: bool, icon: Option<Icon> },
    CheckableItem { name: String, is_checked: bool, event: T, disabled: bool, icon: Option<Icon> },
    ChildMenu { name: String, children: MenuBuilder<T>, disabled: bool, icon: Option<Icon> },
}

/// A menu: its items in display order.
pub struct MenuBuilder<T> {
    pub menu_items: Vec<MenuItem<T>>,
}

/// The events that the items from `items[i]` on give, one slot per item in
/// depth-first order: the event of a clickable item, nothing for a separator
/// or a submenu, whose own items follow it.
pub open spec fn slots_from<T>(items: Seq<MenuItem<T>>, i: int) -> Seq<Option<T>>
    decreases items, items.len() - i,
{
    if 0 <= i < items.len() {
        item_slots(items[i]) + slots_from(items, i + 1)
    } else {
        Seq::empty()
    }
}

/// The slots of one item and, for a submenu, of everything under it.
pub open spec fn item_slots<T>(item: MenuItem<T>) -> Seq<Option<T>>
    decreases item,
{
    match item {
        MenuItem::Separator => seq![None],
        MenuItem::Item { event, .. } => seq![Some(event)],
        MenuItem::CheckableItem { event, .. } => seq![Some(event)],
        MenuItem::ChildMenu { children, .. } => {
            seq![None] + slots_from(children.menu_items@, 0)
        },
    }
}

/// Two optional icons are the same: both absent, or made from one buffer.
pub open spec fn same_icon(a: Option<Icon>, b: Option<Icon>) -> bool {
    match (a, b) {
        (None, None) => true,
        (Some(x), Some(y)) => x.same_buffer(y),
        _ => false,
    }
}

/// The items from `i` on are the same in `a` and `b`, item by item.
pub open spec fn items_same<T: PartialEq>(a: Seq<MenuItem<T>>, b: Seq<MenuItem<T>>, i: int) -> bool
    decreases a, a.len() - i,
{
    if 0 <= i < a.len() {
        i < b.len() && item_same(a[i], b[i]) && items_same(a, b, i + 1)
    } else {
        a.len() == b.len()
    }
}

/// Two items are the same: same kind, name, flags and icon, equal events and,
/// for submenus, the same items.
pub open spec fn item_same<T: PartialEq>(x: MenuItem<T>, y: MenuItem<T>) -> bool
    decreases x,
{
    match (x, y) {
        (MenuItem::Separator, MenuItem::Separator) => true,
        (
            MenuItem::Item { name: n1, event: e1, disabled: d1, icon: i1 },
            MenuItem::Item { name: n2, event: e2, disabled: d2, icon: i2 },
        ) => n1@ == n2@ && e1.eq_spec(&e2) && d1 == d2 && same_icon(i1, i2),
        (
            MenuItem::CheckableItem { name: n1, is_checked: c1, event: e1, disabled: d1, icon: i1 },
            MenuItem::CheckableItem { name: n2, is_checked: c2, event: e2, disabled: d2, icon: i2 },
        ) => n1@ == n2@ && c1 == c2 && e1.eq_spec(&e2) && d1 == d2 && same_icon(i1, i2),
        (
            MenuItem::ChildMenu { name: n1, children: c1, disabled: d1, icon: i1 },
            MenuItem::ChildMenu { name: n2, children: c2, disabled: d2, icon: i2 },
        ) => n1@ == n2@ && items_same(c1.menu_items@, c2.menu_items@, 0) && d1 == d2 && same_icon(
            i1,
            i2,
        ),
        _ => false,
    }
}

fn icons_equal(a: &Option<Icon>, b: &Option<Icon>) -> (r: bool)
    ensures
        r == same_icon(*a, *b),
{
    match (a, b) {
        (None, None) => true,
        (Some(x), Some(y)) => *x == *y,
        _ => false,
    }
}

proof fn lemma_items_same_len<T: PartialEq>(a: Seq<MenuItem<T>>, b: Seq<MenuItem<T>>, i: int)
    requires
        0 <= i <= a.len(),
        items_same(a, b, i),
    ensures
        a.len() == b.len(),
    decreases a.len() - i,
{
    if i < a.len() {
        lemma_items_same_len(a, b, i + 1);
    }
}

fn items_equal<T: PartialEq>(a: &Vec<MenuItem<T>>, b: &Vec<MenuItem<T>>) -> (r: bool)
    ensures
        T::obeys_eq_spec() ==> r == items_same(a@, b@, 0),
        r ==> a@.len() == b@.len(),
    decreases a@,
{
    if a.len() != b.len() {
        proof {
            if items_same(a@, b@, 0) {
                lemma_items_same_len(a@, b@, 0);
            }
        }
        return false;
    }
    let mut i: usize = 0;
    while i < a.len()
        invariant
            0 <= i <= a@.len(),
            a@.len() == b@.len(),
            T::obeys_eq_spec() ==> (items_same(a@, b@, 0) == items_same(a@, b@, i as int)),
        decreases a@.len() - i,
    {
        let same = match (&a[i], &b[i]) {
            (MenuItem::Separator, MenuItem::Separator) => true,
            (
                MenuItem::Item { name: n1, event: e1, disabled: d1, icon: i1 },
                MenuItem::Item { name: n2, event: e2, disabled: d2, icon: i2 },
            ) => *n1 == *n2 && e1.eq(e2) && *d1 == *d2 && icons_equal(i1, i2),
            (
                MenuItem::CheckableItem {
                    name: n1,
                    is_checked: c1,
                    event: e1,
                    disabled: d1,
                    icon: i1,
                },
                MenuItem::CheckableItem {
                    name: n2,
                    is_checked: c2,
                    event: e2,
                    disabled: d2,
                    icon: i2,
                },
            ) => *n1 == *n2 && *c1 == *c2 && e1.eq(e2) && *d1 == *d2 && icons_equal(i1, i2),
            (
                MenuItem::ChildMenu { name: n1, children: c1, disabled: d1, icon: i1 },
                MenuItem::ChildMenu { name: n2, children: c2, disabled: d2, icon: i2 },
            ) => {
                proof {
                    assert(decreases_to!(a@ => a@[i as int]));
                }
                *n1 == *n2 && items_equal(&c1.menu_items, &c2.menu_items) && *d1 == *d2
                    && icons_equal(i1, i2)
            },
            _ => false,
        };
        proof {
            assert(T::obeys_eq_spec() ==> same == item_same(a@[i as int], b@[i as int]));
        }
        if !same {
            return false;
        }
        i = i + 1;
    }
    true
}

impl<T: PartialEq> MenuBuilder<T> {
    /// The two menus are the same, item by item (see `item_same`).
    pub open spec fn same_as(&self, other: &MenuBuilder<T>) -> bool {
        items_same(self.menu_items@, other.menu_items@, 0)
    }

    /// Compares two menus item by item, with the events' own equality.
    pub fn equals(&self, other: &MenuBuilder<T>) -> (r: bool)
        ensures
            T::obeys_eq_spec() ==> r == self.same_as(other),
            r ==> self.menu_items@.len() == other.menu_items@.len(),
    {
        items_equal(&self.menu_items, &other.menu_items)
    }
}

impl<T> MenuBuilder<T> {
    /// The slots of the whole menu: slot `k` is the item that gets the `k`-th
    /// command id of a build.
    pub open spec fn slots(&self) -> Seq<Option<T>> {
        slots_from(self.menu_items@, 0)
    }

    pub fn new() -> (r: MenuBuilder<T>)
        ensures
            r.menu_items@ == Seq::<MenuItem<T>>::empty(),
    {
        MenuBuilder { menu_items: Vec::new() }
    }

    /// Hands the builder to `f` and returns what it makes of it, to add items
    /// under a condition.
    pub fn when<F: FnOnce(Self) -> Self>(self, f: F) -> (r: Self)
        requires
            f.requires((self,)),
        ensures
            f.ensures((self,), r),
    {
        f(self)
    }

    pub fn with(self, item: MenuItem<T>) -> (r: Self)
        ensures
            r.menu_items@ == self.menu_items@.push(item),
    {
        let mut s = self;
        s.menu_items.push(item);
        s
    }

    pub fn separator(self) -> (r: Self)
        ensures
            r.menu_items@ == self.menu_items@.push(MenuItem::Separator),
    {
        self.with(MenuItem::Separator)
    }

    /// Adds an enabled item without icon that gives `on_click`.
    pub fn item(self, name: &str, on_click: T) -> (r: Self)
        ensures
            r.menu_items@.len() == self.menu_items@.len() + 1,
            r.menu_items@.drop_last() == self.menu_items@,
            r.menu_items@.last() matches MenuItem::Item { name: n, event, disabled, icon }
                && n@ == name@ && event == on_click && !disabled && icon is None,
    {
        let item = MenuItem::Item {
            name: name.to_string(),
            event: on_click,
            disabled: false,
            icon: None,
        };
        self.with(item)
    }

    /// Adds an enabled checkable item without icon that gives `on_click`.
    pub fn checkable(self, name: &str, is_checked: bool, on_click: T) -> (r: Self)
        ensures
            r.menu_items@.len() == self.menu_items@.len() + 1,
            r.menu_items@.drop_last() == self.menu_items@,
            r.menu_items@.last() matches MenuItem::CheckableItem {
                name: n,
                is_checked: c,
                event,
                disabled,
                icon,
            } && n@ == name@ && c == is_checked && event == on_click && !disabled && icon is None,
    {
        let item = MenuItem::CheckableItem {
            name: name.to_string(),
            is_checked,
            event: on_click,
            disabled: false,
            icon: None,
        };
        self.with(item)
    }

    /// Adds an enabled submenu without icon that holds the items of `menu`.
    pub fn child_menu(self, name: &str, menu: MenuBuilder<T>) -> (r: Self)
        ensures
            r.menu_items@.len() == self.menu_items@.len() + 1,
            r.menu_items@.drop_last() == self.menu_items@,
            r.menu_items@.last() matches MenuItem::ChildMenu { name: n, children, disabled, icon }
                && n@ == name@ && children == menu && !disabled && icon is None,
    {
        let item = MenuItem::ChildMenu {
            name: name.to_string(),
            children: menu,
            disabled: false,
            icon: None,
        };
        self.with(item)
    }
}

} // verus!
