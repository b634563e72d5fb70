use vstd::prelude::*;
use vstd::std_specs::cmp::PartialEqSpec;

use crate::dispatcher::{EventSource, Reaction, TrayState};
use crate::error::Error;
use crate::icon::Icon;
use crate::menu::MenuBuilder;
use crate::native_menu::{slots_cloned, NativeMenu, ID_LIMIT};

verus! {

/// The first command id a tray icon hands out.
pub const FIRST_COMMAND_ID: usize = 1;

/// The settings of a tray icon before it is built. `S` is the sender that
/// carries the events to the host.
pub struct TrayIconBuilder<T, S> {
    pub icon: Result<Icon, Error>,
    pub menu: Option<MenuBuilder<T>>,
    pub on_click: Option<T>,
    pub on_double_click: Option<T>,
    pub on_right_click: Option<T>,
    pub sender: Option<S>,
}

/// The table `table` is what a build of the menu model `model` gives.
pub open spec fn table_of<T: Clone>(model: Option<MenuBuilder<T>>, table: Option<NativeMenu<T>>) -> bool {
    match table {
        None => model is None || model->0.menu_items@.len() == 0,
        Some(m) => model matches Some(b) && b.menu_items@.len() > 0 && m.wf() && slots_cloned(
            b.slots(),
            m.slots@,
        ),
    }
}

/// No command id belongs to both tables.
pub open spec fn ids_disjoint<T>(a: Option<NativeMenu<T>>, b: Option<NativeMenu<T>>) -> bool {
    match (a, b) {
        (Some(x), Some(y)) => y.first_id >= x.first_id + x.slots@.len() || y.first_id
            + y.slots@.len() <= x.first_id,
        _ => true,
    }
}

impl<T, S> TrayIconBuilder<T, S> {
    /// No icon, menu, events or sender yet.
    pub fn new() -> (r: Self)
        ensures
            r.icon == Err::<Icon, Error>(Error::IconMissing),
            r.menu is None,
            r.on_click is None,
            r.on_double_click is None,
            r.on_right_click is None,
            r.sender is None,
    {
        TrayIconBuilder {
            icon: Err(Error::IconMissing),
            menu: None,
            on_click: None,
            on_double_click: None,
            on_right_click: None,
            sender: None,
        }
    }

    /// Hands the builder to `f` and returns what it makes of it, to set things
    /// under a condition.
    pub fn when<F: FnOnce(Self) -> Self>(self, f: F) -> (r: Self)
        requires
            f.requires((self,)),
        ensures
            f.ensures((self,), r),
    {
        f(self)
    }

    pub fn sender(self, s: S) -> (r: Self)
        ensures
            r == (TrayIconBuilder { sender: Some(s), ..self }),
    {
        TrayIconBuilder { sender: Some(s), ..self }
    }

    pub fn on_click(self, event: T) -> (r: Self)
        ensures
            r == (TrayIconBuilder { on_click: Some(event), ..self }),
    {
        TrayIconBuilder { on_click: Some(event), ..self }
    }

    pub fn on_double_click(self, event: T) -> (r: Self)
        ensures
            r == (TrayIconBuilder { on_double_click: Some(event), ..self }),
    {
        TrayIconBuilder { on_double_click: Some(event), ..self }
    }

    pub fn on_right_click(self, event: T) -> (r: Self)
        ensures
            r == (TrayIconBuilder { on_right_click: Some(event), ..self }),
    {
        TrayIconBuilder { on_right_click: Some(event), ..self }
    }

    pub fn icon(self, icon: Icon) -> (r: Self)
        ensures
            r == (TrayIconBuilder { icon: Ok::<Icon, Error>(icon), ..self }),
    {
        TrayIconBuilder { icon: Ok(icon), ..self }
    }

    /// Sets the icon to what loading an image gave: the icon, or the error
    /// that loading it met.
    pub fn icon_result(self, icon: Result<Icon, Error>) -> (r: Self)
        ensures
            r == (TrayIconBuilder { icon: icon, ..self }),
    {
        TrayIconBuilder { icon, ..self }
    }

    pub fn menu(self, menu: MenuBuilder<T>) -> (r: Self)
        ensures
            r == (TrayIconBuilder { menu: Some(menu), ..self }),
    {
        TrayIconBuilder { menu: Some(menu), ..self }
    }
}

/// A built tray icon: its icon, menu model, sender and the state behind its
/// window.
pub struct TrayIcon<T, S> {
    icon: Icon,
    /// The first command id of the next menu: past the live table's ids.
    next_id: usize,
    menu: Option<MenuBuilder<T>>,
    sender: S,
    state: TrayState<T>,
}

impl<T, S> TrayIcon<T, S> {
    /// The icon shown.
    pub closed spec fn icon_spec(&self) -> Icon {
        self.icon
    }

    /// The first command id of the next menu.
    pub closed spec fn next_id_spec(&self) -> usize {
        self.next_id
    }

    /// The menu model shown.
    pub closed spec fn menu_spec(&self) -> Option<MenuBuilder<T>> {
        self.menu
    }

    /// The sender of the events.
    pub closed spec fn sender_spec(&self) -> S {
        self.sender
    }

    /// The state behind the window.
    pub closed spec fn state_spec(&self) -> TrayState<T> {
        self.state
    }

    pub fn icon(&self) -> (r: Icon)
        ensures
            r == self.icon_spec(),
    {
        self.icon
    }

    pub fn next_id(&self) -> (r: usize)
        ensures
            r == self.next_id_spec(),
    {
        self.next_id
    }

    pub fn menu(&self) -> (r: &Option<MenuBuilder<T>>)
        ensures
            *r == self.menu_spec(),
    {
        &self.menu
    }

    pub fn sender(&self) -> (r: &S)
        ensures
            *r == self.sender_spec(),
    {
        &self.sender
    }

    pub fn state(&self) -> (r: &TrayState<T>)
        ensures
            *r == self.state_spec(),
    {
        &self.state
    }
}

impl<T: Clone + PartialEq, S> TrayIconBuilder<T, S> {
    /// Checks the settings and builds the menu's command table. Fails with
    /// the icon's error when there is no usable icon, then with
    /// `SenderMissing` when there is no sender, then with `OsError` when the
    /// menu has more items than there are command ids.
    pub fn build(self) -> (r: Result<TrayIcon<T, S>, Error>)
        ensures
            self.icon matches Err(e) ==> r == Err::<TrayIcon<T, S>, Error>(e),
            self.icon is Ok && self.sender is None ==> r == Err::<TrayIcon<T, S>, Error>(
                Error::SenderMissing,
            ),
            self.icon is Ok && self.sender is Some ==> (r is Err <==> (self.menu matches Some(m)
                && m.menu_items@.len() > 0 && FIRST_COMMAND_ID + m.slots().len() > ID_LIMIT)),
            self.icon is Ok && self.sender is Some && r is Err ==> r == Err::<TrayIcon<T, S>, Error>(
                Error::OsError,
            ),
            r matches Ok(t) ==> {
                &&& t.wf()
                &&& Ok::<Icon, Error>(t.icon_spec()) == self.icon
                &&& t.menu_spec() == self.menu
                &&& Some(t.sender_spec()) == self.sender
                &&& t.state_spec().on_click == self.on_click
                &&& t.state_spec().on_double_click == self.on_double_click
                &&& t.state_spec().on_right_click == self.on_right_click
                &&& t.state_spec().msg_taskbarcreated is None
                &&& t.state_spec().menu matches Some(m) ==> m.first_id == FIRST_COMMAND_ID
            },
    {
        let icon = match self.icon {
            Ok(i) => i,
            Err(e) => return Err(e),
        };
        let sender = match self.sender {
            Some(s) => s,
            None => return Err(Error::SenderMissing),
        };
        let mut state = TrayState::new(self.on_click, self.on_double_click, self.on_right_click);
        let mut next_id = FIRST_COMMAND_ID;
        match &self.menu {
            Some(m) => match m.build(FIRST_COMMAND_ID) {
                Ok(table) => {
                    match &table {
                        Some(t) => next_id = t.first_id + t.slots.len(),
                        None => {},
                    }
                    state.set_native_menu(table);
                },
                Err(e) => return Err(e),
            },
            None => {},
        }
        Ok(TrayIcon { icon, next_id, menu: self.menu, sender, state })
    }
}

impl<T: Clone + PartialEq, S> TrayIcon<T, S> {
    /// The live command table is the one built from the menu model, and the
    /// next menu's ids start past it.
    pub closed spec fn wf(&self) -> bool {
        &&& self.state.wf()
        &&& table_of(self.menu, self.state.menu)
        &&& 1 <= self.next_id <= ID_LIMIT
        &&& self.state.menu matches Some(m) ==> self.next_id == m.first_id + m.slots@.len()
    }

    /// The first command id of a new menu with `n` slots: the next free id
    /// when all its ids fit after it, else the first id when its ids fit
    /// before those of the live table; nothing when neither holds.
    pub open spec fn fresh_first_id(&self, n: int) -> Option<int> {
        if self.next_id_spec() + n <= ID_LIMIT {
            Some(self.next_id_spec() as int)
        } else if FIRST_COMMAND_ID + n <= (match self.state_spec().menu {
            Some(m) => m.first_id as int,
            None => ID_LIMIT as int,
        }) {
            Some(FIRST_COMMAND_ID as int)
        } else {
            None
        }
    }

    /// Decides what the window does with the message `msg`.
    pub fn handle(&self, msg: u32, wparam: usize, lparam: isize) -> (r: Reaction)
        requires
            self.wf(),
        ensures
            r == self.state_spec().reaction_of(msg, wparam, lparam),
    {
        self.state.handle(msg, wparam, lparam)
    }

    /// The event to send for `source`.
    pub fn event(&self, source: EventSource) -> (r: Option<&T>)
        requires
            self.wf(),
        ensures
            r is Some <==> self.state_spec().event_spec(source) is Some,
            r matches Some(e) ==> self.state_spec().event_spec(source) == Some(*e),
    {
        self.state.event(source)
    }

    /// Records the "taskbar created" message, once it has been looked up.
    pub fn watch_taskbar(&mut self, msg: u32)
        requires
            old(self).wf(),
        ensures
            final(self).wf(),
            final(self).state_spec().msg_taskbarcreated == Some(msg),
            final(self).state_spec().menu == old(self).state_spec().menu,
            final(self).state_spec().on_click == old(self).state_spec().on_click,
            final(self).state_spec().on_double_click == old(self).state_spec().on_double_click,
            final(self).state_spec().on_right_click == old(self).state_spec().on_right_click,
            final(self).icon_spec() == old(self).icon_spec(),
            final(self).next_id_spec() == old(self).next_id_spec(),
            final(self).menu_spec() == old(self).menu_spec(),
            final(self).sender_spec() == old(self).sender_spec(),
    {
        self.state.watch_taskbar(msg);
    }

    /// Whether showing `icon` takes a native update: not when it was made
    /// from the buffer of the icon shown now.
    pub open spec fn icon_update_needed(&self, icon: Icon) -> bool {
        !self.icon_spec().same_buffer(icon)
    }

    /// Whether showing `icon` takes a native update.
    pub fn icon_changed(&self, icon: &Icon) -> (r: bool)
        ensures
            r == self.icon_update_needed(*icon),
    {
        !(self.icon == *icon)
    }

    /// Makes `icon` the icon of the tray, given whether the native update
    /// that `icon_changed` asked for succeeded (`shown`). An icon of the
    /// current buffer changes nothing. A failed update changes nothing either,
    /// so the icon still shown stays recorded, and gives `OsError`.
    pub fn set_icon(&mut self, icon: &Icon, shown: bool) -> (r: Result<(), Error>)
        ensures
            !old(self).icon_update_needed(*icon) ==> r is Ok && *final(self) == *old(self),
            old(self).icon_update_needed(*icon) && shown ==> {
                &&& r is Ok
                &&& final(self).icon_spec() == *icon
                &&& final(self).next_id_spec() == old(self).next_id_spec()
                &&& final(self).menu_spec() == old(self).menu_spec()
                &&& final(self).sender_spec() == old(self).sender_spec()
                &&& final(self).state_spec() == old(self).state_spec()
            },
            old(self).icon_update_needed(*icon) && !shown ==> r == Err::<(), Error>(Error::OsError)
                && *final(self) == *old(self),
    {
        if self.icon == *icon {
            return Ok(());
        }
        if !shown {
            return Err(Error::OsError);
        }
        self.icon = *icon;
        Ok(())
    }

    /// Makes `menu` the menu of the tray. Nothing changes, and the result is
    /// `Ok(false)`, when it is the same as the current one; else the command
    /// table is built anew, with ids clear of the old table's (see
    /// `fresh_first_id`), and the result is `Ok(true)`. When no such ids are
    /// left, nothing changes and the result is `Err(OsError)`.
    pub fn set_menu(&mut self, menu: MenuBuilder<T>) -> (r: Result<bool, Error>)
        requires
            old(self).wf(),
        ensures
            final(self).wf(),
            r == Ok::<bool, Error>(false) || r is Err ==> *final(self) == *old(self),
            r == Ok::<bool, Error>(false) ==> (old(self).menu_spec() matches Some(m)
                && m.menu_items@.len() == menu.menu_items@.len()),
            r is Err ==> r == Err::<bool, Error>(Error::OsError),
            r is Err ==> menu.menu_items@.len() > 0 && old(self).fresh_first_id(
                menu.slots().len() as int,
            ) is None,
            menu.menu_items@.len() == 0 ==> r is Ok,
            r == Ok::<bool, Error>(true) ==> {
                &&& final(self).menu_spec() == Some(menu)
                &&& final(self).icon_spec() == old(self).icon_spec()
                &&& final(self).sender_spec() == old(self).sender_spec()
                &&& final(self).state_spec().on_click == old(self).state_spec().on_click
                &&& final(self).state_spec().on_double_click == old(self).state_spec().on_double_click
                &&& final(self).state_spec().on_right_click == old(self).state_spec().on_right_click
                &&& final(self).state_spec().msg_taskbarcreated == old(self).state_spec().msg_taskbarcreated
                &&& ids_disjoint(old(self).state_spec().menu, final(self).state_spec().menu)
                &&& final(self).state_spec().menu matches Some(n) ==> Some(n.first_id as int)
                    == old(self).fresh_first_id(menu.slots().len() as int)
            },
            r is Ok && menu.menu_items@.len() == 0 ==> final(self).state_spec().menu is None,
            T::obeys_eq_spec() ==> (r == Ok::<bool, Error>(false) <==> (old(self).menu_spec() matches Some(
                m,
            ) && m.same_as(&menu))),
            T::obeys_eq_spec() && !(old(self).menu_spec() matches Some(m) && m.same_as(&menu)) ==> (r is Err
                <==> (menu.menu_items@.len() > 0 && old(self).fresh_first_id(
                menu.slots().len() as int,
            ) is None)),
    {
        let same = match &self.menu {
            Some(m) => m.equals(&menu),
            None => false,
        };
        if same {
            return Ok(false);
        }
        let table = match menu.build(self.next_id) {
            Ok(t) => t,
            Err(_) => {
                let limit = match &self.state.menu {
                    Some(o) => o.first_id,
                    None => ID_LIMIT,
                };
                match menu.build(FIRST_COMMAND_ID) {
                    Ok(Some(t)) => {
                        if t.slots.len() > limit - FIRST_COMMAND_ID {
                            return Err(Error::OsError);
                        }
                        Some(t)
                    },
                    _ => return Err(Error::OsError),
                }
            },
        };
        match &table {
            Some(t) => self.next_id = t.first_id + t.slots.len(),
            None => {},
        }
        self.state.set_native_menu(table);
        self.menu = Some(menu);
        Ok(true)
    }
}

/// Setting one icon twice updates the native icon at most once: once an
/// icon of its buffer is in place the second call needs no update. An icon
/// made from another buffer always needs one.
pub proof fn lemma_set_icon_twice<T: Clone + PartialEq, S>(tray: TrayIcon<T, S>, icon: Icon, other: Icon)
    requires
        tray.icon_spec().same_buffer(icon),
        !other.same_buffer(icon),
    ensures
        !tray.icon_update_needed(icon),
        tray.icon_update_needed(other),
{
}

} // verus!
