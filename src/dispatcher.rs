use vstd::prelude::*;

use crate::native_menu::NativeMenu;

verus! {

/// The message that creates a window.
pub const WM_CREATE: u32 = 0x0001;

/// A command: a menu item was chosen.
pub const WM_COMMAND: u32 = 0x0111;

/// The message the notification area sends for mouse gestures on the icon.
pub const WM_USER_TRAYICON: u32 = 6001;

/// The left button was released.
pub const WM_LBUTTONUP: u32 = 0x0202;

/// The left button was double-clicked.
pub const WM_LBUTTONDBLCLK: u32 = 0x0203;

/// The right button was released.
pub const WM_RBUTTONUP: u32 = 0x0205;

/// Where an event to send comes from.
#[derive(Debug, Clone, Copy, PartialEq, Eq, Structural)]
pub enum EventSource {
    Click,
    DoubleClick,
    RightClick,
    /// The menu item with this command id.
    Command(usize),
}

/// What the tray window does with one message.
#[derive(Debug, Clone, Copy, PartialEq, Eq, Structural)]
pub struct Reaction {
    /// Send this event to the host.
    pub send: Option<EventSource>,
    /// Bring the window to the foreground and show the menu at the pointer.
    pub show_menu: bool,
    /// Add the icon to the notification area.
    pub add_icon: bool,
    /// Look up the "taskbar created" message and hand it to `watch_taskbar`.
    pub watch_taskbar: bool,
    /// Leave the message to the platform's default handling.
    pub default_handling: bool,
}

/// Does nothing but what is set.
pub open spec fn quiet() -> Reaction {
    Reaction {
        send: None,
        show_menu: false,
        add_icon: false,
        watch_taskbar: false,
        default_handling: false,
    }
}

/// The state behind the tray window: the live menu, the events bound to the
/// three gestures and the "taskbar created" message once it is known.
pub struct TrayState<T> {
    pub menu: Option<NativeMenu<T>>,
    pub on_click: Option<T>,
    pub on_double_click: Option<T>,
    pub on_right_click: Option<T>,
    pub msg_taskbarcreated: Option<u32>,
}

impl<T> TrayState<T> {
    pub open spec fn wf(&self) -> bool {
        self.menu matches Some(m) ==> m.wf()
    }

    /// What a mouse gesture `mouse` on the icon does.
    pub open spec fn gesture_reaction(&self, mouse: u32) -> Reaction {
        if mouse == WM_LBUTTONUP {
            Reaction {
                send: if self.on_click is Some { Some(EventSource::Click) } else { None },
                ..quiet()
            }
        } else if mouse == WM_RBUTTONUP {
            Reaction {
                send: if self.on_right_click is Some { Some(EventSource::RightClick) } else { None },
                show_menu: self.menu is Some,
                ..quiet()
            }
        } else if mouse == WM_LBUTTONDBLCLK {
            Reaction {
                send: if self.on_double_click is Some { Some(EventSource::DoubleClick) } else { None },
                ..quiet()
            }
        } else {
            quiet()
        }
    }

    /// What a command with parameter `w` does: a menu command (code 0 in the
    /// high word) sends the event of the id in the low word, if it has one.
    pub open spec fn command_reaction(&self, w: u32) -> Reaction {
        let id = w % 65536;
        let code = w / 65536;
        if code == 0 && (self.menu matches Some(m) && m.event_of(id as int) is Some) {
            Reaction { send: Some(EventSource::Command(id as usize)), ..quiet() }
        } else {
            quiet()
        }
    }

    /// What the tray window does with the message `msg`.
    pub open spec fn reaction_of(&self, msg: u32, wparam: usize, lparam: isize) -> Reaction {
        if msg == WM_CREATE {
            Reaction { add_icon: true, watch_taskbar: true, ..quiet() }
        } else if msg == WM_USER_TRAYICON {
            self.gesture_reaction(lparam as u32)
        } else if msg == WM_COMMAND {
            self.command_reaction(wparam as u32)
        } else if self.msg_taskbarcreated == Some(msg) {
            Reaction { add_icon: true, ..quiet() }
        } else {
            Reaction { default_handling: true, ..quiet() }
        }
    }

    /// The event bound to `source`, if any.
    pub open spec fn event_spec(&self, source: EventSource) -> Option<T> {
        match source {
            EventSource::Click => self.on_click,
            EventSource::DoubleClick => self.on_double_click,
            EventSource::RightClick => self.on_right_click,
            EventSource::Command(id) => match self.menu {
                Some(m) => m.event_of(id as int),
                None => None,
            },
        }
    }

    /// A state with the given bindings, no menu and no known taskbar message.
    pub fn new(on_click: Option<T>, on_double_click: Option<T>, on_right_click: Option<T>) -> (r:
        Self)
        ensures
            r.wf(),
            r.menu is None,
            r.on_click == on_click,
            r.on_double_click == on_double_click,
            r.on_right_click == on_right_click,
            r.msg_taskbarcreated is None,
    {
        TrayState { menu: None, on_click, on_double_click, on_right_click, msg_taskbarcreated: None }
    }

    /// Decides what to do with the message `msg`.
    pub fn handle(&self, msg: u32, wparam: usize, lparam: isize) -> (r: Reaction)
        requires
            self.wf(),
        ensures
            r == self.reaction_of(msg, wparam, lparam),
    {
        let none = Reaction {
            send: None,
            show_menu: false,
            add_icon: false,
            watch_taskbar: false,
            default_handling: false,
        };
        if msg == WM_CREATE {
            Reaction { add_icon: true, watch_taskbar: true, ..none }
        } else if msg == WM_USER_TRAYICON {
            let mouse = lparam as u32;
            if mouse == WM_LBUTTONUP {
                Reaction {
                    send: if self.on_click.is_some() { Some(EventSource::Click) } else { None },
                    ..none
                }
            } else if mouse == WM_RBUTTONUP {
                Reaction {
                    send: if self.on_right_click.is_some() { Some(EventSource::RightClick) } else { None },
                    show_menu: self.menu.is_some(),
                    ..none
                }
            } else if mouse == WM_LBUTTONDBLCLK {
                Reaction {
                    send: if self.on_double_click.is_some() { Some(EventSource::DoubleClick) } else { None },
                    ..none
                }
            } else {
                none
            }
        } else if msg == WM_COMMAND {
            let w = wparam as u32;
            let id = w % 65536;
            let code = w / 65536;
            if code == 0 {
                match &self.menu {
                    Some(m) => {
                        if m.lookup(id as usize).is_some() {
                            Reaction { send: Some(EventSource::Command(id as usize)), ..none }
                        } else {
                            none
                        }
                    },
                    None => none,
                }
            } else {
                none
            }
        } else if self.msg_taskbarcreated == Some(msg) {
            Reaction { add_icon: true, ..none }
        } else {
            Reaction { default_handling: true, ..none }
        }
    }

    /// The event to send for `source`.
    pub fn event(&self, source: EventSource) -> (r: Option<&T>)
        requires
            self.wf(),
        ensures
            r is Some <==> self.event_spec(source) is Some,
            r matches Some(e) ==> self.event_spec(source) == Some(*e),
    {
        match source {
            EventSource::Click => self.on_click.as_ref(),
            EventSource::DoubleClick => self.on_double_click.as_ref(),
            EventSource::RightClick => self.on_right_click.as_ref(),
            EventSource::Command(id) => match &self.menu {
                Some(m) => m.lookup(id),
                None => None,
            },
        }
    }

    /// Records the "taskbar created" message, once it has been looked up.
    pub fn watch_taskbar(&mut self, msg: u32)
        ensures
            final(self).msg_taskbarcreated == Some(msg),
            final(self).menu == old(self).menu,
            final(self).on_click == old(self).on_click,
            final(self).on_double_click == old(self).on_double_click,
            final(self).on_right_click == old(self).on_right_click,
    {
        self.msg_taskbarcreated = Some(msg);
    }

    /// Replaces the live menu; the old table goes once the new one is in place.
    pub fn set_native_menu(&mut self, menu: Option<NativeMenu<T>>)
        requires
            menu matches Some(m) ==> m.wf(),
        ensures
            final(self).wf(),
            final(self).menu == menu,
            final(self).on_click == old(self).on_click,
            final(self).on_double_click == old(self).on_double_click,
            final(self).on_right_click == old(self).on_right_click,
            final(self).msg_taskbarcreated == old(self).msg_taskbarcreated,
    {
        self.menu = menu;
    }
}

/// With no menu bound, a right click on the icon shows no menu, and sends
/// no event unless one is bound to the right click.
pub proof fn lemma_right_click_without_menu<T>(state: TrayState<T>, wparam: usize)
    requires
        state.menu is None,
    ensures
        !state.reaction_of(WM_USER_TRAYICON, wparam, WM_RBUTTONUP as isize).show_menu,
        state.on_right_click is None ==> state.reaction_of(
            WM_USER_TRAYICON,
            wparam,
            WM_RBUTTONUP as isize,
        ).send is None,
{
    assert((WM_RBUTTONUP as isize) as u32 == WM_RBUTTONUP);
}

/// With a menu and a right-click event bound, a right click on the icon both
/// sends that event and shows the menu.
pub proof fn lemma_right_click_sends_and_shows<T>(state: TrayState<T>, wparam: usize)
    requires
        state.menu is Some,
        state.on_right_click is Some,
    ensures
        state.reaction_of(WM_USER_TRAYICON, wparam, WM_RBUTTONUP as isize).send == Some(
            EventSource::RightClick,
        ),
        state.reaction_of(WM_USER_TRAYICON, wparam, WM_RBUTTONUP as isize).show_menu,
        state.event_spec(EventSource::RightClick) == state.on_right_click,
{
    assert((WM_RBUTTONUP as isize) as u32 == WM_RBUTTONUP);
}

/// Once the "taskbar created" message is known, each time it arrives the
/// icon is added again, once, and nothing else is done; the state is left as
/// it was, so the next one does the same.
pub proof fn lemma_taskbar_created_readds<T>(
    state: TrayState<T>,
    msg: u32,
    wparam: usize,
    lparam: isize,
)
    requires
        state.msg_taskbarcreated == Some(msg),
        msg != WM_CREATE,
        msg != WM_USER_TRAYICON,
        msg != WM_COMMAND,
    ensures
        state.reaction_of(msg, wparam, lparam) == (Reaction { add_icon: true, ..quiet() }),
{
}

} // verus!
