use std::sync::mpsc;

use trayicon::dispatcher::{
    WM_COMMAND, WM_CREATE, WM_LBUTTONDBLCLK, WM_LBUTTONUP, WM_RBUTTONUP, WM_USER_TRAYICON,
};
use trayicon::{
    EntryKind, Error, EventSource, Icon, MenuBuilder, MenuItem, NativeMenu, Reaction, TrayIcon,
    TrayIconBuilder,
};

#[derive(Debug, Clone, PartialEq)]
enum Ev {
    A,
    B,
    Click,
    Double,
    Right,
    Sub1,
    Sub2,
    Sub3,
}

fn icon(source: usize) -> Icon {
    Icon::from_buffer(source, 16, Some(source + 1000)).unwrap()
}

fn nested_menu() -> MenuBuilder<Ev> {
    MenuBuilder::new()
        .item("A", Ev::A)
        .separator()
        .checkable("B", true, Ev::B)
        .child_menu(
            "Sub",
            MenuBuilder::new().item("S1", Ev::Sub1).item("S2", Ev::Sub2),
        )
        .item("Last", Ev::Click)
}

fn built(menu: Option<MenuBuilder<Ev>>) -> TrayIcon<Ev, mpsc::Sender<Ev>> {
    let (tx, _rx) = mpsc::channel();
    let mut b = TrayIconBuilder::new()
        .icon(icon(1))
        .sender(tx)
        .on_click(Ev::Click)
        .on_double_click(Ev::Double);
    if let Some(m) = menu {
        b = b.menu(m);
    }
    b.build().unwrap()
}

fn quiet() -> Reaction {
    Reaction {
        send: None,
        show_menu: false,
        add_icon: false,
        watch_taskbar: false,
        default_handling: false,
    }
}

#[test]
fn menu_builder_keeps_order_and_fields() {
    let m = nested_menu();
    assert_eq!(m.menu_items.len(), 5);
    match &m.menu_items[0] {
        MenuItem::Item { name, event, disabled, icon } => {
            assert_eq!(name, "A");
            assert_eq!(*event, Ev::A);
            assert!(!*disabled);
            assert!(icon.is_none());
        }
        _ => panic!("expected an item"),
    }
    assert!(matches!(m.menu_items[1], MenuItem::Separator));
    match &m.menu_items[2] {
        MenuItem::CheckableItem { name, is_checked, event, disabled, .. } => {
            assert_eq!(name, "B");
            assert!(*is_checked);
            assert_eq!(*event, Ev::B);
            assert!(!*disabled);
        }
        _ => panic!("expected a checkable item"),
    }
    match &m.menu_items[3] {
        MenuItem::ChildMenu { name, children, disabled, .. } => {
            assert_eq!(name, "Sub");
            assert_eq!(children.menu_items.len(), 2);
            assert!(!*disabled);
        }
        _ => panic!("expected a submenu"),
    }
}

#[test]
fn when_and_with_add_items() {
    let m = MenuBuilder::new()
        .when(|b| b.item("A", Ev::A))
        .when(|b| b)
        .with(MenuItem::Item { name: "D".to_string(), event: Ev::B, disabled: true, icon: None });
    assert_eq!(m.menu_items.len(), 2);
    assert!(matches!(m.menu_items[1], MenuItem::Item { disabled: true, .. }));
}

#[test]
fn empty_menu_builds_no_table() {
    let m: MenuBuilder<Ev> = MenuBuilder::new();
    assert!(matches!(m.build(1), Ok(None)));
}

#[test]
fn build_numbers_items_depth_first() {
    let table: NativeMenu<Ev> = nested_menu().build(1).unwrap().unwrap();
    assert_eq!(table.first_id, 1);
    assert_eq!(table.slots.len(), 7);
    assert_eq!(table.lookup(0), None);
    assert_eq!(table.lookup(1), Some(&Ev::A));
    assert_eq!(table.lookup(2), None);
    assert_eq!(table.lookup(3), Some(&Ev::B));
    assert_eq!(table.lookup(4), None);
    assert_eq!(table.lookup(5), Some(&Ev::Sub1));
    assert_eq!(table.lookup(6), Some(&Ev::Sub2));
    assert_eq!(table.lookup(7), Some(&Ev::Click));
    assert_eq!(table.lookup(8), None);
}

#[test]
fn builds_from_other_first_ids_agree() {
    let m = nested_menu();
    let first = m.build(1).unwrap().unwrap();
    let second = m.build(300).unwrap().unwrap();
    assert_eq!(first.slots.len(), second.slots.len());
    for k in 0..first.slots.len() {
        assert_eq!(first.lookup(1 + k), second.lookup(300 + k));
    }
    assert_eq!(second.lookup(300), Some(&Ev::A));
    assert_eq!(second.lookup(299), None);
    assert_eq!(second.lookup(1), None);
}

#[test]
fn child_menu_takes_one_id_more_than_its_items() {
    let sub = MenuBuilder::new().item("1", Ev::Sub1).checkable("2", false, Ev::Sub2).item("3", Ev::Sub3);
    let m = MenuBuilder::new().child_menu("Sub", sub);
    let table = m.build(10).unwrap().unwrap();
    assert_eq!(table.slots.len(), 4);
    assert_eq!(table.lookup(10), None);
    assert_eq!(table.lookup(11), Some(&Ev::Sub1));
    assert_eq!(table.lookup(12), Some(&Ev::Sub2));
    assert_eq!(table.lookup(13), Some(&Ev::Sub3));
}

#[test]
fn build_fails_when_ids_run_out() {
    let mut m = MenuBuilder::new();
    for _ in 0..65535 {
        m = m.separator();
    }
    m = m.item("last", Ev::A);
    assert_eq!(m.menu_items.len(), 65536);
    assert!(matches!(m.build(1), Err(Error::OsError)));
    assert!(matches!(m.build(0), Err(Error::OsError)));
    let shorter = MenuBuilder::new().item("a", Ev::A).item("b", Ev::B);
    assert!(matches!(shorter.build(65534), Ok(Some(_))));
    assert!(matches!(shorter.build(65535), Err(Error::OsError)));
}

#[test]
fn icon_from_buffer_reports_decoding_failure() {
    assert_eq!(Icon::from_buffer(7, 10, None), Err(Error::IconLoadingFailed));
    let i = Icon::from_buffer(7, 10, Some(99)).unwrap();
    assert_eq!(i.source(), 7);
    assert_eq!(i.len(), 10);
    assert_eq!(i.handle(), 99);
}

#[test]
fn icons_equal_by_buffer_only() {
    assert_eq!(Icon::from_buffer(5, 8, Some(1)).unwrap(), Icon::from_buffer(5, 8, Some(2)).unwrap());
    assert_ne!(Icon::from_buffer(5, 8, Some(1)).unwrap(), Icon::from_buffer(6, 8, Some(1)).unwrap());
    assert_ne!(Icon::from_buffer(5, 8, Some(1)).unwrap(), Icon::from_buffer(5, 9, Some(1)).unwrap());
}

#[test]
fn build_reports_missing_settings() {
    let (tx, _rx) = mpsc::channel::<Ev>();
    let r = TrayIconBuilder::<Ev, mpsc::Sender<Ev>>::new().build();
    assert!(matches!(r, Err(Error::IconMissing)));
    let r = TrayIconBuilder::<Ev, mpsc::Sender<Ev>>::new().icon(icon(1)).build();
    assert!(matches!(r, Err(Error::SenderMissing)));
    let r = TrayIconBuilder::<Ev, _>::new().sender(tx.clone()).build();
    assert!(matches!(r, Err(Error::IconMissing)));
    let r = TrayIconBuilder::<Ev, _>::new()
        .sender(tx.clone())
        .icon_result(Icon::from_buffer(3, 4, None))
        .build();
    assert!(matches!(r, Err(Error::IconLoadingFailed)));
    let r = TrayIconBuilder::<Ev, mpsc::Sender<Ev>>::new()
        .icon_result(Icon::from_buffer(3, 4, None))
        .build();
    assert!(matches!(r, Err(Error::IconLoadingFailed)));
    let r = TrayIconBuilder::new().icon(icon(1)).sender(tx).when(|b| b.on_right_click(Ev::Right)).build();
    let t = r.unwrap();
    assert_eq!(t.state().on_right_click, Some(Ev::Right));
    assert!(t.state().menu.is_none());
    assert_eq!(t.state().msg_taskbarcreated, None);
}

#[test]
fn set_icon_twice_updates_once() {
    let mut t = built(None);
    let i2 = icon(2);
    assert!(t.icon_changed(&i2));
    assert_eq!(t.set_icon(&i2, true), Ok(()));
    assert_eq!(t.icon().source(), 2);
    assert!(!t.icon_changed(&i2));
    assert_eq!(t.set_icon(&i2, false), Ok(()));
    assert!(!t.icon_changed(&Icon::from_buffer(2, 16, Some(77)).unwrap()));
    assert!(t.icon_changed(&icon(3)));
    assert_eq!(t.set_icon(&icon(3), true), Ok(()));
    assert_eq!(t.icon().source(), 3);
}

#[test]
fn failed_icon_update_keeps_old_icon() {
    let mut t = built(None);
    let i2 = icon(2);
    assert_eq!(t.set_icon(&i2, false), Err(Error::OsError));
    assert_eq!(t.icon().source(), 1);
    assert!(t.icon_changed(&i2));
    assert_eq!(t.set_icon(&i2, true), Ok(()));
    assert_eq!(t.icon().source(), 2);
}

#[test]
fn new_menu_takes_fresh_ids() {
    let mut t = built(Some(nested_menu()));
    assert_eq!(t.state().menu.as_ref().unwrap().first_id, 1);
    assert_eq!(t.next_id(), 8);
    let m = MenuBuilder::new().item("X", Ev::B).item("Y", Ev::A);
    assert_eq!(t.set_menu(m), Ok(true));
    assert_eq!(t.state().menu.as_ref().unwrap().first_id, 8);
    assert_eq!(t.next_id(), 10);
    assert_eq!(t.handle(WM_COMMAND, 1, 0), quiet());
    assert_eq!(t.handle(WM_COMMAND, 8, 0), Reaction { send: Some(EventSource::Command(8)), ..quiet() });
    assert_eq!(t.event(EventSource::Command(9)), Some(&Ev::A));
}

fn separators(n: usize, last: Ev) -> MenuBuilder<Ev> {
    let mut m = MenuBuilder::new();
    for _ in 0..n {
        m = m.separator();
    }
    m.item("end", last)
}

#[test]
fn ids_start_again_when_they_run_out() {
    let mut t = built(Some(MenuBuilder::new().item("a", Ev::A).item("b", Ev::B)));
    assert_eq!(t.next_id(), 3);
    assert_eq!(t.set_menu(separators(65530, Ev::A)), Ok(true));
    assert_eq!(t.state().menu.as_ref().unwrap().first_id, 3);
    assert_eq!(t.next_id(), 65534);
    assert_eq!(t.set_menu(separators(1, Ev::B)), Ok(true));
    assert_eq!(t.state().menu.as_ref().unwrap().first_id, 65534);
    assert_eq!(t.next_id(), 65536);
    assert_eq!(t.set_menu(separators(1, Ev::Sub1)), Ok(true));
    assert_eq!(t.state().menu.as_ref().unwrap().first_id, 1);
    assert_eq!(t.next_id(), 3);
    assert_eq!(t.event(EventSource::Command(2)), Some(&Ev::Sub1));
    assert_eq!(t.set_menu(separators(65534, Ev::A)), Err(Error::OsError));
    assert_eq!(t.state().menu.as_ref().unwrap().first_id, 1);
    assert_eq!(t.event(EventSource::Command(2)), Some(&Ev::Sub1));
}

#[test]
fn set_empty_menu_unbinds_it() {
    let mut t = built(Some(nested_menu()));
    assert!(t.state().menu.is_some());
    assert_eq!(t.set_menu(MenuBuilder::new()), Ok(true));
    assert!(t.state().menu.is_none());
    let r = t.handle(WM_USER_TRAYICON, 0, WM_RBUTTONUP as isize);
    assert_eq!(r, quiet());
    assert_eq!(t.set_menu(MenuBuilder::new()), Ok(false));
}

#[test]
fn set_same_menu_is_no_op() {
    let mut t = built(Some(nested_menu()));
    assert_eq!(t.set_menu(nested_menu()), Ok(false));
    let changed = nested_menu().item("more", Ev::B);
    assert_eq!(t.set_menu(changed), Ok(true));
    assert_eq!(t.state().menu.as_ref().unwrap().slots.len(), 8);
    let renamed = MenuBuilder::new().item("a", Ev::A);
    assert_eq!(t.set_menu(renamed), Ok(true));
    assert_eq!(t.set_menu(MenuBuilder::new().item("A", Ev::A)), Ok(true));
    assert_eq!(t.set_menu(MenuBuilder::new().item("A", Ev::B)), Ok(true));
    assert_eq!(t.set_menu(MenuBuilder::new().item("A", Ev::B)), Ok(false));
}

#[test]
fn set_menu_too_large_keeps_old_menu() {
    let mut t = built(Some(nested_menu()));
    let mut m = MenuBuilder::new();
    for _ in 0..65536 {
        m = m.separator();
    }
    assert_eq!(t.set_menu(m), Err(Error::OsError));
    assert_eq!(t.state().menu.as_ref().unwrap().slots.len(), 7);
    assert_eq!(t.menu().as_ref().unwrap().menu_items.len(), 5);
}

#[test]
fn right_click_sends_and_shows_menu() {
    let (tx, _rx) = mpsc::channel::<Ev>();
    let t = TrayIconBuilder::new()
        .icon(icon(1))
        .sender(tx)
        .menu(nested_menu())
        .on_right_click(Ev::Right)
        .build()
        .unwrap();
    let r = t.handle(WM_USER_TRAYICON, 0, WM_RBUTTONUP as isize);
    assert_eq!(r, Reaction { send: Some(EventSource::RightClick), show_menu: true, ..quiet() });
    assert_eq!(t.event(EventSource::RightClick), Some(&Ev::Right));
}

#[test]
fn taskbar_created_readds_icon_each_time() {
    let mut t = built(None);
    let create = t.handle(WM_CREATE, 0, 0);
    assert_eq!(create, Reaction { add_icon: true, watch_taskbar: true, ..quiet() });
    assert_eq!(t.handle(49321, 0, 0), Reaction { default_handling: true, ..quiet() });
    t.watch_taskbar(49321);
    assert_eq!(t.state().msg_taskbarcreated, Some(49321));
    for _ in 0..3 {
        assert_eq!(t.handle(49321, 5, 6), Reaction { add_icon: true, ..quiet() });
    }
}

#[test]
fn click_scenario_delivers_events() {
    let (tx, rx) = mpsc::channel();
    let menu = MenuBuilder::new().item("A", Ev::A).separator().checkable("B", false, Ev::B);
    let t = TrayIconBuilder::new()
        .icon(icon(1))
        .menu(menu)
        .on_click(Ev::Click)
        .sender(tx)
        .build()
        .unwrap();
    let deliver = |r: Reaction| {
        if let Some(src) = r.send {
            if let Some(e) = t.event(src) {
                let _ = t.sender().send(e.clone());
            }
        }
    };

    let left = t.handle(WM_USER_TRAYICON, 0, WM_LBUTTONUP as isize);
    assert_eq!(left, Reaction { send: Some(EventSource::Click), ..quiet() });
    deliver(left);
    assert_eq!(rx.try_recv(), Ok(Ev::Click));

    let right = t.handle(WM_USER_TRAYICON, 0, WM_RBUTTONUP as isize);
    assert_eq!(right, Reaction { show_menu: true, ..quiet() });
    deliver(right);
    assert!(rx.try_recv().is_err());

    let chosen = t.handle(WM_COMMAND, 1, 0);
    assert_eq!(chosen, Reaction { send: Some(EventSource::Command(1)), ..quiet() });
    deliver(chosen);
    assert_eq!(rx.try_recv(), Ok(Ev::A));

    let b = t.handle(WM_COMMAND, 3, 0);
    deliver(b);
    assert_eq!(rx.try_recv(), Ok(Ev::B));
}

#[test]
fn stale_or_foreign_commands_are_ignored() {
    let t = built(Some(nested_menu()));
    assert_eq!(t.handle(WM_COMMAND, 2, 0), quiet());
    assert_eq!(t.handle(WM_COMMAND, 4, 0), quiet());
    assert_eq!(t.handle(WM_COMMAND, 100, 0), quiet());
    assert_eq!(t.handle(WM_COMMAND, 0x0001_0001, 0), quiet());
    assert_eq!(t.handle(WM_COMMAND, 0x1_0000_0005, 0), Reaction { send: Some(EventSource::Command(5)), ..quiet() });
    assert_eq!(t.event(EventSource::Command(5)), Some(&Ev::Sub1));
    assert_eq!(t.event(EventSource::Command(4)), None);
    let no_menu = built(None);
    assert_eq!(no_menu.handle(WM_COMMAND, 1, 0), quiet());
}

#[test]
fn double_click_and_other_gestures() {
    let t = built(None);
    assert_eq!(
        t.handle(WM_USER_TRAYICON, 0, WM_LBUTTONDBLCLK as isize),
        Reaction { send: Some(EventSource::DoubleClick), ..quiet() }
    );
    assert_eq!(t.event(EventSource::DoubleClick), Some(&Ev::Double));
    assert_eq!(t.handle(WM_USER_TRAYICON, 0, 0x0200), quiet());
    assert_eq!(t.handle(WM_USER_TRAYICON, 0, WM_RBUTTONUP as isize), quiet());
    assert_eq!(t.event(EventSource::RightClick), None);
    assert_eq!(t.handle(0x000F, 0, 0), Reaction { default_handling: true, ..quiet() });
}

#[test]
fn entries_follow_the_command_table() {
    let m = nested_menu();
    let entries = m.entries(20);
    let table = m.build(20).unwrap().unwrap();
    assert_eq!(entries.len(), 7);
    let ids: Vec<usize> = entries.iter().map(|e| e.id).collect();
    assert_eq!(ids, vec![20, 21, 22, 23, 24, 25, 26]);
    let parents: Vec<Option<usize>> = entries.iter().map(|e| e.parent).collect();
    assert_eq!(parents, vec![None, None, None, None, Some(23), Some(23), None]);
    assert_eq!(entries[0].kind, EntryKind::Item);
    assert_eq!(entries[0].name.as_deref(), Some("A"));
    assert_eq!(entries[1].kind, EntryKind::Separator);
    assert_eq!(entries[1].name, None);
    assert_eq!(entries[2].kind, EntryKind::Checkable { checked: true });
    assert_eq!(entries[3].kind, EntryKind::Submenu);
    assert_eq!(entries[3].name.as_deref(), Some("Sub"));
    assert_eq!(entries[4].name.as_deref(), Some("S1"));
    for e in entries.iter() {
        let gives_event = matches!(e.kind, EntryKind::Item | EntryKind::Checkable { .. });
        assert_eq!(gives_event, table.lookup(e.id).is_some());
        assert!(!e.disabled);
    }
}
