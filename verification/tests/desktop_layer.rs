//! Finding the desktop, recognising it, and giving it back.

use mywallpaper_desktop::error::AppError;
use mywallpaper_desktop::window_layer::desktop::{
    apply_injection, child_ex_style, child_style, detect_desktop, get_parent_process_id,
    ghost_hotspot, ghost_size, icon_shell, injected_ex_style, injected_style, monitor_bounds,
    on_display_change, rect_size, set_desktop_icons_visible, transparent_style, unhook_global,
    unregister_session_notif, wait_for_controller, ControllerWait, DesktopDetection, DesktopFacts,
    LayerState, Rect, RestorePlan, ShellSearch, WS_CHILD, WS_EX_LAYERED, WS_EX_TRANSPARENT,
    WS_POPUP, WS_VISIBLE,
};
use mywallpaper_desktop::window_layer::messages::Point;
use mywallpaper_desktop::window_layer::mouse_hook::HookState;
use mywallpaper_desktop::window_layer::probe::{
    is_over_desktop, Fact, Probe, WindowClass, WindowFacts,
};
use mywallpaper_desktop::window_layer::process_cache::{
    cross_process_lvm_send, item_answer, LvmEvent, LvmStep, ProcCache, Release,
};

const LEFT: Rect = Rect { left: -1920, top: 100, right: 0, bottom: 1180 };
const MAIN: Rect = Rect { left: 0, top: 0, right: 2560, bottom: 1440 };

fn facts() -> DesktopFacts {
    DesktopFacts {
        progman: Some(1),
        explorer_pid: 400,
        shell_view: 0,
        progman_worker: 0,
        search: ShellSearch::new(),
        shell_parent: 0,
        syslistview: 0,
        bounds: monitor_bounds(&vec![LEFT, MAIN]),
    }
}

#[test]
fn all_monitors_make_one_desktop() {
    let b = monitor_bounds(&vec![MAIN, LEFT]);
    assert_eq!(b, Rect { left: -1920, top: 0, right: 2560, bottom: 1440 });
    assert_eq!(rect_size(b), (4480, 1440));
    let none = monitor_bounds(&Vec::new());
    let expected =
        Rect { left: i32::MAX, top: i32::MAX, right: i32::MIN, bottom: i32::MIN };
    assert_eq!(none, expected);
    assert_eq!(rect_size(none).0, i32::MIN as i64 - i32::MAX as i64);
}

#[test]
fn a_desktop_of_the_newer_kind_is_found() {
    let f = DesktopFacts { shell_view: 2, progman_worker: 3, syslistview: 4, ..facts() };
    assert_eq!(icon_shell(f.shell_view, f.search), 2);
    assert_eq!(
        detect_desktop(&f).unwrap(),
        DesktopDetection {
            progman: 1,
            explorer_pid: 400,
            target_parent: 3,
            syslistview: 4,
            zorder_anchor: 2,
            v_width: 4480,
            v_height: 1440,
        }
    );
    let bare = detect_desktop(&DesktopFacts { progman_worker: 0, ..f }).unwrap();
    assert_eq!(bare.target_parent, 1);
}

#[test]
fn a_desktop_of_the_older_kind_is_found() {
    let mut search = ShellSearch::new();
    assert!(search.visit(0, 99));
    assert_eq!(search, ShellSearch::new());
    assert!(!search.visit(7, 8));
    let f = DesktopFacts { search, shell_parent: 9, syslistview: 4, ..facts() };
    assert_eq!(icon_shell(f.shell_view, f.search), 7);
    let d = detect_desktop(&f).unwrap();
    assert_eq!((d.target_parent, d.syslistview, d.zorder_anchor), (8, 4, 9));
}

#[test]
fn a_desktop_without_icons_is_found() {
    let d = detect_desktop(&DesktopFacts { shell_parent: 9, syslistview: 4, ..facts() }).unwrap();
    assert_eq!((d.target_parent, d.syslistview, d.zorder_anchor), (1, 0, 0));
    match detect_desktop(&DesktopFacts { progman: None, ..facts() }) {
        Err(AppError::WindowLayer(m)) => assert_eq!(m, "Could not find Progman"),
        _ => panic!("expected an error"),
    }
}

#[test]
fn the_web_view_is_placed() {
    let mut layer = LayerState::new();
    let mut state = HookState::new();
    let f = DesktopFacts { shell_view: 2, progman_worker: 3, syslistview: 4, ..facts() };
    let placed = layer.ensure_in_worker_w(&mut state, 50, detect_desktop(&f)).unwrap();
    assert_eq!(placed.target_parent, 3);
    assert_eq!((state.webview_hwnd, state.target_parent_hwnd, state.progman_hwnd), (50, 3, 1));
    assert_eq!((state.explorer_pid, state.syslistview_hwnd), (400, 4));
    assert_eq!(layer.watched_parent, 3);
    // An icon view that is not found again stays known.
    let again = detect_desktop(&facts()).unwrap();
    layer.adopt_detection(&mut state, &again);
    assert_eq!((state.target_parent_hwnd, state.syslistview_hwnd), (1, 4));
    assert_eq!((state.webview_hwnd, layer.watched_parent), (50, 1));
}

#[test]
fn a_failed_search_changes_nothing() {
    let mut layer = LayerState::new();
    let mut state = HookState::new();
    let found = detect_desktop(&DesktopFacts { progman: None, ..facts() });
    assert!(layer.ensure_in_worker_w(&mut state, 50, found).is_err());
    assert_eq!(state, HookState::new());
    assert_eq!(layer, LayerState::new());
}

#[test]
fn the_watchdog_looks_at_the_parent() {
    let mut layer = LayerState::new();
    assert!(!layer.watchdog_step(false));
    layer.watched_parent = 3;
    assert!(!layer.watchdog_step(true));
    assert!(layer.watchdog_step(false));
}

#[test]
fn an_injected_window_has_no_frame() {
    assert_eq!(injected_style(0xFFFF_FFFF), 0x7F30_FFFF);
    assert_eq!(injected_style(WS_POPUP), WS_CHILD | WS_VISIBLE);
    assert_eq!(injected_style(injected_style(0x1234_5678)), injected_style(0x1234_5678));
    assert_eq!(injected_ex_style(0xFFFF_FFFF), 0xF7F5_FCFE);
    assert_eq!(injected_ex_style(WS_EX_LAYERED | WS_EX_TRANSPARENT), WS_EX_TRANSPARENT);
    assert_eq!(child_style(0xFFFF_FFFF), 0xFF3B_FFFF);
    assert_eq!(child_ex_style(0xFFFF_FFFF), 0xFFFD_FCFE);
}

#[test]
fn an_injection_is_planned() {
    let d = DesktopDetection {
        progman: 1,
        explorer_pid: 400,
        target_parent: 3,
        syslistview: 4,
        zorder_anchor: 2,
        v_width: 4480,
        v_height: 1440,
    };
    assert_eq!(apply_injection(3, 0, 0, &d), None);
    let plan = apply_injection(0, WS_POPUP, WS_EX_LAYERED, &d).unwrap();
    assert_eq!((plan.style, plan.ex_style), (WS_CHILD | WS_VISIBLE, 0));
    assert_eq!((plan.target_parent, plan.width, plan.height), (3, 4480, 1440));
    assert_eq!(plan.behind, Some(2));
    let same = DesktopDetection { zorder_anchor: 3, ..d };
    assert_eq!(apply_injection(0, 0, 0, &same).unwrap().behind, None);
    let none = DesktopDetection { zorder_anchor: 0, ..d };
    assert_eq!(apply_injection(0, 0, 0, &none).unwrap().behind, None);
}

#[test]
fn the_controller_is_waited_for() {
    let mut state = HookState::new();
    assert_eq!(wait_for_controller(&mut state, 1, 0), ControllerWait::Retry { attempt: 2 });
    assert_eq!(wait_for_controller(&mut state, 99, 0), ControllerWait::Retry { attempt: 100 });
    assert_eq!(wait_for_controller(&mut state, 100, 0), ControllerWait::TimedOut);
    assert_eq!(state, HookState::new());
    assert_eq!(wait_for_controller(&mut state, 100, 8), ControllerWait::Found);
    assert_eq!(state.get_comp_controller_ptr(), 8);
}

#[test]
fn a_change_of_monitors_resizes_the_web_view() {
    let mut state = HookState::new();
    let change = on_display_change(&state, &vec![MAIN]).unwrap();
    assert_eq!((change.width, change.height), (2560, 1440));
    assert_eq!((change.webview, change.controller), (None, None));
    state.set_webview_hwnd(50);
    state.set_comp_controller_ptr(8);
    let change = on_display_change(&state, &vec![MAIN, LEFT]).unwrap();
    assert_eq!((change.width, change.height), (4480, 1440));
    assert_eq!((change.webview, change.controller), (Some(50), Some(8)));
    assert_eq!(on_display_change(&state, &Vec::new()), None);
    let flat = Rect { left: 0, top: 5, right: 10, bottom: 5 };
    assert_eq!(on_display_change(&state, &vec![flat]), None);
}

#[test]
fn icons_are_hidden_and_shown() {
    let mut state = HookState::new();
    let plan = set_desktop_icons_visible(&mut state, false);
    assert!(state.interface_mode);
    assert_eq!((plan.icon_view, plan.make_transparent), (None, None));
    state.set_syslistview_hwnd(4);
    state.chrome_rwhh = 30;
    let plan = set_desktop_icons_visible(&mut state, false);
    assert_eq!((plan.icon_view, plan.make_transparent), (Some(4), None));
    let plan = set_desktop_icons_visible(&mut state, true);
    assert!(!state.interface_mode);
    assert_eq!((plan.icon_view, plan.make_transparent), (Some(4), Some(30)));
    assert_eq!(transparent_style(0x100), Some(0x120));
    assert_eq!(transparent_style(0x120), None);
    assert_eq!(transparent_style(-1), None);
}

#[test]
fn icons_are_given_back_once() {
    let mut layer = LayerState::new();
    layer.mouse_hook = 11;
    let mut state = HookState::new();
    state.set_syslistview_hwnd(4);
    state.dispatch_hwnd = 6;
    let mut cache = ProcCache { handle: 70, pid: 400, buf: 71 };
    let plan = layer.restore_desktop_icons_and_unhook(&state, &mut cache);
    assert_eq!(
        plan,
        Some(RestorePlan {
            show_icons: Some(4),
            unhook_mouse: Some(11),
            unhook_keyboard: None,
            unregister_session: Some(6),
            release: Some(Release { handle: 70, buf: Some(71) }),
        })
    );
    assert_eq!(cache, ProcCache::new());
    assert_eq!(layer.restore_desktop_icons_and_unhook(&state, &mut cache), None);
    assert_eq!((unhook_global(0), unhook_global(5)), (None, Some(5)));
    assert_eq!(unregister_session_notif(&HookState::new()), None);
}

#[test]
fn parents_of_processes_are_looked_up() {
    let entries = vec![(4, 0), (100, 4), (200, 100), (100, 9)];
    assert_eq!(get_parent_process_id(&entries, 200), Some(100));
    assert_eq!(get_parent_process_id(&entries, 100), Some(4));
    assert_eq!(get_parent_process_id(&entries, 5), None);
}

#[test]
fn a_dragged_icon_has_a_ghost() {
    assert_eq!(ghost_size(Some(Rect { left: 5, top: 5, right: 80, bottom: 100 })), Some((75, 95)));
    assert_eq!(ghost_size(Some(Rect { left: 5, top: 5, right: 5, bottom: 100 })), None);
    assert_eq!(ghost_size(None), None);
    assert_eq!(ghost_hotspot(Point { x: 10, y: 20 }, Point { x: 4, y: 25 }), (6, -5));
}

fn probe(state: &mut HookState, hwnd: isize, world: &[(Fact, u32)]) -> (bool, Vec<Fact>) {
    let mut facts = WindowFacts::none();
    let mut asked: Vec<Fact> = Vec::new();
    for _ in 0..8 {
        match is_over_desktop(state, hwnd, &facts) {
            Probe::Settled { over } => return (over, asked),
            Probe::Need { fact } => {
                asked.push(fact);
                let v = world.iter().find(|w| w.0 == fact).map(|w| w.1).unwrap_or(0);
                match fact {
                    Fact::ChildOfProgman => facts.child_of_progman = Some(v == 1),
                    Fact::ChildOfTarget => facts.child_of_target = Some(v == 1),
                    Fact::Class => {
                        facts.class = Some(match v {
                            1 => WindowClass::XamlIsland,
                            2 => WindowClass::CoreWindow,
                            3 => WindowClass::RenderWidget,
                            _ => WindowClass::Other,
                        })
                    }
                    Fact::Pid => facts.pid = Some(v),
                    Fact::Parent => facts.parent = Some(v as isize),
                    Fact::ParentPid => facts.parent_pid = Some(v),
                    Fact::GrandparentPid => {
                        facts.grandparent_pid = Some(if v == 0 { None } else { Some(v) })
                    }
                }
            }
        }
    }
    panic!("too many facts")
}

fn placed() -> HookState {
    let mut state = HookState::new();
    state.set_webview_hwnd(50);
    state.set_target_parent_hwnd(3);
    state.set_progman_hwnd(1);
    state.set_syslistview_hwnd(4);
    state.set_explorer_pid(400);
    state.our_pid = 77;
    state
}

#[test]
fn known_windows_need_no_facts() {
    let mut state = placed();
    state.chrome_rwhh = 30;
    state.desktop_core_hwnd = 31;
    for hwnd in [1, 3, 4, 30, 31, 50] {
        assert_eq!(probe(&mut state, hwnd, &[]), (true, vec![]));
    }
}

#[test]
fn windows_inside_the_desktop_are_recognised() {
    let mut state = placed();
    let inside = [(Fact::ChildOfProgman, 1)];
    assert_eq!(probe(&mut state, 99, &inside), (true, vec![Fact::ChildOfProgman]));
    let target = [(Fact::ChildOfTarget, 1)];
    let asked = vec![Fact::ChildOfProgman, Fact::ChildOfTarget];
    assert_eq!(probe(&mut state, 99, &target), (true, asked));
    assert!(!probe(&mut state, 99, &[]).0);
    assert_eq!(state, placed());
}

#[test]
fn overlays_of_the_shell_are_recognised() {
    let mut state = placed();
    assert!(probe(&mut state, 99, &[(Fact::Class, 1), (Fact::Pid, 400)]).0);
    assert!(!probe(&mut state, 99, &[(Fact::Class, 1), (Fact::Pid, 401)]).0);
    assert_eq!(state, placed());
    assert!(!probe(&mut state, 98, &[(Fact::Class, 2), (Fact::Pid, 401)]).0);
    assert!(probe(&mut state, 98, &[(Fact::Class, 2), (Fact::Pid, 400)]).0);
    assert_eq!(state.desktop_core_hwnd, 98);
    assert_eq!(probe(&mut state, 98, &[]), (true, vec![]));
    state.set_explorer_pid(0);
    assert!(!probe(&mut state, 99, &[(Fact::Class, 1), (Fact::Pid, 0)]).0);
}

#[test]
fn the_own_render_window_is_discovered() {
    let mut state = placed();
    let ours = [(Fact::Class, 3), (Fact::Parent, 60), (Fact::ParentPid, 77)];
    assert!(probe(&mut state, 30, &ours).0);
    assert_eq!(state.chrome_rwhh, 30);
    let mut state = placed();
    let child = [
        (Fact::Class, 3),
        (Fact::Parent, 60),
        (Fact::ParentPid, 88),
        (Fact::GrandparentPid, 77),
    ];
    assert!(probe(&mut state, 30, &child).0);
    assert_eq!(state.chrome_rwhh, 30);
    // Once it is known, another one is none of ours.
    assert!(!probe(&mut state, 32, &child).0);
    let mut state = placed();
    let foreign = [(Fact::Class, 3), (Fact::Parent, 60), (Fact::ParentPid, 88)];
    assert!(!probe(&mut state, 30, &foreign).0);
    assert!(!probe(&mut state, 30, &[(Fact::Class, 3)]).0);
    assert_eq!(state, placed());
}

#[test]
fn one_process_is_kept_open() {
    let mut cache = ProcCache::new();
    assert_eq!(
        cross_process_lvm_send(&mut cache, LvmEvent::Owner { pid: 400 }),
        LvmStep::Open { pid: 400, release: None }
    );
    assert_eq!(
        cross_process_lvm_send(&mut cache, LvmEvent::Opened { pid: 400, opened: Some(70) }),
        LvmStep::Allocate { pid: 400, handle: 70 }
    );
    let allocated = LvmEvent::Allocated { pid: 400, handle: 70, remote: 71 };
    assert_eq!(
        cross_process_lvm_send(&mut cache, allocated),
        LvmStep::Write { handle: 70, buf: 71 }
    );
    assert_eq!(
        cross_process_lvm_send(&mut cache, LvmEvent::Written { ok: true }),
        LvmStep::Send
    );
    assert_eq!(
        cross_process_lvm_send(&mut cache, LvmEvent::Sent { result: 5 }),
        LvmStep::ReadBack { result: 5 }
    );
    // The next message finds everything in place.
    assert_eq!(cache.lookup(400), Some((70, 71)));
    assert_eq!(cache.lookup(401), None);
    assert_eq!(
        cross_process_lvm_send(&mut cache, LvmEvent::Owner { pid: 400 }),
        LvmStep::Write { handle: 70, buf: 71 }
    );
    let kept = cache;
    assert_eq!(cache.ensure_cached_proc(400), LvmStep::Write { handle: 70, buf: 71 });
    assert_eq!(cache, kept);
    // Another process takes its place.
    assert_eq!(
        cross_process_lvm_send(&mut cache, LvmEvent::Owner { pid: 500 }),
        LvmStep::Open { pid: 500, release: Some(Release { handle: 70, buf: Some(71) }) }
    );
    assert_eq!(cache, ProcCache::new());
}

#[test]
fn a_message_that_fails_gives_up() {
    let mut cache = ProcCache { handle: 70, pid: 400, buf: 71 };
    let nothing = LvmStep::GiveUp { release: None };
    assert_eq!(cross_process_lvm_send(&mut cache, LvmEvent::Owner { pid: 0 }), nothing);
    assert_eq!(cache.pid, 400);
    assert_eq!(
        cross_process_lvm_send(&mut cache, LvmEvent::Written { ok: false }),
        LvmStep::GiveUp { release: Some(Release { handle: 70, buf: Some(71) }) }
    );
    assert_eq!(cache, ProcCache::new());
    let unopened = LvmEvent::Opened { pid: 400, opened: None };
    assert_eq!(cross_process_lvm_send(&mut cache, unopened), nothing);
    let unallocated = LvmEvent::Allocated { pid: 400, handle: 70, remote: 0 };
    assert_eq!(
        cross_process_lvm_send(&mut cache, unallocated),
        LvmStep::GiveUp { release: Some(Release { handle: 70, buf: None }) }
    );
    assert_eq!(cache.invalidate_proc_cache_pub(), None);
    let mut cache = ProcCache { handle: 70, pid: 400, buf: 71 };
    let release = Some(Release { handle: 70, buf: Some(71) });
    assert_eq!(cache.ensure_cached_proc(0), LvmStep::Open { pid: 0, release });
    assert_eq!(cache, ProcCache::new());
    assert_eq!((item_answer(0, 9), item_answer(1, 9)), (None, Some(9)));
}
