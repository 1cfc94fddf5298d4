//! Mouse events from their delivery to their end.

use mywallpaper_desktop::window_layer::messages::{
    Point, LVM_SETHOTITEM, LVM_SETITEMPOSITION, MK_LBUTTON, MK_MBUTTON, MK_RBUTTON, MOUSE_HWHEEL,
    MOUSE_LDOWN, MOUSE_LUP, MOUSE_MDOWN, MOUSE_MOVE, MOUSE_MUP, MOUSE_RDOWN, MOUSE_RUP,
    MOUSE_WHEEL, WM_CONTEXTMENU, WM_KEYDOWN, WM_LBUTTONDBLCLK, WM_LBUTTONDOWN, WM_LBUTTONUP,
    WM_MBUTTONDOWN, WM_MBUTTONUP, WM_MOUSEHWHEEL, WM_MOUSEMOVE, WM_MOUSEWHEEL, WM_RBUTTONDOWN,
    WM_RBUTTONUP,
};
use mywallpaper_desktop::window_layer::messages::make_lparam;
use mywallpaper_desktop::window_layer::mouse_hook::{
    forward, held_keys_wparam, hook_proc, post_to_slv, HeldKeys, HookAction, HookInput, HookState,
    MouseEvent, Question, Reply,
};

const WEBVIEW: isize = 10;
const ICONS: isize = 20;
const RENDER: isize = 30;

const NO_KEYS: HeldKeys =
    HeldKeys { left: false, right: false, middle: false, shift: false, control: false };

struct World {
    over: bool,
    item: i32,
    icon: Option<Point>,
    cursor: Point,
    now: u64,
}

const ON_ICON: World = World {
    over: true,
    item: 3,
    icon: Some(Point { x: 90, y: 40 }),
    cursor: Point { x: 100, y: 60 },
    now: 1000,
};

const BESIDE: World =
    World { over: true, item: -1, icon: None, cursor: Point { x: 0, y: 0 }, now: 1000 };

fn ready() -> HookState {
    let mut state = HookState::new();
    state.set_webview_hwnd(WEBVIEW);
    state.set_syslistview_hwnd(ICONS);
    state.refresh_mouse_metrics(500, 8, 9, 4, 5);
    state
}

fn event(msg: u32, x: i32, y: i32) -> MouseEvent {
    MouseEvent { msg, pt: Point { x, y }, mouse_data: 0, time: 5000 }
}

fn run(state: &mut HookState, ev: MouseEvent, world: &World) -> (Vec<HookAction>, Reply) {
    let mut actions: Vec<HookAction> = Vec::new();
    let mut input = HookInput::Arrived { code: 0 };
    for _ in 0..4 {
        let step = hook_proc(state, ev, input);
        actions.extend(step.actions);
        input = match step.reply {
            Reply::Ask { question: Question::DesktopUnder } => {
                HookInput::OverDesktop { over: world.over }
            }
            Reply::Ask { question: Question::ItemUnder } => {
                HookInput::ItemUnder { item: world.item }
            }
            Reply::Ask { question: Question::ItemPosition { item } } => {
                assert_eq!(item, world.item);
                HookInput::ItemPosition { icon: world.icon, cursor: world.cursor }
            }
            Reply::Ask { question: Question::TickCount } => HookInput::TickCount { now: world.now },
            Reply::Ask { question: Question::HoverItem } => {
                HookInput::HoverItem { item: world.item }
            }
            reply => return (actions, reply),
        };
    }
    panic!("too many questions")
}

#[test]
fn an_idle_hook_is_transparent() {
    let ev = event(WM_LBUTTONDOWN, 1, 2);
    let mut state = HookState::new();
    assert_eq!(run(&mut state, ev, &ON_ICON), (vec![], Reply::PassOn));
    assert_eq!(state, HookState::new());
    let mut locked = ready();
    locked.session_active = false;
    let before = locked;
    assert_eq!(run(&mut locked, ev, &ON_ICON), (vec![], Reply::PassOn));
    assert_eq!(locked, before);
    let mut state = ready();
    let step = hook_proc(&mut state, ev, HookInput::Arrived { code: -1 });
    assert_eq!((step.actions, step.reply), (vec![], Reply::PassOn));
}

#[test]
fn events_elsewhere_are_passed_on() {
    let mut state = ready();
    let world = World { over: false, ..ON_ICON };
    for msg in [WM_LBUTTONDOWN, WM_RBUTTONDOWN, WM_MOUSEMOVE, WM_MOUSEWHEEL] {
        assert_eq!(run(&mut state, event(msg, 1, 2), &world), (vec![], Reply::PassOn));
    }
    assert_eq!(state, ready());
}

#[test]
fn a_right_click_on_an_icon_opens_its_menu() {
    let mut state = ready();
    let down = run(&mut state, event(WM_RBUTTONDOWN, 1, 2), &ON_ICON);
    assert_eq!(down, (vec![], Reply::Swallow));
    assert!(state.rclick_on_icon);
    let moved = run(&mut state, event(WM_MOUSEMOVE, 5, 5), &ON_ICON);
    assert_eq!(moved, (vec![], Reply::Swallow));
    let (actions, reply) = run(&mut state, event(WM_RBUTTONUP, 1, 2), &ON_ICON);
    assert_eq!(reply, Reply::Swallow);
    assert_eq!(
        actions,
        vec![
            HookAction::PostAtClient {
                hwnd: ICONS,
                msg: WM_LBUTTONDOWN,
                wparam: 1,
                offset_x: 0,
                offset_y: 0,
            },
            HookAction::PostAtClient {
                hwnd: ICONS,
                msg: WM_LBUTTONUP,
                wparam: 0,
                offset_x: 0,
                offset_y: 0,
            },
            HookAction::PostAtScreen { hwnd: ICONS, msg: WM_CONTEXTMENU, wparam: ICONS as u64 },
        ]
    );
    assert_eq!(state, ready());
}

#[test]
fn another_button_ends_a_right_click() {
    let mut state = ready();
    run(&mut state, event(WM_RBUTTONDOWN, 1, 2), &ON_ICON);
    let (actions, reply) = run(&mut state, event(WM_MBUTTONDOWN, 1, 2), &ON_ICON);
    assert_eq!(actions, vec![HookAction::Forward { webview: WEBVIEW }]);
    assert_eq!(reply, Reply::PassOn);
    assert!(!state.rclick_on_icon);
}

#[test]
fn a_drag_moves_the_icon_when_it_is_dropped() {
    let mut state = ready();
    let to_icons = vec![HookAction::PostToIcons { hwnd: ICONS }];
    let down = run(&mut state, event(WM_LBUTTONDOWN, 100, 60), &ON_ICON);
    assert_eq!(down, (to_icons.clone(), Reply::PassOn));
    assert!(state.drag.active);
    assert_eq!((state.drag.offset_x, state.drag.offset_y), (10, 20));
    // Up to the drag distance nothing happens.
    let near = run(&mut state, event(WM_MOUSEMOVE, 104, 65), &ON_ICON);
    assert_eq!(near, (vec![], Reply::PassOn));
    let far = run(&mut state, event(WM_MOUSEMOVE, 105, 60), &ON_ICON);
    assert_eq!(far, (vec![HookAction::StartGhost { hwnd: ICONS, item: 3 }], Reply::PassOn));
    let farther = run(&mut state, event(WM_MOUSEMOVE, 200, 60), &ON_ICON);
    assert_eq!(farther, (vec![HookAction::MoveGhost], Reply::PassOn));
    let other = run(&mut state, event(WM_MBUTTONDOWN, 200, 60), &ON_ICON);
    assert_eq!(other, (to_icons, Reply::PassOn));
    let drop = run(&mut state, event(WM_LBUTTONUP, 200, 60), &ON_ICON);
    assert_eq!(
        drop,
        (
            vec![
                HookAction::EndGhost,
                HookAction::PostAtClient {
                    hwnd: ICONS,
                    msg: LVM_SETITEMPOSITION,
                    wparam: 3,
                    offset_x: 10,
                    offset_y: 20,
                },
            ],
            Reply::PassOn,
        )
    );
    assert!(!state.drag.active && !state.drag.past_threshold);
}

#[test]
fn a_click_on_an_icon_is_no_drag() {
    let mut state = ready();
    run(&mut state, event(WM_LBUTTONDOWN, 100, 60), &ON_ICON);
    let up = run(&mut state, event(WM_LBUTTONUP, 101, 61), &ON_ICON);
    assert_eq!(up, (vec![HookAction::PostToIcons { hwnd: ICONS }], Reply::PassOn));
    assert!(!state.drag.active);
}

#[test]
fn an_unknown_icon_position_keeps_the_old_offset() {
    let mut state = ready();
    state.drag.offset_x = 7;
    let world = World { icon: None, ..ON_ICON };
    run(&mut state, event(WM_LBUTTONDOWN, 100, 60), &world);
    assert_eq!(state.drag.offset_x, 7);
}

#[test]
fn events_beside_icons_go_to_the_web_view() {
    let mut state = ready();
    for msg in [WM_LBUTTONDOWN, WM_RBUTTONDOWN, WM_LBUTTONUP, WM_MOUSEWHEEL] {
        let r = run(&mut state, event(msg, 1, 2), &BESIDE);
        assert_eq!(r, (vec![HookAction::Forward { webview: WEBVIEW }], Reply::PassOn));
    }
    // Without an icon view no icon is asked for.
    state.set_syslistview_hwnd(0);
    let r = run(&mut state, event(WM_LBUTTONDOWN, 1, 2), &ON_ICON);
    assert_eq!(r, (vec![HookAction::Forward { webview: WEBVIEW }], Reply::PassOn));
}

#[test]
fn the_hover_highlight_is_throttled() {
    let mut state = ready();
    let forwarded = HookAction::Forward { webview: WEBVIEW };
    let moved = event(WM_MOUSEMOVE, 1, 2);
    let hot = |wparam: u64| HookAction::PostPlain { hwnd: ICONS, msg: LVM_SETHOTITEM, wparam };
    assert_eq!(run(&mut state, moved, &ON_ICON).0, vec![hot(3), forwarded]);
    assert_eq!((state.hot_item, state.last_hover_tick), (3, 1000));
    let soon = World { now: 1049, ..BESIDE };
    assert_eq!(run(&mut state, moved, &soon).0, vec![forwarded]);
    assert_eq!(state.hot_item, 3);
    let same = World { now: 1050, ..ON_ICON };
    assert_eq!(run(&mut state, moved, &same).0, vec![forwarded]);
    let later = World { now: 1100, ..BESIDE };
    assert_eq!(run(&mut state, moved, &later).0, vec![hot(0xFFFF_FFFF), forwarded]);
    assert_eq!(state.hot_item, -1);
    // A counter that was set back counts as a long time.
    let back = World { now: 0, ..ON_ICON };
    assert_eq!(run(&mut state, moved, &back).0, vec![hot(3), forwarded]);
}

#[test]
fn interface_mode_leaves_icons_alone() {
    let mut state = ready();
    state.interface_mode = true;
    let before = state;
    assert_eq!(run(&mut state, event(WM_LBUTTONDOWN, 1, 2), &ON_ICON), (vec![], Reply::PassOn));
    state.chrome_rwhh = RENDER;
    for msg in [WM_LBUTTONDOWN, WM_RBUTTONDOWN, WM_MOUSEMOVE] {
        let r = run(&mut state, event(msg, 1, 2), &ON_ICON);
        assert_eq!(r, (vec![HookAction::PostHeldKeys { hwnd: RENDER }], Reply::PassOn));
    }
    let wheel = MouseEvent { mouse_data: 0xFF88_1234, ..event(WM_MOUSEWHEEL, 1, 2) };
    let posted =
        HookAction::PostAtScreen { hwnd: RENDER, msg: WM_MOUSEWHEEL, wparam: 0xFF88_0000 };
    assert_eq!(run(&mut state, wheel, &ON_ICON), (vec![posted], Reply::PassOn));
    state.chrome_rwhh = 0;
    assert_eq!(state, before);
}

#[test]
fn held_keys_become_a_key_state() {
    assert_eq!(held_keys_wparam(WM_MOUSEMOVE, NO_KEYS), 0);
    assert_eq!(held_keys_wparam(WM_LBUTTONDOWN, NO_KEYS), 0x01);
    assert_eq!(held_keys_wparam(WM_RBUTTONDOWN, NO_KEYS), 0x02);
    assert_eq!(held_keys_wparam(WM_MBUTTONDOWN, NO_KEYS), 0x10);
    let all = HeldKeys { left: true, right: true, middle: true, shift: true, control: true };
    assert_eq!(held_keys_wparam(WM_MOUSEMOVE, all), 0x1F);
    assert_eq!(held_keys_wparam(WM_MOUSEMOVE, HeldKeys { shift: true, ..NO_KEYS }), 0x04);
    assert_eq!(held_keys_wparam(WM_MOUSEMOVE, HeldKeys { control: true, ..NO_KEYS }), 0x08);
}

fn press(time: u32, x: i32, y: i32) -> MouseEvent {
    MouseEvent { time, ..event(WM_LBUTTONDOWN, x, y) }
}

#[test]
fn two_quick_presses_are_a_double_click() {
    let mut state = ready();
    let client = Point { x: 7, y: 8 };
    let mut post = |ev: MouseEvent| post_to_slv(&mut state, true, ev, client, NO_KEYS).unwrap();
    let first = post(press(5000, 100, 100));
    assert_eq!((first.msg, first.params.wparam), (WM_LBUTTONDOWN, 1));
    assert_eq!(first.params.lparam, make_lparam(7, 8));
    let second = post(press(5500, 104, 104));
    assert_eq!((second.msg, second.params.wparam), (WM_LBUTTONDBLCLK, 1));
    // The third press begins anew.
    assert_eq!(post(press(5600, 104, 104)).msg, WM_LBUTTONDOWN);
    // Too late, too far, or at the same moment.
    assert_eq!(post(press(6101, 104, 104)).msg, WM_LBUTTONDOWN);
    assert_eq!(post(press(6200, 109, 104)).msg, WM_LBUTTONDOWN);
    assert_eq!(post(press(6300, 109, 99)).msg, WM_LBUTTONDOWN);
    assert_eq!(post(press(6300, 109, 99)).msg, WM_LBUTTONDOWN);
    assert_eq!(post(press(6301, 109, 99)).msg, WM_LBUTTONDBLCLK);
}

#[test]
fn the_icon_view_gets_what_it_can_see() {
    let mut state = ready();
    let before = state;
    let client = Point { x: 7, y: 8 };
    let ev = press(5000, 100, 100);
    assert_eq!(post_to_slv(&mut state, false, ev, client, NO_KEYS), None);
    assert_eq!(state, before);
    let wheel = MouseEvent { mouse_data: 0x0078_FFFF, ..event(WM_MOUSEHWHEEL, 30, 40) };
    let keys = HeldKeys { control: true, ..NO_KEYS };
    let posted = post_to_slv(&mut state, true, wheel, client, keys).unwrap();
    assert_eq!(posted.msg, WM_MOUSEHWHEEL);
    assert_eq!(posted.params.wparam, 0x0078_0008);
    assert_eq!(posted.params.lparam, make_lparam(30, 40));
}

#[test]
fn the_web_view_gets_mouse_input() {
    let mut state = ready();
    for (msg, kind, vk, held) in [
        (WM_MOUSEMOVE, MOUSE_MOVE, 0, 0),
        (WM_LBUTTONDOWN, MOUSE_LDOWN, MK_LBUTTON, MK_LBUTTON),
        (WM_MOUSEMOVE, MOUSE_MOVE, MK_LBUTTON, MK_LBUTTON),
        (WM_LBUTTONUP, MOUSE_LUP, 0, 0),
        (WM_RBUTTONDOWN, MOUSE_RDOWN, MK_RBUTTON, MK_RBUTTON),
        (WM_RBUTTONUP, MOUSE_RUP, 0, 0),
        (WM_MBUTTONDOWN, MOUSE_MDOWN, MK_MBUTTON, MK_MBUTTON),
        (WM_MBUTTONUP, MOUSE_MUP, 0, 0),
    ] {
        let input = forward(&mut state, event(msg, 1, 2), -3, 4).unwrap();
        assert_eq!((input.kind, input.vk, input.data), (kind, vk, 0));
        assert_eq!((input.x, input.y), (-3, 4));
        assert_eq!(state.drag_vk, held);
    }
    for (msg, kind) in [(WM_MOUSEWHEEL, MOUSE_WHEEL), (WM_MOUSEHWHEEL, MOUSE_HWHEEL)] {
        let down = MouseEvent { mouse_data: 0xFF88_0001, ..event(msg, 1, 2) };
        let input = forward(&mut state, down, 0, 0).unwrap();
        assert_eq!((input.kind, input.vk, input.data), (kind, 0, -120i32 as u32));
        let up = MouseEvent { mouse_data: 0x0078_0001, ..event(msg, 1, 2) };
        assert_eq!(forward(&mut state, up, 0, 0).unwrap().data, 120);
    }
    assert_eq!(forward(&mut state, event(WM_KEYDOWN, 1, 2), 0, 0), None);
}

#[test]
fn mouse_metrics_are_halved_towards_zero() {
    let mut state = HookState::new();
    assert_eq!((state.metrics.drag_cx, state.metrics.drag_cy), (4, 4));
    state.refresh_mouse_metrics(500, 9, -9, 6, 7);
    assert_eq!(state.metrics.dblclick_time, 500);
    assert_eq!((state.metrics.dblclick_cx, state.metrics.dblclick_cy), (4, -4));
    assert_eq!((state.metrics.drag_cx, state.metrics.drag_cy), (6, 7));
}

#[test]
fn handles_are_kept() {
    let mut state = HookState::new();
    assert_eq!(state.get_syslistview_hwnd(), 0);
    state.set_target_parent_hwnd(1);
    state.set_progman_hwnd(2);
    state.set_explorer_pid(3);
    state.set_comp_controller_ptr(4);
    state.set_syslistview_hwnd(5);
    assert_eq!((state.target_parent_hwnd, state.progman_hwnd, state.explorer_pid), (1, 2, 3));
    assert_eq!((state.get_comp_controller_ptr(), state.get_syslistview_hwnd()), (4, 5));
    assert_eq!((state.get_dispatch_hwnd(), state.get_chrome_rwhh_raw()), (0, 0));
}
