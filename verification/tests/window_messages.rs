//! Message numbers, packing, dispatch, keys and class names.

use mywallpaper_desktop::mouse_leave::{
    concerns_leave, mouseleave_hook_proc, prop_is_set, LeaveAction, LeaveProps,
};
use mywallpaper_desktop::window_layer::class_name::{classify, is_class_name};
use mywallpaper_desktop::window_layer::desktop;
use mywallpaper_desktop::window_layer::dispatch::{
    dispatch_wnd_proc, nccalc_subclass_proc, Dispatched, FrameMessage,
};
use mywallpaper_desktop::window_layer::keyboard::{
    character_messages, key_is_held, keyboard_hook_proc, typed_chars, types_characters, KeyEvent,
};
use mywallpaper_desktop::window_layer::messages;
use mywallpaper_desktop::window_layer::messages::{
    make_lparam, offset_lparam, post_mouse, signed_dword_of, signed_word_of, unpack_mouse, word_of,
    MessageParams, MouseInput, Point,
};
use mywallpaper_desktop::window_layer::mouse_hook::HookState;
use mywallpaper_desktop::window_layer::probe::WindowClass;

#[test]
fn message_numbers_are_those_of_the_platform() {
    for (ours, theirs) in [
        (messages::WM_NULL, 0),
        (messages::WM_SETTINGCHANGE, 26),
        (messages::WM_CONTEXTMENU, 123),
        (messages::WM_DISPLAYCHANGE, 126),
        (messages::WM_NCDESTROY, 130),
        (messages::WM_NCCALCSIZE, 131),
        (messages::WM_KEYDOWN, 256),
        (messages::WM_KEYUP, 257),
        (messages::WM_CHAR, 258),
        (messages::WM_SYSKEYDOWN, 260),
        (messages::WM_SYSKEYUP, 261),
        (messages::WM_SYSCHAR, 262),
        (messages::WM_MOUSEMOVE, 512),
        (messages::WM_LBUTTONDOWN, 513),
        (messages::WM_LBUTTONUP, 514),
        (messages::WM_LBUTTONDBLCLK, 515),
        (messages::WM_RBUTTONDOWN, 516),
        (messages::WM_RBUTTONUP, 517),
        (messages::WM_MBUTTONDOWN, 519),
        (messages::WM_MBUTTONUP, 520),
        (messages::WM_MOUSEWHEEL, 522),
        (messages::WM_MOUSEHWHEEL, 526),
        (messages::WM_WTSSESSION_CHANGE, 689),
        (messages::WTS_SESSION_LOCK, 7),
        (messages::WTS_SESSION_UNLOCK, 8),
        (messages::WM_APP, 32768),
        (messages::WM_MOUSELEAVE, 675),
        (messages::LVM_FIRST, 4096),
        (messages::LVM_GETITEMRECT, 4110),
        (messages::LVM_SETITEMPOSITION, 4111),
        (messages::LVM_GETITEMPOSITION, 4112),
        (messages::LVM_HITTEST, 4114),
        (messages::LVM_SETHOTITEM, 4156),
        (messages::WM_MWP_MOUSE, 32768 + 42),
        (messages::WM_MWP_SETBOUNDS_PUB, 32768 + 43),
    ] {
        assert_eq!(ours, theirs);
    }
}

#[test]
fn styles_are_those_of_the_platform() {
    for (ours, theirs) in [
        (desktop::WS_MAXIMIZEBOX, 0x00010000),
        (desktop::WS_MINIMIZEBOX, 0x00020000),
        (desktop::WS_THICKFRAME, 0x00040000),
        (desktop::WS_SYSMENU, 0x00080000),
        (desktop::WS_DLGFRAME, 0x00400000),
        (desktop::WS_BORDER, 0x00800000),
        (desktop::WS_CAPTION, 0x00C00000),
        (desktop::WS_VISIBLE, 0x10000000),
        (desktop::WS_CHILD, 0x40000000),
        (desktop::WS_POPUP, 0x80000000),
    ] {
        assert_eq!(ours, theirs);
    }
    for (ours, theirs) in [
        (desktop::WS_EX_DLGMODALFRAME, 0x00000001),
        (desktop::WS_EX_TRANSPARENT, 0x00000020),
        (desktop::WS_EX_WINDOWEDGE, 0x00000100),
        (desktop::WS_EX_CLIENTEDGE, 0x00000200),
        (desktop::WS_EX_STATICEDGE, 0x00020000),
        (desktop::WS_EX_LAYERED, 0x00080000),
        (desktop::WS_EX_NOACTIVATE, 0x08000000),
    ] {
        assert_eq!(ours, theirs);
    }
}

#[test]
fn points_are_packed_in_words() {
    assert_eq!(make_lparam(0, 0), 0);
    assert_eq!(make_lparam(1, 2), 0x0002_0001);
    assert_eq!(make_lparam(-1, -1), 0xFFFF_FFFF);
    assert_eq!(make_lparam(-1920, 1080), 0x0438_F880);
    assert_eq!(make_lparam(0x12345, 0), 0x2345);
    assert_eq!(offset_lparam(Point { x: 10, y: 20 }, 3, 25), make_lparam(7, -5));
    assert_eq!(offset_lparam(Point { x: 10, y: 20 }, 0, 0), make_lparam(10, 20));
    for v in [0i64, 1, -1, 0x7FFF, 0x8000, -0x8000, 0x1_2345, i64::MIN, i64::MAX] {
        assert_eq!(word_of(v), v as u16 as u32);
        assert_eq!(signed_word_of(v), v as i16 as i32);
        assert_eq!(signed_dword_of(v as u64), v as i32);
    }
}

#[test]
fn mouse_input_survives_packing() {
    let input = MouseInput { kind: 0x020A, vk: 0x13, data: 0xFFFF_FF88, x: -5, y: 32767 };
    let params = post_mouse(1, input).unwrap();
    assert_eq!(params.wparam, 0xFFFF_FF88_0013_020A);
    assert_eq!(params.lparam, make_lparam(-5, 32767));
    assert_eq!(unpack_mouse(params), input);
    assert_eq!(post_mouse(0, input), None);
}

#[test]
fn far_points_are_cut_to_words() {
    let input = MouseInput { kind: 0x0200, vk: -1, data: 0, x: 40000, y: -40000 };
    let back = unpack_mouse(post_mouse(1, input).unwrap());
    assert_eq!((back.vk, back.x, back.y), (0xFFFF, 40000 - 65536, 65536 - 40000));
}

#[test]
fn the_dispatch_window_serves_the_controller() {
    let mut state = HookState::new();
    let bounds = MessageParams { wparam: 3840, lparam: 2160 };
    let msg = messages::WM_MWP_SETBOUNDS_PUB;
    assert_eq!(dispatch_wnd_proc(&mut state, msg, bounds), Dispatched::Handled);
    state.set_comp_controller_ptr(9);
    assert_eq!(
        dispatch_wnd_proc(&mut state, msg, bounds),
        Dispatched::SetBounds { controller: 9, width: 3840, height: 2160 }
    );
    let wide = MessageParams { wparam: 0xFFFF_FFFF, lparam: -2 };
    assert_eq!(
        dispatch_wnd_proc(&mut state, msg, wide),
        Dispatched::SetBounds { controller: 9, width: -1, height: -2 }
    );
}

#[test]
fn a_press_is_preceded_by_a_move() {
    let mut state = HookState::new();
    let msg = messages::WM_MWP_MOUSE;
    for (kind, synced) in [
        (messages::MOUSE_LDOWN, true),
        (messages::MOUSE_RDOWN, true),
        (messages::MOUSE_MDOWN, true),
        (messages::MOUSE_LUP, false),
        (messages::MOUSE_MOVE, false),
        (messages::MOUSE_WHEEL, false),
    ] {
        let input = MouseInput { kind, vk: 1, data: 7, x: 3, y: 4 };
        let params = post_mouse(1, input).unwrap();
        state.set_comp_controller_ptr(0);
        assert_eq!(dispatch_wnd_proc(&mut state, msg, params), Dispatched::Handled);
        state.set_comp_controller_ptr(5);
        let expected = MouseInput { kind: messages::MOUSE_MOVE, vk: 1, data: 0, x: 3, y: 4 };
        let sync = if synced { Some(expected) } else { None };
        assert_eq!(
            dispatch_wnd_proc(&mut state, msg, params),
            Dispatched::SendMouse { controller: 5, sync, input }
        );
    }
}

#[test]
fn the_session_follows_the_lock() {
    let mut state = HookState::new();
    let mut change = |wparam: u64| {
        let params = MessageParams { wparam, lparam: 0 };
        let r = dispatch_wnd_proc(&mut state, messages::WM_WTSSESSION_CHANGE, params);
        assert_eq!(r, Dispatched::Handled);
        state.session_active
    };
    assert!(!change(7));
    assert!(!change(1));
    assert!(change(8));
    assert!(change(1));
}

#[test]
fn other_messages_of_the_dispatch_window() {
    let mut state = HookState::new();
    let none = MessageParams { wparam: 0, lparam: 0 };
    for (msg, expected) in [
        (messages::WM_DISPLAYCHANGE, Dispatched::DisplayChange),
        (messages::WM_SETTINGCHANGE, Dispatched::SettingsChange),
        (messages::WM_MOUSEMOVE, Dispatched::Default),
    ] {
        assert_eq!(dispatch_wnd_proc(&mut state, msg, none), expected);
    }
    assert_eq!(state, HookState::new());
    assert_eq!(nccalc_subclass_proc(messages::WM_NCCALCSIZE), FrameMessage::NoFrame);
    assert_eq!(nccalc_subclass_proc(messages::WM_NCDESTROY), FrameMessage::Detach);
    assert_eq!(nccalc_subclass_proc(messages::WM_NULL), FrameMessage::Default);
}

#[test]
fn keys_go_to_the_web_view_in_interface_mode() {
    let key = KeyEvent { msg: messages::WM_KEYDOWN, vk_code: 0x41, scan_code: 0x11E, flags: 1 };
    let mut state = HookState::new();
    assert_eq!(keyboard_hook_proc(&state, 0, key), None);
    state.interface_mode = true;
    assert_eq!(keyboard_hook_proc(&state, 0, key), None);
    state.chrome_rwhh = 77;
    assert_eq!(keyboard_hook_proc(&state, -1, key), None);
    let post = keyboard_hook_proc(&state, 0, key).unwrap();
    assert_eq!((post.hwnd, post.msg), (77, messages::WM_KEYDOWN));
    assert_eq!(post.params, MessageParams { wparam: 0x41, lparam: 0x011E_0001 });
    assert_eq!(post.char_msg, Some(messages::WM_CHAR));
    for (msg, lparam, char_msg) in [
        (messages::WM_KEYUP, 0xC01E_0001i64, None),
        (messages::WM_SYSKEYDOWN, 0x201E_0001, Some(messages::WM_SYSCHAR)),
        (messages::WM_SYSKEYUP, 0xE01E_0001, None),
    ] {
        let post = keyboard_hook_proc(&state, 0, KeyEvent { msg, flags: 2, ..key }).unwrap();
        assert_eq!((post.params.lparam, post.char_msg), (lparam, char_msg));
    }
}

#[test]
fn typed_characters_are_posted_one_by_one() {
    assert!(key_is_held(0x80) && key_is_held(0xFF));
    assert!(!key_is_held(0x7F) && !key_is_held(1));
    let chars = [0x61, 0x301, 0, 9];
    assert_eq!(typed_chars(2, &chars), vec![0x61, 0x301]);
    assert_eq!(typed_chars(4, &chars), vec![0x61, 0x301, 0, 9]);
    assert_eq!(typed_chars(0, &chars), Vec::<u64>::new());
    assert_eq!(typed_chars(-1, &chars), Vec::<u64>::new());
}

#[test]
fn shortcuts_are_not_typed() {
    let mut state = HookState::new();
    state.interface_mode = true;
    state.chrome_rwhh = 77;
    let chars = [0x63, 0x301, 0, 0];
    let key = KeyEvent { msg: messages::WM_KEYDOWN, vk_code: 0x43, scan_code: 0x2E, flags: 0 };
    let post = keyboard_hook_proc(&state, 0, key).unwrap();
    assert!(types_characters(&post, 0x01));
    let typed = character_messages(&post, 0x01, 2, &chars);
    assert_eq!(typed.len(), 2);
    assert_eq!((typed[0].msg, typed[1].msg), (messages::WM_CHAR, messages::WM_CHAR));
    assert_eq!((typed[0].params.wparam, typed[1].params.wparam), (0x63, 0x301));
    assert_eq!(typed[0].params.lparam, post.params.lparam);
    assert_eq!(character_messages(&post, 0x01, -1, &chars), vec![]);
    // With the control key held nothing is typed.
    assert!(!types_characters(&post, 0x80));
    assert_eq!(character_messages(&post, 0x81, 2, &chars), vec![]);
    let system = KeyEvent { msg: messages::WM_SYSKEYDOWN, ..key };
    let post = keyboard_hook_proc(&state, 0, system).unwrap();
    assert_eq!(character_messages(&post, 0, 1, &chars)[0].msg, messages::WM_SYSCHAR);
    let up = KeyEvent { msg: messages::WM_KEYUP, ..key };
    let post = keyboard_hook_proc(&state, 0, up).unwrap();
    assert!(!types_characters(&post, 0));
    assert_eq!(character_messages(&post, 0, 1, &chars), vec![]);
}

fn wide(s: &str) -> Vec<u16> {
    s.encode_utf16().collect()
}

#[test]
fn class_names_are_compared_exactly() {
    assert!(is_class_name(&wide("SysListView32"), "SysListView32"));
    assert!(!is_class_name(&wide("SysListView3"), "SysListView32"));
    assert!(!is_class_name(&wide("SysListView33"), "SysListView32"));
    assert!(!is_class_name(&[], "x"));
    assert!(is_class_name(&[], ""));
    // Names beyond ASCII are compared by their code units as well.
    assert!(is_class_name(&wide("é"), "é"));
    assert!(!is_class_name(&wide("éx"), "é"));
    assert!(!is_class_name(&wide("e"), "é"));
    assert!(is_class_name(&wide("a\u{1F600}b"), "a\u{1F600}b"));
    assert!(!is_class_name(&wide("\u{1F600}ab"), "\u{1F600}"));
    assert!(!is_class_name(&wide("\u{1F601}"), "\u{1F600}"));
    assert!(!is_class_name(&wide("\u{1F600}")[..1], "\u{1F600}"));
}

#[test]
fn classes_of_the_desktop_are_told_apart() {
    let class = |s: &str| classify(&wide(s));
    assert!(matches!(class("XamlExplorerHostIslandWindow"), WindowClass::XamlIsland));
    assert!(matches!(class("Windows.UI.Core.CoreWindow"), WindowClass::CoreWindow));
    assert!(matches!(class("Chrome_RenderWidgetHostHWND"), WindowClass::RenderWidget));
    assert!(matches!(class("Notepad"), WindowClass::Other));
}

#[test]
fn leave_messages_are_taken_out() {
    let props = LeaveProps { target: true, explicit: false, suppressed: 4 };
    let leave = messages::WM_MOUSELEAVE;
    assert!(prop_is_set(1) && prop_is_set(-1) && !prop_is_set(0));
    assert!(concerns_leave(0, true, leave));
    assert!(!concerns_leave(-1, true, leave));
    assert!(!concerns_leave(0, false, leave));
    assert!(!concerns_leave(0, true, messages::WM_MOUSEMOVE));
    assert_eq!(
        mouseleave_hook_proc(0, true, leave, props),
        LeaveAction::Replace { message: messages::WM_NULL, count: 5 }
    );
    let full = LeaveProps { suppressed: u64::MAX, ..props };
    assert_eq!(
        mouseleave_hook_proc(0, true, leave, full),
        LeaveAction::Replace { message: messages::WM_NULL, count: 0 }
    );
    let explicit = LeaveProps { explicit: true, ..props };
    assert_eq!(mouseleave_hook_proc(0, true, leave, explicit), LeaveAction::ClearExplicit);
    let other = LeaveProps { target: false, ..explicit };
    assert_eq!(mouseleave_hook_proc(0, true, leave, other), LeaveAction::PassThrough);
    assert_eq!(mouseleave_hook_proc(-1, true, leave, props), LeaveAction::PassThrough);
    assert_eq!(
        mouseleave_hook_proc(0, true, messages::WM_MOUSEMOVE, props),
        LeaveAction::PassThrough
    );
}
