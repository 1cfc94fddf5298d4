//! The low-level mouse hook: what becomes of each mouse event over the desktop.
//!
//! Handling one event alternates with questions to the platform (which window is under the
//! cursor, which icon). [`hook_proc`] is therefore one step: it takes what was learnt last, and
//! returns what to do and whether the event is passed on, swallowed, or needs another answer.

use vstd::prelude::*;

use crate::window_layer::messages;
use crate::window_layer::messages::{
    make_lparam, signed_word_of, MessageParams, MouseInput, Point, LVM_SETHOTITEM,
    LVM_SETITEMPOSITION, MK_LBUTTON, MK_MBUTTON, MK_NONE, MK_RBUTTON, MOUSE_HWHEEL, MOUSE_LDOWN,
    MOUSE_LUP, MOUSE_MDOWN, MOUSE_MOVE, MOUSE_MUP, MOUSE_RDOWN, MOUSE_RUP, MOUSE_WHEEL,
    WM_CONTEXTMENU, WM_LBUTTONDBLCLK, WM_LBUTTONDOWN, WM_LBUTTONUP, WM_MBUTTONDOWN, WM_MBUTTONUP,
    WM_MOUSEHWHEEL, WM_MOUSEMOVE, WM_MOUSEWHEEL, WM_RBUTTONDOWN, WM_RBUTTONUP,
};

verus! {

/// Milliseconds between two hit tests for the hover highlight.
pub const HOVER_INTERVAL: u64 = 50;

/// System settings that the hook compares against.
#[derive(Clone, Copy, PartialEq, Eq, Debug, Structural)]
pub struct MouseMetrics {
    /// Longest time between the two presses of a double click, in milliseconds.
    pub dblclick_time: u32,
    /// Farthest horizontal distance between the two presses of a double click.
    pub dblclick_cx: i32,
    /// Farthest vertical distance between the two presses of a double click.
    pub dblclick_cy: i32,
    /// Horizontal distance that the cursor has to leave behind before a press becomes a drag.
    pub drag_cx: i32,
    /// Vertical distance that the cursor has to leave behind before a press becomes a drag.
    pub drag_cy: i32,
}

/// A left press on an icon, until the button is released.
#[derive(Clone, Copy, PartialEq, Eq, Debug, Structural)]
pub struct DragState {
    /// The left button went down on an icon and is not up again.
    pub active: bool,
    /// The cursor has been farther from the press than the drag distance.
    pub past_threshold: bool,
    /// Screen point of the press.
    pub start: Point,
    /// Index of the icon.
    pub item: i32,
    /// From the icon's position to the cursor, horizontally.
    pub offset_x: i64,
    /// From the icon's position to the cursor, vertically.
    pub offset_y: i64,
}

/// The last left press that may become the first half of a double click.
#[derive(Clone, Copy, PartialEq, Eq, Debug, Structural)]
pub struct LastDown {
    pub time: u32,
    pub x: i32,
    pub y: i32,
}

/// Everything that the hooks remember. A handle of 0 stands for none.
#[derive(Clone, Copy, PartialEq, Eq, Debug, Structural)]
pub struct HookState {
    pub webview_hwnd: isize,
    pub syslistview_hwnd: isize,
    pub target_parent_hwnd: isize,
    pub progman_hwnd: isize,
    pub explorer_pid: u32,
    /// The shell's core window over the desktop, once it has been seen.
    pub desktop_core_hwnd: isize,
    pub comp_controller_ptr: isize,
    pub dispatch_hwnd: isize,
    /// The web view's render window, once it has been seen.
    pub chrome_rwhh: isize,
    pub our_pid: u32,
    /// The session is not locked.
    pub session_active: bool,
    /// Icons are hidden and the web view takes the input.
    pub interface_mode: bool,
    pub metrics: MouseMetrics,
    /// Button that is held in the web view, as a key state bit.
    pub drag_vk: i32,
    pub drag: DragState,
    /// The right button went down on an icon and is not up again.
    pub rclick_on_icon: bool,
    /// Icon that carries the hover highlight, or -1.
    pub hot_item: i32,
    pub last_hover_tick: u64,
    pub last_down: LastDown,
}

impl HookState {
    /// The state before anything is known of the desktop.
    pub fn new() -> (r: HookState)
        ensures
            r.webview_hwnd == 0,
            r.syslistview_hwnd == 0,
            r.target_parent_hwnd == 0,
            r.progman_hwnd == 0,
            r.explorer_pid == 0,
            r.desktop_core_hwnd == 0,
            r.comp_controller_ptr == 0,
            r.dispatch_hwnd == 0,
            r.chrome_rwhh == 0,
            r.our_pid == 0,
            r.session_active,
            !r.interface_mode,
            r.metrics == (MouseMetrics {
                dblclick_time: 0,
                dblclick_cx: 0,
                dblclick_cy: 0,
                drag_cx: 4,
                drag_cy: 4,
            }),
            r.drag_vk == 0,
            r.drag == (DragState {
                active: false,
                past_threshold: false,
                start: Point { x: 0, y: 0 },
                item: (-1) as i32,
                offset_x: 0,
                offset_y: 0,
            }),
            !r.rclick_on_icon,
            r.hot_item == -1,
            r.last_hover_tick == 0,
            r.last_down == (LastDown { time: 0, x: 0, y: 0 }),
    {
        HookState {
            webview_hwnd: 0,
            syslistview_hwnd: 0,
            target_parent_hwnd: 0,
            progman_hwnd: 0,
            explorer_pid: 0,
            desktop_core_hwnd: 0,
            comp_controller_ptr: 0,
            dispatch_hwnd: 0,
            chrome_rwhh: 0,
            our_pid: 0,
            session_active: true,
            interface_mode: false,
            metrics: MouseMetrics {
                dblclick_time: 0,
                dblclick_cx: 0,
                dblclick_cy: 0,
                drag_cx: 4,
                drag_cy: 4,
            },
            drag_vk: 0,
            drag: DragState {
                active: false,
                past_threshold: false,
                start: Point { x: 0, y: 0 },
                item: -1,
                offset_x: 0,
                offset_y: 0,
            },
            rclick_on_icon: false,
            hot_item: -1,
            last_hover_tick: 0,
            last_down: LastDown { time: 0, x: 0, y: 0 },
        }
    }

    pub fn set_webview_hwnd(&mut self, h: isize)
        ensures
            *final(self) == (HookState { webview_hwnd: h, ..*old(self) }),
    {
        self.webview_hwnd = h;
    }

    pub fn set_syslistview_hwnd(&mut self, h: isize)
        ensures
            *final(self) == (HookState { syslistview_hwnd: h, ..*old(self) }),
    {
        self.syslistview_hwnd = h;
    }

    pub fn set_target_parent_hwnd(&mut self, h: isize)
        ensures
            *final(self) == (HookState { target_parent_hwnd: h, ..*old(self) }),
    {
        self.target_parent_hwnd = h;
    }

    pub fn set_progman_hwnd(&mut self, h: isize)
        ensures
            *final(self) == (HookState { progman_hwnd: h, ..*old(self) }),
    {
        self.progman_hwnd = h;
    }

    pub fn set_explorer_pid(&mut self, pid: u32)
        ensures
            *final(self) == (HookState { explorer_pid: pid, ..*old(self) }),
    {
        self.explorer_pid = pid;
    }

    pub fn set_comp_controller_ptr(&mut self, p: isize)
        ensures
            *final(self) == (HookState { comp_controller_ptr: p, ..*old(self) }),
    {
        self.comp_controller_ptr = p;
    }

    pub fn get_syslistview_hwnd(&self) -> (r: isize)
        ensures
            r == self.syslistview_hwnd,
    {
        self.syslistview_hwnd
    }

    pub fn get_comp_controller_ptr(&self) -> (r: isize)
        ensures
            r == self.comp_controller_ptr,
    {
        self.comp_controller_ptr
    }

    pub fn get_dispatch_hwnd(&self) -> (r: isize)
        ensures
            r == self.dispatch_hwnd,
    {
        self.dispatch_hwnd
    }

    pub fn get_chrome_rwhh_raw(&self) -> (r: isize)
        ensures
            r == self.chrome_rwhh,
    {
        self.chrome_rwhh
    }
}

/// One mouse event as the platform reports it, in screen coordinates.
#[derive(Clone, Copy, PartialEq, Eq, Debug, Structural)]
pub struct MouseEvent {
    pub msg: u32,
    pub pt: Point,
    /// The wheel's rotation in the high word, for a wheel message.
    pub mouse_data: u32,
    /// Milliseconds on the clock of the event queue.
    pub time: u32,
}

/// What is known when a step begins.
#[derive(Clone, Copy, PartialEq, Eq, Debug, Structural)]
pub enum HookInput {
    /// The event has just been delivered, with the hook code of the platform.
    Arrived { code: i32 },
    /// Answers [`Question::DesktopUnder`].
    OverDesktop { over: bool },
    /// Answers [`Question::ItemUnder`]: the icon's index, negative for none.
    ItemUnder { item: i32 },
    /// Answers [`Question::ItemPosition`], both points in the icon view's coordinates.
    ItemPosition { icon: Option<Point>, cursor: Point },
    /// Answers [`Question::TickCount`], in milliseconds.
    TickCount { now: u64 },
    /// Answers [`Question::HoverItem`]: the icon's index, -1 for none.
    HoverItem { item: i32 },
}

/// What has to be asked of the platform before the event can be dealt with.
#[derive(Clone, Copy, PartialEq, Eq, Debug, Structural)]
pub enum Question {
    /// Does the window under the cursor belong to the desktop?
    DesktopUnder,
    /// Which icon of the icon view is under the cursor of a button press?
    ItemUnder,
    /// Where is this icon, and where is the cursor?
    ItemPosition { item: i32 },
    /// What time is it?
    TickCount,
    /// Which icon of the icon view is under the moving cursor?
    HoverItem,
}

/// What becomes of the event.
#[derive(Clone, Copy, PartialEq, Eq, Debug, Structural)]
pub enum Reply {
    /// Hand the event to the next hook.
    PassOn,
    /// Nobody else sees the event.
    Swallow,
    /// Come back with the answer.
    Ask { question: Question },
}

/// Something to do on the platform, in the order of the list that holds it.
#[derive(Clone, Copy, PartialEq, Eq, Debug, Structural)]
pub enum HookAction {
    /// Post a message whose second parameter is the cursor in screen coordinates.
    PostAtScreen { hwnd: isize, msg: u32, wparam: u64 },
    /// Post a message whose second parameter is the cursor in the window's coordinates, moved
    /// back by the offset.
    PostAtClient { hwnd: isize, msg: u32, wparam: u64, offset_x: i64, offset_y: i64 },
    /// Post the event's message at the cursor in the window's coordinates, with the buttons and
    /// modifiers that are held as its first parameter.
    PostHeldKeys { hwnd: isize },
    /// Post a message whose second parameter is 0.
    PostPlain { hwnd: isize, msg: u32, wparam: u64 },
    /// Hand the event to the icon view by way of [`post_to_slv`].
    PostToIcons { hwnd: isize },
    /// Show the image that follows a dragged icon.
    StartGhost { hwnd: isize, item: i32 },
    /// Move that image to the cursor.
    MoveGhost,
    /// Take that image away.
    EndGhost,
    /// Hand the event to the web view by way of [`forward`].
    Forward { webview: isize },
}

/// Outcome of one step.
#[derive(Debug)]
pub struct HookStep {
    pub actions: Vec<HookAction>,
    pub reply: Reply,
}

/// What a step leads to: the state after it, what to do, and what becomes of the event.
#[verifier::ext_equal]
pub struct Outcome {
    pub state: HookState,
    pub actions: Seq<HookAction>,
    pub reply: Reply,
}

pub open spec fn passed(state: HookState, actions: Seq<HookAction>) -> Outcome {
    Outcome { state, actions, reply: Reply::PassOn }
}

pub open spec fn asked(state: HookState, question: Question) -> Outcome {
    Outcome { state, actions: Seq::empty(), reply: Reply::Ask { question } }
}

pub open spec fn swallowed(state: HookState, actions: Seq<HookAction>) -> Outcome {
    Outcome { state, actions, reply: Reply::Swallow }
}

pub open spec fn abs_diff(a: int, b: int) -> int {
    if a < b {
        b - a
    } else {
        a - b
    }
}

/// The cursor is farther from the press than the drag distance, in one direction at least.
pub open spec fn beyond_threshold(state: HookState, pt: Point) -> bool {
    ||| abs_diff(pt.x as int, state.drag.start.x as int) > state.metrics.drag_cx
    ||| abs_diff(pt.y as int, state.drag.start.y as int) > state.metrics.drag_cy
}

pub open spec fn is_wheel(msg: u32) -> bool {
    msg == WM_MOUSEWHEEL || msg == WM_MOUSEHWHEEL
}

/// The high word of the mouse data, in the high word of a first parameter.
pub open spec fn wheel_wparam(mouse_data: u32) -> int {
    0x1_0000 * (mouse_data as int / 0x1_0000)
}

/// The messages that open an icon's context menu: a click that selects it, then the menu at the
/// cursor.
pub open spec fn context_menu_actions(slv: isize) -> Seq<HookAction> {
    if slv == 0 {
        Seq::empty()
    } else {
        seq![
            HookAction::PostAtClient {
                hwnd: slv,
                msg: WM_LBUTTONDOWN,
                wparam: MK_LBUTTON as u64,
                offset_x: 0,
                offset_y: 0,
            },
            HookAction::PostAtClient {
                hwnd: slv,
                msg: WM_LBUTTONUP,
                wparam: 0,
                offset_x: 0,
                offset_y: 0,
            },
            HookAction::PostAtScreen { hwnd: slv, msg: WM_CONTEXTMENU, wparam: slv as u64 },
        ]
    }
}

/// Nothing of an event is handled: the platform asks not to, there is no web view yet, or the
/// session is locked.
pub open spec fn hook_idle(state: HookState, code: i32) -> bool {
    code < 0 || state.webview_hwnd == 0 || !state.session_active
}

/// An event while an icon is held by the left button.
pub open spec fn drag_outcome(state: HookState, ev: MouseEvent) -> Outcome {
    let slv = state.syslistview_hwnd;
    let to_icons = if slv != 0 {
        seq![HookAction::PostToIcons { hwnd: slv }]
    } else {
        Seq::empty()
    };
    if ev.msg == WM_LBUTTONUP {
        let released = HookState {
            drag: DragState { active: false, past_threshold: false, ..state.drag },
            ..state
        };
        if !state.drag.past_threshold {
            passed(released, to_icons)
        } else if slv != 0 && state.drag.item >= 0 {
            passed(
                released,
                seq![
                    HookAction::EndGhost,
                    HookAction::PostAtClient {
                        hwnd: slv,
                        msg: LVM_SETITEMPOSITION,
                        wparam: state.drag.item as u64,
                        offset_x: state.drag.offset_x,
                        offset_y: state.drag.offset_y,
                    },
                ],
            )
        } else {
            passed(released, seq![HookAction::EndGhost])
        }
    } else if ev.msg == WM_MOUSEMOVE {
        if !beyond_threshold(state, ev.pt) {
            passed(state, Seq::empty())
        } else if state.drag.past_threshold {
            passed(state, seq![HookAction::MoveGhost])
        } else {
            passed(
                HookState { drag: DragState { past_threshold: true, ..state.drag }, ..state },
                if slv != 0 && state.drag.item >= 0 {
                    seq![HookAction::StartGhost { hwnd: slv, item: state.drag.item }]
                } else {
                    Seq::empty()
                },
            )
        }
    } else {
        passed(state, to_icons)
    }
}

/// An event that has just been delivered.
pub open spec fn arrived_outcome(state: HookState, ev: MouseEvent, code: i32) -> Outcome {
    let released = HookState { rclick_on_icon: false, ..state };
    if hook_idle(state, code) {
        passed(state, Seq::empty())
    } else if state.rclick_on_icon && ev.msg == WM_RBUTTONUP {
        swallowed(released, context_menu_actions(state.syslistview_hwnd))
    } else if state.rclick_on_icon && ev.msg == WM_MOUSEMOVE {
        swallowed(state, Seq::empty())
    } else if state.drag.active {
        drag_outcome(released, ev)
    } else {
        asked(released, Question::DesktopUnder)
    }
}

/// An event of which it is known whether it is over the desktop.
pub open spec fn over_outcome(state: HookState, ev: MouseEvent, over: bool) -> Outcome {
    let press = ev.msg == WM_LBUTTONDOWN || ev.msg == WM_RBUTTONDOWN;
    if !over {
        passed(state, Seq::empty())
    } else if state.interface_mode {
        if state.chrome_rwhh == 0 {
            passed(state, Seq::empty())
        } else if is_wheel(ev.msg) {
            passed(
                state,
                seq![
                    HookAction::PostAtScreen {
                        hwnd: state.chrome_rwhh,
                        msg: ev.msg,
                        wparam: wheel_wparam(ev.mouse_data) as u64,
                    },
                ],
            )
        } else {
            passed(state, seq![HookAction::PostHeldKeys { hwnd: state.chrome_rwhh }])
        }
    } else if press && state.syslistview_hwnd != 0 {
        asked(state, Question::ItemUnder)
    } else if ev.msg == WM_MOUSEMOVE && state.syslistview_hwnd != 0 {
        asked(state, Question::TickCount)
    } else {
        passed(state, seq![HookAction::Forward { webview: state.webview_hwnd }])
    }
}

/// A button press over the desktop of which the icon is known.
pub open spec fn item_outcome(state: HookState, ev: MouseEvent, item: i32) -> Outcome {
    if item < 0 {
        passed(state, seq![HookAction::Forward { webview: state.webview_hwnd }])
    } else if ev.msg == WM_LBUTTONDOWN {
        asked(
            HookState {
                drag: DragState {
                    active: true,
                    past_threshold: false,
                    start: ev.pt,
                    item,
                    ..state.drag
                },
                ..state
            },
            Question::ItemPosition { item },
        )
    } else {
        swallowed(HookState { rclick_on_icon: true, ..state }, Seq::empty())
    }
}

/// A left press on an icon of which the position is known, or could not be learnt.
pub open spec fn position_outcome(state: HookState, icon: Option<Point>, cursor: Point) -> Outcome {
    let drag = match icon {
        Some(p) => DragState {
            offset_x: (cursor.x - p.x) as i64,
            offset_y: (cursor.y - p.y) as i64,
            ..state.drag
        },
        None => state.drag,
    };
    passed(
        HookState { drag, ..state },
        seq![HookAction::PostToIcons { hwnd: state.syslistview_hwnd }],
    )
}

/// Milliseconds from `last` to `now`, on a counter that wraps around.
pub open spec fn ticks_since(now: u64, last: u64) -> int {
    (now - last) % 0x1_0000_0000_0000_0000
}

/// A move over the desktop at a known time.
pub open spec fn tick_outcome(state: HookState, now: u64) -> Outcome {
    if ticks_since(now, state.last_hover_tick) >= HOVER_INTERVAL {
        asked(HookState { last_hover_tick: now, ..state }, Question::HoverItem)
    } else {
        passed(state, seq![HookAction::Forward { webview: state.webview_hwnd }])
    }
}

/// A move over the desktop of which the icon is known.
pub open spec fn hover_outcome(state: HookState, item: i32) -> Outcome {
    let forward = HookAction::Forward { webview: state.webview_hwnd };
    passed(
        HookState { hot_item: item, ..state },
        if item != state.hot_item {
            seq![
                HookAction::PostPlain {
                    hwnd: state.syslistview_hwnd,
                    msg: LVM_SETHOTITEM,
                    wparam: messages::low_dword(item as int) as u64,
                },
                forward,
            ]
        } else {
            seq![forward]
        },
    )
}

/// What one step of the hook leads to.
pub open spec fn hook_outcome(state: HookState, ev: MouseEvent, input: HookInput) -> Outcome {
    match input {
        HookInput::Arrived { code } => arrived_outcome(state, ev, code),
        HookInput::OverDesktop { over } => over_outcome(state, ev, over),
        HookInput::ItemUnder { item } => item_outcome(state, ev, item),
        HookInput::ItemPosition { icon, cursor } => position_outcome(state, icon, cursor),
        HookInput::TickCount { now } => tick_outcome(state, now),
        HookInput::HoverItem { item } => hover_outcome(state, item),
    }
}

fn distance(a: i32, b: i32) -> (r: i64)
    ensures
        r == abs_diff(a as int, b as int),
{
    if a < b {
        b as i64 - a as i64
    } else {
        a as i64 - b as i64
    }
}

fn pass_on() -> (r: HookStep)
    ensures
        r.actions@ == Seq::<HookAction>::empty(),
        r.reply == Reply::PassOn,
{
    HookStep { actions: Vec::new(), reply: Reply::PassOn }
}

fn pass_after(action: HookAction) -> (r: HookStep)
    ensures
        r.actions@ == seq![action],
        r.reply == Reply::PassOn,
{
    let mut actions: Vec<HookAction> = Vec::new();
    actions.push(action);
    HookStep { actions, reply: Reply::PassOn }
}

fn ask(question: Question) -> (r: HookStep)
    ensures
        r.actions@ == Seq::<HookAction>::empty(),
        r.reply == (Reply::Ask { question }),
{
    HookStep { actions: Vec::new(), reply: Reply::Ask { question } }
}

fn drag_step(state: &mut HookState, ev: MouseEvent) -> (r: HookStep)
    ensures
        (Outcome { state: *final(state), actions: r.actions@, reply: r.reply }) =~= drag_outcome(
            *old(state),
            ev,
        ),
{
    let slv: isize = state.syslistview_hwnd;
    if ev.msg == WM_LBUTTONUP {
        let was_dragging = state.drag.past_threshold;
        state.drag.active = false;
        state.drag.past_threshold = false;
        if was_dragging {
            let mut step = pass_after(HookAction::EndGhost);
            if slv != 0 && state.drag.item >= 0 {
                step.actions.push(
                    HookAction::PostAtClient {
                        hwnd: slv,
                        msg: LVM_SETITEMPOSITION,
                        wparam: state.drag.item as u64,
                        offset_x: state.drag.offset_x,
                        offset_y: state.drag.offset_y,
                    },
                );
            }
            step
        } else if slv != 0 {
            pass_after(HookAction::PostToIcons { hwnd: slv })
        } else {
            pass_on()
        }
    } else if ev.msg == WM_MOUSEMOVE {
        let dx: i64 = distance(ev.pt.x, state.drag.start.x);
        let dy: i64 = distance(ev.pt.y, state.drag.start.y);
        if dx > state.metrics.drag_cx as i64 || dy > state.metrics.drag_cy as i64 {
            if state.drag.past_threshold {
                pass_after(HookAction::MoveGhost)
            } else {
                state.drag.past_threshold = true;
                if slv != 0 && state.drag.item >= 0 {
                    pass_after(HookAction::StartGhost { hwnd: slv, item: state.drag.item })
                } else {
                    pass_on()
                }
            }
        } else {
            pass_on()
        }
    } else if slv != 0 {
        pass_after(HookAction::PostToIcons { hwnd: slv })
    } else {
        pass_on()
    }
}

fn arrived_step(state: &mut HookState, ev: MouseEvent, code: i32) -> (r: HookStep)
    ensures
        (Outcome { state: *final(state), actions: r.actions@, reply: r.reply }) =~= arrived_outcome(
            *old(state),
            ev,
            code,
        ),
{
    if code < 0 || state.webview_hwnd == 0 || !state.session_active {
        return pass_on();
    }
    if state.rclick_on_icon {
        if ev.msg == WM_RBUTTONUP {
            state.rclick_on_icon = false;
            let slv: isize = state.syslistview_hwnd;
            let mut actions: Vec<HookAction> = Vec::new();
            if slv != 0 {
                actions.push(
                    HookAction::PostAtClient {
                        hwnd: slv,
                        msg: WM_LBUTTONDOWN,
                        wparam: MK_LBUTTON as u64,
                        offset_x: 0,
                        offset_y: 0,
                    },
                );
                actions.push(
                    HookAction::PostAtClient {
                        hwnd: slv,
                        msg: WM_LBUTTONUP,
                        wparam: 0,
                        offset_x: 0,
                        offset_y: 0,
                    },
                );
                actions.push(
                    HookAction::PostAtScreen {
                        hwnd: slv,
                        msg: WM_CONTEXTMENU,
                        wparam: slv as u64,
                    },
                );
            }
            return HookStep { actions, reply: Reply::Swallow };
        } else if ev.msg == WM_MOUSEMOVE {
            return HookStep { actions: Vec::new(), reply: Reply::Swallow };
        } else {
            state.rclick_on_icon = false;
        }
    }
    if state.drag.active {
        drag_step(state, ev)
    } else {
        ask(Question::DesktopUnder)
    }
}

fn over_step(state: &HookState, ev: MouseEvent, over: bool) -> (r: HookStep)
    ensures
        (Outcome { state: *state, actions: r.actions@, reply: r.reply }) =~= over_outcome(
            *state,
            ev,
            over,
        ),
{
    if !over {
        return pass_on();
    }
    if state.interface_mode {
        let rwhh: isize = state.chrome_rwhh;
        if rwhh == 0 {
            return pass_on();
        }
        if ev.msg == WM_MOUSEWHEEL || ev.msg == WM_MOUSEHWHEEL {
            let delta: u64 = (ev.mouse_data / 0x1_0000) as u64;
            return pass_after(
                HookAction::PostAtScreen { hwnd: rwhh, msg: ev.msg, wparam: 0x1_0000 * delta },
            );
        }
        return pass_after(HookAction::PostHeldKeys { hwnd: rwhh });
    }
    if (ev.msg == WM_LBUTTONDOWN || ev.msg == WM_RBUTTONDOWN) && state.syslistview_hwnd != 0 {
        ask(Question::ItemUnder)
    } else if ev.msg == WM_MOUSEMOVE && state.syslistview_hwnd != 0 {
        ask(Question::TickCount)
    } else {
        pass_after(HookAction::Forward { webview: state.webview_hwnd })
    }
}

/// One step in handling a mouse event.
pub fn hook_proc(state: &mut HookState, ev: MouseEvent, input: HookInput) -> (r: HookStep)
    ensures
        (Outcome { state: *final(state), actions: r.actions@, reply: r.reply }) =~= hook_outcome(
            *old(state),
            ev,
            input,
        ),
{
    match input {
        HookInput::Arrived { code } => arrived_step(state, ev, code),
        HookInput::OverDesktop { over } => over_step(state, ev, over),
        HookInput::ItemUnder { item } => {
            if item < 0 {
                pass_after(HookAction::Forward { webview: state.webview_hwnd })
            } else if ev.msg == WM_LBUTTONDOWN {
                state.drag.active = true;
                state.drag.past_threshold = false;
                state.drag.start = ev.pt;
                state.drag.item = item;
                ask(Question::ItemPosition { item })
            } else {
                state.rclick_on_icon = true;
                HookStep { actions: Vec::new(), reply: Reply::Swallow }
            }
        },
        HookInput::ItemPosition { icon, cursor } => {
            if let Some(p) = icon {
                state.drag.offset_x = cursor.x as i64 - p.x as i64;
                state.drag.offset_y = cursor.y as i64 - p.y as i64;
            }
            pass_after(HookAction::PostToIcons { hwnd: state.syslistview_hwnd })
        },
        HookInput::TickCount { now } => {
            if now.wrapping_sub(state.last_hover_tick) >= HOVER_INTERVAL {
                state.last_hover_tick = now;
                ask(Question::HoverItem)
            } else {
                pass_after(HookAction::Forward { webview: state.webview_hwnd })
            }
        },
        HookInput::HoverItem { item } => {
            let prev: i32 = state.hot_item;
            state.hot_item = item;
            let mut actions: Vec<HookAction> = Vec::new();
            if item != prev {
                let wparam: u64 = if item >= 0 {
                    item as u64
                } else {
                    (item as i64 + 0x1_0000_0000) as u64
                };
                actions.push(
                    HookAction::PostPlain {
                        hwnd: state.syslistview_hwnd,
                        msg: LVM_SETHOTITEM,
                        wparam,
                    },
                );
            }
            actions.push(HookAction::Forward { webview: state.webview_hwnd });
            HookStep { actions, reply: Reply::PassOn }
        },
    }
}

/// Buttons and modifiers that are held down.
#[derive(Clone, Copy, PartialEq, Eq, Debug, Structural)]
pub struct HeldKeys {
    pub left: bool,
    pub right: bool,
    pub middle: bool,
    pub shift: bool,
    pub control: bool,
}

/// A message ready to be posted.
#[derive(Clone, Copy, PartialEq, Eq, Debug, Structural)]
pub struct PostedMessage {
    pub msg: u32,
    pub params: MessageParams,
}

pub open spec fn bit(on: bool, value: int) -> int {
    if on {
        value
    } else {
        0
    }
}

/// The key state of a mouse message: what is held, and the button that the message itself presses.
pub open spec fn key_state(msg: u32, keys: HeldKeys) -> int {
    bit(msg == WM_LBUTTONDOWN || msg == WM_LBUTTONDBLCLK || keys.left, 0x01) + bit(
        msg == WM_RBUTTONDOWN || keys.right,
        0x02,
    ) + bit(msg == WM_MBUTTONDOWN || keys.middle, 0x10) + bit(keys.shift, 0x04) + bit(
        keys.control,
        0x08,
    )
}

/// A left press that is the second half of a double click.
pub open spec fn completes_double_click(state: HookState, ev: MouseEvent) -> bool {
    &&& ev.msg == WM_LBUTTONDOWN
    &&& 0 < ev.time - state.last_down.time <= state.metrics.dblclick_time
    &&& abs_diff(ev.pt.x as int, state.last_down.x as int) <= state.metrics.dblclick_cx
    &&& abs_diff(ev.pt.y as int, state.last_down.y as int) <= state.metrics.dblclick_cy
}

/// The last left press after an event has been handed to the icon view.
pub open spec fn next_last_down(state: HookState, ev: MouseEvent) -> LastDown {
    if completes_double_click(state, ev) {
        LastDown { time: 0, ..state.last_down }
    } else if ev.msg == WM_LBUTTONDOWN {
        LastDown { time: ev.time, x: ev.pt.x, y: ev.pt.y }
    } else {
        state.last_down
    }
}

/// The message that an event becomes for the icon view.
pub open spec fn icon_message(state: HookState, ev: MouseEvent) -> u32 {
    if completes_double_click(state, ev) {
        WM_LBUTTONDBLCLK
    } else {
        ev.msg
    }
}

fn sum_key_state(left: bool, right: bool, middle: bool, shift: bool, control: bool) -> (r: u64)
    ensures
        r == bit(left, 0x01) + bit(right, 0x02) + bit(middle, 0x10) + bit(shift, 0x04) + bit(
            control,
            0x08,
        ),
        r < 0x20,
        r % 2 == 1 <==> left,
        (r / 2) % 2 == 1 <==> right,
        (r / 4) % 2 == 1 <==> shift,
        (r / 8) % 2 == 1 <==> control,
        r / 16 == 1 <==> middle,
{
    let l: u64 = if left { 0x01 } else { 0 };
    let r: u64 = if right { 0x02 } else { 0 };
    let m: u64 = if middle { 0x10 } else { 0 };
    let s: u64 = if shift { 0x04 } else { 0 };
    let c: u64 = if control { 0x08 } else { 0 };
    l + r + m + s + c
}

proof fn lemma_key_state_below_rotation(w: u64, keys: u64, rotation: u64)
    requires
        keys < 0x20,
        rotation < 0x1_0000,
        w == 0x1_0000 * rotation + keys,
    ensures
        w % 2 == keys % 2,
        (w / 2) % 2 == (keys / 2) % 2,
        (w / 4) % 2 == (keys / 4) % 2,
        (w / 8) % 2 == (keys / 8) % 2,
        (w / 16) % 2 == keys / 16,
        (w / 32) % 0x800 == 0,
        w / 0x1_0000 == rotation,
{
    assert(w % 2 == keys % 2 && (w / 2) % 2 == (keys / 2) % 2 && (w / 4) % 2 == (keys / 4) % 2 && (w
        / 8) % 2 == (keys / 8) % 2 && (w / 16) % 2 == keys / 16 && (w / 32) % 0x800 == 0 && w
        / 0x1_0000 == rotation) by (bit_vector)
        requires
            keys < 0x20,
            rotation < 0x1_0000,
            w == 0x1_0000 * rotation + keys,
    ;
}

/// The key state of a mouse message that is handed to the web view in interface mode.
pub fn held_keys_wparam(msg: u32, keys: HeldKeys) -> (r: u64)
    ensures
        r == bit(msg == WM_LBUTTONDOWN || keys.left, 0x01) + bit(
            msg == WM_RBUTTONDOWN || keys.right,
            0x02,
        ) + bit(msg == WM_MBUTTONDOWN || keys.middle, 0x10) + bit(keys.shift, 0x04) + bit(
            keys.control,
            0x08,
        ),
        r < 0x20,
        r % 2 == 1 <==> msg == WM_LBUTTONDOWN || keys.left,
        (r / 2) % 2 == 1 <==> msg == WM_RBUTTONDOWN || keys.right,
        (r / 4) % 2 == 1 <==> keys.shift,
        (r / 8) % 2 == 1 <==> keys.control,
        r / 16 == 1 <==> msg == WM_MBUTTONDOWN || keys.middle,
{
    sum_key_state(
        msg == WM_LBUTTONDOWN || keys.left,
        msg == WM_RBUTTONDOWN || keys.right,
        msg == WM_MBUTTONDOWN || keys.middle,
        keys.shift,
        keys.control,
    )
}

/// Turns a mouse event into the message for the icon view, unless that view is hidden.
///
/// A posted press is never seen as half of a double click by the platform, so the second of two
/// quick presses at one place is turned into a double click here.
#[verifier::rlimit(40)]
#[verifier::spinoff_prover]
pub fn post_to_slv(
    state: &mut HookState,
    visible: bool,
    ev: MouseEvent,
    client: Point,
    keys: HeldKeys,
) -> (r: Option<PostedMessage>)
    ensures
        !visible ==> r is None && *final(state) == *old(state),
        visible ==> {
            &&& *final(state) == (HookState {
                last_down: next_last_down(*old(state), ev),
                ..*old(state)
            })
            &&& r matches Some(p) && {
                &&& p.msg == icon_message(*old(state), ev)
                &&& p.params.lparam == if is_wheel(ev.msg) {
                    messages::packed_point(ev.pt.x as int, ev.pt.y as int)
                } else {
                    messages::packed_point(client.x as int, client.y as int)
                }
                &&& p.params.wparam == key_state(p.msg, keys) + if is_wheel(ev.msg) {
                    wheel_wparam(ev.mouse_data)
                } else {
                    0
                }
                &&& p.params.wparam % 2 == 1 <==> p.msg == WM_LBUTTONDOWN || p.msg
                    == WM_LBUTTONDBLCLK || keys.left
                &&& (p.params.wparam / 2) % 2 == 1 <==> p.msg == WM_RBUTTONDOWN || keys.right
                &&& (p.params.wparam / 4) % 2 == 1 <==> keys.shift
                &&& (p.params.wparam / 8) % 2 == 1 <==> keys.control
                &&& (p.params.wparam / 16) % 2 == 1 <==> p.msg == WM_MBUTTONDOWN || keys.middle
                &&& (p.params.wparam / 32) % 0x800 == 0
                &&& p.params.wparam as int / 0x1_0000 == if ev.msg == WM_MOUSEWHEEL || ev.msg
                    == WM_MOUSEHWHEEL {
                    ev.mouse_data as int / 0x1_0000
                } else {
                    0
                }
            }
        },
{
    if !visible {
        return None;
    }
    let wheel = ev.msg == WM_MOUSEWHEEL || ev.msg == WM_MOUSEHWHEEL;
    let lparam: i64 = if wheel {
        make_lparam(ev.pt.x, ev.pt.y)
    } else {
        make_lparam(client.x, client.y)
    };
    let mut out_msg: u32 = ev.msg;
    if ev.msg == WM_LBUTTONDOWN {
        let dt: u32 = ev.time.saturating_sub(state.last_down.time);
        let dx: i64 = distance(ev.pt.x, state.last_down.x);
        let dy: i64 = distance(ev.pt.y, state.last_down.y);
        if dt > 0 && dt <= state.metrics.dblclick_time && dx <= state.metrics.dblclick_cx as i64
            && dy <= state.metrics.dblclick_cy as i64 {
            out_msg = WM_LBUTTONDBLCLK;
            state.last_down.time = 0;
        } else {
            state.last_down = LastDown { time: ev.time, x: ev.pt.x, y: ev.pt.y };
        }
    }
    let mk: u64 = sum_key_state(
        out_msg == WM_LBUTTONDOWN || out_msg == WM_LBUTTONDBLCLK || keys.left,
        out_msg == WM_RBUTTONDOWN || keys.right,
        out_msg == WM_MBUTTONDOWN || keys.middle,
        keys.shift,
        keys.control,
    );
    let wparam: u64 = if wheel {
        0x1_0000 * ((ev.mouse_data / 0x1_0000) as u64) + mk
    } else {
        mk
    };
    proof {
        let rotation: u64 = if wheel {
            (ev.mouse_data / 0x1_0000) as u64
        } else {
            0
        };
        lemma_key_state_below_rotation(wparam, mk, rotation);
    }
    Some(PostedMessage { msg: out_msg, params: MessageParams { wparam, lparam } })
}

/// The mouse input that an event becomes for the web view, and the button held there afterwards.
pub open spec fn forwarded(
    drag_vk: i32,
    ev: MouseEvent,
    cx: i32,
    cy: i32,
) -> (i32, Option<MouseInput>) {
    let input = |kind: i32, vk: i32| Some(MouseInput { kind, vk, data: 0, x: cx, y: cy });
    let wheel = |kind: i32|
        Some(
            MouseInput {
                kind,
                vk: MK_NONE,
                data: messages::low_dword(
                    messages::signed_word(ev.mouse_data as int / 0x1_0000),
                ) as u32,
                x: cx,
                y: cy,
            },
        );
    if ev.msg == WM_MOUSEMOVE {
        (drag_vk, input(MOUSE_MOVE, drag_vk))
    } else if ev.msg == WM_LBUTTONDOWN {
        (MK_LBUTTON, input(MOUSE_LDOWN, MK_LBUTTON))
    } else if ev.msg == WM_LBUTTONUP {
        (0, input(MOUSE_LUP, MK_NONE))
    } else if ev.msg == WM_RBUTTONDOWN {
        (MK_RBUTTON, input(MOUSE_RDOWN, MK_RBUTTON))
    } else if ev.msg == WM_RBUTTONUP {
        (0, input(MOUSE_RUP, MK_NONE))
    } else if ev.msg == WM_MBUTTONDOWN {
        (MK_MBUTTON, input(MOUSE_MDOWN, MK_MBUTTON))
    } else if ev.msg == WM_MBUTTONUP {
        (0, input(MOUSE_MUP, MK_NONE))
    } else if ev.msg == WM_MOUSEWHEEL {
        (drag_vk, wheel(MOUSE_WHEEL))
    } else if ev.msg == WM_MOUSEHWHEEL {
        (drag_vk, wheel(MOUSE_HWHEEL))
    } else {
        (drag_vk, None)
    }
}

fn wheel_data(mouse_data: u32) -> (r: u32)
    ensures
        r == messages::low_dword(messages::signed_word(mouse_data as int / 0x1_0000)),
{
    let delta: i32 = signed_word_of((mouse_data / 0x1_0000) as i64);
    if delta >= 0 {
        delta as u32
    } else {
        (delta as i64 + 0x1_0000_0000) as u32
    }
}

/// Turns a mouse event at a point of the web view into the input for its controller.
pub fn forward(state: &mut HookState, ev: MouseEvent, cx: i32, cy: i32) -> (r: Option<MouseInput>)
    ensures
        (final(state).drag_vk, r) == forwarded(old(state).drag_vk, ev, cx, cy),
        *final(state) == (HookState { drag_vk: final(state).drag_vk, ..*old(state) }),
{
    let mut kind: i32 = MOUSE_MOVE;
    let mut vk: i32 = MK_NONE;
    let mut data: u32 = 0;
    if ev.msg == WM_MOUSEMOVE {
        vk = state.drag_vk;
    } else if ev.msg == WM_LBUTTONDOWN {
        kind = MOUSE_LDOWN;
        vk = MK_LBUTTON;
        state.drag_vk = MK_LBUTTON;
    } else if ev.msg == WM_LBUTTONUP {
        kind = MOUSE_LUP;
        state.drag_vk = 0;
    } else if ev.msg == WM_RBUTTONDOWN {
        kind = MOUSE_RDOWN;
        vk = MK_RBUTTON;
        state.drag_vk = MK_RBUTTON;
    } else if ev.msg == WM_RBUTTONUP {
        kind = MOUSE_RUP;
        state.drag_vk = 0;
    } else if ev.msg == WM_MBUTTONDOWN {
        kind = MOUSE_MDOWN;
        vk = MK_MBUTTON;
        state.drag_vk = MK_MBUTTON;
    } else if ev.msg == WM_MBUTTONUP {
        kind = MOUSE_MUP;
        state.drag_vk = 0;
    } else if ev.msg == WM_MOUSEWHEEL {
        kind = MOUSE_WHEEL;
        data = wheel_data(ev.mouse_data);
    } else if ev.msg == WM_MOUSEHWHEEL {
        kind = MOUSE_HWHEEL;
        data = wheel_data(ev.mouse_data);
    } else {
        return None;
    }
    Some(MouseInput { kind, vk, data, x: cx, y: cy })
}

/// Half of a number, rounded towards zero.
pub open spec fn half(v: int) -> int {
    if v >= 0 {
        v / 2
    } else {
        -((-v) / 2)
    }
}

fn half_of(v: i32) -> (r: i32)
    ensures
        r == half(v as int),
{
    v / 2
}

impl HookState {
    /// Takes over the double click time and the sizes of the double click and drag rectangles
    /// from the system settings.
    pub fn refresh_mouse_metrics(
        &mut self,
        dblclick_time: u32,
        dblclick_width: i32,
        dblclick_height: i32,
        drag_width: i32,
        drag_height: i32,
    )
        ensures
            *final(self) == (HookState {
                metrics: MouseMetrics {
                    dblclick_time,
                    dblclick_cx: half(dblclick_width as int) as i32,
                    dblclick_cy: half(dblclick_height as int) as i32,
                    drag_cx: drag_width,
                    drag_cy: drag_height,
                },
                ..*old(self)
            }),
            dblclick_width >= 0 ==> 2 * final(self).metrics.dblclick_cx <= dblclick_width < 2
                * final(self).metrics.dblclick_cx + 2,
            dblclick_width < 0 ==> 2 * final(self).metrics.dblclick_cx - 2 < dblclick_width <= 2
                * final(self).metrics.dblclick_cx,
            dblclick_height >= 0 ==> 2 * final(self).metrics.dblclick_cy <= dblclick_height < 2
                * final(self).metrics.dblclick_cy + 2,
            dblclick_height < 0 ==> 2 * final(self).metrics.dblclick_cy - 2 < dblclick_height <= 2
                * final(self).metrics.dblclick_cy,
    {
        self.metrics = MouseMetrics {
            dblclick_time,
            dblclick_cx: half_of(dblclick_width),
            dblclick_cy: half_of(dblclick_height),
            drag_cx: drag_width,
            drag_cy: drag_height,
        };
    }
}

/// The web view gets the input of the same number as the mouse message, at the same point, and
/// nothing for a message of another kind. A press holds its own button from then on, a release
/// holds none, and a move and the wheel leave what is held. Wheel inputs carry the signed rotation
/// and no button, the others no data.
#[verifier::rlimit(40)]
pub proof fn lemma_web_view_input(drag_vk: i32, ev: MouseEvent, cx: i32, cy: i32)
    ensures
        ({
            let (held, input) = forwarded(drag_vk, ev, cx, cy);
            let wheel = ev.msg == WM_MOUSEWHEEL || ev.msg == WM_MOUSEHWHEEL;
            let up = ev.msg == WM_LBUTTONUP || ev.msg == WM_RBUTTONUP || ev.msg == WM_MBUTTONUP;
            let rotation = ev.mouse_data as int / 0x1_0000;
            &&& input is Some <==> wheel || up || ev.msg == WM_MOUSEMOVE || ev.msg == WM_LBUTTONDOWN
                || ev.msg == WM_RBUTTONDOWN || ev.msg == WM_MBUTTONDOWN
            &&& input matches Some(m) ==> {
                &&& m.kind == ev.msg && m.x == cx && m.y == cy
                &&& ev.msg == WM_LBUTTONDOWN ==> m.vk == 1 && held == 1
                &&& ev.msg == WM_RBUTTONDOWN ==> m.vk == 2 && held == 2
                &&& ev.msg == WM_MBUTTONDOWN ==> m.vk == 0x10 && held == 0x10
                &&& up ==> m.vk == 0 && held == 0
                &&& ev.msg == WM_MOUSEMOVE ==> m.vk == drag_vk && held == drag_vk
                &&& wheel ==> m.vk == 0 && held == drag_vk
                &&& !wheel ==> m.data == 0
                &&& wheel && rotation < 0x8000 ==> m.data == rotation
                &&& wheel && rotation >= 0x8000 ==> m.data == rotation + 0xFFFF_0000
            }
            &&& input is None ==> held == drag_vk
        }),
{
}

} // verus!
