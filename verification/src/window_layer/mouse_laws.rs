//! What holds of a mouse event from its delivery to its end, whatever the platform answers.

use vstd::prelude::*;

use crate::window_layer::messages::{
    LVM_SETHOTITEM, LVM_SETITEMPOSITION, MK_NONE, Point, WM_CONTEXTMENU, WM_LBUTTONDBLCLK,
    WM_LBUTTONDOWN, WM_LBUTTONUP, WM_MBUTTONUP, WM_MOUSEHWHEEL, WM_MOUSEMOVE, WM_MOUSEWHEEL,
    WM_RBUTTONDOWN, WM_RBUTTONUP,
};
use crate::window_layer::mouse_hook;
use crate::window_layer::mouse_hook::{
    DragState, HookAction, HookInput, HookState, LastDown, MouseEvent, Outcome, Question, Reply,
    HOVER_INTERVAL,
};

verus! {

/// One answer to each question that the hook may ask about an event.
pub struct Answers {
    pub over: bool,
    pub item: i32,
    pub icon: Option<Point>,
    pub cursor: Point,
    pub now: u64,
    pub hover: i32,
}

pub open spec fn answer(question: Question, a: Answers) -> HookInput {
    match question {
        Question::DesktopUnder => HookInput::OverDesktop { over: a.over },
        Question::ItemUnder => HookInput::ItemUnder { item: a.item },
        Question::ItemPosition { .. } => HookInput::ItemPosition { icon: a.icon, cursor: a.cursor },
        Question::TickCount => HookInput::TickCount { now: a.now },
        Question::HoverItem => HookInput::HoverItem { item: a.hover },
    }
}

/// Handles an event from `input` on, with at most `questions` questions asked on the way.
pub open spec fn run_from(
    state: HookState,
    ev: MouseEvent,
    input: HookInput,
    a: Answers,
    questions: nat,
) -> Outcome
    decreases questions,
{
    let o = mouse_hook::hook_outcome(state, ev, input);
    match o.reply {
        Reply::Ask { question } => if questions == 0 {
            o
        } else {
            let rest = run_from(o.state, ev, answer(question, a), a, (questions - 1) as nat);
            Outcome { state: rest.state, actions: o.actions + rest.actions, reply: rest.reply }
        },
        _ => o,
    }
}

/// Handles an event from its delivery on.
pub open spec fn event_outcome(state: HookState, ev: MouseEvent, code: i32, a: Answers) -> Outcome {
    run_from(state, ev, HookInput::Arrived { code }, a, 3)
}

/// Three questions are enough for every event: then it has been passed on or swallowed.
pub proof fn lemma_event_is_settled(state: HookState, ev: MouseEvent, code: i32, a: Answers)
    ensures
        event_outcome(state, ev, code, a).reply !is Ask,
{
    reveal_with_fuel(run_from, 4);
}

/// While the session is locked, or the web view is not there, or the platform says so, an event
/// is passed on and nothing is done or remembered.
pub proof fn lemma_idle_hook_is_transparent(
    state: HookState,
    ev: MouseEvent,
    code: i32,
    a: Answers,
)
    requires
        !state.session_active || state.webview_hwnd == 0 || code < 0,
    ensures
        event_outcome(state, ev, code, a) == (Outcome {
            state,
            actions: Seq::empty(),
            reply: Reply::PassOn,
        }),
{
    reveal_with_fuel(run_from, 4);
}

/// Only a right click on an icon is kept from the rest of the system: its press, the moves while
/// the button is held, and its release.
pub proof fn lemma_only_icon_right_click_is_swallowed(
    state: HookState,
    ev: MouseEvent,
    code: i32,
    a: Answers,
)
    ensures
        event_outcome(state, ev, code, a).reply == Reply::Swallow ==> {
            ||| state.rclick_on_icon && (ev.msg == WM_RBUTTONUP || ev.msg == WM_MOUSEMOVE)
            ||| ev.msg == WM_RBUTTONDOWN && a.over && a.item >= 0 && !state.interface_mode
        },
{
    reveal_with_fuel(run_from, 4);
}

/// A right press on an icon is swallowed and remembered, and moves no icon.
pub proof fn lemma_right_press_on_icon(state: HookState, ev: MouseEvent, code: i32, a: Answers)
    requires
        state.session_active && state.webview_hwnd != 0 && code >= 0,
        !state.interface_mode && !state.drag.active,
        state.syslistview_hwnd != 0,
        ev.msg == WM_RBUTTONDOWN && a.over && a.item >= 0,
    ensures
        event_outcome(state, ev, code, a) == (Outcome {
            state: HookState { rclick_on_icon: true, ..state },
            actions: Seq::empty(),
            reply: Reply::Swallow,
        }),
{
    reveal_with_fuel(run_from, 4);
    assert(event_outcome(state, ev, code, a).actions =~= Seq::empty());
}

/// After a right press on an icon, moves are swallowed without a trace, and the release is
/// swallowed, forgets the press and opens the icon's context menu.
pub proof fn lemma_right_release_opens_menu(
    state: HookState,
    ev: MouseEvent,
    code: i32,
    a: Answers,
)
    requires
        state.session_active && state.webview_hwnd != 0 && code >= 0,
        state.rclick_on_icon,
    ensures
        ev.msg == WM_MOUSEMOVE ==> event_outcome(state, ev, code, a) == (Outcome {
            state,
            actions: Seq::empty(),
            reply: Reply::Swallow,
        }),
        ev.msg == WM_RBUTTONUP ==> event_outcome(state, ev, code, a) == (Outcome {
            state: HookState { rclick_on_icon: false, ..state },
            actions: mouse_hook::context_menu_actions(state.syslistview_hwnd),
            reply: Reply::Swallow,
        }),
{
    reveal_with_fuel(run_from, 4);
}

/// A release of the left button ends every drag.
pub proof fn lemma_left_release_ends_drag(state: HookState, ev: MouseEvent, code: i32, a: Answers)
    requires
        state.session_active && state.webview_hwnd != 0 && code >= 0,
        ev.msg == WM_LBUTTONUP,
    ensures
        !event_outcome(state, ev, code, a).state.drag.active,
        state.drag.active ==> !event_outcome(state, ev, code, a).state.drag.past_threshold,
{
    reveal_with_fuel(run_from, 4);
}

/// An icon is moved only when the left button is released after a drag that went past the drag
/// distance, and then it is the icon that was pressed.
pub proof fn lemma_icon_moves_only_on_drop(
    state: HookState,
    ev: MouseEvent,
    code: i32,
    a: Answers,
    i: int,
)
    requires
        0 <= i < event_outcome(state, ev, code, a).actions.len(),
    ensures
        (event_outcome(state, ev, code, a).actions[i] matches HookAction::PostAtClient {
            hwnd,
            msg,
            wparam,
            offset_x,
            offset_y,
        } && msg == LVM_SETITEMPOSITION) ==> {
            &&& ev.msg == WM_LBUTTONUP
            &&& state.drag.active && state.drag.past_threshold
            &&& event_outcome(state, ev, code, a).actions[i] == (HookAction::PostAtClient {
                hwnd: state.syslistview_hwnd,
                msg: LVM_SETITEMPOSITION,
                wparam: state.drag.item as u64,
                offset_x: state.drag.offset_x,
                offset_y: state.drag.offset_y,
            })
        },
{
    reveal_with_fuel(run_from, 4);
}

/// A press on an icon that is released before the cursor has travelled the drag distance moves
/// no icon: the release goes to the icon view as a click.
pub proof fn lemma_click_on_icon_is_no_drag(
    state: HookState,
    ev: MouseEvent,
    code: i32,
    a: Answers,
)
    requires
        state.session_active && state.webview_hwnd != 0 && code >= 0,
        state.syslistview_hwnd != 0,
        state.drag.active && !state.drag.past_threshold,
        ev.msg == WM_LBUTTONUP,
    ensures
        event_outcome(state, ev, code, a).actions == seq![
            HookAction::PostToIcons { hwnd: state.syslistview_hwnd },
        ],
{
    reveal_with_fuel(run_from, 4);
}

/// In interface mode, with no click on an icon pending, an event goes to the web view's render
/// window or nowhere, and nothing is remembered.
pub proof fn lemma_interface_mode_leaves_icons_alone(
    state: HookState,
    ev: MouseEvent,
    code: i32,
    a: Answers,
)
    requires
        state.interface_mode,
        !state.drag.active && !state.rclick_on_icon,
    ensures
        event_outcome(state, ev, code, a).state == state,
        event_outcome(state, ev, code, a).reply == Reply::PassOn,
        forall|i: int|
            0 <= i < event_outcome(state, ev, code, a).actions.len() ==> {
                ||| #[trigger] event_outcome(state, ev, code, a).actions[i]
                    == (HookAction::PostHeldKeys { hwnd: state.chrome_rwhh })
                ||| event_outcome(state, ev, code, a).actions[i] matches HookAction::PostAtScreen {
                    hwnd,
                    ..
                } && hwnd == state.chrome_rwhh
            },
{
    reveal_with_fuel(run_from, 4);
}

/// The icon under a moving cursor is looked up at most once in the hover interval.
pub proof fn lemma_hover_is_throttled(state: HookState, ev: MouseEvent, now: u64)
    ensures
        ({
            let o = mouse_hook::hook_outcome(
                state,
                ev,
                HookInput::TickCount { now },
            );
            o.reply == (Reply::Ask { question: Question::HoverItem }) <==> (now
                - state.last_hover_tick) % 0x1_0000_0000_0000_0000 >= HOVER_INTERVAL
        }),
        ({
            let o = mouse_hook::hook_outcome(
                state,
                ev,
                HookInput::TickCount { now },
            );
            o.reply is Ask ==> o.state.last_hover_tick == now
        }),
{
}

/// After a button has been released in the web view no button is held there, and a move changes
/// nothing of what is held.
pub proof fn lemma_release_clears_held_button(drag_vk: i32, ev: MouseEvent, cx: i32, cy: i32)
    ensures
        (ev.msg == WM_LBUTTONUP || ev.msg == WM_RBUTTONUP || ev.msg == WM_MBUTTONUP)
            ==> mouse_hook::forwarded(drag_vk, ev, cx, cy).0 == MK_NONE,
        ev.msg == WM_MOUSEMOVE ==> mouse_hook::forwarded(
            drag_vk,
            ev,
            cx,
            cy,
        ).0 == drag_vk,
{
}

/// Two presses at one place within the double click time make a double click, and the press that
/// completed it is not the first half of another one, as long as the clock is past the double
/// click time.
pub proof fn lemma_double_click(
    state: HookState,
    first: MouseEvent,
    second: MouseEvent,
    third: MouseEvent,
)
    requires
        first.msg == WM_LBUTTONDOWN && second.msg == WM_LBUTTONDOWN,
        !mouse_hook::completes_double_click(state, first),
        first.pt == second.pt,
        first.time < second.time,
        second.time - first.time <= state.metrics.dblclick_time,
        0 <= state.metrics.dblclick_cx && 0 <= state.metrics.dblclick_cy,
        third.time > state.metrics.dblclick_time,
    ensures
        ({
            let after_first = HookState {
                last_down: mouse_hook::next_last_down(state, first),
                ..state
            };
            let after_second = HookState {
                last_down: mouse_hook::next_last_down(after_first, second),
                ..after_first
            };
            &&& mouse_hook::icon_message(after_first, second)
                == WM_LBUTTONDBLCLK
            &&& !mouse_hook::completes_double_click(after_second, third)
        }),
{
}

/// While an icon is held, the first move that leaves more than the drag distance behind, to either
/// side or up or down, makes the press a drag and shows the icon's image; further such moves move
/// that image. A move within the drag distance does nothing.
pub proof fn lemma_drag_starts_past_the_distance(
    state: HookState,
    ev: MouseEvent,
    code: i32,
    a: Answers,
)
    requires
        state.session_active && state.webview_hwnd != 0 && code >= 0,
        state.drag.active && !state.rclick_on_icon,
        ev.msg == WM_MOUSEMOVE,
    ensures
        ({
            let o = event_outcome(state, ev, code, a);
            let right = ev.pt.x - state.drag.start.x;
            let down = ev.pt.y - state.drag.start.y;
            let far = right > state.metrics.drag_cx || -right > state.metrics.drag_cx || down
                > state.metrics.drag_cy || -down > state.metrics.drag_cy;
            let shown = state.syslistview_hwnd != 0 && state.drag.item >= 0;
            &&& o.reply == Reply::PassOn
            &&& o.state.drag.past_threshold <==> state.drag.past_threshold || far
            &&& o.state == (HookState {
                drag: DragState { past_threshold: o.state.drag.past_threshold, ..state.drag },
                ..state
            })
            &&& !far ==> o.actions.len() == 0
            &&& far && state.drag.past_threshold ==> o.actions == seq![HookAction::MoveGhost]
            &&& far && !state.drag.past_threshold && shown ==> o.actions == seq![
                HookAction::StartGhost { hwnd: state.syslistview_hwnd, item: state.drag.item },
            ]
            &&& far && !state.drag.past_threshold && !shown ==> o.actions.len() == 0
        }),
{
    reveal_with_fuel(run_from, 4);
}

/// A left press on an icon takes hold of that icon at the cursor, and the icon view is told of the
/// press. How far the cursor is from the icon's position is kept, where that is known.
pub proof fn lemma_left_press_takes_the_icon(
    state: HookState,
    ev: MouseEvent,
    code: i32,
    a: Answers,
)
    requires
        state.session_active && state.webview_hwnd != 0 && code >= 0,
        !state.interface_mode && !state.drag.active,
        state.syslistview_hwnd != 0,
        ev.msg == WM_LBUTTONDOWN && a.over && a.item >= 0,
    ensures
        ({
            let o = event_outcome(state, ev, code, a);
            let drag = o.state.drag;
            &&& o.reply == Reply::PassOn
            &&& o.actions == seq![HookAction::PostToIcons { hwnd: state.syslistview_hwnd }]
            &&& o.state == (HookState { drag, rclick_on_icon: false, ..state })
            &&& drag.active && !drag.past_threshold
            &&& drag.start == ev.pt
            &&& drag.item == a.item
            &&& match a.icon {
                Some(at) => at.x + drag.offset_x == a.cursor.x && at.y + drag.offset_y
                    == a.cursor.y,
                None => drag.offset_x == state.drag.offset_x && drag.offset_y
                    == state.drag.offset_y,
            }
        }),
{
    reveal_with_fuel(run_from, 4);
    assert(event_outcome(state, ev, code, a).actions =~= seq![
        HookAction::PostToIcons { hwnd: state.syslistview_hwnd },
    ]);
}

/// The release that ends a drag takes the image away and puts the icon that was held where the
/// cursor is, less the distance that the cursor had from it. Nothing else changes but that nothing
/// is held any more.
pub proof fn lemma_drop_puts_the_icon_down(state: HookState, ev: MouseEvent, code: i32, a: Answers)
    requires
        state.session_active && state.webview_hwnd != 0 && code >= 0,
        state.drag.active && state.drag.past_threshold,
        ev.msg == WM_LBUTTONUP,
    ensures
        ({
            let o = event_outcome(state, ev, code, a);
            &&& o.reply == Reply::PassOn
            &&& o.state == (HookState {
                drag: DragState { active: false, past_threshold: false, ..state.drag },
                rclick_on_icon: false,
                ..state
            })
            &&& o.actions[0] == HookAction::EndGhost
            &&& o.actions.len() == 2 <==> state.syslistview_hwnd != 0 && state.drag.item >= 0
            &&& o.actions.len() <= 2
            &&& o.actions.len() == 2 ==> o.actions[1] == (HookAction::PostAtClient {
                hwnd: state.syslistview_hwnd,
                msg: LVM_SETITEMPOSITION,
                wparam: state.drag.item as u64,
                offset_x: state.drag.offset_x,
                offset_y: state.drag.offset_y,
            })
            &&& o.actions.len() >= 1
        }),
{
    reveal_with_fuel(run_from, 4);
}

/// An icon that is pressed, dragged beyond the drag distance and dropped ends as far from where it
/// was as the cursor has gone between press and drop. `dropped` is the cursor at the drop, in the
/// icon view's coordinates.
#[verifier::rlimit(40)]
pub proof fn lemma_dragged_icon_follows_the_cursor(
    state: HookState,
    press: MouseEvent,
    drag: MouseEvent,
    drop: MouseEvent,
    a: Answers,
    dropped: Point,
)
    requires
        state.session_active && state.webview_hwnd != 0,
        !state.interface_mode && !state.drag.active,
        state.syslistview_hwnd != 0,
        press.msg == WM_LBUTTONDOWN && a.over && a.item >= 0 && a.icon is Some,
        drag.msg == WM_MOUSEMOVE && drop.msg == WM_LBUTTONUP,
        ({
            ||| drag.pt.x - press.pt.x > state.metrics.drag_cx
            ||| press.pt.x - drag.pt.x > state.metrics.drag_cx
            ||| drag.pt.y - press.pt.y > state.metrics.drag_cy
            ||| press.pt.y - drag.pt.y > state.metrics.drag_cy
        }),
    ensures
        ({
            let held = event_outcome(state, press, 0, a).state;
            let moved = event_outcome(held, drag, 0, a).state;
            let end = event_outcome(moved, drop, 0, a);
            &&& end.actions.len() == 2
            &&& end.actions[1] matches HookAction::PostAtClient {
                hwnd,
                msg,
                wparam,
                offset_x,
                offset_y,
            } && {
                &&& hwnd == state.syslistview_hwnd && msg == LVM_SETITEMPOSITION
                &&& wparam == a.item
                &&& (dropped.x - offset_x) - a.icon->0.x == dropped.x - a.cursor.x
                &&& (dropped.y - offset_y) - a.icon->0.y == dropped.y - a.cursor.y
            }
            &&& !end.state.drag.active
        }),
{
    let held = event_outcome(state, press, 0, a).state;
    let moved = event_outcome(held, drag, 0, a).state;
    lemma_left_press_takes_the_icon(state, press, 0, a);
    lemma_drag_starts_past_the_distance(held, drag, 0, a);
    lemma_drop_puts_the_icon_down(moved, drop, 0, a);
}

/// While an icon is held, events other than moves and the release go to the icon view, if it is
/// known, and are passed on.
pub proof fn lemma_other_events_while_held_go_to_the_icons(
    state: HookState,
    ev: MouseEvent,
    code: i32,
    a: Answers,
)
    requires
        state.session_active && state.webview_hwnd != 0 && code >= 0,
        state.drag.active,
        ev.msg != WM_LBUTTONUP && ev.msg != WM_MOUSEMOVE,
        !(state.rclick_on_icon && ev.msg == WM_RBUTTONUP),
    ensures
        ({
            let o = event_outcome(state, ev, code, a);
            &&& o.reply == Reply::PassOn
            &&& o.state == (HookState { rclick_on_icon: false, ..state })
            &&& state.syslistview_hwnd == 0 ==> o.actions.len() == 0
            &&& state.syslistview_hwnd != 0 ==> o.actions == seq![
                HookAction::PostToIcons { hwnd: state.syslistview_hwnd },
            ]
        }),
{
    reveal_with_fuel(run_from, 4);
}

/// An event that is not over the desktop is passed on, with nothing done.
pub proof fn lemma_event_elsewhere_is_left_alone(
    state: HookState,
    ev: MouseEvent,
    code: i32,
    a: Answers,
)
    requires
        !state.drag.active && !state.rclick_on_icon,
        !a.over,
    ensures
        event_outcome(state, ev, code, a).actions.len() == 0,
        event_outcome(state, ev, code, a).reply == Reply::PassOn,
        event_outcome(state, ev, code, a).state == state,
{
    reveal_with_fuel(run_from, 4);
}

/// Over the wallpaper, beside the icons, every event goes to the web view and is passed on: a
/// press that hits no icon, and whatever is neither a press nor a move. Where there is no icon
/// view, presses and moves do too.
pub proof fn lemma_wallpaper_gets_the_event(
    state: HookState,
    ev: MouseEvent,
    code: i32,
    a: Answers,
)
    requires
        state.session_active && state.webview_hwnd != 0 && code >= 0,
        !state.drag.active && !state.rclick_on_icon,
        !state.interface_mode && a.over,
        ({
            ||| state.syslistview_hwnd == 0
            ||| a.item < 0 && (ev.msg == WM_LBUTTONDOWN || ev.msg == WM_RBUTTONDOWN)
            ||| ev.msg != WM_LBUTTONDOWN && ev.msg != WM_RBUTTONDOWN && ev.msg != WM_MOUSEMOVE
        }),
    ensures
        event_outcome(state, ev, code, a).actions == seq![
            HookAction::Forward { webview: state.webview_hwnd },
        ],
        event_outcome(state, ev, code, a).reply == Reply::PassOn,
        event_outcome(state, ev, code, a).state == state,
{
    reveal_with_fuel(run_from, 4);
    assert(event_outcome(state, ev, code, a).actions =~= seq![
        HookAction::Forward { webview: state.webview_hwnd },
    ]);
}

/// A move over the wallpaper always goes to the web view. The icon under it is looked up where the
/// last lookup is fifty milliseconds old or older, and the icon view is told of it exactly if it is
/// another one than before.
#[verifier::rlimit(40)]
pub proof fn lemma_move_over_the_wallpaper(state: HookState, ev: MouseEvent, code: i32, a: Answers)
    requires
        state.session_active && state.webview_hwnd != 0 && code >= 0,
        !state.drag.active && !state.rclick_on_icon,
        !state.interface_mode && a.over,
        state.syslistview_hwnd != 0 && ev.msg == WM_MOUSEMOVE,
        state.last_hover_tick <= a.now,
    ensures
        ({
            let o = event_outcome(state, ev, code, a);
            let due = a.now - state.last_hover_tick >= 50;
            &&& o.reply == Reply::PassOn
            &&& o.actions.len() > 0
            &&& o.actions.last() == (HookAction::Forward { webview: state.webview_hwnd })
            &&& !due ==> o.actions.len() == 1 && o.state == state
            &&& due ==> o.state == (HookState {
                hot_item: a.hover,
                last_hover_tick: a.now,
                ..state
            })
            &&& due && a.hover == state.hot_item ==> o.actions.len() == 1
            &&& due && a.hover != state.hot_item ==> o.actions.len() == 2 && {
                &&& o.actions[0] matches HookAction::PostPlain { hwnd, msg, wparam }
                &&& hwnd == state.syslistview_hwnd && msg == LVM_SETHOTITEM
                &&& a.hover >= 0 ==> wparam == a.hover
                &&& a.hover < 0 ==> wparam == 0x1_0000_0000 + a.hover
            }
        }),
{
    reveal_with_fuel(run_from, 4);
    let o = event_outcome(state, ev, code, a);
    let forward = HookAction::Forward { webview: state.webview_hwnd };
    if a.now - state.last_hover_tick >= 50 && a.hover != state.hot_item {
        assert(o.actions.len() == 2);
    } else {
        assert(o.actions =~= seq![forward]);
    }
}

/// In interface mode, over the desktop, a wheel event goes to the render window with the rotation
/// in its first parameter, at the cursor on the screen; every other event goes there with what is
/// held. Without a render window nothing is posted.
pub proof fn lemma_interface_mode_posts_to_the_render_window(
    state: HookState,
    ev: MouseEvent,
    code: i32,
    a: Answers,
)
    requires
        state.session_active && state.webview_hwnd != 0 && code >= 0,
        !state.drag.active && !state.rclick_on_icon,
        state.interface_mode && a.over,
    ensures
        ({
            let o = event_outcome(state, ev, code, a);
            let wheel = ev.msg == WM_MOUSEWHEEL || ev.msg == WM_MOUSEHWHEEL;
            &&& o.reply == Reply::PassOn
            &&& o.state == state
            &&& state.chrome_rwhh == 0 ==> o.actions.len() == 0
            &&& state.chrome_rwhh != 0 ==> o.actions.len() == 1
            &&& state.chrome_rwhh != 0 && !wheel ==> o.actions[0] == (HookAction::PostHeldKeys {
                hwnd: state.chrome_rwhh,
            })
            &&& state.chrome_rwhh != 0 && wheel ==> {
                &&& o.actions[0] matches HookAction::PostAtScreen { hwnd, msg, wparam }
                &&& hwnd == state.chrome_rwhh && msg == ev.msg
                &&& wparam + ev.mouse_data % 0x1_0000 == ev.mouse_data
                &&& wparam % 0x1_0000 == 0
            }
        }),
{
    reveal_with_fuel(run_from, 4);
}

/// The release of a right click on an icon selects the icon by a left click at the cursor and then
/// opens the menu there, where there is an icon view.
pub proof fn lemma_context_menu_messages(state: HookState, ev: MouseEvent, code: i32, a: Answers)
    requires
        state.session_active && state.webview_hwnd != 0 && code >= 0,
        state.rclick_on_icon && ev.msg == WM_RBUTTONUP,
    ensures
        ({
            let slv = state.syslistview_hwnd;
            let acts = event_outcome(state, ev, code, a).actions;
            &&& slv == 0 ==> acts.len() == 0
            &&& slv != 0 ==> acts.len() == 3 && {
                &&& acts[0] == (HookAction::PostAtClient {
                    hwnd: slv,
                    msg: WM_LBUTTONDOWN,
                    wparam: 1,
                    offset_x: 0,
                    offset_y: 0,
                })
                &&& acts[1] == (HookAction::PostAtClient {
                    hwnd: slv,
                    msg: WM_LBUTTONUP,
                    wparam: 0,
                    offset_x: 0,
                    offset_y: 0,
                })
                &&& acts[2] == (HookAction::PostAtScreen {
                    hwnd: slv,
                    msg: WM_CONTEXTMENU,
                    wparam: slv as u64,
                })
            }
        }),
{
    reveal_with_fuel(run_from, 4);
}

/// A left press is the second half of a double click exactly if it comes later than the last one,
/// within the double click time, and no farther from it than the double click distance to either
/// side and up and down. It then is no first half of another; any other press is.
pub proof fn lemma_which_press_is_a_double_click(state: HookState, ev: MouseEvent)
    requires
        ev.msg == WM_LBUTTONDOWN,
    ensures
        ({
            let right = ev.pt.x - state.last_down.x;
            let down = ev.pt.y - state.last_down.y;
            let m = state.metrics;
            let double = {
                &&& ev.time > state.last_down.time
                &&& ev.time <= state.last_down.time + m.dblclick_time
                &&& right <= m.dblclick_cx && -right <= m.dblclick_cx
                &&& down <= m.dblclick_cy && -down <= m.dblclick_cy
            };
            &&& double ==> mouse_hook::icon_message(state, ev) == WM_LBUTTONDBLCLK
            &&& !double ==> mouse_hook::icon_message(state, ev) == WM_LBUTTONDOWN
            &&& double ==> mouse_hook::next_last_down(state, ev) == (LastDown {
                time: 0,
                ..state.last_down
            })
            &&& !double ==> mouse_hook::next_last_down(state, ev) == (LastDown {
                time: ev.time,
                x: ev.pt.x,
                y: ev.pt.y,
            })
        }),
{
}

/// Events other than left presses reach the icon view as what they are, and leave the last press
/// as it was.
pub proof fn lemma_other_messages_stay_what_they_are(state: HookState, ev: MouseEvent)
    requires
        ev.msg != WM_LBUTTONDOWN,
    ensures
        mouse_hook::icon_message(state, ev) == ev.msg,
        mouse_hook::next_last_down(state, ev) == state.last_down,
{
}

/// After a right press on an icon, an event that is neither a move nor the release of that button
/// forgets the press, and is handled as if there had been none.
pub proof fn lemma_other_event_forgets_the_right_press(
    state: HookState,
    ev: MouseEvent,
    code: i32,
    a: Answers,
)
    requires
        state.session_active && state.webview_hwnd != 0 && code >= 0,
        ev.msg != WM_RBUTTONUP && ev.msg != WM_MOUSEMOVE,
    ensures
        event_outcome(state, ev, code, a) == event_outcome(
            HookState { rclick_on_icon: false, ..state },
            ev,
            code,
            a,
        ),
{
    reveal_with_fuel(run_from, 4);
}

/// A release before the drag distance was left behind lets go of the icon and is handed to the icon
/// view, if there is one; nothing else changes, and the event is passed on.
pub proof fn lemma_click_lets_go_of_the_icon(
    state: HookState,
    ev: MouseEvent,
    code: i32,
    a: Answers,
)
    requires
        state.session_active && state.webview_hwnd != 0 && code >= 0,
        state.drag.active && !state.drag.past_threshold,
        ev.msg == WM_LBUTTONUP,
    ensures
        ({
            let o = event_outcome(state, ev, code, a);
            &&& o.reply == Reply::PassOn
            &&& o.state == (HookState {
                drag: DragState { active: false, ..state.drag },
                rclick_on_icon: false,
                ..state
            })
            &&& state.syslistview_hwnd == 0 ==> o.actions.len() == 0
            &&& state.syslistview_hwnd != 0 ==> o.actions == seq![
                HookAction::PostToIcons { hwnd: state.syslistview_hwnd },
            ]
        }),
{
    reveal_with_fuel(run_from, 4);
}

} // verus!
