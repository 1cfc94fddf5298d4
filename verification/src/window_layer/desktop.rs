//! Finding the desktop, putting the web view behind its icons, and giving the icons back.

use vstd::prelude::*;

use crate::error::{AppError, AppResult};
use crate::error;
use crate::window_layer::messages::Point;
use crate::window_layer::mouse_hook::HookState;
use crate::window_layer::process_cache;
use crate::window_layer::process_cache::{ProcCache, Release};

verus! {

pub const WS_MAXIMIZEBOX: u32 = 0x0001_0000;

pub const WS_MINIMIZEBOX: u32 = 0x0002_0000;

pub const WS_THICKFRAME: u32 = 0x0004_0000;

pub const WS_SYSMENU: u32 = 0x0008_0000;

pub const WS_DLGFRAME: u32 = 0x0040_0000;

pub const WS_BORDER: u32 = 0x0080_0000;

pub const WS_CAPTION: u32 = 0x00C0_0000;

pub const WS_VISIBLE: u32 = 0x1000_0000;

pub const WS_CHILD: u32 = 0x4000_0000;

pub const WS_POPUP: u32 = 0x8000_0000;

pub const WS_EX_DLGMODALFRAME: u32 = 0x0000_0001;

pub const WS_EX_TRANSPARENT: u32 = 0x0000_0020;

pub const WS_EX_WINDOWEDGE: u32 = 0x0000_0100;

pub const WS_EX_CLIENTEDGE: u32 = 0x0000_0200;

pub const WS_EX_STATICEDGE: u32 = 0x0002_0000;

pub const WS_EX_LAYERED: u32 = 0x0008_0000;

pub const WS_EX_NOACTIVATE: u32 = 0x0800_0000;

/// A rectangle, its right and bottom edges not part of it.
#[derive(Clone, Copy, PartialEq, Eq, Debug, Structural)]
pub struct Rect {
    pub left: i32,
    pub top: i32,
    pub right: i32,
    pub bottom: i32,
}

/// `v` is the least of the values that `f` takes on the rectangles, or the greatest number where
/// there are none.
pub open spec fn is_least(rects: Seq<Rect>, f: spec_fn(Rect) -> i32, v: i32) -> bool {
    &&& forall|i: int| 0 <= i < rects.len() ==> v <= f(#[trigger] rects[i])
    &&& if rects.len() == 0 {
        v == i32::MAX
    } else {
        exists|i: int| 0 <= i < rects.len() && v == f(#[trigger] rects[i])
    }
}

/// `v` is the greatest of the values that `f` takes on the rectangles, or the least number where
/// there are none.
pub open spec fn is_greatest(rects: Seq<Rect>, f: spec_fn(Rect) -> i32, v: i32) -> bool {
    &&& forall|i: int| 0 <= i < rects.len() ==> f(#[trigger] rects[i]) <= v
    &&& if rects.len() == 0 {
        v == i32::MIN
    } else {
        exists|i: int| 0 <= i < rects.len() && v == f(#[trigger] rects[i])
    }
}

/// `b` is the smallest rectangle around all the rectangles.
pub open spec fn bounds_all(rects: Seq<Rect>, b: Rect) -> bool {
    &&& is_least(rects, |r: Rect| r.left, b.left)
    &&& is_least(rects, |r: Rect| r.top, b.top)
    &&& is_greatest(rects, |r: Rect| r.right, b.right)
    &&& is_greatest(rects, |r: Rect| r.bottom, b.bottom)
}

/// The smallest rectangle around all monitors: the virtual desktop.
pub fn monitor_bounds(rects: &Vec<Rect>) -> (b: Rect)
    ensures
        bounds_all(rects@, b),
{
    let mut b = Rect { left: i32::MAX, top: i32::MAX, right: i32::MIN, bottom: i32::MIN };
    let mut i: usize = 0;
    while i < rects.len()
        invariant
            i <= rects@.len(),
            bounds_all(rects@.take(i as int), b),
        decreases rects@.len() - i,
    {
        let r = rects[i];
        let ghost before = b;
        let ghost seen = rects@.take(i as int);
        let ghost now = rects@.take(i + 1);
        if r.left < b.left {
            b.left = r.left;
        }
        if r.top < b.top {
            b.top = r.top;
        }
        if r.right > b.right {
            b.right = r.right;
        }
        if r.bottom > b.bottom {
            b.bottom = r.bottom;
        }
        proof {
            assert(now.len() == seen.len() + 1);
            assert(forall|j: int| 0 <= j < seen.len() ==> now[j] == seen[j]);
            assert(now[i as int] == r);
            lemma_least_of_more(seen, now, |r: Rect| r.left, before.left, b.left);
            lemma_least_of_more(seen, now, |r: Rect| r.top, before.top, b.top);
            lemma_greatest_of_more(seen, now, |r: Rect| r.right, before.right, b.right);
            lemma_greatest_of_more(seen, now, |r: Rect| r.bottom, before.bottom, b.bottom);
        }
        i += 1;
    }
    assert(rects@.take(i as int) =~= rects@);
    b
}

proof fn lemma_least_of_more(
    seen: Seq<Rect>,
    now: Seq<Rect>,
    f: spec_fn(Rect) -> i32,
    before: i32,
    after: i32,
)
    requires
        now.len() == seen.len() + 1,
        forall|j: int| 0 <= j < seen.len() ==> now[j] == seen[j],
        is_least(seen, f, before),
        after == if f(now.last()) < before {
            f(now.last())
        } else {
            before
        },
    ensures
        is_least(now, f, after),
{
    let n = now.len() - 1;
    assert(now[n] == now.last());
    if f(now.last()) >= before && seen.len() > 0 {
        let j = choose|j: int| 0 <= j < seen.len() && before == f(#[trigger] seen[j]);
        assert(after == f(now[j]));
    }
}

proof fn lemma_greatest_of_more(
    seen: Seq<Rect>,
    now: Seq<Rect>,
    f: spec_fn(Rect) -> i32,
    before: i32,
    after: i32,
)
    requires
        now.len() == seen.len() + 1,
        forall|j: int| 0 <= j < seen.len() ==> now[j] == seen[j],
        is_greatest(seen, f, before),
        after == if f(now.last()) > before {
            f(now.last())
        } else {
            before
        },
    ensures
        is_greatest(now, f, after),
{
    let n = now.len() - 1;
    assert(now[n] == now.last());
    if f(now.last()) <= before && seen.len() > 0 {
        let j = choose|j: int| 0 <= j < seen.len() && before == f(#[trigger] seen[j]);
        assert(after == f(now[j]));
    }
}

/// Width and height of a rectangle.
pub fn rect_size(b: Rect) -> (r: (i64, i64))
    ensures
        r.0 == b.right - b.left,
        r.1 == b.bottom - b.top,
{
    (b.right as i64 - b.left as i64, b.bottom as i64 - b.top as i64)
}

/// Top level windows are gone through until one holds the icons: that one's icon shell, and the
/// wallpaper window that comes after it.
#[derive(Clone, Copy, PartialEq, Eq, Debug, Structural)]
pub struct ShellSearch {
    pub parent: isize,
    pub shell: isize,
}

impl ShellSearch {
    /// No window has been looked at.
    pub fn new() -> (r: ShellSearch)
        ensures
            r == (ShellSearch { parent: 0, shell: 0 }),
    {
        ShellSearch { parent: 0, shell: 0 }
    }

    /// Looks at one window: its icon shell, 0 for none, and the wallpaper window after it. Returns
    /// whether to go on with the next window.
    pub fn visit(&mut self, shell: isize, next_worker: isize) -> (go_on: bool)
        ensures
            go_on == (shell == 0),
            shell == 0 ==> *final(self) == *old(self),
            shell != 0 ==> *final(self) == (ShellSearch { parent: next_worker, shell }),
    {
        if shell == 0 {
            return true;
        }
        self.parent = next_worker;
        self.shell = shell;
        false
    }
}

/// What the platform said of the desktop. A handle of 0 stands for none.
#[derive(Clone, Copy, PartialEq, Eq, Debug, Structural)]
pub struct DesktopFacts {
    /// The desktop's top window.
    pub progman: Option<isize>,
    /// The process that owns it.
    pub explorer_pid: u32,
    /// The icon shell directly inside the top window, as newer systems have it.
    pub shell_view: isize,
    /// The wallpaper window directly inside the top window.
    pub progman_worker: isize,
    /// The icon shell elsewhere, as older systems have it, and the wallpaper window beside it.
    pub search: ShellSearch,
    /// The parent of the icon shell.
    pub shell_parent: isize,
    /// The icon view inside the icon shell.
    pub syslistview: isize,
    /// The virtual desktop.
    pub bounds: Rect,
}

/// Where the web view goes.
#[derive(Clone, Copy, PartialEq, Eq, Debug, Structural)]
pub struct DesktopDetection {
    pub progman: isize,
    pub explorer_pid: u32,
    pub target_parent: isize,
    pub syslistview: isize,
    /// Sibling of the target that has to stay in front of it.
    pub zorder_anchor: isize,
    pub v_width: i64,
    pub v_height: i64,
}

/// The window that holds the icon view: the shell inside the top window, or else the one that was
/// found by going through the others.
pub open spec fn icon_shell_of(shell_view: isize, search: ShellSearch) -> isize {
    if shell_view != 0 {
        shell_view
    } else {
        search.shell
    }
}

/// The window to look for the icon view in, 0 for none.
pub fn icon_shell(shell_view: isize, search: ShellSearch) -> (r: isize)
    ensures
        r == icon_shell_of(shell_view, search),
{
    if shell_view != 0 {
        shell_view
    } else {
        search.shell
    }
}

/// What the facts say about where the web view goes, once the top window is known.
pub open spec fn detection_of(f: DesktopFacts, progman: isize) -> DesktopDetection {
    let shell = icon_shell_of(f.shell_view, f.search);
    let worker = if f.shell_view != 0 {
        f.progman_worker
    } else {
        f.search.parent
    };
    DesktopDetection {
        progman,
        explorer_pid: f.explorer_pid,
        target_parent: if worker != 0 {
            worker
        } else {
            progman
        },
        syslistview: if shell != 0 {
            f.syslistview
        } else {
            0
        },
        zorder_anchor: if f.shell_view != 0 {
            f.shell_view
        } else if shell != 0 {
            f.shell_parent
        } else {
            0
        },
        v_width: (f.bounds.right - f.bounds.left) as i64,
        v_height: (f.bounds.bottom - f.bounds.top) as i64,
    }
}

/// Decides where the web view goes.
pub fn detect_desktop(f: &DesktopFacts) -> (r: AppResult<DesktopDetection>)
    ensures
        match f.progman {
            Some(progman) => r == Ok::<DesktopDetection, AppError>(detection_of(*f, progman)),
            None => error::fails_with(
                r,
                error::ErrorView::WindowLayer("Could not find Progman"@),
            ),
        },
{
    let progman: isize = match f.progman {
        Some(h) => h,
        None => return Err(AppError::WindowLayer("Could not find Progman".to_owned())),
    };
    let shell: isize = icon_shell(f.shell_view, f.search);
    let worker: isize = if f.shell_view != 0 {
        f.progman_worker
    } else {
        f.search.parent
    };
    let zorder_anchor: isize = if f.shell_view != 0 {
        f.shell_view
    } else if shell != 0 {
        f.shell_parent
    } else {
        0
    };
    let target_parent: isize = if worker != 0 { worker } else { progman };
    let syslistview: isize = if shell != 0 { f.syslistview } else { 0 };
    let (v_width, v_height) = rect_size(f.bounds);
    Ok(
        DesktopDetection {
            progman,
            explorer_pid: f.explorer_pid,
            target_parent,
            syslistview,
            zorder_anchor,
            v_width,
            v_height,
        },
    )
}

/// The state of the hooks once the desktop has been found: an icon view that was not found leaves
/// the one that was known.
pub open spec fn adopted(state: HookState, d: DesktopDetection) -> HookState {
    HookState {
        target_parent_hwnd: d.target_parent,
        progman_hwnd: d.progman,
        explorer_pid: d.explorer_pid,
        syslistview_hwnd: if d.syslistview != 0 {
            d.syslistview
        } else {
            state.syslistview_hwnd
        },
        ..state
    }
}

/// What the window layer remembers beside the hooks. A handle of 0 stands for none.
#[derive(Clone, Copy, PartialEq, Eq, Debug, Structural)]
pub struct LayerState {
    /// The icons have been given back.
    pub icons_restored: bool,
    pub mouse_hook: isize,
    pub keyboard_hook: isize,
    /// The window that the web view was put into, watched for going away.
    pub watched_parent: isize,
}

impl LayerState {
    /// Nothing has been hooked or injected.
    pub fn new() -> (r: LayerState)
        ensures
            r == (LayerState {
                icons_restored: false,
                mouse_hook: 0,
                keyboard_hook: 0,
                watched_parent: 0,
            }),
    {
        LayerState { icons_restored: false, mouse_hook: 0, keyboard_hook: 0, watched_parent: 0 }
    }

    /// Takes over where the web view goes, and watches that window.
    pub fn adopt_detection(&mut self, state: &mut HookState, d: &DesktopDetection)
        ensures
            *final(state) == adopted(*old(state), *d),
            *final(self) == (LayerState { watched_parent: d.target_parent, ..*old(self) }),
    {
        state.set_target_parent_hwnd(d.target_parent);
        state.set_progman_hwnd(d.progman);
        state.set_explorer_pid(d.explorer_pid);
        if d.syslistview != 0 {
            state.set_syslistview_hwnd(d.syslistview);
        }
        self.watched_parent = d.target_parent;
    }

    /// Places the web view for the first time: what has been found, and the web view itself.
    pub fn ensure_in_worker_w(
        &mut self,
        state: &mut HookState,
        our_hwnd: isize,
        found: AppResult<DesktopDetection>,
    ) -> (r: AppResult<DesktopDetection>)
        ensures
            r == found,
            match found {
                Ok(d) => {
                    &&& *final(state) == adopted(
                        HookState { webview_hwnd: our_hwnd, ..*old(state) },
                        d,
                    )
                    &&& *final(self) == (LayerState {
                        watched_parent: d.target_parent,
                        ..*old(self)
                    })
                },
                Err(_) => *final(state) == *old(state) && *final(self) == *old(self),
            },
    {
        match found {
            Ok(d) => {
                state.set_webview_hwnd(our_hwnd);
                self.adopt_detection(state, &d);
                Ok(d)
            },
            Err(e) => Err(e),
        }
    }

    /// Whether the desktop has to be looked for again: a window is watched, and it is gone.
    pub fn watchdog_step(&self, is_window: bool) -> (r: bool)
        ensures
            r == (self.watched_parent != 0 && !is_window),
    {
        self.watched_parent != 0 && !is_window
    }

    /// Takes the icons' concerns into their final state, the first time it is called.
    pub fn restore_desktop_icons_and_unhook(
        &mut self,
        state: &HookState,
        cache: &mut ProcCache,
    ) -> (r: Option<RestorePlan>)
        ensures
            *final(self) == (LayerState { icons_restored: true, ..*old(self) }),
            old(self).icons_restored ==> r is None && *final(cache) == *old(cache),
            !old(self).icons_restored ==> {
                &&& *final(cache) == process_cache::empty_cache()
                &&& r == Some(
                    RestorePlan {
                        show_icons: some_handle(state.syslistview_hwnd),
                        unhook_mouse: some_handle(old(self).mouse_hook),
                        unhook_keyboard: some_handle(old(self).keyboard_hook),
                        unregister_session: some_handle(state.dispatch_hwnd),
                        release: process_cache::release_of(*old(cache)),
                    },
                )
            },
    {
        if self.icons_restored {
            return None;
        }
        self.icons_restored = true;
        let release = cache.invalidate_proc_cache_pub();
        Some(
            RestorePlan {
                show_icons: handle_or_none(state.get_syslistview_hwnd()),
                unhook_mouse: unhook_global(self.mouse_hook),
                unhook_keyboard: unhook_global(self.keyboard_hook),
                unregister_session: unregister_session_notif(state),
                release,
            },
        )
    }
}

/// A handle, unless it is 0.
pub open spec fn some_handle(h: isize) -> Option<isize> {
    if h != 0 {
        Some(h)
    } else {
        None
    }
}

fn handle_or_none(h: isize) -> (r: Option<isize>)
    ensures
        r == some_handle(h),
{
    if h != 0 {
        Some(h)
    } else {
        None
    }
}

/// The hook to take off, if it was set.
pub fn unhook_global(hook: isize) -> (r: Option<isize>)
    ensures
        r == some_handle(hook),
{
    handle_or_none(hook)
}

/// The window that session changes no longer have to be reported to, if it was created.
pub fn unregister_session_notif(state: &HookState) -> (r: Option<isize>)
    ensures
        r == some_handle(state.dispatch_hwnd),
{
    handle_or_none(state.get_dispatch_hwnd())
}

/// What has to be undone on the way out, in this order.
#[derive(Clone, Copy, PartialEq, Eq, Debug, Structural)]
pub struct RestorePlan {
    pub show_icons: Option<isize>,
    pub unhook_mouse: Option<isize>,
    pub unhook_keyboard: Option<isize>,
    pub unregister_session: Option<isize>,
    pub release: Option<Release>,
}

/// What switching between wallpaper and interface takes.
#[derive(Clone, Copy, PartialEq, Eq, Debug, Structural)]
pub struct IconsPlan {
    /// The icon view to show or hide.
    pub icon_view: Option<isize>,
    /// The render window that has to let clicks through again.
    pub make_transparent: Option<isize>,
}

/// Shows or hides the icons. With the icons hidden the web view takes the input.
pub fn set_desktop_icons_visible(state: &mut HookState, visible: bool) -> (r: IconsPlan)
    ensures
        *final(state) == (HookState { interface_mode: !visible, ..*old(state) }),
        r.icon_view == some_handle(old(state).syslistview_hwnd),
        r.make_transparent == if visible {
            some_handle(old(state).chrome_rwhh)
        } else {
            None
        },
{
    let icon_view = handle_or_none(state.get_syslistview_hwnd());
    state.interface_mode = !visible;
    let make_transparent: Option<isize> = if visible {
        handle_or_none(state.get_chrome_rwhh_raw())
    } else {
        None
    };
    IconsPlan { icon_view, make_transparent }
}

/// The extended style that lets clicks through, unless the window has it already.
pub fn transparent_style(ex_style: i64) -> (r: Option<i64>)
    ensures
        r == if ex_style | 0x20i64 == ex_style {
            None
        } else {
            Some(ex_style | 0x20i64)
        },
{
    let bit: i64 = WS_EX_TRANSPARENT as i64;
    let styled: i64 = ex_style | bit;
    if styled == ex_style {
        None
    } else {
        Some(styled)
    }
}

/// The frame styles that an injected window loses.
pub open spec fn frame_styles() -> u32 {
    WS_THICKFRAME | WS_CAPTION | WS_SYSMENU | WS_MAXIMIZEBOX | WS_MINIMIZEBOX | WS_POPUP | WS_BORDER
        | WS_DLGFRAME
}

/// The extended styles that an injected window loses.
pub open spec fn frame_ex_styles() -> u32 {
    WS_EX_LAYERED | WS_EX_NOACTIVATE | WS_EX_CLIENTEDGE | WS_EX_WINDOWEDGE | WS_EX_DLGMODALFRAME
        | WS_EX_STATICEDGE
}

proof fn lemma_styles_by_bits(s: u32)
    ensures
        ({
            let r = (s & !frame_styles()) | (WS_CHILD | WS_VISIBLE);
            &&& r & 0x80CF_0000 == 0
            &&& r & 0x5000_0000 == 0x5000_0000
            &&& r & 0x2F30_FFFF == s & 0x2F30_FFFF
        }),
        ({
            let r = s & !frame_ex_styles();
            r & 0x080A_0301 == 0 && r & 0xF7F5_FCFE == s & 0xF7F5_FCFE
        }),
        ({
            let r = s & !(WS_BORDER | WS_THICKFRAME | WS_DLGFRAME | WS_CAPTION);
            r & 0x00C4_0000 == 0 && r & 0xFF3B_FFFF == s & 0xFF3B_FFFF
        }),
        ({
            let r = s & !(WS_EX_CLIENTEDGE | WS_EX_WINDOWEDGE | WS_EX_STATICEDGE
                | WS_EX_DLGMODALFRAME);
            r & 0x0002_0301 == 0 && r & 0xFFFD_FCFE == s & 0xFFFD_FCFE
        }),
{
    let a = (s & !frame_styles()) | (WS_CHILD | WS_VISIBLE);
    let b = s & !frame_ex_styles();
    let c = s & !(WS_BORDER | WS_THICKFRAME | WS_DLGFRAME | WS_CAPTION);
    let e = s & !(WS_EX_CLIENTEDGE | WS_EX_WINDOWEDGE | WS_EX_STATICEDGE | WS_EX_DLGMODALFRAME);
    assert(a & 0x80CF_0000 == 0 && a & 0x5000_0000 == 0x5000_0000 && a & 0x2F30_FFFF == s
        & 0x2F30_FFFF) by (bit_vector)
        requires
            a == (s & !frame_styles()) | (WS_CHILD | WS_VISIBLE),
    ;
    assert(b & 0x080A_0301 == 0 && b & 0xF7F5_FCFE == s & 0xF7F5_FCFE) by (bit_vector)
        requires
            b == s & !frame_ex_styles(),
    ;
    assert(c & 0x00C4_0000 == 0 && c & 0xFF3B_FFFF == s & 0xFF3B_FFFF) by (bit_vector)
        requires
            c == s & !(WS_BORDER | WS_THICKFRAME | WS_DLGFRAME | WS_CAPTION),
    ;
    assert(e & 0x0002_0301 == 0 && e & 0xFFFD_FCFE == s & 0xFFFD_FCFE) by (bit_vector)
        requires
            e == s & !(WS_EX_CLIENTEDGE | WS_EX_WINDOWEDGE | WS_EX_STATICEDGE
                | WS_EX_DLGMODALFRAME),
    ;
}

/// The styles of an injected window: no frame, a visible child.
pub fn injected_style(style: u32) -> (r: u32)
    ensures
        r == (style & !frame_styles()) | (WS_CHILD | WS_VISIBLE),
        r & 0x80CF_0000 == 0,
        r & 0x5000_0000 == 0x5000_0000,
        r & 0x2F30_FFFF == style & 0x2F30_FFFF,
{
    proof {
        lemma_styles_by_bits(style);
    }
    let frame: u32 = WS_THICKFRAME | WS_CAPTION | WS_SYSMENU | WS_MAXIMIZEBOX | WS_MINIMIZEBOX
        | WS_POPUP | WS_BORDER | WS_DLGFRAME;
    (style & !frame) | (WS_CHILD | WS_VISIBLE)
}

/// The extended styles of an injected window: no frame, not layered, able to be activated.
pub fn injected_ex_style(ex_style: u32) -> (r: u32)
    ensures
        r == ex_style & !frame_ex_styles(),
        r & 0x080A_0301 == 0,
        r & 0xF7F5_FCFE == ex_style & 0xF7F5_FCFE,
{
    proof {
        lemma_styles_by_bits(ex_style);
    }
    let frame: u32 = WS_EX_LAYERED | WS_EX_NOACTIVATE | WS_EX_CLIENTEDGE | WS_EX_WINDOWEDGE
        | WS_EX_DLGMODALFRAME | WS_EX_STATICEDGE;
    ex_style & !frame
}

/// The styles of a window inside the injected one: no border.
pub fn child_style(style: u32) -> (r: u32)
    ensures
        r == style & !(WS_BORDER | WS_THICKFRAME | WS_DLGFRAME | WS_CAPTION),
        r & 0x00C4_0000 == 0,
        r & 0xFF3B_FFFF == style & 0xFF3B_FFFF,
{
    proof {
        lemma_styles_by_bits(style);
    }
    style & !(WS_BORDER | WS_THICKFRAME | WS_DLGFRAME | WS_CAPTION)
}

/// The extended styles of a window inside the injected one: no edge.
pub fn child_ex_style(ex_style: u32) -> (r: u32)
    ensures
        r == ex_style & !(WS_EX_CLIENTEDGE | WS_EX_WINDOWEDGE | WS_EX_STATICEDGE
            | WS_EX_DLGMODALFRAME),
        r & 0x0002_0301 == 0,
        r & 0xFFFD_FCFE == ex_style & 0xFFFD_FCFE,
{
    proof {
        lemma_styles_by_bits(ex_style);
    }
    ex_style & !(WS_EX_CLIENTEDGE | WS_EX_WINDOWEDGE | WS_EX_STATICEDGE | WS_EX_DLGMODALFRAME)
}

/// How the web view is put into its place.
#[derive(Clone, Copy, PartialEq, Eq, Debug, Structural)]
pub struct InjectionPlan {
    pub style: u32,
    pub ex_style: u32,
    pub target_parent: isize,
    pub width: i64,
    pub height: i64,
    /// The window that the target has to be placed behind, so that the icons stay in front.
    pub behind: Option<isize>,
}

/// Decides how the web view is put into its place, unless it is there already.
pub fn apply_injection(
    current_parent: isize,
    style: u32,
    ex_style: u32,
    d: &DesktopDetection,
) -> (r: Option<InjectionPlan>)
    ensures
        current_parent == d.target_parent ==> r is None,
        current_parent != d.target_parent ==> r == Some(
            InjectionPlan {
                style: (style & !frame_styles()) | (WS_CHILD | WS_VISIBLE),
                ex_style: ex_style & !frame_ex_styles(),
                target_parent: d.target_parent,
                width: d.v_width,
                height: d.v_height,
                behind: if d.zorder_anchor != 0 && d.zorder_anchor != d.target_parent {
                    Some(d.zorder_anchor)
                } else {
                    None
                },
            },
        ),
        r matches Some(plan) ==> {
            &&& plan.style & 0x80CF_0000 == 0
            &&& plan.style & 0x5000_0000 == 0x5000_0000
            &&& plan.style & 0x2F30_FFFF == style & 0x2F30_FFFF
            &&& plan.ex_style & 0x080A_0301 == 0
            &&& plan.ex_style & 0xF7F5_FCFE == ex_style & 0xF7F5_FCFE
        },
{
    if current_parent == d.target_parent {
        return None;
    }
    let behind: Option<isize> = if d.zorder_anchor != 0 && d.zorder_anchor != d.target_parent {
        Some(d.zorder_anchor)
    } else {
        None
    };
    Some(
        InjectionPlan {
            style: injected_style(style),
            ex_style: injected_ex_style(ex_style),
            target_parent: d.target_parent,
            width: d.v_width,
            height: d.v_height,
            behind,
        },
    )
}

/// Attempts at reaching the web view controller after the injection.
pub const CONTROLLER_ATTEMPTS: u32 = 100;

/// What one attempt at reaching the web view controller came to.
#[derive(Clone, Copy, PartialEq, Eq, Debug, Structural)]
pub enum ControllerWait {
    /// It is there.
    Found,
    /// Try again a moment later, as this attempt.
    Retry { attempt: u32 },
    /// It did not come in time.
    TimedOut,
}

/// Takes over the web view controller once it is there, and limits how long it is waited for.
pub fn wait_for_controller(state: &mut HookState, attempt: u32, ptr: isize) -> (r: ControllerWait)
    ensures
        r == if ptr != 0 {
            ControllerWait::Found
        } else if attempt < CONTROLLER_ATTEMPTS {
            ControllerWait::Retry { attempt: (attempt + 1) as u32 }
        } else {
            ControllerWait::TimedOut
        },
        r is TimedOut <==> ptr == 0 && attempt >= 100,
        r matches ControllerWait::Retry { attempt: next } ==> next == attempt + 1,
        *final(state) == if ptr != 0 {
            HookState { comp_controller_ptr: ptr, ..*old(state) }
        } else {
            *old(state)
        },
{
    if ptr != 0 {
        state.set_comp_controller_ptr(ptr);
        ControllerWait::Found
    } else if attempt < CONTROLLER_ATTEMPTS {
        ControllerWait::Retry { attempt: attempt + 1 }
    } else {
        ControllerWait::TimedOut
    }
}

/// What a change of the monitors asks for.
#[derive(Clone, Copy, PartialEq, Eq, Debug, Structural)]
pub struct DisplayChange {
    pub width: i64,
    pub height: i64,
    /// The window to resize, with all windows inside it.
    pub webview: Option<isize>,
    /// The web view controller to give new bounds to.
    pub controller: Option<isize>,
}

/// Fits the web view to the monitors, unless they leave no room.
pub fn on_display_change(state: &HookState, rects: &Vec<Rect>) -> (r: Option<DisplayChange>)
    ensures
        exists|b: Rect| #[trigger]
            bounds_all(rects@, b) && {
                &&& r is None <==> b.right - b.left <= 0 || b.bottom - b.top <= 0
                &&& r matches Some(c) ==> {
                    &&& c.width == b.right - b.left
                    &&& c.height == b.bottom - b.top
                    &&& c.webview == some_handle(state.webview_hwnd)
                    &&& c.controller == some_handle(state.comp_controller_ptr)
                }
            },
        r is Some <==> {
            &&& exists|i: int, j: int|
                0 <= i < rects@.len() && 0 <= j < rects@.len() && (#[trigger] rects@[i]).left < (
                #[trigger] rects@[j]).right
            &&& exists|i: int, j: int|
                0 <= i < rects@.len() && 0 <= j < rects@.len() && (#[trigger] rects@[i]).top < (
                #[trigger] rects@[j]).bottom
        },
        r matches Some(c) ==> {
            &&& forall|i: int, j: int|
                0 <= i < rects@.len() && 0 <= j < rects@.len() ==> (#[trigger] rects@[j]).right - (
                #[trigger] rects@[i]).left <= c.width && rects@[j].bottom - rects@[i].top
                    <= c.height
            &&& exists|i: int, j: int|
                0 <= i < rects@.len() && 0 <= j < rects@.len() && (#[trigger] rects@[j]).right - (
                #[trigger] rects@[i]).left == c.width
            &&& exists|i: int, j: int|
                0 <= i < rects@.len() && 0 <= j < rects@.len() && (#[trigger] rects@[j]).bottom - (
                #[trigger] rects@[i]).top == c.height
        },
        r matches Some(c) ==> {
            &&& c.webview is None <==> state.webview_hwnd == 0
            &&& c.webview matches Some(h) ==> h == state.webview_hwnd
            &&& c.controller is None <==> state.comp_controller_ptr == 0
            &&& c.controller matches Some(h) ==> h == state.comp_controller_ptr
        },
{
    let b = monitor_bounds(rects);
    proof {
        if rects@.len() > 0 {
            lemma_bounds_are_tight(rects@, b);
        }
    }
    let (width, height) = rect_size(b);
    if width <= 0 || height <= 0 {
        return None;
    }
    Some(
        DisplayChange {
            width,
            height,
            webview: handle_or_none(state.webview_hwnd),
            controller: handle_or_none(state.get_comp_controller_ptr()),
        },
    )
}

/// The first entry of a process in a list of processes and the processes that started them.
pub fn get_parent_process_id(entries: &Vec<(u32, u32)>, pid: u32) -> (r: Option<u32>)
    ensures
        r is None <==> forall|i: int| 0 <= i < entries@.len() ==> #[trigger] entries@[i].0 != pid,
        r matches Some(parent) ==> exists|i: int|
            #![trigger entries@[i]]
            0 <= i < entries@.len() && entries@[i] == (pid, parent) && forall|j: int|
                0 <= j < i ==> #[trigger] entries@[j].0 != pid,
{
    let mut i: usize = 0;
    while i < entries.len()
        invariant
            i <= entries@.len(),
            forall|j: int| 0 <= j < i ==> #[trigger] entries@[j].0 != pid,
        decreases entries@.len() - i,
    {
        let (id, parent) = entries[i];
        if id == pid {
            assert(entries@[i as int] == (pid, parent));
            return Some(parent);
        }
        i += 1;
    }
    None
}

/// Size of the image that follows a dragged icon, unless the icon's rectangle is unknown or empty.
pub fn ghost_size(item_rect: Option<Rect>) -> (r: Option<(i64, i64)>)
    ensures
        match item_rect {
            Some(b) if b.left < b.right && b.top < b.bottom => r == Some(
                ((b.right - b.left) as i64, (b.bottom - b.top) as i64),
            ),
            _ => r is None,
        },
{
    match item_rect {
        Some(b) => {
            let (w, h) = rect_size(b);
            if w <= 0 || h <= 0 {
                None
            } else {
                Some((w, h))
            }
        },
        None => None,
    }
}

/// Where the cursor is inside the image of the icon that it drags.
pub fn ghost_hotspot(cursor: Point, top_left: Point) -> (r: (i64, i64))
    ensures
        r.0 == cursor.x - top_left.x,
        r.1 == cursor.y - top_left.y,
{
    (cursor.x as i64 - top_left.x as i64, cursor.y as i64 - top_left.y as i64)
}

/// There is only one smallest rectangle around given rectangles.
pub proof fn lemma_bounds_are_unique(rects: Seq<Rect>, a: Rect, b: Rect)
    requires
        bounds_all(rects, a),
        bounds_all(rects, b),
    ensures
        a == b,
{
}

/// The virtual desktop covers every monitor.
pub proof fn lemma_bounds_cover_every_monitor(rects: Seq<Rect>, b: Rect, i: int)
    requires
        bounds_all(rects, b),
        0 <= i < rects.len(),
    ensures
        b.left <= rects[i].left && rects[i].right <= b.right,
        b.top <= rects[i].top && rects[i].bottom <= b.bottom,
{
    let r = rects[i];
}

/// An injected window is a visible child without a frame, keeps its other styles, and injecting
/// it again changes nothing.
pub proof fn lemma_injected_style(style: u32)
    ensures
        ({
            let s = (style & !frame_styles()) | (WS_CHILD | WS_VISIBLE);
            &&& s & frame_styles() == 0
            &&& s & (WS_CHILD | WS_VISIBLE) == WS_CHILD | WS_VISIBLE
            &&& s & !(frame_styles() | WS_CHILD | WS_VISIBLE) == style & !(frame_styles()
                | WS_CHILD | WS_VISIBLE)
            &&& (s & !frame_styles()) | (WS_CHILD | WS_VISIBLE) == s
        }),
{
    let s = (style & !frame_styles()) | (WS_CHILD | WS_VISIBLE);
    assert(s & frame_styles() == 0 && s & (WS_CHILD | WS_VISIBLE) == WS_CHILD | WS_VISIBLE && s
        & !(frame_styles() | WS_CHILD | WS_VISIBLE) == style & !(frame_styles() | WS_CHILD
        | WS_VISIBLE) && (s & !frame_styles()) | (WS_CHILD | WS_VISIBLE) == s) by (bit_vector)
        requires
            s == (style & !frame_styles()) | (WS_CHILD | WS_VISIBLE),
    ;
}

/// After the switch back to the wallpaper the render window lets clicks through, and its other
/// extended styles are what they were.
pub proof fn lemma_transparent_style(ex_style: i64)
    ensures
        (ex_style | 0x20i64) & 0x20i64 == 0x20i64,
        (ex_style | 0x20i64) & !0x20i64 == ex_style & !0x20i64,
        (ex_style | 0x20i64) | 0x20i64 == ex_style | 0x20i64,
{
    assert((ex_style | 0x20i64) & 0x20i64 == 0x20i64 && (ex_style | 0x20i64) & !0x20i64 == ex_style
        & !0x20i64 && (ex_style | 0x20i64) | 0x20i64 == ex_style | 0x20i64) by (bit_vector);
}

/// Where the web view goes there is always a window, and it is the wallpaper window where one was
/// found.
pub proof fn lemma_target_exists(f: DesktopFacts, progman: isize)
    requires
        progman != 0,
    ensures
        detection_of(f, progman).target_parent != 0,
        f.shell_view != 0 && f.progman_worker != 0 ==> detection_of(f, progman).target_parent
            == f.progman_worker,
        f.shell_view == 0 && f.search.parent != 0 ==> detection_of(f, progman).target_parent
            == f.search.parent,
{
}

/// Each edge of the virtual desktop is an edge of some monitor.
pub proof fn lemma_bounds_are_tight(rects: Seq<Rect>, b: Rect)
    requires
        bounds_all(rects, b),
        rects.len() > 0,
    ensures
        exists|i: int| 0 <= i < rects.len() && (#[trigger] rects[i]).left == b.left,
        exists|i: int| 0 <= i < rects.len() && (#[trigger] rects[i]).top == b.top,
        exists|i: int| 0 <= i < rects.len() && (#[trigger] rects[i]).right == b.right,
        exists|i: int| 0 <= i < rects.len() && (#[trigger] rects[i]).bottom == b.bottom,
        forall|i: int|
            0 <= i < rects.len() ==> b.left <= (#[trigger] rects[i]).left && rects[i].right
                <= b.right && b.top <= rects[i].top && rects[i].bottom <= b.bottom,
{
    let left = |r: Rect| r.left;
    let top = |r: Rect| r.top;
    let right = |r: Rect| r.right;
    let bottom = |r: Rect| r.bottom;
    let i = choose|i: int| 0 <= i < rects.len() && b.left == left(#[trigger] rects[i]);
    assert(rects[i].left == b.left);
    let i = choose|i: int| 0 <= i < rects.len() && b.top == top(#[trigger] rects[i]);
    assert(rects[i].top == b.top);
    let i = choose|i: int| 0 <= i < rects.len() && b.right == right(#[trigger] rects[i]);
    assert(rects[i].right == b.right);
    let i = choose|i: int| 0 <= i < rects.len() && b.bottom == bottom(#[trigger] rects[i]);
    assert(rects[i].bottom == b.bottom);
}

/// Where the icon shell lies directly inside the desktop's top window, the web view goes into the
/// wallpaper window there, behind the shell. Where it lies elsewhere, the web view goes into the
/// wallpaper window beside it, behind the shell's parent. Without a wallpaper window it goes into
/// the top window itself, and without a shell there are no icons to stay behind.
pub proof fn lemma_where_the_web_view_goes(f: DesktopFacts, progman: isize)
    ensures
        ({
            let d = detection_of(f, progman);
            let inside = f.shell_view != 0;
            let elsewhere = f.shell_view == 0 && f.search.shell != 0;
            &&& d.progman == progman && d.explorer_pid == f.explorer_pid
            &&& inside && f.progman_worker != 0 ==> d.target_parent == f.progman_worker
            &&& inside && f.progman_worker == 0 ==> d.target_parent == progman
            &&& !inside && f.search.parent != 0 ==> d.target_parent == f.search.parent
            &&& !inside && f.search.parent == 0 ==> d.target_parent == progman
            &&& inside ==> d.zorder_anchor == f.shell_view
            &&& elsewhere ==> d.zorder_anchor == f.shell_parent
            &&& inside || elsewhere ==> d.syslistview == f.syslistview
            &&& !inside && !elsewhere ==> d.syslistview == 0 && d.zorder_anchor == 0
            &&& f.bounds.left + d.v_width == f.bounds.right
            &&& f.bounds.top + d.v_height == f.bounds.bottom
            &&& inside ==> icon_shell_of(f.shell_view, f.search) == f.shell_view
            &&& !inside ==> icon_shell_of(f.shell_view, f.search) == f.search.shell
        }),
{
}

/// What has been found replaces what was known, but for an icon view that was not found; nothing
/// else that the hooks remember changes.
pub proof fn lemma_what_is_taken_over(state: HookState, d: DesktopDetection)
    ensures
        ({
            let after = adopted(state, d);
            &&& after.target_parent_hwnd == d.target_parent
            &&& after.progman_hwnd == d.progman
            &&& after.explorer_pid == d.explorer_pid
            &&& d.syslistview != 0 ==> after.syslistview_hwnd == d.syslistview
            &&& d.syslistview == 0 ==> after.syslistview_hwnd == state.syslistview_hwnd
            &&& state == (HookState {
                target_parent_hwnd: state.target_parent_hwnd,
                progman_hwnd: state.progman_hwnd,
                explorer_pid: state.explorer_pid,
                syslistview_hwnd: state.syslistview_hwnd,
                ..after
            })
        }),
{
}

/// A handle of 0 stands for none, and every other for itself.
pub proof fn lemma_handles(h: isize)
    ensures
        some_handle(h) is None <==> h == 0,
        some_handle(h) matches Some(x) ==> x == h,
{
}

/// A window is given the style that lets clicks through exactly if it lacks it, and then keeps all
/// its others.
pub proof fn lemma_transparency_is_added_once(ex_style: i64, r: Option<i64>)
    requires
        call_ensures(transparent_style, (ex_style,), r),
    ensures
        r is None <==> ex_style & 0x20i64 == 0x20i64,
        r matches Some(s) ==> s & 0x20i64 == 0x20i64 && s & !0x20i64 == ex_style & !0x20i64,
{
    let s = ex_style | 0x20i64;
    assert({
        &&& s == ex_style <==> ex_style & 0x20i64 == 0x20i64
        &&& s & 0x20i64 == 0x20i64
        &&& s & !0x20i64 == ex_style & !0x20i64
    }) by (bit_vector)
        requires
            s == ex_style | 0x20i64,
    ;
}

/// The image of an icon is as large as the icon, where that has a size at all.
pub proof fn lemma_ghost_is_as_large_as_the_icon(b: Rect, r: Option<(i64, i64)>)
    requires
        call_ensures(ghost_size, (Some(b),), r),
    ensures
        r is Some <==> b.left < b.right && b.top < b.bottom,
        r matches Some(size) ==> b.left + size.0 == b.right && b.top + size.1 == b.bottom,
{
}

/// The cursor keeps its place inside the image that it drags.
pub proof fn lemma_hotspot_is_under_the_cursor(cursor: Point, top_left: Point, r: (i64, i64))
    requires
        call_ensures(ghost_hotspot, (cursor, top_left), r),
    ensures
        top_left.x + r.0 == cursor.x && top_left.y + r.1 == cursor.y,
{
}

/// A window is put into its place exactly if it is not there yet. It then fills the virtual
/// desktop, and its place goes behind the window that holds the icons, where there is one and it is
/// another.
pub proof fn lemma_when_a_window_is_put_into_its_place(
    current_parent: isize,
    style: u32,
    ex_style: u32,
    d: DesktopDetection,
    r: Option<InjectionPlan>,
)
    requires
        call_ensures(apply_injection, (current_parent, style, ex_style, &d), r),
    ensures
        r is None <==> current_parent == d.target_parent,
        r matches Some(plan) ==> {
            &&& plan.target_parent == d.target_parent
            &&& plan.width == d.v_width && plan.height == d.v_height
            &&& plan.behind is None <==> d.zorder_anchor == 0 || d.zorder_anchor == d.target_parent
            &&& plan.behind matches Some(h) ==> h == d.zorder_anchor
        },
{
}

/// The size of a rectangle reaches from its left and top edges to the right and bottom ones.
pub proof fn lemma_size_of_a_rectangle(b: Rect, r: (i64, i64))
    requires
        call_ensures(rect_size, (b,), r),
    ensures
        b.left + r.0 == b.right && b.top + r.1 == b.bottom,
{
}

} // verus!
