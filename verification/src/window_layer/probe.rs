//! Whether a window under the cursor belongs to the desktop.
//!
//! Most windows are told apart by their handle alone. The rest takes questions to the platform,
//! each slower than the one before, so [`is_over_desktop`] asks for one fact at a time and stops
//! at the first that settles the matter.

use vstd::prelude::*;

use crate::window_layer::mouse_hook::HookState;

verus! {

/// Class names that the desktop is recognised by.
#[derive(Debug)]
pub enum WindowClass {
    /// `XamlExplorerHostIslandWindow`, an overlay of the shell.
    XamlIsland,
    /// `Windows.UI.Core.CoreWindow`.
    CoreWindow,
    /// `Chrome_RenderWidgetHostHWND`, a browser's render window.
    RenderWidget,
    /// Any other class.
    Other,
}

/// What has been learnt of a window so far.
#[derive(Debug)]
pub struct WindowFacts {
    /// It is a descendant of the desktop's top window.
    pub child_of_progman: Option<bool>,
    /// It is a descendant of the window that the web view was put into.
    pub child_of_target: Option<bool>,
    /// Its class.
    pub class: Option<WindowClass>,
    /// The process that owns it.
    pub pid: Option<u32>,
    /// Its parent, 0 for none.
    pub parent: Option<isize>,
    /// The process that owns its parent.
    pub parent_pid: Option<u32>,
    /// The process that started that process, if it is still known.
    pub grandparent_pid: Option<Option<u32>>,
}

/// A fact that is missing.
#[derive(Clone, Copy, PartialEq, Eq, Debug, Structural)]
pub enum Fact {
    ChildOfProgman,
    ChildOfTarget,
    Class,
    Pid,
    Parent,
    ParentPid,
    GrandparentPid,
}

/// Outcome of one look at a window.
#[derive(Clone, Copy, PartialEq, Eq, Debug, Structural)]
pub enum Probe {
    /// It is known whether the window belongs to the desktop.
    Settled { over: bool },
    /// One more fact is needed.
    Need { fact: Fact },
}

impl WindowFacts {
    /// Nothing is known yet.
    pub fn none() -> (r: WindowFacts)
        ensures
            forall|fact: Fact| !r.has(fact),
    {
        WindowFacts {
            child_of_progman: None,
            child_of_target: None,
            class: None,
            pid: None,
            parent: None,
            parent_pid: None,
            grandparent_pid: None,
        }
    }

    pub open spec fn has(self, fact: Fact) -> bool {
        match fact {
            Fact::ChildOfProgman => self.child_of_progman is Some,
            Fact::ChildOfTarget => self.child_of_target is Some,
            Fact::Class => self.class is Some,
            Fact::Pid => self.pid is Some,
            Fact::Parent => self.parent is Some,
            Fact::ParentPid => self.parent_pid is Some,
            Fact::GrandparentPid => self.grandparent_pid is Some,
        }
    }

    /// Every fact is known.
    pub open spec fn complete(self) -> bool {
        forall|fact: Fact| self.has(fact)
    }

    /// Everything that is known here is known there, and is the same.
    pub open spec fn extends(self, other: WindowFacts) -> bool {
        &&& other.child_of_progman is Some ==> self.child_of_progman == other.child_of_progman
        &&& other.child_of_target is Some ==> self.child_of_target == other.child_of_target
        &&& other.class is Some ==> self.class == other.class
        &&& other.pid is Some ==> self.pid == other.pid
        &&& other.parent is Some ==> self.parent == other.parent
        &&& other.parent_pid is Some ==> self.parent_pid == other.parent_pid
        &&& other.grandparent_pid is Some ==> self.grandparent_pid == other.grandparent_pid
    }
}

/// The window is one whose handle is known to belong to the desktop.
pub open spec fn known_window(state: HookState, hwnd: isize) -> bool {
    ||| state.chrome_rwhh != 0 && hwnd == state.chrome_rwhh
    ||| state.syslistview_hwnd != 0 && hwnd == state.syslistview_hwnd
    ||| state.desktop_core_hwnd != 0 && hwnd == state.desktop_core_hwnd
    ||| hwnd == state.target_parent_hwnd
    ||| hwnd == state.webview_hwnd
    ||| hwnd == state.progman_hwnd
}

/// The window lies inside a window of the desktop.
pub open spec fn inside_desktop(state: HookState, facts: WindowFacts) -> bool {
    ||| state.progman_hwnd != 0 && facts.child_of_progman->0
    ||| state.target_parent_hwnd != 0 && facts.child_of_target->0
}

/// The window is an overlay that the shell's own process puts over the desktop.
pub open spec fn shell_overlay(state: HookState, facts: WindowFacts) -> bool {
    &&& facts.class->0 is XamlIsland || facts.class->0 is CoreWindow
    &&& state.explorer_pid != 0
    &&& facts.pid->0 == state.explorer_pid
}

/// The window is the web view's render window, seen for the first time: its parent is owned by
/// this process or by one that this process started.
pub open spec fn own_render_window(state: HookState, facts: WindowFacts) -> bool {
    &&& state.chrome_rwhh == 0
    &&& state.webview_hwnd != 0
    &&& facts.class->0 is RenderWidget
    &&& facts.parent->0 != 0
    &&& facts.parent_pid->0 == state.our_pid || facts.grandparent_pid->0 == Some(state.our_pid)
}

/// Whether a window of which every fact is known belongs to the desktop.
pub open spec fn over_desktop(state: HookState, hwnd: isize, facts: WindowFacts) -> bool {
    ||| known_window(state, hwnd)
    ||| inside_desktop(state, facts)
    ||| shell_overlay(state, facts)
    ||| own_render_window(state, facts)
}

/// What is remembered once it is known that a window belongs to the desktop: a core window of the
/// shell, and the web view's render window.
pub open spec fn state_after_probe(state: HookState, hwnd: isize, facts: WindowFacts) -> HookState {
    if known_window(state, hwnd) || inside_desktop(state, facts) {
        state
    } else if shell_overlay(state, facts) {
        if facts.class->0 is CoreWindow {
            HookState { desktop_core_hwnd: hwnd, ..state }
        } else {
            state
        }
    } else if own_render_window(state, facts) {
        HookState { chrome_rwhh: hwnd, ..state }
    } else {
        state
    }
}

/// The fact that has to be asked for next, the quick ones first, if the matter is still open.
pub open spec fn missing_fact(state: HookState, hwnd: isize, facts: WindowFacts) -> Option<Fact> {
    if known_window(state, hwnd) {
        None
    } else if state.progman_hwnd != 0 && facts.child_of_progman is None {
        Some(Fact::ChildOfProgman)
    } else if state.progman_hwnd != 0 && facts.child_of_progman->0 {
        None
    } else if state.target_parent_hwnd != 0 && facts.child_of_target is None {
        Some(Fact::ChildOfTarget)
    } else if state.target_parent_hwnd != 0 && facts.child_of_target->0 {
        None
    } else {
        match facts.class {
            None => Some(Fact::Class),
            Some(WindowClass::XamlIsland) | Some(WindowClass::CoreWindow) => {
                if state.explorer_pid != 0 && facts.pid is None {
                    Some(Fact::Pid)
                } else {
                    None
                }
            },
            Some(WindowClass::RenderWidget) => {
                if state.chrome_rwhh != 0 || state.webview_hwnd == 0 {
                    None
                } else if facts.parent is None {
                    Some(Fact::Parent)
                } else if facts.parent->0 == 0 {
                    None
                } else if facts.parent_pid is None {
                    Some(Fact::ParentPid)
                } else if facts.parent_pid->0 != state.our_pid && facts.grandparent_pid is None {
                    Some(Fact::GrandparentPid)
                } else {
                    None
                }
            },
            Some(WindowClass::Other) => None,
        }
    }
}

fn need(fact: Fact) -> (r: Probe)
    ensures
        r == (Probe::Need { fact }),
{
    Probe::Need { fact }
}

fn settled(over: bool) -> (r: Probe)
    ensures
        r == (Probe::Settled { over }),
{
    Probe::Settled { over }
}

/// Looks at a window with the facts that are there.
///
/// The answer is final whatever the missing facts are, and only a missing fact is asked for.
pub fn is_over_desktop(state: &mut HookState, hwnd: isize, facts: &WindowFacts) -> (r: Probe)
    ensures
        r matches Probe::Settled { over } ==> forall|all: WindowFacts|
            #![trigger all.extends(*facts)]
            all.complete() && all.extends(*facts) ==> {
                &&& over == over_desktop(*old(state), hwnd, all)
                &&& *final(state) == state_after_probe(*old(state), hwnd, all)
            },
        r matches Probe::Need { fact } ==> {
            &&& missing_fact(*old(state), hwnd, *facts) == Some(fact)
            &&& !facts.has(fact)
            &&& *final(state) == *old(state)
        },
        r is Settled ==> missing_fact(*old(state), hwnd, *facts) is None,
{
    if state.chrome_rwhh != 0 && hwnd == state.chrome_rwhh {
        return settled(true);
    }
    if state.syslistview_hwnd != 0 && hwnd == state.syslistview_hwnd {
        return settled(true);
    }
    if state.desktop_core_hwnd != 0 && hwnd == state.desktop_core_hwnd {
        return settled(true);
    }
    if hwnd == state.target_parent_hwnd || hwnd == state.webview_hwnd || hwnd
        == state.progman_hwnd {
        return settled(true);
    }
    if state.progman_hwnd != 0 {
        match facts.child_of_progman {
            None => return need(Fact::ChildOfProgman),
            Some(child) => if child {
                return settled(true);
            },
        }
    }
    if state.target_parent_hwnd != 0 {
        match facts.child_of_target {
            None => return need(Fact::ChildOfTarget),
            Some(child) => if child {
                return settled(true);
            },
        }
    }
    match &facts.class {
        None => need(Fact::Class),
        Some(class) => match class {
            WindowClass::XamlIsland => {
                if state.explorer_pid == 0 {
                    return settled(false);
                }
                match facts.pid {
                    None => need(Fact::Pid),
                    Some(pid) => settled(pid == state.explorer_pid),
                }
            },
            WindowClass::CoreWindow => {
                if state.explorer_pid == 0 {
                    return settled(false);
                }
                match facts.pid {
                    None => need(Fact::Pid),
                    Some(pid) => {
                        if pid == state.explorer_pid {
                            state.desktop_core_hwnd = hwnd;
                            settled(true)
                        } else {
                            settled(false)
                        }
                    },
                }
            },
            WindowClass::RenderWidget => {
                if state.chrome_rwhh != 0 || state.webview_hwnd == 0 {
                    return settled(false);
                }
                let parent: isize = match facts.parent {
                    None => return need(Fact::Parent),
                    Some(parent) => parent,
                };
                if parent == 0 {
                    return settled(false);
                }
                let parent_pid: u32 = match facts.parent_pid {
                    None => return need(Fact::ParentPid),
                    Some(pid) => pid,
                };
                let ours = if parent_pid == state.our_pid {
                    true
                } else {
                    match facts.grandparent_pid {
                        None => return need(Fact::GrandparentPid),
                        Some(Some(pid)) => pid == state.our_pid,
                        Some(None) => false,
                    }
                };
                if ours {
                    state.chrome_rwhh = hwnd;
                }
                settled(ours)
            },
            WindowClass::Other => settled(false),
        },
    }
}

/// The facts of a window, completed in any way whatever: some such facts always exist, so the
/// answer of [`is_over_desktop`] is never about nothing.
pub proof fn lemma_facts_can_be_completed(facts: WindowFacts)
    ensures
        exists|all: WindowFacts| all.complete() && #[trigger] all.extends(facts),
{
    let all = WindowFacts {
        child_of_progman: Some(facts.child_of_progman->0),
        child_of_target: Some(facts.child_of_target->0),
        class: Some(facts.class->0),
        pid: Some(facts.pid->0),
        parent: Some(facts.parent->0),
        parent_pid: Some(facts.parent_pid->0),
        grandparent_pid: Some(facts.grandparent_pid->0),
    };
    assert(all.complete() && all.extends(facts));
}

/// A window that has been remembered is recognised by its handle from then on.
pub proof fn lemma_remembered_window_is_known(state: HookState, hwnd: isize, facts: WindowFacts)
    requires
        hwnd != 0,
        over_desktop(state, hwnd, facts),
        !inside_desktop(state, facts),
        !(facts.class->0 is XamlIsland),
    ensures
        known_window(state_after_probe(state, hwnd, facts), hwnd),
{
}

/// A window belongs to the desktop by its handle, by lying inside the desktop's windows, as an
/// overlay of the shell's own process, or as the web view's render window. A handle or a process
/// that is not known yet speaks for no window.
pub proof fn lemma_what_belongs_to_the_desktop(state: HookState, hwnd: isize, facts: WindowFacts)
    ensures
        hwnd != 0 && (hwnd == state.chrome_rwhh || hwnd == state.syslistview_hwnd || hwnd
            == state.desktop_core_hwnd) ==> over_desktop(state, hwnd, facts),
        hwnd == state.target_parent_hwnd || hwnd == state.webview_hwnd || hwnd
            == state.progman_hwnd ==> over_desktop(state, hwnd, facts),
        state.progman_hwnd != 0 && facts.child_of_progman == Some(true) ==> over_desktop(
            state,
            hwnd,
            facts,
        ),
        state.target_parent_hwnd != 0 && facts.child_of_target == Some(true) ==> over_desktop(
            state,
            hwnd,
            facts,
        ),
        state.explorer_pid != 0 && facts.pid == Some(state.explorer_pid) && (facts.class == Some(
            WindowClass::XamlIsland,
        ) || facts.class == Some(WindowClass::CoreWindow)) ==> over_desktop(state, hwnd, facts),
        state.chrome_rwhh == 0 && state.webview_hwnd != 0 && facts.class == Some(
            WindowClass::RenderWidget,
        ) && (facts.parent matches Some(p) && p != 0) && (facts.parent_pid == Some(state.our_pid)
            || facts.grandparent_pid == Some(Some(state.our_pid))) ==> over_desktop(
            state,
            hwnd,
            facts,
        ),
{
}

/// A window that is none of the known ones and lies inside none of them belongs to the desktop
/// only by its class and its process. A window of another class does not, nor does an overlay of
/// another process, nor a render window once one is known, before there is a web view, without a
/// parent, or of a process that neither is nor was started by this one.
pub proof fn lemma_what_does_not_belong_to_the_desktop(
    state: HookState,
    hwnd: isize,
    facts: WindowFacts,
)
    requires
        facts.complete(),
        hwnd != state.target_parent_hwnd && hwnd != state.webview_hwnd && hwnd
            != state.progman_hwnd,
        hwnd == 0 || hwnd != state.chrome_rwhh && hwnd != state.syslistview_hwnd && hwnd
            != state.desktop_core_hwnd,
        state.progman_hwnd == 0 || facts.child_of_progman == Some(false),
        state.target_parent_hwnd == 0 || facts.child_of_target == Some(false),
    ensures
        facts.class == Some(WindowClass::Other) ==> !over_desktop(state, hwnd, facts),
        facts.class == Some(WindowClass::XamlIsland) || facts.class == Some(
            WindowClass::CoreWindow,
        ) ==> (over_desktop(state, hwnd, facts) <==> state.explorer_pid != 0 && facts.pid == Some(
            state.explorer_pid,
        )),
        facts.class == Some(WindowClass::RenderWidget) ==> (over_desktop(state, hwnd, facts) <==> {
            &&& state.chrome_rwhh == 0 && state.webview_hwnd != 0
            &&& facts.parent != Some(0isize)
            &&& facts.parent_pid == Some(state.our_pid) || facts.grandparent_pid == Some(
                Some(state.our_pid),
            )
        }),
        !over_desktop(state, hwnd, facts) ==> state_after_probe(state, hwnd, facts) == state,
        over_desktop(state, hwnd, facts) && facts.class == Some(WindowClass::CoreWindow)
            ==> state_after_probe(state, hwnd, facts) == (HookState {
            desktop_core_hwnd: hwnd,
            ..state
        }),
        over_desktop(state, hwnd, facts) && facts.class == Some(WindowClass::RenderWidget)
            ==> state_after_probe(state, hwnd, facts) == (HookState { chrome_rwhh: hwnd, ..state }),
        over_desktop(state, hwnd, facts) && facts.class == Some(WindowClass::XamlIsland)
            ==> state_after_probe(state, hwnd, facts) == state,
{
    assert(facts.has(Fact::Class) && facts.has(Fact::Pid) && facts.has(Fact::Parent)
        && facts.has(Fact::ParentPid) && facts.has(Fact::GrandparentPid));
}

/// Nothing is remembered of a window whose handle is known, or that lies inside the desktop.
pub proof fn lemma_known_windows_change_nothing(state: HookState, hwnd: isize, facts: WindowFacts)
    requires
        ({
            ||| hwnd == state.webview_hwnd || hwnd == state.progman_hwnd
            ||| hwnd == state.target_parent_hwnd
            ||| hwnd != 0 && (hwnd == state.chrome_rwhh || hwnd == state.syslistview_hwnd || hwnd
                == state.desktop_core_hwnd)
            ||| state.progman_hwnd != 0 && facts.child_of_progman == Some(true)
            ||| state.target_parent_hwnd != 0 && facts.child_of_target == Some(true)
        }),
    ensures
        state_after_probe(state, hwnd, facts) == state,
{
}

/// A window of which nothing is known is settled by its handle alone, or else one question is
/// asked, and the first is whether it lies inside the desktop's top window, if that is known.
pub proof fn lemma_quick_questions_come_first(state: HookState, hwnd: isize, facts: WindowFacts)
    requires
        forall|fact: Fact| !facts.has(fact),
    ensures
        missing_fact(state, hwnd, facts) is None <==> {
            ||| hwnd == state.webview_hwnd || hwnd == state.progman_hwnd
            ||| hwnd == state.target_parent_hwnd
            ||| hwnd != 0 && (hwnd == state.chrome_rwhh || hwnd == state.syslistview_hwnd || hwnd
                == state.desktop_core_hwnd)
        },
        missing_fact(state, hwnd, facts) matches Some(fact) ==> fact == if state.progman_hwnd != 0 {
            Fact::ChildOfProgman
        } else if state.target_parent_hwnd != 0 {
            Fact::ChildOfTarget
        } else {
            Fact::Class
        },
{
    assert(!facts.has(Fact::ChildOfProgman) && !facts.has(Fact::ChildOfTarget) && !facts.has(
        Fact::Class,
    ));
}

/// Facts are complete exactly if each of the seven is there, and complete facts leave no question
/// open and go with nothing but themselves.
pub proof fn lemma_complete_facts(state: HookState, hwnd: isize, facts: WindowFacts)
    ensures
        facts.complete() <==> {
            &&& facts.child_of_progman is Some && facts.child_of_target is Some
            &&& facts.class is Some && facts.pid is Some
            &&& facts.parent is Some && facts.parent_pid is Some && facts.grandparent_pid is Some
        },
        facts.complete() ==> missing_fact(state, hwnd, facts) is None,
        facts.extends(facts),
        forall|other: WindowFacts| #[trigger]
            other.extends(facts) && facts.complete() ==> other == facts,
{
    assert(facts.complete() ==> facts.has(Fact::ChildOfProgman) && facts.has(Fact::ChildOfTarget)
        && facts.has(Fact::Class) && facts.has(Fact::Pid) && facts.has(Fact::Parent) && facts.has(
        Fact::ParentPid,
    ) && facts.has(Fact::GrandparentPid));
}

} // verus!
