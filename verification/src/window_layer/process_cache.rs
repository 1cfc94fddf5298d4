//! List view messages into the shell's process, with one handle and one buffer kept open.
//!
//! A message whose parameter is a pointer needs memory in the process that owns the window. The
//! handle of that process and the buffer in it are kept for the next message. One message is a
//! conversation with the platform: [`cross_process_lvm_send`] takes what happened last and says
//! what comes next.

use vstd::prelude::*;

verus! {

/// Bytes of the buffer in the other process, enough for every structure that is sent.
pub const CACHED_BUF_SIZE: usize = 256;

/// The process handle and the remote buffer that are kept open. 0 stands for none.
#[derive(Clone, Copy, PartialEq, Eq, Debug, Structural)]
pub struct ProcCache {
    pub handle: isize,
    pub pid: u32,
    pub buf: isize,
}

/// A handle to close, after the buffer in its process has been freed where there is one.
#[derive(Clone, Copy, PartialEq, Eq, Debug, Structural)]
pub struct Release {
    pub handle: isize,
    pub buf: Option<isize>,
}

/// What happened last.
#[derive(Clone, Copy, PartialEq, Eq, Debug, Structural)]
pub enum LvmEvent {
    /// The process that owns the list view, 0 where it has none.
    Owner { pid: u32 },
    /// The process was opened, or could not be.
    Opened { pid: u32, opened: Option<isize> },
    /// The buffer was allocated, at 0 where it could not be.
    Allocated { pid: u32, handle: isize, remote: isize },
    /// The input was written, or could not be.
    Written { ok: bool },
    /// The message was answered.
    Sent { result: u64 },
}

/// What comes next.
#[derive(Clone, Copy, PartialEq, Eq, Debug, Structural)]
pub enum LvmStep {
    /// Release what is named, then open the process.
    Open { pid: u32, release: Option<Release> },
    /// Allocate the buffer in the process.
    Allocate { pid: u32, handle: isize },
    /// Write the input to the buffer.
    Write { handle: isize, buf: isize },
    /// Send the message with the buffer's address.
    Send,
    /// Read the output back from the buffer; the result is this.
    ReadBack { result: u64 },
    /// Release what is named; the result is 0.
    GiveUp { release: Option<Release> },
}

pub open spec fn empty_cache() -> ProcCache {
    ProcCache { handle: 0, pid: 0, buf: 0 }
}

/// What has to be released when a cache is emptied.
pub open spec fn release_of(cache: ProcCache) -> Option<Release> {
    if cache.handle == 0 {
        None
    } else {
        Some(
            Release {
                handle: cache.handle,
                buf: if cache.buf == 0 {
                    None
                } else {
                    Some(cache.buf)
                },
            },
        )
    }
}

/// The cache serves the process.
pub open spec fn serves(cache: ProcCache, pid: u32) -> bool {
    pid != 0 && cache.pid == pid && cache.handle != 0 && cache.buf != 0
}

/// The cache after a process has been asked for, and what comes next: what is kept for it is used,
/// or else what is kept for another is released and the process is opened.
pub open spec fn cached_proc(cache: ProcCache, pid: u32) -> (ProcCache, LvmStep) {
    if serves(cache, pid) {
        (cache, LvmStep::Write { handle: cache.handle, buf: cache.buf })
    } else {
        (empty_cache(), LvmStep::Open { pid, release: release_of(cache) })
    }
}

/// The cache after an event, and what comes next.
pub open spec fn lvm_outcome(cache: ProcCache, event: LvmEvent) -> (ProcCache, LvmStep) {
    match event {
        LvmEvent::Owner { pid } => if pid == 0 {
            (cache, LvmStep::GiveUp { release: None })
        } else {
            cached_proc(cache, pid)
        },
        LvmEvent::Opened { pid, opened } => match opened {
            None => (cache, LvmStep::GiveUp { release: None }),
            Some(handle) => (cache, LvmStep::Allocate { pid, handle }),
        },
        LvmEvent::Allocated { pid, handle, remote } => if remote == 0 {
            (cache, LvmStep::GiveUp { release: Some(Release { handle, buf: None }) })
        } else {
            (ProcCache { handle, pid, buf: remote }, LvmStep::Write { handle, buf: remote })
        },
        LvmEvent::Written { ok } => if ok {
            (cache, LvmStep::Send)
        } else {
            (empty_cache(), LvmStep::GiveUp { release: release_of(cache) })
        },
        LvmEvent::Sent { result } => (cache, LvmStep::ReadBack { result }),
    }
}

impl ProcCache {
    /// Nothing is kept open.
    pub fn new() -> (r: ProcCache)
        ensures
            r == empty_cache(),
    {
        ProcCache { handle: 0, pid: 0, buf: 0 }
    }

    /// Empties the cache and says what has to be released.
    pub fn invalidate_proc_cache_pub(&mut self) -> (r: Option<Release>)
        ensures
            *final(self) == empty_cache(),
            r == release_of(*old(self)),
    {
        let old_handle: isize = self.handle;
        let old_buf: isize = self.buf;
        self.handle = 0;
        self.pid = 0;
        self.buf = 0;
        if old_handle == 0 {
            return None;
        }
        let buf: Option<isize> = if old_buf == 0 { None } else { Some(old_buf) };
        Some(Release { handle: old_handle, buf })
    }

    /// The handle and the buffer that are kept for a process.
    pub fn lookup(&self, pid: u32) -> (r: Option<(isize, isize)>)
        ensures
            r == if serves(*self, pid) {
                Some((self.handle, self.buf))
            } else {
                None
            },
    {
        if pid != 0 && self.pid == pid && self.handle != 0 && self.buf != 0 {
            Some((self.handle, self.buf))
        } else {
            None
        }
    }

    /// Asks for a process: what is kept for it is used, or else it has to be opened.
    pub fn ensure_cached_proc(&mut self, pid: u32) -> (r: LvmStep)
        ensures
            (*final(self), r) == cached_proc(*old(self), pid),
    {
        match self.lookup(pid) {
            Some((handle, buf)) => LvmStep::Write { handle, buf },
            None => {
                let release = self.invalidate_proc_cache_pub();
                LvmStep::Open { pid, release }
            },
        }
    }
}

/// One step in sending a list view message to another process.
pub fn cross_process_lvm_send(cache: &mut ProcCache, event: LvmEvent) -> (r: LvmStep)
    ensures
        (*final(cache), r) == lvm_outcome(*old(cache), event),
{
    match event {
        LvmEvent::Owner { pid } => {
            if pid == 0 {
                return LvmStep::GiveUp { release: None };
            }
            cache.ensure_cached_proc(pid)
        },
        LvmEvent::Opened { pid, opened } => match opened {
            None => LvmStep::GiveUp { release: None },
            Some(handle) => LvmStep::Allocate { pid, handle },
        },
        LvmEvent::Allocated { pid, handle, remote } => {
            if remote == 0 {
                return LvmStep::GiveUp { release: Some(Release { handle, buf: None }) };
            }
            *cache = ProcCache { handle, pid, buf: remote };
            LvmStep::Write { handle, buf: remote }
        },
        LvmEvent::Written { ok } => {
            if ok {
                LvmStep::Send
            } else {
                let release = cache.invalidate_proc_cache_pub();
                LvmStep::GiveUp { release }
            }
        },
        LvmEvent::Sent { result } => LvmStep::ReadBack { result },
    }
}

/// What a list view said of one of its items: nothing, where it answered 0.
pub fn item_answer<T>(result: u64, value: T) -> (r: Option<T>)
    ensures
        r == if result != 0 {
            Some(value)
        } else {
            None
        },
{
    if result != 0 {
        Some(value)
    } else {
        None
    }
}

/// Input is written only to the process that was asked for: where the cache is used, it serves
/// that process, and where the process was opened anew, the cache serves it from then on.
pub proof fn lemma_written_to_the_right_process(
    cache: ProcCache,
    pid: u32,
    handle: isize,
    remote: isize,
)
    requires
        pid != 0,
        handle != 0,
    ensures
        lvm_outcome(cache, LvmEvent::Owner { pid }).1 is Write ==> serves(cache, pid),
        lvm_outcome(cache, LvmEvent::Allocated { pid, handle, remote }).1 is Write ==> serves(
            lvm_outcome(cache, LvmEvent::Allocated { pid, handle, remote }).0,
            pid,
        ),
{
}

/// A handle that is dropped from the cache is handed out to be closed, and while a handle is
/// handed out the cache holds none. (A buffer that was just allocated goes into a cache that is
/// empty already.)
pub proof fn lemma_dropped_handle_is_released(cache: ProcCache, event: LvmEvent)
    requires
        event !is Allocated,
    ensures
        ({
            let (after, step) = lvm_outcome(cache, event);
            &&& cache.handle != 0 && after.handle == 0 ==> {
                ||| step matches LvmStep::Open { release, .. } && release == release_of(cache)
                ||| step matches LvmStep::GiveUp { release } && release == release_of(cache)
            }
            &&& (step matches LvmStep::Open { release: Some(x), .. } ==> after.handle == 0)
            &&& (step matches LvmStep::GiveUp { release: Some(x) } ==> after.handle == 0)
        }),
{
}

/// After the cache has been emptied it serves no process, and emptying it again releases nothing.
pub proof fn lemma_empty_cache_serves_nobody(pid: u32)
    ensures
        !serves(empty_cache(), pid),
        release_of(empty_cache()) is None,
{
}

/// What asking for a process comes to, with the answers that the platform gives on the way: the
/// handle where the process can be opened, and the buffer, 0 where there is no memory for it.
pub open spec fn cached_proc_end(
    cache: ProcCache,
    pid: u32,
    opened: Option<isize>,
    remote: isize,
) -> (ProcCache, LvmStep) {
    let (asked, step) = cached_proc(cache, pid);
    if step is Open {
        let (next, open_step) = lvm_outcome(asked, LvmEvent::Opened { pid, opened });
        match open_step {
            LvmStep::Allocate { pid, handle } => lvm_outcome(
                next,
                LvmEvent::Allocated { pid, handle, remote },
            ),
            _ => (next, open_step),
        }
    } else {
        (asked, step)
    }
}

/// A process that is kept is found again as it was, without being opened. Another process takes
/// its place: what was kept is released first, and then either a fresh handle and buffer are
/// kept, or the cache is empty and a handle that was opened is given back.
pub proof fn lemma_one_process_is_kept(
    cache: ProcCache,
    kept: u32,
    pid: u32,
    opened: Option<isize>,
    remote: isize,
)
    requires
        serves(cache, kept),
    ensures
        pid == kept ==> cached_proc_end(cache, pid, opened, remote) == (
            cache,
            LvmStep::Write { handle: cache.handle, buf: cache.buf },
        ),
        pid != kept ==> {
            &&& cached_proc(cache, pid) == (
                empty_cache(),
                LvmStep::Open {
                    pid,
                    release: Some(Release { handle: cache.handle, buf: Some(cache.buf) }),
                },
            )
            &&& cached_proc_end(cache, pid, opened, remote) == match opened {
                None => (empty_cache(), LvmStep::GiveUp { release: None }),
                Some(handle) => if remote == 0 {
                    (
                        empty_cache(),
                        LvmStep::GiveUp { release: Some(Release { handle, buf: None }) },
                    )
                } else {
                    (
                        ProcCache { handle, pid, buf: remote },
                        LvmStep::Write { handle, buf: remote },
                    )
                },
            }
        },
{
}

/// The message is sent once the input has been written, and its result stands once it has been
/// answered. Where the input could not be written, everything that was kept is released and
/// forgotten.
pub proof fn lemma_message_is_sent_after_its_input(cache: ProcCache, ok: bool, result: u64)
    ensures
        lvm_outcome(cache, LvmEvent::Written { ok: true }) == (cache, LvmStep::Send),
        lvm_outcome(cache, LvmEvent::Sent { result }) == (cache, LvmStep::ReadBack { result }),
        ({
            let (after, step) = lvm_outcome(cache, LvmEvent::Written { ok: false });
            &&& after.handle == 0 && after.pid == 0 && after.buf == 0
            &&& step matches LvmStep::GiveUp { release }
            &&& release is Some <==> cache.handle != 0
            &&& release matches Some(x) ==> x.handle == cache.handle && match x.buf {
                Some(buf) => buf == cache.buf && buf != 0,
                None => cache.buf == 0,
            }
        }),
{
}

/// A list view of no process gets no message. A process is served from the cache exactly if it is
/// the one that is kept, with a handle and a buffer; any other is opened first.
pub proof fn lemma_who_is_served(cache: ProcCache, pid: u32)
    ensures
        lvm_outcome(cache, LvmEvent::Owner { pid: 0 }) == (
            cache,
            LvmStep::GiveUp { release: None },
        ),
        pid != 0 ==> {
            let kept = cache.pid == pid && cache.handle != 0 && cache.buf != 0;
            let (after, step) = lvm_outcome(cache, LvmEvent::Owner { pid });
            &&& kept ==> after == cache && step == (LvmStep::Write {
                handle: cache.handle,
                buf: cache.buf,
            })
            &&& !kept ==> {
                &&& after.handle == 0 && after.pid == 0 && after.buf == 0
                &&& step matches LvmStep::Open { pid: p, release }
                &&& p == pid
                &&& release is Some <==> cache.handle != 0
                &&& release matches Some(x) ==> x.handle == cache.handle
            }
        },
{
}

/// A process that was opened gets a buffer, and both are kept from then on. A process that could
/// not be opened ends the matter, and a buffer that could not be had ends it too, with the handle
/// given back.
pub proof fn lemma_open_and_allocate(
    cache: ProcCache,
    pid: u32,
    handle: isize,
    remote: isize,
)
    ensures
        lvm_outcome(cache, LvmEvent::Opened { pid, opened: None }) == (
            cache,
            LvmStep::GiveUp { release: None },
        ),
        lvm_outcome(cache, LvmEvent::Opened { pid, opened: Some(handle) }) == (
            cache,
            LvmStep::Allocate { pid, handle },
        ),
        remote == 0 ==> lvm_outcome(cache, LvmEvent::Allocated { pid, handle, remote }) == (
            cache,
            LvmStep::GiveUp { release: Some(Release { handle, buf: None }) },
        ),
        remote != 0 ==> {
            let (after, step) = lvm_outcome(cache, LvmEvent::Allocated { pid, handle, remote });
            &&& after.handle == handle && after.pid == pid && after.buf == remote
            &&& step == (LvmStep::Write { handle, buf: remote })
        },
{
}

/// The remote buffer holds two hundred and fifty-six bytes.
pub proof fn lemma_buffer_size()
    ensures
        CACHED_BUF_SIZE == 256,
{
}

} // verus!
