//! Start and supervision of the application: old logs, the script that greets the page, and the
//! page's heartbeat.

use vstd::prelude::*;
use vstd::string::*;

use crate::file_name;
use crate::file_name::file_extension;
use crate::text;
use crate::text::same_text;

verus! {

/// Log files that are kept.
pub const KEPT_LOGS: usize = 5;

/// Whether a file is a log, by its name.
pub fn is_log_name(name: &str) -> (r: bool)
    ensures
        r == (file_name::extension(name@) == Some("log"@)),
{
    match file_extension(name) {
        Some(e) => same_text(e, "log"),
        None => false,
    }
}

/// File `i` comes before file `j`, newest first, and in their given order where they are equally
/// old.
pub open spec fn comes_before(times: Seq<i128>, i: int, j: int) -> bool {
    times[i] > times[j] || (times[i] == times[j] && i < j)
}

/// `order` holds file `i`.
pub open spec fn occurs(order: Seq<usize>, i: int) -> bool {
    exists|a: int| 0 <= a < order.len() && #[trigger] order[a] == i
}

/// `order` holds the first `n` files, each once, newest first.
pub open spec fn newest_first(order: Seq<usize>, times: Seq<i128>, n: int) -> bool {
    &&& order.len() == n
    &&& forall|a: int| 0 <= a < order.len() ==> 0 <= #[trigger] order[a] < n
    &&& forall|i: int| 0 <= i < n ==> #[trigger] occurs(order, i)
    &&& forall|a: int, b: int|
        0 <= a < b < order.len() ==> comes_before(
            times,
            #[trigger] order[a] as int,
            #[trigger] order[b] as int,
        )
}

/// The place of file `k` among those that are at least as new.
fn place_for(order: &Vec<usize>, times: &[i128], k: usize) -> (p: usize)
    requires
        k < times@.len(),
        newest_first(order@, times@, k as int),
    ensures
        p <= order@.len(),
        forall|a: int| 0 <= a < p ==> times@[#[trigger] order@[a] as int] >= times@[k as int],
        forall|a: int|
            p <= a < order@.len() ==> times@[#[trigger] order@[a] as int] < times@[k as int],
{
    let mut p: usize = 0;
    while p < order.len() && times[order[p]] >= times[k]
        invariant
            k < times@.len(),
            newest_first(order@, times@, k as int),
            p <= order@.len(),
            forall|a: int| 0 <= a < p ==> times@[#[trigger] order@[a] as int] >= times@[k as int],
        decreases order@.len() - p,
    {
        p += 1;
    }
    proof {
        assert forall|a: int| p <= a < order@.len() implies times@[#[trigger] order@[a] as int]
            < times@[k as int] by {
            if p < a {
                assert(comes_before(times@, order@[p as int] as int, order@[a] as int));
            }
        }
    }
    p
}

/// The logs to delete, given when each was written: all but the newest.
pub fn logs_to_delete(times: &[i128]) -> (r: Vec<usize>)
    ensures
        exists|order: Seq<usize>| #[trigger]
            newest_first(order, times@, times@.len() as int) && r@ == if times@.len() <= KEPT_LOGS {
                Seq::empty()
            } else {
                order.skip(KEPT_LOGS as int)
            },
        r@.len() == if times@.len() <= 5 {
            0
        } else {
            times@.len() - 5
        },
        forall|a: int| 0 <= a < r@.len() ==> #[trigger] r@[a] < times@.len(),
        forall|a: int, b: int| 0 <= a < b < r@.len() ==> #[trigger] r@[a] != #[trigger] r@[b],
        forall|a: int, i: int|
            0 <= a < r@.len() && 0 <= i < times@.len() && !occurs(r@, i) ==> #[trigger] times@[i]
                >= times@[#[trigger] r@[a] as int],
{
    let mut order: Vec<usize> = Vec::new();
    let mut k: usize = 0;
    while k < times.len()
        invariant
            k <= times@.len(),
            newest_first(order@, times@, k as int),
        decreases times@.len() - k,
    {
        let p: usize = place_for(&order, times, k);
        let ghost before = order@;
        order.insert(p, k);
        proof {
            assert forall|i: int| 0 <= i < k + 1 implies #[trigger] occurs(order@, i) by {
                if i == k {
                    assert(order@[p as int] == i);
                } else {
                    assert(occurs(before, i));
                    let a = choose|a: int| 0 <= a < before.len() && #[trigger] before[a] == i;
                    let shifted = if a < p {
                        a
                    } else {
                        a + 1
                    };
                    assert(order@[shifted] == i);
                }
            }
        }
        k += 1;
    }
    let mut out: Vec<usize> = Vec::new();
    let mut i: usize = KEPT_LOGS;
    while i < order.len()
        invariant
            KEPT_LOGS <= i,
            order@.len() < KEPT_LOGS ==> i == KEPT_LOGS,
            order@.len() >= KEPT_LOGS ==> i <= order@.len(),
            order@.len() >= KEPT_LOGS ==> out@ =~= order@.subrange(KEPT_LOGS as int, i as int),
            order@.len() < KEPT_LOGS ==> out@.len() == 0,
        decreases order@.len() - i,
    {
        out.push(order[i]);
        i += 1;
    }
    proof {
        if order@.len() > KEPT_LOGS {
            assert(out@ =~= order@.skip(KEPT_LOGS as int));
        } else {
            assert(out@ =~= Seq::empty());
        }
        lemma_deleted_logs_are_the_oldest(order@, times@, out@);
    }
    out
}

proof fn lemma_deleted_logs_are_the_oldest(order: Seq<usize>, times: Seq<i128>, out: Seq<usize>)
    requires
        newest_first(order, times, times.len() as int),
        out == if order.len() <= KEPT_LOGS {
            Seq::empty()
        } else {
            order.skip(KEPT_LOGS as int)
        },
    ensures
        forall|a: int| 0 <= a < out.len() ==> #[trigger] out[a] < times.len(),
        forall|a: int, b: int| 0 <= a < b < out.len() ==> #[trigger] out[a] != #[trigger] out[b],
        forall|a: int, i: int|
            0 <= a < out.len() && 0 <= i < times.len() && !occurs(out, i) ==> #[trigger] times[i]
                >= times[#[trigger] out[a] as int],
{
    let k = KEPT_LOGS as int;
    assert forall|a: int| 0 <= a < out.len() implies #[trigger] out[a] < times.len() by {
        assert(out[a] == order[a + k]);
    }
    assert forall|a: int, b: int| 0 <= a < b < out.len() implies #[trigger] out[a]
        != #[trigger] out[b] by {
        assert(out[a] == order[a + k] && out[b] == order[b + k]);
        assert(comes_before(times, order[a + k] as int, order[b + k] as int));
    }
    assert forall|a: int, i: int|
        0 <= a < out.len() && 0 <= i < times.len() && !occurs(
            out,
            i,
        ) implies #[trigger] times[i] >= times[#[trigger] out[a] as int] by {
        assert(occurs(order, i));
        let p = choose|p: int| 0 <= p < order.len() && #[trigger] order[p] == i;
        if p >= k {
            assert(out[p - k] == i);
        }
        assert(out[a] == order[a + k]);
        assert(comes_before(times, order[p] as int, order[a + k] as int));
    }
}

/// A file is in a list exactly if some place of the list holds it.
pub proof fn lemma_occurs(order: Seq<usize>, i: usize)
    ensures
        occurs(order, i as int) <==> order.contains(i),
{
    if occurs(order, i as int) {
        let a = choose|a: int| 0 <= a < order.len() && #[trigger] order[a] == i;
        assert(order[a] == i);
    }
    if order.contains(i) {
        let a = choose|a: int| 0 <= a < order.len() && order[a] == i;
        assert(order[a] == i);
    }
}

/// Of two logs the newer comes first, and of two that are equally old the one that was listed
/// first.
pub proof fn lemma_which_log_comes_first(times: Seq<i128>, i: int, j: int)
    requires
        0 <= i < times.len() && 0 <= j < times.len(),
    ensures
        times[i] > times[j] ==> comes_before(times, i, j) && !comes_before(times, j, i),
        times[i] == times[j] && i < j ==> comes_before(times, i, j) && !comes_before(times, j, i),
        !comes_before(times, i, i),
{
}

/// There is one order of the files, newest first.
pub proof fn lemma_order_is_unique(a: Seq<usize>, b: Seq<usize>, times: Seq<i128>)
    requires
        newest_first(a, times, times.len() as int),
        newest_first(b, times, times.len() as int),
    ensures
        a == b,
{
    lemma_orders_agree(a, b, times, a.len() as int);
    lemma_orders_agree(b, a, times, b.len() as int);
    assert(a =~= b);
}

proof fn lemma_orders_agree(a: Seq<usize>, b: Seq<usize>, times: Seq<i128>, k: int)
    requires
        newest_first(a, times, times.len() as int),
        newest_first(b, times, times.len() as int),
        0 <= k <= a.len(),
    ensures
        k <= b.len(),
        forall|i: int| 0 <= i < k ==> #[trigger] a[i] == b[i],
    decreases k,
{
    if k > 0 {
        lemma_orders_agree(a, b, times, k - 1);
        let at = k - 1;
        let x = a[at];
        assert(occurs(b, x as int));
        let px = choose|p: int| 0 <= p < b.len() && #[trigger] b[p] == x;
        if px < at {
            assert(a[px] == b[px]);
            assert(comes_before(times, a[px] as int, a[at] as int));
        }
        let y = b[at];
        if y != x {
            assert(occurs(a, y as int));
            let py = choose|p: int| 0 <= p < a.len() && #[trigger] a[p] == y;
            if py < at {
                assert(a[py] == b[py]);
                assert(comes_before(times, b[py] as int, b[at] as int));
            }
            assert(comes_before(times, a[at] as int, a[py] as int));
            assert(comes_before(times, b[at] as int, b[px] as int));
        }
    }
}

/// A log that is kept is at least as new as every log that is deleted.
pub proof fn lemma_newest_logs_are_kept(order: Seq<usize>, times: Seq<i128>, kept: int, gone: int)
    requires
        newest_first(order, times, times.len() as int),
        0 <= kept < KEPT_LOGS <= gone < order.len(),
    ensures
        times[order[kept] as int] >= times[order[gone] as int],
{
    assert(comes_before(times, order[kept] as int, order[gone] as int));
}

/// The words for the two truth values in a script.
pub open spec fn bool_word(b: bool) -> Seq<char> {
    if b {
        "true"@
    } else {
        "false"@
    }
}

/// The script that tells the page what it runs in.
pub fn init_script(
    platform: &str,
    arch: &str,
    app_version: &str,
    tauri_version: &str,
    debug: bool,
) -> (r: String)
    ensures
        r@ == "window.__MW_INIT__ = { isTauri: true, platform: \""@ + platform@ + "\", arch: \""@
            + arch@ + "\", appVersion: \""@ + app_version@ + "\", tauriVersion: \""@
            + tauri_version@ + "\", debug: "@ + bool_word(debug) + " };"@,
        debug ==> text::ends_in(r@, "\", debug: "@ + "true"@ + " };"@),
        !debug ==> text::ends_in(r@, "\", debug: "@ + "false"@ + " };"@),
{
    let mut s = "window.__MW_INIT__ = { isTauri: true, platform: \"".to_owned();
    s.append(platform);
    s.append("\", arch: \"");
    s.append(arch);
    s.append("\", appVersion: \"");
    s.append(app_version);
    s.append("\", tauriVersion: \"");
    s.append(tauri_version);
    s.append("\", debug: ");
    s.append(if debug { "true" } else { "false" });
    s.append(" };");
    proof {
        let front = "window.__MW_INIT__ = { isTauri: true, platform: \""@ + platform@
            + "\", arch: \""@ + arch@ + "\", appVersion: \""@ + app_version@
            + "\", tauriVersion: \""@ + tauri_version@;
        let back = "\", debug: "@ + bool_word(debug) + " };"@;
        assert(s@ =~= front + back);
        text::lemma_ends_in(back, front);
    }
    s
}

/// Seconds that the page has to load before its heartbeat is watched.
pub const HEARTBEAT_GRACE: u64 = 30;

/// Seconds between two looks at the heartbeat.
pub const HEARTBEAT_PERIOD: u64 = 5;

/// Seconds without a heartbeat after which the page counts as stuck.
pub const HEARTBEAT_LIMIT: u64 = 15;

/// The page's last sign of life.
#[derive(Clone, Copy, PartialEq, Eq, Debug, Structural)]
pub struct Heartbeat {
    /// In seconds of the clock that is also asked later.
    pub last: u64,
}

impl Heartbeat {
    /// The page gave a sign of life, or was made anew.
    pub fn beat(&mut self, now: u64)
        ensures
            *final(self) == (Heartbeat { last: now }),
    {
        self.last = now;
    }

    /// For how long the page has been silent, where that is too long. A clock that was set back
    /// makes no silence.
    pub fn silence(&self, now: u64) -> (r: Option<u64>)
        ensures
            match r {
                Some(elapsed) => elapsed == now - self.last && now - self.last > HEARTBEAT_LIMIT,
                None => now - self.last <= HEARTBEAT_LIMIT,
            },
            r is Some <==> now > self.last + 15,
    {
        if now < self.last {
            return None;
        }
        let elapsed: u64 = now - self.last;
        if elapsed > HEARTBEAT_LIMIT {
            Some(elapsed)
        } else {
            None
        }
    }
}

/// How many logs are kept, and the seconds by which the heartbeat is watched.
pub proof fn lemma_limits()
    ensures
        KEPT_LOGS == 5,
        HEARTBEAT_GRACE == 30 && HEARTBEAT_PERIOD == 5 && HEARTBEAT_LIMIT == 15,
{
}

/// A page that was heard of no more than fifteen seconds ago is not stuck, and any other is stuck
/// for as long as it has been silent.
pub proof fn lemma_when_a_page_is_stuck(page: Heartbeat, now: u64, r: Option<u64>)
    requires
        call_ensures(Heartbeat::silence, (&page, now), r),
    ensures
        now <= page.last + 15 ==> r is None,
        now > page.last + 15 ==> r is Some && page.last + r->0 == now,
{
}

/// A file is a log exactly if its name ends with a dot and `log`, behind something else.
pub proof fn lemma_which_files_are_logs(stem: Seq<char>, ending: Seq<char>, name: &str, r: bool)
    requires
        stem.len() > 0 && !ending.contains('.'),
        name@ == stem + seq!['.'] + ending,
        call_ensures(is_log_name, (name,), r),
    ensures
        r <==> ending == "log"@,
{
    file_name::lemma_ending_is_the_extension(stem, ending);
}

} // verus!
