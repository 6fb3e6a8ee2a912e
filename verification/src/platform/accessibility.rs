//! Reconciling the windows that the window server lists with the windows
//! that the accessibility service reports. Some applications own several
//! server windows for each window that the user sees; the accessibility
//! service knows the real number.

use vstd::prelude::*;
use crate::monitor::geometry::Rect;
use crate::platform::macos::{allowed_minimized_count, minimized_budget};

verus! {

/// A window as the window server lists it.
#[derive(Debug, Clone, PartialEq, Eq)]
pub struct CgWindow {
    pub id: u32,
    pub pid: i32,
    pub app_name: String,
    pub title: String,
    pub has_title: bool,
    pub bounds: Rect,
}

/// What the accessibility service says of a window.
#[derive(Debug, Clone, PartialEq, Eq)]
pub struct AxWindowMeta {
    pub id: u32,
    pub title: String,
    pub is_minimized: bool,
}

/// The windows that the accessibility service reports for a process.
#[derive(Debug, Clone, PartialEq, Eq)]
pub struct AxApp {
    pub pid: i32,
    pub windows: Vec<AxWindowMeta>,
}

/// How many of the windows belong to the process.
pub open spec fn count_of_pid(windows: Seq<CgWindow>, pid: i32) -> nat
    decreases windows.len(),
{
    if windows.len() == 0 {
        0
    } else {
        count_of_pid(windows.drop_last(), pid) + if windows.last().pid == pid {
            1nat
        } else {
            0nat
        }
    }
}

/// The report for the process, if the service gave one.
pub open spec fn report_for(apps: Seq<AxApp>, pid: i32) -> Option<Seq<AxWindowMeta>>
    decreases apps.len(),
{
    if apps.len() == 0 {
        None
    } else if apps[0].pid == pid {
        Some(apps[0].windows@)
    } else {
        report_for(apps.drop_first(), pid)
    }
}

/// What the report says of the window with the identifier, if it lists it.
pub open spec fn meta_for(report: Seq<AxWindowMeta>, id: u32) -> Option<AxWindowMeta>
    decreases report.len(),
{
    if report.len() == 0 {
        None
    } else if report[0].id == id {
        Some(report[0])
    } else {
        meta_for(report.drop_first(), id)
    }
}

/// The number of windows of a process that may be listed: as many as the
/// service reports, and one at least.
pub open spec fn window_budget(report: Seq<AxWindowMeta>) -> nat {
    if report.len() == 0 {
        1
    } else {
        report.len()
    }
}

/// The window under the title that the service reports for it, if it
/// reports one.
pub open spec fn retitled(window: CgWindow, meta: Option<AxWindowMeta>) -> CgWindow {
    match meta {
        Some(m) => if m.title@.len() > 0 {
            CgWindow { title: m.title, ..window }
        } else {
            window
        },
        None => window,
    }
}

/// Whether a window is kept, given the windows kept before it. A window
/// of a process without report is kept. Of a process with a report, a
/// window is kept while the budget lasts and if the report lists it.
pub open spec fn keeps(kept: Seq<CgWindow>, apps: Seq<AxApp>, window: CgWindow) -> bool {
    match report_for(apps, window.pid) {
        None => true,
        Some(report) => {
            &&& count_of_pid(kept, window.pid) < window_budget(report)
            &&& report.len() == 0 || meta_for(report, window.id) is Some
        },
    }
}

/// The windows that stay, in their order, each under the title that the
/// service reports for it.
pub open spec fn deduplicated(windows: Seq<CgWindow>, apps: Seq<AxApp>) -> Seq<CgWindow>
    decreases windows.len(),
{
    if windows.len() == 0 {
        Seq::<CgWindow>::empty()
    } else {
        let before = deduplicated(windows.drop_last(), apps);
        let window = windows.last();
        if keeps(before, apps, window) {
            match report_for(apps, window.pid) {
                Some(report) => before.push(retitled(window, meta_for(report, window.id))),
                None => before.push(window),
            }
        } else {
            before
        }
    }
}

/// Counts the windows of a process.
pub fn count_pid(windows: &Vec<CgWindow>, pid: i32) -> (count: usize)
    ensures
        count == count_of_pid(windows@, pid),
{
    let mut count: usize = 0;
    let mut i: usize = 0;
    while i < windows.len()
        invariant
            i <= windows@.len(),
            count <= i,
            count == count_of_pid(windows@.take(i as int), pid),
        decreases windows@.len() - i,
    {
        proof {
            assert(windows@.take(i + 1).drop_last() =~= windows@.take(i as int));
        }
        if windows[i].pid == pid {
            count += 1;
        }
        i += 1;
    }
    proof {
        assert(windows@.take(i as int) =~= windows@);
    }
    count
}

fn find_report(apps: &Vec<AxApp>, pid: i32) -> (found: Option<usize>)
    ensures
        match found {
            Some(i) => i < apps@.len() && report_for(apps@, pid) == Some(apps@[i as int].windows@),
            None => report_for(apps@, pid) is None,
        },
{
    let mut i: usize = 0;
    proof {
        assert(apps@.skip(0) =~= apps@);
    }
    while i < apps.len()
        invariant
            i <= apps@.len(),
            report_for(apps@, pid) == report_for(apps@.skip(i as int), pid),
        decreases apps@.len() - i,
    {
        proof {
            assert(apps@.skip(i as int).drop_first() =~= apps@.skip(i + 1));
        }
        if apps[i].pid == pid {
            return Some(i);
        }
        i += 1;
    }
    None
}

fn find_meta(report: &Vec<AxWindowMeta>, id: u32) -> (found: Option<usize>)
    ensures
        match found {
            Some(i) => i < report@.len() && meta_for(report@, id) == Some(report@[i as int]),
            None => meta_for(report@, id) is None,
        },
{
    let mut i: usize = 0;
    proof {
        assert(report@.skip(0) =~= report@);
    }
    while i < report.len()
        invariant
            i <= report@.len(),
            meta_for(report@, id) == meta_for(report@.skip(i as int), id),
        decreases report@.len() - i,
    {
        proof {
            assert(report@.skip(i as int).drop_first() =~= report@.skip(i + 1));
        }
        if report[i].id == id {
            return Some(i);
        }
        i += 1;
    }
    None
}

/// The processes that own more than one of the windows, each named once,
/// in the order in which their second window appears.
pub fn multi_window_pids(windows: &Vec<CgWindow>) -> (pids: Vec<i32>)
    ensures
        forall|pid: i32|
            pids@.contains(pid) <==> count_of_pid(windows@, pid) > 1,
        forall|i: int, j: int| 0 <= i < j < pids@.len() ==> pids@[i] != pids@[j],
{
    let mut pids: Vec<i32> = Vec::new();
    let mut i: usize = 0;
    while i < windows.len()
        invariant
            i <= windows@.len(),
            forall|pid: i32|
                pids@.contains(pid) <==> count_of_pid(windows@.take(i as int), pid) > 1,
            forall|a: int, b: int| 0 <= a < b < pids@.len() ==> pids@[a] != pids@[b],
        decreases windows@.len() - i,
    {
        let pid = windows[i].pid;
        let before = count_before(windows, i, pid);
        let ghost old_pids = pids@;
        proof {
            assert(windows@.take(i + 1).drop_last() =~= windows@.take(i as int));
        }
        if before == 1 {
            pids.push(pid);
        }
        proof {
            assert forall|p: i32| pids@.contains(p) <==> count_of_pid(
                windows@.take(i + 1),
                p,
            ) > 1 by {
                if before == 1 {
                    assert(pids@ == old_pids.push(pid));
                    if old_pids.contains(p) {
                        let k = choose|k: int| 0 <= k < old_pids.len() && old_pids[k] == p;
                        assert(pids@[k] == p);
                    }
                    if p == pid {
                        assert(pids@[old_pids.len() as int] == pid);
                    }
                    if pids@.contains(p) {
                        let k = choose|k: int| 0 <= k < pids@.len() && pids@[k] == p;
                        if k < old_pids.len() {
                            assert(old_pids[k] == p);
                        }
                    }
                }
            }
            assert forall|a: int, b: int| 0 <= a < b < pids@.len() implies pids@[a] != pids@[b] by {
                if before == 1 && b == old_pids.len() {
                    assert(!old_pids.contains(pid));
                    assert(old_pids[a] == pids@[a]);
                }
            }
        }
        i += 1;
    }
    proof {
        assert(windows@.take(i as int) =~= windows@);
    }
    pids
}

/// Counts the windows of a process among the first `upto` windows.
fn count_before(windows: &Vec<CgWindow>, upto: usize, pid: i32) -> (count: usize)
    requires
        upto <= windows@.len(),
    ensures
        count == count_of_pid(windows@.take(upto as int), pid),
{
    let mut count: usize = 0;
    let mut i: usize = 0;
    while i < upto
        invariant
            i <= upto <= windows@.len(),
            count <= i,
            count == count_of_pid(windows@.take(i as int), pid),
        decreases upto - i,
    {
        proof {
            assert(windows@.take(i + 1).drop_last() =~= windows@.take(i as int));
        }
        if windows[i].pid == pid {
            count += 1;
        }
        i += 1;
    }
    count
}

/// Drops the surplus windows of processes for which the accessibility
/// service gave a report, keeps all others, and keeps the order.
pub fn dedup_by_ax(windows: Vec<CgWindow>, apps: &Vec<AxApp>) -> (result: Vec<CgWindow>)
    ensures
        result@ == deduplicated(windows@, apps@),
{
    let ghost orig = windows@;
    let mut rest = windows;
    let mut result: Vec<CgWindow> = Vec::new();
    let ghost mut k: int = 0;
    proof {
        assert(orig.skip(0) =~= orig);
        assert(orig.take(0) =~= Seq::<CgWindow>::empty());
    }
    while rest.len() > 0
        invariant
            0 <= k <= orig.len(),
            rest@ == orig.skip(k),
            result@ == deduplicated(orig.take(k), apps@),
        decreases rest@.len(),
    {
        proof {
            assert(orig.take(k + 1).drop_last() =~= orig.take(k));
            assert(orig.take(k + 1).last() == orig[k]);
            assert(rest@[0] == orig[k]);
        }
        let window = rest.remove(0);
        proof {
            assert(rest@ =~= orig.skip(k + 1));
        }
        match find_report(apps, window.pid) {
            None => {
                result.push(window);
            },
            Some(at) => {
                let report = &apps[at].windows;
                let budget = if report.len() == 0 {
                    1
                } else {
                    report.len()
                };
                let emitted = count_pid(&result, window.pid);
                if emitted < budget {
                    match find_meta(report, window.id) {
                        Some(m) => {
                            let mut window = window;
                            if report[m].title.as_str().unicode_len() > 0 {
                                window.title = report[m].title.clone();
                            }
                            result.push(window);
                        },
                        None => {
                            if report.len() == 0 {
                                result.push(window);
                            }
                        },
                    }
                }
            },
        }
        proof {
            k = k + 1;
        }
    }
    proof {
        assert(orig.take(k) =~= orig);
    }
    result
}

/// What earlier listings knew of the windows of a process.
#[derive(Clone, Copy, Debug, PartialEq, Eq, Structural)]
pub struct KnownWindows {
    /// How many windows of the process were listed.
    pub count: usize,
    /// Whether the window in question was among them.
    pub holds_window: bool,
}

/// What the accessibility service says of a window and of its process.
#[derive(Clone, Copy, Debug, PartialEq, Eq, Structural)]
pub struct AxFacts {
    /// The report lists the window.
    pub lists_window: bool,
    /// The report lists the window as minimized.
    pub window_minimized: bool,
    /// How many windows of the process the report lists as minimized.
    pub reported_minimized: usize,
}

/// How many windows earlier listings knew, if they knew the process.
pub open spec fn known_count(known: Option<KnownWindows>) -> Option<usize> {
    match known {
        Some(k) => Some(k.count),
        None => None,
    }
}

/// Whether a window that is not on screen is listed as minimized.
///
/// What earlier listings knew counts only while the process has no window
/// on screen, and only if they knew of a window at all. Then as many
/// minimized windows are listed as were known, and a window that the
/// report does not list must be one of them. Else the report decides: a
/// window that it lists as not minimized is left out, and as many windows
/// are listed as it reports minimized. Without knowledge and without a
/// report every window is listed. `listed_so_far` counts the minimized
/// windows of the process that were listed before this one.
pub open spec fn lists_minimized(
    on_screen_count: usize,
    known: Option<KnownWindows>,
    ax: Option<AxFacts>,
    listed_so_far: usize,
) -> bool {
    let known_here = if on_screen_count == 0 {
        known
    } else {
        None
    };
    let by_knowledge = known_here is Some && known_here->0.count > 0;
    let allowed = match ax {
        Some(facts) => minimized_budget(
            on_screen_count,
            known_count(known),
            facts.reported_minimized,
        ),
        None => if by_knowledge {
            known_here->0.count
        } else {
            usize::MAX
        },
    };
    let listed_in_report = ax is Some && ax->0.lists_window;
    &&& by_knowledge || !listed_in_report || ax->0.window_minimized
    &&& !by_knowledge || listed_in_report || known_here->0.holds_window
    &&& listed_so_far < allowed
}

/// Decides whether a window that is not on screen is listed as minimized.
pub fn minimized_is_listed(
    on_screen_count: usize,
    known: Option<KnownWindows>,
    ax: Option<AxFacts>,
    listed_so_far: usize,
) -> (listed: bool)
    ensures
        listed == lists_minimized(on_screen_count, known, ax, listed_so_far),
{
    let known_here = if on_screen_count == 0 {
        known
    } else {
        None
    };
    let known_budget = match known_here {
        Some(k) => if k.count > 0 {
            Some(k.count)
        } else {
            None
        },
        None => None,
    };
    let mut allowed_count = match known_budget {
        Some(count) => count,
        None => usize::MAX,
    };
    let mut ax_has_window = false;
    let mut ax_is_minimized = false;
    if let Some(facts) = ax {
        ax_has_window = facts.lists_window;
        ax_is_minimized = facts.lists_window && facts.window_minimized;
        if known_budget.is_none() {
            let count = match known {
                Some(k) => Some(k.count),
                None => None,
            };
            allowed_count = allowed_minimized_count(on_screen_count, count, facts.reported_minimized);
        }
    }
    if known_budget.is_none() && ax_has_window && !ax_is_minimized {
        return false;
    }
    if let Some(k) = known_here {
        if k.count > 0 && !ax_has_window && !k.holds_window {
            return false;
        }
    }
    if allowed_count == 0 {
        return false;
    }
    listed_so_far < allowed_count
}

} // verus!
