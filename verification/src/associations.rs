//! The association between processes and their windows as a mathematical map,
//! the two operations that change it, and the laws that hold of them.

use vstd::prelude::*;

verus! {

/// One tracked window, as contracts see it.
pub struct WindowRecord {
    pub window_name: Seq<char>,
    pub window_xid: u32,
    pub desktop_name: Seq<char>,
    pub desktop_number: u32,
}

/// One tracked process, as contracts see it. Two identities are the same
/// process exactly when both fields agree.
pub struct ProcessIdentity {
    pub cmdline: Seq<char>,
    pub process_id: usize,
}

/// From each tracked process to the set of windows it owns.
pub type Associations = Map<ProcessIdentity, Set<WindowRecord>>;

/// The windows that `p` owns in `m`: none where `p` is not tracked.
pub open spec fn windows_of(m: Associations, p: ProcessIdentity) -> Set<WindowRecord> {
    if m.dom().contains(p) {
        m[p]
    } else {
        Set::empty()
    }
}

/// `m` after `w` has been recorded as a window of `p`. From then on `p` is
/// tracked and owns `w`. A window has one owner: every other process loses
/// its windows with the identifier of `w`, and is no longer tracked where
/// none is left.
pub open spec fn with_window(m: Associations, w: WindowRecord, p: ProcessIdentity) -> Associations {
    Map::new(
        |q: ProcessIdentity|
            q == p || (m.dom().contains(q) && !remaining_windows(m, w.window_xid, q).is_empty()),
        |q: ProcessIdentity|
            if q == p {
                windows_of(m, p).insert(w)
            } else {
                remaining_windows(m, w.window_xid, q)
            },
    )
}

/// The windows of `p` in `m` whose identifier is not `xid`.
pub open spec fn remaining_windows(m: Associations, xid: u32, p: ProcessIdentity) -> Set<
    WindowRecord,
> {
    windows_of(m, p).filter(|w: WindowRecord| w.window_xid != xid)
}

/// `m` after every window of `p` with identifier `xid` has been dropped. A
/// process left without windows is dropped with them.
pub open spec fn without_window(m: Associations, xid: u32, p: ProcessIdentity) -> Associations {
    if remaining_windows(m, xid, p).is_empty() {
        m.remove(p)
    } else {
        m.insert(p, remaining_windows(m, xid, p))
    }
}

/// The identity of the process with the given command line and identifier.
pub open spec fn identity(cmdline: Seq<char>, process_id: usize) -> ProcessIdentity {
    ProcessIdentity { cmdline, process_id }
}

/// `m` after `w` has been recorded for the owner that was found for it:
/// unchanged where none was found.
pub open spec fn with_window_of(
    m: Associations,
    w: WindowRecord,
    owner: Option<ProcessIdentity>,
) -> Associations {
    match owner {
        Some(p) => with_window(m, w, p),
        None => m,
    }
}

/// `m` after the windows with identifier `xid` have been dropped from the
/// owner that was found for them: unchanged where none was found.
pub open spec fn without_window_of(
    m: Associations,
    xid: u32,
    owner: Option<ProcessIdentity>,
) -> Associations {
    match owner {
        Some(p) => without_window(m, xid, p),
        None => m,
    }
}

/// Every tracked process owns a finite, non-empty set of windows.
pub open spec fn no_empty_entries(m: Associations) -> bool {
    forall|p: ProcessIdentity| #[trigger]
        m.dom().contains(p) ==> m[p].finite() && !m[p].is_empty()
}

/// `p` owns a window with identifier `xid`.
pub open spec fn owns_window(m: Associations, p: ProcessIdentity, xid: u32) -> bool {
    exists|w: WindowRecord| #[trigger] windows_of(m, p).contains(w) && w.window_xid == xid
}

/// No window identifier is found under two different processes.
pub open spec fn single_owner(m: Associations) -> bool {
    forall|p: ProcessIdentity, q: ProcessIdentity, xid: u32|
        #[trigger] owns_window(m, p, xid) && #[trigger] owns_window(m, q, xid) ==> p == q
}

/// One change to the association.
pub enum StoreOp {
    Insert { window: WindowRecord, process: ProcessIdentity },
    Remove { xid: u32, process: ProcessIdentity },
}

/// `m` after `op`.
pub open spec fn apply_op(m: Associations, op: StoreOp) -> Associations {
    match op {
        StoreOp::Insert { window, process } => with_window(m, window, process),
        StoreOp::Remove { xid, process } => without_window(m, xid, process),
    }
}

/// `m` after the changes of `ops`, first to last.
pub open spec fn apply_ops(m: Associations, ops: Seq<StoreOp>) -> Associations
    decreases ops.len(),
{
    if ops.len() == 0 {
        m
    } else {
        apply_ops(apply_op(m, ops.first()), ops.drop_first())
    }
}

/// `m` after the removal of each identifier of `xids` from `p`, first to last.
pub open spec fn without_windows(m: Associations, xids: Seq<u32>, p: ProcessIdentity) -> Associations
    decreases xids.len(),
{
    if xids.len() == 0 {
        m
    } else {
        without_windows(without_window(m, xids.first(), p), xids.drop_first(), p)
    }
}

/// Recording a window tracks its process and adds the window to that
/// process. Every other process is left with its windows of other
/// identifiers, so a process that did not hold the identifier is as it was;
/// where no other process held it, recording only adds to the map.
pub proof fn lemma_with_window(m: Associations, w: WindowRecord, p: ProcessIdentity)
    ensures
        with_window(m, w, p).dom().contains(p),
        windows_of(with_window(m, w, p), p) == windows_of(m, p).insert(w),
        forall|q: ProcessIdentity|
            q != p ==> #[trigger] windows_of(with_window(m, w, p), q) == remaining_windows(
                m,
                w.window_xid,
                q,
            ),
        forall|q: ProcessIdentity|
            q != p && !owns_window(m, q, w.window_xid) ==> #[trigger] windows_of(
                with_window(m, w, p),
                q,
            ) == windows_of(m, q),
        forall|q: ProcessIdentity|
            q != p && !owns_window(m, q, w.window_xid) && no_empty_entries(m) ==> (
            #[trigger] with_window(m, w, p).dom().contains(q) <==> m.dom().contains(q)),
        no_empty_entries(m) && (forall|q: ProcessIdentity| #[trigger]
            owns_window(m, q, w.window_xid) ==> q == p) ==> with_window(m, w, p) == m.insert(
            p,
            windows_of(m, p).insert(w),
        ),
        no_empty_entries(m) ==> no_empty_entries(with_window(m, w, p)),
{
    let after = with_window(m, w, p);
    let xid = w.window_xid;
    assert forall|q: ProcessIdentity| q != p implies #[trigger] windows_of(after, q)
        == remaining_windows(m, xid, q) by {
        assert(windows_of(after, q) =~= remaining_windows(m, xid, q));
    }
    assert forall|q: ProcessIdentity| q != p && !owns_window(m, q, xid) implies remaining_windows(
        m,
        xid,
        q,
    ) == windows_of(m, q) by {
        lemma_remaining_all(m, xid, q);
    }
    if no_empty_entries(m) {
        assert forall|q: ProcessIdentity| #[trigger] after.dom().contains(q) implies after[q].finite()
            && !after[q].is_empty() by {
            if q == p {
                assert(after[q].contains(w));
            } else {
                assert(m.dom().contains(q));
                assert(after[q].subset_of(m[q]));
                vstd::set_lib::lemma_set_subset_finite(m[q], after[q]);
            }
        }
        if forall|q: ProcessIdentity| #[trigger] owns_window(m, q, xid) ==> q == p {
            let plain = m.insert(p, windows_of(m, p).insert(w));
            assert forall|q: ProcessIdentity| after.dom().contains(q) <==> plain.dom().contains(q) by {
                if q != p && m.dom().contains(q) {
                    lemma_remaining_all(m, xid, q);
                }
            }
            assert forall|q: ProcessIdentity| after.dom().contains(q) implies #[trigger] after[q]
                == plain[q] by {
                if q != p {
                    lemma_remaining_all(m, xid, q);
                }
            }
            assert(after =~= plain);
        }
    }
}

/// A process that holds no window with the identifier keeps all its windows
/// when the identifier is dropped.
pub proof fn lemma_remaining_all(m: Associations, xid: u32, q: ProcessIdentity)
    requires
        !owns_window(m, q, xid),
    ensures
        remaining_windows(m, xid, q) == windows_of(m, q),
{
    assert forall|w: WindowRecord| windows_of(m, q).contains(w) implies remaining_windows(
        m,
        xid,
        q,
    ).contains(w) by {
        if w.window_xid == xid {
            assert(owns_window(m, q, xid));
        }
    }
    assert(remaining_windows(m, xid, q) =~= windows_of(m, q));
}

/// Dropping a window leaves its process with the windows of other identifiers,
/// untracks the process where none is left, and leaves every other process as
/// it was.
pub proof fn lemma_without_window(m: Associations, xid: u32, p: ProcessIdentity)
    ensures
        windows_of(without_window(m, xid, p), p) == remaining_windows(m, xid, p),
        without_window(m, xid, p).dom().contains(p) <==> !remaining_windows(m, xid, p).is_empty(),
        forall|q: ProcessIdentity|
            q != p ==> (#[trigger] without_window(m, xid, p).dom().contains(q) <==> m.dom().contains(
                q,
            )),
        forall|q: ProcessIdentity|
            q != p ==> #[trigger] windows_of(without_window(m, xid, p), q) == windows_of(m, q),
        !m.dom().contains(p) ==> without_window(m, xid, p) == m,
        !owns_window(m, p, xid) && no_empty_entries(m) ==> without_window(m, xid, p) == m,
        no_empty_entries(m) ==> no_empty_entries(without_window(m, xid, p)),
{
    let after = without_window(m, xid, p);
    let rest = remaining_windows(m, xid, p);
    assert(windows_of(after, p) =~= rest);
    if !m.dom().contains(p) {
        assert(rest =~= Set::empty());
        assert(after =~= m);
    }
    if !owns_window(m, p, xid) && no_empty_entries(m) {
        if m.dom().contains(p) {
            assert forall|w: WindowRecord| m[p].contains(w) implies rest.contains(w) by {
                assert(windows_of(m, p).contains(w));
            }
            assert(rest =~= m[p]);
            assert(after =~= m);
        }
    }
    if no_empty_entries(m) {
        assert forall|q: ProcessIdentity| #[trigger] after.dom().contains(q) implies after[q].finite()
            && !after[q].is_empty() by {
            if q == p {
                assert(m.dom().contains(p));
                assert(rest.subset_of(m[p]));
                vstd::set_lib::lemma_set_subset_finite(m[p], rest);
            } else {
                assert(m.dom().contains(q));
            }
        }
    }
}

/// Recording the same window for the same process a second time changes
/// nothing.
pub proof fn lemma_insert_idempotent(m: Associations, w: WindowRecord, p: ProcessIdentity)
    ensures
        with_window(with_window(m, w, p), w, p) == with_window(m, w, p),
{
    let once = with_window(m, w, p);
    let twice = with_window(once, w, p);
    lemma_with_window(m, w, p);
    assert(windows_of(once, p).insert(w) =~= windows_of(once, p));
    assert forall|q: ProcessIdentity| q != p implies remaining_windows(once, w.window_xid, q)
        == remaining_windows(m, w.window_xid, q) by {
        assert(remaining_windows(once, w.window_xid, q) =~= remaining_windows(
            m,
            w.window_xid,
            q,
        ));
    }
    assert(twice =~= once);
}

/// Once every window that a process owns has been removed, the process is no
/// longer tracked, and the other processes are as they were.
pub proof fn lemma_remove_all_windows(m: Associations, xids: Seq<u32>, p: ProcessIdentity)
    requires
        no_empty_entries(m),
        forall|w: WindowRecord| #[trigger]
            windows_of(m, p).contains(w) ==> xids.contains(w.window_xid),
    ensures
        !without_windows(m, xids, p).dom().contains(p),
        forall|q: ProcessIdentity|
            q != p ==> (#[trigger] without_windows(m, xids, p).dom().contains(q)
                <==> m.dom().contains(q)),
        forall|q: ProcessIdentity|
            q != p ==> #[trigger] windows_of(without_windows(m, xids, p), q) == windows_of(m, q),
    decreases xids.len(),
{
    if xids.len() == 0 {
        if m.dom().contains(p) {
            assert forall|w: WindowRecord| !m[p].contains(w) by {
                if m[p].contains(w) {
                    assert(windows_of(m, p).contains(w));
                    assert(xids.contains(w.window_xid));
                }
            }
            assert(m[p] =~= Set::empty());
        }
    } else {
        let next = without_window(m, xids.first(), p);
        lemma_without_window(m, xids.first(), p);
        assert forall|w: WindowRecord| #[trigger] windows_of(next, p).contains(w) implies xids.drop_first().contains(
            w.window_xid,
        ) by {
            assert(windows_of(m, p).contains(w));
            let i = choose|i: int| 0 <= i < xids.len() && xids[i] == w.window_xid;
            assert(i > 0);
            assert(xids.drop_first()[i - 1] == w.window_xid);
        }
        lemma_remove_all_windows(next, xids.drop_first(), p);
    }
}

/// No change puts a window identifier under two processes.
pub proof fn lemma_op_keeps_single_owner(m: Associations, op: StoreOp)
    requires
        single_owner(m),
    ensures
        single_owner(apply_op(m, op)),
{
    let after = apply_op(m, op);
    match op {
        StoreOp::Insert { window, process } => {
            assert forall|p: ProcessIdentity, q: ProcessIdentity, xid: u32| #[trigger]
                owns_window(after, p, xid) && #[trigger] owns_window(after, q, xid) implies p
                == q by {
                lemma_insert_owner(m, window, process, p, xid);
                lemma_insert_owner(m, window, process, q, xid);
            }
        },
        StoreOp::Remove { xid, process } => {
            lemma_without_window(m, xid, process);
            assert forall|p: ProcessIdentity, q: ProcessIdentity, other: u32| #[trigger]
                owns_window(after, p, other) && #[trigger] owns_window(after, q, other) implies p
                == q by {
                lemma_remove_owner(m, xid, process, p, other);
                lemma_remove_owner(m, xid, process, q, other);
            }
        },
    }
}

/// After an insert, the process of the insert owns the inserted identifier
/// and what it owned before; any other process owns what it owned before,
/// but for the inserted identifier.
proof fn lemma_insert_owner(
    m: Associations,
    window: WindowRecord,
    process: ProcessIdentity,
    p: ProcessIdentity,
    xid: u32,
)
    requires
        owns_window(with_window(m, window, process), p, xid),
    ensures
        p == process ==> xid == window.window_xid || owns_window(m, p, xid),
        p != process ==> xid != window.window_xid && owns_window(m, p, xid),
{
    let after = with_window(m, window, process);
    lemma_with_window(m, window, process);
    let w = choose|w: WindowRecord| #[trigger]
        windows_of(after, p).contains(w) && w.window_xid == xid;
    if p == process {
        if w != window {
            assert(windows_of(m, p).contains(w));
        }
    } else {
        assert(remaining_windows(m, window.window_xid, p).contains(w));
        assert(windows_of(m, p).contains(w));
    }
}

/// Who owns an identifier after a removal owned it before.
proof fn lemma_remove_owner(
    m: Associations,
    xid: u32,
    process: ProcessIdentity,
    p: ProcessIdentity,
    other: u32,
)
    requires
        owns_window(without_window(m, xid, process), p, other),
    ensures
        owns_window(m, p, other),
{
    let after = without_window(m, xid, process);
    lemma_without_window(m, xid, process);
    let w = choose|w: WindowRecord| #[trigger]
        windows_of(after, p).contains(w) && w.window_xid == other;
    assert(windows_of(m, p).contains(w));
}

/// After an insert, the inserted identifier is under the process of the
/// insert and under no other.
pub proof fn lemma_insert_takes_over(m: Associations, w: WindowRecord, p: ProcessIdentity)
    ensures
        owns_window(with_window(m, w, p), p, w.window_xid),
        forall|q: ProcessIdentity| #[trigger]
            owns_window(with_window(m, w, p), q, w.window_xid) ==> q == p,
{
    lemma_with_window(m, w, p);
    assert(windows_of(with_window(m, w, p), p).contains(w));
    assert forall|q: ProcessIdentity| #[trigger]
        owns_window(with_window(m, w, p), q, w.window_xid) implies q == p by {
        lemma_insert_owner(m, w, p, q, w.window_xid);
    }
}

/// However inserts and removals are interleaved, no window identifier is
/// ever found under two processes.
pub proof fn lemma_no_double_ownership(m: Associations, ops: Seq<StoreOp>)
    requires
        single_owner(m),
    ensures
        single_owner(apply_ops(m, ops)),
    decreases ops.len(),
{
    if ops.len() > 0 {
        lemma_op_keeps_single_owner(m, ops.first());
        lemma_no_double_ownership(apply_op(m, ops.first()), ops.drop_first());
    }
}

/// Nothing is owned twice where nothing is tracked.
pub proof fn lemma_empty_single_owner()
    ensures
        single_owner(Map::<ProcessIdentity, Set<WindowRecord>>::empty()),
        no_empty_entries(Map::<ProcessIdentity, Set<WindowRecord>>::empty()),
{
}

} // verus!
