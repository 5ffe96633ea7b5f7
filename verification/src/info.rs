//! Records of windows and of the processes that own them.

use crate::associations::{
    identity, lemma_op_keeps_single_owner, lemma_remaining_all, no_empty_entries, owns_window,
    remaining_windows, single_owner, windows_of, with_window, with_window_of, without_window,
    without_window_of, Associations, ProcessIdentity, StoreOp, WindowRecord,
};
use crate::x11_client::X11WindowInformation;
use sysinfo::{Pid, ProcessRefreshKind, ProcessesToUpdate, System, UpdateKind};
use vstd::prelude::*;

verus! {

/// One tracked window.
#[derive(Debug, PartialEq, Eq, Hash)]
pub struct WindowInfo {
    pub window_name: String,
    pub window_xid: u32,
    pub desktop_name: String,
    pub desktop_number: u32,
}

impl View for WindowInfo {
    type V = WindowRecord;

    open spec fn view(&self) -> WindowRecord {
        WindowRecord {
            window_name: self.window_name@,
            window_xid: self.window_xid,
            desktop_name: self.desktop_name@,
            desktop_number: self.desktop_number,
        }
    }
}

impl WindowInfo {
    pub fn new(name: &String, xid: u32, dname: &String, dnum: u32) -> (r: Self)
        ensures
            r@ == (WindowRecord {
                window_name: name@,
                window_xid: xid,
                desktop_name: dname@,
                desktop_number: dnum,
            }),
    {
        WindowInfo {
            window_name: name.clone(),
            window_xid: xid,
            desktop_name: dname.clone(),
            desktop_number: dnum,
        }
    }

    /// A second record of the same window.
    pub fn duplicate(&self) -> (r: Self)
        ensures
            r@ == self@,
    {
        WindowInfo::new(
            &self.window_name,
            self.window_xid,
            &self.desktop_name,
            self.desktop_number,
        )
    }

    /// Whether both records stand for the same window, field by field.
    pub fn same_as(&self, other: &WindowInfo) -> (same: bool)
        ensures
            same == (self@ == other@),
    {
        self.window_xid == other.window_xid && self.desktop_number == other.desktop_number
            && self.window_name == other.window_name && self.desktop_name == other.desktop_name
    }
}

/// One tracked process.
#[derive(Clone, Debug, Eq, PartialEq, Hash)]
pub struct ProcessInfo {
    pub cmdline: String,
    pub process_id: usize,
}

impl View for ProcessInfo {
    type V = ProcessIdentity;

    open spec fn view(&self) -> ProcessIdentity {
        ProcessIdentity { cmdline: self.cmdline@, process_id: self.process_id }
    }
}

/// The command line that an argument vector makes: its arguments, in order,
/// with one space between each two.
pub open spec fn joined(arguments: Seq<Seq<char>>) -> Seq<char>
    decreases arguments.len(),
{
    if arguments.len() == 0 {
        Seq::empty()
    } else if arguments.len() == 1 {
        arguments[0]
    } else {
        joined(arguments.drop_last()) + seq![' '] + arguments.last()
    }
}

/// The command line that an argument vector makes.
pub fn join_arguments(arguments: &Vec<String>) -> (line: String)
    ensures
        line@ == joined(arguments.deep_view()),
{
    let ghost all = arguments.deep_view();
    let mut line = String::new();
    let mut i: usize = 0;
    while i < arguments.len()
        invariant
            i <= arguments.len(),
            all == arguments.deep_view(),
            line@ == joined(all.subrange(0, i as int)),
        decreases arguments.len() - i,
    {
        let ghost before = all.subrange(0, i as int);
        let ghost after = all.subrange(0, i + 1);
        assert(after.drop_last() =~= before);
        assert(after.last() == arguments[i as int]@);
        if i > 0 {
            proof {
                reveal_strlit(" ");
            }
            line.append(" ");
            assert(" "@ =~= seq![' ']);
        }
        line.append(arguments[i].as_str());
        assert(line@ =~= joined(after));
        i += 1;
    }
    assert(all.subrange(0, i as int) =~= all);
    line
}

impl ProcessInfo {
    /// The process with the given identifier that was started with the given
    /// argument vector.
    pub fn from_arguments(arguments: &Vec<String>, process_id: usize) -> (r: Self)
        ensures
            r@ == identity(joined(arguments.deep_view()), process_id),
    {
        ProcessInfo::new(join_arguments(arguments), process_id)
    }

    pub fn new(cmdline: String, process_id: usize) -> (r: Self)
        ensures
            r@ == (ProcessIdentity { cmdline: cmdline@, process_id }),
    {
        ProcessInfo { cmdline, process_id }
    }

    /// A second record of the same process.
    pub fn duplicate(&self) -> (r: Self)
        ensures
            r@ == self@,
    {
        ProcessInfo { cmdline: self.cmdline.clone(), process_id: self.process_id }
    }

    /// Whether both stand for the same process: same command line, same
    /// identifier.
    pub fn same_as(&self, other: &ProcessInfo) -> (same: bool)
        ensures
            same == (self@ == other@),
    {
        self.process_id == other.process_id && self.cmdline == other.cmdline
    }
}

/// What the outcome of a lookup stands for: the identity of the process that
/// was found, if one was.
pub open spec fn found_identity(owner: Option<ProcessInfo>) -> Option<ProcessIdentity> {
    match owner {
        Some(process) => Some(process@),
        None => None,
    }
}

/// One process together with the windows it owns.
#[derive(Debug)]
pub struct ProcessWindows {
    pub process: ProcessInfo,
    pub windows: Vec<WindowInfo>,
}

/// What a list of windows stands for, window by window.
pub open spec fn records(windows: Seq<WindowInfo>) -> Seq<WindowRecord> {
    windows.map_values(|w: WindowInfo| w@)
}

/// A list of windows names no window twice.
pub open spec fn distinct_windows(windows: Seq<WindowInfo>) -> bool {
    records(windows).no_duplicates()
}

/// `entries[i]` is the entry of process `p`.
pub open spec fn key_at(entries: Seq<ProcessWindows>, i: int, p: ProcessIdentity) -> bool {
    0 <= i < entries.len() && entries[i].process@ == p
}

/// A listing names each process once, and with each process at least one
/// window and no window twice.
pub open spec fn listing_valid(entries: Seq<ProcessWindows>) -> bool {
    &&& forall|i: int|
        0 <= i < entries.len() ==> (#[trigger] entries[i]).windows@.len() > 0
            && distinct_windows(entries[i].windows@)
    &&& forall|i: int, j: int|
        0 <= i < entries.len() && 0 <= j < entries.len() && i != j ==> (#[trigger] entries[i]).process@
            != (#[trigger] entries[j]).process@
}

/// The association that a listing stands for.
pub open spec fn associations_of(entries: Seq<ProcessWindows>) -> Associations {
    Map::new(
        |p: ProcessIdentity| exists|i: int| key_at(entries, i, p),
        |p: ProcessIdentity|
            records(entries[choose|i: int| key_at(entries, i, p)].windows@).to_set(),
    )
}

/// What a valid listing says of each of its entries, and of each process that
/// it tracks.
pub proof fn lemma_listing(entries: Seq<ProcessWindows>)
    requires
        listing_valid(entries),
    ensures
        no_empty_entries(associations_of(entries)),
        forall|i: int|
            0 <= i < entries.len() ==> associations_of(entries).dom().contains(
                (#[trigger] entries[i]).process@,
            ) && associations_of(entries)[entries[i].process@] == records(
                entries[i].windows@,
            ).to_set(),
        forall|p: ProcessIdentity| #[trigger]
            associations_of(entries).dom().contains(p) ==> exists|i: int| key_at(entries, i, p),
{
    let m = associations_of(entries);
    assert forall|i: int| 0 <= i < entries.len() implies m.dom().contains(
        (#[trigger] entries[i]).process@,
    ) && m[entries[i].process@] == records(entries[i].windows@).to_set() by {
        let p = entries[i].process@;
        assert(key_at(entries, i, p));
        let k = choose|k: int| key_at(entries, k, p);
        assert(k == i);
    }
    assert forall|p: ProcessIdentity| #[trigger] m.dom().contains(p) implies m[p].finite()
        && !m[p].is_empty() by {
        let k = choose|k: int| key_at(entries, k, p);
        assert(key_at(entries, k, p));
        let r = records(entries[k].windows@);
        vstd::seq_lib::seq_to_set_is_finite(r);
        assert(r.to_set().contains(r[0]));
    }
}

/// Taking entry `i` out of a listing, the last entry moving into its place,
/// untracks the process of that entry and nothing else.
proof fn lemma_listing_take(entries: Seq<ProcessWindows>, i: int)
    requires
        listing_valid(entries),
        0 <= i < entries.len(),
    ensures
        listing_valid(entries.update(i, entries.last()).drop_last()),
        associations_of(entries.update(i, entries.last()).drop_last()) == associations_of(
            entries,
        ).remove(entries[i].process@),
{
    let after = entries.update(i, entries.last()).drop_last();
    let last = entries.len() - 1;
    assert forall|k: int| 0 <= k < after.len() implies #[trigger] after[k] == entries[if k == i {
        last
    } else {
        k
    }] by {}
    assert(listing_valid(after)) by {
        assert forall|a: int, b: int|
            0 <= a < after.len() && 0 <= b < after.len() && a != b implies (#[trigger] after[a]).process@
            != (#[trigger] after[b]).process@ by {
            let a0 = if a == i { last } else { a };
            let b0 = if b == i { last } else { b };
            assert(after[a] == entries[a0] && after[b] == entries[b0]);
        }
    }
    lemma_listing(entries);
    lemma_listing(after);
    let m = associations_of(entries);
    let n = associations_of(after);
    let p = entries[i].process@;
    assert forall|q: ProcessIdentity| n.dom().contains(q) <==> m.remove(p).dom().contains(q) by {
        if n.dom().contains(q) {
            let k = choose|k: int| key_at(after, k, q);
            let k0 = if k == i { last } else { k };
            assert(after[k] == entries[k0]);
            assert(key_at(entries, k0, q));
            assert(k0 != i);
        }
        if m.remove(p).dom().contains(q) {
            let k0 = choose|k0: int| key_at(entries, k0, q);
            assert(k0 != i);
            let k = if k0 == last { i } else { k0 };
            assert(after[k] == entries[k0]);
            assert(key_at(after, k, q));
        }
    }
    assert forall|q: ProcessIdentity| n.dom().contains(q) implies #[trigger] n[q] == m.remove(p)[q] by {
        let k = choose|k: int| key_at(after, k, q);
        let k0 = if k == i { last } else { k };
        assert(after[k] == entries[k0]);
    }
    assert(n =~= m.remove(p));
}

/// Adding the entry of a process that a listing does not track yet tracks that
/// process with the entry's windows and changes nothing else.
proof fn lemma_listing_put(entries: Seq<ProcessWindows>, entry: ProcessWindows)
    requires
        listing_valid(entries),
        entry.windows@.len() > 0,
        distinct_windows(entry.windows@),
        !associations_of(entries).dom().contains(entry.process@),
    ensures
        listing_valid(entries.push(entry)),
        associations_of(entries.push(entry)) == associations_of(entries).insert(
            entry.process@,
            records(entry.windows@).to_set(),
        ),
{
    let after = entries.push(entry);
    let p = entry.process@;
    lemma_listing(entries);
    assert(listing_valid(after)) by {
        assert forall|a: int, b: int|
            0 <= a < after.len() && 0 <= b < after.len() && a != b implies (#[trigger] after[a]).process@
            != (#[trigger] after[b]).process@ by {
            if a < entries.len() && b < entries.len() {
                assert(after[a] == entries[a] && after[b] == entries[b]);
            } else if a < entries.len() {
                assert(key_at(entries, a, entries[a].process@));
            } else {
                assert(key_at(entries, b, entries[b].process@));
            }
        }
    }
    lemma_listing(after);
    let m = associations_of(entries);
    let n = associations_of(after);
    let target = m.insert(p, records(entry.windows@).to_set());
    assert forall|q: ProcessIdentity| n.dom().contains(q) <==> target.dom().contains(q) by {
        if n.dom().contains(q) {
            let k = choose|k: int| key_at(after, k, q);
            if k < entries.len() {
                assert(key_at(entries, k, q));
            }
        }
        if target.dom().contains(q) {
            if q == p {
                assert(key_at(after, entries.len() as int, q));
            } else {
                let k = choose|k: int| key_at(entries, k, q);
                assert(key_at(after, k, q));
            }
        }
    }
    assert forall|q: ProcessIdentity| n.dom().contains(q) implies #[trigger] n[q] == target[q] by {
        let k = choose|k: int| key_at(after, k, q);
        if k < entries.len() {
            assert(after[k] == entries[k]);
            assert(key_at(entries, k, q));
        } else {
            assert(after[k] == entry);
        }
    }
    assert(n =~= target);
}

/// The operating system's process table, as `sysinfo` holds it.
#[verifier::external_type_specification]
#[verifier::external_body]
pub struct ExSystem(System);

/// What a process table holds: for each process identifier that it answers
/// to, the argument vector of that process, each argument as text.
pub uninterp spec fn held_arguments(table: System) -> Map<usize, Seq<Seq<char>>>;

/// `System::new_all`: a process table with everything loaded. What it holds
/// depends on the machine, so nothing is claimed of it.
#[verifier::external_body]
fn load_process_table() -> System {
    System::new_all()
}

/// `System::refresh_processes_specifics` over all processes, asking for the
/// command line of each process that has none yet: the table is brought up
/// to date, processes that have exited leave it, and a process seen for the
/// first time comes with its argument vector. What the table then holds
/// depends on the machine, so nothing is claimed of it.
#[verifier::external_body]
fn refresh_process_table(table: &mut System) {
    table.refresh_processes_specifics(
        ProcessesToUpdate::All,
        ProcessRefreshKind::new().with_cmd(UpdateKind::OnlyIfNotSet),
    );
}

/// `System::process`: the process with the given identifier, if the table
/// holds one, handed out as its argument vector (`Process::cmd`), each
/// argument as text. Bytes that are not UTF-8 come out as the replacement
/// character. The lookup reads the table and nothing else, so what it gives
/// is what the table holds for the identifier.
#[verifier::external_body]
fn lookup_arguments(table: &System, pid: usize) -> (found: Option<Vec<String>>)
    ensures
        match found {
            Some(arguments) => held_arguments(*table).dom().contains(pid)
                && arguments.deep_view() == held_arguments(*table)[pid],
            None => !held_arguments(*table).dom().contains(pid),
        },
{
    table.process(Pid::from(pid)).map(
        |process| process.cmd().iter().map(|a| a.to_string_lossy().into_owned()).collect(),
    )
}

/// The process that a table names for the identifier `pid`: the one with
/// that identifier and with the command line that the table's argument
/// vector makes, or none where the table does not hold the identifier.
pub open spec fn looked_up(table: Map<usize, Seq<Seq<char>>>, pid: u32) -> Option<ProcessIdentity> {
    if table.dom().contains(pid as usize) {
        Some(identity(joined(table[pid as usize]), pid as usize))
    } else {
        None
    }
}

/// Which windows belong to which process.
pub struct ProcessesWindowsInfo {
    procinfo: Vec<ProcessWindows>,
    sysinfo: System,
}

impl View for ProcessesWindowsInfo {
    type V = Associations;

    closed spec fn view(&self) -> Associations {
        associations_of(self.procinfo@)
    }
}

/// A list without duplicates stays so when a record that it does not hold is
/// added at its end, and then holds that record besides what it held.
proof fn lemma_push_distinct(held: Seq<WindowRecord>, record: WindowRecord)
    requires
        held.no_duplicates(),
        !held.contains(record),
    ensures
        held.push(record).no_duplicates(),
        held.push(record).to_set() == held.to_set().insert(record),
{
    let longer = held.push(record);
    assert forall|a: int, b: int| 0 <= a < longer.len() && 0 <= b < longer.len() && a
        != b implies longer[a] != longer[b] by {
        if a < held.len() && b < held.len() {
            assert(held[a] != held[b]);
        } else if a < held.len() {
            assert(held.contains(held[a]));
        } else {
            assert(held.contains(held[b]));
        }
    }
    assert forall|w: WindowRecord| longer.to_set().contains(w) <==> held.to_set().insert(
        record,
    ).contains(w) by {
        if longer.contains(w) {
            let a = choose|a: int| 0 <= a < longer.len() && longer[a] == w;
            if a < held.len() {
                assert(held[a] == w);
            }
        }
        if held.contains(w) {
            let a = choose|a: int| 0 <= a < held.len() && held[a] == w;
            assert(longer[a] == w);
        }
        if w == record {
            assert(longer[held.len() as int] == w);
        }
    }
    assert(longer.to_set() =~= held.to_set().insert(record));
}

/// Whether `windows` holds a window with identifier `xid`.
fn has_xid(windows: &Vec<WindowInfo>, xid: u32) -> (found: bool)
    ensures
        found == exists|j: int| 0 <= j < windows@.len() && (#[trigger] windows@[j]).window_xid == xid,
{
    let mut j: usize = 0;
    while j < windows.len()
        invariant
            j <= windows.len(),
            forall|k: int| 0 <= k < j ==> (#[trigger] windows@[k]).window_xid != xid,
        decreases windows.len() - j,
    {
        if windows[j].window_xid == xid {
            return true;
        }
        j += 1;
    }
    false
}

/// Whether `windows` holds a record of `window`.
fn has_window(windows: &Vec<WindowInfo>, window: &WindowInfo) -> (found: bool)
    ensures
        found == records(windows@).contains(window@),
{
    let mut j: usize = 0;
    while j < windows.len()
        invariant
            j <= windows.len(),
            forall|k: int| 0 <= k < j ==> records(windows@)[k] != window@,
        decreases windows.len() - j,
    {
        if windows[j].same_as(window) {
            assert(records(windows@)[j as int] == window@);
            return true;
        }
        j += 1;
    }
    false
}

/// The windows of `windows` whose identifier is not `xid`.
fn without_xid(windows: Vec<WindowInfo>, xid: u32) -> (kept: Vec<WindowInfo>)
    requires
        distinct_windows(windows@),
    ensures
        distinct_windows(kept@),
        records(kept@).to_set() == records(windows@).to_set().filter(
            |w: WindowRecord| w.window_xid != xid,
        ),
{
    let ghost all = records(windows@);
    let mut rest = windows;
    let mut kept: Vec<WindowInfo> = Vec::new();
    loop
        invariant
            all.no_duplicates(),
            rest@.len() <= all.len(),
            records(rest@) == all.subrange(0, rest@.len() as int),
            distinct_windows(kept@),
            forall|w: WindowRecord|
                records(kept@).contains(w) <==> (w.window_xid != xid && exists|k: int|
                    rest@.len() <= k < all.len() && #[trigger] all[k] == w),
        ensures
            rest@.len() == 0,
        decreases rest@.len(),
    {
        let ghost before = rest@;
        let ghost kept_before = kept@;
        match rest.pop() {
            Some(window) => {
                let ghost at = before.len() - 1;
                assert(window@ == records(before)[at]);
                assert(window@ == all[at]);
                assert(records(rest@) =~= all.subrange(0, rest@.len() as int));
                if window.window_xid != xid {
                    assert(!records(kept_before).contains(window@)) by {
                        if records(kept_before).contains(window@) {
                            let k = choose|k: int|
                                before.len() <= k < all.len() && #[trigger] all[k] == window@;
                            assert(all[k] == all[at]);
                        }
                    }
                    let ghost record = window@;
                    kept.push(window);
                    assert(records(kept@) =~= records(kept_before).push(record));
                    proof {
                        lemma_push_distinct(records(kept_before), record);
                    }
                    assert forall|w: WindowRecord|
                        records(kept@).contains(w) <==> (w.window_xid != xid && exists|k: int|
                            rest@.len() <= k < all.len() && #[trigger] all[k] == w) by {
                        assert(records(kept@).to_set().contains(w) <==> records(
                            kept_before,
                        ).to_set().insert(record).contains(w));
                        if w == record {
                            assert(all[at] == w);
                        }
                        if w.window_xid != xid && exists|k: int|
                            rest@.len() <= k < all.len() && #[trigger] all[k] == w {
                            let k = choose|k: int|
                                rest@.len() <= k < all.len() && #[trigger] all[k] == w;
                            if k != at {
                                assert(records(kept_before).contains(w));
                            }
                        }
                    }
                } else {
                    assert forall|w: WindowRecord|
                        records(kept@).contains(w) <==> (w.window_xid != xid && exists|k: int|
                            rest@.len() <= k < all.len() && #[trigger] all[k] == w) by {
                        if w.window_xid != xid && exists|k: int|
                            rest@.len() <= k < all.len() && #[trigger] all[k] == w {
                            let k = choose|k: int|
                                rest@.len() <= k < all.len() && #[trigger] all[k] == w;
                            assert(k != at);
                        }
                    }
                }
            },
            None => {
                break ;
            },
        }
    }
    proof {
        let filtered = all.to_set().filter(|w: WindowRecord| w.window_xid != xid);
        assert forall|w: WindowRecord| records(kept@).to_set().contains(w) <==> filtered.contains(
            w,
        ) by {
            if filtered.contains(w) {
                let k = choose|k: int| 0 <= k < all.len() && all[k] == w;
                assert(all[k] == w);
            }
        }
        assert(records(kept@).to_set() =~= filtered);
    }
    kept
}

/// The processes that the first `k` records of `owners` stand for.
spec fn named(owners: Seq<ProcessInfo>, k: int) -> Set<ProcessIdentity> {
    Set::new(|q: ProcessIdentity| exists|j: int| 0 <= j < k && j < owners.len() && (#[trigger] owners[j])@ == q)
}

/// `m` after the identifier `xid` has been dropped from each process of
/// `from`: a process of `from` left without windows is no longer tracked.
spec fn purged(m: Associations, xid: u32, from: Set<ProcessIdentity>) -> Associations {
    Map::new(
        |q: ProcessIdentity|
            m.dom().contains(q) && (from.contains(q) ==> !remaining_windows(m, xid, q).is_empty()),
        |q: ProcessIdentity|
            if from.contains(q) {
                remaining_windows(m, xid, q)
            } else {
                m[q]
            },
    )
}

/// Dropping the identifier from one more process.
proof fn lemma_purge_step(m: Associations, xid: u32, from: Set<ProcessIdentity>, q: ProcessIdentity)
    ensures
        without_window(purged(m, xid, from), xid, q) == purged(m, xid, from.insert(q)),
{
    let so_far = purged(m, xid, from);
    assert(remaining_windows(so_far, xid, q) =~= remaining_windows(m, xid, q));
    assert(without_window(so_far, xid, q) =~= purged(m, xid, from.insert(q)));
}

/// Once the identifier of `w` has been dropped from every other process that
/// held it, adding `w` to the windows of `p` records it.
proof fn lemma_purged_then_added(
    m: Associations,
    w: WindowRecord,
    p: ProcessIdentity,
    from: Set<ProcessIdentity>,
)
    requires
        no_empty_entries(m),
        !from.contains(p),
        forall|q: ProcessIdentity|
            q != p && #[trigger] owns_window(m, q, w.window_xid) ==> from.contains(q),
    ensures
        purged(m, w.window_xid, from).insert(
            p,
            windows_of(purged(m, w.window_xid, from), p).insert(w),
        ) == with_window(m, w, p),
{
    let xid = w.window_xid;
    let clean = purged(m, xid, from);
    let added = clean.insert(p, windows_of(clean, p).insert(w));
    let target = with_window(m, w, p);
    assert(windows_of(clean, p) =~= windows_of(m, p));
    assert forall|q: ProcessIdentity| added.dom().contains(q) <==> target.dom().contains(q) by {
        if q != p && m.dom().contains(q) && !from.contains(q) {
            lemma_remaining_all(m, xid, q);
        }
    }
    assert forall|q: ProcessIdentity| added.dom().contains(q) implies #[trigger] added[q]
        == target[q] by {
        if q != p && !from.contains(q) {
            lemma_remaining_all(m, xid, q);
        }
    }
    assert(added =~= target);
}

impl ProcessesWindowsInfo {
    /// The listing names each process once, each with at least one window
    /// and no window twice.
    spec fn listed(&self) -> bool {
        listing_valid(self.procinfo@)
    }

    /// The store is valid: its listing names each process once, each with at
    /// least one window and no window twice, and no window identifier is
    /// found under two processes.
    pub closed spec fn wf(&self) -> bool {
        self.listed() && single_owner(self@)
    }

    /// What the process table beside the store holds, as of its last
    /// refresh: the argument vector of each process, by identifier.
    pub closed spec fn process_table(&self) -> Map<usize, Seq<Seq<char>>> {
        held_arguments(self.sysinfo)
    }

    /// A valid store tracks no process without windows, and no window
    /// identifier under two processes.
    pub proof fn lemma_no_empty_entries(&self)
        requires
            self.wf(),
        ensures
            no_empty_entries(self@),
            single_owner(self@),
    {
        lemma_listing(self.procinfo@);
    }

    /// An empty store, beside a freshly loaded process table.
    pub fn new() -> (r: Self)
        ensures
            r.wf(),
            r@ == Map::<ProcessIdentity, Set<WindowRecord>>::empty(),
    {
        let r = ProcessesWindowsInfo { procinfo: Vec::new(), sysinfo: load_process_table() };
        assert(r@ =~= Map::<ProcessIdentity, Set<WindowRecord>>::empty());
        r
    }

    /// Where the entry of `process` stands in the listing.
    fn position_of(&self, process: &ProcessInfo) -> (at: Option<usize>)
        requires
            self.listed(),
        ensures
            match at {
                Some(i) => key_at(self.procinfo@, i as int, process@),
                None => !self@.dom().contains(process@),
            },
    {
        let mut i: usize = 0;
        while i < self.procinfo.len()
            invariant
                i <= self.procinfo@.len(),
                forall|k: int| 0 <= k < i ==> !key_at(self.procinfo@, k, process@),
            decreases self.procinfo@.len() - i,
        {
            if self.procinfo[i].process.same_as(process) {
                return Some(i);
            }
            i += 1;
        }
        None
    }

    /// Takes the entry of `process` out of the listing, if there is one.
    fn take_entry(&mut self, process: &ProcessInfo) -> (taken: Option<ProcessWindows>)
        requires
            old(self).listed(),
        ensures
            final(self).listed(),
            final(self).process_table() == old(self).process_table(),
            final(self)@ == old(self)@.remove(process@),
            match taken {
                Some(entry) => {
                    &&& old(self)@.dom().contains(process@)
                    &&& entry.process@ == process@
                    &&& entry.windows@.len() > 0
                    &&& distinct_windows(entry.windows@)
                    &&& records(entry.windows@).to_set() == old(self)@[process@]
                },
                None => !old(self)@.dom().contains(process@),
            },
    {
        match self.position_of(process) {
            Some(i) => {
                proof {
                    lemma_listing(self.procinfo@);
                    lemma_listing_take(self.procinfo@, i as int);
                }
                let entry = self.procinfo.swap_remove(i);
                Some(entry)
            },
            None => {
                assert(self@.remove(process@) =~= self@);
                None
            },
        }
    }

    /// Adds the entry of a process that the listing does not hold.
    fn put_entry(&mut self, entry: ProcessWindows)
        requires
            old(self).listed(),
            !old(self)@.dom().contains(entry.process@),
            entry.windows@.len() > 0,
            distinct_windows(entry.windows@),
        ensures
            final(self).listed(),
            final(self).process_table() == old(self).process_table(),
            final(self)@ == old(self)@.insert(entry.process@, records(entry.windows@).to_set()),
    {
        proof {
            lemma_listing_put(self.procinfo@, entry);
        }
        self.procinfo.push(entry);
    }

    /// Adds `window` to the windows of `process`, and touches no other
    /// process. A process not tracked so far is tracked from now on; a window
    /// recorded already is not recorded twice.
    fn add_window(&mut self, window: WindowInfo, process: ProcessInfo)
        requires
            old(self).listed(),
        ensures
            final(self).listed(),
            final(self).process_table() == old(self).process_table(),
            final(self)@ == old(self)@.insert(
                process@,
                windows_of(old(self)@, process@).insert(window@),
            ),
    {
        let ghost before = self@;
        let ghost target = before.insert(process@, windows_of(before, process@).insert(window@));
        match self.take_entry(&process) {
            Some(mut entry) => {
                let ghost held = records(entry.windows@);
                if !has_window(&entry.windows, &window) {
                    entry.windows.push(window);
                    assert(records(entry.windows@) =~= held.push(window@));
                    proof {
                        lemma_push_distinct(held, window@);
                    }
                } else {
                    assert(held.to_set().insert(window@) =~= held.to_set());
                }
                self.put_entry(entry);
                assert(self@ =~= target);
            },
            None => {
                let mut windows: Vec<WindowInfo> = Vec::new();
                let ghost record = window@;
                windows.push(window);
                assert(records(windows@) =~= Seq::<WindowRecord>::empty().push(record));
                proof {
                    lemma_push_distinct(Seq::<WindowRecord>::empty(), record);
                    assert(Seq::<WindowRecord>::empty().to_set() =~= Set::<WindowRecord>::empty());
                }
                self.put_entry(ProcessWindows { process, windows });
                assert(self@ =~= target);
            },
        }
    }

    /// The processes other than `process` that hold a window with identifier
    /// `xid`.
    fn other_owners(&self, xid: u32, process: &ProcessInfo) -> (owners: Vec<ProcessInfo>)
        requires
            self.listed(),
        ensures
            forall|k: int|
                0 <= k < owners@.len() ==> (#[trigger] owners@[k])@ != process@ && owns_window(
                    self@,
                    owners@[k]@,
                    xid,
                ),
            forall|q: ProcessIdentity|
                q != process@ && #[trigger] owns_window(self@, q, xid) ==> named(
                    owners@,
                    owners@.len() as int,
                ).contains(q),
    {
        let mut owners: Vec<ProcessInfo> = Vec::new();
        let mut i: usize = 0;
        while i < self.procinfo.len()
            invariant
                i <= self.procinfo@.len(),
                self.listed(),
                forall|k: int|
                    0 <= k < owners@.len() ==> (#[trigger] owners@[k])@ != process@ && owns_window(
                        self@,
                        owners@[k]@,
                        xid,
                    ),
                forall|e: int|
                    0 <= e < i && (#[trigger] self.procinfo@[e]).process@ != process@ && (exists|
                        j: int,
                    |
                        0 <= j < self.procinfo@[e].windows@.len() && (
                        #[trigger] self.procinfo@[e].windows@[j]).window_xid == xid) ==> named(
                        owners@,
                        owners@.len() as int,
                    ).contains(self.procinfo@[e].process@),
            decreases self.procinfo@.len() - i,
        {
            let ghost listed = owners@;
            if !self.procinfo[i].process.same_as(process) && has_xid(&self.procinfo[i].windows, xid) {
                owners.push(self.procinfo[i].process.duplicate());
                assert(owners@[listed.len() as int]@ == self.procinfo@[i as int].process@);
                proof {
                    let held = self.procinfo@[i as int].windows@;
                    let j = choose|j: int|
                        0 <= j < held.len() && (#[trigger] held[j]).window_xid == xid;
                    lemma_listing(self.procinfo@);
                    assert(records(held)[j] == held[j]@);
                    assert(windows_of(self@, self.procinfo@[i as int].process@).contains(held[j]@));
                }
            }
            assert forall|q: ProcessIdentity|
                named(listed, listed.len() as int).contains(q) implies named(
                owners@,
                owners@.len() as int,
            ).contains(q) by {
                let k = choose|k: int| 0 <= k < listed.len() && (#[trigger] listed[k])@ == q;
                assert(owners@[k]@ == q);
            }
            i += 1;
        }
        proof {
            lemma_listing(self.procinfo@);
            assert forall|q: ProcessIdentity|
                q != process@ && #[trigger] owns_window(self@, q, xid) implies named(
                owners@,
                owners@.len() as int,
            ).contains(q) by {
                let w = choose|w: WindowRecord| #[trigger]
                    windows_of(self@, q).contains(w) && w.window_xid == xid;
                let e = choose|e: int| key_at(self.procinfo@, e, q);
                let held = records(self.procinfo@[e].windows@);
                assert(held.to_set().contains(w));
                let j = choose|j: int| 0 <= j < held.len() && held[j] == w;
                assert(self.procinfo@[e].windows@[j].window_xid == xid);
            }
        }
        owners
    }

    /// Records `window` as a window of `process`. A process not tracked so far
    /// is tracked from now on; a window recorded already is not recorded
    /// twice. A window has one owner: every other process loses its windows
    /// with the identifier of `window`, and is no longer tracked where none
    /// is left.
    pub fn insert_window(&mut self, window: WindowInfo, process: ProcessInfo)
        requires
            old(self).wf(),
        ensures
            final(self).wf(),
            final(self).process_table() == old(self).process_table(),
            final(self)@ == with_window(old(self)@, window@, process@),
    {
        let ghost before = self@;
        proof {
            lemma_op_keeps_single_owner(
                before,
                StoreOp::Insert { window: window@, process: process@ },
            );
        }
        let xid = window.window_xid;
        let owners = self.other_owners(xid, &process);
        proof {
            assert(purged(before, xid, named(owners@, 0)) =~= before);
        }
        let mut k: usize = 0;
        while k < owners.len()
            invariant
                k <= owners@.len(),
                self.wf(),
                self.process_table() == old(self).process_table(),
                self@ == purged(before, xid, named(owners@, k as int)),
            decreases owners@.len() - k,
        {
            proof {
                lemma_purge_step(before, xid, named(owners@, k as int), owners@[k as int]@);
                assert(named(owners@, k + 1) =~= named(owners@, k as int).insert(
                    owners@[k as int]@,
                ));
            }
            self.remove_window(xid, &owners[k]);
            k += 1;
        }
        proof {
            self.lemma_no_empty_entries();
            old(self).lemma_no_empty_entries();
            lemma_purged_then_added(
                before,
                window@,
                process@,
                named(owners@, owners@.len() as int),
            );
        }
        self.add_window(window, process);
    }

    /// Drops every window of `process` whose identifier is `xid`. A process
    /// left without windows is no longer tracked. Nothing changes where the
    /// process is not tracked or owns no such window.
    pub fn remove_window(&mut self, xid: u32, process: &ProcessInfo)
        requires
            old(self).wf(),
        ensures
            final(self).wf(),
            final(self).process_table() == old(self).process_table(),
            final(self)@ == without_window(old(self)@, xid, process@),
    {
        let ghost before = self@;
        proof {
            lemma_op_keeps_single_owner(before, StoreOp::Remove { xid, process: process@ });
        }
        match self.take_entry(process) {
            Some(entry) => {
                let ProcessWindows { process: owner, windows } = entry;
                let kept = without_xid(windows, xid);
                if kept.len() > 0 {
                    assert(records(kept@).to_set().contains(records(kept@)[0]));
                    self.put_entry(ProcessWindows { process: owner, windows: kept });
                    assert(self@ =~= without_window(before, xid, process@));
                } else {
                    assert(records(kept@).to_set() =~= Set::<WindowRecord>::empty());
                }
            },
            None => {
                assert(windows_of(before, process@).filter(
                    |w: WindowRecord| w.window_xid != xid,
                ) =~= Set::<WindowRecord>::empty());
            },
        }
    }

    /// Brings the process table up to date and looks the process with
    /// identifier `pid` up in it: the process with that identifier and the
    /// command line that its argument vector makes, or `None` where the
    /// table holds no such process. The store itself is not touched.
    pub fn resolve_process(&mut self, pid: u32) -> (found: Option<ProcessInfo>)
        requires
            old(self).wf(),
        ensures
            final(self).wf(),
            final(self)@ == old(self)@,
            found_identity(found) == looked_up(final(self).process_table(), pid),
    {
        refresh_process_table(&mut self.sysinfo);
        match lookup_arguments(&self.sysinfo, pid as usize) {
            Some(arguments) => Some(ProcessInfo::from_arguments(&arguments, pid as usize)),
            None => None,
        }
    }

    /// Records the window of `info` for `owner`, the process that was found
    /// to own it. Where none was found, nothing is recorded.
    pub fn insert_resolved(&mut self, info: &X11WindowInformation, owner: Option<ProcessInfo>)
        requires
            old(self).wf(),
        ensures
            final(self).wf(),
            final(self).process_table() == old(self).process_table(),
            final(self)@ == with_window_of(old(self)@, info@.record(), found_identity(owner)),
    {
        match owner {
            Some(process) => {
                let window = WindowInfo::new(
                    &info.x11_window_name,
                    info.x11_resource_id,
                    &info.x11_desktop_name,
                    info.x11_desktop_number,
                );
                self.insert_window(window, process);
            },
            None => {},
        }
    }

    /// Drops the window of `info` from `owner`, the process that was found to
    /// own it. Where none was found, nothing is dropped.
    pub fn remove_resolved(&mut self, info: &X11WindowInformation, owner: Option<ProcessInfo>)
        requires
            old(self).wf(),
        ensures
            final(self).wf(),
            final(self).process_table() == old(self).process_table(),
            final(self)@ == without_window_of(
                old(self)@,
                info@.resource_id,
                found_identity(owner),
            ),
    {
        match owner {
            Some(process) => {
                self.remove_window(info.x11_resource_id, &process);
            },
            None => {},
        }
    }

    /// Brings the process table up to date, looks up the process that owns
    /// the window of `info`, and records the window for it. Where the table
    /// holds no such process, nothing is recorded.
    pub fn insert(&mut self, x11_window_info: &X11WindowInformation)
        requires
            old(self).wf(),
        ensures
            final(self).wf(),
            final(self)@ == with_window_of(
                old(self)@,
                x11_window_info@.record(),
                looked_up(final(self).process_table(), x11_window_info.process_id),
            ),
    {
        let owner = self.resolve_process(x11_window_info.process_id);
        self.insert_resolved(x11_window_info, owner);
    }

    /// Brings the process table up to date, looks up the process that owns
    /// the window of `info`, and drops the window from it. Where the table
    /// holds no such process, nothing is dropped.
    pub fn remove(&mut self, x11_window_info: &X11WindowInformation)
        requires
            old(self).wf(),
        ensures
            final(self).wf(),
            final(self)@ == without_window_of(
                old(self)@,
                x11_window_info@.resource_id,
                looked_up(final(self).process_table(), x11_window_info.process_id),
            ),
    {
        let owner = self.resolve_process(x11_window_info.process_id);
        self.remove_resolved(x11_window_info, owner);
    }

    /// The listing behind the store: each tracked process with its windows,
    /// in no particular order.
    pub fn entries(&self) -> (listing: &Vec<ProcessWindows>)
        requires
            self.wf(),
        ensures
            listing_valid(listing@),
            associations_of(listing@) == self@,
            single_owner(self@),
    {
        &self.procinfo
    }

    /// How many processes are tracked.
    pub fn process_count(&self) -> (count: usize)
        requires
            self.wf(),
        ensures
            self@.dom().finite(),
            count == self@.dom().len(),
    {
        proof {
            let entries = self.procinfo@;
            let keys = entries.map_values(|e: ProcessWindows| e.process@);
            lemma_listing(entries);
            assert(keys.no_duplicates());
            assert forall|p: ProcessIdentity| keys.to_set().contains(p) <==> self@.dom().contains(
                p,
            ) by {
                if keys.contains(p) {
                    let i = choose|i: int| 0 <= i < keys.len() && keys[i] == p;
                    assert(key_at(entries, i, p));
                }
                if self@.dom().contains(p) {
                    let i = choose|i: int| key_at(entries, i, p);
                    assert(keys[i] == p);
                }
            }
            assert(keys.to_set() =~= self@.dom());
            keys.unique_seq_to_set();
            vstd::seq_lib::seq_to_set_is_finite(keys);
        }
        self.procinfo.len()
    }

    /// How many windows `process` owns: none where it is not tracked.
    pub fn window_count(&self, process: &ProcessInfo) -> (count: usize)
        requires
            self.wf(),
        ensures
            windows_of(self@, process@).finite(),
            count == windows_of(self@, process@).len(),
    {
        match self.position_of(process) {
            Some(i) => {
                proof {
                    lemma_listing(self.procinfo@);
                    records(self.procinfo@[i as int].windows@).unique_seq_to_set();
                    vstd::seq_lib::seq_to_set_is_finite(
                        records(self.procinfo@[i as int].windows@),
                    );
                }
                self.procinfo[i].windows.len()
            },
            None => 0,
        }
    }
}

} // verus!
