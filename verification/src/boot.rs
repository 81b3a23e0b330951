//! Boot sequencing: the configured mount records, the split into early and
//! late phases, the model of the machine's active mounts, and the standard
//! descriptor redirection decisions.
//!
//! The configured records are compiled into the surrounding program; the
//! functions here decide which records each boot phase applies and in what
//! order, and track the resulting active-mount list the way the kernel does:
//! mounting appends a target, unmounting detaches the most recent mount of a
//! target.

use vstd::prelude::*;

verus! {

/// When a configured mount is applied: before the session starts, or
/// deferred until after the session process has been spawned.
#[derive(Clone, Copy, PartialEq, Eq, Structural)]
pub enum MountPhase {
    Early,
    Late,
}

/// One configured mount: what to mount where, with which options, and in
/// which boot phase.
pub struct MountRecord {
    pub device: Vec<u8>,
    pub target: Vec<u8>,
    pub fs_type: Vec<u8>,
    pub flags: u64,
    pub data: Option<Vec<u8>>,
    pub create_mode: Option<u32>,
    pub phase: MountPhase,
}

/// The indices of the records of phase `ph`, at or after position `i`, in
/// record order.
pub open spec fn phase_indices_from(rs: Seq<MountRecord>, ph: MountPhase, i: int) -> Seq<int>
    recommends
        0 <= i <= rs.len(),
    decreases rs.len() - i,
{
    if i < 0 || i >= rs.len() {
        Seq::empty()
    } else {
        let rest = phase_indices_from(rs, ph, i + 1);
        if rs[i].phase == ph {
            seq![i] + rest
        } else {
            rest
        }
    }
}

/// The indices of the records that the given phase applies, in record order.
pub open spec fn phase_indices_spec(rs: Seq<MountRecord>, ph: MountPhase) -> Seq<int> {
    phase_indices_from(rs, ph, 0)
}

/// Picks out the records of one boot phase: the returned indices are exactly
/// those of the records with that phase, in the order the table gives them,
/// which is the order the phase mounts them.
pub fn phase_indices(records: &Vec<MountRecord>, phase: MountPhase) -> (r: Vec<usize>)
    ensures
        r@.map_values(|k: usize| k as int) == phase_indices_spec(records@, phase),
{
    let mut out: Vec<usize> = Vec::new();
    let n = records.len();
    let mut i: usize = 0;
    proof {
        assert(out@.map_values(|k: usize| k as int) =~= Seq::<int>::empty());
    }
    while i < n
        invariant
            0 <= i <= n,
            n == records@.len(),
            out@.map_values(|k: usize| k as int) + phase_indices_from(records@, phase, i as int)
                == phase_indices_spec(records@, phase),
        decreases n - i,
    {
        let ghost prev = out@;
        if records[i].phase == phase {
            out.push(i);
            proof {
                assert(out@.map_values(|k: usize| k as int)
                    =~= prev.map_values(|k: usize| k as int) + seq![i as int]);
                assert(phase_indices_from(records@, phase, i as int)
                    == seq![i as int] + phase_indices_from(records@, phase, i + 1));
                assert(out@.map_values(|k: usize| k as int)
                    + phase_indices_from(records@, phase, i + 1)
                    =~= prev.map_values(|k: usize| k as int)
                    + phase_indices_from(records@, phase, i as int));
            }
        }
        i += 1;
    }
    out
}

/// The targets of the records the given indices pick out, in index order.
pub open spec fn targets_at(rs: Seq<MountRecord>, idxs: Seq<int>) -> Seq<Seq<u8>> {
    idxs.map_values(|k: int| rs[k].target@)
}

/// All configured targets, in table order.
pub open spec fn all_targets(rs: Seq<MountRecord>) -> Seq<Seq<u8>> {
    rs.map_values(|r: MountRecord| r.target@)
}

proof fn lemma_phase_partition_from(rs: Seq<MountRecord>, i: int)
    requires
        0 <= i <= rs.len(),
    ensures
        (targets_at(rs, phase_indices_from(rs, MountPhase::Early, i)) + targets_at(
            rs,
            phase_indices_from(rs, MountPhase::Late, i),
        )).to_set() == all_targets(rs).subrange(i, rs.len() as int).to_set(),
    decreases rs.len() - i,
{
    let e = phase_indices_from(rs, MountPhase::Early, i);
    let l = phase_indices_from(rs, MountPhase::Late, i);
    if i == rs.len() {
        assert(targets_at(rs, e) =~= Seq::<Seq<u8>>::empty());
        assert(targets_at(rs, l) =~= Seq::<Seq<u8>>::empty());
        assert((targets_at(rs, e) + targets_at(rs, l)).to_set()
            =~= all_targets(rs).subrange(i, rs.len() as int).to_set());
    } else {
        lemma_phase_partition_from(rs, i + 1);
        let e1 = phase_indices_from(rs, MountPhase::Early, i + 1);
        let l1 = phase_indices_from(rs, MountPhase::Late, i + 1);
        let t = rs[i].target@;
        let rest = all_targets(rs).subrange(i + 1, rs.len() as int);
        assert(all_targets(rs).subrange(i, rs.len() as int) =~= seq![t] + rest);
        vstd::seq_lib::seq_to_set_distributes_over_add(seq![t], rest);
        vstd::seq_lib::seq_to_set_distributes_over_add(
            targets_at(rs, e1),
            targets_at(rs, l1),
        );
        if rs[i].phase == MountPhase::Early {
            assert(e == seq![i] + e1);
            assert(l == l1);
            assert(targets_at(rs, e) =~= seq![t] + targets_at(rs, e1));
            vstd::seq_lib::seq_to_set_distributes_over_add(seq![t], targets_at(rs, e1));
            vstd::seq_lib::seq_to_set_distributes_over_add(targets_at(rs, e), targets_at(rs, l));
            assert((targets_at(rs, e) + targets_at(rs, l)).to_set()
                =~= all_targets(rs).subrange(i, rs.len() as int).to_set());
        } else {
            assert(rs[i].phase == MountPhase::Late);
            assert(l == seq![i] + l1);
            assert(e == e1);
            assert(targets_at(rs, l) =~= seq![t] + targets_at(rs, l1));
            vstd::seq_lib::seq_to_set_distributes_over_add(seq![t], targets_at(rs, l1));
            vstd::seq_lib::seq_to_set_distributes_over_add(targets_at(rs, e), targets_at(rs, l));
            assert((targets_at(rs, e) + targets_at(rs, l)).to_set()
                =~= all_targets(rs).subrange(i, rs.len() as int).to_set());
        }
    }
}

/// Phase coverage: every configured record is applied by one of the two
/// boot phases, so the targets the early phase mounts and those the late
/// phase mounts are together exactly the configured targets.
pub proof fn lemma_phase_partition(rs: Seq<MountRecord>)
    ensures
        (targets_at(rs, phase_indices_spec(rs, MountPhase::Early)) + targets_at(
            rs,
            phase_indices_spec(rs, MountPhase::Late),
        )).to_set() == all_targets(rs).to_set(),
{
    lemma_phase_partition_from(rs, 0);
    assert(all_targets(rs).subrange(0, rs.len() as int) =~= all_targets(rs));
}

/// The active-mount list with the most recent mount of `t` detached; the
/// list is unchanged when no mount of `t` is active.
pub open spec fn remove_last_match(s: Seq<Seq<u8>>, t: Seq<u8>) -> Seq<Seq<u8>>
    decreases s.len(),
{
    if s.len() == 0 {
        s
    } else if s.last() == t {
        s.drop_last()
    } else {
        remove_last_match(s.drop_last(), t).push(s.last())
    }
}

/// Unmounting a target that is not mounted leaves the list unchanged.
pub proof fn lemma_remove_last_match_absent(s: Seq<Seq<u8>>, t: Seq<u8>)
    requires
        !s.contains(t),
    ensures
        remove_last_match(s, t) == s,
    decreases s.len(),
{
    if s.len() > 0 {
        assert(s.last() != t) by {
            if s.last() == t {
                assert(s[s.len() - 1] == t);
            }
        }
        assert(!s.drop_last().contains(t)) by {
            if s.drop_last().contains(t) {
                let k = choose|k: int| 0 <= k < s.drop_last().len() && s.drop_last()[k] == t;
                assert(s[k] == t);
            }
        }
        lemma_remove_last_match_absent(s.drop_last(), t);
        assert(s.drop_last().push(s.last()) =~= s);
    }
}

/// When the match at `j` is the last one, detaching `t` removes exactly the
/// element at `j`.
pub proof fn lemma_remove_last_match_at(s: Seq<Seq<u8>>, t: Seq<u8>, j: int)
    requires
        0 <= j < s.len(),
        s[j] == t,
        forall|k: int| j < k < s.len() ==> s[k] != t,
    ensures
        remove_last_match(s, t) == s.remove(j),
    decreases s.len(),
{
    if j == s.len() - 1 {
        assert(s.last() == t);
        assert(remove_last_match(s, t) == s.drop_last());
        assert(s.drop_last() =~= s.remove(j));
    } else {
        assert(s.last() != t);
        let d = s.drop_last();
        assert(d[j] == t);
        assert(forall|k: int| j < k < d.len() ==> d[k] != t);
        lemma_remove_last_match_at(d, t, j);
        assert(remove_last_match(s, t) == d.remove(j).push(s.last()));
        assert(d.remove(j).push(s.last()) =~= s.remove(j));
    }
}

/// The machine's list of active mount targets, in mount order. Mounting
/// appends; unmounting detaches the most recent mount of the target.
pub struct ActiveMounts {
    targets: Vec<Vec<u8>>,
}

impl View for ActiveMounts {
    type V = Seq<Seq<u8>>;

    closed spec fn view(&self) -> Seq<Seq<u8>> {
        self.targets@.map_values(|t: Vec<u8>| t@)
    }
}

/// Compares two paths byte for byte.
pub fn bytes_eq(a: &Vec<u8>, b: &Vec<u8>) -> (r: bool)
    ensures
        r == (a@ == b@),
{
    if a.len() != b.len() {
        proof {
            assert(a@ != b@);
        }
        return false;
    }
    let n = a.len();
    let mut i: usize = 0;
    while i < n
        invariant
            0 <= i <= n,
            n == a@.len() && n == b@.len(),
            forall|k: int| 0 <= k < i ==> a@[k] == b@[k],
        decreases n - i,
    {
        if a[i] != b[i] {
            proof {
                assert(a@[i as int] != b@[i as int]);
            }
            return false;
        }
        i += 1;
    }
    proof {
        assert(a@ =~= b@);
    }
    true
}

impl ActiveMounts {
    /// No filesystem is mounted.
    pub fn new() -> (r: ActiveMounts)
        ensures
            r@ == Seq::<Seq<u8>>::empty(),
    {
        let r = ActiveMounts { targets: Vec::new() };
        proof {
            assert(r@ =~= Seq::<Seq<u8>>::empty());
        }
        r
    }

    /// How many mounts are active.
    pub fn len(&self) -> (r: usize)
        ensures
            r == self@.len(),
    {
        self.targets.len()
    }

    /// The target mounted `i`-th in mount order.
    pub fn target_at(&self, i: usize) -> (r: &Vec<u8>)
        requires
            i < self@.len(),
        ensures
            r@ == self@[i as int],
    {
        &self.targets[i]
    }

    /// Records that `target` has been mounted: it becomes the most recent
    /// entry of the active list.
    pub fn mount(&mut self, target: Vec<u8>)
        ensures
            final(self)@ == old(self)@.push(target@),
    {
        self.targets.push(target);
        proof {
            assert(final(self)@ =~= old(self)@.push(target@));
        }
    }

    /// Records that `target` has been unmounted: the most recent mount of it
    /// leaves the list. Returns whether any mount of it was active.
    pub fn unmount(&mut self, target: &Vec<u8>) -> (found: bool)
        ensures
            final(self)@ == remove_last_match(old(self)@, target@),
            found == old(self)@.contains(target@),
    {
        let n = self.targets.len();
        let mut j: usize = n;
        while j > 0
            invariant
                self == old(self),
                0 <= j <= n,
                n == self.targets@.len(),
                forall|k: int| j <= k < n ==> self@[k] != target@,
            decreases j,
        {
            proof {
                assert(self@.len() == self.targets@.len());
            }
            if bytes_eq(&self.targets[j - 1], target) {
                let ghost s = self@;
                proof {
                    assert(s[j - 1] == target@);
                    lemma_remove_last_match_at(s, target@, j - 1);
                }
                self.targets.remove(j - 1);
                proof {
                    assert(self@ =~= s.remove(j - 1)) by {
                        assert(self.targets@ == old(self).targets@.remove(j - 1));
                        assert forall|k: int| 0 <= k < self@.len() implies self@[k] == s.remove(
                            j - 1,
                        )[k] by {
                            if k < j - 1 {
                                assert(self.targets@[k] == old(self).targets@[k]);
                            } else {
                                assert(self.targets@[k] == old(self).targets@[k + 1]);
                            }
                        }
                    }
                    assert(s.contains(target@)) by {
                        assert(s[j - 1] == target@);
                    }
                }
                return true;
            }
            j -= 1;
        }
        proof {
            assert(!old(self)@.contains(target@)) by {
                if old(self)@.contains(target@) {
                    let k = choose|k: int|
                        0 <= k < old(self)@.len() && old(self)@[k] == target@;
                    assert(false);
                }
            }
            lemma_remove_last_match_absent(old(self)@, target@);
        }
        false
    }
}

/// The active list after unmounting the given targets in the given order.
pub open spec fn apply_unmounts(active: Seq<Seq<u8>>, order: Seq<Seq<u8>>) -> Seq<Seq<u8>>
    decreases order.len(),
{
    if order.len() == 0 {
        active
    } else {
        apply_unmounts(remove_last_match(active, order[0]), order.skip(1))
    }
}

/// Mount symmetry, shutdown half: unmounting every active target in the
/// exact reverse of mount order leaves no filesystem mounted, whatever the
/// active list holds.
pub proof fn lemma_reverse_unmount_empties(active: Seq<Seq<u8>>)
    ensures
        apply_unmounts(active, active.reverse()) == Seq::<Seq<u8>>::empty(),
    decreases active.len(),
{
    if active.len() == 0 {
        assert(active.reverse() =~= Seq::<Seq<u8>>::empty());
        assert(active =~= Seq::<Seq<u8>>::empty());
    } else {
        let rev = active.reverse();
        assert(rev.len() == active.len());
        assert(rev[0] == active.last());
        assert(remove_last_match(active, active.last()) == active.drop_last());
        assert(rev.skip(1) =~= active.drop_last().reverse()) by {
            let d = active.drop_last();
            assert(d.len() == active.len() - 1);
            assert forall|i: int| 0 <= i < rev.skip(1).len() implies rev.skip(1)[i]
                == d.reverse()[i] by {
                assert(rev.skip(1)[i] == rev[i + 1]);
                assert(rev[i + 1] == active[active.len() - 2 - i]);
                assert(d.reverse()[i] == d[d.len() - 1 - i]);
                assert(d[d.len() - 1 - i] == active[active.len() - 2 - i]);
            }
        }
        lemma_reverse_unmount_empties(active.drop_last());
        assert(apply_unmounts(active, rev)
            == apply_unmounts(active.drop_last(), active.drop_last().reverse()));
    }
}

/// The active list after mounting the given targets in the given order.
pub open spec fn apply_mounts(active: Seq<Seq<u8>>, order: Seq<Seq<u8>>) -> Seq<Seq<u8>>
    decreases order.len(),
{
    if order.len() == 0 {
        active
    } else {
        apply_mounts(active.push(order[0]), order.skip(1))
    }
}

/// Mounting a list of targets appends them, in order, to the active list.
pub proof fn lemma_apply_mounts_appends(active: Seq<Seq<u8>>, order: Seq<Seq<u8>>)
    ensures
        apply_mounts(active, order) == active + order,
    decreases order.len(),
{
    if order.len() == 0 {
        assert(active + order =~= active);
    } else {
        lemma_apply_mounts_appends(active.push(order[0]), order.skip(1));
        assert(active.push(order[0]) + order.skip(1) =~= active + order);
    }
}

/// Mount symmetry: starting with nothing mounted and applying every
/// configured target, early phase first and late phase after, makes the
/// active target list exactly the configured target list — so the active
/// target set equals the configured target set — and unmounting that list
/// in its exact reverse order leaves nothing mounted.
pub proof fn lemma_mount_symmetry(early: Seq<Seq<u8>>, late: Seq<Seq<u8>>)
    ensures
        apply_mounts(Seq::<Seq<u8>>::empty(), early + late) == early + late,
        apply_mounts(Seq::<Seq<u8>>::empty(), early + late).to_set() == (early + late).to_set(),
        apply_unmounts(early + late, (early + late).reverse()) == Seq::<Seq<u8>>::empty(),
{
    lemma_apply_mounts_appends(Seq::<Seq<u8>>::empty(), early + late);
    assert(Seq::<Seq<u8>>::empty() + (early + late) =~= early + late);
    lemma_reverse_unmount_empties(early + late);
}

/// The decisions of the boot-log redirection: the freshly opened log
/// descriptor is duplicated onto the standard output and standard error
/// slots it does not already occupy, and closed afterwards only when it
/// occupies neither.
pub struct RedirectPlan {
    pub dup_to_stdout: bool,
    pub dup_to_stderr: bool,
    pub close_after: bool,
}

/// Decides how to wire a log descriptor to standard output and error.
pub fn stdio_redirect_plan(fd: u32) -> (r: RedirectPlan)
    ensures
        r.dup_to_stdout == (fd != 1),
        r.dup_to_stderr == (fd != 2),
        r.close_after == (fd != 1 && fd != 2),
{
    RedirectPlan {
        dup_to_stdout: fd != 1,
        dup_to_stderr: fd != 2,
        close_after: fd != 1 && fd != 2,
    }
}

} // verus!
