//! The table of the virtual machines that the service knows.
//!
//! A machine lives for as long as somebody holds a handle to it. The table counts the
//! handles of each machine; a machine whose last handle was given back is stopped, is
//! no longer listed, and leaves the table when the next machine is added. Handles
//! that are kept for debugging are held by the table itself and count like any other.
//!
//! Every operation takes the table by reference, and the ones that change it by
//! exclusive reference: callers share the table behind a lock of their own.

use crate::callbacks::{
    cid_as_i32, cid_to_i32, notification_view, DeathReason, ListenerId, Notification,
    NotificationView,
};
use crate::cid::{next_cid, next_cid_after, Cid, SYSPROP_LAST_CID};
use crate::error::ErrorKind;
use crate::instance::{
    reported_event, reported_state, vm_is_terminal, GuestEvent, KillOutcome, VmInstance,
    VmInstanceView, VmState,
};
use crate::properties::PropertyStore;
use crate::text::decimal;
use vstd::prelude::*;

verus! {

/// One reference to a virtual machine. It cannot be copied: more handles are made by
/// the table, which counts them.
#[derive(Debug)]
pub struct VmHandle {
    cid: Cid,
}

impl View for VmHandle {
    type V = Cid;

    closed spec fn view(&self) -> Cid {
        self.cid
    }
}

impl VmHandle {
    /// The CID of the machine that the handle refers to.
    pub fn cid(&self) -> (cid: Cid)
        ensures
            cid == self@,
    {
        self.cid
    }
}

struct Slot {
    instance: VmInstance,
    strong: u64,
}

/// A machine of the table with the number of its handles.
pub struct SlotView {
    pub instance: VmInstanceView,
    pub strong: nat,
}

/// The table as plain values: the machines in the order in which they were added, and
/// the CIDs of the handles that are kept for debugging.
pub struct StateView {
    pub vms: Seq<SlotView>,
    pub debug_held_vms: Seq<Cid>,
}

/// The machines that somebody still holds, in their order.
pub open spec fn live_slots(vms: Seq<SlotView>) -> Seq<SlotView>
    decreases vms.len(),
{
    if vms.len() == 0 {
        Seq::empty()
    } else if vms.last().strong > 0 {
        live_slots(vms.drop_last()).push(vms.last())
    } else {
        live_slots(vms.drop_last())
    }
}

/// Whether the machine at `at` is held and has the CID `cid`.
pub open spec fn is_live_at(vms: Seq<SlotView>, cid: Cid, at: int) -> bool {
    0 <= at < vms.len() && vms[at].strong > 0 && vms[at].instance.cid == cid
}

/// Whether `at` is the place of the first machine that is held and has the CID `cid`.
pub open spec fn is_first_live(vms: Seq<SlotView>, cid: Cid, at: int) -> bool {
    is_live_at(vms, cid, at) && forall|j: int| 0 <= j < at ==> !is_live_at(vms, cid, j)
}

/// Whether some machine is held and has the CID `cid`.
pub open spec fn has_live(vms: Seq<SlotView>, cid: Cid) -> bool {
    exists|at: int| is_live_at(vms, cid, at)
}

/// Whether `at` is the place of the first handle kept for debugging whose CID, as
/// the signed number of the remote interface, is `cid`.
pub open spec fn is_first_held(held: Seq<Cid>, cid: i32, at: int) -> bool {
    0 <= at < held.len() && cid_as_i32(held[at]) == cid && forall|j: int|
        0 <= j < at ==> cid_as_i32(held[j]) != cid
}

impl StateView {
    /// Whether no two machines that are held share a CID.
    pub open spec fn unique_cids(self) -> bool {
        forall|i: int, j: int|
            0 <= i < j < self.vms.len() && self.vms[i].strong > 0 && self.vms[j].strong > 0
                ==> self.vms[i].instance.cid != self.vms[j].instance.cid
    }

    /// The table with the machine at `at` replaced by `instance`.
    pub open spec fn with_instance(self, at: int, instance: VmInstanceView) -> StateView {
        StateView {
            vms: self.vms.update(at, SlotView { instance, strong: self.vms[at].strong }),
            ..self
        }
    }

    /// The table with the number of handles of the machine at `at` set to `strong`.
    pub open spec fn with_strong(self, at: int, strong: nat) -> StateView {
        StateView {
            vms: self.vms.update(at, SlotView { instance: self.vms[at].instance, strong }),
            ..self
        }
    }
}

/// A machine that is listed is held, and a machine that is held is listed at a place
/// that keeps the order.
pub proof fn lemma_live_slots(vms: Seq<SlotView>)
    ensures
        live_slots(vms).len() <= vms.len(),
        forall|k: int|
            0 <= k < live_slots(vms).len() ==> (#[trigger] live_slots(vms)[k]).strong > 0,
        forall|k: int|
            0 <= k < live_slots(vms).len() ==> exists|i: int|
                0 <= i < vms.len() && vms[i] == #[trigger] live_slots(vms)[k],
        forall|i: int|
            0 <= i < vms.len() && (#[trigger] vms[i]).strong > 0 ==> live_slots(vms).contains(
                vms[i],
            ),
    decreases vms.len(),
{
    if vms.len() > 0 {
        let rest = vms.drop_last();
        lemma_live_slots(rest);
        let live = live_slots(vms);
        let before = live_slots(rest);
        assert forall|k: int| 0 <= k < live.len() implies exists|i: int|
            0 <= i < vms.len() && vms[i] == #[trigger] live[k] by {
            if k < before.len() {
                let i = choose|i: int| 0 <= i < rest.len() && rest[i] == before[k];
                assert(vms[i] == live[k]);
            } else {
                assert(vms[vms.len() - 1] == live[k]);
            }
        }
        assert forall|i: int|
            0 <= i < vms.len() && (#[trigger] vms[i]).strong > 0 implies live.contains(vms[i]) by {
            if i < rest.len() {
                assert(rest[i] == vms[i]);
                assert(before.contains(rest[i]));
                let k = choose|k: int| 0 <= k < before.len() && before[k] == rest[i];
                assert(live[k] == vms[i]);
            } else {
                assert(live[live.len() - 1] == vms[i]);
            }
        }
    }
}

/// A machine whose last handle was given back is not listed any more: nothing that
/// is listed has no handle.
pub proof fn lemma_released_vm_is_not_listed(vms: Seq<SlotView>, at: int)
    requires
        0 <= at < vms.len(),
        vms[at].strong == 0,
    ensures
        !live_slots(vms).contains(vms[at]),
{
    lemma_live_slots(vms);
    if live_slots(vms).contains(vms[at]) {
        let k = choose|k: int| 0 <= k < live_slots(vms).len() && live_slots(vms)[k] == vms[at];
        assert(live_slots(vms)[k].strong > 0);
    }
}

/// Listing what is listed changes nothing, and what is listed keeps the property
/// that no two machines share a CID.
pub proof fn lemma_live_slots_kept(vms: Seq<SlotView>)
    ensures
        live_slots(live_slots(vms)) == live_slots(vms),
        (StateView { vms, debug_held_vms: Seq::empty() }).unique_cids() ==> (StateView {
            vms: live_slots(vms),
            debug_held_vms: Seq::empty(),
        }).unique_cids(),
        forall|cid: Cid| has_live(vms, cid) <==> has_live(live_slots(vms), cid),
    decreases vms.len(),
{
    lemma_live_slots(vms);
    if vms.len() > 0 {
        let rest = vms.drop_last();
        lemma_live_slots_kept(rest);
        lemma_live_slots(rest);
        let live = live_slots(vms);
        let before = live_slots(rest);
        if vms.last().strong > 0 {
            assert(live.drop_last() =~= before);
            assert(live_slots(live) =~= live);
        }
        assert forall|cid: Cid| has_live(vms, cid) <==> has_live(live, cid) by {
            if has_live(vms, cid) {
                let i = choose|i: int| is_live_at(vms, cid, i);
                assert(live.contains(vms[i]));
                let k = choose|k: int| 0 <= k < live.len() && live[k] == vms[i];
                assert(is_live_at(live, cid, k));
            }
            if has_live(live, cid) {
                let k = choose|k: int| is_live_at(live, cid, k);
                let i = choose|i: int| 0 <= i < vms.len() && vms[i] == live[k];
                assert(is_live_at(vms, cid, i));
            }
        }
        if (StateView { vms, debug_held_vms: Seq::empty() }).unique_cids() {
            assert((StateView { vms: rest, debug_held_vms: Seq::empty() }).unique_cids()) by {
                assert forall|i: int, j: int|
                    0 <= i < j < rest.len() && rest[i].strong > 0 && rest[j].strong
                        > 0 implies rest[i].instance.cid != rest[j].instance.cid by {
                    assert(vms[i] == rest[i] && vms[j] == rest[j]);
                }
            }
            assert forall|i: int, j: int|
                0 <= i < j < live.len() && live[i].strong > 0 && live[j].strong
                    > 0 implies live[i].instance.cid != live[j].instance.cid by {
                if j < before.len() {
                    assert(live[i] == before[i] && live[j] == before[j]);
                } else {
                    assert(live[j] == vms.last());
                    assert(live[i] == before[i]);
                    let a = choose|a: int| 0 <= a < rest.len() && rest[a] == before[i];
                    assert(vms[a] == rest[a]);
                    assert(vms[vms.len() - 1] == vms.last());
                }
            }
        }
    }
}

/// Once the only handle of a machine was given back, no machine with its CID is held
/// any more, and none is listed after another machine was added: the machine has left
/// the table. This holds of a table in which no two machines that are held share a CID.
pub proof fn lemma_dropped_vm_leaves(before: StateView, at: int, added: VmInstanceView)
    requires
        before.unique_cids(),
        0 <= at < before.vms.len(),
        before.vms[at].strong == 1,
        added.cid != before.vms[at].instance.cid,
    ensures
        ({
            let cid = before.vms[at].instance.cid;
            let dropped = before.with_strong(at, 0).with_instance(
                at,
                before.vms[at].instance.killed(),
            );
            let grown = live_slots(dropped.vms).push(SlotView { instance: added, strong: 1 });
            &&& !has_live(dropped.vms, cid)
            &&& !has_live(grown, cid)
            &&& grown.len() <= before.vms.len()
            &&& forall|k: int|
                0 <= k < live_slots(grown).len() ==> (#[trigger] live_slots(grown)[k]).instance.cid
                    != cid
        }),
{
    let cid = before.vms[at].instance.cid;
    let dropped = before.with_strong(at, 0).with_instance(at, before.vms[at].instance.killed());
    let live = live_slots(dropped.vms);
    let grown = live.push(SlotView { instance: added, strong: 1 });
    assert forall|j: int| !is_live_at(dropped.vms, cid, j) by {
        if 0 <= j < dropped.vms.len() && j != at {
            assert(dropped.vms[j] == before.vms[j]);
        }
    }
    assert(!has_live(dropped.vms, cid));
    lemma_live_slots_kept(dropped.vms);
    assert(has_live(dropped.vms, cid) <==> has_live(live, cid));
    assert forall|j: int| !is_live_at(grown, cid, j) by {
        if 0 <= j < live.len() {
            assert(grown[j] == live[j]);
            assert(!is_live_at(live, cid, j));
        }
    }
    lemma_live_slots(grown);
    assert forall|k: int| 0 <= k < live_slots(grown).len() implies (#[trigger] live_slots(
        grown,
    )[k]).instance.cid != cid by {
        let i = choose|i: int| 0 <= i < grown.len() && grown[i] == live_slots(grown)[k];
        assert(!is_live_at(grown, cid, i));
    }
    lemma_live_slots_shrink(dropped.vms, at);
}

/// Where a machine has no handle, fewer machines are listed than the table holds.
proof fn lemma_live_slots_shrink(vms: Seq<SlotView>, at: int)
    requires
        0 <= at < vms.len(),
        vms[at].strong == 0,
    ensures
        live_slots(vms).len() < vms.len(),
    decreases vms.len(),
{
    lemma_live_slots(vms.drop_last());
    if at < vms.len() - 1 {
        lemma_live_slots_shrink(vms.drop_last(), at);
    }
}

/// The shared, changing part of the service: the machines and the handles that are
/// kept for debugging.
pub struct State {
    vms: Vec<Slot>,
    debug_held_vms: Vec<VmHandle>,
}

impl View for State {
    type V = StateView;

    closed spec fn view(&self) -> StateView {
        StateView {
            vms: Seq::new(
                self.vms@.len(),
                |i: int|
                    SlotView {
                        instance: self.vms@[i].instance@,
                        strong: self.vms@[i].strong as nat,
                    },
            ),
            debug_held_vms: Seq::new(self.debug_held_vms@.len(), |i: int| self.debug_held_vms@[i]@),
        }
    }
}

impl State {
    /// A table without machines.
    pub fn new() -> (state: State)
        ensures
            state@.vms.len() == 0,
            state@.debug_held_vms.len() == 0,
    {
        State { vms: Vec::new(), debug_held_vms: Vec::new() }
    }

    /// The place of the first machine that is held and has the CID `cid`.
    fn find_live(&self, cid: Cid) -> (r: Option<usize>)
        ensures
            match r {
                Some(at) => is_first_live(self@.vms, cid, at as int),
                None => !has_live(self@.vms, cid),
            },
    {
        let mut i: usize = 0;
        while i < self.vms.len()
            invariant
                i <= self.vms@.len(),
                forall|j: int| 0 <= j < i ==> !is_live_at(self@.vms, cid, j),
            decreases self.vms@.len() - i,
        {
            if self.vms[i].strong > 0 && self.vms[i].instance.cid() == cid {
                return Some(i);
            }
            i += 1;
        }
        None
    }

    /// The machines that somebody still holds.
    pub fn vms(&self) -> (list: Vec<&VmInstance>)
        ensures
            list@.len() == live_slots(self@.vms).len(),
            forall|k: int|
                0 <= k < list@.len() ==> (#[trigger] list@[k])@ == live_slots(
                    self@.vms,
                )[k].instance,
    {
        let mut list: Vec<&VmInstance> = Vec::new();
        let mut i: usize = 0;
        proof {
            assert(self@.vms.take(0) =~= Seq::<SlotView>::empty());
        }
        while i < self.vms.len()
            invariant
                i <= self.vms@.len(),
                list@.len() == live_slots(self@.vms.take(i as int)).len(),
                forall|k: int|
                    0 <= k < list@.len() ==> (#[trigger] list@[k])@ == live_slots(
                        self@.vms.take(i as int),
                    )[k].instance,
            decreases self.vms@.len() - i,
        {
            proof {
                assert(self@.vms.take(i + 1).drop_last() =~= self@.vms.take(i as int));
                assert(self@.vms.take(i + 1).last() == self@.vms[i as int]);
            }
            if self.vms[i].strong > 0 {
                list.push(&self.vms[i].instance);
            }
            i += 1;
        }
        proof {
            assert(self@.vms.take(i as int) =~= self@.vms);
        }
        list
    }

    /// Takes the machines that nobody holds out of the table.
    fn prune(&mut self)
        ensures
            final(self)@.vms == live_slots(old(self)@.vms),
            final(self)@.debug_held_vms == old(self)@.debug_held_vms,
    {
        let ghost before = self@.vms;
        let mut i: usize = 0;
        let ghost mut seen: int = 0;
        proof {
            assert(before.take(0) =~= Seq::<SlotView>::empty());
            assert(self@.vms.take(0) =~= live_slots(before.take(0)));
            assert(self@.vms.skip(0) =~= before.skip(0));
        }
        while i < self.vms.len()
            invariant
                i <= self.vms@.len(),
                0 <= seen <= before.len(),
                self@.vms.len() - i == before.len() - seen,
                self@.vms.take(i as int) == live_slots(before.take(seen)),
                self@.vms.skip(i as int) == before.skip(seen),
                self@.debug_held_vms == old(self)@.debug_held_vms,
            decreases self.vms@.len() - i,
        {
            let ghost table = self@.vms;
            proof {
                assert(table[i as int] == table.skip(i as int)[0]);
                assert(before.skip(seen)[0] == before[seen]);
                assert(before.take(seen + 1).drop_last() =~= before.take(seen));
                assert(before.take(seen + 1).last() == before[seen]);
                assert(table.skip(i + 1) =~= table.skip(i as int).skip(1));
                assert(before.skip(seen + 1) =~= before.skip(seen).skip(1));
            }
            if self.vms[i].strong == 0 {
                self.vms.remove(i);
                proof {
                    assert(self@.vms =~= table.remove(i as int));
                    assert(self@.vms.take(i as int) =~= table.take(i as int));
                    assert(self@.vms.skip(i as int) =~= table.skip(i + 1));
                    assert(self@.debug_held_vms =~= old(self)@.debug_held_vms);
                    seen = seen + 1;
                }
            } else {
                proof {
                    assert(table.take(i + 1) =~= table.take(i as int).push(table[i as int]));
                    seen = seen + 1;
                }
                i += 1;
            }
        }
        proof {
            assert(self@.vms.take(i as int) =~= self@.vms);
            assert(before.take(seen) =~= before);
        }
    }

    /// Adds a machine and hands out the first handle to it.
    ///
    /// The machines that nobody holds any more leave the table first. Where a machine
    /// that is held already has the CID of the new one, the new one is refused.
    pub fn add_vm(&mut self, vm: VmInstance) -> (r: Result<VmHandle, ErrorKind>)
        ensures
            final(self)@.debug_held_vms == old(self)@.debug_held_vms,
            match r {
                Ok(handle) => {
                    &&& !has_live(old(self)@.vms, vm@.cid)
                    &&& handle@ == vm@.cid
                    &&& final(self)@.vms == live_slots(old(self)@.vms).push(
                        SlotView { instance: vm@, strong: 1 },
                    )
                },
                Err(e) => {
                    &&& has_live(old(self)@.vms, vm@.cid)
                    &&& e == ErrorKind::Internal
                    &&& final(self)@.vms == live_slots(old(self)@.vms)
                },
            },
            old(self)@.unique_cids() ==> final(self)@.unique_cids(),
    {
        let ghost before = self@.vms;
        self.prune();
        proof {
            lemma_live_slots_kept(before);
            lemma_live_slots(before);
            assert(old(self)@.unique_cids() ==> (StateView {
                vms: before,
                debug_held_vms: Seq::empty(),
            }).unique_cids());
        }
        let ghost pruned = self@.vms;
        match self.find_live(vm.cid()) {
            Some(_) => {
                proof {
                    assert(has_live(pruned, vm@.cid));
                }
                Err(ErrorKind::Internal)
            },
            None => {
                let handle = VmHandle { cid: vm.cid() };
                self.vms.push(Slot { instance: vm, strong: 1 });
                proof {
                    assert(self@.vms =~= pruned.push(SlotView { instance: vm@, strong: 1 }));
                    assert(self@.debug_held_vms =~= old(self)@.debug_held_vms);
                    if old(self)@.unique_cids() {
                        assert forall|a: int, b: int|
                            0 <= a < b < self@.vms.len() && self@.vms[a].strong > 0
                                && self@.vms[b].strong > 0 implies self@.vms[a].instance.cid
                            != self@.vms[b].instance.cid by {
                            if b < pruned.len() {
                                assert(self@.vms[a] == pruned[a] && self@.vms[b] == pruned[b]);
                            } else {
                                assert(self@.vms[a] == pruned[a]);
                                assert(!is_live_at(pruned, vm@.cid, a));
                            }
                        }
                    }
                }
                Ok(handle)
            },
        }
    }

    /// The first machine that is held and has the CID `cid`.
    pub fn get_vm(&self, cid: Cid) -> (r: Option<&VmInstance>)
        ensures
            match r {
                Some(vm) => exists|at: int|
                    is_first_live(self@.vms, cid, at) && vm@ == self@.vms[at].instance,
                None => !has_live(self@.vms, cid),
            },
    {
        match self.find_live(cid) {
            Some(at) => Some(&self.vms[at].instance),
            None => None,
        }
    }

    /// Keeps a handle for debugging.
    pub fn debug_hold_vm(&mut self, vm: VmHandle)
        ensures
            final(self)@.vms == old(self)@.vms,
            final(self)@.debug_held_vms == old(self)@.debug_held_vms.push(vm@),
    {
        self.debug_held_vms.push(vm);
        proof {
            assert(self@.vms =~= old(self)@.vms);
            assert(self@.debug_held_vms =~= old(self)@.debug_held_vms.push(vm@));
        }
    }

    /// Gives back the first handle kept for debugging whose machine has the CID
    /// `cid`, counted as the remote interface does. The last handle that is kept takes
    /// its place.
    pub fn debug_drop_vm(&mut self, cid: i32) -> (r: Option<VmHandle>)
        ensures
            final(self)@.vms == old(self)@.vms,
            match r {
                Some(handle) => exists|at: int|
                    is_first_held(old(self)@.debug_held_vms, cid, at)
                        && handle@ == old(self)@.debug_held_vms[at]
                        && final(self)@.debug_held_vms == old(self)@.debug_held_vms.update(
                        at,
                        old(self)@.debug_held_vms.last(),
                    ).drop_last(),
                None => final(self)@.debug_held_vms == old(self)@.debug_held_vms && forall|at: int|
                    0 <= at < old(self)@.debug_held_vms.len() ==> cid_as_i32(
                        #[trigger] old(self)@.debug_held_vms[at],
                    ) != cid,
            },
    {
        let mut i: usize = 0;
        while i < self.debug_held_vms.len()
            invariant
                i <= self.debug_held_vms@.len(),
                *self == *old(self),
                forall|j: int| 0 <= j < i ==> cid_as_i32(#[trigger] self@.debug_held_vms[j]) != cid,
            decreases self.debug_held_vms@.len() - i,
        {
            if cid_to_i32(self.debug_held_vms[i].cid) == cid {
                let handle = self.debug_held_vms.swap_remove(i);
                proof {
                    assert(self@.vms =~= old(self)@.vms);
                    assert(is_first_held(old(self)@.debug_held_vms, cid, i as int));
                    assert(self@.debug_held_vms =~= old(self)@.debug_held_vms.update(
                        i as int,
                        old(self)@.debug_held_vms.last(),
                    ).drop_last());
                }
                return Some(handle);
            }
            i += 1;
        }
        None
    }

    /// Makes one more handle to the machine of `handle`, if that machine is held and
    /// its handles can still be counted.
    pub fn clone_handle(&mut self, handle: &VmHandle) -> (r: Option<VmHandle>)
        ensures
            match r {
                Some(copy) => copy@ == handle@ && exists|at: int|
                    is_first_live(old(self)@.vms, handle@, at) && old(self)@.vms[at].strong
                        < u64::MAX && final(self)@ == old(self)@.with_strong(
                        at,
                        old(self)@.vms[at].strong + 1,
                    ),
                None => final(self)@ == old(self)@ && forall|at: int|
                    is_first_live(old(self)@.vms, handle@, at) ==> old(self)@.vms[at].strong
                        == u64::MAX,
            },
            old(self)@.unique_cids() ==> final(self)@.unique_cids(),
    {
        match self.find_live(handle.cid) {
            Some(at) => {
                if self.vms[at].strong == u64::MAX {
                    return None;
                }
                let slot = &mut self.vms[at];
                slot.strong = slot.strong + 1;
                proof {
                    assert(self@.vms =~= old(self)@.with_strong(
                        at as int,
                        old(self)@.vms[at as int].strong + 1,
                    ).vms);
                    assert(self@.debug_held_vms =~= old(self)@.debug_held_vms);
                }
                Some(VmHandle { cid: handle.cid })
            },
            None => None,
        }
    }

    /// Gives a handle back. Where it was the last one of its machine, the machine is
    /// stopped, and what has to be done about that is returned.
    pub fn drop_handle(&mut self, handle: VmHandle) -> (r: Option<KillOutcome>)
        ensures
            match r {
                Some(outcome) => exists|at: int|
                    is_first_live(old(self)@.vms, handle@, at) && old(self)@.vms[at].strong == 1
                        && final(self)@ == old(self)@.with_strong(at, 0).with_instance(
                        at,
                        old(self)@.vms[at].instance.killed(),
                    ) && outcome.terminate == (old(self)@.vms[at].instance.vm_state
                        == VmState::Running) && notification_view(
                        outcome.notification,
                    ) == (if vm_is_terminal(old(self)@.vms[at].instance.vm_state) {
                        None
                    } else {
                        Some(old(self)@.vms[at].instance.death_notice(DeathReason::Killed))
                    }),
                None => (!has_live(old(self)@.vms, handle@) && final(self)@ == old(self)@)
                    || exists|at: int|
                    is_first_live(old(self)@.vms, handle@, at) && old(self)@.vms[at].strong > 1
                        && final(self)@ == old(self)@.with_strong(
                        at,
                        (old(self)@.vms[at].strong - 1) as nat,
                    ),
            },
            old(self)@.unique_cids() ==> final(self)@.unique_cids(),
    {
        match self.find_live(handle.cid) {
            Some(at) => {
                let slot = &mut self.vms[at];
                slot.strong = slot.strong - 1;
                if slot.strong == 0 {
                    let outcome = slot.instance.kill();
                    proof {
                        assert(is_first_live(old(self)@.vms, handle@, at as int));
                        assert(old(self)@.vms[at as int].strong == 1);
                        assert(self@.vms =~= old(self)@.with_strong(at as int, 0).with_instance(
                            at as int,
                            old(self)@.vms[at as int].instance.killed(),
                        ).vms);
                        assert(self@.debug_held_vms =~= old(self)@.debug_held_vms);
                    }
                    Some(outcome)
                } else {
                    proof {
                        assert(self@.vms =~= old(self)@.with_strong(
                            at as int,
                            (old(self)@.vms[at as int].strong - 1) as nat,
                        ).vms);
                        assert(self@.debug_held_vms =~= old(self)@.debug_held_vms);
                    }
                    None
                }
            },
            None => None,
        }
    }

    /// Starts the machine with the CID `cid`, given whether its process could be
    /// launched.
    pub fn start_vm(&mut self, cid: Cid, launched: bool, now: u64) -> (r: Result<(), ErrorKind>)
        ensures
            !has_live(old(self)@.vms, cid) ==> r == Err::<(), ErrorKind>(ErrorKind::IllegalState)
                && final(self)@ == old(self)@,
            has_live(old(self)@.vms, cid) ==> exists|at: int|
                is_first_live(old(self)@.vms, cid, at)
                    && r == old(self)@.vms[at].instance.start_result(launched)
                    && final(self)@ == old(self)@.with_instance(
                    at,
                    old(self)@.vms[at].instance.started(launched, now),
                ),
            old(self)@.unique_cids() ==> final(self)@.unique_cids(),
    {
        match self.find_live(cid) {
            Some(at) => {
                let slot = &mut self.vms[at];
                let r = slot.instance.start(launched, now);
                proof {
                    assert(self@.vms =~= old(self)@.with_instance(
                        at as int,
                        old(self)@.vms[at as int].instance.started(launched, now),
                    ).vms);
                    assert(self@.debug_held_vms =~= old(self)@.debug_held_vms);
                    assert(is_live_at(old(self)@.vms, cid, at as int));
                }
                r
            },
            None => Err(ErrorKind::IllegalState),
        }
    }

    /// Stops the machine with the CID `cid`.
    pub fn kill_vm(&mut self, cid: Cid) -> (r: Result<KillOutcome, ErrorKind>)
        ensures
            match r {
                Ok(outcome) => exists|at: int|
                    is_first_live(old(self)@.vms, cid, at)
                        && final(self)@ == old(self)@.with_instance(
                        at,
                        old(self)@.vms[at].instance.killed(),
                    )
                        && outcome.terminate == (old(self)@.vms[at].instance.vm_state
                        == VmState::Running) && notification_view(
                        outcome.notification,
                    ) == (if vm_is_terminal(old(self)@.vms[at].instance.vm_state) {
                        None
                    } else {
                        Some(old(self)@.vms[at].instance.death_notice(DeathReason::Killed))
                    }),
                Err(e) => !has_live(old(self)@.vms, cid) && e == ErrorKind::IllegalState
                    && final(self)@ == old(self)@,
            },
            old(self)@.unique_cids() ==> final(self)@.unique_cids(),
    {
        match self.find_live(cid) {
            Some(at) => {
                let slot = &mut self.vms[at];
                let outcome = slot.instance.kill();
                proof {
                    assert(self@.vms =~= old(self)@.with_instance(
                        at as int,
                        old(self)@.vms[at as int].instance.killed(),
                    ).vms);
                    assert(self@.debug_held_vms =~= old(self)@.debug_held_vms);
                }
                Ok(outcome)
            },
            None => Err(ErrorKind::IllegalState),
        }
    }

    /// Takes note that the process of the machine with the CID `cid` has ended.
    pub fn process_died(&mut self, cid: Cid, reason: DeathReason) -> (r: Result<
        Option<Notification>,
        ErrorKind,
    >)
        ensures
            match r {
                Ok(notification) => exists|at: int|
                    is_first_live(old(self)@.vms, cid, at)
                        && final(self)@ == old(self)@.with_instance(
                        at,
                        old(self)@.vms[at].instance.died(reason),
                    )
                        && notification_view(notification) == (if vm_is_terminal(
                        old(self)@.vms[at].instance.vm_state,
                    ) {
                        None
                    } else {
                        Some(old(self)@.vms[at].instance.death_notice(reason))
                    }),
                Err(e) => !has_live(old(self)@.vms, cid) && e == ErrorKind::IllegalState
                    && final(self)@ == old(self)@,
            },
            old(self)@.unique_cids() ==> final(self)@.unique_cids(),
    {
        match self.find_live(cid) {
            Some(at) => {
                let slot = &mut self.vms[at];
                let notification = slot.instance.process_died(reason);
                proof {
                    assert(self@.vms =~= old(self)@.with_instance(
                        at as int,
                        old(self)@.vms[at as int].instance.died(reason),
                    ).vms);
                    assert(self@.debug_held_vms =~= old(self)@.debug_held_vms);
                }
                Ok(notification)
            },
            None => Err(ErrorKind::IllegalState),
        }
    }

    /// Takes a report of the guest of the machine with the CID `cid`, and says what
    /// its listeners are to be told. The report is refused, and nothing changes, where
    /// no such machine is held, where it does not run, or where the payload would not
    /// move forward.
    pub fn handle_guest_event(&mut self, cid: Cid, event: &GuestEvent) -> (r: Result<
        Notification,
        ErrorKind,
    >)
        ensures
            match r {
                Ok(n) => exists|at: int|
                    is_first_live(old(self)@.vms, cid, at) && old(self)@.vms[at].instance.accepts(
                        reported_state(event@),
                    ) && final(self)@ == old(self)@.with_instance(
                        at,
                        old(self)@.vms[at].instance.reported(reported_state(event@)),
                    ) && n@ == (NotificationView {
                        event: reported_event(cid, event@),
                        listeners: old(self)@.vms[at].instance.callbacks,
                    }),
                Err(e) => e == ErrorKind::IllegalState && final(self)@ == old(self)@ && forall|
                    at: int,
                |
                    is_first_live(old(self)@.vms, cid, at) ==> !old(self)@.vms[at].instance.accepts(
                        reported_state(event@),
                    ),
            },
            old(self)@.unique_cids() ==> final(self)@.unique_cids(),
    {
        match self.find_live(cid) {
            Some(at) => {
                let slot = &mut self.vms[at];
                let r = slot.instance.handle_guest_event(event);
                proof {
                    assert(self@.vms =~= old(self)@.with_instance(
                        at as int,
                        old(self)@.vms[at as int].instance.reported(reported_state(event@)),
                    ).vms);
                    assert(self@.debug_held_vms =~= old(self)@.debug_held_vms);
                    if r is Err {
                        assert(self@.vms =~= old(self)@.vms);
                    }
                }
                r
            },
            None => Err(ErrorKind::IllegalState),
        }
    }

    /// Registers a listener with the machine that has the CID `cid`.
    pub fn register_callback(&mut self, cid: Cid, listener: ListenerId) -> (r: Result<
        (),
        ErrorKind,
    >)
        ensures
            match r {
                Ok(()) => exists|at: int|
                    is_first_live(old(self)@.vms, cid, at)
                        && final(self)@ == old(self)@.with_instance(
                        at,
                        VmInstanceView {
                            callbacks: old(self)@.vms[at].instance.callbacks.push(listener),
                            ..old(self)@.vms[at].instance
                        },
                    ),
                Err(e) => !has_live(old(self)@.vms, cid) && e == ErrorKind::IllegalState
                    && final(self)@ == old(self)@,
            },
            old(self)@.unique_cids() ==> final(self)@.unique_cids(),
    {
        match self.find_live(cid) {
            Some(at) => {
                let slot = &mut self.vms[at];
                slot.instance.register_callback(listener);
                proof {
                    assert(self@.vms =~= old(self)@.with_instance(
                        at as int,
                        VmInstanceView {
                            callbacks: old(self)@.vms[at as int].instance.callbacks.push(listener),
                            ..old(self)@.vms[at as int].instance
                        },
                    ).vms);
                    assert(self@.debug_held_vms =~= old(self)@.debug_held_vms);
                }
                Ok(())
            },
            None => Err(ErrorKind::IllegalState),
        }
    }

    /// Hands out the next CID and keeps it in `props` before it returns. The table
    /// is taken by exclusive reference, so that no two requests are served at once.
    pub fn next_cid(&mut self, props: &mut PropertyStore) -> (r: Result<Cid, ErrorKind>)
        ensures
            final(self)@ == old(self)@,
            match next_cid_after(old(props)@.get(SYSPROP_LAST_CID@)) {
                Some(cid) => r == Ok::<Cid, ErrorKind>(cid) && final(props)@ == old(props)@.insert(
                    SYSPROP_LAST_CID@,
                    decimal(cid as nat),
                ),
                None => r == Err::<Cid, ErrorKind>(ErrorKind::ResourceExhausted) && final(props)@
                    == old(props)@,
            },
    {
        next_cid(props)
    }
}

} // verus!
