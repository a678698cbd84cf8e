//! The policy and the decisions taken with it: approval of a mount, the sweep over
//! mounted volumes, and which power events call for a sweep.

use vstd::prelude::*;

use crate::db_uuid::DbUuid;
use crate::disk::{Disk, ResolutionError};
use crate::dissenter::Dissenter;
use crate::mach::DA_RETURN_EXCLUSIVE_ACCESS;
use crate::system_events::PowerEvent;

verus! {

/// The reason every dissent of the gatekeeper carries.
pub const BLOCK_REASON: &'static str = "blocked by diskblock";

/// The UUIDs of the volumes that may not be mounted.
#[derive(Clone, Debug)]
pub struct Policy {
    pub blocked: Vec<DbUuid>,
}

/// The UUID blocked by the built-in policy, `49D00007-FF63-36B9-9D69-6B3BE16866BB`.
pub open spec fn msi_monitor_bytes() -> Seq<u8> {
    seq![
        0x49u8, 0xD0, 0x00, 0x07, 0xFF, 0x63, 0x36, 0xB9,
        0x9D, 0x69, 0x6B, 0x3B, 0xE1, 0x68, 0x66, 0xBB,
    ]
}

impl Policy {
    /// Whether the policy blocks the volume with UUID `uuid`.
    pub open spec fn blocks(&self, uuid: Seq<u8>) -> bool {
        exists|i: int| 0 <= i < self.blocked@.len() && (#[trigger] self.blocked@[i])@ == uuid
    }

    /// A policy that blocks exactly the given UUIDs.
    pub fn new(blocked: Vec<DbUuid>) -> (r: Policy)
        ensures
            r.blocked@ == blocked@,
    {
        Policy { blocked }
    }

    /// The built-in policy: it blocks the one UUID of `msi_monitor_bytes`.
    pub fn builtin() -> (r: Policy)
        ensures
            forall|u: Seq<u8>| r.blocks(u) <==> u == msi_monitor_bytes(),
    {
        let uuid = DbUuid::from_bytes(
            [
                0x49, 0xD0, 0x00, 0x07, 0xFF, 0x63, 0x36, 0xB9,
                0x9D, 0x69, 0x6B, 0x3B, 0xE1, 0x68, 0x66, 0xBB,
            ],
        );
        let mut blocked: Vec<DbUuid> = Vec::new();
        blocked.push(uuid);
        let r = Policy { blocked };
        assert(uuid@ =~= msi_monitor_bytes());
        assert forall|u: Seq<u8>| r.blocks(u) <==> u == msi_monitor_bytes() by {
            if u == msi_monitor_bytes() {
                assert(r.blocked@[0]@ == u);
            }
        }
        r
    }

    /// Whether the volume with UUID `uuid` is blocked.
    pub fn is_disk_blocked(&self, uuid: &DbUuid) -> (r: bool)
        ensures
            r == self.blocks(uuid@),
    {
        let mut i: usize = 0;
        while i < self.blocked.len()
            invariant
                i <= self.blocked@.len(),
                forall|j: int| 0 <= j < i ==> (#[trigger] self.blocked@[j])@ != uuid@,
            decreases self.blocked@.len() - i,
        {
            if self.blocked[i] == *uuid {
                return true;
            }
            i = i + 1;
        }
        false
    }
}

/// `r` is the gatekeeper's answer to a mount of `disk`: a dissent with the block
/// reason exactly when the policy blocks the disk's UUID.
pub open spec fn mount_answer(policy: Policy, disk: Disk, r: Option<Dissenter>) -> bool {
    match r {
        Some(d) => policy.blocks(disk.uuid@) && d.status == DA_RETURN_EXCLUSIVE_ACCESS
            && d.reason@ == BLOCK_REASON@,
        None => !policy.blocks(disk.uuid@),
    }
}

/// Decides a mount attempt of a resolved disk: a dissent with the block reason exactly
/// when the policy blocks its UUID, nothing otherwise. The answer depends on the UUID
/// alone.
pub fn evaluate_for_mount(policy: &Policy, disk: &Disk) -> (r: Option<Dissenter>)
    ensures
        mount_answer(*policy, *disk, r),
{
    if policy.is_disk_blocked(&disk.uuid) {
        Some(Dissenter::new(BLOCK_REASON))
    } else {
        None
    }
}

/// Decides a mount attempt from the outcome of resolving the disk. A disk that could
/// not be resolved is allowed: uncertainty never blocks.
pub fn approve_mount(policy: &Policy, resolution: &Result<Disk, ResolutionError>) -> (r: Option<
    Dissenter,
>)
    ensures
        match resolution {
            Ok(disk) => mount_answer(*policy, *disk, r),
            Err(_) => r is None,
        },
{
    match resolution {
        Ok(disk) => evaluate_for_mount(policy, disk),
        Err(_) => None,
    }
}

/// A mounted volume that a sweep unmounts: resolved, and blocked by the policy.
pub open spec fn is_sweep_target(policy: Policy, entry: Result<Disk, ResolutionError>) -> bool {
    entry matches Ok(disk) && policy.blocks(disk.uuid@)
}

/// The positions, in increasing order, of the sweep targets among `mounted`.
pub open spec fn sweep_plan(policy: Policy, mounted: Seq<Result<Disk, ResolutionError>>) -> Seq<
    int,
>
    decreases mounted.len(),
{
    if mounted.len() == 0 {
        Seq::empty()
    } else {
        let earlier = sweep_plan(policy, mounted.drop_last());
        if is_sweep_target(policy, mounted.last()) {
            earlier.push(mounted.len() - 1)
        } else {
            earlier
        }
    }
}

/// A position is in the sweep plan exactly when the volume there is a sweep target;
/// the plan lists each position once, in increasing order.
pub proof fn lemma_sweep_plan_exact(policy: Policy, mounted: Seq<Result<Disk, ResolutionError>>)
    ensures
        forall|i: int|
            #![trigger sweep_plan(policy, mounted).contains(i)]
            #![trigger mounted[i]]
            sweep_plan(policy, mounted).contains(i) <==> 0 <= i < mounted.len()
                && is_sweep_target(policy, mounted[i]),
        forall|a: int, b: int|
            0 <= a < b < sweep_plan(policy, mounted).len() ==> sweep_plan(policy, mounted)[a]
                < sweep_plan(policy, mounted)[b],
    decreases mounted.len(),
{
    if mounted.len() > 0 {
        let earlier = mounted.drop_last();
        let before = sweep_plan(policy, earlier);
        let plan = sweep_plan(policy, mounted);
        let n = mounted.len() - 1;
        lemma_sweep_plan_exact(policy, earlier);
        assert forall|i: int|
            #![trigger plan.contains(i)]
            #![trigger mounted[i]]
            plan.contains(i) <==> 0 <= i < mounted.len() && is_sweep_target(policy, mounted[i]) by {
            if 0 <= i < n {
                assert(earlier[i] == mounted[i]);
            }
            if !is_sweep_target(policy, mounted.last()) {
                assert(plan == before);
                if i == n {
                    assert(!before.contains(i));
                }
            } else {
                assert(plan == before.push(n));
                if plan.contains(i) {
                    let k = choose|k: int| 0 <= k < plan.len() && plan[k] == i;
                    if k < before.len() {
                        assert(before[k] == i);
                        assert(before.contains(i));
                    }
                }
                if before.contains(i) {
                    let k = choose|k: int| 0 <= k < before.len() && before[k] == i;
                    assert(plan[k] == i);
                }
                if i == n {
                    assert(plan[before.len() as int] == i);
                }
            }
        }
        if is_sweep_target(policy, mounted.last()) {
            assert forall|a: int, b: int| 0 <= a < b < plan.len() implies plan[a] < plan[b] by {
                if b == before.len() {
                    assert(before.contains(plan[a]));
                }
            }
        }
    }
}

/// Sweeping twice with no mount or unmount in between unmounts the same volumes both
/// times: the two snapshots agree, so the two plans agree, and each is exactly the
/// resolved volumes that the policy blocks.
pub proof fn lemma_sweep_repeatable(
    policy: Policy,
    first: Seq<Result<Disk, ResolutionError>>,
    second: Seq<Result<Disk, ResolutionError>>,
)
    requires
        first == second,
    ensures
        sweep_plan(policy, first) == sweep_plan(policy, second),
        forall|i: int|
            #![trigger sweep_plan(policy, second).contains(i)]
            #![trigger first[i]]
            sweep_plan(policy, second).contains(i) <==> 0 <= i < first.len()
                && is_sweep_target(policy, first[i]),
{
    lemma_sweep_plan_exact(policy, second);
}

/// Plans a sweep: the positions of the mounted volumes to unmount, in order. A
/// volume that could not be resolved is passed over, and the others are still swept.
pub fn unmount_if_mounted(policy: &Policy, mounted: &Vec<Result<Disk, ResolutionError>>) -> (r:
    Vec<usize>)
    ensures
        r@.map_values(|i: usize| i as int) == sweep_plan(*policy, mounted@),
{
    let mut r: Vec<usize> = Vec::new();
    let mut i: usize = 0;
    while i < mounted.len()
        invariant
            i <= mounted@.len(),
            r@.map_values(|k: usize| k as int) == sweep_plan(*policy, mounted@.subrange(0, i as int)),
        decreases mounted@.len() - i,
    {
        let ghost before = r@;
        proof {
            assert(mounted@.subrange(0, i + 1).drop_last() =~= mounted@.subrange(0, i as int));
        }
        let blocked = match &mounted[i] {
            Ok(disk) => policy.is_disk_blocked(&disk.uuid),
            Err(_) => false,
        };
        if blocked {
            r.push(i);
            assert(r@.map_values(|k: usize| k as int) =~= before.map_values(|k: usize| k as int).push(
                i as int,
            ));
        }
        i = i + 1;
    }
    assert(mounted@.subrange(0, mounted@.len() as int) =~= mounted@);
    r
}

/// Whether a power event calls for a sweep: only once the machine is waking or awake.
pub fn sweeps_after(event: &PowerEvent) -> (r: bool)
    ensures
        r == (*event is WillPowerOn || *event is HasPoweredOn),
{
    match event {
        PowerEvent::WillPowerOn | PowerEvent::HasPoweredOn => true,
        _ => false,
    }
}

} // verus!
