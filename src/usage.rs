use vstd::prelude::*;
use crate::supervisor::{monitor_step, stop_step, ServerProcessState, SupervisorModel};

verus! {

/// One process as sampled from the operating system.
pub struct ProcSample {
    pub pid: u32,
    pub parent: Option<u32>,
    /// Resident memory in bytes.
    pub memory: u64,
}

/// The memory of a server's processes and which samples contributed to it.
pub struct MemoryUsage {
    /// Total memory in bytes, capped at `u64::MAX`.
    pub ram: u64,
    /// Indices of the contributing samples, in ascending order.
    pub members: Vec<usize>,
}

/// A sample counts towards the server whose process is `root`: it is that
/// process or a direct child of it.
pub open spec fn counts_for(s: ProcSample, root: u32) -> bool {
    s.pid == root || s.parent == Some(root)
}

/// The indices of the samples that count towards `root`, in ascending order.
pub open spec fn member_indices(ss: Seq<ProcSample>, root: u32) -> Seq<usize>
    decreases ss.len(),
{
    if ss.len() == 0 {
        Seq::empty()
    } else if counts_for(ss.last(), root) {
        member_indices(ss.drop_last(), root).push((ss.len() - 1) as usize)
    } else {
        member_indices(ss.drop_last(), root)
    }
}

/// The memory of the samples that count towards `root`.
pub open spec fn memory_total(ss: Seq<ProcSample>, root: u32) -> nat
    decreases ss.len(),
{
    if ss.len() == 0 {
        0
    } else if counts_for(ss.last(), root) {
        memory_total(ss.drop_last(), root) + ss.last().memory as nat
    } else {
        memory_total(ss.drop_last(), root)
    }
}

/// `n` capped at `u64::MAX`.
pub open spec fn capped(n: nat) -> u64 {
    if n <= u64::MAX { n as u64 } else { u64::MAX }
}

/// `r` is the usage of the server whose process is `root`: the process and
/// its direct children, or nothing at all when there is no process.
pub open spec fn usage_of(r: MemoryUsage, root: Option<u32>, samples: Seq<ProcSample>) -> bool {
    match root {
        Some(p) => r.members@ == member_indices(samples, p) && r.ram == capped(memory_total(samples, p)),
        None => r.ram == 0 && r.members@.len() == 0,
    }
}

/// The process id of a registered server, whose handle is a pair of its
/// process id and the process itself.
pub open spec fn usage_root<T>(m: SupervisorModel<(u32, T)>, id: Seq<char>) -> Option<u32> {
    if m.running.contains_key(id) {
        Some(m.running[id].0)
    } else {
        None
    }
}

/// The memory usage of the server whose process is `root`, summed over the
/// process and its direct children; a server without a process (`None`) uses
/// nothing. Never fails.
pub fn memory_usage(root: Option<u32>, samples: &Vec<ProcSample>) -> (r: MemoryUsage)
    ensures
        usage_of(r, root, samples@),
{
    let p = match root {
        Some(p) => p,
        None => return MemoryUsage { ram: 0, members: Vec::new() },
    };
    let mut ram: u64 = 0;
    let mut members: Vec<usize> = Vec::new();
    let mut i: usize = 0;
    while i < samples.len()
        invariant
            i <= samples@.len(),
            members@ == member_indices(samples@.take(i as int), p),
            ram == capped(memory_total(samples@.take(i as int), p)),
        decreases samples@.len() - i,
    {
        assert(samples@.take(i + 1).drop_last() =~= samples@.take(i as int));
        let s = &samples[i];
        let counted = s.pid == p || match s.parent {
            Some(q) => q == p,
            None => false,
        };
        if counted {
            members.push(i);
            if ram > u64::MAX - s.memory {
                ram = u64::MAX;
            } else {
                ram = ram + s.memory;
            }
        }
        i = i + 1;
    }
    assert(samples@.take(samples@.len() as int) =~= samples@);
    MemoryUsage { ram, members }
}

/// The memory usage of server `id`: zero while it has no live process.
pub fn server_usage<T>(state: &ServerProcessState<(u32, T)>, id: &String, samples: &Vec<ProcSample>) -> (r:
    MemoryUsage)
    requires
        state.wf(),
    ensures
        usage_of(r, usage_root(state@, id@), samples@),
{
    let root = match state.handle(id) {
        Some(h) => Some(h.0),
        None => None,
    };
    memory_usage(root, samples)
}

/// Once a stop or an observed exit has taken a server's process out of the
/// registry, its usage is zero, whatever the process table holds.
pub proof fn usage_is_zero_after_removal<T>(
    m: SupervisorModel<(u32, T)>,
    id: Seq<char>,
    r: MemoryUsage,
    samples: Seq<ProcSample>,
)
    requires
        m.running.contains_key(id),
        usage_of(r, usage_root(stop_step(m, id).1, id), samples)
            || usage_of(r, usage_root(monitor_step(m, id, true).1, id), samples),
    ensures
        r.ram == 0,
        r.members@.len() == 0,
{
}

} // verus!
