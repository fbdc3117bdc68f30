use vstd::prelude::*;

verus! {

/// `pids` without any occurrence of `pid`, order kept.
pub open spec fn spec_without(pids: Seq<u32>, pid: u32) -> Seq<u32>
    decreases pids.len(),
{
    if pids.len() == 0 {
        Seq::empty()
    } else if pids.last() == pid {
        spec_without(pids.drop_last(), pid)
    } else {
        spec_without(pids.drop_last(), pid).push(pids.last())
    }
}

/// The ids of every live external process spawned by any operation, so
/// that they can all be force-terminated on cancellation or shutdown.
pub struct ProcessRegistry {
    pids: Vec<u32>,
}

impl View for ProcessRegistry {
    type V = Seq<u32>;

    closed spec fn view(&self) -> Seq<u32> {
        self.pids@
    }
}

impl ProcessRegistry {
    /// An empty registry.
    pub fn new() -> (r: ProcessRegistry)
        ensures
            r@ == Seq::<u32>::empty(),
    {
        ProcessRegistry { pids: Vec::new() }
    }

    /// Empties the registry and hands back every id it held, in order of
    /// registration, for termination.
    pub fn take_all(&mut self) -> (r: Vec<u32>)
        ensures
            r@ == old(self)@,
            final(self)@ == Seq::<u32>::empty(),
    {
        let mut out: Vec<u32> = Vec::new();
        std::mem::swap(&mut out, &mut self.pids);
        out
    }

    /// The ids currently registered.
    pub fn pids(&self) -> (r: &Vec<u32>)
        ensures
            r@ == self@,
    {
        &self.pids
    }
}

/// Records a freshly spawned process.
pub fn register_pid(registry: &mut ProcessRegistry, pid: u32)
    ensures
        final(registry)@ == old(registry)@.push(pid),
{
    registry.pids.push(pid);
}

/// Forgets a process that has been reaped.
pub fn unregister_pid(registry: &mut ProcessRegistry, pid: u32)
    ensures
        final(registry)@ == spec_without(old(registry)@, pid),
{
    let ghost old_pids = registry.pids@;
    let mut kept: Vec<u32> = Vec::new();
    let mut i: usize = 0;
    while i < registry.pids.len()
        invariant
            registry.pids@ == old_pids,
            i <= old_pids.len(),
            kept@ == spec_without(old_pids.subrange(0, i as int), pid),
        decreases old_pids.len() - i,
    {
        let p = registry.pids[i];
        assert(old_pids.subrange(0, i + 1).drop_last() =~= old_pids.subrange(0, i as int));
        if p != pid {
            kept.push(p);
        }
        i = i + 1;
    }
    assert(old_pids.subrange(0, old_pids.len() as int) =~= old_pids);
    registry.pids = kept;
}

} // verus!
