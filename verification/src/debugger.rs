//! Memory breakpoints: watch addresses for reads or writes and pause.

use vstd::prelude::*;

verus! {

/// The conditions under which a watched address pauses execution.
#[derive(Clone, Copy, Debug, PartialEq, Eq, Structural)]
pub struct Breakpoint {
    pub on_read: bool,
    pub on_write: bool,
}

impl Breakpoint {
    pub fn on_read() -> (r: Breakpoint)
        ensures
            r.on_read && !r.on_write,
    {
        Breakpoint { on_read: true, on_write: false }
    }

    pub fn on_write() -> (r: Breakpoint)
        ensures
            !r.on_read && r.on_write,
    {
        Breakpoint { on_read: false, on_write: true }
    }

    pub fn on_rw() -> (r: Breakpoint)
        ensures
            r.on_read && r.on_write,
    {
        Breakpoint { on_read: true, on_write: true }
    }
}

/// Snapshot of the debugger for save states.
pub struct DebuggerState {
    pub breakpoints: Vec<(u16, Breakpoint)>,
    pub paused: bool,
}

/// Breakpoint table plus the pause flag the emulation loop polls.
pub struct Debugger {
    pub breakpoints: Vec<(u16, Breakpoint)>,
    pub paused: bool,
}

/// The first breakpoint registered for `addr`, if any.
pub open spec fn bp_lookup(bps: Seq<(u16, Breakpoint)>, addr: u16) -> Option<Breakpoint>
    decreases bps.len(),
{
    if bps.len() == 0 {
        None
    } else if bps[0].0 == addr {
        Some(bps[0].1)
    } else {
        bp_lookup(bps.skip(1), addr)
    }
}

/// Each address is registered at most once.
pub open spec fn bp_unique(bps: Seq<(u16, Breakpoint)>) -> bool {
    forall|i: int, j: int| 0 <= i < j < bps.len() ==> (#[trigger] bps[i]).0 != (#[trigger] bps[j]).0
}

impl Debugger {
    pub fn new() -> (r: Debugger)
        ensures
            r.breakpoints@.len() == 0,
            !r.paused,
    {
        Debugger { breakpoints: Vec::new(), paused: false }
    }

    /// Position of the first entry for `addr` in the table, if present.
    fn find(&self, addr: u16) -> (r: Option<usize>)
        ensures
            r matches Some(i) ==> i < self.breakpoints@.len() && self.breakpoints@[i as int].0
                == addr && forall|j: int|
                0 <= j < i ==> (#[trigger] self.breakpoints@[j]).0 != addr,
            r is None ==> forall|i: int|
                0 <= i < self.breakpoints@.len() ==> (#[trigger] self.breakpoints@[i]).0 != addr,
    {
        let mut i: usize = 0;
        while i < self.breakpoints.len()
            invariant
                i <= self.breakpoints@.len(),
                forall|j: int| 0 <= j < i ==> (#[trigger] self.breakpoints@[j]).0 != addr,
            decreases self.breakpoints@.len() - i,
        {
            if self.breakpoints[i].0 == addr {
                return Some(i);
            }
            i += 1;
        }
        None
    }

    /// Register (or replace) the breakpoint at `addr`.
    pub fn add_breakpoint(&mut self, addr: u16, bp: Breakpoint)
        requires
            bp_unique(old(self).breakpoints@),
        ensures
            bp_unique(final(self).breakpoints@),
            bp_lookup(final(self).breakpoints@, addr) == Some(bp),
            forall|a: u16|
                a != addr ==> #[trigger] bp_lookup(final(self).breakpoints@, a) == bp_lookup(
                    old(self).breakpoints@,
                    a,
                ),
            final(self).paused == old(self).paused,
    {
        match self.find(addr) {
            Some(i) => {
                self.breakpoints[i] = (addr, bp);
                proof {
                    lemma_bp_lookup_index(old(self).breakpoints@, i as int);
                    assert forall|a: u16| a != addr implies #[trigger] bp_lookup(
                        self.breakpoints@,
                        a,
                    ) == bp_lookup(old(self).breakpoints@, a) by {
                        lemma_bp_lookup_update(old(self).breakpoints@, i as int, (addr, bp), a);
                    };
                    lemma_bp_lookup_update_hit(old(self).breakpoints@, i as int, (addr, bp));
                }
            }
            None => {
                self.breakpoints.push((addr, bp));
                proof {
                    lemma_bp_lookup_push(old(self).breakpoints@, (addr, bp));
                }
            }
        }
    }

    /// Drop the breakpoint at `addr`, returning it if one was set.
    pub fn remove_breakpoint(&mut self, addr: u16) -> (r: Option<Breakpoint>)
        requires
            bp_unique(old(self).breakpoints@),
        ensures
            bp_unique(final(self).breakpoints@),
            r == bp_lookup(old(self).breakpoints@, addr),
            bp_lookup(final(self).breakpoints@, addr) is None,
            forall|a: u16|
                a != addr ==> #[trigger] bp_lookup(final(self).breakpoints@, a) == bp_lookup(
                    old(self).breakpoints@,
                    a,
                ),
            final(self).paused == old(self).paused,
    {
        match self.find(addr) {
            Some(i) => {
                let bp = self.breakpoints[i].1;
                self.breakpoints.remove(i);
                proof {
                    lemma_bp_lookup_index(old(self).breakpoints@, i as int);
                    lemma_bp_lookup_remove(old(self).breakpoints@, i as int);
                }
                Some(bp)
            }
            None => {
                proof {
                    lemma_bp_lookup_absent(self.breakpoints@, addr);
                }
                None
            }
        }
    }

    /// The addresses currently watched.
    pub fn get_breakpoints(&self) -> (r: Vec<u16>)
        ensures
            r@ == self.breakpoints@.map_values(|e: (u16, Breakpoint)| e.0),
    {
        let mut out: Vec<u16> = Vec::new();
        let mut i: usize = 0;
        while i < self.breakpoints.len()
            invariant
                i <= self.breakpoints@.len(),
                out@ == self.breakpoints@.take(i as int).map_values(|e: (u16, Breakpoint)| e.0),
            decreases self.breakpoints@.len() - i,
        {
            out.push(self.breakpoints[i].0);
            proof {
                assert(self.breakpoints@.take(i + 1).map_values(|e: (u16, Breakpoint)| e.0)
                    =~= self.breakpoints@.take(i as int).map_values(
                    |e: (u16, Breakpoint)| e.0,
                ).push(self.breakpoints@[i as int].0));
            }
            i += 1;
        }
        proof {
            assert(self.breakpoints@.take(self.breakpoints@.len() as int) =~= self.breakpoints@);
        }
        out
    }

    /// Pause if `addr` is watched for reads; called before the bus read happens.
    pub fn check_read(&mut self, addr: u16)
        ensures
            final(self).breakpoints == old(self).breakpoints,
            final(self).paused == (old(self).paused || (bp_lookup(old(self).breakpoints@, addr)
                matches Some(bp) && bp.on_read)),
    {
        match self.find(addr) {
            Some(i) => {
                proof {
                    lemma_bp_lookup_first(self.breakpoints@, i as int, addr);
                }
                if self.breakpoints[i].1.on_read {
                    self.paused = true;
                }
            }
            None => {
                proof {
                    lemma_bp_lookup_absent(self.breakpoints@, addr);
                }
            }
        }
    }

    /// Pause if `addr` is watched for writes; called before the bus write happens.
    pub fn check_write(&mut self, addr: u16, _value: u8)
        ensures
            final(self).breakpoints == old(self).breakpoints,
            final(self).paused == (old(self).paused || (bp_lookup(old(self).breakpoints@, addr)
                matches Some(bp) && bp.on_write)),
    {
        match self.find(addr) {
            Some(i) => {
                proof {
                    lemma_bp_lookup_first(self.breakpoints@, i as int, addr);
                }
                if self.breakpoints[i].1.on_write {
                    self.paused = true;
                }
            }
            None => {
                proof {
                    lemma_bp_lookup_absent(self.breakpoints@, addr);
                }
            }
        }
    }

    pub fn save_state(&self) -> (r: DebuggerState)
        ensures
            r.breakpoints@ == self.breakpoints@,
            r.paused == self.paused,
    {
        DebuggerState { breakpoints: copy_entries(&self.breakpoints), paused: self.paused }
    }

    pub fn load_state(&mut self, state: &DebuggerState)
        ensures
            final(self).breakpoints@ == state.breakpoints@,
            final(self).paused == state.paused,
    {
        self.breakpoints = copy_entries(&state.breakpoints);
        self.paused = state.paused;
    }
}

/// Element-wise copy of the breakpoint table; entries are plain values.
fn copy_entries(v: &Vec<(u16, Breakpoint)>) -> (r: Vec<(u16, Breakpoint)>)
    ensures
        r@ == v@,
{
    let mut out: Vec<(u16, Breakpoint)> = Vec::new();
    let mut i: usize = 0;
    while i < v.len()
        invariant
            i <= v@.len(),
            out@ == v@.take(i as int),
        decreases v@.len() - i,
    {
        out.push(v[i]);
        assert(out@ =~= v@.take(i + 1));
        i += 1;
    }
    assert(v@.take(v@.len() as int) =~= v@);
    out
}

/// In a table whose prefix misses `addr` but whose entry `i` hits it,
/// the lookup returns entry `i`.
proof fn lemma_bp_lookup_first(bps: Seq<(u16, Breakpoint)>, i: int, addr: u16)
    requires
        0 <= i < bps.len(),
        bps[i].0 == addr,
        forall|j: int| 0 <= j < i ==> (#[trigger] bps[j]).0 != addr,
    ensures
        bp_lookup(bps, addr) == Some(bps[i].1),
    decreases i,
{
    if i == 0 {
    } else {
        lemma_bp_lookup_first(bps.skip(1), i - 1, addr);
    }
}

/// Looking up the key of entry `i` in a unique table finds entry `i`.
proof fn lemma_bp_lookup_index(bps: Seq<(u16, Breakpoint)>, i: int)
    requires
        bp_unique(bps),
        0 <= i < bps.len(),
    ensures
        bp_lookup(bps, bps[i].0) == Some(bps[i].1),
{
    lemma_bp_lookup_first(bps, i, bps[i].0);
}

/// A key absent from the table looks up to nothing.
proof fn lemma_bp_lookup_absent(bps: Seq<(u16, Breakpoint)>, addr: u16)
    requires
        forall|j: int| 0 <= j < bps.len() ==> (#[trigger] bps[j]).0 != addr,
    ensures
        bp_lookup(bps, addr) is None,
    decreases bps.len(),
{
    if bps.len() > 0 {
        lemma_bp_lookup_absent(bps.skip(1), addr);
    }
}

/// Replacing entry `i` leaves lookups of other keys unchanged.
proof fn lemma_bp_lookup_update(
    bps: Seq<(u16, Breakpoint)>,
    i: int,
    e: (u16, Breakpoint),
    a: u16,
)
    requires
        0 <= i < bps.len(),
        a != e.0,
        a != bps[i].0,
    ensures
        bp_lookup(bps.update(i, e), a) == bp_lookup(bps, a),
    decreases i,
{
    if i == 0 {
        assert(bps.update(0, e).skip(1) =~= bps.skip(1));
    } else {
        assert(bps.update(i, e).skip(1) =~= bps.skip(1).update(i - 1, e));
        lemma_bp_lookup_update(bps.skip(1), i - 1, e, a);
    }
}

/// Replacing entry `i` with an entry of the same key makes that key look up
/// to the new entry, when the prefix does not shadow it.
proof fn lemma_bp_lookup_update_hit(bps: Seq<(u16, Breakpoint)>, i: int, e: (u16, Breakpoint))
    requires
        bp_unique(bps),
        0 <= i < bps.len(),
        e.0 == bps[i].0,
    ensures
        bp_lookup(bps.update(i, e), e.0) == Some(e.1),
{
    lemma_bp_lookup_first(bps.update(i, e), i, e.0);
}

/// Appending a fresh entry adds exactly that key.
proof fn lemma_bp_lookup_push(bps: Seq<(u16, Breakpoint)>, e: (u16, Breakpoint))
    requires
        forall|j: int| 0 <= j < bps.len() ==> (#[trigger] bps[j]).0 != e.0,
    ensures
        bp_lookup(bps.push(e), e.0) == Some(e.1),
        forall|a: u16| a != e.0 ==> #[trigger] bp_lookup(bps.push(e), a) == bp_lookup(bps, a),
        bp_unique(bps.push(e)) <== bp_unique(bps),
    decreases bps.len(),
{
    lemma_bp_lookup_first(bps.push(e), bps.len() as int, e.0);
    assert forall|a: u16| a != e.0 implies #[trigger] bp_lookup(bps.push(e), a) == bp_lookup(
        bps,
        a,
    ) by {
        lemma_bp_lookup_push_other(bps, e, a);
    };
    if bp_unique(bps) {
        assert forall|i: int, j: int| 0 <= i < j < bps.push(e).len() implies (#[trigger] bps.push(
            e,
        )[i]).0 != (#[trigger] bps.push(e)[j]).0 by {
            if j < bps.len() {
                assert(bps[i].0 != bps[j].0);
            } else {
                assert(bps.push(e)[j] == e);
                assert(bps[i].0 != e.0);
            }
        };
    }
}

proof fn lemma_bp_lookup_push_other(bps: Seq<(u16, Breakpoint)>, e: (u16, Breakpoint), a: u16)
    requires
        a != e.0,
    ensures
        bp_lookup(bps.push(e), a) == bp_lookup(bps, a),
    decreases bps.len(),
{
    assert(bps.push(e)[0] == if bps.len() == 0 { e } else { bps[0] });
    if bps.len() == 0 {
        assert(bps.push(e).skip(1) =~= Seq::<(u16, Breakpoint)>::empty());
        assert(bp_lookup(Seq::<(u16, Breakpoint)>::empty(), a) is None);
    } else {
        assert(bps.push(e).skip(1) =~= bps.skip(1).push(e));
        lemma_bp_lookup_push_other(bps.skip(1), e, a);
    }
}

/// Removing entry `i` of a unique table removes exactly its key.
proof fn lemma_bp_lookup_remove(bps: Seq<(u16, Breakpoint)>, i: int)
    requires
        bp_unique(bps),
        0 <= i < bps.len(),
    ensures
        bp_unique(bps.remove(i)),
        bp_lookup(bps.remove(i), bps[i].0) is None,
        forall|a: u16|
            a != bps[i].0 ==> #[trigger] bp_lookup(bps.remove(i), a) == bp_lookup(bps, a),
{
    assert forall|k: int, l: int| 0 <= k < l < bps.remove(i).len() implies (#[trigger] bps.remove(
        i,
    )[k]).0 != (#[trigger] bps.remove(i)[l]).0 by {
        let k0 = if k < i { k } else { k + 1 };
        let l0 = if l < i { l } else { l + 1 };
        assert(bps.remove(i)[k] == bps[k0]);
        assert(bps.remove(i)[l] == bps[l0]);
        assert(bps[k0].0 != bps[l0].0);
    };
    assert forall|k: int| 0 <= k < bps.remove(i).len() implies (#[trigger] bps.remove(i)[k]).0
        != bps[i].0 by {
        let k0 = if k < i { k } else { k + 1 };
        assert(bps.remove(i)[k] == bps[k0]);
    };
    lemma_bp_lookup_absent(bps.remove(i), bps[i].0);
    assert forall|a: u16| a != bps[i].0 implies #[trigger] bp_lookup(bps.remove(i), a)
        == bp_lookup(bps, a) by {
        lemma_bp_lookup_remove_other(bps, i, a);
    };
}

/// Removing entry `i` leaves lookups of other keys unchanged.
proof fn lemma_bp_lookup_remove_other(bps: Seq<(u16, Breakpoint)>, i: int, a: u16)
    requires
        0 <= i < bps.len(),
        a != bps[i].0,
    ensures
        bp_lookup(bps.remove(i), a) == bp_lookup(bps, a),
    decreases i,
{
    if i == 0 {
        assert(bps.remove(0) =~= bps.skip(1));
    } else {
        assert(bps.remove(i)[0] == bps[0]);
        if bps[0].0 == a {
        } else {
            assert(bps.remove(i).skip(1) =~= bps.skip(1).remove(i - 1));
            lemma_bp_lookup_remove_other(bps.skip(1), i - 1, a);
        }
    }
}

} // verus!
