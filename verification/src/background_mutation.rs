//! Exact, non-blocking compatibility guards for native UI mutations.
//!
//! A target-scoped AX mutation may overlap another target in the same process.
//! Keyboard, pointer, focus, and menu recipes are process-scoped and therefore
//! conflict with every mutation in that process. Conflicts are refused before
//! dispatch rather than queued: a delayed action would execute against state
//! the caller did not observe.
use vstd::prelude::*;

use crate::text::{push_decimal, push_signed_decimal};
use crate::text;

verus! {

/// One compatibility domain of native UI mutations.
#[derive(Clone, Copy, Debug, PartialEq, Eq, Hash, Structural)]
pub enum DispatchScope {
    Target { pid: i32, window_id: u32 },
    Process(i32),
    /// Reserved for recipes that genuinely mutate global desktop state.
    Desktop,
}

impl DispatchScope {
    /// Two scopes conflict when some native window lies in both: the desktop
    /// holds every window, a process holds its own windows, a target is one.
    pub open spec fn covers(self, window_pid: i32, window: u32) -> bool {
        match self {
            DispatchScope::Desktop => true,
            DispatchScope::Process(pid) => pid == window_pid,
            DispatchScope::Target { pid, window_id } => pid == window_pid && window_id == window,
        }
    }

    pub open spec fn conflicts(self, other: DispatchScope) -> bool {
        exists|pid: i32, window: u32| #[trigger]
            self.covers(pid, window) && other.covers(pid, window)
    }

    pub fn conflicts_with(self, other: DispatchScope) -> (conflict: bool)
        ensures
            conflict == self.conflicts(other),
    {
        match (self, other) {
            (DispatchScope::Desktop, _) => {
                proof {
                    let (pid, window): (i32, u32) = match other {
                        DispatchScope::Desktop => (0i32, 0u32),
                        DispatchScope::Process(pid) => (pid, 0u32),
                        DispatchScope::Target { pid, window_id } => (pid, window_id),
                    };
                    assert(self.covers(pid, window) && other.covers(pid, window));
                }
                true
            },
            (DispatchScope::Process(left), DispatchScope::Desktop) => {
                assert(self.covers(left, 0u32) && other.covers(left, 0u32));
                true
            },
            (DispatchScope::Target { pid, window_id }, DispatchScope::Desktop) => {
                assert(self.covers(pid, window_id) && other.covers(pid, window_id));
                true
            },
            (DispatchScope::Process(left), DispatchScope::Process(right)) => {
                assert(self.covers(left, 0u32));
                left == right
            },
            (DispatchScope::Process(left), DispatchScope::Target { pid, window_id }) => {
                assert(self.covers(left, window_id));
                left == pid
            },
            (DispatchScope::Target { pid, window_id }, DispatchScope::Process(right)) => {
                assert(self.covers(pid, window_id));
                pid == right
            },
            (
                DispatchScope::Target { pid: left_pid, window_id: left_window },
                DispatchScope::Target { pid: right_pid, window_id: right_window },
            ) => {
                assert(self.covers(left_pid, left_window));
                left_pid == right_pid && left_window == right_window
            },
        }
    }

    pub fn kind(self) -> (name: &'static str)
        ensures
            name@ == match self {
                DispatchScope::Target { .. } => "target"@,
                DispatchScope::Process(_) => "process"@,
                DispatchScope::Desktop => "desktop"@,
            },
    {
        match self {
            DispatchScope::Target { .. } => "target",
            DispatchScope::Process(_) => "process",
            DispatchScope::Desktop => "desktop",
        }
    }

    pub open spec fn identity_text(self) -> Seq<char> {
        match self {
            DispatchScope::Target { pid, window_id } => text::signed_decimal(pid as int) + seq![':']
                + text::decimal(window_id as nat),
            DispatchScope::Process(pid) => text::signed_decimal(pid as int),
            DispatchScope::Desktop => "desktop"@,
        }
    }

    pub fn identity(self) -> (name: String)
        ensures
            name@ == self.identity_text(),
    {
        match self {
            DispatchScope::Target { pid, window_id } => {
                let mut name: String = String::new();
                push_signed_decimal(&mut name, pid as i64);
                name.push(':');
                push_decimal(&mut name, window_id as u64);
                assert(name@ =~= self.identity_text());
                name
            },
            DispatchScope::Process(pid) => {
                let mut name: String = String::new();
                push_signed_decimal(&mut name, pid as i64);
                assert(name@ =~= self.identity_text());
                name
            },
            DispatchScope::Desktop => "desktop".to_owned(),
        }
    }
}

/// Every scope conflicts with itself, so one scope is never held twice.
pub proof fn scope_conflicts_with_itself(scope: DispatchScope)
    ensures
        scope.conflicts(scope),
{
    let (pid, window): (i32, u32) = match scope {
        DispatchScope::Desktop => (0i32, 0u32),
        DispatchScope::Process(pid) => (pid, 0u32),
        DispatchScope::Target { pid, window_id } => (pid, window_id),
    };
    assert(scope.covers(pid, window));
}

/// A mutation of a whole process conflicts with every mutation in that process,
/// and with none of another one.
pub proof fn a_process_mutation_excludes_its_process(pid: i32, window_id: u32, other: i32)
    ensures
        DispatchScope::Process(pid).conflicts(DispatchScope::Process(other)) == (pid == other),
        DispatchScope::Process(pid).conflicts((DispatchScope::Target { pid: other, window_id }))
            == (pid == other),
        DispatchScope::Process(pid).conflicts(DispatchScope::Desktop),
{
    assert(DispatchScope::Process(pid).covers(pid, window_id));
    assert((DispatchScope::Target { pid: other, window_id }).covers(other, window_id));
    assert(DispatchScope::Process(other).covers(other, window_id));
    assert(DispatchScope::Desktop.covers(pid, window_id));
}

/// Mutations of different windows may overlap, also in one process.
pub proof fn targets_of_one_process_overlap(pid: i32, left: u32, right: u32)
    ensures
        (DispatchScope::Target { pid, window_id: left }).conflicts(
            (DispatchScope::Target { pid, window_id: right }),
        ) == (left == right),
{
    assert((DispatchScope::Target { pid, window_id: left }).covers(pid, left));
}

/// A conflict does not depend on which of the two scopes is already held.
pub proof fn conflict_is_symmetric(left: DispatchScope, right: DispatchScope)
    ensures
        left.conflicts(right) == right.conflicts(left),
{
    if left.conflicts(right) {
        let (pid, window) = choose|pid: i32, window: u32| #[trigger]
            left.covers(pid, window) && right.covers(pid, window);
        assert(right.covers(pid, window) && left.covers(pid, window));
    }
    if right.conflicts(left) {
        let (pid, window) = choose|pid: i32, window: u32| #[trigger]
            right.covers(pid, window) && left.covers(pid, window);
        assert(left.covers(pid, window) && right.covers(pid, window));
    }
}

/// A refused acquisition: what was asked for, and a held scope in its way.
#[derive(Clone, Copy, Debug, PartialEq, Eq, Structural)]
pub struct DispatchConflict {
    pub requested: DispatchScope,
    pub held: DispatchScope,
}

/// Ownership of one registered native dispatch scope.
#[derive(Debug, PartialEq, Eq, Structural)]
pub struct DispatchPermit {
    scope: DispatchScope,
}

impl DispatchPermit {
    /// The scope that the permit owns.
    pub closed spec fn owned(&self) -> DispatchScope {
        self.scope
    }

    pub fn scope(&self) -> (scope: DispatchScope)
        ensures
            scope == self.owned(),
    {
        self.scope
    }
}

/// The scopes that native dispatches hold at one moment.
#[derive(Debug)]
pub struct DispatchRegistry {
    active: Vec<DispatchScope>,
}

impl View for DispatchRegistry {
    type V = Set<DispatchScope>;

    closed spec fn view(&self) -> Set<DispatchScope> {
        self.active@.to_set()
    }
}

/// No two different held scopes conflict.
pub open spec fn compatible(held: Set<DispatchScope>) -> bool {
    forall|left: DispatchScope, right: DispatchScope|
        held.contains(left) && held.contains(right) && left != right ==> !#[trigger] left.conflicts(
            right,
        )
}

/// Whether a scope meets none of those that are held.
pub open spec fn is_free(held: Set<DispatchScope>, scope: DispatchScope) -> bool {
    forall|other: DispatchScope| held.contains(other) ==> !#[trigger] other.conflicts(scope)
}

impl DispatchRegistry {
    /// Every held scope stands in the register once, and held scopes are
    /// pairwise compatible.
    pub closed spec fn wf(&self) -> bool {
        &&& self.active@.no_duplicates()
        &&& compatible(self@)
    }

    pub fn new() -> (registry: DispatchRegistry)
        ensures
            registry.wf(),
            registry@ == Set::<DispatchScope>::empty(),
    {
        let registry = DispatchRegistry { active: Vec::new() };
        assert(registry@ =~= Set::<DispatchScope>::empty());
        registry
    }

    /// Attempts to own one native compatibility domain without waiting or
    /// queueing.
    pub fn try_acquire(&mut self, scope: DispatchScope) -> (outcome: Result<
        DispatchPermit,
        DispatchConflict,
    >)
        requires
            old(self).wf(),
        ensures
            final(self).wf(),
            match outcome {
                Ok(permit) => {
                    &&& permit.owned() == scope
                    &&& final(self)@ == old(self)@.insert(scope)
                    &&& !old(self)@.contains(scope)
                    &&& is_free(old(self)@, scope)
                },
                Err(conflict) => {
                    &&& conflict.requested == scope
                    &&& old(self)@.contains(conflict.held)
                    &&& conflict.held.conflicts(scope)
                    &&& final(self)@ == old(self)@
                },
            },
    {
        let mut index: usize = 0;
        while index < self.active.len()
            invariant
                index <= self.active.len(),
                self == old(self),
                old(self).wf(),
                forall|i: int| 0 <= i < index ==> !(#[trigger] self.active[i]).conflicts(scope),
            decreases self.active.len() - index,
        {
            let held: DispatchScope = self.active[index];
            if held.conflicts_with(scope) {
                assert(self.active@[index as int] == held);
                return Err(DispatchConflict { requested: scope, held });
            }
            index = index + 1;
        }
        self.active.push(scope);
        proof {
            let before = old(self).active@;
            assert forall|held: DispatchScope| before.to_set().contains(held) implies !(
            #[trigger] held.conflicts(scope)) by {
                let i = choose|i: int| 0 <= i < before.len() && before[i] == held;
                assert(!before[i].conflicts(scope));
            }
            scope_conflicts_with_itself(scope);
            assert(!before.contains(scope));
            assert(self@ =~= old(self)@.insert(scope)) by {
                assert forall|held: DispatchScope| self@.contains(held) == old(self)@.insert(
                    scope,
                ).contains(held) by {
                    if before.contains(held) {
                        let i = choose|i: int| 0 <= i < before.len() && before[i] == held;
                        assert(self.active@[i] == held);
                    }
                    assert(self.active@[before.len() as int] == scope);
                }
            }
            assert forall|left: DispatchScope, right: DispatchScope|
                self@.contains(left) && self@.contains(right) && left != right implies !(
            #[trigger] left.conflicts(right)) by {
                conflict_is_symmetric(left, right);
                if right == scope {
                    assert(!left.conflicts(scope));
                }
                if left == scope {
                    assert(!right.conflicts(scope));
                }
            }
        }
        Ok(DispatchPermit { scope })
    }

    /// Gives up exactly the scope that a permit owns.
    pub fn release(&mut self, permit: DispatchPermit)
        requires
            old(self).wf(),
        ensures
            final(self).wf(),
            final(self)@ == old(self)@.remove(permit.owned()),
    {
        let mut index: usize = 0;
        while index < self.active.len()
            invariant
                index <= self.active.len(),
                self == old(self),
                old(self).wf(),
                forall|i: int| 0 <= i < index ==> #[trigger] self.active[i] != permit.scope,
            decreases self.active.len() - index,
        {
            if self.active[index] == permit.scope {
                let ghost before = self.active@;
                self.active.remove(index);
                proof {
                    let after = self.active@;
                    assert(after =~= before.remove(index as int));
                    assert forall|held: DispatchScope| after.contains(held) == (before.contains(
                        held,
                    ) && held != permit.scope) by {
                        if after.contains(held) {
                            let i = choose|i: int| 0 <= i < after.len() && after[i] == held;
                            if i < index {
                                assert(before[i] == held);
                            } else {
                                assert(before[i + 1] == held);
                            }
                        }
                        if before.contains(held) && held != permit.scope {
                            let i = choose|i: int| 0 <= i < before.len() && before[i] == held;
                            if i < index {
                                assert(after[i] == held);
                            } else {
                                assert(after[i - 1] == held);
                            }
                        }
                    }
                    assert(self@ =~= old(self)@.remove(permit.scope));
                }
                return;
            }
            index = index + 1;
        }
        assert(self@ =~= old(self)@.remove(permit.scope));
    }
}

/// The scopes that a register holds never conflict with each other.
pub proof fn held_scopes_are_compatible(registry: DispatchRegistry)
    requires
        registry.wf(),
    ensures
        compatible(registry@),
{
}

/// Releasing a permit right after its acquisition leaves the register as it
/// was, so the same scope can be acquired again.
pub proof fn release_undoes_acquire(held: Set<DispatchScope>, scope: DispatchScope)
    requires
        !held.contains(scope),
    ensures
        held.insert(scope).remove(scope) == held,
{
    assert(held.insert(scope).remove(scope) =~= held);
}

/// Two held targets never name one window, and a held process excludes every
/// other holder of that process.
pub proof fn held_scopes_own_disjoint_windows(
    held: Set<DispatchScope>,
    left: DispatchScope,
    right: DispatchScope,
    pid: i32,
    window: u32,
)
    requires
        compatible(held),
        held.contains(left),
        held.contains(right),
        left.covers(pid, window),
        right.covers(pid, window),
    ensures
        left == right,
{
    assert(left.covers(pid, window) && right.covers(pid, window));
    assert(left.conflicts(right));
}

/// Whether the running task carries the mutation lease of a process: the task
/// holds at most one lease, and proves ownership of no other process.
pub fn held_by_current_task(held_pid: Option<i32>, pid: i32) -> (held: bool)
    ensures
        held == (held_pid == Some(pid)),
{
    match held_pid {
        Some(held_pid) => held_pid == pid,
        None => false,
    }
}

} // verus!
