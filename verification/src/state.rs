//! The application-state switcher: a registry of state tags and the lookup
//! logic that selects the active one. The states' rendering resources live
//! with the application; the switcher's decisions work on the tags alone.

use vstd::prelude::*;

verus! {

/// The tag of the empty fallback state; registered first and never removed.
pub const NONE_STATE_ID: usize = 0;

/// The tag of the menu state.
pub const MENU_STATE_ID: usize = 1;

/// The tag of the chaotic demo state.
pub const CHAOTIC_STATE_ID: usize = 2;

/// The tag of the test state.
pub const TEST_STATE_ID: usize = 3;

/// The empty fallback state: draws nothing, handles nothing.
#[derive(Clone, Copy, Debug, PartialEq, Eq, Structural)]
pub struct NoneState {}

/// The menu state.
#[derive(Clone, Copy, Debug, PartialEq, Eq, Structural)]
pub struct MenuState {}

/// The chaotic demo state.
#[derive(Clone, Copy, Debug, PartialEq, Eq, Structural)]
pub struct ChaoticState {}

/// The test state.
#[derive(Clone, Copy, Debug, PartialEq, Eq, Structural)]
pub struct TestState {}

impl NoneState {
    pub fn new() -> (r: NoneState)
        ensures
            r == (NoneState {  }),
    {
        NoneState {  }
    }

    /// The tag used for lookup and equality.
    pub fn id(&self) -> (r: usize)
        ensures
            r == NONE_STATE_ID,
    {
        NONE_STATE_ID
    }
}

impl MenuState {
    pub fn new() -> (r: MenuState)
        ensures
            r == (MenuState {  }),
    {
        MenuState {  }
    }

    /// The tag used for lookup and equality.
    pub fn id(&self) -> (r: usize)
        ensures
            r == MENU_STATE_ID,
    {
        MENU_STATE_ID
    }
}

impl ChaoticState {
    pub fn new() -> (r: ChaoticState)
        ensures
            r == (ChaoticState {  }),
    {
        ChaoticState {  }
    }

    /// The tag used for lookup and equality.
    pub fn id(&self) -> (r: usize)
        ensures
            r == CHAOTIC_STATE_ID,
    {
        CHAOTIC_STATE_ID
    }
}

impl TestState {
    pub fn new() -> (r: TestState)
        ensures
            r == (TestState {  }),
    {
        TestState {  }
    }

    /// The tag used for lookup and equality.
    pub fn id(&self) -> (r: usize)
        ensures
            r == TEST_STATE_ID,
    {
        TEST_STATE_ID
    }
}

/// The first position of `id` at or after `start`, if any.
pub open spec fn first_state_index(s: Seq<usize>, id: usize, start: int) -> Option<int>
    decreases s.len() - start,
{
    if start < 0 || start >= s.len() {
        None
    } else if s[start] == id {
        Some(start)
    } else {
        first_state_index(s, id, start + 1)
    }
}

/// What `first_state_index` returns is the position of the first occurrence,
/// and it is absent exactly when the tag does not occur at or after `start`.
pub proof fn lemma_first_state_index(s: Seq<usize>, id: usize, start: int)
    requires
        0 <= start,
    ensures
        match first_state_index(s, id, start) {
            Some(i) => {
                &&& start <= i < s.len()
                &&& s[i] == id
                &&& forall|j: int| start <= j < i ==> s[j] != id
            },
            None => forall|j: int| start <= j < s.len() ==> s[j] != id,
        },
    decreases s.len() - start,
{
    if start < 0 || start >= s.len() {
    } else if s[start] == id {
    } else {
        lemma_first_state_index(s, id, start + 1);
    }
}

/// The registry of application states, by tag, with the active one. The
/// lookup works on the tags: no runtime downcasting.
#[derive(Debug)]
pub struct StateHandler {
    /// The registered state tags, in registration order.
    pub states: Vec<usize>,
    /// The position of the active state in the registry.
    pub current_state_in_vec: usize,
    /// The tag of the active state.
    pub current_state_id: usize,
}

impl StateHandler {
    /// The fallback state is registered, and the active position is the
    /// first occurrence of the active tag.
    pub open spec fn wf(self) -> bool {
        &&& self.states@.contains(NONE_STATE_ID)
        &&& first_state_index(self.states@, self.current_state_id, 0) == Some(
            self.current_state_in_vec as int,
        )
        &&& self.current_state_in_vec < self.states@.len()
        &&& self.states@[self.current_state_in_vec as int] == self.current_state_id
    }

    /// A fresh handler: only the fallback state is registered, and it is
    /// active.
    pub fn new() -> (r: StateHandler)
        ensures
            r.wf(),
            r.states@ == seq![NONE_STATE_ID],
            r.current_state_in_vec == 0,
            r.current_state_id == NONE_STATE_ID,
    {
        let mut states: Vec<usize> = Vec::new();
        states.push(NONE_STATE_ID);
        proof {
            assert(states@ =~= seq![NONE_STATE_ID]);
            assert(states@[0] == NONE_STATE_ID);
        }
        StateHandler { states, current_state_in_vec: 0, current_state_id: NONE_STATE_ID }
    }

    /// Registers one more state tag at the end; the active state is
    /// untouched.
    pub fn add_state(&mut self, state_id: usize)
        requires
            old(self).wf(),
        ensures
            final(self).wf(),
            final(self).states@ == old(self).states@.push(state_id),
            final(self).current_state_in_vec == old(self).current_state_in_vec,
            final(self).current_state_id == old(self).current_state_id,
    {
        proof {
            lemma_first_index_push(self.states@, self.current_state_id, state_id);
            assert(self.states@.push(state_id).contains(NONE_STATE_ID)) by {
                let i = choose|i: int|
                    0 <= i < self.states@.len() && self.states@[i] == NONE_STATE_ID;
                assert(self.states@.push(state_id)[i] == NONE_STATE_ID);
            }
        }
        self.states.push(state_id);
    }

    /// Registers several state tags, in order; the active state is
    /// untouched.
    pub fn add_states(&mut self, state_ids: Vec<usize>)
        requires
            old(self).wf(),
        ensures
            final(self).wf(),
            final(self).states@ == old(self).states@ + state_ids@,
            final(self).current_state_in_vec == old(self).current_state_in_vec,
            final(self).current_state_id == old(self).current_state_id,
    {
        let mut i: usize = 0;
        while i < state_ids.len()
            invariant
                i <= state_ids@.len(),
                self.wf(),
                self.states@ == old(self).states@ + state_ids@.take(i as int),
                self.current_state_in_vec == old(self).current_state_in_vec,
                self.current_state_id == old(self).current_state_id,
            decreases state_ids@.len() - i,
        {
            self.add_state(state_ids[i]);
            proof {
                assert(self.states@ =~= old(self).states@ + state_ids@.take(i as int + 1));
            }
            i = i + 1;
        }
        proof {
            assert(state_ids@.take(state_ids@.len() as int) =~= state_ids@);
        }
    }

    /// Finds the first position of a registered tag.
    pub fn find_state_position(&self, state_id: usize) -> (r: Option<usize>)
        ensures
            match r {
                Some(i) => first_state_index(self.states@, state_id, 0) == Some(i as int),
                None => first_state_index(self.states@, state_id, 0) is None,
            },
    {
        let mut idx: usize = 0;
        while idx < self.states.len()
            invariant
                idx <= self.states@.len(),
                first_state_index(self.states@, state_id, 0) == first_state_index(
                    self.states@,
                    state_id,
                    idx as int,
                ),
            decreases self.states@.len() - idx,
        {
            if self.states[idx] == state_id {
                return Some(idx);
            }
            idx = idx + 1;
        }
        None
    }

    /// Makes the state with this tag active: the active position becomes the
    /// first occurrence of the tag. The tag must be registered — switching
    /// to an unknown state is a caller error.
    pub fn set_state(&mut self, state_id: usize)
        requires
            old(self).wf(),
            old(self).states@.contains(state_id),
        ensures
            final(self).wf(),
            final(self).states@ == old(self).states@,
            final(self).current_state_id == state_id,
            Some(final(self).current_state_in_vec as int) == first_state_index(
                old(self).states@,
                state_id,
                0,
            ),
    {
        proof {
            lemma_contains_first_index(self.states@, state_id);
        }
        match self.find_state_position(state_id) {
            Some(position) => {
                proof {
                    lemma_first_state_index(self.states@, state_id, 0);
                }
                self.current_state_in_vec = position;
                self.current_state_id = state_id;
            },
            None => {
                proof {
                    assert(false);
                }
            },
        }
    }

    /// Unregisters the first occurrence of a tag. The fallback state cannot
    /// be removed; removing the active state falls back to the fallback
    /// state, and the active position is recomputed either way, since
    /// removal shifts the registry.
    pub fn remove_state(&mut self, state_id: usize)
        requires
            old(self).wf(),
            state_id != NONE_STATE_ID,
            old(self).states@.contains(state_id),
        ensures
            final(self).wf(),
            ({
                let removed = first_state_index(old(self).states@, state_id, 0)->Some_0;
                final(self).states@ == old(self).states@.remove(removed)
            }),
            final(self).current_state_id == (if old(self).current_state_id == state_id {
                NONE_STATE_ID
            } else {
                old(self).current_state_id
            }),
    {
        proof {
            lemma_contains_first_index(self.states@, state_id);
        }
        match self.find_state_position(state_id) {
            Some(position) => {
                proof {
                    lemma_first_state_index(self.states@, state_id, 0);
                }
                let ghost pre = self.states@;
                self.states.remove(position);
                let next_id: usize = if self.current_state_id == state_id {
                    NONE_STATE_ID
                } else {
                    self.current_state_id
                };
                proof {
                    lemma_remove_keeps_other(pre, position as int, NONE_STATE_ID);
                    if next_id != NONE_STATE_ID {
                        lemma_remove_keeps_other(pre, position as int, next_id);
                    }
                }
                match self.find_state_position(next_id) {
                    Some(new_position) => {
                        proof {
                            lemma_first_state_index(self.states@, next_id, 0);
                        }
                        self.current_state_in_vec = new_position;
                        self.current_state_id = next_id;
                    },
                    None => {
                        proof {
                            lemma_contains_first_index(self.states@, next_id);
                            assert(false);
                        }
                    },
                }
            },
            None => {
                proof {
                    assert(false);
                }
            },
        }
    }
}

/// A tag occurs in a sequence exactly when its first position exists.
pub proof fn lemma_contains_first_index(s: Seq<usize>, id: usize)
    ensures
        s.contains(id) <==> first_state_index(s, id, 0) is Some,
{
    lemma_first_state_index(s, id, 0);
    if first_state_index(s, id, 0) is Some {
        let i = first_state_index(s, id, 0)->Some_0;
        assert(s[i] == id);
    }
}

/// Pushing a new tag at the end does not move the first occurrence of any
/// tag that already occurs.
proof fn lemma_first_index_push(s: Seq<usize>, id: usize, pushed: usize)
    requires
        first_state_index(s, id, 0) is Some,
    ensures
        first_state_index(s.push(pushed), id, 0) == first_state_index(s, id, 0),
{
    let i = first_state_index(s, id, 0)->Some_0;
    lemma_first_state_index(s, id, 0);
    lemma_first_state_index(s.push(pushed), id, 0);
    assert(s.push(pushed)[i] == id);
    match first_state_index(s.push(pushed), id, 0) {
        Some(k) => {
            if k < i {
                assert(s[k] == s.push(pushed)[k]);
            } else if k > i {
                assert(s.push(pushed)[i] == id);
            }
        },
        None => {
            assert(s.push(pushed)[i] == id);
        },
    }
}

/// Removing the first occurrence of one tag keeps every occurrence of every
/// other tag: a sequence that contains `other` still contains it after the
/// removal of an element that is not `other`.
proof fn lemma_remove_keeps_other(s: Seq<usize>, removed: int, other: usize)
    requires
        0 <= removed < s.len(),
        s[removed] != other,
        s.contains(other),
    ensures
        s.remove(removed).contains(other),
{
    let i = choose|i: int| 0 <= i < s.len() && s[i] == other;
    s.remove_ensures(removed);
    if i < removed {
        assert(s.remove(removed)[i] == other);
    } else {
        assert(i > removed);
        assert(s.remove(removed)[i - 1] == other);
    }
}

} // verus!
