//! The kiosk: for each source, the state of its feed.

use vstd::prelude::*;

use crate::feed::{Feed, FeedError, FeedErrorView, FeedView};

verus! {

/// Describes the current feed state for a source.
#[derive(Debug, PartialEq, Eq)]
pub enum FeedState {
    /// Feed loaded with success.
    Success(Feed),
    /// Failed to fetch or to parse the feed.
    Error(FeedError),
    /// Loading feed.
    Loading,
}

/// A [`FeedState`] as contracts see it.
pub enum FeedStateView {
    Success(FeedView),
    Error(FeedErrorView),
    Loading,
}

impl View for FeedState {
    type V = FeedStateView;

    open spec fn view(&self) -> FeedStateView {
        match self {
            FeedState::Success(feed) => FeedStateView::Success(feed@),
            FeedState::Error(error) => FeedStateView::Error(error@),
            FeedState::Loading => FeedStateView::Loading,
        }
    }
}

/// Describes the current feed state without what the state holds.
#[derive(Debug, Clone, Copy, PartialEq, Eq, Structural)]
pub enum FlatFeedState {
    /// Feed loaded with success.
    Success,
    /// Failed to fetch or to parse the feed.
    Error,
    /// Loading feed.
    Loading,
}

/// The state without what it holds.
pub open spec fn flat_of(state: FeedStateView) -> FlatFeedState {
    match state {
        FeedStateView::Success(_) => FlatFeedState::Success,
        FeedStateView::Error(_) => FlatFeedState::Error,
        FeedStateView::Loading => FlatFeedState::Loading,
    }
}

/// The number that stands for a state where states travel as numbers.
pub open spec fn code_of(state: FlatFeedState) -> u8 {
    match state {
        FlatFeedState::Success => 0,
        FlatFeedState::Error => 1,
        FlatFeedState::Loading => 2,
    }
}

/// The state that a number stands for, if it stands for one.
pub open spec fn state_coded(code: u8) -> Option<FlatFeedState> {
    if code == 0 {
        Some(FlatFeedState::Success)
    } else if code == 1 {
        Some(FlatFeedState::Error)
    } else if code == 2 {
        Some(FlatFeedState::Loading)
    } else {
        None
    }
}

/// The number of a state stands for that state.
pub proof fn lemma_code_round_trip(state: FlatFeedState)
    ensures
        state_coded(code_of(state)) == Some(state),
{
}

impl FlatFeedState {
    /// The number that stands for the state.
    pub fn code(&self) -> (code: u8)
        ensures
            code == code_of(*self),
    {
        match self {
            FlatFeedState::Success => 0,
            FlatFeedState::Error => 1,
            FlatFeedState::Loading => 2,
        }
    }

    /// The state that `code` stands for, if it stands for one.
    pub fn from_code(code: u8) -> (state: Option<FlatFeedState>)
        ensures
            state == state_coded(code),
    {
        if code == 0 {
            Some(FlatFeedState::Success)
        } else if code == 1 {
            Some(FlatFeedState::Error)
        } else if code == 2 {
            Some(FlatFeedState::Loading)
        } else {
            None
        }
    }

    /// The state without what it holds.
    pub fn from(state: &FeedState) -> (flat: FlatFeedState)
        ensures
            flat == flat_of(state@),
    {
        match state {
            FeedState::Success(_) => FlatFeedState::Success,
            FeedState::Error(_) => FlatFeedState::Error,
            FeedState::Loading => FlatFeedState::Loading,
        }
    }
}

/// The states of a kiosk, each under the name of its source.
pub type States = Map<Seq<char>, FeedStateView>;

#[derive(Debug)]
struct Slot {
    name: String,
    state: FeedState,
}

spec fn names_of(slots: Seq<Slot>) -> Seq<Seq<char>> {
    slots.map_values(|slot: Slot| slot.name@)
}

spec fn distinct_names(slots: Seq<Slot>) -> bool {
    forall|i: int, j: int|
        0 <= i < j < slots.len() ==> (#[trigger] slots[i]).name@ != (#[trigger] slots[j]).name@
}

spec fn has_name(slots: Seq<Slot>, name: Seq<char>) -> bool {
    exists|i: int| 0 <= i < slots.len() && (#[trigger] slots[i]).name@ == name
}

spec fn slot_of(slots: Seq<Slot>, name: Seq<char>) -> int {
    choose|i: int| 0 <= i < slots.len() && (#[trigger] slots[i]).name@ == name
}

spec fn states_of(slots: Seq<Slot>) -> States {
    Map::new(|name: Seq<char>| has_name(slots, name), |name: Seq<char>| slots[slot_of(slots, name)].state@)
}

proof fn lemma_slot_at(slots: Seq<Slot>, i: int)
    requires
        distinct_names(slots),
        0 <= i < slots.len(),
    ensures
        states_of(slots).contains_key(slots[i].name@),
        states_of(slots)[slots[i].name@] == slots[i].state@,
        slot_of(slots, slots[i].name@) == i,
{
    let name = slots[i].name@;
    assert(has_name(slots, name));
    let j = slot_of(slots, name);
    if j < i {
        assert(slots[j].name@ != slots[i].name@);
    } else if i < j {
        assert(slots[i].name@ != slots[j].name@);
    }
}

proof fn lemma_push_slot(slots: Seq<Slot>, slot: Slot)
    requires
        distinct_names(slots),
        !has_name(slots, slot.name@),
    ensures
        distinct_names(slots.push(slot)),
        states_of(slots.push(slot)) == states_of(slots).insert(slot.name@, slot.state@),
{
    let more = slots.push(slot);
    assert forall|i: int, j: int| 0 <= i < j < more.len() implies (#[trigger] more[i]).name@ != (
    #[trigger] more[j]).name@ by {
        if j == slots.len() {
            assert(more[i] == slots[i]);
            if slots[i].name@ == slot.name@ {
                assert(has_name(slots, slot.name@));
            }
        } else {
            assert(more[i] == slots[i] && more[j] == slots[j]);
        }
    }
    assert forall|name: Seq<char>| has_name(more, name) <==> (has_name(slots, name) || name
        == slot.name@) by {
        if has_name(more, name) {
            let i = slot_of(more, name);
            if i < slots.len() {
                assert(slots[i].name@ == name);
            }
        }
        if has_name(slots, name) {
            let i = slot_of(slots, name);
            assert(more[i].name@ == name);
        }
        if name == slot.name@ {
            assert(more[slots.len() as int].name@ == name);
        }
    }
    assert forall|name: Seq<char>| has_name(more, name) implies states_of(more)[name] == states_of(
        slots,
    ).insert(slot.name@, slot.state@)[name] by {
        if name == slot.name@ {
            lemma_slot_at(more, slots.len() as int);
        } else {
            let i = slot_of(slots, name);
            assert(more[i] == slots[i]);
            lemma_slot_at(more, i);
        }
    }
    assert(states_of(more) =~= states_of(slots).insert(slot.name@, slot.state@));
}

proof fn lemma_replace_slot(slots: Seq<Slot>, i: int, slot: Slot)
    requires
        distinct_names(slots),
        0 <= i < slots.len(),
        slot.name@ == slots[i].name@,
    ensures
        distinct_names(slots.update(i, slot)),
        states_of(slots.update(i, slot)) == states_of(slots).insert(slot.name@, slot.state@),
{
    let changed = slots.update(i, slot);
    assert forall|a: int, b: int| 0 <= a < b < changed.len() implies (#[trigger] changed[a]).name@
        != (#[trigger] changed[b]).name@ by {
        assert(slots[a].name@ != slots[b].name@);
    }
    assert forall|name: Seq<char>| has_name(changed, name) <==> has_name(slots, name) by {
        if has_name(changed, name) {
            let j = slot_of(changed, name);
            assert(slots[j].name@ == name);
        }
        if has_name(slots, name) {
            let j = slot_of(slots, name);
            assert(changed[j].name@ == name);
        }
    }
    lemma_slot_at(slots, i);
    assert forall|name: Seq<char>| has_name(changed, name) implies states_of(changed)[name]
        == states_of(slots).insert(slot.name@, slot.state@)[name] by {
        let j = slot_of(slots, name);
        assert(changed[j].name@ == name);
        lemma_slot_at(changed, j);
        lemma_slot_at(slots, j);
    }
    assert(states_of(changed) =~= states_of(slots).insert(slot.name@, slot.state@));
}

proof fn lemma_slot_count(slots: Seq<Slot>)
    requires
        distinct_names(slots),
    ensures
        states_of(slots).dom().finite(),
        states_of(slots).len() == slots.len(),
    decreases slots.len(),
{
    if slots.len() == 0 {
        assert(states_of(slots) =~= Map::<Seq<char>, FeedStateView>::empty());
    } else {
        let head = slots.drop_last();
        lemma_slot_count(head);
        if has_name(head, slots.last().name@) {
            let j = slot_of(head, slots.last().name@);
            assert(slots[j].name@ == slots[slots.len() - 1].name@);
        }
        lemma_push_slot(head, slots.last());
        assert(head.push(slots.last()) =~= slots);
    }
}

/// Describes the current feed holder. It contains different sources, each
/// one with its own feed fetch state.
#[derive(Debug)]
pub struct Kiosk {
    feed: Vec<Slot>,
}

impl View for Kiosk {
    type V = States;

    closed spec fn view(&self) -> States {
        states_of(self.feed@)
    }
}

impl Default for Kiosk {
    fn default() -> (kiosk: Kiosk)
        ensures
            kiosk@ == Map::<Seq<char>, FeedStateView>::empty(),
    {
        let kiosk = Kiosk { feed: Vec::new() };
        assert(kiosk@ =~= Map::<Seq<char>, FeedStateView>::empty());
        kiosk
    }
}

impl Kiosk {
    #[verifier::type_invariant]
    spec fn one_state_per_source(self) -> bool {
        distinct_names(self.feed@)
    }

    fn find(&self, source: &str) -> (found: Option<usize>)
        ensures
            match found {
                Some(i) => i < self.feed.len() && self.feed@[i as int].name@ == source@,
                None => !self@.contains_key(source@),
            },
    {
        let mut i: usize = 0;
        while i < self.feed.len()
            invariant
                i <= self.feed.len(),
                forall|k: int| 0 <= k < i ==> (#[trigger] self.feed@[k]).name@ != source@,
            decreases self.feed.len() - i,
        {
            if *self.feed[i].name.as_str() == *source {
                return Some(i);
            }
            i += 1;
        }
        None
    }

    /// Inserts a feed state into the kiosk, in place of the state that the
    /// source had, if it had one.
    pub fn insert_feed(&mut self, source: &str, state: FeedState)
        ensures
            final(self)@ == old(self)@.insert(source@, state@),
    {
        proof {
            use_type_invariant(&*self);
        }
        let found = self.find(source);
        let ghost before = self.feed@;
        let mut slots: Vec<Slot> = Vec::new();
        core::mem::swap(&mut self.feed, &mut slots);
        let slot = Slot { name: String::from_str(source), state };
        match found {
            Some(i) => {
                proof {
                    lemma_replace_slot(before, i as int, slot);
                }
                slots[i] = slot;
            },
            None => {
                proof {
                    lemma_push_slot(before, slot);
                }
                slots.push(slot);
            },
        }
        self.feed = slots;
    }

    /// Returns the sources of the kiosk, each once and with the state of
    /// its feed without what the state holds, in no particular order.
    pub fn get_state(&self) -> (states: Vec<(String, FlatFeedState)>)
        ensures
            states.len() == self@.len(),
            forall|i: int|
                0 <= i < states.len() ==> self@.contains_key((#[trigger] states@[i]).0@)
                    && states@[i].1 == flat_of(self@[states@[i].0@]),
            forall|i: int, j: int|
                0 <= i < j < states.len() ==> (#[trigger] states@[i]).0@ != (
                #[trigger] states@[j]).0@,
    {
        proof {
            use_type_invariant(self);
            lemma_slot_count(self.feed@);
        }
        let mut states: Vec<(String, FlatFeedState)> = Vec::new();
        let mut i: usize = 0;
        while i < self.feed.len()
            invariant
                i <= self.feed.len(),
                states.len() == i,
                distinct_names(self.feed@),
                forall|k: int|
                    0 <= k < i ==> (#[trigger] states@[k]).0@ == self.feed@[k].name@
                        && states@[k].1 == flat_of(self.feed@[k].state@),
            decreases self.feed.len() - i,
        {
            let slot = &self.feed[i];
            states.push((slot.name.clone(), FlatFeedState::from(&slot.state)));
            i += 1;
        }
        proof {
            assert forall|k: int| 0 <= k < states.len() implies self@.contains_key(
                (#[trigger] states@[k]).0@,
            ) && states@[k].1 == flat_of(self@[states@[k].0@]) by {
                lemma_slot_at(self.feed@, k);
            }
        }
        states
    }

    /// Returns the current feed state of a source.
    pub fn get_feed_state(&self, source: &str) -> (state: Option<&FeedState>)
        ensures
            match state {
                Some(state) => self@.contains_key(source@) && state@ == self@[source@],
                None => !self@.contains_key(source@),
            },
    {
        proof {
            use_type_invariant(self);
        }
        match self.find(source) {
            Some(i) => {
                proof {
                    lemma_slot_at(self.feed@, i as int);
                }
                Some(&self.feed[i].state)
            },
            None => None,
        }
    }

    /// Returns the feed of a source. There is one only where the kiosk
    /// knows the source and its feed was loaded with success.
    pub fn get_feed(&self, source: &str) -> (feed: Option<&Feed>)
        ensures
            match feed {
                Some(feed) => self@.contains_key(source@) && self@[source@]
                    == FeedStateView::Success(feed@),
                None => !(self@.contains_key(source@) && self@[source@] is Success),
            },
    {
        match self.get_feed_state(source) {
            Some(FeedState::Success(feed)) => Some(feed),
            _ => None,
        }
    }

    /// Returns the names of the sources in the kiosk, each once, in no
    /// particular order.
    pub fn sources(&self) -> (names: Vec<&String>)
        ensures
            names.len() == self@.len(),
            forall|i: int| 0 <= i < names.len() ==> self@.contains_key((#[trigger] names@[i])@),
            forall|i: int, j: int|
                0 <= i < j < names.len() ==> (#[trigger] names@[i])@ != (#[trigger] names@[j])@,
    {
        proof {
            use_type_invariant(self);
            lemma_slot_count(self.feed@);
        }
        let mut names: Vec<&String> = Vec::new();
        let mut i: usize = 0;
        while i < self.feed.len()
            invariant
                i <= self.feed.len(),
                names.len() == i,
                distinct_names(self.feed@),
                forall|k: int| 0 <= k < i ==> (#[trigger] names@[k])@ == self.feed@[k].name@,
            decreases self.feed.len() - i,
        {
            names.push(&self.feed[i].name);
            i += 1;
        }
        proof {
            assert forall|k: int| 0 <= k < names.len() implies self@.contains_key(
                (#[trigger] names@[k])@,
            ) by {
                lemma_slot_at(self.feed@, k);
            }
        }
        names
    }
}

} // verus!
