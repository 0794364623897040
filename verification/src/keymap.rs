//! The key map: which key asks for which action.
//!
//! Actions are values of a closed enumeration, and a key map holds at most
//! one action for a key: a list of bindings in which a key occurs twice is
//! refused when the map is made.

use vstd::prelude::*;

verus! {

/// What a key press can ask for.
#[derive(Clone, Copy, Debug, PartialEq, Eq, Structural)]
pub enum Action {
    Split,
    Undo,
    Skip,
    Reset,
    Pause,
    SwitchComparison,
    Open,
    Save,
    Hide,
}

/// One key and the action it asks for. A key is the character it types,
/// letters in lower case.
#[derive(Clone, Copy, Debug, PartialEq, Eq, Structural)]
pub struct Binding {
    pub key: char,
    pub action: Action,
}

/// A list of bindings that cannot make a key map.
#[derive(Clone, Copy, Debug, PartialEq, Eq, Structural)]
pub enum KeyMapError {
    /// The key stands in two bindings.
    DuplicateKey(char),
}

/// Whether no key stands in two of the bindings.
pub open spec fn keys_distinct(bindings: Seq<Binding>) -> bool {
    forall|i: int, j: int| 0 <= i < j < bindings.len() ==> bindings[i].key != bindings[j].key
}

/// Whether one of the bindings has the key.
pub open spec fn has_key(bindings: Seq<Binding>, key: char) -> bool {
    exists|i: int| 0 <= i < bindings.len() && bindings[i].key == key
}

/// The key of the first binding that has the key of a binding before it,
/// where there is such a binding.
pub open spec fn first_repeated_key(bindings: Seq<Binding>) -> Option<char>
    decreases bindings.len(),
{
    if bindings.len() == 0 {
        None
    } else if first_repeated_key(bindings.drop_last()) is Some {
        first_repeated_key(bindings.drop_last())
    } else if has_key(bindings.drop_last(), bindings.last().key) {
        Some(bindings.last().key)
    } else {
        None
    }
}

/// Whether a key is among those pressed.
pub open spec fn is_pressed(pressed: Seq<char>, key: char) -> bool {
    exists|i: int| 0 <= i < pressed.len() && pressed[i] == key
}

/// The action bound to a key, where one is: that of the first binding with
/// the key.
pub open spec fn bound_action(bindings: Seq<Binding>, key: char) -> Option<Action>
    decreases bindings.len(),
{
    if bindings.len() == 0 {
        None
    } else if bindings[0].key == key {
        Some(bindings[0].action)
    } else {
        bound_action(bindings.skip(1), key)
    }
}

/// The actions of those bindings whose key is pressed, in the order of the
/// bindings.
pub open spec fn pressed_actions(bindings: Seq<Binding>, pressed: Seq<char>) -> Seq<Action>
    decreases bindings.len(),
{
    if bindings.len() == 0 {
        Seq::empty()
    } else if is_pressed(pressed, bindings.last().key) {
        pressed_actions(bindings.drop_last(), pressed).push(bindings.last().action)
    } else {
        pressed_actions(bindings.drop_last(), pressed)
    }
}

/// The bindings a key map has unless it is given others: space splits, and
/// the letters p, u, k, r, o, s, c and h pause, undo, skip, reset, open,
/// save, switch the comparison and hide it.
pub open spec fn default_bindings() -> Seq<Binding> {
    seq![
        Binding { key: ' ', action: Action::Split },
        Binding { key: 'p', action: Action::Pause },
        Binding { key: 'u', action: Action::Undo },
        Binding { key: 'k', action: Action::Skip },
        Binding { key: 'r', action: Action::Reset },
        Binding { key: 'o', action: Action::Open },
        Binding { key: 's', action: Action::Save },
        Binding { key: 'c', action: Action::SwitchComparison },
        Binding { key: 'h', action: Action::Hide },
    ]
}

/// Whether a key is in a list of keys.
pub fn key_in(keys: &Vec<char>, key: char) -> (found: bool)
    ensures
        found == is_pressed(keys@, key),
{
    let mut i: usize = 0;
    while i < keys.len()
        invariant
            i <= keys.len(),
            forall|k: int| 0 <= k < i ==> keys@[k] != key,
        decreases keys.len() - i,
    {
        if keys[i] == key {
            return true;
        }
        i += 1;
    }
    false
}

/// A table from keys to actions with at most one action for a key.
#[derive(Debug, PartialEq, Eq)]
pub struct KeyMap {
    bindings: Vec<Binding>,
}

impl View for KeyMap {
    type V = Seq<Binding>;

    closed spec fn view(&self) -> Seq<Binding> {
        self.bindings@
    }
}

impl KeyMap {
    /// The invariant of a key map: no key stands in two bindings.
    pub open spec fn wf(&self) -> bool {
        keys_distinct(self@)
    }

    /// The key map of the given bindings. Where a key stands in two of
    /// them the list is refused, with the key of the first binding that
    /// repeats an earlier one's.
    pub fn new(bindings: Vec<Binding>) -> (result: Result<KeyMap, KeyMapError>)
        ensures
            result is Ok <==> keys_distinct(bindings@),
            result matches Ok(map) ==> map.wf() && map@ == bindings@,
            result matches Err(error) ==> first_repeated_key(bindings@) == Some(error->0),
    {
        let mut place: usize = 0;
        while place < bindings.len()
            invariant
                place <= bindings.len(),
                first_repeated_key(bindings@.subrange(0, place as int)) is None,
            decreases bindings.len() - place,
        {
            let ghost upto = bindings@.subrange(0, place + 1);
            assert(upto.drop_last() =~= bindings@.subrange(0, place as int));
            let mut before: usize = 0;
            while before < place
                invariant
                    before <= place < bindings.len(),
                    upto == bindings@.subrange(0, place + 1),
                    first_repeated_key(upto.drop_last()) is None,
                    forall|i: int| 0 <= i < before ==> bindings@[i].key != bindings@[place as int].key,
                decreases place - before,
            {
                if bindings[before].key == bindings[place].key {
                    proof {
                        assert(upto.drop_last()[before as int].key == upto.last().key);
                        lemma_repeated_key_stays(bindings@, place + 1);
                        lemma_repeated_key_iff_not_distinct(bindings@);
                    }
                    return Err(KeyMapError::DuplicateKey(bindings[place].key));
                }
                before += 1;
            }
            place += 1;
        }
        proof {
            assert(bindings@.subrange(0, place as int) =~= bindings@);
            lemma_repeated_key_iff_not_distinct(bindings@);
        }
        Ok(KeyMap { bindings })
    }

    /// The key map with the default bindings.
    pub fn with_defaults() -> (map: KeyMap)
        ensures
            map.wf(),
            map@ == default_bindings(),
    {
        let mut bindings: Vec<Binding> = Vec::new();
        bindings.push(Binding { key: ' ', action: Action::Split });
        bindings.push(Binding { key: 'p', action: Action::Pause });
        bindings.push(Binding { key: 'u', action: Action::Undo });
        bindings.push(Binding { key: 'k', action: Action::Skip });
        bindings.push(Binding { key: 'r', action: Action::Reset });
        bindings.push(Binding { key: 'o', action: Action::Open });
        bindings.push(Binding { key: 's', action: Action::Save });
        bindings.push(Binding { key: 'c', action: Action::SwitchComparison });
        bindings.push(Binding { key: 'h', action: Action::Hide });
        KeyMap { bindings }
    }

    /// The number of bindings.
    pub fn len(&self) -> (count: usize)
        ensures
            count == self@.len(),
    {
        self.bindings.len()
    }

    /// The keys of the bindings, in their order.
    pub fn keys(&self) -> (keys: Vec<char>)
        ensures
            keys@ == self@.map_values(|binding: Binding| binding.key),
    {
        let mut keys: Vec<char> = Vec::new();
        let mut i: usize = 0;
        while i < self.bindings.len()
            invariant
                i <= self.bindings.len(),
                keys.len() == i,
                forall|k: int| 0 <= k < i ==> keys@[k] == self.bindings@[k].key,
            decreases self.bindings.len() - i,
        {
            keys.push(self.bindings[i].key);
            i += 1;
        }
        keys
    }

    /// The action bound to a key, where one is. In a key map no binding is
    /// hidden behind another: whichever binding has the key, its action is
    /// the one returned.
    pub fn lookup(&self, key: char) -> (action: Option<Action>)
        ensures
            action == bound_action(self@, key),
            action is Some <==> has_key(self@, key),
            self.wf() ==> forall|place: int|
                0 <= place < self@.len() && self@[place].key == key ==> action == Some(
                    self@[place].action,
                ),
    {
        proof {
            lemma_bound_where_key_is(self@, key);
            if self.wf() {
                assert forall|place: int|
                    0 <= place < self@.len() && self@[place].key == key implies bound_action(
                    self@,
                    key,
                ) == Some(self@[place].action) by {
                    lemma_lookup_finds_the_binding(self@, place);
                }
            }
        }
        let mut i: usize = 0;
        assert(self@.skip(0) =~= self@);
        while i < self.bindings.len()
            invariant
                i <= self.bindings.len(),
                bound_action(self@, key) == bound_action(self@.skip(i as int), key),
            decreases self.bindings.len() - i,
        {
            if self.bindings[i].key == key {
                return Some(self.bindings[i].action);
            }
            assert(self@.skip(i as int).skip(1) =~= self@.skip(i + 1));
            i += 1;
        }
        None
    }

    /// The actions asked for by the keys pressed: those of the bindings
    /// whose key is among them, in the order of the bindings.
    pub fn actions_for(&self, pressed: &Vec<char>) -> (actions: Vec<Action>)
        ensures
            actions@ == pressed_actions(self@, pressed@),
    {
        let mut actions: Vec<Action> = Vec::new();
        let mut i: usize = 0;
        while i < self.bindings.len()
            invariant
                i <= self.bindings.len(),
                actions@ == pressed_actions(self@.subrange(0, i as int), pressed@),
            decreases self.bindings.len() - i,
        {
            assert(self@.subrange(0, i + 1).drop_last() =~= self@.subrange(0, i as int));
            if key_in(pressed, self.bindings[i].key) {
                actions.push(self.bindings[i].action);
            }
            i += 1;
        }
        assert(self@.subrange(0, i as int) =~= self@);
        actions
    }
}

/// A key is bound exactly where one of the bindings has it.
pub proof fn lemma_bound_where_key_is(bindings: Seq<Binding>, key: char)
    ensures
        bound_action(bindings, key) is Some <==> has_key(bindings, key),
    decreases bindings.len(),
{
    if bindings.len() > 0 {
        let rest = bindings.skip(1);
        lemma_bound_where_key_is(rest, key);
        if bindings[0].key != key && has_key(bindings, key) {
            let i = choose|i: int| 0 <= i < bindings.len() && bindings[i].key == key;
            assert(rest[i - 1].key == key);
        }
    }
}

/// Where the keys are distinct, the action bound to the key of a binding is
/// that binding's: no other binding has the key.
pub proof fn lemma_lookup_finds_the_binding(bindings: Seq<Binding>, place: int)
    requires
        keys_distinct(bindings),
        0 <= place < bindings.len(),
    ensures
        bound_action(bindings, bindings[place].key) == Some(bindings[place].action),
    decreases bindings.len(),
{
    if place > 0 {
        let rest = bindings.skip(1);
        assert(keys_distinct(rest)) by {
            assert forall|i: int, j: int| 0 <= i < j < rest.len() implies rest[i].key
                != rest[j].key by {
                assert(rest[i] == bindings[i + 1] && rest[j] == bindings[j + 1]);
            }
        }
        lemma_lookup_finds_the_binding(rest, place - 1);
    }
}

/// A list of bindings has a repeated key exactly where its keys are not
/// distinct.
pub proof fn lemma_repeated_key_iff_not_distinct(bindings: Seq<Binding>)
    ensures
        first_repeated_key(bindings) is None <==> keys_distinct(bindings),
    decreases bindings.len(),
{
    if bindings.len() > 0 {
        let before = bindings.drop_last();
        lemma_repeated_key_iff_not_distinct(before);
        if first_repeated_key(before) is None && !has_key(before, bindings.last().key) {
            assert forall|i: int, j: int| 0 <= i < j < bindings.len() implies bindings[i].key
                != bindings[j].key by {
                if j < before.len() {
                    assert(before[i].key != before[j].key);
                }
            }
        }
    }
}

/// The first repeated key of the first `count` bindings, where there is
/// one, is that of the whole list.
pub proof fn lemma_repeated_key_stays(bindings: Seq<Binding>, count: int)
    requires
        0 <= count <= bindings.len(),
        first_repeated_key(bindings.subrange(0, count)) is Some,
    ensures
        first_repeated_key(bindings) == first_repeated_key(bindings.subrange(0, count)),
    decreases bindings.len() - count,
{
    if count < bindings.len() {
        assert(bindings.subrange(0, count + 1).drop_last() =~= bindings.subrange(0, count));
        lemma_repeated_key_stays(bindings, count + 1);
    } else {
        assert(bindings.subrange(0, count) =~= bindings);
    }
}

} // verus!
