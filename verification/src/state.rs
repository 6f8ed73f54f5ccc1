//! The state of a view tree: a store of named, dynamically typed variables.
//! A tree has one store. Its root owns it and lends it to every handler in
//! turn, so that what one handler wrote the next one reads.

use vstd::prelude::*;

verus! {

/// `str`'s `==`: whether two strings hold the same characters.
#[verifier::external_body]
pub(crate) fn same_text(a: &str, b: &str) -> (same: bool)
    ensures
        same == (a@ == b@),
{
    a == b
}

/// The type of a stored value.
#[derive(Clone, Copy, Debug, PartialEq, Eq, Structural)]
pub enum ValueKind {
    Bool,
    Int,
    Unsigned,
    Text,
}

/// A stored value together with its type.
#[derive(Clone, Debug, PartialEq, Eq)]
pub enum Value {
    Bool(bool),
    Int(i64),
    Unsigned(u64),
    Text(String),
}

impl Value {
    /// The type of the value.
    pub open spec fn kind_spec(&self) -> ValueKind {
        match self {
            Value::Bool(_) => ValueKind::Bool,
            Value::Int(_) => ValueKind::Int,
            Value::Unsigned(_) => ValueKind::Unsigned,
            Value::Text(_) => ValueKind::Text,
        }
    }

    /// The type of the value.
    #[verifier::when_used_as_spec(kind_spec)]
    pub fn kind(&self) -> (kind: ValueKind)
        ensures
            kind == self.kind_spec(),
    {
        match self {
            Value::Bool(_) => ValueKind::Bool,
            Value::Int(_) => ValueKind::Int,
            Value::Unsigned(_) => ValueKind::Unsigned,
            Value::Text(_) => ValueKind::Text,
        }
    }
}

/// Why the store refused an access.
#[derive(Clone, Copy, Debug, PartialEq, Eq, Structural)]
pub enum StateError {
    /// A variable of that name exists already.
    DuplicateKey,
    /// No variable has that name.
    MissingKey,
    /// The variable has another type than the one asked for.
    WrongType,
}

/// One variable of the store.
pub struct Slot {
    pub key: &'static str,
    pub value: Value,
}

/// What the slots hold, as a map from names to values. Where a name occurs
/// twice, the later slot counts.
pub open spec fn map_of(slots: Seq<Slot>) -> Map<Seq<char>, Value>
    decreases slots.len(),
{
    if slots.len() == 0 {
        Map::empty()
    } else {
        map_of(slots.drop_last()).insert(slots.last().key@, slots.last().value)
    }
}

/// Whether no two slots have the same name.
pub open spec fn distinct_keys(slots: Seq<Slot>) -> bool {
    forall|i: int, j: int|
        0 <= i < slots.len() && 0 <= j < slots.len() && i != j ==> (#[trigger] slots[i]).key@ != (
        #[trigger] slots[j]).key@
}

/// What the store answers when the variable `key` is asked for as a `kind`.
pub open spec fn lookup(vars: Map<Seq<char>, Value>, key: Seq<char>, kind: ValueKind) -> Result<
    Value,
    StateError,
> {
    if !vars.dom().contains(key) {
        Err(StateError::MissingKey)
    } else if vars[key].kind_spec() != kind {
        Err(StateError::WrongType)
    } else {
        Ok(vars[key])
    }
}

proof fn lemma_absent(slots: Seq<Slot>, key: Seq<char>)
    requires
        forall|i: int| 0 <= i < slots.len() ==> (#[trigger] slots[i]).key@ != key,
    ensures
        !map_of(slots).dom().contains(key),
    decreases slots.len(),
{
    if slots.len() > 0 {
        lemma_absent(slots.drop_last(), key);
    }
}

proof fn lemma_present(slots: Seq<Slot>, at: int)
    requires
        distinct_keys(slots),
        0 <= at < slots.len(),
    ensures
        map_of(slots).dom().contains(slots[at].key@),
        map_of(slots)[slots[at].key@] == slots[at].value,
    decreases slots.len(),
{
    if at < slots.len() - 1 {
        lemma_present(slots.drop_last(), at);
    }
}

proof fn lemma_updated(slots: Seq<Slot>, at: int, value: Value)
    requires
        distinct_keys(slots),
        0 <= at < slots.len(),
    ensures
        map_of(slots.update(at, Slot { key: slots[at].key, value })) == map_of(slots).insert(
            slots[at].key@,
            value,
        ),
    decreases slots.len(),
{
    let key = slots[at].key;
    let updated = slots.update(at, Slot { key, value });
    if at == slots.len() - 1 {
        assert(updated.drop_last() =~= slots.drop_last());
        assert(map_of(updated) =~= map_of(slots).insert(key@, value));
    } else {
        lemma_updated(slots.drop_last(), at, value);
        assert(updated.drop_last() =~= slots.drop_last().update(at, Slot { key, value }));
        assert(slots.last().key@ != key@);
        assert(map_of(updated) =~= map_of(slots).insert(key@, value));
    }
}

/// The store of a view tree: variables by name, each with a value of one of
/// the types of [`Value`]. No name occurs twice.
pub struct State {
    vars: Vec<Slot>,
}

impl State {
    /// The variables of the store: their values by their names.
    pub closed spec fn view(&self) -> Map<Seq<char>, Value> {
        map_of(self.vars@)
    }

    #[verifier::type_invariant]
    spec fn no_name_twice(&self) -> bool {
        distinct_keys(self.vars@)
    }

    /// A store without variables.
    pub fn new() -> (state: Self)
        ensures
            state@ == Map::<Seq<char>, Value>::empty(),
    {
        State { vars: Vec::new() }
    }

    /// Where the variable `id` stands among the slots, if it exists.
    fn position(&self, id: &str) -> (at: Option<usize>)
        ensures
            match at {
                Some(i) => i < self.vars@.len() && self.vars@[i as int].key@ == id@,
                None => forall|i: int| 0 <= i < self.vars@.len() ==> (#[trigger] self.vars@[i]).key@
                    != id@,
            },
    {
        let n = self.vars.len();
        let mut i: usize = 0;
        while i < n
            invariant
                0 <= i <= n,
                n == self.vars@.len(),
                forall|j: int| 0 <= j < i ==> (#[trigger] self.vars@[j]).key@ != id@,
            decreases n - i,
        {
            if same_text(self.vars[i].key, id) {
                return Some(i);
            }
            i = i + 1;
        }
        None
    }

    /// Whether a variable of the name `id` exists.
    pub fn contains(&self, id: &str) -> (present: bool)
        ensures
            present == self@.dom().contains(id@),
    {
        proof {
            use_type_invariant(self);
        }
        match self.position(id) {
            Some(i) => {
                proof {
                    lemma_present(self.vars@, i as int);
                }
                true
            },
            None => {
                proof {
                    lemma_absent(self.vars@, id@);
                }
                false
            },
        }
    }

    /// Adds the variable `id` with the value `var`. A name that is taken is
    /// refused, and the store stays as it was.
    pub fn add_var(&mut self, id: &'static str, var: Value) -> (added: Result<(), StateError>)
        ensures
            old(self)@.dom().contains(id@) ==> added == Err::<(), StateError>(StateError::DuplicateKey)
                && final(self)@ == old(self)@,
            !old(self)@.dom().contains(id@) ==> added is Ok && final(self)@ == old(self)@.insert(
                id@,
                var,
            ),
    {
        proof {
            use_type_invariant(&*self);
        }
        match self.position(id) {
            Some(i) => {
                proof {
                    lemma_present(self.vars@, i as int);
                }
                Err(StateError::DuplicateKey)
            },
            None => {
                proof {
                    lemma_absent(self.vars@, id@);
                }
                let mut vars: Vec<Slot> = Vec::new();
                core::mem::swap(&mut self.vars, &mut vars);
                let ghost before = vars@;
                vars.push(Slot { key: id, value: var });
                proof {
                    assert(vars@.drop_last() =~= before);
                }
                self.vars = vars;
                Ok(())
            },
        }
    }

    /// Reads the variable `id` as a value of the type `kind`.
    pub fn peek(&self, id: &str, kind: ValueKind) -> (found: Result<&Value, StateError>)
        ensures
            match lookup(self@, id@, kind) {
                Ok(value) => found matches Ok(v) && *v == value,
                Err(e) => found matches Err(f) && f == e,
            },
    {
        proof {
            use_type_invariant(self);
        }
        match self.position(id) {
            Some(i) => {
                proof {
                    lemma_present(self.vars@, i as int);
                }
                let value = &self.vars[i].value;
                if value.kind() == kind {
                    Ok(value)
                } else {
                    Err(StateError::WrongType)
                }
            },
            None => {
                proof {
                    lemma_absent(self.vars@, id@);
                }
                Err(StateError::MissingKey)
            },
        }
    }

    /// Writes `value` to the variable `id`, which must exist and hold a value
    /// of the same type. Where it does not, the store stays as it was.
    pub fn set(&mut self, id: &str, value: Value) -> (written: Result<(), StateError>)
        ensures
            match lookup(old(self)@, id@, value.kind_spec()) {
                Ok(_) => written is Ok && final(self)@ == old(self)@.insert(id@, value),
                Err(e) => written == Err::<(), StateError>(e) && final(self)@ == old(self)@,
            },
    {
        proof {
            use_type_invariant(&*self);
        }
        match self.position(id) {
            Some(i) => {
                proof {
                    lemma_present(self.vars@, i as int);
                }
                if self.vars[i].value.kind() == value.kind() {
                    let mut vars: Vec<Slot> = Vec::new();
                    core::mem::swap(&mut self.vars, &mut vars);
                    let ghost before = vars@;
                    let key = vars[i].key;
                    vars.set(i, Slot { key, value });
                    proof {
                        lemma_updated(before, i as int, value);
                        assert(vars@ =~= before.update(i as int, Slot { key, value }));
                        assert forall|a: int, b: int|
                            0 <= a < vars@.len() && 0 <= b < vars@.len() && a != b implies (
                        #[trigger] vars@[a]).key@ != (#[trigger] vars@[b]).key@ by {
                            assert(vars@[a].key@ == before[a].key@);
                            assert(vars@[b].key@ == before[b].key@);
                        }
                    }
                    self.vars = vars;
                    Ok(())
                } else {
                    Err(StateError::WrongType)
                }
            },
            None => {
                proof {
                    lemma_absent(self.vars@, id@);
                }
                Err(StateError::MissingKey)
            },
        }
    }
}

} // verus!
