use vstd::prelude::*;

use crate::value::{Value, ValueModel};

verus! {

/// Bindings in order of definition, as (name, value) pairs.
pub type Bindings = Seq<(Seq<char>, ValueModel)>;

/// Index of the most recent binding of `name`, or `-1` where there is none.
pub open spec fn last_index(s: Bindings, name: Seq<char>) -> int
    decreases s.len(),
{
    if s.len() == 0 {
        -1
    } else if s.last().0 == name {
        s.len() - 1
    } else {
        last_index(s.drop_last(), name)
    }
}

/// The value that `name` is bound to, where it is bound.
pub open spec fn env_lookup(s: Bindings, name: Seq<char>) -> Option<ValueModel> {
    let i = last_index(s, name);
    if i < 0 {
        None
    } else {
        Some(s[i].1)
    }
}

/// The bindings after `name` is set to `v`; `None` where `name` is unbound,
/// since assignment does not declare.
pub open spec fn env_assign(s: Bindings, name: Seq<char>, v: ValueModel) -> Option<Bindings> {
    let i = last_index(s, name);
    if i < 0 {
        None
    } else {
        Some(s.update(i, (name, v)))
    }
}

pub proof fn lemma_last_index_range(s: Bindings, name: Seq<char>)
    ensures
        -1 <= last_index(s, name) < s.len(),
        last_index(s, name) >= 0 ==> s[last_index(s, name)].0 == name,
    decreases s.len(),
{
    if s.len() > 0 && s.last().0 != name {
        lemma_last_index_range(s.drop_last(), name);
    }
}

/// One name bound to one value.
#[derive(Debug)]
pub struct Binding {
    pub name: String,
    pub value: Value,
}

/// The store of variable bindings that evaluation reads and assigns. A later
/// definition of a name shadows an earlier one.
#[derive(Debug)]
pub struct Environment {
    bindings: Vec<Binding>,
}

impl View for Environment {
    type V = Bindings;

    closed spec fn view(&self) -> Bindings {
        self.bindings@.map_values(|b: Binding| (b.name@, b.value@))
    }
}

impl Environment {
    pub fn new() -> (r: Environment)
        ensures
            r@ == Seq::<(Seq<char>, ValueModel)>::empty(),
    {
        let r = Environment { bindings: Vec::new() };
        assert(r@ =~= Seq::<(Seq<char>, ValueModel)>::empty());
        r
    }

    /// Binds `name` to `value`, shadowing any earlier binding of it.
    pub fn define(&mut self, name: String, value: Value)
        ensures
            final(self)@ == old(self)@.push((name@, value@)),
    {
        let ghost n = name@;
        let ghost v = value@;
        self.bindings.push(Binding { name, value });
        assert(final(self)@ =~= old(self)@.push((n, v)));
    }

    /// Position of the most recent binding of `name`.
    fn find(&self, name: &String) -> (r: Option<usize>)
        ensures
            r matches Some(i) ==> i == last_index(self@, name@),
            r is None ==> last_index(self@, name@) == -1,
    {
        let mut i: usize = self.bindings.len();
        assert(self@.subrange(0, i as int) =~= self@);
        while i > 0
            invariant
                i <= self.bindings@.len(),
                last_index(self@, name@) == last_index(self@.subrange(0, i as int), name@),
            decreases i,
        {
            let ghost pre = self@.subrange(0, i as int);
            if self.bindings[i - 1].name.eq(name) {
                assert(pre.last() == self@[i - 1]);
                return Some(i - 1);
            }
            assert(pre.drop_last() =~= self@.subrange(0, i - 1));
            i = i - 1;
        }
        assert(self@.subrange(0, 0).len() == 0);
        None
    }

    /// The value bound to `name`, where it is bound.
    pub fn get(&self, name: &String) -> (r: Option<Value>)
        ensures
            env_lookup(self@, name@) == match r {
                Some(v) => Some(v@),
                None => None::<ValueModel>,
            },
    {
        match self.find(name) {
            Some(i) => {
                proof {
                    lemma_last_index_range(self@, name@);
                }
                Some(self.bindings[i].value.duplicate())
            },
            None => None,
        }
    }

    /// Sets the binding of `name` to `value`; `false`, with nothing changed,
    /// where `name` is unbound.
    pub fn assign(&mut self, name: &String, value: Value) -> (r: bool)
        ensures
            r == env_assign(old(self)@, name@, value@) is Some,
            r ==> Some(final(self)@) == env_assign(old(self)@, name@, value@),
            !r ==> final(self)@ == old(self)@,
    {
        match self.find(name) {
            Some(i) => {
                proof {
                    lemma_last_index_range(self@, name@);
                }
                let ghost v = value@;
                let n = name.clone();
                self.bindings.set(i, Binding { name: n, value });
                assert(final(self)@ =~= old(self)@.update(i as int, (name@, v)));
                true
            },
            None => false,
        }
    }
}

} // verus!
