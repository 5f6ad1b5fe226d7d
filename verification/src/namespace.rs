//! The query namespace: the table names of one invocation, each bound to
//! the plan that a query over that name reads.

use vstd::prelude::*;
use crate::plan::{DeferredPlan, PlanModel};

verus! {

/// A table name and the plan bound to it.
#[derive(Debug)]
pub struct Binding {
    pub name: String,
    pub plan: DeferredPlan,
}

/// No two bindings share a name.
pub open spec fn distinct_names(bindings: Seq<Binding>) -> bool {
    forall|i: int, j: int|
        0 <= i < j < bindings.len() ==> bindings[i].name@ != bindings[j].name@
}

pub open spec fn binds(bindings: Seq<Binding>, name: Seq<char>) -> bool {
    exists|i: int| 0 <= i < bindings.len() && #[trigger] bindings[i].name@ == name
}

pub open spec fn position_of(bindings: Seq<Binding>, name: Seq<char>) -> int {
    choose|i: int| 0 <= i < bindings.len() && #[trigger] bindings[i].name@ == name
}

/// The mapping that a sequence of bindings stands for.
pub open spec fn mapping_of(bindings: Seq<Binding>) -> Map<Seq<char>, PlanModel> {
    Map::new(
        |name: Seq<char>| binds(bindings, name),
        |name: Seq<char>| bindings[position_of(bindings, name)].plan@,
    )
}

proof fn lemma_position(bindings: Seq<Binding>, i: int)
    requires
        distinct_names(bindings),
        0 <= i < bindings.len(),
    ensures
        binds(bindings, bindings[i].name@),
        position_of(bindings, bindings[i].name@) == i,
{
    let name = bindings[i].name@;
    assert(bindings[i].name@ == name);
    let p = position_of(bindings, name);
    assert(0 <= p < bindings.len() && bindings[p].name@ == name);
    if p != i {
        if p < i {
            assert(bindings[p].name@ != bindings[i].name@);
        } else {
            assert(bindings[i].name@ != bindings[p].name@);
        }
    }
}

proof fn lemma_replace(bindings: Seq<Binding>, i: int, binding: Binding)
    requires
        distinct_names(bindings),
        0 <= i < bindings.len(),
        binding.name@ == bindings[i].name@,
    ensures
        distinct_names(bindings.update(i, binding)),
        mapping_of(bindings.update(i, binding)) == mapping_of(bindings).insert(
            binding.name@,
            binding.plan@,
        ),
{
    let after = bindings.update(i, binding);
    assert(distinct_names(after)) by {
        assert forall|a: int, b: int| 0 <= a < b < after.len() implies after[a].name@
            != after[b].name@ by {
            assert(after[a].name@ == bindings[a].name@);
            assert(after[b].name@ == bindings[b].name@);
        }
    }
    let expected = mapping_of(bindings).insert(binding.name@, binding.plan@);
    assert forall|name: Seq<char>| binds(after, name) <==> expected.dom().contains(
        name,
    ) by {
        if binds(after, name) {
            let p = position_of(after, name);
            assert(bindings[p].name@ == name);
        }
        if binds(bindings, name) {
            let p = position_of(bindings, name);
            assert(after[p].name@ == name);
        }
        if name == binding.name@ {
            assert(after[i].name@ == name);
        }
    }
    assert forall|name: Seq<char>| binds(after, name) implies mapping_of(after)[name]
        == expected[name] by {
        let p = position_of(after, name);
        lemma_position(after, p);
        if p == i {
        } else {
            assert(bindings[p].name@ == name);
            lemma_position(bindings, p);
        }
    }
    assert(mapping_of(after) =~= expected);
}

proof fn lemma_append(bindings: Seq<Binding>, binding: Binding)
    requires
        distinct_names(bindings),
        !binds(bindings, binding.name@),
    ensures
        distinct_names(bindings.push(binding)),
        mapping_of(bindings.push(binding)) == mapping_of(bindings).insert(
            binding.name@,
            binding.plan@,
        ),
{
    let after = bindings.push(binding);
    let last = bindings.len() as int;
    assert(distinct_names(after)) by {
        assert forall|a: int, b: int| 0 <= a < b < after.len() implies after[a].name@
            != after[b].name@ by {
            if b == last {
                assert(bindings[a].name@ == after[a].name@);
            } else {
                assert(after[a].name@ == bindings[a].name@);
                assert(after[b].name@ == bindings[b].name@);
            }
        }
    }
    let expected = mapping_of(bindings).insert(binding.name@, binding.plan@);
    assert forall|name: Seq<char>| binds(after, name) <==> expected.dom().contains(
        name,
    ) by {
        if binds(after, name) {
            let p = position_of(after, name);
            if p != last {
                assert(bindings[p].name@ == name);
            }
        }
        if binds(bindings, name) {
            let p = position_of(bindings, name);
            assert(after[p].name@ == name);
        }
        if name == binding.name@ {
            assert(after[last].name@ == name);
        }
    }
    assert forall|name: Seq<char>| binds(after, name) implies mapping_of(after)[name]
        == expected[name] by {
        let p = position_of(after, name);
        lemma_position(after, p);
        if p == last {
        } else {
            assert(bindings[p].name@ == name);
            lemma_position(bindings, p);
        }
    }
    assert(mapping_of(after) =~= expected);
}

/// The table names of one invocation and the plans bound to them.
pub struct QueryNamespace {
    bindings: Vec<Binding>,
}

impl View for QueryNamespace {
    type V = Map<Seq<char>, PlanModel>;

    closed spec fn view(&self) -> Map<Seq<char>, PlanModel> {
        mapping_of(self.bindings@)
    }
}

impl QueryNamespace {
    #[verifier::type_invariant]
    spec fn valid(self) -> bool {
        distinct_names(self.bindings@)
    }

    /// A namespace in which no name is bound.
    pub fn new() -> (namespace: QueryNamespace)
        ensures
            namespace@ == Map::<Seq<char>, PlanModel>::empty(),
    {
        let namespace = QueryNamespace { bindings: Vec::new() };
        assert(namespace@ =~= Map::<Seq<char>, PlanModel>::empty());
        namespace
    }

    /// Binds `name` to `plan`. A plan bound to `name` before is dropped:
    /// the last binding wins, and rebinding is no error.
    pub fn bind(&mut self, name: &str, plan: DeferredPlan)
        ensures
            final(self)@ == old(self)@.insert(name@, plan@),
    {
        proof {
            use_type_invariant(&*self);
        }
        let key = String::from_str(name);
        let mut bindings: Vec<Binding> = Vec::new();
        std::mem::swap(&mut self.bindings, &mut bindings);
        let n: usize = bindings.len();
        let mut i: usize = 0;
        while i < n && bindings[i].name != key
            invariant
                i <= n,
                n == bindings@.len(),
                key@ == name@,
                forall|j: int| 0 <= j < i ==> bindings@[j].name@ != name@,
            decreases n - i,
        {
            i += 1;
        }
        let binding = Binding { name: key, plan };
        if i < n {
            proof {
                lemma_replace(bindings@, i as int, binding);
            }
            bindings.set(i, binding);
        } else {
            proof {
                assert(!binds(bindings@, name@));
                lemma_append(bindings@, binding);
            }
            bindings.push(binding);
        }
        self.bindings = bindings;
    }

    /// The plan bound to `name`, if there is one.
    pub fn lookup(&self, name: &str) -> (plan: Option<&DeferredPlan>)
        ensures
            match plan {
                Some(p) => self@.dom().contains(name@) && self@[name@] == p@,
                None => !self@.dom().contains(name@),
            },
    {
        proof {
            use_type_invariant(self);
        }
        let key = String::from_str(name);
        let n: usize = self.bindings.len();
        let mut i: usize = 0;
        while i < n
            invariant
                i <= n,
                n == self.bindings@.len(),
                key@ == name@,
                distinct_names(self.bindings@),
                forall|j: int| 0 <= j < i ==> self.bindings@[j].name@ != name@,
            decreases n - i,
        {
            if self.bindings[i].name == key {
                proof {
                    lemma_position(self.bindings@, i as int);
                }
                return Some(&self.bindings[i].plan);
            }
            i += 1;
        }
        None
    }

    /// The bindings, each name once, in no order that callers may rely on.
    pub fn bindings(&self) -> (bindings: &Vec<Binding>)
        ensures
            distinct_names(bindings@),
            mapping_of(bindings@) == self@,
    {
        proof {
            use_type_invariant(self);
        }
        &self.bindings
    }

    /// The number of names that are bound.
    pub fn len(&self) -> (n: usize)
        ensures
            n == self@.dom().len(),
            self@.dom().finite(),
    {
        proof {
            use_type_invariant(self);
            lemma_size(self.bindings@);
        }
        self.bindings.len()
    }
}

proof fn lemma_size(bindings: Seq<Binding>)
    requires
        distinct_names(bindings),
    ensures
        mapping_of(bindings).dom().finite(),
        mapping_of(bindings).dom().len() == bindings.len(),
    decreases bindings.len(),
{
    if bindings.len() == 0 {
        assert(mapping_of(bindings).dom() =~= Set::<Seq<char>>::empty());
    } else {
        let front = bindings.drop_last();
        let last = bindings.last();
        assert(distinct_names(front)) by {
            assert forall|a: int, b: int| 0 <= a < b < front.len() implies front[a].name@
                != front[b].name@ by {
                assert(front[a] == bindings[a] && front[b] == bindings[b]);
            }
        }
        assert(!binds(front, last.name@)) by {
            if binds(front, last.name@) {
                let p = position_of(front, last.name@);
                assert(bindings[p].name@ != bindings[bindings.len() - 1].name@);
            }
        }
        lemma_size(front);
        lemma_append(front, last);
        assert(front.push(last) =~= bindings);
    }
}

/// Binding a name twice leaves what the second binding alone would have
/// left: the name stands for the second plan, no other name is touched, and
/// nothing of the first plan remains.
pub proof fn lemma_last_bind_wins(
    bindings: Map<Seq<char>, PlanModel>,
    name: Seq<char>,
    first: PlanModel,
    second: PlanModel,
)
    ensures
        bindings.insert(name, first).insert(name, second) == bindings.insert(name, second),
        bindings.insert(name, first).insert(name, second)[name] == second,
{
    assert(bindings.insert(name, first).insert(name, second) =~= bindings.insert(name, second));
}

} // verus!
