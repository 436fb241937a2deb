//! The instance list kept by the copier's Windows installer: terminal
//! installations with ids, known by unique names.
use vstd::prelude::*;
use crate::registry::{
    name_index, lemma_name_index, lemma_name_index_unique, names_unique, max_id, lemma_max_id,
    largest_id,
};
use crate::text::{str_equals, concat3};

verus! {

/// One terminal installation with the worker settings it was created for.
#[derive(Debug, Clone)]
pub struct Instance {
    pub id: usize,
    pub name: String,
    pub address: String,
    /// The bit pattern of the `f64` lot-size multiplier.
    pub multiplier_bits: u64,
    pub path: String,
    /// When the instance was created, in RFC 3339.
    pub created_at: String,
}

impl Instance {
    /// An instance created at the given time (RFC 3339); the caller reads
    /// the clock.
    pub fn new(
        id: usize,
        name: String,
        address: String,
        multiplier_bits: u64,
        path: String,
        created_at: String,
    ) -> (i: Self)
        ensures
            i.id == id && i.name == name && i.address == address && i.multiplier_bits
                == multiplier_bits && i.path == path && i.created_at == created_at,
    {
        Instance { id, name, address, multiplier_bits, path, created_at }
    }
}

/// The list of instances, as stored in the configuration file.
#[derive(Debug, Clone)]
pub struct InstanceConfig {
    pub instances: Vec<Instance>,
}

/// The names of a list of instances.
pub open spec fn names(s: Seq<Instance>) -> Seq<Seq<char>> {
    s.map_values(|i: Instance| i.name@)
}

/// The ids of a list of instances.
pub open spec fn ids(s: Seq<Instance>) -> Seq<usize> {
    s.map_values(|i: Instance| i.id)
}

fn find(instances: &Vec<Instance>, name: &str) -> (k: Option<usize>)
    ensures
        -1 <= name_index(names(instances@), name@) < instances@.len(),
        match k {
            Some(i) => i as int == name_index(names(instances@), name@),
            None => name_index(names(instances@), name@) < 0,
        },
{
    let ghost ns = names(instances@);
    proof {
        lemma_name_index(ns, name@);
    }
    let mut i: usize = 0;
    while i < instances.len()
        invariant
            i <= instances.len(),
            ns == names(instances@),
            forall|j: int| 0 <= j < i ==> ns[j] != name@,
        decreases instances.len() - i,
    {
        if str_equals(instances[i].name.as_str(), name) {
            proof {
                lemma_name_index_unique(ns, name@, i as int);
            }
            return Some(i);
        }
        i += 1;
    }
    proof {
        lemma_name_index_unique(ns, name@, -1);
    }
    None
}

impl InstanceConfig {
    /// An empty list.
    pub fn new() -> (c: Self)
        ensures
            c.instances@ == Seq::<Instance>::empty(),
    {
        InstanceConfig { instances: Vec::new() }
    }

    /// Adds an instance under a name that is not taken yet.
    pub fn add_instance(&mut self, instance: Instance) -> (r: Result<(), String>)
        ensures
            name_index(names(old(self).instances@), instance.name@) >= 0 ==> r is Err && r->Err_0@
                == "Instance '"@ + instance.name@ + "' already exists"@ && final(self).instances@
                == old(self).instances@,
            name_index(names(old(self).instances@), instance.name@) < 0 ==> r is Ok
                && final(self).instances@ == old(self).instances@.push(instance),
    {
        match find(&self.instances, instance.name.as_str()) {
            Some(_) => Err(concat3("Instance '", instance.name.as_str(), "' already exists")),
            None => {
                self.instances.push(instance);
                Ok(())
            },
        }
    }

    /// Takes the instance with this name out of the list.
    pub fn remove_instance(&mut self, name: &str) -> (r: Result<Instance, String>)
        ensures
            name_index(names(old(self).instances@), name@) < 0 ==> r is Err && r->Err_0@
                == "Instance '"@ + name@ + "' not found"@ && final(self).instances@ == old(
                self,
            ).instances@,
            name_index(names(old(self).instances@), name@) >= 0 ==> r is Ok && r->Ok_0 == old(
                self,
            ).instances@[name_index(names(old(self).instances@), name@)] && final(self).instances@
                == old(self).instances@.remove(name_index(names(old(self).instances@), name@)),
    {
        match find(&self.instances, name) {
            Some(k) => Ok(self.instances.remove(k)),
            None => Err(concat3("Instance '", name, "' not found")),
        }
    }

    /// The instance with this name, if there is one.
    pub fn get_instance(&self, name: &str) -> (r: Option<&Instance>)
        ensures
            name_index(names(self.instances@), name@) < 0 ==> r is None,
            name_index(names(self.instances@), name@) >= 0 ==> r == Some(
                &self.instances@[name_index(names(self.instances@), name@)],
            ),
    {
        match find(&self.instances, name) {
            Some(k) => Some(&self.instances[k]),
            None => None,
        }
    }

    /// The id for a new instance: one more than the largest id in use (1 for
    /// an empty list).
    pub fn next_id(&self) -> (n: usize)
        requires
            max_id(ids(self.instances@)) < usize::MAX,
        ensures
            n == max_id(ids(self.instances@)) + 1,
            forall|i: int| 0 <= i < self.instances@.len() ==> self.instances@[i].id < n,
    {
        let mut v: Vec<usize> = Vec::new();
        let mut i: usize = 0;
        while i < self.instances.len()
            invariant
                i <= self.instances.len(),
                v@ == ids(self.instances@).take(i as int),
            decreases self.instances.len() - i,
        {
            v.push(self.instances[i].id);
            assert(v@ =~= ids(self.instances@).take(i + 1));
            i += 1;
        }
        assert(v@ =~= ids(self.instances@));
        proof {
            lemma_max_id(ids(self.instances@));
            assert forall|i: int| 0 <= i < self.instances@.len() implies self.instances@[i].id
                <= max_id(ids(self.instances@)) by {
                assert(ids(self.instances@)[i] == self.instances@[i].id);
            }
        }
        largest_id(&v) + 1
    }
}

/// Adding keeps names unique, and a name just added is found again, with the
/// instance it was added with.
pub proof fn lemma_add_then_get(s: Seq<Instance>, i: Instance)
    requires
        names_unique(names(s)),
        name_index(names(s), i.name@) < 0,
    ensures
        names_unique(names(s.push(i))),
        name_index(names(s.push(i)), i.name@) == s.len(),
        s.push(i)[s.len() as int] == i,
{
    lemma_name_index(names(s), i.name@);
    let t = s.push(i);
    assert(names(t) =~= names(s).push(i.name@));
    assert forall|j: int| 0 <= j < names(t).len() && (j < s.len()) implies names(t)[j]
        != i.name@ by {
        assert(names(t)[j] == names(s)[j]);
    }
    lemma_name_index_unique(names(t), i.name@, s.len() as int);
}

/// Removing the instance just added leaves the list as it was.
pub proof fn lemma_add_then_remove(s: Seq<Instance>, i: Instance)
    requires
        name_index(names(s), i.name@) < 0,
    ensures
        s.push(i).remove(name_index(names(s.push(i)), i.name@)) == s,
{
    lemma_name_index(names(s), i.name@);
    let t = s.push(i);
    assert(names(t) =~= names(s).push(i.name@));
    assert forall|j: int| 0 <= j < names(t).len() && (j < s.len()) implies names(t)[j]
        != i.name@ by {
        assert(names(t)[j] == names(s)[j]);
    }
    lemma_name_index_unique(names(t), i.name@, s.len() as int);
    assert(t.remove(s.len() as int) =~= s);
}

} // verus!
