//! The instance list of the Windows instance manager: terminal directories
//! known by unique names.
use vstd::prelude::*;
use crate::registry::{name_index, lemma_name_index, lemma_name_index_unique, names_unique};
use crate::text::{str_equals, concat3};

verus! {

/// One terminal installation.
#[derive(Debug, Clone)]
pub struct Instance {
    pub name: String,
    /// The directory the terminal is installed in.
    pub path: String,
    pub port: Option<u16>,
    /// When the instance was created, in RFC 3339.
    pub created_at: String,
}

/// The list of instances, as stored in the configuration file.
#[derive(Debug, Clone)]
pub struct Config {
    pub instances: Vec<Instance>,
}

/// The names of a list of instances.
pub open spec fn names(s: Seq<Instance>) -> Seq<Seq<char>> {
    s.map_values(|i: Instance| i.name@)
}

fn find(instances: &Vec<Instance>, name: &str) -> (k: Option<usize>)
    ensures
        -1 <= name_index(names(instances@), name@) < instances@.len(),
        match k {
            Some(i) => i as int == name_index(names(instances@), name@),
            None => name_index(names(instances@), name@) < 0,
        },
{
    let ghost ns = names(instances@);
    proof {
        lemma_name_index(ns, name@);
    }
    let mut i: usize = 0;
    while i < instances.len()
        invariant
            i <= instances.len(),
            ns == names(instances@),
            forall|j: int| 0 <= j < i ==> ns[j] != name@,
        decreases instances.len() - i,
    {
        if str_equals(instances[i].name.as_str(), name) {
            proof {
                lemma_name_index_unique(ns, name@, i as int);
            }
            return Some(i);
        }
        i += 1;
    }
    proof {
        lemma_name_index_unique(ns, name@, -1);
    }
    None
}

impl Config {
    /// An empty list.
    pub fn new() -> (c: Self)
        ensures
            c.instances@ == Seq::<Instance>::empty(),
    {
        Config { instances: Vec::new() }
    }

    /// Adds an instance under a name that is not taken yet.
    pub fn add_instance(&mut self, instance: Instance) -> (r: Result<(), String>)
        ensures
            name_index(names(old(self).instances@), instance.name@) >= 0 ==> r is Err && r->Err_0@
                == "Instance '"@ + instance.name@ + "' already exists"@ && final(self).instances@
                == old(self).instances@,
            name_index(names(old(self).instances@), instance.name@) < 0 ==> r is Ok
                && final(self).instances@ == old(self).instances@.push(instance),
    {
        match find(&self.instances, instance.name.as_str()) {
            Some(_) => Err(concat3("Instance '", instance.name.as_str(), "' already exists")),
            None => {
                self.instances.push(instance);
                Ok(())
            },
        }
    }

    /// Takes the instance with this name out of the list.
    pub fn remove_instance(&mut self, name: &str) -> (r: Result<Instance, String>)
        ensures
            name_index(names(old(self).instances@), name@) < 0 ==> r is Err && r->Err_0@
                == "Instance '"@ + name@ + "' not found"@ && final(self).instances@ == old(
                self,
            ).instances@,
            name_index(names(old(self).instances@), name@) >= 0 ==> r is Ok && r->Ok_0 == old(
                self,
            ).instances@[name_index(names(old(self).instances@), name@)] && final(self).instances@
                == old(self).instances@.remove(name_index(names(old(self).instances@), name@)),
    {
        match find(&self.instances, name) {
            Some(k) => Ok(self.instances.remove(k)),
            None => Err(concat3("Instance '", name, "' not found")),
        }
    }

    /// The instance with this name, if there is one.
    pub fn get_instance(&self, name: &str) -> (r: Option<&Instance>)
        ensures
            name_index(names(self.instances@), name@) < 0 ==> r is None,
            name_index(names(self.instances@), name@) >= 0 ==> r == Some(
                &self.instances@[name_index(names(self.instances@), name@)],
            ),
    {
        match find(&self.instances, name) {
            Some(k) => Some(&self.instances[k]),
            None => None,
        }
    }

    /// Where the instance with this name is in the list, if there is one.
    pub fn position(&self, name: &str) -> (r: Option<usize>)
        ensures
            name_index(names(self.instances@), name@) < 0 ==> r is None,
            name_index(names(self.instances@), name@) >= 0 ==> r is Some && r->0 as int
                == name_index(names(self.instances@), name@),
            -1 <= name_index(names(self.instances@), name@) < self.instances@.len(),
    {
        find(&self.instances, name)
    }
}

/// Adding keeps names unique, and a name just added is found again, with the
/// instance it was added with.
pub proof fn lemma_add_then_get(s: Seq<Instance>, i: Instance)
    requires
        names_unique(names(s)),
        name_index(names(s), i.name@) < 0,
    ensures
        names_unique(names(s.push(i))),
        name_index(names(s.push(i)), i.name@) == s.len(),
        s.push(i)[s.len() as int] == i,
{
    lemma_name_index(names(s), i.name@);
    let t = s.push(i);
    assert(names(t) =~= names(s).push(i.name@));
    assert forall|j: int| 0 <= j < names(t).len() && (j < s.len()) implies names(t)[j]
        != i.name@ by {
        assert(names(t)[j] == names(s)[j]);
    }
    lemma_name_index_unique(names(t), i.name@, s.len() as int);
}

/// Removing the instance just added leaves the list as it was.
pub proof fn lemma_add_then_remove(s: Seq<Instance>, i: Instance)
    requires
        name_index(names(s), i.name@) < 0,
    ensures
        s.push(i).remove(name_index(names(s.push(i)), i.name@)) == s,
{
    lemma_name_index(names(s), i.name@);
    let t = s.push(i);
    assert(names(t) =~= names(s).push(i.name@));
    assert forall|j: int| 0 <= j < names(t).len() && (j < s.len()) implies names(t)[j]
        != i.name@ by {
        assert(names(t)[j] == names(s)[j]);
    }
    lemma_name_index_unique(names(t), i.name@, s.len() as int);
    assert(t.remove(s.len() as int) =~= s);
}

/// Removing keeps names unique.
pub proof fn lemma_remove_keeps_unique(s: Seq<Instance>, k: int)
    requires
        names_unique(names(s)),
        0 <= k < s.len(),
    ensures
        names_unique(names(s.remove(k))),
{
    let t = s.remove(k);
    assert forall|a: int, b: int| 0 <= a < b < names(t).len() implies names(t)[a]
        != names(t)[b] by {
        let a2 = if a < k { a } else { a + 1 };
        let b2 = if b < k { b } else { b + 1 };
        assert(names(t)[a] == names(s)[a2]);
        assert(names(t)[b] == names(s)[b2]);
    }
}

} // verus!
