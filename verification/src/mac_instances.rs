//! The instance list of the macOS instance manager: Wine prefixes that each
//! hold a terminal, known by name and id.
use vstd::prelude::*;
use crate::registry::{
    name_index, lemma_name_index, lemma_name_index_unique, max_id, lemma_max_id, largest_id,
};
use crate::text::{str_equals, concat2, concat3, join_path, joined, u64_to_decimal, decimal};

verus! {

/// The terminal executable inside a Wine prefix.
pub open spec fn mt5_relative_path() -> Seq<char> {
    "drive_c/Program Files/MetaTrader 5/terminal64.exe"@
}

/// One terminal in its own Wine prefix.
#[derive(Debug, Clone)]
pub struct Instance {
    pub id: usize,
    pub name: String,
    pub prefix_path: String,
    /// When the instance was created, in RFC 3339.
    pub created_at: String,
}

impl Instance {
    /// An instance created at the given time (RFC 3339); the caller reads
    /// the clock.
    pub fn new(id: usize, name: String, prefix_path: String, created_at: String) -> (i: Self)
        ensures
            i.id == id && i.name == name && i.prefix_path == prefix_path && i.created_at
                == created_at,
    {
        Instance { id, name, prefix_path, created_at }
    }

    /// The terminal executable of this instance.
    pub fn mt5_executable(&self) -> (p: String)
        ensures
            p@ == joined(self.prefix_path@, mt5_relative_path()),
    {
        join_path(self.prefix_path.as_str(), "drive_c/Program Files/MetaTrader 5/terminal64.exe")
    }
}

/// The instances as loaded from the instances file.
#[derive(Debug, Clone)]
pub struct InstanceManager {
    pub instances: Vec<Instance>,
}

/// The names of a list of instances.
pub open spec fn names(s: Seq<Instance>) -> Seq<Seq<char>> {
    s.map_values(|i: Instance| i.name@)
}

/// The ids of a list of instances.
pub open spec fn ids(s: Seq<Instance>) -> Seq<usize> {
    s.map_values(|i: Instance| i.id)
}

/// The error for a name that no instance has.
pub open spec fn not_found(name: Seq<char>) -> Seq<char> {
    "Instance '"@ + name + "' not found"@
}

impl InstanceManager {
    fn find(&self, name: &str) -> (k: Option<usize>)
        ensures
            -1 <= name_index(names(self.instances@), name@) < self.instances@.len(),
            match k {
                Some(i) => i as int == name_index(names(self.instances@), name@),
                None => name_index(names(self.instances@), name@) < 0,
            },
    {
        let ghost ns = names(self.instances@);
        proof {
            lemma_name_index(ns, name@);
        }
        let mut i: usize = 0;
        while i < self.instances.len()
            invariant
                i <= self.instances.len(),
                ns == names(self.instances@),
                forall|j: int| 0 <= j < i ==> ns[j] != name@,
            decreases self.instances.len() - i,
        {
            if str_equals(self.instances[i].name.as_str(), name) {
                proof {
                    lemma_name_index_unique(ns, name@, i as int);
                }
                return Some(i);
            }
            i += 1;
        }
        proof {
            lemma_name_index_unique(ns, name@, -1);
        }
        None
    }

    /// Appends an instance (the caller checks beforehand that its name is new).
    pub fn add_instance(&mut self, instance: Instance)
        ensures
            final(self).instances@ == old(self).instances@.push(instance),
    {
        self.instances.push(instance);
    }

    /// Takes the first instance with this name out of the list.
    pub fn remove_instance(&mut self, name: &str) -> (r: Result<Instance, String>)
        ensures
            name_index(names(old(self).instances@), name@) < 0 ==> r is Err && r->Err_0@
                == not_found(name@) && final(self).instances@ == old(self).instances@,
            name_index(names(old(self).instances@), name@) >= 0 ==> r is Ok && r->Ok_0 == old(
                self,
            ).instances@[name_index(names(old(self).instances@), name@)] && final(self).instances@
                == old(self).instances@.remove(name_index(names(old(self).instances@), name@)),
    {
        match self.find(name) {
            Some(k) => Ok(self.instances.remove(k)),
            None => Err(concat3("Instance '", name, "' not found")),
        }
    }

    /// The position of the first instance with this name.
    pub fn get_instance(&self, name: &str) -> (r: Result<usize, String>)
        ensures
            name_index(names(self.instances@), name@) < 0 ==> r is Err && r->Err_0@ == not_found(
                name@,
            ),
            name_index(names(self.instances@), name@) >= 0 ==> r == Ok::<usize, String>(
                name_index(names(self.instances@), name@) as usize,
            ),
    {
        match self.find(name) {
            Some(k) => Ok(k),
            None => Err(concat3("Instance '", name, "' not found")),
        }
    }

    /// The id for a new instance: one more than the largest id in use (1 for
    /// an empty list).
    pub fn next_id(&self) -> (n: usize)
        requires
            max_id(ids(self.instances@)) < usize::MAX,
        ensures
            n == max_id(ids(self.instances@)) + 1,
            forall|i: int| 0 <= i < self.instances@.len() ==> self.instances@[i].id < n,
    {
        let mut v: Vec<usize> = Vec::new();
        let mut i: usize = 0;
        while i < self.instances.len()
            invariant
                i <= self.instances.len(),
                v@ == ids(self.instances@).take(i as int),
            decreases self.instances.len() - i,
        {
            v.push(self.instances[i].id);
            assert(v@ =~= ids(self.instances@).take(i + 1));
            i += 1;
        }
        assert(v@ =~= ids(self.instances@));
        proof {
            lemma_max_id(ids(self.instances@));
            assert forall|i: int| 0 <= i < self.instances@.len() implies self.instances@[i].id
                <= max_id(ids(self.instances@)) by {
                assert(ids(self.instances@)[i] == self.instances@[i].id);
            }
        }
        largest_id(&v) + 1
    }

    /// Which instances a `start` command launches: all of them with `--all`
    /// (none to launch when the list is empty), else the named one; without
    /// either the command is refused.
    pub fn start_selection(&self, name: Option<&str>, all: bool) -> (r: Result<Vec<usize>, String>)
        ensures
            all ==> r is Ok && r->Ok_0@ == Seq::new(self.instances@.len(), |i: int| i as usize),
            !all && name is Some ==> match r {
                Ok(v) => name_index(names(self.instances@), name->0@) >= 0 && v@ == seq![
                    name_index(names(self.instances@), name->0@) as usize,
                ],
                Err(e) => name_index(names(self.instances@), name->0@) < 0 && e@ == not_found(
                    name->0@,
                ),
            },
            !all && name is None ==> r is Err && r->Err_0@
                == "Please specify an instance name or use --all to start all instances"@,
    {
        if all {
            let mut v: Vec<usize> = Vec::new();
            let mut i: usize = 0;
            while i < self.instances.len()
                invariant
                    i <= self.instances.len(),
                    v@ == Seq::new(i as nat, |k: int| k as usize),
                decreases self.instances.len() - i,
            {
                v.push(i);
                assert(v@ =~= Seq::new((i + 1) as nat, |k: int| k as usize));
                i += 1;
            }
            Ok(v)
        } else {
            match name {
                Some(n) => match self.get_instance(n) {
                    Ok(k) => {
                        let mut v: Vec<usize> = Vec::new();
                        v.push(k);
                        assert(v@ =~= seq![k]);
                        Ok(v)
                    },
                    Err(e) => Err(e),
                },
                None => Err(
                    crate::text::owned(
                        "Please specify an instance name or use --all to start all instances",
                    ),
                ),
            }
        }
    }
}

/// The name of the Wine prefix directory of instance `id`.
pub open spec fn prefix_dir_name(id: usize) -> Seq<char> {
    ".wine-mt5-instance"@ + decimal(id as nat)
}

/// The Wine prefix of instance `id` in the home directory.
pub fn generate_prefix_path(home: &str, id: usize) -> (p: String)
    ensures
        p@ == joined(home@, prefix_dir_name(id)),
{
    let dir = concat2(".wine-mt5-instance", u64_to_decimal(id as u64).as_str());
    join_path(home, dir.as_str())
}

} // verus!
