//! The Windows instance manager of the server: it keeps its instances in a
//! configuration file under the home directory, and decides what creating,
//! deleting and starting an instance amounts to.
use vstd::prelude::*;
use crate::instance_config::{Instance, InstanceConfig, names, ids};
use crate::managers::{instance_dir_name, executable_in, missing_variable};
use crate::registry::{name_index, max_id};
use crate::installer::deletion_refused;
use crate::text::{owned, concat3, join_path, joined};
use crate::deps::Os;
use crate::experts::{join_windows, joined_windows};
use crate::win_cli::{config_file_path, default_instance_path};

verus! {

/// What an unknown instance name is refused with.
pub open spec fn instance_not_found(name: Seq<char>) -> Seq<char> {
    "Instance '"@ + name + "' not found"@
}

/// What creating an instance under a taken name is refused with.
pub open spec fn instance_exists(name: Seq<char>) -> Seq<char> {
    "Instance '"@ + name + "' already exists"@
}

/// Manages the terminals listed in its configuration file.
#[derive(Debug)]
pub struct WindowsInstanceManager {
    config_path: String,
}

impl WindowsInstanceManager {
    /// The configuration file this manager keeps its instances in.
    pub closed spec fn config_file(&self) -> Seq<char> {
        self.config_path@
    }

    /// A manager whose configuration file lies under `%APPDATA%` on Windows
    /// and under the home directory elsewhere (`appdata` and `home`, the values
    /// of those variables if they are set).
    pub fn new(os: Os, appdata: Option<&str>, home: Option<&str>) -> (r: Result<Self, String>)
        ensures
            os == Os::Windows && appdata is Some ==> r is Ok && r->Ok_0.config_file()
                == joined_windows(joined_windows(appdata->0@, "mt5-manager"@), "config.json"@),
            os == Os::Windows && appdata is None ==> r is Err && r->Err_0@
                == "APPDATA environment variable not found"@,
            os != Os::Windows && home is Some ==> r is Ok && r->Ok_0.config_file() == joined(
                joined(home->0@, ".mt5-manager"@),
                "config.json"@,
            ),
            os != Os::Windows && home is None ==> r is Err && r->Err_0@
                == "HOME environment variable not found"@,
    {
        match config_file_path(os, appdata, home) {
            Ok(config_path) => Ok(WindowsInstanceManager { config_path }),
            Err(e) => Err(e),
        }
    }

    /// The configuration file's path.
    pub fn config_path(&self) -> (p: &str)
        ensures
            p@ == self.config_file(),
    {
        self.config_path.as_str()
    }

    /// The directory of the instance called `name`: `C:\MT5-<name>` on
    /// Windows, else under the home directory (`home`, the value of its
    /// variable if it is set).
    pub fn generate_instance_path(&self, os: Os, home: Option<&str>, name: &str) -> (r: Result<
        String,
        String,
    >)
        ensures
            os == Os::Windows ==> r is Ok && r->Ok_0@ == "C:\\MT5-"@ + name@,
            os != Os::Windows && home is Some ==> r is Ok && r->Ok_0@ == joined(
                home->0@,
                instance_dir_name(name@),
            ),
            os != Os::Windows && home is None ==> r is Err && r->Err_0@ == missing_variable(),
    {
        default_instance_path(os, home, name)
    }

    /// Creating an instance called `name`: refused when the name is taken,
    /// else the new instance's id (one more than the largest in use) and its
    /// directory.
    pub fn plan_create(&self, config: &InstanceConfig, name: &str, os: Os, home: Option<&str>) -> (r:
        Result<(usize, String), String>)
        requires
            max_id(ids(config.instances@)) < usize::MAX,
        ensures
            name_index(names(config.instances@), name@) >= 0 ==> r is Err && r->Err_0@
                == instance_exists(name@),
            name_index(names(config.instances@), name@) < 0 && os == Os::Windows ==> r is Ok
                && r->Ok_0.0 == max_id(ids(config.instances@)) + 1 && r->Ok_0.1@ == "C:\\MT5-"@
                + name@,
            name_index(names(config.instances@), name@) < 0 && os != Os::Windows && home is None
                ==> r is Err && r->Err_0@ == missing_variable(),
            name_index(names(config.instances@), name@) < 0 && os != Os::Windows && home is Some
                ==> r is Ok && r->Ok_0.0 == max_id(ids(config.instances@)) + 1 && r->Ok_0.1@
                == joined(home->0@, instance_dir_name(name@)),
    {
        if config.get_instance(name).is_some() {
            return Err(concat3("Instance '", name, "' already exists"));
        }
        let id = config.next_id();
        match self.generate_instance_path(os, home, name) {
            Ok(path) => Ok((id, path)),
            Err(e) => Err(e),
        }
    }

    /// Deleting the instance called `name`: refused when there is none, or
    /// when the deletion is not confirmed with `force`; else the instance,
    /// whose directory goes.
    pub fn check_delete(&self, config: &InstanceConfig, name: &str, force: bool) -> (r: Result<
        Instance,
        String,
    >)
        ensures
            name_index(names(config.instances@), name@) < 0 ==> r is Err && r->Err_0@
                == instance_not_found(name@),
            name_index(names(config.instances@), name@) >= 0 && !force ==> r is Err && r->Err_0@
                == "Deletion cancelled - use force=true to confirm"@,
            name_index(names(config.instances@), name@) >= 0 && force ==> r is Ok && same_instance(
                r->Ok_0,
                config.instances@[name_index(names(config.instances@), name@)],
            ),
    {
        match config.get_instance(name) {
            None => Err(concat3("Instance '", name, "' not found")),
            Some(inst) => {
                if !force {
                    Err(deletion_refused())
                } else {
                    Ok(copy_instance(inst))
                }
            },
        }
    }

    /// The terminal executable of the instance called `name`, which starting
    /// it launches.
    pub fn instance_executable(&self, config: &InstanceConfig, name: &str, os: Os) -> (r: Result<
        String,
        String,
    >)
        ensures
            name_index(names(config.instances@), name@) < 0 ==> r is Err && r->Err_0@
                == instance_not_found(name@),
            name_index(names(config.instances@), name@) >= 0 ==> r is Ok && r->Ok_0@
                == executable_in(
                os,
                config.instances@[name_index(names(config.instances@), name@)].path@,
            ),
    {
        match config.get_instance(name) {
            None => Err(concat3("Instance '", name, "' not found")),
            Some(inst) => {
                proof {
                    reveal_strlit("terminal64.exe");
                }
                match os {
                    Os::Windows => Ok(join_windows(inst.path.as_str(), "terminal64.exe")),
                    _ => Ok(join_path(inst.path.as_str(), "terminal64.exe")),
                }
            },
        }
    }
}

/// Whether two instances hold the same values.
pub open spec fn same_instance(a: Instance, b: Instance) -> bool {
    &&& a.id == b.id
    &&& a.name@ == b.name@
    &&& a.address@ == b.address@
    &&& a.multiplier_bits == b.multiplier_bits
    &&& a.path@ == b.path@
    &&& a.created_at@ == b.created_at@
}

/// A copy of an instance, field by field.
fn copy_instance(i: &Instance) -> (c: Instance)
    ensures
        same_instance(c, *i),
{
    Instance {
        id: i.id,
        name: owned(i.name.as_str()),
        address: owned(i.address.as_str()),
        multiplier_bits: i.multiplier_bits,
        path: owned(i.path.as_str()),
        created_at: owned(i.created_at.as_str()),
    }
}

} // verus!
