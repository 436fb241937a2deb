//! The macOS instance command line: its commands, and what each one decides
//! and prints from the instance list.
use vstd::prelude::*;
use crate::mac_instances::{InstanceManager, Instance, names, ids};
use crate::registry::{name_index, max_id};
use crate::text::{
    owned, concat2, concat3, trim, trim_chars, to_chars, chars_equal, u64_to_decimal, decimal,
    join_path, joined,
};

verus! {

/// The command line of the macOS instance manager.
#[derive(Debug, Clone)]
pub struct Cli {
    pub command: Commands,
}

/// A command of the macOS instance manager.
#[derive(Debug, Clone)]
pub enum Commands {
    /// Create an instance from the terminal installer at `installer`.
    Create { name: String, installer: String },
    /// Delete an instance (after confirmation).
    Delete { name: String },
    /// Start the named instance, or all of them with `all`.
    Start { name: Option<String>, all: bool },
    /// List the instances.
    List,
}

fn push_line(v: &mut Vec<String>, s: String)
    ensures
        final(v).deep_view() == old(v).deep_view().push(s@),
{
    let ghost before = v.deep_view();
    let ghost sv = s@;
    v.push(s);
    assert(v.deep_view() =~= before.push(sv));
}

/// Creating an instance called `name`: refused when the name is taken,
/// else the new instance's id.
pub fn create_check(manager: &InstanceManager, name: &str) -> (r: Result<usize, String>)
    requires
        max_id(ids(manager.instances@)) < usize::MAX,
    ensures
        name_index(names(manager.instances@), name@) >= 0 ==> r is Err && r->Err_0@ == "Instance '"@
            + name@ + "' already exists"@,
        name_index(names(manager.instances@), name@) < 0 ==> r is Ok && r->Ok_0 == max_id(
            ids(manager.instances@),
        ) + 1,
{
    match manager.get_instance(name) {
        Ok(_) => Err(concat3("Instance '", name, "' already exists")),
        Err(_) => Ok(manager.next_id()),
    }
}

/// What `create` prints once the instance exists; `shown` is its prefix as
/// it is printed.
pub fn created_lines(name: &str, id: usize, shown: &str) -> (v: Vec<String>)
    ensures
        v.deep_view() == seq![
            "\n\u{2713} Instance '"@ + name@ + "' created successfully!"@,
            "  ID: "@ + decimal(id as nat),
            "  Prefix: "@ + shown@,
            "\nYou can now start it with: mt5-manager start "@ + name@,
        ],
{
    let mut v: Vec<String> = Vec::new();
    push_line(&mut v, concat3("\n\u{2713} Instance '", name, "' created successfully!"));
    push_line(&mut v, concat2("  ID: ", u64_to_decimal(id as u64).as_str()));
    push_line(&mut v, concat2("  Prefix: ", shown));
    push_line(&mut v, concat2("\nYou can now start it with: mt5-manager start ", name));
    v
}

/// What `create` prints when the terminal installation failed.
pub fn install_failed_lines(name: &str, e: &str) -> (v: Vec<String>)
    ensures
        v.deep_view() == seq![
            "\n\u{26a0} Warning: MT5 installation failed: "@ + e@,
            "The instance was created but MT5 installation incomplete."@,
            "You can delete it with: mt5-manager delete "@ + name@,
        ],
{
    let mut v: Vec<String> = Vec::new();
    push_line(&mut v, concat2("\n\u{26a0} Warning: MT5 installation failed: ", e));
    push_line(&mut v, owned("The instance was created but MT5 installation incomplete."));
    push_line(&mut v, concat2("You can delete it with: mt5-manager delete ", name));
    proof {
        reveal_strlit("The instance was created but MT5 installation incomplete.");
    }
    v
}

/// What `delete` asks before it removes anything; `shown` is the prefix as
/// it is printed.
pub fn deletion_prompt(name: &str, shown: &str) -> (v: Vec<String>)
    ensures
        v.deep_view() == seq![
            "Are you sure you want to delete instance '"@ + name@ + "'?"@,
            "This will remove: "@ + shown@,
            "Type 'yes' to confirm:"@,
        ],
{
    let mut v: Vec<String> = Vec::new();
    push_line(&mut v, concat3("Are you sure you want to delete instance '", name, "'?"));
    push_line(&mut v, concat2("This will remove: ", shown));
    push_line(&mut v, owned("Type 'yes' to confirm:"));
    proof {
        reveal_strlit("Type 'yes' to confirm:");
    }
    v
}

/// Whether the answer to the prompt confirms the deletion: `yes`, with any
/// surrounding white space.
pub fn confirms_deletion(answer: &str) -> (b: bool)
    ensures
        b == (trim(answer@) == "yes"@),
{
    let t = trim_chars(to_chars(answer).as_slice());
    let yes = to_chars("yes");
    let b = chars_equal(t.as_slice(), yes.as_slice());
    proof {
        reveal_strlit("yes");
    }
    b
}

/// The lines printed for one instance by `list`.
pub open spec fn instance_lines(i: Instance) -> Seq<Seq<char>> {
    seq![
        "  "@ + i.name@ + " (ID: "@ + decimal(i.id as nat) + ")"@,
        "    Prefix: "@ + i.prefix_path@,
        "    Created: "@ + i.created_at@,
        ""@,
    ]
}

/// Everything printed for a list of instances, in order.
pub open spec fn instances_lines(s: Seq<Instance>) -> Seq<Seq<char>>
    decreases s.len(),
{
    if s.len() == 0 {
        Seq::empty()
    } else {
        instances_lines(s.drop_last()) + instance_lines(s.last())
    }
}

/// What `list` prints, line by line.
pub open spec fn list_output(s: Seq<Instance>) -> Seq<Seq<char>> {
    if s.len() == 0 {
        seq![
            "No instances found."@,
            "Create one with: mt5-manager create --name <name> --installer <path>"@,
        ]
    } else {
        seq!["MT5 Instances:\n"@] + instances_lines(s)
    }
}

/// The lines `list` prints.
pub fn list_lines(manager: &InstanceManager) -> (v: Vec<String>)
    ensures
        v.deep_view() == list_output(manager.instances@),
{
    let mut v: Vec<String> = Vec::new();
    proof {
        reveal_strlit("No instances found.");
        reveal_strlit("Create one with: mt5-manager create --name <name> --installer <path>");
        reveal_strlit("MT5 Instances:\n");
        reveal_strlit("");
    }
    let ghost s = manager.instances@;
    if manager.instances.len() == 0 {
        push_line(&mut v, owned("No instances found."));
        push_line(
            &mut v,
            owned("Create one with: mt5-manager create --name <name> --installer <path>"),
        );
        assert(v.deep_view() =~= list_output(s));
        return v;
    }
    push_line(&mut v, owned("MT5 Instances:\n"));
    let mut i: usize = 0;
    assert(s.take(0) =~= Seq::<Instance>::empty());
    assert(v.deep_view() =~= seq!["MT5 Instances:\n"@] + instances_lines(s.take(0)));
    while i < manager.instances.len()
        invariant
            i <= manager.instances.len(),
            s == manager.instances@,
            v.deep_view() == seq!["MT5 Instances:\n"@] + instances_lines(s.take(i as int)),
        decreases manager.instances.len() - i,
    {
        let inst = &manager.instances[i];
        let ghost before = v.deep_view();
        let mut first = concat3("  ", inst.name.as_str(), " (ID: ");
        first.append(u64_to_decimal(inst.id as u64).as_str());
        first.append(")");
        push_line(&mut v, first);
        push_line(&mut v, concat2("    Prefix: ", inst.prefix_path.as_str()));
        push_line(&mut v, concat2("    Created: ", inst.created_at.as_str()));
        push_line(&mut v, owned(""));
        assert(s.take(i + 1).drop_last() =~= s.take(i as int));
        assert(s.take(i + 1).last() == s[i as int]);
        assert(v.deep_view() =~= before + instance_lines(s[i as int]));
        assert(v.deep_view() =~= seq!["MT5 Instances:\n"@] + instances_lines(s.take(i + 1)));
        i += 1;
    }
    assert(s.take(manager.instances.len() as int) =~= s);
    v
}

/// What `start --all` prints when there is nothing to start.
pub fn nothing_to_start() -> (m: String)
    ensures
        m@ == "No instances found. Create one with: mt5-manager create"@,
{
    owned("No instances found. Create one with: mt5-manager create")
}

/// The file that lists the instances: `.mt5-manager/instances.json` under
/// the home directory, when it is known.
pub fn instances_file_path(home: Option<&str>) -> (r: Result<String, String>)
    ensures
        match home {
            Some(h) => r is Ok && r->Ok_0@ == joined(
                joined(h@, ".mt5-manager"@),
                "instances.json"@,
            ),
            None => r is Err && r->Err_0@ == "Could not find home directory"@,
        },
{
    proof {
        reveal_strlit(".mt5-manager");
        reveal_strlit("instances.json");
    }
    match home {
        Some(h) => {
            let dir = join_path(h, ".mt5-manager");
            Ok(join_path(dir.as_str(), "instances.json"))
        },
        None => Err(owned("Could not find home directory")),
    }
}

/// The refusal to launch a terminal whose executable is missing; `shown` is
/// its path as it is printed.
pub fn executable_missing(shown: &str) -> (m: String)
    ensures
        m@ == "MT5 executable not found at "@ + shown@ + ". Make sure MT5 is installed."@,
{
    concat3("MT5 executable not found at ", shown, ". Make sure MT5 is installed.")
}

/// The refusal to create a Wine prefix where one exists.
pub fn prefix_exists(shown: &str) -> (m: String)
    ensures
        m@ == "Wine prefix already exists at "@ + shown@,
{
    concat2("Wine prefix already exists at ", shown)
}

/// The refusal to install from an installer that is not there.
pub fn installer_missing(shown: &str) -> (m: String)
    ensures
        m@ == "MT5 installer not found at "@ + shown@,
{
    concat2("MT5 installer not found at ", shown)
}

} // verus!
