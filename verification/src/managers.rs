//! The instance managers of the desktop application: where the terminal of a
//! worker lives on macOS (a Wine prefix) and on Windows (a plain directory),
//! and what a worker record must hold before its terminal can be handled.
use vstd::prelude::*;
use crate::mac_instances::mt5_relative_path;
use crate::text::{owned, concat2, concat3, join_path, joined, u64_to_decimal, decimal};
use crate::deps::Os;
use crate::experts::{join_windows, joined_windows};
use crate::win_cli::default_instance_path;

verus! {

/// The directory under the local data directory that holds the Wine prefixes.
pub open spec fn app_dir_name() -> Seq<char> {
    "trade-copier"@
}

/// The name of the Wine prefix of worker number `id`.
pub open spec fn wine_prefix_name(id: usize) -> Seq<char> {
    "wine-mt5-instance"@ + decimal(id as nat)
}

/// What a worker record without a terminal location is refused with on macOS.
pub open spec fn no_prefix_message() -> Seq<char> {
    "Instance does not have a wine_prefix configured"@
}

/// Manages terminals in Wine prefixes on macOS.
#[derive(Debug)]
pub struct MacInstanceManager {}

impl MacInstanceManager {
    /// A manager; making one cannot fail.
    pub fn new() -> (r: Result<Self, String>)
        ensures
            r is Ok,
    {
        Ok(MacInstanceManager {})
    }

    /// The Wine prefix of worker number `id` under the local data directory.
    pub fn generate_prefix_path(&self, data_dir: &str, id: usize) -> (p: String)
        ensures
            p@ == joined(joined(data_dir@, app_dir_name()), wine_prefix_name(id)),
    {
        let app = join_path(data_dir, "trade-copier");
        proof {
            reveal_strlit("trade-copier");
        }
        let name = concat2("wine-mt5-instance", u64_to_decimal(id as u64).as_str());
        proof {
            reveal_strlit("wine-mt5-instance");
        }
        join_path(app.as_str(), name.as_str())
    }

    /// The terminal executable inside a Wine prefix.
    pub fn mt5_executable(&self, prefix_path: &str) -> (p: String)
        ensures
            p@ == joined(prefix_path@, mt5_relative_path()),
    {
        join_path(prefix_path, "drive_c/Program Files/MetaTrader 5/terminal64.exe")
    }

    /// The Wine prefix a worker record names, which starting and stopping
    /// its terminal need.
    pub fn instance_prefix(&self, wine_prefix: Option<&str>) -> (r: Result<String, String>)
        ensures
            match wine_prefix {
                Some(p) => r is Ok && r->Ok_0@ == p@,
                None => r is Err && r->Err_0@ == no_prefix_message(),
            },
    {
        match wine_prefix {
            Some(p) => Ok(owned(p)),
            None => Err(owned("Instance does not have a wine_prefix configured")),
        }
    }
}

/// The terminal executable's file name on Windows.
pub open spec fn windows_exe_name() -> Seq<char> {
    "terminal64.exe"@
}

/// The terminal executable in the instance directory `dir`: joined after a
/// backslash on Windows, after a slash elsewhere.
pub open spec fn executable_in(os: Os, dir: Seq<char>) -> Seq<char> {
    if os == Os::Windows {
        joined_windows(dir, windows_exe_name())
    } else {
        joined(dir, windows_exe_name())
    }
}

/// The directory name of the instance called `name`.
pub open spec fn instance_dir_name(name: Seq<char>) -> Seq<char> {
    "MT5-"@ + name
}

/// What a worker record without a terminal location is refused with on
/// Windows.
pub open spec fn no_path_message() -> Seq<char> {
    "Instance does not have a path configured"@
}

/// What a missing home directory variable is reported as.
pub open spec fn missing_variable() -> Seq<char> {
    "environment variable not found"@
}

/// The refusal to start a terminal whose executable is missing; `shown` is
/// the executable's path as it is printed.
pub open spec fn exe_missing_message(shown: Seq<char>) -> Seq<char> {
    "MT5 executable not found at '"@ + shown
        + "'. Please install MT5 to this directory first."@
}

/// Every backslash doubled, as a WMI query wants a path.
pub open spec fn doubled_backslashes(s: Seq<char>) -> Seq<char>
    decreases s.len(),
{
    if s.len() == 0 {
        Seq::empty()
    } else {
        (if s[0] == '\\' {
            seq!['\\', '\\']
        } else {
            seq![s[0]]
        }) + doubled_backslashes(s.drop_first())
    }
}

proof fn lemma_doubled_backslashes_push(s: Seq<char>, c: char)
    ensures
        doubled_backslashes(s.push(c)) == doubled_backslashes(s) + (if c == '\\' {
            seq!['\\', '\\']
        } else {
            seq![c]
        }),
    decreases s.len(),
{
    if s.len() == 0 {
        assert(s.push(c).drop_first() =~= Seq::<char>::empty());
        assert(doubled_backslashes(Seq::<char>::empty()) =~= Seq::<char>::empty());
    } else {
        assert(s.push(c).drop_first() =~= s.drop_first().push(c));
        lemma_doubled_backslashes_push(s.drop_first(), c);
    }
}

/// Manages terminals in plain directories on Windows.
#[derive(Debug)]
pub struct WindowsInstanceManager {}

impl WindowsInstanceManager {
    /// A manager; making one cannot fail.
    pub fn new() -> (r: Result<Self, String>)
        ensures
            r is Ok,
    {
        Ok(WindowsInstanceManager {})
    }

    /// The directory of the instance called `name`: `C:\MT5-<name>` on
    /// Windows, else under the home directory (`home`, the value of its
    /// variable if it is set).
    pub fn generate_instance_path(&self, os: Os, home: Option<&str>, name: &str) -> (r: Result<
        String,
        String,
    >)
        ensures
            os == Os::Windows ==> r is Ok && r->Ok_0@ == "C:\\MT5-"@ + name@,
            os != Os::Windows && home is Some ==> r is Ok && r->Ok_0@ == joined(
                home->0@,
                instance_dir_name(name@),
            ),
            os != Os::Windows && home is None ==> r is Err && r->Err_0@ == missing_variable(),
    {
        default_instance_path(os, home, name)
    }

    /// The directory a worker record names, which starting and stopping its
    /// terminal need.
    pub fn instance_path(&self, wine_prefix: Option<&str>) -> (r: Result<String, String>)
        ensures
            match wine_prefix {
                Some(p) => r is Ok && r->Ok_0@ == p@,
                None => r is Err && r->Err_0@ == no_path_message(),
            },
    {
        match wine_prefix {
            Some(p) => Ok(owned(p)),
            None => Err(owned("Instance does not have a path configured")),
        }
    }

    /// The terminal executable in an instance directory.
    pub fn executable(&self, os: Os, instance_path: &str) -> (p: String)
        ensures
            p@ == executable_in(os, instance_path@),
    {
        proof {
            reveal_strlit("terminal64.exe");
        }
        match os {
            Os::Windows => join_windows(instance_path, "terminal64.exe"),
            _ => join_path(instance_path, "terminal64.exe"),
        }
    }

    /// The refusal to start when the executable is missing.
    pub fn exe_missing(&self, shown: &str) -> (m: String)
        ensures
            m@ == exe_missing_message(shown@),
    {
        concat3(
            "MT5 executable not found at '",
            shown,
            "'. Please install MT5 to this directory first.",
        )
    }

    /// Whether a terminal can be started: only when its executable exists
    /// (`exists`); else the refusal, which shows the path as `shown`.
    pub fn check_executable(&self, exists: bool, shown: &str) -> (r: Result<(), String>)
        ensures
            exists ==> r is Ok,
            !exists ==> r is Err && r->Err_0@ == exe_missing_message(shown@),
    {
        if exists {
            Ok(())
        } else {
            Err(self.exe_missing(shown))
        }
    }

    /// The WMI condition that selects the processes running `exe_path`.
    pub fn executable_filter(&self, exe_path: &str) -> (f: String)
        ensures
            f@ == "ExecutablePath='"@ + doubled_backslashes(exe_path@) + "'"@,
    {
        let mut out = owned("ExecutablePath='");
        proof {
            reveal_strlit("ExecutablePath='");
            reveal_strlit("'");
        }
        let ghost start = out@;
        let cs = crate::text::to_chars(exe_path);
        let mut i: usize = 0;
        while i < cs.len()
            invariant
                i <= cs.len(),
                cs@ == exe_path@,
                start == "ExecutablePath='"@,
                out@ == start + doubled_backslashes(cs@.take(i as int)),
            decreases cs.len() - i,
        {
            proof {
                assert(cs@.take(i + 1) =~= cs@.take(i as int).push(cs@[i as int]));
                lemma_doubled_backslashes_push(cs@.take(i as int), cs@[i as int]);
            }
            if cs[i] == '\\' {
                crate::text::push_char(&mut out, '\\');
                crate::text::push_char(&mut out, '\\');
                assert(out@ =~= start + doubled_backslashes(cs@.take(i + 1)));
            } else {
                crate::text::push_char(&mut out, cs[i]);
                assert(out@ =~= start + doubled_backslashes(cs@.take(i + 1)));
            }
            i += 1;
        }
        assert(cs@.take(cs@.len() as int) =~= cs@);
        crate::text::push_char(&mut out, '\'');
        assert(out@ =~= "ExecutablePath='"@ + doubled_backslashes(exe_path@) + "'"@);
        out
    }
}

} // verus!
