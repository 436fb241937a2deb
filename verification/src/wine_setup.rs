//! Making sure Wine (and the package manager that installs it) is there
//! before a terminal instance is created or started: whether to install,
//! whether the user agreed, and which Homebrew to run.
use vstd::prelude::*;
use crate::text::{owned, trim, trim_chars, to_chars};

verus! {

/// What making sure a tool is installed comes to.
#[derive(Debug, Clone, Copy, PartialEq, Eq, Structural)]
pub enum Setup {
    /// It is installed already: nothing to do.
    Ready,
    /// Run its installer.
    Install,
}

/// The setup of Wine without asking: install it exactly when it is missing.
pub fn ensure_wine_installed_auto(wine_installed: bool) -> (s: Setup)
    ensures
        wine_installed <==> s == Setup::Ready,
{
    if wine_installed {
        Setup::Ready
    } else {
        Setup::Install
    }
}

/// A character in ASCII lower case.
pub open spec fn ascii_lower(c: char) -> char {
    if 'A' <= c && c <= 'Z' {
        ((c as int) + 32) as char
    } else {
        c
    }
}

/// Whether an answer agrees: `y` or `yes` in any letter case, with any
/// surrounding white space.
pub open spec fn agrees(answer: Seq<char>) -> bool {
    let t = trim(answer).map_values(|c: char| ascii_lower(c));
    t == seq!['y'] || t == seq!['y', 'e', 's']
}

fn lower(c: char) -> (r: char)
    ensures
        r == ascii_lower(c),
{
    if 'A' <= c && c <= 'Z' {
        ((c as u8) + 32) as char
    } else {
        c
    }
}

/// Whether the user's answer to an installation prompt agrees.
pub fn answer_agrees(answer: &str) -> (b: bool)
    ensures
        b == agrees(answer@),
{
    let t = trim_chars(to_chars(answer).as_slice());
    let ghost l = t@.map_values(|c: char| ascii_lower(c));
    if t.len() == 1 {
        assert(l[0] == ascii_lower(t@[0]));
        assert(l != seq!['y', 'e', 's']) by {
            assert(seq!['y', 'e', 's'].len() == 3);
        }
        let r = lower(t[0]) == 'y';
        assert(r ==> l =~= seq!['y']);
        assert(l.len() == 1 && (l == seq!['y'] ==> l[0] == 'y'));
        return r;
    }
    if t.len() == 3 {
        assert(l[0] == ascii_lower(t@[0]) && l[1] == ascii_lower(t@[1]) && l[2] == ascii_lower(
            t@[2],
        ));
        assert(l != seq!['y']) by {
            assert(seq!['y'].len() == 1);
        }
        let r = lower(t[0]) == 'y' && lower(t[1]) == 'e' && lower(t[2]) == 's';
        assert(r ==> l =~= seq!['y', 'e', 's']);
        assert(l == seq!['y', 'e', 's'] ==> l[0] == 'y' && l[1] == 'e' && l[2] == 's');
        return r;
    }
    assert(l.len() != 1 && l.len() != 3);
    assert(l != seq!['y'] && l != seq!['y', 'e', 's']) by {
        assert(seq!['y'].len() == 1);
        assert(seq!['y', 'e', 's'].len() == 3);
    }
    false
}

/// The refusal when the user declines to install Wine.
pub open spec fn wine_declined() -> Seq<char> {
    "Wine installation cancelled by user. Please install Wine manually: brew install --cask wine-stable"@
}

/// The setup of Wine after asking: nothing to do when it is installed,
/// else install it if the user agreed, and refuse otherwise.
pub fn ensure_wine_installed(wine_installed: bool, answer: &str) -> (r: Result<Setup, String>)
    ensures
        wine_installed ==> r == Ok::<Setup, String>(Setup::Ready),
        !wine_installed && agrees(answer@) ==> r == Ok::<Setup, String>(Setup::Install),
        !wine_installed && !agrees(answer@) ==> r is Err && r->Err_0@ == wine_declined(),
{
    if wine_installed {
        return Ok(Setup::Ready);
    }
    if answer_agrees(answer) {
        Ok(Setup::Install)
    } else {
        Err(
            owned(
                "Wine installation cancelled by user. Please install Wine manually: brew install --cask wine-stable",
            ),
        )
    }
}

/// The setup of Chocolatey after asking, as for Wine.
pub fn ensure_chocolatey_installed(installed: bool, answer: &str) -> (r: Result<Setup, String>)
    ensures
        installed ==> r == Ok::<Setup, String>(Setup::Ready),
        !installed && agrees(answer@) ==> r == Ok::<Setup, String>(Setup::Install),
        !installed && !agrees(answer@) ==> r is Err && r->Err_0@
            == "Chocolatey installation cancelled by user"@,
{
    if installed {
        return Ok(Setup::Ready);
    }
    if answer_agrees(answer) {
        Ok(Setup::Install)
    } else {
        Err(owned("Chocolatey installation cancelled by user"))
    }
}

/// Where Homebrew installs its command: under `/opt/homebrew` on Apple
/// silicon, under `/usr/local` on Intel.
pub open spec fn brew_path(apple_silicon: bool) -> Seq<char> {
    if apple_silicon {
        "/opt/homebrew/bin/brew"@
    } else {
        "/usr/local/bin/brew"@
    }
}

/// Which Homebrew command installs Wine: the one at its usual place when it
/// exists there, else `brew` from the search path when asking for it could
/// run at all; otherwise Homebrew cannot be found.
pub fn brew_command(apple_silicon: bool, at_path: bool, which_ran: bool) -> (r: Result<
    String,
    String,
>)
    ensures
        at_path ==> r is Ok && r->Ok_0@ == brew_path(apple_silicon),
        !at_path && which_ran ==> r is Ok && r->Ok_0@ == "brew"@,
        !at_path && !which_ran ==> r is Err && r->Err_0@
            == "Homebrew not found. Please ensure Homebrew is installed and in PATH"@,
{
    if at_path {
        if apple_silicon {
            Ok(owned("/opt/homebrew/bin/brew"))
        } else {
            Ok(owned("/usr/local/bin/brew"))
        }
    } else if which_ran {
        Ok(owned("brew"))
    } else {
        Err(owned("Homebrew not found. Please ensure Homebrew is installed and in PATH"))
    }
}

/// Whether Homebrew is installed: at one of its usual places, or found on
/// the search path.
pub fn homebrew_found(at_usual_place: &[bool], which_succeeded: bool) -> (b: bool)
    ensures
        b == (which_succeeded || exists|i: int| 0 <= i < at_usual_place@.len() && at_usual_place@[i]),
{
    let mut i: usize = 0;
    while i < at_usual_place.len()
        invariant
            i <= at_usual_place.len(),
            forall|j: int| 0 <= j < i ==> !at_usual_place@[j],
        decreases at_usual_place.len() - i,
    {
        if at_usual_place[i] {
            return true;
        }
        i += 1;
    }
    which_succeeded
}

} // verus!
