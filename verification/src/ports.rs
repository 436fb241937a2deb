//! Freeing a TCP port that another process holds: which port an address
//! names, how often binding is retried, which command finds the holder of a
//! port and how its output names the processes to end.
use vstd::prelude::*;
use crate::deps::Os;
use crate::text::{
    first_of, lemma_first_of_unique, copy_range, from_chars, to_chars, owned,
    concat2, i64_to_decimal, u64_to_decimal, signed_decimal, decimal, lines_of, split_lines,
    words_of, split_words, parsed_unsigned, parse_unsigned, trim, trim_chars,
};

verus! {

/// How many times binding an address is tried before giving up.
pub const MAX_BIND_RETRIES: u32 = 3;

/// What follows the last occurrence of `c` in `s` (all of `s` when `c` does
/// not occur): the last item that `str::split(c)` yields.
pub open spec fn last_segment(s: Seq<char>, c: char) -> Seq<char>
    decreases s.len(),
{
    let i = first_of(s, c);
    if i < s.len() {
        last_segment(s.subrange(i as int + 1, s.len() as int), c)
    } else {
        s
    }
}

/// The port part of an address `host:port`: what follows its last colon.
pub fn port_of_address(address: &str) -> (p: String)
    ensures
        p@ == last_segment(address@, ':'),
{
    let s = to_chars(address);
    let n = s.len();
    let mut pos: usize = 0;
    assert(s@.subrange(0, n as int) =~= s@);
    loop
        invariant
            n == s@.len(),
            pos <= n,
            last_segment(address@, ':') == last_segment(s@.subrange(pos as int, n as int), ':'),
            s@ == address@,
        decreases n - pos,
    {
        let ghost rest = s@.subrange(pos as int, n as int);
        let mut j: usize = pos;
        while j < n && s[j] != ':'
            invariant
                pos <= j <= n,
                n == s@.len(),
                forall|k: int| pos <= k < j ==> s@[k] != ':',
            decreases n - j,
        {
            j += 1;
        }
        proof {
            assert forall|k: int| 0 <= k < j - pos implies rest[k] != ':' by {
                assert(rest[k] == s@[pos + k]);
            }
            if j < n {
                assert(rest[j - pos] == s@[j as int]);
            }
            lemma_first_of_unique(rest, ':', j - pos);
        }
        if j == n {
            return from_chars(copy_range(s.as_slice(), pos, n).as_slice());
        }
        assert(rest.subrange(j - pos + 1, rest.len() as int) =~= s@.subrange(j + 1, n as int));
        pos = j + 1;
    }
}

/// What the copier does after a bind attempt found the address in use.
#[derive(Debug, Clone)]
pub struct BindRetry {
    /// The port whose holder is ended first; `None` when the address names no
    /// valid port (the copier then only warns).
    pub kill_port: Option<u16>,
    /// When this was the last attempt: the error the copier gives up with.
    pub give_up: Option<String>,
}

/// The error given when the address stayed in use after every attempt.
pub open spec fn bind_failure_message(address: Seq<char>, os_error: int) -> Seq<char> {
    "Failed to bind to "@ + address + " after "@ + decimal(MAX_BIND_RETRIES as nat)
        + " attempts. Port is still in use (os error "@ + signed_decimal(os_error) + ")"@
}

/// Decides what follows a bind attempt (numbered from 1) that found the address
/// in use: end the process holding its port, wait, and try again, unless the
/// attempts are used up. `os_error` is the OS error code (0 when there is none).
pub fn bind_in_use(address: &str, attempt: u32, os_error: i32) -> (r: BindRetry)
    requires
        1 <= attempt <= MAX_BIND_RETRIES,
    ensures
        match parsed_unsigned(last_segment(address@, ':'), u16::MAX as nat) {
            Some(p) => r.kill_port == Some(p as u16),
            None => r.kill_port is None,
        },
        attempt < MAX_BIND_RETRIES ==> r.give_up is None,
        attempt == MAX_BIND_RETRIES ==> r.give_up is Some && r.give_up->0@ == bind_failure_message(
            address@,
            os_error as int,
        ),
{
    let port = port_of_address(address);
    let kill_port = match parse_unsigned(to_chars(port.as_str()).as_slice(), 65535) {
        Some(p) => Some(p as u16),
        None => None,
    };
    let give_up = if attempt == MAX_BIND_RETRIES {
        let mut m = concat2("Failed to bind to ", address);
        m.append(" after ");
        m.append(u64_to_decimal(MAX_BIND_RETRIES as u64).as_str());
        m.append(" attempts. Port is still in use (os error ");
        m.append(i64_to_decimal(os_error as i64).as_str());
        m.append(")");
        Some(m)
    } else {
        None
    };
    BindRetry { kill_port, give_up }
}

/// The nonempty items of a sequence of lines.
pub open spec fn nonempty_lines(ls: Seq<Seq<char>>) -> Seq<Seq<char>> {
    ls.filter_map(|l: Seq<char>| if l.len() > 0 { Some(l) } else { None })
}

/// The process ids that `lsof -ti :port` printed: its nonempty lines.
pub fn pids_from_lsof(output: &str) -> (v: Vec<String>)
    ensures
        v.deep_view() == nonempty_lines(lines_of(output@)),
{
    let lines = split_lines(output);
    let ghost ls = lines.deep_view();
    let ghost f = |l: Seq<char>| if l.len() > 0 { Some(l) } else { None };
    let mut out: Vec<String> = Vec::new();
    let mut i: usize = 0;
    while i < lines.len()
        invariant
            i <= lines.len(),
            ls == lines.deep_view(),
            f == (|l: Seq<char>| if l.len() > 0 { Some(l) } else { None }),
            out.deep_view() == ls.take(i as int).filter_map(f),
        decreases lines.len() - i,
    {
        proof {
            ls.lemma_filter_map_take_succ(f, i as int);
            assert(ls[i as int] == lines@[i as int]@);
        }
        if !lines[i].as_str().is_empty() {
            let l = lines[i].clone();
            let ghost before = out.deep_view();
            out.push(l);
            assert(out.deep_view() =~= before + seq![ls[i as int]]);
        } else {
            assert(ls[i as int].len() == 0);
        }
        i += 1;
    }
    assert(ls.take(lines.len() as int) =~= ls);
    out
}


/// The last word of the first line of `netstat` output: the process id in
/// the first matching row; `None` when there is no line or the line is blank.
pub open spec fn netstat_pid(output: Seq<char>) -> Option<Seq<char>> {
    let ls = lines_of(output);
    if ls.len() > 0 && words_of(ls[0]).len() > 0 {
        Some(words_of(ls[0]).last())
    } else {
        None
    }
}

/// The process id that a Windows `netstat -ano | findstr :port` printed.
pub fn pid_from_netstat(output: &str) -> (r: Option<String>)
    ensures
        match r {
            Some(p) => netstat_pid(output@) == Some(p@),
            None => netstat_pid(output@) is None,
        },
{
    let lines = split_lines(output);
    if lines.len() == 0 {
        return None;
    }
    assert(lines.deep_view()[0] == lines@[0]@);
    let words = split_words(lines[0].as_str());
    if words.len() == 0 {
        return None;
    }
    let last = words.len() - 1;
    assert(words.deep_view()[last as int] == words@[last as int]@);
    Some(words[last].clone())
}

/// The process ids that `fuser port/tcp` printed: its words.
pub fn pids_from_fuser(output: &str) -> (v: Vec<String>)
    ensures
        v.deep_view() == words_of(output@),
{
    split_words(output)
}

/// The process ids in `wmic ... get ProcessId` output: after the header line,
/// every line that, trimmed, is a valid `u32`.
pub open spec fn wmic_pids(output: Seq<char>) -> Seq<nat> {
    let ls = lines_of(output);
    if ls.len() == 0 {
        Seq::empty()
    } else {
        ls.skip(1).filter_map(|l: Seq<char>| parsed_unsigned(trim(l), u32::MAX as nat))
    }
}

/// The process ids that `wmic` listed.
pub fn pids_from_wmic(output: &str) -> (v: Vec<u32>)
    ensures
        v@.map_values(|p: u32| p as nat) == wmic_pids(output@),
{
    let lines = split_lines(output);
    let ghost f = |l: Seq<char>| parsed_unsigned(trim(l), u32::MAX as nat);
    let ghost ls = lines.deep_view().skip(1);
    let mut out: Vec<u32> = Vec::new();
    if lines.len() == 0 {
        assert(out@.map_values(|p: u32| p as nat) =~= Seq::<nat>::empty());
        return out;
    }
    let mut i: usize = 1;
    assert(ls.take(0) =~= Seq::<Seq<char>>::empty());
    assert(out@.map_values(|p: u32| p as nat) =~= ls.take(0).filter_map(f));
    while i < lines.len()
        invariant
            1 <= i <= lines.len(),
            ls == lines.deep_view().skip(1),
            f == (|l: Seq<char>| parsed_unsigned(trim(l), u32::MAX as nat)),
            out@.map_values(|p: u32| p as nat) == ls.take(i - 1).filter_map(f),
        decreases lines.len() - i,
    {
        proof {
            ls.lemma_filter_map_take_succ(f, i - 1);
            assert(ls[i - 1] == lines@[i as int]@);
        }
        let t = trim_chars(to_chars(lines[i].as_str()).as_slice());
        let ghost before = out@.map_values(|p: u32| p as nat);
        match parse_unsigned(t.as_slice(), u32::MAX as u64) {
            Some(p) => {
                out.push(p as u32);
                assert(out@.map_values(|p: u32| p as nat) =~= before + seq![p as nat]);
            },
            None => {},
        }
        i += 1;
    }
    assert(ls.take(lines.len() - 1) =~= ls);
    out
}

/// A command line: the program and its arguments.
#[derive(Debug, Clone)]
pub struct CommandLine {
    pub program: String,
    pub args: Vec<String>,
}

/// The program and arguments of a command line, as characters.
pub open spec fn command_view(c: CommandLine) -> (Seq<char>, Seq<Seq<char>>) {
    (c.program@, c.args.deep_view())
}

/// The command that lists the processes holding a TCP port: `lsof` on
/// macOS, `netstat` through `cmd` on Windows, `fuser` on Linux.
pub open spec fn port_lookup_spec(os: Os, port: u16) -> (Seq<char>, Seq<Seq<char>>) {
    match os {
        Os::MacOs => ("lsof"@, seq!["-ti"@, ":"@ + decimal(port as nat)]),
        Os::Windows => ("cmd"@, seq!["/C"@, "netstat -ano | findstr :"@ + decimal(port as nat)]),
        Os::Linux => ("fuser"@, seq![decimal(port as nat) + "/tcp"@]),
    }
}

fn strings2(a: String, b: String) -> (v: Vec<String>)
    ensures
        v.deep_view() == seq![a@, b@],
{
    let mut v: Vec<String> = Vec::new();
    v.push(a);
    v.push(b);
    assert(v.deep_view() =~= seq![a@, b@]);
    v
}

/// The command that lists the processes holding `port`.
pub fn port_lookup_command(os: Os, port: u16) -> (c: CommandLine)
    ensures
        command_view(c) == port_lookup_spec(os, port),
{
    let p = u64_to_decimal(port as u64);
    match os {
        Os::MacOs => CommandLine {
            program: owned("lsof"),
            args: strings2(owned("-ti"), concat2(":", p.as_str())),
        },
        Os::Windows => CommandLine {
            program: owned("cmd"),
            args: strings2(owned("/C"), concat2("netstat -ano | findstr :", p.as_str())),
        },
        Os::Linux => {
            let mut v: Vec<String> = Vec::new();
            v.push(concat2(p.as_str(), "/tcp"));
            assert(v.deep_view() =~= seq![decimal(port as nat) + "/tcp"@]);
            CommandLine { program: owned("fuser"), args: v }
        },
    }
}

/// The processes to end, from the lookup command's outcome: on macOS and
/// Linux every id it printed (possibly none) once it succeeded; on Windows
/// the id of the first row, if there is one. `None` means that no holder could
/// be found, which the copier reports as an error.
pub open spec fn holders_spec(os: Os, succeeded: bool, output: Seq<char>) -> Option<Seq<Seq<char>>> {
    if !succeeded {
        None
    } else {
        match os {
            Os::MacOs => Some(nonempty_lines(lines_of(output))),
            Os::Linux => Some(words_of(output)),
            Os::Windows => match netstat_pid(output) {
                Some(p) => Some(seq![p]),
                None => None,
            },
        }
    }
}

/// The processes holding a port, from the lookup command's outcome.
pub fn port_holders(os: Os, succeeded: bool, output: &str) -> (r: Option<Vec<String>>)
    ensures
        match r {
            Some(v) => holders_spec(os, succeeded, output@) == Some(v.deep_view()),
            None => holders_spec(os, succeeded, output@) is None,
        },
{
    if !succeeded {
        return None;
    }
    match os {
        Os::MacOs => Some(pids_from_lsof(output)),
        Os::Linux => Some(pids_from_fuser(output)),
        Os::Windows => match pid_from_netstat(output) {
            Some(p) => {
                let mut v: Vec<String> = Vec::new();
                let ghost pv = p@;
                v.push(p);
                assert(v.deep_view() =~= seq![pv]);
                Some(v)
            },
            None => None,
        },
    }
}

/// The command that ends process `pid` by force.
pub open spec fn kill_spec(os: Os, pid: Seq<char>) -> (Seq<char>, Seq<Seq<char>>) {
    match os {
        Os::Windows => ("taskkill"@, seq!["/F"@, "/PID"@, pid]),
        _ => ("kill"@, seq!["-9"@, pid]),
    }
}

/// The command that ends process `pid` by force.
pub fn kill_command(os: Os, pid: &str) -> (c: CommandLine)
    ensures
        command_view(c) == kill_spec(os, pid@),
{
    match os {
        Os::Windows => {
            let mut v: Vec<String> = Vec::new();
            v.push(owned("/F"));
            v.push(owned("/PID"));
            v.push(owned(pid));
            assert(v.deep_view() =~= seq!["/F"@, "/PID"@, pid@]);
            CommandLine { program: owned("taskkill"), args: v }
        },
        _ => CommandLine { program: owned("kill"), args: strings2(owned("-9"), owned(pid)) },
    }
}

/// Ending a process names it as the last argument; `taskkill` is the tool on
/// Windows only, and every other system ends the process with `kill -9`.
pub proof fn lemma_kill_command(os: Os, pid: Seq<char>)
    ensures
        kill_spec(os, pid).1.len() > 0 && kill_spec(os, pid).1.last() == pid,
        kill_spec(os, pid).0 == "taskkill"@ <==> os == Os::Windows,
        os != Os::Windows ==> kill_spec(os, pid) == ("kill"@, seq!["-9"@, pid]),
        os == Os::Windows ==> kill_spec(os, pid).1 == seq!["/F"@, "/PID"@, pid],
{
    reveal_strlit("taskkill");
    reveal_strlit("kill");
    assert("taskkill"@.len() != "kill"@.len());
}

/// The lookup of a port's holders names that port: its decimal form stands
/// in the last argument of the command.
pub proof fn lemma_lookup_names_port(os: Os, port: u16)
    ensures
        port_lookup_spec(os, port).1.len() > 0,
        exists|pre: Seq<char>, post: Seq<char>|
            port_lookup_spec(os, port).1.last() == pre + decimal(port as nat) + post,
{
    let d = decimal(port as nat);
    let last = port_lookup_spec(os, port).1.last();
    match os {
        Os::MacOs => {
            assert(last == ":"@ + d + Seq::<char>::empty());
        },
        Os::Windows => {
            assert(last == "netstat -ano | findstr :"@ + d + Seq::<char>::empty());
        },
        Os::Linux => {
            assert(last == Seq::<char>::empty() + d + "/tcp"@);
        },
    }
}

/// A lookup that failed finds no holder; one that succeeded on macOS or
/// Linux always gives a list (possibly empty), and on Windows at most the
/// one process of the first row.
pub proof fn lemma_holders_outcome(os: Os, succeeded: bool, output: Seq<char>)
    ensures
        !succeeded ==> holders_spec(os, succeeded, output) is None,
        succeeded && os != Os::Windows ==> holders_spec(os, succeeded, output) is Some,
        os == Os::Windows && holders_spec(os, succeeded, output) is Some ==> holders_spec(
            os,
            succeeded,
            output,
        )->Some_0.len() == 1,
{
}

/// The error reported when no process could be found on `port`.
pub fn kill_failure_message(port: u16) -> (m: String)
    ensures
        m@ == "Could not find or kill process on port "@ + decimal(port as nat),
{
    concat2("Could not find or kill process on port ", u64_to_decimal(port as u64).as_str())
}

} // verus!
