//! Where the Expert Advisors come from and where they go: the source folder
//! shipped with the application, the terminal folders that receive them, and
//! which files of a folder are copied.
use vstd::prelude::*;
use crate::deps::Os;
use crate::installer::{
    first_true, lemma_first_true_unique, path_parent, parent_of, str_opt_view,
};
use crate::text::{owned, concat2, concat3, join_path, joined};

verus! {

/// Whether a file name is hidden (starts with a dot, like `.DS_Store`).
pub open spec fn hidden(name: Seq<char>) -> bool {
    name.len() > 0 && name[0] == '.'
}

/// An entry of a directory listing.
#[derive(Debug, Clone)]
pub struct DirEntry {
    pub name: String,
    /// Whether the entry is a regular file (not a directory or a link).
    pub is_file: bool,
}

/// The names of the entries that are copied: the files that are not hidden,
/// in listing order.
pub open spec fn copied_names(es: Seq<DirEntry>) -> Seq<Seq<char>> {
    es.filter_map(|e: DirEntry| if e.is_file && !hidden(e.name@) { Some(e.name@) } else { None })
}

/// The hidden files of a listing, which are skipped.
pub open spec fn skipped_names(es: Seq<DirEntry>) -> Seq<Seq<char>> {
    es.filter_map(|e: DirEntry| if e.is_file && hidden(e.name@) { Some(e.name@) } else { None })
}

/// Whether a name starts with a dot.
fn is_hidden(name: &str) -> (b: bool)
    ensures
        b == hidden(name@),
{
    let cs = crate::text::to_chars(name);
    cs.len() > 0 && cs[0] == '.'
}

/// The files of a listing to copy, and how many hidden files were skipped.
pub fn select_files(entries: &Vec<DirEntry>) -> (r: (Vec<String>, usize))
    ensures
        r.0.deep_view() == copied_names(entries@),
        r.1 == skipped_names(entries@).len(),
{
    let ghost es = entries@;
    let ghost f = |e: DirEntry| if e.is_file && !hidden(e.name@) { Some(e.name@) } else { None };
    let ghost g = |e: DirEntry| if e.is_file && hidden(e.name@) { Some(e.name@) } else { None };
    let mut out: Vec<String> = Vec::new();
    let mut skipped: usize = 0;
    let mut i: usize = 0;
    assert(out.deep_view() =~= es.take(0).filter_map(f));
    assert(es.take(0).filter_map(g) =~= Seq::<Seq<char>>::empty());
    while i < entries.len()
        invariant
            i <= entries.len(),
            es == entries@,
            f == (|e: DirEntry| if e.is_file && !hidden(e.name@) { Some(e.name@) } else { None }),
            g == (|e: DirEntry| if e.is_file && hidden(e.name@) { Some(e.name@) } else { None }),
            out.deep_view() == es.take(i as int).filter_map(f),
            skipped == es.take(i as int).filter_map(g).len(),
            skipped <= i,
        decreases entries.len() - i,
    {
        proof {
            es.lemma_filter_map_take_succ(f, i as int);
            es.lemma_filter_map_take_succ(g, i as int);
        }
        let e = &entries[i];
        if e.is_file {
            if is_hidden(e.name.as_str()) {
                skipped = skipped + 1;
            } else {
                let ghost before = out.deep_view();
                out.push(owned(e.name.as_str()));
                assert(out.deep_view() =~= before + seq![e.name@]);
            }
        }
        i += 1;
    }
    assert(es.take(entries.len() as int) =~= es);
    (out, skipped)
}

/// The folder, under the MQL5 experts folder, that receives the advisors.
pub open spec fn experts_folder() -> Seq<char> {
    "Trading Rocket"@
}

/// Where an instance's terminal keeps the advisors, relative to its prefix.
pub open spec fn instance_experts_relative() -> Seq<char> {
    "drive_c/Program Files/MetaTrader 5/MQL5/Experts/Trading Rocket"@
}

/// Where the advisors go in the terminal of the Wine prefix `prefix`.
pub fn instance_experts_dir(prefix: &str) -> (d: String)
    ensures
        d@ == joined(prefix@, instance_experts_relative()),
{
    join_path(prefix, "drive_c/Program Files/MetaTrader 5/MQL5/Experts/Trading Rocket")
}

/// Where the advisors of an instance are looked for, in order: the
/// documented folder `./mql5/Trading Rocket`, then `./src/mql5/Trading
/// Rocket`, then, with the executable's directory `exe_dir` (whose parent is
/// `exe_parent`), the bundle's resources beside it and the executable's own
/// directory.
pub open spec fn instance_source_list(exe_dir: Option<Seq<char>>, exe_parent: Option<Seq<char>>) -> Seq<Seq<char>> {
    let base = seq!["./mql5/Trading Rocket"@, "./src/mql5/Trading Rocket"@];
    match exe_dir {
        None => base,
        Some(d) => base + (match exe_parent {
            Some(p) => seq![joined(p, "Resources/mql5/Trading Rocket"@)],
            None => Seq::empty(),
        }) + seq![joined(d, "mql5/Trading Rocket"@)],
    }
}

/// The documented folder `./mql5/Trading Rocket` is the first place looked
/// at: whenever it exists, it is the folder the advisors come from, whatever
/// else exists.
pub proof fn lemma_documented_source_first(
    exe_dir: Option<Seq<char>>,
    exe_parent: Option<Seq<char>>,
    exists: Seq<bool>,
)
    requires
        exists.len() == instance_source_list(exe_dir, exe_parent).len(),
        exists[0],
    ensures
        first_true(exists) == 0,
        instance_source_list(exe_dir, exe_parent)[0] == "./mql5/Trading Rocket"@,
{
}

/// The same places, with the parent of the executable's directory as
/// `Path::parent` gives it.
pub open spec fn instance_source_candidates(exe_dir: Option<Seq<char>>) -> Seq<Seq<char>> {
    instance_source_list(
        exe_dir,
        match exe_dir {
            Some(d) => path_parent(d),
            None => None,
        },
    )
}

/// Pushes a string onto a list of strings.
fn push_str(v: &mut Vec<String>, s: &str)
    ensures
        final(v).deep_view() == old(v).deep_view().push(s@),
{
    let ghost before = v.deep_view();
    v.push(owned(s));
    assert(v.deep_view() =~= before.push(s@));
}

/// The places the advisors of an instance are looked for, given the
/// executable's directory and that directory's parent.
pub fn instance_sources_in(exe_dir: Option<&str>, exe_parent: Option<&str>) -> (v: Vec<String>)
    ensures
        v.deep_view() == instance_source_list(str_opt_view(exe_dir), str_opt_view(exe_parent)),
{
    let mut v: Vec<String> = Vec::new();
    proof {
        reveal_strlit("./src/mql5/Trading Rocket");
        reveal_strlit("./mql5/Trading Rocket");
        reveal_strlit("Resources/mql5/Trading Rocket");
        reveal_strlit("mql5/Trading Rocket");
    }
    push_str(&mut v, "./mql5/Trading Rocket");
    push_str(&mut v, "./src/mql5/Trading Rocket");
    match exe_dir {
        None => {},
        Some(d) => {
            match exe_parent {
                Some(p) => {
                    let res = join_path(p, "Resources/mql5/Trading Rocket");
                    push_str(&mut v, res.as_str());
                },
                None => {},
            }
            let own = join_path(d, "mql5/Trading Rocket");
            push_str(&mut v, own.as_str());
        },
    }
    assert(v.deep_view() =~= instance_source_list(str_opt_view(exe_dir), str_opt_view(exe_parent)));
    v
}

/// The places the advisors of an instance are looked for, from the
/// executable's directory.
pub fn instance_sources(exe_dir: Option<&str>) -> (v: Vec<String>)
    ensures
        v.deep_view() == instance_source_candidates(str_opt_view(exe_dir)),
{
    match exe_dir {
        None => instance_sources_in(None, None),
        Some(d) => {
            let parent = parent_of(d);
            match parent {
                Some(p) => instance_sources_in(Some(d), Some(p.as_str())),
                None => instance_sources_in(Some(d), None),
            }
        },
    }
}

/// What a missing source folder for an instance is reported as.
pub open spec fn instance_source_missing() -> Seq<char> {
    "Source directory not found: ./src/mql5/Trading Rocket\n"@
        + "  Tried current directory, old location (./mql5/), and executable resource locations"@
}

/// The first place that exists (`exists[i]` tells whether `candidates[i]`
/// does), or the error when none does.
pub fn pick_source(candidates: &Vec<String>, exists: &[bool], missing: &str) -> (r: Result<
    String,
    String,
>)
    requires
        exists@.len() == candidates@.len(),
    ensures
        first_true(exists@) < exists@.len() ==> r is Ok && r->Ok_0@
            == candidates@[first_true(exists@) as int]@,
        first_true(exists@) >= exists@.len() ==> r is Err && r->Err_0@ == missing@,
{
    let mut i: usize = 0;
    while i < exists.len()
        invariant
            i <= exists.len(),
            exists@.len() == candidates@.len(),
            forall|j: int| 0 <= j < i ==> !exists@[j],
        decreases exists.len() - i,
    {
        if exists[i] {
            proof {
                lemma_first_true_unique(exists@, i as int);
            }
            return Ok(owned(candidates[i].as_str()));
        }
        i += 1;
    }
    proof {
        lemma_first_true_unique(exists@, exists@.len() as int);
    }
    Err(owned(missing))
}

/// `parts` joined with `sep` between each two.
pub open spec fn join_with(parts: Seq<Seq<char>>, sep: Seq<char>) -> Seq<char>
    decreases parts.len(),
{
    if parts.len() == 0 {
        Seq::empty()
    } else if parts.len() == 1 {
        parts[0]
    } else {
        join_with(parts.drop_last(), sep) + sep + parts.last()
    }
}

/// Joins strings with a separator.
pub fn join_strings(parts: &Vec<String>, sep: &str) -> (s: String)
    ensures
        s@ == join_with(parts.deep_view(), sep@),
{
    let ghost ps = parts.deep_view();
    let mut out = owned("");
    proof {
        reveal_strlit("");
    }
    let mut i: usize = 0;
    while i < parts.len()
        invariant
            i <= parts.len(),
            ps == parts.deep_view(),
            out@ == join_with(ps.take(i as int), sep@),
        decreases parts.len() - i,
    {
        assert(ps.take(i + 1).drop_last() =~= ps.take(i as int));
        assert(ps[i as int] == parts@[i as int]@);
        if i > 0 {
            out.append(sep);
        }
        out.append(parts[i].as_str());
        assert(out@ =~= join_with(ps.take(i + 1), sep@));
        i += 1;
    }
    assert(ps.take(parts.len() as int) =~= ps);
    out
}

/// Where the master terminal keeps its advisors on macOS, under the home
/// directory.
pub open spec fn mac_master_experts_relative() -> Seq<char> {
    "Library/Application Support/net.metaquotes.wine.metatrader5/drive_c/Program Files/MetaTrader 5/MQL5/Experts"@
}

/// The advice that follows a missing master installation.
pub open spec fn install_advice() -> Seq<char> {
    "\n  Please ensure MetaTrader 5 is installed before starting this application."@
}

/// Where the master terminal's experts folder may be on each system:
/// `home` and `local_data` are the home and local data directories when they
/// are known. On macOS a missing home directory is an error.
pub open spec fn master_candidates(os: Os, home: Option<Seq<char>>, local_data: Option<
    Seq<char>,
>) -> Result<Seq<Seq<char>>, Seq<char>> {
    match os {
        Os::MacOs => match home {
            Some(h) => Ok(seq![joined(h, mac_master_experts_relative())]),
            None => Err("Failed to get home directory"@),
        },
        Os::Windows => {
            let fixed = seq![
                "C:\\Program Files\\MetaTrader 5\\MQL5\\Experts"@,
                "C:\\Program Files (x86)\\MetaTrader 5\\MQL5\\Experts"@,
            ];
            match local_data {
                Some(d) => Ok(
                    fixed.push(joined_windows(d, "Programs\\MetaTrader 5\\MQL5\\Experts"@)),
                ),
                None => Ok(fixed),
            }
        },
        Os::Linux => Err("Unsupported platform. Only macOS and Windows are supported."@),
    }
}

/// Whether a path is just a drive, like `C:`.
pub open spec fn is_drive(p: Seq<char>) -> bool {
    p.len() == 2 && p[1] == ':' && (('a' <= p[0] && p[0] <= 'z') || ('A' <= p[0] && p[0] <= 'Z'))
}

/// Whether `rel` is a plain relative Windows path: not empty, not starting
/// with a separator, and without a drive.
pub open spec fn plain_relative(rel: Seq<char>) -> bool {
    rel.len() > 0 && rel[0] != '\\' && rel[0] != '/' && !(rel.len() >= 2 && rel[1] == ':')
}

/// A plain relative `rel` joined onto `base` as `Path::join` does on
/// Windows: after a backslash, which is left out when `base` is empty, ends
/// with a separator or is just a drive. (For a verbatim `\\?\` base std also
/// normalises the base's components, which this leaves as they are.)
pub open spec fn joined_windows(base: Seq<char>, rel: Seq<char>) -> Seq<char> {
    if base.len() == 0 {
        rel
    } else if is_drive(base) || base.last() == '\\' || base.last() == '/' {
        base + rel
    } else {
        base + seq!['\\'] + rel
    }
}

/// The places where the master terminal's experts folder is looked for.
pub fn master_experts_candidates(os: Os, home: Option<&str>, local_data: Option<&str>) -> (r:
    Result<Vec<String>, String>)
    ensures
        match r {
            Ok(v) => master_candidates(os, str_opt_view(home), str_opt_view(local_data)) is Ok
                && v.deep_view() == master_candidates(os, str_opt_view(home), str_opt_view(local_data))->Ok_0,
            Err(e) => master_candidates(os, str_opt_view(home), str_opt_view(local_data)) == Err::<
                Seq<Seq<char>>,
                Seq<char>,
            >(e@),
        },
{
    match os {
        Os::MacOs => match home {
            Some(h) => {
                let mut v: Vec<String> = Vec::new();
                let p = join_path(
                    h,
                    "Library/Application Support/net.metaquotes.wine.metatrader5/drive_c/Program Files/MetaTrader 5/MQL5/Experts",
                );
                push_str(&mut v, p.as_str());
                assert(v.deep_view() =~= seq![joined(h@, mac_master_experts_relative())]);
                Ok(v)
            },
            None => Err(owned("Failed to get home directory")),
        },
        Os::Windows => {
            let mut v: Vec<String> = Vec::new();
            push_str(&mut v, "C:\\Program Files\\MetaTrader 5\\MQL5\\Experts");
            push_str(&mut v, "C:\\Program Files (x86)\\MetaTrader 5\\MQL5\\Experts");
            match local_data {
                Some(d) => {
                    proof {
                        reveal_strlit("Programs\\MetaTrader 5\\MQL5\\Experts");
                    }
                    let p = join_windows(d, "Programs\\MetaTrader 5\\MQL5\\Experts");
                    push_str(&mut v, p.as_str());
                },
                None => {},
            }
            let ghost c = master_candidates(os, str_opt_view(home), str_opt_view(local_data));
            assert(c is Ok && v.deep_view() =~= c->Ok_0);
            Ok(v)
        },
        Os::Linux => Err(owned("Unsupported platform. Only macOS and Windows are supported.")),
    }
}

/// Joins a plain relative path onto a directory the Windows way.
pub(crate) fn join_windows(base: &str, rel: &str) -> (p: String)
    requires
        plain_relative(rel@),
    ensures
        p@ == joined_windows(base@, rel@),
{
    let b = crate::text::to_chars(base);
    if b.len() == 0 {
        return owned(rel);
    }
    let drive = b.len() == 2 && b[1] == ':' && (('a' <= b[0] && b[0] <= 'z') || ('A' <= b[0]
        && b[0] <= 'Z'));
    if drive || b[b.len() - 1] == '\\' || b[b.len() - 1] == '/' {
        return concat2(base, rel);
    }
    let r = concat3(base, "\\", rel);
    proof {
        reveal_strlit("\\");
    }
    assert(r@ =~= base@ + seq!['\\'] + rel@);
    r
}

/// The report of a master terminal missing on macOS; `shown` is the
/// expected folder as it is printed.
pub fn mac_master_missing(shown: &str) -> (m: String)
    ensures
        m@ == "Master MT5 installation not found at: "@ + shown@ + install_advice(),
{
    concat3(
        "Master MT5 installation not found at: ",
        shown,
        "\n  Please ensure MetaTrader 5 is installed before starting this application.",
    )
}

/// The report of a master terminal missing on Windows; `shown` are the
/// folders looked at, as they are printed.
pub fn windows_master_missing(shown: &Vec<String>) -> (m: String)
    ensures
        m@ == "Master MT5 installation not found. Checked:\n  "@ + join_with(
            shown.deep_view(),
            "\n  "@,
        ) + install_advice(),
{
    let list = join_strings(shown, "\n  ");
    concat3(
        "Master MT5 installation not found. Checked:\n  ",
        list.as_str(),
        "\n  Please ensure MetaTrader 5 is installed before starting this application.",
    )
}

/// Where the advisors to publish to the master terminal are looked for
/// during development, in order.
pub open spec fn dev_source_candidates() -> Seq<Seq<char>> {
    seq![
        "./src-tauri/src/mql5/Trading Rocket"@,
        "./src/mql5/Trading Rocket"@,
        "./mql5/Trading Rocket"@,
    ]
}

/// Where they are looked for in an installed application, from the
/// executable's directory `exe_dir` (when it is known) and its parent
/// `exe_parent`: on macOS the bundle's resources beside that directory, on
/// Windows the directory itself.
pub open spec fn bundle_source_list(os: Os, exe_dir: Option<Seq<char>>, exe_parent: Option<Seq<char>>) -> Seq<Seq<char>> {
    match exe_dir {
        None => Seq::empty(),
        Some(d) => match os {
            Os::MacOs => match exe_parent {
                Some(p) => {
                    let res = joined(p, "Resources"@);
                    seq![joined(res, "src/mql5/Trading Rocket"@), joined(res, "mql5/Trading Rocket"@)]
                },
                None => Seq::empty(),
            },
            Os::Windows => seq![
                joined_windows(d, "src\\mql5\\Trading Rocket"@),
                joined_windows(d, "mql5\\Trading Rocket"@),
            ],
            Os::Linux => Seq::empty(),
        },
    }
}

/// The same places, with the parent as `Path::parent` gives it.
pub open spec fn bundle_source_candidates(os: Os, exe_dir: Option<Seq<char>>) -> Seq<Seq<char>> {
    bundle_source_list(
        os,
        exe_dir,
        match exe_dir {
            Some(d) => path_parent(d),
            None => None,
        },
    )
}

/// The places of an installed application, given the executable's
/// directory and that directory's parent.
pub fn bundle_sources_in(os: Os, exe_dir: Option<&str>, exe_parent: Option<&str>) -> (v: Vec<String>)
    ensures
        v.deep_view() == bundle_source_list(os, str_opt_view(exe_dir), str_opt_view(exe_parent)),
{
    let mut bundle: Vec<String> = Vec::new();
    match exe_dir {
        None => {},
        Some(d) => match os {
            Os::MacOs => match exe_parent {
                Some(p) => {
                    let res = join_path(p, "Resources");
                    let a = join_path(res.as_str(), "src/mql5/Trading Rocket");
                    push_str(&mut bundle, a.as_str());
                    let b = join_path(res.as_str(), "mql5/Trading Rocket");
                    push_str(&mut bundle, b.as_str());
                },
                None => {},
            },
            Os::Windows => {
                proof {
                    reveal_strlit("src\\mql5\\Trading Rocket");
                    reveal_strlit("mql5\\Trading Rocket");
                }
                let a = join_windows(d, "src\\mql5\\Trading Rocket");
                push_str(&mut bundle, a.as_str());
                let b = join_windows(d, "mql5\\Trading Rocket");
                push_str(&mut bundle, b.as_str());
            },
            Os::Linux => {},
        },
    }
    assert(bundle.deep_view() =~= bundle_source_list(os, str_opt_view(exe_dir), str_opt_view(exe_parent)));
    bundle
}

/// The development places, then the installed application's.
pub fn publish_sources(os: Os, exe_dir: Option<&str>) -> (r: (Vec<String>, Vec<String>))
    ensures
        r.0.deep_view() == dev_source_candidates(),
        r.1.deep_view() == bundle_source_candidates(os, str_opt_view(exe_dir)),
{
    let mut dev: Vec<String> = Vec::new();
    push_str(&mut dev, "./src-tauri/src/mql5/Trading Rocket");
    push_str(&mut dev, "./src/mql5/Trading Rocket");
    push_str(&mut dev, "./mql5/Trading Rocket");
    assert(dev.deep_view() =~= dev_source_candidates());
    let bundle = match exe_dir {
        None => bundle_sources_in(os, None, None),
        Some(d) => {
            let parent = parent_of(d);
            match parent {
                Some(p) => bundle_sources_in(os, Some(d), Some(p.as_str())),
                None => bundle_sources_in(os, Some(d), None),
            }
        },
    };
    (dev, bundle)
}

/// The report of a missing advisor source folder; `dev_shown` and
/// `bundle_shown` are the places looked at, as they are printed.
pub fn publish_source_missing(dev_shown: &Vec<String>, bundle_shown: &Vec<String>) -> (m: String)
    ensures
        m@ == "Expert Advisor source directory not found. Tried:\n  "@ + join_with(
            dev_shown.deep_view(),
            "\n  "@,
        ) + "\n  "@ + join_with(bundle_shown.deep_view(), "\n  "@),
{
    let a = join_strings(dev_shown, "\n  ");
    let b = join_strings(bundle_shown, "\n  ");
    let mut m = concat3("Expert Advisor source directory not found. Tried:\n  ", a.as_str(), "\n  ");
    m.append(b.as_str());
    m
}

/// The folder under the master's experts folder that receives the advisors.
pub fn master_experts_dir(experts: &str) -> (d: String)
    ensures
        d@ == joined(experts@, experts_folder()),
{
    join_path(experts, "Trading Rocket")
}

/// The summary printed after publishing the advisors.
pub fn publish_summary(copied: usize, skipped: usize) -> (m: String)
    ensures
        m@ == "[EA_SYNC] \u{2713} Successfully synchronized "@ + crate::text::decimal(copied as nat)
            + " Expert Advisor file(s) ("@ + crate::text::decimal(skipped as nat) + " skipped)"@,
{
    let mut m = concat2(
        "[EA_SYNC] \u{2713} Successfully synchronized ",
        crate::text::u64_to_decimal(copied as u64).as_str(),
    );
    m.append(" Expert Advisor file(s) (");
    m.append(crate::text::u64_to_decimal(skipped as u64).as_str());
    m.append(" skipped)");
    m
}

} // verus!
