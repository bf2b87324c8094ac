//! Where the SecuGen shared library is looked for.
//!
//! Resolution order (first match wins):
//!   1. SECUGEN_LIB_PATH env var  — exact path to the library
//!   2. SECUGEN_DLL_PATH env var  — exact path (legacy alias, works everywhere)
//!   3. SECUGEN_SDK_PATH env var  — directory containing the library
//!   4. Directory of the running executable (parity step; rarely matches)
//!   5. Platform default paths (system installs)
//!   6. Bare filename — handed to the OS loader so its own rules apply
use vstd::prelude::*;
use vstd::string::StringExecFns;
use crate::sdk::vendors::Platform;

verus! {

/// File name of the SecuGen shared library on a platform.
pub open spec fn spec_lib_filename(platform: Platform) -> Seq<char> {
    match platform {
        Platform::Windows => "sgfplib.dll"@,
        Platform::MacOs => "libsgfplib.dylib"@,
        Platform::Linux => "libsgfplib.so"@,
    }
}

pub fn default_lib_filename(platform: Platform) -> (name: &'static str)
    ensures
        name@ == spec_lib_filename(platform),
{
    match platform {
        Platform::Windows => "sgfplib.dll",
        Platform::MacOs => "libsgfplib.dylib",
        Platform::Linux => "libsgfplib.so",
    }
}

/// Directories of system-wide SDK installs on a platform, in search order.
pub open spec fn spec_default_dirs(platform: Platform) -> Seq<Seq<char>> {
    match platform {
        Platform::Windows => seq![
            "C:\\SecuGen\\SDK\\FDx SDK Pro for Windows v4.3.1_J1.12\\FDx SDK Pro for Java v1.12\\jnisgfplib\\win32"@,
            "C:\\Program Files\\SecuGen\\FDx SDK Pro for Windows\\lib"@,
            "C:\\Program Files (x86)\\SecuGen\\FDx SDK Pro for Windows\\lib"@,
        ],
        Platform::MacOs => seq!["/usr/local/lib"@, "/opt/homebrew/lib"@, "/opt/SecuGen/lib"@],
        Platform::Linux => seq!["/usr/local/lib"@, "/usr/lib"@, "/opt/SecuGen/lib"@],
    }
}

pub fn platform_default_dirs(platform: Platform) -> (dirs: Vec<&'static str>)
    ensures
        dirs@.len() == spec_default_dirs(platform).len(),
        forall|i: int| 0 <= i < dirs@.len() ==> #[trigger] dirs@[i]@ == spec_default_dirs(platform)[i],
{
    let mut dirs: Vec<&'static str> = Vec::new();
    match platform {
        Platform::Windows => {
            dirs.push(
                "C:\\SecuGen\\SDK\\FDx SDK Pro for Windows v4.3.1_J1.12\\FDx SDK Pro for Java v1.12\\jnisgfplib\\win32",
            );
            dirs.push("C:\\Program Files\\SecuGen\\FDx SDK Pro for Windows\\lib");
            dirs.push("C:\\Program Files (x86)\\SecuGen\\FDx SDK Pro for Windows\\lib");
        },
        Platform::MacOs => {
            dirs.push("/usr/local/lib");
            dirs.push("/opt/homebrew/lib");
            dirs.push("/opt/SecuGen/lib");
        },
        Platform::Linux => {
            dirs.push("/usr/local/lib");
            dirs.push("/usr/lib");
            dirs.push("/opt/SecuGen/lib");
        },
    }
    dirs
}

/// One place the library may be: an exact file path, or a directory in
/// which the platform's library file name is looked for.
#[derive(Debug, Clone, PartialEq, Eq)]
pub enum SearchStep {
    ExactPath(String),
    InDirectory(String),
}

pub open spec fn step_view(s: SearchStep) -> (bool, Seq<char>) {
    match s {
        SearchStep::ExactPath(p) => (true, p@),
        SearchStep::InDirectory(d) => (false, d@),
    }
}

/// The places searched, in order, given the environment: the explicit
/// library paths, the SDK directory, the executable's directory, and then
/// `default_dirs`.
pub open spec fn spec_search_plan(
    lib_path: Option<Seq<char>>,
    dll_path: Option<Seq<char>>,
    sdk_dir: Option<Seq<char>>,
    exe_dir: Option<Seq<char>>,
    default_dirs: Seq<Seq<char>>,
) -> Seq<(bool, Seq<char>)> {
    let a: Seq<(bool, Seq<char>)> = match lib_path {
        Some(p) => seq![(true, p)],
        None => seq![],
    };
    let b: Seq<(bool, Seq<char>)> = match dll_path {
        Some(p) => seq![(true, p)],
        None => seq![],
    };
    let c: Seq<(bool, Seq<char>)> = match sdk_dir {
        Some(d) => seq![(false, d)],
        None => seq![],
    };
    let d: Seq<(bool, Seq<char>)> = match exe_dir {
        Some(x) => seq![(false, x)],
        None => seq![],
    };
    a + b + c + d + default_dirs.map_values(|dir: Seq<char>| (false, dir))
}

pub open spec fn opt_view(o: Option<String>) -> Option<Seq<char>> {
    match o {
        Some(s) => Some(s@),
        None => None,
    }
}

pub(crate) fn push_opt(plan: &mut Vec<SearchStep>, v: Option<String>, exact: bool)
    ensures
        final(plan)@.map_values(|s: SearchStep| step_view(s)) == old(plan)@.map_values(
            |s: SearchStep| step_view(s),
        ) + match opt_view(v) {
            Some(p) => seq![(exact, p)],
            None => Seq::<(bool, Seq<char>)>::empty(),
        },
{
    let ghost before = plan@;
    match v {
        Some(p) => {
            if exact {
                plan.push(SearchStep::ExactPath(p));
            } else {
                plan.push(SearchStep::InDirectory(p));
            }
        },
        None => {},
    }
    assert(plan@.map_values(|s: SearchStep| step_view(s)) =~= before.map_values(
        |s: SearchStep| step_view(s),
    ) + match opt_view(v) {
        Some(p) => seq![(exact, p)],
        None => Seq::<(bool, Seq<char>)>::empty(),
    });
}

/// The ordered list of places searched for the library.
pub fn library_search_plan(
    lib_path_env: Option<String>,
    dll_path_env: Option<String>,
    sdk_path_env: Option<String>,
    exe_dir: Option<String>,
    platform: Platform,
) -> (plan: Vec<SearchStep>)
    ensures
        plan@.map_values(|s: SearchStep| step_view(s)) == spec_search_plan(
            opt_view(lib_path_env),
            opt_view(dll_path_env),
            opt_view(sdk_path_env),
            opt_view(exe_dir),
            spec_default_dirs(platform),
        ),
{
    let ghost lv = opt_view(lib_path_env);
    let ghost dv = opt_view(dll_path_env);
    let ghost sv = opt_view(sdk_path_env);
    let ghost ev = opt_view(exe_dir);
    let mut plan: Vec<SearchStep> = Vec::new();
    push_opt(&mut plan, lib_path_env, true);
    push_opt(&mut plan, dll_path_env, true);
    push_opt(&mut plan, sdk_path_env, false);
    push_opt(&mut plan, exe_dir, false);
    let ghost head = plan@.map_values(|s: SearchStep| step_view(s));
    let dirs = platform_default_dirs(platform);
    let ghost dd = spec_default_dirs(platform);
    let mut k: usize = 0;
    while k < dirs.len()
        invariant
            dirs@.len() == dd.len(),
            forall|i: int| 0 <= i < dirs@.len() ==> #[trigger] dirs@[i]@ == dd[i],
            k <= dirs@.len(),
            plan@.map_values(|s: SearchStep| step_view(s)) == head + dd.take(k as int).map_values(
                |dir: Seq<char>| (false, dir),
            ),
        decreases dirs@.len() - k,
    {
        let ghost prev = plan@;
        plan.push(SearchStep::InDirectory(String::from_str(dirs[k])));
        assert(plan@.map_values(|s: SearchStep| step_view(s)) =~= prev.map_values(
            |s: SearchStep| step_view(s),
        ).push((false, dd[k as int])));
        assert(dd.take(k + 1).map_values(|dir: Seq<char>| (false, dir)) =~= dd.take(
            k as int,
        ).map_values(|dir: Seq<char>| (false, dir)).push((false, dd[k as int])));
        assert(plan@.map_values(|s: SearchStep| step_view(s)) =~= head + dd.take(k + 1).map_values(
            |dir: Seq<char>| (false, dir),
        ));
        k = k + 1;
    }
    assert(dd.take(k as int) =~= dd);
    assert(plan@.map_values(|s: SearchStep| step_view(s)) =~= spec_search_plan(lv, dv, sv, ev, dd));
    plan
}

/// The outcome of a search: one of the planned places, or the bare file
/// name for the OS loader to resolve.
#[derive(Debug, Clone, PartialEq, Eq)]
pub enum LibraryLocation {
    Planned(usize),
    BareFilename(String),
}

/// Picks the library location given, for each planned place, whether the
/// library file exists there: the first place where it does, otherwise the
/// platform's bare file name.
pub fn find_library_path(plan: &Vec<SearchStep>, exists: &Vec<bool>, platform: Platform) -> (loc:
    LibraryLocation)
    requires
        exists@.len() == plan@.len(),
    ensures
        loc matches LibraryLocation::Planned(i) ==> i < plan@.len() && exists@[i as int] && forall|
            j: int,
        | 0 <= j < i ==> !exists@[j],
        loc matches LibraryLocation::BareFilename(name) ==> name@ == spec_lib_filename(platform)
            && forall|j: int| 0 <= j < exists@.len() ==> !exists@[j],
{
    let mut k: usize = 0;
    while k < exists.len()
        invariant
            k <= exists@.len(),
            exists@.len() == plan@.len(),
            forall|j: int| 0 <= j < k ==> !exists@[j],
        decreases exists@.len() - k,
    {
        if exists[k] {
            return LibraryLocation::Planned(k);
        }
        k = k + 1;
    }
    LibraryLocation::BareFilename(String::from_str(default_lib_filename(platform)))
}

} // verus!
