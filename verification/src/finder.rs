//! The browser resolution engine: an ordered list of candidate executable
//! paths is derived from the catalog and the host snapshot, and the first
//! candidate that exists on disk wins.
//!
//! Candidate derivation and selection are pure and fully specified; only the
//! existence test itself asks the filesystem. The drivers at the bottom tie
//! the two together and mirror the per-platform search strategies.

use crate::browser::Browser;
use crate::browser::BrowserType;
use crate::browser::spec_executables;
use crate::browser::spec_macos_app_paths;
use crate::probe::EnvOverrides;
use crate::probe::HostProbe;
use crate::probe::NameLookup;
use crate::probe::Platform;
use crate::probe::path_exists;
use crate::probe::warn_deprecated_override;
use crate::strutil::spec_trim;
use crate::strutil::trim;
use crate::strutil::str_eq;
use vstd::prelude::*;

verus! {

/// Which resolution stage produced a candidate path.
#[derive(Clone, Copy, Debug, PartialEq, Eq, Structural)]
pub enum CandidateOrigin {
    /// The primary override environment variable.
    PrimaryEnv,
    /// The deprecated alias override variable; choosing it emits a
    /// deprecation notice.
    DeprecatedEnv,
    /// The generic fallback override variable.
    FallbackEnv,
    /// A well-known application-bundle path from the catalog.
    AppBundle,
    /// The application-registration database scan.
    AppRegistry,
    /// A per-machine install directory joined with a known suffix.
    InstallPath,
    /// A platform `PATH` lookup of a candidate executable name.
    PathLookup,
    /// A common binary directory joined with a candidate executable name.
    CommonPath,
    /// The executable declared by a desktop-entry file.
    DesktopEntry,
}

/// One path the resolution engine will test for existence, tagged with the
/// stage that produced it.
#[derive(Debug)]
pub struct Candidate {
    pub origin: CandidateOrigin,
    pub path: String,
}

/// The mathematical image of a candidate: its origin and the characters of
/// its path.
pub struct CandidateModel {
    pub origin: CandidateOrigin,
    pub path: Seq<char>,
}

impl DeepView for Candidate {
    type V = CandidateModel;

    open spec fn deep_view(&self) -> CandidateModel {
        CandidateModel { origin: self.origin, path: self.path@ }
    }
}

impl Clone for Candidate {
    /// A clone is equal to the original candidate.
    fn clone(&self) -> (r: Self)
        ensures
            r == *self,
    {
        Candidate { origin: self.origin, path: self.path.clone() }
    }
}

/// The environment-override candidates, in fixed priority order: the primary
/// variable, the deprecated alias, then the generic fallback, each present
/// exactly when the variable is set. The override is global: it does not
/// depend on the requested identity.
pub open spec fn spec_env_candidates(env: EnvOverrides) -> Seq<CandidateModel> {
    (match env.chrome_path {
        Some(p) => seq![CandidateModel { origin: CandidateOrigin::PrimaryEnv, path: p@ }],
        None => Seq::<CandidateModel>::empty(),
    }) + (match env.lighthouse_chromium_path {
        Some(p) => seq![CandidateModel { origin: CandidateOrigin::DeprecatedEnv, path: p@ }],
        None => Seq::<CandidateModel>::empty(),
    }) + (match env.browser_path {
        Some(p) => seq![CandidateModel { origin: CandidateOrigin::FallbackEnv, path: p@ }],
        None => Seq::<CandidateModel>::empty(),
    })
}

/// Append one candidate.
fn push_cand(v: &mut Vec<Candidate>, origin: CandidateOrigin, path: String)
    ensures
        final(v).deep_view() == old(v).deep_view() + seq![
            CandidateModel { origin, path: path@ },
        ],
{
    let ghost pre = v.deep_view();
    let ghost pv = path@;
    v.push(Candidate { origin, path });
    proof {
        assert(v.deep_view() =~= pre + seq![CandidateModel { origin, path: pv }]);
    }
}

/// Emit the environment-override candidates.
fn append_env_candidates(env: &EnvOverrides, v: &mut Vec<Candidate>)
    ensures
        final(v).deep_view() == old(v).deep_view() + spec_env_candidates(*env),
{
    let ghost pre = v.deep_view();
    if let Some(p) = &env.chrome_path {
        push_cand(v, CandidateOrigin::PrimaryEnv, p.clone());
    }
    let ghost s0 = pre + (match &env.chrome_path {
        Some(p) => seq![CandidateModel { origin: CandidateOrigin::PrimaryEnv, path: p@ }],
        None => Seq::<CandidateModel>::empty(),
    });
    proof {
        assert(v.deep_view() =~= s0);
    }
    if let Some(p) = &env.lighthouse_chromium_path {
        push_cand(v, CandidateOrigin::DeprecatedEnv, p.clone());
    }
    let ghost s1 = s0 + (match &env.lighthouse_chromium_path {
        Some(p) => seq![CandidateModel { origin: CandidateOrigin::DeprecatedEnv, path: p@ }],
        None => Seq::<CandidateModel>::empty(),
    });
    proof {
        assert(v.deep_view() =~= s1);
    }
    if let Some(p) = &env.browser_path {
        push_cand(v, CandidateOrigin::FallbackEnv, p.clone());
    }
    proof {
        assert(v.deep_view() =~= pre + spec_env_candidates(*env));
    }
}

/// The first index at or after `i` whose flag is set, or the length.
pub open spec fn spec_first_hit_at(exists: Seq<bool>, i: int) -> int
    recommends
        0 <= i <= exists.len(),
    decreases exists.len() - i,
{
    if i < 0 || i >= exists.len() {
        exists.len() as int
    } else if exists[i] {
        i
    } else {
        spec_first_hit_at(exists, i + 1)
    }
}

/// Which candidate resolution picks, given the existence answer for each
/// candidate: the first one whose flag is set, or none.
pub open spec fn spec_select(exists: Seq<bool>) -> Option<int> {
    let i = spec_first_hit_at(exists, 0);
    if i == exists.len() {
        None
    } else {
        Some(i)
    }
}

/// Pick the first candidate whose existence flag is set. `exists` pairs with
/// `cands` by index.
pub fn select_candidate(cands: &Vec<Candidate>, exists: &Vec<bool>) -> (r: Option<usize>)
    requires
        cands@.len() == exists@.len(),
    ensures
        r is Some <==> spec_select(exists@) is Some,
        r matches Some(i) ==> {
            &&& Some(i as int) == spec_select(exists@)
            &&& i < cands@.len()
            &&& exists@[i as int]
            &&& forall|j: int| 0 <= j < i ==> !exists@[j]
        },
{
    let n = exists.len();
    let mut i: usize = 0;
    loop
        invariant
            n == exists@.len(),
            i <= n,
            spec_first_hit_at(exists@, 0) == spec_first_hit_at(exists@, i as int),
        ensures
            i as int == spec_first_hit_at(exists@, 0),
            i <= n,
            i < n ==> exists@[i as int],
        decreases n - i,
    {
        if i >= n {
            break;
        }
        if exists[i] {
            break;
        }
        i = i + 1;
    }
    proof {
        lemma_first_hit_props(exists@, 0);
    }
    if i < n {
        Some(i)
    } else {
        None
    }
}

/// Each path in `paths`, in order, as a candidate of the given origin.
pub open spec fn spec_path_cands(paths: Seq<Seq<char>>, origin: CandidateOrigin) -> Seq<
    CandidateModel,
>
    decreases paths.len(),
{
    if paths.len() == 0 {
        Seq::empty()
    } else {
        spec_path_cands(paths.drop_last(), origin) + seq![
            CandidateModel { origin, path: paths.last() },
        ]
    }
}

/// Emit each of `paths` as a candidate of the given origin.
fn append_path_cands(v: &mut Vec<Candidate>, paths: &Vec<&str>, origin: CandidateOrigin)
    ensures
        final(v).deep_view() == old(v).deep_view() + spec_path_cands(paths.deep_view(), origin),
{
    let ghost pre = v.deep_view();
    proof {
        assert(spec_path_cands(paths.deep_view().take(0), origin) =~= Seq::<
            CandidateModel,
        >::empty());
        assert(pre + spec_path_cands(paths.deep_view().take(0), origin) =~= pre);
    }
    let mut k: usize = 0;
    while k < paths.len()
        invariant
            k <= paths@.len(),
            v.deep_view() == pre + spec_path_cands(paths.deep_view().take(k as int), origin),
        decreases paths@.len() - k,
    {
        push_cand(v, origin, String::from_str(paths[k]));
        proof {
            assert(paths.deep_view().take(k + 1).drop_last() =~= paths.deep_view().take(k as int));
            assert(paths.deep_view().take(k + 1).last() == paths.deep_view()[k as int]);
            assert(pre + spec_path_cands(paths.deep_view().take(k as int), origin) + seq![
                CandidateModel { origin, path: paths.deep_view()[k as int] },
            ] =~= pre + spec_path_cands(paths.deep_view().take(k + 1), origin));
        }
        k = k + 1;
    }
    proof {
        assert(paths.deep_view().take(paths@.len() as int) =~= paths.deep_view());
    }
}

/// The outcome the lookup table records for `name`: the raw output of the
/// first entry for that name, or nothing when it is absent or its lookup
/// failed.
pub open spec fn spec_lookup(table: Seq<NameLookup>, name: Seq<char>) -> Option<Seq<char>>
    decreases table.len(),
{
    if table.len() == 0 {
        None
    } else if table[0].name@ == name {
        match table[0].output {
            Some(out) => Some(out@),
            None => None,
        }
    } else {
        spec_lookup(table.drop_first(), name)
    }
}

/// The raw output the lookup table records for `name`.
fn lookup_output(table: &Vec<NameLookup>, name: &str) -> (r: Option<String>)
    ensures
        r is Some <==> spec_lookup(table@, name@) is Some,
        r matches Some(out) ==> Some(out@) == spec_lookup(table@, name@),
{
    let n = table.len();
    let mut k: usize = 0;
    proof {
        assert(table@.skip(0) =~= table@);
    }
    loop
        invariant
            n == table@.len(),
            k <= n,
            spec_lookup(table@, name@) == spec_lookup(table@.skip(k as int), name@),
        ensures
            k <= n,
            spec_lookup(table@, name@) == spec_lookup(table@.skip(k as int), name@),
            k < n ==> table@[k as int].name@ == name@,
            k == n ==> spec_lookup(table@, name@) is None,
        decreases n - k,
    {
        if k >= n {
            proof {
                assert(table@.skip(k as int) =~= Seq::<NameLookup>::empty());
            }
            break;
        }
        proof {
            assert(table@.skip(k as int)[0] == table@[k as int]);
        }
        if str_eq(table[k].name.as_str(), name) {
            break;
        }
        proof {
            assert(table@.skip(k as int).drop_first() =~= table@.skip(k + 1));
        }
        k = k + 1;
    }
    if k < n {
        match &table[k].output {
            Some(out) => Some(out.clone()),
            None => None,
        }
    } else {
        None
    }
}

/// The candidate a single name lookup contributes: the trimmed output of a
/// successful lookup, provided it is non-empty.
pub open spec fn spec_lookup_cand_one(table: Seq<NameLookup>, name: Seq<char>) -> Seq<
    CandidateModel,
> {
    match spec_lookup(table, name) {
        Some(out) => {
            if spec_trim(out).len() > 0 {
                seq![
                    CandidateModel { origin: CandidateOrigin::PathLookup, path: spec_trim(out) },
                ]
            } else {
                Seq::<CandidateModel>::empty()
            }
        },
        None => Seq::<CandidateModel>::empty(),
    }
}

/// The `PATH` lookup candidates for a list of executable names, in order.
pub open spec fn spec_lookup_cands(table: Seq<NameLookup>, names: Seq<Seq<char>>) -> Seq<
    CandidateModel,
>
    decreases names.len(),
{
    if names.len() == 0 {
        Seq::empty()
    } else {
        spec_lookup_cands(table, names.drop_last()) + spec_lookup_cand_one(table, names.last())
    }
}

/// Emit the `PATH` lookup candidates for each executable name, in order.
fn append_lookup_cands(v: &mut Vec<Candidate>, table: &Vec<NameLookup>, names: &Vec<&str>)
    ensures
        final(v).deep_view() == old(v).deep_view() + spec_lookup_cands(
            table@,
            names.deep_view(),
        ),
{
    let ghost pre = v.deep_view();
    proof {
        assert(spec_lookup_cands(table@, names.deep_view().take(0)) =~= Seq::<
            CandidateModel,
        >::empty());
        assert(pre + spec_lookup_cands(table@, names.deep_view().take(0)) =~= pre);
    }
    let mut k: usize = 0;
    while k < names.len()
        invariant
            k <= names@.len(),
            v.deep_view() == pre + spec_lookup_cands(table@, names.deep_view().take(k as int)),
        decreases names@.len() - k,
    {
        let ghost before = v.deep_view();
        if let Some(out) = lookup_output(table, names[k]) {
            let p = trim(out.as_str());
            if p.unicode_len() > 0 {
                push_cand(v, CandidateOrigin::PathLookup, String::from_str(p));
            }
        }
        proof {
            assert(v.deep_view() =~= before + spec_lookup_cand_one(
                table@,
                names.deep_view()[k as int],
            ));
            assert(names.deep_view().take(k + 1).drop_last() =~= names.deep_view().take(k as int));
            assert(names.deep_view().take(k + 1).last() == names.deep_view()[k as int]);
            assert(before + spec_lookup_cand_one(table@, names.deep_view()[k as int]) =~= pre
                + spec_lookup_cands(table@, names.deep_view().take(k + 1)));
        }
        k = k + 1;
    }
    proof {
        assert(names.deep_view().take(names@.len() as int) =~= names.deep_view());
    }
}

/// One directory row: the directory joined with each name by the separator,
/// each as a candidate of the given origin.
pub open spec fn spec_sep_row(
    base: Seq<char>,
    names: Seq<Seq<char>>,
    sep: Seq<char>,
    origin: CandidateOrigin,
) -> Seq<CandidateModel>
    decreases names.len(),
{
    if names.len() == 0 {
        Seq::empty()
    } else {
        spec_sep_row(base, names.drop_last(), sep, origin) + seq![
            CandidateModel { origin, path: base + sep + names.last() },
        ]
    }
}

/// Emit the row of candidates for one directory.
fn append_sep_row(
    v: &mut Vec<Candidate>,
    base: &str,
    names: &Vec<&str>,
    sep: &str,
    origin: CandidateOrigin,
)
    ensures
        final(v).deep_view() == old(v).deep_view() + spec_sep_row(
            base@,
            names.deep_view(),
            sep@,
            origin,
        ),
{
    let ghost pre = v.deep_view();
    proof {
        assert(pre + spec_sep_row(base@, names.deep_view().take(0), sep@, origin) =~= pre);
    }
    let mut k: usize = 0;
    while k < names.len()
        invariant
            k <= names@.len(),
            v.deep_view() == pre + spec_sep_row(
                base@,
                names.deep_view().take(k as int),
                sep@,
                origin,
            ),
        decreases names@.len() - k,
    {
        let mut p = String::from_str(base);
        p.append(sep);
        p.append(names[k]);
        push_cand(v, origin, p);
        proof {
            assert(names.deep_view().take(k + 1).drop_last() =~= names.deep_view().take(k as int));
            assert(names.deep_view().take(k + 1).last() == names.deep_view()[k as int]);
            assert(pre + spec_sep_row(base@, names.deep_view().take(k as int), sep@, origin)
                + seq![
                CandidateModel { origin, path: base@ + sep@ + names.deep_view()[k as int] },
            ] =~= pre + spec_sep_row(base@, names.deep_view().take(k + 1), sep@, origin));
        }
        k = k + 1;
    }
    proof {
        assert(names.deep_view().take(names@.len() as int) =~= names.deep_view());
    }
}

/// The common binary directories consulted on Linux-style hosts, in order.
pub open spec fn spec_linux_base_paths() -> Seq<Seq<char>> {
    seq![
        "/usr/bin"@,
        "/usr/local/bin"@,
        "/opt/google/chrome"@,
        "/opt/microsoft/msedge"@,
        "/opt/brave.com/brave"@,
        "/opt/opera"@,
        "/opt/vivaldi"@,
    ]
}

/// The common binary directories consulted on Linux-style hosts.
fn linux_base_paths() -> (r: Vec<&'static str>)
    ensures
        r.deep_view() == spec_linux_base_paths(),
{
    let r: Vec<&'static str> = vec![
        "/usr/bin",
        "/usr/local/bin",
        "/opt/google/chrome",
        "/opt/microsoft/msedge",
        "/opt/brave.com/brave",
        "/opt/opera",
        "/opt/vivaldi",
    ];
    assert(r.deep_view() =~= spec_linux_base_paths());
    r
}

/// The common-directory candidates: every base directory joined with every
/// candidate executable name, bases outermost.
pub open spec fn spec_common_cands(bases: Seq<Seq<char>>, names: Seq<Seq<char>>) -> Seq<
    CandidateModel,
>
    decreases bases.len(),
{
    if bases.len() == 0 {
        Seq::empty()
    } else {
        spec_common_cands(bases.drop_last(), names) + spec_sep_row(
            bases.last(),
            names,
            "/"@,
            CandidateOrigin::CommonPath,
        )
    }
}

/// Emit the common-directory candidates.
fn append_common_cands(v: &mut Vec<Candidate>, bases: &Vec<&str>, names: &Vec<&str>)
    ensures
        final(v).deep_view() == old(v).deep_view() + spec_common_cands(
            bases.deep_view(),
            names.deep_view(),
        ),
{
    let ghost pre = v.deep_view();
    proof {
        assert(pre + spec_common_cands(bases.deep_view().take(0), names.deep_view()) =~= pre);
    }
    let mut k: usize = 0;
    while k < bases.len()
        invariant
            k <= bases@.len(),
            v.deep_view() == pre + spec_common_cands(
                bases.deep_view().take(k as int),
                names.deep_view(),
            ),
        decreases bases@.len() - k,
    {
        append_sep_row(v, bases[k], names, "/", CandidateOrigin::CommonPath);
        proof {
            assert(bases.deep_view().take(k + 1).drop_last() =~= bases.deep_view().take(k as int));
            assert(bases.deep_view().take(k + 1).last() == bases.deep_view()[k as int]);
            assert(pre + spec_common_cands(bases.deep_view().take(k as int), names.deep_view())
                + spec_sep_row(
                bases.deep_view()[k as int],
                names.deep_view(),
                "/"@,
                CandidateOrigin::CommonPath,
            ) =~= pre + spec_common_cands(bases.deep_view().take(k + 1), names.deep_view()));
        }
        k = k + 1;
    }
    proof {
        assert(bases.deep_view().take(bases@.len() as int) =~= bases.deep_view());
    }
}

/// The per-identity install-path suffixes under a Windows install root.
pub open spec fn spec_windows_suffixes(bt: BrowserType) -> Seq<Seq<char>> {
    match bt {
        BrowserType::Chrome => seq![
            "Google\\Chrome\\Application\\chrome.exe"@,
            "Google\\Chrome SxS\\Application\\chrome.exe"@,
        ],
        BrowserType::Edge => seq!["Microsoft\\Edge\\Application\\msedge.exe"@],
        BrowserType::Brave => seq!["BraveSoftware\\Brave-Browser\\Application\\brave.exe"@],
        BrowserType::Opera => seq!["Opera\\launcher.exe"@],
        BrowserType::Vivaldi => seq!["Vivaldi\\Application\\vivaldi.exe"@],
        _ => Seq::empty(),
    }
}

/// The per-identity install-path suffixes under a Windows install root.
fn windows_suffixes(bt: &BrowserType) -> (r: Vec<&'static str>)
    ensures
        r.deep_view() == spec_windows_suffixes(*bt),
{
    let r: Vec<&'static str> = match bt {
        BrowserType::Chrome => vec![
            "Google\\Chrome\\Application\\chrome.exe",
            "Google\\Chrome SxS\\Application\\chrome.exe",
        ],
        BrowserType::Edge => vec!["Microsoft\\Edge\\Application\\msedge.exe"],
        BrowserType::Brave => vec!["BraveSoftware\\Brave-Browser\\Application\\brave.exe"],
        BrowserType::Opera => vec!["Opera\\launcher.exe"],
        BrowserType::Vivaldi => vec!["Vivaldi\\Application\\vivaldi.exe"],
        _ => Vec::new(),
    };
    assert(r.deep_view() =~= spec_windows_suffixes(*bt));
    r
}

/// The Windows install roots, in order: the two program-files directories
/// with their conventional defaults, and the local application-data
/// directory, empty when unset.
pub open spec fn spec_windows_roots_list(roots: crate::probe::WindowsRoots) -> Seq<Seq<char>> {
    seq![
        (match roots.program_files {
            Some(p) => p@,
            None => "C:\\Program Files"@,
        }),
        (match roots.program_files_x86 {
            Some(p) => p@,
            None => "C:\\Program Files (x86)"@,
        }),
        (match roots.local_app_data {
            Some(p) => p@,
            None => ""@,
        }),
    ]
}

/// The Windows install roots, in order.
fn windows_roots_list(roots: &crate::probe::WindowsRoots) -> (r: Vec<String>)
    ensures
        r.deep_view() == spec_windows_roots_list(*roots),
{
    let mut r: Vec<String> = Vec::new();
    r.push(match &roots.program_files {
        Some(p) => p.clone(),
        None => String::from_str("C:\\Program Files"),
    });
    r.push(match &roots.program_files_x86 {
        Some(p) => p.clone(),
        None => String::from_str("C:\\Program Files (x86)"),
    });
    r.push(match &roots.local_app_data {
        Some(p) => p.clone(),
        None => String::from_str(""),
    });
    proof {
        reveal_strlit("");
        assert(r.deep_view() =~= spec_windows_roots_list(*roots));
    }
    r
}

/// The install-path candidates: every non-empty root joined with every
/// per-identity suffix, roots outermost.
pub open spec fn spec_windows_cands(bases: Seq<Seq<char>>, suffixes: Seq<Seq<char>>) -> Seq<
    CandidateModel,
>
    decreases bases.len(),
{
    if bases.len() == 0 {
        Seq::empty()
    } else {
        spec_windows_cands(bases.drop_last(), suffixes) + (if bases.last().len() == 0 {
            Seq::<CandidateModel>::empty()
        } else {
            spec_sep_row(bases.last(), suffixes, "\\"@, CandidateOrigin::InstallPath)
        })
    }
}

/// Emit the install-path candidates.
fn append_windows_cands(v: &mut Vec<Candidate>, bases: &Vec<String>, suffixes: &Vec<&str>)
    ensures
        final(v).deep_view() == old(v).deep_view() + spec_windows_cands(
            bases.deep_view(),
            suffixes.deep_view(),
        ),
{
    let ghost pre = v.deep_view();
    proof {
        assert(pre + spec_windows_cands(bases.deep_view().take(0), suffixes.deep_view()) =~= pre);
    }
    let mut k: usize = 0;
    while k < bases.len()
        invariant
            k <= bases@.len(),
            v.deep_view() == pre + spec_windows_cands(
                bases.deep_view().take(k as int),
                suffixes.deep_view(),
            ),
        decreases bases@.len() - k,
    {
        let ghost before = v.deep_view();
        if bases[k].unicode_len() > 0 {
            append_sep_row(v, bases[k].as_str(), suffixes, "\\", CandidateOrigin::InstallPath);
        }
        proof {
            assert(bases.deep_view().take(k + 1).drop_last() =~= bases.deep_view().take(k as int));
            assert(bases.deep_view().take(k + 1).last() == bases.deep_view()[k as int]);
            assert(v.deep_view() =~= pre + spec_windows_cands(
                bases.deep_view().take(k + 1),
                suffixes.deep_view(),
            ));
        }
        k = k + 1;
    }
    proof {
        assert(bases.deep_view().take(bases@.len() as int) =~= bases.deep_view());
    }
}

/// The display-name substring an identity is searched by in the
/// application-registration database, which is also the executable name
/// inside its application bundle. Identities without a known bundle are not
/// searched.
pub open spec fn spec_lsreg_name(bt: BrowserType) -> Option<Seq<char>> {
    match bt {
        BrowserType::Chrome => Some("Google Chrome"@),
        BrowserType::Edge => Some("Microsoft Edge"@),
        BrowserType::Brave => Some("Brave Browser"@),
        BrowserType::Opera => Some("Opera"@),
        BrowserType::Vivaldi => Some("Vivaldi"@),
        _ => None,
    }
}

/// The database search name for an identity.
fn lsreg_name(bt: &BrowserType) -> (r: Option<&'static str>)
    ensures
        r is Some <==> spec_lsreg_name(*bt) is Some,
        r matches Some(nm) ==> Some(nm@) == spec_lsreg_name(*bt),
{
    match bt {
        BrowserType::Chrome => Some("Google Chrome"),
        BrowserType::Edge => Some("Microsoft Edge"),
        BrowserType::Brave => Some("Brave Browser"),
        BrowserType::Opera => Some("Opera"),
        BrowserType::Vivaldi => Some("Vivaldi"),
        _ => None,
    }
}

/// The candidate one database line contributes: when the line mentions the
/// search name (compared up to ASCII case) and holds an application-bundle
/// marker, the trimmed text before the marker, the marker, and the bundle's
/// internal executable path.
pub open spec fn spec_lsreg_line_cand(line: Seq<char>, nm: Seq<char>) -> Seq<CandidateModel> {
    match crate::strutil::spec_find_sub(line, ".app"@, 0) {
        Some(e) => if crate::strutil::spec_contains_ci(line, nm) {
            seq![
                CandidateModel {
                    origin: CandidateOrigin::AppRegistry,
                    path: spec_trim(line.take(e)) + ".app"@ + "/Contents/MacOS/"@ + nm,
                },
            ]
        } else {
            Seq::<CandidateModel>::empty()
        },
        None => Seq::<CandidateModel>::empty(),
    }
}

/// The database-scan candidates over a dump's lines, in order.
pub open spec fn spec_lsreg_lines_cands(lines: Seq<Seq<char>>, nm: Seq<char>) -> Seq<
    CandidateModel,
>
    decreases lines.len(),
{
    if lines.len() == 0 {
        Seq::empty()
    } else {
        spec_lsreg_lines_cands(lines.drop_last(), nm) + spec_lsreg_line_cand(lines.last(), nm)
    }
}

/// The database-scan candidates: nothing without a dump or for an identity
/// that is not searched.
pub open spec fn spec_lsreg_cands(bt: BrowserType, dump: Option<String>) -> Seq<CandidateModel> {
    match (dump, spec_lsreg_name(bt)) {
        (Some(d), Some(nm)) => spec_lsreg_lines_cands(crate::strutil::spec_lines(d@), nm),
        _ => Seq::<CandidateModel>::empty(),
    }
}

/// Emit the database-scan candidates.
fn append_lsreg_cands(v: &mut Vec<Candidate>, bt: &BrowserType, dump: &Option<String>)
    ensures
        final(v).deep_view() == old(v).deep_view() + spec_lsreg_cands(*bt, *dump),
{
    let ghost pre = v.deep_view();
    let nm = match lsreg_name(bt) {
        Some(nm) => nm,
        None => {
            proof {
                assert(pre + spec_lsreg_cands(*bt, *dump) =~= pre);
            }
            return ;
        },
    };
    let d = match dump {
        Some(d) => d,
        None => {
            proof {
                assert(pre + spec_lsreg_cands(*bt, *dump) =~= pre);
            }
            return ;
        },
    };
    let lines = crate::strutil::split_lines(d.as_str());
    let ghost lv = lines.deep_view();
    proof {
        assert(pre + spec_lsreg_lines_cands(lv.take(0), nm@) =~= pre);
    }
    let mut k: usize = 0;
    while k < lines.len()
        invariant
            k <= lines@.len(),
            lv == lines.deep_view(),
            nm@ == spec_lsreg_name(*bt)->0,
            v.deep_view() == pre + spec_lsreg_lines_cands(lv.take(k as int), nm@),
        decreases lines@.len() - k,
    {
        let ghost before = v.deep_view();
        let line = lines[k].as_str();
        proof {
            assert(lv[k as int] == lines@[k as int]@);
        }
        if crate::strutil::contains_ci(line, nm) {
            if let Some(e) = crate::strutil::find_sub(line, ".app", 0) {
                proof {
                    crate::strutil::lemma_find_sub_props(line@, ".app"@, 0);
                }
                let prefix = line.substring_char(0, e);
                let mut p = String::from_str(trim(prefix));
                p.append(".app");
                p.append("/Contents/MacOS/");
                p.append(nm);
                proof {
                    assert(prefix@ =~= line@.take(e as int));
                }
                push_cand(v, CandidateOrigin::AppRegistry, p);
            }
        }
        proof {
            assert(v.deep_view() =~= before + spec_lsreg_line_cand(lv[k as int], nm@));
            assert(lv.take(k + 1).drop_last() =~= lv.take(k as int));
            assert(lv.take(k + 1).last() == lv[k as int]);
            assert(before + spec_lsreg_line_cand(lv[k as int], nm@) =~= pre
                + spec_lsreg_lines_cands(lv.take(k + 1), nm@));
        }
        k = k + 1;
    }
    proof {
        assert(lv.take(lines@.len() as int) =~= lv);
        assert(pre + spec_lsreg_lines_cands(lv, nm@) =~= pre + spec_lsreg_cands(*bt, *dump));
    }
}

/// The base name of a path (after the last separator), without its extension
/// (after the last dot, unless the dot opens the name).
pub open spec fn spec_file_stem(p: Seq<char>) -> Seq<char> {
    let base = match crate::strutil::spec_last_idx_of(p, '/') {
        Some(i) => p.skip(i + 1),
        None => p,
    };
    match crate::strutil::spec_last_idx_of(base, '.') {
        Some(j) => if j > 0 {
            base.take(j)
        } else {
            base
        },
        None => base,
    }
}

/// The base name of a path without its extension.
fn file_stem(p: &str) -> (r: &str)
    ensures
        r@ == spec_file_stem(p@),
{
    let len = p.unicode_len();
    let base = match crate::strutil::last_idx_of(p, '/') {
        Some(i) => {
            proof {
                crate::strutil::lemma_last_idx_of_props(p@, '/');
                assert(p@.subrange(i + 1, len as int) =~= p@.skip(i + 1));
            }
            p.substring_char(i + 1, len)
        },
        None => p,
    };
    let blen = base.unicode_len();
    match crate::strutil::last_idx_of(base, '.') {
        Some(j) => {
            proof {
                crate::strutil::lemma_last_idx_of_props(base@, '.');
                assert(base@.subrange(0, j as int) =~= base@.take(j as int));
            }
            if j > 0 {
                base.substring_char(0, j)
            } else {
                base
            }
        },
        None => base,
    }
}

/// Whether `x` is one of the names.
fn names_contain(names: &Vec<&str>, x: &str) -> (r: bool)
    ensures
        r == names.deep_view().contains(x@),
{
    let mut k: usize = 0;
    while k < names.len()
        invariant
            k <= names@.len(),
            forall|j: int| 0 <= j < k ==> names.deep_view()[j] != x@,
        decreases names@.len() - k,
    {
        if str_eq(names[k], x) {
            proof {
                assert(names.deep_view()[k as int] == x@);
            }
            return true;
        }
        k = k + 1;
    }
    proof {
        if names.deep_view().contains(x@) {
            let j = choose|j: int| 0 <= j < names.deep_view().len() && names.deep_view()[j] == x@;
            assert(names.deep_view()[j] != x@);
        }
    }
    false
}

/// The candidate one desktop-entry line contributes: for a line declaring an
/// executable invocation, the invocation's first token, provided the token's
/// base name (without extension) is one of the candidate executable names.
pub open spec fn spec_desktop_line_cand(line: Seq<char>, names: Seq<Seq<char>>) -> Seq<
    CandidateModel,
> {
    if crate::strutil::spec_starts_with(line, "Exec="@) {
        match crate::strutil::spec_first_token(line.skip(5)) {
            Some(tok) => if names.contains(spec_file_stem(tok)) {
                seq![CandidateModel { origin: CandidateOrigin::DesktopEntry, path: tok }]
            } else {
                Seq::<CandidateModel>::empty()
            },
            None => Seq::<CandidateModel>::empty(),
        }
    } else {
        Seq::<CandidateModel>::empty()
    }
}

/// The candidates of a desktop-entry file's lines, in order.
pub open spec fn spec_desktop_lines_cands(lines: Seq<Seq<char>>, names: Seq<Seq<char>>) -> Seq<
    CandidateModel,
>
    decreases lines.len(),
{
    if lines.len() == 0 {
        Seq::empty()
    } else {
        spec_desktop_lines_cands(lines.drop_last(), names) + spec_desktop_line_cand(
            lines.last(),
            names,
        )
    }
}

/// The candidates of one file: only desktop-entry files are read.
pub open spec fn spec_desktop_file_cands(
    file: crate::probe::DesktopFile,
    names: Seq<Seq<char>>,
) -> Seq<CandidateModel> {
    if crate::strutil::spec_ends_with(file.name@, ".desktop"@) {
        spec_desktop_lines_cands(crate::strutil::spec_lines(file.content@), names)
    } else {
        Seq::<CandidateModel>::empty()
    }
}

/// The candidates of one directory's files, in directory order.
pub open spec fn spec_desktop_files_cands(
    files: Seq<crate::probe::DesktopFile>,
    names: Seq<Seq<char>>,
) -> Seq<CandidateModel>
    decreases files.len(),
{
    if files.len() == 0 {
        Seq::empty()
    } else {
        spec_desktop_files_cands(files.drop_last(), names) + spec_desktop_file_cands(
            files.last(),
            names,
        )
    }
}

/// The desktop-entry candidates over the scanned directories, in scan order.
pub open spec fn spec_desktop_cands(
    dirs: Seq<crate::probe::DesktopDir>,
    names: Seq<Seq<char>>,
) -> Seq<CandidateModel>
    decreases dirs.len(),
{
    if dirs.len() == 0 {
        Seq::empty()
    } else {
        spec_desktop_cands(dirs.drop_last(), names) + spec_desktop_files_cands(
            dirs.last().files@,
            names,
        )
    }
}

/// Emit the candidates of one desktop-entry file.
fn append_desktop_file_cands(
    v: &mut Vec<Candidate>,
    file: &crate::probe::DesktopFile,
    names: &Vec<&str>,
)
    ensures
        final(v).deep_view() == old(v).deep_view() + spec_desktop_file_cands(
            *file,
            names.deep_view(),
        ),
{
    let ghost pre = v.deep_view();
    if !crate::strutil::ends_with(file.name.as_str(), ".desktop") {
        proof {
            assert(pre + spec_desktop_file_cands(*file, names.deep_view()) =~= pre);
        }
        return ;
    }
    let lines = crate::strutil::split_lines(file.content.as_str());
    let ghost lv = lines.deep_view();
    proof {
        assert(pre + spec_desktop_lines_cands(lv.take(0), names.deep_view()) =~= pre);
    }
    let mut k: usize = 0;
    while k < lines.len()
        invariant
            k <= lines@.len(),
            lv == lines.deep_view(),
            v.deep_view() == pre + spec_desktop_lines_cands(lv.take(k as int), names.deep_view()),
        decreases lines@.len() - k,
    {
        let ghost before = v.deep_view();
        let line = lines[k].as_str();
        proof {
            assert(lv[k as int] == lines@[k as int]@);
            reveal_strlit("Exec=");
        }
        if crate::strutil::starts_with(line, "Exec=") {
            let llen = line.unicode_len();
            let rest = line.substring_char(5, llen);
            proof {
                assert(rest@ =~= line@.skip(5));
            }
            if let Some(tok) = crate::strutil::first_token(rest) {
                let stem = file_stem(tok);
                if names_contain(names, stem) {
                    push_cand(v, CandidateOrigin::DesktopEntry, String::from_str(tok));
                }
            }
        }
        proof {
            assert(v.deep_view() =~= before + spec_desktop_line_cand(
                lv[k as int],
                names.deep_view(),
            ));
            assert(lv.take(k + 1).drop_last() =~= lv.take(k as int));
            assert(lv.take(k + 1).last() == lv[k as int]);
            assert(before + spec_desktop_line_cand(lv[k as int], names.deep_view()) =~= pre
                + spec_desktop_lines_cands(lv.take(k + 1), names.deep_view()));
        }
        k = k + 1;
    }
    proof {
        assert(lv.take(lines@.len() as int) =~= lv);
    }
}

/// Emit the desktop-entry candidates of every scanned directory.
fn append_desktop_cands(
    v: &mut Vec<Candidate>,
    dirs: &Vec<crate::probe::DesktopDir>,
    names: &Vec<&str>,
)
    ensures
        final(v).deep_view() == old(v).deep_view() + spec_desktop_cands(dirs@, names.deep_view()),
{
    let ghost pre = v.deep_view();
    proof {
        assert(pre + spec_desktop_cands(dirs@.take(0), names.deep_view()) =~= pre);
    }
    let mut k: usize = 0;
    while k < dirs.len()
        invariant
            k <= dirs@.len(),
            v.deep_view() == pre + spec_desktop_cands(dirs@.take(k as int), names.deep_view()),
        decreases dirs@.len() - k,
    {
        let ghost before = v.deep_view();
        let dir = &dirs[k];
        let files = &dir.files;
        let ghost fv = files@;
        proof {
            assert(before + spec_desktop_files_cands(fv.take(0), names.deep_view()) =~= before);
        }
        let mut m: usize = 0;
        while m < files.len()
            invariant
                m <= files@.len(),
                fv == files@,
                v.deep_view() == before + spec_desktop_files_cands(
                    fv.take(m as int),
                    names.deep_view(),
                ),
            decreases files@.len() - m,
        {
            append_desktop_file_cands(v, &files[m], names);
            proof {
                assert(fv.take(m + 1).drop_last() =~= fv.take(m as int));
                assert(fv.take(m + 1).last() == fv[m as int]);
                assert(before + spec_desktop_files_cands(fv.take(m as int), names.deep_view())
                    + spec_desktop_file_cands(fv[m as int], names.deep_view()) =~= before
                    + spec_desktop_files_cands(fv.take(m + 1), names.deep_view()));
            }
            m = m + 1;
        }
        proof {
            assert(fv.take(files@.len() as int) =~= fv);
            assert(dirs@.take(k + 1).drop_last() =~= dirs@.take(k as int));
            assert(dirs@.take(k + 1).last() == dirs@[k as int]);
            assert(v.deep_view() =~= pre + spec_desktop_cands(
                dirs@.take(k + 1),
                names.deep_view(),
            ));
        }
        k = k + 1;
    }
    proof {
        assert(dirs@.take(dirs@.len() as int) =~= dirs@);
    }
}

pub proof fn lemma_first_hit_props(exists: Seq<bool>, i: int)
    requires
        0 <= i <= exists.len(),
    ensures
        i <= spec_first_hit_at(exists, i) <= exists.len(),
        spec_first_hit_at(exists, i) < exists.len() ==> exists[spec_first_hit_at(exists, i)],
        forall|j: int| i <= j < spec_first_hit_at(exists, i) ==> !exists[j],
    decreases exists.len() - i,
{
    if i < exists.len() && !exists[i] {
        lemma_first_hit_props(exists, i + 1);
    }
}

/// The candidates on a macOS-style host: environment overrides, the
/// catalog's application-bundle paths, then the application-registration
/// database scan.
pub open spec fn spec_macos_candidates(bt: BrowserType, probe: HostProbe) -> Seq<CandidateModel> {
    spec_env_candidates(probe.env) + spec_path_cands(
        spec_macos_app_paths(bt),
        CandidateOrigin::AppBundle,
    ) + spec_lsreg_cands(bt, probe.lsregister_dump)
}

/// The candidates on a Windows-style host: environment overrides, then the
/// install roots joined with the identity's suffixes. The registry stage
/// contributes nothing.
pub open spec fn spec_windows_candidates(bt: BrowserType, probe: HostProbe) -> Seq<
    CandidateModel,
> {
    spec_env_candidates(probe.env) + spec_windows_cands(
        spec_windows_roots_list(probe.windows_roots),
        spec_windows_suffixes(bt),
    )
}

/// The candidates on a Linux-style host: environment overrides, the `PATH`
/// lookups of the identity's executable names, the common binary
/// directories, then the desktop-entry scan.
pub open spec fn spec_linux_candidates(bt: BrowserType, probe: HostProbe) -> Seq<CandidateModel> {
    spec_env_candidates(probe.env) + spec_lookup_cands(probe.path_lookups@, spec_executables(bt))
        + spec_common_cands(spec_linux_base_paths(), spec_executables(bt)) + spec_desktop_cands(
        probe.desktop_dirs@,
        spec_executables(bt),
    )
}

/// Every path resolution will test for the identity, in the order it tests
/// them. On an unrecognized platform resolution has no strategy and the list
/// is empty.
pub open spec fn spec_candidates(bt: BrowserType, probe: HostProbe) -> Seq<CandidateModel> {
    match probe.platform {
        Platform::MacOs => spec_macos_candidates(bt, probe),
        Platform::Windows => spec_windows_candidates(bt, probe),
        Platform::Linux => spec_linux_candidates(bt, probe),
        Platform::Unknown => Seq::<CandidateModel>::empty(),
    }
}

/// The candidate paths for an identity on a macOS-style host.
fn macos_candidates(bt: &BrowserType, probe: &HostProbe) -> (r: Vec<Candidate>)
    ensures
        r.deep_view() == spec_macos_candidates(*bt, *probe),
{
    let mut v: Vec<Candidate> = Vec::new();
    proof {
        assert(v.deep_view() =~= Seq::<CandidateModel>::empty());
    }
    append_env_candidates(&probe.env, &mut v);
    let bundles = bt.macos_app_paths();
    append_path_cands(&mut v, &bundles, CandidateOrigin::AppBundle);
    append_lsreg_cands(&mut v, bt, &probe.lsregister_dump);
    proof {
        assert(v.deep_view() =~= spec_macos_candidates(*bt, *probe));
    }
    v
}

/// The candidate paths for an identity on a Windows-style host.
fn windows_candidates(bt: &BrowserType, probe: &HostProbe) -> (r: Vec<Candidate>)
    ensures
        r.deep_view() == spec_windows_candidates(*bt, *probe),
{
    let mut v: Vec<Candidate> = Vec::new();
    proof {
        assert(v.deep_view() =~= Seq::<CandidateModel>::empty());
    }
    append_env_candidates(&probe.env, &mut v);
    let roots = windows_roots_list(&probe.windows_roots);
    let suffixes = windows_suffixes(bt);
    append_windows_cands(&mut v, &roots, &suffixes);
    proof {
        assert(v.deep_view() =~= spec_windows_candidates(*bt, *probe));
    }
    v
}

/// The candidate paths for an identity on a Linux-style host.
fn linux_candidates(bt: &BrowserType, probe: &HostProbe) -> (r: Vec<Candidate>)
    ensures
        r.deep_view() == spec_linux_candidates(*bt, *probe),
{
    let mut v: Vec<Candidate> = Vec::new();
    proof {
        assert(v.deep_view() =~= Seq::<CandidateModel>::empty());
    }
    append_env_candidates(&probe.env, &mut v);
    let names = bt.executables();
    append_lookup_cands(&mut v, &probe.path_lookups, &names);
    let bases = linux_base_paths();
    append_common_cands(&mut v, &bases, &names);
    append_desktop_cands(&mut v, &probe.desktop_dirs, &names);
    proof {
        assert(v.deep_view() =~= spec_linux_candidates(*bt, *probe));
    }
    v
}

/// Every path resolution will test for the identity, in test order.
pub fn candidate_paths(bt: &BrowserType, probe: &HostProbe) -> (r: Vec<Candidate>)
    ensures
        r.deep_view() == spec_candidates(*bt, *probe),
{
    match probe.platform {
        Platform::MacOs => macos_candidates(bt, probe),
        Platform::Windows => windows_candidates(bt, probe),
        Platform::Linux => linux_candidates(bt, probe),
        Platform::Unknown => {
            let v: Vec<Candidate> = Vec::new();
            proof {
                assert(v.deep_view() =~= Seq::<CandidateModel>::empty());
            }
            v
        },
    }
}

/// Test each candidate for existence, in order, take the first that exists,
/// and emit the deprecation notice when the winner came from the deprecated
/// override variable.
fn resolve_from_candidates(bt: &BrowserType, cands: Vec<Candidate>) -> (r: Option<Browser>)
    ensures
        r matches Some(b) ==> {
            &&& b.browser_type == *bt
            &&& b.version is None
            &&& exists|j: int|
                0 <= j < cands.deep_view().len() && (#[trigger] cands.deep_view()[j]).path
                    == b.executable_path@
        },
{
    let n = cands.len();
    let mut exists_flags: Vec<bool> = Vec::new();
    let mut k: usize = 0;
    while k < n
        invariant
            n == cands@.len(),
            k <= n,
            exists_flags@.len() == k,
        decreases n - k,
    {
        let e = path_exists(cands[k].path.as_str());
        exists_flags.push(e);
        k = k + 1;
    }
    match select_candidate(&cands, &exists_flags) {
        Some(i) => {
            if matches!(cands[i].origin, CandidateOrigin::DeprecatedEnv) {
                warn_deprecated_override();
            }
            let b = Browser::new(bt.clone(), cands[i].path.clone());
            proof {
                assert(cands.deep_view()[i as int].path == b.executable_path@);
            }
            Some(b)
        },
        None => None,
    }
}

/// The default resolution preference order.
pub open spec fn spec_default_preferences() -> Seq<BrowserType> {
    seq![
        BrowserType::Chrome,
        BrowserType::Chromium,
        BrowserType::Edge,
        BrowserType::Brave,
        BrowserType::Opera,
        BrowserType::Vivaldi,
    ]
}

/// `rs` is the run of resolutions picked at the strictly increasing
/// positions `idxs` of the preference list: each entry carries that
/// position's identity, no cached version, and one of that identity's
/// candidate paths.
pub open spec fn spec_ordered_selection(
    idxs: Seq<int>,
    rs: Seq<Browser>,
    prefs: Seq<BrowserType>,
    probe: HostProbe,
) -> bool {
    &&& idxs.len() == rs.len()
    &&& forall|m: int| 0 <= m < idxs.len() ==> 0 <= #[trigger] idxs[m] < prefs.len()
    &&& forall|m: int| 0 < m < idxs.len() ==> idxs[m - 1] < #[trigger] idxs[m]
    &&& forall|m: int|
        0 <= m < rs.len() ==> (#[trigger] rs[m]).version is None && rs[m].browser_type
            == prefs[idxs[m]] && exists|j: int|
            0 <= j < spec_candidates(prefs[idxs[m]], probe).len() && (#[trigger] spec_candidates(
                prefs[idxs[m]],
                probe,
            )[j]).path == rs[m].executable_path@
}

/// Browser finder that can locate multiple Chromium-based browsers, trying
/// the identities of its preference list in order.
#[derive(Debug)]
pub struct BrowserFinder {
    pub preferred_browsers: Vec<BrowserType>,
}

impl Default for BrowserFinder {
    /// The default preference list: Chrome, Chromium, Edge, Brave, Opera,
    /// Vivaldi, in that order.
    fn default() -> (r: Self)
        ensures
            r.preferred_browsers@ == spec_default_preferences(),
    {
        let preferred: Vec<BrowserType> = vec![
            BrowserType::Chrome,
            BrowserType::Chromium,
            BrowserType::Edge,
            BrowserType::Brave,
            BrowserType::Opera,
            BrowserType::Vivaldi,
        ];
        assert(preferred@ =~= spec_default_preferences());
        BrowserFinder { preferred_browsers: preferred }
    }
}

impl BrowserFinder {
    /// Create a new BrowserFinder with custom preferences.
    pub fn new(preferred_browsers: Vec<BrowserType>) -> (r: Self)
        ensures
            r.preferred_browsers == preferred_browsers,
    {
        BrowserFinder { preferred_browsers }
    }

    /// The preference list this finder searches by.
    pub fn get_preferred_browsers(&self) -> (r: &Vec<BrowserType>)
        ensures
            r == &self.preferred_browsers,
    {
        &self.preferred_browsers
    }

    /// Find a specific browser type: derive its candidate paths from the
    /// snapshot and take the first that exists on disk. A result always
    /// carries the requested identity, no cached version, and a path from
    /// the candidate list.
    pub fn find_browser(&self, browser_type: &BrowserType, probe: &HostProbe) -> (r: Option<
        Browser,
    >)
        ensures
            r matches Some(b) ==> {
                &&& b.browser_type == *browser_type
                &&& b.version is None
                &&& exists|j: int|
                    0 <= j < spec_candidates(*browser_type, *probe).len() && (
                    #[trigger] spec_candidates(*browser_type, *probe)[j]).path
                        == b.executable_path@
            },
    {
        let r = match probe.platform {
            Platform::MacOs => self.find_on_macos(browser_type, probe),
            Platform::Windows => self.find_on_windows(browser_type, probe),
            Platform::Linux => self.find_on_linux(browser_type, probe),
            Platform::Unknown => None,
        };
        proof {
            if r is Some {
                let b = r->0;
                let cs = spec_candidates(*browser_type, *probe);
                if probe.platform is MacOs {
                    let j = choose|j: int|
                        0 <= j < spec_macos_candidates(*browser_type, *probe).len() && (
                        #[trigger] spec_macos_candidates(*browser_type, *probe)[j]).path
                            == b.executable_path@;
                    assert(0 <= j < cs.len() && cs[j].path == b.executable_path@);
                } else if probe.platform is Windows {
                    let j = choose|j: int|
                        0 <= j < spec_windows_candidates(*browser_type, *probe).len() && (
                        #[trigger] spec_windows_candidates(*browser_type, *probe)[j]).path
                            == b.executable_path@;
                    assert(0 <= j < cs.len() && cs[j].path == b.executable_path@);
                } else {
                    let j = choose|j: int|
                        0 <= j < spec_linux_candidates(*browser_type, *probe).len() && (
                        #[trigger] spec_linux_candidates(*browser_type, *probe)[j]).path
                            == b.executable_path@;
                    assert(0 <= j < cs.len() && cs[j].path == b.executable_path@);
                }
            }
        }
        r
    }

    /// Find a browser with the macOS-style strategies.
    fn find_on_macos(&self, browser_type: &BrowserType, probe: &HostProbe) -> (r: Option<Browser>)
        ensures
            r matches Some(b) ==> {
                &&& b.browser_type == *browser_type
                &&& b.version is None
                &&& exists|j: int|
                    0 <= j < spec_macos_candidates(*browser_type, *probe).len() && (
                    #[trigger] spec_macos_candidates(*browser_type, *probe)[j]).path
                        == b.executable_path@
            },
    {
        resolve_from_candidates(browser_type, macos_candidates(browser_type, probe))
    }

    /// Find a browser with the Windows-style strategies.
    fn find_on_windows(&self, browser_type: &BrowserType, probe: &HostProbe) -> (r: Option<
        Browser,
    >)
        ensures
            r matches Some(b) ==> {
                &&& b.browser_type == *browser_type
                &&& b.version is None
                &&& exists|j: int|
                    0 <= j < spec_windows_candidates(*browser_type, *probe).len() && (
                    #[trigger] spec_windows_candidates(*browser_type, *probe)[j]).path
                        == b.executable_path@
            },
    {
        resolve_from_candidates(browser_type, windows_candidates(browser_type, probe))
    }

    /// Find a browser with the Linux-style strategies.
    fn find_on_linux(&self, browser_type: &BrowserType, probe: &HostProbe) -> (r: Option<Browser>)
        ensures
            r matches Some(b) ==> {
                &&& b.browser_type == *browser_type
                &&& b.version is None
                &&& exists|j: int|
                    0 <= j < spec_linux_candidates(*browser_type, *probe).len() && (
                    #[trigger] spec_linux_candidates(*browser_type, *probe)[j]).path
                        == b.executable_path@
            },
    {
        resolve_from_candidates(browser_type, linux_candidates(browser_type, probe))
    }

    /// The registry-based stage; registry access needs machinery this
    /// library does not take on, so the stage finds nothing and resolution
    /// relies on the known installation paths.
    pub fn find_via_registry(&self, _browser_type: &BrowserType) -> (r: Option<Browser>)
        ensures
            r is None,
    {
        None
    }

    /// Find the first available browser from the preferred list: each
    /// identity is tried in order and the first that resolves wins. A result
    /// carries an identity from the list and a candidate path of that
    /// identity.
    pub fn find_first(&self, probe: &HostProbe) -> (r: Option<Browser>)
        ensures
            r matches Some(b) ==> {
                &&& b.version is None
                &&& exists|i: int|
                    0 <= i < self.preferred_browsers@.len() && b.browser_type == (
                    #[trigger] self.preferred_browsers@[i]) && exists|j: int|
                        0 <= j < spec_candidates(self.preferred_browsers@[i], *probe).len() && (
                        #[trigger] spec_candidates(self.preferred_browsers@[i], *probe)[j]).path
                            == b.executable_path@
            },
    {
        let n = self.preferred_browsers.len();
        let mut k: usize = 0;
        while k < n
            invariant
                n == self.preferred_browsers@.len(),
                k <= n,
            decreases n - k,
        {
            if let Some(browser) = self.find_browser(&self.preferred_browsers[k], probe) {
                proof {
                    assert(browser.browser_type == self.preferred_browsers@[k as int]);
                }
                return Some(browser);
            }
            k = k + 1;
        }
        None
    }

    /// Find all available browsers: one entry per preferred identity that
    /// resolves, in preference order, skipping the others. The entries
    /// correspond to a strictly increasing run of positions in the
    /// preference list; each carries that position's identity, no cached
    /// version, and a candidate path of its identity.
    pub fn find_all(&self, probe: &HostProbe) -> (r: Vec<Browser>)
        ensures
            exists|idxs: Seq<int>| #[trigger] idxs.len() == r@.len()
                && spec_ordered_selection(idxs, r@, self.preferred_browsers@, *probe),
    {
        let n = self.preferred_browsers.len();
        let mut browsers: Vec<Browser> = Vec::new();
        let ghost mut idxs = Seq::<int>::empty();
        let mut k: usize = 0;
        while k < n
            invariant
                n == self.preferred_browsers@.len(),
                k <= n,
                idxs.len() == browsers@.len(),
                forall|m: int| 0 <= m < idxs.len() ==> #[trigger] idxs[m] < k,
                spec_ordered_selection(idxs, browsers@, self.preferred_browsers@, *probe),
            decreases n - k,
        {
            if let Some(browser) = self.find_browser(&self.preferred_browsers[k], probe) {
                proof {
                    assert(browser.browser_type == self.preferred_browsers@[k as int]);
                    idxs = idxs.push(k as int);
                }
                browsers.push(browser);
            }
            k = k + 1;
        }
        browsers
    }
}

/// The desktop-entry directories to scan, in order: the system-wide shared
/// locations, then the user's local application-metadata directory when a
/// home directory is given.
pub open spec fn spec_desktop_entry_dirs(home: Option<String>) -> Seq<Seq<char>> {
    seq!["/usr/share/applications"@, "/usr/local/share/applications"@] + (match home {
        Some(h) => seq![h@ + "/.local/share/applications"@],
        None => Seq::<Seq<char>>::empty(),
    })
}

/// The desktop-entry directories to scan, given the user's home directory.
pub fn desktop_entry_dirs_with(home: Option<String>) -> (r: Vec<String>)
    ensures
        r.deep_view() == spec_desktop_entry_dirs(home),
{
    let ghost h = home;
    let mut r: Vec<String> = Vec::new();
    r.push(String::from_str("/usr/share/applications"));
    r.push(String::from_str("/usr/local/share/applications"));
    if let Some(home_dir) = home {
        let mut p = home_dir;
        p.append("/.local/share/applications");
        r.push(p);
    }
    proof {
        assert(r.deep_view() =~= spec_desktop_entry_dirs(h));
    }
    r
}

/// The desktop-entry directories to scan on this machine, the user's local
/// one included when the home directory is known.
pub fn desktop_entry_dirs() -> (r: Vec<String>)
    ensures
        exists|home: Option<String>| r.deep_view() == spec_desktop_entry_dirs(home),
{
    let home = crate::probe::home_dir_path();
    let ghost h = home;
    let r = desktop_entry_dirs_with(home);
    proof {
        assert(r.deep_view() == spec_desktop_entry_dirs(h));
    }
    r
}

/// Resolve the first browser of the default preference order, macOS-style
/// entry point kept for callers that select by platform themselves.
pub fn darwin_fast(probe: &HostProbe) -> (r: Option<String>)
    ensures
        r matches Some(p) ==> exists|i: int, j: int|
            0 <= i < spec_default_preferences().len() && 0 <= j < spec_candidates(
                spec_default_preferences()[i],
                *probe,
            ).len() && (#[trigger] spec_candidates(spec_default_preferences()[i], *probe)[j]).path
                == p@,
{
    match BrowserFinder::default().find_first(probe) {
        Some(b) => Some(b.executable_path),
        None => None,
    }
}

/// Resolve the first browser of the default preference order, Linux-style
/// entry point.
pub fn linux(probe: &HostProbe) -> (r: Option<String>)
    ensures
        r matches Some(p) ==> exists|i: int, j: int|
            0 <= i < spec_default_preferences().len() && 0 <= j < spec_candidates(
                spec_default_preferences()[i],
                *probe,
            ).len() && (#[trigger] spec_candidates(spec_default_preferences()[i], *probe)[j]).path
                == p@,
{
    match BrowserFinder::default().find_first(probe) {
        Some(b) => Some(b.executable_path),
        None => None,
    }
}

/// Resolve the first browser of the default preference order, Windows-style
/// entry point.
pub fn win32(probe: &HostProbe) -> (r: Option<String>)
    ensures
        r matches Some(p) ==> exists|i: int, j: int|
            0 <= i < spec_default_preferences().len() && 0 <= j < spec_candidates(
                spec_default_preferences()[i],
                *probe,
            ).len() && (#[trigger] spec_candidates(spec_default_preferences()[i], *probe)[j]).path
                == p@,
{
    match BrowserFinder::default().find_first(probe) {
        Some(b) => Some(b.executable_path),
        None => None,
    }
}

/// Whether a path exists in an abstract picture of the filesystem: a map
/// from paths to existence, with an unmapped path taken as absent.
pub open spec fn spec_fs_has(fs: Map<Seq<char>, bool>, path: Seq<char>) -> bool {
    fs.contains_key(path) && fs[path]
}

/// The first candidate at or after `i` that exists in the filesystem
/// picture, or the length.
pub open spec fn spec_first_existing_at(
    cands: Seq<CandidateModel>,
    fs: Map<Seq<char>, bool>,
    i: int,
) -> int
    recommends
        0 <= i <= cands.len(),
    decreases cands.len() - i,
{
    if i < 0 || i >= cands.len() {
        cands.len() as int
    } else if spec_fs_has(fs, cands[i].path) {
        i
    } else {
        spec_first_existing_at(cands, fs, i + 1)
    }
}

/// What resolving an identity yields under a fixed picture of the
/// filesystem: the first candidate, in test order, that exists.
pub open spec fn spec_resolve_model(
    bt: BrowserType,
    probe: HostProbe,
    fs: Map<Seq<char>, bool>,
) -> Option<CandidateModel> {
    let cs = spec_candidates(bt, probe);
    let i = spec_first_existing_at(cs, fs, 0);
    if i == cs.len() {
        None
    } else {
        Some(cs[i])
    }
}

/// What searching a preference list from position `k` yields under a fixed
/// filesystem picture: the first identity that resolves, with its winning
/// candidate.
pub open spec fn spec_find_first_model_at(
    prefs: Seq<BrowserType>,
    probe: HostProbe,
    fs: Map<Seq<char>, bool>,
    k: int,
) -> Option<(BrowserType, CandidateModel)>
    recommends
        0 <= k <= prefs.len(),
    decreases prefs.len() - k,
{
    if k < 0 || k >= prefs.len() {
        None
    } else {
        match spec_resolve_model(prefs[k], probe, fs) {
            Some(c) => Some((prefs[k], c)),
            None => spec_find_first_model_at(prefs, probe, fs, k + 1),
        }
    }
}

/// What searching a preference list yields under a fixed filesystem picture.
pub open spec fn spec_find_first_model(
    prefs: Seq<BrowserType>,
    probe: HostProbe,
    fs: Map<Seq<char>, bool>,
) -> Option<(BrowserType, CandidateModel)> {
    spec_find_first_model_at(prefs, probe, fs, 0)
}

/// Law: when the primary override variable is set and its path exists,
/// resolution returns exactly that path — whatever identity was requested,
/// and whatever the rest of the host looks like — and it is the first
/// candidate tested.
pub proof fn lemma_primary_override_wins(
    bt: BrowserType,
    probe: HostProbe,
    fs: Map<Seq<char>, bool>,
)
    requires
        probe.platform != Platform::Unknown,
        probe.env.chrome_path is Some,
        spec_fs_has(fs, probe.env.chrome_path->0@),
    ensures
        spec_candidates(bt, probe).len() > 0,
        spec_candidates(bt, probe)[0] == (CandidateModel {
            origin: CandidateOrigin::PrimaryEnv,
            path: probe.env.chrome_path->0@,
        }),
        spec_resolve_model(bt, probe, fs) == Some(
            CandidateModel {
                origin: CandidateOrigin::PrimaryEnv,
                path: probe.env.chrome_path->0@,
            },
        ),
{
    let cs = spec_candidates(bt, probe);
    let env = spec_env_candidates(probe.env);
    assert(env[0] == CandidateModel {
        origin: CandidateOrigin::PrimaryEnv,
        path: probe.env.chrome_path->0@,
    });
    assert(cs[0] == env[0]);
    assert(spec_first_existing_at(cs, fs, 0) == 0);
}

/// Law: when the primary override is unset but the deprecated alias is set
/// and its path exists, resolution still honors the alias and returns its
/// path, as the first candidate tested; its origin is the deprecated
/// variable, which is exactly the condition under which the drivers emit
/// the single deprecation notice.
pub proof fn lemma_deprecated_alias_honored(
    bt: BrowserType,
    probe: HostProbe,
    fs: Map<Seq<char>, bool>,
)
    requires
        probe.platform != Platform::Unknown,
        probe.env.chrome_path is None,
        probe.env.lighthouse_chromium_path is Some,
        spec_fs_has(fs, probe.env.lighthouse_chromium_path->0@),
    ensures
        spec_candidates(bt, probe).len() > 0,
        spec_candidates(bt, probe)[0] == (CandidateModel {
            origin: CandidateOrigin::DeprecatedEnv,
            path: probe.env.lighthouse_chromium_path->0@,
        }),
        spec_resolve_model(bt, probe, fs) == Some(
            CandidateModel {
                origin: CandidateOrigin::DeprecatedEnv,
                path: probe.env.lighthouse_chromium_path->0@,
            },
        ),
{
    let cs = spec_candidates(bt, probe);
    let env = spec_env_candidates(probe.env);
    assert(env[0] == CandidateModel {
        origin: CandidateOrigin::DeprecatedEnv,
        path: probe.env.lighthouse_chromium_path->0@,
    });
    assert(cs[0] == env[0]);
    assert(spec_first_existing_at(cs, fs, 0) == 0);
}

/// Law: preference order decides priority. If the identity at position `k`
/// resolves and none before it does, the search returns that identity's
/// resolution.
pub proof fn lemma_preference_order_decides(
    prefs: Seq<BrowserType>,
    probe: HostProbe,
    fs: Map<Seq<char>, bool>,
    k: int,
)
    requires
        0 <= k < prefs.len(),
        spec_resolve_model(prefs[k], probe, fs) is Some,
        forall|j: int| 0 <= j < k ==> spec_resolve_model(#[trigger] prefs[j], probe, fs) is None,
    ensures
        spec_find_first_model(prefs, probe, fs) == Some(
            (prefs[k], spec_resolve_model(prefs[k], probe, fs)->0),
        ),
{
    lemma_find_first_model_skip(prefs, probe, fs, 0, k);
}

proof fn lemma_find_first_model_skip(
    prefs: Seq<BrowserType>,
    probe: HostProbe,
    fs: Map<Seq<char>, bool>,
    i: int,
    k: int,
)
    requires
        0 <= i <= k < prefs.len(),
        spec_resolve_model(prefs[k], probe, fs) is Some,
        forall|j: int| i <= j < k ==> spec_resolve_model(#[trigger] prefs[j], probe, fs) is None,
    ensures
        spec_find_first_model_at(prefs, probe, fs, i) == Some(
            (prefs[k], spec_resolve_model(prefs[k], probe, fs)->0),
        ),
    decreases k - i,
{
    if i < k {
        lemma_find_first_model_skip(prefs, probe, fs, i + 1, k);
    }
}

/// Law: a custom identity displays as its executable name, is its own sole
/// executable candidate, and resolves to the path its lookup reports
/// (trimmed) whenever no override is set, the lookup succeeded with a
/// non-empty path, and that path exists.
pub proof fn lemma_custom_identity_resolves(
    name: String,
    probe: HostProbe,
    fs: Map<Seq<char>, bool>,
)
    requires
        probe.platform == Platform::Linux,
        probe.env.chrome_path is None,
        probe.env.lighthouse_chromium_path is None,
        probe.env.browser_path is None,
        spec_lookup(probe.path_lookups@, name@) is Some,
        spec_trim(spec_lookup(probe.path_lookups@, name@)->0).len() > 0,
        spec_fs_has(fs, spec_trim(spec_lookup(probe.path_lookups@, name@)->0)),
    ensures
        crate::browser::spec_name(BrowserType::Custom(name)) == name@,
        spec_executables(BrowserType::Custom(name)) == seq![name@],
        spec_resolve_model(BrowserType::Custom(name), probe, fs) == Some(
            CandidateModel {
                origin: CandidateOrigin::PathLookup,
                path: spec_trim(spec_lookup(probe.path_lookups@, name@)->0),
            },
        ),
{
    let bt = BrowserType::Custom(name);
    let cs = spec_candidates(bt, probe);
    let env = spec_env_candidates(probe.env);
    assert(env =~= Seq::<CandidateModel>::empty());
    let names = spec_executables(bt);
    assert(names == seq![name@]);
    let looked = spec_lookup_cands(probe.path_lookups@, names);
    assert(names.drop_last() =~= Seq::<Seq<char>>::empty());
    assert(names.last() == name@);
    assert(spec_lookup_cands(probe.path_lookups@, names.drop_last()) =~= Seq::<
        CandidateModel,
    >::empty());
    let q = spec_trim(spec_lookup(probe.path_lookups@, name@)->0);
    assert(spec_lookup_cand_one(probe.path_lookups@, name@) == seq![
        CandidateModel { origin: CandidateOrigin::PathLookup, path: q },
    ]);
    assert(looked =~= seq![CandidateModel { origin: CandidateOrigin::PathLookup, path: q }]);
    assert(cs[0] == CandidateModel { origin: CandidateOrigin::PathLookup, path: q });
    assert(spec_first_existing_at(cs, fs, 0) == 0);
}

} // verus!
