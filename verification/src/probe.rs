//! The host snapshot the resolution engine works from, and the few trusted
//! primitives that touch the machine itself.
//!
//! Everything ambient — environment overrides, `PATH` lookups, desktop-entry
//! files, the application-registry dump — is handed in as plain data, so the
//! engine's decisions are deterministic functions of the snapshot. Only
//! filesystem existence is probed live, through one trusted wrapper.

use std::io::Write;
use vstd::prelude::*;

verus! {

/// The platform family resolution strategies are selected by.
#[derive(Clone, Copy, Debug, PartialEq, Eq, Structural)]
pub enum Platform {
    MacOs,
    Windows,
    Linux,
    Unknown,
}

/// The browser-path override environment variables, as read at snapshot
/// time. A field is `Some` exactly when the variable is set to a
/// well-formed value.
#[derive(Debug)]
pub struct EnvOverrides {
    /// `CHROME_PATH`, the primary override.
    pub chrome_path: Option<String>,
    /// `LIGHTHOUSE_CHROMIUM_PATH`, the deprecated alias; honoring it emits a
    /// deprecation notice.
    pub lighthouse_chromium_path: Option<String>,
    /// `BROWSER_PATH`, the generic fallback.
    pub browser_path: Option<String>,
}

/// The outcome of one platform `PATH` lookup (a `which`-equivalent run):
/// the executable name asked about, and the lookup's raw standard output
/// when the helper ran and reported success.
#[derive(Debug)]
pub struct NameLookup {
    pub name: String,
    pub output: Option<String>,
}

/// One desktop-entry file: its file name and its full contents.
#[derive(Debug)]
pub struct DesktopFile {
    pub name: String,
    pub content: String,
}

/// One directory of desktop-entry files, its files in directory order.
#[derive(Debug)]
pub struct DesktopDir {
    pub path: String,
    pub files: Vec<DesktopFile>,
}

/// The per-machine install roots consulted on Windows-style hosts, as read
/// from the environment at snapshot time.
#[derive(Debug)]
pub struct WindowsRoots {
    /// `PROGRAMFILES`.
    pub program_files: Option<String>,
    /// `PROGRAMFILES(X86)`.
    pub program_files_x86: Option<String>,
    /// `LOCALAPPDATA`.
    pub local_app_data: Option<String>,
}

/// A snapshot of the ambient host state that resolution consults. The caller
/// collects it once; resolution never reads the environment or runs helper
/// processes itself.
#[derive(Debug)]
pub struct HostProbe {
    pub platform: Platform,
    pub env: EnvOverrides,
    /// `PATH` lookup outcomes for candidate executable names.
    pub path_lookups: Vec<NameLookup>,
    pub windows_roots: WindowsRoots,
    /// The application-registration database dump (macOS-style hosts), when
    /// the dump helper could be run.
    pub lsregister_dump: Option<String>,
    /// The desktop-entry directories (Linux-style hosts), in scan order.
    pub desktop_dirs: Vec<DesktopDir>,
}

impl HostProbe {
    /// A snapshot holding nothing beyond the platform tag: no overrides, no
    /// lookup outcomes, no scan data.
    pub fn bare(platform: Platform) -> (r: HostProbe)
        ensures
            r.platform == platform,
            r.env.chrome_path is None,
            r.env.lighthouse_chromium_path is None,
            r.env.browser_path is None,
            r.path_lookups@.len() == 0,
            r.lsregister_dump is None,
            r.desktop_dirs@.len() == 0,
            r.windows_roots.program_files is None,
            r.windows_roots.program_files_x86 is None,
            r.windows_roots.local_app_data is None,
    {
        HostProbe {
            platform,
            env: EnvOverrides {
                chrome_path: None,
                lighthouse_chromium_path: None,
                browser_path: None,
            },
            path_lookups: Vec::new(),
            windows_roots: WindowsRoots {
                program_files: None,
                program_files_x86: None,
                local_app_data: None,
            },
            lsregister_dump: None,
            desktop_dirs: Vec::new(),
        }
    }
}

/// Whether a filesystem entity exists at `path` right now.
///
/// Relies on std::path::Path::exists: true exactly when the path resolves to
/// an existing entity at call time. What exists can change between calls, so
/// nothing relates one answer to another.
#[verifier::external_body]
pub(crate) fn path_exists(path: &str) -> bool {
    std::path::Path::new(path).exists()
}

/// The current user's home directory, if one is known.
///
/// Relies on home::home_dir: the environment decides the answer, so nothing
/// is promised of it.
#[verifier::external_body]
pub(crate) fn home_dir_path() -> Option<String> {
    home::home_dir().map(|p| p.to_string_lossy().into_owned())
}

/// Print the deprecation notice for the legacy override variable on the
/// diagnostic stream.
///
/// Relies on writeln to std::io::stderr: best-effort diagnostics, nothing
/// promised.
#[verifier::external_body]
pub(crate) fn warn_deprecated_override() {
    let _ = writeln!(
        std::io::stderr(),
        "Warning: LIGHTHOUSE_CHROMIUM_PATH is deprecated, use CHROME_PATH or BROWSER_PATH instead.",
    );
}

} // verus!
