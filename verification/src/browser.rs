//! The browser catalog: the fixed set of supported browser identities and
//! their per-platform lookup data, plus the record of a resolved installation.

use crate::probe::path_exists;
use crate::strutil::spec_lines;
use crate::strutil::spec_second_token;
use crate::strutil::second_token;
use crate::strutil::split_lines;
use vstd::prelude::*;

verus! {

/// A Chromium-family browser identity, or a custom executable chosen by name.
#[derive(Debug)]
pub enum BrowserType {
    Chrome,
    ChromeCanary,
    Chromium,
    Edge,
    Brave,
    Opera,
    Vivaldi,
    Custom(String),
}

/// The display name of an identity. A custom identity displays as its own
/// executable name.
pub open spec fn spec_name(bt: BrowserType) -> Seq<char> {
    match bt {
        BrowserType::Chrome => "Google Chrome"@,
        BrowserType::ChromeCanary => "Google Chrome Canary"@,
        BrowserType::Chromium => "Chromium"@,
        BrowserType::Edge => "Microsoft Edge"@,
        BrowserType::Brave => "Brave"@,
        BrowserType::Opera => "Opera"@,
        BrowserType::Vivaldi => "Vivaldi"@,
        BrowserType::Custom(name) => name@,
    }
}

/// The candidate executable base names of an identity, in search order.
/// A custom identity is its own sole candidate.
pub open spec fn spec_executables(bt: BrowserType) -> Seq<Seq<char>> {
    match bt {
        BrowserType::Chrome => seq!["google-chrome-stable"@, "google-chrome"@, "chrome"@],
        BrowserType::ChromeCanary => seq!["google-chrome-canary"@],
        BrowserType::Chromium => seq!["chromium-browser"@, "chromium"@],
        BrowserType::Edge => seq!["microsoft-edge-stable"@, "microsoft-edge"@, "msedge"@],
        BrowserType::Brave => seq!["brave-browser-stable"@, "brave-browser"@, "brave"@],
        BrowserType::Opera => seq!["opera-stable"@, "opera"@],
        BrowserType::Vivaldi => seq!["vivaldi-stable"@, "vivaldi"@],
        BrowserType::Custom(executable) => seq![executable@],
    }
}

impl BrowserType {
    /// Get the display name for the browser type.
    pub fn name(&self) -> (r: &str)
        ensures
            r@ == spec_name(*self),
    {
        match self {
            BrowserType::Chrome => "Google Chrome",
            BrowserType::ChromeCanary => "Google Chrome Canary",
            BrowserType::Chromium => "Chromium",
            BrowserType::Edge => "Microsoft Edge",
            BrowserType::Brave => "Brave",
            BrowserType::Opera => "Opera",
            BrowserType::Vivaldi => "Vivaldi",
            BrowserType::Custom(name) => name.as_str(),
        }
    }

    /// Get the executable names for this browser type.
    pub fn executables(&self) -> (r: Vec<&str>)
        ensures
            r.deep_view() == spec_executables(*self),
    {
        let r: Vec<&str> = match self {
            BrowserType::Chrome => vec!["google-chrome-stable", "google-chrome", "chrome"],
            BrowserType::ChromeCanary => vec!["google-chrome-canary"],
            BrowserType::Chromium => vec!["chromium-browser", "chromium"],
            BrowserType::Edge => vec!["microsoft-edge-stable", "microsoft-edge", "msedge"],
            BrowserType::Brave => vec!["brave-browser-stable", "brave-browser", "brave"],
            BrowserType::Opera => vec!["opera-stable", "opera"],
            BrowserType::Vivaldi => vec!["vivaldi-stable", "vivaldi"],
            BrowserType::Custom(executable) => vec![executable.as_str()],
        };
        assert(r.deep_view() =~= spec_executables(*self));
        r
    }
}

/// The well-known application-bundle executable paths of an identity on
/// macOS-style hosts, in search order.
pub open spec fn spec_macos_app_paths(bt: BrowserType) -> Seq<Seq<char>> {
    match bt {
        BrowserType::Chrome => seq![
            "/Applications/Google Chrome.app/Contents/MacOS/Google Chrome"@,
            "/Applications/Google Chrome Canary.app/Contents/MacOS/Google Chrome Canary"@,
        ],
        BrowserType::Chromium => seq!["/Applications/Chromium.app/Contents/MacOS/Chromium"@],
        BrowserType::Edge => seq!["/Applications/Microsoft Edge.app/Contents/MacOS/Microsoft Edge"@],
        BrowserType::Brave => seq!["/Applications/Brave Browser.app/Contents/MacOS/Brave Browser"@],
        BrowserType::Opera => seq!["/Applications/Opera.app/Contents/MacOS/Opera"@],
        BrowserType::Vivaldi => seq!["/Applications/Vivaldi.app/Contents/MacOS/Vivaldi"@],
        _ => Seq::empty(),
    }
}

/// The registry key paths associated with an identity on Windows-style hosts.
pub open spec fn spec_windows_registry_paths(bt: BrowserType) -> Seq<Seq<char>> {
    match bt {
        BrowserType::Chrome => seq![
            "SOFTWARE\\Microsoft\\Windows\\CurrentVersion\\App Paths\\chrome.exe"@,
            "SOFTWARE\\Google\\Chrome\\BLBeacon"@,
        ],
        BrowserType::Edge => seq![
            "SOFTWARE\\Microsoft\\Windows\\CurrentVersion\\App Paths\\msedge.exe"@,
            "SOFTWARE\\Microsoft\\EdgeUpdate\\Clients"@,
        ],
        BrowserType::Brave => seq!["SOFTWARE\\BraveSoftware\\Brave-Browser"@],
        BrowserType::Opera => seq!["SOFTWARE\\Opera Software\\Opera Stable"@],
        BrowserType::Vivaldi => seq!["SOFTWARE\\Vivaldi"@],
        _ => Seq::empty(),
    }
}

impl BrowserType {
    /// Get macOS application paths for this browser type.
    pub fn macos_app_paths(&self) -> (r: Vec<&str>)
        ensures
            r.deep_view() == spec_macos_app_paths(*self),
    {
        let r: Vec<&str> = match self {
            BrowserType::Chrome => vec![
                "/Applications/Google Chrome.app/Contents/MacOS/Google Chrome",
                "/Applications/Google Chrome Canary.app/Contents/MacOS/Google Chrome Canary",
            ],
            BrowserType::Chromium => vec!["/Applications/Chromium.app/Contents/MacOS/Chromium"],
            BrowserType::Edge => vec!["/Applications/Microsoft Edge.app/Contents/MacOS/Microsoft Edge"],
            BrowserType::Brave => vec!["/Applications/Brave Browser.app/Contents/MacOS/Brave Browser"],
            BrowserType::Opera => vec!["/Applications/Opera.app/Contents/MacOS/Opera"],
            BrowserType::Vivaldi => vec!["/Applications/Vivaldi.app/Contents/MacOS/Vivaldi"],
            _ => Vec::new(),
        };
        assert(r.deep_view() =~= spec_macos_app_paths(*self));
        r
    }

    /// Get Windows registry paths for this browser type.
    pub fn windows_registry_paths(&self) -> (r: Vec<&str>)
        ensures
            r.deep_view() == spec_windows_registry_paths(*self),
    {
        let r: Vec<&str> = match self {
            BrowserType::Chrome => vec![
                "SOFTWARE\\Microsoft\\Windows\\CurrentVersion\\App Paths\\chrome.exe",
                "SOFTWARE\\Google\\Chrome\\BLBeacon",
            ],
            BrowserType::Edge => vec![
                "SOFTWARE\\Microsoft\\Windows\\CurrentVersion\\App Paths\\msedge.exe",
                "SOFTWARE\\Microsoft\\EdgeUpdate\\Clients",
            ],
            BrowserType::Brave => vec!["SOFTWARE\\BraveSoftware\\Brave-Browser"],
            BrowserType::Opera => vec!["SOFTWARE\\Opera Software\\Opera Stable"],
            BrowserType::Vivaldi => vec!["SOFTWARE\\Vivaldi"],
            _ => Vec::new(),
        };
        assert(r.deep_view() =~= spec_windows_registry_paths(*self));
        r
    }
}

impl Clone for BrowserType {
    /// A clone is equal to the original identity.
    fn clone(&self) -> (r: Self)
        ensures
            r == *self,
    {
        match self {
            BrowserType::Chrome => BrowserType::Chrome,
            BrowserType::ChromeCanary => BrowserType::ChromeCanary,
            BrowserType::Chromium => BrowserType::Chromium,
            BrowserType::Edge => BrowserType::Edge,
            BrowserType::Brave => BrowserType::Brave,
            BrowserType::Opera => BrowserType::Opera,
            BrowserType::Vivaldi => BrowserType::Vivaldi,
            BrowserType::Custom(name) => BrowserType::Custom(name.clone()),
        }
    }
}

/// What `==` means on identities: same variant, and for custom identities the
/// same executable name.
pub open spec fn spec_bt_eq(a: BrowserType, b: BrowserType) -> bool {
    match (a, b) {
        (BrowserType::Chrome, BrowserType::Chrome) => true,
        (BrowserType::ChromeCanary, BrowserType::ChromeCanary) => true,
        (BrowserType::Chromium, BrowserType::Chromium) => true,
        (BrowserType::Edge, BrowserType::Edge) => true,
        (BrowserType::Brave, BrowserType::Brave) => true,
        (BrowserType::Opera, BrowserType::Opera) => true,
        (BrowserType::Vivaldi, BrowserType::Vivaldi) => true,
        (BrowserType::Custom(x), BrowserType::Custom(y)) => x@ == y@,
        _ => false,
    }
}

impl PartialEq for BrowserType {
    fn eq(&self, other: &Self) -> (r: bool) {
        match (self, other) {
            (BrowserType::Chrome, BrowserType::Chrome) => true,
            (BrowserType::ChromeCanary, BrowserType::ChromeCanary) => true,
            (BrowserType::Chromium, BrowserType::Chromium) => true,
            (BrowserType::Edge, BrowserType::Edge) => true,
            (BrowserType::Brave, BrowserType::Brave) => true,
            (BrowserType::Opera, BrowserType::Opera) => true,
            (BrowserType::Vivaldi, BrowserType::Vivaldi) => true,
            (BrowserType::Custom(x), BrowserType::Custom(y)) => *x == *y,
            _ => false,
        }
    }
}

impl vstd::std_specs::cmp::PartialEqSpecImpl for BrowserType {
    open spec fn obeys_eq_spec() -> bool {
        true
    }

    open spec fn eq_spec(&self, other: &Self) -> bool {
        spec_bt_eq(*self, *other)
    }
}

/// Every identity has at least one candidate executable name, and every
/// identity other than a custom one with an empty name has a non-empty
/// display name. (A custom identity with an empty executable name is
/// permanently unresolvable and displays as the empty string.)
pub proof fn lemma_catalog_nonempty(bt: BrowserType)
    ensures
        spec_executables(bt).len() > 0,
        !(bt matches BrowserType::Custom(name) && name@.len() == 0) ==> spec_name(bt).len() > 0,
{
    reveal_strlit("Google Chrome");
    reveal_strlit("Google Chrome Canary");
    reveal_strlit("Chromium");
    reveal_strlit("Microsoft Edge");
    reveal_strlit("Brave");
    reveal_strlit("Opera");
    reveal_strlit("Vivaldi");
}

/// Represents a found browser installation: the identity it was resolved for,
/// the executable path that existed at resolution time, and a version string
/// once one has been queried and memoized.
#[derive(Debug)]
pub struct Browser {
    pub browser_type: BrowserType,
    pub executable_path: String,
    pub version: Option<String>,
}

impl Clone for Browser {
    /// A clone is equal to the original record.
    fn clone(&self) -> (r: Self)
        ensures
            r == *self,
    {
        Browser {
            browser_type: self.browser_type.clone(),
            executable_path: self.executable_path.clone(),
            version: match &self.version {
                Some(v) => Some(v.clone()),
                None => None,
            },
        }
    }
}

impl Browser {
    /// Create a new Browser instance; no version is cached yet.
    pub fn new(browser_type: BrowserType, executable_path: String) -> (r: Self)
        ensures
            r.browser_type == browser_type,
            r.executable_path == executable_path,
            r.version is None,
    {
        Browser { browser_type, executable_path, version: None }
    }

    /// Get the display name.
    pub fn name(&self) -> (r: &str)
        ensures
            r@ == spec_name(self.browser_type),
    {
        self.browser_type.name()
    }

    /// Check if the browser executable exists on disk right now; the answer
    /// is the filesystem's and can change between calls.
    pub fn exists_on_disk(&self) -> bool {
        path_exists(self.executable_path.as_str())
    }

    /// Try to get the browser version: the cached string if one is already
    /// memoized; otherwise the version is read out of `version_output`, the
    /// captured standard output of running the executable with a version
    /// flag (absent when that run failed), and a successful parse is
    /// memoized. A failed parse is not cached, so a later call may retry.
    pub fn get_version(&mut self, version_output: Option<String>) -> (r: Option<String>)
        ensures
            final(self).browser_type == old(self).browser_type,
            final(self).executable_path == old(self).executable_path,
            old(self).version is Some ==> r == old(self).version && final(self).version == old(
                self,
            ).version,
            old(self).version is None ==> final(self).version == r,
            old(self).version is None && version_output is None ==> r is None,
            old(self).version is None && version_output is Some ==> {
                &&& r is Some <==> spec_parse_version(version_output->0@) is Some
                &&& (r matches Some(v) ==> Some(v@) == spec_parse_version(version_output->0@))
            },
    {
        if let Some(version) = &self.version {
            return Some(version.clone());
        }
        let version = match version_output {
            Some(out) => parse_version_output(out.as_str()),
            None => None,
        };
        self.version = match &version {
            Some(v) => Some(v.clone()),
            None => None,
        };
        version
    }
}

/// The version string in a version command's captured output: the second
/// whitespace-delimited token of the first line (output is usually shaped
/// `BrowserName Version.X.X.X`), or nothing when the output is empty or its
/// first line has fewer than two tokens.
pub open spec fn spec_parse_version(out: Seq<char>) -> Option<Seq<char>> {
    if out.len() == 0 {
        None
    } else {
        spec_second_token(spec_lines(out)[0])
    }
}

/// Extract the version token from a version command's output.
pub fn parse_version_output(out: &str) -> (r: Option<String>)
    ensures
        r is Some <==> spec_parse_version(out@) is Some,
        r matches Some(v) ==> Some(v@) == spec_parse_version(out@),
{
    let len = out.unicode_len();
    if len == 0 {
        return None;
    }
    let lines = split_lines(out);
    proof {
        crate::strutil::lemma_idx_of_props(out@, '\n', 0);
        assert(spec_lines(out@).len() >= 1);
        assert(lines.deep_view()[0] == lines@[0]@);
    }
    let first_line = &lines[0];
    match second_token(first_line.as_str()) {
        Some(tok) => Some(String::from_str(tok)),
        None => None,
    }
}

} // verus!
