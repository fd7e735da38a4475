//! The fixed baseline flag set applied to every launch unless suppressed,
//! and the error record surfaced by the launch path.

use vstd::prelude::*;

verus! {

/// The baseline stability/privacy/automation flags, in the order they are
/// emitted.
pub open spec fn spec_default_flags() -> Seq<Seq<char>> {
    seq![
        "--disable-features=Translate"@,
        "--disable-extensions"@,
        "--disable-component-extensions-with-background-pages"@,
        "--disable-background-networking"@,
        "--disable-component-update"@,
        "--disable-client-side-phishing-detection"@,
        "--disable-sync"@,
        "--metrics-recording-only"@,
        "--disable-default-apps"@,
        "--mute-audio"@,
        "--no-default-browser-check"@,
        "--no-first-run"@,
        "--disable-backgrounding-occluded-windows"@,
        "--disable-renderer-backgrounding"@,
        "--disable-background-timer-throttling"@,
        "--disable-ipc-flooding-protection"@,
        "--password-store=basic"@,
        "--use-mock-keychain"@,
        "--force-fieldtrials=*BackgroundTracing/default/"@,
    ]
}

/// The baseline flags: each disables a background service, update check,
/// first-run prompt or throttling behavior that would disturb an automated
/// session.
pub fn default_flags() -> (r: Vec<String>)
    ensures
        r.deep_view() == spec_default_flags(),
{
    let r: Vec<String> = vec![
        String::from_str("--disable-features=Translate"),
        String::from_str("--disable-extensions"),
        String::from_str("--disable-component-extensions-with-background-pages"),
        String::from_str("--disable-background-networking"),
        String::from_str("--disable-component-update"),
        String::from_str("--disable-client-side-phishing-detection"),
        String::from_str("--disable-sync"),
        String::from_str("--metrics-recording-only"),
        String::from_str("--disable-default-apps"),
        String::from_str("--mute-audio"),
        String::from_str("--no-default-browser-check"),
        String::from_str("--no-first-run"),
        String::from_str("--disable-backgrounding-occluded-windows"),
        String::from_str("--disable-renderer-backgrounding"),
        String::from_str("--disable-background-timer-throttling"),
        String::from_str("--disable-ipc-flooding-protection"),
        String::from_str("--password-store=basic"),
        String::from_str("--use-mock-keychain"),
        String::from_str("--force-fieldtrials=*BackgroundTracing/default/"),
    ];
    assert(r.deep_view() =~= spec_default_flags());
    r
}

/// An error surfaced by the launch path: a human-readable message and an
/// optional machine-readable code.
#[derive(Debug)]
pub struct LauncherError {
    pub message: String,
    pub code: Option<String>,
}

} // verus!
