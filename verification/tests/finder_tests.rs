use chrome_launcher::browser::BrowserType;
use chrome_launcher::finder::{candidate_paths, select_candidate, CandidateOrigin};
use chrome_launcher::probe::{DesktopDir, DesktopFile, HostProbe, NameLookup, Platform};
use chrome_launcher::BrowserFinder;

fn linux_probe() -> HostProbe {
    HostProbe::bare(Platform::Linux)
}

#[test]
fn test_browser_finder_creation() {
    let finder = BrowserFinder::default();
    assert_eq!(finder.get_preferred_browsers().len(), 6); // Chrome, Chromium, Edge, Brave, Opera, Vivaldi
}

#[test]
fn test_browser_finder_custom_preferences() {
    let custom_browsers = vec![BrowserType::Edge, BrowserType::Chrome];
    let finder = BrowserFinder::new(custom_browsers.clone());
    assert_eq!(finder.get_preferred_browsers(), &custom_browsers);
}

#[test]
fn test_browser_finder_can_find_browsers() {
    let finder = BrowserFinder::default();
    let browsers = finder.find_all(&linux_probe());

    // This test will pass even if no browsers are found, as it's testing
    // that the finder doesn't crash and returns a valid result
    println!("Found {} browsers", browsers.len());
    for browser in browsers {
        println!("- {}: {}", browser.name(), browser.executable_path);
        assert!(!browser.executable_path.is_empty());
    }
}

#[test]
fn test_browser_finder_preferred_order() {
    let preferred = vec![BrowserType::Chrome, BrowserType::Edge, BrowserType::Brave];
    let finder = BrowserFinder::new(preferred.clone());

    assert_eq!(finder.preferred_browsers, preferred);
}

#[test]
fn test_browser_version_query() {
    let finder = BrowserFinder::default();
    if let Some(mut browser) = finder.find_first(&linux_probe()) {
        // This might return None if no version output is supplied,
        // but it should not crash
        let _version = browser.get_version(None);
        // Test passes if no panic occurs
    }
}

#[test]
fn test_multiple_browser_types() {
    let browser_types = vec![
        BrowserType::Chrome,
        BrowserType::Chromium,
        BrowserType::Edge,
        BrowserType::Brave,
        BrowserType::Opera,
        BrowserType::Vivaldi,
    ];

    for browser_type in browser_types {
        let finder = BrowserFinder::new(vec![browser_type.clone()]);
        let result = finder.find_first(&linux_probe());

        // Just test that the finder doesn't crash
        match result {
            Some(browser) => {
                println!("Found {}: {}", browser_type.name(), browser.executable_path);
                assert!(!browser.executable_path.is_empty());
            }
            None => {
                println!("{} not found on this system", browser_type.name());
            }
        }
    }
}

#[test]
fn test_environment_variable_resolution() {
    // Test that environment variable resolution doesn't crash
    let finder = BrowserFinder::default();
    let _ = finder.find_first(&linux_probe()); // Should not panic even with no overrides set
}

#[test]
fn test_primary_override_wins_for_any_identity() {
    // The primary override points at an existing path, so resolution
    // returns exactly that path, whatever identity is asked for.
    for identity in [BrowserType::Edge, BrowserType::Chrome, BrowserType::Vivaldi] {
        let mut probe = linux_probe();
        probe.env.chrome_path = Some("/bin/sh".to_string());
        let finder = BrowserFinder::new(vec![identity.clone()]);
        let found = finder.find_browser(&identity, &probe).expect("override must resolve");
        assert_eq!(found.executable_path, "/bin/sh");
        assert_eq!(found.browser_type, identity);
    }
}

#[test]
fn test_primary_override_beats_preference_order() {
    let mut probe = linux_probe();
    probe.env.chrome_path = Some("/bin/sh".to_string());
    let finder = BrowserFinder::new(vec![BrowserType::Edge, BrowserType::Chrome]);
    let found = finder.find_first(&probe).expect("override must resolve");
    assert_eq!(found.executable_path, "/bin/sh");
}

#[test]
fn test_deprecated_alias_is_honored() {
    let mut probe = linux_probe();
    probe.env.lighthouse_chromium_path = Some("/bin/sh".to_string());
    // The alias is the first candidate when the primary override is unset,
    // and its origin marks it as the deprecated variable (the condition for
    // the single deprecation notice on resolution).
    let cands = candidate_paths(&BrowserType::Chrome, &probe);
    assert_eq!(cands[0].path, "/bin/sh");
    assert!(matches!(cands[0].origin, CandidateOrigin::DeprecatedEnv));
    let finder = BrowserFinder::new(vec![BrowserType::Chrome]);
    let found = finder.find_browser(&BrowserType::Chrome, &probe).expect("alias must resolve");
    assert_eq!(found.executable_path, "/bin/sh");
}

#[test]
fn test_primary_override_shadows_deprecated_alias() {
    let mut probe = linux_probe();
    probe.env.chrome_path = Some("/bin/sh".to_string());
    probe.env.lighthouse_chromium_path = Some("/bin/ls".to_string());
    let finder = BrowserFinder::new(vec![BrowserType::Chrome]);
    let found = finder.find_browser(&BrowserType::Chrome, &probe).unwrap();
    assert_eq!(found.executable_path, "/bin/sh");
}

#[test]
fn test_preference_order_decides_priority() {
    // Both Edge and Chrome are resolvable through PATH lookups; with the
    // preference list [Edge, Chrome], Edge's result is returned.
    let mut probe = linux_probe();
    probe.path_lookups = vec![
        NameLookup {
            name: "microsoft-edge-stable".to_string(),
            output: Some("/bin/sh\n".to_string()),
        },
        NameLookup {
            name: "google-chrome-stable".to_string(),
            output: Some("/bin/ls\n".to_string()),
        },
    ];
    let finder = BrowserFinder::new(vec![BrowserType::Edge, BrowserType::Chrome]);
    let found = finder.find_first(&probe).expect("both resolvable");
    assert_eq!(found.browser_type, BrowserType::Edge);
    assert_eq!(found.executable_path, "/bin/sh");

    let reversed = BrowserFinder::new(vec![BrowserType::Chrome, BrowserType::Edge]);
    let found = reversed.find_first(&probe).expect("both resolvable");
    assert_eq!(found.browser_type, BrowserType::Chrome);
    assert_eq!(found.executable_path, "/bin/ls");
}

#[test]
fn test_custom_identity_resolution_candidates() {
    // A custom identity is looked up under its own name; the trimmed lookup
    // answer is the first candidate, selected when it exists.
    let name = "/usr/bin/custom-browser";
    let mut probe = linux_probe();
    probe.path_lookups = vec![NameLookup {
        name: name.to_string(),
        output: Some("/usr/bin/custom-browser\n".to_string()),
    }];
    let identity = BrowserType::Custom(name.to_string());
    let cands = candidate_paths(&identity, &probe);
    assert_eq!(cands[0].path, "/usr/bin/custom-browser");
    assert!(matches!(cands[0].origin, CandidateOrigin::PathLookup));
    let mut exists = vec![false; cands.len()];
    exists[0] = true;
    assert_eq!(select_candidate(&cands, &exists), Some(0));
}

#[test]
fn test_select_candidate_first_existing_wins() {
    let probe = {
        let mut p = linux_probe();
        p.env.chrome_path = Some("/first".to_string());
        p.env.browser_path = Some("/third".to_string());
        p
    };
    let cands = candidate_paths(&BrowserType::Chrome, &probe);
    // No flag set: nothing selected.
    let none = vec![false; cands.len()];
    assert_eq!(select_candidate(&cands, &none), None);
    // A later flag set: that candidate is selected.
    let mut second = vec![false; cands.len()];
    second[1] = true;
    assert_eq!(select_candidate(&cands, &second), Some(1));
    // An earlier flag beats a later one.
    let mut both = vec![false; cands.len()];
    both[0] = true;
    both[1] = true;
    assert_eq!(select_candidate(&cands, &both), Some(0));
}

#[test]
fn test_linux_candidates_include_common_paths() {
    let probe = linux_probe();
    let cands = candidate_paths(&BrowserType::Chrome, &probe);
    let paths: Vec<String> = cands.iter().map(|c| c.path.clone()).collect();
    assert!(paths.contains(&"/usr/bin/google-chrome-stable".to_string()));
    assert!(paths.contains(&"/opt/google/chrome/chrome".to_string()));
}

#[test]
fn test_desktop_entry_scan_extracts_executable() {
    let mut probe = linux_probe();
    probe.desktop_dirs = vec![DesktopDir {
        path: "/usr/share/applications".to_string(),
        files: vec![
            DesktopFile {
                name: "notes.txt".to_string(),
                content: "Exec=/bin/sh -x".to_string(),
            },
            DesktopFile {
                name: "chrome.desktop".to_string(),
                content: "[Desktop Entry]\nName=Chrome\nExec=/bin/google-chrome %U\n".to_string(),
            },
        ],
    }];
    let cands = candidate_paths(&BrowserType::Chrome, &probe);
    let desktop: Vec<&chrome_launcher::finder::Candidate> = cands
        .iter()
        .filter(|c| matches!(c.origin, CandidateOrigin::DesktopEntry))
        .collect();
    // Only the .desktop file is read, and the declared executable is taken
    // without its arguments.
    assert_eq!(desktop.len(), 1);
    assert_eq!(desktop[0].path, "/bin/google-chrome");
}

#[test]
fn test_unknown_platform_never_resolves() {
    let mut probe = HostProbe::bare(Platform::Unknown);
    probe.env.chrome_path = Some("/bin/sh".to_string());
    let finder = BrowserFinder::new(vec![BrowserType::Chrome]);
    assert!(finder.find_browser(&BrowserType::Chrome, &probe).is_none());
    assert!(candidate_paths(&BrowserType::Chrome, &probe).is_empty());
}

#[test]
fn test_macos_candidates_from_lsregister_dump() {
    let mut probe = HostProbe::bare(Platform::MacOs);
    probe.lsregister_dump = Some(
        "path: /Applications/Google Chrome.app (0x123)\nsomething else\n".to_string(),
    );
    let cands = candidate_paths(&BrowserType::Chrome, &probe);
    let registry: Vec<String> = cands
        .iter()
        .filter(|c| matches!(c.origin, CandidateOrigin::AppRegistry))
        .map(|c| c.path.clone())
        .collect();
    assert_eq!(
        registry,
        vec!["path: /Applications/Google Chrome.app/Contents/MacOS/Google Chrome".to_string()]
    );
    // The catalog's bundle paths come before the registry scan.
    assert_eq!(
        cands[0].path,
        "/Applications/Google Chrome.app/Contents/MacOS/Google Chrome"
    );
}

#[test]
fn test_windows_candidates_use_roots_and_suffixes() {
    let mut probe = HostProbe::bare(Platform::Windows);
    probe.windows_roots.program_files = Some("D:\\PF".to_string());
    let cands = candidate_paths(&BrowserType::Chrome, &probe);
    let paths: Vec<String> = cands.iter().map(|c| c.path.clone()).collect();
    assert!(paths.contains(&"D:\\PF\\Google\\Chrome\\Application\\chrome.exe".to_string()));
    // The unset x86 root falls back to its conventional default; the unset
    // local application-data root contributes nothing.
    assert!(paths
        .contains(&"C:\\Program Files (x86)\\Google\\Chrome\\Application\\chrome.exe".to_string()));
    assert_eq!(cands.len(), 4);
}

#[test]
fn test_legacy_entry_points() {
    let mut probe = linux_probe();
    probe.env.chrome_path = Some("/bin/sh".to_string());
    assert_eq!(chrome_launcher::finder::linux(&probe), Some("/bin/sh".to_string()));
    assert_eq!(chrome_launcher::finder::darwin_fast(&probe), Some("/bin/sh".to_string()));
    assert_eq!(chrome_launcher::finder::win32(&probe), Some("/bin/sh".to_string()));
}

#[test]
fn test_desktop_entry_dirs_order() {
    let dirs = chrome_launcher::finder::desktop_entry_dirs_with(Some("/home/someone".to_string()));
    assert_eq!(
        dirs,
        vec![
            "/usr/share/applications".to_string(),
            "/usr/local/share/applications".to_string(),
            "/home/someone/.local/share/applications".to_string(),
        ]
    );
    let dirs = chrome_launcher::finder::desktop_entry_dirs_with(None);
    assert_eq!(dirs.len(), 2);
}
