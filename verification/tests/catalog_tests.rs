use chrome_launcher::browser::{parse_version_output, Browser, BrowserType};

#[test]
fn test_browser_type_names() {
    assert_eq!(BrowserType::Chrome.name(), "Google Chrome");
    assert_eq!(BrowserType::Edge.name(), "Microsoft Edge");
    assert_eq!(BrowserType::Brave.name(), "Brave");
    assert_eq!(BrowserType::Chromium.name(), "Chromium");
}

#[test]
fn test_browser_type_executables() {
    let chrome_executables = BrowserType::Chrome.executables();
    assert!(chrome_executables.contains(&"google-chrome-stable"));
    assert!(chrome_executables.contains(&"google-chrome"));

    let edge_executables = BrowserType::Edge.executables();
    assert!(edge_executables.contains(&"microsoft-edge"));
    assert!(edge_executables.contains(&"msedge"));
}

#[test]
fn test_browser_custom_type() {
    let custom_browser = BrowserType::Custom("/usr/bin/custom-browser".to_string());
    assert_eq!(custom_browser.name(), "/usr/bin/custom-browser");
    assert_eq!(custom_browser.executables(), &["/usr/bin/custom-browser"]);
}

#[test]
fn test_every_identity_has_executables_and_name() {
    let identities = vec![
        BrowserType::Chrome,
        BrowserType::ChromeCanary,
        BrowserType::Chromium,
        BrowserType::Edge,
        BrowserType::Brave,
        BrowserType::Opera,
        BrowserType::Vivaldi,
        BrowserType::Custom("mybrowser".to_string()),
    ];
    for identity in identities {
        assert!(!identity.executables().is_empty());
        assert!(!identity.name().is_empty());
    }
}

#[test]
fn test_macos_app_paths_catalog() {
    let chrome_paths = BrowserType::Chrome.macos_app_paths();
    assert_eq!(
        chrome_paths[0],
        "/Applications/Google Chrome.app/Contents/MacOS/Google Chrome"
    );
    assert_eq!(chrome_paths.len(), 2);
    assert!(BrowserType::ChromeCanary.macos_app_paths().is_empty());
    assert!(BrowserType::Custom("x".to_string()).macos_app_paths().is_empty());
}

#[test]
fn test_windows_registry_paths_catalog() {
    let chrome_keys = BrowserType::Chrome.windows_registry_paths();
    assert_eq!(
        chrome_keys[0],
        "SOFTWARE\\Microsoft\\Windows\\CurrentVersion\\App Paths\\chrome.exe"
    );
    assert!(BrowserType::Chromium.windows_registry_paths().is_empty());
}

#[test]
fn test_parse_version_output_second_token() {
    // The second whitespace-delimited token of the first line is returned,
    // as in output shaped `BrowserName Version.X.X.X`.
    assert_eq!(
        parse_version_output("Chromium 120.0.6099.109\n"),
        Some("120.0.6099.109".to_string())
    );
    assert_eq!(
        parse_version_output("Chromium 121.0.1 extra words\nsecond line"),
        Some("121.0.1".to_string())
    );
    assert_eq!(parse_version_output("OneToken"), None);
    assert_eq!(parse_version_output(""), None);
    assert_eq!(parse_version_output("   \n"), None);
}

#[test]
fn test_get_version_memoizes_success() {
    let mut browser = Browser::new(BrowserType::Chrome, "/bin/true".to_string());
    assert_eq!(browser.version, None);
    let v = browser.get_version(Some("Chromium 99.1 stuff".to_string()));
    assert_eq!(v, Some("99.1".to_string()));
    // Cached now: later output is ignored.
    let v2 = browser.get_version(Some("Chromium 100.2".to_string()));
    assert_eq!(v2, Some("99.1".to_string()));
}

#[test]
fn test_get_version_failed_attempt_not_cached() {
    let mut browser = Browser::new(BrowserType::Chrome, "/bin/true".to_string());
    assert_eq!(browser.get_version(None), None);
    assert_eq!(browser.version, None);
    // A later successful run still populates the cache.
    let v = browser.get_version(Some("Chromium 100.2".to_string()));
    assert_eq!(v, Some("100.2".to_string()));
}

#[test]
fn test_exists_on_disk() {
    let present = Browser::new(BrowserType::Chrome, "/bin/sh".to_string());
    assert!(present.exists_on_disk());
    let missing = Browser::new(BrowserType::Chrome, "/no/such/binary/anywhere".to_string());
    assert!(!missing.exists_on_disk());
}
