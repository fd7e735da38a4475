use chrome_launcher::browser::BrowserType;
use chrome_launcher::launcher::HostInfo;
use chrome_launcher::probe::{HostProbe, Platform};
use chrome_launcher::{Launcher, Options};

fn linux_host() -> HostInfo {
    HostInfo {
        platform: Platform::Linux,
        temp_dir: "/tmp".to_string(),
        headless_env: false,
    }
}

const BASELINE_FLAGS: [&str; 19] = [
    "--disable-features=Translate",
    "--disable-extensions",
    "--disable-component-extensions-with-background-pages",
    "--disable-background-networking",
    "--disable-component-update",
    "--disable-client-side-phishing-detection",
    "--disable-sync",
    "--metrics-recording-only",
    "--disable-default-apps",
    "--mute-audio",
    "--no-default-browser-check",
    "--no-first-run",
    "--disable-backgrounding-occluded-windows",
    "--disable-renderer-backgrounding",
    "--disable-background-timer-throttling",
    "--disable-ipc-flooding-protection",
    "--password-store=basic",
    "--use-mock-keychain",
    "--force-fieldtrials=*BackgroundTracing/default/",
];

#[test]
fn test_options_default() {
    let options = Options::default();
    assert!(options.starting_url.is_none());
    assert!(options.chrome_flags.is_none());
    assert!(options.port.is_none());
    assert!(options.browser.is_none());
    // headless defaults to None in Options::default()
    assert!(options.headless.is_none());
}

#[test]
fn test_launcher_creation() {
    let mut options = Options::default();
    options.starting_url = Some("https://example.com".to_string());
    options.browser = Some(BrowserType::Chrome);
    options.port = Some(9222);

    let launcher = Launcher::new(options, linux_host());
    assert_eq!(launcher.get_starting_url(), "https://example.com");
    assert_eq!(launcher.get_port(), 9222);
    assert!(!launcher.is_headless());
}

#[test]
fn test_launcher_flags_generation() {
    let mut options = Options::default();
    options.starting_url = Some("https://test.com".to_string());
    options.headless = Some(true);
    options.incognito = Some(true);
    options.disable_gpu = Some(true);
    options.window_size = Some((1920, 1080));
    options.user_agent = Some("TestAgent/1.0".to_string());

    let launcher = Launcher::new(options, linux_host());
    let flags = launcher.get_flags_for_test();

    assert!(flags.contains(&"--headless".to_string()));
    assert!(flags.contains(&"--incognito".to_string()));
    assert!(flags.contains(&"--disable-gpu".to_string()));
    assert!(flags.contains(&"--window-size=1920,1080".to_string()));
    assert!(flags.contains(&"--user-agent=TestAgent/1.0".to_string()));
    assert!(flags.contains(&"https://test.com".to_string()));
    // The starting URL is the last element.
    assert_eq!(flags.last(), Some(&"https://test.com".to_string()));
}

#[test]
fn test_options_with_all_features() {
    let mut options = Options::default();
    options.starting_url = Some("https://test.com".to_string());
    options.browser = Some(BrowserType::Edge);
    options.headless = Some(true);
    options.incognito = Some(true);
    options.disable_gpu = Some(true);
    options.no_sandbox = Some(true);
    options.disable_web_security = Some(true);
    options.allow_running_insecure_content = Some(true);
    options.ignore_ssl_errors = Some(true);
    options.disable_extensions = Some(true);
    options.disable_plugins = Some(true);
    options.disable_images = Some(true);
    options.disable_javascript = Some(true);
    options.user_agent = Some("CustomAgent".to_string());
    options.proxy_server = Some("http://proxy:8080".to_string());
    options.host_resolver_rules = Some("MAP *.example.com 127.0.0.1".to_string());
    options.window_size = Some((1024, 768));
    options.chrome_flags = Some(vec!["--custom-flag".to_string()]);
    options.additional_args = Some(vec!["--extra-arg".to_string()]);
    options.user_data_dir = Some("/tmp/test-data".to_string());
    options.port = Some(9999);

    let launcher = Launcher::new(options, linux_host());
    let config = launcher.get_all_config();

    assert_eq!(config.12, &BrowserType::Edge); // browser_type
    assert!(config.2); // headless
    assert!(config.3); // incognito
    assert!(config.4); // disable_gpu
    assert!(config.5); // no_sandbox
    assert!(config.6); // disable_web_security
    assert!(config.7); // allow_running_insecure_content
    assert!(config.8); // ignore_ssl_errors
    assert!(config.9); // disable_extensions
    assert!(config.10); // disable_plugins
    assert!(config.11); // disable_images
    assert_eq!(config.0, "https://test.com"); // starting_url
    assert_eq!(config.1, 9999); // port
    assert_eq!(config.13, Some(&(1024, 768))); // window_size
    assert_eq!(config.14, &vec!["--custom-flag".to_string()]); // chrome_flags
    assert_eq!(config.15, &vec!["--extra-arg".to_string()]); // additional_args
    assert_eq!(config.16, "/tmp/test-data"); // user_data_dir
}

#[test]
fn test_launcher_with_env_vars() {
    let env_vars = vec![("TEST_VAR".to_string(), "test_value".to_string())];

    let mut options = Options::default();
    options.env_vars = Some(env_vars);

    let launcher = Launcher::new(options, linux_host());
    assert!(launcher.env_vars.contains(&("TEST_VAR".to_string(), "test_value".to_string())));
}

#[test]
fn test_ignore_default_flags() {
    let mut options = Options::default();
    options.ignore_default_flags = Some(true);
    options.starting_url = Some("https://test.com".to_string());

    let launcher = Launcher::new(options, linux_host());
    let flags = launcher.get_flags_for_test();

    // Should not contain default flags but should have basic required flags
    assert!(flags.contains(&"--remote-debugging-port=0".to_string()));
    assert!(flags.contains(&"https://test.com".to_string()));

    // Should not contain default flags like --disable-features=Translate
    assert!(!flags.contains(&"--disable-features=Translate".to_string()));
}

#[test]
fn test_launcher_options_builder_pattern() {
    let options = Options {
        starting_url: Some("https://example.com".to_string()),
        browser: Some(BrowserType::Chrome),
        headless: Some(true),
        port: Some(9222),
        ..Default::default()
    };

    let launcher = Launcher::new(options, linux_host());
    assert_eq!(launcher.starting_url, "https://example.com");
    assert_eq!(launcher.browser_type, BrowserType::Chrome);
    assert!(launcher.headless);
    assert_eq!(launcher.port, 9222);
}

#[test]
fn test_flags_complex_configuration() {
    let mut options = Options::default();
    options.starting_url = Some("https://test.com".to_string());
    options.headless = Some(true);
    options.incognito = Some(true);
    options.disable_gpu = Some(true);
    options.no_sandbox = Some(true);
    options.disable_web_security = Some(true);
    options.ignore_ssl_errors = Some(true);
    options.disable_extensions = Some(true);
    options.disable_plugins = Some(true);
    options.disable_images = Some(true);
    options.disable_javascript = Some(true);
    options.user_agent = Some("TestAgent/1.0".to_string());
    options.proxy_server = Some("http://proxy.test:8080".to_string());
    options.window_size = Some((1280, 720));
    options.chrome_flags = Some(vec![
        "--custom-flag1".to_string(),
        "--custom-flag2=value".to_string(),
    ]);
    options.additional_args = Some(vec!["--extra-flag".to_string()]);

    let launcher = Launcher::new(options, linux_host());
    let flags = launcher.get_flags();

    // Verify all flags are present
    assert!(flags.contains(&"--headless".to_string()));
    assert!(flags.contains(&"--incognito".to_string()));
    assert!(flags.contains(&"--disable-gpu".to_string()));
    assert!(flags.contains(&"--no-sandbox".to_string()));
    assert!(flags.contains(&"--disable-web-security".to_string()));
    assert!(flags.contains(&"--ignore-ssl-errors".to_string()));
    assert!(flags.contains(&"--ignore-certificate-errors".to_string()));
    assert!(flags.contains(&"--disable-extensions".to_string()));
    assert!(flags.contains(&"--disable-plugins".to_string()));
    assert!(flags.contains(&"--disable-images".to_string()));
    assert!(flags.contains(&"--disable-javascript".to_string()));
    assert!(flags.contains(&"--user-agent=TestAgent/1.0".to_string()));
    assert!(flags.contains(&"--proxy-server=http://proxy.test:8080".to_string()));
    assert!(flags.contains(&"--window-size=1280,720".to_string()));
    assert!(flags.contains(&"--custom-flag1".to_string()));
    assert!(flags.contains(&"--custom-flag2=value".to_string()));
    assert!(flags.contains(&"--extra-flag".to_string()));
    assert!(flags.contains(&"https://test.com".to_string()));
}

#[test]
fn test_launcher_get_chrome_path_with_custom_path() {
    let mut options = Options::default();
    options.chrome_path = Some("/usr/bin/google-chrome".to_string());

    let launcher = Launcher::new(options, linux_host());

    // This will fail on systems where the path doesn't exist, but shouldn't crash
    let result = launcher.get_chrome_path(&HostProbe::bare(Platform::Linux));
    match result {
        Ok(path) => assert_eq!(path, "/usr/bin/google-chrome"),
        Err(_) => {
            // Expected if path doesn't exist
            assert!(result.is_err());
        }
    }
}

#[test]
fn test_launcher_with_minimal_options() {
    let options = Options {
        starting_url: Some("about:blank".to_string()),
        ..Default::default()
    };

    let launcher = Launcher::new(options, linux_host());
    let flags = launcher.get_flags();

    // Should have basic required flags
    assert!(flags.iter().any(|f| f.starts_with("--remote-debugging-port=")));
    assert!(flags.iter().any(|f| f.starts_with("--user-data-dir=")));
    assert!(flags.contains(&"about:blank".to_string()));
}

#[test]
fn test_flag_builder_is_pure() {
    fn build() -> Launcher {
        let mut options = Options::default();
        options.starting_url = Some("https://test.com".to_string());
        options.headless = Some(true);
        options.window_size = Some((1920, 1080));
        options.chrome_flags = Some(vec!["--a".to_string(), "--b=c".to_string()]);
        Launcher::new(options, linux_host())
    }
    let a = build();
    let b = build();
    // Identical configuration: byte-identical output, also across repeated
    // calls on one configuration.
    assert_eq!(a.get_flags(), b.get_flags());
    assert_eq!(a.get_flags(), a.get_flags());
}

#[test]
fn test_ignore_default_flags_suppresses_whole_baseline() {
    let mut options = Options::default();
    options.ignore_default_flags = Some(true);
    options.disable_extensions = Some(true);
    options.headless = Some(true);
    options.starting_url = Some("https://test.com".to_string());

    let launcher = Launcher::new(options, linux_host());
    let flags = launcher.get_flags();
    for baseline in BASELINE_FLAGS {
        assert!(!flags.contains(&baseline.to_string()), "{} leaked", baseline);
    }
    // The port and user-data-dir flags are still always emitted.
    assert!(flags.contains(&"--remote-debugging-port=0".to_string()));
    assert!(flags.contains(&"--user-data-dir=/tmp".to_string()));
    // The Linux sandbox flag follows the baseline's suppression too.
    assert!(!flags.contains(&"--disable-setuid-sandbox".to_string()));
}

#[test]
fn test_default_flag_order_exact() {
    let mut options = Options::default();
    options.ignore_default_flags = Some(true);
    options.user_data_dir = Some("/tmp/ud".to_string());
    options.port = Some(9222);
    let launcher = Launcher::new(options, linux_host());
    assert_eq!(
        launcher.get_flags(),
        vec![
            "--remote-debugging-port=9222".to_string(),
            "--user-data-dir=/tmp/ud".to_string(),
            "about:blank".to_string(),
        ]
    );
}

#[test]
fn test_baseline_kept_by_default_with_sandbox_flag_on_linux() {
    let launcher = Launcher::new(Options::default(), linux_host());
    let flags = launcher.get_flags();
    // All nineteen baseline flags open the vector, in order.
    for (i, baseline) in BASELINE_FLAGS.iter().enumerate() {
        assert_eq!(flags[i], baseline.to_string());
    }
    assert_eq!(flags[19], "--remote-debugging-port=0".to_string());
    assert_eq!(flags[20], "--disable-setuid-sandbox".to_string());
    assert_eq!(flags[21], "--user-data-dir=/tmp".to_string());
    assert_eq!(flags[22], "about:blank".to_string());
    assert_eq!(flags.len(), 23);
}

#[test]
fn test_headless_env_toggle_is_an_or() {
    // The environment toggle alone switches headless flags on.
    let mut host = linux_host();
    host.headless_env = true;
    let launcher = Launcher::new(Options::default(), host);
    let flags = launcher.get_flags();
    assert!(flags.contains(&"--headless".to_string()));
    assert!(flags.contains(&"--disable-gpu".to_string()));
    // It does not override an explicit request either.
    let mut host = linux_host();
    host.headless_env = true;
    let mut options = Options::default();
    options.headless = Some(true);
    let launcher = Launcher::new(options, host);
    assert!(launcher.get_flags().contains(&"--headless".to_string()));
}

#[test]
fn test_headless_and_disable_gpu_emit_gpu_flag_once() {
    // Headless already carries a GPU-disable flag; the separate disable_gpu
    // request is then skipped, so the flag appears exactly once.
    let mut options = Options::default();
    options.headless = Some(true);
    options.disable_gpu = Some(true);
    let launcher = Launcher::new(options, linux_host());
    let flags = launcher.get_flags();
    assert_eq!(flags.iter().filter(|f| *f == "--disable-gpu").count(), 1);
}

#[test]
fn test_headless_scenario_flag_sequence() {
    let mut options = Options::default();
    options.headless = Some(true);
    options.window_size = Some((1920, 1080));
    options.user_agent = Some("TestAgent/1.0".to_string());
    let launcher = Launcher::new(options, linux_host());
    let flags = launcher.get_flags();
    assert!(flags.contains(&"--headless".to_string()));
    assert!(flags.contains(&"--disable-gpu".to_string()));
    assert!(flags.contains(&"--window-size=1920,1080".to_string()));
    assert!(flags.contains(&"--user-agent=TestAgent/1.0".to_string()));
    assert_eq!(flags.last(), Some(&"about:blank".to_string()));
}

#[test]
fn test_get_chrome_path_pinned_missing_is_error() {
    let mut options = Options::default();
    options.chrome_path = Some("/no/such/browser-binary".to_string());
    let launcher = Launcher::new(options, linux_host());
    let result = launcher.get_chrome_path(&HostProbe::bare(Platform::Linux));
    assert_eq!(
        result,
        Err("Specified browser path does not exist: /no/such/browser-binary".to_string())
    );
}

#[test]
fn test_get_chrome_path_pinned_existing_wins() {
    let mut options = Options::default();
    options.chrome_path = Some("/bin/sh".to_string());
    let launcher = Launcher::new(options, linux_host());
    let result = launcher.get_chrome_path(&HostProbe::bare(Platform::Linux));
    assert_eq!(result, Ok("/bin/sh".to_string()));
}

#[test]
fn test_get_chrome_path_unresolvable_identity_is_error() {
    let mut options = Options::default();
    options.browser = Some(BrowserType::Custom("no-such-browser-xyzq".to_string()));
    let launcher = Launcher::new(options, linux_host());
    let result = launcher.get_chrome_path(&HostProbe::bare(Platform::Linux));
    assert_eq!(
        result,
        Err("no-such-browser-xyzq browser not found on this system".to_string())
    );
}

#[test]
fn test_get_chrome_path_resolves_via_override() {
    let launcher = Launcher::new(Options::default(), linux_host());
    let mut probe = HostProbe::bare(Platform::Linux);
    probe.env.chrome_path = Some("/bin/sh".to_string());
    assert_eq!(launcher.get_chrome_path(&probe), Ok("/bin/sh".to_string()));
    assert_eq!(launcher.test_get_chrome_path(&probe), Ok("/bin/sh".to_string()));
}

#[test]
fn test_log_file_paths_inside_user_data_dir() {
    let mut options = Options::default();
    options.user_data_dir = Some("/tmp/session".to_string());
    let launcher = Launcher::new(options, linux_host());
    assert_eq!(launcher.out_file, "/tmp/session/chrome-out.log");
    assert_eq!(launcher.err_file, "/tmp/session/chrome-err.log");
    assert_eq!(launcher.user_data_dir, "/tmp/session");

    // The default working directory is the host's temporary directory.
    let launcher = Launcher::new(Options::default(), linux_host());
    assert_eq!(launcher.out_file, "/tmp/chrome-out.log");
    assert_eq!(launcher.user_data_dir, "/tmp");
}

#[test]
fn test_launcher_defaults() {
    let launcher = Launcher::new(Options::default(), linux_host());
    assert_eq!(launcher.starting_url, "about:blank");
    assert_eq!(launcher.port, 0);
    assert_eq!(launcher.connection_poll_interval, 500);
    assert_eq!(launcher.max_connection_retries, 50);
    assert!(!launcher.ignore_default_flags);
    assert_eq!(launcher.browser_type, BrowserType::Chrome);
    assert!(launcher.window_size.is_none());
    assert!(launcher.chrome_flags.is_empty());
    assert!(launcher.env_vars.is_empty());
}

#[test]
fn test_default_flags_list() {
    let flags = chrome_launcher::flags::default_flags();
    assert_eq!(flags.len(), 19);
    assert_eq!(flags[0], "--disable-features=Translate");
    assert_eq!(flags[18], "--force-fieldtrials=*BackgroundTracing/default/");
}

#[test]
fn test_launcher_error_record() {
    let err = chrome_launcher::flags::LauncherError {
        message: "no browser".to_string(),
        code: Some("ENOTFOUND".to_string()),
    };
    assert_eq!(err.message, "no browser");
    assert_eq!(err.code, Some("ENOTFOUND".to_string()));
}

#[test]
fn test_get_default_helper() {
    assert_eq!(chrome_launcher::utils::get_default(Some(7), || 0), 7);
    assert_eq!(chrome_launcher::utils::get_default(None, || 42), 42);
}
