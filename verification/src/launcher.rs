//! The launch configuration and the flag builder: a declarative option set
//! is resolved into a concrete configuration, and the configuration into the
//! exact, ordered argument vector for the browser process.

use crate::browser::BrowserType;
use crate::flags::spec_default_flags;
use crate::flags::default_flags;
use crate::probe::Platform;
use crate::strutil::spec_dec_seq;
use crate::strutil::u64_to_string;
use vstd::prelude::*;

verus! {

/// The recognized launch options. Every field is optional; `Launcher::new`
/// fills in the documented default for an absent one.
#[derive(Debug)]
pub struct Options {
    /// First page to open; defaults to `about:blank`.
    pub starting_url: Option<String>,
    /// Raw flags appended verbatim, in order.
    pub chrome_flags: Option<Vec<String>>,
    /// Remote-debugging port; defaults to 0, which is passed through
    /// verbatim rather than resolved to a free port.
    pub port: Option<u16>,
    pub handle_sigint: Option<bool>,
    /// A pinned executable path; when set, resolution is skipped entirely.
    pub chrome_path: Option<String>,
    /// Working directory for profile data and logs; defaults to the host's
    /// temporary directory.
    pub user_data_dir: Option<String>,
    pub log_level: Option<String>,
    /// Suppress the baseline flag set.
    pub ignore_default_flags: Option<bool>,
    /// Readiness-poll tuning reserved for callers; the launch path itself
    /// does not retry. Defaults to 500.
    pub connection_poll_interval: Option<u64>,
    /// Reserved like `connection_poll_interval`. Defaults to 50.
    pub max_connection_retries: Option<u32>,
    /// Extra environment entries laid over the inherited environment.
    pub env_vars: Option<Vec<(String, String)>>,
    /// Which browser to resolve; defaults to Chrome.
    pub browser: Option<BrowserType>,
    pub headless: Option<bool>,
    pub window_size: Option<(u32, u32)>,
    pub incognito: Option<bool>,
    pub disable_gpu: Option<bool>,
    pub no_sandbox: Option<bool>,
    pub disable_web_security: Option<bool>,
    pub allow_running_insecure_content: Option<bool>,
    pub ignore_ssl_errors: Option<bool>,
    pub disable_extensions: Option<bool>,
    pub disable_plugins: Option<bool>,
    pub disable_images: Option<bool>,
    pub disable_javascript: Option<bool>,
    pub user_agent: Option<String>,
    pub proxy_server: Option<String>,
    pub host_resolver_rules: Option<String>,
    pub additional_args: Option<Vec<String>>,
}

impl Default for Options {
    /// Every option starts absent.
    fn default() -> (r: Self)
        ensures
            r.starting_url is None,
            r.chrome_flags is None,
            r.port is None,
            r.handle_sigint is None,
            r.chrome_path is None,
            r.user_data_dir is None,
            r.log_level is None,
            r.ignore_default_flags is None,
            r.connection_poll_interval is None,
            r.max_connection_retries is None,
            r.env_vars is None,
            r.browser is None,
            r.headless is None,
            r.window_size is None,
            r.incognito is None,
            r.disable_gpu is None,
            r.no_sandbox is None,
            r.disable_web_security is None,
            r.allow_running_insecure_content is None,
            r.ignore_ssl_errors is None,
            r.disable_extensions is None,
            r.disable_plugins is None,
            r.disable_images is None,
            r.disable_javascript is None,
            r.user_agent is None,
            r.proxy_server is None,
            r.host_resolver_rules is None,
            r.additional_args is None,
    {
        Options {
            starting_url: None,
            chrome_flags: None,
            port: None,
            handle_sigint: None,
            chrome_path: None,
            user_data_dir: None,
            log_level: None,
            ignore_default_flags: None,
            connection_poll_interval: None,
            max_connection_retries: None,
            env_vars: None,
            browser: None,
            headless: None,
            window_size: None,
            incognito: None,
            disable_gpu: None,
            no_sandbox: None,
            disable_web_security: None,
            allow_running_insecure_content: None,
            ignore_ssl_errors: None,
            disable_extensions: None,
            disable_plugins: None,
            disable_images: None,
            disable_javascript: None,
            user_agent: None,
            proxy_server: None,
            host_resolver_rules: None,
            additional_args: None,
        }
    }
}

/// The ambient facts the launcher needs from the host, collected once by the
/// caller: the platform family, the temporary directory that serves as the
/// default scratch location, and whether the headless-mode environment
/// toggle is set.
#[derive(Debug)]
pub struct HostInfo {
    pub platform: Platform,
    pub temp_dir: String,
    pub headless_env: bool,
}

/// `name` placed inside directory `dir`.
pub open spec fn spec_join_path(dir: Seq<char>, name: Seq<char>) -> Seq<char> {
    if dir.len() == 0 {
        name
    } else if dir.last() == '/' || dir.last() == '\\' {
        dir + name
    } else {
        dir + "/"@ + name
    }
}

/// Join a file name onto a directory path.
pub fn join_path(dir: &str, name: &str) -> (r: String)
    ensures
        r@ == spec_join_path(dir@, name@),
{
    let len = dir.unicode_len();
    let mut s = String::from_str(dir);
    if len == 0 {
        proof {
            assert(s@ + name@ =~= name@);
        }
    } else {
        let last = dir.get_char(len - 1);
        if !(last == '/' || last == '\\') {
            s.append("/");
        }
    }
    s.append(name);
    s
}

/// A fully-defaulted launch configuration, together with the host facts the
/// flag builder consults. Owns no process: spawning, killing and log
/// redirection stay with the caller, which reads the paths and flags from
/// here.
#[derive(Debug)]
pub struct Launcher {
    /// Log file capturing the child's standard output.
    pub out_file: String,
    /// Log file capturing the child's standard error.
    pub err_file: String,
    /// Pinned executable path, if one was configured.
    pub chrome_path: Option<String>,
    pub env_vars: Vec<(String, String)>,
    pub port: u16,
    pub ignore_default_flags: bool,
    pub connection_poll_interval: u64,
    pub max_connection_retries: u32,
    pub user_data_dir: String,
    pub chrome_flags: Vec<String>,
    pub starting_url: String,
    pub browser_type: BrowserType,
    pub headless: bool,
    /// Whether the headless-mode environment toggle was set at snapshot
    /// time; it enables headless flags in addition to the `headless` option.
    pub headless_env: bool,
    pub platform: Platform,
    pub window_size: Option<(u32, u32)>,
    pub incognito: bool,
    pub disable_gpu: bool,
    pub no_sandbox: bool,
    pub disable_web_security: bool,
    pub allow_running_insecure_content: bool,
    pub ignore_ssl_errors: bool,
    pub disable_extensions: bool,
    pub disable_plugins: bool,
    pub disable_images: bool,
    pub disable_javascript: bool,
    pub user_agent: Option<String>,
    pub proxy_server: Option<String>,
    pub host_resolver_rules: Option<String>,
    pub additional_args: Vec<String>,
}

impl Launcher {
    /// Resolve the option set against the host facts: every absent option
    /// takes its documented default, and the two log file paths are placed
    /// inside the working directory.
    pub fn new(opts: Options, host: HostInfo) -> (r: Self)
        ensures
            r.user_data_dir@ == (match opts.user_data_dir {
                Some(d) => d@,
                None => host.temp_dir@,
            }),
            r.out_file@ == spec_join_path(r.user_data_dir@, "chrome-out.log"@),
            r.err_file@ == spec_join_path(r.user_data_dir@, "chrome-err.log"@),
            r.chrome_path == opts.chrome_path,
            r.env_vars@ == (match opts.env_vars {
                Some(v) => v@,
                None => Seq::<(String, String)>::empty(),
            }),
            r.port == (match opts.port {
                Some(p) => p,
                None => 0u16,
            }),
            r.ignore_default_flags == (match opts.ignore_default_flags {
                Some(b) => b,
                None => false,
            }),
            r.connection_poll_interval == (match opts.connection_poll_interval {
                Some(v) => v,
                None => 500u64,
            }),
            r.max_connection_retries == (match opts.max_connection_retries {
                Some(v) => v,
                None => 50u32,
            }),
            r.chrome_flags@ == (match opts.chrome_flags {
                Some(v) => v@,
                None => Seq::<String>::empty(),
            }),
            r.starting_url@ == (match opts.starting_url {
                Some(u) => u@,
                None => "about:blank"@,
            }),
            r.browser_type == (match opts.browser {
                Some(b) => b,
                None => BrowserType::Chrome,
            }),
            r.headless == (match opts.headless {
                Some(b) => b,
                None => false,
            }),
            r.headless_env == host.headless_env,
            r.platform == host.platform,
            r.window_size == opts.window_size,
            r.incognito == (match opts.incognito {
                Some(b) => b,
                None => false,
            }),
            r.disable_gpu == (match opts.disable_gpu {
                Some(b) => b,
                None => false,
            }),
            r.no_sandbox == (match opts.no_sandbox {
                Some(b) => b,
                None => false,
            }),
            r.disable_web_security == (match opts.disable_web_security {
                Some(b) => b,
                None => false,
            }),
            r.allow_running_insecure_content == (match opts.allow_running_insecure_content {
                Some(b) => b,
                None => false,
            }),
            r.ignore_ssl_errors == (match opts.ignore_ssl_errors {
                Some(b) => b,
                None => false,
            }),
            r.disable_extensions == (match opts.disable_extensions {
                Some(b) => b,
                None => false,
            }),
            r.disable_plugins == (match opts.disable_plugins {
                Some(b) => b,
                None => false,
            }),
            r.disable_images == (match opts.disable_images {
                Some(b) => b,
                None => false,
            }),
            r.disable_javascript == (match opts.disable_javascript {
                Some(b) => b,
                None => false,
            }),
            r.user_agent == opts.user_agent,
            r.proxy_server == opts.proxy_server,
            r.host_resolver_rules == opts.host_resolver_rules,
            r.additional_args@ == (match opts.additional_args {
                Some(v) => v@,
                None => Seq::<String>::empty(),
            }),
    {
        let user_data_dir = match opts.user_data_dir {
            Some(d) => d,
            None => host.temp_dir,
        };
        let out_file = join_path(user_data_dir.as_str(), "chrome-out.log");
        let err_file = join_path(user_data_dir.as_str(), "chrome-err.log");
        Launcher {
            out_file,
            err_file,
            chrome_path: opts.chrome_path,
            env_vars: match opts.env_vars {
                Some(v) => v,
                None => Vec::new(),
            },
            port: match opts.port {
                Some(p) => p,
                None => 0,
            },
            ignore_default_flags: match opts.ignore_default_flags {
                Some(b) => b,
                None => false,
            },
            connection_poll_interval: match opts.connection_poll_interval {
                Some(v) => v,
                None => 500,
            },
            max_connection_retries: match opts.max_connection_retries {
                Some(v) => v,
                None => 50,
            },
            user_data_dir,
            chrome_flags: match opts.chrome_flags {
                Some(v) => v,
                None => Vec::new(),
            },
            starting_url: match opts.starting_url {
                Some(u) => u,
                None => String::from_str("about:blank"),
            },
            browser_type: match opts.browser {
                Some(b) => b,
                None => BrowserType::Chrome,
            },
            headless: match opts.headless {
                Some(b) => b,
                None => false,
            },
            headless_env: host.headless_env,
            platform: host.platform,
            window_size: opts.window_size,
            incognito: match opts.incognito {
                Some(b) => b,
                None => false,
            },
            disable_gpu: match opts.disable_gpu {
                Some(b) => b,
                None => false,
            },
            no_sandbox: match opts.no_sandbox {
                Some(b) => b,
                None => false,
            },
            disable_web_security: match opts.disable_web_security {
                Some(b) => b,
                None => false,
            },
            allow_running_insecure_content: match opts.allow_running_insecure_content {
                Some(b) => b,
                None => false,
            },
            ignore_ssl_errors: match opts.ignore_ssl_errors {
                Some(b) => b,
                None => false,
            },
            disable_extensions: match opts.disable_extensions {
                Some(b) => b,
                None => false,
            },
            disable_plugins: match opts.disable_plugins {
                Some(b) => b,
                None => false,
            },
            disable_images: match opts.disable_images {
                Some(b) => b,
                None => false,
            },
            disable_javascript: match opts.disable_javascript {
                Some(b) => b,
                None => false,
            },
            user_agent: opts.user_agent,
            proxy_server: opts.proxy_server,
            host_resolver_rules: opts.host_resolver_rules,
            additional_args: match opts.additional_args {
                Some(v) => v,
                None => Vec::new(),
            },
        }
    }
}

/// The remote-debugging-port flag, with the port value verbatim (0 included).
pub open spec fn spec_port_flag(port: u16) -> Seq<char> {
    "--remote-debugging-port="@ + spec_dec_seq(port as nat)
}

/// The user-data-directory flag.
pub open spec fn spec_user_data_dir_flag(dir: Seq<char>) -> Seq<char> {
    "--user-data-dir="@ + dir
}

/// The window-size flag, formatted `WIDTH,HEIGHT`.
pub open spec fn spec_window_size_flag(w: u32, h: u32) -> Seq<char> {
    "--window-size="@ + spec_dec_seq(w as nat) + ","@ + spec_dec_seq(h as nat)
}

/// The user-agent flag with its literal value.
pub open spec fn spec_user_agent_flag(ua: Seq<char>) -> Seq<char> {
    "--user-agent="@ + ua
}

/// The proxy-server flag with its literal value.
pub open spec fn spec_proxy_server_flag(proxy: Seq<char>) -> Seq<char> {
    "--proxy-server="@ + proxy
}

/// The host-resolver-rules flag with its literal value.
pub open spec fn spec_host_resolver_rules_flag(rules: Seq<char>) -> Seq<char> {
    "--host-resolver-rules="@ + rules
}

/// The opening of the argument vector: the baseline flags unless suppressed,
/// the port flag always, the platform sandbox flag on Linux-style hosts
/// unless the baseline is suppressed, and the user-data-dir flag always.
pub open spec fn spec_base_flags(l: Launcher) -> Seq<Seq<char>> {
    (if l.ignore_default_flags {
        Seq::<Seq<char>>::empty()
    } else {
        spec_default_flags()
    }) + seq![spec_port_flag(l.port)] + (if !l.ignore_default_flags && l.platform is Linux {
        seq!["--disable-setuid-sandbox"@]
    } else {
        Seq::<Seq<char>>::empty()
    }) + seq![spec_user_data_dir_flag(l.user_data_dir@)]
}

/// The display-mode flags: the headless pair when headless is requested or
/// the environment toggle is set, the window size, incognito, and the
/// GPU-disable flag when requested and not already implied by headless.
pub open spec fn spec_display_flags(l: Launcher) -> Seq<Seq<char>> {
    (if l.headless || l.headless_env {
        seq!["--headless"@, "--disable-gpu"@]
    } else {
        Seq::<Seq<char>>::empty()
    }) + (match l.window_size {
        Some(ws) => seq![spec_window_size_flag(ws.0, ws.1)],
        None => Seq::<Seq<char>>::empty(),
    }) + (if l.incognito {
        seq!["--incognito"@]
    } else {
        Seq::<Seq<char>>::empty()
    }) + (if l.disable_gpu && !l.headless {
        seq!["--disable-gpu"@]
    } else {
        Seq::<Seq<char>>::empty()
    })
}

/// The security-mode flags: the sandbox and web-security switches.
pub open spec fn spec_security_flags(l: Launcher) -> Seq<Seq<char>> {
    (if l.no_sandbox {
        seq!["--no-sandbox"@]
    } else {
        Seq::<Seq<char>>::empty()
    }) + (if l.disable_web_security {
        seq!["--disable-web-security"@]
    } else {
        Seq::<Seq<char>>::empty()
    }) + (if l.allow_running_insecure_content {
        seq!["--allow-running-insecure-content"@]
    } else {
        Seq::<Seq<char>>::empty()
    }) + (if l.ignore_ssl_errors {
        seq!["--ignore-ssl-errors"@, "--ignore-certificate-errors"@]
    } else {
        Seq::<Seq<char>>::empty()
    })
}

/// The mode flags: display modes, then security switches.
pub open spec fn spec_mode_flags(l: Launcher) -> Seq<Seq<char>> {
    spec_display_flags(l) + spec_security_flags(l)
}

/// The content flags: extension, plugin, image and script switches, then the
/// user-agent, proxy and host-resolver values.
pub open spec fn spec_content_flags(l: Launcher) -> Seq<Seq<char>> {
    (if l.disable_extensions && !l.ignore_default_flags {
        seq!["--disable-extensions"@]
    } else {
        Seq::<Seq<char>>::empty()
    }) + (if l.disable_plugins {
        seq!["--disable-plugins"@]
    } else {
        Seq::<Seq<char>>::empty()
    }) + (if l.disable_images {
        seq!["--disable-images"@]
    } else {
        Seq::<Seq<char>>::empty()
    }) + (if l.disable_javascript {
        seq!["--disable-javascript"@]
    } else {
        Seq::<Seq<char>>::empty()
    }) + (match l.user_agent {
        Some(ua) => seq![spec_user_agent_flag(ua@)],
        None => Seq::<Seq<char>>::empty(),
    }) + (match l.proxy_server {
        Some(p) => seq![spec_proxy_server_flag(p@)],
        None => Seq::<Seq<char>>::empty(),
    }) + (match l.host_resolver_rules {
        Some(rules) => seq![spec_host_resolver_rules_flag(rules@)],
        None => Seq::<Seq<char>>::empty(),
    })
}

/// The close of the argument vector: the caller's raw flags verbatim, the
/// additional arguments verbatim, and the starting URL, always last.
pub open spec fn spec_tail_flags(l: Launcher) -> Seq<Seq<char>> {
    l.chrome_flags.deep_view() + l.additional_args.deep_view() + seq![l.starting_url@]
}

/// The full argument vector for a configuration, in emission order. No value
/// is escaped or validated; caller-supplied strings pass through unchanged.
pub open spec fn spec_flags(l: Launcher) -> Seq<Seq<char>> {
    spec_base_flags(l) + spec_mode_flags(l) + spec_content_flags(l) + spec_tail_flags(l)
}

/// Append one flag.
fn push_flag(flags: &mut Vec<String>, f: String)
    ensures
        final(flags).deep_view() == old(flags).deep_view() + seq![f@],
{
    let ghost pre = flags.deep_view();
    let ghost fv = f@;
    flags.push(f);
    proof {
        assert(flags.deep_view() =~= pre + seq![fv]);
    }
}

/// Append a list of flags verbatim, in order.
fn extend_flags(flags: &mut Vec<String>, more: &Vec<String>)
    ensures
        final(flags).deep_view() == old(flags).deep_view() + more.deep_view(),
{
    let ghost pre = flags.deep_view();
    proof {
        assert(pre + more.deep_view().take(0) =~= pre);
    }
    let mut k: usize = 0;
    while k < more.len()
        invariant
            k <= more@.len(),
            flags.deep_view() == pre + more.deep_view().take(k as int),
        decreases more@.len() - k,
    {
        let s = more[k].clone();
        push_flag(flags, s);
        proof {
            assert(more.deep_view().take(k + 1) =~= more.deep_view().take(k as int) + seq![
                more@[k as int]@,
            ]);
            assert(pre + more.deep_view().take(k as int) + seq![more@[k as int]@] =~= pre
                + more.deep_view().take(k + 1));
        }
        k = k + 1;
    }
    proof {
        assert(more.deep_view().take(more@.len() as int) =~= more.deep_view());
    }
}

/// A prefix flag with its literal value appended.
fn prefixed_flag(prefix: &str, value: &str) -> (r: String)
    ensures
        r@ == prefix@ + value@,
{
    let mut s = String::from_str(prefix);
    s.append(value);
    s
}

impl Launcher {
    /// Emit the opening flags.
    fn append_base_flags(&self, flags: &mut Vec<String>)
        ensures
            final(flags).deep_view() == old(flags).deep_view() + spec_base_flags(*self),
    {
        let ghost pre = flags.deep_view();
        // Baseline flag set unless suppressed
        if !self.ignore_default_flags {
            extend_flags(flags, &default_flags());
        }
        let ghost s0 = pre + (if self.ignore_default_flags {
            Seq::<Seq<char>>::empty()
        } else {
            spec_default_flags()
        });
        proof {
            assert(flags.deep_view() =~= s0);
        }

        // Remote debugging port, always, the configured value verbatim
        let mut pf = String::from_str("--remote-debugging-port=");
        let ds = u64_to_string(self.port as u64);
        pf.append(ds.as_str());
        push_flag(flags, pf);
        let ghost s1 = s0 + seq![spec_port_flag(self.port)];

        // Platform-conditional sandbox-disabling flag
        if !self.ignore_default_flags && matches!(self.platform, Platform::Linux) {
            push_flag(flags, String::from_str("--disable-setuid-sandbox"));
        }
        let ghost s2 = s1 + (if !self.ignore_default_flags && self.platform is Linux {
            seq!["--disable-setuid-sandbox"@]
        } else {
            Seq::<Seq<char>>::empty()
        });
        proof {
            assert(flags.deep_view() =~= s2);
        }

        // User data directory, always
        push_flag(flags, prefixed_flag("--user-data-dir=", self.user_data_dir.as_str()));
        proof {
            assert(flags.deep_view() =~= pre + spec_base_flags(*self));
        }
    }

    /// Emit the display-mode flags.
    #[verifier::rlimit(60)]
    fn append_display_flags(&self, flags: &mut Vec<String>)
        ensures
            final(flags).deep_view() == old(flags).deep_view() + spec_display_flags(*self),
    {
        let ghost pre = flags.deep_view();
        // Headless mode, requested or switched on through the environment
        if self.headless || self.headless_env {
            push_flag(flags, String::from_str("--headless"));
            push_flag(flags, String::from_str("--disable-gpu"));
        }
        let ghost s0 = pre + (if self.headless || self.headless_env {
            seq!["--headless"@, "--disable-gpu"@]
        } else {
            Seq::<Seq<char>>::empty()
        });
        proof {
            assert(flags.deep_view() =~= s0);
        }

        // Window size
        if let Some((w, h)) = self.window_size {
            let mut wf = String::from_str("--window-size=");
            let dw = u64_to_string(w as u64);
            wf.append(dw.as_str());
            wf.append(",");
            let dh = u64_to_string(h as u64);
            wf.append(dh.as_str());
            proof {
                assert(wf@ == spec_window_size_flag(w, h));
            }
            push_flag(flags, wf);
        }
        let ghost s1 = s0 + (match self.window_size {
            Some(ws) => seq![spec_window_size_flag(ws.0, ws.1)],
            None => Seq::<Seq<char>>::empty(),
        });
        proof {
            assert(flags.deep_view() =~= s1);
        }

        // Incognito mode
        if self.incognito {
            push_flag(flags, String::from_str("--incognito"));
        }
        let ghost s2 = s1 + (if self.incognito {
            seq!["--incognito"@]
        } else {
            Seq::<Seq<char>>::empty()
        });

        // GPU settings; headless above already carries its GPU-disable flag
        if self.disable_gpu && !self.headless {
            push_flag(flags, String::from_str("--disable-gpu"));
        }
        proof {
            assert(flags.deep_view() =~= pre + spec_display_flags(*self));
        }
    }

    /// Emit the security-mode flags.
    #[verifier::rlimit(60)]
    fn append_security_flags(&self, flags: &mut Vec<String>)
        ensures
            final(flags).deep_view() == old(flags).deep_view() + spec_security_flags(*self),
    {
        let ghost pre = flags.deep_view();
        // Sandbox settings
        if self.no_sandbox {
            push_flag(flags, String::from_str("--no-sandbox"));
        }
        let ghost s0 = pre + (if self.no_sandbox {
            seq!["--no-sandbox"@]
        } else {
            Seq::<Seq<char>>::empty()
        });

        // Security settings
        if self.disable_web_security {
            push_flag(flags, String::from_str("--disable-web-security"));
        }
        let ghost s1 = s0 + (if self.disable_web_security {
            seq!["--disable-web-security"@]
        } else {
            Seq::<Seq<char>>::empty()
        });
        proof {
            assert(flags.deep_view() =~= s1);
        }

        if self.allow_running_insecure_content {
            push_flag(flags, String::from_str("--allow-running-insecure-content"));
        }
        let ghost s2 = s1 + (if self.allow_running_insecure_content {
            seq!["--allow-running-insecure-content"@]
        } else {
            Seq::<Seq<char>>::empty()
        });

        if self.ignore_ssl_errors {
            push_flag(flags, String::from_str("--ignore-ssl-errors"));
            push_flag(flags, String::from_str("--ignore-certificate-errors"));
        }
        proof {
            assert(flags.deep_view() =~= pre + spec_security_flags(*self));
        }
    }

    /// Emit the mode flags.
    fn append_mode_flags(&self, flags: &mut Vec<String>)
        ensures
            final(flags).deep_view() == old(flags).deep_view() + spec_mode_flags(*self),
    {
        let ghost pre = flags.deep_view();
        self.append_display_flags(flags);
        self.append_security_flags(flags);
        proof {
            assert(flags.deep_view() =~= pre + spec_mode_flags(*self));
        }
    }

    /// Emit the content flags.
    #[verifier::rlimit(60)]
    fn append_content_flags(&self, flags: &mut Vec<String>)
        ensures
            final(flags).deep_view() == old(flags).deep_view() + spec_content_flags(*self),
    {
        let ghost pre = flags.deep_view();
        // Extension settings; the baseline already disables extensions
        if self.disable_extensions && !self.ignore_default_flags {
            push_flag(flags, String::from_str("--disable-extensions"));
        }
        let ghost s0 = pre + (if self.disable_extensions && !self.ignore_default_flags {
            seq!["--disable-extensions"@]
        } else {
            Seq::<Seq<char>>::empty()
        });
        proof {
            assert(flags.deep_view() =~= s0);
        }

        if self.disable_plugins {
            push_flag(flags, String::from_str("--disable-plugins"));
        }
        let ghost s1 = s0 + (if self.disable_plugins {
            seq!["--disable-plugins"@]
        } else {
            Seq::<Seq<char>>::empty()
        });

        // Content settings
        if self.disable_images {
            push_flag(flags, String::from_str("--disable-images"));
        }
        let ghost s2 = s1 + (if self.disable_images {
            seq!["--disable-images"@]
        } else {
            Seq::<Seq<char>>::empty()
        });
        proof {
            assert(flags.deep_view() =~= s2);
        }

        if self.disable_javascript {
            push_flag(flags, String::from_str("--disable-javascript"));
        }
        let ghost s3 = s2 + (if self.disable_javascript {
            seq!["--disable-javascript"@]
        } else {
            Seq::<Seq<char>>::empty()
        });

        // User agent
        if let Some(ua) = &self.user_agent {
            push_flag(flags, prefixed_flag("--user-agent=", ua.as_str()));
        }
        let ghost s4 = s3 + (match &self.user_agent {
            Some(ua) => seq![spec_user_agent_flag(ua@)],
            None => Seq::<Seq<char>>::empty(),
        });
        proof {
            assert(flags.deep_view() =~= s4);
        }

        // Proxy settings
        if let Some(proxy) = &self.proxy_server {
            push_flag(flags, prefixed_flag("--proxy-server=", proxy.as_str()));
        }
        let ghost s5 = s4 + (match &self.proxy_server {
            Some(p) => seq![spec_proxy_server_flag(p@)],
            None => Seq::<Seq<char>>::empty(),
        });

        // Host resolver rules
        if let Some(rules) = &self.host_resolver_rules {
            push_flag(flags, prefixed_flag("--host-resolver-rules=", rules.as_str()));
        }
        proof {
            assert(flags.deep_view() =~= pre + spec_content_flags(*self));
        }
    }

    /// Build the argument vector for this configuration. The result is a
    /// pure function of the configuration: the same configuration always
    /// yields the identical vector.
    pub fn get_flags(&self) -> (r: Vec<String>)
        ensures
            r.deep_view() == spec_flags(*self),
    {
        let mut flags: Vec<String> = Vec::new();
        proof {
            assert(flags.deep_view() =~= Seq::<Seq<char>>::empty());
        }
        self.append_base_flags(&mut flags);
        proof {
            assert(flags.deep_view() =~= spec_base_flags(*self));
        }
        self.append_mode_flags(&mut flags);
        self.append_content_flags(&mut flags);

        // Caller-supplied raw flags, then additional args, both verbatim
        extend_flags(&mut flags, &self.chrome_flags);
        extend_flags(&mut flags, &self.additional_args);

        // Starting URL, always last
        push_flag(&mut flags, self.starting_url.clone());
        proof {
            assert(flags.deep_view() =~= spec_flags(*self));
        }
        flags
    }
}

impl Launcher {
    /// Get the starting URL.
    pub fn get_starting_url(&self) -> (r: &str)
        ensures
            r@ == self.starting_url@,
    {
        self.starting_url.as_str()
    }

    /// Get the remote-debugging port.
    pub fn get_port(&self) -> (r: u16)
        ensures
            r == self.port,
    {
        self.port
    }

    /// Whether headless mode was requested in the options.
    pub fn is_headless(&self) -> (r: bool)
        ensures
            r == self.headless,
    {
        self.headless
    }

    /// Get the configured browser identity.
    pub fn get_browser_type(&self) -> (r: &BrowserType)
        ensures
            r == &self.browser_type,
    {
        &self.browser_type
    }

    /// The argument vector, exposed for inspection.
    pub fn get_flags_for_test(&self) -> (r: Vec<String>)
        ensures
            r.deep_view() == spec_flags(*self),
    {
        self.get_flags()
    }

    /// The argument vector, exposed for inspection.
    pub fn test_get_flags(&self) -> (r: Vec<String>)
        ensures
            r.deep_view() == spec_flags(*self),
    {
        self.get_flags()
    }

    /// The main configuration values in one tuple, for inspection.
    pub fn get_all_config(&self) -> (r: (
        &str,
        u16,
        bool,
        bool,
        bool,
        bool,
        bool,
        bool,
        bool,
        bool,
        bool,
        bool,
        &BrowserType,
        Option<&(u32, u32)>,
        &Vec<String>,
        &Vec<String>,
        &str,
    ))
        ensures
            r.0@ == self.starting_url@,
            r.1 == self.port,
            r.2 == self.headless,
            r.3 == self.incognito,
            r.4 == self.disable_gpu,
            r.5 == self.no_sandbox,
            r.6 == self.disable_web_security,
            r.7 == self.allow_running_insecure_content,
            r.8 == self.ignore_ssl_errors,
            r.9 == self.disable_extensions,
            r.10 == self.disable_plugins,
            r.11 == self.disable_images,
            r.12 == &self.browser_type,
            r.13 is Some <==> self.window_size is Some,
            r.13 matches Some(ws) ==> *ws == self.window_size->0,
            r.14 == &self.chrome_flags,
            r.15 == &self.additional_args,
            r.16@ == self.user_data_dir@,
    {
        (
            self.starting_url.as_str(),
            self.port,
            self.headless,
            self.incognito,
            self.disable_gpu,
            self.no_sandbox,
            self.disable_web_security,
            self.allow_running_insecure_content,
            self.ignore_ssl_errors,
            self.disable_extensions,
            self.disable_plugins,
            self.disable_images,
            &self.browser_type,
            match &self.window_size {
                Some(ws) => Some(ws),
                None => None,
            },
            &self.chrome_flags,
            &self.additional_args,
            self.user_data_dir.as_str(),
        )
    }

    /// Decide the executable path to launch. A pinned path wins outright,
    /// but a pinned path that does not exist on disk is a configuration
    /// error, never a fallback to resolution; without one, the configured
    /// identity is resolved against the host snapshot, and the resolved path
    /// is re-checked before it is accepted.
    pub fn get_chrome_path(&self, probe: &crate::probe::HostProbe) -> (r: Result<String, String>)
        ensures
            self.chrome_path matches Some(p) ==> {
                &&& (r matches Ok(q) ==> q == p)
                &&& (r matches Err(m) ==> m@ == "Specified browser path does not exist: "@ + p@)
            },
            self.chrome_path is None ==> {
                &&& (r matches Ok(q) ==> exists|j: int|
                    0 <= j < crate::finder::spec_candidates(self.browser_type, *probe).len() && (
                    #[trigger] crate::finder::spec_candidates(self.browser_type, *probe)[j]).path
                        == q@)
                &&& (r matches Err(m) ==> m@ == crate::browser::spec_name(self.browser_type)
                    + " browser not found on this system"@ || exists|j: int|
                    0 <= j < crate::finder::spec_candidates(self.browser_type, *probe).len() && m@
                        == "Browser executable not found: "@ + (
                    #[trigger] crate::finder::spec_candidates(self.browser_type, *probe)[j]).path)
            },
    {
        // A pinned path takes precedence over resolution
        if let Some(path) = &self.chrome_path {
            if crate::probe::path_exists(path.as_str()) {
                return Ok(path.clone());
            } else {
                let mut m = String::from_str("Specified browser path does not exist: ");
                m.append(path.as_str());
                return Err(m);
            }
        }
        let finder = crate::finder::BrowserFinder::new(vec![self.browser_type.clone()]);
        match finder.find_first(probe) {
            Some(browser) => {
                proof {
                    assert(finder.preferred_browsers@[0] == self.browser_type);
                }
                if browser.exists_on_disk() {
                    Ok(browser.executable_path)
                } else {
                    let mut m = String::from_str("Browser executable not found: ");
                    m.append(browser.executable_path.as_str());
                    Err(m)
                }
            },
            None => {
                let mut m = String::from_str(self.browser_type.name());
                m.append(" browser not found on this system");
                Err(m)
            },
        }
    }

    /// The path decision, exposed for inspection.
    pub fn test_get_chrome_path(&self, probe: &crate::probe::HostProbe) -> (r: Result<
        String,
        String,
    >)
        ensures
            self.chrome_path matches Some(p) ==> {
                &&& (r matches Ok(q) ==> q == p)
                &&& (r matches Err(m) ==> m@ == "Specified browser path does not exist: "@ + p@)
            },
    {
        self.get_chrome_path(probe)
    }
}

/// Law: the flag builder is a pure function. Two equal configurations yield
/// the same argument vector, so repeated builds from one configuration are
/// identical.
pub proof fn lemma_flag_builder_pure(a: Launcher, b: Launcher)
    requires
        a == b,
    ensures
        spec_flags(a) == spec_flags(b),
{
}

/// Law: the argument vector is never empty and its last element is always
/// exactly the configured starting URL.
pub proof fn lemma_last_flag_is_starting_url(l: Launcher)
    ensures
        spec_flags(l).len() > 0,
        spec_flags(l).last() == l.starting_url@,
{
    assert(spec_tail_flags(l).last() == l.starting_url@);
    assert(spec_flags(l).last() == spec_tail_flags(l).last());
}

/// Law: whatever the configuration — the baseline suppressed or not — the
/// remote-debugging-port flag and the user-data-dir flag are always emitted.
pub proof fn lemma_required_flags_present(l: Launcher)
    ensures
        spec_flags(l).contains(spec_port_flag(l.port)),
        spec_flags(l).contains(spec_user_data_dir_flag(l.user_data_dir@)),
{
    let base = spec_base_flags(l);
    let d: int = if l.ignore_default_flags {
        0
    } else {
        19
    };
    assert(spec_default_flags().len() == 19);
    assert(base[d] == spec_port_flag(l.port));
    let c: int = if !l.ignore_default_flags && l.platform is Linux {
        1
    } else {
        0
    };
    assert(base[d + 1 + c] == spec_user_data_dir_flag(l.user_data_dir@));
    assert(spec_flags(l)[d] == spec_port_flag(l.port));
    assert(spec_flags(l)[d + 1 + c] == spec_user_data_dir_flag(l.user_data_dir@));
    assert(spec_flags(l).contains(spec_port_flag(l.port)));
    assert(spec_flags(l).contains(spec_user_data_dir_flag(l.user_data_dir@)));
}

/// No element of `s` is one of the baseline flags.
pub open spec fn spec_no_baseline(s: Seq<Seq<char>>) -> bool {
    forall|i: int| 0 <= i < s.len() ==> !spec_default_flags().contains(#[trigger] s[i])
}

proof fn lemma_no_baseline_concat(a: Seq<Seq<char>>, b: Seq<Seq<char>>)
    requires
        spec_no_baseline(a),
        spec_no_baseline(b),
    ensures
        spec_no_baseline(a + b),
{
    assert forall|i: int| 0 <= i < (a + b).len() implies !spec_default_flags().contains(
        #[trigger] (a + b)[i],
    ) by {
        if i < a.len() {
            assert((a + b)[i] == a[i]);
        } else {
            assert((a + b)[i] == b[i - a.len()]);
        }
    }
}

proof fn lemma_seq_ne_at(a: Seq<char>, b: Seq<char>, i: int)
    requires
        0 <= i < a.len(),
        0 <= i < b.len(),
        a[i] != b[i],
    ensures
        a != b,
{
}

/// No baseline flag opens with these prefixes: anything of the shape
/// `prefix + value` stays off the baseline list. The conditions pin the few
/// characters that tell the prefix apart from every baseline flag.
proof fn lemma_prefixed_not_baseline(x: Seq<char>)
    requires
        x.len() > 5,
        x[2] != 'd',
        x[2] != 'm',
        x[2] != 'n',
        x[2] != 'f',
        x[2] == 'p' ==> x[3] != 'a',
        x[2] == 'u' ==> x[5] != '-',
    ensures
        !spec_default_flags().contains(x),
{
    reveal_strlit("--disable-features=Translate");
    reveal_strlit("--disable-extensions");
    reveal_strlit("--disable-component-extensions-with-background-pages");
    reveal_strlit("--disable-background-networking");
    reveal_strlit("--disable-component-update");
    reveal_strlit("--disable-client-side-phishing-detection");
    reveal_strlit("--disable-sync");
    reveal_strlit("--metrics-recording-only");
    reveal_strlit("--disable-default-apps");
    reveal_strlit("--mute-audio");
    reveal_strlit("--no-default-browser-check");
    reveal_strlit("--no-first-run");
    reveal_strlit("--disable-backgrounding-occluded-windows");
    reveal_strlit("--disable-renderer-backgrounding");
    reveal_strlit("--disable-background-timer-throttling");
    reveal_strlit("--disable-ipc-flooding-protection");
    reveal_strlit("--password-store=basic");
    reveal_strlit("--use-mock-keychain");
    reveal_strlit("--force-fieldtrials=*BackgroundTracing/default/");
    if spec_default_flags().contains(x) {
        let k = choose|k: int|
            0 <= k < spec_default_flags().len() && spec_default_flags()[k] == x;
        lemma_seq_ne_at(spec_default_flags()[16], x, if x[2] == 'p' {
            3
        } else {
            2
        });
        lemma_seq_ne_at(spec_default_flags()[17], x, if x[2] == 'u' {
            5
        } else {
            2
        });
        assert forall|m: int| 0 <= m < 19 && m != 16 && m != 17 implies spec_default_flags()[m]
            != x by {
            lemma_seq_ne_at(spec_default_flags()[m], x, 2);
        }
    }
}

/// `--headless` is not one of the baseline flags.
proof fn lemma_headless_not_baseline()
    ensures
        !spec_default_flags().contains("--headless"@),
{
    reveal_strlit("--disable-features=Translate");
    reveal_strlit("--disable-extensions");
    reveal_strlit("--disable-component-extensions-with-background-pages");
    reveal_strlit("--disable-background-networking");
    reveal_strlit("--disable-component-update");
    reveal_strlit("--disable-client-side-phishing-detection");
    reveal_strlit("--disable-sync");
    reveal_strlit("--metrics-recording-only");
    reveal_strlit("--disable-default-apps");
    reveal_strlit("--mute-audio");
    reveal_strlit("--no-default-browser-check");
    reveal_strlit("--no-first-run");
    reveal_strlit("--disable-backgrounding-occluded-windows");
    reveal_strlit("--disable-renderer-backgrounding");
    reveal_strlit("--disable-background-timer-throttling");
    reveal_strlit("--disable-ipc-flooding-protection");
    reveal_strlit("--password-store=basic");
    reveal_strlit("--use-mock-keychain");
    reveal_strlit("--force-fieldtrials=*BackgroundTracing/default/");
    reveal_strlit("--headless");
    if spec_default_flags().contains("--headless"@) {
        let k = choose|k: int|
            0 <= k < spec_default_flags().len() && spec_default_flags()[k] == "--headless"@;
        assert(spec_default_flags()[k].len() == "--headless"@.len());
        assert(false);
    }
}

/// `--disable-gpu` is not one of the baseline flags.
proof fn lemma_disable_gpu_not_baseline()
    ensures
        !spec_default_flags().contains("--disable-gpu"@),
{
    reveal_strlit("--disable-features=Translate");
    reveal_strlit("--disable-extensions");
    reveal_strlit("--disable-component-extensions-with-background-pages");
    reveal_strlit("--disable-background-networking");
    reveal_strlit("--disable-component-update");
    reveal_strlit("--disable-client-side-phishing-detection");
    reveal_strlit("--disable-sync");
    reveal_strlit("--metrics-recording-only");
    reveal_strlit("--disable-default-apps");
    reveal_strlit("--mute-audio");
    reveal_strlit("--no-default-browser-check");
    reveal_strlit("--no-first-run");
    reveal_strlit("--disable-backgrounding-occluded-windows");
    reveal_strlit("--disable-renderer-backgrounding");
    reveal_strlit("--disable-background-timer-throttling");
    reveal_strlit("--disable-ipc-flooding-protection");
    reveal_strlit("--password-store=basic");
    reveal_strlit("--use-mock-keychain");
    reveal_strlit("--force-fieldtrials=*BackgroundTracing/default/");
    reveal_strlit("--disable-gpu");
    if spec_default_flags().contains("--disable-gpu"@) {
        let k = choose|k: int|
            0 <= k < spec_default_flags().len() && spec_default_flags()[k] == "--disable-gpu"@;
        assert(spec_default_flags()[k].len() == "--disable-gpu"@.len());
        assert(false);
    }
}

/// `--incognito` is not one of the baseline flags.
proof fn lemma_incognito_not_baseline()
    ensures
        !spec_default_flags().contains("--incognito"@),
{
    reveal_strlit("--disable-features=Translate");
    reveal_strlit("--disable-extensions");
    reveal_strlit("--disable-component-extensions-with-background-pages");
    reveal_strlit("--disable-background-networking");
    reveal_strlit("--disable-component-update");
    reveal_strlit("--disable-client-side-phishing-detection");
    reveal_strlit("--disable-sync");
    reveal_strlit("--metrics-recording-only");
    reveal_strlit("--disable-default-apps");
    reveal_strlit("--mute-audio");
    reveal_strlit("--no-default-browser-check");
    reveal_strlit("--no-first-run");
    reveal_strlit("--disable-backgrounding-occluded-windows");
    reveal_strlit("--disable-renderer-backgrounding");
    reveal_strlit("--disable-background-timer-throttling");
    reveal_strlit("--disable-ipc-flooding-protection");
    reveal_strlit("--password-store=basic");
    reveal_strlit("--use-mock-keychain");
    reveal_strlit("--force-fieldtrials=*BackgroundTracing/default/");
    reveal_strlit("--incognito");
    if spec_default_flags().contains("--incognito"@) {
        let k = choose|k: int|
            0 <= k < spec_default_flags().len() && spec_default_flags()[k] == "--incognito"@;
        assert(spec_default_flags()[k].len() == "--incognito"@.len());
        assert(false);
    }
}

/// `--no-sandbox` is not one of the baseline flags.
proof fn lemma_no_sandbox_not_baseline()
    ensures
        !spec_default_flags().contains("--no-sandbox"@),
{
    reveal_strlit("--disable-features=Translate");
    reveal_strlit("--disable-extensions");
    reveal_strlit("--disable-component-extensions-with-background-pages");
    reveal_strlit("--disable-background-networking");
    reveal_strlit("--disable-component-update");
    reveal_strlit("--disable-client-side-phishing-detection");
    reveal_strlit("--disable-sync");
    reveal_strlit("--metrics-recording-only");
    reveal_strlit("--disable-default-apps");
    reveal_strlit("--mute-audio");
    reveal_strlit("--no-default-browser-check");
    reveal_strlit("--no-first-run");
    reveal_strlit("--disable-backgrounding-occluded-windows");
    reveal_strlit("--disable-renderer-backgrounding");
    reveal_strlit("--disable-background-timer-throttling");
    reveal_strlit("--disable-ipc-flooding-protection");
    reveal_strlit("--password-store=basic");
    reveal_strlit("--use-mock-keychain");
    reveal_strlit("--force-fieldtrials=*BackgroundTracing/default/");
    reveal_strlit("--no-sandbox");
    if spec_default_flags().contains("--no-sandbox"@) {
        let k = choose|k: int|
            0 <= k < spec_default_flags().len() && spec_default_flags()[k] == "--no-sandbox"@;
        assert(spec_default_flags()[k].len() == "--no-sandbox"@.len());
        lemma_seq_ne_at(spec_default_flags()[9], "--no-sandbox"@, 2);
        assert(false);
    }
}

/// `--disable-web-security` is not one of the baseline flags.
proof fn lemma_disable_web_security_not_baseline()
    ensures
        !spec_default_flags().contains("--disable-web-security"@),
{
    reveal_strlit("--disable-features=Translate");
    reveal_strlit("--disable-extensions");
    reveal_strlit("--disable-component-extensions-with-background-pages");
    reveal_strlit("--disable-background-networking");
    reveal_strlit("--disable-component-update");
    reveal_strlit("--disable-client-side-phishing-detection");
    reveal_strlit("--disable-sync");
    reveal_strlit("--metrics-recording-only");
    reveal_strlit("--disable-default-apps");
    reveal_strlit("--mute-audio");
    reveal_strlit("--no-default-browser-check");
    reveal_strlit("--no-first-run");
    reveal_strlit("--disable-backgrounding-occluded-windows");
    reveal_strlit("--disable-renderer-backgrounding");
    reveal_strlit("--disable-background-timer-throttling");
    reveal_strlit("--disable-ipc-flooding-protection");
    reveal_strlit("--password-store=basic");
    reveal_strlit("--use-mock-keychain");
    reveal_strlit("--force-fieldtrials=*BackgroundTracing/default/");
    reveal_strlit("--disable-web-security");
    if spec_default_flags().contains("--disable-web-security"@) {
        let k = choose|k: int|
            0 <= k < spec_default_flags().len() && spec_default_flags()[k] == "--disable-web-security"@;
        assert(spec_default_flags()[k].len() == "--disable-web-security"@.len());
        lemma_seq_ne_at(spec_default_flags()[8], "--disable-web-security"@, 10);
        lemma_seq_ne_at(spec_default_flags()[16], "--disable-web-security"@, 2);
        assert(false);
    }
}

/// `--allow-running-insecure-content` is not one of the baseline flags.
proof fn lemma_allow_running_insecure_content_not_baseline()
    ensures
        !spec_default_flags().contains("--allow-running-insecure-content"@),
{
    reveal_strlit("--disable-features=Translate");
    reveal_strlit("--disable-extensions");
    reveal_strlit("--disable-component-extensions-with-background-pages");
    reveal_strlit("--disable-background-networking");
    reveal_strlit("--disable-component-update");
    reveal_strlit("--disable-client-side-phishing-detection");
    reveal_strlit("--disable-sync");
    reveal_strlit("--metrics-recording-only");
    reveal_strlit("--disable-default-apps");
    reveal_strlit("--mute-audio");
    reveal_strlit("--no-default-browser-check");
    reveal_strlit("--no-first-run");
    reveal_strlit("--disable-backgrounding-occluded-windows");
    reveal_strlit("--disable-renderer-backgrounding");
    reveal_strlit("--disable-background-timer-throttling");
    reveal_strlit("--disable-ipc-flooding-protection");
    reveal_strlit("--password-store=basic");
    reveal_strlit("--use-mock-keychain");
    reveal_strlit("--force-fieldtrials=*BackgroundTracing/default/");
    reveal_strlit("--allow-running-insecure-content");
    if spec_default_flags().contains("--allow-running-insecure-content"@) {
        let k = choose|k: int|
            0 <= k < spec_default_flags().len() && spec_default_flags()[k] == "--allow-running-insecure-content"@;
        assert(spec_default_flags()[k].len() == "--allow-running-insecure-content"@.len());
        lemma_seq_ne_at(spec_default_flags()[13], "--allow-running-insecure-content"@, 2);
        assert(false);
    }
}

/// `--ignore-ssl-errors` is not one of the baseline flags.
proof fn lemma_ignore_ssl_errors_not_baseline()
    ensures
        !spec_default_flags().contains("--ignore-ssl-errors"@),
{
    reveal_strlit("--disable-features=Translate");
    reveal_strlit("--disable-extensions");
    reveal_strlit("--disable-component-extensions-with-background-pages");
    reveal_strlit("--disable-background-networking");
    reveal_strlit("--disable-component-update");
    reveal_strlit("--disable-client-side-phishing-detection");
    reveal_strlit("--disable-sync");
    reveal_strlit("--metrics-recording-only");
    reveal_strlit("--disable-default-apps");
    reveal_strlit("--mute-audio");
    reveal_strlit("--no-default-browser-check");
    reveal_strlit("--no-first-run");
    reveal_strlit("--disable-backgrounding-occluded-windows");
    reveal_strlit("--disable-renderer-backgrounding");
    reveal_strlit("--disable-background-timer-throttling");
    reveal_strlit("--disable-ipc-flooding-protection");
    reveal_strlit("--password-store=basic");
    reveal_strlit("--use-mock-keychain");
    reveal_strlit("--force-fieldtrials=*BackgroundTracing/default/");
    reveal_strlit("--ignore-ssl-errors");
    if spec_default_flags().contains("--ignore-ssl-errors"@) {
        let k = choose|k: int|
            0 <= k < spec_default_flags().len() && spec_default_flags()[k] == "--ignore-ssl-errors"@;
        assert(spec_default_flags()[k].len() == "--ignore-ssl-errors"@.len());
        lemma_seq_ne_at(spec_default_flags()[17], "--ignore-ssl-errors"@, 2);
        assert(false);
    }
}

/// `--ignore-certificate-errors` is not one of the baseline flags.
proof fn lemma_ignore_certificate_errors_not_baseline()
    ensures
        !spec_default_flags().contains("--ignore-certificate-errors"@),
{
    reveal_strlit("--disable-features=Translate");
    reveal_strlit("--disable-extensions");
    reveal_strlit("--disable-component-extensions-with-background-pages");
    reveal_strlit("--disable-background-networking");
    reveal_strlit("--disable-component-update");
    reveal_strlit("--disable-client-side-phishing-detection");
    reveal_strlit("--disable-sync");
    reveal_strlit("--metrics-recording-only");
    reveal_strlit("--disable-default-apps");
    reveal_strlit("--mute-audio");
    reveal_strlit("--no-default-browser-check");
    reveal_strlit("--no-first-run");
    reveal_strlit("--disable-backgrounding-occluded-windows");
    reveal_strlit("--disable-renderer-backgrounding");
    reveal_strlit("--disable-background-timer-throttling");
    reveal_strlit("--disable-ipc-flooding-protection");
    reveal_strlit("--password-store=basic");
    reveal_strlit("--use-mock-keychain");
    reveal_strlit("--force-fieldtrials=*BackgroundTracing/default/");
    reveal_strlit("--ignore-certificate-errors");
    if spec_default_flags().contains("--ignore-certificate-errors"@) {
        let k = choose|k: int|
            0 <= k < spec_default_flags().len() && spec_default_flags()[k] == "--ignore-certificate-errors"@;
        assert(spec_default_flags()[k].len() == "--ignore-certificate-errors"@.len());
        assert(false);
    }
}

/// `--disable-plugins` is not one of the baseline flags.
proof fn lemma_disable_plugins_not_baseline()
    ensures
        !spec_default_flags().contains("--disable-plugins"@),
{
    reveal_strlit("--disable-features=Translate");
    reveal_strlit("--disable-extensions");
    reveal_strlit("--disable-component-extensions-with-background-pages");
    reveal_strlit("--disable-background-networking");
    reveal_strlit("--disable-component-update");
    reveal_strlit("--disable-client-side-phishing-detection");
    reveal_strlit("--disable-sync");
    reveal_strlit("--metrics-recording-only");
    reveal_strlit("--disable-default-apps");
    reveal_strlit("--mute-audio");
    reveal_strlit("--no-default-browser-check");
    reveal_strlit("--no-first-run");
    reveal_strlit("--disable-backgrounding-occluded-windows");
    reveal_strlit("--disable-renderer-backgrounding");
    reveal_strlit("--disable-background-timer-throttling");
    reveal_strlit("--disable-ipc-flooding-protection");
    reveal_strlit("--password-store=basic");
    reveal_strlit("--use-mock-keychain");
    reveal_strlit("--force-fieldtrials=*BackgroundTracing/default/");
    reveal_strlit("--disable-plugins");
    if spec_default_flags().contains("--disable-plugins"@) {
        let k = choose|k: int|
            0 <= k < spec_default_flags().len() && spec_default_flags()[k] == "--disable-plugins"@;
        assert(spec_default_flags()[k].len() == "--disable-plugins"@.len());
        assert(false);
    }
}

/// `--disable-images` is not one of the baseline flags.
proof fn lemma_disable_images_not_baseline()
    ensures
        !spec_default_flags().contains("--disable-images"@),
{
    reveal_strlit("--disable-features=Translate");
    reveal_strlit("--disable-extensions");
    reveal_strlit("--disable-component-extensions-with-background-pages");
    reveal_strlit("--disable-background-networking");
    reveal_strlit("--disable-component-update");
    reveal_strlit("--disable-client-side-phishing-detection");
    reveal_strlit("--disable-sync");
    reveal_strlit("--metrics-recording-only");
    reveal_strlit("--disable-default-apps");
    reveal_strlit("--mute-audio");
    reveal_strlit("--no-default-browser-check");
    reveal_strlit("--no-first-run");
    reveal_strlit("--disable-backgrounding-occluded-windows");
    reveal_strlit("--disable-renderer-backgrounding");
    reveal_strlit("--disable-background-timer-throttling");
    reveal_strlit("--disable-ipc-flooding-protection");
    reveal_strlit("--password-store=basic");
    reveal_strlit("--use-mock-keychain");
    reveal_strlit("--force-fieldtrials=*BackgroundTracing/default/");
    reveal_strlit("--disable-images");
    if spec_default_flags().contains("--disable-images"@) {
        let k = choose|k: int|
            0 <= k < spec_default_flags().len() && spec_default_flags()[k] == "--disable-images"@;
        assert(spec_default_flags()[k].len() == "--disable-images"@.len());
        assert(false);
    }
}

/// `--disable-javascript` is not one of the baseline flags.
proof fn lemma_disable_javascript_not_baseline()
    ensures
        !spec_default_flags().contains("--disable-javascript"@),
{
    reveal_strlit("--disable-features=Translate");
    reveal_strlit("--disable-extensions");
    reveal_strlit("--disable-component-extensions-with-background-pages");
    reveal_strlit("--disable-background-networking");
    reveal_strlit("--disable-component-update");
    reveal_strlit("--disable-client-side-phishing-detection");
    reveal_strlit("--disable-sync");
    reveal_strlit("--metrics-recording-only");
    reveal_strlit("--disable-default-apps");
    reveal_strlit("--mute-audio");
    reveal_strlit("--no-default-browser-check");
    reveal_strlit("--no-first-run");
    reveal_strlit("--disable-backgrounding-occluded-windows");
    reveal_strlit("--disable-renderer-backgrounding");
    reveal_strlit("--disable-background-timer-throttling");
    reveal_strlit("--disable-ipc-flooding-protection");
    reveal_strlit("--password-store=basic");
    reveal_strlit("--use-mock-keychain");
    reveal_strlit("--force-fieldtrials=*BackgroundTracing/default/");
    reveal_strlit("--disable-javascript");
    if spec_default_flags().contains("--disable-javascript"@) {
        let k = choose|k: int|
            0 <= k < spec_default_flags().len() && spec_default_flags()[k] == "--disable-javascript"@;
        assert(spec_default_flags()[k].len() == "--disable-javascript"@.len());
        lemma_seq_ne_at(spec_default_flags()[1], "--disable-javascript"@, 10);
        assert(false);
    }
}

/// With the baseline suppressed, its opening flags are off the baseline
/// list.
proof fn lemma_no_baseline_base(l: Launcher)
    requires
        l.ignore_default_flags,
    ensures
        spec_no_baseline(spec_base_flags(l)),
{
    reveal_strlit("--remote-debugging-port=");
    reveal_strlit("--user-data-dir=");
    lemma_prefixed_not_baseline(spec_port_flag(l.port));
    lemma_prefixed_not_baseline(spec_user_data_dir_flag(l.user_data_dir@));
    let e = Seq::<Seq<char>>::empty();
    lemma_no_baseline_concat(e, seq![spec_port_flag(l.port)]);
    lemma_no_baseline_concat(e + seq![spec_port_flag(l.port)], e);
    lemma_no_baseline_concat(
        e + seq![spec_port_flag(l.port)] + e,
        seq![spec_user_data_dir_flag(l.user_data_dir@)],
    );
}

/// The display-mode flags are off the baseline list.
proof fn lemma_no_baseline_display(l: Launcher)
    ensures
        spec_no_baseline(spec_display_flags(l)),
{
    lemma_headless_not_baseline();
    lemma_disable_gpu_not_baseline();
    lemma_incognito_not_baseline();
    reveal_strlit("--window-size=");
    let h = (if l.headless || l.headless_env {
        seq!["--headless"@, "--disable-gpu"@]
    } else {
        Seq::<Seq<char>>::empty()
    });
    let w = (match l.window_size {
        Some(ws) => seq![spec_window_size_flag(ws.0, ws.1)],
        None => Seq::<Seq<char>>::empty(),
    });
    let inc = (if l.incognito {
        seq!["--incognito"@]
    } else {
        Seq::<Seq<char>>::empty()
    });
    let g = (if l.disable_gpu && !l.headless {
        seq!["--disable-gpu"@]
    } else {
        Seq::<Seq<char>>::empty()
    });
    if l.window_size is Some {
        lemma_prefixed_not_baseline(
            spec_window_size_flag((l.window_size->0).0, (l.window_size->0).1),
        );
    }
    assert(spec_no_baseline(h));
    assert(spec_no_baseline(w));
    assert(spec_no_baseline(inc));
    assert(spec_no_baseline(g));
    lemma_no_baseline_concat(h, w);
    lemma_no_baseline_concat(h + w, inc);
    lemma_no_baseline_concat(h + w + inc, g);
}

/// The security-mode flags are off the baseline list.
proof fn lemma_no_baseline_security(l: Launcher)
    ensures
        spec_no_baseline(spec_security_flags(l)),
{
    lemma_no_sandbox_not_baseline();
    lemma_disable_web_security_not_baseline();
    lemma_allow_running_insecure_content_not_baseline();
    lemma_ignore_ssl_errors_not_baseline();
    lemma_ignore_certificate_errors_not_baseline();
    let ns = (if l.no_sandbox {
        seq!["--no-sandbox"@]
    } else {
        Seq::<Seq<char>>::empty()
    });
    let ws = (if l.disable_web_security {
        seq!["--disable-web-security"@]
    } else {
        Seq::<Seq<char>>::empty()
    });
    let ic = (if l.allow_running_insecure_content {
        seq!["--allow-running-insecure-content"@]
    } else {
        Seq::<Seq<char>>::empty()
    });
    let ssl = (if l.ignore_ssl_errors {
        seq!["--ignore-ssl-errors"@, "--ignore-certificate-errors"@]
    } else {
        Seq::<Seq<char>>::empty()
    });
    assert(spec_no_baseline(ns));
    assert(spec_no_baseline(ws));
    assert(spec_no_baseline(ic));
    assert(spec_no_baseline(ssl));
    lemma_no_baseline_concat(ns, ws);
    lemma_no_baseline_concat(ns + ws, ic);
    lemma_no_baseline_concat(ns + ws + ic, ssl);
}

/// With the baseline suppressed, the content flags are off the baseline
/// list: the extensions switch, the one content flag that coincides with a
/// baseline flag, is not emitted then.
proof fn lemma_no_baseline_content(l: Launcher)
    requires
        l.ignore_default_flags,
    ensures
        spec_no_baseline(spec_content_flags(l)),
{
    lemma_disable_plugins_not_baseline();
    lemma_disable_images_not_baseline();
    lemma_disable_javascript_not_baseline();
    reveal_strlit("--user-agent=");
    reveal_strlit("--proxy-server=");
    reveal_strlit("--host-resolver-rules=");
    if l.user_agent is Some {
        lemma_prefixed_not_baseline(spec_user_agent_flag(l.user_agent->0@));
    }
    if l.proxy_server is Some {
        lemma_prefixed_not_baseline(spec_proxy_server_flag(l.proxy_server->0@));
    }
    if l.host_resolver_rules is Some {
        lemma_prefixed_not_baseline(spec_host_resolver_rules_flag(l.host_resolver_rules->0@));
    }
    let e = Seq::<Seq<char>>::empty();
    let pl = (if l.disable_plugins {
        seq!["--disable-plugins"@]
    } else {
        Seq::<Seq<char>>::empty()
    });
    let im = (if l.disable_images {
        seq!["--disable-images"@]
    } else {
        Seq::<Seq<char>>::empty()
    });
    let js = (if l.disable_javascript {
        seq!["--disable-javascript"@]
    } else {
        Seq::<Seq<char>>::empty()
    });
    let ua = (match &l.user_agent {
        Some(u) => seq![spec_user_agent_flag(u@)],
        None => Seq::<Seq<char>>::empty(),
    });
    let px = (match &l.proxy_server {
        Some(p) => seq![spec_proxy_server_flag(p@)],
        None => Seq::<Seq<char>>::empty(),
    });
    let hr = (match &l.host_resolver_rules {
        Some(h) => seq![spec_host_resolver_rules_flag(h@)],
        None => Seq::<Seq<char>>::empty(),
    });
    assert(spec_no_baseline(pl));
    assert(spec_no_baseline(im));
    assert(spec_no_baseline(js));
    assert(spec_no_baseline(ua));
    assert(spec_no_baseline(px));
    assert(spec_no_baseline(hr));
    lemma_no_baseline_concat(e, pl);
    lemma_no_baseline_concat(e + pl, im);
    lemma_no_baseline_concat(e + pl + im, js);
    lemma_no_baseline_concat(e + pl + im + js, ua);
    lemma_no_baseline_concat(e + pl + im + js + ua, px);
    lemma_no_baseline_concat(e + pl + im + js + ua + px, hr);
}

/// Law: with the baseline suppressed, no baseline flag is emitted — as long
/// as the caller's own verbatim inputs (raw flags, additional arguments, the
/// starting URL) do not themselves repeat one — while the port and
/// user-data-dir flags are still always emitted
/// (`lemma_required_flags_present`).
pub proof fn lemma_ignore_default_flags_suppresses_baseline(l: Launcher)
    requires
        l.ignore_default_flags,
        spec_no_baseline(l.chrome_flags.deep_view()),
        spec_no_baseline(l.additional_args.deep_view()),
        !spec_default_flags().contains(l.starting_url@),
    ensures
        spec_no_baseline(spec_flags(l)),
{
    lemma_no_baseline_base(l);
    lemma_no_baseline_display(l);
    lemma_no_baseline_security(l);
    lemma_no_baseline_content(l);
    lemma_no_baseline_concat(spec_display_flags(l), spec_security_flags(l));
    assert(spec_no_baseline(seq![l.starting_url@]));
    lemma_no_baseline_concat(l.chrome_flags.deep_view(), l.additional_args.deep_view());
    lemma_no_baseline_concat(
        l.chrome_flags.deep_view() + l.additional_args.deep_view(),
        seq![l.starting_url@],
    );
    lemma_no_baseline_concat(spec_base_flags(l), spec_mode_flags(l));
    lemma_no_baseline_concat(spec_base_flags(l) + spec_mode_flags(l), spec_content_flags(l));
    lemma_no_baseline_concat(
        spec_base_flags(l) + spec_mode_flags(l) + spec_content_flags(l),
        spec_tail_flags(l),
    );
}

} // verus!
