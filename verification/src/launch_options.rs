//! Launch configuration and command-line construction.
//!
//! The way the browser is run: headless or not, sandboxed or not, window
//! size, debugging port, executable path, extensions, extra flags.  From a
//! configuration the library builds the exact argument list the child is
//! spawned with, one variant per communication mode: protocol-over-pipe and
//! protocol-over-network.

use vstd::prelude::*;
use crate::wire::dec_str;
use crate::wire::u64_to_dec;

verus! {

/// How the browser is to be launched.  By default it runs headless, in a
/// sandbox, with an auto-selected debugging port and an auto-discovered
/// executable.
pub struct LaunchOptions {
    /// Run the headless build of the browser.
    pub headless: bool,
    /// Keep the browser sandbox on.
    pub sandbox: bool,
    /// A fixed window width and height.
    pub window_size: Option<(u32, u32)>,
    /// A user-pinned debugging port; auto-selected when absent.
    pub port: Option<u16>,
    /// The path of the executable; discovered by the embedding when absent.
    pub path: Option<String>,
    /// Extension directories to load.
    pub extensions: Vec<String>,
    /// Additional arguments for the browser.
    pub args: Vec<String>,
    /// How long to keep an idle connection to the browser, in milliseconds.
    pub idle_browser_timeout_ms: u64,
    /// Environment variables to set for the child.
    pub process_envs: Option<Vec<(String, String)>>,
}

/// Builds a [`LaunchOptions`], starting from the defaults.
pub struct LaunchOptionsBuilder {
    pub options: LaunchOptions,
}

impl LaunchOptions {
    /// The default configuration: headless, sandboxed, everything else
    /// unset, idle timeout five minutes.
    pub fn default_builder() -> (r: LaunchOptionsBuilder)
        ensures
            r.options.headless == true,
            r.options.sandbox == true,
            r.options.window_size is None,
            r.options.port is None,
            r.options.path is None,
            r.options.extensions@.len() == 0,
            r.options.args@.len() == 0,
            r.options.idle_browser_timeout_ms == 300_000,
            r.options.process_envs is None,
    {
        LaunchOptionsBuilder {
            options: LaunchOptions {
                headless: true,
                sandbox: true,
                window_size: None,
                port: None,
                path: None,
                extensions: Vec::new(),
                args: Vec::new(),
                idle_browser_timeout_ms: 300_000,
                process_envs: None,
            },
        }
    }
}

impl LaunchOptionsBuilder {
    /// Choose headless or windowed mode.
    pub fn headless(self, v: bool) -> (r: Self)
        ensures
            r.options == (LaunchOptions { headless: v, ..self.options }),
    {
        LaunchOptionsBuilder { options: LaunchOptions { headless: v, ..self.options } }
    }

    /// Switch the browser sandbox on or off.
    pub fn sandbox(self, v: bool) -> (r: Self)
        ensures
            r.options == (LaunchOptions { sandbox: v, ..self.options }),
    {
        LaunchOptionsBuilder { options: LaunchOptions { sandbox: v, ..self.options } }
    }

    /// Fix the window size.
    pub fn window_size(self, v: Option<(u32, u32)>) -> (r: Self)
        ensures
            r.options == (LaunchOptions { window_size: v, ..self.options }),
    {
        LaunchOptionsBuilder { options: LaunchOptions { window_size: v, ..self.options } }
    }

    /// Pin the debugging port.
    pub fn port(self, v: Option<u16>) -> (r: Self)
        ensures
            r.options == (LaunchOptions { port: v, ..self.options }),
    {
        LaunchOptionsBuilder { options: LaunchOptions { port: v, ..self.options } }
    }

    /// Fix the executable path.
    pub fn path(self, v: Option<String>) -> (r: Self)
        ensures
            r.options == (LaunchOptions { path: v, ..self.options }),
    {
        LaunchOptionsBuilder { options: LaunchOptions { path: v, ..self.options } }
    }

    /// Load these extension directories.
    pub fn extensions(self, v: Vec<String>) -> (r: Self)
        ensures
            r.options == (LaunchOptions { extensions: v, ..self.options }),
    {
        LaunchOptionsBuilder { options: LaunchOptions { extensions: v, ..self.options } }
    }

    /// Pass these additional arguments to the browser.
    pub fn args(self, v: Vec<String>) -> (r: Self)
        ensures
            r.options == (LaunchOptions { args: v, ..self.options }),
    {
        LaunchOptionsBuilder { options: LaunchOptions { args: v, ..self.options } }
    }

    /// Set the idle-connection timeout, in milliseconds.
    pub fn idle_browser_timeout_ms(self, v: u64) -> (r: Self)
        ensures
            r.options == (LaunchOptions { idle_browser_timeout_ms: v, ..self.options }),
    {
        LaunchOptionsBuilder { options: LaunchOptions { idle_browser_timeout_ms: v, ..self.options } }
    }

    /// Set environment variables for the child.
    pub fn process_envs(self, v: Option<Vec<(String, String)>>) -> (r: Self)
        ensures
            r.options == (LaunchOptions { process_envs: v, ..self.options }),
    {
        LaunchOptionsBuilder { options: LaunchOptions { process_envs: v, ..self.options } }
    }

    /// Hand the finished configuration out.
    pub fn build(self) -> (r: LaunchOptions)
        ensures
            r == self.options,
    {
        self.options
    }
}

/// The baseline flag set every launch passes to the browser: telemetry,
/// background throttling, first-run prompts and the like, all switched off.
pub open spec fn spec_default_args() -> Seq<Seq<char>> {
    seq![
        "--disable-background-networking"@,
        "--enable-features=NetworkService,NetworkServiceInProcess"@,
        "--disable-background-timer-throttling"@,
        "--disable-backgrounding-occluded-windows"@,
        "--disable-breakpad"@,
        "--disable-client-side-phishing-detection"@,
        "--disable-component-extensions-with-background-pages"@,
        "--disable-default-apps"@,
        "--disable-dev-shm-usage"@,
        "--disable-extensions"@,
        "--disable-features=TranslateUI,BlinkGenPropertyTrees"@,
        "--disable-hang-monitor"@,
        "--disable-ipc-flooding-protection"@,
        "--disable-popup-blocking"@,
        "--disable-prompt-on-repost"@,
        "--disable-renderer-backgrounding"@,
        "--disable-sync"@,
        "--force-color-profile=srgb"@,
        "--metrics-recording-only"@,
        "--no-first-run"@,
        "--enable-automation"@,
        "--password-store=basic"@,
        "--use-mock-keychain"@,
    ]
}

/// The views of a list of owned strings.
pub open spec fn views_of(v: Seq<String>) -> Seq<Seq<char>> {
    v.map_values(|s: String| s@)
}

/// The baseline flags as owned strings.
pub fn default_args() -> (r: Vec<String>)
    ensures
        views_of(r@) == spec_default_args(),
{
    let mut v: Vec<String> = Vec::new();
    v.push(String::from_str("--disable-background-networking"));
    v.push(String::from_str("--enable-features=NetworkService,NetworkServiceInProcess"));
    v.push(String::from_str("--disable-background-timer-throttling"));
    v.push(String::from_str("--disable-backgrounding-occluded-windows"));
    v.push(String::from_str("--disable-breakpad"));
    v.push(String::from_str("--disable-client-side-phishing-detection"));
    v.push(String::from_str("--disable-component-extensions-with-background-pages"));
    v.push(String::from_str("--disable-default-apps"));
    v.push(String::from_str("--disable-dev-shm-usage"));
    v.push(String::from_str("--disable-extensions"));
    v.push(String::from_str("--disable-features=TranslateUI,BlinkGenPropertyTrees"));
    v.push(String::from_str("--disable-hang-monitor"));
    v.push(String::from_str("--disable-ipc-flooding-protection"));
    v.push(String::from_str("--disable-popup-blocking"));
    v.push(String::from_str("--disable-prompt-on-repost"));
    v.push(String::from_str("--disable-renderer-backgrounding"));
    v.push(String::from_str("--disable-sync"));
    v.push(String::from_str("--force-color-profile=srgb"));
    v.push(String::from_str("--metrics-recording-only"));
    v.push(String::from_str("--no-first-run"));
    v.push(String::from_str("--enable-automation"));
    v.push(String::from_str("--password-store=basic"));
    v.push(String::from_str("--use-mock-keychain"));
    proof {
        assert(views_of(v@) =~= spec_default_args());
    }
    v
}

/// The fixed flags that follow the mode flag in both variants.
pub open spec fn spec_common_head() -> Seq<Seq<char>> {
    seq![
        "--disable-gpu"@,
        "--enable-logging"@,
        "--verbose"@,
        "--log-level=0"@,
        "--no-first-run"@,
        "--disable-audio-output"@,
    ]
}

fn common_head() -> (r: Vec<String>)
    ensures
        views_of(r@) == spec_common_head(),
{
    let mut v: Vec<String> = Vec::new();
    v.push(String::from_str("--disable-gpu"));
    v.push(String::from_str("--enable-logging"));
    v.push(String::from_str("--verbose"));
    v.push(String::from_str("--log-level=0"));
    v.push(String::from_str("--no-first-run"));
    v.push(String::from_str("--disable-audio-output"));
    proof {
        assert(views_of(v@) =~= spec_common_head());
    }
    v
}

/// The flag pinning the profile directory.
pub open spec fn spec_data_dir_arg(dir: Seq<char>) -> Seq<char> {
    "--user-data-dir="@ + dir
}

/// The flag requesting the network debugging endpoint on this port.
pub open spec fn spec_port_arg(port: u16) -> Seq<char> {
    "--remote-debugging-port="@ + dec_str(port as nat)
}

/// The flag fixing the window size.
pub open spec fn spec_window_size_arg(w: u32, h: u32) -> Seq<char> {
    "--window-size="@ + dec_str(w as nat) + ","@ + dec_str(h as nat)
}

/// The flag loading one extension directory.
pub open spec fn spec_load_extension_arg(dir: Seq<char>) -> Seq<char> {
    "--load-extension="@ + dir
}

fn data_dir_arg(dir: &str) -> (r: String)
    ensures
        r@ == spec_data_dir_arg(dir@),
{
    let mut s = String::from_str("--user-data-dir=");
    s.append(dir);
    s
}

fn port_arg(port: u16) -> (r: String)
    ensures
        r@ == spec_port_arg(port),
{
    let mut s = String::from_str("--remote-debugging-port=");
    let d = u64_to_dec(port as u64);
    s.append(d.as_str());
    s
}

fn window_size_arg(w: u32, h: u32) -> (r: String)
    ensures
        r@ == spec_window_size_arg(w, h),
{
    let mut s = String::from_str("--window-size=");
    let dw = u64_to_dec(w as u64);
    s.append(dw.as_str());
    s.append(",");
    let dh = u64_to_dec(h as u64);
    s.append(dh.as_str());
    proof {
        assert(s@ =~= spec_window_size_arg(w, h));
    }
    s
}

fn load_extension_arg(dir: &String) -> (r: String)
    ensures
        r@ == spec_load_extension_arg(dir@),
{
    let mut s = String::from_str("--load-extension=");
    s.append(dir.as_str());
    s
}

/// The full argument list of the network-endpoint variant: the port flag,
/// the fixed flags, the profile directory, the baseline set, the caller's
/// extra arguments, then window size (when fixed), the headless flag (when
/// headless), the sandbox opt-outs (when unsandboxed), and the extensions.
pub open spec fn spec_ws_args(opts: LaunchOptions, data_dir: Seq<char>, port: u16) -> Seq<
    Seq<char>,
> {
    seq![spec_port_arg(port)] + spec_common_head() + seq![spec_data_dir_arg(data_dir)]
        + spec_default_args() + views_of(opts.args@) + (match opts.window_size {
        Some((w, h)) => seq![spec_window_size_arg(w, h)],
        None => Seq::<Seq<char>>::empty(),
    }) + (if opts.headless {
        seq!["--headless=new"@]
    } else {
        Seq::<Seq<char>>::empty()
    }) + (if !opts.sandbox {
        seq!["--no-sandbox"@, "--disable-setuid-sandbox"@]
    } else {
        Seq::<Seq<char>>::empty()
    }) + views_of(opts.extensions@).map_values(|d: Seq<char>| spec_load_extension_arg(d))
}

/// The full argument list of the pipe variant: the pipe flag instead of a
/// port, window size only in headless mode, and the headless build launched
/// onto a placeholder page, as that build needs a page to load.
pub open spec fn spec_pipe_args(opts: LaunchOptions, data_dir: Seq<char>) -> Seq<Seq<char>> {
    seq!["--remote-debugging-pipe"@] + spec_common_head() + seq![spec_data_dir_arg(data_dir)]
        + spec_default_args() + views_of(opts.args@) + (match opts.window_size {
        Some((w, h)) => if opts.headless {
            seq![spec_window_size_arg(w, h)]
        } else {
            Seq::<Seq<char>>::empty()
        },
        None => Seq::<Seq<char>>::empty(),
    }) + (if !opts.sandbox {
        seq!["--no-sandbox"@, "--disable-setuid-sandbox"@]
    } else {
        Seq::<Seq<char>>::empty()
    }) + views_of(opts.extensions@).map_values(|d: Seq<char>| spec_load_extension_arg(d)) + (
    if opts.headless {
        seq!["--headless"@, "chrome://version"@]
    } else {
        Seq::<Seq<char>>::empty()
    })
}

fn append_all(out: &mut Vec<String>, items: Vec<String>)
    ensures
        views_of(final(out)@) == views_of(old(out)@) + views_of(items@),
{
    let mut k: usize = 0;
    let n = items.len();
    let mut rest = items;
    let ghost all = rest@;
    while k < n
        invariant
            k <= n,
            n == all.len(),
            rest@ == all,
            views_of(out@) == views_of(old(out)@) + views_of(all.subrange(0, k as int)),
        decreases n - k,
    {
        let ghost before = out@;
        let s = rest[k].clone();
        proof {
            assert(s@ == all[k as int]@);
        }
        out.push(s);
        proof {
            assert(views_of(out@) =~= views_of(before).push(all[k as int]@));
            assert(views_of(old(out)@) + views_of(all.subrange(0, k as int + 1)) =~= (views_of(
                old(out)@,
            ) + views_of(all.subrange(0, k as int))).push(all[k as int]@));
        }
        k = k + 1;
    }
    proof {
        assert(all.subrange(0, all.len() as int) =~= all);
    }
}

fn append_extension_args(out: &mut Vec<String>, extensions: &Vec<String>)
    ensures
        views_of(final(out)@) == views_of(old(out)@) + views_of(extensions@).map_values(
            |d: Seq<char>| spec_load_extension_arg(d),
        ),
{
    let ghost target = views_of(extensions@).map_values(|d: Seq<char>| spec_load_extension_arg(d));
    let mut k: usize = 0;
    while k < extensions.len()
        invariant
            k <= extensions@.len(),
            target == views_of(extensions@).map_values(
                |d: Seq<char>| spec_load_extension_arg(d),
            ),
            views_of(out@) == views_of(old(out)@) + target.subrange(0, k as int),
        decreases extensions@.len() - k,
    {
        let ghost before = out@;
        let arg = load_extension_arg(&extensions[k]);
        out.push(arg);
        proof {
            assert(views_of(out@) =~= views_of(before).push(target[k as int]));
            assert(views_of(old(out)@) + target.subrange(0, k as int + 1) =~= (views_of(
                old(out)@,
            ) + target.subrange(0, k as int)).push(target[k as int]));
        }
        k = k + 1;
    }
    proof {
        assert(target.subrange(0, target.len() as int) =~= target);
    }
}

/// Build the argument list for a network-endpoint launch.
pub fn build_ws_args(opts: &LaunchOptions, data_dir: &str, port: u16) -> (r: Vec<String>)
    ensures
        views_of(r@) == spec_ws_args(*opts, data_dir@, port),
{
    let ghost g0 = seq![spec_port_arg(port)];
    let ghost g1 = g0 + spec_common_head();
    let ghost g2 = g1 + seq![spec_data_dir_arg(data_dir@)];
    let ghost g3 = g2 + spec_default_args();
    let ghost g4 = g3 + views_of(opts.args@);
    let ghost g5 = g4 + (match opts.window_size {
        Some((w, h)) => seq![spec_window_size_arg(w, h)],
        None => Seq::<Seq<char>>::empty(),
    });
    let ghost g6 = g5 + (if opts.headless {
        seq!["--headless=new"@]
    } else {
        Seq::<Seq<char>>::empty()
    });
    let ghost g7 = g6 + (if !opts.sandbox {
        seq!["--no-sandbox"@, "--disable-setuid-sandbox"@]
    } else {
        Seq::<Seq<char>>::empty()
    });
    let ghost g8 = g7 + views_of(opts.extensions@).map_values(
        |d: Seq<char>| spec_load_extension_arg(d),
    );
    let mut out: Vec<String> = Vec::new();
    out.push(port_arg(port));
    proof {
        assert(views_of(out@) =~= g0);
    }
    append_all(&mut out, common_head());
    proof {
        assert(views_of(out@) == g1);
    }
    out.push(data_dir_arg(data_dir));
    proof {
        assert(views_of(out@) =~= g2);
    }
    append_all(&mut out, default_args());
    proof {
        assert(views_of(out@) == g3);
    }
    append_all(&mut out, clone_strings(&opts.args));
    proof {
        assert(views_of(out@) == g4);
    }
    match opts.window_size {
        Some((w, h)) => {
            out.push(window_size_arg(w, h));
            proof {
                assert(views_of(out@) =~= g5);
            }
        },
        None => {
            proof {
                assert(g4 + Seq::<Seq<char>>::empty() =~= g4);
            }
        },
    }
    if opts.headless {
        out.push(String::from_str("--headless=new"));
        proof {
            assert(views_of(out@) =~= g6);
        }
    } else {
        proof {
            assert(g5 + Seq::<Seq<char>>::empty() =~= g5);
        }
    }
    if !opts.sandbox {
        out.push(String::from_str("--no-sandbox"));
        out.push(String::from_str("--disable-setuid-sandbox"));
        proof {
            assert(views_of(out@) =~= g7);
        }
    } else {
        proof {
            assert(g6 + Seq::<Seq<char>>::empty() =~= g6);
        }
    }
    append_extension_args(&mut out, &opts.extensions);
    proof {
        assert(views_of(out@) == g8);
        assert(spec_ws_args(*opts, data_dir@, port) == g8);
    }
    out
}

/// Build the argument list for a pipe launch.
pub fn build_pipe_args(opts: &LaunchOptions, data_dir: &str) -> (r: Vec<String>)
    ensures
        views_of(r@) == spec_pipe_args(*opts, data_dir@),
{
    let ghost g0 = seq!["--remote-debugging-pipe"@];
    let ghost g1 = g0 + spec_common_head();
    let ghost g2 = g1 + seq![spec_data_dir_arg(data_dir@)];
    let ghost g3 = g2 + spec_default_args();
    let ghost g4 = g3 + views_of(opts.args@);
    let ghost g5 = g4 + (match opts.window_size {
        Some((w, h)) => if opts.headless {
            seq![spec_window_size_arg(w, h)]
        } else {
            Seq::<Seq<char>>::empty()
        },
        None => Seq::<Seq<char>>::empty(),
    });
    let ghost g6 = g5 + (if !opts.sandbox {
        seq!["--no-sandbox"@, "--disable-setuid-sandbox"@]
    } else {
        Seq::<Seq<char>>::empty()
    });
    let ghost g7 = g6 + views_of(opts.extensions@).map_values(
        |d: Seq<char>| spec_load_extension_arg(d),
    );
    let ghost g8 = g7 + (if opts.headless {
        seq!["--headless"@, "chrome://version"@]
    } else {
        Seq::<Seq<char>>::empty()
    });
    let mut out: Vec<String> = Vec::new();
    out.push(String::from_str("--remote-debugging-pipe"));
    proof {
        assert(views_of(out@) =~= g0);
    }
    append_all(&mut out, common_head());
    proof {
        assert(views_of(out@) == g1);
    }
    out.push(data_dir_arg(data_dir));
    proof {
        assert(views_of(out@) =~= g2);
    }
    append_all(&mut out, default_args());
    proof {
        assert(views_of(out@) == g3);
    }
    append_all(&mut out, clone_strings(&opts.args));
    proof {
        assert(views_of(out@) == g4);
    }
    match opts.window_size {
        Some((w, h)) => {
            if opts.headless {
                out.push(window_size_arg(w, h));
                proof {
                    assert(views_of(out@) =~= g5);
                }
            } else {
                proof {
                    assert(g4 + Seq::<Seq<char>>::empty() =~= g4);
                }
            }
        },
        None => {
            proof {
                assert(g4 + Seq::<Seq<char>>::empty() =~= g4);
            }
        },
    }
    if !opts.sandbox {
        out.push(String::from_str("--no-sandbox"));
        out.push(String::from_str("--disable-setuid-sandbox"));
        proof {
            assert(views_of(out@) =~= g6);
        }
    } else {
        proof {
            assert(g5 + Seq::<Seq<char>>::empty() =~= g5);
        }
    }
    append_extension_args(&mut out, &opts.extensions);
    proof {
        assert(views_of(out@) == g7);
    }
    if opts.headless {
        out.push(String::from_str("--headless"));
        out.push(String::from_str("chrome://version"));
        proof {
            assert(views_of(out@) =~= g8);
        }
    } else {
        proof {
            assert(g7 + Seq::<Seq<char>>::empty() =~= g7);
        }
    }
    proof {
        assert(views_of(out@) == g8);
        assert(spec_pipe_args(*opts, data_dir@) == g8);
    }
    out
}

fn clone_strings(v: &Vec<String>) -> (r: Vec<String>)
    ensures
        views_of(r@) == views_of(v@),
{
    let mut out: Vec<String> = Vec::new();
    let mut k: usize = 0;
    while k < v.len()
        invariant
            k <= v@.len(),
            views_of(out@) == views_of(v@.subrange(0, k as int)),
        decreases v@.len() - k,
    {
        let ghost before = out@;
        out.push(v[k].clone());
        proof {
            assert(views_of(out@) =~= views_of(before).push(v@[k as int]@));
            assert(views_of(v@.subrange(0, k as int + 1)) =~= views_of(
                v@.subrange(0, k as int),
            ).push(v@[k as int]@));
        }
        k = k + 1;
    }
    proof {
        assert(v@.subrange(0, v@.len() as int) =~= v@);
    }
    out
}

} // verus!
