//! The Wine prefix and the command that starts the game in it.

use vstd::prelude::*;
use crate::path_text::{below, join_path, parent, parent_of};
use crate::text::{join, joined, text_of, texts};

verus! {

/// The debug channels of Wine, unless others were chosen.
pub const WINEDEBUG_DEFAULT: &'static str = "fixme-all,err+all,+debugstr,warn+d3d";

/// The game's directory within a prefix.
pub const PREFIX_FFXIV_SUBPATH: &'static str =
    "drive_c/Program Files (x86)/SquareEnix/FINAL FANTASY XIV";

/// How much of the log is shown after a failed launch, in bytes.
pub const TAIL_BYTES: usize = 8192;

/// The clock's time in milliseconds, of which 32 bits are kept. The clock gave `sec` seconds and
/// `nsec` nanoseconds, or failed where `rc` is not zero.
///
/// The game takes its own tick count from the same clock.
pub fn monotonic_ms_since_boot(rc: i32, sec: u64, nsec: u64) -> (r: u32)
    requires
        (sec * 1000) % 0x1_0000_0000_0000_0000 + nsec / 1_000_000 <= u64::MAX,
    ensures
        rc != 0 ==> r == 0,
        rc == 0 ==> r == ((sec * 1000) % 0x1_0000_0000_0000_0000 + nsec / 1_000_000)
            % 0x1_0000_0000,
{
    if rc != 0 {
        return 0;
    }
    let ms: u64 = sec.wrapping_mul(1_000) + nsec / 1_000_000;
    let low: u64 = ms % 0x1_0000_0000;
    low as u32
}

/// A Wine engine and the prefix that it works on.
#[derive(Debug)]
pub struct WineRuntime {
    pub root: String,
    pub prefix: String,
    pub wine_bin: String,
    pub wineserver_bin: String,
    /// Where libraries are searched too, on macOS.
    pub dyld_fallback_paths: Vec<String>,
    /// Where GStreamer's plugins lie, if they came with the engine.
    pub gst_plugin_path: Option<String>,
}

/// A variable of a command's environment.
#[derive(Debug, PartialEq, Eq)]
pub struct EnvVar {
    pub name: String,
    pub value: String,
}

/// The names and values of variables.
pub open spec fn env_view(vars: Seq<EnvVar>) -> Seq<(Seq<char>, Seq<char>)> {
    vars.map_values(|v: EnvVar| (v.name@, v.value@))
}

fn set_var(vars: &mut Vec<EnvVar>, name: &str, value: &str)
    ensures
        env_view(final(vars)@) == env_view(old(vars)@).push((name@, value@)),
{
    vars.push(EnvVar { name: name.to_owned(), value: value.to_owned() });
    assert(env_view(vars@) =~= env_view(old(vars)@).push((name@, value@)));
}

impl WineRuntime {
    /// The game's directory in this prefix.
    pub fn install_root(&self) -> (r: String)
        ensures
            r@ == below(self.prefix@, PREFIX_FFXIV_SUBPATH@),
            r@ == below(
                self.prefix@,
                "drive_c/Program Files (x86)/SquareEnix/FINAL FANTASY XIV"@,
            ),
    {
        join_path(self.prefix.as_str(), PREFIX_FFXIV_SUBPATH)
    }

    /// The debug channels that a command is given, if it is given any: those that were chosen, or
    /// the default where the launcher's own environment has none.
    pub open spec fn debug_channels(
        wine_debug: Option<Seq<char>>,
        inherited: bool,
    ) -> Option<Seq<char>> {
        match wine_debug {
            Some(value) => Some(value),
            None => if inherited {
                None
            } else {
                Some(WINEDEBUG_DEFAULT@)
            },
        }
    }

    /// The variables that a command of this runtime is given, in the order of setting.
    pub open spec fn variables(
        self,
        wine_debug: Option<Seq<char>>,
        inherited: bool,
        macos: bool,
    ) -> Seq<(Seq<char>, Seq<char>)> {
        let prefix = seq![("WINEPREFIX"@, self.prefix@)];
        let debug = match Self::debug_channels(wine_debug, inherited) {
            Some(value) => seq![("WINEDEBUG"@, value)],
            None => Seq::empty(),
        };
        let dyld = if macos && self.dyld_fallback_paths@.len() > 0 {
            seq![
                (
                    "DYLD_FALLBACK_LIBRARY_PATH"@,
                    joined(texts(self.dyld_fallback_paths@), ":"@),
                ),
            ]
        } else {
            Seq::empty()
        };
        let gst = match self.gst_plugin_path {
            Some(dir) => seq![
                ("GST_PLUGIN_PATH"@, dir@),
                ("GST_PLUGIN_SYSTEM_PATH"@, dir@),
            ],
            None => Seq::empty(),
        };
        prefix + debug + dyld + gst
    }

    /// The variables of a command with the usual debug channels. `inherited` says whether the
    /// launcher's own environment sets `WINEDEBUG`.
    pub fn configure_command(&self, inherited: bool, macos: bool) -> (r: Vec<EnvVar>)
        requires
            macos ==> self.paths_can_be_joined(),
        ensures
            env_view(r@) == self.variables(None, inherited, macos),
    {
        self.configure_command_with_debug(None, inherited, macos)
    }

    /// No path holds the character that stands between two.
    pub open spec fn paths_can_be_joined(self) -> bool {
        forall|i: int|
            0 <= i < self.dyld_fallback_paths@.len() ==> !(
            #[trigger] self.dyld_fallback_paths@[i])@.contains(':')
    }

    /// The variables of a command with the given debug channels; see
    /// [`WineRuntime::variables`].
    pub fn configure_command_with_debug(
        &self,
        wine_debug: Option<&str>,
        inherited: bool,
        macos: bool,
    ) -> (r: Vec<EnvVar>)
        requires
            macos ==> self.paths_can_be_joined(),
        ensures
            env_view(r@) == self.variables(
                match wine_debug {
                    Some(value) => Some(value@),
                    None => None,
                },
                inherited,
                macos,
            ),
    {
        let ghost none: Seq<(Seq<char>, Seq<char>)> = Seq::empty();
        let mut vars: Vec<EnvVar> = Vec::new();
        assert(env_view(vars@) =~= none);
        set_var(&mut vars, "WINEPREFIX", self.prefix.as_str());
        let ghost prefix = seq![("WINEPREFIX"@, self.prefix@)];
        assert(env_view(vars@) =~= prefix);
        if let Some(value) = wine_debug {
            set_var(&mut vars, "WINEDEBUG", value);
        } else if !inherited {
            set_var(&mut vars, "WINEDEBUG", WINEDEBUG_DEFAULT);
        }
        let ghost debug = match Self::debug_channels(
            match wine_debug {
                Some(value) => Some(value@),
                None => None,
            },
            inherited,
        ) {
            Some(value) => seq![("WINEDEBUG"@, value)],
            None => none,
        };
        assert(env_view(vars@) =~= prefix + debug);
        if macos && self.dyld_fallback_paths.len() > 0 {
            let paths: String = join(&self.dyld_fallback_paths, ":");
            set_var(&mut vars, "DYLD_FALLBACK_LIBRARY_PATH", paths.as_str());
        }
        let ghost dyld = if macos && self.dyld_fallback_paths@.len() > 0 {
            seq![
                (
                    "DYLD_FALLBACK_LIBRARY_PATH"@,
                    joined(texts(self.dyld_fallback_paths@), ":"@),
                ),
            ]
        } else {
            none
        };
        assert(env_view(vars@) =~= prefix + debug + dyld);
        if let Some(dir) = &self.gst_plugin_path {
            set_var(&mut vars, "GST_PLUGIN_PATH", dir.as_str());
            set_var(&mut vars, "GST_PLUGIN_SYSTEM_PATH", dir.as_str());
        }
        vars
    }

    /// The file that a prefix has once it is initialized.
    pub fn registry_file(&self) -> (r: String)
        ensures
            r@ == below(self.prefix@, "system.reg"@),
    {
        join_path(self.prefix.as_str(), "system.reg")
    }
}

/// The DLL overrides of a launch: those of DXVK, and that of the socket proxy.
pub open spec fn overrides_of(extra: Option<Seq<char>>, winsock_proxy: bool) -> Option<Seq<char>> {
    match extra {
        Some(dxvk) => Some(
            if winsock_proxy {
                dxvk + ";"@ + "ws2_32=n,b"@
            } else {
                dxvk
            },
        ),
        None => if winsock_proxy {
            Some("ws2_32=n,b"@)
        } else {
            None
        },
    }
}

/// See [`overrides_of`].
pub fn dll_overrides(extra: Option<&str>, winsock_proxy: bool) -> (r: Option<String>)
    ensures
        text_of(r) == overrides_of(
            match extra {
                Some(dxvk) => Some(dxvk@),
                None => None,
            },
            winsock_proxy,
        ),
{
    match extra {
        Some(dxvk) => {
            let mut out: String = dxvk.to_owned();
            if winsock_proxy {
                out.append(";");
                out.append("ws2_32=n,b");
            }
            Some(out)
        },
        None => if winsock_proxy {
            Some("ws2_32=n,b".to_owned())
        } else {
            None
        },
    }
}

/// The directory of the log within the data directory.
pub fn wine_log_dir(data_dir: &str) -> (r: String)
    ensures
        r@ == below(data_dir@, "logs"@),
{
    join_path(data_dir, "logs")
}

/// The log's path within the data directory.
pub fn wine_log_path(data_dir: &str) -> (r: String)
    ensures
        r@ == below(below(data_dir@, "logs"@), "wine.log"@),
{
    join_path(wine_log_dir(data_dir).as_str(), "wine.log")
}

/// What a launch of the game comes down to.
#[derive(Debug)]
pub struct GameLaunch {
    /// The directory of the game, where the socket proxy lies and in which the game runs.
    pub game_dir: Option<String>,
    pub program: String,
    pub arguments: Vec<String>,
    pub environment: Vec<EnvVar>,
    /// The head of the log.
    pub log_header: String,
}

/// The head of the log of a launch.
pub open spec fn header_of(
    runtime: WineRuntime,
    exe_path: Seq<char>,
    argument: Seq<char>,
    wine_debug: Option<Seq<char>>,
) -> Seq<char> {
    "=== garlemald-client launch ===\nwine: "@ + runtime.wine_bin@ + "\nexe:  "@ + exe_path
        + "\narg:  "@ + argument + "\nprefix: "@ + runtime.prefix@ + "\nWINEDEBUG: "@ + match wine_debug {
        Some(value) => value,
        None => "(default)"@,
    } + "\n\n"@
}

/// The launch of the game at `exe_path`.
pub fn launch_ffxiv_game(
    runtime: &WineRuntime,
    exe_path: &str,
    encoded_argument: &str,
    wine_debug_override: Option<&str>,
    enable_winsock_proxy: bool,
    extra_dll_overrides: Option<&str>,
    inherited: bool,
    macos: bool,
) -> (r: GameLaunch)
    requires
        macos ==> runtime.paths_can_be_joined(),
    ensures
        text_of(r.game_dir) == parent_of(exe_path@),
        r.program == runtime.wine_bin,
        texts(r.arguments@) == seq![exe_path@, encoded_argument@],
        ({
            let debug = match wine_debug_override {
                Some(value) => Some(value@),
                None => None,
            };
            let extra = match extra_dll_overrides {
                Some(value) => Some(value@),
                None => None,
            };
            let basis = runtime.variables(debug, inherited, macos);
            &&& r.log_header@ == header_of(*runtime, exe_path@, encoded_argument@, debug)
            &&& env_view(r.environment@) == match overrides_of(extra, enable_winsock_proxy) {
                Some(overrides) => basis.push(("WINEDLLOVERRIDES"@, overrides)),
                None => basis,
            }
        }),
{
    let mut arguments: Vec<String> = Vec::new();
    arguments.push(exe_path.to_owned());
    arguments.push(encoded_argument.to_owned());
    assert(texts(arguments@) =~= seq![exe_path@, encoded_argument@]);
    let mut environment: Vec<EnvVar> = runtime.configure_command_with_debug(
        wine_debug_override,
        inherited,
        macos,
    );
    if let Some(overrides) = dll_overrides(extra_dll_overrides, enable_winsock_proxy) {
        set_var(&mut environment, "WINEDLLOVERRIDES", overrides.as_str());
    }
    let mut log_header: String = "=== garlemald-client launch ===\nwine: ".to_owned();
    log_header.append(runtime.wine_bin.as_str());
    log_header.append("\nexe:  ");
    log_header.append(exe_path);
    log_header.append("\narg:  ");
    log_header.append(encoded_argument);
    log_header.append("\nprefix: ");
    log_header.append(runtime.prefix.as_str());
    log_header.append("\nWINEDEBUG: ");
    match wine_debug_override {
        Some(value) => {
            log_header.append(value);
        },
        None => {
            log_header.append("(default)");
        },
    }
    log_header.append("\n\n");
    GameLaunch {
        game_dir: parent(exe_path),
        program: runtime.wine_bin.clone(),
        arguments,
        environment,
        log_header,
    }
}

/// The last line of the log; `status` is the game's exit status.
pub fn log_footer(status: &str) -> (r: String)
    ensures
        r@ == "\n=== exit: "@ + status@ + " ===\n"@,
{
    let mut out: String = "\n=== exit: ".to_owned();
    out.append(status);
    out.append(" ===\n");
    out
}

/// The outcome of a game that has ended.
pub fn launch_result(success: bool, status: &str, log_path: &str) -> (r: Result<(), String>)
    ensures
        r is Ok <==> success,
        r is Err ==> r->Err_0@ == "ffxivgame.exe exited with status "@ + status@ + "; see "@
            + log_path@ + " for wine output"@,
{
    if success {
        return Ok(());
    }
    let mut out: String = "ffxivgame.exe exited with status ".to_owned();
    out.append(status);
    out.append("; see ");
    out.append(log_path);
    out.append(" for wine output");
    Err(out)
}

/// Where the part of a log begins that is shown after a failed launch.
pub fn tail_start(length: usize) -> (r: usize)
    ensures
        r == if length > TAIL_BYTES {
            length - TAIL_BYTES
        } else {
            0
        },
{
    length.saturating_sub(TAIL_BYTES)
}

/// A change to the game directory.
#[derive(Debug, PartialEq, Eq)]
pub enum ProxyAction {
    /// Remove the file if it is there. That it cannot be removed does not matter.
    Remove(String),
    Copy { from: String, to: String },
}

/// What is done about the socket proxy, and what the user is told where it cannot be put in place.
#[derive(Debug, PartialEq, Eq)]
pub struct ProxyPlan {
    pub actions: Vec<ProxyAction>,
    pub problem: Option<String>,
}

/// What becomes of the socket proxy in the game directory. When it is on, the built proxy replaces
/// the old one. When it is off, or was not built, the proxy is removed, so that the game's sockets
/// work as they do without it. A file that earlier versions left is removed in any case.
pub fn apply_winsock_proxy(
    game_dir: &str,
    enable: bool,
    built_proxy: &str,
    built_proxy_exists: bool,
) -> (r: ProxyPlan)
    ensures
        r.actions@.len() == 2,
        r.actions@[0] is Remove,
        r.actions@[0]->Remove_0@ == below(game_dir@, "ws2_32_real.dll"@),
        if enable && built_proxy_exists {
            &&& r.actions@[1] is Copy
            &&& r.actions@[1]->from@ == built_proxy@
            &&& r.actions@[1]->to@ == below(game_dir@, "ws2_32.dll"@)
        } else {
            &&& r.actions@[1] is Remove
            &&& r.actions@[1]->Remove_0@ == below(game_dir@, "ws2_32.dll"@)
        },
        text_of(r.problem) == if enable && !built_proxy_exists {
            Some(
                "winsock tracing is on but the proxy DLL is missing at "@ + built_proxy@
                    + ".\nRun `cargo build --release --target i686-pc-windows-gnu` inside\ngarlemald-client/ws2_32-proxy before launching."@,
            )
        } else {
            None
        },
{
    let proxy: String = join_path(game_dir, "ws2_32.dll");
    let mut actions: Vec<ProxyAction> = Vec::new();
    actions.push(ProxyAction::Remove(join_path(game_dir, "ws2_32_real.dll")));
    if enable && built_proxy_exists {
        actions.push(ProxyAction::Copy { from: built_proxy.to_owned(), to: proxy });
        return ProxyPlan { actions, problem: None };
    }
    actions.push(ProxyAction::Remove(proxy));
    if !enable {
        return ProxyPlan { actions, problem: None };
    }
    let mut message: String = "winsock tracing is on but the proxy DLL is missing at ".to_owned();
    message.append(built_proxy);
    message.append(
        ".\nRun `cargo build --release --target i686-pc-windows-gnu` inside\ngarlemald-client/ws2_32-proxy before launching.",
    );
    ProxyPlan { actions, problem: Some(message) }
}

/// Where the built proxy lies below the directory of the launcher's sources.
pub fn workspace_ws2_32_proxy_dll(client_root: &str) -> (r: String)
    ensures
        r@ == below(
            client_root@,
            "ws2_32-proxy/target/i686-pc-windows-gnu/release/ws2_32.dll"@,
        ),
{
    join_path(client_root, "ws2_32-proxy/target/i686-pc-windows-gnu/release/ws2_32.dll")
}

/// Whether no variable of that name is set.
pub open spec fn leaves_unset(vars: Seq<(Seq<char>, Seq<char>)>, name: Seq<char>) -> bool {
    forall|i: int| 0 <= i < vars.len() ==> (#[trigger] vars[i]).0 != name
}

/// Whether a variable of that name is set, and to nothing but the value.
pub open spec fn sets(
    vars: Seq<(Seq<char>, Seq<char>)>,
    name: Seq<char>,
    value: Seq<char>,
) -> bool {
    &&& exists|i: int| 0 <= i < vars.len() && #[trigger] vars[i] == (name, value)
    &&& forall|i: int| 0 <= i < vars.len() && (#[trigger] vars[i]).0 == name ==> vars[i].1 == value
}

/// The environment of a command: the prefix always; debug channels that were chosen, or the usual
/// ones unless the launcher's own environment has some; the search path on macOS; and where the
/// plugins lie. Nothing else is set.
pub proof fn law_what_the_environment_holds(
    runtime: WineRuntime,
    debug: Option<Seq<char>>,
    inherited: bool,
    macos: bool,
)
    ensures
        ({
            let vars = runtime.variables(debug, inherited, macos);
            &&& sets(vars, "WINEPREFIX"@, runtime.prefix@)
            &&& debug is Some ==> sets(vars, "WINEDEBUG"@, debug->0)
            &&& debug is None && !inherited ==> sets(
                vars,
                "WINEDEBUG"@,
                "fixme-all,err+all,+debugstr,warn+d3d"@,
            )
            &&& debug is None && inherited ==> leaves_unset(vars, "WINEDEBUG"@)
            &&& macos && runtime.dyld_fallback_paths@.len() > 0 ==> sets(
                vars,
                "DYLD_FALLBACK_LIBRARY_PATH"@,
                joined(texts(runtime.dyld_fallback_paths@), ":"@),
            )
            &&& !macos || runtime.dyld_fallback_paths@.len() == 0 ==> leaves_unset(
                vars,
                "DYLD_FALLBACK_LIBRARY_PATH"@,
            )
            &&& runtime.gst_plugin_path is Some ==> sets(
                vars,
                "GST_PLUGIN_PATH"@,
                runtime.gst_plugin_path->0@,
            ) && sets(vars, "GST_PLUGIN_SYSTEM_PATH"@, runtime.gst_plugin_path->0@)
            &&& runtime.gst_plugin_path is None ==> leaves_unset(vars, "GST_PLUGIN_PATH"@)
                && leaves_unset(vars, "GST_PLUGIN_SYSTEM_PATH"@)
            &&& leaves_unset(vars, "WINEDLLOVERRIDES"@)
            &&& vars.len() <= 5
        }),
{
    reveal_strlit("WINEPREFIX");
    reveal_strlit("WINEDEBUG");
    reveal_strlit("DYLD_FALLBACK_LIBRARY_PATH");
    reveal_strlit("GST_PLUGIN_PATH");
    reveal_strlit("GST_PLUGIN_SYSTEM_PATH");
    reveal_strlit("WINEDLLOVERRIDES");
    assert("WINEPREFIX"@.len() == 10);
    assert("WINEDEBUG"@.len() == 9);
    assert("DYLD_FALLBACK_LIBRARY_PATH"@.len() == 26);
    assert("GST_PLUGIN_PATH"@.len() == 15);
    assert("GST_PLUGIN_SYSTEM_PATH"@.len() == 22);
    assert("WINEDLLOVERRIDES"@.len() == 16);
    let vars = runtime.variables(debug, inherited, macos);
    let none = Seq::<(Seq<char>, Seq<char>)>::empty();
    let debug_vars = match WineRuntime::debug_channels(debug, inherited) {
        Some(value) => seq![("WINEDEBUG"@, value)],
        None => none,
    };
    let dyld = macos && runtime.dyld_fallback_paths@.len() > 0;
    let gst = runtime.gst_plugin_path is Some;
    let d: int = debug_vars.len() as int;
    let e: int = if dyld {
        1
    } else {
        0
    };
    assert(vars[0] == ("WINEPREFIX"@, runtime.prefix@));
    if d > 0 {
        assert(vars[1] == debug_vars[0]);
    }
    if dyld {
        assert(vars[1 + d] == (
            "DYLD_FALLBACK_LIBRARY_PATH"@,
            joined(texts(runtime.dyld_fallback_paths@), ":"@),
        ));
    }
    if gst {
        assert(vars[1 + d + e] == ("GST_PLUGIN_PATH"@, runtime.gst_plugin_path->0@));
        assert(vars[2 + d + e] == ("GST_PLUGIN_SYSTEM_PATH"@, runtime.gst_plugin_path->0@));
    }
}

/// The overrides of a launch hold those that were asked for and, with the proxy, its own behind
/// them.
pub proof fn law_what_is_overridden(dxvk: Seq<char>)
    ensures
        overrides_of(Some(dxvk), true) == Some(dxvk + ";ws2_32=n,b"@),
        overrides_of(Some(dxvk), false) == Some(dxvk),
        overrides_of(None, true) == Some("ws2_32=n,b"@),
        overrides_of(None, false) is None,
{
    reveal_strlit(";");
    reveal_strlit("ws2_32=n,b");
    reveal_strlit(";ws2_32=n,b");
    assert(dxvk + ";"@ + "ws2_32=n,b"@ =~= dxvk + ";ws2_32=n,b"@);
}

/// The head of the log tells engine, program, argument, prefix and debug channels, line by line.
pub proof fn law_what_the_log_begins_with(
    runtime: WineRuntime,
    exe: Seq<char>,
    argument: Seq<char>,
    channels: Seq<char>,
)
    ensures
        header_of(runtime, exe, argument, Some(channels)) == "=== garlemald-client launch ===\nwine: "@
            + runtime.wine_bin@ + "\nexe:  "@ + exe + "\narg:  "@ + argument + "\nprefix: "@
            + runtime.prefix@ + "\nWINEDEBUG: "@ + channels + "\n\n"@,
        header_of(runtime, exe, argument, None) == header_of(
            runtime,
            exe,
            argument,
            Some("(default)"@),
        ),
{
}

/// The names and values of variables are theirs, one by one.
pub proof fn law_what_variables_show(vars: Seq<EnvVar>, i: int)
    ensures
        env_view(vars).len() == vars.len(),
        0 <= i < vars.len() ==> env_view(vars)[i] == (vars[i].name@, vars[i].value@),
{
}

} // verus!
