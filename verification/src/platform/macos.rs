//! The Wine engine that the launcher downloads for itself on macOS.

use vstd::prelude::*;
use crate::path_text::{
    below, build_path, components, fit, is_absolute, join_path, lemma_components_fit,
    lemma_components_of_path_from, path_from, split_path, starts_at_root,
};
use crate::text::{first_strings, same, text_of, texts, trim, trimmed};
use super::wine::{WineRuntime, PREFIX_FFXIV_SUBPATH};

verus! {

pub const WRAPPER_VERSION: &'static str = "1.0.11";

pub const WRAPPER_URL: &'static str =
    "https://github.com/Sikarugir-App/Wrapper/releases/download/v1.0/Template-1.0.11.tar.xz";

/// The engine. Later ones do not start on the current system or render this game too slowly.
pub const ENGINE_NAME: &'static str = "WS12WineCX23.7.1_4";

pub const ENGINE_URL: &'static str =
    "https://github.com/Sikarugir-App/Engines/releases/download/v1.0/WS12WineCX23.7.1_4.tar.xz";

/// The directory in the unpacked wrapper that is installed.
pub const WRAPPER_SOURCE: &'static str = "Template-1.0.11.app/Contents/Frameworks";

/// The macOS backend.
#[derive(Debug, Clone, Copy, PartialEq, Eq, Structural)]
pub struct MacosPlatform;

impl Default for MacosPlatform {
    fn default() -> (r: MacosPlatform)
        ensures
            r == MacosPlatform,
    {
        MacosPlatform::new()
    }
}

/// The last place of a component that is `drive_c`, counted from one; zero where there is none.
pub open spec fn drive_place(parts: Seq<Seq<char>>) -> int
    decreases parts.len(),
{
    if parts.len() == 0 {
        0
    } else if parts.last() == "drive_c"@ {
        parts.len() as int
    } else {
        drive_place(parts.drop_last())
    }
}

/// The directory above the innermost `drive_c` of a path.
pub open spec fn prefix_of(game_dir: Seq<char>) -> Option<Seq<char>> {
    let parts = components(game_dir);
    let place = drive_place(parts);
    if place > 0 {
        Some(path_from(is_absolute(game_dir), parts.take(place - 1)))
    } else {
        None
    }
}

proof fn lemma_drive_place(parts: Seq<Seq<char>>)
    ensures
        0 <= drive_place(parts) <= parts.len(),
        drive_place(parts) > 0 ==> parts[drive_place(parts) - 1] == "drive_c"@,
        forall|i: int| drive_place(parts) <= i < parts.len() ==> #[trigger] parts[i] != "drive_c"@,
    decreases parts.len(),
{
    if parts.len() > 0 && parts.last() != "drive_c"@ {
        let front = parts.drop_last();
        lemma_drive_place(front);
        assert forall|i: int| drive_place(parts) <= i < parts.len() implies #[trigger] parts[i]
            != "drive_c"@ by {
            if i < front.len() {
                assert(front[i] == parts[i]);
            }
        }
    }
}

/// The Wine prefix in which the game directory lies: the directory above the innermost `drive_c`.
/// There is none where the path does not lead through one.
pub fn derive_prefix_from_game_location(game_dir: &str) -> (r: Option<String>)
    ensures
        text_of(r) == prefix_of(game_dir@),
{
    let parts: Vec<String> = split_path(game_dir);
    let ghost all: Seq<Seq<char>> = texts(parts@);
    let mut place: usize = parts.len();
    assert(all.take(all.len() as int) =~= all);
    while place > 0
        invariant
            place <= parts.len(),
            all == texts(parts@),
            all == components(game_dir@),
            drive_place(all) == drive_place(all.take(place as int)),
        decreases place,
    {
        assert(all.take(place as int).last() == parts@[place - 1]@);
        if same(parts[place - 1].as_str(), "drive_c") {
            let above: Vec<String> = first_strings(&parts, place - 1);
            return Some(build_path(starts_at_root(game_dir), &above));
        }
        assert(all.take(place as int).drop_last() =~= all.take(place - 1));
        place = place - 1;
    }
    None
}

/// A prefix that was derived is the one in which the game lies: the path of the game directory
/// leads through the prefix and its `drive_c`, and through no `drive_c` after that.
pub proof fn law_derived_prefix_holds_the_game(game_dir: Seq<char>)
    requires
        prefix_of(game_dir) is Some,
    ensures
        ({
            let parts = components(game_dir);
            let inner = components(prefix_of(game_dir)->0);
            &&& inner.push("drive_c"@).is_prefix_of(parts)
            &&& forall|i: int|
                inner.len() < i < parts.len() ==> #[trigger] parts[i] != "drive_c"@
        }),
{
    let parts = components(game_dir);
    lemma_drive_place(parts);
    lemma_components_fit(game_dir, true);
    let place = drive_place(parts);
    let above = parts.take(place - 1);
    if is_absolute(game_dir) {
        lemma_absolute_fit(game_dir);
    }
    assert(fit(above, !is_absolute(game_dir))) by {
        assert forall|i: int| 0 <= i < above.len() implies crate::path_text::is_plain(
            #[trigger] above[i],
        ) && (above[i] != seq!['.'] || (i == 0 && !is_absolute(game_dir))) by {
            assert(above[i] == parts[i]);
        }
    }
    lemma_components_of_path_from(is_absolute(game_dir), above);
    assert(above.push("drive_c"@) =~= parts.subrange(0, place));
}

proof fn lemma_absolute_fit(path: Seq<char>)
    requires
        is_absolute(path),
    ensures
        fit(components(path), false),
{
    let slash = seq!['/'];
    crate::text::lemma_first_index(path, slash);
    assert(slash.contains('/')) by {
        assert(slash[0] == '/');
    }
    assert(crate::text::first_index(path, slash) == 0);
    assert(path.take(0).len() == 0);
    lemma_components_fit(path.skip(1), false);
    assert(components(path) =~= crate::path_text::components_from(path.skip(1), false));
}

impl MacosPlatform {
    pub fn new() -> (r: MacosPlatform)
        ensures
            r == MacosPlatform,
    {
        MacosPlatform
    }

    /// The prefix that the launcher manages.
    pub fn managed_prefix_dir(data_dir: &str) -> (r: String)
        ensures
            r@ == below(data_dir@, "prefix"@),
    {
        join_path(data_dir, "prefix")
    }

    /// The game's directory in that prefix.
    pub fn managed_install_dir(data_dir: &str) -> (r: String)
        ensures
            r@ == below(below(data_dir@, "prefix"@), PREFIX_FFXIV_SUBPATH@),
    {
        join_path(Self::managed_prefix_dir(data_dir).as_str(), PREFIX_FFXIV_SUBPATH)
    }

    /// Where the engine is installed.
    pub fn runtime_root(data_dir: &str) -> (r: String)
        ensures
            r@ == below(data_dir@, "runtime"@),
    {
        join_path(data_dir, "runtime")
    }

    pub fn wine_bin(data_dir: &str) -> (r: String)
        ensures
            r@ == below(below(data_dir@, "runtime"@), "wswine.bundle/bin/wine"@),
    {
        join_path(Self::runtime_root(data_dir).as_str(), "wswine.bundle/bin/wine")
    }

    pub fn wineserver_bin(data_dir: &str) -> (r: String)
        ensures
            r@ == below(below(data_dir@, "runtime"@), "wswine.bundle/bin/wineserver"@),
    {
        join_path(Self::runtime_root(data_dir).as_str(), "wswine.bundle/bin/wineserver")
    }

    /// The runtime for a game in `game_dir`: it works on the prefix in which the game lies, or on
    /// the managed one.
    pub fn runtime_for_game_dir(game_dir: &str, data_dir: &str) -> (r: WineRuntime)
        ensures
            ({
                let root = below(data_dir@, "runtime"@);
                &&& r.root@ == data_dir@
                &&& r.prefix@ == match prefix_of(game_dir@) {
                    Some(prefix) => prefix,
                    None => below(data_dir@, "prefix"@),
                }
                &&& r.wine_bin@ == below(root, "wswine.bundle/bin/wine"@)
                &&& r.wineserver_bin@ == below(root, "wswine.bundle/bin/wineserver"@)
                &&& texts(r.dyld_fallback_paths@) == seq![
                    below(root, "Frameworks"@),
                    below(root, "Frameworks/GStreamer.framework/Versions/Current/lib"@),
                    below(root, "wswine.bundle/lib"@),
                    "/usr/local/lib"@,
                    "/usr/lib"@,
                ]
                &&& text_of(r.gst_plugin_path) == Some(
                    below(
                        root,
                        "Frameworks/GStreamer.framework/Versions/Current/lib/gstreamer-1.0"@,
                    ),
                )
            }),
    {
        let prefix: String = match derive_prefix_from_game_location(game_dir) {
            Some(prefix) => prefix,
            None => Self::managed_prefix_dir(data_dir),
        };
        let root: String = Self::runtime_root(data_dir);
        let mut paths: Vec<String> = Vec::new();
        paths.push(join_path(root.as_str(), "Frameworks"));
        paths.push(
            join_path(root.as_str(), "Frameworks/GStreamer.framework/Versions/Current/lib"),
        );
        paths.push(join_path(root.as_str(), "wswine.bundle/lib"));
        paths.push("/usr/local/lib".to_owned());
        paths.push("/usr/lib".to_owned());
        let ghost listed: Seq<Seq<char>> = seq![
            below(root@, "Frameworks"@),
            below(root@, "Frameworks/GStreamer.framework/Versions/Current/lib"@),
            below(root@, "wswine.bundle/lib"@),
            "/usr/local/lib"@,
            "/usr/lib"@,
        ];
        assert(texts(paths@) =~= listed);
        WineRuntime {
            root: data_dir.to_owned(),
            prefix,
            wine_bin: Self::wine_bin(data_dir),
            wineserver_bin: Self::wineserver_bin(data_dir),
            dyld_fallback_paths: paths,
            gst_plugin_path: Some(
                join_path(
                    root.as_str(),
                    "Frameworks/GStreamer.framework/Versions/Current/lib/gstreamer-1.0",
                ),
            ),
        }
    }
}

impl MacosPlatform {
    /// The install in the managed prefix, if that is one.
    pub fn detect_game_install(&self, data_dir: &str, valid: bool) -> (r: Option<String>)
        ensures
            text_of(r) == if valid {
                Some(below(below(data_dir@, "prefix"@), PREFIX_FFXIV_SUBPATH@))
            } else {
                None
            },
    {
        if valid {
            Some(Self::managed_install_dir(data_dir))
        } else {
            None
        }
    }

    /// The game's program, and the copy of it that is patched and started.
    pub fn game_exes(game_dir: &str) -> (r: (String, String))
        ensures
            r.0@ == below(game_dir@, "ffxivgame.exe"@),
            r.1@ == below(game_dir@, "ffxivgame.patched.exe"@),
    {
        (join_path(game_dir, "ffxivgame.exe"), join_path(game_dir, "ffxivgame.patched.exe"))
    }
}

/// What is said of a game directory without the game's program.
pub fn missing_game_exe(exe: &str) -> (r: String)
    ensures
        r@ == "ffxivgame.exe not found at "@ + exe@,
{
    let mut out: String = "ffxivgame.exe not found at ".to_owned();
    out.append(exe);
    out
}

/// Why the engine cannot run for want of Rosetta 2, if that is so: only a machine with Apple's own
/// processor needs it.
pub fn rosetta_problem(apple_silicon: bool, probe_succeeded: bool) -> (r: Option<String>)
    ensures
        text_of(r) == if apple_silicon && !probe_succeeded {
            Some(
                "Rosetta 2 is required to run the x86_64 Wine engine on Apple Silicon.\nInstall it by running:\n    softwareupdate --install-rosetta --agree-to-license"@,
            )
        } else {
            None
        },
{
    if apple_silicon && !probe_succeeded {
        Some(
            "Rosetta 2 is required to run the x86_64 Wine engine on Apple Silicon.\nInstall it by running:\n    softwareupdate --install-rosetta --agree-to-license".to_owned(),
        )
    } else {
        None
    }
}

/// Whether a part of the runtime is to be installed: it is missing, or its marker does not name
/// the version that is wanted.
pub open spec fn is_stale(present: bool, marker: Option<Seq<char>>, want: Seq<char>) -> bool {
    !present || marker is None || trimmed(marker->0) != want
}

/// See [`is_stale`].
pub fn install_needed(present: bool, marker: Option<&str>, want: &str) -> (r: bool)
    ensures
        r == is_stale(
            present,
            match marker {
                Some(text) => Some(text@),
                None => None,
            },
            want@,
        ),
{
    if !present {
        return true;
    }
    match marker {
        Some(text) => !same(trim(text), want),
        None => true,
    }
}

/// A part of the runtime.
#[derive(Debug, Clone, Copy, PartialEq, Eq, Structural)]
pub enum Component {
    /// The frameworks that the engine needs.
    Wrapper,
    Engine,
}

impl Component {
    pub open spec fn spec_version(self) -> Seq<char> {
        match self {
            Component::Wrapper => WRAPPER_VERSION@,
            Component::Engine => ENGINE_NAME@,
        }
    }

    /// The version that is wanted.
    pub fn version(self) -> (r: &'static str)
        ensures
            r@ == self.spec_version(),
    {
        match self {
            Component::Wrapper => WRAPPER_VERSION,
            Component::Engine => ENGINE_NAME,
        }
    }

    /// Where the archive lies.
    pub fn url(self) -> (r: &'static str)
        ensures
            r@ == match self {
                Component::Wrapper => WRAPPER_URL@,
                Component::Engine => ENGINE_URL@,
            },
    {
        match self {
            Component::Wrapper => WRAPPER_URL,
            Component::Engine => ENGINE_URL,
        }
    }

    /// The file to download the archive to, within a temporary directory.
    pub fn archive_name(self) -> (r: &'static str)
        ensures
            r@ == match self {
                Component::Wrapper => "wrapper.tar.xz"@,
                Component::Engine => "engine.tar.xz"@,
            },
    {
        match self {
            Component::Wrapper => "wrapper.tar.xz",
            Component::Engine => "engine.tar.xz",
        }
    }

    pub open spec fn spec_source(self, tmp_dir: Seq<char>) -> Seq<char> {
        match self {
            Component::Wrapper => below(tmp_dir, WRAPPER_SOURCE@),
            Component::Engine => below(tmp_dir, "wswine.bundle"@),
        }
    }

    /// What is installed out of the unpacked archive.
    pub fn source(self, tmp_dir: &str) -> (r: String)
        ensures
            r@ == self.spec_source(tmp_dir@),
    {
        match self {
            Component::Wrapper => join_path(tmp_dir, WRAPPER_SOURCE),
            Component::Engine => join_path(tmp_dir, "wswine.bundle"),
        }
    }

    pub open spec fn spec_target(self, root: Seq<char>) -> Seq<char> {
        match self {
            Component::Wrapper => below(root, "Frameworks"@),
            Component::Engine => below(root, "wswine.bundle"@),
        }
    }

    /// Where it is installed.
    pub fn target(self, root: &str) -> (r: String)
        ensures
            r@ == self.spec_target(root@),
    {
        match self {
            Component::Wrapper => join_path(root, "Frameworks"),
            Component::Engine => join_path(root, "wswine.bundle"),
        }
    }

    pub open spec fn spec_witness(self, root: Seq<char>) -> Seq<char> {
        match self {
            Component::Wrapper => below(root, "Frameworks"@),
            Component::Engine => below(root, "wswine.bundle/bin/wine"@),
        }
    }

    /// The path that exists when the part is installed.
    pub fn witness(self, root: &str) -> (r: String)
        ensures
            r@ == self.spec_witness(root@),
    {
        match self {
            Component::Wrapper => join_path(root, "Frameworks"),
            Component::Engine => join_path(root, "wswine.bundle/bin/wine"),
        }
    }

    /// What is said of an archive that does not hold the part.
    pub open spec fn spec_complaint(self) -> Seq<char> {
        match self {
            Component::Wrapper => "wrapper archive didn't contain expected path "@,
            Component::Engine => "engine archive didn't contain expected wswine.bundle at "@,
        }
    }

    /// What installing the part is called.
    pub open spec fn spec_doing(self) -> Seq<char> {
        match self {
            Component::Wrapper => "copying wrapper Frameworks"@,
            Component::Engine => "installing wswine.bundle"@,
        }
    }

    pub open spec fn spec_marker(self, root: Seq<char>) -> Seq<char> {
        match self {
            Component::Wrapper => below(root, "wrapper-version"@),
            Component::Engine => below(root, "engine-version"@),
        }
    }

    /// The file that names the installed version.
    pub fn marker(self, root: &str) -> (r: String)
        ensures
            r@ == self.spec_marker(root@),
    {
        match self {
            Component::Wrapper => join_path(root, "wrapper-version"),
            Component::Engine => join_path(root, "engine-version"),
        }
    }
}

/// What the setup of the runtime does next.
#[derive(Debug, Clone, Copy, PartialEq, Eq, Structural)]
pub enum SetupStep {
    /// Create the runtime's directory.
    CreateRoot,
    /// Look whether the part is there, and read its marker.
    Inspect,
    /// Download the archive into a temporary directory and unpack it there.
    Fetch,
    /// Look whether the unpacked archive holds what is to be installed.
    CheckSource,
    /// Look whether there is an older version to remove.
    CheckStale,
    /// Remove the older version.
    RemoveStale,
    /// Move or copy the new version into its place.
    Install,
    /// Write the marker.
    WriteMarker,
    /// Run the engine and let it tell its version.
    TryEngine,
    Finished,
}

/// How the engine answered.
#[derive(Debug, PartialEq, Eq)]
pub enum EngineTrial {
    Works,
    /// It ended with this exit code, and wrote this.
    Failed { code: String, stderr: String },
    /// It could not be run.
    NotRun(String),
}

/// The setup of the runtime. A part that is out of date is removed only after its replacement was
/// downloaded and unpacked, so that a failed download leaves a runtime that works.
#[derive(Debug)]
pub struct RuntimeSetup {
    pub step: SetupStep,
    pub component: Component,
    pub root: String,
    /// The temporary directory with the unpacked archive of this part.
    pub fetched: Option<String>,
    /// Whether what is to be installed was found in it.
    pub source_found: bool,
    /// Why the setup ended early.
    pub failure: Option<SetupFailure>,
}

/// Why the setup of the runtime ended early.
#[derive(Debug, PartialEq, Eq)]
pub struct SetupFailure {
    /// What the user is told.
    pub message: String,
    /// What lies behind it, for the log.
    pub cause: Option<String>,
}

impl RuntimeSetup {
    /// Nothing is removed or installed before the new version is at hand.
    pub open spec fn wf(self) -> bool {
        &&& self.step == SetupStep::CheckSource || self.step == SetupStep::CheckStale || self.step
            == SetupStep::RemoveStale || self.step == SetupStep::Install ==> self.fetched is Some
        &&& self.step == SetupStep::CheckStale || self.step == SetupStep::RemoveStale || self.step
            == SetupStep::Install ==> self.source_found
        &&& self.step == SetupStep::TryEngine ==> self.component == Component::Engine
        &&& self.failure is Some ==> self.step == SetupStep::Finished
    }

    /// Whether only the step differs.
    pub open spec fn moved(self, old: RuntimeSetup, step: SetupStep) -> bool {
        &&& self.step == step
        &&& self.component == old.component
        &&& self.root == old.root
        &&& self.fetched == old.fetched
        &&& self.source_found == old.source_found
        &&& self.failure == old.failure
    }

    /// Whether the setup has ended with the given message and cause.
    pub open spec fn failed(self, message: Seq<char>, cause: Option<Seq<char>>) -> bool {
        &&& self.step == SetupStep::Finished
        &&& self.failure is Some
        &&& self.failure->0.message@ == message
        &&& text_of(self.failure->0.cause) == cause
    }

    /// Begins the setup below the given directory.
    pub fn begin(data_dir: &str) -> (r: RuntimeSetup)
        ensures
            r.wf(),
            r.step == SetupStep::CreateRoot,
            r.component == Component::Wrapper,
            r.root@ == below(data_dir@, "runtime"@),
            r.fetched is None,
            !r.source_found,
            r.failure is None,
    {
        RuntimeSetup {
            step: SetupStep::CreateRoot,
            component: Component::Wrapper,
            root: MacosPlatform::runtime_root(data_dir),
            fetched: None,
            source_found: false,
            failure: None,
        }
    }

    fn fail(&mut self, message: String, cause: Option<String>)
        ensures
            final(self).wf(),
            final(self).failed(message@, text_of(cause)),
            final(self).root == old(self).root,
            final(self).component == old(self).component,
    {
        self.step = SetupStep::Finished;
        self.failure = Some(SetupFailure { message, cause });
    }

    /// Ends the setup with what was being done, and on what.
    fn fail_at(&mut self, doing: &str, path: &str, cause: String)
        ensures
            final(self).wf(),
            final(self).failed(doing@ + path@, Some(cause@)),
            final(self).root == old(self).root,
            final(self).component == old(self).component,
    {
        let mut message: String = doing.to_owned();
        message.append(path);
        self.fail(message, Some(cause));
    }

    /// The runtime's directory was created.
    pub fn root_created(&mut self, outcome: Result<(), String>)
        requires
            old(self).wf(),
            old(self).step == SetupStep::CreateRoot,
        ensures
            final(self).wf(),
            match outcome {
                Ok(_) => final(self).moved(*old(self), SetupStep::Inspect),
                Err(e) => final(self).failed("creating runtime dir "@ + old(self).root@, Some(e@)),
            },
    {
        match outcome {
            Ok(_) => {
                self.step = SetupStep::Inspect;
            },
            Err(e) => {
                let root: String = self.root.clone();
                self.fail_at("creating runtime dir ", root.as_str(), e);
            },
        }
    }

    /// The part was looked at. One that is as wanted is left alone.
    pub fn inspected(&mut self, present: bool, marker: Option<&str>)
        requires
            old(self).wf(),
            old(self).step == SetupStep::Inspect,
        ensures
            final(self).wf(),
            ({
                let marked = match marker {
                    Some(text) => Some(text@),
                    None => None,
                };
                if is_stale(present, marked, old(self).component.spec_version()) {
                    final(self).moved(*old(self), SetupStep::Fetch)
                } else {
                    final(self).went_on(*old(self))
                }
            }),
    {
        if install_needed(present, marker, self.component.version()) {
            self.step = SetupStep::Fetch;
        } else {
            self.go_on();
        }
    }

    /// Whether the setup has gone on to the next part, or to the trial of the engine.
    pub open spec fn went_on(self, old: RuntimeSetup) -> bool {
        &&& self.component == Component::Engine
        &&& self.root == old.root
        &&& self.fetched is None
        &&& !self.source_found
        &&& self.failure == old.failure
        &&& self.step == if old.component == Component::Wrapper {
            SetupStep::Inspect
        } else {
            SetupStep::TryEngine
        }
    }

    fn go_on(&mut self)
        requires
            old(self).failure is None,
        ensures
            final(self).wf(),
            final(self).went_on(*old(self)),
    {
        match self.component {
            Component::Wrapper => {
                self.component = Component::Engine;
                self.step = SetupStep::Inspect;
            },
            Component::Engine => {
                self.step = SetupStep::TryEngine;
            },
        }
        self.fetched = None;
        self.source_found = false;
    }

    /// The archive was downloaded and unpacked into the given temporary directory.
    pub fn archive_fetched(&mut self, outcome: Result<String, SetupFailure>)
        requires
            old(self).wf(),
            old(self).step == SetupStep::Fetch,
        ensures
            final(self).wf(),
            final(self).root == old(self).root,
            final(self).component == old(self).component,
            match outcome {
                Ok(tmp_dir) => {
                    &&& final(self).step == SetupStep::CheckSource
                    &&& final(self).fetched == Some(tmp_dir)
                    &&& final(self).failure is None
                },
                Err(e) => final(self).failed(e.message@, text_of(e.cause)),
            },
    {
        match outcome {
            Ok(tmp_dir) => {
                self.fetched = Some(tmp_dir);
                self.step = SetupStep::CheckSource;
            },
            Err(e) => {
                self.fail(e.message, e.cause);
            },
        }
    }

    /// The path of what is to be installed.
    pub fn source_path(&self) -> (r: String)
        requires
            self.fetched is Some,
        ensures
            r@ == self.component.spec_source(self.fetched->0@),
    {
        match &self.fetched {
            Some(tmp_dir) => self.component.source(tmp_dir.as_str()),
            None => String::new(),
        }
    }

    /// It was looked whether the unpacked archive holds what is to be installed.
    pub fn source_checked(&mut self, there: bool)
        requires
            old(self).wf(),
            old(self).step == SetupStep::CheckSource,
        ensures
            final(self).wf(),
            final(self).root == old(self).root,
            final(self).component == old(self).component,
            if there {
                &&& final(self).step == SetupStep::CheckStale
                &&& final(self).fetched == old(self).fetched
                &&& final(self).failure is None
            } else {
                final(self).failed(
                    old(self).component.spec_complaint() + old(self).component.spec_source(
                        old(self).fetched->0@,
                    ),
                    None,
                )
            },
    {
        if there {
            self.source_found = true;
            self.step = SetupStep::CheckStale;
            return ;
        }
        let source: String = self.source_path();
        let mut message: String = match self.component {
            Component::Wrapper => "wrapper archive didn't contain expected path ".to_owned(),
            Component::Engine => {
                "engine archive didn't contain expected wswine.bundle at ".to_owned()
            },
        };
        message.append(source.as_str());
        self.fail(message, None);
    }

    /// It was looked whether there is an older version.
    pub fn stale_checked(&mut self, there: bool)
        requires
            old(self).wf(),
            old(self).step == SetupStep::CheckStale,
        ensures
            final(self).wf(),
            final(self).moved(
                *old(self),
                if there {
                    SetupStep::RemoveStale
                } else {
                    SetupStep::Install
                },
            ),
    {
        self.step = if there {
            SetupStep::RemoveStale
        } else {
            SetupStep::Install
        };
    }

    /// The older version was removed.
    pub fn stale_removed(&mut self, outcome: Result<(), String>)
        requires
            old(self).wf(),
            old(self).step == SetupStep::RemoveStale,
        ensures
            final(self).wf(),
            match outcome {
                Ok(_) => final(self).moved(*old(self), SetupStep::Install),
                Err(e) => final(self).failed(
                    "removing stale "@ + old(self).component.spec_target(old(self).root@),
                    Some(e@),
                ),
            },
    {
        match outcome {
            Ok(_) => {
                self.step = SetupStep::Install;
            },
            Err(e) => {
                let target: String = self.component.target(self.root.as_str());
                self.fail_at("removing stale ", target.as_str(), e);
            },
        }
    }

    /// The new version was put into its place. The engine's marker is written only after the
    /// engine has run.
    pub fn installed(&mut self, outcome: Result<(), String>)
        requires
            old(self).wf(),
            old(self).step == SetupStep::Install,
        ensures
            final(self).wf(),
            match outcome {
                Ok(_) => match old(self).component {
                    Component::Wrapper => final(self).moved(*old(self), SetupStep::WriteMarker),
                    Component::Engine => final(self).went_on(*old(self)),
                },
                Err(e) => final(self).failed(old(self).component.spec_doing(), Some(e@)),
            },
    {
        match outcome {
            Ok(_) => match self.component {
                Component::Wrapper => {
                    self.step = SetupStep::WriteMarker;
                },
                Component::Engine => {
                    self.go_on();
                },
            },
            Err(e) => {
                let message: String = match self.component {
                    Component::Wrapper => "copying wrapper Frameworks".to_owned(),
                    Component::Engine => "installing wswine.bundle".to_owned(),
                };
                self.fail(message, Some(e));
            },
        }
    }

    /// The engine was tried.
    pub fn engine_tried(&mut self, trial: EngineTrial)
        requires
            old(self).wf(),
            old(self).step == SetupStep::TryEngine,
        ensures
            final(self).wf(),
            match trial {
                EngineTrial::Works => final(self).moved(*old(self), SetupStep::WriteMarker),
                EngineTrial::Failed { code, stderr } => final(self).failed(
                    "wine --version failed (exit "@ + code@ + "): "@ + stderr@,
                    None,
                ),
                EngineTrial::NotRun(e) => final(self).failed(
                    "failed to execute "@ + Component::Engine.spec_witness(old(self).root@)
                        + ": "@ + e@,
                    None,
                ),
            },
    {
        match trial {
            EngineTrial::Works => {
                self.step = SetupStep::WriteMarker;
            },
            EngineTrial::Failed { code, stderr } => {
                let mut message: String = "wine --version failed (exit ".to_owned();
                message.append(code.as_str());
                message.append("): ");
                message.append(stderr.as_str());
                self.fail(message, None);
            },
            EngineTrial::NotRun(e) => {
                let mut message: String = "failed to execute ".to_owned();
                message.append(self.component.witness(self.root.as_str()).as_str());
                message.append(": ");
                message.append(e.as_str());
                self.fail(message, None);
            },
        }
    }

    /// The marker was written.
    pub fn marker_written(&mut self, outcome: Result<(), String>)
        requires
            old(self).wf(),
            old(self).step == SetupStep::WriteMarker,
        ensures
            final(self).wf(),
            match outcome {
                Ok(_) => match old(self).component {
                    Component::Wrapper => final(self).went_on(*old(self)),
                    Component::Engine => final(self).moved(*old(self), SetupStep::Finished),
                },
                Err(e) => final(self).failed(
                    "writing "@ + old(self).component.spec_marker(old(self).root@),
                    Some(e@),
                ),
            },
    {
        match outcome {
            Ok(_) => match self.component {
                Component::Wrapper => {
                    self.go_on();
                },
                Component::Engine => {
                    self.step = SetupStep::Finished;
                },
            },
            Err(e) => {
                let marker: String = self.component.marker(self.root.as_str());
                self.fail_at("writing ", marker.as_str(), e);
            },
        }
    }
}

/// A part that is out of date is removed only when its replacement was fetched and found.
pub proof fn law_removal_follows_the_replacement(setup: RuntimeSetup)
    requires
        setup.wf(),
        setup.step == SetupStep::RemoveStale,
    ensures
        setup.fetched is Some,
        setup.source_found,
{
}

/// The prefix of a game directory is what stands before the last `drive_c` of its path, and there
/// is none where the path has no `drive_c`.
pub proof fn law_the_prefix_is_above_the_last_drive(
    absolute: bool,
    above: Seq<Seq<char>>,
    inside: Seq<Seq<char>>,
)
    requires
        fit(above + seq!["drive_c"@] + inside, !absolute),
        forall|i: int| 0 <= i < inside.len() ==> #[trigger] inside[i] != "drive_c"@,
    ensures
        prefix_of(path_from(absolute, above + seq!["drive_c"@] + inside)) == Some(
            path_from(absolute, above),
        ),
        fit(inside, !absolute) ==> prefix_of(path_from(absolute, inside)) is None,
{
    let parts = above + seq!["drive_c"@] + inside;
    lemma_components_of_path_from(absolute, parts);
    crate::path_text::lemma_path_from_root(absolute, parts);
    lemma_drive_place(parts);
    let place = drive_place(parts);
    assert(parts[above.len() as int] == "drive_c"@);
    assert(place == above.len() + 1) by {
        if place > above.len() + 1 {
            assert(parts[place - 1] == inside[place - 2 - above.len()]);
        }
    }
    assert(parts.take(place - 1) =~= above);
    if fit(inside, !absolute) {
        lemma_components_of_path_from(absolute, inside);
        lemma_drive_place(inside);
    }
}

/// A part is up to date exactly where it is there and its marker, white space aside, names the
/// version that is wanted.
pub proof fn law_what_is_up_to_date(
    present: bool,
    lead: Seq<char>,
    version: Seq<char>,
    trail: Seq<char>,
    want: Seq<char>,
)
    requires
        crate::text::is_blank(lead),
        crate::text::is_tight(version),
        crate::text::is_blank(trail),
    ensures
        is_stale(present, Some(lead + version + trail), want) <==> !present || version != want,
        is_stale(present, None, want),
{
    crate::text::law_trimming_takes_off_what_is_around(lead, version, trail);
}

/// Where the parts come from and where they go.
pub proof fn law_where_the_parts_lie(dir: Seq<char>)
    ensures
        Component::Wrapper.spec_version() == "1.0.11"@,
        Component::Engine.spec_version() == "WS12WineCX23.7.1_4"@,
        Component::Wrapper.spec_source(dir) == below(
            dir,
            "Template-1.0.11.app/Contents/Frameworks"@,
        ),
        Component::Engine.spec_source(dir) == below(dir, "wswine.bundle"@),
        Component::Wrapper.spec_target(dir) == below(dir, "Frameworks"@),
        Component::Engine.spec_target(dir) == below(dir, "wswine.bundle"@),
        Component::Wrapper.spec_witness(dir) == below(dir, "Frameworks"@),
        Component::Engine.spec_witness(dir) == below(dir, "wswine.bundle/bin/wine"@),
        Component::Wrapper.spec_marker(dir) == below(dir, "wrapper-version"@),
        Component::Engine.spec_marker(dir) == below(dir, "engine-version"@),
        Component::Wrapper.spec_complaint() == "wrapper archive didn't contain expected path "@,
        Component::Engine.spec_complaint()
            == "engine archive didn't contain expected wswine.bundle at "@,
        Component::Wrapper.spec_doing() == "copying wrapper Frameworks"@,
        Component::Engine.spec_doing() == "installing wswine.bundle"@,
{
}

/// The parts are set up one behind the other, the engine last, and then it is tried. A step leaves
/// alone where things are set up, and what was fetched.
pub proof fn law_the_engine_comes_last(
    next: RuntimeSetup,
    moved: RuntimeSetup,
    failed: RuntimeSetup,
    old: RuntimeSetup,
    step: SetupStep,
    message: Seq<char>,
    cause: Option<Seq<char>>,
)
    requires
        next.went_on(old),
        moved.moved(old, step),
        failed.failed(message, cause),
    ensures
        old.component == Component::Wrapper ==> next.step == SetupStep::Inspect && next.component
            == Component::Engine,
        old.component == Component::Engine ==> next.step == SetupStep::TryEngine && next.component
            == Component::Engine,
        next.root == old.root && next.failure == old.failure,
        next.fetched is None && !next.source_found,
        moved.step == step && moved.component == old.component && moved.root == old.root,
        moved.fetched == old.fetched && moved.source_found == old.source_found && moved.failure
            == old.failure,
        failed.step == SetupStep::Finished && failed.failure is Some
            && failed.failure->0.message@ == message && text_of(failed.failure->0.cause) == cause,
{
}

/// However the game directory is written, its prefix is the same.
pub proof fn law_the_prefix_of_a_path_however_written(a: Seq<char>, b: Seq<char>)
    requires
        crate::path_text::same_path(a, b),
    ensures
        prefix_of(a) == prefix_of(b),
{
}

} // verus!
