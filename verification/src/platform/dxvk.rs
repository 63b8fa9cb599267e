//! DXVK on Linux: Direct3D 9 through Vulkan, in place of Wine's own renderer. Whatever stands in
//! its way leaves the game on the latter.

use vstd::prelude::*;
use crate::path_text::{below, extension, extension_of, join_path};
use crate::text::{same, text_of, trim, trimmed};

verus! {

pub const DXVK_VERSION: &'static str = "3.0";

pub const DXVK_URL: &'static str =
    "https://github.com/doitsujin/dxvk/releases/download/v3.0/dxvk-3.0.tar.gz";

/// The directory in the cache that the release is unpacked to.
pub const DXVK_DIR: &'static str = "dxvk-3.0";

/// How many libraries are installed.
pub const DXVK_DLL_COUNT: usize = 2;

/// Wine is to take the installed libraries, and its own where they do not work.
pub const DXVK_OVERRIDES: &'static str = "d3d9=n,b;dxgi=n,b";

/// The variable that switches DXVK off.
pub const DISABLE_ENV: &'static str = "GARLEMALD_DISABLE_DXVK";

/// Where the manifests of Vulkan drivers lie.
pub const ICD_DIR_SHARED: &'static str = "/usr/share/vulkan/icd.d";

pub const ICD_DIR_LOCAL: &'static str = "/etc/vulkan/icd.d";

/// Whether one of the entries of those directories is a driver's manifest.
pub open spec fn any_manifest(entries: Seq<String>) -> bool {
    exists|i: int|
        0 <= i < entries.len() && extension_of((#[trigger] entries[i])@) == Some("json"@)
}

/// See [`any_manifest`].
pub fn vulkan_available(entries: &Vec<String>) -> (r: bool)
    ensures
        r == any_manifest(entries@),
{
    let mut i: usize = 0;
    while i < entries.len()
        invariant
            i <= entries.len(),
            forall|j: int|
                0 <= j < i ==> extension_of((#[trigger] entries@[j])@) != Some("json"@),
        decreases entries.len() - i,
    {
        if let Some(ext) = extension(entries[i].as_str()) {
            if same(ext.as_str(), "json") {
                assert(extension_of(entries@[i as int]@) == Some("json"@));
                return true;
            }
        }
        i = i + 1;
    }
    false
}

/// Whether DXVK is to be installed at all.
pub fn wants_dxvk(disabled: bool, vulkan: bool) -> (r: bool)
    ensures
        r == (!disabled && vulkan),
{
    !disabled && vulkan
}

/// The overrides for a launch: those of DXVK where it is wanted and installed.
pub fn ensure_dxvk(disabled: bool, vulkan: bool, installed: bool) -> (r: Option<String>)
    ensures
        text_of(r) == if !disabled && vulkan && installed {
            Some(DXVK_OVERRIDES@)
        } else {
            None
        },
        r is Some ==> r->0@ == "d3d9=n,b;dxgi=n,b"@,
{
    if wants_dxvk(disabled, vulkan) && installed {
        Some(DXVK_OVERRIDES.to_owned())
    } else {
        None
    }
}

/// The libraries that are installed.
pub open spec fn dll_name(index: int) -> Seq<char> {
    if index == 0 {
        "d3d9.dll"@
    } else {
        "dxgi.dll"@
    }
}

/// What the installation does next.
#[derive(Debug, Clone, Copy, PartialEq, Eq, Structural)]
pub enum DxvkStep {
    /// Look whether the prefix has a directory for 32-bit libraries.
    CheckTarget,
    /// Read the marker in the prefix.
    ReadMarker,
    /// Look whether the release is in the cache.
    CheckCache,
    /// Create the cache.
    CreateCache,
    /// Download the release and unpack it into the cache.
    Fetch,
    /// Look again whether the release is in the cache.
    CheckUnpacked,
    /// Copy a library into the prefix.
    CopyDll,
    /// Write the marker.
    WriteMarker,
    Finished,
}

/// The installation of DXVK into a prefix. The marker is written last, so that an installation
/// that broke off is begun again.
#[derive(Debug)]
pub struct DxvkInstall {
    pub step: DxvkStep,
    pub prefix: String,
    pub cache_root: String,
    /// How many libraries are copied.
    pub copied: usize,
    pub failure: Option<String>,
}

impl DxvkInstall {
    /// The marker is written only when every library was copied.
    pub open spec fn wf(self) -> bool {
        &&& self.copied <= DXVK_DLL_COUNT
        &&& self.step == DxvkStep::CopyDll ==> self.copied < DXVK_DLL_COUNT
        &&& self.step == DxvkStep::WriteMarker ==> self.copied == DXVK_DLL_COUNT
        &&& self.failure is Some ==> self.step == DxvkStep::Finished
        &&& self.step == DxvkStep::CheckTarget || self.step == DxvkStep::ReadMarker || self.step
            == DxvkStep::CheckCache || self.step == DxvkStep::CreateCache || self.step
            == DxvkStep::Fetch || self.step == DxvkStep::CheckUnpacked ==> self.copied == 0
    }

    /// Whether only the step differs.
    pub open spec fn moved(self, old: DxvkInstall, step: DxvkStep) -> bool {
        &&& self.step == step
        &&& self.prefix == old.prefix
        &&& self.cache_root == old.cache_root
        &&& self.copied == old.copied
        &&& self.failure == old.failure
    }

    /// Whether the installation has ended with the given message.
    pub open spec fn failed(self, message: Seq<char>) -> bool {
        &&& self.step == DxvkStep::Finished
        &&& self.failure is Some
        &&& self.failure->0@ == message
    }

    pub open spec fn spec_target(self) -> Seq<char> {
        below(self.prefix@, "drive_c/windows/syswow64"@)
    }

    pub open spec fn spec_marker(self) -> Seq<char> {
        below(self.prefix@, ".dxvk-version"@)
    }

    pub open spec fn spec_release(self) -> Seq<char> {
        below(self.cache_root@, DXVK_DIR@)
    }

    pub open spec fn spec_dll_from(self) -> Seq<char> {
        below(below(self.spec_release(), "x32"@), dll_name(self.copied as int))
    }

    pub open spec fn spec_dll_to(self) -> Seq<char> {
        below(self.spec_target(), dll_name(self.copied as int))
    }

    pub fn begin(prefix: &str, cache_root: &str) -> (r: DxvkInstall)
        ensures
            r.wf(),
            r.step == DxvkStep::CheckTarget,
            r.prefix@ == prefix@,
            r.cache_root@ == cache_root@,
            r.copied == 0,
            r.failure is None,
    {
        DxvkInstall {
            step: DxvkStep::CheckTarget,
            prefix: prefix.to_owned(),
            cache_root: cache_root.to_owned(),
            copied: 0,
            failure: None,
        }
    }

    /// The directory that the libraries go to.
    pub fn target_dir(&self) -> (r: String)
        ensures
            r@ == self.spec_target(),
    {
        join_path(self.prefix.as_str(), "drive_c/windows/syswow64")
    }

    /// The file that names the installed version.
    pub fn marker(&self) -> (r: String)
        ensures
            r@ == self.spec_marker(),
    {
        join_path(self.prefix.as_str(), ".dxvk-version")
    }

    /// The directory of the release in the cache.
    pub fn release_dir(&self) -> (r: String)
        ensures
            r@ == self.spec_release(),
    {
        join_path(self.cache_root.as_str(), DXVK_DIR)
    }

    /// The file that is there when the release is in the cache.
    pub fn release_witness(&self) -> (r: String)
        ensures
            r@ == below(below(self.spec_release(), "x32"@), "d3d9.dll"@),
    {
        join_path(join_path(self.release_dir().as_str(), "x32").as_str(), "d3d9.dll")
    }

    /// The library that is copied next.
    pub fn dll_from(&self) -> (r: String)
        ensures
            r@ == self.spec_dll_from(),
    {
        join_path(
            join_path(self.release_dir().as_str(), "x32").as_str(),
            if self.copied == 0 {
                "d3d9.dll"
            } else {
                "dxgi.dll"
            },
        )
    }

    /// Where it is copied to.
    pub fn dll_to(&self) -> (r: String)
        ensures
            r@ == self.spec_dll_to(),
    {
        join_path(
            self.target_dir().as_str(),
            if self.copied == 0 {
                "d3d9.dll"
            } else {
                "dxgi.dll"
            },
        )
    }

    fn fail(&mut self, message: String)
        requires
            old(self).wf(),
        ensures
            final(self).wf(),
            final(self).failed(message@),
    {
        self.step = DxvkStep::Finished;
        self.failure = Some(message);
    }

    /// It was looked whether the prefix has a directory for 32-bit libraries.
    pub fn target_checked(&mut self, is_dir: bool)
        requires
            old(self).wf(),
            old(self).step == DxvkStep::CheckTarget,
        ensures
            final(self).wf(),
            if is_dir {
                final(self).moved(*old(self), DxvkStep::ReadMarker)
            } else {
                final(self).failed(
                    "prefix syswow64 missing at "@ + old(self).spec_target()
                        + " (prefix not initialized, or a 32-bit prefix?)"@,
                )
            },
    {
        if is_dir {
            self.step = DxvkStep::ReadMarker;
        } else {
            let mut message: String = "prefix syswow64 missing at ".to_owned();
            message.append(self.target_dir().as_str());
            message.append(" (prefix not initialized, or a 32-bit prefix?)");
            self.fail(message);
        }
    }

    /// The marker was read. Where it names this version, nothing is left to do.
    pub fn marker_read(&mut self, marker: Option<&str>)
        requires
            old(self).wf(),
            old(self).step == DxvkStep::ReadMarker,
        ensures
            final(self).wf(),
            final(self).moved(
                *old(self),
                if marker is Some && trimmed(marker->0@) == DXVK_VERSION@ {
                    DxvkStep::Finished
                } else {
                    DxvkStep::CheckCache
                },
            ),
    {
        let current: bool = match marker {
            Some(text) => same(trim(text), DXVK_VERSION),
            None => false,
        };
        self.step = if current {
            DxvkStep::Finished
        } else {
            DxvkStep::CheckCache
        };
    }

    /// It was looked whether the release is in the cache.
    pub fn cache_checked(&mut self, there: bool)
        requires
            old(self).wf(),
            old(self).step == DxvkStep::CheckCache,
        ensures
            final(self).wf(),
            final(self).moved(
                *old(self),
                if there {
                    DxvkStep::CopyDll
                } else {
                    DxvkStep::CreateCache
                },
            ),
    {
        self.step = if there {
            DxvkStep::CopyDll
        } else {
            DxvkStep::CreateCache
        };
    }

    /// The cache was created.
    pub fn cache_created(&mut self, outcome: Result<(), String>)
        requires
            old(self).wf(),
            old(self).step == DxvkStep::CreateCache,
        ensures
            final(self).wf(),
            match outcome {
                Ok(_) => final(self).moved(*old(self), DxvkStep::Fetch),
                Err(e) => final(self).failed(
                    "creating DXVK cache dir "@ + old(self).cache_root@ + ": "@ + e@,
                ),
            },
    {
        match outcome {
            Ok(_) => {
                self.step = DxvkStep::Fetch;
            },
            Err(e) => {
                let mut message: String = "creating DXVK cache dir ".to_owned();
                message.append(self.cache_root.as_str());
                message.append(": ");
                message.append(e.as_str());
                self.fail(message);
            },
        }
    }

    /// The release was downloaded and unpacked.
    pub fn release_fetched(&mut self, outcome: Result<(), String>)
        requires
            old(self).wf(),
            old(self).step == DxvkStep::Fetch,
        ensures
            final(self).wf(),
            match outcome {
                Ok(_) => final(self).moved(*old(self), DxvkStep::CheckUnpacked),
                Err(e) => final(self).failed(e@),
            },
    {
        match outcome {
            Ok(_) => {
                self.step = DxvkStep::CheckUnpacked;
            },
            Err(e) => {
                self.fail(e);
            },
        }
    }

    /// It was looked again whether the release is in the cache.
    pub fn unpacked_checked(&mut self, there: bool)
        requires
            old(self).wf(),
            old(self).step == DxvkStep::CheckUnpacked,
        ensures
            final(self).wf(),
            if there {
                final(self).moved(*old(self), DxvkStep::CopyDll)
            } else {
                final(self).failed(
                    "DXVK archive did not contain the expected "@ + old(self).spec_release()
                        + "/x32/d3d9.dll"@,
                )
            },
    {
        if there {
            self.step = DxvkStep::CopyDll;
        } else {
            let mut message: String = "DXVK archive did not contain the expected ".to_owned();
            message.append(self.release_dir().as_str());
            message.append("/x32/d3d9.dll");
            self.fail(message);
        }
    }

    /// A library was copied.
    pub fn dll_copied(&mut self, outcome: Result<(), String>)
        requires
            old(self).wf(),
            old(self).step == DxvkStep::CopyDll,
        ensures
            final(self).wf(),
            match outcome {
                Ok(_) => {
                    &&& final(self).copied == old(self).copied + 1
                    &&& final(self).step == if old(self).copied + 1 < DXVK_DLL_COUNT {
                        DxvkStep::CopyDll
                    } else {
                        DxvkStep::WriteMarker
                    }
                    &&& final(self).prefix == old(self).prefix
                    &&& final(self).cache_root == old(self).cache_root
                    &&& final(self).failure is None
                },
                Err(e) => final(self).failed(
                    "copying "@ + old(self).spec_dll_from() + " -> "@ + old(self).spec_dll_to()
                        + ": "@ + e@,
                ),
            },
    {
        match outcome {
            Ok(_) => {
                self.copied = self.copied + 1;
                self.step = if self.copied < DXVK_DLL_COUNT {
                    DxvkStep::CopyDll
                } else {
                    DxvkStep::WriteMarker
                };
            },
            Err(e) => {
                let mut message: String = "copying ".to_owned();
                message.append(self.dll_from().as_str());
                message.append(" -> ");
                message.append(self.dll_to().as_str());
                message.append(": ");
                message.append(e.as_str());
                self.fail(message);
            },
        }
    }

    /// The marker was written.
    pub fn marker_written(&mut self, outcome: Result<(), String>)
        requires
            old(self).wf(),
            old(self).step == DxvkStep::WriteMarker,
        ensures
            final(self).wf(),
            match outcome {
                Ok(_) => final(self).moved(*old(self), DxvkStep::Finished),
                Err(e) => final(self).failed(
                    "writing DXVK marker "@ + old(self).spec_marker() + ": "@ + e@,
                ),
            },
    {
        match outcome {
            Ok(_) => {
                self.step = DxvkStep::Finished;
            },
            Err(e) => {
                let mut message: String = "writing DXVK marker ".to_owned();
                message.append(self.marker().as_str());
                message.append(": ");
                message.append(e.as_str());
                self.fail(message);
            },
        }
    }
}

/// Each entry counts for itself: Vulkan is there exactly where one of the entries, alone, shows it.
pub proof fn law_any_one_manifest_is_enough(entries: Seq<String>, i: int)
    requires
        0 <= i < entries.len(),
    ensures
        extension_of(entries[i]@) == Some("json"@) ==> any_manifest(entries),
        any_manifest(seq![entries[i]]) ==> any_manifest(entries),
        any_manifest(seq![entries[i]]) <==> extension_of(entries[i]@) == Some("json"@),
{
    let one = seq![entries[i]];
    assert(one[0] == entries[i]);
}

/// More entries never take a driver away, and two lots show one where either does.
pub proof fn law_manifests_add_up(a: Seq<String>, b: Seq<String>)
    ensures
        any_manifest(a + b) <==> any_manifest(a) || any_manifest(b),
        !any_manifest(Seq::empty()),
{
    let all = a + b;
    if any_manifest(a) {
        let i = choose|i: int|
            0 <= i < a.len() && extension_of((#[trigger] a[i])@) == Some("json"@);
        assert(all[i] == a[i]);
    }
    if any_manifest(b) {
        let i = choose|i: int|
            0 <= i < b.len() && extension_of((#[trigger] b[i])@) == Some("json"@);
        assert(all[a.len() + i] == b[i]);
    }
    if any_manifest(all) {
        let i = choose|i: int|
            0 <= i < all.len() && extension_of((#[trigger] all[i])@) == Some("json"@);
        if i < a.len() {
            assert(a[i] == all[i]);
        } else {
            assert(b[i - a.len()] == all[i]);
        }
    }
}

/// A file `name.json` in any directory shows a driver.
pub proof fn law_a_json_file_shows_a_driver(
    entries: Seq<String>,
    i: int,
    dir: Seq<char>,
    stem: Seq<char>,
)
    requires
        0 <= i < entries.len(),
        crate::path_text::is_plain(stem),
        entries[i]@ == below(dir, stem + ".json"@),
    ensures
        any_manifest(entries),
{
    reveal_strlit(".json");
    reveal_strlit("json");
    let leaf = stem + seq!['.'] + "json"@;
    assert(".json"@ =~= seq!['.'] + "json"@);
    assert(stem + ".json"@ =~= leaf);
    assert(leaf.len() > 2);
    crate::path_text::law_extension_stands_behind_the_last_dot(dir, stem, "json"@);
    law_any_one_manifest_is_enough(entries, i);
}

/// Where an installation looks and writes: the 32-bit libraries and the marker in the prefix, and
/// the release in the cache.
pub proof fn law_where_an_installation_works(install: DxvkInstall)
    ensures
        install.spec_target() == below(install.prefix@, "drive_c/windows/syswow64"@),
        install.spec_marker() == below(install.prefix@, ".dxvk-version"@),
        install.spec_release() == below(install.cache_root@, "dxvk-3.0"@),
        install.copied == 0 ==> install.spec_dll_from() == below(
            below(below(install.cache_root@, "dxvk-3.0"@), "x32"@),
            "d3d9.dll"@,
        ) && install.spec_dll_to() == below(
            below(install.prefix@, "drive_c/windows/syswow64"@),
            "d3d9.dll"@,
        ),
        install.copied == 1 ==> install.spec_dll_from() == below(
            below(below(install.cache_root@, "dxvk-3.0"@), "x32"@),
            "dxgi.dll"@,
        ) && install.spec_dll_to() == below(
            below(install.prefix@, "drive_c/windows/syswow64"@),
            "dxgi.dll"@,
        ),
{
}

/// The marker is written only over a complete installation, and a step leaves the rest as it was.
pub proof fn law_the_marker_comes_last(install: DxvkInstall, next: DxvkInstall, step: DxvkStep)
    requires
        install.wf(),
        next.moved(install, step),
    ensures
        install.step == DxvkStep::WriteMarker ==> install.copied == 2,
        install.step == DxvkStep::CopyDll ==> install.copied < 2,
        install.failure is Some ==> install.step == DxvkStep::Finished,
        next.step == step,
        next.prefix@ == install.prefix@ && next.cache_root@ == install.cache_root@,
        next.copied == install.copied,
        next.failure == install.failure,
{
}

/// An installation that failed has ended with its message.
pub proof fn law_how_an_installation_fails(install: DxvkInstall, message: Seq<char>)
    ensures
        install.failed(message) <==> install.step == DxvkStep::Finished && text_of(install.failure)
            == Some(message),
{
}

} // verus!
