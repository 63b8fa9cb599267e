//! The order in which patches are applied, and the version files of an install.

use vstd::prelude::*;
use vstd::seq_lib::{to_multiset_build, to_multiset_insert};
use crate::path_text::{below, extension, extension_of, file_name, join_path, name_of};
use crate::text::{
    decimal, decimal_text, first_strings, is_blank, is_tight, join, joined,
    law_trimming_takes_off_what_is_around, lemma_precedes_irreflexive, lemma_precedes_total,
    lemma_precedes_transitive, precedes, same, text_precedes, texts, trim, trimmed,
};
use crate::version::{FFXIV_BOOT_VERSION, FFXIV_GAME_VERSION};
use super::manifest::{leaf, leaf_name, PatchEntry};
use super::walk::DirItem;

verus! {

/// How many missing names are spelled out.
pub const MAX_SHOWN: usize = 4;

/// Why no plan could be made from a local directory.
#[derive(Debug, PartialEq, Eq)]
pub enum PlanError {
    /// The source is no directory.
    NotADirectory(String),
    /// The directory could not be opened.
    Reading(String),
    /// An entry of the directory could not be read.
    Iterating(String),
    /// The kind of the entry at this path could not be told.
    Stat(String),
    /// Some patch files are not there.
    Missing { count: usize, source_dir: String, summary: String },
}

impl PlanError {
    /// The text of the error.
    pub open spec fn text(self) -> Seq<char> {
        match self {
            PlanError::NotADirectory(dir) => "local patch source is not a directory: "@ + dir@,
            PlanError::Reading(dir) => "reading "@ + dir@,
            PlanError::Iterating(dir) => "iterating "@ + dir@,
            PlanError::Stat(path) => "stat "@ + path@,
            PlanError::Missing { count, source_dir, summary } => decimal(count as nat)
                + " patch file(s) missing from "@ + source_dir@ + ": "@ + summary@,
        }
    }

    /// The text of the error.
    pub fn message(&self) -> (r: String)
        ensures
            r@ == self.text(),
    {
        match self {
            PlanError::NotADirectory(dir) => {
                let mut out: String = "local patch source is not a directory: ".to_owned();
                out.append(dir.as_str());
                out
            },
            PlanError::Reading(dir) => {
                let mut out: String = "reading ".to_owned();
                out.append(dir.as_str());
                out
            },
            PlanError::Iterating(dir) => {
                let mut out: String = "iterating ".to_owned();
                out.append(dir.as_str());
                out
            },
            PlanError::Stat(path) => {
                let mut out: String = "stat ".to_owned();
                out.append(path.as_str());
                out
            },
            PlanError::Missing { count, source_dir, summary } => {
                let mut out: String = decimal_text(*count as u64);
                out.append(" patch file(s) missing from ");
                out.append(source_dir.as_str());
                out.append(": ");
                out.append(summary.as_str());
                out
            },
        }
    }
}

/// Whether `path` is a patch file with the given name.
pub open spec fn is_patch_named(path: Seq<char>, name: Seq<char>) -> bool {
    extension_of(path) == Some("patch"@) && name_of(path) == Some(name)
}

/// The path of the first patch file with the given name.
pub open spec fn first_patch(files: Seq<DirItem>, name: Seq<char>) -> Option<Seq<char>>
    decreases files.len(),
{
    if files.len() == 0 {
        None
    } else if is_patch_named(files.first().path@, name) {
        Some(files.first().path@)
    } else {
        first_patch(files.drop_first(), name)
    }
}

/// The names of the manifest for which there is no patch file, in the manifest's order.
pub open spec fn missing_names(manifest: Seq<PatchEntry>, files: Seq<DirItem>) -> Seq<Seq<char>>
    decreases manifest.len(),
{
    if manifest.len() == 0 {
        Seq::empty()
    } else {
        let before = missing_names(manifest.drop_last(), files);
        let name = leaf(manifest.last().path@);
        if first_patch(files, name) is None {
            before.push(name)
        } else {
            before
        }
    }
}

/// The patch file of each manifest entry, in the manifest's order.
pub open spec fn resolved(manifest: Seq<PatchEntry>, files: Seq<DirItem>) -> Seq<Seq<char>> {
    manifest.map_values(|e: PatchEntry| first_patch(files, leaf(e.path@))->0)
}

/// Whether no path has a name that comes before that of an earlier path.
pub open spec fn sorted_by_name(paths: Seq<Seq<char>>) -> bool {
    forall|i: int, j: int|
        #![trigger paths[i], paths[j]]
        0 <= i <= j < paths.len() ==> !precedes(name_of(paths[j])->0, name_of(paths[i])->0)
}

/// A short list of names: all of them, or the first few and a count.
pub open spec fn summary_of(names: Seq<Seq<char>>) -> Seq<char> {
    if names.len() <= MAX_SHOWN {
        joined(names, ", "@)
    } else {
        joined(names.take(MAX_SHOWN as int), ", "@) + ", … ("@ + decimal(
            (names.len() - MAX_SHOWN) as nat,
        ) + " more)"@
    }
}

/// See [`summary_of`].
pub fn summarize_names(names: &Vec<String>) -> (r: String)
    ensures
        r@ == summary_of(texts(names@)),
{
    if names.len() <= MAX_SHOWN {
        return join(names, ", ");
    }
    let head: Vec<String> = first_strings(names, MAX_SHOWN);
    let mut out: String = join(&head, ", ");
    out.append(", … (");
    out.append(decimal_text((names.len() - MAX_SHOWN) as u64).as_str());
    out.append(" more)");
    out
}

/// A patch file that was found has the name that was asked for.
pub proof fn lemma_first_patch(files: Seq<DirItem>, name: Seq<char>)
    ensures
        first_patch(files, name) is Some ==> is_patch_named(first_patch(files, name)->0, name),
    decreases files.len(),
{
    if files.len() > 0 && !is_patch_named(files.first().path@, name) {
        lemma_first_patch(files.drop_first(), name);
    }
}

/// Whether the path is a patch file of that name; see [`is_patch_named`].
fn patch_named(path: &str, name: &str) -> (r: bool)
    ensures
        r == is_patch_named(path@, name@),
{
    let ext_fits: bool = match extension(path) {
        Some(ext) => same(ext.as_str(), "patch"),
        None => false,
    };
    let name_fits: bool = match file_name(path) {
        Some(found) => same(found.as_str(), name),
        None => false,
    };
    ext_fits && name_fits
}

/// The first patch file with the given name; see [`first_patch`].
pub fn find_patch(files: &Vec<DirItem>, name: &str) -> (r: Option<String>)
    ensures
        crate::text::text_of(r) == first_patch(files@, name@),
{
    let mut i: usize = 0;
    assert(files@.skip(0) == files@);
    while i < files.len()
        invariant
            i <= files.len(),
            first_patch(files@, name@) == first_patch(files@.skip(i as int), name@),
        decreases files.len() - i,
    {
        if patch_named(files[i].path.as_str(), name) {
            return Some(files[i].path.clone());
        }
        assert(files@.skip(i as int).drop_first() == files@.skip(i + 1));
        i = i + 1;
    }
    None
}

/// Whether each path has a name.
pub open spec fn all_named(paths: Seq<Seq<char>>) -> bool {
    forall|i: int| 0 <= i < paths.len() ==> name_of(#[trigger] paths[i]) is Some
}

/// Puts `path` behind the last path whose name is not greater.
fn insert_by_name(paths: &mut Vec<String>, path: String)
    requires
        sorted_by_name(texts(old(paths)@)),
        all_named(texts(old(paths)@)),
        name_of(path@) is Some,
    ensures
        sorted_by_name(texts(final(paths)@)),
        all_named(texts(final(paths)@)),
        texts(final(paths)@).to_multiset() == texts(old(paths)@).to_multiset().insert(path@),
{
    let ghost all: Seq<Seq<char>> = texts(paths@);
    let name: String = match file_name(path.as_str()) {
        Some(name) => name,
        None => String::new(),
    };
    let mut at: usize = paths.len();
    while at > 0
        invariant
            at <= paths.len(),
            all == texts(paths@),
            all_named(all),
            name_of(path@) == Some(name@),
            forall|k: int| at <= k < all.len() ==> precedes(name@, name_of(#[trigger] all[k])->0),
        ensures
            at <= paths.len(),
            all == texts(paths@),
            forall|k: int| at <= k < all.len() ==> precedes(name@, name_of(#[trigger] all[k])->0),
            at > 0 ==> !precedes(name@, name_of(all[at - 1])->0),
        decreases at,
    {
        let other: String = match file_name(paths[at - 1].as_str()) {
            Some(other) => other,
            None => String::new(),
        };
        assert(all[at - 1] == paths@[at - 1]@);
        assert(name_of(all[at - 1]) is Some);
        if !text_precedes(name.as_str(), other.as_str()) {
            break ;
        }
        at = at - 1;
    }
    let ghost it: Seq<char> = path@;
    paths.insert(at, path);
    proof {
        let now: Seq<Seq<char>> = texts(paths@);
        assert(now =~= all.insert(at as int, it));
        to_multiset_insert(all, at as int, it);
        assert forall|i: int| 0 <= i < now.len() implies name_of(#[trigger] now[i]) is Some by {
            if i < at {
                assert(now[i] == all[i]);
            } else if i > at {
                assert(now[i] == all[i - 1]);
            }
        }
        assert forall|i: int, j: int|
            #![trigger now[i], now[j]]
            0 <= i <= j < now.len() implies !precedes(name_of(now[j])->0, name_of(now[i])->0) by {
            let x = name_of(it)->0;
            if i < at && j == at {
                let top = name_of(all[at - 1])->0;
                assert(now[i] == all[i]);
                assert(!precedes(x, top));
                assert(!precedes(top, name_of(all[i])->0));
                lemma_precedes_total(x, top);
                if precedes(x, name_of(all[i])->0) && x != top {
                    lemma_precedes_transitive(top, x, name_of(all[i])->0);
                }
            } else if i == at && j == at {
                lemma_precedes_irreflexive(x);
            } else if i == at && j > at {
                assert(now[j] == all[j - 1]);
                if precedes(name_of(all[j - 1])->0, x) {
                    lemma_precedes_transitive(x, name_of(all[j - 1])->0, x);
                    lemma_precedes_irreflexive(x);
                }
            } else {
                let a = if i < at {
                    i
                } else {
                    i - 1
                };
                let b = if j < at {
                    j
                } else {
                    j - 1
                };
                assert(now[i] == all[a]);
                assert(now[j] == all[b]);
            }
        }
    }
}

/// The patch files in the order in which they are applied.
#[derive(Debug)]
pub struct PatchPlan {
    pub patches_in_order: Vec<String>,
}

impl PatchPlan {
    /// The patch file of each manifest entry among the regular files under `source_dir`, sorted
    /// by file name so that later patches come later.
    pub fn from_local_source(
        manifest: &Vec<PatchEntry>,
        source_dir: &str,
        files: &Vec<DirItem>,
    ) -> (r: Result<PatchPlan, PlanError>)
        ensures
            r is Ok <==> missing_names(manifest@, files@).len() == 0,
            match r {
                Ok(plan) => {
                    &&& sorted_by_name(texts(plan.patches_in_order@))
                    &&& texts(plan.patches_in_order@).to_multiset() == resolved(
                        manifest@,
                        files@,
                    ).to_multiset()
                },
                Err(e) => {
                    &&& e is Missing
                    &&& e->count == missing_names(manifest@, files@).len()
                    &&& e->source_dir@ == source_dir@
                    &&& e->summary@ == summary_of(missing_names(manifest@, files@))
                },
            },
    {
        let mut paths: Vec<String> = Vec::new();
        let mut missing: Vec<String> = Vec::new();
        let mut i: usize = 0;
        assert(resolved(manifest@.take(0), files@) =~= texts(paths@));
        while i < manifest.len()
            invariant
                i <= manifest.len(),
                texts(missing@) == missing_names(manifest@.take(i as int), files@),
                sorted_by_name(texts(paths@)),
                all_named(texts(paths@)),
                missing@.len() == 0 ==> texts(paths@).to_multiset() == resolved(
                    manifest@.take(i as int),
                    files@,
                ).to_multiset(),
            decreases manifest.len() - i,
        {
            let name: &str = leaf_name(manifest[i].path.as_str());
            proof {
                lemma_first_patch(files@, name@);
                assert(manifest@.take(i + 1).drop_last() == manifest@.take(i as int));
            }
            let ghost gone: Seq<Seq<char>> = texts(missing@);
            let ghost so_far: Seq<Seq<char>> = resolved(manifest@.take(i as int), files@);
            match find_patch(files, name) {
                Some(path) => {
                    proof {
                        assert(resolved(manifest@.take(i + 1), files@) =~= so_far.push(path@));
                        to_multiset_build(so_far, path@);
                    }
                    insert_by_name(&mut paths, path);
                },
                None => {
                    missing.push(name.to_owned());
                    assert(texts(missing@) =~= gone.push(name@));
                },
            }
            i = i + 1;
        }
        assert(manifest@.take(manifest@.len() as int) == manifest@);
        if missing.len() > 0 {
            return Err(
                PlanError::Missing {
                    count: missing.len(),
                    source_dir: source_dir.to_owned(),
                    summary: summarize_names(&missing),
                },
            );
        }
        Ok(PatchPlan { patches_in_order: paths })
    }
}

/// Whether the text of `game.ver` is that of an up-to-date install.
pub open spec fn is_current(game_ver: Seq<char>) -> bool {
    trimmed(game_ver) == FFXIV_GAME_VERSION@
}

/// Whether an install is up to date, by what its `game.ver` holds: `None` where that file cannot
/// be read.
pub fn check_game_version(game_ver: Option<&str>) -> (r: bool)
    ensures
        r == match game_ver {
            Some(text) => is_current(text@),
            None => false,
        },
{
    match game_ver {
        Some(text) => same(trim(text), FFXIV_GAME_VERSION),
        None => false,
    }
}

/// A file and what is to be written to it.
#[derive(Debug, PartialEq, Eq)]
pub struct VersionFile {
    pub path: String,
    pub contents: String,
}

/// The files that mark the install at `game_location` as updated, in the order of writing.
pub fn write_version_files(game_location: &str) -> (r: Vec<VersionFile>)
    ensures
        r@.len() == 2,
        r@[0].path@ == below(game_location@, "boot.ver"@),
        r@[0].contents@ == FFXIV_BOOT_VERSION@,
        r@[1].path@ == below(game_location@, "game.ver"@),
        r@[1].contents@ == FFXIV_GAME_VERSION@,
        r@[0].contents@ == "2010.09.18.0000"@,
        r@[1].contents@ == "2012.09.19.0001"@,
{
    let boot: VersionFile = VersionFile {
        path: join_path(game_location, "boot.ver"),
        contents: FFXIV_BOOT_VERSION.to_owned(),
    };
    let game: VersionFile = VersionFile {
        path: join_path(game_location, "game.ver"),
        contents: FFXIV_GAME_VERSION.to_owned(),
    };
    let mut out: Vec<VersionFile> = Vec::new();
    out.push(boot);
    out.push(game);
    out
}

/// What [`write_version_files`] writes marks the install as up to date.
pub proof fn law_written_version_is_current()
    ensures
        is_current(FFXIV_GAME_VERSION@),
{
    reveal_strlit("2012.09.19.0001");
}

/// White space around the version does not matter, and but for it a single text is current: the
/// one that is written.
pub proof fn law_one_version_is_current(lead: Seq<char>, a: Seq<char>, trail: Seq<char>)
    requires
        is_blank(lead),
        is_tight(a),
        is_blank(trail),
    ensures
        is_current(lead + a + trail) <==> is_current(a),
        is_current(a) <==> a == FFXIV_GAME_VERSION@,
        is_current(a) <==> a == "2012.09.19.0001"@,
{
    law_trimming_takes_off_what_is_around(lead, a, trail);
    let none = Seq::<char>::empty();
    law_trimming_takes_off_what_is_around(none, a, none);
    assert(none + a + none =~= a);
}

/// Two texts without white space at their ends that are both current are the same.
pub proof fn law_current_versions_are_equal(a: Seq<char>, b: Seq<char>)
    requires
        is_tight(a),
        is_tight(b),
        is_current(a),
        is_current(b),
    ensures
        a == b,
{
    law_one_version_is_current(Seq::empty(), a, Seq::empty());
    law_one_version_is_current(Seq::empty(), b, Seq::empty());
}

/// A file is a patch of the given name exactly where this is its name, and ends in `.patch`.
pub proof fn law_what_a_patch_file_is(
    dir: Seq<char>,
    stem: Seq<char>,
    leaf_here: Seq<char>,
    name: Seq<char>,
)
    requires
        crate::path_text::is_plain(stem),
        crate::path_text::is_plain(leaf_here),
        leaf_here != seq!['.'],
        leaf_here != seq!['.', '.'],
    ensures
        is_patch_named(below(dir, stem + ".patch"@), stem + ".patch"@),
        leaf_here != name ==> !is_patch_named(below(dir, leaf_here), name),
        is_patch_named(below(dir, leaf_here), name) ==> ".patch"@.len() < leaf_here.len()
            && leaf_here.skip(leaf_here.len() - ".patch"@.len()) == ".patch"@,
{
    reveal_strlit(".patch");
    reveal_strlit("patch");
    let whole = stem + seq!['.'] + "patch"@;
    assert(stem + ".patch"@ =~= whole);
    assert(whole.len() > 2);
    assert(!whole.contains('/')) by {
        if whole.contains('/') {
            let i = choose|i: int| 0 <= i < whole.len() && whole[i] == '/';
            if i < stem.len() {
                assert(stem[i] == '/');
            }
        }
    }
    crate::path_text::law_extension_stands_behind_the_last_dot(dir, stem, "patch"@);
    crate::path_text::law_joined_name(dir, whole);
    crate::path_text::law_joined_name(dir, leaf_here);
    if is_patch_named(below(dir, leaf_here), name) {
        let at = crate::text::last_start(leaf_here, '.');
        crate::text::lemma_last_start(leaf_here, '.');
        lemma_dot_before(leaf_here);
        assert(leaf_here.skip(at) == "patch"@);
        assert(leaf_here[at - 1] == '.');
        let ext = leaf_here.skip(at);
        assert(ext.len() == 5);
        assert(ext[0] == leaf_here[at] && ext[1] == leaf_here[at + 1]);
        assert(ext[2] == leaf_here[at + 2] && ext[3] == leaf_here[at + 3]);
        assert(ext[4] == leaf_here[at + 4]);
        let end = leaf_here.skip(leaf_here.len() - 6);
        assert(end[0] == '.' && end[1] == leaf_here[at] && end[2] == leaf_here[at + 1]);
        assert(end[3] == leaf_here[at + 2] && end[4] == leaf_here[at + 3]);
        assert(end[5] == leaf_here[at + 4]);
        assert(end =~= ".patch"@);
    }
}

proof fn lemma_dot_before(s: Seq<char>)
    ensures
        crate::text::last_start(s, '.') > 0 ==> s[crate::text::last_start(s, '.') - 1] == '.',
    decreases s.len(),
{
    if s.len() > 0 && s.last() != '.' {
        lemma_dot_before(s.drop_last());
        crate::text::lemma_last_start(s.drop_last(), '.');
    }
}

/// Of several patch files with a name the first is taken, and none where there is none.
pub proof fn law_the_first_patch_is_taken(files: Seq<DirItem>, name: Seq<char>, k: int)
    requires
        0 <= k <= files.len(),
        forall|i: int| 0 <= i < k ==> !is_patch_named((#[trigger] files[i]).path@, name),
        k < files.len() ==> is_patch_named(files[k].path@, name),
    ensures
        first_patch(files, name) == if k < files.len() {
            Some(files[k].path@)
        } else {
            None
        },
    decreases files.len(),
{
    if k > 0 {
        assert(!is_patch_named(files[0].path@, name));
        let rest = files.drop_first();
        assert forall|i: int| 0 <= i < k - 1 implies !is_patch_named(
            (#[trigger] rest[i]).path@,
            name,
        ) by {
            assert(rest[i] == files[i + 1]);
        }
        law_the_first_patch_is_taken(rest, name, k - 1);
    }
}

/// The names that are missing: entry by entry, the name of an entry without a patch file.
pub proof fn law_missing_names_entry_by_entry(
    a: Seq<PatchEntry>,
    b: Seq<PatchEntry>,
    entry: PatchEntry,
    files: Seq<DirItem>,
)
    ensures
        missing_names(a + b, files) == missing_names(a, files) + missing_names(b, files),
        missing_names(Seq::empty(), files) == Seq::<Seq<char>>::empty(),
        (exists|j: int|
            0 <= j < files.len() && is_patch_named((#[trigger] files[j]).path@, leaf(entry.path@)))
            ==> missing_names(seq![entry], files) == Seq::<Seq<char>>::empty(),
        (forall|j: int|
            0 <= j < files.len() ==> !is_patch_named((#[trigger] files[j]).path@, leaf(entry.path@)))
            ==> missing_names(seq![entry], files) == seq![leaf(entry.path@)],
    decreases b.len(),
{
    if b.len() == 0 {
        assert(a + b =~= a);
        assert(missing_names(a + b, files) =~= missing_names(a, files) + missing_names(b, files));
    } else {
        assert((a + b).drop_last() =~= a + b.drop_last());
        law_missing_names_entry_by_entry(a, b.drop_last(), entry, files);
        assert(missing_names(a + b, files) =~= missing_names(a, files) + missing_names(b, files));
    }
    let one = seq![entry];
    let name = leaf(entry.path@);
    assert(one.drop_last() =~= Seq::<PatchEntry>::empty());
    assert(missing_names(one.drop_last(), files) =~= Seq::<Seq<char>>::empty());
    assert(Seq::<Seq<char>>::empty().push(name) =~= seq![name]);
    if exists|j: int| 0 <= j < files.len() && is_patch_named((#[trigger] files[j]).path@, name) {
        let j = choose|j: int| 0 <= j < files.len() && is_patch_named((#[trigger] files[j]).path@, name);
        lemma_patch_is_found(files, name, j);
    } else {
        law_the_first_patch_is_taken(files, name, files.len() as int);
    }
}

proof fn lemma_patch_is_found(files: Seq<DirItem>, name: Seq<char>, j: int)
    requires
        0 <= j < files.len(),
        is_patch_named(files[j].path@, name),
    ensures
        first_patch(files, name) is Some,
    decreases files.len(),
{
    if !is_patch_named(files[0].path@, name) {
        assert(files.drop_first()[j - 1] == files[j]);
        lemma_patch_is_found(files.drop_first(), name, j - 1);
    }
}

/// In a sorted plan an earlier patch comes before a later one by its name.
pub proof fn law_later_patches_come_later(paths: Seq<Seq<char>>, i: int, j: int)
    requires
        sorted_by_name(paths),
        0 <= i < j < paths.len(),
        name_of(paths[i]) is Some,
        name_of(paths[j]) is Some,
    ensures
        precedes(name_of(paths[i])->0, name_of(paths[j])->0) || name_of(paths[i]) == name_of(
            paths[j],
        ),
{
    lemma_precedes_total(name_of(paths[i])->0, name_of(paths[j])->0);
}

/// The files of a plan: each entry of the manifest has the first patch file of its name.
pub proof fn law_a_plan_holds_the_files_of_the_manifest(
    manifest: Seq<PatchEntry>,
    files: Seq<DirItem>,
    i: int,
    k: int,
)
    requires
        0 <= i < manifest.len(),
        0 <= k < files.len(),
        is_patch_named(files[k].path@, leaf(manifest[i].path@)),
        forall|j: int|
            0 <= j < k ==> !is_patch_named((#[trigger] files[j]).path@, leaf(manifest[i].path@)),
    ensures
        resolved(manifest, files).len() == manifest.len(),
        resolved(manifest, files)[i] == files[k].path@,
{
    law_the_first_patch_is_taken(files, leaf(manifest[i].path@), k);
}

/// Up to four names are all spelled out; of more, the first four and how many there are besides.
pub proof fn law_a_summary_spells_out_four_names(names: Seq<Seq<char>>)
    ensures
        names.len() <= 4 ==> summary_of(names) == joined(names, ", "@),
        names.len() > 4 ==> summary_of(names) == joined(names.take(4), ", "@) + ", … ("@ + decimal(
            (names.len() - 4) as nat,
        ) + " more)"@,
{
}

/// What is said of a plan that could not be made names the directory or the path.
pub proof fn law_plan_errors_are_told(dir: String, count: usize, summary: String)
    ensures
        PlanError::NotADirectory(dir).text() == "local patch source is not a directory: "@ + dir@,
        PlanError::Reading(dir).text() == "reading "@ + dir@,
        PlanError::Iterating(dir).text() == "iterating "@ + dir@,
        PlanError::Stat(dir).text() == "stat "@ + dir@,
        (PlanError::Missing { count, source_dir: dir, summary }).text() == decimal(count as nat)
            + " patch file(s) missing from "@ + dir@ + ": "@ + summary@,
{
}

/// However a path is written, it is a patch file of the same name.
pub proof fn law_a_patch_file_however_written(a: Seq<char>, b: Seq<char>, name: Seq<char>)
    ensures
        crate::path_text::same_path(a, b) ==> is_patch_named(a, name) == is_patch_named(b, name),
        is_patch_named(a, name) <==> name_of(a) == Some(name) && extension_of(a) == Some("patch"@),
{
}

} // verus!
