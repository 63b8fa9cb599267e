//! Walks over directory trees. A walk names the next directory to read and is handed what that
//! directory holds.

use vstd::prelude::*;
use crate::path_text::{is_dotted, is_hidden};

verus! {

/// How many directory levels under the storage root are searched.
pub const MAX_SEARCH_DEPTH: u32 = 4;

/// What a directory entry is.
#[derive(Debug, Clone, Copy, PartialEq, Eq, Structural)]
pub enum EntryKind {
    Directory,
    File,
    /// Neither a directory nor a regular file.
    Other,
}

/// One entry of a directory.
#[derive(Debug, PartialEq, Eq)]
pub struct DirItem {
    pub path: String,
    pub kind: EntryKind,
}

/// What each directory holds, in the order in which it is read. A directory that cannot be read
/// holds nothing.
pub type Tree = spec_fn(Seq<char>) -> Seq<DirItem>;

/// The entries of `items` that are no directories, with those of the directories among them in
/// their place. `depth` is the level of the directory that holds `items`; hidden directories and
/// those below the deepest level are left out.
pub open spec fn files_within(tree: Tree, items: Seq<DirItem>, depth: nat) -> Seq<DirItem>
    decreases MAX_SEARCH_DEPTH - depth, items.len(),
{
    if items.len() == 0 {
        Seq::empty()
    } else {
        files_of(tree, items.first(), depth) + files_within(tree, items.drop_first(), depth)
    }
}

/// The files that one entry stands for: itself, or those within the directory that it is.
pub open spec fn files_of(tree: Tree, item: DirItem, depth: nat) -> Seq<DirItem>
    decreases MAX_SEARCH_DEPTH - depth, 0nat,
{
    if item.kind != EntryKind::Directory {
        seq![item]
    } else if is_dotted(item.path@) || depth >= MAX_SEARCH_DEPTH {
        Seq::empty()
    } else {
        files_within(tree, tree(item.path@), depth + 1)
    }
}

/// What entries that wait for their turn stand for; the last one comes first.
pub open spec fn files_of_pending(tree: Tree, pending: Seq<(DirItem, u32)>) -> Seq<DirItem>
    decreases pending.len(),
{
    if pending.len() == 0 {
        Seq::empty()
    } else {
        files_of(tree, pending.last().0, pending.last().1 as nat) + files_of_pending(
            tree,
            pending.drop_last(),
        )
    }
}

/// Whether an entry at the given level is a directory that is to be read.
pub open spec fn is_entered(item: DirItem, depth: nat) -> bool {
    item.kind == EntryKind::Directory && !is_dotted(item.path@) && depth < MAX_SEARCH_DEPTH
}

/// The place of the first entry that is to be read, or the number of entries.
pub open spec fn next_entered(line: Seq<(DirItem, nat)>) -> int
    decreases line.len(),
{
    if line.len() == 0 || is_entered(line.first().0, line.first().1) {
        0
    } else {
        1 + next_entered(line.drop_first())
    }
}

/// The entries that are no directories, in their order.
pub open spec fn files_among(line: Seq<(DirItem, nat)>) -> Seq<DirItem>
    decreases line.len(),
{
    if line.len() == 0 {
        Seq::empty()
    } else if line.last().0.kind != EntryKind::Directory {
        files_among(line.drop_last()).push(line.last().0)
    } else {
        files_among(line.drop_last())
    }
}

/// The place that [`next_entered`] tells.
proof fn lemma_next_entered(line: Seq<(DirItem, nat)>, n: int)
    requires
        0 <= n <= line.len(),
        forall|i: int| 0 <= i < n ==> !is_entered((#[trigger] line[i]).0, line[i].1),
        n < line.len() ==> is_entered(line[n].0, line[n].1),
    ensures
        next_entered(line) == n,
    decreases line.len(),
{
    if n > 0 {
        assert(!is_entered(line[0].0, line[0].1));
        let rest = line.drop_first();
        assert forall|i: int| 0 <= i < n - 1 implies !is_entered(
            (#[trigger] rest[i]).0,
            rest[i].1,
        ) by {
            assert(rest[i] == line[i + 1]);
        }
        if n < line.len() {
            assert(rest[n - 1] == line[n]);
        }
        lemma_next_entered(rest, n - 1);
    }
}

/// The entries of a stack in the order in which they are taken from it.
pub open spec fn in_turn(pending: Seq<(DirItem, u32)>) -> Seq<(DirItem, nat)> {
    Seq::new(
        pending.len(),
        |i: int| (pending[pending.len() - 1 - i].0, pending[pending.len() - 1 - i].1 as nat),
    )
}

/// The entries of a listing, all at the given level.
pub open spec fn at_level(listing: Seq<DirItem>, depth: nat) -> Seq<(DirItem, nat)> {
    listing.map_values(|item: DirItem| (item, depth))
}

/// A search of a storage directory, with a limit on its depth, that passes over hidden
/// directories and those that cannot be read.
pub struct StorageWalk {
    pending: Vec<(DirItem, u32)>,
    awaited: Option<(String, u32)>,
    found: Vec<DirItem>,
}

impl StorageWalk {
    /// A walk that waits for no directory is over.
    pub closed spec fn wf(self) -> bool {
        self.awaited is None ==> self.pending@.len() == 0
    }

    /// The directory that is to be read next.
    pub closed spec fn awaiting(self) -> Option<Seq<char>> {
        match self.awaited {
            Some((dir, depth)) => Some(dir@),
            None => None,
        }
    }

    /// The level of the directory that is to be read next.
    pub closed spec fn depth(self) -> nat {
        match self.awaited {
            Some((dir, depth)) => depth as nat,
            None => 0,
        }
    }

    /// The files that were met.
    pub closed spec fn found(self) -> Seq<DirItem> {
        self.found@
    }

    /// The entries that wait for their turn, each with its level; the first one is next.
    pub closed spec fn left(self) -> Seq<(DirItem, nat)> {
        in_turn(self.pending@)
    }

    /// The files that the walk ends with on the given tree.
    pub closed spec fn outcome(self, tree: Tree) -> Seq<DirItem> {
        let read = match self.awaited {
            Some((dir, depth)) => files_within(tree, tree(dir@), depth as nat),
            None => Seq::empty(),
        };
        self.found@ + read + files_of_pending(tree, self.pending@)
    }

    /// A walk that begins with reading `storage_dir`.
    pub fn start(storage_dir: &str) -> (r: StorageWalk)
        ensures
            r.wf(),
            r.awaiting() == Some(storage_dir@),
            r.depth() == 0,
            r.found() == Seq::<DirItem>::empty(),
            r.left() == Seq::<(DirItem, nat)>::empty(),
            forall|tree: Tree| #[trigger]
                r.outcome(tree) == files_within(tree, tree(storage_dir@), 0),
    {
        StorageWalk {
            pending: Vec::new(),
            awaited: Some((storage_dir.to_owned(), 0)),
            found: Vec::new(),
        }
    }

    /// The directory to read next, or `None` when the walk is over.
    pub fn wanted(&self) -> (r: Option<String>)
        ensures
            crate::text::text_of(r) == self.awaiting(),
    {
        match &self.awaited {
            Some((dir, _)) => Some(dir.clone()),
            None => None,
        }
    }

    /// Whether the walk has come from `old` by taking the entries of `line` up to the next
    /// directory that is to be read: the files among them are found, and the entries behind that
    /// directory are left.
    pub open spec fn went_on(self, old: StorageWalk, line: Seq<(DirItem, nat)>) -> bool {
        let n = next_entered(line);
        &&& self.found() == old.found() + files_among(line.take(n))
        &&& if n < line.len() {
            &&& self.awaiting() == Some(line[n].0.path@)
            &&& self.depth() == line[n].1 + 1
            &&& self.left() == line.skip(n + 1)
        } else {
            &&& self.awaiting() is None
            &&& self.left() == Seq::<(DirItem, nat)>::empty()
        }
    }

    /// Hands over what the wanted directory holds: nothing where it could not be read. The walk
    /// goes through those entries, and then through those that were left.
    pub fn supply(&mut self, listing: Vec<DirItem>)
        requires
            old(self).wf(),
            old(self).awaiting() is Some,
        ensures
            final(self).wf(),
            final(self).went_on(
                *old(self),
                at_level(listing@, old(self).depth()) + old(self).left(),
            ),
            forall|tree: Tree|
                tree(old(self).awaiting()->0) == listing@ ==> #[trigger] final(self).outcome(tree)
                    == old(self).outcome(tree),
    {
        let ghost items: Seq<DirItem> = listing@;
        let ghost waiting: Seq<(DirItem, u32)> = self.pending@;
        let ghost before: StorageWalk = *self;
        let mut rest: Vec<DirItem> = listing;
        let depth: u32 = match &self.awaited {
            Some((_, depth)) => *depth,
            None => 0,
        };
        self.awaited = None;
        assert(items.skip(items.len() as int) == Seq::<DirItem>::empty());
        assert(items.take(items.len() as int) == items);
        assert(in_turn(waiting) =~= at_level(items.skip(items.len() as int), depth as nat)
            + in_turn(waiting));
        while rest.len() > 0
            invariant
                rest@ == items.take(rest.len() as int),
                rest.len() <= items.len(),
                self.awaited is None,
                self.found@ == before.found@,
                in_turn(self.pending@) == at_level(items.skip(rest.len() as int), depth as nat)
                    + in_turn(waiting),
                forall|tree: Tree| #[trigger]
                    files_of_pending(tree, self.pending@) == files_within(
                        tree,
                        items.skip(rest.len() as int),
                        depth as nat,
                    ) + files_of_pending(tree, waiting),
            decreases rest.len(),
        {
            let ghost n: int = rest.len() as int;
            let ghost stacked: Seq<(DirItem, u32)> = self.pending@;
            if let Some(item) = rest.pop() {
                self.pending.push((item, depth));
                proof {
                    assert(item == items[n - 1]);
                    assert(items.take(n).drop_last() == items.take(n - 1));
                    assert(self.pending@.drop_last() == stacked);
                    assert(items.skip(n - 1).first() == item);
                    assert(items.skip(n - 1).drop_first() == items.skip(n));
                    let turns = in_turn(self.pending@);
                    assert(turns.drop_first() =~= in_turn(stacked));
                    assert(turns =~= seq![(item, depth as nat)] + in_turn(stacked));
                    assert(at_level(items.skip(n - 1), depth as nat) =~= seq![
                        (item, depth as nat),
                    ] + at_level(items.skip(n), depth as nat));
                    assert(turns =~= at_level(items.skip(n - 1), depth as nat) + in_turn(
                        waiting,
                    ));
                    assert forall|tree: Tree| #[trigger]
                        files_of_pending(tree, self.pending@) == files_within(
                            tree,
                            items.skip(n - 1),
                            depth as nat,
                        ) + files_of_pending(tree, waiting) by {
                        assert(files_of_pending(tree, stacked) == files_within(
                            tree,
                            items.skip(n),
                            depth as nat,
                        ) + files_of_pending(tree, waiting));
                    }
                }
            }
        }
        proof {
            assert(items.skip(0) == items);
            assert forall|tree: Tree| tree(before.awaiting()->0) == items implies #[trigger]
                self.outcome(tree) == before.outcome(tree) by {
                assert(files_of_pending(tree, self.pending@) == files_within(
                    tree,
                    items.skip(0),
                    depth as nat,
                ) + files_of_pending(tree, waiting));
            }
        }
        let ghost line: Seq<(DirItem, nat)> = self.left();
        self.settle();
        assert(line =~= at_level(items, before.depth()) + before.left());
    }

    /// Takes pending entries up to the next directory that is to be read.
    fn settle(&mut self)
        requires
            old(self).awaited is None,
        ensures
            final(self).wf(),
            final(self).went_on(*old(self), old(self).left()),
            forall|tree: Tree| #[trigger] final(self).outcome(tree) == old(self).outcome(tree),
    {
        let ghost before: StorageWalk = *self;
        let ghost line: Seq<(DirItem, nat)> = self.left();
        let ghost mut n: int = 0;
        assert(line.skip(0) =~= line);
        assert(self.found@ =~= before.found@ + files_among(line.take(0)));
        while self.pending.len() > 0
            invariant
                before == *old(self),
                line == before.left(),
                0 <= n <= line.len(),
                self.left() == line.skip(n),
                self.found@ == before.found@ + files_among(line.take(n)),
                forall|i: int| 0 <= i < n ==> !is_entered((#[trigger] line[i]).0, line[i].1),
                self.awaited is None,
                forall|tree: Tree| #[trigger] self.outcome(tree) == before.outcome(tree),
            decreases self.pending.len(),
        {
            let ghost was: StorageWalk = *self;
            if let Some((item, depth)) = self.pending.pop() {
                assert(self.pending@ == was.pending@.drop_last());
                proof {
                    assert(was.left()[0] == (item, depth as nat));
                    assert(was.left().len() == line.len() - n);
                    assert(line[n] == (item, depth as nat));
                    assert(self.left() =~= was.left().drop_first());
                    assert(self.left() =~= line.skip(n + 1));
                    assert(line.take(n + 1).drop_last() =~= line.take(n));
                    assert(line.take(n + 1).last() == line[n]);
                }
                if item.kind != EntryKind::Directory {
                    self.found.push(item);
                    assert forall|tree: Tree| #[trigger]
                        self.outcome(tree) == before.outcome(tree) by {
                        assert(was.outcome(tree) == before.outcome(tree));
                        assert(files_of(tree, item, depth as nat) == seq![item]);
                    }
                } else if !is_hidden(item.path.as_str()) && depth < MAX_SEARCH_DEPTH {
                    proof {
                        lemma_next_entered(line, n);
                    }
                    self.awaited = Some((item.path, depth + 1));
                    assert forall|tree: Tree| #[trigger]
                        self.outcome(tree) == before.outcome(tree) by {
                        assert(was.outcome(tree) == before.outcome(tree));
                    }
                    return ;
                } else {
                    assert forall|tree: Tree| #[trigger]
                        self.outcome(tree) == before.outcome(tree) by {
                        assert(was.outcome(tree) == before.outcome(tree));
                    }
                }
                proof {
                    assert(self.found@ =~= before.found@ + files_among(line.take(n + 1)));
                    n = n + 1;
                }
            }
        }
        proof {
            assert(self.left() =~= Seq::<(DirItem, nat)>::empty());
            assert(n == line.len());
            lemma_next_entered(line, n);
        }
    }

    /// The files that were found.
    pub fn into_files(self) -> (r: Vec<DirItem>)
        requires
            self.wf(),
            self.awaiting() is None,
        ensures
            r@ == self.found(),
            forall|tree: Tree| #[trigger] self.outcome(tree) == r@,
    {
        proof {
            assert forall|tree: Tree| #[trigger] self.outcome(tree) == self.found@ by {}
        }
        self.found
    }
}

/// The entries of `items` that are of the given kind, in their order.
pub open spec fn of_kind(items: Seq<DirItem>, kind: EntryKind) -> Seq<DirItem>
    decreases items.len(),
{
    if items.len() == 0 {
        Seq::empty()
    } else if items.last().kind == kind {
        of_kind(items.drop_last(), kind).push(items.last())
    } else {
        of_kind(items.drop_last(), kind)
    }
}

/// The paths of `items`.
pub open spec fn paths_of(items: Seq<DirItem>) -> Seq<Seq<char>> {
    items.map_values(|item: DirItem| item.path@)
}

/// The regular files of all listings, in their order.
pub open spec fn files_read(listings: Seq<Seq<DirItem>>) -> Seq<DirItem>
    decreases listings.len(),
{
    if listings.len() == 0 {
        Seq::empty()
    } else {
        files_read(listings.drop_last()) + of_kind(listings.last(), EntryKind::File)
    }
}

/// A walk over a whole directory tree. It takes the directory that was met last, and ends on the
/// first that cannot be read.
pub struct PatchSourceWalk {
    stack: Vec<String>,
    found: Vec<DirItem>,
    seen: Ghost<Seq<Seq<char>>>,
    read: Ghost<Seq<Seq<DirItem>>>,
}

impl PatchSourceWalk {
    /// The directories that wait to be read; the last one is next.
    pub closed spec fn waiting(self) -> Seq<Seq<char>> {
        crate::text::texts(self.stack@)
    }

    /// The directories that were read, in the order in which they were.
    pub closed spec fn dirs(self) -> Seq<Seq<char>> {
        self.seen@
    }

    /// What each of those directories held.
    pub closed spec fn listings(self) -> Seq<Seq<DirItem>> {
        self.read@
    }

    /// Every directory that was met has been read or waits, and the files are those that the
    /// listings hold.
    pub closed spec fn wf(self) -> bool {
        &&& self.seen@.len() == self.read@.len()
        &&& self.found@ == files_read(self.read@)
        &&& forall|i: int, j: int|
            #![trigger self.read@[i][j]]
            0 <= i < self.read@.len() && 0 <= j < self.read@[i].len() && self.read@[i][j].kind
                == EntryKind::Directory ==> self.seen@.contains(self.read@[i][j].path@)
                || self.waiting().contains(self.read@[i][j].path@)
    }

    /// Whether nothing was met that is neither a directory nor a regular file.
    pub open spec fn holds_only_files_and_directories(self) -> bool {
        forall|i: int, j: int|
            #![trigger self.listings()[i][j]]
            0 <= i < self.listings().len() && 0 <= j < self.listings()[i].len()
                ==> self.listings()[i][j].kind != EntryKind::Other
    }

    /// Whether the walk began at `root`, and was handed what the tree holds.
    pub open spec fn on_tree(self, tree: Tree, root: Seq<char>) -> bool {
        &&& self.dirs().len() == self.listings().len()
        &&& self.dirs().len() == 0 ==> self.waiting() == seq![root]
        &&& self.dirs().len() > 0 ==> self.dirs()[0] == root
        &&& forall|i: int|
            0 <= i < self.dirs().len() ==> #[trigger] self.listings()[i] == tree(self.dirs()[i])
    }

    /// A walk that begins with reading `source_dir`.
    pub fn start(source_dir: &str) -> (r: PatchSourceWalk)
        ensures
            r.wf(),
            forall|tree: Tree| #[trigger] r.on_tree(tree, source_dir@),
            r.waiting() == seq![source_dir@],
            r.dirs() == Seq::<Seq<char>>::empty(),
            r.listings() == Seq::<Seq<DirItem>>::empty(),
    {
        let mut stack: Vec<String> = Vec::new();
        stack.push(source_dir.to_owned());
        let walk: PatchSourceWalk = PatchSourceWalk {
            stack,
            found: Vec::new(),
            seen: Ghost(Seq::empty()),
            read: Ghost(Seq::empty()),
        };
        assert(walk.waiting() =~= seq![source_dir@]);
        walk
    }

    /// The directory to read next, or `None` when the walk is over.
    pub fn wanted(&self) -> (r: Option<String>)
        ensures
            crate::text::text_of(r) == if self.waiting().len() == 0 {
                None
            } else {
                Some(self.waiting().last())
            },
    {
        if self.stack.len() == 0 {
            None
        } else {
            Some(self.stack[self.stack.len() - 1].clone())
        }
    }

    /// Hands over what the wanted directory holds.
    pub fn supply(&mut self, listing: Vec<DirItem>)
        requires
            old(self).wf(),
            old(self).waiting().len() > 0,
        ensures
            final(self).wf(),
            final(self).dirs() == old(self).dirs().push(old(self).waiting().last()),
            final(self).listings() == old(self).listings().push(listing@),
            final(self).waiting() == old(self).waiting().drop_last() + paths_of(
                of_kind(listing@, EntryKind::Directory),
            ),
            forall|tree: Tree, root: Seq<char>|
                old(self).on_tree(tree, root) && tree(old(self).waiting().last()) == listing@
                    ==> #[trigger] final(self).on_tree(tree, root),
    {
        let ghost was: PatchSourceWalk = *self;
        let ghost items: Seq<DirItem> = listing@;
        self.stack.pop();
        let ghost base: Seq<Seq<char>> = self.waiting();
        assert(base == was.waiting().drop_last());
        let mut i: usize = 0;
        while i < listing.len()
            invariant
                i <= listing.len(),
                listing@ == items,
                self.seen == was.seen,
                self.read == was.read,
                self.found@ == was.found@ + of_kind(items.take(i as int), EntryKind::File),
                self.waiting() == base + paths_of(
                    of_kind(items.take(i as int), EntryKind::Directory),
                ),
            decreases listing.len() - i,
        {
            let ghost held: Seq<Seq<char>> = self.waiting();
            let ghost dirs: Seq<DirItem> = of_kind(items.take(i as int), EntryKind::Directory);
            proof {
                assert(items.take(i + 1).drop_last() == items.take(i as int));
                assert(items.take(i + 1).last() == items[i as int]);
            }
            match listing[i].kind {
                EntryKind::Directory => {
                    self.stack.push(listing[i].path.clone());
                    proof {
                        assert(self.waiting() == held.push(items[i as int].path@));
                        assert(paths_of(dirs.push(items[i as int])) == paths_of(dirs).push(
                            items[i as int].path@,
                        ));
                        assert(held.push(items[i as int].path@) == base + paths_of(dirs).push(
                            items[i as int].path@,
                        ));
                    }
                },
                EntryKind::File => {
                    self.found.push(
                        DirItem { path: listing[i].path.clone(), kind: EntryKind::File },
                    );
                    assert(self.found@.last() == items[i as int]);
                },
                EntryKind::Other => {},
            }
            i = i + 1;
        }
        assert(items.take(items.len() as int) == items);
        self.seen = Ghost(self.seen@.push(was.waiting().last()));
        self.read = Ghost(self.read@.push(items));
        proof {
            assert(self.read@.drop_last() =~= was.read@);
            lemma_of_kind(items, EntryKind::Directory);
            let later: Seq<DirItem> = of_kind(items, EntryKind::Directory);
            assert forall|i: int, j: int|
                #![trigger self.read@[i][j]]
                0 <= i < self.read@.len() && 0 <= j < self.read@[i].len() && self.read@[i][j].kind
                    == EntryKind::Directory implies self.seen@.contains(self.read@[i][j].path@)
                || self.waiting().contains(self.read@[i][j].path@) by {
                let path = self.read@[i][j].path@;
                if i < was.read@.len() {
                    assert(was.read@[i][j] == self.read@[i][j]);
                    if was.seen@.contains(path) {
                        let m = choose|m: int| 0 <= m < was.seen@.len() && was.seen@[m] == path;
                        assert(self.seen@[m] == path);
                    } else {
                        let m = choose|m: int|
                            0 <= m < was.waiting().len() && was.waiting()[m] == path;
                        if m == was.waiting().len() - 1 {
                            assert(self.seen@[was.seen@.len() as int] == path);
                        } else {
                            assert(self.waiting()[m] == path);
                        }
                    }
                } else {
                    assert(items[j].kind == EntryKind::Directory);
                    assert(later.contains(items[j]));
                    let m = choose|m: int| 0 <= m < later.len() && later[m] == items[j];
                    assert(self.waiting()[base.len() + m] == path);
                }
            }
        }
    }

    /// The regular files that were found.
    pub fn into_files(self) -> (r: Vec<DirItem>)
        requires
            self.wf(),
        ensures
            r@ == files_read(self.listings()),
    {
        self.found
    }
}

/// Every entry of the kind is among those taken out.
pub proof fn lemma_of_kind(items: Seq<DirItem>, kind: EntryKind)
    ensures
        forall|i: int|
            0 <= i < items.len() && (#[trigger] items[i]).kind == kind ==> of_kind(
                items,
                kind,
            ).contains(items[i]),
    decreases items.len(),
{
    if items.len() > 0 {
        let front = items.drop_last();
        lemma_of_kind(front, kind);
        assert forall|i: int| 0 <= i < items.len() && (#[trigger] items[i]).kind == kind implies
            of_kind(items, kind).contains(items[i]) by {
            if i < front.len() {
                assert(front[i] == items[i]);
                let m = choose|m: int|
                    0 <= m < of_kind(front, kind).len() && of_kind(front, kind)[m] == items[i];
                assert(of_kind(items, kind)[m] == items[i]);
            } else {
                let all = of_kind(items, kind);
                assert(all[all.len() - 1] == items[i]);
            }
        }
    }
}

/// A walk that is over has read every directory that it met.
pub proof fn law_walk_reads_every_directory(walk: PatchSourceWalk, i: int, j: int)
    requires
        walk.wf(),
        walk.waiting().len() == 0,
        0 <= i < walk.listings().len(),
        0 <= j < walk.listings()[i].len(),
        walk.listings()[i][j].kind == EntryKind::Directory,
    ensures
        walk.dirs().contains(walk.listings()[i][j].path@),
{
    assert(walk.read@[i][j].kind == EntryKind::Directory);
}

proof fn lemma_files_read(listings: Seq<Seq<DirItem>>, i: int, j: int)
    requires
        0 <= i < listings.len(),
        0 <= j < listings[i].len(),
        listings[i][j].kind == EntryKind::File,
    ensures
        files_read(listings).contains(listings[i][j]),
    decreases listings.len(),
{
    let item = listings[i][j];
    let front = listings.drop_last();
    let before = files_read(front);
    let last = of_kind(listings.last(), EntryKind::File);
    if i < front.len() {
        assert(front[i] == listings[i]);
        lemma_files_read(front, i, j);
        let m = choose|m: int| 0 <= m < before.len() && before[m] == item;
        assert(files_read(listings)[m] == item);
    } else {
        lemma_of_kind(listings.last(), EntryKind::File);
        let m = choose|m: int| 0 <= m < last.len() && last[m] == item;
        assert(files_read(listings)[before.len() + m] == item);
    }
}

/// A file of a storage walk from the given place of a directory on, the directory being one that
/// the source walk has read, is among those of the source walk.
proof fn lemma_source_walk_finds(
    tree: Tree,
    root: Seq<char>,
    walk: PatchSourceWalk,
    d: int,
    k: int,
    depth: nat,
    file: DirItem,
)
    requires
        walk.wf(),
        walk.waiting().len() == 0,
        walk.on_tree(tree, root),
        walk.holds_only_files_and_directories(),
        0 <= d < walk.dirs().len(),
        0 <= k <= walk.listings()[d].len(),
        files_within(tree, walk.listings()[d].skip(k), depth).contains(file),
    ensures
        files_read(walk.listings()).contains(file),
    decreases MAX_SEARCH_DEPTH - depth, walk.listings()[d].len() - k,
{
    let items = walk.listings()[d];
    let line = items.skip(k);
    let all = files_within(tree, line, depth);
    if k < items.len() {
        let item = items[k];
        assert(line.first() == item);
        assert(line.drop_first() =~= items.skip(k + 1));
        let here = files_of(tree, item, depth);
        let later = files_within(tree, items.skip(k + 1), depth);
        assert(all == here + later);
        let m = choose|m: int| 0 <= m < all.len() && all[m] == file;
        if m < here.len() {
            assert(here[m] == file);
            if item.kind != EntryKind::Directory {
                assert(walk.listings()[d][k].kind != EntryKind::Other);
                lemma_files_read(walk.listings(), d, k);
            } else {
                law_walk_reads_every_directory(walk, d, k);
                let e = choose|e: int| 0 <= e < walk.dirs().len() && walk.dirs()[e] == item.path@;
                assert(walk.listings()[e] == tree(item.path@));
                assert(walk.listings()[e].skip(0) =~= walk.listings()[e]);
                lemma_source_walk_finds(tree, root, walk, e, 0, depth + 1, file);
            }
        } else {
            assert(later[m - here.len()] == file);
            lemma_source_walk_finds(tree, root, walk, d, k + 1, depth, file);
        }
    }
}

/// On one tree of directories and regular files, every file that a storage walk finds is among
/// those of a source walk.
pub proof fn law_source_walk_finds_what_a_storage_walk_finds(
    tree: Tree,
    root: Seq<char>,
    walk: PatchSourceWalk,
    file: DirItem,
)
    requires
        walk.wf(),
        walk.waiting().len() == 0,
        walk.on_tree(tree, root),
        walk.holds_only_files_and_directories(),
        files_within(tree, tree(root), 0).contains(file),
    ensures
        files_read(walk.listings()).contains(file),
{
    assert(walk.listings()[0] == tree(root));
    assert(walk.listings()[0].skip(0) =~= tree(root));
    lemma_source_walk_finds(tree, root, walk, 0, 0, 0, file);
}

/// What a storage walk finds, entry by entry: a file is found; a directory stands for what it
/// holds, unless it is hidden or lies below the fourth level.
pub proof fn law_what_a_storage_walk_finds(
    tree: Tree,
    a: Seq<DirItem>,
    b: Seq<DirItem>,
    item: DirItem,
    depth: nat,
)
    ensures
        files_within(tree, a + b, depth) == files_within(tree, a, depth) + files_within(
            tree,
            b,
            depth,
        ),
        files_within(tree, Seq::empty(), depth).len() == 0,
        item.kind != EntryKind::Directory ==> files_within(tree, seq![item], depth) == seq![item],
        item.kind == EntryKind::Directory && depth < 4 && !is_dotted(item.path@) ==> files_within(
            tree,
            seq![item],
            depth,
        ) == files_within(tree, tree(item.path@), depth + 1),
        item.kind == EntryKind::Directory && (depth >= 4 || is_dotted(item.path@)) ==> files_within(
            tree,
            seq![item],
            depth,
        ).len() == 0,
    decreases a.len(),
{
    if a.len() == 0 {
        assert(a + b =~= b);
        assert(files_within(tree, a + b, depth) =~= files_within(tree, a, depth) + files_within(
            tree,
            b,
            depth,
        ));
    } else {
        assert((a + b).drop_first() =~= a.drop_first() + b);
        assert((a + b).first() == a.first());
        law_what_a_storage_walk_finds(tree, a.drop_first(), b, item, depth);
        assert(files_within(tree, a + b, depth) =~= files_within(tree, a, depth) + files_within(
            tree,
            b,
            depth,
        ));
    }
    let one = seq![item];
    assert(one.first() == item);
    assert(one.drop_first() =~= Seq::<DirItem>::empty());
    let none = files_within(tree, Seq::empty(), depth);
    assert(none =~= Seq::<DirItem>::empty());
    assert(files_within(tree, one, depth) =~= files_of(tree, item, depth));
}

/// The directory that is read next is the first that is neither hidden nor too deep.
pub proof fn law_which_directory_is_read_next(line: Seq<(DirItem, nat)>, n: int)
    requires
        0 <= n <= line.len(),
        forall|i: int|
            0 <= i < n ==> (#[trigger] line[i]).0.kind != EntryKind::Directory || is_dotted(
                line[i].0.path@,
            ) || line[i].1 >= 4,
        n < line.len() ==> line[n].0.kind == EntryKind::Directory && !is_dotted(line[n].0.path@)
            && line[n].1 < 4,
    ensures
        next_entered(line) == n,
{
    assert forall|i: int| 0 <= i < n implies !is_entered((#[trigger] line[i]).0, line[i].1) by {}
    lemma_next_entered(line, n);
}

/// The entries of a kind, lot by lot, in their order.
pub proof fn law_entries_of_a_kind(
    a: Seq<DirItem>,
    b: Seq<DirItem>,
    item: DirItem,
    kind: EntryKind,
)
    ensures
        of_kind(a + b, kind) == of_kind(a, kind) + of_kind(b, kind),
        of_kind(seq![item], kind) == if item.kind == kind {
            seq![item]
        } else {
            Seq::empty()
        },
        of_kind(Seq::empty(), kind).len() == 0,
    decreases b.len(),
{
    if b.len() == 0 {
        assert(a + b =~= a);
        assert(of_kind(a + b, kind) =~= of_kind(a, kind) + of_kind(b, kind));
    } else {
        assert((a + b).drop_last() =~= a + b.drop_last());
        law_entries_of_a_kind(a, b.drop_last(), item, kind);
        assert(of_kind(a + b, kind) =~= of_kind(a, kind) + of_kind(b, kind));
    }
    assert(of_kind(Seq::empty(), kind) =~= Seq::<DirItem>::empty());
    assert(seq![item].drop_last() =~= Seq::<DirItem>::empty());
    assert(seq![item].last() == item);
    assert(of_kind(seq![item], kind) =~= if item.kind == kind {
        seq![item]
    } else {
        Seq::empty()
    });
}

/// Whatever is no directory is found, in its order, and directories are not.
pub proof fn law_files_among_the_entries(
    a: Seq<(DirItem, nat)>,
    b: Seq<(DirItem, nat)>,
    entry: (DirItem, nat),
)
    ensures
        files_among(a + b) == files_among(a) + files_among(b),
        files_among(seq![entry]) == if entry.0.kind == EntryKind::Directory {
            Seq::empty()
        } else {
            seq![entry.0]
        },
        files_among(Seq::empty()).len() == 0,
    decreases b.len(),
{
    if b.len() == 0 {
        assert(a + b =~= a);
        assert(files_among(a + b) =~= files_among(a) + files_among(b));
    } else {
        assert((a + b).drop_last() =~= a + b.drop_last());
        law_files_among_the_entries(a, b.drop_last(), entry);
        assert(files_among(a + b) =~= files_among(a) + files_among(b));
    }
    assert(files_among(Seq::empty()) =~= Seq::<DirItem>::empty());
    assert(seq![entry].drop_last() =~= Seq::<(DirItem, nat)>::empty());
    assert(seq![entry].last() == entry);
    assert(files_among(seq![entry]) =~= if entry.0.kind == EntryKind::Directory {
        Seq::empty()
    } else {
        seq![entry.0]
    });
}

/// The files of a walk over everything, directory by directory: the regular files of each.
pub proof fn law_files_directory_by_directory(
    a: Seq<Seq<DirItem>>,
    b: Seq<Seq<DirItem>>,
    i: int,
    j: int,
)
    ensures
        files_read(a + b) == files_read(a) + files_read(b),
        files_read(Seq::empty()).len() == 0,
        0 <= i < a.len() && 0 <= j < a[i].len() && a[i][j].kind == EntryKind::File ==> files_read(
            a,
        ).contains(a[i][j]),
        forall|m: int|
            0 <= m < files_read(b).len() ==> (#[trigger] files_read(b)[m]).kind == EntryKind::File,
    decreases b.len(),
{
    if b.len() == 0 {
        assert(a + b =~= a);
        assert(files_read(a + b) =~= files_read(a) + files_read(b));
    } else {
        assert((a + b).drop_last() =~= a + b.drop_last());
        law_files_directory_by_directory(a, b.drop_last(), i, j);
        assert(files_read(a + b) =~= files_read(a) + files_read(b));
        lemma_only_of_kind(b.last(), EntryKind::File);
        let before = files_read(b.drop_last());
        assert forall|m: int| 0 <= m < files_read(b).len() implies (
        #[trigger] files_read(b)[m]).kind == EntryKind::File by {
            if m < before.len() {
                assert(files_read(b)[m] == before[m]);
            } else {
                assert(files_read(b)[m] == of_kind(b.last(), EntryKind::File)[m - before.len()]);
            }
        }
    }
    if 0 <= i < a.len() && 0 <= j < a[i].len() && a[i][j].kind == EntryKind::File {
        lemma_files_read(a, i, j);
    }
}

proof fn lemma_only_of_kind(items: Seq<DirItem>, kind: EntryKind)
    ensures
        forall|m: int|
            0 <= m < of_kind(items, kind).len() ==> (#[trigger] of_kind(items, kind)[m]).kind
                == kind,
    decreases items.len(),
{
    if items.len() > 0 {
        let before = of_kind(items.drop_last(), kind);
        lemma_only_of_kind(items.drop_last(), kind);
        assert forall|m: int| 0 <= m < of_kind(items, kind).len() implies (
        #[trigger] of_kind(items, kind)[m]).kind == kind by {
            if m < before.len() {
                assert(of_kind(items, kind)[m] == before[m]);
            }
        }
    }
}

/// The entries of a listing are taken in their order, at its level; those that wait, the last
/// first.
pub proof fn law_entries_are_taken_in_order(
    listing: Seq<DirItem>,
    depth: nat,
    pending: Seq<(DirItem, u32)>,
    i: int,
)
    ensures
        at_level(listing, depth).len() == listing.len(),
        0 <= i < listing.len() ==> at_level(listing, depth)[i] == (listing[i], depth),
        in_turn(pending).len() == pending.len(),
        0 <= i < pending.len() ==> in_turn(pending)[i].0 == pending[pending.len() - 1 - i].0
            && in_turn(pending)[i].1 == pending[pending.len() - 1 - i].1,
        paths_of(listing).len() == listing.len(),
        0 <= i < listing.len() ==> paths_of(listing)[i] == listing[i].path@,
{
}

/// A walk that goes on has found the files before the next directory, reads that one, one level
/// deeper, and leaves what comes behind it; without such a directory it is over.
pub proof fn law_how_a_walk_goes_on(
    walk: StorageWalk,
    old: StorageWalk,
    line: Seq<(DirItem, nat)>,
    n: int,
)
    requires
        walk.went_on(old, line),
        0 <= n <= line.len(),
        forall|i: int|
            0 <= i < n ==> (#[trigger] line[i]).0.kind != EntryKind::Directory || is_dotted(
                line[i].0.path@,
            ) || line[i].1 >= 4,
        n < line.len() ==> line[n].0.kind == EntryKind::Directory && !is_dotted(line[n].0.path@)
            && line[n].1 < 4,
    ensures
        walk.found() == old.found() + files_among(line.take(n)),
        n < line.len() ==> walk.awaiting() == Some(line[n].0.path@) && walk.depth() == line[n].1 + 1
            && walk.left() == line.skip(n + 1),
        n == line.len() ==> walk.awaiting() is None && walk.left().len() == 0,
{
    law_which_directory_is_read_next(line, n);
}

} // verus!
