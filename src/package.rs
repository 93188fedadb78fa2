//! What goes into the release archive, under which names, and what the
//! archive is called.

use crate::cli::{CompileTarget, GoTarget};
use crate::compile::views;
use crate::text::{join_path, join_spec};
use vstd::prelude::*;
use vstd::string::*;

verus! {

/// The paths of the files that the stages produced, in the order they were
/// added. Nothing is ever taken out.
#[derive(Debug)]
pub struct CollectedFiles {
    paths: Vec<String>,
}

impl View for CollectedFiles {
    type V = Seq<Seq<char>>;

    closed spec fn view(&self) -> Seq<Seq<char>> {
        views(self.paths@)
    }
}

impl CollectedFiles {
    pub fn new() -> (r: CollectedFiles)
        ensures
            r@ == Seq::<Seq<char>>::empty(),
    {
        let r = CollectedFiles { paths: Vec::new() };
        assert(r@ =~= Seq::<Seq<char>>::empty());
        r
    }

    /// Adds the path of a file that has been written.
    pub fn push(&mut self, path: String)
        ensures
            final(self)@ == old(self)@.push(path@),
    {
        self.paths.push(path);
        assert(views(self.paths@) =~= views(old(self).paths@).push(path@));
    }

    pub fn len(&self) -> (r: usize)
        ensures
            r == self@.len(),
    {
        self.paths.len()
    }

    /// The paths collected so far.
    pub fn paths(&self) -> (r: &Vec<String>)
        ensures
            views(r@) == self@,
    {
        &self.paths
    }
}

/// The documentation files of the repository that every archive holds.
pub open spec fn doc_files() -> Seq<Seq<char>> {
    seq!["README.md"@, "LICENSE"@]
}

/// The files to archive: those collected, then the repository's
/// `README.md` and `LICENSE`.
pub open spec fn package_files_spec(collected: Seq<Seq<char>>, repo_dir: Seq<char>) -> Seq<
    Seq<char>,
> {
    collected + seq![join_spec(repo_dir, "README.md"@), join_spec(repo_dir, "LICENSE"@)]
}

pub fn package_files(collected: &CollectedFiles, repo_dir: &str) -> (r: Vec<String>)
    ensures
        views(r@) == package_files_spec(collected@, repo_dir@),
{
    let src = collected.paths();
    let mut r: Vec<String> = Vec::new();
    let mut i: usize = 0;
    while i < src.len()
        invariant
            i <= src@.len(),
            views(src@) == collected@,
            views(r@) == collected@.take(i as int),
        decreases src@.len() - i,
    {
        let ghost prev = r@;
        r.push(src[i].clone());
        assert(views(src@)[i as int] == src@[i as int]@);
        assert(views(r@) =~= views(prev).push(src@[i as int]@));
        assert(collected@.take(i + 1) =~= collected@.take(i as int).push(collected@[i as int]));
        i = i + 1;
    }
    assert(collected@.take(i as int) =~= collected@);
    r.push(join_path(repo_dir, "README.md"));
    r.push(join_path(repo_dir, "LICENSE"));
    assert(views(r@) =~= package_files_spec(collected@, repo_dir@));
    r
}

/// `{project}-{identifier}-{arch}-{os}.zip`.
pub open spec fn archive_name_spec(
    target: CompileTarget,
    identifier: Seq<char>,
    arch: Seq<char>,
    os: Seq<char>,
) -> Seq<char> {
    target.project_spec() + "-"@ + identifier + "-"@ + arch + "-"@ + os + ".zip"@
}

/// The archive's file name, from the project, the build identifier and the
/// Go target.
pub fn archive_name(target: &CompileTarget, identifier: &str, go_target: &GoTarget) -> (r: String)
    ensures
        r@ == archive_name_spec(*target, identifier@, go_target.goarch@, go_target.goos@),
{
    String::from_str(target.project()).concat("-").concat(identifier).concat("-").concat(
        go_target.goarch.as_str(),
    ).concat("-").concat(go_target.goos.as_str()).concat(".zip")
}

/// The file name of a path: what follows its last `/`.
pub open spec fn base_name_spec(p: Seq<char>) -> Seq<char>
    decreases p.len(),
{
    if p.len() == 0 || p.last() == '/' {
        seq![]
    } else {
        base_name_spec(p.drop_last()).push(p.last())
    }
}

/// The file name of a path: what follows its last `/`.
pub fn base_name(path: &str) -> (r: &str)
    ensures
        r@ == base_name_spec(path@),
{
    let n = path.unicode_len();
    let mut start: usize = 0;
    let mut i: usize = 0;
    while i < n
        invariant
            n == path@.len(),
            start <= i <= n,
            base_name_spec(path@.take(i as int)) == path@.subrange(start as int, i as int),
        decreases n - i,
    {
        assert(path@.take(i + 1).drop_last() =~= path@.take(i as int));
        if path.get_char(i) == '/' {
            start = i + 1;
            assert(path@.subrange(start as int, i + 1) =~= Seq::<char>::empty());
        } else {
            assert(path@.subrange(start as int, i + 1) =~= path@.subrange(start as int, i as int).push(
                path@[i as int],
            ));
        }
        i = i + 1;
    }
    assert(path@.take(n as int) =~= path@);
    path.substring_char(start, n)
}

/// One archive entry: its name and the file it is read from.
#[derive(Debug)]
pub struct ArchiveEntry {
    pub name: String,
    pub source: String,
}

pub open spec fn entry_views(v: Seq<ArchiveEntry>) -> Seq<(Seq<char>, Seq<char>)> {
    v.map_values(|e: ArchiveEntry| (e.name@, e.source@))
}

/// The entries without those of the given name.
pub open spec fn without_name(es: Seq<(Seq<char>, Seq<char>)>, name: Seq<char>) -> Seq<
    (Seq<char>, Seq<char>),
>
    decreases es.len(),
{
    if es.len() == 0 {
        es
    } else if es.last().0 == name {
        without_name(es.drop_last(), name)
    } else {
        without_name(es.drop_last(), name).push(es.last())
    }
}

/// The entries of the archive: each file under its base name, in order; a
/// later file of the same base name replaces the earlier entry.
pub open spec fn archive_entries_spec(files: Seq<Seq<char>>) -> Seq<(Seq<char>, Seq<char>)>
    decreases files.len(),
{
    if files.len() == 0 {
        seq![]
    } else {
        let b = base_name_spec(files.last());
        without_name(archive_entries_spec(files.drop_last()), b).push((b, files.last()))
    }
}

fn clone_entry(e: &ArchiveEntry) -> (r: ArchiveEntry)
    ensures
        r.name@ == e.name@,
        r.source@ == e.source@,
{
    ArchiveEntry { name: e.name.clone(), source: e.source.clone() }
}

fn remove_named(es: &Vec<ArchiveEntry>, name: &String) -> (r: Vec<ArchiveEntry>)
    ensures
        entry_views(r@) == without_name(entry_views(es@), name@),
{
    let mut r: Vec<ArchiveEntry> = Vec::new();
    let mut i: usize = 0;
    while i < es.len()
        invariant
            i <= es@.len(),
            entry_views(r@) == without_name(entry_views(es@).take(i as int), name@),
        decreases es@.len() - i,
    {
        assert(entry_views(es@).take(i + 1).drop_last() =~= entry_views(es@).take(i as int));
        if es[i].name != *name {
            r.push(clone_entry(&es[i]));
            assert(entry_views(r@) =~= without_name(entry_views(es@).take(i as int), name@).push(
                entry_views(es@)[i as int],
            ));
        }
        i = i + 1;
    }
    assert(entry_views(es@).take(i as int) =~= entry_views(es@));
    r
}

/// The entries of the archive, flattened to base names; a later file of
/// the same base name replaces the earlier entry.
pub fn archive_entries(files: &Vec<String>) -> (r: Vec<ArchiveEntry>)
    ensures
        entry_views(r@) == archive_entries_spec(views(files@)),
{
    let mut r: Vec<ArchiveEntry> = Vec::new();
    let mut i: usize = 0;
    assert(entry_views(r@) =~= archive_entries_spec(views(files@).take(0)));
    while i < files.len()
        invariant
            i <= files@.len(),
            entry_views(r@) == archive_entries_spec(views(files@).take(i as int)),
        decreases files@.len() - i,
    {
        assert(views(files@).take(i + 1).drop_last() =~= views(files@).take(i as int));
        let name = String::from_str(base_name(files[i].as_str()));
        let mut next = remove_named(&r, &name);
        next.push(ArchiveEntry { name, source: files[i].clone() });
        r = next;
        i = i + 1;
    }
    assert(views(files@).take(i as int) =~= views(files@));
    r
}

/// No two entries share a name.
pub open spec fn names_unique(es: Seq<(Seq<char>, Seq<char>)>) -> bool {
    forall|i: int, j: int| 0 <= i < j < es.len() ==> #[trigger] es[i].0 != #[trigger] es[j].0
}

proof fn lemma_without_name(es: Seq<(Seq<char>, Seq<char>)>, name: Seq<char>)
    ensures
        forall|k: int|
            0 <= k < without_name(es, name).len() ==> {
                &&& (#[trigger] without_name(es, name)[k]).0 != name
                &&& es.contains(without_name(es, name)[k])
            },
        forall|x: (Seq<char>, Seq<char>)|
            #[trigger] es.contains(x) && x.0 != name ==> without_name(es, name).contains(x),
        names_unique(es) ==> names_unique(without_name(es, name)),
    decreases es.len(),
{
    if es.len() > 0 {
        let prev = es.drop_last();
        lemma_without_name(prev, name);
        let w = without_name(es, name);
        let wp = without_name(prev, name);
        assert forall|k: int| 0 <= k < w.len() implies {
            &&& (#[trigger] w[k]).0 != name
            &&& es.contains(w[k])
        } by {
            if k < wp.len() {
                assert(w[k] == wp[k]);
                let j = choose|j: int| 0 <= j < prev.len() && prev[j] == wp[k];
                assert(es[j] == prev[j]);
            } else {
                assert(w[k] == es.last());
                assert(es[es.len() - 1] == es.last());
            }
        }
        assert forall|x: (Seq<char>, Seq<char>)| #[trigger] es.contains(x) && x.0 != name implies w.contains(
            x,
        ) by {
            let j = choose|j: int| 0 <= j < es.len() && es[j] == x;
            if j < es.len() - 1 {
                assert(prev[j] == x);
                assert(prev.contains(x));
                let m = choose|m: int| 0 <= m < wp.len() && wp[m] == x;
                assert(w[m] == x);
            } else {
                assert(w[w.len() - 1] == x);
            }
        }
        if names_unique(es) {
            assert(names_unique(prev)) by {
                assert forall|i: int, j: int| 0 <= i < j < prev.len() implies #[trigger] prev[i].0
                    != #[trigger] prev[j].0 by {
                    assert(prev[i] == es[i] && prev[j] == es[j]);
                }
            }
            if es.last().0 != name {
                assert forall|i: int, j: int| 0 <= i < j < w.len() implies #[trigger] w[i].0
                    != #[trigger] w[j].0 by {
                    if j == w.len() - 1 {
                        assert(w[i] == wp[i]);
                        let m = choose|m: int| 0 <= m < prev.len() && prev[m] == wp[i];
                        assert(es[m] == prev[m]);
                        assert(w[j] == es[es.len() - 1]);
                    } else {
                        assert(w[i] == wp[i] && w[j] == wp[j]);
                    }
                }
            }
        }
    }
}

/// Whether file `k` is the last of its base name.
pub open spec fn last_of_name(files: Seq<Seq<char>>, k: int) -> bool {
    forall|m: int| k < m < files.len() ==> base_name_spec(#[trigger] files[m]) != base_name_spec(files[k])
}

/// The archive's entries have distinct names, and the last file of each base
/// name is the entry of that name.
pub proof fn lemma_entries_last_write_wins(files: Seq<Seq<char>>)
    ensures
        names_unique(archive_entries_spec(files)),
        forall|k: int|
            0 <= k < files.len() && #[trigger] last_of_name(files, k) ==> archive_entries_spec(
                files,
            ).contains((base_name_spec(files[k]), files[k])),
    decreases files.len(),
{
    if files.len() > 0 {
        let prev = files.drop_last();
        let b = base_name_spec(files.last());
        let pe = archive_entries_spec(prev);
        let w = without_name(pe, b);
        let es = archive_entries_spec(files);
        lemma_entries_last_write_wins(prev);
        lemma_without_name(pe, b);
        assert(es == w.push((b, files.last())));
        assert forall|i: int, j: int| 0 <= i < j < es.len() implies #[trigger] es[i].0
            != #[trigger] es[j].0 by {
            if j == es.len() - 1 {
                assert(es[i] == w[i]);
            } else {
                assert(es[i] == w[i] && es[j] == w[j]);
            }
        }
        assert forall|k: int| 0 <= k < files.len() && #[trigger] last_of_name(files, k) implies es.contains(
            (base_name_spec(files[k]), files[k]),
        ) by {
            if k == files.len() - 1 {
                assert(es[es.len() - 1] == (b, files.last()));
            } else {
                assert(prev[k] == files[k]);
                assert(base_name_spec(files[files.len() - 1]) != base_name_spec(files[k]));
                assert forall|m: int| k < m < prev.len() implies base_name_spec(#[trigger] prev[m])
                    != base_name_spec(prev[k]) by {
                    assert(prev[m] == files[m]);
                }
                assert(last_of_name(prev, k));
                assert(pe.contains((base_name_spec(prev[k]), prev[k])));
                let x = (base_name_spec(files[k]), files[k]);
                assert(w.contains(x));
                let m = choose|m: int| 0 <= m < w.len() && w[m] == x;
                assert(es[m] == x);
            }
        }
    }
}

/// Entries are flattened to base names: when two different files of one base
/// name are both packaged, the archive holds exactly one entry of that name,
/// read from the later of the two (the last file of that name).
pub proof fn lemma_same_base_name_one_entry(files: Seq<Seq<char>>, i: int, j: int)
    requires
        0 <= i < j < files.len(),
        files[i] != files[j],
        base_name_spec(files[i]) == base_name_spec(files[j]),
        last_of_name(files, j),
    ensures
        ({
            let es = archive_entries_spec(files);
            let b = base_name_spec(files[j]);
            exists|e: int|
                0 <= e < es.len() && es[e] == (b, files[j]) && forall|f: int|
                    0 <= f < es.len() && #[trigger] es[f].0 == b ==> f == e
        }),
        !archive_entries_spec(files).contains((base_name_spec(files[i]), files[i])),
{
    let es = archive_entries_spec(files);
    let b = base_name_spec(files[j]);
    lemma_entries_last_write_wins(files);
    assert(last_of_name(files, j));
    assert(es.contains((b, files[j])));
    let e = choose|e: int| 0 <= e < es.len() && es[e] == (b, files[j]);
    assert forall|f: int| 0 <= f < es.len() && #[trigger] es[f].0 == b implies f == e by {
        if f != e {
            if f < e {
                assert(es[f].0 != es[e].0);
            } else {
                assert(es[e].0 != es[f].0);
            }
        }
    }
    if es.contains((base_name_spec(files[i]), files[i])) {
        let f = choose|f: int| 0 <= f < es.len() && es[f] == (base_name_spec(files[i]), files[i]);
        assert(es[f].0 == b);
    }
}

} // verus!
