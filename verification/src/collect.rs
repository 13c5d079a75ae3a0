use vstd::prelude::*;

verus! {

/// What probing one user-supplied path reported.
#[derive(Clone, Copy, Debug)]
pub enum PathKind {
    /// The path names an existing file.
    File,
    /// The path names an existing directory.
    Dir,
    /// The path names neither; such entries are silently skipped.
    Missing,
}

/// One entry of a directory walk: a path, whether it is a file, and how deep
/// under the walked root it sits (1 = direct child of the root).
#[derive(Debug)]
pub struct ScanEntry {
    pub path: String,
    pub is_file: bool,
    pub depth: usize,
}

/// One user-supplied path together with what the filesystem reported of it:
/// its kind and, for a directory, the recursive walk below it.
#[derive(Debug)]
pub struct ProbedEntry {
    pub path: String,
    pub kind: PathKind,
    pub walk: Vec<ScanEntry>,
}

/// Whether a walk entry is selected as a candidate: it must be a file, and
/// without recursion it must be a direct child of the walked root.
pub open spec fn selects(e: ScanEntry, recursive: bool) -> bool {
    e.is_file && (recursive || e.depth <= 1)
}

/// The selected file paths of one directory walk, in walk order.
pub open spec fn selected_paths(walk: Seq<ScanEntry>, recursive: bool) -> Seq<Seq<char>>
    decreases walk.len(),
{
    if walk.len() == 0 {
        Seq::empty()
    } else {
        selected_paths(walk.drop_last(), recursive) + (if selects(walk.last(), recursive) {
            seq![walk.last().path@]
        } else {
            Seq::empty()
        })
    }
}

/// The candidate files of one probed entry: a file stands for itself, a
/// directory for the selected entries of its walk, anything else for
/// nothing.
pub open spec fn entry_candidates(e: ProbedEntry, recursive: bool) -> Seq<Seq<char>> {
    match e.kind {
        PathKind::File => seq![e.path@],
        PathKind::Dir => selected_paths(e.walk@, recursive),
        PathKind::Missing => Seq::empty(),
    }
}

/// The candidate files of a whole batch, in discovery order.
pub open spec fn spec_collect(entries: Seq<ProbedEntry>, recursive: bool) -> Seq<Seq<char>>
    decreases entries.len(),
{
    if entries.len() == 0 {
        Seq::empty()
    } else {
        spec_collect(entries.drop_last(), recursive) + entry_candidates(
            entries.last(),
            recursive,
        )
    }
}

/// Expands the probed user-supplied paths into the flat list of candidate
/// file paths, in discovery order.
pub fn collect_candidates(entries: &Vec<ProbedEntry>, recursive: bool) -> (r: Vec<String>)
    ensures
        r.deep_view() == spec_collect(entries@, recursive),
{
    let mut r: Vec<String> = Vec::new();
    let mut i: usize = 0;
    while i < entries.len()
        invariant
            i <= entries.len(),
            r.deep_view() == spec_collect(entries@.subrange(0, i as int), recursive),
        decreases entries.len() - i,
    {
        let ghost prefix = entries@.subrange(0, i as int);
        let entry = &entries[i];
        match entry.kind {
            PathKind::File => {
                let ghost before = r.deep_view();
                r.push(entry.path.clone());
                proof {
                    assert(r.deep_view() =~= before + seq![entry.path@]);
                }
            },
            PathKind::Dir => {
                let ghost base = r.deep_view();
                let walk = &entry.walk;
                let mut j: usize = 0;
                while j < walk.len()
                    invariant
                        j <= walk.len(),
                        r.deep_view() == base + selected_paths(
                            walk@.subrange(0, j as int),
                            recursive,
                        ),
                    decreases walk.len() - j,
                {
                    let ghost wprefix = walk@.subrange(0, j as int);
                    let w = &walk[j];
                    if w.is_file && (recursive || w.depth <= 1) {
                        let ghost before = r.deep_view();
                        r.push(w.path.clone());
                        proof {
                            assert(r.deep_view() =~= before + seq![w.path@]);
                        }
                    }
                    proof {
                        let wnext = walk@.subrange(0, j + 1 as int);
                        assert(wnext.drop_last() =~= wprefix);
                        assert(wnext.last() == walk@[j as int]);
                        assert(r.deep_view() =~= base + selected_paths(wnext, recursive));
                    }
                    j = j + 1;
                }
                proof {
                    assert(walk@.subrange(0, walk@.len() as int) =~= walk@);
                }
            },
            PathKind::Missing => {},
        }
        proof {
            let next = entries@.subrange(0, i + 1 as int);
            assert(next.drop_last() =~= prefix);
            assert(next.last() == entries@[i as int]);
            assert(r.deep_view() =~= spec_collect(next, recursive));
        }
        i = i + 1;
    }
    proof {
        assert(entries@.subrange(0, entries@.len() as int) =~= entries@);
    }
    r
}

/// Soundness of selection: every collected path of a walk comes from a walk
/// entry that is a file and, without recursion, a direct child. In
/// particular, with recursion disabled no file deeper than one level is ever
/// collected.
pub proof fn lemma_selected_sound(walk: Seq<ScanEntry>, recursive: bool, k: int)
    requires
        0 <= k < selected_paths(walk, recursive).len(),
    ensures
        exists|j: int|
            0 <= j < walk.len() && selects(#[trigger] walk[j], recursive) && walk[j].path@
                == selected_paths(walk, recursive)[k],
    decreases walk.len(),
{
    let s = selected_paths(walk, recursive);
    let prev = selected_paths(walk.drop_last(), recursive);
    if k < prev.len() {
        lemma_selected_sound(walk.drop_last(), recursive, k);
        let j = choose|j: int|
            0 <= j < walk.drop_last().len() && selects(#[trigger] walk.drop_last()[j], recursive)
                && walk.drop_last()[j].path@ == prev[k];
        assert(walk[j] == walk.drop_last()[j]);
    } else {
        assert(selects(walk[walk.len() - 1], recursive) && walk[walk.len() - 1].path@ == s[k]);
    }
}

/// Completeness of selection: every walk entry that is a file and, without
/// recursion, a direct child has its path collected. With recursion enabled
/// this covers every file of the walk.
pub proof fn lemma_selected_complete(walk: Seq<ScanEntry>, recursive: bool, j: int)
    requires
        0 <= j < walk.len(),
        selects(walk[j], recursive),
    ensures
        selected_paths(walk, recursive).contains(walk[j].path@),
    decreases walk.len(),
{
    let s = selected_paths(walk, recursive);
    let prev = selected_paths(walk.drop_last(), recursive);
    if j == walk.len() - 1 {
        assert(s[prev.len() as int] == walk[j].path@);
    } else {
        lemma_selected_complete(walk.drop_last(), recursive, j);
        let k = choose|k: int| 0 <= k < prev.len() && prev[k] == walk.drop_last()[j].path@;
        assert(s[k] == walk[j].path@);
    }
}

} // verus!
