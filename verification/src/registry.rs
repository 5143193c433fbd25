//! The gene registry of a director: which gene type each path is mapped to, and
//! how an actor path finds the gene of its nearest mapped ancestor.
use crate::gene::{gene_type_label, GeneType};
use crate::paths::{joined_path, path_components, scan_components};
use crate::text::{chars_of, push_char, starts_with, vec_eq, vec_starts_with};
use vstd::prelude::*;

verus! {

/// The gene type of the deepest ancestor of a path (the path itself included) that is
/// mapped, where `comps` are the path's components.
pub open spec fn nearest_gene(m: Map<Seq<char>, GeneType>, comps: Seq<Seq<char>>) -> Option<GeneType>
    decreases comps.len(),
{
    if comps.len() == 0 {
        None
    } else if m.contains_key(joined_path(comps)) {
        Some(m[joined_path(comps)])
    } else {
        nearest_gene(m, comps.drop_last())
    }
}

/// A mapping is found again: once a normalized, non-empty path is mapped to a gene type,
/// that path finds that gene type, whatever its ancestors are mapped to.
pub proof fn lemma_mapped_path_finds_its_gene(m: Map<Seq<char>, GeneType>, p: Seq<char>, gt: GeneType)
    requires
        path_components(p).len() > 0,
        joined_path(path_components(p)) == p,
    ensures
        nearest_gene(m.insert(p, gt), path_components(p)) == Some(gt),
{
}

/// Nearness wins: the gene found for a path is the gene of one of its mapped ancestors (the
/// path itself included), and no deeper ancestor is mapped; where nothing is found, no
/// ancestor is mapped.  Ancestors are the paths of the first `k` components, `k >= 1`.
pub proof fn lemma_nearest_mapping_wins(m: Map<Seq<char>, GeneType>, comps: Seq<Seq<char>>)
    ensures
        match nearest_gene(m, comps) {
            Some(gt) => exists|j: int|
                #![trigger comps.take(j)]
                1 <= j <= comps.len() && m.contains_key(joined_path(comps.take(j))) && m[joined_path(
                    comps.take(j),
                )] == gt && forall|k: int|
                    j < k <= comps.len() ==> !m.contains_key(#[trigger] joined_path(comps.take(k))),
            None => forall|k: int|
                1 <= k <= comps.len() ==> !m.contains_key(#[trigger] joined_path(comps.take(k))),
        },
    decreases comps.len(),
{
    if comps.len() == 0 {
    } else if m.contains_key(joined_path(comps)) {
        let n = comps.len() as int;
        assert(comps.take(n) == comps);
        assert forall|k: int| n < k <= comps.len() implies !m.contains_key(#[trigger] joined_path(comps.take(k))) by {}
    } else {
        let rest = comps.drop_last();
        lemma_nearest_mapping_wins(m, rest);
        assert forall|k: int| 1 <= k <= rest.len() implies #[trigger] rest.take(k) == comps.take(k) by {
            assert(rest.take(k) =~= comps.take(k));
        }
        assert(comps.take(comps.len() as int) == comps);
        match nearest_gene(m, rest) {
            Some(gt) => {
                let j = choose|j: int|
                    #![trigger rest.take(j)]
                    1 <= j <= rest.len() && m.contains_key(joined_path(rest.take(j))) && m[joined_path(
                        rest.take(j),
                    )] == gt && forall|k: int|
                        j < k <= rest.len() ==> !m.contains_key(#[trigger] joined_path(rest.take(k)));
                assert(rest.take(j) == comps.take(j));
                assert forall|k: int| j < k <= comps.len() implies !m.contains_key(#[trigger] joined_path(comps.take(k))) by {
                    if k < comps.len() {
                        assert(rest.take(k) == comps.take(k));
                    }
                }
            },
            None => {
                assert forall|k: int| 1 <= k <= comps.len() implies !m.contains_key(#[trigger] joined_path(comps.take(k))) by {
                    if k < comps.len() {
                        assert(rest.take(k) == comps.take(k));
                    }
                }
            },
        }
    }
}

/// The prefix under which mappings are explained: `path` ending in `/`.
pub open spec fn explain_prefix(path: Seq<char>) -> Seq<char> {
    if path.len() > 0 && path.last() == '/' {
        path
    } else {
        path.push('/')
    }
}

/// Whether the mapping of `key` is shown when explaining `path`: the key is the path,
/// the path without its trailing `/`, or lies under the path.
pub open spec fn explained(key: Seq<char>, path: Seq<char>) -> bool {
    ||| key == path
    ||| key == explain_prefix(path).drop_last()
    ||| starts_with(key, explain_prefix(path))
}

/// Which keys explaining a path shows: with `base` the path without one trailing `/`, a key
/// is shown exactly when it is the path, is `base`, or starts with `base` followed by `/`.
/// So a sibling that only shares leading characters is never shown: explaining `/a` does
/// not show `/ab`, and explaining `/actors/1` does not show `/actors/10`.
pub proof fn lemma_explained_keys(key: Seq<char>, path: Seq<char>)
    ensures
        ({
            let base = if path.len() > 0 && path.last() == '/' { path.drop_last() } else { path };
            explained(key, path) <==> (key == path || key == base || (base.len() < key.len()
                && key.take(base.len() as int) == base && key[base.len() as int] == '/'))
        }),
{
    let base = if path.len() > 0 && path.last() == '/' { path.drop_last() } else { path };
    let prefix = explain_prefix(path);
    assert(prefix == base.push('/')) by {
        if path.len() > 0 && path.last() == '/' {
            assert(path.drop_last().push('/') =~= path);
        }
    }
    assert(prefix.drop_last() == base);
    if starts_with(key, prefix) {
        assert(key.take(base.len() as int) =~= prefix.take(base.len() as int));
        assert(key[base.len() as int] == key.take(prefix.len() as int)[base.len() as int]);
    }
    if base.len() < key.len() && key.take(base.len() as int) == base && key[base.len() as int] == '/' {
        assert(key.take(prefix.len() as int) =~= prefix);
    }
}

/// The line that explains one mapping.
pub open spec fn explain_line(key: Seq<char>, gt: GeneType) -> Seq<char> {
    key + " -> "@ + gene_type_label(gt)
}

/// The lines of the shown mappings, in order, separated by newlines.
pub open spec fn explain_lines(entries: Seq<(Seq<char>, GeneType)>, path: Seq<char>) -> Seq<char>
    decreases entries.len(),
{
    if entries.len() == 0 {
        Seq::empty()
    } else {
        let prev = explain_lines(entries.drop_last(), path);
        let (key, gt) = entries.last();
        if explained(key, path) {
            if prev.len() == 0 {
                explain_line(key, gt)
            } else {
                prev + "\n"@ + explain_line(key, gt)
            }
        } else {
            prev
        }
    }
}

/// The report that explains the mappings at and under `path`, or `<not set>`.
pub open spec fn explain_report(entries: Seq<(Seq<char>, GeneType)>, path: Seq<char>) -> Seq<char> {
    let lines = explain_lines(entries, path);
    if lines.len() == 0 {
        "<not set>"@
    } else {
        lines
    }
}

/// Path-to-gene mappings, each path at most once, in the order the paths were first mapped.
pub struct GenePathMap {
    entries: Vec<(String, GeneType)>,
}

/// The keys of a list of entries.
pub open spec fn entry_keys(entries: Seq<(String, GeneType)>) -> Seq<Seq<char>> {
    entries.map_values(|e: (String, GeneType)| e.0@)
}

/// A position of `p` among the keys of `entries`, if there is one.
pub open spec fn key_index(entries: Seq<(String, GeneType)>, p: Seq<char>) -> int {
    choose|i: int| 0 <= i < entries.len() && entries[i].0@ == p
}

impl View for GenePathMap {
    type V = Map<Seq<char>, GeneType>;

    /// The mappings as a map from path to gene type.
    closed spec fn view(&self) -> Map<Seq<char>, GeneType> {
        Map::new(
            |p: Seq<char>| exists|i: int| 0 <= i < self.entries@.len() && self.entries@[i].0@ == p,
            |p: Seq<char>| self.entries@[key_index(self.entries@, p)].1,
        )
    }
}

/// `entries` list exactly the mappings of `m`: each path once, with its gene type, and
/// every mapped path among them.
pub open spec fn lists_mappings(entries: Seq<(Seq<char>, GeneType)>, m: Map<Seq<char>, GeneType>) -> bool {
    &&& entries.map_values(|e: (Seq<char>, GeneType)| e.0).no_duplicates()
    &&& forall|i: int|
        0 <= i < entries.len() ==> m.contains_key(#[trigger] entries[i].0) && m[entries[i].0]
            == entries[i].1
    &&& forall|p: Seq<char>|
        m.contains_key(p) ==> exists|i: int| 0 <= i < entries.len() && #[trigger] entries[i].0 == p
}

/// `new` is `old` after mapping `p` to `gt`: appended where `p` was not listed, and
/// otherwise replacing `p`'s entry in place.
pub open spec fn inserted_entry(
    old: Seq<(Seq<char>, GeneType)>,
    p: Seq<char>,
    gt: GeneType,
    new: Seq<(Seq<char>, GeneType)>,
) -> bool {
    &&& (forall|i: int| 0 <= i < old.len() ==> #[trigger] old[i].0 != p) ==> new == old.push((p, gt))
    &&& (exists|i: int| 0 <= i < old.len() && #[trigger] old[i].0 == p) ==> exists|i: int|
        0 <= i < old.len() && #[trigger] old[i].0 == p && new == old.update(i, (p, gt))
}

/// The listed mappings that explaining `path` shows, in list order.
pub open spec fn shown_entries(entries: Seq<(Seq<char>, GeneType)>, path: Seq<char>) -> Seq<(Seq<char>, GeneType)>
    decreases entries.len(),
{
    if entries.len() == 0 {
        Seq::empty()
    } else {
        let prev = shown_entries(entries.drop_last(), path);
        if explained(entries.last().0, path) {
            prev.push(entries.last())
        } else {
            prev
        }
    }
}

/// One `path -> gene` line per entry, separated by newlines.
pub open spec fn lines_of(entries: Seq<(Seq<char>, GeneType)>) -> Seq<char>
    decreases entries.len(),
{
    if entries.len() == 0 {
        Seq::empty()
    } else {
        let prev = lines_of(entries.drop_last());
        let (key, gt) = entries.last();
        if prev.len() == 0 {
            explain_line(key, gt)
        } else {
            prev + "\n"@ + explain_line(key, gt)
        }
    }
}

/// The mappings of `m` whose paths explaining `path` shows.
pub open spec fn explained_mappings(m: Map<Seq<char>, GeneType>, path: Seq<char>) -> Map<Seq<char>, GeneType> {
    Map::new(|k: Seq<char>| m.contains_key(k) && explained(k, path), |k: Seq<char>| m[k])
}

proof fn lemma_lines_empty(entries: Seq<(Seq<char>, GeneType)>)
    ensures
        lines_of(entries).len() == 0 <==> entries.len() == 0,
{
    if entries.len() > 0 {
        let (key, gt) = entries.last();
        assert(explain_line(key, gt).len() >= " -> "@.len()) by {
            reveal_strlit(" -> ");
        }
        reveal_strlit(" -> ");
        assert(" -> "@.len() == 4);
    }
}

proof fn lemma_explain_lines_are_shown_lines(entries: Seq<(Seq<char>, GeneType)>, path: Seq<char>)
    ensures
        explain_lines(entries, path) == lines_of(shown_entries(entries, path)),
    decreases entries.len(),
{
    if entries.len() > 0 {
        lemma_explain_lines_are_shown_lines(entries.drop_last(), path);
        let prev = shown_entries(entries.drop_last(), path);
        if explained(entries.last().0, path) {
            assert(prev.push(entries.last()).drop_last() == prev);
        }
    }
}

proof fn lemma_shown_entries_list(entries: Seq<(Seq<char>, GeneType)>, m: Map<Seq<char>, GeneType>, path: Seq<char>)
    requires
        lists_mappings(entries, m),
    ensures
        lists_mappings(shown_entries(entries, path), explained_mappings(m, path)),
        forall|i: int|
            0 <= i < shown_entries(entries, path).len() ==> exists|j: int|
                0 <= j < entries.len() && #[trigger] shown_entries(entries, path)[i] == entries[j],
    decreases entries.len(),
{
    let em = explained_mappings(m, path);
    let sh = shown_entries(entries, path);
    if entries.len() == 0 {
        assert(sh.map_values(|e: (Seq<char>, GeneType)| e.0) =~= Seq::<Seq<char>>::empty());
        assert forall|p: Seq<char>| em.contains_key(p) implies exists|i: int| 0 <= i < sh.len() && #[trigger] sh[i].0 == p by {
            let i = choose|i: int| 0 <= i < entries.len() && #[trigger] entries[i].0 == p;
        }
    } else {
        let init = entries.drop_last();
        let last = entries.last();
        let keys = entries.map_values(|e: (Seq<char>, GeneType)| e.0);
        let ikeys = init.map_values(|e: (Seq<char>, GeneType)| e.0);
        assert(ikeys =~= keys.drop_last());
        let im = Map::new(|k: Seq<char>| exists|i: int| 0 <= i < init.len() && #[trigger] init[i].0 == k, |k: Seq<char>| m[k]);
        assert(lists_mappings(init, im)) by {
            assert forall|i: int| 0 <= i < init.len() implies im.contains_key(#[trigger] init[i].0) && im[init[i].0] == init[i].1 by {
                assert(init[i] == entries[i]);
            }
        }
        lemma_shown_entries_list(init, im, path);
        let prev = shown_entries(init, path);
        let pkeys = prev.map_values(|e: (Seq<char>, GeneType)| e.0);
        let skeys = sh.map_values(|e: (Seq<char>, GeneType)| e.0);
        assert forall|i: int| 0 <= i < prev.len() implies #[trigger] prev[i].0 != last.0 by {
            let j = choose|j: int| 0 <= j < init.len() && prev[i] == init[j];
            assert(keys[j] == init[j].0);
            assert(keys[entries.len() - 1] == last.0);
        }
        if explained(last.0, path) {
            assert(sh == prev.push(last));
            assert(skeys =~= pkeys.push(last.0));
            assert forall|i: int, j: int| 0 <= i < j < skeys.len() implies skeys[i] != skeys[j] by {
                if j < pkeys.len() {
                    assert(pkeys[i] != pkeys[j]);
                } else {
                    assert(prev[i].0 != last.0);
                }
            }
        } else {
            assert(sh == prev);
        }
        assert forall|i: int| 0 <= i < sh.len() implies exists|j: int| 0 <= j < entries.len() && #[trigger] sh[i] == entries[j] by {
            if i < prev.len() {
                let j = choose|j: int| 0 <= j < init.len() && prev[i] == init[j];
                assert(sh[i] == prev[i]);
                assert(entries[j] == init[j]);
            } else {
                assert(sh[i] == entries[entries.len() - 1]);
            }
        }
        assert forall|i: int| 0 <= i < sh.len() implies em.contains_key(#[trigger] sh[i].0) && em[sh[i].0] == sh[i].1 by {
            let j = choose|j: int| 0 <= j < entries.len() && sh[i] == entries[j];
            assert(m.contains_key(entries[j].0));
            if i < prev.len() {
                assert(sh[i] == prev[i]);
                assert(explained(prev[i].0, path));
            }
        }
        assert forall|p: Seq<char>| em.contains_key(p) implies exists|i: int| 0 <= i < sh.len() && #[trigger] sh[i].0 == p by {
            let j = choose|j: int| 0 <= j < entries.len() && #[trigger] entries[j].0 == p;
            if j == entries.len() - 1 {
                assert(sh[sh.len() - 1].0 == p);
            } else {
                assert(init[j].0 == p);
                assert(im.contains_key(p));
                assert(explained_mappings(im, path).contains_key(p));
                let i = choose|i: int| 0 <= i < prev.len() && #[trigger] prev[i].0 == p;
                assert(sh[i] == prev[i]);
            }
        }
    }
}

impl GenePathMap {
    /// The mappings in order, paths as character sequences.
    pub closed spec fn entry_seq(&self) -> Seq<(Seq<char>, GeneType)> {
        self.entries@.map_values(|e: (String, GeneType)| (e.0@, e.1))
    }

    /// No path is mapped twice.
    pub closed spec fn well_formed(&self) -> bool {
        entry_keys(self.entries@).no_duplicates()
    }

    proof fn lemma_view_at(&self, k: int)
        requires
            self.well_formed(),
            0 <= k < self.entries@.len(),
        ensures
            self.view().contains_key(self.entries@[k].0@),
            self.view()[self.entries@[k].0@] == self.entries@[k].1,
    {
        let p = self.entries@[k].0@;
        assert(self.view().contains_key(p));
        let j = key_index(self.entries@, p);
        assert(0 <= j < self.entries@.len() && self.entries@[j].0@ == p);
        assert(entry_keys(self.entries@)[k] == p);
        assert(entry_keys(self.entries@)[j] == p);
        if k != j {
            assert(entry_keys(self.entries@)[k] != entry_keys(self.entries@)[j]);
        }
        assert(self.view()[p] == self.entries@[j].1);
    }

    /// The listed entries are the mappings: each mapped path appears exactly once, in
    /// the order it was first mapped, with the gene type it is mapped to.
    pub proof fn lemma_entries_list_the_mappings(&self)
        requires
            self.well_formed(),
        ensures
            lists_mappings(self.entry_seq(), self.view()),
    {
        let es = self.entry_seq();
        assert(es.map_values(|e: (Seq<char>, GeneType)| e.0) =~= entry_keys(self.entries@));
        assert forall|i: int| 0 <= i < es.len() implies self.view().contains_key(#[trigger] es[i].0)
            && self.view()[es[i].0] == es[i].1 by {
            self.lemma_view_at(i);
        }
        assert forall|p: Seq<char>| self.view().contains_key(p) implies exists|i: int|
            0 <= i < es.len() && #[trigger] es[i].0 == p by {
            let i = key_index(self.entries@, p);
            assert(es[i].0 == p);
        }
    }

    /// Explaining a path shows each mapped path at or under it exactly once, with its gene
    /// type, one line each (in the order the paths were first mapped), or `<not set>`
    /// where there is none.
    pub proof fn lemma_explain_shows_each_match_once(&self, path: Seq<char>)
        requires
            self.well_formed(),
        ensures
            lists_mappings(shown_entries(self.entry_seq(), path), explained_mappings(self.view(), path)),
            explain_report(self.entry_seq(), path) == (if shown_entries(self.entry_seq(), path).len() == 0 {
                "<not set>"@
            } else {
                lines_of(shown_entries(self.entry_seq(), path))
            }),
    {
        self.lemma_entries_list_the_mappings();
        lemma_shown_entries_list(self.entry_seq(), self.view(), path);
        lemma_explain_lines_are_shown_lines(self.entry_seq(), path);
        lemma_lines_empty(shown_entries(self.entry_seq(), path));
    }

    /// An empty registry.
    pub fn new() -> (r: Self)
        ensures
            r.well_formed(),
            r.view() == Map::<Seq<char>, GeneType>::empty(),
            r.entry_seq() == Seq::<(Seq<char>, GeneType)>::empty(),
    {
        let r = GenePathMap { entries: Vec::new() };
        assert(r.view() =~= Map::<Seq<char>, GeneType>::empty());
        assert(r.entry_seq() =~= Seq::<(Seq<char>, GeneType)>::empty());
        r
    }

    /// The position of `path` among the entries, if it is mapped.
    fn position(&self, path: &String) -> (r: Option<usize>)
        requires
            self.well_formed(),
        ensures
            r matches Some(i) ==> i < self.entries@.len() && self.entries@[i as int].0@ == path@,
            r is None ==> !self.view().contains_key(path@),
    {
        let mut i: usize = 0;
        while i < self.entries.len()
            invariant
                i <= self.entries@.len(),
                forall|j: int| 0 <= j < i ==> self.entries@[j].0@ != path@,
            decreases self.entries@.len() - i,
        {
            if self.entries[i].0 == *path {
                return Some(i);
            }
            i = i + 1;
        }
        None
    }

    /// The gene type `path` is mapped to.
    pub fn get(&self, path: &String) -> (r: Option<GeneType>)
        requires
            self.well_formed(),
        ensures
            r == (if self.view().contains_key(path@) { Some(self.view()[path@]) } else { None::<GeneType> }),
    {
        match self.position(path) {
            Some(i) => {
                proof {
                    self.lemma_view_at(i as int);
                }
                Some(self.entries[i].1)
            },
            None => None,
        }
    }

    /// Maps `path` to `gene_type`, replacing an earlier mapping of the same path in place.
    pub fn insert(&mut self, path: String, gene_type: GeneType)
        requires
            old(self).well_formed(),
        ensures
            final(self).well_formed(),
            final(self).view() == old(self).view().insert(path@, gene_type),
            inserted_entry(old(self).entry_seq(), path@, gene_type, final(self).entry_seq()),
    {
        let ghost p = path@;
        let ghost pos: int;
        match self.position(&path) {
            Some(i) => {
                self.entries.set(i, (path, gene_type));
                proof {
                    pos = i as int;
                    assert(entry_keys(self.entries@) =~= entry_keys(old(self).entries@));
                }
            },
            None => {
                self.entries.push((path, gene_type));
                proof {
                    pos = old(self).entries@.len() as int;
                    assert(entry_keys(self.entries@) =~= entry_keys(old(self).entries@).push(p));
                    assert forall|j: int| 0 <= j < entry_keys(old(self).entries@).len() implies
                        entry_keys(old(self).entries@)[j] != p by {
                        if entry_keys(old(self).entries@)[j] == p {
                            assert(old(self).entries@[j].0@ == p);
                        }
                    }
                }
            },
        }
        proof {
            assert(self.entries@[pos].0@ == p && self.entries@[pos].1 == gene_type);
            assert(forall|j: int| 0 <= j < self.entries@.len() && j != pos ==> self.entries@[j] == old(self).entries@[j]);
            assert forall|q: Seq<char>| #[trigger] self.view().contains_key(q) == old(self).view().insert(p, gene_type).contains_key(q) by {
                if old(self).view().contains_key(q) {
                    let j = key_index(old(self).entries@, q);
                    assert(self.entries@[j].0@ == q);
                }
                if q == p {
                    assert(self.entries@[pos].0@ == q);
                }
                if self.view().contains_key(q) && q != p {
                    let j = key_index(self.entries@, q);
                    assert(old(self).entries@[j].0@ == q);
                }
            }
            assert forall|q: Seq<char>| #[trigger] self.view().contains_key(q) implies self.view()[q] == old(self).view().insert(p, gene_type)[q] by {
                if q == p {
                    self.lemma_view_at(pos);
                } else {
                    let j = key_index(self.entries@, q);
                    assert(self.entries@[j].0@ == q);
                    self.lemma_view_at(j);
                    assert(old(self).entries@[j].0@ == q);
                    old(self).lemma_view_at(j);
                }
            }
            assert(self.view() =~= old(self).view().insert(p, gene_type));
            let oe = old(self).entry_seq();
            if old(self).view().contains_key(p) {
                assert(pos < old(self).entries@.len());
                assert(oe[pos].0 == p);
                assert(self.entry_seq() =~= oe.update(pos, (p, gene_type)));
            } else {
                assert forall|i: int| 0 <= i < oe.len() implies #[trigger] oe[i].0 != p by {
                    if oe[i].0 == p {
                        assert(old(self).entries@[i].0@ == p);
                    }
                }
                assert(self.entry_seq() =~= oe.push((p, gene_type)));
            }
        }
    }

    /// The gene type of the nearest mapped ancestor of `path`, the path itself included;
    /// ancestors are the paths made of the first components of `path`.
    pub fn find_gene_type(&self, path: &str) -> (r: Option<GeneType>)
        requires
            self.well_formed(),
        ensures
            r == nearest_gene(self.view(), path_components(path@)),
    {
        let mut current_path = String::new();
        let mut comp = String::new();
        let mut found: Option<GeneType> = None;
        let mut has_comp = false;
        for c in it: path.chars()
            invariant
                has_comp == (comp@.len() > 0),
                self.well_formed(),
                it.seq() == path@,
                scan_components(path@.take(it.index())).1 == comp@,
                current_path@ == joined_path(scan_components(path@.take(it.index())).0),
                found == nearest_gene(self.view(), scan_components(path@.take(it.index())).0),
        {
            let ghost prefix = path@.take(it.index());
            assert(path@.take(it.index() + 1).drop_last() == prefix);
            if c == '/' {
                if has_comp {
                    push_char(&mut current_path, '/');
                    current_path.append(comp.as_str());
                    proof {
                        let done = scan_components(prefix).0;
                        assert(joined_path(done.push(comp@)) == joined_path(done) + seq!['/'] + comp@) by {
                            assert(done.push(comp@).drop_last() == done);
                        }
                        assert(current_path@ == joined_path(done) + seq!['/'] + comp@);
                    }
                    if let Some(gt) = self.get(&current_path) {
                        found = Some(gt);
                    }
                    proof {
                        let done = scan_components(prefix).0;
                        assert(done.push(comp@).drop_last() == done);
                    }
                    comp = String::new();
                    has_comp = false;
                }
            } else {
                push_char(&mut comp, c);
                has_comp = true;
            }
        }
        assert(path@.take(path@.len() as int) == path@);
        if has_comp {
            let ghost done = scan_components(path@).0;
            push_char(&mut current_path, '/');
            current_path.append(comp.as_str());
            proof {
                assert(done.push(comp@).drop_last() == done);
                assert(current_path@ == joined_path(done.push(comp@)));
            }
            if let Some(gt) = self.get(&current_path) {
                found = Some(gt);
            }
        }
        found
    }

    /// The mappings at and under `path`, one `path -> gene` line each, in mapping order;
    /// `<not set>` where there is none.
    pub fn explain(&self, path: &str) -> (r: String)
        ensures
            r@ == explain_report(self.entry_seq(), path@),
    {
        let path_chars = chars_of(path);
        let n = path_chars.len();
        let mut prefix = path_chars.clone();
        if n == 0 || path_chars[n - 1] != '/' {
            prefix.push('/');
        }
        let mut clean = prefix.clone();
        clean.pop();
        assert(prefix@ == explain_prefix(path@));
        assert(clean@ == explain_prefix(path@).drop_last());
        let mut response = String::new();
        let mut i: usize = 0;
        while i < self.entries.len()
            invariant
                i <= self.entries@.len(),
                path_chars@ == path@,
                prefix@ == explain_prefix(path@),
                clean@ == explain_prefix(path@).drop_last(),
                response@ == explain_lines(self.entry_seq().take(i as int), path@),
            decreases self.entries@.len() - i,
        {
            let key = chars_of(self.entries[i].0.as_str());
            let gt = self.entries[i].1;
            let shown = vec_eq(&key, &path_chars) || vec_eq(&key, &clean) || vec_starts_with(&key, &prefix);
            proof {
                let es = self.entry_seq().take(i + 1);
                assert(es.drop_last() == self.entry_seq().take(i as int));
                assert(es.last() == (key@, gt));
            }
            if shown {
                let ghost prev = response@;
                if response.as_str().unicode_len() > 0 {
                    response.append("\n");
                }
                response.append(self.entries[i].0.as_str());
                response.append(" -> ");
                let label = gt.to_display_string();
                response.append(label.as_str());
                proof {
                    if prev.len() == 0 {
                        assert(response@ =~= explain_line(key@, gt));
                    } else {
                        assert(response@ =~= prev + "\n"@ + explain_line(key@, gt));
                    }
                }
            }
            i = i + 1;
        }
        assert(self.entry_seq().take(self.entries@.len() as int) == self.entry_seq());
        if response.as_str().unicode_len() == 0 {
            String::from_str("<not set>")
        } else {
            response
        }
    }
}

} // verus!
