//! The snapshot of the files chosen in a dialog.

use vstd::prelude::*;

verus! {

/// One row of the selection table: a file name and its full path.
#[derive(Debug, Clone, PartialEq, Eq)]
pub struct SelectionEntry {
    pub file_name: String,
    pub file_path_name: String,
}

/// A row as plain text.
pub struct EntryView {
    pub file_name: Seq<char>,
    pub file_path_name: Seq<char>,
}

impl View for SelectionEntry {
    type V = EntryView;

    open spec fn view(&self) -> EntryView {
        EntryView { file_name: self.file_name@, file_path_name: self.file_path_name@ }
    }
}

/// The full paths of the rows in table order, without the rows whose path is
/// empty.
pub open spec fn paths_of(rows: Seq<EntryView>) -> Seq<Seq<char>>
    decreases rows.len(),
{
    if rows.len() == 0 {
        Seq::empty()
    } else if rows.last().file_path_name.len() == 0 {
        paths_of(rows.drop_last())
    } else {
        paths_of(rows.drop_last()).push(rows.last().file_path_name)
    }
}

/// Whether a row takes part in the name-to-path mapping: neither its name nor
/// its path is empty.
pub open spec fn is_mapped(row: EntryView) -> bool {
    row.file_name.len() > 0 && row.file_path_name.len() > 0
}

/// The mapping from file name to full path that the rows give when they are
/// entered in table order, a later row replacing an earlier one of the same
/// name.
pub open spec fn map_of(rows: Seq<EntryView>) -> Map<Seq<char>, Seq<char>>
    decreases rows.len(),
{
    if rows.len() == 0 {
        Map::empty()
    } else if is_mapped(rows.last()) {
        map_of(rows.drop_last()).insert(rows.last().file_name, rows.last().file_path_name)
    } else {
        map_of(rows.drop_last())
    }
}

/// The names that are mapped, each once, in the order in which the rows
/// first bring them.
pub open spec fn names_of(rows: Seq<EntryView>) -> Seq<Seq<char>>
    decreases rows.len(),
{
    if rows.len() == 0 {
        Seq::empty()
    } else if is_mapped(rows.last()) && !names_of(rows.drop_last()).contains(rows.last().file_name) {
        names_of(rows.drop_last()).push(rows.last().file_name)
    } else {
        names_of(rows.drop_last())
    }
}

/// The name of the pair at position `i`.
pub open spec fn name_at(pairs: Seq<(String, String)>, i: int) -> Seq<char> {
    pairs[i].0@
}

/// The names of a list of pairs, in its order.
pub open spec fn names(pairs: Seq<(String, String)>) -> Seq<Seq<char>> {
    Seq::new(pairs.len(), |i: int| name_at(pairs, i))
}

/// Whether a list of pairs is the mapping `m` written out: no name occurs
/// twice, each pair is an entry of `m`, and each entry of `m` is a pair.
pub open spec fn pairs_are(pairs: Seq<(String, String)>, m: Map<Seq<char>, Seq<char>>) -> bool {
    &&& forall|i: int, j: int|
        0 <= i < j < pairs.len() ==> #[trigger] name_at(pairs, i) != #[trigger] name_at(pairs, j)
    &&& forall|i: int|
        0 <= i < pairs.len() ==> m.contains_key(#[trigger] name_at(pairs, i)) && m[name_at(
            pairs,
            i,
        )] == pairs[i].1@
    &&& forall|k: Seq<char>| #[trigger]
        m.contains_key(k) ==> exists|i: int| 0 <= i < pairs.len() && #[trigger] name_at(pairs, i) == k
}

/// The position of the pair named `name`, if there is one.
fn position_of(pairs: &Vec<(String, String)>, name: &String) -> (r: Option<usize>)
    ensures
        match r {
            Some(j) => j < pairs.len() && name_at(pairs@, j as int) == name@,
            None => forall|j: int| 0 <= j < pairs.len() ==> #[trigger] name_at(pairs@, j) != name@,
        },
{
    let mut j: usize = 0;
    while j < pairs.len()
        invariant
            j <= pairs.len(),
            forall|h: int| 0 <= h < j ==> #[trigger] name_at(pairs@, h) != name@,
        decreases pairs.len() - j,
    {
        if pairs[j].0 == *name {
            return Some(j);
        }
        j += 1;
    }
    None
}

/// The chosen files at the moment of the query. Immutable once made.
#[derive(Debug, Clone)]
pub struct Selection {
    entries: Vec<SelectionEntry>,
}

impl View for Selection {
    type V = Seq<EntryView>;

    closed spec fn view(&self) -> Seq<EntryView> {
        self.entries@.map_values(|e: SelectionEntry| e@)
    }
}

impl Selection {
    /// A snapshot of the given table.
    pub fn new(entries: Vec<SelectionEntry>) -> (r: Self)
        ensures
            r@ == entries@.map_values(|e: SelectionEntry| e@),
    {
        Selection { entries }
    }

    /// The number of rows.
    pub closed spec fn spec_count(&self) -> usize {
        self.entries.len()
    }

    /// Whether the table has no row.
    pub closed spec fn spec_is_empty(&self) -> bool {
        self.entries.len() == 0
    }

    /// The number of rows.
    #[verifier::when_used_as_spec(spec_count)]
    pub fn count(&self) -> (r: usize)
        ensures
            r == self.spec_count(),
            r == self@.len(),
    {
        self.entries.len()
    }

    /// Whether the table has no row.
    #[verifier::when_used_as_spec(spec_is_empty)]
    pub fn is_empty(&self) -> (r: bool)
        ensures
            r == self.spec_is_empty(),
            r == (self@.len() == 0),
            r == (self.count() == 0),
    {
        self.entries.len() == 0
    }

    /// The full paths in table order; a row with an empty path is skipped.
    pub fn files(&self) -> (r: Vec<String>)
        ensures
            r@.map_values(|s: String| s@) == paths_of(self@),
    {
        let mut ret: Vec<String> = Vec::new();
        let n: usize = self.entries.len();
        let mut i: usize = 0;
        while i < n
            invariant
                i <= n,
                n == self.entries.len(),
                ret@.map_values(|s: String| s@) == paths_of(self@.take(i as int)),
            decreases n - i,
        {
            let entry = &self.entries[i];
            proof {
                assert(self@.take(i + 1).drop_last() == self@.take(i as int));
                assert(self@.take(i + 1).last() == entry@);
            }
            if !entry.file_path_name.as_str().is_empty() {
                let ghost before = ret@;
                ret.push(entry.file_path_name.clone());
                proof {
                    assert(ret@.map_values(|s: String| s@) == before.map_values(|s: String| s@).push(
                        entry.file_path_name@,
                    ));
                }
            }
            i += 1;
        }
        proof {
            assert(self@.take(n as int) == self@);
        }
        ret
    }

    /// The mapping from file name to full path, written out as pairs in which
    /// no name occurs twice. A row with an empty name or an empty path is
    /// skipped; of several rows with one name the last one counts. The pairs
    /// stand in the order in which the rows first bring their names.
    pub fn files_map(&self) -> (r: Vec<(String, String)>)
        ensures
            pairs_are(r@, map_of(self@)),
            names(r@) == names_of(self@),
    {
        let mut ret: Vec<(String, String)> = Vec::new();
        let n: usize = self.entries.len();
        let mut i: usize = 0;
        while i < n
            invariant
                i <= n,
                n == self.entries.len(),
                pairs_are(ret@, map_of(self@.take(i as int))),
                names(ret@) == names_of(self@.take(i as int)),
            decreases n - i,
        {
            let entry = &self.entries[i];
            proof {
                assert(self@.take(i + 1).drop_last() == self@.take(i as int));
                assert(self@.take(i + 1).last() == entry@);
            }
            if !entry.file_name.as_str().is_empty() && !entry.file_path_name.as_str().is_empty() {
                let ghost before = ret@;
                let ghost m = map_of(self@.take(i as int));
                let ghost m2 = m.insert(entry.file_name@, entry.file_path_name@);
                let pair = (entry.file_name.clone(), entry.file_path_name.clone());
                match position_of(&ret, &entry.file_name) {
                    Some(j) => {
                        ret.set(j, pair);
                        proof {
                            assert(names(before)[j as int] == entry.file_name@);
                            assert(names(ret@) =~= names(before));
                            assert forall|h: int| 0 <= h < ret@.len() implies #[trigger] name_at(
                                ret@,
                                h,
                            ) == name_at(before, h) by {}
                            assert forall|a: int, b: int| 0 <= a < b < ret@.len() implies #[trigger] name_at(
                                ret@,
                                a,
                            ) != #[trigger] name_at(ret@, b) by {
                                assert(name_at(before, a) != name_at(before, b));
                            }
                            assert forall|h: int| 0 <= h < ret@.len() implies m2.contains_key(
                                #[trigger] name_at(ret@, h),
                            ) && m2[name_at(ret@, h)] == ret@[h].1@ by {
                                assert(m.contains_key(name_at(before, h)));
                                if h != j {
                                    assert(name_at(before, h) != name_at(before, j as int));
                                }
                            }
                            assert forall|k: Seq<char>| #[trigger] m2.contains_key(k) implies exists|
                                h: int,
                            | 0 <= h < ret@.len() && #[trigger] name_at(ret@, h) == k by {
                                if k == entry.file_name@ {
                                    assert(name_at(ret@, j as int) == k);
                                } else {
                                    assert(m.contains_key(k));
                                    let h = choose|h: int|
                                        0 <= h < before.len() && #[trigger] name_at(before, h) == k;
                                    assert(name_at(ret@, h) == k);
                                }
                            }
                            assert(pairs_are(ret@, m2));
                        }
                    },
                    None => {
                        ret.push(pair);
                        proof {
                            assert(!names(before).contains(entry.file_name@));
                            assert(names(ret@) =~= names(before).push(entry.file_name@));
                            assert forall|h: int| 0 <= h < before.len() implies #[trigger] name_at(
                                ret@,
                                h,
                            ) == name_at(before, h) && ret@[h].1@ == before[h].1@ by {}
                            assert(name_at(ret@, before.len() as int) == entry.file_name@);
                            assert forall|a: int, b: int| 0 <= a < b < ret@.len() implies #[trigger] name_at(
                                ret@,
                                a,
                            ) != #[trigger] name_at(ret@, b) by {
                                if b < before.len() {
                                    assert(name_at(before, a) != name_at(before, b));
                                } else {
                                    assert(name_at(before, a) != entry.file_name@);
                                }
                            }
                            assert forall|h: int| 0 <= h < ret@.len() implies m2.contains_key(
                                #[trigger] name_at(ret@, h),
                            ) && m2[name_at(ret@, h)] == ret@[h].1@ by {
                                if h < before.len() {
                                    assert(m.contains_key(name_at(before, h)));
                                    assert(name_at(before, h) != entry.file_name@);
                                }
                            }
                            assert forall|k: Seq<char>| #[trigger] m2.contains_key(k) implies exists|
                                h: int,
                            | 0 <= h < ret@.len() && #[trigger] name_at(ret@, h) == k by {
                                if k == entry.file_name@ {
                                    assert(name_at(ret@, before.len() as int) == k);
                                } else {
                                    assert(m.contains_key(k));
                                    let h = choose|h: int|
                                        0 <= h < before.len() && #[trigger] name_at(before, h) == k;
                                    assert(name_at(ret@, h) == k);
                                }
                            }
                            assert(pairs_are(ret@, m2));
                        }
                    },
                }
            }
            i += 1;
        }
        proof {
            assert(self@.take(n as int) == self@);
        }
        ret
    }
}

/// A snapshot that counts no row reports itself empty, lists no file and
/// maps no name.
pub proof fn law_empty_selection(s: Selection)
    requires
        s.count() == 0,
    ensures
        s.is_empty(),
        s@.len() == 0,
        paths_of(s@) == Seq::<Seq<char>>::empty(),
        map_of(s@) == Map::<Seq<char>, Seq<char>>::empty(),
{
}

/// Every listed file is the path of a row, and no listed file is empty.
pub proof fn law_files_come_from_rows(rows: Seq<EntryView>, i: int)
    requires
        0 <= i < paths_of(rows).len(),
    ensures
        paths_of(rows)[i].len() > 0,
        exists|h: int| 0 <= h < rows.len() && #[trigger] rows[h].file_path_name == paths_of(rows)[i],
    decreases rows.len(),
{
    if rows.last().file_path_name.len() > 0 && i == paths_of(rows).len() - 1 {
        assert(rows[rows.len() - 1].file_path_name == paths_of(rows)[i]);
    } else {
        law_files_come_from_rows(rows.drop_last(), i);
        let h = choose|h: int|
            0 <= h < rows.len() - 1 && #[trigger] rows.drop_last()[h].file_path_name == paths_of(
                rows.drop_last(),
            )[i];
        assert(rows[h].file_path_name == paths_of(rows)[i]);
    }
}

/// Last write wins: a mapped row after which no mapped row has the same name
/// gives the path that the mapping holds for its name.
pub proof fn law_last_write_wins(rows: Seq<EntryView>, j: int)
    requires
        0 <= j < rows.len(),
        is_mapped(rows[j]),
        forall|h: int| j < h < rows.len() && is_mapped(#[trigger] rows[h]) ==> rows[h].file_name != rows[j].file_name,
    ensures
        map_of(rows).contains_key(rows[j].file_name),
        map_of(rows)[rows[j].file_name] == rows[j].file_path_name,
    decreases rows.len(),
{
    if j < rows.len() - 1 {
        let front = rows.drop_last();
        assert(front[j] == rows[j]);
        assert forall|h: int| j < h < front.len() && is_mapped(#[trigger] front[h]) implies front[h].file_name
            != front[j].file_name by {
            assert(front[h] == rows[h]);
        }
        law_last_write_wins(front, j);
        assert(rows.last() == rows[rows.len() - 1]);
    }
}

/// A name is mapped exactly when some mapped row bears it.
pub proof fn law_mapped_names(rows: Seq<EntryView>, name: Seq<char>)
    ensures
        map_of(rows).contains_key(name) <==> exists|h: int|
            0 <= h < rows.len() && is_mapped(#[trigger] rows[h]) && rows[h].file_name == name,
    decreases rows.len(),
{
    if rows.len() > 0 {
        let front = rows.drop_last();
        law_mapped_names(front, name);
        if map_of(rows).contains_key(name) {
            if is_mapped(rows.last()) && rows.last().file_name == name {
                assert(is_mapped(rows[rows.len() - 1]) && rows[rows.len() - 1].file_name == name);
            } else {
                let h = choose|h: int|
                    0 <= h < front.len() && is_mapped(#[trigger] front[h]) && front[h].file_name == name;
                assert(is_mapped(rows[h]) && rows[h].file_name == name);
            }
        }
        if exists|h: int| 0 <= h < rows.len() && is_mapped(#[trigger] rows[h]) && rows[h].file_name == name {
            let h = choose|h: int|
                0 <= h < rows.len() && is_mapped(#[trigger] rows[h]) && rows[h].file_name == name;
            if h < rows.len() - 1 {
                assert(is_mapped(front[h]) && front[h].file_name == name);
            }
        }
    }
}

} // verus!
