//! The process name index: a mapping from process name to process identifier.
//!
//! Enumeration inserts one record per openable process, overwriting on a
//! duplicate name (the last record inserted for a given name wins), and the
//! resolver looks a single identifier up by name, optionally comparing the
//! upper-cased forms of the names.

use vstd::prelude::*;

verus! {

/// One entry of the index: a process's executable base name and its identifier.
#[derive(Debug)]
pub struct ProcessRecord {
    /// Base filename of the process's primary executable module.
    pub name: String,
    /// Identifier the operating system assigned to the process.
    pub pid: u32,
}

/// The name the resolver was given matches no entry of the index.
#[derive(Clone, Copy, Debug, PartialEq, Eq, Structural)]
pub enum ResolveError {
    NotFound,
}

/// The mathematical content of a record sequence: later records overwrite
/// earlier ones with the same name.
pub open spec fn map_of(s: Seq<ProcessRecord>) -> Map<Seq<char>, u32>
    decreases s.len(),
{
    if s.len() == 0 {
        Map::empty()
    } else {
        map_of(s.drop_last()).insert(s.last().name@, s.last().pid)
    }
}

/// No two records carry the same name.
pub open spec fn names_unique(s: Seq<ProcessRecord>) -> bool {
    forall|i: int, j: int|
        #![trigger s[i].name@, s[j].name@]
        0 <= i < j < s.len() ==> s[i].name@ != s[j].name@
}

/// What the name that `str::to_uppercase` returns reads as.
pub uninterp spec fn upper_of(s: Seq<char>) -> Seq<char>;

/// Relies on str::to_uppercase: the upper-cased form depends on the
/// characters alone.
#[verifier::external_body]
fn to_upper(s: &String) -> (r: String)
    ensures
        r@ == upper_of(s@),
{
    s.to_uppercase()
}

/// What the text that `String::from_utf16_lossy` decodes reads as.
pub uninterp spec fn string_of_utf16(units: Seq<u16>) -> Seq<char>;

/// Relies on String::from_utf16_lossy: the decoded text depends on the code
/// units alone.
#[verifier::external_body]
fn decode_utf16(units: &Vec<u16>) -> (r: String)
    ensures
        r@ == string_of_utf16(units@),
{
    String::from_utf16_lossy(units.as_slice())
}

/// Length of `s` once trailing zero units are stripped.
pub open spec fn trimmed_len(s: Seq<u16>) -> nat
    decreases s.len(),
{
    if s.len() == 0 {
        0
    } else if s.last() != 0 {
        s.len()
    } else {
        trimmed_len(s.drop_last())
    }
}

/// `s` stripped of its trailing zero padding.
pub open spec fn trim_padding(s: Seq<u16>) -> Seq<u16> {
    s.take(trimmed_len(s) as int)
}

/// Strips the trailing zero padding that a fixed-size name buffer carries.
pub fn strip_trailing_zeros(units: Vec<u16>) -> (r: Vec<u16>)
    ensures
        r@ == trim_padding(units@),
{
    let mut v = units;
    while v.len() > 0 && v[v.len() - 1] == 0u16
        invariant
            v@.len() <= units@.len(),
            v@ == units@.take(v@.len() as int),
            trimmed_len(v@) == trimmed_len(units@),
        decreases v@.len(),
    {
        proof {
            assert(v@.drop_last() =~= units@.take((v@.len() - 1) as int));
        }
        v.pop();
    }
    proof {
        if v@.len() > 0 {
            assert(trimmed_len(v@) == v@.len());
        }
        assert(v@ =~= units@.take(trimmed_len(units@) as int));
    }
    v
}

/// Mapping from process name to process identifier.
///
/// Built by enumeration; queried by the resolver. Insertion overwrites on a
/// duplicate name, so each name is held at most once.
pub struct ProcessNameIndex {
    /// The records, one per retained name.
    pub records: Vec<ProcessRecord>,
}

impl View for ProcessNameIndex {
    type V = Map<Seq<char>, u32>;

    open spec fn view(&self) -> Map<Seq<char>, u32> {
        map_of(self.records@)
    }
}

impl ProcessNameIndex {
    /// Well-formedness: names are unique and no identifier is zero.
    pub open spec fn wf(self) -> bool {
        &&& names_unique(self.records@)
        &&& forall|i: int| 0 <= i < self.records@.len() ==> #[trigger] self.records@[i].pid != 0
    }

    /// Some record's upper-cased name equals the upper-cased query.
    pub open spec fn has_ci_match(self, name: Seq<char>) -> bool {
        exists|i: int|
            0 <= i < self.records@.len() && #[trigger] upper_of(self.records@[i].name@)
                == upper_of(name)
    }

    /// An empty index.
    pub fn new() -> (r: ProcessNameIndex)
        ensures
            r.wf(),
            r@ == Map::<Seq<char>, u32>::empty(),
            r.records@.len() == 0,
    {
        let r = ProcessNameIndex { records: Vec::new() };
        proof {
            assert(r@ =~= Map::<Seq<char>, u32>::empty());
        }
        r
    }

    /// Inserts a record, overwriting any record that already carries the name.
    pub fn insert(&mut self, name: String, pid: u32)
        requires
            old(self).wf(),
            pid != 0,
        ensures
            final(self).wf(),
            final(self)@ == old(self)@.insert(name@, pid),
    {
        let ghost s0 = self.records@;
        let n = self.records.len();
        let mut i: usize = 0;
        while i < n
            invariant
                n == self.records@.len(),
                i <= n,
                self.records@ == s0,
                s0 == old(self).records@,
                old(self).wf(),
                pid != 0,
                forall|j: int| 0 <= j < i ==> #[trigger] self.records@[j].name@ != name@,
            decreases n - i,
        {
            if self.records[i].name == name {
                let mut rec = self.records.remove(i);
                rec.pid = pid;
                proof {
                    assert(rec == ProcessRecord { name: s0[i as int].name, pid });
                }
                self.records.insert(i, rec);
                proof {
                    let t = self.records@;
                    assert(t =~= s0.update(i as int, ProcessRecord { name: s0[i as int].name, pid }));
                    lemma_map_of_update(s0, i as int, pid);
                    assert(s0[i as int].name@ == name@);
                    assert(map_of(t) == map_of(s0).insert(name@, pid));
                    assert forall|j: int| 0 <= j < t.len() implies #[trigger] t[j].name@
                        == s0[j].name@ by {
                        if j != i as int {
                            assert(t[j] == s0[j]);
                        }
                    }
                    assert(names_unique(t));
                    assert forall|j: int| 0 <= j < t.len() implies #[trigger] t[j].pid != 0 by {
                        if j != i as int {
                            assert(t[j] == s0[j]);
                            assert(s0[j].pid != 0);
                        } else {
                            assert(t[j].pid == pid);
                        }
                    }
                }
                return;
            }
            i += 1;
        }
        self.records.push(ProcessRecord { name, pid });
        proof {
            let t = self.records@;
            assert(t.drop_last() =~= s0);
            assert(map_of(t) == map_of(s0).insert(name@, pid));
            assert forall|a: int, b: int|
                0 <= a < b < t.len() implies #[trigger] t[a].name@ != #[trigger] t[b].name@ by {
                if b == t.len() - 1 {
                    assert(t[a] == s0[a]);
                    assert(s0[a].name@ != name@);
                } else {
                    assert(t[a] == s0[a]);
                    assert(t[b] == s0[b]);
                }
            }
            assert forall|j: int| 0 <= j < t.len() implies #[trigger] t[j].pid != 0 by {
                if j != t.len() - 1 {
                    assert(t[j] == s0[j]);
                }
            }
        }
    }

    /// Looks a name up, exactly.
    pub fn get(&self, name: &String) -> (r: Option<u32>)
        requires
            self.wf(),
        ensures
            r == if self@.contains_key(name@) {
                Some(self@[name@])
            } else {
                None::<u32>
            },
    {
        let n = self.records.len();
        let mut i: usize = 0;
        while i < n
            invariant
                n == self.records@.len(),
                i <= n,
                self.wf(),
                forall|j: int| 0 <= j < i ==> #[trigger] self.records@[j].name@ != name@,
            decreases n - i,
        {
            if self.records[i].name == *name {
                proof {
                    lemma_map_of_index(self.records@, i as int);
                }
                return Some(self.records[i].pid);
            }
            i += 1;
        }
        proof {
            lemma_map_of_contains(self.records@, name@);
        }
        None
    }

    /// Count of names the index holds.
    pub fn len(&self) -> (r: usize)
        requires
            self.wf(),
        ensures
            r as nat == self@.dom().len(),
    {
        proof {
            lemma_map_of_dom_len(self.records@);
        }
        self.records.len()
    }

    /// Strips the raw name of its trailing padding, decodes it, and inserts
    /// the record for one enumerated process.
    pub fn add_process(&mut self, pid: u32, raw_name: Vec<u16>)
        requires
            old(self).wf(),
            pid != 0,
        ensures
            final(self).wf(),
            final(self)@ == old(self)@.insert(string_of_utf16(trim_padding(raw_name@)), pid),
    {
        let trimmed = strip_trailing_zeros(raw_name);
        let name = decode_utf16(&trimmed);
        self.insert(name, pid);
    }

    /// Records what enumeration found out about one process: its record is
    /// inserted when its name could be read and its identifier is a real one;
    /// otherwise the process is skipped silently — enumeration races process
    /// lifecycles and permission boundaries, so that is expected, not an error.
    pub fn record_enumerated(&mut self, pid: u32, raw_name: Option<Vec<u16>>)
        requires
            old(self).wf(),
        ensures
            final(self).wf(),
            raw_name matches Some(units) ==> (pid != 0 ==> final(self)@ == old(self)@.insert(
                string_of_utf16(trim_padding(units@)),
                pid,
            )),
            raw_name is None || pid == 0 ==> final(self)@ == old(self)@,
    {
        match raw_name {
            Some(units) => {
                if pid != 0 {
                    self.add_process(pid, units);
                }
            },
            None => (),
        }
    }

    /// Resolves a name to an identifier.
    ///
    /// A first pass looks for an exact match; when none exists and
    /// case-insensitive matching is requested, a second pass compares the
    /// upper-cased forms of the query and of each stored name, whole-string,
    /// never by substring. Fails with `NotFound` when no pass matches.
    pub fn resolve(&self, name: &String, case_insensitive: bool) -> (r: Result<
        u32,
        ResolveError,
    >)
        requires
            self.wf(),
        ensures
            self@.contains_key(name@) ==> r == Ok::<u32, ResolveError>(self@[name@]),
            !self@.contains_key(name@) && case_insensitive && self.has_ci_match(name@) ==> (r
                matches Ok(p) && exists|i: int|
                0 <= i < self.records@.len() && #[trigger] upper_of(self.records@[i].name@)
                    == upper_of(name@) && p == self.records@[i].pid),
            !self@.contains_key(name@) && !(case_insensitive && self.has_ci_match(name@)) ==> r
                == Err::<u32, ResolveError>(ResolveError::NotFound),
    {
        let n = self.records.len();
        let mut i: usize = 0;
        while i < n
            invariant
                n == self.records@.len(),
                i <= n,
                self.wf(),
                forall|j: int| 0 <= j < i ==> #[trigger] self.records@[j].name@ != name@,
            decreases n - i,
        {
            if self.records[i].name == *name {
                proof {
                    lemma_map_of_index(self.records@, i as int);
                }
                return Ok(self.records[i].pid);
            }
            i += 1;
        }
        proof {
            lemma_map_of_contains(self.records@, name@);
        }
        if !case_insensitive {
            return Err(ResolveError::NotFound);
        }
        let upper_name = to_upper(name);
        let mut k: usize = 0;
        while k < n
            invariant
                n == self.records@.len(),
                k <= n,
                self.wf(),
                case_insensitive,
                !self@.contains_key(name@),
                upper_name@ == upper_of(name@),
                forall|j: int|
                    0 <= j < k ==> #[trigger] upper_of(self.records@[j].name@) != upper_of(name@),
            decreases n - k,
        {
            let upper_rec = to_upper(&self.records[k].name);
            if upper_rec == upper_name {
                proof {
                    assert(upper_of(self.records@[k as int].name@) == upper_of(name@));
                    assert(self.has_ci_match(name@));
                }
                return Ok(self.records[k].pid);
            }
            k += 1;
        }
        Err(ResolveError::NotFound)
    }
}

/// Resolves the identifier of a process given its name.
///
/// Case-insensitive matching is off unless requested; matching is always
/// whole-string equality against the index's entries.
pub fn find_process_by_name(
    index: &ProcessNameIndex,
    name: &String,
    case_insensitive: Option<bool>,
) -> (r: Result<u32, ResolveError>)
    requires
        index.wf(),
    ensures
        index@.contains_key(name@) ==> r == Ok::<u32, ResolveError>(index@[name@]),
        !index@.contains_key(name@) && case_insensitive == Some(true) && index.has_ci_match(name@)
            ==> (r matches Ok(p) && exists|i: int|
            0 <= i < index.records@.len() && #[trigger] upper_of(index.records@[i].name@)
                == upper_of(name@) && p == index.records@[i].pid),
        !index@.contains_key(name@) && !(case_insensitive == Some(true) && index.has_ci_match(
            name@,
        )) ==> r == Err::<u32, ResolveError>(ResolveError::NotFound),
{
    let ci = match case_insensitive {
        Some(b) => b,
        None => false,
    };
    index.resolve(name, ci)
}

/// A key is in the mapping of a record sequence exactly when some record
/// carries it.
pub proof fn lemma_map_of_contains(s: Seq<ProcessRecord>, k: Seq<char>)
    ensures
        map_of(s).contains_key(k) <==> exists|i: int|
            0 <= i < s.len() && #[trigger] s[i].name@ == k,
    decreases s.len(),
{
    if s.len() > 0 {
        lemma_map_of_contains(s.drop_last(), k);
        if s.last().name@ == k {
            assert(s[s.len() - 1].name@ == k);
        } else if map_of(s).contains_key(k) {
            let i = choose|i: int|
                0 <= i < s.drop_last().len() && #[trigger] s.drop_last()[i].name@ == k;
            assert(s[i].name@ == k);
        } else {
            assert forall|i: int| 0 <= i < s.len() implies #[trigger] s[i].name@ != k by {
                if i < s.len() - 1 {
                    assert(s.drop_last()[i].name@ == s[i].name@);
                }
            }
        }
    }
}

/// Under unique names, the mapping sends each record's name to its identifier.
pub proof fn lemma_map_of_index(s: Seq<ProcessRecord>, i: int)
    requires
        names_unique(s),
        0 <= i < s.len(),
    ensures
        map_of(s).contains_key(s[i].name@),
        map_of(s)[s[i].name@] == s[i].pid,
    decreases s.len(),
{
    if i < s.len() - 1 {
        assert(names_unique(s.drop_last()));
        lemma_map_of_index(s.drop_last(), i);
        assert(s.drop_last()[i] == s[i]);
        assert(s[i].name@ != s[s.len() - 1].name@);
    }
}

/// Replacing the identifier a record holds updates the mapping at that
/// record's name and nothing else.
pub proof fn lemma_map_of_update(s: Seq<ProcessRecord>, i: int, pid: u32)
    requires
        names_unique(s),
        0 <= i < s.len(),
    ensures
        map_of(s.update(i, ProcessRecord { name: s[i].name, pid })) == map_of(s).insert(
            s[i].name@,
            pid,
        ),
    decreases s.len(),
{
    let r = ProcessRecord { name: s[i].name, pid };
    let t = s.update(i, r);
    if i == s.len() - 1 {
        assert(t.drop_last() =~= s.drop_last());
        assert(t.last() == r);
        assert(map_of(t) =~= map_of(s).insert(s[i].name@, pid));
    } else {
        assert(names_unique(s.drop_last()));
        assert(t.drop_last() =~= s.drop_last().update(
            i,
            ProcessRecord { name: s.drop_last()[i].name, pid },
        ));
        lemma_map_of_update(s.drop_last(), i, pid);
        assert(t.last() == s.last());
        assert(s[i].name@ != s[s.len() - 1].name@);
        assert(map_of(t) =~= map_of(s).insert(s[i].name@, pid));
    }
}

/// Under unique names, the mapping holds exactly one key per record.
pub proof fn lemma_map_of_dom_len(s: Seq<ProcessRecord>)
    requires
        names_unique(s),
    ensures
        map_of(s).dom().finite(),
        map_of(s).dom().len() == s.len(),
    decreases s.len(),
{
    if s.len() == 0 {
        assert(map_of(s).dom() =~= Set::<Seq<char>>::empty());
    } else {
        assert(names_unique(s.drop_last()));
        lemma_map_of_dom_len(s.drop_last());
        lemma_map_of_contains(s.drop_last(), s.last().name@);
        assert forall|i: int|
            0 <= i < s.drop_last().len() implies #[trigger] s.drop_last()[i].name@
            != s.last().name@ by {
            assert(s.drop_last()[i].name@ == s[i].name@);
            assert(s[i].name@ != s[s.len() - 1].name@);
        }
        assert(!map_of(s.drop_last()).contains_key(s.last().name@));
        assert(map_of(s).dom() =~= map_of(s.drop_last()).dom().insert(s.last().name@));
    }
}

/// No identifier a well-formed index returns is zero: every key of its
/// mapping is sent to a nonzero identifier.
pub proof fn lemma_no_zero_pid(index: ProcessNameIndex)
    requires
        index.wf(),
    ensures
        forall|k: Seq<char>| index@.contains_key(k) ==> index@[k] != 0,
{
    assert forall|k: Seq<char>| index@.contains_key(k) implies index@[k] != 0 by {
        lemma_map_of_contains(index.records@, k);
        let i = choose|i: int|
            0 <= i < index.records@.len() && #[trigger] index.records@[i].name@ == k;
        lemma_map_of_index(index.records@, i);
    }
}

} // verus!
