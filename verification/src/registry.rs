use vstd::prelude::*;

verus! {

use crate::target::TargetInfo;

/// True iff `a` and `b` hold the same characters.
pub(crate) fn str_eq(a: &str, b: &str) -> (r: bool)
    ensures
        r == (a@ == b@),
{
    let sa: String = a.to_owned();
    let sb: String = b.to_owned();
    sa == sb
}

/// No two entries share an identifier.
pub open spec fn unique_ids(ts: Seq<TargetInfo>) -> bool {
    forall|i: int, j: int|
        0 <= i < ts.len() && 0 <= j < ts.len() && i != j ==> ts[i].identifier@ != ts[j].identifier@
}

/// The first entry whose identifier is `id`, if any.
pub open spec fn lookup_in(ts: Seq<TargetInfo>, id: Seq<char>) -> Option<TargetInfo>
    decreases ts.len(),
{
    if ts.len() == 0 {
        None
    } else if ts[0].identifier@ == id {
        Some(ts[0])
    } else {
        lookup_in(ts.drop_first(), id)
    }
}

/// Some entry carries the identifier `id`.
pub open spec fn contains_id(ts: Seq<TargetInfo>, id: Seq<char>) -> bool {
    lookup_in(ts, id) is Some
}

/// A found entry really carries the searched identifier and sits in the
/// sequence; a miss means no entry carries it.
pub proof fn lemma_lookup_in_found(ts: Seq<TargetInfo>, id: Seq<char>)
    ensures
        (match lookup_in(ts, id) {
            Some(t) => ts.contains(t) && t.identifier@ == id,
            None => forall|i: int| 0 <= i < ts.len() ==> ts[i].identifier@ != id,
        }),
    decreases ts.len(),
{
    if ts.len() == 0 {
    } else if ts[0].identifier@ == id {
        assert(ts.contains(ts[0]));
    } else {
        lemma_lookup_in_found(ts.drop_first(), id);
        match lookup_in(ts.drop_first(), id) {
            Some(t) => {
                let k = choose|k: int| 0 <= k < ts.drop_first().len() && ts.drop_first()[k] == t;
                assert(ts[k + 1] == t);
                assert(ts.contains(t));
            },
            None => {
                assert forall|i: int| 0 <= i < ts.len() implies ts[i].identifier@ != id by {
                    if i >= 1 {
                        assert(ts[i] == ts.drop_first()[i - 1]);
                    }
                };
            },
        }
    }
}

/// Skipping a prefix in which no identifier matches does not change the
/// result of the search.
pub proof fn lemma_lookup_in_skip(ts: Seq<TargetInfo>, id: Seq<char>, j: int)
    requires
        0 <= j <= ts.len(),
        forall|i: int| 0 <= i < j ==> ts[i].identifier@ != id,
    ensures
        lookup_in(ts, id) == lookup_in(ts.skip(j), id),
    decreases j,
{
    if j > 0 {
        lemma_lookup_in_skip(ts.drop_first(), id, j - 1);
        assert(forall|i: int|
            1 <= i < ts.len() ==> ts[i] == #[trigger] ts.drop_first()[i - 1]);
        assert(ts.drop_first().skip(j - 1) =~= ts.skip(j));
    } else {
        assert(ts.skip(0) =~= ts);
    }
}

/// Read-only mapping from identifier to target descriptor, fixed once it is
/// built; `all` hands the descriptors back in insertion order.
pub struct TargetRegistry {
    entries: Vec<TargetInfo>,
}

impl View for TargetRegistry {
    type V = Seq<TargetInfo>;

    closed spec fn view(&self) -> Seq<TargetInfo> {
        self.entries@
    }
}

impl TargetRegistry {
    pub open spec fn wf(&self) -> bool {
        unique_ids(self@)
    }

    /// Builds the registry from its descriptors; refuses a set in which two
    /// descriptors share an identifier.
    pub fn new(entries: Vec<TargetInfo>) -> (r: Option<TargetRegistry>)
        ensures
            (match r {
                Some(reg) => unique_ids(entries@) && reg@ == entries@ && reg.wf(),
                None => !unique_ids(entries@),
            }),
    {
        let n = entries.len();
        let mut j: usize = 0;
        while j < n
            invariant
                n == entries@.len(),
                j <= n,
                forall|a: int, b: int|
                    0 <= a < j && 0 <= b < j && a != b
                        ==> entries@[a].identifier@ != entries@[b].identifier@,
            decreases n - j,
        {
            let mut i: usize = 0;
            while i < j
                invariant
                    n == entries@.len(),
                    j < n,
                    i <= j,
                    forall|a: int, b: int|
                        0 <= a < j && 0 <= b < j && a != b
                            ==> entries@[a].identifier@ != entries@[b].identifier@,
                    forall|a: int| 0 <= a < i ==> entries@[a].identifier@ != entries@[j as int].identifier@,
                decreases j - i,
            {
                if str_eq(entries[i].identifier.as_str(), entries[j].identifier.as_str()) {
                    assert(!unique_ids(entries@));
                    return None;
                }
                i += 1;
            }
            j += 1;
        }
        Some(TargetRegistry { entries })
    }

    /// The descriptor registered under `id`, if any.
    pub fn lookup(&self, id: &str) -> (r: Option<&TargetInfo>)
        ensures
            (match r {
                Some(t) => lookup_in(self@, id@) == Some(*t),
                None => lookup_in(self@, id@) is None,
            }),
    {
        let n = self.entries.len();
        let mut j: usize = 0;
        while j < n
            invariant
                n == self.entries@.len(),
                j <= n,
                forall|i: int| 0 <= i < j ==> self.entries@[i].identifier@ != id@,
            decreases n - j,
        {
            if str_eq(self.entries[j].identifier.as_str(), id) {
                proof {
                    lemma_lookup_in_skip(self.entries@, id@, j as int);
                    assert(self.entries@.skip(j as int)[0] == self.entries@[j as int]);
                }
                return Some(&self.entries[j]);
            }
            j += 1;
        }
        proof {
            lemma_lookup_in_skip(self.entries@, id@, n as int);
        }
        None
    }

    /// Every registered descriptor, in insertion order.
    pub fn all(&self) -> (r: &Vec<TargetInfo>)
        ensures
            r@ == self@,
    {
        &self.entries
    }

    /// How many targets are registered.
    pub fn len(&self) -> (n: usize)
        ensures
            n == self@.len(),
    {
        self.entries.len()
    }
}

} // verus!
