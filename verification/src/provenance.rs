//! Provenance of a code list: its source, when it was created and last
//! modified, and who has contributed to it.
//!
//! Timestamps are held as milliseconds since the Unix epoch. The contributor
//! set is held as a vector whose invariant keeps the names distinct, so that
//! each contributor is recorded once.

use vstd::prelude::*;
use crate::errors::CodeListError;
use crate::metadata::MetadataSource;

verus! {

/// Relies on chrono's `Utc::now` (the wall clock read as a UTC datetime;
/// it panics rather than return a time before the Unix epoch) and
/// `DateTime::timestamp_millis` (the datetime as non-leap milliseconds since
/// the Unix epoch). Nothing can be promised of the clock's value beyond that
/// a time at or after the epoch yields a non-negative count.
#[verifier::external_body]
fn now_timestamp_millis() -> (t: i64)
    ensures
        t >= 0,
{
    chrono::Utc::now().timestamp_millis()
}

/// No contributor is recorded twice.
pub open spec fn contributors_distinct(contributors: Seq<String>) -> bool {
    forall|i: int, j: int|
        0 <= i < j < contributors.len() ==> contributors[i]@ != contributors[j]@
}

/// The set of contributor names recorded.
pub open spec fn contributor_set(contributors: Seq<String>) -> Set<Seq<char>> {
    contributors.map_values(|c: String| c@).to_set()
}

/// Who made a code list, when, and who has worked on it since.
pub struct Provenance {
    pub source: MetadataSource,
    pub created_date: i64,
    pub last_modified_date: i64,
    pub contributors: Vec<String>,
}

impl Provenance {
    /// Every provenance keeps its contributors distinct.
    pub open spec fn wf(&self) -> bool {
        contributors_distinct(self.contributors@)
    }

    /// A fresh provenance: created and last modified now, recording exactly
    /// the given contributor names (duplicates collapsed), or none.
    pub fn new(source: MetadataSource, contributors: Option<Vec<String>>) -> (p: Provenance)
        ensures
            p.wf(),
            p.source == source,
            p.created_date >= 0,
            p.last_modified_date >= 0,
            match contributors {
                Some(cs) => contributor_set(p.contributors@) == contributor_set(cs@),
                None => p.contributors@.len() == 0,
            },
    {
        let mut distinct: Vec<String> = Vec::new();
        match contributors {
            Some(cs) => {
                let mut i: usize = 0;
                while i < cs.len()
                    invariant
                        i <= cs@.len(),
                        contributors_distinct(distinct@),
                        contributor_set(distinct@) == contributor_set(cs@.take(i as int)),
                    decreases cs@.len() - i,
                {
                    proof {
                        assert(cs@.take(i as int + 1) =~= cs@.take(i as int).push(cs@[i as int]));
                        lemma_contributor_set_push(cs@.take(i as int), cs@[i as int]);
                    }
                    if !contains_contributor(&distinct, &cs[i]) {
                        let ghost before = distinct@;
                        distinct.push(cs[i].clone());
                        proof {
                            lemma_contributor_set_push(before, cs@[i as int]);
                        }
                    } else {
                        proof {
                            assert(contributor_set(cs@.take(i as int)).insert(cs@[i as int]@)
                                =~= contributor_set(cs@.take(i as int)));
                        }
                    }
                    i = i + 1;
                }
                proof {
                    assert(cs@.take(cs@.len() as int) =~= cs@);
                }
            },
            None => {},
        }
        let created = now_timestamp_millis();
        let modified = now_timestamp_millis();
        Provenance {
            source,
            created_date: created,
            last_modified_date: modified,
            contributors: distinct,
        }
    }

    /// Stamp the provenance as modified now; nothing else changes.
    pub fn update_last_modified_date(&mut self)
        requires
            old(self).wf(),
        ensures
            final (self).wf(),
            final (self).last_modified_date >= 0,
            final (self).source == old(self).source,
            final (self).created_date == old(self).created_date,
            final (self).contributors == old(self).contributors,
    {
        self.last_modified_date = now_timestamp_millis();
    }

    /// Record a contributor. A name already recorded is left as it is; a new
    /// one is appended.
    pub fn add_contributor(&mut self, contributor: String)
        requires
            old(self).wf(),
        ensures
            final (self).wf(),
            final (self).source == old(self).source,
            final (self).created_date == old(self).created_date,
            final (self).last_modified_date == old(self).last_modified_date,
            if contributor_set(old(self).contributors@).contains(contributor@) {
                final (self).contributors == old(self).contributors
            } else {
                final (self).contributors@ == old(self).contributors@.push(contributor)
            },
    {
        proof {
            lemma_contributor_set_characterises(self.contributors@, contributor@);
        }
        if !contains_contributor(&self.contributors, &contributor) {
            let ghost before = self.contributors@;
            self.contributors.push(contributor);
            proof {
                lemma_contributor_set_push(before, contributor);
            }
        }
    }

    /// Forget a contributor. Succeeds exactly when the name is recorded, and
    /// then removes its one occurrence; an unknown name is reported as
    /// `ContributorNotFound`.
    pub fn remove_contributor(&mut self, contributor: String) -> (r: Result<(), CodeListError>)
        requires
            old(self).wf(),
        ensures
            final (self).wf(),
            final (self).source == old(self).source,
            final (self).created_date == old(self).created_date,
            final (self).last_modified_date == old(self).last_modified_date,
            match r {
                Ok(u) => {
                    &&& contributor_set(old(self).contributors@).contains(contributor@)
                    &&& exists|k: int|
                        {
                            &&& 0 <= k < old(self).contributors@.len()
                            &&& old(self).contributors@[k]@ == contributor@
                            &&& final (self).contributors@ == old(self).contributors@.remove(k)
                        }
                },
                Err(e) => {
                    &&& !contributor_set(old(self).contributors@).contains(contributor@)
                    &&& final (self).contributors == old(self).contributors
                    &&& e matches CodeListError::ContributorNotFound { contributor: c } && c
                        == contributor
                },
            },
    {
        proof {
            lemma_contributor_set_characterises(self.contributors@, contributor@);
        }
        let mut i: usize = 0;
        while i < self.contributors.len()
            invariant
                i <= self.contributors@.len(),
                forall|k: int| 0 <= k < i ==> self.contributors@[k]@ != contributor@,
                *self == *old(self),
                contributors_distinct(old(self).contributors@),
            decreases self.contributors@.len() - i,
        {
            if string_views_equal(&self.contributors[i], &contributor) {
                let ghost before = self.contributors@;
                self.contributors.remove(i);
                proof {
                    lemma_contributor_set_characterises(before, contributor@);
                    lemma_distinct_remove(before, i as int);
                    assert(old(self).contributors@[i as int]@ == contributor@);
                    assert(self.contributors@ == old(self).contributors@.remove(i as int));
                }
                return Ok(());
            }
            i = i + 1;
        }
        Err(CodeListError::contributor_not_found(contributor))
    }
}

/// Whether two strings hold the same characters.
fn string_views_equal(a: &String, b: &String) -> (r: bool)
    ensures
        r == (a@ == b@),
{
    a.eq(b)
}

/// Whether `name` is already recorded among `contributors`.
fn contains_contributor(contributors: &Vec<String>, name: &String) -> (r: bool)
    ensures
        r == contributor_set(contributors@).contains(name@),
{
    let mut i: usize = 0;
    while i < contributors.len()
        invariant
            i <= contributors@.len(),
            forall|k: int| 0 <= k < i ==> contributors@[k]@ != name@,
        decreases contributors@.len() - i,
    {
        if string_views_equal(&contributors[i], name) {
            proof {
                lemma_contributor_set_characterises(contributors@, name@);
            }
            return true;
        }
        i = i + 1;
    }
    proof {
        lemma_contributor_set_characterises(contributors@, name@);
    }
    false
}

/// A name is in the contributor set exactly when some entry holds it.
proof fn lemma_contributor_set_characterises(contributors: Seq<String>, name: Seq<char>)
    ensures
        contributor_set(contributors).contains(name) <==> exists|k: int|
            0 <= k < contributors.len() && contributors[k]@ == name,
{
    let views = contributors.map_values(|c: String| c@);
    if exists|k: int| 0 <= k < contributors.len() && contributors[k]@ == name {
        let k = choose|k: int| 0 <= k < contributors.len() && contributors[k]@ == name;
        assert(views[k] == name);
    }
}

/// Appending a name grows the contributor set by exactly that name.
proof fn lemma_contributor_set_push(contributors: Seq<String>, name: String)
    ensures
        contributor_set(contributors.push(name)) == contributor_set(contributors).insert(name@),
        contributors_distinct(contributors) && !contributor_set(contributors).contains(name@)
            ==> contributors_distinct(contributors.push(name)),
{
    let views = contributors.map_values(|c: String| c@);
    let pushed_views = contributors.push(name).map_values(|c: String| c@);
    assert(pushed_views =~= views.push(name@));
    assert(pushed_views.to_set() =~= views.to_set().insert(name@)) by {
        assert forall|v: Seq<char>| pushed_views.to_set().contains(v) implies views.to_set().insert(
            name@,
        ).contains(v) by {
            let k = choose|k: int| 0 <= k < pushed_views.len() && pushed_views[k] == v;
            if k < views.len() {
                assert(views[k] == v);
            }
        }
        assert forall|v: Seq<char>|
            views.to_set().insert(name@).contains(v) implies pushed_views.to_set().contains(v) by {
            if views.to_set().contains(v) {
                let k = choose|k: int| 0 <= k < views.len() && views[k] == v;
                assert(pushed_views[k] == v);
            } else {
                assert(pushed_views.last() == v);
            }
        }
    }
    if contributors_distinct(contributors) && !contributor_set(contributors).contains(name@) {
        lemma_contributor_set_characterises(contributors, name@);
    }
}

/// Removing an entry from a distinct sequence keeps it distinct.
proof fn lemma_distinct_remove(contributors: Seq<String>, k: int)
    requires
        contributors_distinct(contributors),
        0 <= k < contributors.len(),
    ensures
        contributors_distinct(contributors.remove(k)),
{
}

} // verus!
