//! The locally persisted state: credentials, the resolved user id, and the
//! cached course list, together with its merge and mutation rules.

use vstd::prelude::*;

verus! {

/// One cached course. Its identity key is `id`; the remaining fields are
/// remote metadata carried along unchanged for display and persistence.
#[derive(Debug, Clone, PartialEq, Eq)]
pub struct Course {
    pub id: String,
    pub name: String,
    pub teacher: String,
}

/// Keeping a course means its id differs from the id being removed.
pub open spec fn course_id_differs(id: Seq<char>) -> spec_fn(Course) -> bool {
    |c: Course| c.id@ != id
}

/// The single process-wide configuration document: loaded once at start,
/// mutated in place by the command handlers, persisted once at exit.
#[derive(Debug)]
pub struct Config {
    pub username: String,
    pub password: String,
    pub user_id: String,
    pub courses: Vec<Course>,
}

impl Config {
    /// A default-initialized document: every field empty. This is what a
    /// missing or unparsable on-disk document degrades to.
    pub fn empty() -> (c: Config)
        ensures
            c.username@ == Seq::<char>::empty(),
            c.password@ == Seq::<char>::empty(),
            c.user_id@ == Seq::<char>::empty(),
            c.courses@ == Seq::<Course>::empty(),
    {
        Config {
            username: String::new(),
            password: String::new(),
            user_id: String::new(),
            courses: Vec::new(),
        }
    }

    /// Merges optionally supplied credentials into the document, field by
    /// field: a supplied value overwrites its field, an absent one leaves
    /// the previously stored value untouched. Nothing else changes.
    pub fn apply_login(&mut self, username: Option<String>, password: Option<String>)
        ensures
            final(self).username == (if username is Some {
                username->0
            } else {
                old(self).username
            }),
            final(self).password == (if password is Some {
                password->0
            } else {
                old(self).password
            }),
            final(self).user_id == old(self).user_id,
            final(self).courses == old(self).courses,
    {
        if let Some(u) = username {
            self.username = u;
        }
        if let Some(p) = password {
            self.password = p;
        }
    }

    /// Stores the freshly resolved user id; nothing else changes.
    pub fn set_user_id(&mut self, id: String)
        ensures
            final(self).user_id == id,
            final(self).username == old(self).username,
            final(self).password == old(self).password,
            final(self).courses == old(self).courses,
    {
        self.user_id = id;
    }

    /// Removes every cached course whose id equals `id`, keeping the
    /// survivors in their original order. Nothing else changes.
    pub fn remove_course(&mut self, id: &String)
        ensures
            final(self).courses@ == old(self).courses@.filter(course_id_differs(id@)),
            final(self).username == old(self).username,
            final(self).password == old(self).password,
            final(self).user_id == old(self).user_id,
    {
        let ghost pred = course_id_differs(id@);
        let mut rest: Vec<Course> = Vec::new();
        core::mem::swap(&mut self.courses, &mut rest);
        let ghost orig = rest@;
        let n: usize = rest.len();
        proof {
            assert(orig.len() == n);
        }
        let mut kept: Vec<Course> = Vec::new();
        let mut consumed: usize = 0;
        proof {
            reveal(Seq::filter);
            assert(orig.take(0) =~= Seq::<Course>::empty());
        }
        while rest.len() > 0
            invariant
                orig.len() <= usize::MAX,
                consumed <= orig.len(),
                consumed == orig.len() - rest.len(),
                rest@ == orig.skip(consumed as int),
                kept@ == orig.take(consumed as int).filter(pred),
                pred == course_id_differs(id@),
            decreases rest.len(),
        {
            let course = rest.remove(0);
            proof {
                reveal(Seq::filter);
                assert(orig.skip(consumed as int).remove(0) =~= orig.skip(consumed + 1));
                assert(course == orig[consumed as int]);
                let t1 = orig.take(consumed + 1);
                assert(t1.drop_last() =~= orig.take(consumed as int));
                assert(t1.last() == orig[consumed as int]);
            }
            if !(course.id == *id) {
                kept.push(course);
            }
            consumed = consumed + 1;
        }
        proof {
            assert(orig.take(consumed as int) =~= orig);
        }
        self.courses = kept;
    }

    /// Replaces the whole cached course list with the result of a
    /// successful term query; the old entries are discarded, never merged.
    /// Nothing else changes.
    pub fn replace_courses(&mut self, courses: Vec<Course>)
        ensures
            final(self).courses == courses,
            final(self).username == old(self).username,
            final(self).password == old(self).password,
            final(self).user_id == old(self).user_id,
    {
        self.courses = courses;
    }
}

/// Law: a successful term query fully replaces the cache, never unions.
/// Once the cached list equals the fetched one, an entry is cached exactly
/// when the fresh result holds it; in particular an old entry absent from
/// the fresh result is gone.
pub proof fn lemma_replacement_is_not_a_union(after: Config, fetched: Seq<Course>, c: Course)
    requires
        after.courses@ == fetched,
    ensures
        after.courses@.contains(c) <==> fetched.contains(c),
{
}

/// Law: removal keeps exactly the entries with a different id. Every entry
/// of the filtered list misses the removed id, and every entry of the
/// original list with a different id is still present in the filtered one.
pub proof fn lemma_remove_course_exact(courses: Seq<Course>, id: Seq<char>)
    ensures
        forall|i: int|
            0 <= i < courses.filter(course_id_differs(id)).len() ==> (#[trigger] courses.filter(
                course_id_differs(id),
            )[i]).id@ != id,
        forall|i: int|
            0 <= i < courses.len() && (#[trigger] courses[i]).id@ != id ==> courses.filter(
                course_id_differs(id),
            ).contains(courses[i]),
{
    let pred = course_id_differs(id);
    assert forall|i: int|
        0 <= i < courses.filter(pred).len() implies (#[trigger] courses.filter(pred)[i]).id@
        != id by {
        courses.lemma_filter_pred(pred, i);
        assert(pred(courses.filter(pred)[i]));
    }
    assert forall|i: int|
        0 <= i < courses.len() && (#[trigger] courses[i]).id@ != id implies courses.filter(
        pred,
    ).contains(courses[i]) by {
        assert(pred(courses[i]));
        courses.lemma_filter_contains(pred, i);
    }
}

} // verus!
