//! A bus routing key.
//!
//! A topic is a dot-delimited subject. Subscriptions match hierarchically: the
//! family `job` receives `job.scheduled`, `job.dispatched` and so on. There are
//! no wildcards; matching is exact-or-descendant.
use crate::text::chars_of;
use crate::text::IntoText;
use vstd::prelude::*;

verus! {

/// A dot-delimited subject such as `job.scheduled`, used both as the subject that
/// a message is published under and as the family that a subscriber listens to.
#[derive(Debug, Eq, Hash, PartialOrd, Ord)]
pub struct Topic(String);

impl View for Topic {
    type V = Seq<char>;

    closed spec fn view(&self) -> Seq<char> {
        self.0@
    }
}

/// Whether subscription `family` covers `subject`: they are equal, or the subject
/// is the family, a dot, and more.
pub open spec fn covering(family: Seq<char>, subject: Seq<char>) -> bool {
    ||| subject == family
    ||| {
        &&& subject.len() > family.len()
        &&& subject.take(family.len() as int) == family
        &&& subject[family.len() as int] == '.'
    }
}

impl Topic {
    /// The job-lifecycle family (`job`).
    #[must_use]
    pub fn job_lifecycle() -> (t: Self)
        ensures
            t@ == "job"@,
    {
        Topic("job".to_owned())
    }

    /// The agent-events family (`agent`).
    #[must_use]
    pub fn agent_events() -> (t: Self)
        ensures
            t@ == "agent"@,
    {
        Topic("agent".to_owned())
    }

    /// A topic of an arbitrary subject.
    #[must_use]
    pub fn new(subject: impl IntoText) -> (t: Self)
        ensures
            t@ == subject.text(),
    {
        Topic(subject.into_text())
    }

    /// The subject as a string slice.
    #[must_use]
    pub fn as_str(&self) -> (s: &str)
        ensures
            s@ == self@,
    {
        self.0.as_str()
    }

    /// The topic as shown to a reader.
    #[must_use]
    pub fn to_string(&self) -> (s: String)
        ensures
            s@ == self@,
    {
        self.0.clone()
    }

    /// Whether this (subscription) topic covers `subject`: `job` covers `job` and
    /// `job.scheduled` but not `jobs`.
    #[must_use]
    pub fn covers(&self, subject: &Topic) -> (r: bool)
        ensures
            r == covering(self@, subject@),
    {
        let parent = chars_of(self.0.as_str());
        let child = chars_of(subject.0.as_str());
        if child.len() < parent.len() {
            proof {
                if subject@ == self@ {
                    assert(child@.len() == parent@.len());
                }
            }
            return false;
        }
        let mut i: usize = 0;
        while i < parent.len()
            invariant
                i <= parent@.len() <= child@.len(),
                parent@ == self@,
                child@ == subject@,
                forall|j: int| 0 <= j < i ==> parent@[j] == child@[j],
            decreases parent@.len() - i,
        {
            if parent[i] != child[i] {
                proof {
                    assert(subject@ != self@);
                    assert(subject@.take(parent@.len() as int)[i as int] != self@[i as int]);
                }
                return false;
            }
            i = i + 1;
        }
        proof {
            assert(child@.take(parent@.len() as int) =~= parent@);
            if child@.len() == parent@.len() {
                assert(child@ =~= parent@);
            }
        }
        child.len() == parent.len() || child[parent.len()] == '.'
    }
}

impl Clone for Topic {
    fn clone(&self) -> (t: Self)
        ensures
            t@ == self@,
    {
        Topic(self.0.clone())
    }
}

impl PartialEq for Topic {
    fn eq(&self, other: &Self) -> (r: bool) {
        self.0 == other.0
    }
}

impl vstd::std_specs::cmp::PartialEqSpecImpl for Topic {
    open spec fn obeys_eq_spec() -> bool {
        true
    }

    open spec fn eq_spec(&self, other: &Self) -> bool {
        self@ == other@
    }
}

impl From<String> for Topic {
    fn from(subject: String) -> (t: Self)
        ensures
            t@ == subject@,
    {
        Topic(subject)
    }
}

impl vstd::std_specs::convert::FromSpecImpl<String> for Topic {
    open spec fn obeys_from_spec() -> bool {
        true
    }

    closed spec fn from_spec(subject: String) -> Self {
        Topic(subject)
    }
}

impl<'a> From<&'a str> for Topic {
    fn from(subject: &'a str) -> (t: Self)
        ensures
            t@ == subject@,
    {
        Topic(subject.to_owned())
    }
}

impl<'a> vstd::std_specs::convert::FromSpecImpl<&'a str> for Topic {
    open spec fn obeys_from_spec() -> bool {
        false
    }

    open spec fn from_spec(subject: &'a str) -> Self {
        arbitrary()
    }
}

/// Every topic covers itself.
pub proof fn covering_is_reflexive(t: Seq<char>)
    ensures
        covering(t, t),
{
}

/// A family covers whatever its descendants cover.
pub proof fn covering_is_transitive(a: Seq<char>, b: Seq<char>, c: Seq<char>)
    requires
        covering(a, b),
        covering(b, c),
    ensures
        covering(a, c),
{
    if a != b && b != c {
        assert(c.take(a.len() as int) =~= c.take(b.len() as int).take(a.len() as int));
        assert(c[a.len() as int] == c.take(b.len() as int)[a.len() as int]);
    }
}

/// The family is broader than a specific subject, never the reverse.
pub proof fn covering_is_antisymmetric(a: Seq<char>, b: Seq<char>)
    requires
        covering(a, b),
        covering(b, a),
    ensures
        a == b,
{
}

/// Exactly the subjects below a family, past a dot, are covered besides itself.
pub proof fn a_family_covers_what_follows_its_dot(family: Seq<char>, leaf: Seq<char>)
    ensures
        covering(family, family + seq!['.'] + leaf),
{
    assert((family + seq!['.'] + leaf).take(family.len() as int) =~= family);
}

/// A subject that a family covers is the family itself, or the family, a dot, and more:
/// no other text that merely begins like the family is covered.
pub proof fn what_is_covered_is_the_family_or_lies_below_it(family: Seq<char>, subject: Seq<char>)
    requires
        covering(family, subject),
        subject != family,
    ensures
        exists|leaf: Seq<char>| subject == #[trigger] (family + seq!['.'] + leaf),
{
    let leaf = subject.skip(family.len() as int + 1);
    assert(subject =~= family + seq!['.'] + leaf);
}

/// A family covers no sibling: a text that goes on after the family with anything but a
/// dot is another subject.
pub proof fn a_longer_word_is_another_subject(family: Seq<char>, c: char, more: Seq<char>)
    requires
        c != '.',
    ensures
        !covering(family, family + seq![c] + more),
{
    let subject = family + seq![c] + more;
    assert(subject[family.len() as int] == c);
    assert(subject.len() > family.len());
}

/// The two families are apart: whatever one of them covers the other does not, and each
/// covers every subject below its name.
pub proof fn the_families_are_apart(
    jobs: Topic,
    agents: Topic,
    subject: Topic,
    of_jobs: bool,
    of_agents: bool,
    leaf: Seq<char>,
)
    requires
        call_ensures(Topic::job_lifecycle, (), jobs),
        call_ensures(Topic::agent_events, (), agents),
        call_ensures(Topic::covers, (&jobs, &subject), of_jobs),
        call_ensures(Topic::covers, (&agents, &subject), of_agents),
    ensures
        !(of_jobs && of_agents),
        subject@ == "job."@ + leaf ==> of_jobs,
        subject@ == "agent."@ + leaf ==> of_agents,
{
    reveal_strlit("job");
    reveal_strlit("agent");
    reveal_strlit("job.");
    reveal_strlit("agent.");
    assert("job"@[0] == 'j' && "agent"@[0] == 'a');
    let n = jobs@.len() as int;
    let m = agents@.len() as int;
    if of_jobs {
        assert(subject@[0] == subject@.take(n)[0]);
        assert(subject@[0] == 'j');
    }
    if of_agents {
        assert(subject@[0] == subject@.take(m)[0]);
        assert(subject@[0] == 'a');
    }
    if subject@ == "job."@ + leaf {
        assert(subject@.take(n) =~= jobs@);
        assert(subject@[n] == '.');
    }
    if subject@ == "agent."@ + leaf {
        assert(subject@.take(m) =~= agents@);
        assert(subject@[m] == '.');
    }
}

/// A topic tells the subject that it was made of.
pub proof fn a_topic_tells_its_subject(subject: &str, t: Topic, told: &str, shown: String)
    requires
        call_ensures(Topic::new, (subject,), t),
        call_ensures(Topic::as_str, (&t,), told),
        call_ensures(Topic::to_string, (&t,), shown),
    ensures
        told@ == subject@,
        shown@ == subject@,
{
}

} // verus!
