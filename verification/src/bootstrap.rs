//! The pass over the known subjects that comes before the first input line.
//!
//! Each subject's state is synchronized once, one after the other, in the
//! order in which the session configuration lists them. The first failure
//! ends the pass: the subjects after it are not tried, and the session must
//! not go on to read input. The machine here decides which subject is next
//! and how the pass ended; whoever drives it does the synchronizing.

use vstd::prelude::*;

verus! {

/// How the synchronization of one subject ended.
#[derive(Clone, Copy, Debug, PartialEq, Eq, Structural)]
pub enum SyncOutcome {
    Synced,
    Failed,
}

/// Where the pass stands.
#[derive(Clone, Copy, Debug, PartialEq, Eq, Structural)]
pub enum BootstrapStatus {
    /// A subject is waiting to be synchronized.
    Syncing,
    /// Every subject was synchronized: the session may read input.
    Ready,
    /// A synchronization failed: the session must end.
    Aborted,
}

/// What a [`BootstrapSync`] stands for: the subjects in their listed order,
/// how many of them were tried, and whether the last of those failed.
pub struct BootstrapView<T> {
    pub subjects: Seq<T>,
    pub attempted: nat,
    pub failed: bool,
}

impl<T> BootstrapView<T> {
    /// The pass over `subjects` before anything was tried.
    pub open spec fn start(subjects: Seq<T>) -> BootstrapView<T> {
        BootstrapView { subjects, attempted: 0, failed: false }
    }

    /// Where the pass stands.
    pub open spec fn status(self) -> BootstrapStatus {
        if self.failed {
            BootstrapStatus::Aborted
        } else if self.attempted < self.subjects.len() {
            BootstrapStatus::Syncing
        } else {
            BootstrapStatus::Ready
        }
    }

    /// The subject to synchronize next, if the pass is not over.
    pub open spec fn pending(self) -> Option<T> {
        if self.status() is Syncing {
            Some(self.subjects[self.attempted as int])
        } else {
            None
        }
    }

    /// The pass once the pending subject's synchronization ended in
    /// `outcome`. Where no subject is pending, nothing changes.
    pub open spec fn recorded(self, outcome: SyncOutcome) -> BootstrapView<T> {
        if self.status() is Syncing {
            BootstrapView {
                subjects: self.subjects,
                attempted: self.attempted + 1,
                failed: outcome is Failed,
            }
        } else {
            self
        }
    }
}

/// The pass over the subjects of a session.
#[derive(Debug)]
pub struct BootstrapSync<T> {
    subjects: Vec<T>,
    attempted: usize,
    failed: bool,
}

impl<T> View for BootstrapSync<T> {
    type V = BootstrapView<T>;

    closed spec fn view(&self) -> BootstrapView<T> {
        BootstrapView {
            subjects: self.subjects@,
            attempted: self.attempted as nat,
            failed: self.failed,
        }
    }
}

impl<T> BootstrapSync<T> {
    #[verifier::type_invariant]
    spec fn within_subjects(self) -> bool {
        self.attempted <= self.subjects.len()
    }

    /// The pass over `subjects`, in their order, with none tried yet.
    pub fn new(subjects: Vec<T>) -> (pass: BootstrapSync<T>)
        ensures
            pass@ == BootstrapView::start(subjects@),
    {
        BootstrapSync { subjects, attempted: 0, failed: false }
    }

    /// Where the pass stands.
    pub fn status(&self) -> (status: BootstrapStatus)
        ensures
            status == self@.status(),
    {
        if self.failed {
            BootstrapStatus::Aborted
        } else if self.attempted < self.subjects.len() {
            BootstrapStatus::Syncing
        } else {
            BootstrapStatus::Ready
        }
    }

    /// The subject to synchronize next: the first in the listed order that
    /// was not tried yet, unless a synchronization failed.
    pub fn pending(&self) -> (subject: Option<&T>)
        ensures
            match subject {
                Some(subject) => self@.pending() == Some(*subject),
                None => self@.pending() is None,
            },
    {
        if !self.failed && self.attempted < self.subjects.len() {
            Some(&self.subjects[self.attempted])
        } else {
            None
        }
    }

    /// Takes in how the synchronization of the pending subject ended. After
    /// a success the next subject is pending; after a failure none is, ever.
    /// Where no subject is pending, nothing changes.
    pub fn record(&mut self, outcome: SyncOutcome)
        ensures
            final(self)@ == old(self)@.recorded(outcome),
    {
        if !self.failed && self.attempted < self.subjects.len() {
            self.attempted = self.attempted + 1;
            self.failed = match outcome {
                SyncOutcome::Synced => false,
                SyncOutcome::Failed => true,
            };
        }
    }
}

/// The driver: synchronizes the pending subject, records how that ended, and
/// goes on until no subject is pending. `answers[i]` is how the
/// synchronization of the subject listed at `i` ends if it is tried;
/// `invoked` collects the subjects that were tried, in the order of the
/// tries.
pub open spec fn driven<T>(
    pass: BootstrapView<T>,
    answers: Seq<SyncOutcome>,
    invoked: Seq<T>,
) -> (BootstrapView<T>, Seq<T>)
    decreases pass.subjects.len() - pass.attempted,
{
    match pass.pending() {
        Some(subject) => driven(
            pass.recorded(answers[pass.attempted as int]),
            answers,
            invoked.push(subject),
        ),
        None => (pass, invoked),
    }
}

/// The whole pass over `subjects`: how it ends, and the subjects whose
/// synchronization was invoked, in the order of the invocations.
pub open spec fn bootstrapped<T>(subjects: Seq<T>, answers: Seq<SyncOutcome>) -> (
    BootstrapView<T>,
    Seq<T>,
) {
    driven(BootstrapView::start(subjects), answers, Seq::empty())
}

proof fn lemma_driven<T>(pass: BootstrapView<T>, answers: Seq<SyncOutcome>, invoked: Seq<T>)
    requires
        answers.len() == pass.subjects.len(),
        pass.attempted <= pass.subjects.len(),
        invoked == pass.subjects.take(pass.attempted as int),
        forall|i: int| 0 <= i < pass.attempted - 1 ==> answers[i] is Synced,
        pass.attempted > 0 ==> pass.failed == (answers[pass.attempted - 1] is Failed),
        pass.attempted == 0 ==> !pass.failed,
    ensures
        ({
            let (end, all) = driven(pass, answers, invoked);
            &&& end.subjects == pass.subjects
            &&& end.attempted <= end.subjects.len()
            &&& all == end.subjects.take(end.attempted as int)
            &&& forall|i: int| 0 <= i < end.attempted - 1 ==> answers[i] is Synced
            &&& end.attempted > 0 ==> end.failed == (answers[end.attempted - 1] is Failed)
            &&& end.attempted == 0 ==> !end.failed
            &&& !end.failed ==> end.attempted == end.subjects.len()
        }),
    decreases pass.subjects.len() - pass.attempted,
{
    if pass.pending() is Some {
        let next = pass.recorded(answers[pass.attempted as int]);
        let more = invoked.push(pass.subjects[pass.attempted as int]);
        assert(more =~= pass.subjects.take(next.attempted as int));
        lemma_driven(next, answers, more);
    }
}

/// The pass invokes the synchronization of the subjects in their listed
/// order, each once, starting with the first: what was invoked is a prefix
/// of the list. Every invocation but the last succeeded, so the pass stops
/// with the first failure and invokes nothing after it. It ends ready
/// exactly when every listed subject was synchronized, and aborted exactly
/// when the last invocation failed.
pub proof fn bootstrap_syncs_in_order<T>(subjects: Seq<T>, answers: Seq<SyncOutcome>)
    requires
        answers.len() == subjects.len(),
    ensures
        ({
            let (end, invoked) = bootstrapped(subjects, answers);
            &&& invoked.len() <= subjects.len()
            &&& invoked == subjects.take(invoked.len() as int)
            &&& forall|i: int| 0 <= i < invoked.len() - 1 ==> answers[i] is Synced
            &&& end.status() != BootstrapStatus::Syncing
            &&& end.status() is Ready <==> invoked.len() == subjects.len() && forall|i: int|
                0 <= i < subjects.len() ==> answers[i] is Synced
            &&& end.status() is Aborted <==> invoked.len() > 0 && answers[invoked.len() - 1]
                is Failed
        }),
{
    assert(Seq::<T>::empty() =~= subjects.take(0));
    lemma_driven(BootstrapView::start(subjects), answers, Seq::empty());
}

} // verus!
