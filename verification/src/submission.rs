use crate::model::Modification;
use vstd::prelude::*;

verus! {

/// Why a run of submissions ended early: what was being attempted, and the
/// error that the bridge answered with.
#[derive(Clone, Debug, PartialEq, Eq)]
pub struct Failure {
    pub description: String,
    pub error: String,
}

/// The course of the submissions of one run. The submissions are made one
/// after the other; the acknowledgements are gathered in the order in which
/// they arrive; the first failure ends the run, and what was acknowledged
/// before it is kept.
#[derive(Clone, Debug, PartialEq, Eq)]
pub struct Session {
    /// The submissions to make, in order.
    pub modifications: Vec<Modification>,
    /// How many of them were acknowledged.
    pub position: usize,
    /// The acknowledgements so far, in the order of the submissions.
    pub responses: Vec<String>,
    /// The failure that ended the run, if one did.
    pub failure: Option<Failure>,
}

impl Session {
    /// The submission to make next, if the run is not over: the first that
    /// was not acknowledged yet, unless a submission failed.
    pub open spec fn pending_spec(&self) -> Option<Modification> {
        if self.failure is None && self.position < self.modifications@.len() {
            Some(self.modifications@[self.position as int])
        } else {
            None
        }
    }

    /// The state that follows when the bridge answers `outcome` to the
    /// pending submission: its acknowledgements are added and the next
    /// submission becomes the pending one, or the failure is set down. Where
    /// nothing is pending, the state stays as it is.
    pub open spec fn recorded(&self, outcome: Result<Vec<String>, String>, next: Session) -> bool {
        match self.pending_spec() {
            None => next == *self,
            Some(m) => {
                &&& next.modifications == self.modifications
                &&& match outcome {
                    Ok(acknowledgements) => {
                        &&& next.position == self.position + 1
                        &&& next.responses@ == self.responses@ + acknowledgements@
                        &&& next.failure is None
                    },
                    Err(error) => {
                        &&& next.position == self.position
                        &&& next.responses == self.responses
                        &&& next.failure matches Some(f)
                        &&& f.error == error
                        &&& f.description@ == m@.failure_description()
                    },
                }
            },
        }
    }

    /// The beginning of a run: nothing was sent yet.
    pub fn new(modifications: Vec<Modification>) -> (r: Self)
        ensures
            r.modifications == modifications,
            r.position == 0,
            r.responses@.len() == 0,
            r.failure is None,
    {
        Self { modifications, position: 0, responses: Vec::new(), failure: None }
    }

    /// The submission to make next, or `None` where the run is over.
    pub fn pending(&self) -> (r: Option<&Modification>)
        ensures
            match r {
                Some(m) => self.pending_spec() == Some(*m),
                None => self.pending_spec() is None,
            },
    {
        if self.failure.is_none() && self.position < self.modifications.len() {
            Some(&self.modifications[self.position])
        } else {
            None
        }
    }

    /// Sets down what the bridge answered to the pending submission.
    pub fn record(&mut self, outcome: Result<Vec<String>, String>)
        ensures
            old(self).recorded(outcome, *final(self)),
    {
        if self.failure.is_none() && self.position < self.modifications.len() {
            match outcome {
                Ok(mut acknowledgements) => {
                    self.responses.append(&mut acknowledgements);
                    self.position = self.position + 1;
                },
                Err(error) => {
                    let description = self.modifications[self.position].failure_description();
                    self.failure = Some(Failure { description: description.to_owned(), error });
                },
            }
        }
    }
}

/// A run without submissions is over before anything is sent.
pub proof fn lemma_nothing_to_submit(session: Session)
    requires
        session.modifications@.len() == 0,
    ensures
        session.pending_spec() is None,
{
}

/// A failure ends the run: nothing is pending after it, and whatever is
/// answered then changes nothing.
pub proof fn lemma_failure_is_final(
    session: Session,
    outcome: Result<Vec<String>, String>,
    next: Session,
)
    requires
        session.failure is Some,
        session.recorded(outcome, next),
    ensures
        session.pending_spec() is None,
        next == session,
{
}

/// An acknowledged submission keeps what was acknowledged before it, in
/// front of its own acknowledgements.
pub proof fn lemma_responses_are_kept(
    session: Session,
    outcome: Result<Vec<String>, String>,
    next: Session,
)
    requires
        session.recorded(outcome, next),
    ensures
        session.responses@.is_prefix_of(next.responses@),
{
    match session.pending_spec() {
        None => {},
        Some(_) => {
            match outcome {
                Ok(acknowledgements) => {
                    assert(next.responses@ =~= session.responses@ + acknowledgements@);
                },
                Err(_) => {},
            }
        },
    }
}

/// The acknowledgements that a run gathers from the answers `outcomes`, given
/// in the order of the submissions, where `pending` submissions are still to
/// be made: those of the answers up to the first failure, and of no more
/// answers than there are submissions.
pub open spec fn gathered(outcomes: Seq<Result<Vec<String>, String>>, pending: int) -> Seq<String>
    decreases outcomes.len(),
{
    if outcomes.len() == 0 || pending <= 0 {
        seq![]
    } else {
        match outcomes[0] {
            Ok(acknowledgements) => acknowledgements@ + gathered(
                outcomes.drop_first(),
                pending - 1,
            ),
            Err(_) => seq![],
        }
    }
}

/// Whether `states` is the course of a run that is given the answers
/// `outcomes` one after the other: each state follows from the one before
/// it and the answer set down there.
pub open spec fn follows(states: Seq<Session>, outcomes: Seq<Result<Vec<String>, String>>) -> bool {
    &&& states.len() == outcomes.len() + 1
    &&& forall|i: int| 0 <= i < outcomes.len() ==> (#[trigger] states[i]).recorded(
        outcomes[i],
        states[i + 1],
    )
}

/// In the course of a run, the acknowledgements are those that were there at
/// first, followed by those of the answers up to the first failure, in the
/// order of the submissions. Once a submission has failed, nothing is added.
pub proof fn lemma_responses_are_gathered(
    states: Seq<Session>,
    outcomes: Seq<Result<Vec<String>, String>>,
)
    requires
        follows(states, outcomes),
        states[0].position <= states[0].modifications@.len(),
    ensures
        states.last().responses@ == states[0].responses@ + if states[0].failure is None {
            gathered(outcomes, states[0].modifications@.len() - states[0].position)
        } else {
            seq![]
        },
    decreases outcomes.len(),
{
    let first = states[0];
    if outcomes.len() == 0 {
        assert(first.responses@ + Seq::<String>::empty() =~= first.responses@);
    } else {
        let rest = states.drop_first();
        let later = outcomes.drop_first();
        assert(first.recorded(outcomes[0], states[1]));
        assert(rest[0] == states[1]);
        assert forall|i: int| 0 <= i < later.len() implies (#[trigger] rest[i]).recorded(
            later[i],
            rest[i + 1],
        ) by {
            assert(states[i + 1].recorded(outcomes[i + 1], states[i + 2]));
        }
        lemma_responses_are_gathered(rest, later);
        assert(rest.last() == states.last());
        match first.pending_spec() {
            None => {
                assert(states[1] == first);
                if first.failure is None {
                    assert(first.position == first.modifications@.len());
                }
                assert(first.responses@ + Seq::<String>::empty() =~= first.responses@);
            },
            Some(_) => {
                match outcomes[0] {
                    Ok(acknowledgements) => {
                        assert(states.last().responses@ =~= first.responses@ + (acknowledgements@
                            + gathered(
                            later,
                            first.modifications@.len() - first.position - 1,
                        )));
                    },
                    Err(_) => {
                        assert(states[1].responses@ + Seq::<String>::empty()
                            =~= first.responses@);
                    },
                }
            },
        }
    }
}

} // verus!
