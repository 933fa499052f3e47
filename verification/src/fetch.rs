//! The tweet fetcher, as a state machine.
//!
//! Looking a tweet up takes a short conversation with the scraping
//! backend: an id-bracketing query under the safe-content predicate, the
//! same query with the predicate inverted if the first came back empty,
//! and — because the unauthenticated session can expire silently — one
//! renegotiate-and-retry round when an attempt ends in an empty result or
//! a transport failure.  The machine here makes every decision of that
//! conversation; the caller owns the session store and the backend
//! connection, performs each requested query, and reports its outcome.
//! A `renegotiate` step directs the caller to invalidate the persisted
//! session and negotiate a fresh one before the query it carries.

use vstd::prelude::*;
use crate::models::ScrapedTweet;
use crate::query::build_query;
use crate::query::spec_query;

verus! {

/// Classified failures of the fetch pipeline.
#[derive(Clone, Copy, Debug, PartialEq, Eq, Structural)]
pub enum FetchError {
    /// The id has no valid predecessor, so no bracketing query exists.
    InvalidId,
    /// Both queries came back empty, on the fresh session too.
    NotFound,
    /// A transport or decoding failure persisted across the retry.
    BackendError,
}

/// Which of the two bracketing queries is in flight.
#[derive(Clone, Copy, Debug, PartialEq, Eq, Structural)]
pub enum Phase {
    /// The query under the safe-content predicate.
    Safe,
    /// The query with the predicate inverted, covering sensitive tweets.
    Sensitive,
}

/// What one backend query produced, as the caller reports it.
#[derive(Clone, Debug)]
pub enum QueryOutcome {
    /// The first result of the query, decoded.
    Found(ScrapedTweet),
    /// The query succeeded but matched nothing.
    Empty,
    /// The query failed in transport or decoding.
    TransportError,
}

/// What the caller must do next.
#[derive(Debug)]
pub enum Step {
    /// Issue this query and report its outcome.  When `renegotiate` is
    /// set, first invalidate the persisted session and negotiate a fresh
    /// one.
    Continue { query: String, renegotiate: bool },
    /// The fetch is over with this result.
    Done(Result<ScrapedTweet, FetchError>),
}

/// `Step` with the query text as a sequence, for contracts.
pub enum StepModel {
    ContinueModel { query: Seq<char>, renegotiate: bool },
    DoneModel(Result<ScrapedTweet, FetchError>),
}

/// The model of a step: the query text becomes its view.
pub open spec fn step_view(s: Step) -> StepModel {
    match s {
        Step::Continue { query, renegotiate } => StepModel::ContinueModel {
            query: query@,
            renegotiate,
        },
        Step::Done(r) => StepModel::DoneModel(r),
    }
}

/// The fetcher's state between two backend queries.
#[derive(Clone, Copy, Debug, PartialEq, Eq, Structural)]
pub struct Fetcher {
    /// The tweet id being fetched; never zero.
    pub id: u128,
    /// 1 on the first attempt, 2 after the renegotiated retry.
    pub attempt: u8,
    /// Which query the machine is waiting on.
    pub phase: Phase,
    /// Set once a `Done` step has been handed out.
    pub finished: bool,
}

impl Fetcher {
    /// Well-formedness: a usable id and a bounded attempt counter.
    pub open spec fn wf(self) -> bool {
        &&& self.id >= 1
        &&& 1 <= self.attempt <= 2
    }

    /// The state right after `start`: first attempt, safe query pending.
    pub open spec fn initial(id: u128) -> Fetcher {
        Fetcher { id, attempt: 1, phase: Phase::Safe, finished: false }
    }

    /// Text of this fetch's query under the safe-content predicate.
    pub open spec fn safe_query(self) -> Seq<char> {
        spec_query(self.id as int - 1, self.id as int, true)
    }

    /// Text of this fetch's query with the predicate inverted.
    pub open spec fn sensitive_query(self) -> Seq<char> {
        spec_query(self.id as int - 1, self.id as int, false)
    }

    /// The whole decision table: the successor state and the step handed
    /// to the caller, for each outcome of the pending query.
    pub open spec fn spec_step(self, o: QueryOutcome) -> (Fetcher, StepModel) {
        match o {
            QueryOutcome::Found(t) => (
                Fetcher { finished: true, ..self },
                StepModel::DoneModel(Ok(t)),
            ),
            QueryOutcome::Empty => {
                if self.phase == Phase::Safe {
                    (
                        Fetcher { phase: Phase::Sensitive, ..self },
                        StepModel::ContinueModel {
                            query: self.sensitive_query(),
                            renegotiate: false,
                        },
                    )
                } else if self.attempt == 1 {
                    (
                        Fetcher { attempt: 2, phase: Phase::Safe, ..self },
                        StepModel::ContinueModel { query: self.safe_query(), renegotiate: true },
                    )
                } else {
                    (
                        Fetcher { finished: true, ..self },
                        StepModel::DoneModel(Err(FetchError::NotFound)),
                    )
                }
            },
            QueryOutcome::TransportError => {
                if self.attempt == 1 {
                    (
                        Fetcher { attempt: 2, phase: Phase::Safe, ..self },
                        StepModel::ContinueModel { query: self.safe_query(), renegotiate: true },
                    )
                } else {
                    (
                        Fetcher { finished: true, ..self },
                        StepModel::DoneModel(Err(FetchError::BackendError)),
                    )
                }
            },
        }
    }

    /// Begin fetching the tweet with the given id.  Zero has no
    /// predecessor and is rejected at once, before any backend work; any
    /// other id yields the initial machine and the safe query to issue
    /// on the current session.
    pub fn start(id: u128) -> (r: Result<(Fetcher, String), FetchError>)
        ensures
            id == 0 ==> r == Err::<(Fetcher, String), FetchError>(FetchError::InvalidId),
            id != 0 ==> (r matches Ok(p) && p.0 == Fetcher::initial(id) && p.1@
                == Fetcher::initial(id).safe_query()),
    {
        if id == 0 {
            return Err(FetchError::InvalidId);
        }
        let before = id - 1;
        let q = build_query(before, id, true);
        Ok((Fetcher { id, attempt: 1, phase: Phase::Safe, finished: false }, q))
    }

    /// Report the outcome of the pending query and receive the next step,
    /// exactly as the decision table `spec_step` says.
    pub fn on_outcome(&mut self, outcome: QueryOutcome) -> (r: Step)
        requires
            old(self).wf(),
            !old(self).finished,
        ensures
            final(self).wf(),
            (*final(self), step_view(r)) == old(self).spec_step(outcome),
    {
        match outcome {
            QueryOutcome::Found(t) => {
                self.finished = true;
                Step::Done(Ok(t))
            },
            QueryOutcome::Empty => {
                if self.phase == Phase::Safe {
                    self.phase = Phase::Sensitive;
                    let q = build_query(self.id - 1, self.id, false);
                    Step::Continue { query: q, renegotiate: false }
                } else if self.attempt == 1 {
                    self.attempt = 2;
                    self.phase = Phase::Safe;
                    let q = build_query(self.id - 1, self.id, true);
                    Step::Continue { query: q, renegotiate: true }
                } else {
                    self.finished = true;
                    Step::Done(Err(FetchError::NotFound))
                }
            },
            QueryOutcome::TransportError => {
                if self.attempt == 1 {
                    self.attempt = 2;
                    self.phase = Phase::Safe;
                    let q = build_query(self.id - 1, self.id, true);
                    Step::Continue { query: q, renegotiate: true }
                } else {
                    self.finished = true;
                    Step::Done(Err(FetchError::BackendError))
                }
            },
        }
    }
}

/// A backend hit ends the fetch at once, with exactly the payload the
/// backend returned — so a fetch on a valid persisted session whose
/// first query succeeds never invalidates or renegotiates that session,
/// and the caller receives the backend's payload unchanged.
pub proof fn lemma_found_finishes(s: Fetcher, t: ScrapedTweet)
    requires
        s.wf(),
    ensures
        s.spec_step(QueryOutcome::Found(t)).1 == StepModel::DoneModel(
            Ok::<ScrapedTweet, FetchError>(t),
        ),
        s.spec_step(QueryOutcome::Found(t)).0.finished,
{
}

/// The session is invalidated at most once per fetch: a renegotiating
/// step only ever follows a first-attempt failure, and moves the machine
/// to its second and last attempt.
pub proof fn lemma_retry_bounded(s: Fetcher, o: QueryOutcome)
    requires
        s.wf(),
    ensures
        (s.spec_step(o).1 matches StepModel::ContinueModel { renegotiate: true, .. }) ==> (
        s.attempt == 1 && s.spec_step(o).0.attempt == 2),
{
}

/// Expiry recovery: when the first query of a fresh fetch fails with a
/// session-invalid symptom, the machine orders the session renegotiated
/// and retries; a backend that answers the retried query makes the fetch
/// succeed on this second attempt with that answer.
pub proof fn lemma_expiry_recovery(id: u128, t: ScrapedTweet)
    requires
        id >= 1,
    ensures
        ({
            let s0 = Fetcher::initial(id);
            let step1 = s0.spec_step(QueryOutcome::TransportError);
            &&& step1.1 == (StepModel::ContinueModel { query: s0.safe_query(), renegotiate: true })
            &&& step1.0.attempt == 2
            &&& step1.0.spec_step(QueryOutcome::Found(t)).1 == StepModel::DoneModel(
                Ok::<ScrapedTweet, FetchError>(t),
            )
        }),
{
}

/// An upper bound on the queries a fetch can still issue; four at most.
pub open spec fn queries_left(s: Fetcher) -> int {
    if s.finished {
        0
    } else {
        (2 - s.attempt as int) * 2 + (if s.phase == Phase::Safe {
            2int
        } else {
            1int
        })
    }
}

/// Every step makes progress: a `Continue` strictly decreases the bound
/// on remaining queries and a `Done` finishes the machine, so one fetch
/// issues at most four queries and always terminates.
pub proof fn lemma_step_progress(s: Fetcher, o: QueryOutcome)
    requires
        s.wf(),
        !s.finished,
    ensures
        (s.spec_step(o).1 matches StepModel::ContinueModel { .. }) ==> 0 <= queries_left(
            s.spec_step(o).0,
        ) < queries_left(s),
        (s.spec_step(o).1 matches StepModel::DoneModel(_)) ==> s.spec_step(o).0.finished,
{
}

} // verus!
