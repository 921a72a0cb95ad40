//! The hotkey-registration-with-fallback protocol.
//!
//! Startup tries an ordered candidate list — the user's preferred combo
//! first, then the fixed fallback — one combo at a time. The OS-level
//! binding attempt itself is the shell's work; [`HotkeyRegistrar`] owns the
//! protocol state: which candidate to try next, and the outcome once a try
//! succeeded or every candidate failed. A fully failed run ends in
//! [`RegistrationOutcome::Unbound`], which is not fatal: the tray keeps the
//! application usable.

use vstd::prelude::*;
use crate::settings::default_hotkey;
use crate::settings::default_hotkey_text;
use crate::text::str_eq;

verus! {

/// How a registration run ended.
#[derive(Clone, PartialEq, Debug)]
pub enum RegistrationOutcome {
    /// This combo is now bound to the reveal action.
    Bound(String),
    /// Every candidate failed; the session has no keyboard trigger.
    Unbound,
}

/// Mathematical value of a [`RegistrationOutcome`].
pub ghost enum RegistrationOutcomeSpec {
    Bound(Seq<char>),
    Unbound,
}

impl View for RegistrationOutcome {
    type V = RegistrationOutcomeSpec;

    open spec fn view(&self) -> RegistrationOutcomeSpec {
        match self {
            RegistrationOutcome::Bound(c) => RegistrationOutcomeSpec::Bound(c@),
            RegistrationOutcome::Unbound => RegistrationOutcomeSpec::Unbound,
        }
    }
}

/// A possibly missing outcome, as mathematical values.
pub open spec fn outcome_option_view(o: Option<RegistrationOutcome>) -> Option<
    RegistrationOutcomeSpec,
> {
    match o {
        Some(x) => Some(x@),
        None => None,
    }
}

/// The candidate order a startup run tries: the preferred combo counts as
/// candidate zero, then the fixed fallback, never repeating the preferred.
pub open spec fn candidates_spec(preferred: Seq<char>) -> Seq<Seq<char>> {
    if preferred == default_hotkey() {
        seq![preferred]
    } else {
        seq![preferred, default_hotkey()]
    }
}

/// Build the candidate list for a preferred combo.
pub fn candidate_list(preferred: &str) -> (v: Vec<String>)
    ensures
        v.deep_view() == candidates_spec(preferred@),
        v.deep_view().len() >= 1,
        v.deep_view()[0] == preferred@,
{
    let mut v: Vec<String> = Vec::new();
    v.push(String::from_str(preferred));
    if !str_eq(preferred, default_hotkey_text()) {
        v.push(String::from_str(default_hotkey_text()));
    }
    proof {
        assert(v.deep_view() =~= candidates_spec(preferred@));
    }
    v
}

/// Protocol state of one registration run.
pub struct HotkeyRegistrar {
    candidates: Vec<String>,
    tried: usize,
    outcome: Option<RegistrationOutcome>,
}

impl HotkeyRegistrar {
    /// The candidate list this run works through.
    pub closed spec fn candidates_view(self) -> Seq<Seq<char>> {
        self.candidates.deep_view()
    }

    /// How many candidates have been reported on so far.
    pub closed spec fn attempts(self) -> int {
        self.tried as int
    }

    /// The outcome, once the run is settled.
    pub closed spec fn outcome_spec(self) -> Option<RegistrationOutcomeSpec> {
        outcome_option_view(self.outcome)
    }

    /// The run's invariant: attempts never pass the end of the list, an
    /// unsettled run still has a candidate left, a bound run stopped right
    /// after the candidate it bound, and an unbound run used the whole list.
    pub closed spec fn wf(self) -> bool {
        &&& self.tried <= self.candidates_view().len()
        &&& match self.outcome_spec() {
            None => self.attempts() < self.candidates_view().len(),
            Some(RegistrationOutcomeSpec::Bound(c)) => {
                &&& 0 < self.attempts()
                &&& c == self.candidates_view()[self.attempts() - 1]
            },
            Some(RegistrationOutcomeSpec::Unbound) => self.attempts()
                == self.candidates_view().len(),
        }
    }

    /// Start a run over a candidate list; an empty list is already settled
    /// as unbound.
    pub fn new(candidates: Vec<String>) -> (r: Self)
        ensures
            r.wf(),
            r.candidates_view() == candidates.deep_view(),
            r.attempts() == 0,
            r.outcome_spec() == (if candidates.deep_view().len() == 0 {
                Some(RegistrationOutcomeSpec::Unbound)
            } else {
                None::<RegistrationOutcomeSpec>
            }),
    {
        let settled = candidates.len() == 0;
        HotkeyRegistrar {
            candidates,
            tried: 0,
            outcome: if settled {
                Some(RegistrationOutcome::Unbound)
            } else {
                None
            },
        }
    }

    /// Whether a candidate is still waiting to be tried.
    pub fn is_pending(&self) -> (b: bool)
        ensures
            b == (self.outcome_spec() is None),
    {
        self.outcome.is_none()
    }

    /// The candidate to try now, or nothing once the run is settled.
    pub fn pending(&self) -> (c: Option<&String>)
        requires
            self.wf(),
        ensures
            match c {
                Some(s) => self.outcome_spec() is None && s@ == self.candidates_view()[
                    self.attempts()
                ],
                None => self.outcome_spec() is Some,
            },
    {
        match &self.outcome {
            Some(_) => None,
            None => Some(&self.candidates[self.tried]),
        }
    }

    /// Report how trying the pending candidate went. A success settles the
    /// run on that candidate at once, so nothing after it is ever tried; a
    /// failure moves on, and a failure on the last candidate settles the
    /// run as unbound.
    pub fn report(&mut self, success: bool)
        requires
            old(self).wf(),
            old(self).outcome_spec() is None,
        ensures
            final(self).wf(),
            final(self).candidates_view() == old(self).candidates_view(),
            final(self).attempts() == old(self).attempts() + 1,
            success ==> final(self).outcome_spec() == Some(
                RegistrationOutcomeSpec::Bound(old(self).candidates_view()[old(self).attempts()]),
            ),
            !success && final(self).attempts() == final(self).candidates_view().len()
                ==> final(self).outcome_spec() == Some(RegistrationOutcomeSpec::Unbound),
            !success && final(self).attempts() < final(self).candidates_view().len()
                ==> final(self).outcome_spec() is None,
    {
        proof {
            assert(self.candidates.deep_view().len() == self.candidates@.len());
        }
        let n = self.candidates.len();
        let idx = self.tried;
        assert(idx < n);
        self.tried = idx + 1;
        if success {
            let combo = self.candidates[idx].clone();
            self.outcome = Some(RegistrationOutcome::Bound(combo));
        } else if self.tried == self.candidates.len() {
            self.outcome = Some(RegistrationOutcome::Unbound);
        }
    }

    /// Give the outcome up, consuming the run.
    pub fn into_outcome(self) -> (o: Option<RegistrationOutcome>)
        ensures
            outcome_option_view(o) == self.outcome_spec(),
    {
        self.outcome
    }
}

/// The outcome and the number of attempts a run over this candidate list
/// makes, when candidate `i` succeeds exactly if `results[i]`.
pub open spec fn run_spec(cands: Seq<Seq<char>>, results: Seq<bool>) -> (
    RegistrationOutcomeSpec,
    int,
)
    decreases cands.len(),
{
    if cands.len() == 0 {
        (RegistrationOutcomeSpec::Unbound, 0)
    } else if results[0] {
        (RegistrationOutcomeSpec::Bound(cands[0]), 1)
    } else {
        let rest = run_spec(cands.drop_first(), results.drop_first());
        (rest.0, rest.1 + 1)
    }
}

/// A run whose first `i` candidates all failed goes on exactly like a run
/// over the rest of the list.
proof fn lemma_run_skip(cands: Seq<Seq<char>>, results: Seq<bool>, i: int)
    requires
        results.len() == cands.len(),
        0 <= i <= cands.len(),
        forall|j: int| 0 <= j < i ==> !results[j],
    ensures
        run_spec(cands, results).0 == run_spec(cands.skip(i), results.skip(i)).0,
        run_spec(cands, results).1 == i + run_spec(cands.skip(i), results.skip(i)).1,
    decreases i,
{
    if i > 0 {
        lemma_run_skip(cands.drop_first(), results.drop_first(), i - 1);
        assert(cands.drop_first().skip(i - 1) =~= cands.skip(i));
        assert(results.drop_first().skip(i - 1) =~= results.skip(i));
    } else {
        assert(cands.skip(0) =~= cands);
        assert(results.skip(0) =~= results);
    }
}

/// When every candidate before `i` fails and candidate `i` succeeds, the
/// run binds exactly candidate `i`, and stops there: `i + 1` attempts, and
/// nothing after the success is tried.
pub proof fn lemma_first_success(cands: Seq<Seq<char>>, results: Seq<bool>, i: int)
    requires
        results.len() == cands.len(),
        0 <= i < cands.len(),
        results[i],
        forall|j: int| 0 <= j < i ==> !results[j],
    ensures
        run_spec(cands, results) == (RegistrationOutcomeSpec::Bound(cands[i]), i + 1),
{
    lemma_run_skip(cands, results, i);
    assert(cands.skip(i)[0] == cands[i]);
    assert(results.skip(i)[0] == results[i]);
}

/// When every candidate fails, the run ends unbound after trying the whole
/// list — an outcome, not a failure that could stop startup.
pub proof fn lemma_all_fail(cands: Seq<Seq<char>>, results: Seq<bool>)
    requires
        results.len() == cands.len(),
        forall|j: int| 0 <= j < results.len() ==> !results[j],
    ensures
        run_spec(cands, results) == (RegistrationOutcomeSpec::Unbound, cands.len() as int),
{
    lemma_run_skip(cands, results, cands.len() as int);
}

/// Drive one whole run: candidate `i` succeeds exactly if `results[i]`.
/// Returns the outcome and how many candidates were attempted.
pub fn resolve(candidates: Vec<String>, results: &Vec<bool>) -> (out: (RegistrationOutcome, usize))
    requires
        results.len() == candidates.deep_view().len(),
    ensures
        out.0@ == run_spec(candidates.deep_view(), results@).0,
        out.1 as int == run_spec(candidates.deep_view(), results@).1,
{
    let ghost cands = candidates.deep_view();
    let mut reg = HotkeyRegistrar::new(candidates);
    let mut i: usize = 0;
    proof {
        if cands.len() == 0 {
            lemma_all_fail(cands, results@);
        }
    }
    while reg.is_pending()
        invariant
            reg.wf(),
            reg.candidates_view() == cands,
            results@.len() == cands.len(),
            i as int == reg.attempts(),
            reg.outcome_spec() is None ==> forall|j: int| 0 <= j < i ==> !results@[j],
            reg.outcome_spec() matches Some(o) ==> (o, i as int) == run_spec(cands, results@),
        decreases cands.len() - i,
    {
        let success = results[i];
        proof {
            if success {
                lemma_first_success(cands, results@, i as int);
            } else if i as int + 1 == cands.len() {
                lemma_all_fail(cands, results@);
            }
        }
        reg.report(success);
        i = i + 1;
    }
    match reg.into_outcome() {
        Some(o) => (o, i),
        None => (RegistrationOutcome::Unbound, i),
    }
}

} // verus!
