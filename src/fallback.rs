//! The ordered fallback among translation backends, as a machine that the
//! caller drives: it names the backend to try next, the caller tries it and
//! reports what happened, until the machine hands back the outcome.

use vstd::prelude::*;
use crate::provider::TranslationResponse;

verus! {

/// Why a translation through the fallback chain failed.
pub enum TranslateError<E> {
    /// The chain holds no backend.
    NoProviders,
    /// No backend was asked: each one declined the languages.
    AllFailed,
    /// The error of the last backend that was asked and failed.
    Provider(E),
}

/// What trying one backend gave.
pub enum Attempt<R, E> {
    /// The backend does not support the source or the target language and
    /// was not asked.
    Skipped,
    Succeeded(R),
    Failed(E),
}

/// What the caller does next.
pub enum Step<R, E> {
    /// Try the backend at this position in the chain.
    Try(usize),
    /// Stop: this is the outcome.
    Done(Result<R, TranslateError<E>>),
}

/// A translation in progress over a chain of `provider_count` backends.
pub struct Fallback<E> {
    pub provider_count: usize,
    /// The position of the backend being tried.
    pub next: usize,
    pub last_error: Option<E>,
}

/// The error reported when the chain is used up.
pub open spec fn exhausted_error<E>(last_error: Option<E>) -> TranslateError<E> {
    match last_error {
        Some(e) => TranslateError::Provider(e),
        None => TranslateError::AllFailed,
    }
}

/// The first step over a chain of `n` backends.
pub open spec fn start_step<R, E>(n: usize) -> Step<R, E> {
    if n == 0 {
        Step::Done(Err(TranslateError::NoProviders))
    } else {
        Step::Try(0)
    }
}

/// The state after backend `st.next` gave `a`.
pub open spec fn record_state<R, E>(st: Fallback<E>, a: Attempt<R, E>) -> Fallback<E> {
    Fallback {
        provider_count: st.provider_count,
        next: (st.next + 1) as usize,
        last_error: match a {
            Attempt::Failed(e) => Some(e),
            _ => st.last_error,
        },
    }
}

/// The step after backend `st.next` gave `a`: stop at the first success,
/// else go on to the next backend, else report the last error.
pub open spec fn record_step<R, E>(st: Fallback<E>, a: Attempt<R, E>) -> Step<R, E> {
    match a {
        Attempt::Succeeded(r) => Step::Done(Ok(r)),
        _ => {
            let s = record_state(st, a);
            if s.next < s.provider_count {
                Step::Try(s.next)
            } else {
                Step::Done(Err(exhausted_error(s.last_error)))
            }
        },
    }
}

impl<E> Fallback<E> {
    /// Whether a backend is asked at all: only when it supports both the
    /// source and the target language. Otherwise its attempt is `Skipped`.
    pub fn asks(supports_source: bool, supports_target: bool) -> (r: bool)
        ensures
            r == (supports_source && supports_target),
    {
        supports_source && supports_target
    }

    /// Begins a translation over `provider_count` backends.
    pub fn start<R>(provider_count: usize) -> (r: (Self, Step<R, E>))
        ensures
            r.0.provider_count == provider_count,
            r.0.next == 0,
            r.0.last_error is None,
            r.1 == start_step::<R, E>(provider_count),
    {
        let st = Fallback { provider_count, next: 0, last_error: None };
        if provider_count == 0 {
            (st, Step::Done(Err(TranslateError::NoProviders)))
        } else {
            (st, Step::Try(0))
        }
    }

    /// Takes what the backend at `self.next` gave and says what comes next.
    pub fn record<R>(&mut self, attempt: Attempt<R, E>) -> (r: Step<R, E>)
        requires
            old(self).next < old(self).provider_count,
        ensures
            r == record_step(*old(self), attempt),
            r is Try ==> *final(self) == record_state(*old(self), attempt),
    {
        self.next = self.next + 1;
        match attempt {
            Attempt::Succeeded(resp) => Step::Done(Ok(resp)),
            Attempt::Skipped => self.after_miss(),
            Attempt::Failed(e) => {
                self.last_error = Some(e);
                self.after_miss()
            },
        }
    }

    fn after_miss<R>(&mut self) -> (r: Step<R, E>)
        ensures
            old(self).next < old(self).provider_count ==> r == Step::<R, E>::Try(old(self).next),
            old(self).next >= old(self).provider_count ==> r == Step::<R, E>::Done(
                Err(exhausted_error(old(self).last_error)),
            ),
            r is Try ==> *final(self) == *old(self),
    {
        if self.next < self.provider_count {
            Step::Try(self.next)
        } else {
            match self.last_error.take() {
                Some(e) => Step::Done(Err(TranslateError::Provider(e))),
                None => Step::Done(Err(TranslateError::AllFailed)),
            }
        }
    }
}

/// The run of the chain when backend `i` would give `outs[i]`: the
/// positions tried, in order, and the outcome.
pub open spec fn drive<R, E>(st: Fallback<E>, step: Step<R, E>, outs: Seq<Attempt<R, E>>) -> (Seq<
    int,
>, Result<R, TranslateError<E>>)
    decreases outs.len() - st.next,
{
    match step {
        Step::Done(res) => (Seq::empty(), res),
        Step::Try(i) => {
            if st.next < outs.len() && st.next < st.provider_count {
                let a = outs[st.next as int];
                let rest = drive(record_state(st, a), record_step(st, a), outs);
                (seq![i as int] + rest.0, rest.1)
            } else {
                (Seq::empty(), Err(TranslateError::AllFailed))
            }
        },
    }
}

/// The whole run over a chain whose backends would give `outs`.
pub open spec fn run<R, E>(outs: Seq<Attempt<R, E>>) -> (Seq<int>, Result<R, TranslateError<E>>) {
    drive(
        Fallback { provider_count: outs.len() as usize, next: 0, last_error: None },
        start_step(outs.len() as usize),
        outs,
    )
}

/// `k` is the position of the first backend that succeeds.
pub open spec fn first_success<R, E>(outs: Seq<Attempt<R, E>>, k: int) -> bool {
    &&& 0 <= k < outs.len()
    &&& outs[k] is Succeeded
    &&& forall|j: int| 0 <= j < k ==> !(outs[j] is Succeeded)
}

proof fn lemma_drive_to_success<R, E>(st: Fallback<E>, outs: Seq<Attempt<R, E>>, k: int)
    requires
        outs.len() <= usize::MAX,
        st.provider_count == outs.len(),
        first_success(outs, k),
        st.next <= k,
    ensures
        drive(st, Step::Try(st.next), outs).0 == Seq::new((k + 1 - st.next) as nat, |i: int| i + st.next),
        drive(st, Step::Try(st.next), outs).1 == Ok::<R, TranslateError<E>>(outs[k]->Succeeded_0),
    decreases k - st.next,
{
    let a = outs[st.next as int];
    let st2 = record_state(st, a);
    let rest = drive(st2, record_step(st, a), outs);
    assert(st2.next == st.next + 1);
    assert(drive(st, Step::Try(st.next), outs) == (seq![st.next as int] + rest.0, rest.1));
    if st.next < k {
        assert(!(a is Succeeded));
        assert(record_step(st, a) == Step::<R, E>::Try(st2.next));
        lemma_drive_to_success(st2, outs, k);
    } else {
        assert(rest == (Seq::<int>::empty(), Ok::<R, TranslateError<E>>(outs[k]->Succeeded_0)));
    }
    assert(drive(st, Step::Try(st.next), outs).0 =~= Seq::new((k + 1 - st.next) as nat, |i: int| i + st.next));
}

/// Whatever the backends would give, the chain hands back the response of
/// the first backend that succeeds, and tries no backend after it: the
/// positions tried are exactly `0..=k`.
pub proof fn lemma_first_success_wins<R, E>(outs: Seq<Attempt<R, E>>, k: int)
    requires
        outs.len() <= usize::MAX,
        first_success(outs, k),
    ensures
        run(outs).0 == Seq::new((k + 1) as nat, |i: int| i),
        run(outs).1 == Ok::<R, TranslateError<E>>(outs[k]->Succeeded_0),
{
    let st = Fallback::<E> { provider_count: outs.len() as usize, next: 0, last_error: None };
    lemma_drive_to_success(st, outs, k);
    assert(Seq::new((k + 1) as nat, |i: int| i + 0) =~= Seq::new((k + 1) as nat, |i: int| i));
}

/// When every one of the `n >= 1` backends fails, the chain fails with the
/// last backend's error, after trying each of the `n` backends once, in
/// order.
/// The error of the last backend that failed, if any did.
pub open spec fn last_failure<R, E>(outs: Seq<Attempt<R, E>>) -> Option<E>
    decreases outs.len(),
{
    if outs.len() == 0 {
        None
    } else {
        match outs.last() {
            Attempt::Failed(e) => Some(e),
            _ => last_failure(outs.drop_last()),
        }
    }
}

proof fn lemma_drive_no_success<R, E>(st: Fallback<E>, outs: Seq<Attempt<R, E>>)
    requires
        outs.len() <= usize::MAX,
        st.provider_count == outs.len(),
        st.next < outs.len(),
        forall|j: int| 0 <= j < outs.len() ==> !(outs[j] is Succeeded),
        st.last_error == last_failure(outs.take(st.next as int)),
    ensures
        drive(st, Step::Try(st.next), outs).0 == Seq::new((outs.len() - st.next) as nat, |i: int| i + st.next),
        drive(st, Step::Try(st.next), outs).1 == Err::<R, TranslateError<E>>(
            exhausted_error(last_failure(outs)),
        ),
    decreases outs.len() - st.next,
{
    let a = outs[st.next as int];
    let st2 = record_state(st, a);
    let rest = drive(st2, record_step(st, a), outs);
    assert(!(a is Succeeded));
    assert(st2.next == st.next + 1);
    assert(outs.take(st.next + 1).drop_last() =~= outs.take(st.next as int));
    assert(st2.last_error == last_failure(outs.take(st.next + 1)));
    assert(drive(st, Step::Try(st.next), outs) == (seq![st.next as int] + rest.0, rest.1));
    if st2.next < outs.len() {
        assert(record_step(st, a) == Step::<R, E>::Try(st2.next));
        lemma_drive_no_success(st2, outs);
    } else {
        assert(outs.take(outs.len() as int) =~= outs);
        assert(rest == (Seq::<int>::empty(), Err::<R, TranslateError<E>>(
            exhausted_error(last_failure(outs)),
        )));
    }
    assert(drive(st, Step::Try(st.next), outs).0 =~= Seq::new((outs.len() - st.next) as nat, |i: int| i + st.next));
}

/// When no backend succeeds, each one is tried once, in order, and the
/// chain fails with the error of the last backend that failed, or with
/// `AllFailed` when every backend declined the languages.
pub proof fn lemma_no_success<R, E>(outs: Seq<Attempt<R, E>>)
    requires
        1 <= outs.len() <= usize::MAX,
        forall|j: int| 0 <= j < outs.len() ==> !(outs[j] is Succeeded),
    ensures
        run(outs).0 == Seq::new(outs.len(), |i: int| i),
        run(outs).1 == Err::<R, TranslateError<E>>(exhausted_error(last_failure(outs))),
{
    let st = Fallback::<E> { provider_count: outs.len() as usize, next: 0, last_error: None };
    assert(outs.take(0) =~= Seq::<Attempt<R, E>>::empty());
    lemma_drive_no_success(st, outs);
    assert(Seq::new(outs.len(), |i: int| i + 0) =~= Seq::new(outs.len(), |i: int| i));
}

/// When every one of the `n >= 1` backends fails, the chain fails with the
/// last backend's error, after trying each of the `n` backends once, in
/// order.
pub proof fn lemma_all_fail<R, E>(outs: Seq<Attempt<R, E>>)
    requires
        1 <= outs.len() <= usize::MAX,
        forall|j: int| 0 <= j < outs.len() ==> outs[j] is Failed,
    ensures
        run(outs).0 == Seq::new(outs.len(), |i: int| i),
        run(outs).1 == Err::<R, TranslateError<E>>(TranslateError::Provider(outs.last()->Failed_0)),
{
    lemma_no_success(outs);
    assert(outs.last() is Failed);
}

/// The translated text of an outcome, without the detected language and
/// the confidence.
pub fn into_text<E>(outcome: Result<TranslationResponse, TranslateError<E>>) -> (r: Result<
    String,
    TranslateError<E>,
>)
    ensures
        match outcome {
            Ok(resp) => r == Ok::<String, TranslateError<E>>(resp.translated_text),
            Err(e) => r == Err::<String, TranslateError<E>>(e),
        },
{
    match outcome {
        Ok(resp) => Ok(resp.translated_text),
        Err(e) => Err(e),
    }
}

} // verus!
