//! The polling state machine of the device flow.
//!
//! A [`DevicePoll`] knows the device code, the deadline of the flow and the
//! current interval between polls. Each transition ends with the check that
//! the flow makes before it waits: once the deadline is reached there is no
//! further poll. The caller's part is mechanical. On
//! [`PollStep::Continue`] it waits [`DevicePoll::wait_secs`], sends the poll
//! with a timeout of [`POLL_TIMEOUT_SECS`](crate::device::POLL_TIMEOUT_SECS),
//! reads the clock and calls [`DevicePoll::on_reply`]; on
//! [`PollStep::Finished`] it stops.
//!
//! Every time is a number of whole seconds on one clock of the caller's, and
//! every interval a number of seconds. The laws at the end of the module are
//! stated for whole runs of the machine.

use vstd::prelude::*;
use vstd::arithmetic::power2::{lemma2_to64, lemma_pow2_pos, lemma_pow2_unfold, pow2};
use crate::device::{
    classify_poll,
    spec_classify_poll,
    DeviceAuthorization,
    DeviceAuthorizationView,
    PollOutcome,
    PollOutcomeView,
    RawTokenResponse,
    RawTokenResponseView,
    MIN_POLL_INTERVAL_SECS,
};
use crate::error::{result_view, AuthError, AuthErrorView};
use crate::token::{HttpReply, HttpReplyView, OAuthTokens, OAuthTokensView};

verus! {

/// The state of the polling: what to poll with, until when, and how long to
/// wait before the next poll. The interval is never below one second.
#[derive(Debug)]
pub struct DevicePoll {
    device_code: String,
    started_at: u64,
    expires_in: u64,
    interval: u64,
}

/// Mathematical value of a [`DevicePoll`]. The deadline is the time at which
/// the flow started plus the lifetime of the device code.
pub struct DevicePollView {
    pub device_code: Seq<char>,
    pub deadline: int,
    pub interval: u64,
}

impl View for DevicePoll {
    type V = DevicePollView;

    closed spec fn view(&self) -> DevicePollView {
        DevicePollView {
            device_code: self.device_code@,
            deadline: self.started_at + self.expires_in,
            interval: self.interval,
        }
    }
}

/// What the flow does next.
#[derive(Debug)]
pub enum PollStep {
    /// Wait for the interval of the state, poll, and come back with the reply.
    Continue(DevicePoll),
    /// The flow has ended with this result. No further poll is made.
    Finished(Result<OAuthTokens, AuthError>),
}

/// Mathematical value of a [`PollStep`].
pub enum PollStepView {
    Continue(DevicePollView),
    Finished(Result<OAuthTokensView, AuthErrorView>),
}

impl View for PollStep {
    type V = PollStepView;

    open spec fn view(&self) -> PollStepView {
        match self {
            PollStep::Continue(poll) => PollStepView::Continue(poll@),
            PollStep::Finished(result) => PollStepView::Finished(result_view(*result)),
        }
    }
}

/// The interval the flow starts with: the suggested one, but at least one
/// second.
pub open spec fn first_interval(suggested: u64) -> u64 {
    if suggested < MIN_POLL_INTERVAL_SECS {
        MIN_POLL_INTERVAL_SECS
    } else {
        suggested
    }
}

/// Twice the interval, or the largest number of seconds that can be counted
/// where twice the interval is beyond it.
pub open spec fn doubled(interval: u64) -> u64 {
    if 2 * interval > u64::MAX {
        u64::MAX
    } else {
        (2 * interval) as u64
    }
}

/// The check before each wait: at or after the deadline the flow ends with a
/// timeout, before it the flow goes on.
pub open spec fn spec_enter(poll: DevicePollView, now: u64) -> PollStepView {
    if now >= poll.deadline {
        PollStepView::Finished(Err(AuthErrorView::CallbackTimeout))
    } else {
        PollStepView::Continue(poll)
    }
}

/// The first step of the polling for `auth`, started at `now`.
pub open spec fn spec_start(auth: DeviceAuthorizationView, now: u64) -> PollStepView {
    spec_enter(
        DevicePollView {
            device_code: auth.device_code,
            deadline: now + auth.expires_in,
            interval: first_interval(auth.interval),
        },
        now,
    )
}

/// The step that follows the outcome of one poll, seen at `now`.
pub open spec fn spec_after_outcome(
    poll: DevicePollView,
    outcome: PollOutcomeView,
    now: u64,
) -> PollStepView {
    match outcome {
        PollOutcomeView::Pending => spec_enter(poll, now),
        PollOutcomeView::SlowDown => spec_enter(
            DevicePollView { interval: doubled(poll.interval), ..poll },
            now,
        ),
        PollOutcomeView::Success(tokens) => PollStepView::Finished(Ok(tokens)),
        PollOutcomeView::Denied => PollStepView::Finished(Err(AuthErrorView::UserCancelled)),
        PollOutcomeView::Expired => PollStepView::Finished(Err(AuthErrorView::CallbackTimeout)),
        PollOutcomeView::Fatal(text) => PollStepView::Finished(
            Err(AuthErrorView::TokenExchangeFailed(text)),
        ),
    }
}

/// One poll as the state machine sees it: the classified reply and the time
/// at which it was seen.
pub struct PollEvent {
    pub classified: Result<PollOutcomeView, AuthErrorView>,
    pub now: u64,
}

/// The step that follows one poll. A failure of the transport ends the flow
/// with that failure.
pub open spec fn spec_after_event(poll: DevicePollView, event: PollEvent) -> PollStepView {
    match event.classified {
        Ok(outcome) => spec_after_outcome(poll, outcome, event.now),
        Err(e) => PollStepView::Finished(Err(e)),
    }
}

/// The step that follows the reply to one poll, seen at `now`.
pub open spec fn spec_after_reply(
    poll: DevicePollView,
    reply: HttpReplyView<RawTokenResponseView>,
    now: u64,
) -> PollStepView {
    spec_after_event(poll, PollEvent { classified: spec_classify_poll(reply), now: now })
}

impl DevicePoll {
    #[verifier::type_invariant]
    spec fn well_formed(self) -> bool {
        self.interval >= MIN_POLL_INTERVAL_SECS
    }

    /// Starts the polling for `auth` at the time `now`. The authorization is
    /// used up: what of it was to be shown has to be shown before.
    ///
    /// The deadline is `now` plus the lifetime of the device code, and the
    /// interval is the suggested one but at least one second. A code whose
    /// lifetime is zero ends the flow with a timeout before any poll.
    pub fn start(auth: DeviceAuthorization, now: u64) -> (step: PollStep)
        ensures
            step@ == spec_start(auth@, now),
            step matches PollStep::Continue(poll) ==> poll@.interval >= MIN_POLL_INTERVAL_SECS,
    {
        let interval = if auth.interval < MIN_POLL_INTERVAL_SECS {
            MIN_POLL_INTERVAL_SECS
        } else {
            auth.interval
        };
        let poll = DevicePoll {
            device_code: auth.device_code,
            started_at: now,
            expires_in: auth.expires_in,
            interval,
        };
        poll.enter(now)
    }

    /// The check before each wait.
    fn enter(self, now: u64) -> (step: PollStep)
        ensures
            step@ == spec_enter(self@, now),
            step matches PollStep::Continue(poll) ==> poll@.interval >= MIN_POLL_INTERVAL_SECS,
    {
        proof {
            use_type_invariant(&self);
        }
        if now >= self.started_at && now - self.started_at >= self.expires_in {
            PollStep::Finished(Err(AuthError::CallbackTimeout))
        } else {
            PollStep::Continue(self)
        }
    }

    /// The number of seconds to wait before the next poll.
    pub fn wait_secs(&self) -> (seconds: u64)
        ensures
            seconds == self@.interval,
            seconds >= MIN_POLL_INTERVAL_SECS,
    {
        proof {
            use_type_invariant(self);
        }
        self.interval
    }

    /// The device code to poll with.
    pub fn device_code(&self) -> (code: &str)
        ensures
            code@ == self@.device_code,
    {
        self.device_code.as_str()
    }

    /// Takes the outcome of one poll, seen at `now`, and says what comes next.
    ///
    /// `Pending` leaves the interval as it is and `SlowDown` doubles it for
    /// every wait to come; after either the flow goes on unless the deadline
    /// is reached. Every other outcome ends the flow: `Success` with the
    /// tokens, `Denied` with `UserCancelled`, `Expired` with `CallbackTimeout`
    /// whatever time is left, `Fatal` with `TokenExchangeFailed` and the text
    /// as it came.
    pub fn on_outcome(self, outcome: PollOutcome, now: u64) -> (step: PollStep)
        ensures
            step@ == spec_after_outcome(self@, outcome@, now),
            step matches PollStep::Continue(poll) ==> poll@.interval >= MIN_POLL_INTERVAL_SECS,
    {
        proof {
            use_type_invariant(&self);
        }
        match outcome {
            PollOutcome::Pending => self.enter(now),
            PollOutcome::SlowDown => {
                let slower = DevicePoll {
                    device_code: self.device_code,
                    started_at: self.started_at,
                    expires_in: self.expires_in,
                    interval: self.interval.saturating_add(self.interval),
                };
                slower.enter(now)
            },
            PollOutcome::Success(tokens) => PollStep::Finished(Ok(tokens)),
            PollOutcome::Denied => PollStep::Finished(Err(AuthError::UserCancelled)),
            PollOutcome::Expired => PollStep::Finished(Err(AuthError::CallbackTimeout)),
            PollOutcome::Fatal(text) => PollStep::Finished(
                Err(AuthError::TokenExchangeFailed(text)),
            ),
        }
    }

    /// Takes the reply to one poll, seen at `now`, and says what comes next.
    ///
    /// A transport failure, which includes the timeout of the single request,
    /// ends the flow with a `NetworkError`. Any other reply is classified and
    /// handled as [`DevicePoll::on_outcome`] says.
    pub fn on_reply(self, reply: HttpReply<RawTokenResponse>, now: u64) -> (step: PollStep)
        ensures
            step@ == spec_after_reply(self@, reply@, now),
            step matches PollStep::Continue(poll) ==> poll@.interval >= MIN_POLL_INTERVAL_SECS,
    {
        match classify_poll(reply) {
            Ok(outcome) => self.on_outcome(outcome, now),
            Err(e) => PollStep::Finished(Err(e)),
        }
    }
}

/// The step reached from `step` when the polls of `events` are made one after
/// another. Once the flow has finished, further events change nothing: no
/// further poll is made.
pub open spec fn run(step: PollStepView, events: Seq<PollEvent>) -> PollStepView
    decreases events.len(),
{
    if events.len() == 0 {
        step
    } else {
        match run(step, events.drop_last()) {
            PollStepView::Continue(poll) => spec_after_event(poll, events.last()),
            PollStepView::Finished(result) => PollStepView::Finished(result),
        }
    }
}

/// Whether the poll of `event` leaves the user undecided and is seen before
/// `deadline`.
pub open spec fn keeps_waiting(event: PollEvent, deadline: int) -> bool {
    &&& event.now < deadline
    &&& event.classified == Ok::<PollOutcomeView, AuthErrorView>(PollOutcomeView::Pending)
        || event.classified == Ok::<PollOutcomeView, AuthErrorView>(PollOutcomeView::SlowDown)
}

/// Whether every poll of `events` leaves the user undecided and is seen
/// before `deadline`.
pub open spec fn all_keep_waiting(events: Seq<PollEvent>, deadline: int) -> bool {
    forall|i: int| 0 <= i < events.len() ==> keeps_waiting(#[trigger] events[i], deadline)
}

/// The number of polls of `events` that were answered with `slow_down`.
pub open spec fn slow_downs(events: Seq<PollEvent>) -> nat
    decreases events.len(),
{
    if events.len() == 0 {
        0
    } else {
        slow_downs(events.drop_last()) + if events.last().classified == Ok::<
            PollOutcomeView,
            AuthErrorView,
        >(PollOutcomeView::SlowDown) {
            1nat
        } else {
            0nat
        }
    }
}

/// The interval after `times` doublings.
pub open spec fn backed_off(interval: u64, times: nat) -> u64
    decreases times,
{
    if times == 0 {
        interval
    } else {
        doubled(backed_off(interval, (times - 1) as nat))
    }
}

/// A flow that starts at or after its deadline ends with a timeout, and no
/// poll is made.
pub proof fn lemma_expired_at_entry(poll: DevicePollView, now: u64)
    requires
        now >= poll.deadline,
    ensures
        spec_enter(poll, now) == PollStepView::Finished(Err(AuthErrorView::CallbackTimeout)),
{
}

/// A device code with no lifetime ends the flow with a timeout before any
/// poll, whatever the time.
pub proof fn lemma_no_lifetime_no_poll(auth: DeviceAuthorizationView, now: u64)
    requires
        auth.expires_in == 0,
    ensures
        spec_start(auth, now) == PollStepView::Finished(Err(AuthErrorView::CallbackTimeout)),
{
}

/// A flow that has finished stays as it is, whatever further events there
/// are.
pub proof fn lemma_finished_is_final(
    result: Result<OAuthTokensView, AuthErrorView>,
    events: Seq<PollEvent>,
)
    ensures
        run(PollStepView::Finished(result), events) == PollStepView::Finished(result),
    decreases events.len(),
{
    if events.len() > 0 {
        lemma_finished_is_final(result, events.drop_last());
    }
}

/// Running the events of `first` and then those of `second` is running both in
/// a row.
pub proof fn lemma_run_in_two_parts(
    step: PollStepView,
    first: Seq<PollEvent>,
    second: Seq<PollEvent>,
)
    ensures
        run(step, first + second) == run(run(step, first), second),
    decreases second.len(),
{
    if second.len() > 0 {
        assert((first + second).drop_last() =~= first + second.drop_last());
        lemma_run_in_two_parts(step, first, second.drop_last());
    }
}

/// One more poll takes the run one step further, unless it had finished.
pub proof fn lemma_run_one_more(step: PollStepView, events: Seq<PollEvent>, event: PollEvent)
    ensures
        run(step, events.push(event)) == match run(step, events) {
            PollStepView::Continue(poll) => spec_after_event(poll, event),
            PollStepView::Finished(result) => PollStepView::Finished(result),
        },
{
    assert(events.push(event).drop_last() =~= events);
}

/// A flow goes on only as long as every poll leaves the user undecided before
/// the deadline: if it still goes on after `events`, each of them did.
pub proof fn lemma_going_on_means_waiting(poll: DevicePollView, events: Seq<PollEvent>)
    requires
        run(PollStepView::Continue(poll), events) is Continue,
    ensures
        all_keep_waiting(events, poll.deadline),
    decreases events.len(),
{
    if events.len() > 0 {
        let front = events.drop_last();
        lemma_going_on_means_waiting(poll, front);
        lemma_interval_while_waiting(poll, front);
        assert forall|i: int| 0 <= i < events.len() implies keeps_waiting(
            #[trigger] events[i],
            poll.deadline,
        ) by {
            if i < front.len() {
                assert(front[i] == events[i]);
            }
        }
    }
}

/// While every poll leaves the user undecided and the deadline is ahead, the
/// flow goes on with the same device code and deadline, and its interval is
/// the first one doubled once for each `slow_down`.
pub proof fn lemma_interval_while_waiting(poll: DevicePollView, events: Seq<PollEvent>)
    requires
        all_keep_waiting(events, poll.deadline),
    ensures
        run(PollStepView::Continue(poll), events) == PollStepView::Continue(
            DevicePollView { interval: backed_off(poll.interval, slow_downs(events)), ..poll },
        ),
    decreases events.len(),
{
    if events.len() > 0 {
        let front = events.drop_last();
        assert(all_keep_waiting(front, poll.deadline));
        lemma_interval_while_waiting(poll, front);
    }
}

/// Doubling `times` times multiplies the interval by two to the power of
/// `times`, up to the largest number of seconds that can be counted.
pub proof fn lemma_backed_off_is_a_power_of_two(interval: u64, times: nat)
    ensures
        backed_off(interval, times) == if interval * pow2(times) > u64::MAX {
            u64::MAX as int
        } else {
            interval * pow2(times)
        },
    decreases times,
{
    if times == 0 {
        lemma2_to64();
    } else {
        let before = (times - 1) as nat;
        lemma_backed_off_is_a_power_of_two(interval, before);
        lemma_pow2_unfold(times);
        lemma_pow2_pos(before);
        let p = pow2(before) as int;
        let i = interval as int;
        assert(i * (2 * p) == 2 * (i * p)) by (nonlinear_arith);
        assert(i * p >= 0) by (nonlinear_arith)
            requires
                i >= 0,
                p > 0,
        ;
    }
}

/// The interval never shrinks, and it stays at one second or more where it
/// started there.
pub proof fn lemma_interval_never_shrinks(interval: u64, times: nat)
    ensures
        backed_off(interval, times) >= interval,
    decreases times,
{
    if times > 0 {
        lemma_interval_never_shrinks(interval, (times - 1) as nat);
    }
}

/// A flow whose polls leave the user undecided until one succeeds makes
/// exactly these polls: it goes on after each but the last and ends with the
/// tokens of the last.
pub proof fn lemma_polls_until_success(
    poll: DevicePollView,
    waiting: Seq<PollEvent>,
    tokens: OAuthTokensView,
    now: u64,
)
    requires
        all_keep_waiting(waiting, poll.deadline),
    ensures
        forall|n: int|
            0 <= n <= waiting.len() ==> #[trigger] run(
                PollStepView::Continue(poll),
                waiting.take(n),
            ) is Continue,
        run(
            PollStepView::Continue(poll),
            waiting.push(PollEvent { classified: Ok(PollOutcomeView::Success(tokens)), now }),
        ) == PollStepView::Finished(Ok(tokens)),
{
    assert forall|n: int| 0 <= n <= waiting.len() implies #[trigger] run(
        PollStepView::Continue(poll),
        waiting.take(n),
    ) is Continue by {
        let part = waiting.take(n);
        assert(all_keep_waiting(part, poll.deadline));
        lemma_interval_while_waiting(poll, part);
    }
    let last = PollEvent { classified: Ok(PollOutcomeView::Success(tokens)), now };
    let all = waiting.push(last);
    assert(all.drop_last() =~= waiting);
    lemma_interval_while_waiting(poll, waiting);
}

/// A poll that is answered with `access_denied` ends the flow with
/// `UserCancelled`, at whatever time it is seen and whatever polls went
/// before, and nothing that might follow changes that.
pub proof fn lemma_denied_ends_the_flow(
    poll: DevicePollView,
    waiting: Seq<PollEvent>,
    now: u64,
    later: Seq<PollEvent>,
)
    requires
        all_keep_waiting(waiting, poll.deadline),
    ensures
        run(
            PollStepView::Continue(poll),
            waiting.push(PollEvent { classified: Ok(PollOutcomeView::Denied), now }) + later,
        ) == PollStepView::Finished(Err(AuthErrorView::UserCancelled)),
{
    let denied = PollEvent { classified: Ok(PollOutcomeView::Denied), now };
    let upto = waiting.push(denied);
    assert(upto.drop_last() =~= waiting);
    lemma_interval_while_waiting(poll, waiting);
    lemma_run_in_two_parts(PollStepView::Continue(poll), upto, later);
    lemma_finished_is_final(Err(AuthErrorView::UserCancelled), later);
}

/// A poll that is seen at or after the deadline while the user is undecided
/// ends the flow with `CallbackTimeout`.
pub proof fn lemma_deadline_ends_the_flow(
    poll: DevicePollView,
    waiting: Seq<PollEvent>,
    late: PollEvent,
)
    requires
        all_keep_waiting(waiting, poll.deadline),
        late.now >= poll.deadline,
        late.classified == Ok::<PollOutcomeView, AuthErrorView>(PollOutcomeView::Pending)
            || late.classified == Ok::<PollOutcomeView, AuthErrorView>(PollOutcomeView::SlowDown),
    ensures
        run(PollStepView::Continue(poll), waiting.push(late)) == PollStepView::Finished(
            Err(AuthErrorView::CallbackTimeout),
        ),
{
    let all = waiting.push(late);
    assert(all.drop_last() =~= waiting);
    lemma_interval_while_waiting(poll, waiting);
}

} // verus!
