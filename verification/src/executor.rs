//! The request executor's decision core.
//!
//! One logical call is a sequence of attempts.  An async runner performs the
//! outside work — issuing the HTTP attempt, sleeping, acquiring and releasing
//! the admission permit — and reports each attempt's outcome as an
//! [`AttemptEvent`].  Every decision between two attempts is taken here:
//! [`start`] validates the method and sets up the state, [`ExecState::on_event`]
//! classifies the event and answers with the next [`Step`].
//!
//! The retry predicate is consulted only on network-level failures.  The
//! loop evaluates it there and hands the answer to `on_event` as
//! `Some(answer)`; `None` stands for "no predicate" and defaults to
//! retrying.

use vstd::prelude::*;

use crate::backoff::{compute_backoff_with_jitter, is_backoff_wait};
use crate::classify::{
    classify, classify_spec, is_success_status, secs_to_ms, secs_to_ms_spec, Classification,
};
use crate::errors::NgError;
use crate::methods::{contains_method, method_name, HttpMethod};
use crate::options::{max_attempts_spec, KyOptions};
use crate::retry_after::{date_directive_parses, is_numeric_directive, numeric_directive_secs, parse_retry_after};
use crate::text::{body_snippet, dec_str, snippet_of, u64_to_string};

verus! {

/// The per-call state of the attempt loop.
pub struct ExecState {
    /// The validated method of this logical call.
    pub method: HttpMethod,
    /// 1-based number of the attempt currently in flight.
    pub attempt: u64,
    /// Total attempts the configured budget allows.
    pub max_attempts: u64,
    /// Whether the server-directed final extension has been granted.
    pub extension_used: bool,
    /// Whether the loop believes it holds an admission permit.
    pub permit_held: bool,
    /// Last non-success HTTP status observed.
    pub last_status: Option<u16>,
    /// Length-bounded snippet of the last non-success body.
    pub last_body_snippet: Option<String>,
    /// Message of the last error encountered.
    pub last_err: Option<String>,
}

/// The state invariant: the attempt number stays within the budget.  The
/// one server-directed attempt past the budget is marked by
/// `extension_used`, not by a number beyond `max_attempts`.
pub open spec fn wf(st: ExecState) -> bool {
    &&& 1 <= st.attempt <= st.max_attempts
    &&& st.max_attempts >= 1
}

/// What one attempt reported back to the loop.
pub enum AttemptEvent {
    /// The attempt completed with a status, the `Retry-After` header value
    /// if any, the full body text, and the response headers.
    Response { status: u16, retry_after: Option<String>, body: String, headers: Vec<(String, String)> },
    /// The attempt failed at the network level.
    NetError { is_timeout: bool, message: String },
    /// The request could not even be built.
    BuildError { message: String },
}

/// How a finished logical call comes out.
#[derive(Debug)]
pub enum Outcome {
    /// A 2xx answer: the caller's decoder takes the body.
    Accept { status: u16, body: String, headers: Vec<(String, String)> },
    /// A non-2xx answer the policy will not retry: recoverable,
    /// application-level information, not a call failure.
    Refuse { status: u16, body: String, headers: Vec<(String, String)> },
    /// The call failed outright.
    Fail(NgError),
}

/// What the loop must do next.
#[derive(Debug)]
pub enum Step {
    /// Sleep the given milliseconds — releasing the permit first when asked
    /// to, then attempting a bounded re-acquisition — and issue the next
    /// attempt.
    Sleep { wait_ms: u64, release_permit: bool },
    /// The call is over; release the permit.
    Done(Outcome),
}

/// The message rejecting a disallowed method.
pub open spec fn method_not_allowed_msg(m: HttpMethod) -> Seq<char> {
    "Method "@ + method_name(m) + " not allowed"@
}

/// The diagnostic message recorded for a non-success status.
pub open spec fn status_err_msg(status: u16) -> Seq<char> {
    "Status: "@ + dec_str(status as int)
}

/// The sleep step for a wait: the permit is released before sleeping
/// exactly when the wait reaches or exceeds the configured threshold.
pub open spec fn sleep_of(opts: KyOptions, w: u64) -> Step {
    (Step::Sleep { wait_ms: w, release_permit: w >= opts.permit_release_threshold_ms })
}

/// The loop advanced to the next attempt within the budget.
pub open spec fn advanced(o: ExecState, f: ExecState) -> bool {
    &&& f.attempt == o.attempt + 1
    &&& f.extension_used == o.extension_used
    &&& f.method == o.method
    &&& f.max_attempts == o.max_attempts
}

/// The loop granted the one server-directed attempt past the budget.
pub open spec fn granted_extension(o: ExecState, f: ExecState) -> bool {
    &&& f.attempt == o.attempt
    &&& f.extension_used
    &&& f.method == o.method
    &&& f.max_attempts == o.max_attempts
}

/// The permit field after a sleep step with the given release flag.
pub open spec fn permit_after_sleep(o: ExecState, f: ExecState, rel: bool) -> bool {
    f.permit_held == if rel {
        false
    } else {
        o.permit_held
    }
}

/// The diagnostics after noting one non-success response.
pub open spec fn diag_noted(f: ExecState, status: u16, body: Seq<char>) -> bool {
    &&& f.last_status == Some(status)
    &&& f.last_body_snippet matches Some(b) && b@ == snippet_of(body, 1024)
    &&& f.last_err matches Some(e) && e@ == status_err_msg(status)
}

/// The diagnostics carried over unchanged.
pub open spec fn same_diag(o: ExecState, f: ExecState) -> bool {
    &&& f.last_status == o.last_status
    &&& f.last_body_snippet == o.last_body_snippet
    &&& f.last_err == o.last_err
}

/// The step and state change a classified response must produce.
pub open spec fn response_step_ok(
    opts: KyOptions,
    o: ExecState,
    f: ExecState,
    r: Step,
    c: Classification,
    status: u16,
    body: String,
    headers: Vec<(String, String)>,
) -> bool {
    &&& (c is Accept ==> r == Step::Done(Outcome::Accept { status, body, headers })
        && same_diag(o, f) && f.permit_held == false && f.attempt == o.attempt
        && f.extension_used == o.extension_used)
    &&& (c matches Classification::ServerWait { wait_ms } ==> r == sleep_of(opts, wait_ms)
        && advanced(o, f) && diag_noted(f, status, body@) && permit_after_sleep(
        o,
        f,
        wait_ms >= opts.permit_release_threshold_ms,
    ))
    &&& (c matches Classification::ServerWaitExtension { wait_ms } ==> r == sleep_of(opts, wait_ms)
        && granted_extension(o, f) && diag_noted(f, status, body@) && permit_after_sleep(
        o,
        f,
        wait_ms >= opts.permit_release_threshold_ms,
    ))
    &&& (c is Backoff ==> (r matches Step::Sleep { wait_ms, release_permit } && is_backoff_wait(
        opts,
        o.attempt as int,
        wait_ms as int,
    ) && release_permit == (wait_ms >= opts.permit_release_threshold_ms) && advanced(o, f)
        && diag_noted(f, status, body@) && permit_after_sleep(o, f, release_permit)))
    &&& (c is Refuse ==> r == Step::Done(Outcome::Refuse { status, body, headers })
        && diag_noted(f, status, body@) && f.permit_held == false && f.attempt == o.attempt
        && f.extension_used == o.extension_used)
    &&& f.method == o.method
    &&& f.max_attempts == o.max_attempts
}

/// The enriched terminal error: last status seen, last body snippet, total
/// attempts, and the last error, in one message.
pub open spec fn enriched_msg(
    last_status: Option<u16>,
    snippet: Option<Seq<char>>,
    attempts: u64,
    last_err: Seq<char>,
) -> Seq<char> {
    let p1 = match last_status {
        Some(s) => "status="@ + dec_str(s as int) + ", "@,
        None => Seq::<char>::empty(),
    };
    let p2 = match snippet {
        Some(b) => "body="@ + b + ", "@,
        None => Seq::<char>::empty(),
    };
    p1 + p2 + "attempts="@ + dec_str(attempts as int) + ", last_err="@ + last_err
}

/// View of an optional snippet.
pub open spec fn snippet_view(s: Option<String>) -> Option<Seq<char>> {
    match s {
        Some(b) => Some(b@),
        None => None,
    }
}

/// Validates the method and opens the attempt loop.  A method absent from
/// `allowed_methods` is rejected before any attempt: no permit is taken and
/// no network call can follow.
pub fn start(opts: &KyOptions, method: HttpMethod) -> (r: Result<ExecState, NgError>)
    ensures
        opts.allowed_methods@.contains(method) ==> (r matches Ok(st) && st.method == method
            && st.attempt == 1 && st.max_attempts == max_attempts_spec(opts.retry)
            && !st.extension_used && !st.permit_held && st.last_status is None
            && st.last_body_snippet is None && st.last_err is None && wf(st)),
        !opts.allowed_methods@.contains(method) ==> (r matches Err(e) && e matches
            NgError::InternalError(m) && m@ == method_not_allowed_msg(method)),
{
    if contains_method(&opts.allowed_methods, method) {
        Ok(
            ExecState {
                method,
                attempt: 1,
                max_attempts: opts.max_attempts(),
                extension_used: false,
                permit_held: false,
                last_status: None,
                last_body_snippet: None,
                last_err: None,
            },
        )
    } else {
        let mut msg = String::from_str("Method ");
        msg.append(method.as_str());
        msg.append(" not allowed");
        Err(NgError::InternalError(msg))
    }
}

impl ExecState {
    /// Records that the runner acquired the admission permit.
    pub fn note_admitted(&mut self)
        ensures
            *final(self) == (ExecState { permit_held: true, ..*old(self) }),
    {
        self.permit_held = true;
    }

    /// Records the outcome of the bounded re-acquisition after a
    /// permit-releasing sleep.
    pub fn note_reacquired(&mut self, got: bool)
        ensures
            *final(self) == (ExecState { permit_held: got, ..*old(self) }),
    {
        self.permit_held = got;
    }

    /// Notes a non-success response in the diagnostics.
    fn note_failure(&mut self, status: u16, body: &str)
        ensures
            diag_noted(*final(self), status, body@),
            final(self).method == old(self).method,
            final(self).attempt == old(self).attempt,
            final(self).max_attempts == old(self).max_attempts,
            final(self).extension_used == old(self).extension_used,
            final(self).permit_held == old(self).permit_held,
    {
        self.last_status = Some(status);
        self.last_body_snippet = Some(body_snippet(body, 1024));
        let mut msg = String::from_str("Status: ");
        let digits = u64_to_string(status as u64);
        msg.append(digits.as_str());
        self.last_err = Some(msg);
    }

    /// The sleep step for a wait, with the permit bookkeeping.
    fn sleep_step(&mut self, opts: &KyOptions, wait_ms: u64) -> (r: Step)
        ensures
            r == sleep_of(*opts, wait_ms),
            permit_after_sleep(*old(self), *final(self), wait_ms
                >= opts.permit_release_threshold_ms),
            final(self).method == old(self).method,
            final(self).attempt == old(self).attempt,
            final(self).max_attempts == old(self).max_attempts,
            final(self).extension_used == old(self).extension_used,
            same_diag(*old(self), *final(self)),
    {
        let release_permit = wait_ms >= opts.permit_release_threshold_ms;
        if release_permit {
            self.permit_held = false;
        }
        Step::Sleep { wait_ms, release_permit }
    }

    /// Classifies one attempt's event and decides the next step.
    ///
    /// Every terminal step leaves `permit_held` false: the permit is
    /// released on every exit path.  A 2xx response is terminal whatever
    /// retry budget remains; its body goes to the caller's decoder, and a
    /// decode failure there is terminal too (`decode_error`), never retried.
    pub fn on_event(
        &mut self,
        opts: &KyOptions,
        rng: &mut rand::rngs::SmallRng,
        ev: AttemptEvent,
        predicate_verdict: Option<bool>,
    ) -> (r: Step)
        requires
            wf(*old(self)),
        ensures
            wf(*final(self)),
            final(self).method == old(self).method,
            final(self).max_attempts == old(self).max_attempts,
            // Every exit path releases the permit: a terminal step never
            // leaves it held.
            r is Done ==> final(self).permit_held == false,
            // A completed attempt while the extension is in flight is terminal
            // no matter what came back.
            old(self).extension_used ==> (match ev {
                AttemptEvent::Response { status, retry_after: _, body, headers } => if
                    is_success_status(status) {
                    r == Step::Done(Outcome::Accept { status, body, headers })
                } else {
                    r == Step::Done(Outcome::Refuse { status, body, headers })
                },
                AttemptEvent::NetError { is_timeout: _, message } => (r matches Step::Done(
                    Outcome::Fail(NgError::HttpError(m)),
                ) && m@ == message@),
                AttemptEvent::BuildError { message } => (r matches Step::Done(
                    Outcome::Fail(NgError::InternalError(m)),
                ) && m@ == message@),
            }) && final(self).permit_held == false,
            // A regular completed attempt is classified.  An absent directive
            // and a numeric directive pin the classification exactly; a date
            // directive is pinned to be present with a wait of at least one
            // second, so the server-directed path — the final-attempt
            // extension included — is never skipped for it.
            !old(self).extension_used ==> (match ev {
                AttemptEvent::Response { status, retry_after, body, headers } => {
                    &&& retry_after is None ==> response_step_ok(
                        *opts,
                        *old(self),
                        *final(self),
                        r,
                        classify_spec(
                            *opts,
                            old(self).method,
                            status,
                            None,
                            old(self).attempt as int,
                            old(self).max_attempts as int,
                        ),
                        status,
                        body,
                        headers,
                    )
                    &&& (retry_after matches Some(h) ==> (is_numeric_directive(h@)
                        ==> response_step_ok(
                        *opts,
                        *old(self),
                        *final(self),
                        r,
                        classify_spec(
                            *opts,
                            old(self).method,
                            status,
                            Some(secs_to_ms_spec(numeric_directive_secs(h@) as int) as u64),
                            old(self).attempt as int,
                            old(self).max_attempts as int,
                        ),
                        status,
                        body,
                        headers,
                    )))
                    &&& (retry_after matches Some(h) ==> (!is_numeric_directive(h@) ==> (exists|
                        ra: Option<u64>,
                    |
                        (if date_directive_parses(h@) {
                            ra matches Some(w) && w >= 1000
                        } else {
                            ra is None
                        }) && response_step_ok(
                            *opts,
                            *old(self),
                            *final(self),
                            r,
                            #[trigger] classify_spec(
                                *opts,
                                old(self).method,
                                status,
                                ra,
                                old(self).attempt as int,
                                old(self).max_attempts as int,
                            ),
                            status,
                            body,
                            headers,
                        ))))
                },
                AttemptEvent::NetError { is_timeout, message } => net_step_ok(
                    *opts,
                    *old(self),
                    *final(self),
                    r,
                    is_timeout,
                    message,
                    predicate_verdict,
                ),
                AttemptEvent::BuildError { message } => net_step_ok(
                    *opts,
                    *old(self),
                    *final(self),
                    r,
                    false,
                    message,
                    predicate_verdict,
                ),
            }),
    {
        match ev {
            AttemptEvent::Response { status, retry_after, body, headers } => {
                if self.extension_used {
                    self.permit_held = false;
                    if 200 <= status && status < 300 {
                        Step::Done(Outcome::Accept { status, body, headers })
                    } else {
                        Step::Done(Outcome::Refuse { status, body, headers })
                    }
                } else {
                    let header_str = match &retry_after {
                        Some(s) => Some(s.as_str()),
                        None => None,
                    };
                    let ra_secs = parse_retry_after(header_str);
                    let ra_ms = match ra_secs {
                        Some(s) => Some(secs_to_ms(s)),
                        None => None,
                    };
                    let r = self.response_step(opts, rng, status, ra_ms, body, headers);
                    proof {
                        if retry_after is Some && !is_numeric_directive(retry_after->0@) {
                            if date_directive_parses(retry_after->0@) {
                                assert(ra_ms matches Some(w) && w >= 1000);
                            } else {
                                assert(ra_ms is None);
                            }
                        }
                    }
                    r
                }
            },
            AttemptEvent::NetError { is_timeout, message } => {
                if self.extension_used {
                    self.permit_held = false;
                    Step::Done(Outcome::Fail(NgError::HttpError(message)))
                } else {
                    self.net_error_step(opts, rng, is_timeout, message, predicate_verdict)
                }
            },
            AttemptEvent::BuildError { message } => {
                if self.extension_used {
                    self.permit_held = false;
                    Step::Done(Outcome::Fail(NgError::InternalError(message)))
                } else {
                    self.net_error_step(opts, rng, false, message, predicate_verdict)
                }
            },
        }
    }

    /// Handles a regular completed attempt, given the parsed directive.
    fn response_step(
        &mut self,
        opts: &KyOptions,
        rng: &mut rand::rngs::SmallRng,
        status: u16,
        ra_ms: Option<u64>,
        body: String,
        headers: Vec<(String, String)>,
    ) -> (r: Step)
        requires
            wf(*old(self)),
            !old(self).extension_used,
        ensures
            response_step_ok(
                *opts,
                *old(self),
                *final(self),
                r,
                classify_spec(
                    *opts,
                    old(self).method,
                    status,
                    ra_ms,
                    old(self).attempt as int,
                    old(self).max_attempts as int,
                ),
                status,
                body,
                headers,
            ),
            wf(*final(self)),
    {
        let c = classify(opts, self.method, status, ra_ms, self.attempt, self.max_attempts);
        match c {
            Classification::Accept => {
                self.permit_held = false;
                Step::Done(Outcome::Accept { status, body, headers })
            },
            Classification::ServerWait { wait_ms } => {
                self.note_failure(status, body.as_str());
                self.attempt = self.attempt + 1;
                self.sleep_step(opts, wait_ms)
            },
            Classification::ServerWaitExtension { wait_ms } => {
                self.note_failure(status, body.as_str());
                self.extension_used = true;
                self.sleep_step(opts, wait_ms)
            },
            Classification::Backoff => {
                self.note_failure(status, body.as_str());
                let wait_ms = compute_backoff_with_jitter(opts, self.attempt, rng);
                self.attempt = self.attempt + 1;
                self.sleep_step(opts, wait_ms)
            },
            Classification::Refuse => {
                self.note_failure(status, body.as_str());
                self.permit_held = false;
                Step::Done(Outcome::Refuse { status, body, headers })
            },
        }
    }

    /// Handles a network-level failure of a regular attempt.
    fn net_error_step(
        &mut self,
        opts: &KyOptions,
        rng: &mut rand::rngs::SmallRng,
        is_timeout: bool,
        message: String,
        predicate_verdict: Option<bool>,
    ) -> (r: Step)
        requires
            wf(*old(self)),
            !old(self).extension_used,
        ensures
            net_step_ok(*opts, *old(self), *final(self), r, is_timeout, message, predicate_verdict),
            final(self).method == old(self).method,
            final(self).max_attempts == old(self).max_attempts,
            wf(*final(self)),
    {
        if is_timeout && !opts.retry_on_timeout {
            self.permit_held = false;
            return Step::Done(Outcome::Fail(NgError::HttpError(message)));
        }
        let should = match predicate_verdict {
            Some(b) => b,
            None => true,
        };
        if should && self.attempt < self.max_attempts {
            self.last_err = Some(message);
            let wait_ms = compute_backoff_with_jitter(opts, self.attempt, rng);
            self.attempt = self.attempt + 1;
            self.sleep_step(opts, wait_ms)
        } else {
            let enriched = compose_enriched(
                &self.last_status,
                &self.last_body_snippet,
                self.attempt,
                message.as_str(),
            );
            self.last_err = Some(message);
            self.permit_held = false;
            Step::Done(Outcome::Fail(NgError::HttpError(enriched)))
        }
    }
}

/// True when the runner must evaluate the retry predicate for this event:
/// a network-level failure that is not an unretried timeout.  A completed
/// response never consults it.
pub fn consults_predicate(opts: &KyOptions, ev: &AttemptEvent) -> (r: bool)
    ensures
        r == match *ev {
            AttemptEvent::NetError { is_timeout, .. } => !(is_timeout && !opts.retry_on_timeout),
            AttemptEvent::BuildError { .. } => true,
            AttemptEvent::Response { .. } => false,
        },
{
    match ev {
        AttemptEvent::NetError { is_timeout, .. } => !(*is_timeout && !opts.retry_on_timeout),
        AttemptEvent::BuildError { .. } => true,
        AttemptEvent::Response { .. } => false,
    }
}

/// The step and state change a network-level failure must produce: an
/// unretried timeout fails as it is; a retryable failure with budget left
/// backs off; otherwise the call fails with the enriched message.
pub open spec fn net_step_ok(
    opts: KyOptions,
    o: ExecState,
    f: ExecState,
    r: Step,
    is_timeout: bool,
    message: String,
    predicate_verdict: Option<bool>,
) -> bool {
    if is_timeout && !opts.retry_on_timeout {
        &&& r == Step::Done(Outcome::Fail(NgError::HttpError(message)))
        &&& f.permit_held == false
        &&& same_diag(o, f)
        &&& f.attempt == o.attempt
        &&& f.extension_used == o.extension_used
    } else if predicate_verdict != Some(false) && o.attempt < o.max_attempts {
        &&& (r matches Step::Sleep { wait_ms, release_permit } && is_backoff_wait(
            opts,
            o.attempt as int,
            wait_ms as int,
        ) && release_permit == (wait_ms >= opts.permit_release_threshold_ms) && permit_after_sleep(
            o,
            f,
            release_permit,
        ))
        &&& f.attempt == o.attempt + 1
        &&& f.extension_used == o.extension_used
        &&& f.last_status == o.last_status
        &&& f.last_body_snippet == o.last_body_snippet
        &&& f.last_err matches Some(m) && m@ == message@
    } else {
        &&& (r matches Step::Done(Outcome::Fail(NgError::HttpError(m))) && m@ == enriched_msg(
            o.last_status,
            snippet_view(o.last_body_snippet),
            o.attempt,
            message@,
        ))
        &&& f.permit_held == false
        &&& f.attempt == o.attempt
        &&& f.extension_used == o.extension_used
    }
}

/// Composes the enriched terminal error message.
fn compose_enriched(
    last_status: &Option<u16>,
    snippet: &Option<String>,
    attempts: u64,
    last_err: &str,
) -> (r: String)
    ensures
        r@ == enriched_msg(*last_status, snippet_view(*snippet), attempts, last_err@),
{
    let mut msg = String::new();
    match last_status {
        Some(s) => {
            msg.append("status=");
            let digits = u64_to_string(*s as u64);
            msg.append(digits.as_str());
            msg.append(", ");
        },
        None => {},
    }
    match snippet {
        Some(b) => {
            msg.append("body=");
            msg.append(b.as_str());
            msg.append(", ");
        },
        None => {},
    }
    msg.append("attempts=");
    let digits = u64_to_string(attempts);
    msg.append(digits.as_str());
    msg.append(", last_err=");
    msg.append(last_err);
    msg
}

} // verus!
