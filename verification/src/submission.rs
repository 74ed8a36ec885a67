//! The submission form's state machine.
//!
//! The form is idle, sending or confirming. It leaves idle on a submit,
//! leaves sending when the publish has ended one way or the other, and
//! leaves confirming when the confirmation has been shown for the
//! configured time. The caller owns the clock: it passes the current time
//! in seconds to the transitions that need it.

use vstd::prelude::*;
use crate::client::PublishClientError;
use crate::client::PublishResult;

verus! {

/// Number of seconds for which a confirmation is shown by default.
pub const CONFIRM_DELAY_SECS: u64 = 4;

/// What the form is doing.
#[derive(Clone, Copy, Debug, PartialEq, Eq, Structural)]
pub enum Phase {
    /// Content can be edited; a submit starts a publish.
    Idle,
    /// A publish is in flight; content is read-only, submits are ignored.
    Sending,
    /// The last publish went through and the confirmation is shown.
    Confirming,
}

/// The form: its phase, its content and what the last publish left behind.
pub struct Submission {
    phase: Phase,
    content: String,
    clear_on_success: bool,
    confirm_delay: u64,
    confirmed_at: u64,
    last_error: Option<PublishClientError>,
    last_identifier: Option<String>,
}

/// The form as mathematical values.
pub ghost struct SubmissionView {
    pub phase: Phase,
    pub content: Seq<char>,
    pub clear_on_success: bool,
    pub confirm_delay: u64,
    pub confirmed_at: u64,
    pub last_error: Option<PublishClientError>,
    pub last_identifier: Option<Seq<char>>,
}

/// What can happen to a form.
pub ghost enum Input {
    /// The user replaces the content.
    Edit(Seq<char>),
    /// The user asks to publish the content.
    Submit,
    /// The publish went through, with this display identifier, at this time.
    Succeeded(Seq<char>, u64),
    /// The publish failed.
    Failed(PublishClientError),
    /// The clock shows this time.
    Tick(u64),
}

impl View for Submission {
    type V = SubmissionView;

    closed spec fn view(&self) -> SubmissionView {
        SubmissionView {
            phase: self.phase,
            content: self.content@,
            clear_on_success: self.clear_on_success,
            confirm_delay: self.confirm_delay,
            confirmed_at: self.confirmed_at,
            last_error: self.last_error,
            last_identifier: match self.last_identifier {
                Some(text) => Some(text@),
                None => None,
            },
        }
    }
}

impl SubmissionView {
    /// A submit is taken exactly when the form is idle and has content.
    pub open spec fn can_submit(self) -> bool {
        self.phase is Idle && self.content.len() > 0
    }

    /// The confirmation has been shown for at least the configured time.
    pub open spec fn delay_elapsed(self, now: u64) -> bool {
        now - self.confirmed_at >= self.confirm_delay
    }

    /// The number of seconds for which the confirmation has still to be
    /// shown at time `now`: none if no confirmation is on display.
    pub open spec fn remaining(self, now: u64) -> int {
        if self.phase is Confirming && !self.delay_elapsed(now) {
            self.confirmed_at + self.confirm_delay - now
        } else {
            0
        }
    }

    /// The form after the user replaced the content. While a publish is in
    /// flight the content is read-only.
    pub open spec fn edit(self, text: Seq<char>) -> SubmissionView {
        if self.phase is Sending {
            self
        } else {
            SubmissionView { content: text, ..self }
        }
    }

    /// The form after a submit. A submit that is taken starts a publish and
    /// clears the error of an earlier one; any other submit is ignored.
    pub open spec fn submit(self) -> SubmissionView {
        if self.can_submit() {
            SubmissionView { phase: Phase::Sending, last_error: None, ..self }
        } else {
            self
        }
    }

    /// The form after the publish in flight went through at time `now`.
    pub open spec fn succeeded(self, display: Seq<char>, now: u64) -> SubmissionView {
        if self.phase is Sending {
            SubmissionView {
                phase: Phase::Confirming,
                content: if self.clear_on_success {
                    Seq::empty()
                } else {
                    self.content
                },
                confirmed_at: now,
                last_identifier: Some(display),
                ..self
            }
        } else {
            self
        }
    }

    /// The form after the publish in flight failed: idle again, content
    /// untouched, the error on display.
    pub open spec fn failed(self, error: PublishClientError) -> SubmissionView {
        if self.phase is Sending {
            SubmissionView { phase: Phase::Idle, last_error: Some(error), ..self }
        } else {
            self
        }
    }

    /// The form after the clock was read.
    pub open spec fn tick(self, now: u64) -> SubmissionView {
        if self.phase is Confirming && self.delay_elapsed(now) {
            SubmissionView { phase: Phase::Idle, ..self }
        } else {
            self
        }
    }

    /// The form after one input.
    pub open spec fn step(self, input: Input) -> SubmissionView {
        match input {
            Input::Edit(text) => self.edit(text),
            Input::Submit => self.submit(),
            Input::Succeeded(display, now) => self.succeeded(display, now),
            Input::Failed(error) => self.failed(error),
            Input::Tick(now) => self.tick(now),
        }
    }

    /// The form after a sequence of inputs, first to last.
    pub open spec fn run(self, inputs: Seq<Input>) -> SubmissionView
        decreases inputs.len(),
    {
        if inputs.len() == 0 {
            self
        } else {
            self.run(inputs.drop_last()).step(inputs.last())
        }
    }
}

/// The form that [`Submission::new`] makes.
pub open spec fn initial(clear_on_success: bool, confirm_delay: u64) -> SubmissionView {
    SubmissionView {
        phase: Phase::Idle,
        content: Seq::empty(),
        clear_on_success,
        confirm_delay,
        confirmed_at: 0,
        last_error: None,
        last_identifier: None,
    }
}

impl Submission {
    /// An idle, empty form. `clear_on_success` says whether the content is
    /// emptied when a publish went through; `confirm_delay` is the number
    /// of seconds for which the confirmation is shown.
    pub fn new(clear_on_success: bool, confirm_delay: u64) -> (form: Submission)
        ensures
            form@ == initial(clear_on_success, confirm_delay),
    {
        Submission {
            phase: Phase::Idle,
            content: String::new(),
            clear_on_success,
            confirm_delay,
            confirmed_at: 0,
            last_error: None,
            last_identifier: None,
        }
    }

    /// An idle, empty form that empties its content after a successful
    /// publish and shows the confirmation for [`CONFIRM_DELAY_SECS`].
    pub fn standard() -> (form: Submission)
        ensures
            form@ == initial(true, CONFIRM_DELAY_SECS),
    {
        Submission::new(true, CONFIRM_DELAY_SECS)
    }

    /// What the form is doing.
    pub fn phase(&self) -> (phase: Phase)
        ensures
            phase == self@.phase,
    {
        self.phase
    }

    /// The current content.
    pub fn content(&self) -> (text: &String)
        ensures
            text@ == self@.content,
    {
        &self.content
    }

    /// Whether a submit would be taken now.
    pub fn can_submit(&self) -> (yes: bool)
        ensures
            yes == self@.can_submit(),
    {
        match self.phase {
            Phase::Idle => !self.content.as_str().is_empty(),
            _ => false,
        }
    }

    /// Whether the content is read-only, as it is while a publish is in
    /// flight.
    pub fn is_read_only(&self) -> (yes: bool)
        ensures
            yes == (self@.phase is Sending),
    {
        match self.phase {
            Phase::Sending => true,
            _ => false,
        }
    }

    /// Whether the confirmation is on display.
    pub fn shows_confirmation(&self) -> (yes: bool)
        ensures
            yes == (self@.phase is Confirming),
    {
        match self.phase {
            Phase::Confirming => true,
            _ => false,
        }
    }

    /// Whether successful publishes empty the content.
    pub fn clears_on_success(&self) -> (yes: bool)
        ensures
            yes == self@.clear_on_success,
    {
        self.clear_on_success
    }

    /// The number of seconds for which a confirmation is shown.
    pub fn confirm_delay(&self) -> (secs: u64)
        ensures
            secs == self@.confirm_delay,
    {
        self.confirm_delay
    }

    /// The error of the last publish, if it failed and no publish was
    /// started since.
    pub fn last_error(&self) -> (error: &Option<PublishClientError>)
        ensures
            *error == self@.last_error,
    {
        &self.last_error
    }

    /// The display identifier of the last publish that went through.
    pub fn last_identifier(&self) -> (text: &Option<String>)
        ensures
            match *text {
                Some(t) => self@.last_identifier == Some(t@),
                None => self@.last_identifier is None,
            },
    {
        &self.last_identifier
    }

    /// Replaces the content, unless a publish is in flight. Returns whether
    /// the edit was taken.
    pub fn edit(&mut self, text: &str) -> (taken: bool)
        ensures
            final(self)@ == old(self)@.edit(text@),
            taken == !(old(self)@.phase is Sending),
    {
        match self.phase {
            Phase::Sending => false,
            _ => {
                self.content = text.to_owned();
                true
            },
        }
    }

    /// Asks to publish the content. If the form is idle and has content, it
    /// starts sending and the content to publish is returned; in any other
    /// case nothing changes and `None` is returned.
    pub fn submit(&mut self) -> (publish: Option<String>)
        ensures
            final(self)@ == old(self)@.submit(),
            match publish {
                Some(text) => old(self)@.can_submit() && text@ == old(self)@.content,
                None => !old(self)@.can_submit(),
            },
    {
        if self.can_submit() {
            self.phase = Phase::Sending;
            self.last_error = None;
            Some(self.content.clone())
        } else {
            None
        }
    }

    /// Reports that the publish in flight went through at time `now`. The
    /// form starts confirming, remembers the display identifier and empties
    /// its content if it is configured to. Without a publish in flight the
    /// report is ignored. Returns whether it was taken.
    pub fn publish_succeeded(&mut self, result: PublishResult, now: u64) -> (taken: bool)
        ensures
            final(self)@ == old(self)@.succeeded(result.display_identifier@, now),
            taken == (old(self)@.phase is Sending),
    {
        match self.phase {
            Phase::Sending => {
                self.phase = Phase::Confirming;
                self.confirmed_at = now;
                self.last_identifier = Some(result.display_identifier);
                if self.clear_on_success {
                    self.content = String::new();
                }
                true
            },
            _ => false,
        }
    }

    /// Reports that the publish in flight failed. The form becomes idle
    /// again with its content untouched and exposes the error. Without a
    /// publish in flight the report is ignored. Returns whether it was
    /// taken.
    pub fn publish_failed(&mut self, error: PublishClientError) -> (taken: bool)
        ensures
            final(self)@ == old(self)@.failed(error),
            taken == (old(self)@.phase is Sending),
    {
        match self.phase {
            Phase::Sending => {
                self.phase = Phase::Idle;
                self.last_error = Some(error);
                true
            },
            _ => false,
        }
    }

    /// Reports how the publish in flight ended, at time `now`.
    pub fn publish_finished(
        &mut self,
        outcome: Result<PublishResult, PublishClientError>,
        now: u64,
    ) -> (taken: bool)
        ensures
            final(self)@ == match outcome {
                Ok(result) => old(self)@.succeeded(result.display_identifier@, now),
                Err(error) => old(self)@.failed(error),
            },
            taken == (old(self)@.phase is Sending),
    {
        match outcome {
            Ok(result) => self.publish_succeeded(result, now),
            Err(error) => self.publish_failed(error),
        }
    }

    /// The number of seconds that the caller has to let pass before the
    /// confirmation ends, or as many of them as a `u64` holds. It is zero
    /// exactly when a reading of the clock at `now` changes nothing or ends
    /// the confirmation.
    pub fn confirmation_remaining(&self, now: u64) -> (secs: u64)
        ensures
            secs == if self@.remaining(now) > u64::MAX {
                u64::MAX as int
            } else {
                self@.remaining(now)
            },
    {
        match self.phase {
            Phase::Confirming => {
                if now >= self.confirmed_at {
                    let shown: u64 = now - self.confirmed_at;
                    if shown >= self.confirm_delay {
                        0
                    } else {
                        self.confirm_delay - shown
                    }
                } else {
                    let ahead: u64 = self.confirmed_at - now;
                    match self.confirm_delay.checked_add(ahead) {
                        Some(secs) => secs,
                        None => u64::MAX,
                    }
                }
            },
            _ => 0,
        }
    }

    /// Shows the form the clock. A confirmation that has been on display
    /// for the configured number of seconds ends, and the form is idle
    /// again. Returns whether that happened.
    pub fn tick(&mut self, now: u64) -> (ended: bool)
        ensures
            final(self)@ == old(self)@.tick(now),
            ended == (old(self)@.phase is Confirming && old(self)@.delay_elapsed(now)),
    {
        match self.phase {
            Phase::Confirming => {
                if now >= self.confirmed_at && now - self.confirmed_at >= self.confirm_delay {
                    self.phase = Phase::Idle;
                    true
                } else {
                    false
                }
            },
            _ => false,
        }
    }
}

/// A submit changes the form only if the form is idle and has content, and
/// then the form is sending. In particular a submit while sending or
/// confirming is ignored.
pub proof fn lemma_submit_only_when_idle(form: SubmissionView)
    ensures
        form.submit() != form ==> form.phase is Idle,
        !(form.phase is Idle) ==> form.submit() == form,
        form.can_submit() ==> form.submit().phase is Sending,
        form.submit().submit() == form.submit(),
{
}

/// While a publish is in flight nothing but its end changes the form: the
/// content is read-only, further submits are ignored and the clock has no
/// effect.
pub proof fn lemma_sending_until_finished(form: SubmissionView, input: Input)
    requires
        form.phase is Sending,
    ensures
        !(input is Succeeded) && !(input is Failed) ==> form.step(input) == form,
        input is Succeeded ==> form.step(input).phase is Confirming,
        input is Failed ==> form.step(input).phase is Idle,
{
}

/// In any course of events, a submit that starts a publish finds the form
/// idle: after one publish has started, no other starts before the form
/// has been idle again.
pub proof fn lemma_publish_starts_from_idle(start: SubmissionView, inputs: Seq<Input>)
    requires
        inputs.len() > 0,
        inputs.last() is Submit,
        start.run(inputs) != start.run(inputs.drop_last()),
    ensures
        start.run(inputs.drop_last()).phase is Idle,
        start.run(inputs).phase is Sending,
{
}

/// A successful publish starts the confirmation, and the confirmation
/// ends at the first reading of the clock that is at least the configured
/// delay after the success: no earlier reading ends it, every such reading
/// does.
pub proof fn lemma_confirmation_lasts_for_delay(
    form: SubmissionView,
    display: Seq<char>,
    at: u64,
    now: u64,
)
    requires
        form.phase is Sending,
    ensures
        form.succeeded(display, at).phase is Confirming,
        now - at >= form.confirm_delay ==> form.succeeded(display, at).tick(now).phase is Idle,
        now - at < form.confirm_delay ==> form.succeeded(display, at).tick(now)
            == form.succeeded(display, at),
{
}

/// The time that the form asks the caller to let pass is the time after
/// which the confirmation ends: while any of it remains a reading of the
/// clock changes nothing, and a reading taken that much later, or later
/// still, ends the confirmation.
pub proof fn lemma_remaining_is_time_to_idle(form: SubmissionView, now: u64, later: u64)
    requires
        form.phase is Confirming,
    ensures
        form.remaining(now) >= 0,
        form.remaining(now) > 0 ==> form.tick(now) == form,
        form.remaining(now) == 0 ==> form.tick(now).phase is Idle,
        later - now >= form.remaining(now) ==> form.tick(later).phase is Idle,
{
}

/// Nothing but the clock ends a confirmation: edits change the content
/// only, and submits and publish reports are ignored.
pub proof fn lemma_confirming_until_delay(form: SubmissionView, input: Input)
    requires
        form.phase is Confirming,
    ensures
        !(input is Tick) ==> form.step(input).phase is Confirming,
        input matches Input::Tick(now) ==> (form.step(input).phase is Idle <==> form.delay_elapsed(
            now,
        )),
{
}

/// What a successful publish does to the content is what the form was
/// configured to do: empty it, or leave it as it is.
pub proof fn lemma_content_after_success(form: SubmissionView, display: Seq<char>, at: u64)
    requires
        form.phase is Sending,
    ensures
        form.clear_on_success ==> form.succeeded(display, at).content == Seq::<char>::empty(),
        !form.clear_on_success ==> form.succeeded(display, at).content == form.content,
        form.succeeded(display, at).last_identifier == Some(display),
{
}

/// A failed publish returns the form to idle with the content as it was
/// and the error exposed, whatever the error.
pub proof fn lemma_failure_returns_to_idle(form: SubmissionView, error: PublishClientError)
    requires
        form.phase is Sending,
    ensures
        form.failed(error).phase is Idle,
        form.failed(error).content == form.content,
        form.failed(error).last_error == Some(error),
{
}

} // verus!
