//! Questions to the operator, and the wait for an answer.

use crate::messages;
use crate::messages::{Container, ContainerView, Identity, IdentityView, Payload, PayloadView};
use crate::messages::{Prompt, PromptKind, PromptView};
use crate::text;
use vstd::prelude::*;

verus! {

/// How many seconds an answer may take longer than the operator is given.
pub const GRACE_SECS: u64 = 10;

/// How many seconds one look for an answer lasts.
pub const POLL_SECS: u64 = 10;

/// How many nanoseconds a second has.
pub const NANOS_PER_SEC: u128 = 1_000_000_000;

/// What the operator is asked.
#[derive(Debug, PartialEq)]
pub struct Question {
    pub title: String,
    pub details: String,
    pub input_label: String,
    pub kind: PromptKind,
    /// How many seconds the operator is given.
    pub timeout: u32,
}

/// `Question` as text and numbers.
pub struct QuestionView {
    pub title: Seq<char>,
    pub details: Seq<char>,
    pub input_label: Seq<char>,
    pub kind: PromptKind,
    pub timeout: int,
}

impl View for Question {
    type V = QuestionView;

    open spec fn view(&self) -> QuestionView {
        QuestionView {
            title: self.title@,
            details: self.details@,
            input_label: self.input_label@,
            kind: self.kind,
            timeout: self.timeout as int,
        }
    }
}

/// The prompt that puts a question under an id.
pub open spec fn prompt_of(
    identity: IdentityView,
    question: QuestionView,
    id: Seq<char>,
) -> PromptView {
    PromptView {
        prompt_id_uuid7: id,
        prompt: question.title,
        details: question.details,
        yes_dialog: "Submit"@,
        no_dialog: "Cancel"@,
        timeout: question.timeout,
        origin: identity.module_name,
        origin_uuid7: Seq::empty(),
        instructions: Seq::empty(),
        link: Seq::empty(),
        input_label: question.input_label,
        prompt_type: question.kind,
    }
}

/// The message that puts a question under an id.
pub open spec fn prompt_message(
    identity: IdentityView,
    question: QuestionView,
    id: Seq<char>,
) -> ContainerView {
    messages::sent_by(identity, PayloadView::Prompt(prompt_of(identity, question, id)))
}

/// What the operator sent back.
#[derive(Debug, PartialEq)]
pub struct PromptResponse {
    pub prompt_id_uuid7: String,
    pub accepted: bool,
    pub reason: String,
}

/// `PromptResponse` as text.
pub struct PromptResponseView {
    pub prompt_id_uuid7: Seq<char>,
    pub accepted: bool,
    pub reason: Seq<char>,
}

impl View for PromptResponse {
    type V = PromptResponseView;

    open spec fn view(&self) -> PromptResponseView {
        PromptResponseView {
            prompt_id_uuid7: self.prompt_id_uuid7@,
            accepted: self.accepted,
            reason: self.reason@,
        }
    }
}

/// What happens while an answer is awaited.
#[derive(Debug, PartialEq)]
pub enum WaitEvent {
    /// The question could not be sent.
    SendFailed,
    /// An answer to some question came.
    Response(PromptResponse),
    /// No more answers can come.
    ChannelClosed,
    /// One look for an answer ended without one.
    PollElapsed,
}

/// `WaitEvent` as text.
pub enum WaitEventView {
    SendFailed,
    Response(PromptResponseView),
    ChannelClosed,
    PollElapsed,
}

impl View for WaitEvent {
    type V = WaitEventView;

    open spec fn view(&self) -> WaitEventView {
        match *self {
            WaitEvent::SendFailed => WaitEventView::SendFailed,
            WaitEvent::Response(r) => WaitEventView::Response(r@),
            WaitEvent::ChannelClosed => WaitEventView::ChannelClosed,
            WaitEvent::PollElapsed => WaitEventView::PollElapsed,
        }
    }
}

/// What to do about an event.
#[derive(Debug, PartialEq)]
pub enum WaitStep {
    /// Go on waiting.
    Continue,
    /// The wait is over, with an answer or without.
    Done(Option<String>),
}

/// `WaitStep` as text.
pub enum WaitStepView {
    Continue,
    Done(Option<Seq<char>>),
}

impl View for WaitStep {
    type V = WaitStepView;

    open spec fn view(&self) -> WaitStepView {
        match *self {
            WaitStep::Continue => WaitStepView::Continue,
            WaitStep::Done(answer) => WaitStepView::Done(text::opt_view(answer)),
        }
    }
}

/// The answer that a response gives: its reason, unless the operator cancelled.
pub open spec fn answer_in(response: PromptResponseView) -> Option<Seq<char>> {
    if response.accepted {
        Some(response.reason)
    } else {
        None
    }
}

/// What to do about an event while the answer to the question under `id` is awaited.
pub open spec fn wait_step(id: Seq<char>, event: WaitEventView) -> WaitStepView {
    match event {
        WaitEventView::Response(response) => if response.prompt_id_uuid7 == id {
            WaitStepView::Done(answer_in(response))
        } else {
            WaitStepView::Continue
        },
        WaitEventView::PollElapsed => WaitStepView::Continue,
        WaitEventView::ChannelClosed => WaitStepView::Done(None),
        WaitEventView::SendFailed => WaitStepView::Done(None),
    }
}

/// How many nanoseconds an answer is awaited for a question with the given number of seconds.
pub open spec fn window_nanos(timeout: int) -> int {
    (timeout + GRACE_SECS) * NANOS_PER_SEC
}

/// Whether `s` is written like a UUID of version 7: five groups of lower case hexadecimal digits.
pub open spec fn is_uuid7_text(s: Seq<char>) -> bool {
    &&& s.len() == 36
    &&& forall|i: int|
        0 <= i < 36 ==> if i == 8 || i == 13 || i == 18 || i == 23 {
            #[trigger] s[i] == '-'
        } else {
            '0' <= s[i] <= '9' || 'a' <= s[i] <= 'f'
        }
    &&& s[14] == '7'
    &&& s[19] == '8' || s[19] == '9' || s[19] == 'a' || s[19] == 'b'
}

/// Calls `uuid::Uuid::now_v7` and `to_string` on its result.
///
/// Claimed: the text is that of a UUID of version 7. Which one it is depends on the time and on
/// chance, and nothing is said of it.
#[verifier::external_body]
fn new_prompt_id() -> (id: String)
    ensures
        is_uuid7_text(id@),
{
    uuid::Uuid::now_v7().to_string()
}

/// The message that puts a question under an id.
pub fn new_prompt(identity: &Identity, question: &Question, id: &str) -> (c: Container)
    ensures
        c@ == prompt_message(identity@, question@, id@),
{
    let prompt = Prompt {
        prompt_id_uuid7: id.to_string(),
        prompt: question.title.clone(),
        details: question.details.clone(),
        yes_dialog: "Submit".to_string(),
        no_dialog: "Cancel".to_string(),
        timeout: question.timeout,
        origin: identity.module_name.clone(),
        origin_uuid7: String::new(),
        instructions: String::new(),
        link: String::new(),
        input_label: question.input_label.clone(),
        prompt_type: question.kind,
    };
    messages::wrap(identity, Payload::Prompt(prompt))
}

/// The wait for the answer to one question.
#[derive(Debug, PartialEq)]
pub struct PromptWait {
    pub prompt_id: String,
    pub timeout: u32,
}

impl PromptWait {
    /// Whether an answer is still awaited when so much time has passed since the question went out.
    pub fn keeps_waiting(&self, elapsed_nanos: u128) -> (r: bool)
        ensures
            r == (elapsed_nanos < window_nanos(self.timeout as int)),
    {
        elapsed_nanos < (self.timeout as u128 + GRACE_SECS as u128) * NANOS_PER_SEC
    }

    /// What to do about an event.
    pub fn on_event(&self, event: WaitEvent) -> (r: WaitStep)
        ensures
            r@ == wait_step(self.prompt_id@, event@),
    {
        match event {
            WaitEvent::Response(response) => if text::same_text(
                response.prompt_id_uuid7.as_str(),
                self.prompt_id.as_str(),
            ) {
                if response.accepted {
                    WaitStep::Done(Some(response.reason))
                } else {
                    WaitStep::Done(None)
                }
            } else {
                WaitStep::Continue
            },
            WaitEvent::PollElapsed => WaitStep::Continue,
            WaitEvent::ChannelClosed => WaitStep::Done(None),
            WaitEvent::SendFailed => WaitStep::Done(None),
        }
    }
}

/// Puts a question to the operator under a new id: the message to send, and the wait for its
/// answer.
pub fn prompt_for_input(identity: &Identity, question: &Question) -> (r: (Container, PromptWait))
    ensures
        r.0@ == prompt_message(identity@, question@, r.1.prompt_id@),
        r.1.timeout == question.timeout,
        is_uuid7_text(r.1.prompt_id@),
{
    let id = new_prompt_id();
    let message = new_prompt(identity, question, id.as_str());
    (message, PromptWait { prompt_id: id, timeout: question.timeout })
}

/// One round of a wait: how much time had passed at its beginning, and what happened in it.
pub struct WaitRound {
    pub elapsed_nanos: int,
    pub event: WaitEventView,
}

/// How a wait ends that goes through the given rounds: with an answer, without one, or not yet.
pub open spec fn wait_outcome(id: Seq<char>, timeout: int, rounds: Seq<WaitRound>) -> Option<
    Option<Seq<char>>,
>
    decreases rounds.len(),
{
    if rounds.len() == 0 {
        None
    } else if rounds[0].elapsed_nanos >= window_nanos(timeout) {
        Some(None)
    } else {
        match wait_step(id, rounds[0].event) {
            WaitStepView::Done(answer) => Some(answer),
            WaitStepView::Continue => wait_outcome(id, timeout, rounds.skip(1)),
        }
    }
}

/// Whether nothing that concerns the question under `id` happens in a round that begins in time.
pub open spec fn is_idle_round(id: Seq<char>, timeout: int, round: WaitRound) -> bool {
    &&& round.elapsed_nanos < window_nanos(timeout)
    &&& match round.event {
        WaitEventView::PollElapsed => true,
        WaitEventView::Response(response) => response.prompt_id_uuid7 != id,
        _ => false,
    }
}

/// Neither a look that finds nothing nor an answer to another question ends a wait before its
/// time: only what comes after them counts.
pub proof fn law_idle_rounds_do_not_end_a_wait(
    id: Seq<char>,
    timeout: int,
    idle: Seq<WaitRound>,
    rest: Seq<WaitRound>,
)
    requires
        forall|i: int| 0 <= i < idle.len() ==> is_idle_round(id, timeout, #[trigger] idle[i]),
    ensures
        wait_outcome(id, timeout, idle + rest) == wait_outcome(id, timeout, rest),
    decreases idle.len(),
{
    if idle.len() == 0 {
        assert(idle + rest =~= rest);
    } else {
        let all = idle + rest;
        assert(all[0] == idle[0]);
        assert(is_idle_round(id, timeout, idle[0]));
        assert(all.skip(1) =~= idle.skip(1) + rest);
        assert forall|i: int| 0 <= i < idle.skip(1).len() implies is_idle_round(
            id,
            timeout,
            #[trigger] idle.skip(1)[i],
        ) by {
            assert(idle.skip(1)[i] == idle[i + 1]);
        }
        law_idle_rounds_do_not_end_a_wait(id, timeout, idle.skip(1), rest);
    }
}

/// The first answer to the question itself that comes in time decides, whatever comes later.
pub proof fn law_first_own_answer_decides(
    id: Seq<char>,
    timeout: int,
    idle: Seq<WaitRound>,
    own: WaitRound,
    response: PromptResponseView,
    later: Seq<WaitRound>,
)
    requires
        forall|i: int| 0 <= i < idle.len() ==> is_idle_round(id, timeout, #[trigger] idle[i]),
        own.elapsed_nanos < window_nanos(timeout),
        own.event == WaitEventView::Response(response),
        response.prompt_id_uuid7 == id,
    ensures
        wait_outcome(id, timeout, idle + (seq![own] + later)) == Some(answer_in(response)),
{
    law_idle_rounds_do_not_end_a_wait(id, timeout, idle, seq![own] + later);
    assert((seq![own] + later)[0] == own);
}

/// A wait that nothing ends is over without an answer when its time is up.
pub proof fn law_wait_expires(id: Seq<char>, timeout: int, idle: Seq<WaitRound>, late: WaitRound)
    requires
        forall|i: int| 0 <= i < idle.len() ==> is_idle_round(id, timeout, #[trigger] idle[i]),
        late.elapsed_nanos >= window_nanos(timeout),
    ensures
        wait_outcome(id, timeout, idle + seq![late]) == Some(None::<Seq<char>>),
{
    law_idle_rounds_do_not_end_a_wait(id, timeout, idle, seq![late]);
}

/// A question is put as it is asked, under its id and in the adapter's name, and can be answered or
/// cancelled.
pub proof fn law_question_is_put(identity: Identity, question: Question, id: &str, c: Container)
    requires
        call_ensures(new_prompt, (&identity, &question, id), c),
    ensures
        c.version == 1,
        c.auth_token@ == identity.auth_token@,
        c.module_name@ == identity.module_name@,
        c.module_instance_uuid7@ == identity.instance_uuid@,
        c.payload matches Payload::Prompt(p) && {
            &&& p.prompt_id_uuid7@ == id@
            &&& p.prompt@ == question.title@
            &&& p.details@ == question.details@
            &&& p.input_label@ == question.input_label@
            &&& p.prompt_type == question.kind
            &&& p.timeout == question.timeout
            &&& p.origin@ == identity.module_name@
            &&& p.yes_dialog@ == "Submit"@
            &&& p.no_dialog@ == "Cancel"@
            &&& p.origin_uuid7@.len() == 0
            &&& p.instructions@.len() == 0
            &&& p.link@.len() == 0
        },
{
}

/// The wait is for the answer to the question that goes out, and for the time that the question
/// gives.
pub proof fn law_wait_is_for_the_question(
    identity: Identity,
    question: Question,
    r: (Container, PromptWait),
)
    requires
        call_ensures(prompt_for_input, (&identity, &question), r),
    ensures
        r.0.payload matches Payload::Prompt(p) && {
            &&& p.prompt_id_uuid7@ == r.1.prompt_id@
            &&& p.prompt@ == question.title@
            &&& p.details@ == question.details@
            &&& p.input_label@ == question.input_label@
            &&& p.prompt_type == question.kind
            &&& p.timeout == question.timeout
        },
        r.0.auth_token@ == identity.auth_token@,
        r.1.timeout == question.timeout,
{
}

/// An answer under the question's own id ends the wait: with its text where the operator accepted,
/// and without one where the operator did not. An answer under another id, or a look that finds
/// nothing, does not end it; a question that could not be sent, or an end of all answers, ends it
/// without one.
pub proof fn law_what_ends_a_wait(wait: PromptWait, event: WaitEvent, step: WaitStep)
    requires
        call_ensures(PromptWait::on_event, (&wait, event), step),
    ensures
        match event {
            WaitEvent::Response(response) => {
                &&& response.prompt_id_uuid7@ != wait.prompt_id@ ==> step is Continue
                &&& response.prompt_id_uuid7@ == wait.prompt_id@ ==> (step matches WaitStep::Done(
                    answer,
                ) && (response.accepted ==> (answer matches Some(t) && t@ == response.reason@)) && (
                !response.accepted ==> answer is None))
            },
            WaitEvent::PollElapsed => step is Continue,
            WaitEvent::ChannelClosed => step == WaitStep::Done(None),
            WaitEvent::SendFailed => step == WaitStep::Done(None),
        },
{
}

/// An answer is awaited for ten seconds more than the operator is given, and no longer; one look
/// for it lasts ten seconds.
pub proof fn law_how_long_a_wait_lasts(wait: PromptWait, elapsed_nanos: u128, out: bool)
    requires
        call_ensures(PromptWait::keeps_waiting, (&wait, elapsed_nanos), out),
    ensures
        out <==> elapsed_nanos < wait.timeout * 1_000_000_000 + 10_000_000_000,
        POLL_SECS == 10,
{
    assert((wait.timeout + 10) * 1_000_000_000 == wait.timeout * 1_000_000_000 + 10_000_000_000);
}

} // verus!
