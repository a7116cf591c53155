//! The run of the composer as a state machine. Each step waits for one event:
//! what the repository reported, what the operator replied, or that an action
//! is done. `Workflow::advance` takes the event and moves to the next step.
//!
//! The steps follow one another in one order:
//! `CheckStaging`, then `StageConfirm` and `StageApply` where tracked changes
//! are left to stage, `SelectType`, `InputScope`, `InputDescription`,
//! `InputBody`, then `BodyEditorEscape` where the editor was asked for,
//! `FooterConfirm`, then `SelectFooterType` and `InputIssueNumber` where a
//! footer is wanted, `Commit`, `Done`. The message is built on the way into
//! `Commit`. A reply that a prompt does not accept leaves the machine where it
//! is and is answered with a failure of validation, so that the prompt is
//! shown again.

use crate::error::ErrorKind;
use crate::message::{build_commit_message, message_text};
use crate::prompt::{
    build_footer, confirm_reply, confirmed, footer_kind_named, footer_text, is_valid_description,
    is_valid_issue_number,
    normalized, wants_editor, FooterKind,
};
use crate::catalog::line_text;
use crate::text::{
    first_word, first_word_of, is_i32_text, law_integer_text_is_trimmed, lemma_skip_word_stops,
    trimmed, white_space,
};
use vstd::prelude::*;
use vstd::string::*;

verus! {

/// Where a run stands, and with it what is awaited.
#[derive(Clone, Copy, Debug, PartialEq, Eq, Structural)]
pub enum Step {
    /// Awaits whether tracked changes are left to stage.
    CheckStaging,
    /// Awaits the reply to the question whether to stage them; an empty reply
    /// is a yes.
    StageConfirm,
    /// Awaits the end of staging.
    StageApply,
    /// Awaits the line of the catalog that the operator selected.
    SelectType,
    /// Awaits the scope, which may be empty.
    InputScope,
    /// Awaits the description, which may not be empty.
    InputDescription,
    /// Awaits the body, or the token that asks for the editor.
    InputBody,
    /// Awaits what the editor left in its file.
    BodyEditorEscape,
    /// Awaits the reply to the question whether to add a footer; an empty
    /// reply is a no.
    FooterConfirm,
    /// Awaits the word of the footer kind.
    SelectFooterType,
    /// Awaits the issue number.
    InputIssueNumber,
    /// The message is built; awaits the end of the commit.
    Commit,
    /// The commit is made.
    Done,
    /// The operator gave up; no commit is made.
    Cancelled,
    /// An action failed; no further step is taken.
    Failed,
}

/// What a run is told.
pub enum Event {
    /// The working tree was inspected: whether tracked changes are left to
    /// stage.
    Inspected(bool),
    /// The operator's reply to a prompt, or the text that the editor left.
    Reply(String),
    /// The action of the step is done.
    Completed,
    /// The action of the step failed.
    Failed(ErrorKind),
    /// The operator left a prompt without a reply.
    Cancelled,
}

/// An event as plain values.
pub enum EventView {
    Inspected(bool),
    Reply(Seq<char>),
    Completed,
    Failed(ErrorKind),
    Cancelled,
}

impl View for Event {
    type V = EventView;

    open spec fn view(&self) -> EventView {
        match self {
            Event::Inspected(unstaged) => EventView::Inspected(*unstaged),
            Event::Reply(text) => EventView::Reply(text@),
            Event::Completed => EventView::Completed,
            Event::Failed(kind) => EventView::Failed(*kind),
            Event::Cancelled => EventView::Cancelled,
        }
    }
}

/// A run as plain values: its step, the parts of the message as far as they
/// are known, the message once it is built, and the failure that ended it.
pub struct WorkflowState {
    pub step: Step,
    pub commit_type: Seq<char>,
    pub scope: Seq<char>,
    pub description: Seq<char>,
    pub body: Seq<char>,
    pub footer: Seq<char>,
    pub footer_kind: Option<FooterKind>,
    pub message: Seq<char>,
    pub error: Option<ErrorKind>,
}

/// A run of the composer.
pub struct Workflow {
    step: Step,
    commit_type: String,
    scope: String,
    description: String,
    body: String,
    footer: String,
    footer_kind: Option<FooterKind>,
    message: String,
    error: Option<ErrorKind>,
}

impl View for Workflow {
    type V = WorkflowState;

    closed spec fn view(&self) -> WorkflowState {
        WorkflowState {
            step: self.step,
            commit_type: self.commit_type@,
            scope: self.scope@,
            description: self.description@,
            body: self.body@,
            footer: self.footer@,
            footer_kind: self.footer_kind,
            message: self.message@,
            error: self.error,
        }
    }
}

/// The state in which every run begins.
pub open spec fn initial_state() -> WorkflowState {
    WorkflowState {
        step: Step::CheckStaging,
        commit_type: Seq::empty(),
        scope: Seq::empty(),
        description: Seq::empty(),
        body: Seq::empty(),
        footer: Seq::empty(),
        footer_kind: None,
        message: Seq::empty(),
        error: None,
    }
}

/// Whether a run has ended at `step`.
pub open spec fn is_terminal(step: Step) -> bool {
    step == Step::Done || step == Step::Cancelled || step == Step::Failed
}

/// The place of a step in the order of a run. The two ways in which a run ends
/// early share the last place.
pub open spec fn rank(step: Step) -> nat {
    match step {
        Step::CheckStaging => 0,
        Step::StageConfirm => 1,
        Step::StageApply => 2,
        Step::SelectType => 3,
        Step::InputScope => 4,
        Step::InputDescription => 5,
        Step::InputBody => 6,
        Step::BodyEditorEscape => 7,
        Step::FooterConfirm => 8,
        Step::SelectFooterType => 9,
        Step::InputIssueNumber => 10,
        Step::Commit => 11,
        Step::Done => 12,
        Step::Cancelled => 13,
        Step::Failed => 13,
    }
}

/// The state with its message built from its parts, at the step `Commit`.
pub open spec fn with_message(state: WorkflowState) -> WorkflowState {
    WorkflowState {
        step: Step::Commit,
        message: message_text(
            state.commit_type,
            state.scope,
            state.description,
            state.body,
            state.footer,
        ),
        ..state
    }
}

/// The state after a reply at a step that awaits one.
pub open spec fn after_reply(state: WorkflowState, text: Seq<char>) -> WorkflowState {
    match state.step {
        Step::StageConfirm => WorkflowState {
            step: if confirmed(normalized(text), true) {
                Step::StageApply
            } else {
                Step::SelectType
            },
            ..state
        },
        Step::SelectType => match first_word(text) {
            Some(tag) => WorkflowState { step: Step::InputScope, commit_type: tag, ..state },
            None => WorkflowState { step: Step::Cancelled, ..state },
        },
        Step::InputScope => WorkflowState { step: Step::InputDescription, scope: text, ..state },
        Step::InputDescription => if text.len() == 0 {
            state
        } else {
            WorkflowState { step: Step::InputBody, description: text, ..state }
        },
        Step::InputBody => if normalized(text) == "e"@ {
            WorkflowState { step: Step::BodyEditorEscape, ..state }
        } else {
            WorkflowState { step: Step::FooterConfirm, body: text, ..state }
        },
        Step::BodyEditorEscape => WorkflowState { step: Step::FooterConfirm, body: text, ..state },
        Step::FooterConfirm => if confirmed(normalized(text), false) {
            WorkflowState { step: Step::SelectFooterType, ..state }
        } else {
            with_message(state)
        },
        Step::SelectFooterType => match footer_kind_named(text) {
            Some(kind) => WorkflowState {
                step: Step::InputIssueNumber,
                footer_kind: Some(kind),
                ..state
            },
            None => state,
        },
        Step::InputIssueNumber => match state.footer_kind {
            Some(kind) => if is_i32_text(trimmed(text)) {
                with_message(WorkflowState { footer: footer_text(kind, text), ..state })
            } else {
                state
            },
            None => state,
        },
        _ => state,
    }
}

/// Whether a reply fails the validation of the step that awaits it: an empty
/// description, a word that names no footer kind, an issue number that is no
/// integer.
pub open spec fn rejects(state: WorkflowState, text: Seq<char>) -> bool {
    match state.step {
        Step::InputDescription => text.len() == 0,
        Step::SelectFooterType => footer_kind_named(text).is_none(),
        Step::InputIssueNumber => !is_i32_text(trimmed(text)),
        _ => false,
    }
}

/// What `advance` answers to an event: a failure of validation for a reply
/// that the step of a running run rejects, and success for everything else.
pub open spec fn verdict(state: WorkflowState, event: EventView) -> Result<(), ErrorKind> {
    match event {
        EventView::Reply(text) => if !is_terminal(state.step) && rejects(state, text) {
            Err(ErrorKind::Validation)
        } else {
            Ok(())
        },
        _ => Ok(()),
    }
}

/// The state after an event. A run that has ended stays as it is. A
/// cancellation ends the run at any step, and so does a failure, but for one
/// of validation, which no step lets through. Every other event counts at the
/// steps that await it and changes nothing elsewhere.
pub open spec fn after(state: WorkflowState, event: EventView) -> WorkflowState {
    if is_terminal(state.step) {
        state
    } else {
        match event {
            EventView::Cancelled => WorkflowState { step: Step::Cancelled, ..state },
            EventView::Failed(kind) => if kind == ErrorKind::Validation {
                state
            } else {
                WorkflowState { step: Step::Failed, error: Some(kind), ..state }
            },
            EventView::Inspected(unstaged) => if state.step == Step::CheckStaging {
                WorkflowState {
                    step: if unstaged {
                        Step::StageConfirm
                    } else {
                        Step::SelectType
                    },
                    ..state
                }
            } else {
                state
            },
            EventView::Completed => if state.step == Step::StageApply {
                WorkflowState { step: Step::SelectType, ..state }
            } else if state.step == Step::Commit {
                WorkflowState { step: Step::Done, ..state }
            } else {
                state
            },
            EventView::Reply(text) => after_reply(state, text),
        }
    }
}

/// What holds of every state that a run can reach.
pub open spec fn well_formed(state: WorkflowState) -> bool {
    let step = state.step;
    &&& (rank(step) >= rank(Step::InputScope) && !(step == Step::Cancelled || step
        == Step::Failed)) ==> state.commit_type.len() > 0
    &&& (rank(step) >= rank(Step::InputBody) && !(step == Step::Cancelled || step
        == Step::Failed)) ==> state.description.len() > 0
    &&& step == Step::InputIssueNumber ==> state.footer_kind.is_some()
    &&& (step == Step::Commit || step == Step::Done) ==> state.message == message_text(
        state.commit_type,
        state.scope,
        state.description,
        state.body,
        state.footer,
    )
    &&& rank(step) < rank(Step::Commit) ==> state.message.len() == 0 && state.footer.len() == 0
    &&& (step == Step::Failed) == state.error.is_some()
    &&& state.error != Some(ErrorKind::Validation)
}

impl Workflow {
    /// A run at its first step, with nothing known yet.
    pub fn new() -> (workflow: Workflow)
        ensures
            workflow@ == initial_state(),
            well_formed(workflow@),
    {
        Workflow {
            step: Step::CheckStaging,
            commit_type: String::new(),
            scope: String::new(),
            description: String::new(),
            body: String::new(),
            footer: String::new(),
            footer_kind: None,
            message: String::new(),
            error: None,
        }
    }

    /// The step at which the run stands.
    pub fn step(&self) -> (step: Step)
        ensures
            step == self@.step,
    {
        self.step
    }

    /// Whether the run has ended.
    pub fn is_finished(&self) -> (finished: bool)
        ensures
            finished == is_terminal(self@.step),
    {
        match self.step {
            Step::Done | Step::Cancelled | Step::Failed => true,
            _ => false,
        }
    }

    /// The message of the commit: empty until the run reaches `Commit`.
    pub fn message(&self) -> (message: &str)
        ensures
            message@ == self@.message,
    {
        self.message.as_str()
    }

    /// The failure that ended the run, if one did.
    pub fn error(&self) -> (error: Option<ErrorKind>)
        ensures
            error == self@.error,
    {
        self.error
    }

    /// The type of the change, once it is selected.
    pub fn commit_type(&self) -> (text: &str)
        ensures
            text@ == self@.commit_type,
    {
        self.commit_type.as_str()
    }

    /// The scope, once it is entered.
    pub fn scope(&self) -> (text: &str)
        ensures
            text@ == self@.scope,
    {
        self.scope.as_str()
    }

    /// The description, once it is entered.
    pub fn description(&self) -> (text: &str)
        ensures
            text@ == self@.description,
    {
        self.description.as_str()
    }

    /// The body, once it is entered.
    pub fn body(&self) -> (text: &str)
        ensures
            text@ == self@.body,
    {
        self.body.as_str()
    }

    /// The footer, once it is built.
    pub fn footer(&self) -> (text: &str)
        ensures
            text@ == self@.footer,
    {
        self.footer.as_str()
    }

    /// Builds the message from the parts and moves to `Commit`.
    fn enter_commit(&mut self)
        ensures
            final(self)@ == with_message(old(self)@),
    {
        let message = build_commit_message(
            self.commit_type.as_str(),
            self.scope.as_str(),
            self.description.as_str(),
            self.body.as_str(),
            self.footer.as_str(),
        );
        self.message = message;
        self.step = Step::Commit;
    }

    /// Takes a reply at a step that awaits one. Answers whether the step
    /// accepted it.
    fn reply(&mut self, text: String) -> (accepted: bool)
        ensures
            final(self)@ == after_reply(old(self)@, text@),
            accepted == !rejects(old(self)@, text@),
    {
        match self.step {
            Step::StageConfirm => {
                if confirm_reply(text.as_str(), true) {
                    self.step = Step::StageApply;
                } else {
                    self.step = Step::SelectType;
                }
                true
            },
            Step::SelectType => {
                match first_word_of(text.as_str()) {
                    Some(tag) => {
                        self.commit_type = String::from_str(tag);
                        self.step = Step::InputScope;
                    },
                    None => {
                        self.step = Step::Cancelled;
                    },
                }
                true
            },
            Step::InputScope => {
                self.scope = text;
                self.step = Step::InputDescription;
                true
            },
            Step::InputDescription => {
                if is_valid_description(text.as_str()) {
                    self.description = text;
                    self.step = Step::InputBody;
                    true
                } else {
                    false
                }
            },
            Step::InputBody => {
                if wants_editor(text.as_str()) {
                    self.step = Step::BodyEditorEscape;
                } else {
                    self.body = text;
                    self.step = Step::FooterConfirm;
                }
                true
            },
            Step::BodyEditorEscape => {
                self.body = text;
                self.step = Step::FooterConfirm;
                true
            },
            Step::FooterConfirm => {
                if confirm_reply(text.as_str(), false) {
                    self.step = Step::SelectFooterType;
                } else {
                    self.enter_commit();
                }
                true
            },
            Step::SelectFooterType => {
                match FooterKind::from_label(text.as_str()) {
                    Some(kind) => {
                        self.footer_kind = Some(kind);
                        self.step = Step::InputIssueNumber;
                        true
                    },
                    None => false,
                }
            },
            Step::InputIssueNumber => {
                if is_valid_issue_number(text.as_str()) {
                    match self.footer_kind {
                        Some(kind) => {
                            self.footer = build_footer(kind, text.as_str());
                            self.enter_commit();
                        },
                        None => {},
                    }
                    true
                } else {
                    false
                }
            },
            _ => true,
        }
    }

    /// Takes an event and moves the run on. A reply that the step does not
    /// accept is answered with `ErrorKind::Validation` and changes nothing, so
    /// that the prompt can be shown again; an event that the step does not
    /// await changes nothing either.
    pub fn advance(&mut self, event: Event) -> (answer: Result<(), ErrorKind>)
        ensures
            final(self)@ == after(old(self)@, event@),
            answer == verdict(old(self)@, event@),
            well_formed(old(self)@) ==> well_formed(final(self)@),
    {
        proof {
            if well_formed(self@) {
                law_well_formed_kept(self@, event@);
            }
        }
        if self.is_finished() {
            return Ok(());
        }
        match event {
            Event::Cancelled => {
                self.step = Step::Cancelled;
                Ok(())
            },
            Event::Failed(kind) => {
                match kind {
                    ErrorKind::Validation => {},
                    _ => {
                        self.error = Some(kind);
                        self.step = Step::Failed;
                    },
                }
                Ok(())
            },
            Event::Inspected(unstaged) => {
                match self.step {
                    Step::CheckStaging => {
                        if unstaged {
                            self.step = Step::StageConfirm;
                        } else {
                            self.step = Step::SelectType;
                        }
                    },
                    _ => {},
                }
                Ok(())
            },
            Event::Completed => {
                match self.step {
                    Step::StageApply => {
                        self.step = Step::SelectType;
                    },
                    Step::Commit => {
                        self.step = Step::Done;
                    },
                    _ => {},
                }
                Ok(())
            },
            Event::Reply(text) => {
                if self.reply(text) {
                    Ok(())
                } else {
                    Err(ErrorKind::Validation)
                }
            },
        }
    }
}

/// Every event leaves a well-formed state well-formed. So when a run reaches
/// `Commit`, its type and its description are not empty and its message is
/// built from its parts.
pub proof fn law_well_formed_kept(state: WorkflowState, event: EventView)
    requires
        well_formed(state),
    ensures
        well_formed(after(state, event)),
{
    match event {
        EventView::Reply(text) => {
            if state.step == Step::SelectType {
                crate::text::law_first_word_shape(text);
            }
            if state.step == Step::InputIssueNumber && state.footer_kind.is_some() {
                crate::prompt::law_footer_shape(state.footer_kind.unwrap(), text);
            }
        },
        _ => {},
    }
}

/// The steps are taken in one order: an event moves a run forward or leaves
/// the state as it is, never back.
pub proof fn law_steps_in_order(state: WorkflowState, event: EventView)
    ensures
        after(state, event) == state || rank(after(state, event).step) > rank(state.step),
{
}

/// A run that has ended takes no further step, whatever it is told.
pub proof fn law_ended_run_stays(state: WorkflowState, event: EventView)
    requires
        is_terminal(state.step),
    ensures
        after(state, event) == state,
{
}

/// A cancellation ends a run that has not ended yet, with no message built
/// beyond what was there; and `Done` is reached from `Commit` alone, by the
/// end of the commit. So a cancelled run never reports a commit.
pub proof fn law_cancellation_ends_run(state: WorkflowState, event: EventView)
    ensures
        !is_terminal(state.step) ==> after(state, EventView::Cancelled) == (WorkflowState {
            step: Step::Cancelled,
            ..state
        }),
        after(state, event).step == Step::Done ==> state.step == Step::Done || (state.step
            == Step::Commit && event == EventView::Completed),
{
}

/// A failure other than one of validation ends a run that has not ended yet
/// and is kept as its error; a failure of validation never ends a run.
pub proof fn law_failure_ends_run(state: WorkflowState, kind: ErrorKind)
    ensures
        !is_terminal(state.step) && kind != ErrorKind::Validation ==> after(
            state,
            EventView::Failed(kind),
        ) == (WorkflowState { step: Step::Failed, error: Some(kind), ..state }),
        after(state, EventView::Failed(ErrorKind::Validation)) == state,
{
}

/// A failure of validation stays at the prompt: the event that is answered
/// with it leaves the state as it was, and no run ends with it as its error.
pub proof fn law_validation_stays_at_prompt(state: WorkflowState, event: EventView)
    requires
        well_formed(state),
    ensures
        verdict(state, event).is_err() ==> after(state, event) == state,
        after(state, event).error != Some(ErrorKind::Validation),
{
    law_well_formed_kept(state, event);
}

/// An issue number that is no integer is not accepted: the run stays at the
/// prompt, with no footer and no message. One that is an integer gives the
/// footer of the selected kind and, with it, the message.
pub proof fn law_issue_number_validated(state: WorkflowState, text: Seq<char>)
    requires
        state.step == Step::InputIssueNumber,
        state.footer_kind.is_some(),
    ensures
        !is_i32_text(trimmed(text)) ==> after(state, EventView::Reply(text)) == state,
        is_i32_text(trimmed(text)) ==> {
            let next = after(state, EventView::Reply(text));
            &&& next.step == Step::Commit
            &&& next.footer == footer_text(state.footer_kind.unwrap(), text)
            &&& next.message == message_text(
                state.commit_type,
                state.scope,
                state.description,
                state.body,
                footer_text(state.footer_kind.unwrap(), text),
            )
        },
{
}

/// Selecting a display line of the catalog selects its tag: for a tag that is
/// not empty and holds no white space, the run takes the tag as the type of
/// the change.
pub proof fn law_display_line_selects_tag(
    state: WorkflowState,
    tag: Seq<char>,
    description: Seq<char>,
    widest: nat,
)
    requires
        state.step == Step::SelectType,
        tag.len() > 0,
        forall|i: int| 0 <= i < tag.len() ==> !white_space(#[trigger] tag[i]),
    ensures
        after(state, EventView::Reply(line_text(tag, description, widest))) == (WorkflowState {
            step: Step::InputScope,
            commit_type: tag,
            ..state
        }),
{
    let line = line_text(tag, description, widest);
    let end = tag.len() as int;
    assert(line[0] == tag[0]);
    assert forall|i: int| 0 <= i < end implies !white_space(#[trigger] line[i]) by {
        assert(line[i] == tag[i]);
    }
    assert(line[end] == ' ');
    lemma_skip_word_stops(line, 0, end);
    assert(line.subrange(0, end) =~= tag);
}

/// The state after a row of replies, taken one after the other.
pub open spec fn after_replies(state: WorkflowState, texts: Seq<Seq<char>>) -> WorkflowState
    decreases texts.len(),
{
    if texts.len() == 0 {
        state
    } else {
        after(after_replies(state, texts.drop_last()), EventView::Reply(texts.last()))
    }
}

/// Issue numbers that are no integers leave no trace, however many are
/// entered: the run stays at the prompt with no footer and no message. The
/// first text that writes an integer is then taken as it was entered, and the
/// message is built with the footer that names it and with no other.
pub proof fn law_issue_numbers_until_accepted(
    state: WorkflowState,
    rejected: Seq<Seq<char>>,
    accepted: Seq<char>,
)
    requires
        state.step == Step::InputIssueNumber,
        state.footer_kind.is_some(),
        forall|i: int| 0 <= i < rejected.len() ==> !is_i32_text(trimmed(#[trigger] rejected[i])),
        is_i32_text(accepted),
    ensures
        after_replies(state, rejected) == state,
        after_replies(state, rejected.push(accepted)) == with_message(
            WorkflowState { footer: footer_text(state.footer_kind.unwrap(), accepted), ..state },
        ),
    decreases rejected.len(),
{
    if rejected.len() > 0 {
        let before = rejected.drop_last();
        assert forall|i: int| 0 <= i < before.len() implies !is_i32_text(
            trimmed(#[trigger] before[i]),
        ) by {
            assert(before[i] == rejected[i]);
        }
        law_issue_numbers_until_accepted(state, before, accepted);
        assert(!is_i32_text(trimmed(rejected[rejected.len() - 1])));
    }
    law_integer_text_is_trimmed(accepted);
    assert(rejected.push(accepted).drop_last() =~= rejected);
}

} // verus!
