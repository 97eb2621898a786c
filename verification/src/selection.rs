//! The selection flow: a bounded wait for one menu choice, a
//! direct-message confirmation, and an in-place prompt update.
//!
//! The event loop drives the flow in two steps.  It first shows the
//! ephemeral prompt with the ten options and waits up to
//! [`SELECTION_TIMEOUT_SECS`] for a component interaction; the wait's
//! outcome is handed to [`decide_selection`].  When a value was chosen,
//! the loop attempts the direct message and hands the delivery result to
//! [`decide_after_delivery`]; the notice it returns replaces the prompt,
//! menu removed.  [`spec_flow`] is the end-to-end model of one
//! invocation, over which the flow's laws are stated.

use crate::messages::{
    confirm_spec, confirmation_text, digit_content, label, lemma_confirmation_digits,
    lemma_labels_injective, spec_label,
};
use vstd::prelude::*;
use vstd::string::StringExecFns;

verus! {

/// How long the flow waits for the user's choice, in seconds.
pub const SELECTION_TIMEOUT_SECS: u64 = 60;

/// The payload of a component interaction, as the flow reads it.
#[derive(Debug, PartialEq, Eq)]
pub enum ComponentPayload {
    /// A string-select widget reported the listed chosen values.
    StringSelect { values: Vec<String> },
    /// Any other payload shape.
    Other,
}

/// Specification-level image of a payload.
pub enum PayloadModel {
    StringSelect { values: Seq<Seq<char>> },
    Other,
}

impl View for ComponentPayload {
    type V = PayloadModel;

    open spec fn view(&self) -> PayloadModel {
        match self {
            ComponentPayload::StringSelect { values } => (PayloadModel::StringSelect {
                values: values.deep_view(),
            }),
            ComponentPayload::Other => PayloadModel::Other,
        }
    }
}

/// Why the flow fails rather than completes.
#[derive(Clone, Copy, Debug, PartialEq, Eq, Structural)]
pub enum FlowError {
    /// The interaction's payload was not a string selection carrying at
    /// least one value.
    MalformedPayload,
}

/// The text of each flow error, as handed to the dispatcher.
pub open spec fn flow_error_spec(e: FlowError) -> Seq<char> {
    match e {
        FlowError::MalformedPayload => "Unexpected interaction data kind"@,
    }
}

impl FlowError {
    /// A short description of the failure.
    pub fn describe(&self) -> (r: String)
        ensures
            r@ == flow_error_spec(*self),
    {
        match self {
            FlowError::MalformedPayload => String::from_str("Unexpected interaction data kind"),
        }
    }
}

/// The decision taken on the outcome of the bounded wait.
#[derive(Debug, PartialEq, Eq)]
pub enum SelectionStep {
    /// No selection arrived in time; the prompt gets the timeout notice.
    TimedOut,
    /// The user chose `value`; a direct-message confirmation follows.
    Chosen { value: String },
}

/// Specification-level image of a selection step.
pub enum StepModel {
    TimedOut,
    Chosen { value: Seq<char> },
}

impl View for SelectionStep {
    type V = StepModel;

    open spec fn view(&self) -> StepModel {
        match self {
            SelectionStep::TimedOut => StepModel::TimedOut,
            SelectionStep::Chosen { value } => (StepModel::Chosen { value: value@ }),
        }
    }
}

/// The in-place update that ends the flow, with the menu removed.
#[derive(Clone, Copy, Debug, PartialEq, Eq, Structural)]
pub enum PromptNotice {
    /// The wait elapsed without a selection.
    Timeout,
    /// The confirmation was delivered in a direct message.
    DeliverySucceeded,
    /// The direct message could not be delivered.
    DeliveryFailed,
}

/// The wait's outcome, at specification level: `None` is an elapsed
/// timeout, `Some` carries the payload that arrived.
pub open spec fn wait_model(o: Option<ComponentPayload>) -> Option<PayloadModel> {
    match o {
        Option::None => Option::None,
        Option::Some(p) => Option::Some(p@),
    }
}

/// Specification-level image of a step result.
pub open spec fn step_result_model(r: Result<SelectionStep, FlowError>) -> Result<
    StepModel,
    FlowError,
> {
    match r {
        Result::Ok(s) => Result::Ok(s@),
        Result::Err(e) => Result::Err(e),
    }
}

/// The decision on a wait outcome: an elapsed timeout ends the flow on
/// the timeout branch; a string selection with at least one value is
/// resolved to its first value; anything else is a malformed payload.
pub open spec fn spec_decide_selection(o: Option<PayloadModel>) -> Result<StepModel, FlowError> {
    match o {
        Option::None => Result::Ok(StepModel::TimedOut),
        Option::Some(p) => match p {
            PayloadModel::StringSelect { values } => if values.len() >= 1 {
                Result::Ok(StepModel::Chosen { value: values[0] })
            } else {
                Result::Err(FlowError::MalformedPayload)
            },
            PayloadModel::Other => Result::Err(FlowError::MalformedPayload),
        },
    }
}

/// Decides the flow's branch from the outcome of the bounded wait.
///
/// Only the first chosen value is used even if the widget were to report
/// several; the menu offered here is single-select, so this is purely
/// defensive.
pub fn decide_selection(outcome: &Option<ComponentPayload>) -> (r: Result<
    SelectionStep,
    FlowError,
>)
    ensures
        step_result_model(r) == spec_decide_selection(wait_model(*outcome)),
{
    match outcome {
        Option::None => Result::Ok(SelectionStep::TimedOut),
        Option::Some(ComponentPayload::StringSelect { values }) => {
            if values.len() >= 1 {
                Result::Ok(SelectionStep::Chosen { value: values[0].clone() })
            } else {
                Result::Err(FlowError::MalformedPayload)
            }
        },
        Option::Some(ComponentPayload::Other) => Result::Err(FlowError::MalformedPayload),
    }
}

/// The notice decided by a delivery attempt's result.
pub open spec fn spec_notice_after_delivery(delivered: bool) -> PromptNotice {
    if delivered {
        PromptNotice::DeliverySucceeded
    } else {
        PromptNotice::DeliveryFailed
    }
}

/// Decides the prompt's final notice from the direct-message delivery
/// result: success and failure each get their own notice, nothing else.
pub fn decide_after_delivery(delivered: bool) -> (r: PromptNotice)
    ensures
        r == spec_notice_after_delivery(delivered),
{
    if delivered {
        PromptNotice::DeliverySucceeded
    } else {
        PromptNotice::DeliveryFailed
    }
}

/// The text of each notice (Japanese: "It timed out. Please try
/// again.", "I sent you a DM! Please check it.", "The DM could not be
/// sent.").
pub open spec fn notice_spec(n: PromptNotice) -> Seq<char> {
    match n {
        PromptNotice::Timeout => "\u{30BF}\u{30A4}\u{30E0}\u{30A2}\u{30A6}\u{30C8}\u{3057}\u{307E}\u{3057}\u{305F}\u{3002}\u{3082}\u{3046}\u{4E00}\u{5EA6}\u{8A66}\u{3057}\u{3066}\u{304F}\u{3060}\u{3055}\u{3044}\u{3002}"@,
        PromptNotice::DeliverySucceeded => "DM\u{3092}\u{9001}\u{4FE1}\u{3057}\u{307E}\u{3057}\u{305F}\u{FF01}\u{3054}\u{78BA}\u{8A8D}\u{304F}\u{3060}\u{3055}\u{3044}\u{3002}"@,
        PromptNotice::DeliveryFailed => "DM\u{304C}\u{9001}\u{4FE1}\u{3067}\u{304D}\u{307E}\u{305B}\u{3093}\u{3067}\u{3057}\u{305F}\u{3002}"@,
    }
}

/// Builds the text of a notice.
pub fn notice_text(n: PromptNotice) -> (r: String)
    ensures
        r@ == notice_spec(n),
{
    match n {
        PromptNotice::Timeout => String::from_str(
            "\u{30BF}\u{30A4}\u{30E0}\u{30A2}\u{30A6}\u{30C8}\u{3057}\u{307E}\u{3057}\u{305F}\u{3002}\u{3082}\u{3046}\u{4E00}\u{5EA6}\u{8A66}\u{3057}\u{3066}\u{304F}\u{3060}\u{3055}\u{3044}\u{3002}",
        ),
        PromptNotice::DeliverySucceeded => String::from_str(
            "DM\u{3092}\u{9001}\u{4FE1}\u{3057}\u{307E}\u{3057}\u{305F}\u{FF01}\u{3054}\u{78BA}\u{8A8D}\u{304F}\u{3060}\u{3055}\u{3044}\u{3002}",
        ),
        PromptNotice::DeliveryFailed => String::from_str(
            "DM\u{304C}\u{9001}\u{4FE1}\u{3067}\u{304D}\u{307E}\u{305B}\u{3093}\u{3067}\u{3057}\u{305F}\u{3002}",
        ),
    }
}

/// The content of the ephemeral prompt that carries the menu (Japanese:
/// "Please choose a number from 1 to 10!").
pub fn prompt_text() -> (r: String)
    ensures
        r@ == "1\u{FF5E}10\u{306E}\u{6570}\u{5B57}\u{3092}\u{9078}\u{3093}\u{3067}\u{304F}\u{3060}\u{3055}\u{3044}\u{FF01}"@,
{
    String::from_str(
        "1\u{FF5E}10\u{306E}\u{6570}\u{5B57}\u{3092}\u{9078}\u{3093}\u{3067}\u{304F}\u{3060}\u{3055}\u{3044}\u{FF01}",
    )
}

/// The prompt's visibility: it is always ephemeral, shown to the
/// invoking user alone and never to other users.
pub fn prompt_ephemeral() -> (r: bool)
    ensures
        r,
{
    true
}

/// The menu's placeholder line (the prompt's text without the closing
/// exclamation mark).
pub fn menu_placeholder() -> (r: String)
    ensures
        r@ == "1\u{FF5E}10\u{306E}\u{6570}\u{5B57}\u{3092}\u{9078}\u{3093}\u{3067}\u{304F}\u{3060}\u{3055}\u{3044}"@,
{
    String::from_str(
        "1\u{FF5E}10\u{306E}\u{6570}\u{5B57}\u{3092}\u{9078}\u{3093}\u{3067}\u{304F}\u{3060}\u{3055}\u{3044}",
    )
}

/// The identifier that ties the menu's interactions to this flow.
pub fn menu_custom_id() -> (r: String)
    ensures
        r@ == "number_select"@,
{
    String::from_str("number_select")
}

/// The ten offered options, in order: the labels of 1 through 10.
pub fn menu_options() -> (r: Vec<String>)
    ensures
        r@.len() == 10,
        forall|i: int| 0 <= i < 10 ==> r@[i]@ == spec_label(i + 1),
{
    let mut v: Vec<String> = Vec::new();
    let mut n: u8 = 1;
    while n <= 10
        invariant
            1 <= n <= 11,
            v@.len() == n - 1,
            forall|i: int| 0 <= i < n - 1 ==> v@[i]@ == spec_label(i + 1),
        decreases 11 - n,
    {
        v.push(label(n));
        n = n + 1;
    }
    v
}

/// The declared shape of a slash command: its name and description, as
/// handed to the platform on startup.
pub struct CommandSpec {
    pub name: String,
    pub description: String,
}

/// Declares the selection command.
pub fn register() -> (r: CommandSpec)
    ensures
        r.name@ == "select"@,
        r.description@ == "choose a number between 1 and 10."@,
{
    CommandSpec {
        name: String::from_str("select"),
        description: String::from_str("choose a number between 1 and 10."),
    }
}

/// The observable outcome of one complete invocation: the direct message
/// that was attempted, if any, and the single notice that replaced the
/// prompt.
pub struct FlowSummary {
    /// The confirmation text handed to the delivery attempt, or `None`
    /// when no selection was made.
    pub dm_attempt: Option<Seq<char>>,
    /// The one in-place update of the prompt.
    pub notice: PromptNotice,
}

/// One invocation end to end: the wait's outcome decides the branch, and
/// on the chosen branch the delivery result decides the final notice.
pub open spec fn spec_flow(o: Option<PayloadModel>, delivered: bool) -> Result<
    FlowSummary,
    FlowError,
> {
    match spec_decide_selection(o) {
        Result::Ok(StepModel::TimedOut) => Result::Ok(
            FlowSummary { dm_attempt: Option::None, notice: PromptNotice::Timeout },
        ),
        Result::Ok(StepModel::Chosen { value }) => Result::Ok(
            FlowSummary {
                dm_attempt: Option::Some(confirm_spec(value)),
                notice: spec_notice_after_delivery(delivered),
            },
        ),
        Result::Err(e) => Result::Err(e),
    }
}

/// Law: with no selection before the deadline the flow always reaches
/// the timeout branch: no direct message is attempted and the prompt
/// gets the timeout notice, never a success or failure notice.
pub proof fn lemma_timeout_branch(delivered: bool)
    ensures
        spec_flow(Option::None, delivered) == Result::Ok::<FlowSummary, FlowError>(
            FlowSummary { dm_attempt: Option::None, notice: PromptNotice::Timeout },
        ),
{
}

/// Law: when direct-message delivery fails, the prompt always gets the
/// failure notice on the chosen branch, and the success notice is never
/// shown.
pub proof fn lemma_failed_delivery_notice(o: Option<PayloadModel>)
    ensures
        spec_flow(o, false) matches Result::Ok(s) ==> s.notice != PromptNotice::DeliverySucceeded,
        spec_flow(o, false) matches Result::Ok(s) ==> (s.dm_attempt is Some ==> s.notice
            == PromptNotice::DeliveryFailed),
{
}

/// Law: selecting the offered value `n` yields a confirmation carrying
/// exactly that value: the flow completes, the digit characters of the
/// attempted direct message are exactly `n`'s label, and they are not
/// the label of any other offered value `m`.
pub proof fn lemma_selection_confirms_exactly(n: int, m: int, delivered: bool)
    requires
        1 <= n <= 10,
        1 <= m <= 10,
        n != m,
    ensures
        spec_flow(
            Option::Some(PayloadModel::StringSelect { values: seq![spec_label(n)] }),
            delivered,
        ) matches Result::Ok(s) && (s.dm_attempt matches Some(t) && digit_content(t)
            == spec_label(n) && digit_content(t) != spec_label(m)),
{
    lemma_confirmation_digits(n);
    lemma_labels_injective(n, m);
}

/// Law: a payload that is not a string selection carrying at least one
/// value always yields the malformed-payload error, and a completed flow
/// never carries a value other than the payload's first: the flow cannot
/// resolve to a silently wrong selection.
pub proof fn lemma_malformed_payload(p: PayloadModel, delivered: bool)
    ensures
        (spec_flow(Option::Some(p), delivered) matches Result::Err(
            FlowError::MalformedPayload,
        )) <==> !(p matches PayloadModel::StringSelect { values } && values.len() >= 1),
        spec_flow(Option::Some(p), delivered) matches Result::Ok(s) ==> (p matches
            PayloadModel::StringSelect { values } && values.len() >= 1 && s.dm_attempt
            == Option::Some(confirm_spec(values[0]))),
{
}

} // verus!
