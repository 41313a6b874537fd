//! The grading client: what to ask of a provider, what to make of its
//! answer, and when to turn to the second provider.
//!
//! The calls themselves are made by the caller. The client says which
//! request comes next and takes what the call gave.

use vstd::prelude::*;
use vstd::string::StringExecFns;
use crate::aggregate::all_in_range;
use crate::error::{AppError, AppErrorView};
use crate::feedback::{feedback_of_reply, parse_ai_feedback};
use crate::json::{json_pretty, json_reading, Json, JsonView};
use crate::models::{answers_view, feedback_views, QuestionFeedback, QuestionFeedbackView};

verus! {

/// The two providers, in the order in which they are tried.
#[derive(Clone, Copy, Debug, PartialEq, Eq, Structural)]
pub enum Provider {
    Primary,
    Secondary,
}

/// The name under which the results show a provider.
pub open spec fn provider_name(provider: Provider) -> Seq<char> {
    match provider {
        Provider::Primary => "OpenAI o1-mini"@,
        Provider::Secondary => "Gemini 2.5 Pro"@,
    }
}

impl Provider {
    /// The name under which the results show the provider.
    pub fn name(&self) -> (r: String)
        ensures
            r@ == provider_name(*self),
    {
        match self {
            Provider::Primary => String::from_str("OpenAI o1-mini"),
            Provider::Secondary => String::from_str("Gemini 2.5 Pro"),
        }
    }
}

/// One request to a provider.
#[derive(Clone, Debug, PartialEq, Eq)]
pub struct ProviderRequest {
    pub provider: Provider,
    /// The marking guidelines, where they travel apart from the prompt.
    pub system: Option<String>,
    pub prompt: String,
}

/// A `ProviderRequest` as plain values.
pub struct ProviderRequestView {
    pub provider: Provider,
    pub system: Option<Seq<char>>,
    pub prompt: Seq<char>,
}

impl View for ProviderRequest {
    type V = ProviderRequestView;

    open spec fn view(&self) -> ProviderRequestView {
        ProviderRequestView {
            provider: self.provider,
            system: match self.system {
                Some(s) => Some(s@),
                None => None,
            },
            prompt: self.prompt@,
        }
    }
}

/// What a call to a provider gave.
#[derive(Clone, Debug, PartialEq, Eq)]
pub enum ProviderOutcome {
    /// The body of a response with a success status.
    Body(String),
    /// The call failed in transport, or came back without success.
    Failure(String),
}

/// A `ProviderOutcome` as plain values.
pub enum ProviderOutcomeView {
    Body(Seq<char>),
    Failure(Seq<char>),
}

impl View for ProviderOutcome {
    type V = ProviderOutcomeView;

    open spec fn view(&self) -> ProviderOutcomeView {
        match self {
            ProviderOutcome::Body(b) => ProviderOutcomeView::Body(b@),
            ProviderOutcome::Failure(m) => ProviderOutcomeView::Failure(m@),
        }
    }
}

/// The member `key` of a value that may be missing.
pub open spec fn member_of(value: Option<JsonView>, key: Seq<char>) -> Option<JsonView> {
    match value {
        Some(v) => v.member(key),
        None => None,
    }
}

/// The element `index` of a value that may be missing.
pub open spec fn element_of(value: Option<JsonView>, index: int) -> Option<JsonView> {
    match value {
        Some(v) => v.element(index),
        None => None,
    }
}

/// The text of a value that may be missing.
pub open spec fn text_of_value(value: Option<JsonView>) -> Option<Seq<char>> {
    match value {
        Some(v) => v.text(),
        None => None,
    }
}

/// The reply in a response of the primary provider: the text at
/// `choices[0].message.content`.
pub open spec fn primary_content(doc: JsonView) -> Option<Seq<char>> {
    text_of_value(
        member_of(member_of(element_of(doc.member("choices"@), 0), "message"@), "content"@),
    )
}

/// The reply in a response of the secondary provider: the text at
/// `candidates[0].content.parts[0].text`.
pub open spec fn secondary_content(doc: JsonView) -> Option<Seq<char>> {
    text_of_value(
        member_of(
            element_of(
                member_of(member_of(element_of(doc.member("candidates"@), 0), "content"@), "parts"@),
                0,
            ),
            "text"@,
        ),
    )
}

/// The reply that a call to `provider` gave, if it gave one: the call
/// succeeded, its body reads as JSON, and the reply stands where the
/// provider puts it. A response without a reply in that place gave none,
/// whichever provider sent it.
pub open spec fn reply_content(provider: Provider, outcome: ProviderOutcomeView) -> Option<Seq<char>> {
    match outcome {
        ProviderOutcomeView::Failure(_) => None,
        ProviderOutcomeView::Body(body) => match json_reading(body) {
            None => None,
            Some(doc) => match provider {
                Provider::Primary => primary_content(doc),
                Provider::Secondary => secondary_content(doc),
            },
        },
    }
}

/// Why a call that gave no reply counts as failed.
pub open spec fn failure_reason(outcome: ProviderOutcomeView) -> Seq<char> {
    match outcome {
        ProviderOutcomeView::Failure(reason) => reason,
        ProviderOutcomeView::Body(_) => "provider response could not be read"@,
    }
}

/// The opening of the grading prompt, up to the question id.
pub open spec fn prompt_opening() -> Seq<char> {
    "Grade the following HSC Chemistry response:\n\nQuestion ID: "@
}

/// The words between the question id and the answer.
pub open spec fn prompt_answer_heading() -> Seq<char> {
    "\nStudent Response: "@
}

/// The close of the grading prompt: what to provide, and in which shape.
pub open spec fn prompt_instructions() -> Seq<char> {
    "\n\nPlease provide:\n1. A score out of the maximum marks for this question\n2. Specific feedback on strengths and areas for improvement\n3. Band estimate if applicable\n4. Suggestions for improvement\n\nFormat your response as JSON with the following structure:\n{\n\"score\": <number>,\n\"max_score\": <number>,\n\"feedback\": \"<detailed feedback>\",\n\"strengths\": [\"<strength1>\", \"<strength2>\"],\n\"improvements\": [\"<improvement1>\", \"<improvement2>\"],\n\"band_estimate\": \"<band>\"\n}"@
}

/// The grading prompt for one answer, given the answer as text.
pub open spec fn grading_prompt(question_id: Seq<char>, answer: Seq<char>) -> Seq<char> {
    prompt_opening() + question_id + prompt_answer_heading() + answer + prompt_instructions()
}

/// The prompt for the secondary provider, which carries the guidelines
/// itself: the guidelines, a blank line, and the grading prompt as the
/// primary provider gets it, with the same description of the reply.
pub open spec fn secondary_prompt(guidelines: Seq<char>, question_id: Seq<char>, answer: Seq<char>) -> Seq<
    char,
> {
    guidelines + "\n\n"@ + grading_prompt(question_id, answer)
}

/// An answer as the text that goes into a prompt; the empty text where it
/// cannot be written as JSON.
pub open spec fn answer_text(answer: JsonView) -> Seq<char> {
    match json_pretty(answer) {
        Some(text) => text,
        None => Seq::empty(),
    }
}

/// The request that asks the primary provider to grade `answer`: the
/// guidelines beside the grading prompt.
pub open spec fn primary_request(
    guidelines: Seq<char>,
    question_id: Seq<char>,
    answer: JsonView,
) -> ProviderRequestView {
    ProviderRequestView {
        provider: Provider::Primary,
        system: Some(guidelines),
        prompt: grading_prompt(question_id, answer_text(answer)),
    }
}

/// The request that asks the secondary provider to grade `answer`: the
/// guidelines and the grading prompt in one text.
pub open spec fn secondary_request(
    guidelines: Seq<char>,
    question_id: Seq<char>,
    answer: JsonView,
) -> ProviderRequestView {
    ProviderRequestView {
        provider: Provider::Secondary,
        system: None,
        prompt: secondary_prompt(guidelines, question_id, answer_text(answer)),
    }
}

/// What follows one call: the feedback it led to, the turn to the
/// secondary provider, or the failure of the question.
#[derive(Debug, PartialEq)]
pub enum CallVerdict {
    /// The reply was graded; `provider` is the one that gave it.
    Graded { feedback: QuestionFeedback, provider: Provider },
    TrySecondary,
    Failed(AppError),
}

/// A `CallVerdict` as plain values.
pub enum CallVerdictView {
    Graded { feedback: QuestionFeedbackView, provider: Provider },
    TrySecondary,
    Failed(AppErrorView),
}

impl View for CallVerdict {
    type V = CallVerdictView;

    open spec fn view(&self) -> CallVerdictView {
        match self {
            CallVerdict::Graded { feedback, provider } => CallVerdictView::Graded {
                feedback: feedback@,
                provider: *provider,
            },
            CallVerdict::TrySecondary => CallVerdictView::TrySecondary,
            CallVerdict::Failed(e) => CallVerdictView::Failed(e@),
        }
    }
}

/// The verdict on a call, given the reply it gave, if any. A reply is
/// graded the same way whoever gave it, and the verdict names the
/// provider that gave it. Without a reply the primary provider is followed
/// by the secondary, once, and the secondary by failure.
pub open spec fn verdict_for(
    provider: Provider,
    content: Option<Seq<char>>,
    reason: Seq<char>,
) -> CallVerdictView {
    match content {
        Some(text) => CallVerdictView::Graded { feedback: feedback_of_reply(text), provider },
        None => match provider {
            Provider::Primary => CallVerdictView::TrySecondary,
            Provider::Secondary => CallVerdictView::Failed(AppErrorView::AiProvider(reason)),
        },
    }
}

/// The verdict on a call to `provider` that gave `outcome`.
pub open spec fn verdict_of(provider: Provider, outcome: ProviderOutcomeView) -> CallVerdictView {
    verdict_for(provider, reply_content(provider, outcome), failure_reason(outcome))
}

/// The grading prompt for the answer to `question_id`, given the answer
/// as text.
pub fn grading_prompt_for(question_id: &str, answer: &str) -> (r: String)
    ensures
        r@ == grading_prompt(question_id@, answer@),
{
    let mut prompt = String::from_str("Grade the following HSC Chemistry response:\n\nQuestion ID: ");
    prompt.append(question_id);
    prompt.append("\nStudent Response: ");
    prompt.append(answer);
    prompt.append(
        "\n\nPlease provide:\n1. A score out of the maximum marks for this question\n2. Specific feedback on strengths and areas for improvement\n3. Band estimate if applicable\n4. Suggestions for improvement\n\nFormat your response as JSON with the following structure:\n{\n\"score\": <number>,\n\"max_score\": <number>,\n\"feedback\": \"<detailed feedback>\",\n\"strengths\": [\"<strength1>\", \"<strength2>\"],\n\"improvements\": [\"<improvement1>\", \"<improvement2>\"],\n\"band_estimate\": \"<band>\"\n}",
    );
    prompt
}

/// The prompt for the secondary provider, given the answer as text.
pub fn secondary_prompt_for(guidelines: &str, question_id: &str, answer: &str) -> (r: String)
    ensures
        r@ == secondary_prompt(guidelines@, question_id@, answer@),
{
    let grading = grading_prompt_for(question_id, answer);
    let mut prompt = String::from_str(guidelines);
    prompt.append("\n\n");
    prompt.append(grading.as_str());
    prompt
}

fn get_member<'a>(value: Option<&'a Json>, key: &str) -> (r: Option<&'a Json>)
    ensures
        match r {
            Some(v) => member_of(
                match value {
                    Some(x) => Some(x@),
                    None => None,
                },
                key@,
            ) == Some(v@),
            None => member_of(
                match value {
                    Some(x) => Some(x@),
                    None => None,
                },
                key@,
            ) is None,
        },
{
    match value {
        Some(v) => v.get(key),
        None => None,
    }
}

fn get_element<'a>(value: Option<&'a Json>, index: usize) -> (r: Option<&'a Json>)
    ensures
        match r {
            Some(v) => element_of(
                match value {
                    Some(x) => Some(x@),
                    None => None,
                },
                index as int,
            ) == Some(v@),
            None => element_of(
                match value {
                    Some(x) => Some(x@),
                    None => None,
                },
                index as int,
            ) is None,
        },
{
    match value {
        Some(v) => v.at(index),
        None => None,
    }
}

fn get_text(value: Option<&Json>) -> (r: Option<String>)
    ensures
        match r {
            Some(s) => text_of_value(
                match value {
                    Some(x) => Some(x@),
                    None => None,
                },
            ) == Some(s@),
            None => text_of_value(
                match value {
                    Some(x) => Some(x@),
                    None => None,
                },
            ) is None,
        },
{
    match value {
        Some(Json::Text(s)) => Some(s.clone()),
        _ => None,
    }
}

/// The reply in a response of the primary provider.
pub fn primary_reply_text(doc: &Json) -> (r: Option<String>)
    ensures
        match r {
            Some(s) => primary_content(doc@) == Some(s@),
            None => primary_content(doc@) is None,
        },
{
    let choices = doc.get("choices");
    let first = get_element(choices, 0);
    let message = get_member(first, "message");
    let content = get_member(message, "content");
    get_text(content)
}

/// The reply in a response of the secondary provider.
pub fn secondary_reply_text(doc: &Json) -> (r: Option<String>)
    ensures
        match r {
            Some(s) => secondary_content(doc@) == Some(s@),
            None => secondary_content(doc@) is None,
        },
{
    let candidates = doc.get("candidates");
    let first = get_element(candidates, 0);
    let content = get_member(first, "content");
    let parts = get_member(content, "parts");
    let part = get_element(parts, 0);
    let text = get_member(part, "text");
    get_text(text)
}

/// The reply that a call to `provider` gave, if it gave one.
pub fn read_reply(provider: Provider, outcome: &ProviderOutcome) -> (r: Option<String>)
    ensures
        match r {
            Some(s) => reply_content(provider, outcome@) == Some(s@),
            None => reply_content(provider, outcome@) is None,
        },
{
    match outcome {
        ProviderOutcome::Failure(_) => None,
        ProviderOutcome::Body(body) => match Json::parse(body.as_str()) {
            None => None,
            Some(doc) => match provider {
                Provider::Primary => primary_reply_text(&doc),
                Provider::Secondary => secondary_reply_text(&doc),
            },
        },
    }
}

/// The verdict on a call to `provider`, given the reply `content` that it
/// gave, if any, and otherwise the `reason` why it gave none.
pub fn judge_reply(provider: Provider, content: Option<&str>, reason: &str) -> (r: CallVerdict)
    ensures
        r@ == verdict_for(
            provider,
            match content {
                Some(text) => Some(text@),
                None => None,
            },
            reason@,
        ),
        r matches CallVerdict::Graded { feedback, .. } ==> feedback.in_range(),
{
    match content {
        Some(text) => CallVerdict::Graded { feedback: parse_ai_feedback(text), provider },
        None => match provider {
            Provider::Primary => CallVerdict::TrySecondary,
            Provider::Secondary => CallVerdict::Failed(AppError::AiProvider(reason.to_owned())),
        },
    }
}

/// The verdict on a call to `provider` that gave `outcome`.
pub fn judge_call(provider: Provider, outcome: &ProviderOutcome) -> (r: CallVerdict)
    ensures
        r@ == verdict_of(provider, outcome@),
        r matches CallVerdict::Graded { feedback, .. } ==> feedback.in_range(),
{
    let reason = match outcome {
        ProviderOutcome::Failure(reason) => reason.clone(),
        ProviderOutcome::Body(_) => String::from_str("provider response could not be read"),
    };
    match read_reply(provider, outcome) {
        Some(text) => judge_reply(provider, Some(text.as_str()), reason.as_str()),
        None => judge_reply(provider, None, reason.as_str()),
    }
}

/// The grading of the written answers of one submission, while a call to
/// a provider is awaited.
#[derive(Debug, PartialEq)]
pub struct ResponseGrading {
    questions: Vec<(String, Json)>,
    position: usize,
    awaited: Provider,
    results: Vec<QuestionFeedback>,
    suppliers: Vec<Provider>,
}

/// A `ResponseGrading` as plain values.
pub struct ResponseGradingView {
    /// The written answers by question id, in the order of grading.
    pub questions: Seq<(Seq<char>, JsonView)>,
    /// The position of the answer under grading.
    pub position: nat,
    /// The provider whose reply is awaited.
    pub awaited: Provider,
    /// The feedback on the answers before `position`.
    pub results: Seq<QuestionFeedbackView>,
    /// The provider whose reply gave each of `results`.
    pub suppliers: Seq<Provider>,
}

impl View for ResponseGrading {
    type V = ResponseGradingView;

    closed spec fn view(&self) -> ResponseGradingView {
        ResponseGradingView {
            questions: answers_view(self.questions@),
            position: self.position as nat,
            awaited: self.awaited,
            results: feedback_views(self.results@),
            suppliers: self.suppliers@,
        }
    }
}

impl ResponseGrading {
    #[verifier::type_invariant]
    spec fn inv(&self) -> bool {
        &&& self.position < self.questions@.len()
        &&& self.results@.len() == self.position
        &&& self.suppliers@.len() == self.position
        &&& all_in_range(feedback_views(self.results@))
    }

    /// The provider whose reply is awaited.
    pub fn awaited(&self) -> (r: Provider)
        ensures
            r == self@.awaited,
    {
        self.awaited
    }

    /// The position of the answer under grading. There is feedback, and
    /// a provider that gave it, for each answer before it.
    pub fn position(&self) -> (r: usize)
        ensures
            r == self@.position,
            self@.position < self@.questions.len(),
            self@.results.len() == self@.position,
            self@.suppliers.len() == self@.position,
    {
        proof {
            use_type_invariant(self);
        }
        self.position
    }
}

/// What the grading of the written answers does next.
#[derive(Debug, PartialEq)]
pub enum GradingStep {
    /// Make this request, and come back with what it gave.
    Ask { grading: ResponseGrading, request: ProviderRequest },
    /// Every answer is graded: the feedback in the order of the answers,
    /// and for each the provider whose reply gave it.
    Done { results: Vec<QuestionFeedback>, suppliers: Vec<Provider> },
    /// An answer could not be graded by either provider.
    Failed(AppError),
}

/// A `GradingStep` as plain values.
pub enum GradingStepView {
    Ask { grading: ResponseGradingView, request: ProviderRequestView },
    Done { results: Seq<QuestionFeedbackView>, suppliers: Seq<Provider> },
    Failed(AppErrorView),
}

impl View for GradingStep {
    type V = GradingStepView;

    open spec fn view(&self) -> GradingStepView {
        match self {
            GradingStep::Ask { grading, request } => GradingStepView::Ask {
                grading: grading@,
                request: request@,
            },
            GradingStep::Done { results, suppliers } => GradingStepView::Done {
                results: feedback_views(results@),
                suppliers: suppliers@,
            },
            GradingStep::Failed(e) => GradingStepView::Failed(e@),
        }
    }
}

/// The step that takes up the answer at `position`: the request to the
/// primary provider, or the end where no answer is left.
pub open spec fn next_question(
    guidelines: Seq<char>,
    questions: Seq<(Seq<char>, JsonView)>,
    position: nat,
    results: Seq<QuestionFeedbackView>,
    suppliers: Seq<Provider>,
) -> GradingStepView {
    if position >= questions.len() {
        GradingStepView::Done { results, suppliers }
    } else {
        GradingStepView::Ask {
            grading: ResponseGradingView {
                questions,
                position,
                awaited: Provider::Primary,
                results,
                suppliers,
            },
            request: primary_request(
                guidelines,
                questions[position as int].0,
                questions[position as int].1,
            ),
        }
    }
}

/// The first step of grading `questions`.
pub open spec fn first_step(guidelines: Seq<char>, questions: Seq<(Seq<char>, JsonView)>) -> GradingStepView {
    next_question(guidelines, questions, 0, Seq::empty(), Seq::empty())
}

/// The step after the awaited call gave `outcome`. A graded answer is
/// followed by the next one, and the provider that gave the reply is
/// noted beside the feedback. A primary provider without a reply is
/// followed by the secondary, on the same answer. A secondary provider
/// without a reply ends the grading, and no further answer is tried.
pub open spec fn step_after(
    guidelines: Seq<char>,
    grading: ResponseGradingView,
    outcome: ProviderOutcomeView,
) -> GradingStepView {
    let question = grading.questions[grading.position as int];
    match verdict_of(grading.awaited, outcome) {
        CallVerdictView::Graded { feedback, provider } => next_question(
            guidelines,
            grading.questions,
            grading.position + 1,
            grading.results.push(feedback),
            grading.suppliers.push(provider),
        ),
        CallVerdictView::TrySecondary => GradingStepView::Ask {
            grading: ResponseGradingView { awaited: Provider::Secondary, ..grading },
            request: secondary_request(guidelines, question.0, question.1),
        },
        CallVerdictView::Failed(error) => GradingStepView::Failed(error),
    }
}

/// A step without the note of who gave each reply: what is left is all
/// that the merging of the scores looks at.
pub open spec fn without_suppliers(step: GradingStepView) -> GradingStepView {
    match step {
        GradingStepView::Ask { grading, request } => GradingStepView::Ask {
            grading: ResponseGradingView { suppliers: Seq::empty(), ..grading },
            request,
        },
        GradingStepView::Done { results, suppliers } => GradingStepView::Done {
            results,
            suppliers: Seq::empty(),
        },
        GradingStepView::Failed(error) => GradingStepView::Failed(error),
    }
}

/// The providers noted in a step, one for each answer graded so far.
pub open spec fn suppliers_of(step: GradingStepView) -> Seq<Provider> {
    match step {
        GradingStepView::Ask { grading, .. } => grading.suppliers,
        GradingStepView::Done { suppliers, .. } => suppliers,
        GradingStepView::Failed(_) => Seq::empty(),
    }
}

/// The grading client, with the marking guidelines it sends along.
#[derive(Clone, Debug, PartialEq, Eq)]
pub struct AIService {
    marking_guidelines: String,
}

impl AIService {
    /// The marking guidelines the client sends along.
    pub closed spec fn guidelines(&self) -> Seq<char> {
        self.marking_guidelines@
    }

    /// A client without marking guidelines yet.
    pub fn new() -> (r: Self)
        ensures
            r.guidelines() == Seq::<char>::empty(),
    {
        AIService { marking_guidelines: String::new() }
    }

    /// Sets the marking guidelines.
    pub fn initialize(&mut self, marking_guidelines: String)
        ensures
            final(self).guidelines() == marking_guidelines@,
    {
        self.marking_guidelines = marking_guidelines;
    }

    /// The grading prompt for one answer.
    pub fn create_grading_prompt(&self, question_id: &str, response: &Json) -> (r: String)
        ensures
            r@ == grading_prompt(question_id@, answer_text(response@)),
    {
        let answer = match response.to_pretty() {
            Some(text) => text,
            None => String::new(),
        };
        grading_prompt_for(question_id, answer.as_str())
    }

    /// The request to the primary provider for one answer.
    pub fn primary_request(&self, question_id: &str, response: &Json) -> (r: ProviderRequest)
        ensures
            r@ == primary_request(self.guidelines(), question_id@, response@),
    {
        ProviderRequest {
            provider: Provider::Primary,
            system: Some(self.marking_guidelines.clone()),
            prompt: self.create_grading_prompt(question_id, response),
        }
    }

    /// The request to the secondary provider for one answer.
    pub fn secondary_request(&self, question_id: &str, response: &Json) -> (r: ProviderRequest)
        ensures
            r@ == secondary_request(self.guidelines(), question_id@, response@),
    {
        let answer = match response.to_pretty() {
            Some(text) => text,
            None => String::new(),
        };
        ProviderRequest {
            provider: Provider::Secondary,
            system: None,
            prompt: secondary_prompt_for(self.marking_guidelines.as_str(), question_id, answer.as_str()),
        }
    }

    fn ask_next(
        &self,
        questions: Vec<(String, Json)>,
        position: usize,
        results: Vec<QuestionFeedback>,
        suppliers: Vec<Provider>,
    ) -> (r: GradingStep)
        requires
            position <= questions@.len(),
            results@.len() == position,
            suppliers@.len() == position,
            all_in_range(feedback_views(results@)),
        ensures
            r@ == next_question(
                self.guidelines(),
                answers_view(questions@),
                position as nat,
                feedback_views(results@),
                suppliers@,
            ),
            r matches GradingStep::Done { results: all, .. } ==> all_in_range(feedback_views(all@)),
    {
        if position >= questions.len() {
            GradingStep::Done { results, suppliers }
        } else {
            let request = self.primary_request(questions[position].0.as_str(), &questions[position].1);
            GradingStep::Ask {
                grading: ResponseGrading {
                    questions,
                    position,
                    awaited: Provider::Primary,
                    results,
                    suppliers,
                },
                request,
            }
        }
    }

    /// Starts the grading of the written answers, one after the other in
    /// the order given. Without answers it is done at once.
    pub fn grade_extended_responses(&self, responses: Vec<(String, Json)>) -> (r: GradingStep)
        ensures
            r@ == first_step(self.guidelines(), answers_view(responses@)),
            r matches GradingStep::Done { results: all, .. } ==> all_in_range(feedback_views(all@)),
    {
        let results: Vec<QuestionFeedback> = Vec::new();
        let suppliers: Vec<Provider> = Vec::new();
        assert(feedback_views(results@) =~= Seq::<QuestionFeedbackView>::empty());
        self.ask_next(responses, 0, results, suppliers)
    }

    /// Takes what the awaited call gave and says what comes next: the
    /// primary provider is tried first and the secondary once, only after
    /// the primary gave no reply.
    pub fn grade_single_response(&self, grading: ResponseGrading, outcome: &ProviderOutcome) -> (r:
        GradingStep)
        ensures
            r@ == step_after(self.guidelines(), grading@, outcome@),
            r matches GradingStep::Done { results: all, .. } ==> all_in_range(feedback_views(all@)),
    {
        proof {
            use_type_invariant(&grading);
        }
        let ResponseGrading { questions, position, awaited, results, suppliers } = grading;
        let mut results = results;
        let mut suppliers = suppliers;
        let count = questions.len();
        assert(position < count);
        match judge_call(awaited, outcome) {
            CallVerdict::Graded { feedback, provider } => {
                let ghost earlier = results@;
                let ghost added = feedback@;
                results.push(feedback);
                suppliers.push(provider);
                proof {
                    assert(feedback_views(results@) =~= feedback_views(earlier).push(added));
                }
                self.ask_next(questions, position + 1, results, suppliers)
            },
            CallVerdict::TrySecondary => {
                let request = self.secondary_request(questions[position].0.as_str(), &questions[position].1);
                GradingStep::Ask {
                    grading: ResponseGrading {
                        questions,
                        position,
                        awaited: Provider::Secondary,
                        results,
                        suppliers,
                    },
                    request,
                }
            },
            CallVerdict::Failed(error) => GradingStep::Failed(error),
        }
    }
}

/// Failover is transparent to the scores: where the primary provider
/// gives no reply and the secondary then gives one, the grading stands
/// where it would stand had the primary given that reply itself, with the
/// same feedback, the same answer next and the same request. The two
/// differ in one thing alone, the note of who gave the reply: the
/// secondary in the one case, the primary in the other.
pub proof fn lemma_failover_is_transparent(
    guidelines: Seq<char>,
    grading: ResponseGradingView,
    primary_failure: ProviderOutcomeView,
    primary_success: ProviderOutcomeView,
    secondary_success: ProviderOutcomeView,
)
    requires
        grading.awaited == Provider::Primary,
        reply_content(Provider::Primary, primary_failure) is None,
        reply_content(Provider::Primary, primary_success) is Some,
        reply_content(Provider::Primary, primary_success) == reply_content(
            Provider::Secondary,
            secondary_success,
        ),
    ensures
        step_after(guidelines, grading, primary_failure) matches GradingStepView::Ask {
            grading: waiting,
            request,
        } && waiting.awaited == Provider::Secondary && request.provider == Provider::Secondary
            && without_suppliers(step_after(guidelines, waiting, secondary_success))
            == without_suppliers(step_after(guidelines, grading, primary_success)) && suppliers_of(
            step_after(guidelines, waiting, secondary_success),
        ) == grading.suppliers.push(Provider::Secondary) && suppliers_of(
            step_after(guidelines, grading, primary_success),
        ) == grading.suppliers.push(Provider::Primary),
{
}

/// The provider noted beside a feedback is the one whose reply was
/// graded: the one that was awaited when the reply came.
pub proof fn lemma_supplier_is_the_one_that_replied(
    guidelines: Seq<char>,
    grading: ResponseGradingView,
    outcome: ProviderOutcomeView,
)
    requires
        reply_content(grading.awaited, outcome) is Some,
    ensures
        suppliers_of(step_after(guidelines, grading, outcome)) == grading.suppliers.push(grading.awaited),
{
}

/// A provider is never asked twice about one answer, and the primary is
/// never asked again once it gave no reply: after a call that gave no
/// reply the secondary is asked, or the grading has failed.
pub proof fn lemma_single_fallback(
    guidelines: Seq<char>,
    grading: ResponseGradingView,
    outcome: ProviderOutcomeView,
)
    requires
        reply_content(grading.awaited, outcome) is None,
    ensures
        match step_after(guidelines, grading, outcome) {
            GradingStepView::Ask { grading: waiting, request } => grading.awaited == Provider::Primary
                && waiting.awaited == Provider::Secondary && waiting.position == grading.position
                && waiting.results == grading.results && waiting.suppliers == grading.suppliers,
            GradingStepView::Done { .. } => false,
            GradingStepView::Failed(error) => error is AiProvider,
        },
{
}

} // verus!
