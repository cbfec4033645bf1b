//! The pre-flight decision: from the inputs of one invocation to either the
//! call to make or the reason for making none.

use crate::chat::{
    build_request, compose_user_text, request_for, user_text, ChatRequest, ChatRequestView,
};
use crate::model::Model;
use crate::prompt::{prompt_of, resolve_parent_prompt, resolved_prompt, text_of, Config};
use crate::tokens::{count_tokens, token_count, TokenUsage, Usage};
use vstd::prelude::*;

verus! {

/// What the program learned from its surroundings at startup.
#[derive(Clone, Debug, PartialEq, Eq)]
pub struct Context {
    /// The persisted configuration, if there is one.
    pub persisted: Option<Config>,
    /// The credential for the service, if one is set.
    pub api_key: Option<String>,
}

/// What is to be sent: a file's name and text, the model, and the prompt
/// given on the command line, if any.
#[derive(Clone, Debug, PartialEq, Eq)]
pub struct Job {
    pub file_name: String,
    pub file_text: String,
    pub model: Model,
    pub prompt_override: Option<String>,
}

/// One HTTP call, ready to be made: a POST of `request` as JSON to
/// `endpoint`, with the two headers and the timeout.
#[derive(Clone, Debug, PartialEq, Eq)]
pub struct Dispatch {
    pub endpoint: String,
    pub content_type: String,
    pub authorization: String,
    pub timeout_seconds: u64,
    pub request: ChatRequest,
    /// The token counts that were found to fit.
    pub usage: TokenUsage,
}

/// Why no call is made.
#[derive(Clone, Copy, Debug, PartialEq, Eq, Structural)]
pub enum Refusal {
    /// The encoder could not split the text or the prompt.
    Tokenizer,
    /// The combined token count is over the model's ceiling.
    OverBudget { usage: TokenUsage, ceiling: u64 },
    /// No credential is set.
    NoCredential { usage: TokenUsage },
}

/// What a `Dispatch` stands for.
pub struct DispatchView {
    pub endpoint: Seq<char>,
    pub content_type: Seq<char>,
    pub authorization: Seq<char>,
    pub timeout_seconds: nat,
    pub request: ChatRequestView,
    pub usage: Usage,
}

/// What a `Refusal` stands for.
pub enum RefusalView {
    Tokenizer,
    OverBudget { usage: Usage, ceiling: nat },
    NoCredential { usage: Usage },
}

impl View for Dispatch {
    type V = DispatchView;

    open spec fn view(&self) -> DispatchView {
        DispatchView {
            endpoint: self.endpoint@,
            content_type: self.content_type@,
            authorization: self.authorization@,
            timeout_seconds: self.timeout_seconds as nat,
            request: self.request@,
            usage: self.usage@,
        }
    }
}

impl View for Refusal {
    type V = RefusalView;

    open spec fn view(&self) -> RefusalView {
        match self {
            Refusal::Tokenizer => RefusalView::Tokenizer,
            Refusal::OverBudget { usage, ceiling } => RefusalView::OverBudget {
                usage: usage@,
                ceiling: *ceiling as nat,
            },
            Refusal::NoCredential { usage } => RefusalView::NoCredential { usage: usage@ },
        }
    }
}

/// What a verdict stands for.
pub open spec fn verdict_of(verdict: Result<Dispatch, Refusal>) -> Result<
    DispatchView,
    RefusalView,
> {
    match verdict {
        Ok(dispatch) => Ok(dispatch@),
        Err(refusal) => Err(refusal@),
    }
}

/// The address of the chat-completion service.
pub open spec fn endpoint_url() -> Seq<char> {
    "https://api.openai.com/v1/chat/completions"@
}

/// The content type of the request body.
pub open spec fn json_content_type() -> Seq<char> {
    "application/json"@
}

/// The seconds allowed for the call: completions can take long.
pub open spec fn call_timeout() -> nat {
    300
}

/// The `Authorization` header for a credential.
pub open spec fn bearer(api_key: Seq<char>) -> Seq<char> {
    "Bearer "@ + api_key
}

/// The call that sends a prompt and a text to a model with a credential.
pub open spec fn call_for(
    model: Model,
    prompt: Seq<char>,
    text: Seq<char>,
    usage: Usage,
    api_key: Seq<char>,
) -> DispatchView {
    DispatchView {
        endpoint: endpoint_url(),
        content_type: json_content_type(),
        authorization: bearer(api_key),
        timeout_seconds: call_timeout(),
        request: request_for(model, prompt, text),
        usage,
    }
}

/// The verdict on one invocation, given the token counts of the user text and
/// of the prompt. A count that is missing refuses the call; then a total over
/// the model's ceiling does; then a missing credential does; otherwise the
/// call is made.
pub open spec fn decision(
    model: Model,
    prompt: Seq<char>,
    text: Seq<char>,
    text_count: Option<nat>,
    prompt_count: Option<nat>,
    api_key: Option<Seq<char>>,
) -> Result<DispatchView, RefusalView> {
    if text_count.is_none() || prompt_count.is_none() {
        Err(RefusalView::Tokenizer)
    } else {
        let usage = Usage {
            text_tokens: text_count.unwrap(),
            prompt_tokens: prompt_count.unwrap(),
        };
        if !usage.fits(model.ceiling()) {
            Err(RefusalView::OverBudget { usage, ceiling: model.ceiling() })
        } else {
            match api_key {
                None => Err(RefusalView::NoCredential { usage }),
                Some(key) => Ok(call_for(model, prompt, text, usage, key)),
            }
        }
    }
}

/// The verdict on one invocation: the prompt in force and the user text are
/// settled, both are counted with the tokenizer, and the counts decide.
pub open spec fn planned(
    model: Model,
    file_name: Seq<char>,
    file_text: Seq<char>,
    given: Option<Seq<char>>,
    persisted: Option<Seq<char>>,
    api_key: Option<Seq<char>>,
) -> Result<DispatchView, RefusalView> {
    let prompt = resolved_prompt(given, persisted);
    let text = user_text(file_name, file_text);
    decision(model, prompt, text, token_count(text), token_count(prompt), api_key)
}

/// A count as a number.
pub open spec fn count_view(count: Option<usize>) -> Option<nat> {
    match count {
        Some(n) => Some(n as nat),
        None => None,
    }
}

/// Builds the `Authorization` header for a credential.
pub fn authorization_header(api_key: &str) -> (header: String)
    ensures
        header@ == bearer(api_key@),
{
    let mut header = String::from_str("Bearer ");
    header.append(api_key);
    header
}

/// Decides on one invocation from the token counts of its text and prompt.
pub fn decide(
    model: Model,
    prompt: String,
    text: String,
    text_count: Option<usize>,
    prompt_count: Option<usize>,
    api_key: Option<String>,
) -> (verdict: Result<Dispatch, Refusal>)
    ensures
        verdict_of(verdict) == decision(
            model,
            prompt@,
            text@,
            count_view(text_count),
            count_view(prompt_count),
            text_of(api_key),
        ),
{
    let (text_tokens, prompt_tokens) = match (text_count, prompt_count) {
        (Some(t), Some(p)) => (t, p),
        _ => { return Err(Refusal::Tokenizer); },
    };
    let usage = TokenUsage { text_tokens, prompt_tokens };
    let ceiling = model.token_ceiling();
    if !usage.within(ceiling) {
        return Err(Refusal::OverBudget { usage, ceiling });
    }
    match api_key {
        None => Err(Refusal::NoCredential { usage }),
        Some(key) => Ok(
            Dispatch {
                endpoint: String::from_str("https://api.openai.com/v1/chat/completions"),
                content_type: String::from_str("application/json"),
                authorization: authorization_header(key.as_str()),
                timeout_seconds: 300,
                request: build_request(model, prompt, text),
                usage,
            },
        ),
    }
}

/// Decides on one invocation: settles the prompt and the user text, counts
/// the tokens of both, and holds the total against the model's ceiling and
/// the credential against its absence.
pub fn prepare(context: Context, job: Job) -> (verdict: Result<Dispatch, Refusal>)
    ensures
        verdict_of(verdict) == planned(
            job.model,
            job.file_name@,
            job.file_text@,
            text_of(job.prompt_override),
            prompt_of(context.persisted),
            text_of(context.api_key),
        ),
{
    let prompt = resolve_parent_prompt(job.prompt_override, context.persisted);
    let text = compose_user_text(job.file_name.as_str(), job.file_text.as_str());
    let text_count = count_tokens(text.as_str());
    let prompt_count = count_tokens(prompt.as_str());
    decide(job.model, prompt, text, text_count, prompt_count, context.api_key)
}

/// A total over the model's ceiling refuses the call, whatever the
/// credential, and the refusal carries the two counts and the ceiling.
pub proof fn lemma_over_budget_refuses(
    model: Model,
    prompt: Seq<char>,
    text: Seq<char>,
    text_count: nat,
    prompt_count: nat,
    api_key: Option<Seq<char>>,
)
    requires
        text_count + prompt_count > model.ceiling(),
    ensures
        decision(model, prompt, text, Some(text_count), Some(prompt_count), api_key) == Err::<
            DispatchView,
            RefusalView,
        >(
            RefusalView::OverBudget {
                usage: Usage { text_tokens: text_count, prompt_tokens: prompt_count },
                ceiling: model.ceiling(),
            },
        ),
{
}

/// The same of a whole invocation: where the tokens of the file's name, a
/// line feed and the file's text, together with those of the prompt in
/// force, number more than the model's ceiling, no call is planned.
pub proof fn lemma_over_budget_plans_no_call(
    model: Model,
    file_name: Seq<char>,
    file_text: Seq<char>,
    given: Option<Seq<char>>,
    persisted: Option<Seq<char>>,
    api_key: Option<Seq<char>>,
)
    requires
        token_count(user_text(file_name, file_text)).is_some(),
        token_count(resolved_prompt(given, persisted)).is_some(),
        token_count(user_text(file_name, file_text)).unwrap() + token_count(
            resolved_prompt(given, persisted),
        ).unwrap() > model.ceiling(),
    ensures
        planned(model, file_name, file_text, given, persisted, api_key) == Err::<
            DispatchView,
            RefusalView,
        >(
            RefusalView::OverBudget {
                usage: Usage {
                    text_tokens: token_count(user_text(file_name, file_text)).unwrap(),
                    prompt_tokens: token_count(resolved_prompt(given, persisted)).unwrap(),
                },
                ceiling: model.ceiling(),
            },
        ),
{
}

/// Without a credential no call is made, whatever the counts; where they fit
/// the ceiling, the refusal is the missing credential.
pub proof fn lemma_no_credential_refuses(
    model: Model,
    prompt: Seq<char>,
    text: Seq<char>,
    text_count: Option<nat>,
    prompt_count: Option<nat>,
)
    ensures
        decision(model, prompt, text, text_count, prompt_count, None).is_err(),
        text_count.is_some() && prompt_count.is_some() && text_count.unwrap()
            + prompt_count.unwrap() <= model.ceiling() ==> decision(
            model,
            prompt,
            text,
            text_count,
            prompt_count,
            None,
        ) == Err::<DispatchView, RefusalView>(
            RefusalView::NoCredential {
                usage: Usage {
                    text_tokens: text_count.unwrap(),
                    prompt_tokens: prompt_count.unwrap(),
                },
            },
        ),
{
}

/// A call that is made goes to the model chosen, with the prompt in force as
/// the `system` message and the user text as the `user` message, and only
/// where the counts fit the ceiling and a credential is set.
pub proof fn lemma_call_only_when_fit(
    model: Model,
    prompt: Seq<char>,
    text: Seq<char>,
    text_count: Option<nat>,
    prompt_count: Option<nat>,
    api_key: Option<Seq<char>>,
)
    requires
        decision(model, prompt, text, text_count, prompt_count, api_key).is_ok(),
    ensures
        api_key.is_some(),
        text_count.is_some(),
        prompt_count.is_some(),
        text_count.unwrap() + prompt_count.unwrap() <= model.ceiling(),
        decision(model, prompt, text, text_count, prompt_count, api_key) matches Ok(call)
            && call.request == request_for(model, prompt, text),
{
}

} // verus!
