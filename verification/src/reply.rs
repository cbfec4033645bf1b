//! What is shown at the end of an invocation: the reply, or why there is
//! none.

use crate::chat::{first_content, first_reply, ChatResponse, ChatResponseView};
use crate::dispatch::{Refusal, RefusalView};
use crate::report::{lines_of, over_budget_line, over_budget_message, usage_lines, usage_report};
use vstd::prelude::*;

verus! {

/// The lines to print, and whether the invocation failed.
#[derive(Clone, Debug, PartialEq, Eq)]
pub struct Report {
    pub lines: Vec<String>,
    pub failed: bool,
}

/// What a `Report` stands for.
pub struct ReportView {
    pub lines: Seq<Seq<char>>,
    pub failed: bool,
}

impl View for Report {
    type V = ReportView;

    open spec fn view(&self) -> ReportView {
        ReportView { lines: lines_of(self.lines@), failed: self.failed }
    }
}

/// The guidance shown when no credential is set.
pub open spec fn credential_guidance() -> Seq<char> {
    "OPENAI_API_KEY environment variable not set.\n\
Please set the OPENAI_API_KEY environment variable with your API key before running this program.\n\
For example:\n\
$ export OPENAI_API_KEY=your_api_key_here\n\
$ cargo run <text_file_path>\n\
If you don't have an API key, sign up at:\n\
https://beta.openai.com/signup/\n\
For more information, visit:\n\
https://beta.openai.com/docs/"@
}

/// The line shown when the tokenizer fails.
pub open spec fn tokenizer_failure_line() -> Seq<char> {
    "Error: the input could not be tokenized."@
}

/// The line shown for a response without choices.
pub open spec fn empty_choices_line() -> Seq<char> {
    "Error: the response holds no choices."@
}

/// An error message as it is shown.
pub open spec fn error_line(message: Seq<char>) -> Seq<char> {
    "Error: "@ + message
}

/// The raw body as it is shown.
pub open spec fn raw_line(body: Seq<char>) -> Seq<char> {
    "Raw API response: "@ + body
}

/// What is shown for a refusal: the token counts where they are known, then
/// the reason. A refusal is a failure.
pub open spec fn refusal_report(refusal: RefusalView) -> ReportView {
    match refusal {
        RefusalView::Tokenizer => ReportView {
            lines: seq![tokenizer_failure_line()],
            failed: true,
        },
        RefusalView::OverBudget { usage, ceiling } => ReportView {
            lines: usage_report(usage).push(over_budget_line(usage, ceiling)),
            failed: true,
        },
        RefusalView::NoCredential { usage } => ReportView {
            lines: usage_report(usage).push(credential_guidance()),
            failed: true,
        },
    }
}

/// What is shown for a failure to reach the service.
pub open spec fn transport_report(message: Seq<char>) -> ReportView {
    ReportView { lines: seq![error_line(message)], failed: true }
}

/// The last line shown for a response body: the reply, or the error that
/// kept it from being found.
pub open spec fn outcome_line(decoded: Result<ChatResponseView, Seq<char>>) -> Seq<char> {
    match decoded {
        Err(message) => error_line(message),
        Ok(response) => match first_content(response) {
            Some(content) => content,
            None => empty_choices_line(),
        },
    }
}

/// Whether a response body yields a reply.
pub open spec fn has_reply(decoded: Result<ChatResponseView, Seq<char>>) -> bool {
    decoded matches Ok(response) && first_content(response).is_some()
}

/// What is shown for a response body: the raw body first where it was asked
/// for, whether or not decoding succeeded, then the reply or the error.
pub open spec fn reply_report(
    raw: bool,
    body: Seq<char>,
    decoded: Result<ChatResponseView, Seq<char>>,
) -> ReportView {
    ReportView {
        lines: if raw {
            seq![raw_line(body), outcome_line(decoded)]
        } else {
            seq![outcome_line(decoded)]
        },
        failed: !has_reply(decoded),
    }
}

/// What a decoding result stands for.
pub open spec fn decoded_view(decoded: Result<ChatResponse, String>) -> Result<
    ChatResponseView,
    Seq<char>,
> {
    match decoded {
        Ok(response) => Ok(response@),
        Err(message) => Err(message@),
    }
}

/// Joins a label and a text into one line.
pub fn prefixed(label: &str, text: &str) -> (line: String)
    ensures
        line@ == label@ + text@,
{
    let mut line = String::from_str(label);
    line.append(text);
    line
}

/// Returns the guidance shown when no credential is set.
pub fn credential_guidance_text() -> (text: &'static str)
    ensures
        text@ == credential_guidance(),
{
    "OPENAI_API_KEY environment variable not set.\n\
Please set the OPENAI_API_KEY environment variable with your API key before running this program.\n\
For example:\n\
$ export OPENAI_API_KEY=your_api_key_here\n\
$ cargo run <text_file_path>\n\
If you don't have an API key, sign up at:\n\
https://beta.openai.com/signup/\n\
For more information, visit:\n\
https://beta.openai.com/docs/"
}

/// Reports a refusal.
pub fn report_refusal(refusal: &Refusal) -> (report: Report)
    ensures
        report@ == refusal_report(refusal@),
{
    match refusal {
        Refusal::Tokenizer => {
            let mut lines: Vec<String> = Vec::new();
            lines.push(String::from_str("Error: the input could not be tokenized."));
            let report = Report { lines, failed: true };
            proof {
                assert(report@.lines =~= refusal_report(refusal@).lines);
            }
            report
        },
        Refusal::OverBudget { usage, ceiling } => {
            let mut lines = usage_lines(usage);
            lines.push(over_budget_message(usage, *ceiling));
            let report = Report { lines, failed: true };
            proof {
                assert(report@.lines =~= refusal_report(refusal@).lines);
            }
            report
        },
        Refusal::NoCredential { usage } => {
            let mut lines = usage_lines(usage);
            lines.push(String::from_str(credential_guidance_text()));
            let report = Report { lines, failed: true };
            proof {
                assert(report@.lines =~= refusal_report(refusal@).lines);
            }
            report
        },
    }
}

/// Reports a failure to reach the service, with the error's own words.
pub fn report_transport_failure(message: &str) -> (report: Report)
    ensures
        report@ == transport_report(message@),
{
    let mut lines: Vec<String> = Vec::new();
    lines.push(prefixed("Error: ", message));
    let report = Report { lines, failed: true };
    proof {
        assert(report@.lines =~= transport_report(message@).lines);
    }
    report
}

/// Reports on a response body. `decoded` is the body read as a response, or
/// the decoder's error in its own words.
pub fn conclude(raw: bool, body: &str, decoded: &Result<ChatResponse, String>) -> (report: Report)
    ensures
        report@ == reply_report(raw, body@, decoded_view(*decoded)),
{
    let mut lines: Vec<String> = Vec::new();
    if raw {
        lines.push(prefixed("Raw API response: ", body));
    }
    let mut failed = true;
    match decoded {
        Err(message) => {
            lines.push(prefixed("Error: ", message.as_str()));
        },
        Ok(response) => match first_reply(response) {
            Ok(content) => {
                failed = false;
                lines.push(content);
            },
            Err(_) => {
                lines.push(String::from_str("Error: the response holds no choices."));
            },
        },
    }
    let report = Report { lines, failed };
    proof {
        assert(report@.lines =~= reply_report(raw, body@, decoded_view(*decoded)).lines);
    }
    report
}

/// The raw body is shown first whenever it was asked for, also where the body
/// could not be decoded or holds no choice.
pub proof fn lemma_raw_body_always_shown(
    body: Seq<char>,
    decoded: Result<ChatResponseView, Seq<char>>,
)
    ensures
        reply_report(true, body, decoded).lines[0] == raw_line(body),
        reply_report(true, body, decoded).lines.len() == 2,
        reply_report(true, body, decoded).lines[1] == reply_report(false, body, decoded).lines[0],
{
}

} // verus!
