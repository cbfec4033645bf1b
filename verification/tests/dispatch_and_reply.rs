use chatterpipe::chat::{
    build_request, compose_user_text, first_reply, ChatRequest, ChatResponse, Choice,
    EmptyChoices, Message, Role,
};
use chatterpipe::dispatch::{authorization_header, decide, prepare, Context, Dispatch, Job, Refusal};
use chatterpipe::model::Model;
use chatterpipe::prompt::Config;
use chatterpipe::reply::{
    conclude, credential_guidance_text, prefixed, report_refusal, report_transport_failure, Report,
};
use chatterpipe::report::{decimal_text, labelled, over_budget_message, usage_lines};
use chatterpipe::tokens::{count_encoded, count_tokens, TokenUsage};

const DEFAULT_PROMPT: &str =
    "Summarise the following in 300 tokens or less. Give your best attempt.";

fn job(name: &str, text: &str, model: Model, given: Option<&str>) -> Job {
    Job {
        file_name: name.to_string(),
        file_text: text.to_string(),
        model,
        prompt_override: given.map(|p| p.to_string()),
    }
}

fn context(persisted: Option<&str>, key: Option<&str>) -> Context {
    Context {
        persisted: persisted.map(|p| Config { parent_prompt: p.to_string() }),
        api_key: key.map(|k| k.to_string()),
    }
}

fn reply_with(contents: &[&str]) -> ChatResponse {
    ChatResponse {
        choices: contents
            .iter()
            .map(|c| Choice { message: Message { role: Role::Assistant, content: c.to_string() } })
            .collect(),
    }
}

#[test]
fn known_token_counts() {
    assert_eq!(count_tokens(""), Some(0));
    assert_eq!(count_tokens("hello world"), Some(2));
    assert_eq!(count_tokens("tiktoken is great!"), Some(6));
}

#[test]
fn special_token_counts_as_one() {
    assert_eq!(count_tokens("<|endoftext|>"), Some(1));
    assert_eq!(count_tokens("hello world<|endoftext|>"), Some(3));
}

#[test]
fn token_count_is_not_the_length() {
    let text = "The quick brown fox jumps over the lazy dog.";
    let count = count_tokens(text).unwrap();
    assert_eq!(count, 10);
    assert_ne!(count, text.len());
    assert_ne!(count, text.chars().count());
}

#[test]
fn token_count_is_repeatable() {
    let text = "notes.txt\nExplain gravity.";
    assert_eq!(count_tokens(text), count_tokens(text));
}

#[test]
fn encoded_tokens_are_counted() {
    assert_eq!(count_encoded(&Some(vec![15339, 1917])), Some(2));
    assert_eq!(count_encoded(&Some(vec![])), Some(0));
    assert_eq!(count_encoded(&None), None);
}

#[test]
fn usage_total_and_budget() {
    let usage = TokenUsage { text_tokens: 4000, prompt_tokens: 96 };
    assert_eq!(usage.total(), 4096);
    assert!(usage.within(4096));
    assert!(!usage.within(4095));
    let more = TokenUsage { text_tokens: 4000, prompt_tokens: 97 };
    assert_eq!(more.total(), 4097);
    assert!(!more.within(4096));
    assert!(more.within(8192));
}

#[test]
fn usage_total_does_not_overflow() {
    let usage = TokenUsage { text_tokens: usize::MAX, prompt_tokens: usize::MAX };
    assert_eq!(usage.total(), 2 * (usize::MAX as u128));
    assert!(!usage.within(u64::MAX));
}

#[test]
fn user_text_is_name_newline_text() {
    assert_eq!(compose_user_text("notes.txt", "Explain gravity."), "notes.txt\nExplain gravity.");
    assert_eq!(compose_user_text("", ""), "\n");
    assert_eq!(compose_user_text("a", "b\nc\n"), "a\nb\nc\n");
}

#[test]
fn request_has_system_then_user() {
    let request = build_request(Model::Gpt4Wide, "Be brief.".to_string(), "f\nbody".to_string());
    assert_eq!(
        request,
        ChatRequest {
            model: "gpt-4-32k".to_string(),
            messages: vec![
                Message { role: Role::System, content: "Be brief.".to_string() },
                Message { role: Role::User, content: "f\nbody".to_string() },
            ],
        }
    );
}

#[test]
fn role_names_round_trip() {
    for role in [Role::System, Role::User, Role::Assistant] {
        assert_eq!(Role::from_name(role.as_str()), Some(role));
    }
    assert_eq!(Role::System.as_str(), "system");
    assert_eq!(Role::User.as_str(), "user");
    assert_eq!(Role::Assistant.as_str(), "assistant");
    assert_eq!(Role::from_name("tool"), None);
    assert_eq!(Role::from_name("System"), None);
    assert_eq!(Role::from_name(""), None);
}

#[test]
fn request_round_trips_through_json() {
    let request = build_request(
        Model::Gpt35Turbo,
        "Say \"hi\"\n".to_string(),
        "caf\u{e9}.txt\n{\"a\": [1, 2]}\t\\".to_string(),
    );
    let mut body = serde_json::Map::new();
    body.insert("model".to_string(), serde_json::Value::String(request.model.clone()));
    let mut messages = Vec::new();
    for message in request.messages.iter() {
        let mut entry = serde_json::Map::new();
        entry.insert(
            "role".to_string(),
            serde_json::Value::String(message.role.as_str().to_string()),
        );
        entry.insert("content".to_string(), serde_json::Value::String(message.content.clone()));
        messages.push(serde_json::Value::Object(entry));
    }
    body.insert("messages".to_string(), serde_json::Value::Array(messages));
    let wire = serde_json::to_string(&serde_json::Value::Object(body)).unwrap();

    let read: serde_json::Value = serde_json::from_str(wire.as_str()).unwrap();
    let back = ChatRequest {
        model: read["model"].as_str().unwrap().to_string(),
        messages: read["messages"]
            .as_array()
            .unwrap()
            .iter()
            .map(|entry| Message {
                role: Role::from_name(entry["role"].as_str().unwrap()).unwrap(),
                content: entry["content"].as_str().unwrap().to_string(),
            })
            .collect(),
    };
    assert_eq!(back.model, request.model);
    assert_eq!(back.messages, request.messages);
}

#[test]
fn bearer_header_is_exact() {
    assert_eq!(authorization_header("sk-test"), "Bearer sk-test");
    assert_eq!(authorization_header(""), "Bearer ");
}

#[test]
fn decide_refuses_without_counts() {
    let p = "p".to_string();
    let t = "t".to_string();
    let key = Some("k".to_string());
    assert_eq!(
        decide(Model::Gpt4, p.clone(), t.clone(), None, Some(1), key.clone()),
        Err(Refusal::Tokenizer)
    );
    assert_eq!(
        decide(Model::Gpt4, p.clone(), t.clone(), Some(1), None, key.clone()),
        Err(Refusal::Tokenizer)
    );
    assert_eq!(decide(Model::Gpt4, p, t, None, None, None), Err(Refusal::Tokenizer));
}

#[test]
fn decide_refuses_over_budget_whatever_the_key() {
    let usage = TokenUsage { text_tokens: 4000, prompt_tokens: 97 };
    let refusal = Err(Refusal::OverBudget { usage, ceiling: 4096 });
    assert_eq!(
        decide(
            Model::Gpt35Turbo,
            "p".to_string(),
            "t".to_string(),
            Some(4000),
            Some(97),
            Some("k".to_string())
        ),
        refusal
    );
    assert_eq!(
        decide(Model::Gpt35Turbo, "p".to_string(), "t".to_string(), Some(4000), Some(97), None),
        refusal
    );
}

#[test]
fn decide_uses_each_models_ceiling() {
    let verdict = |model, text_count| {
        decide(model, "p".to_string(), "t".to_string(), Some(text_count), Some(1), None)
    };
    let fits = |text_tokens| Err(Refusal::NoCredential {
        usage: TokenUsage { text_tokens, prompt_tokens: 1 },
    });
    let over = |text_tokens, ceiling| Err(Refusal::OverBudget {
        usage: TokenUsage { text_tokens, prompt_tokens: 1 },
        ceiling,
    });
    assert_eq!(verdict(Model::Gpt35Turbo, 4095), fits(4095));
    assert_eq!(verdict(Model::Gpt35Turbo, 4096), over(4096, 4096));
    assert_eq!(verdict(Model::Gpt4, 8191), fits(8191));
    assert_eq!(verdict(Model::Gpt4, 8192), over(8192, 8192));
    assert_eq!(verdict(Model::Gpt4Wide, 32767), fits(32767));
    assert_eq!(verdict(Model::Gpt4Wide, 32768), over(32768, 32768));
}

#[test]
fn decide_refuses_without_credential() {
    assert_eq!(
        decide(Model::Gpt4, "p".to_string(), "t".to_string(), Some(10), Some(5), None),
        Err(Refusal::NoCredential { usage: TokenUsage { text_tokens: 10, prompt_tokens: 5 } })
    );
}

#[test]
fn decide_builds_the_call() {
    assert_eq!(
        decide(
            Model::Gpt4,
            "Be brief.".to_string(),
            "f\nbody".to_string(),
            Some(8000),
            Some(192),
            Some("sk-test".to_string())
        ),
        Ok(Dispatch {
            endpoint: "https://api.openai.com/v1/chat/completions".to_string(),
            content_type: "application/json".to_string(),
            authorization: "Bearer sk-test".to_string(),
            timeout_seconds: 300,
            request: ChatRequest {
                model: "gpt-4".to_string(),
                messages: vec![
                    Message { role: Role::System, content: "Be brief.".to_string() },
                    Message { role: Role::User, content: "f\nbody".to_string() },
                ],
            },
            usage: TokenUsage { text_tokens: 8000, prompt_tokens: 192 },
        })
    );
}

#[test]
fn explain_gravity_is_sent_to_gpt35() {
    let verdict = prepare(
        context(None, Some("sk-test")),
        job("gravity.txt", "Explain gravity.", Model::Gpt35Turbo, None),
    );
    let dispatch = verdict.unwrap();
    assert_eq!(dispatch.request.model, "gpt-3.5-turbo");
    assert_eq!(
        dispatch.request.messages,
        vec![
            Message { role: Role::System, content: DEFAULT_PROMPT.to_string() },
            Message { role: Role::User, content: "gravity.txt\nExplain gravity.".to_string() },
        ]
    );
    assert_eq!(dispatch.usage.text_tokens, count_tokens("gravity.txt\nExplain gravity.").unwrap());
    assert_eq!(dispatch.usage.prompt_tokens, count_tokens(DEFAULT_PROMPT).unwrap());
    assert_eq!(dispatch.usage, TokenUsage { text_tokens: 7, prompt_tokens: 17 });
    assert!(dispatch.usage.within(4096));
    assert_eq!(dispatch.authorization, "Bearer sk-test");
    assert_eq!(dispatch.endpoint, "https://api.openai.com/v1/chat/completions");
    assert_eq!(dispatch.content_type, "application/json");
    assert_eq!(dispatch.timeout_seconds, 300);
}

#[test]
fn prepare_prefers_given_then_persisted_prompt() {
    let with_both = prepare(
        context(Some("Stored."), Some("k")),
        job("f", "x", Model::Gpt4, Some("Given.")),
    )
    .unwrap();
    assert_eq!(with_both.request.messages[0].content, "Given.");
    let with_stored =
        prepare(context(Some("Stored."), Some("k")), job("f", "x", Model::Gpt4, None)).unwrap();
    assert_eq!(with_stored.request.messages[0].content, "Stored.");
    let with_none = prepare(context(None, Some("k")), job("f", "x", Model::Gpt4, None)).unwrap();
    assert_eq!(with_none.request.messages[0].content, DEFAULT_PROMPT);
}

#[test]
fn prepare_refuses_a_text_over_the_ceiling() {
    let text = "hello world ".repeat(2100);
    let text_tokens = count_tokens(format!("big.txt\n{}", text).as_str()).unwrap();
    let prompt_tokens = count_tokens(DEFAULT_PROMPT).unwrap();
    assert!(text_tokens + prompt_tokens > 4096);
    assert!(text_tokens + prompt_tokens <= 8192);
    let usage = TokenUsage { text_tokens, prompt_tokens };
    assert_eq!(
        prepare(context(None, Some("sk-test")), job("big.txt", &text, Model::Gpt35Turbo, None)),
        Err(Refusal::OverBudget { usage, ceiling: 4096 })
    );
    assert_eq!(
        prepare(context(None, None), job("big.txt", &text, Model::Gpt35Turbo, None)),
        Err(Refusal::OverBudget { usage, ceiling: 4096 })
    );
    assert!(prepare(context(None, Some("sk-test")), job("big.txt", &text, Model::Gpt4, None))
        .is_ok());
}

#[test]
fn prepare_counts_the_prompt_too() {
    let prompt = "hello world ".repeat(2100);
    let verdict = prepare(
        context(None, Some("sk-test")),
        job("f", "x", Model::Gpt35Turbo, Some(prompt.as_str())),
    );
    assert!(matches!(verdict, Err(Refusal::OverBudget { ceiling: 4096, .. })));
}

#[test]
fn prepare_without_credential_plans_no_call() {
    let verdict = prepare(context(None, None), job("f.txt", "Explain gravity.", Model::Gpt4, None));
    assert_eq!(
        verdict,
        Err(Refusal::NoCredential {
            usage: TokenUsage {
                text_tokens: count_tokens("f.txt\nExplain gravity.").unwrap(),
                prompt_tokens: 17,
            },
        })
    );
}

#[test]
fn digits_and_decimals() {
    assert_eq!(decimal_text(7), "7");
    assert_eq!(decimal_text(0), "0");
    assert_eq!(decimal_text(9), "9");
    assert_eq!(decimal_text(10), "10");
    assert_eq!(decimal_text(4096), "4096");
    assert_eq!(decimal_text(32768), "32768");
    assert_eq!(decimal_text(1000000007), "1000000007");
    assert_eq!(decimal_text(u128::MAX), u128::MAX.to_string());
}

#[test]
fn labelled_and_prefixed_lines() {
    assert_eq!(labelled("Total: ", 42), "Total: 42");
    assert_eq!(labelled("", 0), "0");
    assert_eq!(prefixed("Error: ", "timed out"), "Error: timed out");
}

#[test]
fn usage_is_reported_in_three_lines() {
    assert_eq!(
        usage_lines(&TokenUsage { text_tokens: 120, prompt_tokens: 16 }),
        vec![
            "Number of tokens in the text file: 120".to_string(),
            "Number of tokens in parent prompt: 16".to_string(),
            "Total number of tokens: 136".to_string(),
        ]
    );
}

#[test]
fn over_budget_message_names_total_and_ceiling() {
    assert_eq!(
        over_budget_message(&TokenUsage { text_tokens: 4000, prompt_tokens: 97 }, 4096),
        "The total number of tokens (4097) exceeds the maximum allowed tokens for the model (4096). Please reduce the input size."
    );
}

#[test]
fn over_budget_report_holds_counts_and_ceiling() {
    let report = report_refusal(&Refusal::OverBudget {
        usage: TokenUsage { text_tokens: 9000, prompt_tokens: 20 },
        ceiling: 8192,
    });
    assert_eq!(
        report,
        Report {
            lines: vec![
                "Number of tokens in the text file: 9000".to_string(),
                "Number of tokens in parent prompt: 20".to_string(),
                "Total number of tokens: 9020".to_string(),
                "The total number of tokens (9020) exceeds the maximum allowed tokens for the model (8192). Please reduce the input size.".to_string(),
            ],
            failed: true,
        }
    );
}

#[test]
fn missing_credential_report_gives_guidance() {
    let report = report_refusal(&Refusal::NoCredential {
        usage: TokenUsage { text_tokens: 5, prompt_tokens: 16 },
    });
    assert!(report.failed);
    assert_eq!(report.lines.len(), 4);
    assert_eq!(report.lines[2], "Total number of tokens: 21");
    assert_eq!(report.lines[3], credential_guidance_text());
    assert!(report.lines[3].starts_with("OPENAI_API_KEY environment variable not set."));
    assert!(report.lines[3].contains("$ export OPENAI_API_KEY=your_api_key_here\n"));
    assert!(report.lines[3].ends_with("https://beta.openai.com/docs/"));
    assert_eq!(report.lines[3].lines().count(), 9);
}

#[test]
fn tokenizer_report_is_one_line() {
    assert_eq!(
        report_refusal(&Refusal::Tokenizer),
        Report { lines: vec!["Error: the input could not be tokenized.".to_string()], failed: true }
    );
}

#[test]
fn transport_failure_is_surfaced_verbatim() {
    assert_eq!(
        report_transport_failure("operation timed out"),
        Report { lines: vec!["Error: operation timed out".to_string()], failed: true }
    );
}

#[test]
fn first_reply_is_the_first_choice() {
    assert_eq!(first_reply(&reply_with(&["one", "two"])), Ok("one".to_string()));
    assert_eq!(first_reply(&reply_with(&[""])), Ok(String::new()));
}

#[test]
fn empty_choices_is_an_error() {
    assert_eq!(first_reply(&reply_with(&[])), Err(EmptyChoices));
}

#[test]
fn reply_is_printed_alone() {
    assert_eq!(
        conclude(false, "{...}", &Ok(reply_with(&["Gravity pulls.", "other"]))),
        Report { lines: vec!["Gravity pulls.".to_string()], failed: false }
    );
}

#[test]
fn raw_body_comes_first() {
    assert_eq!(
        conclude(true, "{\"choices\":[]}", &Ok(reply_with(&["Gravity pulls."]))),
        Report {
            lines: vec![
                "Raw API response: {\"choices\":[]}".to_string(),
                "Gravity pulls.".to_string(),
            ],
            failed: false,
        }
    );
}

#[test]
fn raw_body_is_shown_even_when_decoding_fails() {
    assert_eq!(
        conclude(true, "<html>", &Err("expected value at line 1 column 1".to_string())),
        Report {
            lines: vec![
                "Raw API response: <html>".to_string(),
                "Error: expected value at line 1 column 1".to_string(),
            ],
            failed: true,
        }
    );
}

#[test]
fn decode_error_is_reported() {
    assert_eq!(
        conclude(false, "<html>", &Err("expected value".to_string())),
        Report { lines: vec!["Error: expected value".to_string()], failed: true }
    );
}

#[test]
fn empty_choices_are_reported_clearly() {
    assert_eq!(
        conclude(false, "{\"choices\":[]}", &Ok(reply_with(&[]))),
        Report { lines: vec!["Error: the response holds no choices.".to_string()], failed: true }
    );
    assert_eq!(
        conclude(true, "{\"choices\":[]}", &Ok(reply_with(&[]))),
        Report {
            lines: vec![
                "Raw API response: {\"choices\":[]}".to_string(),
                "Error: the response holds no choices.".to_string(),
            ],
            failed: true,
        }
    );
}
