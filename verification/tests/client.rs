use davinci::{
    bearer_header, build_prompt, first_choice_text, settle, Choice, CompletionRequest,
    CompletionResponse, DavinciError, FetchOutcome, Usage,
};

fn response_from_json(text: &str) -> Option<CompletionResponse> {
    let v: serde_json::Value = serde_json::from_str(text).ok()?;
    let choices = v.get("choices")?.as_array()?;
    let mut parsed: Vec<Choice> = Vec::new();
    for c in choices {
        parsed.push(Choice {
            text: c.get("text")?.as_str()?.to_string(),
            index: c.get("index")?.as_u64()? as u8,
            logprobs: c.get("logprobs")?.as_i64().map(|n| n as i32),
            finish_reason: c.get("finish_reason")?.as_str()?.to_string(),
        });
    }
    let usage = v.get("usage")?;
    Some(CompletionResponse {
        id: v.get("id")?.as_str()?.to_string(),
        object: v.get("object")?.as_str()?.to_string(),
        created: v.get("created")?.as_u64()?,
        model: v.get("model")?.as_str()?.to_string(),
        choices: parsed,
        usage: Usage {
            prompt_tokens: usage.get("prompt_tokens")?.as_i64()? as i32,
            completion_tokens: usage.get("completion_tokens")?.as_i64()? as i32,
            total_tokens: usage.get("total_tokens")?.as_i64()? as i32,
        },
    })
}

#[test]
fn prompt_exact_template() {
    let p = build_prompt("You are a helpful assistant.", "What is 2+2?");
    assert_eq!(p, "You are a helpful assistant..\nH: What is 2+2?.\nIA:");
}

#[test]
fn prompt_empty_inputs() {
    assert_eq!(build_prompt("", ""), ".\nH: .\nIA:");
}

#[test]
fn prompt_passes_text_through_unmodified() {
    let p = build_prompt("a \"quoted\" context", "a\\question");
    assert_eq!(p, "a \"quoted\" context.\nH: a\\question.\nIA:");
}

#[test]
fn bearer_header_exact() {
    assert_eq!(bearer_header("sk-test"), "Bearer sk-test");
    assert_eq!(bearer_header(""), "Bearer ");
}

#[test]
fn request_body_exact_text() {
    let prompt = build_prompt("You are a helpful assistant.", "What is 2+2?");
    let req = CompletionRequest::new(prompt, 10);
    let body = req.to_json();
    assert_eq!(
        body,
        "{\"model\":\"text-davinci-003\",\"prompt\":\"You are a helpful assistant..\\nH: What is 2+2?.\\nIA:\",\"temperature\":0.9,\"max_tokens\":10,\"top_p\":1,\"frequency_penalty\":0.0,\"presence_penalty\":0.6,\"stop\":[\"\\n\"]}"
    );
}

#[test]
fn request_body_fixed_fields() {
    for (prompt, max_tokens) in [("one prompt", 10), ("another\nprompt", 2048)] {
        let req = CompletionRequest::new(prompt.to_string(), max_tokens);
        let v: serde_json::Value = serde_json::from_str(&req.to_json()).unwrap();
        assert_eq!(v["model"].as_str(), Some("text-davinci-003"));
        assert_eq!(v["temperature"].as_f64(), Some(0.9));
        assert_eq!(v["top_p"].as_i64(), Some(1));
        assert_eq!(v["frequency_penalty"].as_f64(), Some(0.0));
        assert_eq!(v["presence_penalty"].as_f64(), Some(0.6));
        let stop = v["stop"].as_array().unwrap();
        assert_eq!(stop.len(), 1);
        assert_eq!(stop[0].as_str(), Some("\n"));
        assert_eq!(v["max_tokens"].as_i64(), Some(max_tokens as i64));
    }
}

#[test]
fn request_body_max_tokens_identity() {
    for max_tokens in [0, 1, -5, i32::MAX, i32::MIN] {
        let req = CompletionRequest::new("p".to_string(), max_tokens);
        let v: serde_json::Value = serde_json::from_str(&req.to_json()).unwrap();
        assert_eq!(v["max_tokens"].as_i64(), Some(max_tokens as i64));
    }
    let req = CompletionRequest::new("p".to_string(), i32::MIN);
    assert!(req.to_json().contains("\"max_tokens\":-2147483648,"));
}

#[test]
fn request_body_escapes_prompt() {
    let tricky = "quote \" backslash \\ newline \n tab \t bell \u{7} high \u{1f} é";
    let req = CompletionRequest::new(tricky.to_string(), 1);
    let body = req.to_json();
    assert!(body.contains("quote \\\" backslash \\\\ newline \\n tab \\t bell \\u0007 high \\u001f é"));
    let v: serde_json::Value = serde_json::from_str(&body).unwrap();
    assert_eq!(v["prompt"].as_str(), Some(tricky));
}

#[test]
fn settle_transport_failure() {
    let r = settle(FetchOutcome::TransportFailure("connection refused".to_string()));
    assert_eq!(r, Err(DavinciError::Transport("connection refused".to_string())));
}

#[test]
fn settle_malformed_body() {
    let detail = match serde_json::from_str::<serde_json::Value>("{not json") {
        Err(e) => e.to_string(),
        Ok(_) => unreachable!(),
    };
    let r = settle(FetchOutcome::Fetched(Err(detail.clone())));
    assert_eq!(r, Err(DavinciError::MalformedResponse(detail)));
}

#[test]
fn settle_empty_choices() {
    let text = "{\"id\":\"1\",\"object\":\"text_completion\",\"created\":0,\"model\":\"text-davinci-003\",\"choices\":[],\"usage\":{\"prompt_tokens\":5,\"completion_tokens\":2,\"total_tokens\":7}}";
    let resp = response_from_json(text).unwrap();
    let r = settle(FetchOutcome::Fetched(Ok(resp)));
    assert_eq!(r, Err(DavinciError::EmptyChoices));
}

#[test]
fn settle_end_to_end_example() {
    let text = "{\"id\":\"1\",\"object\":\"text_completion\",\"created\":0,\"model\":\"text-davinci-003\",\"choices\":[{\"text\":\" 4\",\"index\":0,\"logprobs\":null,\"finish_reason\":\"stop\"}],\"usage\":{\"prompt_tokens\":5,\"completion_tokens\":2,\"total_tokens\":7}}";
    let prompt = build_prompt("You are a helpful assistant.", "What is 2+2?");
    let req = CompletionRequest::new(prompt, 10);
    let _body = req.to_json();
    let _auth = bearer_header("sk-test");
    let resp = response_from_json(text).unwrap();
    let r = settle(FetchOutcome::Fetched(Ok(resp)));
    assert_eq!(r, Ok(" 4".to_string()));
}

#[test]
fn first_choice_wins() {
    let resp = CompletionResponse {
        id: "1".to_string(),
        object: "text_completion".to_string(),
        created: 0,
        model: "text-davinci-003".to_string(),
        choices: vec![
            Choice {
                text: "  first ".to_string(),
                index: 0,
                logprobs: None,
                finish_reason: "stop".to_string(),
            },
            Choice {
                text: "second".to_string(),
                index: 1,
                logprobs: Some(3),
                finish_reason: "stop".to_string(),
            },
        ],
        usage: Usage { prompt_tokens: 1, completion_tokens: 1, total_tokens: 2 },
    };
    assert_eq!(first_choice_text(&resp), Ok("  first ".to_string()));
}

#[test]
fn error_descriptions() {
    assert_eq!(
        DavinciError::Transport("x".to_string()).describe(),
        "transport failure: x"
    );
    assert_eq!(
        DavinciError::MalformedResponse("y".to_string()).describe(),
        "malformed response: y"
    );
    assert_eq!(
        DavinciError::EmptyChoices.describe(),
        "the response carried no choices"
    );
}

#[test]
fn decimal_renderings() {
    assert_eq!(davinci::encode::u32_to_decimal(0), "0");
    assert_eq!(davinci::encode::u32_to_decimal(10), "10");
    assert_eq!(davinci::encode::u32_to_decimal(4294967295), "4294967295");
    assert_eq!(davinci::encode::i32_to_decimal(-1), "-1");
    assert_eq!(davinci::encode::i32_to_decimal(2048), "2048");
    assert_eq!(davinci::encode::tenths_to_decimal(9), "0.9");
    assert_eq!(davinci::encode::tenths_to_decimal(0), "0.0");
    assert_eq!(davinci::encode::tenths_to_decimal(25), "2.5");
}

#[test]
fn escape_json_exact() {
    assert_eq!(davinci::encode::escape_json("plain"), "plain");
    assert_eq!(davinci::encode::escape_json("a\"b\\c\nd"), "a\\\"b\\\\c\\nd");
    assert_eq!(davinci::encode::escape_json("\u{8}\u{c}\r\t"), "\\b\\f\\r\\t");
    assert_eq!(davinci::encode::escape_json("\u{0}\u{1f}"), "\\u0000\\u001f");
}
