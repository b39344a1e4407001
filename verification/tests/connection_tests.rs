use changyan::connection::{
    bench_refusal_message, bench_status_result, bench_subscription_result, check_base_url,
    check_refusal_answer, join_base, model_names, plan_llm_bench_probe, plan_llm_test_probe,
    plan_models_probe, plan_stt_probe, subscription_is_pro, ModelListing, Probe, ProbeRefusal,
};

#[test]
fn base_url_checks() {
    assert_eq!(check_base_url("https://api.example.com/v1"), Ok(()));
    assert_eq!(check_base_url("http://localhost:11434"), Ok(()));
    assert_eq!(
        check_base_url("ftp://example.com"),
        Err("Base URL must use http or https scheme".to_string())
    );
    assert_eq!(
        check_base_url("not a url"),
        Err("Invalid base URL: relative URL without a base".to_string())
    );
}

#[test]
fn trailing_slashes_are_dropped_before_the_path() {
    assert_eq!(join_base("https://x.io/v1///", "/models"), "https://x.io/v1/models");
    assert_eq!(join_base("https://x.io", "/models"), "https://x.io/models");
}

#[test]
fn stt_probe_plans() {
    assert!(matches!(plan_stt_probe("", "k", "t", "b"), Err(ProbeRefusal::NoProvider)));
    assert!(matches!(plan_stt_probe("cloud", "", "", "b"), Err(ProbeRefusal::NotSignedIn)));
    match plan_stt_probe("cloud", "", "tok", "https://api.example.com") {
        Ok(Probe::SubscriptionStatus { url, authorization }) => {
            assert_eq!(url, "https://api.example.com/api/subscription/status");
            assert_eq!(authorization, "Bearer tok");
        }
        _ => panic!("expected a subscription check"),
    }
    assert!(matches!(plan_stt_probe("deepgram", "", "", "b"), Err(ProbeRefusal::NoApiKey)));
    match plan_stt_probe("deepgram", "dk", "", "b") {
        Ok(Probe::Get { url, authorization }) => {
            assert_eq!(url, "https://api.deepgram.com/v1/projects");
            assert_eq!(authorization, "Token dk");
        }
        _ => panic!("expected a GET"),
    }
    match plan_stt_probe("assemblyai", "ak", "", "b") {
        Ok(Probe::Get { authorization, .. }) => assert_eq!(authorization, "ak"),
        _ => panic!("expected a GET"),
    }
    match plan_stt_probe("glm-asr", "gk", "", "b") {
        Ok(Probe::Upload { url, authorization, model, extra_fields }) => {
            assert_eq!(url, "https://open.bigmodel.cn/api/paas/v4/audio/transcriptions");
            assert_eq!(authorization, "Bearer gk");
            assert_eq!(model, "glm-asr-2512");
            assert_eq!(extra_fields, vec![("stream".to_string(), "false".to_string())]);
        }
        _ => panic!("expected an upload"),
    }
    match plan_stt_probe("groq-whisper", "q", "", "b") {
        Ok(Probe::Upload { model, extra_fields, .. }) => {
            assert_eq!(model, "whisper-large-v3-turbo");
            assert!(extra_fields.is_empty());
        }
        _ => panic!("expected an upload"),
    }
    assert!(matches!(plan_stt_probe("mystery", "k", "", "b"), Err(ProbeRefusal::UnknownProvider)));
}

#[test]
fn refusal_answers() {
    assert_eq!(check_refusal_answer(ProbeRefusal::NoApiKey, "deepgram"), Ok(false));
    assert_eq!(
        check_refusal_answer(ProbeRefusal::UnknownProvider, "mystery"),
        Err("Unknown STT provider: mystery".to_string())
    );
    assert_eq!(bench_refusal_message(ProbeRefusal::NoProvider, ""), "No provider specified");
    assert_eq!(bench_refusal_message(ProbeRefusal::NotSignedIn, "cloud"), "Not signed in");
    assert_eq!(bench_refusal_message(ProbeRefusal::NoApiKey, "x"), "API key is empty");
    assert_eq!(
        bench_refusal_message(ProbeRefusal::NoApiKeyOrBaseUrl, "x"),
        "API key or base URL is empty"
    );
}

#[test]
fn llm_probe_plans() {
    match plan_llm_test_probe("openai", "sk", "https://api.openai.com/v1/", "gpt", "", "b") {
        Ok(Probe::ChatCompletion { url, authorization, model }) => {
            assert_eq!(url, "https://api.openai.com/v1/chat/completions");
            assert_eq!(authorization, "Bearer sk");
            assert_eq!(model, "gpt");
        }
        _ => panic!("expected a chat completion"),
    }
    assert!(matches!(
        plan_llm_test_probe("openai", "", "https://x", "m", "", "b"),
        Err(ProbeRefusal::NoApiKeyOrBaseUrl)
    ));
    match plan_llm_test_probe("openai", "k", "file:///etc", "m", "", "b") {
        Err(ProbeRefusal::BadBaseUrl(m)) => assert_eq!(m, "Base URL must use http or https scheme"),
        _ => panic!("expected a refusal"),
    }
    match plan_llm_bench_probe("cloud", "", "", "", "tok", "https://c") {
        Ok(Probe::CloudChat { url, authorization }) => {
            assert_eq!(url, "https://c/api/proxy/llm");
            assert_eq!(authorization, "Bearer tok");
        }
        _ => panic!("expected a cloud chat"),
    }
    assert!(matches!(
        plan_llm_bench_probe("cloud", "", "", "", "", "https://c"),
        Err(ProbeRefusal::NotSignedIn)
    ));
    match plan_models_probe("k", "http://localhost:11434/v1") {
        Ok(Probe::ListModels { url, .. }) => assert_eq!(url, "http://localhost:11434/v1/models"),
        _ => panic!("expected a model listing"),
    }
    assert!(matches!(plan_models_probe("k", ""), Err(ProbeRefusal::NoBaseUrl)));
}

#[test]
fn response_verdicts() {
    assert!(subscription_is_pro(true, Some("pro")));
    assert!(!subscription_is_pro(true, Some("free")));
    assert!(!subscription_is_pro(false, Some("pro")));
    assert_eq!(bench_subscription_result(false, None, 5), Err("Request failed".to_string()));
    assert_eq!(bench_subscription_result(true, Some("free"), 5), Err("Pro plan required".to_string()));
    assert_eq!(bench_subscription_result(true, Some("pro"), 5), Ok(5));
    assert_eq!(bench_status_result(true, "200 OK", 42), Ok(42));
    assert_eq!(bench_status_result(false, "401 Unauthorized", 42), Err("HTTP 401 Unauthorized".to_string()));
}

#[test]
fn model_names_are_sorted() {
    let s = |x: &str| Some(x.to_string());
    let listing = ModelListing {
        data: Some(vec![s("gpt-4o"), None, s("gpt-3.5"), s("Zeta"), s("o1")]),
        models: Some(vec![s("ignored")]),
    };
    assert_eq!(model_names(&listing), vec!["Zeta", "gpt-3.5", "gpt-4o", "o1"]);
    let ollama = ModelListing { data: None, models: Some(vec![s("qwen2"), s("llama3")]) };
    assert_eq!(model_names(&ollama), vec!["llama3", "qwen2"]);
    let none = ModelListing { data: None, models: None };
    assert!(model_names(&none).is_empty());
    let mut expected = vec!["b".to_string(), "a".to_string(), "ab".to_string(), "é".to_string(), "z".to_string()];
    let listing = ModelListing { data: Some(expected.iter().cloned().map(Some).collect()), models: None };
    expected.sort();
    assert_eq!(model_names(&listing), expected);
}
