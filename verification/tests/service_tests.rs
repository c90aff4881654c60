//! Tests of the service core: the offline responder, the live provider's
//! decision halves, and the factory.

use rust_gigachat_demo::config::GigaChatConfig;
use rust_gigachat_demo::services::{
    AiService, AiServiceError, AiServiceFactory, DispatchOutcome, GigaChatService, MockAiService,
    ServiceHandle, MOCK_FALLBACK_ANSWER, MOCK_GREETING_ANSWER, MOCK_ROCKET_ANSWER,
    MOCK_RUST_ANSWER, MOCK_TESTING_ANSWER,
};

fn test_config(enabled: bool) -> GigaChatConfig {
    GigaChatConfig {
        enabled,
        model: "GigaChat".to_string(),
        max_tokens: 128,
        temperature_milli: 700,
        timeout_seconds: 30,
    }
}

#[test]
fn test_mock_service() {
    let service = MockAiService::new();
    let answer = service.ask("Что такое Rust?").unwrap();
    assert!(answer.contains("Rust"));
}

#[test]
fn test_mock_service_name() {
    let service = MockAiService::new();
    assert_eq!(service.name(), "Mock AI Service");
}

#[test]
fn test_mock_never_fails_and_nonempty() {
    let service = MockAiService::new();
    let inputs = [
        "",
        "hi",
        "what is rust",
        "Что такое Rocket?",
        "completely unrelated text",
        "   ",
        "ПРИВЕТ",
    ];
    for q in inputs {
        let answer = service.ask(q).unwrap();
        assert!(!answer.is_empty());
    }
}

#[test]
fn test_greeting_detection() {
    let service = MockAiService::new();
    for q in ["hi", "hi there", "hi!", "hi, friend", "hello world"] {
        assert_eq!(service.ask(q).unwrap(), MOCK_GREETING_ANSWER);
    }
    // word-boundary care: "this is a test" is no greeting
    let answer = service.ask("this is a test").unwrap();
    assert_ne!(answer, MOCK_GREETING_ANSWER);
    assert_eq!(answer, MOCK_TESTING_ANSWER);
}

#[test]
fn test_topic_precedence_rocket_before_rust() {
    let service = MockAiService::new();
    let answer = service.ask("What is Rocket built on, Rust?").unwrap();
    assert_eq!(answer, MOCK_ROCKET_ANSWER);
    assert_ne!(answer, MOCK_RUST_ANSWER);
}

#[test]
fn test_mock_lowercases_its_input() {
    // would fail if the input were matched without lowercasing
    let service = MockAiService::new();
    assert_eq!(service.ask("ROCKET").unwrap(), MOCK_ROCKET_ANSWER);
    assert_eq!(service.ask("RUST").unwrap(), MOCK_RUST_ANSWER);
}

#[test]
fn test_mock_end_to_end_scenarios() {
    let service = MockAiService::new();
    let answer = service.ask("Что такое Rust?").unwrap();
    assert!(answer.contains("Rust"));
    let answer = service.ask("Что такое Rocket?").unwrap();
    assert!(answer.contains("Rocket"));
    // an empty question still gets the fallback paragraph, not an error
    let answer = service.ask("").unwrap();
    assert_eq!(answer, MOCK_FALLBACK_ANSWER);
}

#[test]
fn test_mock_many_independent_calls() {
    // 50 interleaved questions: each call answers from its input alone
    let service = MockAiService::new();
    for i in 0..50 {
        let (question, expected) = if i % 2 == 0 {
            ("Что такое Rust?", MOCK_RUST_ANSWER)
        } else {
            ("Что такое Rocket?", MOCK_ROCKET_ANSWER)
        };
        assert_eq!(service.ask(question).unwrap(), expected);
    }
}

#[test]
fn test_mock_fifty_concurrent_calls() {
    // one instance shared read-only across 50 concurrent callers
    let service = std::sync::Arc::new(MockAiService::new());
    let runtime = tokio::runtime::Builder::new_multi_thread()
        .worker_threads(4)
        .build()
        .unwrap();
    runtime.block_on(async {
        let mut handles = Vec::new();
        for i in 0..50 {
            let service = service.clone();
            handles.push(tokio::spawn(async move {
                let question = if i % 2 == 0 {
                    "Что такое Rust?"
                } else {
                    "Что такое Rocket?"
                };
                (i, service.ask(question).unwrap())
            }));
        }
        for handle in handles {
            let (i, answer) = handle.await.unwrap();
            let expected = if i % 2 == 0 {
                MOCK_RUST_ANSWER
            } else {
                MOCK_ROCKET_ANSWER
            };
            assert_eq!(answer, expected);
        }
    });
}

#[test]
fn test_mock_system_prompt_applied() {
    let service = MockAiService::new();
    assert!(!service.system_prompt_applied());
}

#[test]
fn test_giga_service_name() {
    let service = GigaChatService::new("tok".to_string(), test_config(true), None);
    assert_eq!(service.name(), "GigaChat");
}

#[test]
fn test_giga_prompt_applied() {
    let cfg = test_config(true);
    let none = GigaChatService::new("tok".to_string(), cfg.clone(), None);
    assert!(!none.system_prompt_applied());
    let empty = GigaChatService::new("tok".to_string(), cfg.clone(), Some("".to_string()));
    assert!(!empty.system_prompt_applied());
    let blank = GigaChatService::new("tok".to_string(), cfg.clone(), Some("   ".to_string()));
    assert!(!blank.system_prompt_applied());
    let set = GigaChatService::new("tok".to_string(), cfg, Some("Be concise".to_string()));
    assert!(set.system_prompt_applied());
}

#[test]
fn test_giga_blank_token_is_config_error_without_dispatch() {
    // a substitute for the provider client: counts how often the caller
    // would have dispatched
    let mut dispatches = 0;
    for token in ["", "   ", "\t\n"] {
        let service = GigaChatService::new(token.to_string(), test_config(true), None);
        match service.prepare_ask("What is Rust?") {
            Ok(_outbound) => {
                dispatches += 1;
            }
            Err(AiServiceError::ConfigError(detail)) => {
                assert_eq!(detail, "GigaChat token is empty");
            }
            Err(other) => panic!("wrong error kind: {:?}", other),
        }
    }
    assert_eq!(dispatches, 0);
}

#[test]
fn test_giga_outbound_without_prompt_is_question() {
    let service = GigaChatService::new("tok".to_string(), test_config(true), None);
    let outbound = service.prepare_ask("What is Rust?").unwrap();
    assert_eq!(outbound, "What is Rust?");
    let blank_prompt =
        GigaChatService::new("tok".to_string(), test_config(true), Some("  ".to_string()));
    let outbound = blank_prompt.prepare_ask("What is Rust?").unwrap();
    assert_eq!(outbound, "What is Rust?");
}

#[test]
fn test_giga_outbound_with_prompt_is_framed() {
    let service = GigaChatService::new(
        "tok".to_string(),
        test_config(true),
        Some("  Be concise  ".to_string()),
    );
    let outbound = service.prepare_ask("What is Rust?").unwrap();
    assert_eq!(
        outbound,
        "Системные инструкции (не выводи пользователю):\nBe concise\n\nВопрос пользователя:\nWhat is Rust?"
    );
}

#[test]
fn test_finish_ask_maps_outcomes() {
    let ok = GigaChatService::finish_ask(DispatchOutcome::Reply("fine".to_string()));
    assert_eq!(ok.unwrap(), "fine");

    let api = GigaChatService::finish_ask(DispatchOutcome::Transport("timed out".to_string()));
    match api {
        Err(AiServiceError::ApiError(d)) => assert_eq!(d, "timed out"),
        other => panic!("wrong result: {:?}", other),
    }

    let internal = GigaChatService::finish_ask(DispatchOutcome::Worker("worker died".to_string()));
    match internal {
        Err(AiServiceError::InternalError(d)) => assert_eq!(d, "worker died"),
        other => panic!("wrong result: {:?}", other),
    }
}

#[test]
fn test_error_messages() {
    let api = AiServiceError::ApiError("x".to_string());
    assert_eq!(api.message(), "Ошибка API: x");
    let cfg = AiServiceError::ConfigError("y".to_string());
    assert_eq!(cfg.message(), "Ошибка конфигурации: y");
    let internal = AiServiceError::InternalError("z".to_string());
    assert_eq!(internal.message(), "Внутренняя ошибка: z");
}

#[test]
fn test_factory_selects_live_provider() {
    let handle = AiServiceFactory::create(&test_config(true), Some("tok123".to_string()), None);
    match &handle {
        ServiceHandle::Giga(g) => {
            assert_eq!(g.token, "tok123");
            assert_eq!(g.config.model, "GigaChat");
        }
        ServiceHandle::Mock(_) => panic!("expected the live provider"),
    }
    assert_eq!(handle.name(), "GigaChat");
}

#[test]
fn test_factory_disabled_gives_mock_regardless_of_credential() {
    let handle = AiServiceFactory::create(&test_config(false), Some("tok123".to_string()), None);
    assert!(matches!(handle, ServiceHandle::Mock(_)));
    assert_eq!(handle.name(), "Mock AI Service");
}

#[test]
fn test_factory_missing_credential_gives_mock() {
    let handle = AiServiceFactory::create(&test_config(true), None, None);
    assert!(matches!(handle, ServiceHandle::Mock(_)));
}

#[test]
fn test_factory_passes_system_prompt_through() {
    let handle = AiServiceFactory::create(
        &test_config(true),
        Some("tok123".to_string()),
        Some("Be concise".to_string()),
    );
    assert!(handle.system_prompt_applied());
    let no_prompt = AiServiceFactory::create(&test_config(true), Some("tok123".to_string()), None);
    assert!(!no_prompt.system_prompt_applied());
}

#[test]
fn test_mock_default_matches_new() {
    let service = MockAiService::default();
    assert_eq!(service.name(), "Mock AI Service");
}
