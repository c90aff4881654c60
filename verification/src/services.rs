//! The service core: the error taxonomy, the offline keyword responder, the
//! live provider's decision logic, and the factory that selects between
//! them.

use vstd::prelude::*;

use crate::config::GigaChatConfig;
use crate::text::{
    chars_contains, chars_eq, chars_of, chars_starts_with, contains_seq, is_blank, lower_of,
    starts_with_seq, str_is_blank, str_trim, to_lowercase_str, trim_seq,
};

verus! {

/// The closed set of failures an AI service can report.
#[derive(Debug)]
pub enum AiServiceError {
    /// The provider was reached but the call failed: transport trouble,
    /// a timeout, or a failure the provider itself reported.
    ApiError(String),
    /// Invalid setup detected before any network attempt, such as a missing
    /// or blank credential.
    ConfigError(String),
    /// The isolation machinery around the provider client failed, e.g. the
    /// dedicated worker ended abnormally.
    InternalError(String),
}

impl AiServiceError {
    /// The human-readable description of the error: a fixed prefix naming
    /// the kind, then the detail text.
    pub open spec fn spec_message(&self) -> Seq<char> {
        match self {
            AiServiceError::ApiError(d) => "Ошибка API: "@ + d@,
            AiServiceError::ConfigError(d) => "Ошибка конфигурации: "@ + d@,
            AiServiceError::InternalError(d) => "Внутренняя ошибка: "@ + d@,
        }
    }

    /// Renders the error as one line of text.
    pub fn message(&self) -> (r: String)
        ensures
            r@ == self.spec_message(),
    {
        match self {
            AiServiceError::ApiError(d) => {
                let mut out = String::from_str("Ошибка API: ");
                out.append(d.as_str());
                out
            },
            AiServiceError::ConfigError(d) => {
                let mut out = String::from_str("Ошибка конфигурации: ");
                out.append(d.as_str());
                out
            },
            AiServiceError::InternalError(d) => {
                let mut out = String::from_str("Внутренняя ошибка: ");
                out.append(d.as_str());
                out
            },
        }
    }
}

// ---------------------------------------------------------------------------
// The capability contract
// ---------------------------------------------------------------------------

/// The capability set shared by every AI service implementation. Callers
/// hold one implementation, selected once at startup, and never branch on
/// the concrete type.
///
/// Answering itself is not part of this trait: the offline responder answers
/// synchronously, while the live provider must dispatch through an isolated
/// execution context that this library does not own. Each implementation
/// exposes its own verified answering entry points; the unverified runtime
/// shell composes them behind one asynchronous facade.
pub trait AiService {
    /// The identifier `name` returns, as a character sequence.
    spec fn spec_name(&self) -> Seq<char>;

    /// Whether a non-blank system prompt is prepended to every question.
    spec fn spec_prompt_applied(&self) -> bool;

    /// Stable, human-readable implementation identifier, used only for
    /// observability metadata.
    fn name(&self) -> (r: &str)
        ensures
            r@ == self.spec_name(),
    ;

    /// True exactly when this implementation is configured with a system
    /// prompt that is non-empty after trimming.
    fn system_prompt_applied(&self) -> (r: bool)
        ensures
            r == self.spec_prompt_applied(),
    ;
}

// ---------------------------------------------------------------------------
// The offline keyword responder
// ---------------------------------------------------------------------------

/// Canned paragraph for greetings.
pub const MOCK_GREETING_ANSWER: &'static str = "Hello! I'm a demo AI assistant for the Rust project.\n\nI'm running in mock mode, but I can answer questions about:\n- Rust programming language\n- Rocket web framework\n- Async programming\n- REST API and JSON\n- Testing\n- Error handling\n\nTry asking me about any of these topics! For full AI capabilities, configure the GigaChat API connection.";

/// Canned paragraph for the web-framework topic.
pub const MOCK_ROCKET_ANSWER: &'static str = "Rocket is a web framework for Rust that makes building fast and secure web applications simple and enjoyable. Key features:\n- Compile-time type safety\n- Convenient routing macros (#[get], #[post], etc.)\n- Automatic JSON deserialization\n- Built-in testing support\n- Flexible middleware system (fairings)\nRocket is ideal for building REST APIs and web services.";

/// Canned paragraph for the testing topic.
pub const MOCK_TESTING_ANSWER: &'static str = "Testing in Rust is a built-in language feature. Types of tests:\n- Unit tests (#[test]) - test individual functions\n- Integration tests (tests/ folder) - test component interactions\n- Doc tests - examples in documentation that are automatically verified\nRocket provides convenient tools for testing web apps via rocket::local::blocking::Client. Run with: cargo test";

/// Canned paragraph for the error-handling topic.
pub const MOCK_ERRORS_ANSWER: &'static str = "Error handling in Rust is based on Result<T, E> and Option<T> types:\n- Result - for operations that may fail\n- Option - for values that may be absent\n- ? operator - for convenient error propagation\n- thiserror - library for creating custom error types\nThis approach forces explicit error handling and eliminates many runtime issues.";

/// Canned paragraph for the serialization topic.
pub const MOCK_SERDE_ANSWER: &'static str = "Serde is a powerful framework for serializing and deserializing data in Rust. It allows you to:\n- Automatically convert JSON to Rust structs\n- Convert structs back to JSON\n- Work with other formats (TOML, YAML, MessagePack)\n- Use derive macros for automatic code generation\nExample: #[derive(Serialize, Deserialize)] makes a struct JSON-compatible.";

/// Canned paragraph for the async topic.
pub const MOCK_ASYNC_ANSWER: &'static str = "Async programming in Rust allows efficient handling of many tasks simultaneously without creating many threads. Key concepts:\n- async/await - syntax for async functions\n- Future - trait for async computations\n- Tokio - popular async runtime\n- Async trait - for async methods in traits\nEspecially useful for web servers, network apps, and I/O operations.";

/// Canned paragraph for the API topic.
pub const MOCK_API_ANSWER: &'static str = "REST API (Representational State Transfer) is an architectural style for building web services. Main principles:\n- GET - retrieve data\n- POST - create new resources\n- PUT/PATCH - update existing resources\n- DELETE - remove resources\nWith Rust and Rocket, building APIs is convenient thanks to type safety and automatic JSON handling via serde.";

/// Canned paragraph for the "how does it work" compound topic.
pub const MOCK_HOW_IT_WORKS_ANSWER: &'static str = "This app is a demo project showing how to build a web service in Rust. Architecture:\n- Rocket - accepts HTTP requests\n- Handlers - process requests (in src/handlers/)\n- Services - business logic and AI integration (in src/services/)\n- Models - data structures for API (in src/models/)\n- Config - configuration management (config.toml)\n\nThe service can run in two modes: with real GigaChat API or with mocks (current).";

/// Canned paragraph for the general-language topic.
pub const MOCK_RUST_ANSWER: &'static str = "Rust is a systems programming language focused on safety, speed, and concurrency. It was developed by Mozilla Research and first released in 2010. Rust guarantees memory safety without using a garbage collector through its ownership and borrowing system. This makes Rust ideal for systems programming, web servers, embedded systems, and high-performance applications.";

/// Generic fallback paragraph with usage hints.
pub const MOCK_FALLBACK_ANSWER: &'static str = "This is a demo response from the mock service.\n\nI can help with questions about:\n- Rust and its features\n- Rocket web framework\n- Async programming\n- REST API\n- Testing\n\nTry asking: 'What is Rust?' or 'How does Rocket work?'\n\nFor real AI responses, configure the GigaChat API by setting GIGACHAT_TOKEN environment variable and gigachat.enabled=true in config.toml.";

/// Greeting detection over the lowercased question: an exact "hi", any text
/// containing "hello", or a text starting with "hi " / "hi!" / "hi," — word
/// boundary care, so that "this" is no greeting.
pub open spec fn is_greeting(s: Seq<char>) -> bool {
    ||| contains_seq(s, "hello"@)
    ||| starts_with_seq(s, "hi "@)
    ||| starts_with_seq(s, "hi!"@)
    ||| starts_with_seq(s, "hi,"@)
    ||| s == "hi"@
}

/// The offline responder's answer to the lowercased question: an ordered
/// list of topic predicates, first match wins. Specific topics come before
/// the general-language topic, whose keyword is a substring of theirs.
pub open spec fn mock_answer(s: Seq<char>) -> Seq<char> {
    if is_greeting(s) {
        MOCK_GREETING_ANSWER@
    } else if contains_seq(s, "rocket"@) {
        MOCK_ROCKET_ANSWER@
    } else if contains_seq(s, "test"@) {
        MOCK_TESTING_ANSWER@
    } else if contains_seq(s, "error"@) {
        MOCK_ERRORS_ANSWER@
    } else if contains_seq(s, "serde"@) || contains_seq(s, "json"@) {
        MOCK_SERDE_ANSWER@
    } else if contains_seq(s, "async"@) {
        MOCK_ASYNC_ANSWER@
    } else if contains_seq(s, "api"@) {
        MOCK_API_ANSWER@
    } else if contains_seq(s, "how"@) && contains_seq(s, "work"@) {
        MOCK_HOW_IT_WORKS_ANSWER@
    } else if contains_seq(s, "rust"@) {
        MOCK_RUST_ANSWER@
    } else {
        MOCK_FALLBACK_ANSWER@
    }
}

/// Every canned answer, greeting included, is non-empty text; the responder
/// never answers with the empty string, whatever the question.
pub proof fn lemma_mock_answer_nonempty(s: Seq<char>)
    ensures
        mock_answer(s).len() > 0,
{
    reveal_strlit("Hello! I'm a demo AI assistant for the Rust project.\n\nI'm running in mock mode, but I can answer questions about:\n- Rust programming language\n- Rocket web framework\n- Async programming\n- REST API and JSON\n- Testing\n- Error handling\n\nTry asking me about any of these topics! For full AI capabilities, configure the GigaChat API connection.");
    reveal_strlit("Rocket is a web framework for Rust that makes building fast and secure web applications simple and enjoyable. Key features:\n- Compile-time type safety\n- Convenient routing macros (#[get], #[post], etc.)\n- Automatic JSON deserialization\n- Built-in testing support\n- Flexible middleware system (fairings)\nRocket is ideal for building REST APIs and web services.");
    reveal_strlit("Testing in Rust is a built-in language feature. Types of tests:\n- Unit tests (#[test]) - test individual functions\n- Integration tests (tests/ folder) - test component interactions\n- Doc tests - examples in documentation that are automatically verified\nRocket provides convenient tools for testing web apps via rocket::local::blocking::Client. Run with: cargo test");
    reveal_strlit("Error handling in Rust is based on Result<T, E> and Option<T> types:\n- Result - for operations that may fail\n- Option - for values that may be absent\n- ? operator - for convenient error propagation\n- thiserror - library for creating custom error types\nThis approach forces explicit error handling and eliminates many runtime issues.");
    reveal_strlit("Serde is a powerful framework for serializing and deserializing data in Rust. It allows you to:\n- Automatically convert JSON to Rust structs\n- Convert structs back to JSON\n- Work with other formats (TOML, YAML, MessagePack)\n- Use derive macros for automatic code generation\nExample: #[derive(Serialize, Deserialize)] makes a struct JSON-compatible.");
    reveal_strlit("Async programming in Rust allows efficient handling of many tasks simultaneously without creating many threads. Key concepts:\n- async/await - syntax for async functions\n- Future - trait for async computations\n- Tokio - popular async runtime\n- Async trait - for async methods in traits\nEspecially useful for web servers, network apps, and I/O operations.");
    reveal_strlit("REST API (Representational State Transfer) is an architectural style for building web services. Main principles:\n- GET - retrieve data\n- POST - create new resources\n- PUT/PATCH - update existing resources\n- DELETE - remove resources\nWith Rust and Rocket, building APIs is convenient thanks to type safety and automatic JSON handling via serde.");
    reveal_strlit("This app is a demo project showing how to build a web service in Rust. Architecture:\n- Rocket - accepts HTTP requests\n- Handlers - process requests (in src/handlers/)\n- Services - business logic and AI integration (in src/services/)\n- Models - data structures for API (in src/models/)\n- Config - configuration management (config.toml)\n\nThe service can run in two modes: with real GigaChat API or with mocks (current).");
    reveal_strlit("Rust is a systems programming language focused on safety, speed, and concurrency. It was developed by Mozilla Research and first released in 2010. Rust guarantees memory safety without using a garbage collector through its ownership and borrowing system. This makes Rust ideal for systems programming, web servers, embedded systems, and high-performance applications.");
    reveal_strlit("This is a demo response from the mock service.\n\nI can help with questions about:\n- Rust and its features\n- Rocket web framework\n- Async programming\n- REST API\n- Testing\n\nTry asking: 'What is Rust?' or 'How does Rocket work?'\n\nFor real AI responses, configure the GigaChat API by setting GIGACHAT_TOKEN environment variable and gigachat.enabled=true in config.toml.");
}

/// Topic precedence: a non-greeting question that mentions the web
/// framework gets the web-framework answer, even where it also mentions the
/// language, because the more specific topic is tested first. (A question
/// that is also a greeting gets the greeting answer instead.)
pub proof fn lemma_rocket_topic_precedes_rust(s: Seq<char>)
    requires
        contains_seq(s, "rocket"@),
        contains_seq(s, "rust"@),
        !is_greeting(s),
    ensures
        mock_answer(s) == MOCK_ROCKET_ANSWER@,
{
}

/// Offline, stateless, keyword-matching responder: a pure function of the
/// lowercased question, with no failure modes.
pub struct MockAiService;

impl MockAiService {
    /// Creates the offline responder; it holds no state.
    pub fn new() -> Self {
        Self
    }

    /// Answers from the fixed keyword table. Never fails, and the answer is
    /// never empty.
    pub fn ask(&self, question: &str) -> (r: Result<String, AiServiceError>)
        ensures
            r matches Ok(answer) && answer@ == mock_answer(lower_of(question@)),
            mock_answer(lower_of(question@)).len() > 0,
    {
        proof {
            lemma_mock_answer_nonempty(lower_of(question@));
        }
        let lowered = to_lowercase_str(question);
        let hay = chars_of(lowered.as_str());

        // Word-boundary care: an exact "hi", a leading "hi " / "hi!" /
        // "hi,", or "hello" anywhere — a bare substring test on "hi" would
        // false-positive on "this".
        let greeting = chars_contains(&hay, &chars_of("hello"))
            || chars_starts_with(&hay, &chars_of("hi "))
            || chars_starts_with(&hay, &chars_of("hi!"))
            || chars_starts_with(&hay, &chars_of("hi,"))
            || chars_eq(&hay, &chars_of("hi"));

        // More specific topics are tested before the general "rust" topic.
        let answer: &str = if greeting {
            MOCK_GREETING_ANSWER
        } else if chars_contains(&hay, &chars_of("rocket")) {
            MOCK_ROCKET_ANSWER
        } else if chars_contains(&hay, &chars_of("test")) {
            MOCK_TESTING_ANSWER
        } else if chars_contains(&hay, &chars_of("error")) {
            MOCK_ERRORS_ANSWER
        } else if chars_contains(&hay, &chars_of("serde")) || chars_contains(&hay, &chars_of("json")) {
            MOCK_SERDE_ANSWER
        } else if chars_contains(&hay, &chars_of("async")) {
            MOCK_ASYNC_ANSWER
        } else if chars_contains(&hay, &chars_of("api")) {
            MOCK_API_ANSWER
        } else if chars_contains(&hay, &chars_of("how")) && chars_contains(&hay, &chars_of("work")) {
            MOCK_HOW_IT_WORKS_ANSWER
        } else if chars_contains(&hay, &chars_of("rust")) {
            MOCK_RUST_ANSWER
        } else {
            MOCK_FALLBACK_ANSWER
        };
        Ok(String::from_str(answer))
    }
}

impl Default for MockAiService {
    /// The same stateless responder `new` creates.
    fn default() -> (r: Self)
        ensures
            r == (MockAiService {  }),
    {
        MockAiService::new()
    }
}

impl AiService for MockAiService {
    open spec fn spec_name(&self) -> Seq<char> {
        "Mock AI Service"@
    }

    open spec fn spec_prompt_applied(&self) -> bool {
        false
    }

    fn name(&self) -> (r: &str) {
        "Mock AI Service"
    }

    fn system_prompt_applied(&self) -> (r: bool) {
        false
    }
}

// ---------------------------------------------------------------------------
// The live provider
// ---------------------------------------------------------------------------

/// Instruction framing put before a configured system prompt.
pub const PROMPT_PREFIX: &'static str = "Системные инструкции (не выводи пользователю):\n";

/// Framing between the system prompt and the user's question.
pub const PROMPT_MIDDLE: &'static str = "\n\nВопрос пользователя:\n";

/// Detail text of the configuration error for a blank credential.
pub const EMPTY_TOKEN_DETAIL: &'static str = "GigaChat token is empty";

/// What one isolated dispatch to the external provider came back with.
/// The dispatch itself — a fresh client driven to completion inside a
/// dedicated worker — happens outside this library; its outcome is folded
/// into the service's result by [`GigaChatService::finish_ask`].
pub enum DispatchOutcome {
    /// The provider replied with this text.
    Reply(String),
    /// The provider was reached but the call failed, or transport failed
    /// (a timeout included); the description of the cause.
    Transport(String),
    /// The isolated worker itself ended abnormally; the description.
    Worker(String),
}

/// Network-backed provider: owns the credential, the tuning parameters and
/// an optional system prompt. Its `ask` is split in two verified halves
/// around the one outside call: [`Self::prepare_ask`] decides whether to
/// dispatch at all and composes the outbound text, and
/// [`Self::finish_ask`] turns the dispatch outcome into the result.
pub struct GigaChatService {
    /// Authorization credential for the provider; never logged or echoed.
    pub token: String,
    /// Tuning parameters, fixed at construction.
    pub config: GigaChatConfig,
    /// Optional instruction text prepended (trimmed) to every question.
    pub system_prompt: Option<String>,
}

impl GigaChatService {
    /// Packs credential, configuration and optional system prompt.
    pub fn new(token: String, config: GigaChatConfig, system_prompt: Option<String>) -> (r: Self)
        ensures
            r.token == token,
            r.config == config,
            r.system_prompt == system_prompt,
    {
        Self { token, config, system_prompt }
    }

    /// The credential is empty or whitespace-only, so no dispatch may be
    /// attempted.
    pub open spec fn spec_token_blank(&self) -> bool {
        is_blank(self.token@)
    }

    /// The exact text sent to the provider for a question: the question
    /// unchanged, or, with a non-blank system prompt configured, the fixed
    /// instruction framing around the trimmed prompt and the question.
    pub open spec fn spec_outbound(&self, question: Seq<char>) -> Seq<char> {
        match self.system_prompt {
            Option::Some(p) => if is_blank(p@) {
                question
            } else {
                PROMPT_PREFIX@ + trim_seq(p@) + PROMPT_MIDDLE@ + question
            },
            Option::None => question,
        }
    }

    /// The decision half of `ask` that precedes any outside work: fail with
    /// a configuration error on a blank credential — in that case nothing
    /// may be dispatched — or compose the outbound text to dispatch.
    pub fn prepare_ask(&self, question: &str) -> (r: Result<String, AiServiceError>)
        ensures
            self.spec_token_blank() ==> (r matches Err(e) && e matches AiServiceError::ConfigError(d)
                && d@ == EMPTY_TOKEN_DETAIL@),
            !self.spec_token_blank() ==> (r matches Ok(t) && t@ == self.spec_outbound(question@)),
    {
        if str_is_blank(self.token.as_str()) {
            return Err(AiServiceError::ConfigError(String::from_str(EMPTY_TOKEN_DETAIL)));
        }
        match &self.system_prompt {
            Option::Some(p) => {
                if str_is_blank(p.as_str()) {
                    Ok(String::from_str(question))
                } else {
                    let trimmed = str_trim(p.as_str());
                    let mut out = String::from_str(PROMPT_PREFIX);
                    out.append(trimmed);
                    out.append(PROMPT_MIDDLE);
                    out.append(question);
                    Ok(out)
                }
            },
            Option::None => Ok(String::from_str(question)),
        }
    }

    /// The result half of `ask`, after the isolated dispatch ran: a reply
    /// is returned verbatim, a transport or provider failure becomes an API
    /// error, and an abnormal end of the worker becomes an internal error.
    pub fn finish_ask(outcome: DispatchOutcome) -> (r: Result<String, AiServiceError>)
        ensures
            outcome matches DispatchOutcome::Reply(t) ==> r matches Ok(a) && a == t,
            outcome matches DispatchOutcome::Transport(d) ==> r matches Err(e)
                && e matches AiServiceError::ApiError(m) && m == d,
            outcome matches DispatchOutcome::Worker(d) ==> r matches Err(e)
                && e matches AiServiceError::InternalError(m) && m == d,
    {
        match outcome {
            DispatchOutcome::Reply(t) => Ok(t),
            DispatchOutcome::Transport(d) => Err(AiServiceError::ApiError(d)),
            DispatchOutcome::Worker(d) => Err(AiServiceError::InternalError(d)),
        }
    }
}

impl AiService for GigaChatService {
    open spec fn spec_name(&self) -> Seq<char> {
        "GigaChat"@
    }

    open spec fn spec_prompt_applied(&self) -> bool {
        match self.system_prompt {
            Option::Some(p) => !is_blank(p@),
            Option::None => false,
        }
    }

    fn name(&self) -> (r: &str) {
        "GigaChat"
    }

    fn system_prompt_applied(&self) -> (r: bool) {
        match &self.system_prompt {
            Option::Some(p) => !str_is_blank(p.as_str()),
            Option::None => false,
        }
    }
}

// ---------------------------------------------------------------------------
// Selection
// ---------------------------------------------------------------------------

/// The one implementation a process runs with, selected once at startup by
/// [`AiServiceFactory::create`] and shared read-only afterwards.
pub enum ServiceHandle {
    /// The live, network-backed provider.
    Giga(GigaChatService),
    /// The offline keyword responder.
    Mock(MockAiService),
}

impl AiService for ServiceHandle {
    open spec fn spec_name(&self) -> Seq<char> {
        match self {
            ServiceHandle::Giga(g) => g.spec_name(),
            ServiceHandle::Mock(m) => m.spec_name(),
        }
    }

    open spec fn spec_prompt_applied(&self) -> bool {
        match self {
            ServiceHandle::Giga(g) => g.spec_prompt_applied(),
            ServiceHandle::Mock(m) => m.spec_prompt_applied(),
        }
    }

    fn name(&self) -> (r: &str) {
        match self {
            ServiceHandle::Giga(g) => g.name(),
            ServiceHandle::Mock(m) => m.name(),
        }
    }

    fn system_prompt_applied(&self) -> (r: bool) {
        match self {
            ServiceHandle::Giga(g) => g.system_prompt_applied(),
            ServiceHandle::Mock(m) => m.system_prompt_applied(),
        }
    }
}

/// The two implementations are distinguishable by their identifiers: the
/// offline responder's name differs from the live provider's.
pub proof fn lemma_service_names_distinct(mock: &MockAiService, giga: &GigaChatService)
    ensures
        mock.spec_name() != giga.spec_name(),
{
    reveal_strlit("Mock AI Service");
    reveal_strlit("GigaChat");
    assert("Mock AI Service"@.len() == 15);
    assert("GigaChat"@.len() == 8);
}

/// The single point of provider-selection policy.
pub struct AiServiceFactory;

impl AiServiceFactory {
    /// Selects the implementation: the live provider exactly when it is
    /// enabled and a credential is present (emptiness of the credential is
    /// checked later, by the provider itself); the offline responder
    /// otherwise. Pure: no side effect beyond construction.
    pub fn create(
        config: &GigaChatConfig,
        token: Option<String>,
        system_prompt: Option<String>,
    ) -> (r: ServiceHandle)
        ensures
            config.enabled && token is Some ==> (r matches ServiceHandle::Giga(g)
                && g.token == token->0
                && g.config.enabled == config.enabled
                && g.config.model@ == config.model@
                && g.config.max_tokens == config.max_tokens
                && g.config.temperature_milli == config.temperature_milli
                && g.config.timeout_seconds == config.timeout_seconds
                && g.system_prompt == system_prompt),
            !(config.enabled && token is Some) ==> r is Mock,
    {
        match (config.enabled, token) {
            (true, Some(token)) => {
                ServiceHandle::Giga(GigaChatService::new(token, config.clone(), system_prompt))
            },
            _ => ServiceHandle::Mock(MockAiService::new()),
        }
    }
}

} // verus!
