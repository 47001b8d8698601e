use relay_server::http::respond;
use relay_server::model_router::check_api_status;
use relay_server::model_router::generation_result;
use relay_server::model_router::get_provider;
use relay_server::model_router::handle_provider;
use relay_server::model_router::model_route;
use relay_server::model_router::parse_post;
use relay_server::model_router::FailureReason;
use relay_server::model_router::FetchOutcome;
use relay_server::model_router::FirstOption;
use relay_server::model_router::GenFailure;
use relay_server::model_router::HealthStatus;
use relay_server::model_router::Payload;
use relay_server::model_router::ProviderName;
use relay_server::model_router::ProviderOptions;
use relay_server::model_router::RouteError;
use relay_server::model_router::Router;
use relay_server::model_router::RouterAction;
use relay_server::settings::ServiceConfig;
use relay_server::settings::Settings;

fn demo_settings() -> Settings {
    Settings {
        openai: ServiceConfig {
            endpoint: "https://api.openai.example/v1/chat/completions".to_string(),
            models: vec!["gpt-4".to_string(), "gpt-3.5-turbo".to_string()],
            status: "https://status.openai.example/api/v2/status.json".to_string(),
        },
        cohere: ServiceConfig {
            endpoint: "https://api.cohere.example/v1/chat".to_string(),
            models: vec!["command".to_string(), "command-light".to_string()],
            status: "https://status.cohere.example/api/v2/status.json".to_string(),
        },
    }
}

fn first(model: &str, prompt: &str, provider: ProviderName) -> FirstOption {
    FirstOption { model: model.to_string(), prompt: prompt.to_string(), provider }
}

fn scnd(model: &str, prompt: &str, provider: ProviderName) -> relay_server::model_router::ScndOption {
    relay_server::model_router::ScndOption {
        model: model.to_string(),
        prompt: prompt.to_string(),
        provider,
    }
}

#[test]
fn test_check_api_status() {
    // A "none" indicator is the only operational answer.
    assert_eq!(
        check_api_status(ProviderName::OpenAi, &FetchOutcome::Indicator("none".to_string())),
        Ok(HealthStatus::Operational)
    );
    // Any other indicator is an incident.
    assert_eq!(
        check_api_status(ProviderName::OpenAi, &FetchOutcome::Indicator("major".to_string())),
        Err(FailureReason::Incident)
    );
    // Each fetch failure keeps its distinguishing reason.
    assert_eq!(
        check_api_status(ProviderName::Cohere, &FetchOutcome::TimedOut),
        Err(FailureReason::TimedOut)
    );
    assert_eq!(
        check_api_status(ProviderName::Cohere, &FetchOutcome::TransportFailed),
        Err(FailureReason::TransportFailed)
    );
    assert_eq!(
        check_api_status(ProviderName::Cohere, &FetchOutcome::Malformed),
        Err(FailureReason::MalformedStatus)
    );
    // An unknown provider fails whatever the outcome says.
    assert_eq!(
        check_api_status(ProviderName::NoneKnown, &FetchOutcome::Indicator("none".to_string())),
        Err(FailureReason::UnknownProvider)
    );
}

#[test]
fn get_provider_classifies_against_the_model_table() {
    let settings = demo_settings();
    assert_eq!(get_provider(&settings, &"gpt-4".to_string()), ProviderName::OpenAi);
    assert_eq!(get_provider(&settings, &"gpt-3.5-turbo".to_string()), ProviderName::OpenAi);
    assert_eq!(get_provider(&settings, &"command-light".to_string()), ProviderName::Cohere);
    assert_eq!(get_provider(&settings, &"mystery-model".to_string()), ProviderName::NoneKnown);
    assert_eq!(get_provider(&settings, &"".to_string()), ProviderName::NoneKnown);
}

#[test]
fn parse_post_defaults_missing_slots_to_empty_strings() {
    let settings = demo_settings();
    let payload = Payload { model: vec!["gpt-4".to_string()], prompt: vec![] };
    let (first_option, scnd_option) = parse_post(&settings, payload);
    assert_eq!(first_option.model, "gpt-4");
    assert_eq!(first_option.prompt, "");
    assert_eq!(first_option.provider, ProviderName::OpenAi);
    assert_eq!(scnd_option.model, "");
    assert_eq!(scnd_option.prompt, "");
    assert_eq!(scnd_option.provider, ProviderName::NoneKnown);
}

#[test]
fn healthy_primary_is_selected_whatever_the_secondary_reports() {
    let ok = FetchOutcome::Indicator("none".to_string());
    for scnd_outcome in [
        FetchOutcome::Indicator("none".to_string()),
        FetchOutcome::Indicator("critical".to_string()),
        FetchOutcome::TimedOut,
        FetchOutcome::TransportFailed,
        FetchOutcome::Malformed,
    ] {
        let selected = model_route(
            first("gpt-4", "Hi", ProviderName::OpenAi),
            scnd("command-light", "Hi", ProviderName::Cohere),
            &ok,
            &scnd_outcome,
        );
        match selected {
            Ok(ProviderOptions::First(f)) => {
                assert_eq!(f.model, "gpt-4");
                assert_eq!(f.provider, ProviderName::OpenAi);
            }
            _ => panic!("primary healthy, so the primary must be selected"),
        }
    }
}

#[test]
fn unhealthy_primary_falls_back_to_healthy_secondary() {
    let selected = model_route(
        first("gpt-4", "Hi", ProviderName::OpenAi),
        scnd("command-light", "Hi", ProviderName::Cohere),
        &FetchOutcome::Indicator("major".to_string()),
        &FetchOutcome::Indicator("none".to_string()),
    );
    match selected {
        Ok(ProviderOptions::Second(s)) => {
            assert_eq!(s.model, "command-light");
            assert_eq!(s.prompt, "Hi");
            assert_eq!(s.provider, ProviderName::Cohere);
        }
        _ => panic!("secondary healthy, so the secondary must be selected"),
    }
}

#[test]
fn both_unhealthy_fails_with_both_reasons() {
    let selected = model_route(
        first("gpt-4", "Hi", ProviderName::OpenAi),
        scnd("command-light", "Hi", ProviderName::Cohere),
        &FetchOutcome::TimedOut,
        &FetchOutcome::Indicator("minor".to_string()),
    );
    match selected {
        Err(RouteError::AllProvidersDown { primary, secondary }) => {
            assert_eq!(primary, FailureReason::TimedOut);
            assert_eq!(secondary, FailureReason::Incident);
        }
        _ => panic!("both down must fail with AllProvidersDown"),
    }
}

#[test]
fn generation_failure_is_surfaced_and_not_retried() {
    let selected = ProviderOptions::Second(scnd("command-light", "Hi", ProviderName::Cohere));
    let r = generation_result(&selected, Err(GenFailure::TimedOut));
    assert_eq!(
        r,
        Err(RouteError::GenerationFailed {
            provider: ProviderName::Cohere,
            cause: GenFailure::TimedOut,
        })
    );
    let ok = generation_result(&selected, Ok("Hello".to_string()));
    assert_eq!(ok, Ok("Hello".to_string()));
}

#[test]
fn handle_provider_unpacks_the_selected_candidate() {
    let (prompt, provider, model) =
        handle_provider(ProviderOptions::First(first("gpt-4", "Hi", ProviderName::OpenAi)));
    assert_eq!((prompt.as_str(), provider, model.as_str()), ("Hi", ProviderName::OpenAi, "gpt-4"));
    let (prompt, provider, model) =
        handle_provider(ProviderOptions::Second(scnd("command", "Yo", ProviderName::Cohere)));
    assert_eq!((prompt.as_str(), provider, model.as_str()), ("Yo", ProviderName::Cohere, "command"));
}

#[test]
fn request_falls_back_and_answers_with_the_generated_text() {
    // The request names gpt-4 first and command-light second; gpt-4's
    // provider fails its health check, command-light's passes and its
    // generation call answers "Hello".
    let settings = demo_settings();
    let payload = Payload {
        model: vec!["gpt-4".to_string(), "command-light".to_string()],
        prompt: vec!["Hi".to_string(), "Hi".to_string()],
    };
    let (first_option, scnd_option) = parse_post(&settings, payload);
    let (machine, action) = Router::start(first_option, scnd_option);
    assert!(matches!(action, RouterAction::CheckHealth(ProviderName::OpenAi)));
    let (machine, action) = machine.on_health(&FetchOutcome::TransportFailed);
    assert!(matches!(action, RouterAction::CheckHealth(ProviderName::Cohere)));
    let (machine, action) = machine.on_health(&FetchOutcome::Indicator("none".to_string()));
    match &action {
        RouterAction::Generate { provider, model, prompt } => {
            assert_eq!(*provider, ProviderName::Cohere);
            assert_eq!(model, "command-light");
            assert_eq!(prompt, "Hi");
        }
        _ => panic!("the secondary passed its check, so generation must be requested"),
    }
    let (machine, action) = machine.on_generation(Ok("Hello".to_string()));
    assert!(matches!(action, RouterAction::Finished));
    let result = machine.into_result();
    assert_eq!(result, Ok("Hello".to_string()));
    let reply = respond(result);
    assert_eq!(reply.status, 200);
    assert_eq!(reply.body, "{\"response\":\"Hello\"}");
}

#[test]
fn request_with_both_checks_failing_answers_an_error() {
    let settings = demo_settings();
    let payload = Payload {
        model: vec!["gpt-4".to_string(), "command-light".to_string()],
        prompt: vec!["Hi".to_string(), "Hi".to_string()],
    };
    let (first_option, scnd_option) = parse_post(&settings, payload);
    let (machine, action) = Router::start(first_option, scnd_option);
    assert!(matches!(action, RouterAction::CheckHealth(ProviderName::OpenAi)));
    let (machine, action) = machine.on_health(&FetchOutcome::TimedOut);
    assert!(matches!(action, RouterAction::CheckHealth(ProviderName::Cohere)));
    let (machine, action) = machine.on_health(&FetchOutcome::Indicator("critical".to_string()));
    assert!(matches!(action, RouterAction::Finished));
    let result = machine.into_result();
    assert_eq!(
        result,
        Err(RouteError::AllProvidersDown {
            primary: FailureReason::TimedOut,
            secondary: FailureReason::Incident,
        })
    );
    let reply = respond(result);
    assert_eq!(reply.status, 500);
    assert_eq!(
        reply.body,
        "{\"status\":\"error\",\"reason\":\"all providers down: primary timed out, secondary status incident\"}"
    );
}

#[test]
fn unknown_model_fails_immediately_without_any_check() {
    let settings = demo_settings();
    let payload = Payload {
        model: vec!["mystery-model".to_string(), "other-mystery".to_string()],
        prompt: vec!["Hi".to_string(), "Hi".to_string()],
    };
    let (first_option, scnd_option) = parse_post(&settings, payload);
    assert_eq!(first_option.provider, ProviderName::NoneKnown);
    assert_eq!(scnd_option.provider, ProviderName::NoneKnown);
    let (machine, action) = Router::start(first_option, scnd_option);
    // No health-check action was ever requested: the machine is done at once.
    assert!(matches!(action, RouterAction::Finished));
    assert_eq!(
        machine.into_result(),
        Err(RouteError::AllProvidersDown {
            primary: FailureReason::UnknownProvider,
            secondary: FailureReason::UnknownProvider,
        })
    );
}

#[test]
fn unknown_primary_skips_straight_to_the_secondary_check() {
    let settings = demo_settings();
    let payload = Payload {
        model: vec!["mystery-model".to_string(), "command".to_string()],
        prompt: vec!["Hi".to_string(), "Hi".to_string()],
    };
    let (first_option, scnd_option) = parse_post(&settings, payload);
    let (machine, action) = Router::start(first_option, scnd_option);
    // The primary's provider is unknown, so the only check requested is the secondary's.
    assert!(matches!(action, RouterAction::CheckHealth(ProviderName::Cohere)));
    let (machine, action) = machine.on_health(&FetchOutcome::Indicator("none".to_string()));
    assert!(matches!(action, RouterAction::Generate { .. }));
    let (machine, _) = machine.on_generation(Ok("Hello".to_string()));
    assert_eq!(machine.into_result(), Ok("Hello".to_string()));
}

#[test]
fn deadline_exceeded_behaves_like_an_unreachable_provider() {
    let healthy = FetchOutcome::Indicator("none".to_string());
    let timed_out = model_route(
        first("gpt-4", "Hi", ProviderName::OpenAi),
        scnd("command-light", "Hi", ProviderName::Cohere),
        &FetchOutcome::TimedOut,
        &healthy,
    );
    let unreachable = model_route(
        first("gpt-4", "Hi", ProviderName::OpenAi),
        scnd("command-light", "Hi", ProviderName::Cohere),
        &FetchOutcome::TransportFailed,
        &healthy,
    );
    // Both select the secondary; only the recorded reason may differ.
    assert!(matches!(timed_out, Ok(ProviderOptions::Second(_))));
    assert!(matches!(unreachable, Ok(ProviderOptions::Second(_))));
}
