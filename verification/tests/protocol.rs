use mindwolf::jsontext::{extract_string_field, parse_night_action_response, parse_u64};
use mindwolf::retry::{
    backoff_delay, retry_next, CallOutcome, CallPlanState, NextStep, RetryConfig,
};
use mindwolf::types::NightActionType;

fn chars(s: &str) -> Vec<char> {
    s.chars().collect()
}

#[test]
fn test_backoff_doubles_and_caps() {
    let cfg = RetryConfig::default();
    assert_eq!(backoff_delay(&cfg, 1), 1000);
    assert_eq!(backoff_delay(&cfg, 2), 2000);
    assert_eq!(backoff_delay(&cfg, 3), 4000);
    assert_eq!(backoff_delay(&cfg, 5), 16000);
    assert_eq!(backoff_delay(&cfg, 6), 30000);
    assert_eq!(backoff_delay(&cfg, 60), 30000);
}

#[test]
fn test_retry_plan_walks_primary_then_fallbacks() {
    let cfg = RetryConfig::default();
    let st = CallPlanState { endpoint: 0, attempt: 1 };
    let (step, st) = retry_next(&cfg, 2, st, CallOutcome::Failure);
    assert_eq!(step, NextStep::RetryAfter(1000));
    assert_eq!(st, CallPlanState { endpoint: 0, attempt: 2 });
    let (step, st) = retry_next(&cfg, 2, st, CallOutcome::Failure);
    assert_eq!(step, NextStep::RetryAfter(2000));
    assert_eq!(st, CallPlanState { endpoint: 0, attempt: 3 });
    let (step, st) = retry_next(&cfg, 2, st, CallOutcome::Failure);
    assert_eq!(step, NextStep::AdvanceEndpoint);
    assert_eq!(st, CallPlanState { endpoint: 1, attempt: 1 });
    let (step, st) = retry_next(&cfg, 2, st, CallOutcome::Failure);
    assert_eq!(step, NextStep::AdvanceEndpoint);
    assert_eq!(st, CallPlanState { endpoint: 2, attempt: 1 });
    let (step, _) = retry_next(&cfg, 2, st, CallOutcome::Failure);
    assert_eq!(step, NextStep::GiveUp);
}

#[test]
fn test_retry_plan_success_short_circuits() {
    let cfg = RetryConfig::default();
    let st = CallPlanState { endpoint: 1, attempt: 1 };
    let (step, st2) = retry_next(&cfg, 3, st, CallOutcome::Success);
    assert_eq!(step, NextStep::Done);
    assert_eq!(st2, st);
}

#[test]
fn test_retry_plan_without_fallbacks() {
    let cfg = RetryConfig::default();
    let st = CallPlanState { endpoint: 0, attempt: 3 };
    let (step, _) = retry_next(&cfg, 0, st, CallOutcome::Failure);
    assert_eq!(step, NextStep::GiveUp);
}

#[test]
fn test_extract_string_field() {
    let text = chars("{\"action\":\"kill\",\"target\":\"3\"}");
    assert_eq!(
        extract_string_field(&text, &chars("action")),
        Some(chars("kill"))
    );
    assert_eq!(extract_string_field(&text, &chars("target")), Some(chars("3")));
    assert_eq!(extract_string_field(&text, &chars("missing")), None);
    let unterminated = chars("{\"action\":\"kil");
    assert_eq!(extract_string_field(&unterminated, &chars("action")), None);
}

#[test]
fn test_parse_u64_cases() {
    assert_eq!(parse_u64(&chars("0")), Some(0));
    assert_eq!(parse_u64(&chars("123")), Some(123));
    assert_eq!(parse_u64(&chars("18446744073709551615")), Some(u64::MAX));
    assert_eq!(parse_u64(&chars("18446744073709551616")), None);
    assert_eq!(parse_u64(&chars("")), None);
    assert_eq!(parse_u64(&chars("12a")), None);
}

#[test]
fn test_parse_night_action_response() {
    let reply = chars("{\"action\":\"kill\",\"target\":\"3\"}");
    let action = parse_night_action_response(7, &reply).unwrap();
    assert_eq!(action.player, 7);
    assert_eq!(action.action, NightActionType::Kill);
    assert_eq!(action.target, Some(3));

    let heal = chars("{\"action\":\"heal\"}");
    let action = parse_night_action_response(2, &heal).unwrap();
    assert_eq!(action.action, NightActionType::Heal);
    assert_eq!(action.target, None);

    let unknown = chars("{\"action\":\"dance\",\"target\":\"3\"}");
    assert!(parse_night_action_response(2, &unknown).is_none());

    let noise = chars("i will not answer in the requested shape");
    assert!(parse_night_action_response(2, &noise).is_none());

    let check = chars("{\"action\":\"check\",\"target\":\"0\"}");
    let action = parse_night_action_response(4, &check).unwrap();
    assert_eq!(action.action, NightActionType::Check);
    assert_eq!(action.target, Some(0));

    let bad_target = chars("{\"action\":\"poison\",\"target\":\"alice\"}");
    let action = parse_night_action_response(4, &bad_target).unwrap();
    assert_eq!(action.action, NightActionType::Poison);
    assert_eq!(action.target, None);
}
