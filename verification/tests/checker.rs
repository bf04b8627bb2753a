use content_type_checker::conclude;
use content_type_checker::evaluate;
use content_type_checker::main_type_of;
use content_type_checker::observed_content_type;
use content_type_checker::plan_for_body;
use content_type_checker::plan_for_method;
use content_type_checker::BodyPlan;
use content_type_checker::CheckRequest;
use content_type_checker::status_of;
use content_type_checker::MethodPlan;
use content_type_checker::ProbeOutcome;
use content_type_checker::Rejection;
use content_type_checker::Reply;

fn strings(items: &[&str]) -> Vec<String> {
    items.iter().map(|s| s.to_string()).collect()
}

#[test]
fn main_type_splits_before_first_slash() {
    assert_eq!(main_type_of("text/html; charset=utf-8"), "text");
    assert_eq!(main_type_of("image/png"), "image");
    assert_eq!(main_type_of("a//b"), "a");
    assert_eq!(main_type_of("/plain"), "");
}

#[test]
fn main_type_of_slashless_string_is_empty() {
    assert_eq!(main_type_of(""), "");
    assert_eq!(main_type_of("text"), "");
}

#[test]
fn absent_header_is_observed_as_empty() {
    assert_eq!(observed_content_type(None), "");
    assert_eq!(observed_content_type(Some("image/png".to_string())), "image/png");
}

#[test]
fn exact_match_answers_ok() {
    let r = evaluate(
        "image/png".to_string(),
        Some(strings(&["image/jpeg", "image/png"])),
        None,
    );
    assert!(r.is_ok);
    assert_eq!(r.content_type, "image/png");
}

#[test]
fn exact_match_wins_whatever_the_main_types_say() {
    let r = evaluate(
        "image/png".to_string(),
        Some(strings(&["image/png"])),
        Some(strings(&["text"])),
    );
    assert!(r.is_ok);
}

#[test]
fn exact_match_is_verbatim() {
    // Case and parameters count: neither entry matches "text/html; charset=utf-8".
    let r = evaluate(
        "text/html; charset=utf-8".to_string(),
        Some(strings(&["text/html", "TEXT/HTML; CHARSET=UTF-8"])),
        None,
    );
    assert!(!r.is_ok);
    assert_eq!(r.content_type, "text/html; charset=utf-8");
}

#[test]
fn main_type_match_answers_ok_when_exact_list_is_absent() {
    let r = evaluate(
        "image/png".to_string(),
        None,
        Some(strings(&["video", "image"])),
    );
    assert!(r.is_ok);
}

#[test]
fn main_type_match_answers_ok_when_exact_list_is_empty() {
    let r = evaluate(
        "text/html; charset=utf-8".to_string(),
        Some(strings(&[])),
        Some(strings(&["text"])),
    );
    assert!(r.is_ok);
}

#[test]
fn main_types_are_consulted_when_exact_list_did_not_match() {
    let r = evaluate(
        "image/png".to_string(),
        Some(strings(&["image/jpeg"])),
        Some(strings(&["image"])),
    );
    assert!(r.is_ok);
}

#[test]
fn no_match_answers_not_ok_with_the_observed_type() {
    let r = evaluate(
        "application/json".to_string(),
        Some(strings(&["image/png"])),
        Some(strings(&["text"])),
    );
    assert!(!r.is_ok);
    assert_eq!(r.content_type, "application/json");
}

#[test]
fn no_criteria_answers_not_ok() {
    let r = evaluate("text/plain".to_string(), None, None);
    assert!(!r.is_ok);
    assert_eq!(r.content_type, "text/plain");
}

#[test]
fn criteria_are_echoed_back() {
    let r = evaluate(
        "text/plain".to_string(),
        Some(strings(&["image/png"])),
        Some(strings(&["image"])),
    );
    assert_eq!(r.expected_types, Some(strings(&["image/png"])));
    assert_eq!(r.expected_main_types, Some(strings(&["image"])));
}

#[test]
fn absent_header_without_empty_criterion_is_not_ok() {
    let ct = observed_content_type(None);
    let r = evaluate(ct, Some(strings(&["image/png"])), Some(strings(&["image"])));
    assert!(!r.is_ok);
    assert_eq!(r.content_type, "");
}

#[test]
fn absent_header_with_exact_empty_criterion_is_ok() {
    let ct = observed_content_type(None);
    let r = evaluate(ct, Some(strings(&[""])), None);
    assert!(r.is_ok);
}

#[test]
fn png_probe_scenario() {
    let request = CheckRequest {
        url: "https://x/img.png".to_string(),
        expected_types: Some(strings(&["image/png"])),
        expected_main_types: None,
    };
    let outcome = ProbeOutcome::Reached { header: Some("image/png".to_string()) };
    match conclude(request, outcome) {
        Reply::Verdict { response } => {
            assert!(response.is_ok);
            assert_eq!(response.content_type, "image/png");
        }
        Reply::Reject { .. } => panic!("the probe answered"),
    }
}

#[test]
fn main_type_probe_scenario() {
    let request = CheckRequest {
        url: "https://x/doc".to_string(),
        expected_types: None,
        expected_main_types: Some(strings(&["image"])),
    };
    let outcome = ProbeOutcome::Reached { header: Some("text/plain".to_string()) };
    match conclude(request, outcome) {
        Reply::Verdict { response } => {
            assert!(!response.is_ok);
            assert_eq!(response.content_type, "text/plain");
        }
        Reply::Reject { .. } => panic!("the probe answered"),
    }
}

#[test]
fn failed_probe_yields_no_verdict() {
    let request = CheckRequest {
        url: "https://x/gone".to_string(),
        expected_types: Some(strings(&["image/png"])),
        expected_main_types: None,
    };
    assert!(matches!(
        conclude(request, ProbeOutcome::Failed),
        Reply::Reject { rejection: Rejection::ProbeFailed }
    ));
}

#[test]
fn designated_method_reads_the_body() {
    assert!(matches!(plan_for_method(true), MethodPlan::ReadBody));
}

#[test]
fn other_methods_are_rejected_before_the_body() {
    assert!(matches!(
        plan_for_method(false),
        MethodPlan::Reject { rejection: Rejection::MethodNotAllowed }
    ));
}

#[test]
fn malformed_body_is_rejected_without_a_probe() {
    assert!(matches!(
        plan_for_body(None),
        BodyPlan::Reject { rejection: Rejection::BadRequest }
    ));
}

#[test]
fn each_failure_has_its_status() {
    assert_eq!(status_of(&Rejection::MethodNotAllowed), 405);
    assert_eq!(status_of(&Rejection::BadRequest), 400);
    assert_eq!(status_of(&Rejection::ProbeFailed), 500);
}

#[test]
fn parsed_body_is_probed_as_it_stands() {
    let request = CheckRequest {
        url: "https://x/img.png".to_string(),
        expected_types: Some(strings(&["image/png"])),
        expected_main_types: None,
    };
    match plan_for_body(Some(request)) {
        BodyPlan::Probe { request } => {
            assert_eq!(request.url, "https://x/img.png");
            assert_eq!(request.expected_types, Some(strings(&["image/png"])));
            assert_eq!(request.expected_main_types, None);
        }
        BodyPlan::Reject { .. } => panic!("the body parsed"),
    }
}
