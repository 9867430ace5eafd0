//! Job-status table behaviour.

use crusty_core::jobs::{JobState, JobStatus};
use crusty_core::options::{coerce_option_value, options_from_decls, options_get};
use crusty_core::plugin::{OptionDefault, OptionValue};

#[test]
fn job_status_lifecycle() {
    let mut jobs = JobState::default();
    assert_eq!(jobs.get_status("job-1"), None);
    jobs.set_status("job-1", JobStatus::Pending);
    assert_eq!(jobs.get_status("job-1").as_deref(), Some("pending"));
    jobs.set_status("job-1", JobStatus::Running);
    assert_eq!(jobs.get_status("job-1").as_deref(), Some("running"));
    jobs.set_completed("job-1", b"artifact".to_vec());
    assert_eq!(jobs.get_status("job-1").as_deref(), Some("completed"));
    assert_eq!(jobs.get_output("job-1"), Some(b"artifact".to_vec()));
}

#[test]
fn failed_job_keeps_no_output() {
    let mut jobs = JobState::new();
    jobs.set_status("job-2", JobStatus::Running);
    jobs.set_failed("job-2", "plugin exited with 1".to_string());
    assert_eq!(jobs.get_status("job-2").as_deref(), Some("failed"));
    assert_eq!(jobs.get_output("job-2"), None);
}

#[test]
fn jobs_are_tracked_independently() {
    let mut jobs = JobState::new();
    jobs.set_completed("a", b"one".to_vec());
    jobs.set_failed("b", "boom".to_string());
    assert_eq!(jobs.get_status("a").as_deref(), Some("completed"));
    assert_eq!(jobs.get_status("b").as_deref(), Some("failed"));
    assert_eq!(jobs.get_output("a"), Some(b"one".to_vec()));
    assert_eq!(jobs.get_output("b"), None);
    assert_eq!(jobs.get_status("c"), None);
}

#[test]
fn coercion_renders_each_literal_shape() {
    assert_eq!(coerce_option_value(&OptionValue::Text("en".to_string())), Some("en".to_string()));
    assert_eq!(coerce_option_value(&OptionValue::Integer(140)), Some("140".to_string()));
    assert_eq!(coerce_option_value(&OptionValue::Integer(-42)), Some("-42".to_string()));
    assert_eq!(coerce_option_value(&OptionValue::Integer(0)), Some("0".to_string()));
    assert_eq!(coerce_option_value(&OptionValue::Boolean(false)), Some("false".to_string()));
    assert_eq!(
        coerce_option_value(&OptionValue::Decimal("1.25".to_string())),
        Some("1.25".to_string())
    );
    assert_eq!(
        coerce_option_value(&OptionValue::Record(Some(OptionDefault::Integer(7)))),
        Some("7".to_string())
    );
    assert_eq!(
        coerce_option_value(&OptionValue::Record(Some(OptionDefault::Unsupported))),
        None
    );
    assert_eq!(coerce_option_value(&OptionValue::Record(None)), None);
    assert_eq!(coerce_option_value(&OptionValue::Other), None);
}

#[test]
fn option_table_resolution_keeps_order_and_overwrites() {
    let decls = vec![
        ("a".to_string(), OptionValue::Integer(1)),
        ("b".to_string(), OptionValue::Other),
        ("c".to_string(), OptionValue::Text("x".to_string())),
        ("a".to_string(), OptionValue::Integer(2)),
    ];
    let opts = options_from_decls(&decls);
    assert_eq!(
        opts,
        vec![("a".to_string(), "2".to_string()), ("c".to_string(), "x".to_string())]
    );
    assert_eq!(options_get(&opts, &"a".to_string()), Some("2".to_string()));
    assert_eq!(options_get(&opts, &"b".to_string()), None);
}
