use sentinel::finding::AnalysisJob;
use sentinel::security::{
    compiler_warnings, create_error_result, security_result, InformationalFinding, ToolReport,
    COMPILER_WARNING_TYPE, ERROR_TYPE, SECURITY_WORKER_NAME,
};

fn job() -> AnalysisJob {
    AnalysisJob { job_id: "c-3".to_string(), source_code: String::new(), context: None }
}

#[test]
fn warnings_are_picked_and_trimmed() {
    let notes = compiler_warnings("Compiling...\n  Warning: Unused local variable.  \r\nError: x\nWarning: shadowing");
    let messages: Vec<&str> = notes.iter().map(|n| n.message.as_str()).collect();
    assert_eq!(messages, vec!["Warning: Unused local variable.", "Warning: shadowing"]);
    assert!(notes.iter().all(|n| n.finding_type == COMPILER_WARNING_TYPE));
}

#[test]
fn no_warnings_in_clean_output() {
    assert!(compiler_warnings("").is_empty());
    assert!(compiler_warnings("warning: lower case does not count").is_empty());
}

#[test]
fn error_result_carries_the_message() {
    let result = create_error_result(&job(), "Failed to create temporary file: denied");
    assert_eq!(result.job_id, "c-3");
    assert_eq!(result.worker_name, SECURITY_WORKER_NAME);
    assert_eq!(result.output.informational_findings.len(), 1);
    assert_eq!(result.output.informational_findings[0].finding_type, ERROR_TYPE);
    assert_eq!(result.output.informational_findings[0].message, "Failed to create temporary file: denied");
    assert!(matches!(result.output.report, ToolReport::Absent));
}

#[test]
fn a_failed_run_keeps_the_reason_and_no_notes() {
    let result = security_result(&job(), Err("Slither failed to produce an output file.".to_string()));
    assert!(result.output.informational_findings.is_empty());
    match result.output.report {
        ToolReport::Failed(reason) => assert_eq!(reason, "Slither failed to produce an output file."),
        other => panic!("unexpected report {:?}", other),
    }
}

#[test]
fn a_successful_run_keeps_report_and_notes() {
    let report = serde_json::Value::Bool(true);
    let notes = vec![InformationalFinding { finding_type: "Compiler Warning".to_string(), message: "Warning: x".to_string() }];
    let result = security_result(&job(), Ok((report, notes)));
    assert_eq!(result.job_id, "c-3");
    assert_eq!(result.output.informational_findings.len(), 1);
    match result.output.report {
        ToolReport::Report(v) => assert_eq!(v, serde_json::Value::Bool(true)),
        other => panic!("unexpected report {:?}", other),
    }
}
