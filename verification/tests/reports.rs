use promo::services::{
    BusinessRule, BusinessRuleReport, ConfigurationIssue, ConfigurationReport, IssueSeverity, RuleSeverity,
    ValidationReport, ValidationResult, ValidationSeverity,
};
use promo::value_objects::BackboneId;

#[test]
fn test_validation_report() {
    let mut report = ValidationReport::new(BackboneId::generate());

    report.add_result(ValidationResult::passed("test_rule".to_string(), "Test passed".to_string()));

    report.add_result(ValidationResult::failed(
        "test_rule2".to_string(),
        "Test failed".to_string(),
        ValidationSeverity::Error,
    ));

    report.generate_summary();

    assert!(!report.valid);
    assert_eq!(report.passed_count(), 1);
    assert_eq!(report.failed_count(), 1);
    assert!(report.summary.contains("1 passed, 1 failed"));
}

#[test]
fn test_business_rule_report() {
    let mut report = BusinessRuleReport::new();

    report.add_passed_rule(BusinessRule::passed("rule1".to_string(), "Rule 1".to_string(), "Passed".to_string()));

    report.add_violated_rule(BusinessRule::violated(
        "rule2".to_string(),
        "Rule 2".to_string(),
        RuleSeverity::High,
        "Violated".to_string(),
        Some("Fix it".to_string()),
    ));

    assert!(!report.allowed);
    assert!(report.has_violations());
    assert_eq!(report.passed_rules.len(), 1);
    assert_eq!(report.violated_rules.len(), 1);
}

#[test]
fn test_configuration_report() {
    let mut report = ConfigurationReport::new("test".to_string());

    assert!(report.valid);

    report.add_issue(ConfigurationIssue {
        component: "test".to_string(),
        severity: IssueSeverity::High,
        message: "Test issue".to_string(),
        suggestion: "Fix it".to_string(),
    });

    assert!(!report.valid);
    assert!(report.has_issues());
}
