//! Validation, business-rule and configuration reports on backbones, and the default
//! validation service that produces them.

use vstd::prelude::*;
use vstd::string::*;
use crate::backbone::{strings_view, Backbone};
use crate::specifications::has_duplicate;
use crate::text::{byte_len, str_byte_len, str_eq};
use crate::timestamp::BackboneTimestamp;
use crate::value_objects::{BackboneId, BackboneStatus};

verus! {

// ------------------------------------------------------------------------------------------
// Number and list rendering
// ------------------------------------------------------------------------------------------

/// Decimal digits of `n`, most significant first.
pub open spec fn decimal_text(n: nat) -> Seq<char>
    decreases n,
{
    if n < 10 {
        seq![((n + 48) as u8) as char]
    } else {
        decimal_text(n / 10) + seq![(((n % 10) + 48) as u8) as char]
    }
}

/// The decimal text of `n`.
pub fn usize_text(n: usize) -> (r: String)
    ensures
        r@ == decimal_text(n as nat),
    decreases n,
{
    let d: u8 = (n % 10) as u8;
    let c = (d + 48) as char;
    let mut s = if n < 10 {
        String::new()
    } else {
        usize_text(n / 10)
    };
    let one = char_text(c);
    s.append(one.as_str());
    proof {
        if n < 10 {
            assert(s@ =~= seq![c]);
        } else {
            assert(s@ =~= decimal_text((n / 10) as nat) + seq![c]);
        }
    }
    s
}

/// `c` as a one-character string.
#[verifier::external_body]
fn char_text(c: char) -> (r: String)
    ensures
        r@ == seq![c],
{
    c.to_string()
}

/// Debug rendering of a list of strings (`{:?}` of a `Vec<String>`).
pub uninterp spec fn spec_debug_strings(v: Seq<Seq<char>>) -> Seq<char>;

/// `format!("{:?}", v)` for a list of strings.
#[verifier::external_body]
fn debug_strings(v: &Vec<String>) -> (r: String)
    ensures
        r@ == spec_debug_strings(strings_view(v@)),
{
    format!("{:?}", v)
}

// ------------------------------------------------------------------------------------------
// Validation results and reports
// ------------------------------------------------------------------------------------------

/// How serious a failed validation is.
#[derive(Debug, Clone, Copy, PartialEq, Eq, Structural)]
pub enum ValidationSeverity {
    Error,
    Warning,
    Info,
}

/// The outcome of one validation rule.
#[derive(Debug, Clone)]
pub struct ValidationResult {
    pub rule: String,
    pub passed: bool,
    pub message: String,
    pub severity: ValidationSeverity,
    pub details: Vec<String>,
}

impl ValidationResult {
    pub fn passed(rule: String, message: String) -> (r: Self)
        ensures
            r.rule@ == rule@,
            r.message@ == message@,
            r.passed,
            r.severity == ValidationSeverity::Info,
            r.details@.len() == 0,
    {
        ValidationResult { rule, passed: true, message, severity: ValidationSeverity::Info, details: Vec::new() }
    }

    pub fn failed(rule: String, message: String, severity: ValidationSeverity) -> (r: Self)
        ensures
            r.rule@ == rule@,
            r.message@ == message@,
            !r.passed,
            r.severity == severity,
            r.details@.len() == 0,
    {
        ValidationResult { rule, passed: false, message, severity, details: Vec::new() }
    }

    pub fn with_details(self, details: Vec<String>) -> (r: Self)
        ensures
            r.details == details,
            r.rule == self.rule,
            r.passed == self.passed,
            r.message == self.message,
            r.severity == self.severity,
    {
        ValidationResult { details, ..self }
    }
}

/// Number of passed results.
pub open spec fn count_passed(rs: Seq<ValidationResult>) -> nat
    decreases rs.len(),
{
    if rs.len() == 0 {
        0
    } else {
        count_passed(rs.drop_last()) + if rs.last().passed { 1nat } else { 0nat }
    }
}

proof fn lemma_count_passed_le(rs: Seq<ValidationResult>)
    ensures
        count_passed(rs) <= rs.len(),
    decreases rs.len(),
{
    if rs.len() > 0 {
        lemma_count_passed_le(rs.drop_last());
    }
}

/// The summary sentence for `passed` passes and `failed` failures.
pub open spec fn summary_text(passed: nat, failed: nat) -> Seq<char> {
    if passed == 0 && failed == 0 {
        "No validation rules executed"@
    } else if failed == 0 {
        "All "@ + decimal_text(passed) + " validation rules passed"@
    } else if passed == 0 {
        "All "@ + decimal_text(failed) + " validation rules failed"@
    } else {
        decimal_text(passed) + " passed, "@ + decimal_text(failed) + " failed out of "@
            + decimal_text(passed + failed) + " total"@
    }
}

/// All validation results for one backbone; valid exactly when every result passed.
#[derive(Debug, Clone)]
pub struct ValidationReport {
    pub backbone_id: BackboneId,
    pub valid: bool,
    pub results: Vec<ValidationResult>,
    pub summary: String,
    pub validated_at: BackboneTimestamp,
}

impl ValidationReport {
    /// `valid` records that every result passed.
    pub open spec fn wf(&self) -> bool {
        self.valid == (count_passed(self.results@) == self.results@.len())
    }

    pub fn new(backbone_id: BackboneId) -> (r: Self)
        ensures
            r.backbone_id == backbone_id,
            r.valid,
            r.results@.len() == 0,
            r.summary@.len() == 0,
            r.wf(),
    {
        ValidationReport {
            backbone_id,
            valid: true,
            results: Vec::new(),
            summary: String::new(),
            validated_at: BackboneTimestamp::now(),
        }
    }

    /// Record a result; a failure makes the report invalid.
    pub fn add_result(&mut self, result: ValidationResult)
        requires
            old(self).wf(),
        ensures
            final(self).wf(),
            final(self).results@ == old(self).results@.push(result),
            final(self).valid == (old(self).valid && result.passed),
            final(self).backbone_id == old(self).backbone_id,
            final(self).summary == old(self).summary,
    {
        proof {
            lemma_count_passed_le(self.results@);
            assert(self.results@.push(result).drop_last() == self.results@);
        }
        if !result.passed {
            self.valid = false;
        }
        self.results.push(result);
    }

    pub fn passed_count(&self) -> (r: usize)
        ensures
            r == count_passed(self.results@),
    {
        let n = self.results.len();
        let mut i: usize = 0;
        let mut k: usize = 0;
        while i < n
            invariant
                n == self.results@.len(),
                i <= n,
                k == count_passed(self.results@.subrange(0, i as int)),
                k <= i,
            decreases n - i,
        {
            proof {
                assert(self.results@.subrange(0, i + 1).drop_last() =~= self.results@.subrange(0, i as int));
            }
            if self.results[i].passed {
                k = k + 1;
            }
            i = i + 1;
        }
        assert(self.results@.subrange(0, n as int) =~= self.results@);
        k
    }

    pub fn failed_count(&self) -> (r: usize)
        ensures
            r == self.results@.len() - count_passed(self.results@),
    {
        proof {
            lemma_count_passed_le(self.results@);
        }
        self.results.len() - self.passed_count()
    }

    /// Set the summary sentence from the pass/fail counts.
    pub fn generate_summary(&mut self)
        ensures
            final(self).summary@ == summary_text(
                count_passed(old(self).results@),
                (old(self).results@.len() - count_passed(old(self).results@)) as nat,
            ),
            final(self).results == old(self).results,
            final(self).valid == old(self).valid,
            final(self).backbone_id == old(self).backbone_id,
    {
        let passed = self.passed_count();
        let failed = self.failed_count();
        let total = self.results.len();
        let s = if passed == 0 && failed == 0 {
            String::from_str("No validation rules executed")
        } else if failed == 0 {
            String::from_str("All ").concat(usize_text(passed).as_str()).concat(
                " validation rules passed",
            )
        } else if passed == 0 {
            String::from_str("All ").concat(usize_text(failed).as_str()).concat(
                " validation rules failed",
            )
        } else {
            usize_text(passed).concat(" passed, ").concat(usize_text(failed).as_str()).concat(
                " failed out of ",
            ).concat(usize_text(total).as_str()).concat(" total")
        };
        self.summary = s;
    }
}

// ------------------------------------------------------------------------------------------
// Business rules
// ------------------------------------------------------------------------------------------

/// How serious a business-rule violation is.
#[derive(Debug, Clone, Copy, PartialEq, Eq, Structural)]
pub enum RuleSeverity {
    Critical,
    High,
    Medium,
    Low,
    Info,
}

/// One evaluated business rule.
#[derive(Debug, Clone)]
pub struct BusinessRule {
    pub name: String,
    pub description: String,
    pub passed: bool,
    pub severity: RuleSeverity,
    pub message: String,
    pub recommendation: Option<String>,
}

impl BusinessRule {
    pub fn passed(name: String, description: String, message: String) -> (r: Self)
        ensures
            r.name@ == name@,
            r.description@ == description@,
            r.message@ == message@,
            r.passed,
            r.severity == RuleSeverity::Info,
            r.recommendation is None,
    {
        BusinessRule { name, description, passed: true, severity: RuleSeverity::Info, message, recommendation: None }
    }

    pub fn violated(
        name: String,
        description: String,
        severity: RuleSeverity,
        message: String,
        recommendation: Option<String>,
    ) -> (r: Self)
        ensures
            r.name@ == name@,
            r.description@ == description@,
            r.message@ == message@,
            !r.passed,
            r.severity == severity,
            r.recommendation == recommendation,
    {
        BusinessRule { name, description, passed: false, severity, message, recommendation }
    }
}

/// The business rules checked for an operation; allowed exactly when none was violated.
#[derive(Debug, Clone)]
pub struct BusinessRuleReport {
    pub allowed: bool,
    pub violated_rules: Vec<BusinessRule>,
    pub passed_rules: Vec<BusinessRule>,
    pub recommendation: String,
    pub evaluated_at: BackboneTimestamp,
}

impl BusinessRuleReport {
    /// `allowed` records that no rule was violated.
    pub open spec fn wf(&self) -> bool {
        self.allowed == (self.violated_rules@.len() == 0)
    }

    pub fn new() -> (r: Self)
        ensures
            r.allowed,
            r.violated_rules@.len() == 0,
            r.passed_rules@.len() == 0,
            r.recommendation@.len() == 0,
            r.wf(),
    {
        BusinessRuleReport {
            allowed: true,
            violated_rules: Vec::new(),
            passed_rules: Vec::new(),
            recommendation: String::new(),
            evaluated_at: BackboneTimestamp::now(),
        }
    }

    pub fn add_violated_rule(&mut self, rule: BusinessRule)
        ensures
            final(self).wf(),
            !final(self).allowed,
            final(self).violated_rules@ == old(self).violated_rules@.push(rule),
            final(self).passed_rules == old(self).passed_rules,
            final(self).recommendation == old(self).recommendation,
    {
        self.allowed = false;
        self.violated_rules.push(rule);
    }

    pub fn add_passed_rule(&mut self, rule: BusinessRule)
        ensures
            final(self).passed_rules@ == old(self).passed_rules@.push(rule),
            final(self).allowed == old(self).allowed,
            final(self).violated_rules == old(self).violated_rules,
            final(self).recommendation == old(self).recommendation,
    {
        self.passed_rules.push(rule);
    }

    pub fn has_violations(&self) -> (r: bool)
        ensures
            r == (self.violated_rules@.len() != 0),
    {
        self.violated_rules.len() != 0
    }
}

// ------------------------------------------------------------------------------------------
// Configuration reports
// ------------------------------------------------------------------------------------------

/// How serious a configuration issue is.
#[derive(Debug, Clone, Copy, PartialEq, Eq, Structural)]
pub enum IssueSeverity {
    Critical,
    High,
    Medium,
    Low,
}

/// A configuration problem that makes the configuration invalid.
#[derive(Debug, Clone)]
pub struct ConfigurationIssue {
    pub component: String,
    pub severity: IssueSeverity,
    pub message: String,
    pub suggestion: String,
}

/// A configuration remark that does not invalidate it.
#[derive(Debug, Clone)]
pub struct ConfigurationWarning {
    pub component: String,
    pub message: String,
    pub recommendation: String,
}

/// Configuration check of a backbone; valid exactly when it has no issue.
#[derive(Debug, Clone)]
pub struct ConfigurationReport {
    pub valid: bool,
    pub issues: Vec<ConfigurationIssue>,
    pub warnings: Vec<ConfigurationWarning>,
    pub validation_profile: String,
    pub validated_at: BackboneTimestamp,
}

impl ConfigurationReport {
    /// `valid` records that there is no issue.
    pub open spec fn wf(&self) -> bool {
        self.valid == (self.issues@.len() == 0)
    }

    pub fn new(profile: String) -> (r: Self)
        ensures
            r.valid,
            r.issues@.len() == 0,
            r.warnings@.len() == 0,
            r.validation_profile@ == profile@,
            r.wf(),
    {
        ConfigurationReport {
            valid: true,
            issues: Vec::new(),
            warnings: Vec::new(),
            validation_profile: profile,
            validated_at: BackboneTimestamp::now(),
        }
    }

    pub fn add_issue(&mut self, issue: ConfigurationIssue)
        ensures
            final(self).wf(),
            !final(self).valid,
            final(self).issues@ == old(self).issues@.push(issue),
            final(self).warnings == old(self).warnings,
            final(self).validation_profile == old(self).validation_profile,
    {
        self.valid = false;
        self.issues.push(issue);
    }

    pub fn add_warning(&mut self, warning: ConfigurationWarning)
        ensures
            final(self).warnings@ == old(self).warnings@.push(warning),
            final(self).valid == old(self).valid,
            final(self).issues == old(self).issues,
            final(self).validation_profile == old(self).validation_profile,
    {
        self.warnings.push(warning);
    }

    pub fn has_issues(&self) -> (r: bool)
        ensures
            r == (self.issues@.len() != 0),
    {
        self.issues.len() != 0
    }
}

/// Risk of an optimisation.
#[derive(Debug, Clone, Copy, PartialEq, Eq, Structural)]
pub enum OptimizationRisk {
    Low,
    Medium,
    High,
    Critical,
}

/// State of a generated report.
#[derive(Debug, Clone, Copy, PartialEq, Eq, Structural)]
pub enum ReportStatus {
    Pending,
    Processing,
    Completed,
    Failed,
    Expired,
}

/// One configuration change an optimisation made.
#[derive(Debug, Clone)]
pub struct ConfigurationOptimization {
    pub component: String,
    pub setting: String,
    pub old_value: String,
    pub new_value: String,
    pub impact: String,
    pub risk_level: OptimizationRisk,
}

/// The outcome of migrating one backbone.
#[derive(Debug, Clone)]
pub struct MigrationItemResult {
    pub backbone_id: BackboneId,
    pub success: bool,
    pub source_id: Option<String>,
    pub target_id: Option<String>,
    pub message: String,
    pub errors: Vec<String>,
}

/// Why a domain service failed.
#[derive(Debug, Clone)]
pub enum ServiceError {
    BusinessRuleViolation { message: String },
    ValidationError { message: String },
    RepositoryError { message: String },
    CalculationError { message: String },
    ExternalServiceError { service: String, message: String },
    ConfigurationError { message: String },
    Unknown { message: String },
}

// ------------------------------------------------------------------------------------------
// The default validation service
// ------------------------------------------------------------------------------------------

/// Whether some tag occurs twice.
pub open spec fn tags_have_duplicate(tags: Seq<Seq<char>>) -> bool {
    exists|i: int, j: int| 0 <= i < j < tags.len() && tags[i] == tags[j]
}

/// The tags that repeat an earlier tag, in order (one entry per repetition).
pub open spec fn repeated_tags(tags: Seq<Seq<char>>) -> Seq<Seq<char>>
    decreases tags.len(),
{
    if tags.len() == 0 {
        seq![]
    } else {
        let rest = repeated_tags(tags.drop_last());
        if tags.drop_last().contains(tags.last()) {
            rest.push(tags.last())
        } else {
            rest
        }
    }
}

/// The validation service that checks name, tags and metadata, and the business rules of
/// creation and deletion. It keeps the storage it was built with for future checks.
pub struct DefaultBackboneValidationService<R> {
    pub repository: R,
}

/// The expected outcome of each of the four integrity rules, in order.
pub open spec fn name_result_ok(b: Backbone) -> bool {
    b.name.0@.len() != 0 && byte_len(b.name.0@) <= 100
}

impl<R> DefaultBackboneValidationService<R> {
    pub fn new(repository: R) -> (r: Self)
        ensures
            r.repository == repository,
    {
        DefaultBackboneValidationService { repository }
    }

    /// The name must be non-empty and at most 100 bytes.
    pub fn validate_name(&self, backbone: &Backbone) -> (r: ValidationResult)
        ensures
            r.passed == name_result_ok(*backbone),
            r.rule@ == "name_validation"@,
            !r.passed ==> r.severity == ValidationSeverity::Error,
    {
        let name = backbone.name();
        if name.unicode_len() == 0 {
            return ValidationResult::failed(
                String::from_str("name_validation"),
                String::from_str("Backbone name cannot be empty"),
                ValidationSeverity::Error,
            );
        }
        if str_byte_len(name) > 100 {
            return ValidationResult::failed(
                String::from_str("name_validation"),
                String::from_str("Backbone name exceeds maximum length"),
                ValidationSeverity::Error,
            );
        }
        ValidationResult::passed(String::from_str("name_validation"), String::from_str("Backbone name is valid"))
    }

    /// At most 50 tags and no repeated tag; failures are warnings.
    pub fn validate_tags(&self, backbone: &Backbone) -> (r: ValidationResult)
        ensures
            r.passed == (backbone.tags@.len() <= 50 && !tags_have_duplicate(backbone.tags_view())),
            r.rule@ == "tags_validation"@,
            !r.passed ==> r.severity == ValidationSeverity::Warning,
            backbone.tags@.len() <= 50 && tags_have_duplicate(backbone.tags_view()) ==> r.message@
                == "Duplicate tags found: "@ + spec_debug_strings(repeated_tags(backbone.tags_view())),
    {
        let tags = backbone.tags();
        if tags.len() > 50 {
            return ValidationResult::failed(
                String::from_str("tags_validation"),
                String::from_str("Too many tags (maximum 50)"),
                ValidationSeverity::Warning,
            );
        }
        if has_duplicate(tags) {
            let dups = repeated(tags);
            let m = String::from_str("Duplicate tags found: ").concat(debug_strings(&dups).as_str());
            return ValidationResult::failed(String::from_str("tags_validation"), m, ValidationSeverity::Warning);
        }
        ValidationResult::passed(String::from_str("tags_validation"), String::from_str("Tags are valid"))
    }

    /// Metadata must not be empty; failure is a warning.
    pub fn validate_metadata(&self, backbone: &Backbone) -> (r: ValidationResult)
        ensures
            r.passed == (backbone.metadata@.len() != 0),
            r.rule@ == "metadata_validation"@,
            !r.passed ==> r.severity == ValidationSeverity::Warning,
    {
        if backbone.metadata().is_empty() {
            return ValidationResult::failed(
                String::from_str("metadata_validation"),
                String::from_str("Metadata is empty"),
                ValidationSeverity::Warning,
            );
        }
        ValidationResult::passed(String::from_str("metadata_validation"), String::from_str("Metadata is valid"))
    }

    /// Names are not required to be unique: this rule always passes.
    pub fn check_name_uniqueness(&self, backbone: &Backbone) -> (r: ValidationResult)
        ensures
            r.passed,
            r.rule@ == "name_uniqueness"@,
    {
        ValidationResult::passed(String::from_str("name_uniqueness"), String::from_str("Backbone name is unique"))
    }

    /// Run the four integrity rules (name, tags, metadata, uniqueness) and summarise.
    pub fn validate_backbone_integrity(&self, backbone: &Backbone) -> (r: Result<ValidationReport, ServiceError>)
        ensures
            r is Ok,
            r matches Ok(rep) && {
                &&& rep.wf()
                &&& rep.backbone_id == backbone.id
                &&& rep.results@.len() == 4
                &&& rep.results@[0].passed == name_result_ok(*backbone)
                &&& rep.results@[1].passed == (backbone.tags@.len() <= 50 && !tags_have_duplicate(
                    backbone.tags_view(),
                ))
                &&& rep.results@[2].passed == (backbone.metadata@.len() != 0)
                &&& rep.results@[3].passed
                &&& rep.valid == (rep.results@[0].passed && rep.results@[1].passed
                    && rep.results@[2].passed)
                &&& rep.summary@ == summary_text(
                    count_passed(rep.results@),
                    (4 - count_passed(rep.results@)) as nat,
                )
            },
    {
        let mut report = ValidationReport::new(backbone.id().clone_id());
        let a = self.validate_name(backbone);
        let b = self.validate_tags(backbone);
        let c = self.validate_metadata(backbone);
        let d = self.check_name_uniqueness(backbone);
        report.add_result(a);
        report.add_result(b);
        report.add_result(c);
        report.add_result(d);
        report.generate_summary();
        Ok(report)
    }

    /// Rules for an operation: creation is always allowed; deleting an active backbone
    /// is a violation; other operations check nothing.
    pub fn check_business_rules(&self, backbone: &Backbone, operation: &str) -> (r: Result<
        BusinessRuleReport,
        ServiceError,
    >)
        ensures
            r is Ok,
            r matches Ok(rep) && {
                &&& rep.wf()
                &&& rep.recommendation@.len() == 0
                &&& rep.allowed == !(operation@ == "delete"@ && backbone.status
                    == BackboneStatus::Active)
                &&& rep.passed_rules@.len() == if operation@ == "create"@ { 1int } else { 0int }
            },
    {
        let mut report = BusinessRuleReport::new();
        proof {
            reveal_strlit("create");
            reveal_strlit("delete");
            assert("create"@[0] != "delete"@[0]);
        }
        if str_eq(operation, "create") {
            let rule = BusinessRule::passed(
                String::from_str("creation_allowed"),
                String::from_str("Backbone creation is allowed"),
                String::from_str("Business rules for creation passed"),
            );
            report.add_passed_rule(rule);
        } else if str_eq(operation, "delete") {
            if backbone.status().is_active() {
                let rule = BusinessRule::violated(
                    String::from_str("active_deletion"),
                    String::from_str("Cannot delete active backbone"),
                    RuleSeverity::High,
                    String::from_str("Backbone must be deactivated before deletion"),
                    Some(String::from_str("Deactivate the backbone first")),
                );
                report.add_violated_rule(rule);
            }
        }
        Ok(report)
    }

    /// Configuration: an empty name is a critical issue; no tags is a warning.
    pub fn validate_backbone_configuration(&self, backbone: &Backbone) -> (r: Result<
        ConfigurationReport,
        ServiceError,
    >)
        ensures
            r is Ok,
            r matches Ok(rep) && {
                &&& rep.wf()
                &&& rep.validation_profile@ == "default"@
                &&& rep.issues@.len() == if backbone.name.0@.len() == 0 { 1int } else { 0int }
                &&& rep.warnings@.len() == if backbone.tags@.len() == 0 { 1int } else { 0int }
            },
    {
        let mut report = ConfigurationReport::new(String::from_str("default"));
        if backbone.name().unicode_len() == 0 {
            report.add_issue(
                ConfigurationIssue {
                    component: String::from_str("backbone"),
                    severity: IssueSeverity::Critical,
                    message: String::from_str("Backbone name is required"),
                    suggestion: String::from_str("Set a valid name for the backbone"),
                },
            );
        }
        if backbone.tags().len() == 0 {
            report.add_warning(
                ConfigurationWarning {
                    component: String::from_str("backbone"),
                    message: String::from_str("No tags defined"),
                    recommendation: String::from_str("Add tags to improve discoverability"),
                },
            );
        }
        Ok(report)
    }
}

/// The tags that repeat an earlier tag, in order.
pub fn repeated(tags: &Vec<String>) -> (r: Vec<String>)
    ensures
        strings_view(r@) == repeated_tags(strings_view(tags@)),
{
    let n = tags.len();
    let mut out: Vec<String> = Vec::new();
    let mut i: usize = 0;
    while i < n
        invariant
            n == tags@.len(),
            i <= n,
            strings_view(out@) == repeated_tags(strings_view(tags@).subrange(0, i as int)),
        decreases n - i,
    {
        let ghost pre = strings_view(tags@).subrange(0, i as int);
        let ghost nxt = strings_view(tags@).subrange(0, i + 1);
        proof {
            assert(nxt.drop_last() =~= pre);
            assert(nxt.last() == tags@[i as int]@);
        }
        let mut seen = false;
        let mut j: usize = 0;
        while j < i
            invariant
                n == tags@.len(),
                i < n,
                j <= i,
                pre == strings_view(tags@).subrange(0, i as int),
                seen == exists|k: int| 0 <= k < j && pre[k] == tags@[i as int]@,
            decreases i - j,
        {
            assert(pre[j as int] == tags@[j as int]@);
            if str_eq(tags[j].as_str(), tags[i].as_str()) {
                seen = true;
            }
            j = j + 1;
        }
        proof {
            if seen {
                let k = choose|k: int| 0 <= k < i && pre[k] == tags@[i as int]@;
                assert(pre.contains(nxt.last()));
            } else {
                assert(!pre.contains(nxt.last()));
            }
        }
        if seen {
            out.push(tags[i].clone());
            proof {
                assert(strings_view(out@) =~= repeated_tags(pre).push(nxt.last()));
            }
        }
        i = i + 1;
    }
    assert(strings_view(tags@).subrange(0, n as int) =~= strings_view(tags@));
    out
}

} // verus!
