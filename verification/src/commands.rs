//! The create-backbone command: validation of the request, construction of the aggregate,
//! the advisory warnings creation reports, and the response handed back.

use vstd::prelude::*;
use vstd::string::*;
use crate::backbone::{strings_view, Backbone};
use crate::errors::{validation_error, DomainError};
use crate::queries::{check_pair_list, check_tag_list, pair_list_error, tag_list_error};
use crate::services::{BusinessRuleReport, RuleSeverity, ValidationReport};
use crate::text::{byte_len, str_byte_len, trim, trim_spec};
use crate::timestamp::BackboneTimestamp;
use crate::value_objects::{
    keys_distinct, name_outcome, pairs_view, BackboneName, BackboneNameError, Metadata,
};

verus! {

/// A request to create a backbone.
#[derive(Debug, Clone)]
pub struct CreateBackboneCommand {
    pub name: String,
    pub description: String,
    pub tags: Vec<String>,
    pub metadata: Vec<(String, String)>,
    pub created_by: String,
}

/// The first problem with a creation request, as its message.
pub open spec fn command_error(
    name: Seq<char>,
    created_by: Seq<char>,
    tags: Seq<Seq<char>>,
    metadata: Seq<(Seq<char>, Seq<char>)>,
) -> Option<Seq<char>> {
    if trim_spec(name).len() == 0 {
        Some("Name cannot be empty"@)
    } else if byte_len(name) > 100 {
        Some("Name cannot exceed 100 characters"@)
    } else if trim_spec(created_by).len() == 0 {
        Some("Created by cannot be empty"@)
    } else if tags.len() > 50 {
        Some("Cannot have more than 50 tags"@)
    } else if tag_list_error(tags, "Tags cannot be empty"@, "Tag cannot exceed 50 characters"@) is Some {
        tag_list_error(tags, "Tags cannot be empty"@, "Tag cannot exceed 50 characters"@)
    } else {
        pair_list_error(
            metadata,
            "Metadata keys cannot be empty"@,
            "Metadata key cannot exceed 50 characters"@,
            "Metadata value cannot exceed 500 characters"@,
        )
    }
}

impl CreateBackboneCommand {
    pub fn new(
        name: String,
        description: String,
        tags: Vec<String>,
        metadata: Vec<(String, String)>,
        created_by: String,
    ) -> (r: Self)
        ensures
            r.name == name,
            r.description == description,
            r.tags == tags,
            r.metadata == metadata,
            r.created_by == created_by,
    {
        CreateBackboneCommand { name, description, tags, metadata, created_by }
    }

    /// The first problem with this request, as its message.
    pub open spec fn error(&self) -> Option<Seq<char>> {
        command_error(self.name@, self.created_by@, strings_view(self.tags@), pairs_view(self.metadata@))
    }

    pub fn validate(&self) -> (r: Result<(), DomainError>)
        ensures
            match self.error() {
                Some(m) => r matches Err(e) && e.is_validation(m),
                None => r is Ok,
            },
    {
        let t = trim(self.name.as_str());
        if t.as_str().unicode_len() == 0 {
            return Err(validation_error(String::from_str("Name cannot be empty")));
        }
        if str_byte_len(self.name.as_str()) > 100 {
            return Err(validation_error(String::from_str("Name cannot exceed 100 characters")));
        }
        let c = trim(self.created_by.as_str());
        if c.as_str().unicode_len() == 0 {
            return Err(validation_error(String::from_str("Created by cannot be empty")));
        }
        if self.tags.len() > 50 {
            return Err(validation_error(String::from_str("Cannot have more than 50 tags")));
        }
        if let Some(m) = check_tag_list(&self.tags, "Tags cannot be empty", "Tag cannot exceed 50 characters") {
            return Err(validation_error(m));
        }
        if let Some(m) = check_pair_list(
            &self.metadata,
            "Metadata keys cannot be empty",
            "Metadata key cannot exceed 50 characters",
            "Metadata value cannot exceed 500 characters",
        ) {
            return Err(validation_error(m));
        }
        Ok(())
    }
}

/// Build the aggregate a creation request describes: the request must validate and its
/// name must be acceptable; the new backbone is active at version 1 with the request's
/// trimmed name, description, tags, metadata and author.
pub fn prepare_backbone(command: CreateBackboneCommand) -> (r: Result<Backbone, DomainError>)
    requires
        keys_distinct(pairs_view(command.metadata@)),
    ensures
        command.error() is Some ==> (r matches Err(e) && e.is_validation(command.error()->0)),
        command.error() is None && name_outcome(command.name@) is Err ==> (r matches Err(e)
            && e.is_validation(name_outcome(command.name@)->Err_0.text())),
        command.error() is None && name_outcome(command.name@) is Ok ==> (r matches Ok(b) && {
            &&& b.wf()
            &&& b.name.0@ == name_outcome(command.name@)->Ok_0
            &&& b.description@ == command.description@
            &&& b.tags@ == command.tags@
            &&& b.metadata@ == pairs_view(command.metadata@)
            &&& b.created_by@ == command.created_by@
            &&& b.version.0 == 1
            &&& b.deleted_at is None
        }),
{
    match command.validate() {
        Ok(()) => {},
        Err(e) => {
            return Err(e);
        },
    }
    let name = match BackboneName::new(command.name.as_str()) {
        Ok(n) => n,
        Err(e) => {
            return Err(validation_error(String::from_str(e.message())));
        },
    };
    let metadata = if command.metadata.len() == 0 {
        let m = Metadata::new();
        assert(m@ =~= pairs_view(command.metadata@));
        m
    } else {
        proof {
            lemma_pair_checks_agree(pairs_view(command.metadata@));
        }
        match Metadata::from_map(command.metadata) {
            Ok(m) => m,
            Err(e) => {
                return Err(validation_error(String::from_str(e.message())));
            },
        }
    };
    let b = Backbone::create(name, command.description, command.tags, metadata, command.created_by);
    match b {
        Ok(b) => Ok(b),
        Err(m) => Err(validation_error(m)),
    }
}

/// Pairs that pass the command's checks pass metadata construction.
proof fn lemma_pair_checks_agree(pairs: Seq<(Seq<char>, Seq<char>)>)
    requires
        pair_list_error(
            pairs,
            "Metadata keys cannot be empty"@,
            "Metadata key cannot exceed 50 characters"@,
            "Metadata value cannot exceed 500 characters"@,
        ) is None,
    ensures
        crate::value_objects::first_pair_error(pairs) is None,
    decreases pairs.len(),
{
    if pairs.len() > 0 {
        lemma_pair_checks_agree(pairs.drop_first());
    }
}

/// Advice attached to a successful creation, in order: missing tags, missing metadata,
/// blank description.
pub open spec fn creation_advice(b: Backbone) -> Seq<Seq<char>> {
    let a = if b.tags@.len() == 0 {
        seq!["No tags provided - consider adding tags for better organization"@]
    } else {
        seq![]
    };
    let m = if b.metadata@.len() == 0 {
        seq!["No metadata provided - consider adding metadata for better context"@]
    } else {
        seq![]
    };
    let d = if trim_spec(b.description@).len() == 0 {
        seq!["No description provided - consider adding a description for better documentation"@]
    } else {
        seq![]
    };
    a + m + d
}

/// The warnings of a creation given the business-rule report of an optional validation
/// service: a disallowing report refuses creation with its recommendation; otherwise the
/// low-severity violations (as "name: message") precede the advice.
pub fn creation_warnings(backbone: &Backbone, report: Option<&BusinessRuleReport>) -> (r: Result<
    Vec<String>,
    DomainError,
>)
    ensures
        report is Some && !report->0.allowed ==> (r matches Err(e) && (e matches DomainError::BusinessRuleViolation { message } && message@ == report->0.recommendation@)),
        report is None ==> (r matches Ok(w) && strings_view(w@) == creation_advice(*backbone)),
        (report matches Some(rep) && rep.allowed && rep.wf()) ==> (r matches Ok(w) && strings_view(w@)
            == creation_advice(*backbone)),
{
    let mut warnings: Vec<String> = Vec::new();
    if let Some(rep) = report {
        if !rep.allowed {
            return Err(DomainError::BusinessRuleViolation { message: rep.recommendation.clone() });
        }
        let n = rep.violated_rules.len();
        let mut i: usize = 0;
        while i < n
            invariant
                n == rep.violated_rules@.len(),
                rep.allowed && rep.wf() ==> n == 0,
                i <= n,
                rep.allowed && rep.wf() ==> warnings@.len() == 0,
            decreases n - i,
        {
            let rule = &rep.violated_rules[i];
            if matches!(rule.severity, RuleSeverity::Low | RuleSeverity::Info) {
                let w = rule.name.clone().concat(": ").concat(rule.message.as_str());
                warnings.push(w);
            }
            i = i + 1;
        }
    }
    let ghost start = warnings@;
    if backbone.tags().len() == 0 {
        warnings.push(String::from_str("No tags provided - consider adding tags for better organization"));
    }
    if backbone.metadata().is_empty() {
        warnings.push(String::from_str("No metadata provided - consider adding metadata for better context"));
    }
    let d = trim(backbone.description());
    if d.as_str().unicode_len() == 0 {
        warnings.push(
            String::from_str(
                "No description provided - consider adding a description for better documentation",
            ),
        );
    }
    proof {
        if start.len() == 0 {
            assert(strings_view(warnings@) =~= creation_advice(*backbone));
        }
    }
    Ok(warnings)
}

/// The verdict of an optional integrity report: an invalid report refuses creation.
pub fn integrity_outcome(report: Option<&ValidationReport>) -> (r: Result<(), DomainError>)
    ensures
        report is Some && !report->0.valid ==> (r matches Err(e) && e.is_validation(
            "Backbone validation failed: "@ + report->0.summary@,
        )),
        !(report matches Some(rep) && !rep.valid) ==> r is Ok,
{
    if let Some(rep) = report {
        if !rep.valid {
            let m = String::from_str("Backbone validation failed: ").concat(rep.summary.as_str());
            return Err(validation_error(m));
        }
    }
    Ok(())
}

/// What creating a backbone reports back.
#[derive(Debug, Clone)]
pub struct CreateBackboneResponse {
    pub success: bool,
    pub backbone_id: Option<String>,
    pub message: String,
    pub created_at: Option<BackboneTimestamp>,
    pub warnings: Vec<String>,
}

impl CreateBackboneResponse {
    pub fn success(backbone_id: String, created_at: BackboneTimestamp) -> (r: Self)
        ensures
            r.success,
            r.backbone_id == Some(backbone_id),
            r.message@ == "Backbone created successfully"@,
            r.created_at == Some(created_at),
            r.warnings@.len() == 0,
    {
        CreateBackboneResponse {
            success: true,
            backbone_id: Some(backbone_id),
            message: String::from_str("Backbone created successfully"),
            created_at: Some(created_at),
            warnings: Vec::new(),
        }
    }

    pub fn success_with_warnings(backbone_id: String, created_at: BackboneTimestamp, warnings: Vec<String>) -> (r: Self)
        ensures
            r.success,
            r.backbone_id == Some(backbone_id),
            r.message@ == "Backbone created successfully with warnings"@,
            r.created_at == Some(created_at),
            r.warnings == warnings,
    {
        CreateBackboneResponse {
            success: true,
            backbone_id: Some(backbone_id),
            message: String::from_str("Backbone created successfully with warnings"),
            created_at: Some(created_at),
            warnings,
        }
    }

    pub fn error(message: String) -> (r: Self)
        ensures
            !r.success,
            r.backbone_id is None,
            r.message == message,
            r.created_at is None,
            r.warnings@.len() == 0,
    {
        CreateBackboneResponse { success: false, backbone_id: None, message, created_at: None, warnings: Vec::new() }
    }
}

/// The response for a stored backbone: plain success without warnings, success with
/// warnings otherwise.
pub fn creation_response(backbone: &Backbone, warnings: Vec<String>) -> (r: CreateBackboneResponse)
    ensures
        r.success,
        r.backbone_id matches Some(id) && id@ == backbone.id.0@,
        r.created_at == Some(backbone.created_at),
        r.warnings@ == warnings@,
        warnings@.len() == 0 <==> r.message@ == "Backbone created successfully"@,
{
    let id = String::from_str(backbone.id().value());
    if warnings.len() == 0 {
        proof {
            assert(warnings@ =~= Seq::<String>::empty());
        }
        CreateBackboneResponse::success(id, backbone.created_at)
    } else {
        proof {
            reveal_strlit("Backbone created successfully");
            reveal_strlit("Backbone created successfully with warnings");
            assert("Backbone created successfully"@.len() != "Backbone created successfully with warnings"@.len());
        }
        CreateBackboneResponse::success_with_warnings(id, backbone.created_at, warnings)
    }
}

} // verus!
