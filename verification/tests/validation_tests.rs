use cedar_bridge::engine::CedarEngine;
use cedar_bridge::validation::SourceLocation;
use cedar_bridge::validation::ValidationError;
use cedar_bridge::validation::ValidationResult;

const PHOTO_SCHEMA: &str = r#"{
    "PhotoApp": {
        "entityTypes": {
            "User": {
                "shape": { "type": "Record", "attributes": {} },
                "memberOfTypes": ["UserGroup"]
            },
            "UserGroup": {
                "shape": { "type": "Record", "attributes": {} }
            },
            "Photo": {
                "shape": { "type": "Record", "attributes": {} },
                "memberOfTypes": ["Album"]
            },
            "Album": {
                "shape": { "type": "Record", "attributes": {} }
            }
        },
        "actions": {
            "viewPhoto": {
                "appliesTo": {
                    "principalTypes": ["User", "UserGroup"],
                    "resourceTypes": ["Photo"]
                }
            }
        }
    }
}"#;

#[test]
fn invalid_policy_reports_policy_error_only() {
    let engine = CedarEngine::new();
    let result = engine.validate("this is no policy ((", PHOTO_SCHEMA);
    assert!(result.policy_error.is_some());
    assert!(result.schema_error.is_none());
    assert!(result.validation_errors.is_empty());
    let doc: serde_json::Value =
        serde_json::from_str(&result.to_single_line_json()).unwrap();
    assert!(doc["policy_error"].is_string());
    assert!(doc["schema_error"].is_null());
    assert_eq!(doc["validation_errors"].as_array().unwrap().len(), 0);
}

#[test]
fn invalid_schema_reports_schema_error_only() {
    let engine = CedarEngine::new();
    let result = engine.validate("permit(principal, action, resource);", "{ not a schema");
    assert!(result.schema_error.is_some());
    assert!(result.policy_error.is_none());
    assert!(result.validation_errors.is_empty());
}

#[test]
fn undeclared_names_yield_located_findings() {
    let engine = CedarEngine::new();
    let policy = r#"permit(
        principal in Not::UserGroup::"janeFriends",
        action in [PhotoApp::Action::"viewPhoto", PhotoApp::Action::"listPhotos"],
        resource in PhotoApp::Album::"janeTrips"
    );"#;
    let result = engine.validate(policy, PHOTO_SCHEMA);
    assert!(result.policy_error.is_none());
    assert!(result.schema_error.is_none());
    assert!(!result.validation_errors.is_empty());
    for finding in &result.validation_errors {
        assert_eq!(finding.location.policy_id, "policy0");
        if let Some(start) = finding.location.range_start {
            assert!(start <= policy.len());
        }
        if let Some(end) = finding.location.range_end {
            assert!(end <= policy.len());
        }
        if let (Some(start), Some(end)) = (finding.location.range_start, finding.location.range_end)
        {
            assert!(start <= end);
        }
    }
    let doc: serde_json::Value =
        serde_json::from_str(&result.to_single_line_json()).unwrap();
    let entries = doc["validation_errors"].as_array().unwrap();
    assert_eq!(entries.len(), result.validation_errors.len());
    for entry in entries {
        assert_eq!(entry["location"]["policy_id"].as_str().unwrap(), "policy0");
        assert!(entry["error_kind"].is_string());
    }
}

#[test]
fn clean_validation_reports_no_errors() {
    let engine = CedarEngine::new();
    let policy = r#"permit(
        principal == PhotoApp::User::"alice",
        action == PhotoApp::Action::"viewPhoto",
        resource == PhotoApp::Photo::"trip.jpg"
    );"#;
    let result = engine.validate(policy, PHOTO_SCHEMA);
    assert!(result.policy_error.is_none());
    assert!(result.schema_error.is_none());
    assert!(result.validation_errors.is_empty());
}

#[test]
fn json_document_shape_is_exact() {
    let empty = ValidationResult {
        schema_error: None,
        policy_error: None,
        validation_errors: Vec::new(),
    };
    assert_eq!(
        empty.to_single_line_json(),
        "{\"schema_error\":null,\"policy_error\":null,\"validation_errors\":[]}"
    );

    let with_policy_error = ValidationResult {
        schema_error: None,
        policy_error: Some("bad \"quote\" and \\slash\\ and\nnewline".to_string()),
        validation_errors: Vec::new(),
    };
    assert_eq!(
        with_policy_error.to_single_line_json(),
        "{\"schema_error\":null,\"policy_error\":\"bad \\\"quote\\\" and \\\\slash\\\\ and\\nnewline\",\"validation_errors\":[]}"
    );

    let with_findings = ValidationResult {
        schema_error: None,
        policy_error: None,
        validation_errors: vec![
            ValidationError {
                error_kind: "unrecognized entity type".to_string(),
                location: SourceLocation {
                    policy_id: "policy0".to_string(),
                    range_start: Some(17),
                    range_end: Some(42),
                },
            },
            ValidationError {
                error_kind: "unrecognized action".to_string(),
                location: SourceLocation {
                    policy_id: "policy0".to_string(),
                    range_start: None,
                    range_end: None,
                },
            },
        ],
    };
    assert_eq!(
        with_findings.to_single_line_json(),
        "{\"schema_error\":null,\"policy_error\":null,\"validation_errors\":[{\"error_kind\":\"unrecognized entity type\",\"location\":{\"policy_id\":\"policy0\",\"range_start\":17,\"range_end\":42}},{\"error_kind\":\"unrecognized action\",\"location\":{\"policy_id\":\"policy0\",\"range_start\":null,\"range_end\":null}}]}"
    );

    let with_control_chars = ValidationResult {
        schema_error: Some("tab\there \u{1} mark".to_string()),
        policy_error: None,
        validation_errors: Vec::new(),
    };
    assert_eq!(
        with_control_chars.to_single_line_json(),
        "{\"schema_error\":\"tab\\there \\u0001 mark\",\"policy_error\":null,\"validation_errors\":[]}"
    );
}
