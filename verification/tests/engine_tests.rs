use cedar_bridge::engine::CedarEngine;

#[test]
fn set_policies() {
    let mut engine = CedarEngine::new();
    let policies = "permit(principal, action, resource); permit(principal, action, resource);";
    let diagnostic = engine.set_policies(policies);
    assert!(diagnostic.is_none());
    let counter = engine.policy_count();
    assert_eq!(counter, 2);
}

#[test]
fn set_entities() {
    let mut engine = CedarEngine::new();
    let entities_json = r#"[
        {
            "uid": {
                "type": "User",
                "id": "Bob"
            },
            "attrs": {},
            "parents": [
                {
                    "type": "Role",
                    "id": "vacationPhotoJudges"
                },
                {
                    "type": "Role",
                    "id": "juniorPhotographerJudges"
                }
            ]
        },
        {
            "uid": {
                "type": "Role",
                "id": "vacationPhotoJudges"
            },
            "attrs": {},
            "parents": []
        },
        {
            "uid": {
                "type": "Role",
                "id": "juniorPhotographerJudges"
            },
            "attrs": {},
            "parents": []
        }
    ]"#;
    let diagnostic = engine.set_entities(entities_json);
    assert!(diagnostic.is_none());
    let counter = engine.entity_count();
    assert_eq!(counter, 3);
}

#[test]
fn validate() {
    let test_schema = r#"{
        "PhotoApp": {
            "commonTypes": {
                "PersonType": {
                    "type": "Record",
                    "attributes": {
                        "age": {
                            "type": "Long"
                        },
                        "name": {
                            "type": "String"
                        }
                    }
                },
                "ContextType": {
                    "type": "Record",
                    "attributes": {
                        "ip": {
                            "type": "Extension",
                            "name": "ipaddr"
                        }
                    }
                }
            },
            "entityTypes": {
                "User": {
                    "shape": {
                        "type": "PersonType",
                        "attributes": {
                            "employeeId": {
                                "type": "String"
                            }
                        }
                    },
                    "memberOfTypes": [
                        "UserGroup"
                    ]
                },
                "UserGroup": {
                    "shape": {
                        "type": "Record",
                        "attributes": {}
                    }
                },
                "Photo": {
                    "shape": {
                        "type": "Record",
                        "attributes": {}
                    },
                    "memberOfTypes": [
                        "Album"
                    ]
                },
                "Album": {
                    "shape": {
                        "type": "Record",
                        "attributes": {}
                    }
                }
            },
            "actions": {
                "viewPhoto": {
                    "appliesTo": {
                        "principalTypes": [
                            "User",
                            "UserGroup"
                        ],
                        "resourceTypes": [
                            "Photo"
                        ],
                        "context": {
                            "type": "ContextType"
                        }
                    }
                },
                "createPhoto": {
                    "appliesTo": {
                        "principalTypes": [
                            "User",
                            "UserGroup"
                        ],
                        "resourceTypes": [
                            "Photo"
                        ],
                        "context": {
                            "type": "ContextType"
                        }
                    }
                },
                "listPhotos": {
                    "appliesTo": {
                        "principalTypes": [
                            "User",
                            "UserGroup"
                        ],
                        "resourceTypes": [
                            "Photo"
                        ],
                        "context": {
                            "type": "ContextType"
                        }
                    }
                }
            }
        }
    }"#;

    let test_policy = r#"permit(
        principal in Not::UserGroup::"janeFriends",
        action in [PhotoApp::Action::"viewPhoto", PhotoApp::Action::"listPhotos"],
        resource in PhotoApp::Album::"janeTrips"
    );"#;
    let engine = CedarEngine::new();

    let result = engine.validate(test_policy, test_schema);
    let json_string = result.to_single_line_json();
    println!("{}", json_string);
}

#[test]
fn evaluate() {
    let mut engine = CedarEngine::new();
    let policies = "permit(principal, action, resource); permit(principal, action, resource);";
    let _ = engine.set_policies(policies);
    let entities = "[]";
    let _ = engine.set_entities(entities);
    let result = engine.is_authorized(
        "User::\"alice\"",
        "Action::\"update\"",
        "Photo::\"VacationPhoto94.jpg\"",
        "{}",
    );
    assert_eq!(result, "Allow");
}

#[test]
fn deny_on_empty_state() {
    let engine = CedarEngine::new();
    let result = engine.is_authorized(
        "User::\"alice\"",
        "Action::\"update\"",
        "Photo::\"VacationPhoto94.jpg\"",
        "{}",
    );
    assert_eq!(result, "Deny");
}

#[test]
fn invalid_policy_text_keeps_previous_set() {
    let mut engine = CedarEngine::new();
    assert_eq!(engine.policy_count(), 0);
    assert!(engine.set_policies("this is not a policy at all ;;;").is_some());
    assert_eq!(engine.policy_count(), 0);
    assert!(engine.set_policies("permit(principal, action, resource);").is_none());
    assert_eq!(engine.policy_count(), 1);
    assert!(engine.set_policies("still (not( a :: policy").is_some());
    assert_eq!(engine.policy_count(), 1);
}

#[test]
fn invalid_entities_json_keeps_previous_store() {
    let mut engine = CedarEngine::new();
    assert_eq!(engine.entity_count(), 0);
    assert!(engine.set_entities("{ not an entity array ").is_some());
    assert_eq!(engine.entity_count(), 0);
}

#[test]
fn try_is_authorized_rejects_malformed_inputs() {
    let engine = CedarEngine::new();
    let refused = engine.try_is_authorized(
        "not an entity reference",
        "Action::\"update\"",
        "Photo::\"VacationPhoto94.jpg\"",
        "{}",
    );
    assert!(refused.is_none());
    let refused_context = engine.try_is_authorized(
        "User::\"alice\"",
        "Action::\"update\"",
        "Photo::\"VacationPhoto94.jpg\"",
        "{ not json",
    );
    assert!(refused_context.is_none());
    let answered = engine.try_is_authorized(
        "User::\"alice\"",
        "Action::\"update\"",
        "Photo::\"VacationPhoto94.jpg\"",
        "{}",
    );
    assert_eq!(answered.unwrap(), "Deny");
}
