use cedar_bridge::bridge::Bridge;
use cedar_bridge::marshal::unpack_addr;
use cedar_bridge::marshal::unpack_len;

fn put_text(bridge: &mut Bridge, text: &str) -> (u32, u32) {
    let bytes = text.as_bytes().to_vec();
    let len = bytes.len() as u32;
    let addr = bridge.memory.allocate(len);
    bridge.memory.write_buffer(addr, bytes);
    (addr, len)
}

#[test]
fn boundary_set_policies_and_authorize() {
    let mut bridge = Bridge::new();
    let (p_addr, p_len) =
        put_text(&mut bridge, "permit(principal, action, resource); permit(principal, action, resource);");
    bridge.set_policies(p_addr, p_len);
    assert_eq!(bridge.engine.policy_count(), 2);
    bridge.deallocate(p_addr, p_len);

    let (e_addr, e_len) = put_text(&mut bridge, "[]");
    bridge.set_entities(e_addr, e_len);
    assert_eq!(bridge.engine.entity_count(), 0);
    bridge.deallocate(e_addr, e_len);

    let (principal_addr, principal_len) = put_text(&mut bridge, "User::\"alice\"");
    let (action_addr, action_len) = put_text(&mut bridge, "Action::\"update\"");
    let (resource_addr, resource_len) = put_text(&mut bridge, "Photo::\"VacationPhoto94.jpg\"");
    let (context_addr, context_len) = put_text(&mut bridge, "{}");
    let word = bridge.is_authorized(
        principal_addr,
        principal_len,
        action_addr,
        action_len,
        resource_addr,
        resource_len,
        context_addr,
        context_len,
    );
    let out_addr = unpack_addr(word);
    let out_len = unpack_len(word);
    let out = bridge.memory.read_handed(out_addr, out_len);
    assert_eq!(out, b"Allow".to_vec());
}

#[test]
fn boundary_try_is_authorized_refuses_bad_reference() {
    let mut bridge = Bridge::new();
    let (principal_addr, principal_len) = put_text(&mut bridge, "definitely not a reference");
    let (action_addr, action_len) = put_text(&mut bridge, "Action::\"update\"");
    let (resource_addr, resource_len) = put_text(&mut bridge, "Photo::\"VacationPhoto94.jpg\"");
    let (context_addr, context_len) = put_text(&mut bridge, "{}");
    let refused = bridge.try_is_authorized(
        principal_addr,
        principal_len,
        action_addr,
        action_len,
        resource_addr,
        resource_len,
        context_addr,
        context_len,
    );
    assert!(refused.is_none());
}

#[test]
fn boundary_validate_reports_policy_error() {
    let mut bridge = Bridge::new();
    let (p_addr, p_len) = put_text(&mut bridge, "not a policy");
    let (s_addr, s_len) = put_text(&mut bridge, "{}");
    let word = bridge.validate(p_addr, p_len, s_addr, s_len).unwrap();
    let out = bridge.memory.read_handed(unpack_addr(word), unpack_len(word));
    let doc: serde_json::Value = serde_json::from_str(std::str::from_utf8(&out).unwrap()).unwrap();
    assert!(doc["policy_error"].is_string());
    assert!(doc["schema_error"].is_null());
    assert_eq!(doc["validation_errors"].as_array().unwrap().len(), 0);
}
