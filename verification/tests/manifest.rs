//! The manifest.

use session_control::manifest::{ICON, manifest, manifest_json};

#[test]
fn manifest_declares_orchestrator_surface() {
    let text = manifest_json("d", "0.4.0", "r");
    let m: serde_json::Value = serde_json::from_str(&text).unwrap();
    let hooks: Vec<&str> = m["hooks"]
        .as_array()
        .unwrap()
        .iter()
        .filter_map(|h| h.as_str())
        .collect();
    for h in [
        "timer.tick",
        "session.agent.ended",
        "http.request.before",
        "http.request.authed",
        "mcp.tool.invoke",
    ] {
        assert!(hooks.contains(&h), "missing hook {h}");
    }
    let perms: Vec<&str> = m["permissions"]
        .as_array()
        .unwrap()
        .iter()
        .filter_map(|p| p.as_str())
        .collect();
    for p in [
        "session_orchestrate",
        "session_write",
        "user_authority",
        "contribute_sidebar",
        "session_control",
    ] {
        assert!(perms.contains(&p), "missing permission {p}");
    }
    let tools: Vec<&str> = m["mcp_tools"]
        .as_array()
        .unwrap()
        .iter()
        .filter_map(|t| t["name"].as_str())
        .collect();
    for t in [
        "create_session",
        "assign_hat",
        "watch_session",
        "unwatch_session",
        "list_managed_sessions",
        "update_goal_status",
        "orchestrator_report",
        "interrupt_session",
        "find_session",
    ] {
        assert!(tools.contains(&t), "missing tool {t}");
    }
    assert_eq!(
        m["sidebar_items"][0]["path"],
        "/plugin-api/v1/orchestrators"
    );
}

#[test]
fn manifest_carries_the_release() {
    let m = manifest("about", "1.2.3", "https://example.org");
    assert_eq!(m.text_at("description"), Some("about"));
    assert_eq!(m.text_at("version"), Some("1.2.3"));
    assert_eq!(m.text_at("repository"), Some("https://example.org"));
    assert_eq!(m.array_at("mcp_tools").unwrap().len(), 13);
    assert_eq!(m.array_at("ui_routes").unwrap().len(), 9);
    assert_eq!(m.array_at("permissions").unwrap().len(), 9);
    assert_eq!(m.array_at("http_routes").unwrap()[0].as_str(), Some("GET /plugin-api/v1/orchestrators"));
    assert_eq!(m.array_at("sidebar_items").unwrap()[0].text_at("icon"), Some(ICON));
}

#[test]
fn tools_describe_their_parameters() {
    let m = manifest("", "", "");
    for tool in m.array_at("mcp_tools").unwrap() {
        let schema = tool.get("input_schema").unwrap();
        assert_eq!(schema.text_at("type"), Some("object"));
        assert_eq!(schema.bool_at("additionalProperties"), Some(false));
        for name in schema.array_at("required").unwrap() {
            let parameter = schema.get("properties").unwrap().get(name.as_str().unwrap());
            assert!(parameter.unwrap().text_at("description").is_some());
        }
    }
    let goal = &m.array_at("mcp_tools").unwrap()[11];
    let percent = goal.get("input_schema").unwrap().get("properties").unwrap().get("percent").unwrap();
    assert_eq!(
        percent.to_text(),
        r#"{"description":"Optional completion percentage.","maximum":100,"minimum":0,"type":"integer"}"#
    );
}
