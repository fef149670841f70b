use baas_core::service::{
    ai_inference, create_project, delete_project, deletion_message, get_project, health_check,
    list_ai_models, list_projects, root, update_project,
};
use baas_core::{
    entry, model_catalog, provider_for, starts_with, AIInferenceRequest, ApiResponse,
    CreateProjectRequest, HealthCheck, JsonValue, Project, Timestamp, REPORTED_UPTIME_SECS,
};

fn text_of(v: &JsonValue) -> Option<&str> {
    match v {
        JsonValue::Text(s) => Some(s.as_str()),
        _ => None,
    }
}

fn field<'a>(v: &'a JsonValue, key: &str) -> Option<&'a JsonValue> {
    match v {
        JsonValue::Object(entries) => entries.iter().find(|(k, _)| k == key).map(|(_, v)| v),
        _ => None,
    }
}

fn assert_envelope_ok<T>(r: &ApiResponse<T>) {
    assert!(r.success);
    assert!(r.data.is_some());
    assert!(r.error.is_none());
    assert!(r.timestamp.nanos < 1_000_000_000);
}

fn request(name: &str, description: Option<&str>, models: &[&str], config: Option<JsonValue>) -> CreateProjectRequest {
    CreateProjectRequest {
        name: name.to_string(),
        description: description.map(|d| d.to_string()),
        ai_models: models.iter().map(|m| m.to_string()).collect(),
        config,
    }
}

fn is_uuid_shape(id: &str) -> bool {
    let chars: Vec<char> = id.chars().collect();
    chars.len() == 36
        && chars[8] == '-'
        && chars[13] == '-'
        && chars[18] == '-'
        && chars[23] == '-'
        && chars[14] == '4'
        && chars.iter().enumerate().all(|(i, c)| matches!(i, 8 | 13 | 18 | 23) || c.is_ascii_hexdigit())
}

#[test]
fn root_identifies_service() {
    let r = root();
    assert_envelope_ok(&r);
    assert_eq!(r.data.unwrap(), "AI-Powered BaaS Core Service - Rust Backend");
}

#[test]
fn health_reports_three_healthy_dependencies() {
    let r = health_check("0.1.0".to_string());
    assert_envelope_ok(&r);
    let h: HealthCheck = r.data.unwrap();
    assert_eq!(h.status, "healthy");
    assert_eq!(h.version, "0.1.0");
    assert_eq!(h.uptime, 3600);
    assert_eq!(h.uptime, REPORTED_UPTIME_SECS);
    let names: Vec<&str> = h.services.iter().map(|(n, _)| n.as_str()).collect();
    assert_eq!(names, vec!["database", "redis", "ai_services"]);
    assert!(h.services.iter().all(|(_, s)| s == "healthy"));
}

#[test]
fn create_project_demo_scenario() {
    let r = create_project(request("Demo", None, &["gemini-pro"], None));
    assert_envelope_ok(&r);
    let p = r.data.unwrap();
    assert_eq!(p.name, "Demo");
    assert_eq!(p.description, None);
    assert_eq!(p.ai_models, vec!["gemini-pro".to_string()]);
    assert!(matches!(&p.config, JsonValue::Object(e) if e.is_empty()));
}

#[test]
fn create_project_keeps_submitted_fields() {
    let config = JsonValue::Object(vec![entry("ai_enabled", JsonValue::Bool(false))]);
    let r = create_project(request("Alpha", Some("first"), &["m1", "m1", "m2"], Some(config)));
    assert_envelope_ok(&r);
    let p = r.data.unwrap();
    assert_eq!(p.name, "Alpha");
    assert_eq!(p.description.as_deref(), Some("first"));
    assert_eq!(p.ai_models, vec!["m1".to_string(), "m1".to_string(), "m2".to_string()]);
    assert!(matches!(field(&p.config, "ai_enabled"), Some(JsonValue::Bool(false))));
    assert_eq!(p.created_at, p.updated_at);
}

#[test]
fn create_project_generates_fresh_ids() {
    let a = create_project(request("A", None, &[], None)).data.unwrap();
    let b = create_project(request("A", None, &[], None)).data.unwrap();
    assert!(!a.id.is_empty());
    assert!(is_uuid_shape(&a.id));
    assert!(is_uuid_shape(&b.id));
    assert_ne!(a.id, b.id);
}

#[test]
fn create_project_stamps_current_time() {
    let p = create_project(request("T", None, &[], None)).data.unwrap();
    // 2020-01-01T00:00:00Z
    assert!(p.created_at.secs > 1_577_836_800);
    assert!(p.created_at.nanos < 1_000_000_000);
}

#[test]
fn update_project_replaces_fields() {
    let id = "6f1c0e2a-3b4d-4e5f-8a9b-0c1d2e3f4a5b".to_string();
    let r = update_project(id.clone(), request("Renamed", Some("new text"), &["custom-classifier"], None));
    assert_envelope_ok(&r);
    let p: Project = r.data.unwrap();
    assert_eq!(p.id, id);
    assert_eq!(p.name, "Renamed");
    assert_eq!(p.description.as_deref(), Some("new text"));
    assert_eq!(p.ai_models, vec!["custom-classifier".to_string()]);
    assert!(matches!(&p.config, JsonValue::Object(e) if e.is_empty()));
}

#[test]
fn get_project_carries_requested_id() {
    let id = "00000000-0000-4000-8000-000000000000".to_string();
    let r = get_project(id.clone());
    assert_envelope_ok(&r);
    let p = r.data.unwrap();
    assert_eq!(p.id, id);
    assert_eq!(p.name, "Sample Project");
    assert_eq!(p.description.as_deref(), Some("A sample project for demonstration"));
    assert_eq!(p.ai_models, vec!["gemini-pro".to_string()]);
    assert!(matches!(field(&p.config, "ai_enabled"), Some(JsonValue::Bool(true))));
}

#[test]
fn list_projects_shows_demo_project() {
    let r = list_projects();
    assert_envelope_ok(&r);
    let ps = r.data.unwrap();
    assert_eq!(ps.len(), 1);
    let p = &ps[0];
    assert!(is_uuid_shape(&p.id));
    assert_eq!(p.name, "Demo Project");
    assert_eq!(p.description.as_deref(), Some("A demonstration project"));
    assert_eq!(p.ai_models, vec!["gemini-pro".to_string(), "custom-classifier".to_string()]);
    assert!(matches!(field(&p.config, "ai_enabled"), Some(JsonValue::Bool(true))));
    assert!(matches!(field(&p.config, "real_time"), Some(JsonValue::Bool(true))));
}

#[test]
fn delete_project_names_identifier() {
    let r = delete_project("never-created");
    assert_envelope_ok(&r);
    let msg = r.data.unwrap();
    assert_eq!(msg, "Project never-created deleted successfully");
    assert!(msg.contains("never-created"));
}

#[test]
fn deletion_message_of_empty_identifier() {
    assert_eq!(deletion_message(""), "Project  deleted successfully");
}

#[test]
fn inference_credits_google_for_gemini_models() {
    let r = ai_inference(AIInferenceRequest {
        model_id: "gemini-pro".to_string(),
        input: JsonValue::Text("hello".to_string()),
        parameters: None,
    });
    assert_envelope_ok(&r);
    let d = r.data.unwrap();
    assert_eq!(d.model_id, "gemini-pro");
    assert_eq!(field(&d.metadata, "provider").and_then(text_of), Some("google"));
    assert_eq!(field(&d.metadata, "model_version").and_then(text_of), Some("1.0.0"));
    assert!(matches!(field(&d.metadata, "processing_time_ms"), Some(JsonValue::Number(n)) if n == "150"));
    assert_eq!(
        field(&d.output, "result").and_then(text_of),
        Some("This is a mock response from the Rust core service")
    );
    assert!(matches!(field(&d.output, "confidence"), Some(JsonValue::Number(n)) if n == "0.95"));
}

#[test]
fn inference_credits_internal_otherwise() {
    for id in ["custom-classifier", "gem", "", "Gemini-pro", "xgemini"] {
        let r = ai_inference(AIInferenceRequest {
            model_id: id.to_string(),
            input: JsonValue::Null,
            parameters: Some(JsonValue::Object(vec![])),
        });
        let d = r.data.unwrap();
        assert_eq!(d.model_id, id);
        assert_eq!(field(&d.metadata, "provider").and_then(text_of), Some("internal"));
    }
}

#[test]
fn provider_rule_on_prefix() {
    assert_eq!(provider_for("gemini"), "google");
    assert_eq!(provider_for("gemini-ultra"), "google");
    assert_eq!(provider_for("gemin"), "internal");
}

#[test]
fn starts_with_edge_cases() {
    assert!(starts_with("abc", ""));
    assert!(starts_with("", ""));
    assert!(!starts_with("", "a"));
    assert!(!starts_with("ab", "abc"));
    assert!(starts_with("héllo", "hé"));
    assert!(!starts_with("hello", "hé"));
}

#[test]
fn model_catalog_lists_two_models() {
    let r = list_ai_models();
    assert_envelope_ok(&r);
    let models = r.data.unwrap();
    assert_eq!(models.len(), 2);
    assert_eq!(field(&models[0], "id").and_then(text_of), Some("gemini-pro"));
    assert_eq!(field(&models[0], "provider").and_then(text_of), Some("google"));
    assert_eq!(field(&models[1], "name").and_then(text_of), Some("Custom Text Classifier"));
    assert_eq!(field(&models[1], "type").and_then(text_of), Some("classification"));
    match field(&models[0], "capabilities") {
        Some(JsonValue::Array(items)) => {
            let caps: Vec<&str> = items.iter().filter_map(text_of).collect();
            assert_eq!(caps, vec!["text-generation", "chat", "summarization"]);
        }
        _ => panic!("capabilities missing"),
    }
    assert_eq!(model_catalog().len(), 2);
}

#[test]
fn error_envelope_carries_message() {
    let r = ApiResponse::<()>::error("boom".to_string());
    assert!(!r.success);
    assert!(r.data.is_none());
    assert_eq!(r.error.as_deref(), Some("boom"));
}

#[test]
fn success_envelope_carries_data() {
    let r = ApiResponse::success(7u32);
    assert!(r.success);
    assert_eq!(r.data, Some(7));
    assert!(r.error.is_none());
}

#[test]
fn json_constructors() {
    assert!(matches!(JsonValue::text("x"), JsonValue::Text(s) if s == "x"));
    assert!(matches!(JsonValue::number("-1.5e3"), JsonValue::Number(s) if s == "-1.5e3"));
    assert!(matches!(JsonValue::empty_object(), JsonValue::Object(e) if e.is_empty()));
    match JsonValue::text_array(&vec!["a", "b"]) {
        JsonValue::Array(items) => {
            assert_eq!(items.iter().filter_map(text_of).collect::<Vec<_>>(), vec!["a", "b"]);
        }
        _ => panic!("not an array"),
    }
    let t = Timestamp { secs: 1, nanos: 2 };
    assert_eq!(t, Timestamp { secs: 1, nanos: 2 });
}
