use vstd::prelude::*;

use crate::clock::now;
use crate::envelope::ApiResponse;
use crate::health::HealthCheck;
use crate::ids::{fresh_id, is_uuid_v4_text};
use crate::inference::{
    describes_model, is_prefix, model_catalog, provider_of, AIInferenceRequest, AIInferenceResponse,
};
use crate::json::JsonValue;
use crate::project::{CreateProjectRequest, Project};

verus! {

/// The payload of a successful envelope `r`.
pub open spec fn payload<T>(r: ApiResponse<T>) -> T
    recommends
        r.data is Some,
{
    r.data->0
}

/// `r` is a well-formed success envelope.
pub open spec fn succeeded<T>(r: ApiResponse<T>) -> bool {
    r.wf() && r.success
}

/// The identification string of the service, returned by its root.
pub fn root() -> (r: ApiResponse<String>)
    ensures
        succeeded(r),
        payload(r)@ == "AI-Powered BaaS Core Service - Rust Backend"@,
{
    ApiResponse::success(String::from_str("AI-Powered BaaS Core Service - Rust Backend"))
}

/// The health report of the service at version `version`: healthy, with
/// each of its three dependencies healthy.
pub fn health_check(version: String) -> (r: ApiResponse<HealthCheck>)
    ensures
        succeeded(r),
        payload(r).wf(),
        payload(r).all_healthy(),
        payload(r).version == version,
        payload(r).uptime == crate::health::REPORTED_UPTIME_SECS,
{
    ApiResponse::success(HealthCheck::report(version))
}

/// The listing of projects: the demonstration project alone, under a fresh
/// identifier.
pub fn list_projects() -> (r: ApiResponse<Vec<Project>>)
    ensures
        succeeded(r),
        payload(r)@.len() == 1,
        is_uuid_v4_text(payload(r)@[0].id@),
        payload(r)@[0].is_demo(),
        payload(r)@[0].created_at.wf(),
        payload(r)@[0].created_at == payload(r)@[0].updated_at,
{
    let at = now();
    let projects = vec![Project::demo(fresh_id(), at)];
    ApiResponse::success(projects)
}

/// A new project as `request` describes it, under a fresh identifier and
/// created now.
pub fn create_project(request: CreateProjectRequest) -> (r: ApiResponse<Project>)
    ensures
        succeeded(r),
        is_uuid_v4_text(payload(r).id@),
        payload(r).created_at.wf(),
        Project::built_from(payload(r), payload(r).id, payload(r).created_at, request),
{
    let at = now();
    ApiResponse::success(Project::from_request(fresh_id(), at, request))
}

/// The project stored under `id`: the sample project, carrying `id`.
pub fn get_project(id: String) -> (r: ApiResponse<Project>)
    ensures
        succeeded(r),
        payload(r).id == id,
        payload(r).is_sample(),
        payload(r).created_at.wf(),
        payload(r).created_at == payload(r).updated_at,
{
    let at = now();
    ApiResponse::success(Project::sample(id, at))
}

/// The project under `id`, with every mutable field replaced by those of
/// `request`, updated now.
pub fn update_project(id: String, request: CreateProjectRequest) -> (r: ApiResponse<Project>)
    ensures
        succeeded(r),
        payload(r).created_at.wf(),
        Project::built_from(payload(r), id, payload(r).created_at, request),
{
    let at = now();
    ApiResponse::success(Project::from_request(id, at, request))
}

/// The confirmation that the project `id` was deleted.
pub open spec fn deletion_text(id: Seq<char>) -> Seq<char> {
    "Project "@ + id + " deleted successfully"@
}

/// The confirmation text for the deletion of `id`.
pub fn deletion_message(id: &str) -> (r: String)
    ensures
        r@ == deletion_text(id@),
{
    let mut s = String::from_str("Project ");
    s.append(id);
    s.append(" deleted successfully");
    s
}

/// Deletes the project `id`, confirming it by name; any identifier is
/// accepted.
pub fn delete_project(id: &str) -> (r: ApiResponse<String>)
    ensures
        succeeded(r),
        payload(r)@ == deletion_text(id@),
{
    ApiResponse::success(deletion_message(id))
}

/// The confirmation of a deletion holds the identifier, right after
/// `Project `.
pub proof fn lemma_deletion_names_id(id: Seq<char>)
    ensures
        deletion_text(id).subrange(8, 8 + id.len() as int) == id,
{
    reveal_strlit("Project ");
    assert(deletion_text(id).subrange(8, 8 + id.len() as int) =~= id);
}

/// The catalog of available models.
pub fn list_ai_models() -> (r: ApiResponse<Vec<JsonValue>>)
    ensures
        succeeded(r),
        payload(r)@.len() == 2,
        describes_model(
            payload(r)@[0],
            "gemini-pro"@,
            "Gemini Pro"@,
            "nlp"@,
            "google"@,
            seq!["text-generation"@, "chat"@, "summarization"@],
        ),
        describes_model(
            payload(r)@[1],
            "custom-classifier"@,
            "Custom Text Classifier"@,
            "classification"@,
            "internal"@,
            seq!["text-classification"@, "sentiment-analysis"@],
        ),
{
    ApiResponse::success(model_catalog())
}

/// Runs the requested model: a fixed output, with metadata naming the
/// model's provider.
pub fn ai_inference(request: AIInferenceRequest) -> (r: ApiResponse<AIInferenceResponse>)
    ensures
        succeeded(r),
        payload(r).model_id == request.model_id,
        AIInferenceResponse::is_mock_output(payload(r).output),
        AIInferenceResponse::metadata_names(payload(r).metadata, provider_of(request.model_id@)),
{
    ApiResponse::success(AIInferenceResponse::for_request(request))
}

/// A model whose identifier starts with `gemini` is credited to `google`;
/// every other one to the default, `internal`.
pub proof fn lemma_provider_rule(model_id: Seq<char>)
    ensures
        is_prefix("gemini"@, model_id) ==> provider_of(model_id) == "google"@,
        !is_prefix("gemini"@, model_id) ==> provider_of(model_id) == "internal"@,
        provider_of(model_id) == "google"@ <==> is_prefix("gemini"@, model_id),
{
    reveal_strlit("google");
    reveal_strlit("internal");
    assert("google"@.len() != "internal"@.len());
}

} // verus!
