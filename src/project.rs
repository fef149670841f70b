use vstd::prelude::*;

use crate::clock::Timestamp;
use crate::json::{entry, JsonValue};

verus! {

/// A project and the AI models it uses.
#[derive(Debug)]
pub struct Project {
    /// Identifier, generated by the service.
    pub id: String,
    pub name: String,
    pub description: Option<String>,
    pub created_at: Timestamp,
    pub updated_at: Timestamp,
    /// Identifiers of the AI models, in order; duplicates are allowed.
    pub ai_models: Vec<String>,
    /// Free-form configuration.
    pub config: JsonValue,
}

/// The fields that a client submits to create or replace a project.
#[derive(Debug)]
pub struct CreateProjectRequest {
    pub name: String,
    pub description: Option<String>,
    pub ai_models: Vec<String>,
    /// Configuration; an absent one stands for the empty object.
    pub config: Option<JsonValue>,
}

/// `d` is `Some` of the string `t`.
pub open spec fn is_some_text(d: Option<String>, t: Seq<char>) -> bool {
    d matches Some(s) && s@ == t
}

/// `v` holds the strings `items`, in order.
pub open spec fn holds_texts(v: Vec<String>, items: Seq<Seq<char>>) -> bool {
    &&& v@.len() == items.len()
    &&& forall|i: int| 0 <= i < items.len() ==> (#[trigger] v@[i])@ == items[i]
}

impl Project {
    /// The project `p` is the one that `request` describes, with identifier
    /// `id`, created and updated at `at`.
    pub open spec fn built_from(
        p: Project,
        id: String,
        at: Timestamp,
        request: CreateProjectRequest,
    ) -> bool {
        &&& p.id == id
        &&& p.name == request.name
        &&& p.description == request.description
        &&& p.ai_models == request.ai_models
        &&& p.created_at == at
        &&& p.updated_at == at
        &&& match request.config {
            Some(c) => p.config == c,
            None => p.config.is_empty_object(),
        }
    }

    /// The fields of the demonstration project: named "Demo Project", using
    /// `gemini-pro` and `custom-classifier`, with `ai_enabled` and
    /// `real_time` switched on.
    pub open spec fn is_demo(&self) -> bool {
        &&& self.name@ == "Demo Project"@
        &&& is_some_text(self.description, "A demonstration project"@)
        &&& holds_texts(self.ai_models, seq!["gemini-pro"@, "custom-classifier"@])
        &&& self.config.is_object_of_len(2)
        &&& self.config.key_at(0, "ai_enabled"@)
        &&& self.config.value_at(0).is_bool(true)
        &&& self.config.key_at(1, "real_time"@)
        &&& self.config.value_at(1).is_bool(true)
    }

    /// The fields of the sample project: named "Sample Project", using
    /// `gemini-pro`, with `ai_enabled` switched on.
    pub open spec fn is_sample(&self) -> bool {
        &&& self.name@ == "Sample Project"@
        &&& is_some_text(self.description, "A sample project for demonstration"@)
        &&& holds_texts(self.ai_models, seq!["gemini-pro"@])
        &&& self.config.is_object_of_len(1)
        &&& self.config.key_at(0, "ai_enabled"@)
        &&& self.config.value_at(0).is_bool(true)
    }

    /// The project that `request` describes, with identifier `id`, created
    /// and last updated at `at`. A missing configuration becomes `{}`.
    pub fn from_request(id: String, at: Timestamp, request: CreateProjectRequest) -> (r: Project)
        ensures
            Project::built_from(r, id, at, request),
    {
        let config = match request.config {
            Some(c) => c,
            None => JsonValue::empty_object(),
        };
        Project {
            id,
            name: request.name,
            description: request.description,
            created_at: at,
            updated_at: at,
            ai_models: request.ai_models,
            config,
        }
    }

    /// The demonstration project that the listing shows, with identifier
    /// `id` and stamped `at`.
    pub fn demo(id: String, at: Timestamp) -> (r: Project)
        ensures
            r.id == id,
            r.created_at == at,
            r.updated_at == at,
            r.is_demo(),
    {
        let config = JsonValue::Object(
            vec![
                entry("ai_enabled", JsonValue::Bool(true)),
                entry("real_time", JsonValue::Bool(true)),
            ],
        );
        Project {
            id,
            name: String::from_str("Demo Project"),
            description: Some(String::from_str("A demonstration project")),
            created_at: at,
            updated_at: at,
            ai_models: vec![String::from_str("gemini-pro"), String::from_str("custom-classifier")],
            config,
        }
    }

    /// The sample project shown for the identifier `id`, stamped `at`.
    pub fn sample(id: String, at: Timestamp) -> (r: Project)
        ensures
            r.id == id,
            r.created_at == at,
            r.updated_at == at,
            r.is_sample(),
    {
        let config = JsonValue::Object(vec![entry("ai_enabled", JsonValue::Bool(true))]);
        Project {
            id,
            name: String::from_str("Sample Project"),
            description: Some(String::from_str("A sample project for demonstration")),
            created_at: at,
            updated_at: at,
            ai_models: vec![String::from_str("gemini-pro")],
            config,
        }
    }
}

} // verus!
