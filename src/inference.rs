use vstd::prelude::*;

use crate::json::{entry, JsonValue};

verus! {

/// A request to run an AI model on some input.
#[derive(Debug)]
pub struct AIInferenceRequest {
    pub model_id: String,
    pub input: JsonValue,
    pub parameters: Option<JsonValue>,
}

/// The outcome of an inference: the model, its output and metadata.
#[derive(Debug)]
pub struct AIInferenceResponse {
    pub model_id: String,
    pub output: JsonValue,
    pub metadata: JsonValue,
}

/// `p` is a prefix of `s`.
pub open spec fn is_prefix(p: Seq<char>, s: Seq<char>) -> bool {
    p.len() <= s.len() && s.subrange(0, p.len() as int) == p
}

/// The provider credited with the model `model_id`: models whose
/// identifier starts with `gemini` come from `google`, all others are
/// `internal`.
pub open spec fn provider_of(model_id: Seq<char>) -> Seq<char> {
    if is_prefix("gemini"@, model_id) {
        "google"@
    } else {
        "internal"@
    }
}

/// Whether `s` starts with `prefix`.
pub fn starts_with(s: &str, prefix: &str) -> (r: bool)
    ensures
        r == is_prefix(prefix@, s@),
{
    let n = prefix.unicode_len();
    let m = s.unicode_len();
    if n > m {
        return false;
    }
    let mut i: usize = 0;
    while i < n
        invariant
            n == prefix@.len(),
            m == s@.len(),
            n <= m,
            i <= n,
            forall|j: int| 0 <= j < i ==> s@[j] == prefix@[j],
        decreases n - i,
    {
        if s.get_char(i) != prefix.get_char(i) {
            assert(s@.subrange(0, n as int)[i as int] != prefix@[i as int]);
            return false;
        }
        i = i + 1;
    }
    assert(s@.subrange(0, n as int) =~= prefix@);
    true
}

/// The provider credited with the model `model_id`.
pub fn provider_for(model_id: &str) -> (r: &'static str)
    ensures
        r@ == provider_of(model_id@),
{
    if starts_with(model_id, "gemini") {
        "google"
    } else {
        "internal"
    }
}

impl AIInferenceResponse {
    /// `m` is the metadata reported for a model of provider `provider`:
    /// a processing time of 150 ms, model version 1.0.0, and the provider.
    pub open spec fn metadata_names(m: JsonValue, provider: Seq<char>) -> bool {
        &&& m.is_object_of_len(3)
        &&& m.key_at(0, "processing_time_ms"@)
        &&& m.value_at(0).is_number("150"@)
        &&& m.key_at(1, "model_version"@)
        &&& m.value_at(1).is_text("1.0.0"@)
        &&& m.key_at(2, "provider"@)
        &&& m.value_at(2).is_text(provider)
    }

    /// `o` is the fixed output of an inference.
    pub open spec fn is_mock_output(o: JsonValue) -> bool {
        &&& o.is_object_of_len(2)
        &&& o.key_at(0, "result"@)
        &&& o.value_at(0).is_text("This is a mock response from the Rust core service"@)
        &&& o.key_at(1, "confidence"@)
        &&& o.value_at(1).is_number("0.95"@)
    }

    /// The response to `request`: a fixed output, and metadata that names
    /// the provider of the requested model.
    pub fn for_request(request: AIInferenceRequest) -> (r: AIInferenceResponse)
        ensures
            r.model_id == request.model_id,
            AIInferenceResponse::is_mock_output(r.output),
            AIInferenceResponse::metadata_names(r.metadata, provider_of(request.model_id@)),
    {
        let provider = provider_for(request.model_id.as_str());
        let output = JsonValue::Object(
            vec![
                entry("result", JsonValue::text("This is a mock response from the Rust core service")),
                entry("confidence", JsonValue::number("0.95")),
            ],
        );
        let metadata = JsonValue::Object(
            vec![
                entry("processing_time_ms", JsonValue::number("150")),
                entry("model_version", JsonValue::text("1.0.0")),
                entry("provider", JsonValue::text(provider)),
            ],
        );
        AIInferenceResponse { model_id: request.model_id, output, metadata }
    }
}

/// `m` describes a model: its identifier, display name, type, provider and
/// capabilities, in that order.
pub open spec fn describes_model(
    m: JsonValue,
    id: Seq<char>,
    name: Seq<char>,
    kind: Seq<char>,
    provider: Seq<char>,
    capabilities: Seq<Seq<char>>,
) -> bool {
    &&& m.is_object_of_len(5)
    &&& m.key_at(0, "id"@) && m.value_at(0).is_text(id)
    &&& m.key_at(1, "name"@) && m.value_at(1).is_text(name)
    &&& m.key_at(2, "type"@) && m.value_at(2).is_text(kind)
    &&& m.key_at(3, "provider"@) && m.value_at(3).is_text(provider)
    &&& m.key_at(4, "capabilities"@) && m.value_at(4).is_text_array(capabilities)
}

/// A descriptor of one model.
fn model_descriptor(
    id: &str,
    name: &str,
    kind: &str,
    provider: &str,
    capabilities: &Vec<&str>,
) -> (r: JsonValue)
    ensures
        describes_model(r, id@, name@, kind@, provider@, capabilities@.map_values(|s: &str| s@)),
{
    JsonValue::Object(
        vec![
            entry("id", JsonValue::text(id)),
            entry("name", JsonValue::text(name)),
            entry("type", JsonValue::text(kind)),
            entry("provider", JsonValue::text(provider)),
            entry("capabilities", JsonValue::text_array(capabilities)),
        ],
    )
}

/// The catalog of available models: Gemini Pro from google, and the
/// internal custom text classifier.
pub fn model_catalog() -> (r: Vec<JsonValue>)
    ensures
        r@.len() == 2,
        describes_model(
            r@[0],
            "gemini-pro"@,
            "Gemini Pro"@,
            "nlp"@,
            "google"@,
            seq!["text-generation"@, "chat"@, "summarization"@],
        ),
        describes_model(
            r@[1],
            "custom-classifier"@,
            "Custom Text Classifier"@,
            "classification"@,
            "internal"@,
            seq!["text-classification"@, "sentiment-analysis"@],
        ),
{
    let gemini_caps = vec!["text-generation", "chat", "summarization"];
    let classifier_caps = vec!["text-classification", "sentiment-analysis"];
    let gemini = model_descriptor("gemini-pro", "Gemini Pro", "nlp", "google", &gemini_caps);
    let classifier = model_descriptor(
        "custom-classifier",
        "Custom Text Classifier",
        "classification",
        "internal",
        &classifier_caps,
    );
    assert(gemini_caps@.map_values(|s: &str| s@) =~= seq![
        "text-generation"@,
        "chat"@,
        "summarization"@,
    ]);
    assert(classifier_caps@.map_values(|s: &str| s@) =~= seq![
        "text-classification"@,
        "sentiment-analysis"@,
    ]);
    vec![gemini, classifier]
}

} // verus!
