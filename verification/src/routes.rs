//! The plain-value halves of the request handlers: the keyword-driven topic
//! suggestions of the chat endpoint, the reply assembly, and the response
//! shapes the JSON endpoints serialize.

use vstd::prelude::*;
use vstd::string::StringExecFns;

use crate::quantum_field::QuantumField;
use crate::text::{contains_seq, contains_substr, lower_of, lowercase};

verus! {

/// An incoming chat request: the user's message and its conversation
/// context.
#[derive(Debug)]
pub struct ChatRequest {
    pub message: String,
    pub conversation_depth: Option<u32>,
    pub current_topic: Option<String>,
}

/// The chat endpoint's reply: the assistant's message and, when the user
/// seems ready for deeper conversation, suggested topics.
#[derive(Debug)]
pub struct ChatResponse {
    pub message: String,
    pub suggested_topics: Option<Vec<String>>,
}

/// The daily-wisdom endpoint's reply.
#[derive(Debug)]
pub struct WisdomResponse {
    pub wisdom: String,
    pub timestamp: String,
}

/// Query parameters for observing a variant wisdom.
#[derive(Debug)]
pub struct ObserveParams {
    pub state_index: Option<usize>,
}

/// Query parameters for collapsing the wisdom field.
#[derive(Debug)]
pub struct CollapseParams {
    pub index: usize,
}

/// The field endpoint's reply: all six nodes.
#[derive(Debug)]
pub struct QuantumFieldResponse {
    pub wisdom_field: Vec<WisdomNodeResponse>,
}

/// One node of the field endpoint's reply.
#[derive(Debug)]
pub struct WisdomNodeResponse {
    pub index: usize,
    pub domain: String,
    pub seed: String,
}

/// The collapse endpoint's reply.
#[derive(Debug)]
pub struct CollapsedFieldResponse {
    pub selected_index: usize,
    pub collapsed_prompt: String,
}

/// The topics offered when the message speaks of work.
pub open spec fn work_topics() -> Seq<Seq<char>> {
    seq!["Work-life balance"@, "Finding meaning in your career"@, "Mindfulness at work"@]
}

/// The topics offered when the message speaks of stress.
pub open spec fn stress_topics() -> Seq<Seq<char>> {
    seq!["Stress reduction techniques"@, "Mindful breathing"@, "Creating peaceful spaces"@]
}

/// The topics offered when the message speaks of meditation.
pub open spec fn meditation_topics() -> Seq<Seq<char>> {
    seq![
        "Daily meditation practices"@,
        "Mindfulness in everyday moments"@,
        "The science of meditation"@,
    ]
}

/// The topics offered when no keyword matches.
pub open spec fn default_topics() -> Seq<Seq<char>> {
    seq!["Finding balance"@, "Mindfulness practices"@, "Creating peaceful moments"@]
}

/// The topic list the lowercased message selects, by the first keyword
/// group it contains.
pub open spec fn topic_suggestions_for(lower: Seq<char>) -> Seq<Seq<char>> {
    if contains_seq(lower, "work"@) || contains_seq(lower, "job"@) || contains_seq(
        lower,
        "career"@,
    ) {
        work_topics()
    } else if contains_seq(lower, "stress"@) || contains_seq(lower, "anxiety"@) || contains_seq(
        lower,
        "overwhelm"@,
    ) {
        stress_topics()
    } else if contains_seq(lower, "meditat"@) || contains_seq(lower, "mindful"@) {
        meditation_topics()
    } else {
        default_topics()
    }
}

/// Whether the lowercased message signals interest in deeper conversation.
pub open spec fn wants_deeper(lower: Seq<char>) -> bool {
    ||| contains_seq(lower, "yes"@)
    ||| contains_seq(lower, "more"@)
    ||| contains_seq(lower, "tell me"@)
    ||| contains_seq(lower, "deeper"@)
}

/// The suggested topics of a reply: present exactly when the conversation
/// is at least two exchanges deep and the message signals interest.
pub open spec fn suggested_topics_model(message: Seq<char>, depth: u32) -> Option<Seq<Seq<char>>> {
    if depth >= 2 && wants_deeper(lower_of(message)) {
        Some(topic_suggestions_for(lower_of(message)))
    } else {
        None
    }
}

/// Builds a list of three topic strings.
fn three_topics(a: &str, b: &str, c: &str) -> (r: Vec<String>)
    ensures
        r.deep_view() == seq![a@, b@, c@],
{
    let mut r: Vec<String> = Vec::new();
    r.push(a.to_owned());
    r.push(b.to_owned());
    r.push(c.to_owned());
    proof {
        assert(r.deep_view() =~= seq![a@, b@, c@]);
    }
    r
}

/// Suggests three topics based on the keywords of the user's message,
/// matched case-insensitively: work, stress and meditation themes each have
/// their fixed list, and anything else receives the default list.
pub fn generate_topic_suggestions(message: &str) -> (r: Vec<String>)
    ensures
        r.deep_view() == topic_suggestions_for(lower_of(message@)),
{
    let message_lower = lowercase(message);
    let lower = message_lower.as_str();
    if contains_substr(lower, "work") || contains_substr(lower, "job") || contains_substr(
        lower,
        "career",
    ) {
        three_topics("Work-life balance", "Finding meaning in your career", "Mindfulness at work")
    } else if contains_substr(lower, "stress") || contains_substr(lower, "anxiety")
        || contains_substr(lower, "overwhelm") {
        three_topics("Stress reduction techniques", "Mindful breathing", "Creating peaceful spaces")
    } else if contains_substr(lower, "meditat") || contains_substr(lower, "mindful") {
        three_topics(
            "Daily meditation practices",
            "Mindfulness in everyday moments",
            "The science of meditation",
        )
    } else {
        three_topics("Finding balance", "Mindfulness practices", "Creating peaceful moments")
    }
}

/// The suggested topics for a message at the given conversation depth:
/// offered exactly when the depth is at least two and the message signals
/// interest in deeper conversation.
pub fn suggested_topics(message: &str, conversation_depth: u32) -> (r: Option<Vec<String>>)
    ensures
        match r {
            Some(v) => suggested_topics_model(message@, conversation_depth) == Some(v.deep_view()),
            None => suggested_topics_model(message@, conversation_depth) is None,
        },
{
    if conversation_depth >= 2 {
        let message_lower = lowercase(message);
        let lower = message_lower.as_str();
        if contains_substr(lower, "yes") || contains_substr(lower, "more") || contains_substr(
            lower,
            "tell me",
        ) || contains_substr(lower, "deeper") {
            Some(generate_topic_suggestions(message))
        } else {
            None
        }
    } else {
        None
    }
}

/// Assembles the chat endpoint's reply around the assistant's text.
pub fn chat_reply(message: &str, conversation_depth: u32, assistant_text: String) -> (r:
    ChatResponse)
    ensures
        r.message == assistant_text,
        match r.suggested_topics {
            Some(v) => suggested_topics_model(message@, conversation_depth) == Some(v.deep_view()),
            None => suggested_topics_model(message@, conversation_depth) is None,
        },
{
    let topics = suggested_topics(message, conversation_depth);
    ChatResponse { message: assistant_text, suggested_topics: topics }
}

/// Converts a wisdom field into the response shape, node for node.
pub fn field_response(field: &QuantumField) -> (r: QuantumFieldResponse)
    ensures
        r.wisdom_field@.len() == field.wisdom_field@.len(),
        forall|i: int|
            0 <= i < field.wisdom_field@.len() ==> {
                &&& (#[trigger] r.wisdom_field@[i]).index == field.wisdom_field@[i].index
                &&& r.wisdom_field@[i].domain@ == field.wisdom_field@[i].domain@
                &&& r.wisdom_field@[i].seed@ == field.wisdom_field@[i].seed@
            },
{
    let mut nodes: Vec<WisdomNodeResponse> = Vec::new();
    let mut i: usize = 0;
    while i < field.wisdom_field.len()
        invariant
            i <= field.wisdom_field@.len(),
            nodes@.len() == i,
            forall|j: int|
                0 <= j < i ==> {
                    &&& (#[trigger] nodes@[j]).index == field.wisdom_field@[j].index
                    &&& nodes@[j].domain@ == field.wisdom_field@[j].domain@
                    &&& nodes@[j].seed@ == field.wisdom_field@[j].seed@
                },
        decreases field.wisdom_field@.len() - i,
    {
        let node = &field.wisdom_field[i];
        nodes.push(
            WisdomNodeResponse {
                index: node.index,
                domain: node.domain.clone(),
                seed: node.seed.clone(),
            },
        );
        i = i + 1;
    }
    QuantumFieldResponse { wisdom_field: nodes }
}

} // verus!
