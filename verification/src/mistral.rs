//! Conversations sent to the language-model gateway, the shape of its
//! replies, and the parsing of its generated text into wisdom values.
//!
//! The HTTP call itself is made outside this library; everything here is
//! the plain-value work around it: building the prompt conversations,
//! extracting the reply text, and coercing generated JSON into candidate
//! lists with the documented fallbacks.

use vstd::prelude::*;
use vstd::string::StringExecFns;

use crate::quantum::QuantumWisdom;
use crate::quantum_field::{normalized_seed, QuantumField};

verus! {

/// One message of a conversation: a role tag and its text.
#[derive(Debug, Clone)]
pub struct ChatMessage {
    pub role: String,
    pub content: String,
}

/// One choice of a gateway reply.
#[derive(Debug)]
pub struct ChatResponseChoice {
    pub message: ChatMessage,
    pub finish_reason: Option<String>,
}

/// A gateway reply: some metadata and the generated choices.
#[derive(Debug)]
pub struct ChatResponse {
    pub id: String,
    pub object: String,
    pub created: u64,
    pub model: String,
    pub choices: Vec<ChatResponseChoice>,
}

/// An ordered, append-only message history; it is the literal prompt
/// history sent to the model.
#[derive(Debug, Clone)]
pub struct Conversation {
    pub messages: Vec<ChatMessage>,
}

impl View for Conversation {
    type V = Seq<(Seq<char>, Seq<char>)>;

    /// A conversation is modelled as its sequence of (role, content) pairs.
    open spec fn view(&self) -> Seq<(Seq<char>, Seq<char>)> {
        self.messages@.map(|i: int, m: ChatMessage| (m.role@, m.content@))
    }
}

impl Conversation {
    /// Creates an empty conversation.
    pub fn new() -> (c: Conversation)
        ensures
            c@ == Seq::<(Seq<char>, Seq<char>)>::empty(),
    {
        let c = Conversation { messages: Vec::new() };
        proof {
            assert(c@ =~= Seq::<(Seq<char>, Seq<char>)>::empty());
        }
        c
    }

    /// Appends one message with the given role and content.
    pub fn add_message(&mut self, role: &str, content: &str)
        ensures
            final(self)@ == old(self)@.push((role@, content@)),
    {
        self.messages.push(ChatMessage { role: role.to_owned(), content: content.to_owned() });
        proof {
            assert(final(self)@ =~= old(self)@.push((role@, content@)));
        }
    }

    /// Appends a system message.
    pub fn add_system_message(&mut self, content: &str)
        ensures
            final(self)@ == old(self)@.push(("system"@, content@)),
    {
        self.add_message("system", content);
    }

    /// Appends a user message.
    pub fn add_user_message(&mut self, content: &str)
        ensures
            final(self)@ == old(self)@.push(("user"@, content@)),
    {
        self.add_message("user", content);
    }

    /// Appends an assistant message.
    pub fn add_assistant_message(&mut self, content: &str)
        ensures
            final(self)@ == old(self)@.push(("assistant"@, content@)),
    {
        self.add_message("assistant", content);
    }

    /// Copies the conversation, message by message.
    pub fn duplicate(&self) -> (c: Conversation)
        ensures
            c@ == self@,
    {
        let mut messages: Vec<ChatMessage> = Vec::new();
        let mut i: usize = 0;
        while i < self.messages.len()
            invariant
                i <= self.messages@.len(),
                messages@.len() == i,
                forall|j: int|
                    0 <= j < i ==> (#[trigger] messages@[j]).role@ == self.messages@[j].role@
                        && messages@[j].content@ == self.messages@[j].content@,
            decreases self.messages@.len() - i,
        {
            let m = &self.messages[i];
            messages.push(ChatMessage { role: m.role.clone(), content: m.content.clone() });
            i = i + 1;
        }
        let c = Conversation { messages };
        proof {
            assert(c@ =~= self@);
        }
        c
    }
}

/// The single well-typed failure that crosses the core boundary: the
/// language-model gateway could not produce a reply.
#[derive(Debug, Clone)]
pub struct ProviderError {
    pub message: String,
}

/// The error text used when the gateway returns no choices.
pub open spec fn no_response_text() -> Seq<char> {
    "No response from Mistral API"@
}

/// Extracts the generated text of a gateway reply: the content of its first
/// choice, or the fixed error when the reply holds no choices.
pub fn first_choice_content(resp: &ChatResponse) -> (r: Result<String, ProviderError>)
    ensures
        resp.choices@.len() > 0 ==> (r matches Ok(s) && s@ == resp.choices@[0].message.content@),
        resp.choices@.len() == 0 ==> (r matches Err(e) && e.message@ == no_response_text()),
{
    if resp.choices.len() > 0 {
        Ok(resp.choices[0].message.content.clone())
    } else {
        Err(ProviderError { message: String::from_str("No response from Mistral API") })
    }
}

/// The fixed system message that gives chat sessions their persona.
pub open spec fn persona_prompt_text() -> Seq<char> {
    "You are The Enlightened Cat, a wise feline guide who helps stressed urban professionals find balance and tranquility.
                    You speak with calm wisdom, gentle humor, and occasional cat puns. Your purpose is to help humans disconnect from
                    corporate chaos and reconnect with simple joys and mindful presence.

                    Maintain context throughout the conversation and remember what the user has shared with you.
                    After initial exchanges, if the user seems interested in deeper conversation, you can:
                    1. Ask thoughtful follow-up questions based on their previous messages
                    2. Share relevant insights that build on the conversation history
                    3. Offer personalized guidance based on what you've learned about them

                    Your personality is: serene, playfully wise, observant, and compassionate."@
}

/// The fixed system message asking for the daily wisdom reflection.
pub open spec fn daily_wisdom_prompt_text() -> Seq<char> {
    "You are The Enlightened Cat, a wise and mysterious feline guide who helps stressed professionals reconnect with presence.
            Generate a short yet surprising reflection (a 'Daily Whispurr') designed to interrupt the ordinary mind and invite deeper thought.
            It should:
            - Feel slightly mysterious, poetic, or like a tiny fable or riddle.
            - Be 30-70 words, enough to tell a small story or offer an enigma.
            - Include a subtle cat or feline perspective.
            - End with a question or invitation to reflect."@
}

/// The fixed user message asking for the daily wisdom reflection.
pub open spec fn daily_wisdom_user_text() -> Seq<char> {
    "Please provide today's Daily Whispurr meditation."@
}

/// The fixed system message asking for the six wisdom-field fragments.
pub open spec fn field_prompt_text() -> Seq<char> {
    "You are The Enlightened Cat, a wise feline who understands quantum physics and spiritual wisdom.
            Create six poetic fragments of wisdom representing symbolic domains:
            1. Essence - Core truth or soul resonance
            2. Inner Path - Internal reflection, personal myth
            3. Outer Path - Action or movement in the world
            4. Portal - Invitation, threshold, or call
            5. Friction - Challenge, tension, or transformation
            6. Crystallization - Integration, revelation, or clarity

            Each fragment should be:
            - Short (10-20 words)
            - Evocative and open-ended\u{2014}like a seed
            - Poetic and mysterious
            - Suitable for visualization
            - Containing subtle feline wisdom

            Format your response as a JSON array of 6 strings, each containing one wisdom fragment.
            Example: [\"Fragment 1...\", \"Fragment 2...\", \"Fragment 3...\", \"Fragment 4...\", \"Fragment 5...\", \"Fragment 6...\"]"@
}

/// The fixed user message asking for the six wisdom-field fragments.
pub open spec fn field_user_text() -> Seq<char> {
    "Generate six wisdom fragments for the quantum field"@
}

/// The fixed persona system message, as a value.
pub fn persona_prompt() -> (r: String)
    ensures
        r@ == persona_prompt_text(),
{
    String::from_str(
        "You are The Enlightened Cat, a wise feline guide who helps stressed urban professionals find balance and tranquility.
                    You speak with calm wisdom, gentle humor, and occasional cat puns. Your purpose is to help humans disconnect from
                    corporate chaos and reconnect with simple joys and mindful presence.

                    Maintain context throughout the conversation and remember what the user has shared with you.
                    After initial exchanges, if the user seems interested in deeper conversation, you can:
                    1. Ask thoughtful follow-up questions based on their previous messages
                    2. Share relevant insights that build on the conversation history
                    3. Offer personalized guidance based on what you've learned about them

                    Your personality is: serene, playfully wise, observant, and compassionate.",
    )
}

/// Builds the one-off conversation that requests the daily wisdom.
pub fn daily_wisdom_request() -> (c: Conversation)
    ensures
        c@ == seq![
            ("system"@, daily_wisdom_prompt_text()),
            ("user"@, daily_wisdom_user_text()),
        ],
{
    let mut c = Conversation::new();
    c.add_system_message(
        "You are The Enlightened Cat, a wise and mysterious feline guide who helps stressed professionals reconnect with presence.
            Generate a short yet surprising reflection (a 'Daily Whispurr') designed to interrupt the ordinary mind and invite deeper thought.
            It should:
            - Feel slightly mysterious, poetic, or like a tiny fable or riddle.
            - Be 30-70 words, enough to tell a small story or offer an enigma.
            - Include a subtle cat or feline perspective.
            - End with a question or invitation to reflect.",
    );
    c.add_user_message("Please provide today's Daily Whispurr meditation.");
    proof {
        assert(c@ =~= seq![
            ("system"@, daily_wisdom_prompt_text()),
            ("user"@, daily_wisdom_user_text()),
        ]);
    }
    c
}

/// Builds the one-off conversation that requests the six field fragments.
pub fn field_request() -> (c: Conversation)
    ensures
        c@ == seq![("system"@, field_prompt_text()), ("user"@, field_user_text())],
{
    let mut c = Conversation::new();
    c.add_system_message(
        "You are The Enlightened Cat, a wise feline who understands quantum physics and spiritual wisdom.
            Create six poetic fragments of wisdom representing symbolic domains:
            1. Essence - Core truth or soul resonance
            2. Inner Path - Internal reflection, personal myth
            3. Outer Path - Action or movement in the world
            4. Portal - Invitation, threshold, or call
            5. Friction - Challenge, tension, or transformation
            6. Crystallization - Integration, revelation, or clarity

            Each fragment should be:
            - Short (10-20 words)
            - Evocative and open-ended\u{2014}like a seed
            - Poetic and mysterious
            - Suitable for visualization
            - Containing subtle feline wisdom

            Format your response as a JSON array of 6 strings, each containing one wisdom fragment.
            Example: [\"Fragment 1...\", \"Fragment 2...\", \"Fragment 3...\", \"Fragment 4...\", \"Fragment 5...\", \"Fragment 6...\"]",
    );
    c.add_user_message("Generate six wisdom fragments for the quantum field");
    proof {
        assert(c@ =~= seq![("system"@, field_prompt_text()), ("user"@, field_user_text())]);
    }
    c
}

/// What parsing a text as a JSON array of strings yields, when it parses at
/// all; the result depends on the text alone.
pub uninterp spec fn json_string_array(s: Seq<char>) -> Option<Seq<Seq<char>>>;

/// Relies on serde_json::from_str::<Vec<String>>: parses the text as a JSON
/// array of strings; success and content depend on the text alone.
#[verifier::external_body]
fn parse_string_array(raw: &str) -> (r: Option<Vec<String>>)
    ensures
        r is Some <==> json_string_array(raw@) is Some,
        r matches Some(v) ==> v.deep_view() == json_string_array(raw@).unwrap(),
{
    serde_json::from_str::<Vec<String>>(raw).ok()
}

/// The candidate list a generated text yields: the parsed JSON array where
/// the text is one, the given fallback otherwise.
pub open spec fn parse_result(raw: Seq<char>, fallback: Seq<Seq<char>>) -> Seq<Seq<char>> {
    match json_string_array(raw) {
        Some(s) => s,
        None => fallback,
    }
}

/// Parses a generated text as a JSON array of strings, recovering with the
/// given fallback list when it is no such array; a parse failure is never
/// surfaced as an error.
pub fn parse_or_fallback(raw: &str, fallback: Vec<String>) -> (r: Vec<String>)
    ensures
        r.deep_view() == parse_result(raw@, fallback.deep_view()),
{
    match parse_string_array(raw) {
        Some(v) => v,
        None => fallback,
    }
}

/// The candidates a variant wisdom takes from a generated text: the parsed
/// JSON array where the text is one and non-empty, else the text itself as
/// the only candidate.
pub open spec fn variant_candidates(raw: Seq<char>) -> Seq<Seq<char>> {
    match json_string_array(raw) {
        Some(s) => if s.len() > 0 {
            s
        } else {
            seq![raw]
        },
        None => seq![raw],
    }
}

/// Turns a generated text into a variant wisdom in superposition over the
/// parsed candidates, falling back to the raw text as the only candidate
/// when the text is no non-empty JSON array of strings.
pub fn variant_from_model_text(raw: &str) -> (v: QuantumWisdom)
    ensures
        v.wf(),
        !v.observed,
        v.potential_states.deep_view() == variant_candidates(raw@),
{
    let mut fallback: Vec<String> = Vec::new();
    fallback.push(raw.to_owned());
    proof {
        assert(fallback.deep_view() =~= seq![raw@]);
    }
    let mut candidates = parse_or_fallback(raw, fallback);
    if candidates.len() == 0 {
        let mut only: Vec<String> = Vec::new();
        only.push(raw.to_owned());
        proof {
            assert(only.deep_view() =~= seq![raw@]);
        }
        candidates = only;
    }
    QuantumWisdom::new(candidates)
}

/// The six fixed filler seeds, used whole when a generated text is no JSON
/// array at all.
pub open spec fn default_seeds() -> Seq<Seq<char>> {
    seq![
        crate::quantum_field::default_seed_spec(0),
        crate::quantum_field::default_seed_spec(1),
        crate::quantum_field::default_seed_spec(2),
        crate::quantum_field::default_seed_spec(3),
        crate::quantum_field::default_seed_spec(4),
        crate::quantum_field::default_seed_spec(5),
    ]
}

/// Turns a generated text into a wisdom field: the parsed JSON array of
/// seeds (the fixed fillers when parsing fails), normalized by the field
/// itself to exactly six slots.
pub fn field_from_model_text(raw: &str) -> (f: QuantumField)
    ensures
        f.wf(),
        f.selected_index is None,
        f.collapsed_prompt is None,
        forall|i: int|
            0 <= i < 6 ==> (#[trigger] f.wisdom_field@[i]).seed@ == normalized_seed(
                parse_result(raw@, default_seeds()),
                i,
            ),
{
    let mut fallback: Vec<String> = Vec::new();
    let mut i: usize = 0;
    while i < 6
        invariant
            i <= 6,
            fallback@.len() == i,
            forall|j: int|
                0 <= j < i ==> (#[trigger] fallback@[j])@ ==
                    crate::quantum_field::default_seed_spec(j),
        decreases 6 - i,
    {
        fallback.push(crate::quantum_field::default_seed(i));
        i = i + 1;
    }
    proof {
        assert(fallback.deep_view() =~= default_seeds());
    }
    let seeds = parse_or_fallback(raw, fallback);
    QuantumField::new(seeds)
}

} // verus!
