use enlightened_cat::mistral::variant_from_model_text;
use enlightened_cat::QuantumWisdom;

fn candidates(texts: &[&str]) -> Vec<String> {
    texts.iter().map(|t| t.to_string()).collect()
}

#[test]
fn new_wisdom_is_in_superposition() {
    let w = QuantumWisdom::new(candidates(&["a", "b", "c"]));
    assert!(w.is_in_superposition());
    assert!(!w.observed);
    assert!(w.collapsed_state.is_none());
    assert_eq!(w.get_potential_states().len(), 3);
    assert_eq!(w.get_potential_states()[1], "b");
    assert!(w.quantum_metadata.coherence <= 1_000_000);
}

#[test]
fn observe_is_idempotent() {
    let mut w = QuantumWisdom::new(candidates(&["one", "two", "three"]));
    let first = w.observe();
    assert!(!w.is_in_superposition());
    let second = w.observe();
    let third = w.observe();
    assert_eq!(first, second);
    assert_eq!(first, third);
    assert!(w.get_potential_states().iter().any(|c| *c == first));
}

#[test]
fn observe_specific_returns_exactly_the_chosen_candidate() {
    let mut w = QuantumWisdom::new(candidates(&["a", "b", "c"]));
    let t = w.observe_specific(1);
    assert_eq!(t, "b");
    assert_eq!(w.collapsed_state.as_deref(), Some("b"));
    assert!(w.observed);
}

#[test]
fn observe_specific_after_observation_keeps_first_result() {
    let mut w = QuantumWisdom::new(candidates(&["a", "b", "c"]));
    let first = w.observe_specific(0);
    let second = w.observe_specific(2);
    assert_eq!(first, "a");
    assert_eq!(second, "a");
}

#[test]
fn observe_with_uses_the_given_draw() {
    let mut w = QuantumWisdom::new(candidates(&["a", "b", "c"]));
    // 4 % 3 == 1, so the draw 4 selects the second candidate.
    let t = w.observe_with(4);
    assert_eq!(t, "b");
}

#[test]
fn out_of_range_observation_matches_plain_observation() {
    // With the same seeded draw, the out-of-range path and the plain path
    // pick the same candidate.
    let mut direct = QuantumWisdom::new(candidates(&["a", "b"]));
    let mut fallback = QuantumWisdom::new(candidates(&["a", "b"]));
    let expected = direct.observe_with(7);
    let got = fallback.observe_specific_with(99, 7);
    assert_eq!(expected, got);
    assert_eq!(expected, "b");
}

#[test]
fn out_of_range_observation_still_collapses() {
    let mut w = QuantumWisdom::new(candidates(&["only"]));
    let t = w.observe_specific(42);
    assert_eq!(t, "only");
    assert!(w.observed);
}

#[test]
fn variant_from_json_array_uses_the_parsed_candidates() {
    let w = variant_from_model_text("[\"x\", \"y\"]");
    assert_eq!(w.potential_states, vec!["x".to_string(), "y".to_string()]);
    assert!(!w.observed);
}

#[test]
fn variant_from_plain_text_uses_the_text_itself() {
    let w = variant_from_model_text("just a sentence");
    assert_eq!(w.potential_states, vec!["just a sentence".to_string()]);
}

#[test]
fn variant_from_empty_json_array_uses_the_text_itself() {
    let w = variant_from_model_text("[]");
    assert_eq!(w.potential_states, vec!["[]".to_string()]);
}
