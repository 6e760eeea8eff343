use enlightened_cat::mistral::field_from_model_text;
use enlightened_cat::routes::field_response;
use enlightened_cat::QuantumField;

const DOMAINS: [&str; 6] = [
    "Essence",
    "Inner Path",
    "Outer Path",
    "Portal",
    "Friction",
    "Crystallization",
];

const DEFAULT_SEEDS: [&str; 6] = [
    "A single note played in the silent forest",
    "The mirror ripples but does not break",
    "Footsteps echo through the sky-bound stair",
    "The door hums though no hand touches it",
    "Ashes glowing under the weight of stillness",
    "The gem turns inside the breathless hour",
];

fn seeds(texts: &[&str]) -> Vec<String> {
    texts.iter().map(|t| t.to_string()).collect()
}

#[test]
fn three_seeds_are_padded_with_the_fixed_fillers() {
    let field = QuantumField::new(seeds(&["s0", "s1", "s2"]));
    assert_eq!(field.wisdom_field.len(), 6);
    assert_eq!(field.wisdom_field[0].seed, "s0");
    assert_eq!(field.wisdom_field[1].seed, "s1");
    assert_eq!(field.wisdom_field[2].seed, "s2");
    assert_eq!(field.wisdom_field[3].seed, DEFAULT_SEEDS[3 % 6]);
    assert_eq!(field.wisdom_field[4].seed, DEFAULT_SEEDS[4 % 6]);
    assert_eq!(field.wisdom_field[5].seed, DEFAULT_SEEDS[5 % 6]);
    for (i, node) in field.wisdom_field.iter().enumerate() {
        assert_eq!(node.index, i + 1);
        assert_eq!(node.domain, DOMAINS[i]);
    }
    assert!(field.selected_index.is_none());
    assert!(field.collapsed_prompt.is_none());
}

#[test]
fn eight_seeds_are_truncated_to_the_first_six() {
    let field = QuantumField::new(seeds(&["a", "b", "c", "d", "e", "f", "g", "h"]));
    assert_eq!(field.wisdom_field.len(), 6);
    let got: Vec<&str> = field.wisdom_field.iter().map(|n| n.seed.as_str()).collect();
    assert_eq!(got, vec!["a", "b", "c", "d", "e", "f"]);
}

#[test]
fn collapse_at_outer_path_interpolates_its_seed() {
    let mut field = QuantumField::new(seeds(&["a", "b", "the river chooses its own bend"]));
    let prompt = field.collapse(2);
    assert_eq!(
        prompt,
        "A figure standing at a crossroads where the river chooses its own bend, \
         with multiple paths stretching toward distant horizons, symbolizing choices \
         and action in the world."
    );
    assert!(prompt.contains("the river chooses its own bend"));
    assert_eq!(field.selected_index, Some(2));
    assert_eq!(field.collapsed_prompt.as_deref(), Some(prompt.as_str()));
}

#[test]
fn each_domain_has_its_own_frame() {
    let mut field = QuantumField::new(seeds(&["s0", "s1", "s2", "s3", "s4", "s5"]));
    let mut prompts = Vec::new();
    for i in 0..6 {
        let p = field.collapse(i);
        assert!(p.contains(&format!("s{}", i)));
        prompts.push(p);
    }
    for i in 0..6 {
        for j in 0..i {
            assert_ne!(prompts[i], prompts[j]);
        }
    }
}

#[test]
fn out_of_range_collapse_stores_the_fallback_and_keeps_the_selection() {
    let mut field = QuantumField::new(seeds(&["a"]));
    let prompt = field.collapse(99);
    assert_eq!(prompt, "The quantum field collapsed in an unexpected way.");
    assert_eq!(field.collapsed_prompt.as_deref(), Some(prompt.as_str()));
    assert_eq!(field.selected_index, None);

    field.collapse(2);
    assert_eq!(field.selected_index, Some(2));
    let again = field.collapse(99);
    assert_eq!(again, "The quantum field collapsed in an unexpected way.");
    assert_eq!(field.selected_index, Some(2));
}

#[test]
fn repeated_collapse_overwrites_the_previous_prompt() {
    let mut field = QuantumField::new(seeds(&["first seed", "second seed"]));
    let p1 = field.collapse(0);
    let p2 = field.collapse(1);
    assert_ne!(p1, p2);
    assert_eq!(field.collapsed_prompt.as_deref(), Some(p2.as_str()));
    assert_eq!(field.selected_index, Some(1));
}

#[test]
fn field_from_json_array_of_six_uses_the_parsed_seeds() {
    let field = field_from_model_text("[\"u\", \"v\", \"w\", \"x\", \"y\", \"z\"]");
    let got: Vec<&str> = field.wisdom_field.iter().map(|n| n.seed.as_str()).collect();
    assert_eq!(got, vec!["u", "v", "w", "x", "y", "z"]);
}

#[test]
fn field_from_short_json_array_is_padded() {
    let field = field_from_model_text("[\"u\", \"v\"]");
    assert_eq!(field.wisdom_field[0].seed, "u");
    assert_eq!(field.wisdom_field[1].seed, "v");
    for i in 2..6 {
        assert_eq!(field.wisdom_field[i].seed, DEFAULT_SEEDS[i]);
    }
}

#[test]
fn field_from_long_json_array_is_truncated() {
    let field =
        field_from_model_text("[\"1\", \"2\", \"3\", \"4\", \"5\", \"6\", \"7\", \"8\"]");
    let got: Vec<&str> = field.wisdom_field.iter().map(|n| n.seed.as_str()).collect();
    assert_eq!(got, vec!["1", "2", "3", "4", "5", "6"]);
}

#[test]
fn field_from_unparsable_text_uses_all_fixed_fillers() {
    let field = field_from_model_text("not json at all");
    for i in 0..6 {
        assert_eq!(field.wisdom_field[i].seed, DEFAULT_SEEDS[i]);
    }
}

#[test]
fn field_response_mirrors_every_node() {
    let field = QuantumField::new(seeds(&["a", "b", "c"]));
    let resp = field_response(&field);
    assert_eq!(resp.wisdom_field.len(), 6);
    for (node, out) in field.wisdom_field.iter().zip(resp.wisdom_field.iter()) {
        assert_eq!(out.index, node.index);
        assert_eq!(out.domain, node.domain);
        assert_eq!(out.seed, node.seed);
    }
}
