//! The six-fold wisdom field: six domain-tagged seed texts, of which one may
//! be selected to produce a domain-specific prompt rendering.

use vstd::prelude::*;
use vstd::string::StringExecFns;

use crate::text::str_eq;

verus! {

/// One slot of the field: a position (1 to 6), its domain label, and the
/// seed text it carries.
#[derive(Debug, Clone)]
pub struct WisdomNode {
    pub index: usize,
    pub domain: String,
    pub seed: String,
}

/// The entire six-fold wisdom field, with an optional selection and the
/// prompt derived from it.
#[derive(Debug, Clone)]
pub struct QuantumField {
    pub wisdom_field: Vec<WisdomNode>,
    pub selected_index: Option<usize>,
    pub collapsed_prompt: Option<String>,
}

/// The fixed domain label of slot `i` (0-based), assigned positionally.
pub open spec fn domain_label_spec(i: int) -> Seq<char> {
    if i == 0 {
        "Essence"@
    } else if i == 1 {
        "Inner Path"@
    } else if i == 2 {
        "Outer Path"@
    } else if i == 3 {
        "Portal"@
    } else if i == 4 {
        "Friction"@
    } else {
        "Crystallization"@
    }
}

/// The fixed filler seed used for slot `i` when too few seeds are supplied.
pub open spec fn default_seed_spec(i: int) -> Seq<char> {
    if i == 0 {
        "A single note played in the silent forest"@
    } else if i == 1 {
        "The mirror ripples but does not break"@
    } else if i == 2 {
        "Footsteps echo through the sky-bound stair"@
    } else if i == 3 {
        "The door hums though no hand touches it"@
    } else if i == 4 {
        "Ashes glowing under the weight of stillness"@
    } else {
        "The gem turns inside the breathless hour"@
    }
}

/// The seed that slot `i` of a new field receives from the supplied list:
/// the caller's seed where one exists, else the filler for that slot.
pub open spec fn normalized_seed(seeds: Seq<Seq<char>>, i: int) -> Seq<char> {
    if i < seeds.len() {
        seeds[i]
    } else {
        default_seed_spec(i % 6)
    }
}

/// The domain-specific sentence frame with the seed interpolated; an
/// unrecognized domain falls back to a generic frame.
pub open spec fn collapsed_prompt_text(domain: Seq<char>, seed: Seq<char>) -> Seq<char> {
    if domain == "Essence"@ {
        "A luminous core of energy revealing "@ + seed
            + ", with soft golden light emanating outward, creating a sense of profound truth and connection."@
    } else if domain == "Inner Path"@ {
        "A winding path through a misty forest where "@ + seed
            + ", illuminated by moonlight filtering through ancient trees, suggesting introspection and personal discovery."@
    } else if domain == "Outer Path"@ {
        "A figure standing at a crossroads where "@ + seed
            + ", with multiple paths stretching toward distant horizons, symbolizing choices and action in the world."@
    } else if domain == "Portal"@ {
        "A mysterious doorway glowing with ethereal light, where "@ + seed
            + ". The threshold vibrates with possibility, inviting passage to another realm."@
    } else if domain == "Friction"@ {
        "Two opposing forces meeting in a dance of energy where "@ + seed
            + ", creating sparks and transformation at their intersection, beautiful in their tension."@
    } else if domain == "Crystallization"@ {
        "A perfect crystal forming in slow motion, capturing the moment when "@ + seed
            + ". Each facet reflects a different aspect of the same unified truth."@
    } else {
        "A visual representation of: "@ + seed
    }
}

/// The sentence stored when a collapse is requested at an invalid slot.
pub open spec fn fallback_prompt_text() -> Seq<char> {
    "The quantum field collapsed in an unexpected way."@
}

/// The prompt that collapsing `f` at `index` yields: the selected node's
/// frame for a valid slot, the fixed fallback sentence otherwise.
pub open spec fn collapse_result_text(f: QuantumField, index: int) -> Seq<char> {
    if 0 <= index < f.wisdom_field@.len() {
        collapsed_prompt_text(f.wisdom_field@[index].domain@, f.wisdom_field@[index].seed@)
    } else {
        fallback_prompt_text()
    }
}

/// The fixed domain label of slot `i` (0-based).
pub fn domain_label(i: usize) -> (r: &'static str)
    requires
        i < 6,
    ensures
        r@ == domain_label_spec(i as int),
{
    if i == 0 {
        "Essence"
    } else if i == 1 {
        "Inner Path"
    } else if i == 2 {
        "Outer Path"
    } else if i == 3 {
        "Portal"
    } else if i == 4 {
        "Friction"
    } else {
        "Crystallization"
    }
}

/// The fixed filler seed for slot `i`.
pub fn default_seed(i: usize) -> (r: String)
    requires
        i < 6,
    ensures
        r@ == default_seed_spec(i as int),
{
    if i == 0 {
        String::from_str("A single note played in the silent forest")
    } else if i == 1 {
        String::from_str("The mirror ripples but does not break")
    } else if i == 2 {
        String::from_str("Footsteps echo through the sky-bound stair")
    } else if i == 3 {
        String::from_str("The door hums though no hand touches it")
    } else if i == 4 {
        String::from_str("Ashes glowing under the weight of stillness")
    } else {
        String::from_str("The gem turns inside the breathless hour")
    }
}

impl QuantumField {
    /// A well-formed field has exactly six nodes, numbered 1 to 6, with the
    /// fixed domain labels assigned positionally.
    pub open spec fn wf(&self) -> bool {
        &&& self.wisdom_field@.len() == 6
        &&& forall|i: int|
            0 <= i < 6 ==> (#[trigger] self.wisdom_field@[i]).index == i + 1
        &&& forall|i: int|
            0 <= i < 6 ==> (#[trigger] self.wisdom_field@[i]).domain@ == domain_label_spec(i)
    }

    /// Builds a field from the supplied seeds, normalized to exactly six:
    /// extra seeds are discarded, missing slots take the fixed fillers.
    pub fn new(seeds: Vec<String>) -> (field: QuantumField)
        ensures
            field.wf(),
            field.selected_index is None,
            field.collapsed_prompt is None,
            forall|i: int|
                0 <= i < 6 ==> (#[trigger] field.wisdom_field@[i]).seed@ == normalized_seed(
                    seeds.deep_view(),
                    i,
                ),
    {
        let mut wisdom_field: Vec<WisdomNode> = Vec::new();
        let mut i: usize = 0;
        while i < 6
            invariant
                i <= 6,
                wisdom_field@.len() == i,
                forall|j: int| 0 <= j < i ==> (#[trigger] wisdom_field@[j]).index == j + 1,
                forall|j: int|
                    0 <= j < i ==> (#[trigger] wisdom_field@[j]).domain@ == domain_label_spec(j),
                forall|j: int|
                    0 <= j < i ==> (#[trigger] wisdom_field@[j]).seed@ == normalized_seed(
                        seeds.deep_view(),
                        j,
                    ),
            decreases 6 - i,
        {
            let seed = if i < seeds.len() {
                seeds[i].clone()
            } else {
                default_seed(i)
            };
            let node = WisdomNode {
                index: i + 1,
                domain: String::from_str(domain_label(i)),
                seed,
            };
            wisdom_field.push(node);
            i = i + 1;
        }
        QuantumField { wisdom_field, selected_index: None, collapsed_prompt: None }
    }

    /// Collapses the field at the given slot: a valid index records the
    /// selection and derives that node's prompt; an invalid index stores the
    /// fixed fallback sentence and leaves the selection untouched. Repeated
    /// calls overwrite the previous collapse.
    pub fn collapse(&mut self, index: usize) -> (r: String)
        requires
            old(self).wf(),
        ensures
            final(self).wf(),
            final(self).wisdom_field == old(self).wisdom_field,
            index < 6 ==> final(self).selected_index == Some(index),
            index >= 6 ==> final(self).selected_index == old(self).selected_index,
            final(self).collapsed_prompt == Some(r),
            r@ == collapse_result_text(*old(self), index as int),
    {
        if index < self.wisdom_field.len() {
            self.selected_index = Some(index);
            let prompt = self.generate_collapsed_prompt_at(index);
            self.collapsed_prompt = Some(prompt.clone());
            prompt
        } else {
            let prompt = String::from_str("The quantum field collapsed in an unexpected way.");
            self.collapsed_prompt = Some(prompt.clone());
            prompt
        }
    }

    /// Derives the prompt of the node at a valid slot.
    fn generate_collapsed_prompt_at(&self, index: usize) -> (r: String)
        requires
            index < self.wisdom_field@.len(),
        ensures
            r@ == collapsed_prompt_text(
                self.wisdom_field@[index as int].domain@,
                self.wisdom_field@[index as int].seed@,
            ),
    {
        let node = &self.wisdom_field[index];
        self.generate_collapsed_prompt(node)
    }

    /// Interpolates the node's seed into the sentence frame of its domain.
    fn generate_collapsed_prompt(&self, node: &WisdomNode) -> (r: String)
        ensures
            r@ == collapsed_prompt_text(node.domain@, node.seed@),
    {
        if str_eq(node.domain.as_str(), "Essence") {
            let mut s = String::from_str("A luminous core of energy revealing ");
            s.append(node.seed.as_str());
            s.append(
                ", with soft golden light emanating outward, creating a sense of profound truth and connection.",
            );
            s
        } else if str_eq(node.domain.as_str(), "Inner Path") {
            let mut s = String::from_str("A winding path through a misty forest where ");
            s.append(node.seed.as_str());
            s.append(
                ", illuminated by moonlight filtering through ancient trees, suggesting introspection and personal discovery.",
            );
            s
        } else if str_eq(node.domain.as_str(), "Outer Path") {
            let mut s = String::from_str("A figure standing at a crossroads where ");
            s.append(node.seed.as_str());
            s.append(
                ", with multiple paths stretching toward distant horizons, symbolizing choices and action in the world.",
            );
            s
        } else if str_eq(node.domain.as_str(), "Portal") {
            let mut s = String::from_str("A mysterious doorway glowing with ethereal light, where ");
            s.append(node.seed.as_str());
            s.append(
                ". The threshold vibrates with possibility, inviting passage to another realm.",
            );
            s
        } else if str_eq(node.domain.as_str(), "Friction") {
            let mut s = String::from_str("Two opposing forces meeting in a dance of energy where ");
            s.append(node.seed.as_str());
            s.append(
                ", creating sparks and transformation at their intersection, beautiful in their tension.",
            );
            s
        } else if str_eq(node.domain.as_str(), "Crystallization") {
            let mut s = String::from_str(
                "A perfect crystal forming in slow motion, capturing the moment when ",
            );
            s.append(node.seed.as_str());
            s.append(". Each facet reflects a different aspect of the same unified truth.");
            s
        } else {
            let mut s = String::from_str("A visual representation of: ");
            s.append(node.seed.as_str());
            s
        }
    }

    /// All six wisdom nodes of the field.
    pub fn get_wisdom_field(&self) -> (r: &Vec<WisdomNode>)
        ensures
            r == &self.wisdom_field,
    {
        &self.wisdom_field
    }
}

} // verus!
