//! The families of models that a session can talk to.

use vstd::prelude::*;

verus! {

/// The kind of model behind a session.
#[derive(Debug, Clone, Copy, PartialEq, Eq, Structural, Hash)]
pub enum ModelType {
    Chat,
    Complete,
    Edit,
}

impl ModelType {
    /// The lower-case name under which the variant is shown and stored.
    pub open spec fn spec_name(self) -> Seq<char> {
        match self {
            ModelType::Chat => "chat"@,
            ModelType::Complete => "complete"@,
            ModelType::Edit => "edit"@,
        }
    }

    /// The position of the variant in declaration order.
    pub open spec fn spec_index(self) -> int {
        match self {
            ModelType::Chat => 0,
            ModelType::Complete => 1,
            ModelType::Edit => 2,
        }
    }

    /// Every variant, in declaration order.
    pub open spec fn spec_all() -> Seq<ModelType> {
        seq![ModelType::Chat, ModelType::Complete, ModelType::Edit]
    }

    /// The lower-case name of the variant.
    pub fn name(&self) -> (text: &'static str)
        ensures
            text@ == self.spec_name(),
    {
        match self {
            ModelType::Chat => "chat",
            ModelType::Complete => "complete",
            ModelType::Edit => "edit",
        }
    }

    /// The name of the variant as an owned string.
    pub fn to_text(&self) -> (text: String)
        ensures
            text@ == self.spec_name(),
    {
        self.name().to_owned()
    }

    /// Every variant once, in declaration order.
    pub fn all() -> (kinds: Vec<ModelType>)
        ensures
            kinds@ == Self::spec_all(),
            forall|k: ModelType| #[trigger] kinds@.contains(k),
            forall|k: ModelType| kinds@[#[trigger] k.spec_index()] == k,
    {
        let kinds = vec![ModelType::Chat, ModelType::Complete, ModelType::Edit];
        proof {
            assert(kinds@ =~= Self::spec_all());
            assert forall|k: ModelType| #[trigger] kinds@.contains(k) by {
                assert(kinds@[k.spec_index()] == k);
            }
        }
        kinds
    }
}

} // verus!
