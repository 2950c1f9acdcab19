//! The demonstration's registry: a fixed set of models, by canonical id.
use vstd::prelude::*;
use vstd::string::*;
use crate::text::same_text;
use crate::registry::error::{ModelRegistryError, ModelRegistryErrorView};
use crate::registry::models::ModelV1;

verus! {

/// The provider type of the OpenAI model.
pub const OPENAI_PROVIDER_TYPE: &'static str = "gts.cf.genai.model.info.v1~cf.genai._.openai.v1~";

/// The provider type of the Anthropic model.
pub const ANTHROPIC_PROVIDER_TYPE: &'static str =
    "gts.cf.genai.model.info.v1~cf.genai._.anthropic.v1~";

/// A registry of fixed models.
#[derive(Debug)]
pub struct MockModelRegistry {
    models: Vec<ModelV1>,
}

impl MockModelRegistry {
    /// The models, in the order in which they were given.
    pub closed spec fn models(&self) -> Seq<ModelV1> {
        self.models@
    }

    /// The registry of the given models.
    pub fn new(models: Vec<ModelV1>) -> (r: MockModelRegistry)
        ensures
            r.models() == models@,
    {
        MockModelRegistry { models }
    }

    /// The model with the given canonical id: of several, the one given last.
    pub fn get_tenant_model(&self, canonical_id: &str) -> (r: Result<&ModelV1, ModelRegistryError>)
        ensures
            match r {
                Ok(model) => exists|i: int|
                    {
                        &&& 0 <= i < self.models().len()
                        &&& #[trigger] self.models()[i] == *model
                        &&& model.canonical_id@ == canonical_id@
                        &&& forall|j: int|
                            i < j < self.models().len() ==> (
                            #[trigger] self.models()[j]).canonical_id@ != canonical_id@
                    },
                Err(e) => (forall|i: int|
                    0 <= i < self.models().len() ==> (#[trigger] self.models()[i]).canonical_id@
                        != canonical_id@) && e@ == (ModelRegistryErrorView::ModelNotFound {
                    canonical_id: canonical_id@,
                }),
            },
    {
        let mut i: usize = self.models.len();
        while i > 0
            invariant
                i <= self.models.len(),
                forall|j: int|
                    i <= j < self.models().len() ==> (#[trigger] self.models()[j]).canonical_id@
                        != canonical_id@,
            decreases i,
        {
            i -= 1;
            if same_text(self.models[i].canonical_id.as_str(), canonical_id) {
                assert(self.models()[i as int] == self.models[i as int]);
                return Ok(&self.models[i]);
            }
        }
        Err(ModelRegistryError::model_not_found(canonical_id))
    }

    /// The answer to everything that the demonstration does without.
    pub fn unsupported(&self) -> (r: ModelRegistryError)
        ensures
            r@ == (ModelRegistryErrorView::Validation { message: "not implemented in demo"@ }),
    {
        ModelRegistryError::validation("not implemented in demo")
    }
}

} // verus!
