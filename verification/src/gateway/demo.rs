//! The demonstration gateway: it has a model resolved by the registry, and hands the
//! request to the plugin that serves the model's provider.
use vstd::prelude::*;
use vstd::string::*;
use crate::text::{join2, same_text};
use crate::gateway::error::{map_registry_err, registry_error, LlmGatewayError, LlmGatewayErrorView};
use crate::gateway::plugin::ProviderCallCtx;
use crate::gateway::responses::{CreateResponseBody, ResponseResource};
use crate::registry::error::ModelRegistryError;
use crate::registry::models::ModelV1;
use crate::registry::security::SecurityContext;

verus! {

/// The gateway. Plugins are known by their place in the order of registration, and
/// found by the type of provider they serve.
#[derive(Debug)]
pub struct DemoGateway {
    provider_types: Vec<String>,
}

/// Where a request for a response stands.
#[derive(Debug)]
pub enum ResponseStep {
    /// The registry is to be asked, for the caller, for the model.
    AskRegistry { ctx: SecurityContext, canonical_id: String, body: CreateResponseBody },
    /// The plugin at the place `plugin`, and no other, is to be called.
    CallPlugin {
        plugin: usize,
        ctx: SecurityContext,
        call: ProviderCallCtx,
        body: CreateResponseBody,
    },
    /// The request is answered.
    Done { result: Result<ResponseResource, LlmGatewayError> },
}

impl DemoGateway {
    /// The provider types that plugins serve, by the plugins' places.
    pub closed spec fn served(&self) -> Seq<Seq<char>> {
        self.provider_types@.map_values(|t: String| t@)
    }

    #[verifier::type_invariant]
    spec fn no_type_twice(&self) -> bool {
        forall|i: int, j: int|
            0 <= i < j < self.provider_types@.len() ==> (#[trigger] self.provider_types@[i])@ != (
            #[trigger] self.provider_types@[j])@
    }

    proof fn lemma_served(&self)
        requires
            self.no_type_twice(),
        ensures
            self.served().no_duplicates(),
    {
        assert forall|i: int, j: int|
            0 <= i < self.served().len() && 0 <= j < self.served().len() && i
                != j implies self.served()[i] != self.served()[j] by {
            if i < j {
                assert(self.provider_types@[i]@ != self.provider_types@[j]@);
            } else {
                assert(self.provider_types@[j]@ != self.provider_types@[i]@);
            }
        }
    }

    /// A gateway without plugins.
    pub fn new() -> (r: DemoGateway)
        ensures
            r.served().len() == 0,
    {
        DemoGateway { provider_types: Vec::new() }
    }

    /// The place of the plugin that serves `provider_type`.
    pub fn find(&self, provider_type: &str) -> (r: Option<usize>)
        ensures
            match r {
                Some(place) => place < self.served().len() && self.served()[place as int]
                    == provider_type@,
                None => !self.served().contains(provider_type@),
            },
    {
        let mut i: usize = 0;
        while i < self.provider_types.len()
            invariant
                i <= self.provider_types.len(),
                forall|j: int| 0 <= j < i ==> (#[trigger] self.served()[j]) != provider_type@,
            decreases self.provider_types.len() - i,
        {
            if same_text(self.provider_types[i].as_str(), provider_type) {
                return Some(i);
            }
            i += 1;
        }
        None
    }

    /// The gateway with a plugin for `provider_type`, and the plugin's place. A type
    /// that is served already keeps its place, and its new plugin takes it.
    pub fn register(self, provider_type: &str) -> (r: (DemoGateway, usize))
        ensures
            r.1 < r.0.served().len(),
            r.0.served()[r.1 as int] == provider_type@,
            r.0.served() == if self.served().contains(provider_type@) {
                self.served()
            } else {
                self.served().push(provider_type@)
            },
            r.0.served().no_duplicates(),
    {
        match self.find(provider_type) {
            Some(place) => {
                assert(self.served().contains(provider_type@));
                proof {
                    use_type_invariant(&self);
                    self.lemma_served();
                }
                (self, place)
            },
            None => {
                proof {
                    use_type_invariant(&self);
                }
                let ghost before = self.served();
                let place: usize = self.provider_types.len();
                let mut provider_types = self.provider_types;
                provider_types.push(provider_type.to_owned());
                proof {
                    assert forall|i: int| 0 <= i < before.len() implies (
                    #[trigger] provider_types@[i])@ != provider_type@ by {
                        assert(before[i] == provider_types@[i]@);
                        assert(before.contains(before[i]));
                    }
                }
                let r = DemoGateway { provider_types };
                proof {
                    assert(r.served() =~= before.push(provider_type@));
                    r.lemma_served();
                }
                (r, place)
            },
        }
    }

    /// Begins to answer a request: the registry is asked for the model that it names.
    pub fn create_response(&self, ctx: &SecurityContext, body: CreateResponseBody) -> (r:
        ResponseStep)
        ensures
            r == (ResponseStep::AskRegistry { ctx: *ctx, canonical_id: body.model, body }),
    {
        let canonical_id = body.model.clone();
        ResponseStep::AskRegistry { ctx: *ctx, canonical_id, body }
    }

    /// Goes on once the registry has replied about the model: to the plugin that serves
    /// the provider of the model, with the caller, the request as it came and the
    /// model's own settings. Without a model or a plugin none is called.
    pub fn with_model(
        &self,
        ctx: SecurityContext,
        body: CreateResponseBody,
        found: Result<ModelV1, ModelRegistryError>,
    ) -> (r: ResponseStep)
        ensures
            match found {
                Ok(model) => if self.served().contains(model.info.gts_type@) {
                    &&& r matches ResponseStep::CallPlugin {
                        plugin,
                        ctx: caller,
                        call,
                        body: handed,
                    }
                    &&& plugin < self.served().len()
                    &&& self.served()[plugin as int] == model.info.gts_type@
                    &&& caller == ctx
                    &&& handed == body
                    &&& call.provider_model_id == model.info.provider_model_id
                    &&& call.provider_type == model.info.gts_type
                    &&& call.provider_settings == model.info.provider_settings
                    &&& call.request_id@ == "resp_demo_0001"@
                } else {
                    r matches ResponseStep::Done { result: Err(e) } && e@ == (
                    LlmGatewayErrorView::ProviderError {
                        message: "no provider plugin registered for "@ + model.info.gts_type@,
                    })
                },
                Err(e) => r matches ResponseStep::Done { result: Err(g) } && g@ == registry_error(
                    e@,
                ),
            },
    {
        let model = match found {
            Ok(model) => model,
            Err(e) => {
                return ResponseStep::Done { result: Err(map_registry_err(e)) };
            },
        };
        match self.find(model.info.gts_type.as_str()) {
            Some(plugin) => {
                assert(self.served().contains(model.info.gts_type@));
                ResponseStep::CallPlugin {
                    plugin,
                    ctx,
                    call: ProviderCallCtx {
                        provider_model_id: model.info.provider_model_id,
                        provider_type: model.info.gts_type,
                        provider_settings: model.info.provider_settings,
                        request_id: "resp_demo_0001".to_owned(),
                    },
                    body,
                }
            },
            None => ResponseStep::Done {
                result: Err(
                    LlmGatewayError::ProviderError {
                        message: join2(
                            "no provider plugin registered for ",
                            model.info.gts_type.as_str(),
                        ),
                    },
                ),
            },
        }
    }

    /// Ends a request with the plugin's answer, as it came.
    pub fn with_answer(&self, answer: Result<ResponseResource, LlmGatewayError>) -> (r:
        ResponseStep)
        ensures
            r == (ResponseStep::Done { result: answer }),
    {
        ResponseStep::Done { result: answer }
    }

    /// The answer to a request for a streamed response.
    pub fn create_response_stream(&self) -> (r: LlmGatewayError)
        ensures
            r@ == (LlmGatewayErrorView::CapabilityNotSupported {
                message: "streaming not implemented in demo"@,
            }),
    {
        LlmGatewayError::capability_not_supported("streaming not implemented in demo")
    }

    /// The answer to a request for an embedding.
    pub fn create_embedding(&self) -> (r: LlmGatewayError)
        ensures
            r@ == (LlmGatewayErrorView::CapabilityNotSupported {
                message: "embeddings not implemented in demo"@,
            }),
    {
        LlmGatewayError::capability_not_supported("embeddings not implemented in demo")
    }
}

} // verus!
