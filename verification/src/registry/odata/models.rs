//! What a listing of models can be filtered and ordered by.
use vstd::prelude::*;
use vstd::string::*;
use crate::text::{lowered, same_ignoring_case};
use crate::registry::odata::FieldKind;

verus! {

/// The fields that a listing of models can be filtered and ordered by. The names are
/// flat; settings, default parameters and other nested documents are not among them.
#[derive(Clone, Debug, PartialEq, Eq)]
pub struct ModelQuery {
    pub canonical_id: String,
    pub lifecycle_status: String,
    pub approval_status: String,
    pub gts_type: String,
    pub supported_api: String,
    pub provider_model_id: String,
    pub vendor: String,
    pub family: String,
    pub managed: bool,
    pub architecture: String,
    pub format: String,
    pub vision: bool,
    pub function_calling: bool,
    pub streaming: bool,
    pub reasoning_effort: bool,
}

/// A field of [`ModelQuery`].
#[derive(Clone, Copy, Debug, PartialEq, Eq, Structural, Hash)]
pub enum ModelFilterField {
    CanonicalId,
    LifecycleStatus,
    ApprovalStatus,
    GtsType,
    SupportedApi,
    ProviderModelId,
    Vendor,
    Family,
    Managed,
    Architecture,
    Format,
    Vision,
    FunctionCalling,
    Streaming,
    ReasoningEffort,
}

pub const MODEL_CANONICAL_ID: ModelFilterField = ModelFilterField::CanonicalId;

pub const MODEL_LIFECYCLE_STATUS: ModelFilterField = ModelFilterField::LifecycleStatus;

pub const MODEL_APPROVAL_STATUS: ModelFilterField = ModelFilterField::ApprovalStatus;

pub const MODEL_GTS_TYPE: ModelFilterField = ModelFilterField::GtsType;

pub const MODEL_SUPPORTED_API: ModelFilterField = ModelFilterField::SupportedApi;

pub const MODEL_PROVIDER_MODEL_ID: ModelFilterField = ModelFilterField::ProviderModelId;

pub const MODEL_VENDOR: ModelFilterField = ModelFilterField::Vendor;

pub const MODEL_FAMILY: ModelFilterField = ModelFilterField::Family;

pub const MODEL_MANAGED: ModelFilterField = ModelFilterField::Managed;

pub const MODEL_ARCHITECTURE: ModelFilterField = ModelFilterField::Architecture;

pub const MODEL_FORMAT: ModelFilterField = ModelFilterField::Format;

pub const MODEL_VISION: ModelFilterField = ModelFilterField::Vision;

pub const MODEL_FUNCTION_CALLING: ModelFilterField = ModelFilterField::FunctionCalling;

pub const MODEL_STREAMING: ModelFilterField = ModelFilterField::Streaming;

pub const MODEL_REASONING_EFFORT: ModelFilterField = ModelFilterField::ReasoningEffort;

impl ModelFilterField {
    /// Every field, in the order in which they are documented.
    pub const FIELDS: [ModelFilterField; 15] = [
        ModelFilterField::CanonicalId,
        ModelFilterField::LifecycleStatus,
        ModelFilterField::ApprovalStatus,
        ModelFilterField::GtsType,
        ModelFilterField::SupportedApi,
        ModelFilterField::ProviderModelId,
        ModelFilterField::Vendor,
        ModelFilterField::Family,
        ModelFilterField::Managed,
        ModelFilterField::Architecture,
        ModelFilterField::Format,
        ModelFilterField::Vision,
        ModelFilterField::FunctionCalling,
        ModelFilterField::Streaming,
        ModelFilterField::ReasoningEffort,
    ];

    /// The field's name on the wire.
    pub open spec fn spec_name(self) -> Seq<char> {
        match self {
            ModelFilterField::CanonicalId => "canonical_id"@,
            ModelFilterField::LifecycleStatus => "lifecycle_status"@,
            ModelFilterField::ApprovalStatus => "approval_status"@,
            ModelFilterField::GtsType => "gts_type"@,
            ModelFilterField::SupportedApi => "supported_api"@,
            ModelFilterField::ProviderModelId => "provider_model_id"@,
            ModelFilterField::Vendor => "vendor"@,
            ModelFilterField::Family => "family"@,
            ModelFilterField::Managed => "managed"@,
            ModelFilterField::Architecture => "architecture"@,
            ModelFilterField::Format => "format"@,
            ModelFilterField::Vision => "vision"@,
            ModelFilterField::FunctionCalling => "function_calling"@,
            ModelFilterField::Streaming => "streaming"@,
            ModelFilterField::ReasoningEffort => "reasoning_effort"@,
        }
    }

    /// The kind of the field's values.
    pub open spec fn spec_kind(self) -> FieldKind {
        match self {
            ModelFilterField::Managed => FieldKind::Bool,
            ModelFilterField::Vision => FieldKind::Bool,
            ModelFilterField::FunctionCalling => FieldKind::Bool,
            ModelFilterField::Streaming => FieldKind::Bool,
            ModelFilterField::ReasoningEffort => FieldKind::Bool,
            _ => FieldKind::String,
        }
    }

    /// The field's name on the wire.
    pub fn name(self) -> (r: &'static str)
        ensures
            r@ == self.spec_name(),
    {
        match self {
            ModelFilterField::CanonicalId => "canonical_id",
            ModelFilterField::LifecycleStatus => "lifecycle_status",
            ModelFilterField::ApprovalStatus => "approval_status",
            ModelFilterField::GtsType => "gts_type",
            ModelFilterField::SupportedApi => "supported_api",
            ModelFilterField::ProviderModelId => "provider_model_id",
            ModelFilterField::Vendor => "vendor",
            ModelFilterField::Family => "family",
            ModelFilterField::Managed => "managed",
            ModelFilterField::Architecture => "architecture",
            ModelFilterField::Format => "format",
            ModelFilterField::Vision => "vision",
            ModelFilterField::FunctionCalling => "function_calling",
            ModelFilterField::Streaming => "streaming",
            ModelFilterField::ReasoningEffort => "reasoning_effort",
        }
    }

    /// The kind of the field's values.
    pub fn kind(self) -> (r: FieldKind)
        ensures
            r == self.spec_kind(),
    {
        match self {
            ModelFilterField::Managed => FieldKind::Bool,
            ModelFilterField::Vision => FieldKind::Bool,
            ModelFilterField::FunctionCalling => FieldKind::Bool,
            ModelFilterField::Streaming => FieldKind::Bool,
            ModelFilterField::ReasoningEffort => FieldKind::Bool,
            _ => FieldKind::String,
        }
    }

    /// The field with the given name, whatever the case of its letters.
    pub fn from_name(name: &str) -> (r: Option<ModelFilterField>)
        ensures
            match r {
                Some(field) => lowered(name@) == lowered(field.spec_name()),
                None => forall|field: ModelFilterField|
                    #![trigger field.spec_name()]
                    lowered(name@) != lowered(field.spec_name()),
            },
    {
        if same_ignoring_case(name, "canonical_id") {
            Some(ModelFilterField::CanonicalId)
        } else if same_ignoring_case(name, "lifecycle_status") {
            Some(ModelFilterField::LifecycleStatus)
        } else if same_ignoring_case(name, "approval_status") {
            Some(ModelFilterField::ApprovalStatus)
        } else if same_ignoring_case(name, "gts_type") {
            Some(ModelFilterField::GtsType)
        } else if same_ignoring_case(name, "supported_api") {
            Some(ModelFilterField::SupportedApi)
        } else if same_ignoring_case(name, "provider_model_id") {
            Some(ModelFilterField::ProviderModelId)
        } else if same_ignoring_case(name, "vendor") {
            Some(ModelFilterField::Vendor)
        } else if same_ignoring_case(name, "family") {
            Some(ModelFilterField::Family)
        } else if same_ignoring_case(name, "managed") {
            Some(ModelFilterField::Managed)
        } else if same_ignoring_case(name, "architecture") {
            Some(ModelFilterField::Architecture)
        } else if same_ignoring_case(name, "format") {
            Some(ModelFilterField::Format)
        } else if same_ignoring_case(name, "vision") {
            Some(ModelFilterField::Vision)
        } else if same_ignoring_case(name, "function_calling") {
            Some(ModelFilterField::FunctionCalling)
        } else if same_ignoring_case(name, "streaming") {
            Some(ModelFilterField::Streaming)
        } else if same_ignoring_case(name, "reasoning_effort") {
            Some(ModelFilterField::ReasoningEffort)
        } else {
            None
        }
    }
}

/// The listing of models, for building queries.
#[derive(Clone, Copy, Debug)]
pub struct ModelSchema;

impl ModelSchema {
    /// The name of a field on the wire.
    pub fn field_name(field: ModelFilterField) -> (r: &'static str)
        ensures
            r@ == field.spec_name(),
    {
        field.name()
    }
}

/// No two fields share their name, whatever the case of its letters, so that a
/// name stands for one field at most.
pub proof fn law_model_fields_distinct(a: ModelFilterField, b: ModelFilterField)
    ensures
        lowered(a.spec_name()) == lowered(b.spec_name()) ==> a == b,
{
    reveal_strlit("canonical_id");
    reveal_strlit("lifecycle_status");
    reveal_strlit("approval_status");
    reveal_strlit("gts_type");
    reveal_strlit("supported_api");
    reveal_strlit("provider_model_id");
    reveal_strlit("vendor");
    reveal_strlit("family");
    reveal_strlit("managed");
    reveal_strlit("architecture");
    reveal_strlit("format");
    reveal_strlit("vision");
    reveal_strlit("function_calling");
    reveal_strlit("streaming");
    reveal_strlit("reasoning_effort");
    assert(lowered("canonical_id"@).len() == 12);
    assert(lowered("canonical_id"@)[0] == 'c');
    assert(lowered("lifecycle_status"@).len() == 16);
    assert(lowered("lifecycle_status"@)[0] == 'l');
    assert(lowered("approval_status"@).len() == 15);
    assert(lowered("gts_type"@).len() == 8);
    assert(lowered("supported_api"@).len() == 13);
    assert(lowered("provider_model_id"@).len() == 17);
    assert(lowered("vendor"@).len() == 6);
    assert(lowered("vendor"@)[0] == 'v');
    assert(lowered("vendor"@)[1] == 'e');
    assert(lowered("family"@).len() == 6);
    assert(lowered("family"@)[0] == 'f');
    assert(lowered("family"@)[1] == 'a');
    assert(lowered("managed"@).len() == 7);
    assert(lowered("architecture"@).len() == 12);
    assert(lowered("architecture"@)[0] == 'a');
    assert(lowered("format"@).len() == 6);
    assert(lowered("format"@)[0] == 'f');
    assert(lowered("format"@)[1] == 'o');
    assert(lowered("vision"@).len() == 6);
    assert(lowered("vision"@)[0] == 'v');
    assert(lowered("vision"@)[1] == 'i');
    assert(lowered("function_calling"@).len() == 16);
    assert(lowered("function_calling"@)[0] == 'f');
    assert(lowered("streaming"@).len() == 9);
    assert(lowered("reasoning_effort"@).len() == 16);
    assert(lowered("reasoning_effort"@)[0] == 'r');
}

/// Every field is documented.
pub proof fn law_model_fields_complete(field: ModelFilterField)
    ensures
        ModelFilterField::FIELDS@.contains(field),
{
    assert(ModelFilterField::FIELDS@[0] == ModelFilterField::CanonicalId);
    assert(ModelFilterField::FIELDS@[1] == ModelFilterField::LifecycleStatus);
    assert(ModelFilterField::FIELDS@[2] == ModelFilterField::ApprovalStatus);
    assert(ModelFilterField::FIELDS@[3] == ModelFilterField::GtsType);
    assert(ModelFilterField::FIELDS@[4] == ModelFilterField::SupportedApi);
    assert(ModelFilterField::FIELDS@[5] == ModelFilterField::ProviderModelId);
    assert(ModelFilterField::FIELDS@[6] == ModelFilterField::Vendor);
    assert(ModelFilterField::FIELDS@[7] == ModelFilterField::Family);
    assert(ModelFilterField::FIELDS@[8] == ModelFilterField::Managed);
    assert(ModelFilterField::FIELDS@[9] == ModelFilterField::Architecture);
    assert(ModelFilterField::FIELDS@[10] == ModelFilterField::Format);
    assert(ModelFilterField::FIELDS@[11] == ModelFilterField::Vision);
    assert(ModelFilterField::FIELDS@[12] == ModelFilterField::FunctionCalling);
    assert(ModelFilterField::FIELDS@[13] == ModelFilterField::Streaming);
    assert(ModelFilterField::FIELDS@[14] == ModelFilterField::ReasoningEffort);
}

} // verus!
