//! Tools that a model may use.
use vstd::prelude::*;
use vstd::string::*;
use crate::text::same_text;
use crate::gateway::extension::{
    is_tagged, json_members, serialize_tagged, tag_of, tag_view, Extension, TagError,
};

verus! {

/// A function of the caller.
#[derive(Clone, Debug, PartialEq)]
pub struct FunctionTool {
    pub name: String,
    pub description: Option<String>,
    pub parameters: Option<serde_json::Value>,
    pub strict: Option<bool>,
}

/// A tool described by a schema elsewhere.
#[derive(Clone, Debug, PartialEq, Eq)]
pub struct ToolReference {
    pub schema_id: String,
}

/// A tool described by a schema given here.
#[derive(Clone, Debug, PartialEq)]
pub struct ToolInlineGts {
    pub schema: Schema,
}

/// A JSON schema.
#[derive(Clone, Debug, PartialEq)]
pub struct Schema {
    pub json_schema: serde_json::Value,
}

/// The making of images. Nothing set leaves it to the model.
#[derive(Clone, Copy, Debug, PartialEq, Eq, Structural)]
pub struct ImageGenerationTool {
    pub aspect_ratio: Option<AspectRatio>,
    pub resolution: Option<Resolution>,
    pub quality: Option<ImageQuality>,
    pub output_format: Option<ImageOutputFormat>,
    pub output_compression: Option<u8>,
    pub response_format: Option<ImageResponseFormat>,
}

impl Default for ImageGenerationTool {
    fn default() -> (r: Self)
        ensures
            r == (ImageGenerationTool {
                aspect_ratio: None,
                resolution: None,
                quality: None,
                output_format: None,
                output_compression: None,
                response_format: None,
            }),
    {
        ImageGenerationTool {
            aspect_ratio: None,
            resolution: None,
            quality: None,
            output_format: None,
            output_compression: None,
            response_format: None,
        }
    }
}

/// The ratio of an image's width to its height.
#[derive(Clone, Copy, Debug, PartialEq, Eq, Structural)]
pub enum AspectRatio {
    Square,
    TwoByThree,
    ThreeByTwo,
    ThreeByFour,
    FourByThree,
    NineBySixteen,
    SixteenByNine,
}

/// The size of an image, in megapixels.
#[derive(Clone, Copy, Debug, PartialEq, Eq, Structural)]
pub enum Resolution {
    Half,
    One,
    Two,
    Four,
}

/// How well an image is made.
#[derive(Clone, Copy, Debug, PartialEq, Eq, Structural)]
pub enum ImageQuality {
    Low,
    Medium,
    High,
    Auto,
}

/// The format of an image.
#[derive(Clone, Copy, Debug, PartialEq, Eq, Structural)]
pub enum ImageOutputFormat {
    Png,
    Jpeg,
    Webp,
}

/// How an image is handed over.
#[derive(Clone, Copy, Debug, PartialEq, Eq, Structural)]
pub enum ImageResponseFormat {
    Base64,
    Url,
}

/// The kinds of tools that the core owns.
#[derive(Clone, Copy, Debug, PartialEq, Eq, Structural, Hash)]
pub enum ToolKind {
    /// A function of the caller.
    Function,
    /// A tool described by a schema elsewhere.
    Reference,
    /// A tool described by a schema given here.
    InlineGts,
    /// The making of images.
    ImageGeneration,
}

impl ToolKind {
    /// Every kind.
    pub const ALL: [ToolKind; 4] = [
        ToolKind::Function,
        ToolKind::Reference,
        ToolKind::InlineGts,
        ToolKind::ImageGeneration,
    ];

    /// The text under `type` that stands for the kind.
    pub open spec fn spec_tag(self) -> Seq<char> {
        match self {
            ToolKind::Function => "function"@,
            ToolKind::Reference => "reference"@,
            ToolKind::InlineGts => "inline_gts"@,
            ToolKind::ImageGeneration => "cf_gears:image_generation"@,
        }
    }

    /// The text under `type` that stands for the kind.
    pub fn tag(self) -> (r: &'static str)
        ensures
            r@ == self.spec_tag(),
    {
        match self {
            ToolKind::Function => "function",
            ToolKind::Reference => "reference",
            ToolKind::InlineGts => "inline_gts",
            ToolKind::ImageGeneration => "cf_gears:image_generation",
        }
    }

    /// The kind that a text under `type` stands for.
    pub fn from_tag(tag: &str) -> (r: Option<ToolKind>)
        ensures
            match r {
                Some(kind) => kind.spec_tag() == tag@,
                None => forall|kind: ToolKind| #![trigger kind.spec_tag()] kind.spec_tag() != tag@,
            },
    {
        if same_text(tag, "function") {
            Some(ToolKind::Function)
        } else if same_text(tag, "reference") {
            Some(ToolKind::Reference)
        } else if same_text(tag, "inline_gts") {
            Some(ToolKind::InlineGts)
        } else if same_text(tag, "cf_gears:image_generation") {
            Some(ToolKind::ImageGeneration)
        } else {
            None
        }
    }
}

/// What a tool carries, by the shape it has on the wire.
#[derive(Clone, Debug, PartialEq)]
pub enum ToolPayload {
    Function(FunctionTool),
    Reference(ToolReference),
    InlineGts(ToolInlineGts),
    ImageGeneration(ImageGenerationTool),
}

/// The shapes of what tools carry.
#[derive(Clone, Copy, Debug, PartialEq, Eq, Structural)]
pub enum ToolShape {
    Function,
    Reference,
    InlineGts,
    ImageGeneration,
}

impl ToolKind {
    /// The shape of what the kind carries.
    pub open spec fn spec_shape(self) -> ToolShape {
        match self {
            ToolKind::Function => ToolShape::Function,
            ToolKind::Reference => ToolShape::Reference,
            ToolKind::InlineGts => ToolShape::InlineGts,
            ToolKind::ImageGeneration => ToolShape::ImageGeneration,
        }
    }

    /// The shape of what the kind carries.
    pub fn shape(self) -> (r: ToolShape)
        ensures
            r == self.spec_shape(),
    {
        match self {
            ToolKind::Function => ToolShape::Function,
            ToolKind::Reference => ToolShape::Reference,
            ToolKind::InlineGts => ToolShape::InlineGts,
            ToolKind::ImageGeneration => ToolShape::ImageGeneration,
        }
    }
}

impl ToolPayload {
    /// The payload's shape.
    pub open spec fn spec_shape(self) -> ToolShape {
        match self {
            ToolPayload::Function(_) => ToolShape::Function,
            ToolPayload::Reference(_) => ToolShape::Reference,
            ToolPayload::InlineGts(_) => ToolShape::InlineGts,
            ToolPayload::ImageGeneration(_) => ToolShape::ImageGeneration,
        }
    }
}

/// A tool that a model may use.
#[non_exhaustive]
#[derive(Clone, Debug, PartialEq)]
pub enum Tool {
    /// A function of the caller.
    Function(FunctionTool),
    /// A tool described by a schema elsewhere.
    Reference(ToolReference),
    /// A tool described by a schema given here.
    InlineGts(ToolInlineGts),
    /// The making of images.
    ImageGeneration(ImageGenerationTool),
    /// One of a type that the core does not own, kept as it is.
    Other(Extension),
}

impl Tool {
    /// The kind, of one that the core owns.
    pub open spec fn spec_kind(self) -> Option<ToolKind> {
        match self {
            Tool::Function(_) => Some(ToolKind::Function),
            Tool::Reference(_) => Some(ToolKind::Reference),
            Tool::InlineGts(_) => Some(ToolKind::InlineGts),
            Tool::ImageGeneration(_) => Some(ToolKind::ImageGeneration),
            Tool::Other(_) => None,
        }
    }

    /// What one that the core owns carries.
    pub open spec fn spec_payload(self) -> Option<ToolPayload> {
        match self {
            Tool::Function(v) => Some(ToolPayload::Function(v)),
            Tool::Reference(v) => Some(ToolPayload::Reference(v)),
            Tool::InlineGts(v) => Some(ToolPayload::InlineGts(v)),
            Tool::ImageGeneration(v) => Some(ToolPayload::ImageGeneration(v)),
            Tool::Other(_) => None,
        }
    }

    /// The kind, of one that the core owns.
    pub fn kind(&self) -> (r: Option<ToolKind>)
        ensures
            r == self.spec_kind(),
    {
        match self {
            Tool::Function(_) => Some(ToolKind::Function),
            Tool::Reference(_) => Some(ToolKind::Reference),
            Tool::InlineGts(_) => Some(ToolKind::InlineGts),
            Tool::ImageGeneration(_) => Some(ToolKind::ImageGeneration),
            Tool::Other(_) => None,
        }
    }

    /// The one of the given kind that carries `payload`. A payload of another shape
    /// is handed back.
    pub fn from_parts(kind: ToolKind, payload: ToolPayload) -> (r: Result<Tool, ToolPayload>)
        ensures
            match r {
                Ok(value) =>
                    value.spec_kind() == Some(kind) && value.spec_payload() == Some(payload),
                Err(same) => kind.spec_shape() != payload.spec_shape() && same == payload,
            },
    {
        match (kind, payload) {
            (ToolKind::Function, ToolPayload::Function(v)) => Ok(Tool::Function(v)),
            (ToolKind::Reference, ToolPayload::Reference(v)) => Ok(Tool::Reference(v)),
            (ToolKind::InlineGts, ToolPayload::InlineGts(v)) => Ok(Tool::InlineGts(v)),
            (ToolKind::ImageGeneration, ToolPayload::ImageGeneration(v)) =>
                Ok(Tool::ImageGeneration(v)),
            (_, payload) => Err(payload),
        }
    }

    /// The kind and what is carried, of one that the core owns; else the value as it
    /// came.
    pub fn into_parts(self) -> (r: Result<(ToolKind, ToolPayload), Extension>)
        ensures
            match r {
                Ok((kind, payload)) => self.spec_kind() == Some(kind) && self.spec_payload() == Some(
                    payload,
                ),
                Err(extension) => self == Tool::Other(extension),
            },
    {
        match self {
            Tool::Function(v) => Ok((ToolKind::Function, ToolPayload::Function(v))),
            Tool::Reference(v) => Ok((ToolKind::Reference, ToolPayload::Reference(v))),
            Tool::InlineGts(v) => Ok((ToolKind::InlineGts, ToolPayload::InlineGts(v))),
            Tool::ImageGeneration(v) =>
                Ok((ToolKind::ImageGeneration, ToolPayload::ImageGeneration(v))),
            Tool::Other(extension) => Err(extension),
        }
    }
}

/// A tool as it is on the wire.
#[derive(Clone, Debug, PartialEq)]
pub enum WireTool {
    /// One that the core owns, and the document it carries.
    Core { kind: ToolKind, document: serde_json::Value },
    /// One of a type that the core does not own.
    Other(Extension),
}

/// Whether `value` is of a kind that the core owns.
pub open spec fn tool_of_kind(value: serde_json::Value, kind: ToolKind) -> bool {
    tag_view(value) == Some(kind.spec_tag())
}

/// Reads a document: by the text under `type` it is one of the core's, or else it is
/// kept as it is.
pub fn read_tool(value: serde_json::Value) -> (r: WireTool)
    ensures
        match r {
            WireTool::Core { kind, document } => tool_of_kind(value, kind) && document == value,
            WireTool::Other(extension) => extension.0 == value && forall|kind: ToolKind|
                !tool_of_kind(value, kind),
        },
{
    let kind = match tag_of(&value) {
        Some(tag) => ToolKind::from_tag(tag),
        None => None,
    };
    match kind {
        Some(kind) => WireTool::Core { kind, document: value },
        None => WireTool::Other(Extension(value)),
    }
}

/// Writes a document: one of the core's with the text of its kind under `type`, any
/// other as it came.
pub fn write_tool(value: WireTool) -> (r: Result<serde_json::Value, TagError>)
    ensures
        match value {
            WireTool::Core { kind, document } => match r {
                Ok(written) => is_tagged(document, kind.spec_tag(), written),
                Err(_) => json_members(document) is None,
            },
            WireTool::Other(extension) => r == Ok::<serde_json::Value, TagError>(extension.0),
        },
{
    match value {
        WireTool::Core { kind, document } => serialize_tagged(kind.tag(), document),
        WireTool::Other(extension) => Ok(extension.0),
    }
}

/// No two kinds have the same text under `type`.
pub proof fn law_tool_tags_distinct(a: ToolKind, b: ToolKind)
    ensures
        a.spec_tag() == b.spec_tag() ==> a == b,
{
    reveal_strlit("function");
    reveal_strlit("reference");
    reveal_strlit("inline_gts");
    reveal_strlit("cf_gears:image_generation");
    assert("function"@.len() == 8);
    assert("reference"@.len() == 9);
    assert("inline_gts"@.len() == 10);
    assert("cf_gears:image_generation"@.len() == 25);
}

/// What is written of a kind is read back as that kind, with everything it carried.
pub proof fn law_tool_roundtrip(
    kind: ToolKind,
    document: serde_json::Value,
    written: serde_json::Value,
    back: ToolKind,
)
    requires
        is_tagged(document, kind.spec_tag(), written),
    ensures
        tool_of_kind(written, kind),
        tool_of_kind(written, back) ==> back == kind,
        json_members(written)->0.remove("type"@) == json_members(document)->0.remove("type"@),
{
    law_tool_tags_distinct(kind, back);
}

} // verus!
