//! What a listing of providers can be filtered and ordered by.
use vstd::prelude::*;
use vstd::string::*;
use crate::text::{lowered, same_ignoring_case};
use crate::registry::odata::FieldKind;

verus! {

/// The fields that a listing of providers can be filtered and ordered by. The
/// metadata is not among them.
#[derive(Clone, Debug, PartialEq, Eq)]
pub struct ProviderQuery {
    pub slug: String,
    pub name: String,
    pub status: String,
    pub gts_type: String,
    pub managed: bool,
    pub discovery_enabled: bool,
}

/// A field of [`ProviderQuery`].
#[derive(Clone, Copy, Debug, PartialEq, Eq, Structural, Hash)]
pub enum ProviderFilterField {
    Slug,
    Name,
    Status,
    GtsType,
    Managed,
    DiscoveryEnabled,
}

pub const PROVIDER_SLUG: ProviderFilterField = ProviderFilterField::Slug;

pub const PROVIDER_NAME: ProviderFilterField = ProviderFilterField::Name;

pub const PROVIDER_STATUS: ProviderFilterField = ProviderFilterField::Status;

pub const PROVIDER_GTS_TYPE: ProviderFilterField = ProviderFilterField::GtsType;

pub const PROVIDER_MANAGED: ProviderFilterField = ProviderFilterField::Managed;

pub const PROVIDER_DISCOVERY_ENABLED: ProviderFilterField = ProviderFilterField::DiscoveryEnabled;

impl ProviderFilterField {
    /// Every field, in the order in which they are documented.
    pub const FIELDS: [ProviderFilterField; 6] = [
        ProviderFilterField::Slug,
        ProviderFilterField::Name,
        ProviderFilterField::Status,
        ProviderFilterField::GtsType,
        ProviderFilterField::Managed,
        ProviderFilterField::DiscoveryEnabled,
    ];

    /// The field's name on the wire.
    pub open spec fn spec_name(self) -> Seq<char> {
        match self {
            ProviderFilterField::Slug => "slug"@,
            ProviderFilterField::Name => "name"@,
            ProviderFilterField::Status => "status"@,
            ProviderFilterField::GtsType => "gts_type"@,
            ProviderFilterField::Managed => "managed"@,
            ProviderFilterField::DiscoveryEnabled => "discovery_enabled"@,
        }
    }

    /// The kind of the field's values.
    pub open spec fn spec_kind(self) -> FieldKind {
        match self {
            ProviderFilterField::Managed => FieldKind::Bool,
            ProviderFilterField::DiscoveryEnabled => FieldKind::Bool,
            _ => FieldKind::String,
        }
    }

    /// The field's name on the wire.
    pub fn name(self) -> (r: &'static str)
        ensures
            r@ == self.spec_name(),
    {
        match self {
            ProviderFilterField::Slug => "slug",
            ProviderFilterField::Name => "name",
            ProviderFilterField::Status => "status",
            ProviderFilterField::GtsType => "gts_type",
            ProviderFilterField::Managed => "managed",
            ProviderFilterField::DiscoveryEnabled => "discovery_enabled",
        }
    }

    /// The kind of the field's values.
    pub fn kind(self) -> (r: FieldKind)
        ensures
            r == self.spec_kind(),
    {
        match self {
            ProviderFilterField::Managed => FieldKind::Bool,
            ProviderFilterField::DiscoveryEnabled => FieldKind::Bool,
            _ => FieldKind::String,
        }
    }

    /// The field with the given name, whatever the case of its letters.
    pub fn from_name(name: &str) -> (r: Option<ProviderFilterField>)
        ensures
            match r {
                Some(field) => lowered(name@) == lowered(field.spec_name()),
                None => forall|field: ProviderFilterField|
                    #![trigger field.spec_name()]
                    lowered(name@) != lowered(field.spec_name()),
            },
    {
        if same_ignoring_case(name, "slug") {
            Some(ProviderFilterField::Slug)
        } else if same_ignoring_case(name, "name") {
            Some(ProviderFilterField::Name)
        } else if same_ignoring_case(name, "status") {
            Some(ProviderFilterField::Status)
        } else if same_ignoring_case(name, "gts_type") {
            Some(ProviderFilterField::GtsType)
        } else if same_ignoring_case(name, "managed") {
            Some(ProviderFilterField::Managed)
        } else if same_ignoring_case(name, "discovery_enabled") {
            Some(ProviderFilterField::DiscoveryEnabled)
        } else {
            None
        }
    }
}

/// The listing of providers, for building queries.
#[derive(Clone, Copy, Debug)]
pub struct ProviderSchema;

impl ProviderSchema {
    /// The name of a field on the wire.
    pub fn field_name(field: ProviderFilterField) -> (r: &'static str)
        ensures
            r@ == field.spec_name(),
    {
        field.name()
    }
}

/// No two fields share their name, whatever the case of its letters, so that a
/// name stands for one field at most.
pub proof fn law_provider_fields_distinct(a: ProviderFilterField, b: ProviderFilterField)
    ensures
        lowered(a.spec_name()) == lowered(b.spec_name()) ==> a == b,
{
    reveal_strlit("slug");
    reveal_strlit("name");
    reveal_strlit("status");
    reveal_strlit("gts_type");
    reveal_strlit("managed");
    reveal_strlit("discovery_enabled");
    assert(lowered("slug"@).len() == 4);
    assert(lowered("slug"@)[0] == 's');
    assert(lowered("name"@).len() == 4);
    assert(lowered("name"@)[0] == 'n');
    assert(lowered("status"@).len() == 6);
    assert(lowered("gts_type"@).len() == 8);
    assert(lowered("managed"@).len() == 7);
    assert(lowered("discovery_enabled"@).len() == 17);
}

/// Every field is documented.
pub proof fn law_provider_fields_complete(field: ProviderFilterField)
    ensures
        ProviderFilterField::FIELDS@.contains(field),
{
    assert(ProviderFilterField::FIELDS@[0] == ProviderFilterField::Slug);
    assert(ProviderFilterField::FIELDS@[1] == ProviderFilterField::Name);
    assert(ProviderFilterField::FIELDS@[2] == ProviderFilterField::Status);
    assert(ProviderFilterField::FIELDS@[3] == ProviderFilterField::GtsType);
    assert(ProviderFilterField::FIELDS@[4] == ProviderFilterField::Managed);
    assert(ProviderFilterField::FIELDS@[5] == ProviderFilterField::DiscoveryEnabled);
}

} // verus!
