//! Statuses and APIs as values of filters.
use vstd::prelude::*;
use vstd::string::*;
use crate::registry::models::{ApprovalStatus, LifecycleStatus, ProviderStatus, SupportedApi};

verus! {

/// A value in a filter.
#[derive(Clone, Debug, PartialEq, Eq)]
pub enum ODataValue {
    String(String),
    Bool(bool),
}

/// The model of an [`ODataValue`].
pub enum ODataValueView {
    String(Seq<char>),
    Bool(bool),
}

impl View for ODataValue {
    type V = ODataValueView;

    open spec fn view(&self) -> ODataValueView {
        match *self {
            ODataValue::String(text) => ODataValueView::String(text@),
            ODataValue::Bool(b) => ODataValueView::Bool(b),
        }
    }
}

impl LifecycleStatus {
    /// The status in a filter: its wire text.
    pub fn into_odata_value(self) -> (r: ODataValue)
        ensures
            r@ == ODataValueView::String(self.wire()),
    {
        ODataValue::String(self.as_str().to_owned())
    }
}

impl ApprovalStatus {
    /// The status in a filter: its wire text.
    pub fn into_odata_value(self) -> (r: ODataValue)
        ensures
            r@ == ODataValueView::String(self.wire()),
    {
        ODataValue::String(self.as_str().to_owned())
    }
}

impl ProviderStatus {
    /// The status in a filter: its wire text.
    pub fn into_odata_value(self) -> (r: ODataValue)
        ensures
            r@ == ODataValueView::String(self.wire()),
    {
        ODataValue::String(self.as_str().to_owned())
    }
}

impl SupportedApi {
    /// The API in a filter: its wire text.
    pub fn into_odata_value(self) -> (r: ODataValue)
        ensures
            r@ == ODataValueView::String(self.wire()),
    {
        ODataValue::String(self.as_str().to_owned())
    }
}

} // verus!
