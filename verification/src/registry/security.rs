//! Access scopes: which rows a caller may reach.
//!
//! A scope is a list of alternatives. A row is admitted where all filters of at
//! least one alternative hold of it. A scope may also be unconstrained, which
//! admits every row.
use vstd::prelude::*;
use vstd::string::*;
use crate::ids::Uuid;
use crate::text::same_text;

verus! {

/// The property that holds the tenant owning a row.
pub const OWNER_TENANT_ID: &'static str = "owner_tenant_id";

/// The property that holds a row's own identifier.
pub const RESOURCE_ID: &'static str = "id";

/// A value a filter compares a property with.
#[derive(Debug, PartialEq, Eq)]
pub enum ScopeValue {
    Uuid(Uuid),
    Text(String),
}

/// The model of a [`ScopeValue`].
pub enum ScopeValueView {
    Uuid(Uuid),
    Text(Seq<char>),
}

impl View for ScopeValue {
    type V = ScopeValueView;

    open spec fn view(&self) -> ScopeValueView {
        match *self {
            ScopeValue::Uuid(id) => ScopeValueView::Uuid(id),
            ScopeValue::Text(text) => ScopeValueView::Text(text@),
        }
    }
}

impl Clone for ScopeValue {
    fn clone(&self) -> (r: Self)
        ensures
            r@ == self@,
    {
        match self {
            ScopeValue::Uuid(id) => ScopeValue::Uuid(*id),
            ScopeValue::Text(text) => ScopeValue::Text(text.clone()),
        }
    }
}

/// A condition on one property of a row: its value is one of those listed.
#[derive(Debug, PartialEq, Eq)]
pub struct ScopeFilter {
    pub property: String,
    pub values: Vec<ScopeValue>,
}

/// The model of a [`ScopeFilter`].
pub struct ScopeFilterView {
    pub property: Seq<char>,
    pub values: Seq<ScopeValueView>,
}

/// What a scope can see of a row: the values of its properties.
pub type Row = Map<Seq<char>, ScopeValueView>;

impl ScopeFilterView {
    /// Whether the filter holds of `row`.
    pub open spec fn holds(self, row: Row) -> bool {
        row.contains_key(self.property) && self.values.contains(row[self.property])
    }
}

impl View for ScopeFilter {
    type V = ScopeFilterView;

    open spec fn view(&self) -> ScopeFilterView {
        ScopeFilterView {
            property: self.property@,
            values: self.values@.map_values(|v: ScopeValue| v@),
        }
    }
}

impl Clone for ScopeFilter {
    fn clone(&self) -> (r: Self)
        ensures
            r@ == self@,
    {
        let mut values: Vec<ScopeValue> = Vec::new();
        let mut i: usize = 0;
        while i < self.values.len()
            invariant
                i <= self.values.len(),
                values.len() == i,
                forall|j: int| 0 <= j < i ==> (#[trigger] values[j])@ == self.values[j]@,
            decreases self.values.len() - i,
        {
            values.push(self.values[i].clone());
            i += 1;
        }
        let r = ScopeFilter { property: self.property.clone(), values };
        assert(r@.values =~= self@.values);
        r
    }
}

/// The filter views that say a property is one of the given identifiers.
pub open spec fn uuid_values(ids: Seq<Uuid>) -> Seq<ScopeValueView> {
    ids.map_values(|id: Uuid| ScopeValueView::Uuid(id))
}

impl ScopeFilter {
    /// The filter that a property is `id`.
    pub fn eq(property: &str, id: Uuid) -> (r: ScopeFilter)
        ensures
            r@.property == property@,
            r@.values == uuid_values(seq![id]),
    {
        let mut values: Vec<ScopeValue> = Vec::new();
        values.push(ScopeValue::Uuid(id));
        let r = ScopeFilter { property: property.to_owned(), values };
        assert(r@.values =~= uuid_values(seq![id]));
        r
    }

    /// The filter that a property is one of `ids`.
    pub fn in_uuids(property: &str, ids: Vec<Uuid>) -> (r: ScopeFilter)
        ensures
            r@.property == property@,
            r@.values == uuid_values(ids@),
    {
        let mut values: Vec<ScopeValue> = Vec::new();
        let mut i: usize = 0;
        while i < ids.len()
            invariant
                i <= ids.len(),
                values.len() == i,
                forall|j: int|
                    0 <= j < i ==> (#[trigger] values[j])@ == ScopeValueView::Uuid(ids[j]),
            decreases ids.len() - i,
        {
            values.push(ScopeValue::Uuid(ids[i]));
            i += 1;
        }
        let r = ScopeFilter { property: property.to_owned(), values };
        assert(r@.values =~= uuid_values(ids@));
        r
    }
}

/// One alternative of a scope: all its filters must hold.
#[derive(Debug, PartialEq, Eq)]
pub struct ScopeConstraint {
    pub filters: Vec<ScopeFilter>,
}

/// The model of a [`ScopeConstraint`]: its filters.
pub type ConstraintView = Seq<ScopeFilterView>;

impl View for ScopeConstraint {
    type V = ConstraintView;

    open spec fn view(&self) -> ConstraintView {
        self.filters@.map_values(|f: ScopeFilter| f@)
    }
}

/// Whether every filter of an alternative holds of `row`.
pub open spec fn constraint_holds(c: ConstraintView, row: Row) -> bool {
    forall|i: int| 0 <= i < c.len() ==> (#[trigger] c[i]).holds(row)
}

impl Clone for ScopeConstraint {
    fn clone(&self) -> (r: Self)
        ensures
            r@ == self@,
    {
        let mut filters: Vec<ScopeFilter> = Vec::new();
        let mut i: usize = 0;
        while i < self.filters.len()
            invariant
                i <= self.filters.len(),
                filters.len() == i,
                forall|j: int| 0 <= j < i ==> (#[trigger] filters[j])@ == self.filters[j]@,
            decreases self.filters.len() - i,
        {
            filters.push(self.filters[i].clone());
            i += 1;
        }
        let r = ScopeConstraint { filters };
        assert(r@ =~= self@);
        r
    }
}

impl ScopeConstraint {
    /// The alternative made of `filters`.
    pub fn new(filters: Vec<ScopeFilter>) -> (r: ScopeConstraint)
        ensures
            r.filters@ == filters@,
    {
        ScopeConstraint { filters }
    }

    /// The alternative's filters.
    pub fn filters(&self) -> (r: &[ScopeFilter])
        ensures
            r@ == self.filters@,
    {
        self.filters.as_slice()
    }
}

/// The rows a caller may reach.
#[derive(Debug, PartialEq, Eq)]
pub struct AccessScope {
    constraints: Vec<ScopeConstraint>,
    unconstrained: bool,
}

/// The model of an [`AccessScope`].
pub struct AccessScopeView {
    pub constraints: Seq<ConstraintView>,
    pub unconstrained: bool,
}

impl View for AccessScope {
    type V = AccessScopeView;

    closed spec fn view(&self) -> AccessScopeView {
        AccessScopeView {
            constraints: self.constraints@.map_values(|c: ScopeConstraint| c@),
            unconstrained: self.unconstrained,
        }
    }
}

/// The model of the filter that the owner is one of `tenants`.
pub open spec fn owned_by(tenants: Seq<Uuid>) -> ScopeFilterView {
    ScopeFilterView { property: OWNER_TENANT_ID@, values: uuid_values(tenants) }
}

impl AccessScopeView {
    /// Whether the scope admits `row`.
    pub open spec fn admits(self, row: Row) -> bool {
        self.unconstrained || exists|i: int|
            0 <= i < self.constraints.len() && constraint_holds(#[trigger] self.constraints[i], row)
    }

    /// The scope of the rows owned by one of `tenants`.
    pub open spec fn of_tenants(tenants: Seq<Uuid>) -> AccessScopeView {
        AccessScopeView { constraints: seq![seq![owned_by(tenants)]], unconstrained: false }
    }
}

impl Clone for AccessScope {
    fn clone(&self) -> (r: Self)
        ensures
            r@ == self@,
    {
        let mut constraints: Vec<ScopeConstraint> = Vec::new();
        let mut i: usize = 0;
        while i < self.constraints.len()
            invariant
                i <= self.constraints.len(),
                constraints.len() == i,
                forall|j: int| 0 <= j < i ==> (#[trigger] constraints[j])@ == self.constraints[j]@,
            decreases self.constraints.len() - i,
        {
            constraints.push(self.constraints[i].clone());
            i += 1;
        }
        let r = AccessScope { constraints, unconstrained: self.unconstrained };
        assert(r@.constraints =~= self@.constraints);
        r
    }
}

impl AccessScope {
    /// The scope that admits every row.
    pub fn allow_all() -> (r: AccessScope)
        ensures
            r@ == (AccessScopeView { constraints: seq![], unconstrained: true }),
    {
        let r = AccessScope { constraints: Vec::new(), unconstrained: true };
        assert(r@.constraints =~= seq![]);
        r
    }

    /// The scope that admits no row.
    pub fn deny_all() -> (r: AccessScope)
        ensures
            r@ == (AccessScopeView { constraints: seq![], unconstrained: false }),
    {
        let r = AccessScope { constraints: Vec::new(), unconstrained: false };
        assert(r@.constraints =~= seq![]);
        r
    }

    /// The scope with the given alternatives.
    pub fn from_constraints(constraints: Vec<ScopeConstraint>) -> (r: AccessScope)
        ensures
            r@ == (AccessScopeView {
                constraints: constraints@.map_values(|c: ScopeConstraint| c@),
                unconstrained: false,
            }),
    {
        AccessScope { constraints, unconstrained: false }
    }

    /// The scope with one alternative.
    pub fn single(constraint: ScopeConstraint) -> (r: AccessScope)
        ensures
            r@ == (AccessScopeView { constraints: seq![constraint@], unconstrained: false }),
    {
        let mut constraints: Vec<ScopeConstraint> = Vec::new();
        constraints.push(constraint);
        let r = AccessScope { constraints, unconstrained: false };
        assert(r@.constraints =~= seq![constraint@]);
        r
    }

    /// The scope of the rows that one of `tenants` owns.
    pub fn for_tenants(tenants: Vec<Uuid>) -> (r: AccessScope)
        ensures
            r@ == AccessScopeView::of_tenants(tenants@),
    {
        let mut filters: Vec<ScopeFilter> = Vec::new();
        filters.push(ScopeFilter::in_uuids(OWNER_TENANT_ID, tenants));
        let c = ScopeConstraint::new(filters);
        assert(c@ =~= seq![owned_by(tenants@)]);
        AccessScope::single(c)
    }

    /// The scope of the rows that `tenant` owns.
    pub fn for_tenant(tenant: Uuid) -> (r: AccessScope)
        ensures
            r@ == AccessScopeView::of_tenants(seq![tenant]),
    {
        let mut tenants: Vec<Uuid> = Vec::new();
        tenants.push(tenant);
        assert(tenants@ =~= seq![tenant]);
        AccessScope::for_tenants(tenants)
    }

    /// The scope's alternatives.
    pub fn constraints(&self) -> (r: &[ScopeConstraint])
        ensures
            r@.map_values(|c: ScopeConstraint| c@) == self@.constraints,
    {
        self.constraints.as_slice()
    }

    /// Whether the scope admits every row outright.
    pub fn is_unconstrained(&self) -> (r: bool)
        ensures
            r == self@.unconstrained,
    {
        self.unconstrained
    }

    /// Whether the scope has no alternative at all, and so admits nothing.
    pub fn is_deny_all(&self) -> (r: bool)
        ensures
            r == (!self@.unconstrained && self@.constraints.len() == 0),
    {
        !self.unconstrained && self.constraints.len() == 0
    }

    /// Whether some filter on `property` lists `id`.
    pub fn contains_uuid(&self, property: &str, id: Uuid) -> (r: bool)
        ensures
            r == names_uuid(self@, property@, id),
    {
        let mut i: usize = 0;
        while i < self.constraints.len()
            invariant
                i <= self.constraints.len(),
                forall|a: int, b: int|
                    0 <= a < i && 0 <= b < self@.constraints[a].len() ==> !lists_uuid(
                        #[trigger] self@.constraints[a][b],
                        property@,
                        id,
                    ),
            decreases self.constraints.len() - i,
        {
            let c = &self.constraints[i];
            assert(self@.constraints[i as int] == c@);
            let mut j: usize = 0;
            while j < c.filters.len()
                invariant
                    i < self.constraints.len(),
                    j <= c.filters.len(),
                    c@ == self@.constraints[i as int],
                    forall|b: int| 0 <= b < j ==> !lists_uuid(#[trigger] c@[b], property@, id),
                decreases c.filters.len() - j,
            {
                let f = &c.filters[j];
                assert(c@[j as int] == f@);
                let listed = f.lists(property, id);
                if listed {
                    assert(lists_uuid(self@.constraints[i as int][j as int], property@, id));
                    return true;
                }
                j += 1;
            }
            i += 1;
        }
        false
    }
}

/// Whether some filter of a scope is on `property` and lists `id`.
pub open spec fn names_uuid(scope: AccessScopeView, property: Seq<char>, id: Uuid) -> bool {
    exists|i: int, j: int|
        0 <= i < scope.constraints.len() && 0 <= j < scope.constraints[i].len() && lists_uuid(
            #[trigger] scope.constraints[i][j],
            property,
            id,
        )
}

/// Whether `filter` is on `property` and lists `id`.
pub open spec fn lists_uuid(filter: ScopeFilterView, property: Seq<char>, id: Uuid) -> bool {
    filter.property == property && filter.values.contains(ScopeValueView::Uuid(id))
}

impl ScopeFilter {
    /// Whether the filter is on `property` and lists `id`.
    pub fn lists(&self, property: &str, id: Uuid) -> (r: bool)
        ensures
            r == lists_uuid(self@, property@, id),
    {
        if !same_text(self.property.as_str(), property) {
            return false;
        }
        let mut i: usize = 0;
        while i < self.values.len()
            invariant
                i <= self.values.len(),
                self@.property == property@,
                forall|j: int| 0 <= j < i ==> self@.values[j] != ScopeValueView::Uuid(id),
            decreases self.values.len() - i,
        {
            assert(self@.values[i as int] == self.values[i as int]@);
            if let ScopeValue::Uuid(v) = &self.values[i] {
                if *v == id {
                    assert(self@.values[i as int] == ScopeValueView::Uuid(id));
                    return true;
                }
            }
            i += 1;
        }
        false
    }
}

/// The authenticated caller.
#[derive(Clone, Copy, Debug, PartialEq, Eq, Structural)]
pub struct SecurityContext {
    pub subject_id: Uuid,
    pub subject_tenant_id: Uuid,
}

impl SecurityContext {
    /// A caller that has not said who they are.
    pub fn anonymous() -> (r: SecurityContext)
        ensures
            r.subject_id.value == 0,
            r.subject_tenant_id.value == 0,
    {
        SecurityContext {
            subject_id: Uuid::from_u128(0),
            subject_tenant_id: Uuid::from_u128(0),
        }
    }

    /// The tenant the caller belongs to.
    pub fn subject_tenant_id(&self) -> (id: Uuid)
        ensures
            id == self.subject_tenant_id,
    {
        self.subject_tenant_id
    }
}

} // verus!
