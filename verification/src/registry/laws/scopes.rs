//! Scopes, from how they are made to the rows that they take in.
use vstd::prelude::*;
use crate::ids::Uuid;
use crate::registry::security::{
    constraint_holds, lists_uuid, uuid_values, AccessScope, Row, ScopeConstraint, ScopeFilter,
    ScopeValueView,
};

verus! {

/// The open scope takes in every row and the closed one none, and each knows what it is.
pub proof fn law_open_and_closed_scopes(
    all: AccessScope,
    none: AccessScope,
    all_is_open: bool,
    all_is_closed: bool,
    none_is_open: bool,
    none_is_closed: bool,
)
    requires
        call_ensures(AccessScope::allow_all, (), all),
        call_ensures(AccessScope::deny_all, (), none),
        call_ensures(AccessScope::is_unconstrained, (&all,), all_is_open),
        call_ensures(AccessScope::is_deny_all, (&all,), all_is_closed),
        call_ensures(AccessScope::is_unconstrained, (&none,), none_is_open),
        call_ensures(AccessScope::is_deny_all, (&none,), none_is_closed),
    ensures
        forall|row: Row| #[trigger] all@.admits(row),
        forall|row: Row| !#[trigger] none@.admits(row),
        all_is_open && !all_is_closed,
        !none_is_open && none_is_closed,
{
}

/// A scope that says it is open takes in every row, and one that says it is closed none.
pub proof fn law_scopes_know_themselves(
    scope: AccessScope,
    is_open: bool,
    is_closed: bool,
    row: Row,
)
    requires
        call_ensures(AccessScope::is_unconstrained, (&scope,), is_open),
        call_ensures(AccessScope::is_deny_all, (&scope,), is_closed),
    ensures
        is_open ==> scope@.admits(row),
        is_closed ==> !scope@.admits(row),
        !(is_open && is_closed),
{
}

/// A filter on a property takes in exactly the rows whose property is one of its values.
pub proof fn law_filters_of_ids(
    property: &str,
    id: Uuid,
    ids: Vec<Uuid>,
    one: ScopeFilter,
    several: ScopeFilter,
    row: Row,
)
    requires
        call_ensures(ScopeFilter::eq, (property, id), one),
        call_ensures(ScopeFilter::in_uuids, (property, ids), several),
    ensures
        one@.holds(row) <==> row.contains_key(property@) && row[property@] == ScopeValueView::Uuid(
            id,
        ),
        several@.holds(row) <==> row.contains_key(property@) && exists|i: int|
            0 <= i < ids@.len() && row[property@] == ScopeValueView::Uuid(#[trigger] ids@[i]),
{
    let one_value = uuid_values(seq![id]);
    assert(one_value.len() == 1 && one_value[0] == ScopeValueView::Uuid(id));
    let values = uuid_values(ids@);
    if row.contains_key(property@) {
        if exists|i: int|
            0 <= i < ids@.len() && row[property@] == ScopeValueView::Uuid(#[trigger] ids@[i]) {
            let i = choose|i: int|
                0 <= i < ids@.len() && row[property@] == ScopeValueView::Uuid(#[trigger] ids@[i]);
            assert(values[i] == row[property@]);
        }
        if values.contains(row[property@]) {
            let i = choose|i: int| 0 <= i < values.len() && values[i] == row[property@];
            assert(row[property@] == ScopeValueView::Uuid(ids@[i]));
        }
    }
}

/// A scope of one alternative takes in exactly the rows of which every filter of it
/// holds.
pub proof fn law_one_alternative(
    filters: Vec<ScopeFilter>,
    constraint: ScopeConstraint,
    scope: AccessScope,
    row: Row,
)
    requires
        call_ensures(ScopeConstraint::new, (filters,), constraint),
        call_ensures(AccessScope::single, (constraint,), scope),
    ensures
        scope@.admits(row) <==> forall|i: int|
            0 <= i < filters@.len() ==> (#[trigger] filters@[i])@.holds(row),
{
    let c = constraint@;
    assert(c.len() == filters@.len());
    assert(forall|i: int| 0 <= i < filters@.len() ==> #[trigger] c[i] == filters@[i]@);
    assert(scope@.constraints[0] == c);
    if forall|i: int| 0 <= i < filters@.len() ==> (#[trigger] filters@[i])@.holds(row) {
        assert forall|i: int| 0 <= i < c.len() implies (#[trigger] c[i]).holds(row) by {
            assert(filters@[i]@.holds(row));
        }
        assert(constraint_holds(scope@.constraints[0], row));
    }
    if scope@.admits(row) {
        assert(constraint_holds(c, row));
        assert forall|i: int| 0 <= i < filters@.len() implies (#[trigger] filters@[i])@.holds(
            row,
        ) by {
            assert(c[i].holds(row));
        }
    }
}

/// A scope of several alternatives takes in exactly the rows that one of them would on
/// its own.
pub proof fn law_several_alternatives(
    constraints: Vec<ScopeConstraint>,
    scope: AccessScope,
    row: Row,
)
    requires
        call_ensures(AccessScope::from_constraints, (constraints,), scope),
    ensures
        scope@.admits(row) <==> exists|i: int|
            0 <= i < constraints@.len() && constraint_holds(#[trigger] constraints@[i]@, row),
{
    assert(forall|i: int|
        0 <= i < constraints@.len() ==> #[trigger] scope@.constraints[i] == constraints@[i]@);
    if exists|i: int|
        0 <= i < constraints@.len() && constraint_holds(#[trigger] constraints@[i]@, row) {
        let i = choose|i: int|
            0 <= i < constraints@.len() && constraint_holds(#[trigger] constraints@[i]@, row);
        assert(constraint_holds(scope@.constraints[i], row));
    }
    if scope@.admits(row) {
        let i = choose|i: int|
            0 <= i < scope@.constraints.len() && constraint_holds(
                #[trigger] scope@.constraints[i],
                row,
            );
        assert(constraint_holds(constraints@[i]@, row));
    }
}

/// The scope of some tenants lists exactly those as owners.
pub proof fn law_scope_lists_its_tenants(
    tenants: Vec<Uuid>,
    scope: AccessScope,
    property: &str,
    id: Uuid,
    listed: bool,
)
    requires
        call_ensures(AccessScope::for_tenants, (tenants,), scope),
        call_ensures(AccessScope::contains_uuid, (&scope, property, id), listed),
    ensures
        listed <==> property@ == "owner_tenant_id"@ && tenants@.contains(id),
{
    let filter = scope@.constraints[0][0];
    assert(scope@.constraints.len() == 1 && scope@.constraints[0].len() == 1);
    let values = uuid_values(tenants@);
    assert(filter.values == values);
    if tenants@.contains(id) {
        let i = choose|i: int| 0 <= i < tenants@.len() && tenants@[i] == id;
        assert(values[i] == ScopeValueView::Uuid(id));
        assert(values.contains(ScopeValueView::Uuid(id)));
    }
    if values.contains(ScopeValueView::Uuid(id)) {
        let i = choose|i: int| 0 <= i < values.len() && values[i] == ScopeValueView::Uuid(id);
        assert(tenants@[i] == id);
    }
    if property@ == "owner_tenant_id"@ && tenants@.contains(id) {
        let i: int = 0;
        let j: int = 0;
        assert(0 <= i < scope@.constraints.len());
        assert(0 <= j < scope@.constraints[i].len());
        assert(lists_uuid(scope@.constraints[i][j], property@, id));
    }
    if listed {
        let (i, j) = choose|i: int, j: int|
            0 <= i < scope@.constraints.len() && 0 <= j < scope@.constraints[i].len()
                && lists_uuid(#[trigger] scope@.constraints[i][j], property@, id);
        assert(scope@.constraints[i][j] == filter);
    }
}

/// A copy of a scope takes in the same rows.
pub proof fn law_copies_are_the_same(scope: AccessScope, copy: AccessScope, row: Row)
    requires
        call_ensures(<AccessScope as Clone>::clone, (&scope,), copy),
    ensures
        copy@.admits(row) <==> scope@.admits(row),
{
}

} // verus!
