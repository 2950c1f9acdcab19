//! The tenant chain: who is asked, and whose provider wins a slug.
use vstd::prelude::*;
use crate::ids::Uuid;
use crate::registry::inheritance::{
    build_chain_providers, chain_read_scope, chain_read_view, distance, first_at, inherited, kept,
    law_chain_read_admits, law_tenant_scope_admits, lemma_distance, lemma_distance_bound, no_later,
    owner_among, wins, ChainProviders, InheritanceContext,
};
use crate::registry::laws::{
    admits_rows_of, closest_owner, distinct_ids, owned_in_chain, row_owned_by,
};
use crate::registry::models::ProviderV1;
use crate::registry::security::{AccessScope, AccessScopeView, Row, ScopeValueView};

verus! {

/// A scope made for tenants admits exactly the rows that one of them owns, however many
/// they are.
pub proof fn law_tenants_see_their_rows(tenants: Vec<Uuid>, scope: AccessScope)
    requires
        call_ensures(AccessScope::for_tenants, (tenants,), scope),
    ensures
        admits_rows_of(scope@, tenants@),
{
    lemma_of_tenants(tenants@);
}

/// A scope made for one tenant admits exactly the rows that it owns.
pub proof fn law_tenant_sees_its_rows(tenant: Uuid, scope: AccessScope)
    requires
        call_ensures(AccessScope::for_tenant, (tenant,), scope),
    ensures
        admits_rows_of(scope@, seq![tenant]),
{
    lemma_of_tenants(seq![tenant]);
}

/// The model of a scope made for tenants admits exactly their rows.
pub proof fn lemma_of_tenants(tenants: Seq<Uuid>)
    ensures
        admits_rows_of(AccessScopeView::of_tenants(tenants), tenants),
{
    let scope = AccessScopeView::of_tenants(tenants);
    assert forall|row: Row| #[trigger] scope.admits(row) <==> row_owned_by(row, tenants) by {
        law_tenant_scope_admits(tenants, row);
        lemma_owner(row, tenants);
    }
}

/// The two ways to say that one of `tenants` owns a row agree.
pub proof fn lemma_owner(row: Row, tenants: Seq<Uuid>)
    ensures
        owner_among(row, tenants) <==> row_owned_by(row, tenants),
{
    if owner_among(row, tenants) {
        let i = choose|i: int|
            0 <= i < tenants.len() && row["owner_tenant_id"@] == ScopeValueView::Uuid(
                #[trigger] tenants[i],
            );
        assert(row["owner_tenant_id"@] == ScopeValueView::Uuid(tenants[i]));
    }
    if row_owned_by(row, tenants) {
        let i = choose|i: int|
            0 <= i < tenants.len() && row.contains_key("owner_tenant_id"@)
                && row["owner_tenant_id"@] == ScopeValueView::Uuid(#[trigger] tenants[i]);
        assert(row["owner_tenant_id"@] == ScopeValueView::Uuid(tenants[i]));
    }
}

/// Reading along a chain, a caller whose scope has constraints reaches what that scope
/// admits and every row of an ancestor, and nothing else. A scope without constraints is
/// left as it is.
pub proof fn law_chain_scope(own: AccessScope, context: InheritanceContext, scope: AccessScope)
    requires
        call_ensures(chain_read_scope, (&own, &context), scope),
        context.chain().len() >= 1,
        !own@.unconstrained || own@.constraints.len() == 0,
    ensures
        own@.constraints.len() == 0 ==> scope@ == own@,
        forall|row: Row| #[trigger]
            scope@.admits(row) <==> own@.admits(row) || (own@.constraints.len() > 0
                && row_owned_by(row, context.chain().skip(1))),
{
    lemma_chain_scope(own@, context.chain());
}

/// The model of a scope along a chain admits what it should.
pub proof fn lemma_chain_scope(own: AccessScopeView, chain: Seq<Uuid>)
    requires
        chain.len() >= 1,
        !own.unconstrained || own.constraints.len() == 0,
    ensures
        own.constraints.len() == 0 ==> chain_read_view(own, chain) == own,
        forall|row: Row| #[trigger]
            chain_read_view(own, chain).admits(row) <==> own.admits(row) || (own.constraints.len()
                > 0 && row_owned_by(row, chain.skip(1))),
{
    let wide = chain_read_view(own, chain);
    assert forall|row: Row| #[trigger] wide.admits(row) <==> own.admits(row) || (
    own.constraints.len() > 0 && row_owned_by(row, chain.skip(1))) by {
        if own.constraints.len() > 0 {
            law_chain_read_admits(own, chain, row);
            lemma_owner(row, chain.skip(1));
        }
    }
}

/// A row wins its slug exactly where its owner is the closest tenant of the chain that
/// owns the slug.
pub proof fn law_the_closest_owner_wins(chain: Seq<Uuid>, rows: Seq<ProviderV1>, i: int)
    requires
        0 <= i < rows.len(),
    ensures
        wins(chain, rows, i) <==> closest_owner(chain, rows, rows[i].slug@, i),
{
    let slug = rows[i].slug@;
    if wins(chain, rows, i) {
        lemma_distance_bound(chain, rows[i]);
        let p = distance(chain, rows[i]);
        assert(chain[p] == rows[i].tenant_id);
        assert forall|q: int, j: int|
            0 <= q < p && 0 <= j < rows.len() && (#[trigger] rows[j]).slug@
                == slug implies rows[j].tenant_id != #[trigger] chain[q] by {
            if rows[j].tenant_id == chain[q] {
                assert(inherited(chain, rows, j));
                lemma_distance_bound(chain, rows[j]);
                let d = distance(chain, rows[j]);
                if q < d {
                    assert(chain[q] != rows[j].tenant_id);
                }
            }
        }
    }
    if closest_owner(chain, rows, slug, i) {
        let p = choose|p: int|
            {
                &&& 0 <= p < chain.len()
                &&& #[trigger] chain[p] == rows[i].tenant_id
                &&& forall|q: int, j: int|
                    0 <= q < p && 0 <= j < rows.len() && (#[trigger] rows[j]).slug@ == slug
                        ==> rows[j].tenant_id != #[trigger] chain[q]
            };
        assert(first_at(chain, rows[i].tenant_id, p));
        lemma_distance(chain, rows[i], p);
        assert forall|j: int|
            inherited(chain, rows, j) && (#[trigger] rows[j]).slug@ == slug implies distance(
            chain,
            rows[i],
        ) <= distance(chain, rows[j]) by {
            lemma_distance_bound(chain, rows[j]);
            let d = distance(chain, rows[j]);
            if d < p {
                assert(rows[j].tenant_id != chain[d]);
            }
        }
    }
}

/// Where no two rows share their identifier, every row of a chain tenant is kept, and no
/// other.
pub proof fn law_every_row_of_the_chain_is_kept(chain: Seq<Uuid>, rows: Seq<ProviderV1>, i: int)
    requires
        distinct_ids(rows),
        0 <= i < rows.len(),
    ensures
        kept(chain, rows, i) <==> chain.contains(rows[i].tenant_id),
{
    if inherited(chain, rows, i) {
        assert forall|j: int|
            inherited(chain, rows, j) && (#[trigger] rows[j]).id == rows[i].id implies no_later(
            chain,
            rows,
            j,
            i,
        ) by {
            assert(rows[j].id == rows[i].id);
        }
    }
}

/// Of rows that share an identifier, the one whose owner is farthest is kept, and of
/// several such the last.
pub proof fn law_the_farthest_row_is_kept(
    chain: Seq<Uuid>,
    rows: Seq<ProviderV1>,
    i: int,
    j: int,
    p: int,
    q: int,
)
    requires
        kept(chain, rows, i),
        0 <= j < rows.len(),
        rows[j].id == rows[i].id,
        first_at(chain, rows[i].tenant_id, p),
        first_at(chain, rows[j].tenant_id, q),
    ensures
        q < p || (q == p && j <= i),
{
    lemma_distance(chain, rows[i], p);
    lemma_distance(chain, rows[j], q);
}

/// A slug that a tenant of the chain owns has a closest owner.
pub proof fn lemma_closest_exists(chain: Seq<Uuid>, rows: Seq<ProviderV1>, slug: Seq<char>) -> (w:
    int)
    requires
        owned_in_chain(chain, rows, slug),
    ensures
        closest_owner(chain, rows, slug, w),
        wins(chain, rows, w),
        inherited(chain, rows, w),
{
    let i = choose|i: int|
        0 <= i < rows.len() && (#[trigger] rows[i]).slug@ == slug && chain.contains(
            rows[i].tenant_id,
        );
    let w = crate::registry::inheritance::law_owned_slug_has_winner(chain, rows, i);
    law_the_closest_owner_wins(chain, rows, w);
    w
}

/// What a chain knows of a provider is what its row says, and whether its owner is the
/// closest one of its slug. Rows of tenants outside the chain are not known.
pub proof fn law_chain_knows_its_rows(
    context: InheritanceContext,
    rows: Vec<ProviderV1>,
    providers: ChainProviders,
    i: int,
)
    requires
        call_ensures(build_chain_providers, (&context, rows), providers),
        distinct_ids(rows@),
        0 <= i < rows@.len(),
    ensures
        match providers.entry(rows@[i].id) {
            Some(p) => {
                &&& context.chain().contains(rows@[i].tenant_id)
                &&& p.id == rows@[i].id
                &&& p.owner_tenant == rows@[i].tenant_id
                &&& p.slug@ == rows@[i].slug@
                &&& p.status == rows@[i].status
                &&& p.winner <==> closest_owner(context.chain(), rows@, rows@[i].slug@, i)
            },
            None => !context.chain().contains(rows@[i].tenant_id),
        },
{
    let chain = context.chain();
    law_the_closest_owner_wins(chain, rows@, i);
    law_every_row_of_the_chain_is_kept(chain, rows@, i);
    if providers.entry(rows@[i].id) is Some {
        let k = choose|k: int| #[trigger] kept(chain, rows@, k) && rows@[k].id == rows@[i].id;
        assert(rows@[k].id == rows@[i].id);
        assert(k == i);
    }
}

/// The models that may be used are those of the active providers whose owner is the
/// closest one of their slug: these providers are listed, each once, and no other.
pub proof fn law_allowed_providers(
    context: InheritanceContext,
    rows: Vec<ProviderV1>,
    providers: ChainProviders,
    ids: &[Uuid],
    i: int,
)
    requires
        call_ensures(build_chain_providers, (&context, rows), providers),
        call_ensures(ChainProviders::allow_list, (&providers,), ids),
        distinct_ids(rows@),
        0 <= i < rows@.len(),
    ensures
        ids@.contains(rows@[i].id) <==> rows@[i].status is Active && closest_owner(
            context.chain(),
            rows@,
            rows@[i].slug@,
            i,
        ),
        ids@.no_duplicates(),
        forall|id: Uuid| #[trigger]
            ids@.contains(id) ==> exists|k: int| 0 <= k < rows@.len() && (#[trigger] rows@[k]).id == id,
{
    law_chain_knows_its_rows(context, rows, providers, i);
    if closest_owner(context.chain(), rows@, rows@[i].slug@, i) {
        law_the_closest_owner_wins(context.chain(), rows@, i);
        assert(inherited(context.chain(), rows@, i));
    }
    assert forall|id: Uuid| #[trigger] ids@.contains(id) implies exists|k: int|
        0 <= k < rows@.len() && (#[trigger] rows@[k]).id == id by {
        assert(providers.entry(id) is Some);
        let k = choose|k: int| #[trigger] kept(context.chain(), rows@, k) && rows@[k].id == id;
        assert(rows@[k].id == id);
    }
}

/// The distance of a tenant is where it first stands in the chain, which begins with the
/// requesting tenant and goes on with the ancestors in their order.
pub proof fn law_position_along_the_chain(
    tenant: Uuid,
    ancestors: Vec<Uuid>,
    context: InheritanceContext,
    other: Uuid,
    pos: Option<usize>,
)
    requires
        call_ensures(InheritanceContext::new, (tenant, ancestors), context),
        call_ensures(InheritanceContext::position, (&context, other), pos),
    ensures
        pos == Some(0usize) <==> other == tenant,
        pos is None <==> other != tenant && !ancestors@.contains(other),
        pos matches Some(p) ==> p > 0 ==> p <= ancestors@.len() && ancestors@[p - 1] == other
            && forall|q: int| 0 <= q < p - 1 ==> ancestors@[q] != other,
{
    let chain = context.chain();
    assert(chain[0] == tenant);
    assert forall|k: int| 0 <= k < ancestors@.len() implies chain[k + 1] == ancestors@[k] by {}
    if ancestors@.contains(other) {
        let k = choose|k: int| 0 <= k < ancestors@.len() && ancestors@[k] == other;
        assert(chain[k + 1] == other);
    }
    if let Some(p) = pos {
        if p > 0 {
            assert(chain[p as int] == ancestors@[p - 1]);
            assert forall|q: int| 0 <= q < p - 1 implies ancestors@[q] != other by {
                assert(chain[q + 1] != other);
            }
        }
    }
}

} // verus!
