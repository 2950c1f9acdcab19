//! Inheritance along a tenant chain.
//!
//! A tenant sees its own providers and those of its ancestors. Where two chain
//! tenants own a provider with the same slug, the one closer to the requesting
//! tenant shadows the other, whatever its status.
use std::collections::HashMap;
use vstd::prelude::*;
use vstd::string::*;
use vstd::std_specs::iter::IteratorSpec;
use crate::ids::Uuid;
use crate::text::same_text;
use crate::registry::models::{ProviderStatus, ProviderV1};
use crate::registry::security::{
    constraint_holds, owned_by, AccessScope, AccessScopeView, Row, ScopeConstraint, ScopeFilter,
    ScopeValueView, OWNER_TENANT_ID,
};

verus! {

broadcast use vstd::std_specs::hash::group_hash_axioms;

/// The chain of a tenant: the tenant itself, its parent, and so on to the root.
#[derive(Debug)]
pub struct InheritanceContext {
    tenant_id: Uuid,
    chain_ids: Vec<Uuid>,
    pos_in_chain: HashMap<u128, usize>,
}

impl Clone for InheritanceContext {
    fn clone(&self) -> (r: Self)
        ensures
            r.chain() == self.chain(),
    {
        proof {
            use_type_invariant(self);
        }
        let chain_ids = self.chain_ids.clone();
        assert(chain_ids@ =~= self.chain_ids@);
        InheritanceContext {
            tenant_id: self.tenant_id,
            chain_ids,
            pos_in_chain: self.pos_in_chain.clone(),
        }
    }
}

/// Whether `t` stands in `chain` at `i` and not before.
pub open spec fn first_at(chain: Seq<Uuid>, t: Uuid, i: int) -> bool {
    0 <= i < chain.len() && chain[i] == t && forall|j: int| 0 <= j < i ==> chain[j] != t
}

impl InheritanceContext {
    /// The chain, closest tenant first.
    pub closed spec fn chain(&self) -> Seq<Uuid> {
        self.chain_ids@
    }

    #[verifier::type_invariant]
    spec fn consistent(&self) -> bool {
        &&& self.chain_ids.len() >= 1
        &&& self.chain_ids[0] == self.tenant_id
        &&& forall|t: Uuid| #[trigger]
            self.pos_in_chain@.contains_key(t.value) <==> self.chain_ids@.contains(t)
        &&& forall|t: Uuid| #[trigger]
            self.pos_in_chain@.contains_key(t.value) ==> first_at(
                self.chain_ids@,
                t,
                self.pos_in_chain@[t.value] as int,
            )
    }

    /// The chain of `tenant_id`, whose ancestors are given from the direct parent
    /// to the root. A tenant that occurs twice counts where it is closest.
    #[must_use]
    pub fn new(tenant_id: Uuid, ancestor_ids: Vec<Uuid>) -> (r: InheritanceContext)
        ensures
            r.chain() == seq![tenant_id] + ancestor_ids@,
    {
        let mut chain_ids: Vec<Uuid> = Vec::new();
        chain_ids.push(tenant_id);
        let mut k: usize = 0;
        while k < ancestor_ids.len()
            invariant
                k <= ancestor_ids.len(),
                chain_ids@ == seq![tenant_id] + ancestor_ids@.subrange(0, k as int),
            decreases ancestor_ids.len() - k,
        {
            chain_ids.push(ancestor_ids[k]);
            k += 1;
            assert(chain_ids@ =~= seq![tenant_id] + ancestor_ids@.subrange(0, k as int));
        }
        assert(chain_ids@ =~= seq![tenant_id] + ancestor_ids@);
        let mut pos_in_chain: HashMap<u128, usize> = HashMap::with_capacity(chain_ids.len());
        let mut pos: usize = 0;
        while pos < chain_ids.len()
            invariant
                pos <= chain_ids.len(),
                forall|t: Uuid| #[trigger]
                    pos_in_chain@.contains_key(t.value) <==> chain_ids@.subrange(
                        0,
                        pos as int,
                    ).contains(t),
                forall|t: Uuid| #[trigger]
                    pos_in_chain@.contains_key(t.value) ==> first_at(
                        chain_ids@,
                        t,
                        pos_in_chain@[t.value] as int,
                    ),
            decreases chain_ids.len() - pos,
        {
            let id = chain_ids[pos];
            let ghost before = chain_ids@.subrange(0, pos as int);
            let ghost after = chain_ids@.subrange(0, pos + 1);
            assert(after =~= before.push(id));
            let known = pos_in_chain.contains_key(&id.value);
            proof {
                if !known {
                    assert forall|j: int| 0 <= j < pos implies chain_ids@[j] != id by {
                        assert(before[j] == chain_ids@[j]);
                    }
                }
                assert forall|t: Uuid| after.contains(t) <==> (before.contains(t) || t == id) by {
                    if before.contains(t) {
                        let j = choose|j: int| 0 <= j < before.len() && before[j] == t;
                        assert(after[j] == t);
                    }
                    if t == id {
                        assert(after[pos as int] == t);
                    }
                }
            }
            if !known {
                pos_in_chain.insert(id.value, pos);
                assert forall|t: Uuid| t.value == id.value implies t == id by {}
            }
            pos += 1;
        }
        assert(chain_ids@.subrange(0, pos as int) =~= chain_ids@);
        InheritanceContext { tenant_id, chain_ids, pos_in_chain }
    }

    /// The requesting tenant.
    #[must_use]
    pub fn tenant_id(&self) -> (id: Uuid)
        ensures
            self.chain().len() >= 1,
            id == self.chain()[0],
    {
        proof {
            use_type_invariant(self);
        }
        self.tenant_id
    }

    /// The chain, from the requesting tenant to the root.
    pub fn chain_ids(&self) -> (ids: &[Uuid])
        ensures
            ids@ == self.chain(),
            ids@.len() >= 1,
    {
        proof {
            use_type_invariant(self);
        }
        self.chain_ids.as_slice()
    }

    /// How far `tenant_id` is from the requesting tenant: nothing where the
    /// tenant is not in the chain.
    #[must_use]
    pub fn position(&self, tenant_id: Uuid) -> (pos: Option<usize>)
        ensures
            match pos {
                Some(i) => first_at(self.chain(), tenant_id, i as int),
                None => !self.chain().contains(tenant_id),
            },
    {
        proof {
            use_type_invariant(self);
        }
        match self.pos_in_chain.get(&tenant_id.value) {
            Some(pos) => {
                assert(self.pos_in_chain@.contains_key(tenant_id.value));
                Some(*pos)
            },
            None => {
                assert(!self.pos_in_chain@.contains_key(tenant_id.value));
                None
            },
        }
    }
}

/// A provider as a chain tenant sees it.
#[derive(Clone, Debug, PartialEq)]
pub struct ChainProvider {
    pub id: Uuid,
    pub owner_tenant: Uuid,
    pub slug: String,
    pub status: ProviderStatus,
    /// No closer chain tenant owns a provider with the same slug.
    pub winner: bool,
}

/// How far the owner of `row` is from the requesting tenant. Only meaningful for
/// an owner in the chain.
pub open spec fn distance(chain: Seq<Uuid>, row: ProviderV1) -> int {
    choose|i: int| first_at(chain, row.tenant_id, i)
}

/// Whether the row at `i` is there and its owner is in the chain.
pub open spec fn inherited(chain: Seq<Uuid>, rows: Seq<ProviderV1>, i: int) -> bool {
    0 <= i < rows.len() && chain.contains(rows[i].tenant_id)
}

/// Whether the row at `i` wins its slug: no closer chain tenant owns that slug.
/// The status of a provider plays no part.
pub open spec fn wins(chain: Seq<Uuid>, rows: Seq<ProviderV1>, i: int) -> bool {
    inherited(chain, rows, i) && forall|j: int|
        inherited(chain, rows, j) && (#[trigger] rows[j]).slug@ == rows[i].slug@ ==> distance(
            chain,
            rows[i],
        ) <= distance(chain, rows[j])
}

/// Whether the row at `i` comes no later than the row at `j` when rows are taken
/// closest owner first and otherwise as they came.
pub open spec fn no_later(chain: Seq<Uuid>, rows: Seq<ProviderV1>, i: int, j: int) -> bool {
    distance(chain, rows[i]) < distance(chain, rows[j]) || (distance(chain, rows[i]) == distance(
        chain,
        rows[j],
    ) && i <= j)
}

/// Whether the row at `i` is the one kept for its identifier: of the rows that
/// share it, the last one, closest owner first.
pub open spec fn kept(chain: Seq<Uuid>, rows: Seq<ProviderV1>, i: int) -> bool {
    inherited(chain, rows, i) && forall|j: int|
        inherited(chain, rows, j) && (#[trigger] rows[j]).id == rows[i].id ==> no_later(
            chain,
            rows,
            j,
            i,
        )
}

/// The row at `i` as the chain sees it.
pub open spec fn seen(chain: Seq<Uuid>, rows: Seq<ProviderV1>, i: int) -> ChainProvider {
    ChainProvider {
        id: rows[i].id,
        owner_tenant: rows[i].tenant_id,
        slug: rows[i].slug,
        status: rows[i].status,
        winner: wins(chain, rows, i),
    }
}

/// The providers of a chain, with the winner of each slug and the providers whose
/// models may be evaluated: the winners that are active. A disabled winner keeps
/// its slug, so that what it shadows stays hidden.
#[derive(Debug)]
pub struct ChainProviders {
    by_id: HashMap<u128, ChainProvider>,
    allow_list: Vec<Uuid>,
}

impl ChainProviders {
    /// What is known of the provider `id`.
    pub closed spec fn entry(&self, id: Uuid) -> Option<ChainProvider> {
        if self.by_id@.contains_key(id.value) {
            Some(self.by_id@[id.value])
        } else {
            None
        }
    }

    /// The providers whose models may be evaluated.
    pub closed spec fn allowed(&self) -> Seq<Uuid> {
        self.allow_list@
    }

    #[verifier::type_invariant]
    spec fn consistent(&self) -> bool {
        &&& forall|id: Uuid| #[trigger]
            self.by_id@.contains_key(id.value) ==> self.by_id@[id.value].id == id
        &&& self.allow_list@.no_duplicates()
        &&& forall|id: Uuid| #[trigger]
            self.allow_list@.contains(id) <==> self.by_id@.contains_key(id.value)
                && self.by_id@[id.value].winner && self.by_id@[id.value].status is Active
    }

    /// What is known of the provider `provider_id`.
    #[must_use]
    pub fn get(&self, provider_id: Uuid) -> (r: Option<&ChainProvider>)
        ensures
            r is Some <==> self.entry(provider_id) is Some,
            r matches Some(p) ==> self.entry(provider_id) == Some(*p) && p.id == provider_id,
    {
        proof {
            use_type_invariant(self);
        }
        self.by_id.get(&provider_id.value)
    }

    /// The number of providers known.
    #[must_use]
    pub fn len(&self) -> (n: usize)
        ensures
            n == Set::new(|id: Uuid| self.entry(id) is Some).len(),
    {
        proof {
            let ids = Set::new(|id: Uuid| self.entry(id) is Some);
            let keys = self.by_id@.dom();
            let as_id = |k: u128| Uuid { value: k };
            assert(keys.map(as_id) =~= ids) by {
                assert forall|id: Uuid| ids.contains(id) implies keys.map(as_id).contains(id) by {
                    assert(keys.contains(id.value));
                    assert(as_id(id.value) == id);
                }
            }
            vstd::set_lib::lemma_map_size(keys, ids, as_id);
        }
        self.by_id.len()
    }

    /// The providers that won their slug and are active, in no particular order.
    #[must_use]
    pub fn allow_list(&self) -> (ids: &[Uuid])
        ensures
            ids@ == self.allowed(),
            ids@.no_duplicates(),
            forall|id: Uuid| #[trigger]
                ids@.contains(id) <==> (self.entry(id) matches Some(p) && p.winner
                    && p.status is Active),
    {
        proof {
            use_type_invariant(self);
        }
        self.allow_list.as_slice()
    }

    /// Whether `provider_id` won its slug and is active.
    #[must_use]
    pub fn is_allowed(&self, provider_id: Uuid) -> (r: bool)
        ensures
            r == (self.entry(provider_id) matches Some(p) && p.winner && p.status is Active),
            r == self.allowed().contains(provider_id),
    {
        proof {
            use_type_invariant(self);
        }
        let mut i: usize = 0;
        while i < self.allow_list.len()
            invariant
                i <= self.allow_list.len(),
                forall|j: int| 0 <= j < i ==> self.allow_list@[j] != provider_id,
            decreases self.allow_list.len() - i,
        {
            if self.allow_list[i] == provider_id {
                assert(self.allow_list@.contains(provider_id));
                proof {
                    use_type_invariant(self);
                }
                return true;
            }
            i += 1;
        }
        assert(!self.allow_list@.contains(provider_id));
        false
    }

    /// A provider that wins `slug`, whatever its status.
    #[must_use]
    pub fn winner_for_slug(&self, slug: &str) -> (r: Option<&ChainProvider>)
        ensures
            match r {
                Some(p) => self.entry(p.id) == Some(*p) && p.winner && p.slug@ == slug@,
                None => forall|id: Uuid|
                    #![trigger self.entry(id)]
                    self.entry(id) matches Some(p) ==> !(p.winner && p.slug@ == slug@),
            },
    {
        proof {
            use_type_invariant(self);
        }
        for kv in it: self.by_id.iter()
            invariant
                it.seq() == vstd::std_specs::hash::spec_hash_map_iter(&self.by_id).remaining(),
                forall|i: int|
                    0 <= i < it.index() ==> !((#[trigger] it.seq()[i]).1.winner
                        && it.seq()[i].1.slug@ == slug@),
        {
            let (k, p) = kv;
            assert(it.seq()[it.index()] == (k, p));
            if p.winner && same_text(p.slug.as_str(), slug) {
                proof {
                    use_type_invariant(self);
                    assert(self.by_id@.contains_key(*k) && self.by_id@[*k] == *p);
                    let id = Uuid { value: *k };
                    assert(self.by_id@.contains_key(id.value));
                }
                return Some(p);
            }
        }
        proof {
            let all = vstd::std_specs::hash::spec_hash_map_iter(&self.by_id).remaining();
            assert forall|id: Uuid|
                #![trigger self.entry(id)]
                (self.entry(id) matches Some(p) ==> !(p.winner && p.slug@ == slug@)) by {
                if self.entry(id) is Some {
                    let k = id.value;
                    assert(self.by_id@.contains_key(k));
                    assert(all.contains((&k, &self.by_id@[k])));
                    let i = choose|i: int|
                        0 <= i < all.len() && all[i] == (&k, &self.by_id@[k]);
                    assert(all[i].1 == &self.by_id@[k]);
                }
            }
        }
        None
    }
}

/// A tenant of the chain has exactly one distance.
pub proof fn lemma_distance(chain: Seq<Uuid>, row: ProviderV1, i: int)
    requires
        first_at(chain, row.tenant_id, i),
    ensures
        distance(chain, row) == i,
        chain.contains(row.tenant_id),
{
    let d = distance(chain, row);
    assert(first_at(chain, row.tenant_id, d));
    if d < i {
        assert(chain[d] != row.tenant_id);
    } else if i < d {
        assert(chain[i] != row.tenant_id);
    }
}

/// Every tenant of the chain has a distance below the chain's length.
pub proof fn lemma_distance_bound(chain: Seq<Uuid>, row: ProviderV1)
    requires
        chain.contains(row.tenant_id),
    ensures
        first_at(chain, row.tenant_id, distance(chain, row)),
        0 <= distance(chain, row) < chain.len(),
{
    chain.index_of_first_ensures(row.tenant_id);
    let i = chain.index_of_first(row.tenant_id)->0;
    assert(first_at(chain, row.tenant_id, i));
    lemma_distance(chain, row, i);
}

/// Whether the row at `i` wins its slug.
fn row_wins(inheritance: &InheritanceContext, providers: &Vec<ProviderV1>, i: usize) -> (r: bool)
    requires
        inherited(inheritance.chain(), providers@, i as int),
    ensures
        r == wins(inheritance.chain(), providers@, i as int),
{
    let ghost chain = inheritance.chain();
    let ghost rows = providers@;
    let own = inheritance.position(providers[i].tenant_id);
    match own {
        None => false,
        Some(own) => {
            proof {
                lemma_distance(chain, rows[i as int], own as int);
            }
            let mut j: usize = 0;
            while j < providers.len()
                invariant
                    j <= providers.len(),
                    i < providers.len(),
                    chain == inheritance.chain(),
                    rows == providers@,
                    inherited(chain, rows, i as int),
                    distance(chain, rows[i as int]) == own,
                    forall|k: int|
                        0 <= k < j && inherited(chain, rows, k) && (#[trigger] rows[k]).slug@
                            == rows[i as int].slug@ ==> own <= distance(chain, rows[k]),
                decreases providers.len() - j,
            {
                if let Some(other) = inheritance.position(providers[j].tenant_id) {
                    proof {
                        lemma_distance(chain, rows[j as int], other as int);
                    }
                    if other < own && same_text(
                        providers[j].slug.as_str(),
                        providers[i].slug.as_str(),
                    ) {
                        assert(inherited(chain, rows, j as int));
                        return false;
                    }
                }
                j += 1;
            }
            true
        },
    }
}

/// Whether the row at `k` has been taken, when rows at distance below `d`, and
/// the first `i` rows at distance `d`, have been.
spec fn taken(chain: Seq<Uuid>, rows: Seq<ProviderV1>, d: int, i: int, k: int) -> bool {
    inherited(chain, rows, k) && (distance(chain, rows[k]) < d || (distance(chain, rows[k]) == d
        && k < i))
}

/// Whether the row at `k` is the last one taken with its identifier.
spec fn last_taken(chain: Seq<Uuid>, rows: Seq<ProviderV1>, d: int, i: int, k: int) -> bool {
    taken(chain, rows, d, i, k) && forall|j: int|
        taken(chain, rows, d, i, j) && (#[trigger] rows[j]).id == rows[k].id ==> no_later(
            chain,
            rows,
            j,
            k,
        )
}

/// Whether `m` holds, under its identifier, the last row taken with it.
spec fn holds_taken(
    m: Map<u128, ChainProvider>,
    chain: Seq<Uuid>,
    rows: Seq<ProviderV1>,
    d: int,
    i: int,
) -> bool {
    &&& forall|k: int| taken(chain, rows, d, i, k) ==> m.contains_key((#[trigger] rows[k]).id.value)
    &&& forall|id: Uuid| #[trigger]
        m.contains_key(id.value) ==> exists|k: int|
            last_taken(chain, rows, d, i, k) && (#[trigger] rows[k]).id == id && m[id.value] == seen(
                chain,
                rows,
                k,
            )
}

/// Taking the row at `i`, where its distance is `d`, keeps what the map holds.
proof fn lemma_take(
    m0: Map<u128, ChainProvider>,
    m1: Map<u128, ChainProvider>,
    chain: Seq<Uuid>,
    rows: Seq<ProviderV1>,
    d: int,
    i: int,
    here: bool,
)
    requires
        0 <= i < rows.len(),
        holds_taken(m0, chain, rows, d, i),
        here <==> inherited(chain, rows, i) && distance(chain, rows[i]) == d,
        !here ==> m1 == m0,
        here ==> m1 == m0.insert(rows[i].id.value, seen(chain, rows, i)),
    ensures
        holds_taken(m1, chain, rows, d, i + 1),
{
    assert forall|k: int| taken(chain, rows, d, i + 1, k) <==> (taken(chain, rows, d, i, k) || (here
        && k == i)) by {}
    if here {
        assert(last_taken(chain, rows, d, i + 1, i));
        assert forall|id: Uuid| #[trigger] m1.contains_key(id.value) implies exists|k: int|
            last_taken(chain, rows, d, i + 1, k) && (#[trigger] rows[k]).id == id && m1[id.value]
                == seen(chain, rows, k) by {
            if id == rows[i].id {
                assert(rows[i].id == id);
            } else {
                assert(m0.contains_key(id.value));
                let k = choose|k: int|
                    last_taken(chain, rows, d, i, k) && (#[trigger] rows[k]).id == id && m0[id.value]
                        == seen(chain, rows, k);
                assert(last_taken(chain, rows, d, i + 1, k));
                assert(rows[k].id == id);
            }
        }
    } else {
        assert forall|k: int| last_taken(chain, rows, d, i, k) implies last_taken(
            chain,
            rows,
            d,
            i + 1,
            k,
        ) by {}
        assert forall|id: Uuid| #[trigger] m1.contains_key(id.value) implies exists|k: int|
            last_taken(chain, rows, d, i + 1, k) && (#[trigger] rows[k]).id == id && m1[id.value]
                == seen(chain, rows, k) by {
            let k = choose|k: int|
                last_taken(chain, rows, d, i, k) && (#[trigger] rows[k]).id == id && m0[id.value]
                    == seen(chain, rows, k);
            assert(rows[k].id == id);
        }
    }
}

/// With every row at distance `d` taken, the next distance can begin.
proof fn lemma_next_distance(
    m: Map<u128, ChainProvider>,
    chain: Seq<Uuid>,
    rows: Seq<ProviderV1>,
    d: int,
)
    requires
        holds_taken(m, chain, rows, d, rows.len() as int),
    ensures
        holds_taken(m, chain, rows, d + 1, 0),
{
    let n = rows.len() as int;
    assert forall|k: int| taken(chain, rows, d + 1, 0, k) <==> taken(chain, rows, d, n, k) by {}
    assert forall|k: int| last_taken(chain, rows, d, n, k) implies last_taken(
        chain,
        rows,
        d + 1,
        0,
        k,
    ) by {}
    assert forall|id: Uuid| #[trigger] m.contains_key(id.value) implies exists|k: int|
        last_taken(chain, rows, d + 1, 0, k) && (#[trigger] rows[k]).id == id && m[id.value] == seen(
            chain,
            rows,
            k,
        ) by {
        let k = choose|k: int|
            last_taken(chain, rows, d, n, k) && (#[trigger] rows[k]).id == id && m[id.value] == seen(
                chain,
                rows,
                k,
            );
        assert(rows[k].id == id);
    }
}

/// With every distance done, the rows taken are those of the chain, and the last ones
/// taken are those that are kept.
#[verifier::spinoff_prover]
proof fn lemma_last_taken_is_kept(chain: Seq<Uuid>, rows: Seq<ProviderV1>, k: int)
    ensures
        taken(chain, rows, chain.len() as int, 0, k) <==> inherited(chain, rows, k),
        last_taken(chain, rows, chain.len() as int, 0, k) <==> kept(chain, rows, k),
{
    let n = chain.len() as int;
    assert forall|j: int| taken(chain, rows, n, 0, j) <==> inherited(chain, rows, j) by {
        if inherited(chain, rows, j) {
            lemma_distance_bound(chain, rows[j]);
        }
    }
}

/// Of the rows that share an identifier, one is kept.
#[verifier::spinoff_prover]
proof fn lemma_one_kept(chain: Seq<Uuid>, rows: Seq<ProviderV1>, i: int, k: int)
    requires
        kept(chain, rows, i),
        kept(chain, rows, k),
        rows[i].id == rows[k].id,
    ensures
        i == k,
{
    assert(no_later(chain, rows, k, i) && no_later(chain, rows, i, k));
}

/// With every distance done, what the map holds for an identifier is the kept row.
#[verifier::spinoff_prover]
proof fn lemma_held_is_kept(
    m: Map<u128, ChainProvider>,
    chain: Seq<Uuid>,
    rows: Seq<ProviderV1>,
    id: Uuid,
) -> (k: int)
    requires
        holds_taken(m, chain, rows, chain.len() as int, 0),
        m.contains_key(id.value),
    ensures
        kept(chain, rows, k),
        rows[k].id == id,
        m[id.value] == seen(chain, rows, k),
{
    let n = chain.len() as int;
    let k = choose|k: int|
        last_taken(chain, rows, n, 0, k) && (#[trigger] rows[k]).id == id && m[id.value] == seen(
            chain,
            rows,
            k,
        );
    lemma_last_taken_is_kept(chain, rows, k);
    k
}

/// With every distance done, the map holds exactly the kept rows.
#[verifier::spinoff_prover]
proof fn lemma_all_taken(m: Map<u128, ChainProvider>, chain: Seq<Uuid>, rows: Seq<ProviderV1>)
    requires
        holds_taken(m, chain, rows, chain.len() as int, 0),
    ensures
        forall|i: int|
            #[trigger] kept(chain, rows, i) ==> m.contains_key(rows[i].id.value)
                && m[rows[i].id.value] == seen(chain, rows, i),
        forall|id: Uuid| #[trigger]
            m.contains_key(id.value) ==> m[id.value].id == id && exists|i: int|
                #[trigger] kept(chain, rows, i) && rows[i].id == id,
{
    assert forall|i: int| #[trigger] kept(chain, rows, i) implies m.contains_key(rows[i].id.value)
        && m[rows[i].id.value] == seen(chain, rows, i) by {
        lemma_last_taken_is_kept(chain, rows, i);
        let k = lemma_held_is_kept(m, chain, rows, rows[i].id);
        lemma_one_kept(chain, rows, i, k);
    }
    assert forall|id: Uuid| #[trigger] m.contains_key(id.value) implies m[id.value].id == id
        && exists|i: int| #[trigger] kept(chain, rows, i) && rows[i].id == id by {
        let k = lemma_held_is_kept(m, chain, rows, id);
        assert(rows[k].id == id);
    }
}

/// The identifiers of the active winners.
fn collect_allowed(by_id: &HashMap<u128, ChainProvider>) -> (ids: Vec<Uuid>)
    requires
        forall|id: Uuid| #[trigger] by_id@.contains_key(id.value) ==> by_id@[id.value].id == id,
    ensures
        ids@.no_duplicates(),
        forall|id: Uuid| #[trigger]
            ids@.contains(id) <==> by_id@.contains_key(id.value) && by_id@[id.value].winner
                && by_id@[id.value].status is Active,
{
    let mut ids: Vec<Uuid> = Vec::new();
    let ghost all = vstd::std_specs::hash::spec_hash_map_iter(by_id).remaining();
    for kv in it: by_id.iter()
        invariant
            forall|id: Uuid| #[trigger] by_id@.contains_key(id.value) ==> by_id@[id.value].id == id,
            it.seq() == all,
            all == vstd::std_specs::hash::spec_hash_map_iter(by_id).remaining(),
            all.no_duplicates(),
            ids@.no_duplicates(),
            forall|id: Uuid| #[trigger]
                ids@.contains(id) <==> exists|i: int|
                    0 <= i < it.index() && *(#[trigger] all[i]).0 == id.value && all[i].1.winner
                        && all[i].1.status is Active,
    {
        let (k, p) = kv;
        let ghost at = it.index();
        assert(all[at] == (k, p));
        assert(by_id@.contains_key(*k) && by_id@[*k] == *p);
        let id = p.id;
        let ghost kid = Uuid { value: *k };
        assert(by_id@.contains_key(kid.value));
        assert(id == kid);
        let ghost ids0 = ids@;
        if p.winner && p.status == ProviderStatus::Active {
            proof {
                if ids0.contains(id) {
                    let i = choose|i: int|
                        0 <= i < at && *(#[trigger] all[i]).0 == id.value && all[i].1.winner
                            && all[i].1.status is Active;
                    assert(by_id@.contains_key(*all[i].0) && by_id@[*all[i].0] == *all[i].1);
                    assert(all[i] == all[at]);
                }
            }
            ids.push(id);
            assert(ids@.no_duplicates());
        }
        proof {
            assert forall|x: Uuid| #[trigger] ids@.contains(x) <==> exists|i: int|
                0 <= i < at + 1 && *(#[trigger] all[i]).0 == x.value && all[i].1.winner
                    && all[i].1.status is Active by {
                let pushed = p.winner && p.status is Active;
                assert(ids@.contains(x) <==> (ids0.contains(x) || (pushed && x == id))) by {
                    if pushed {
                        assert(ids@ == ids0.push(id));
                        if ids0.contains(x) {
                            let j = choose|j: int| 0 <= j < ids0.len() && ids0[j] == x;
                            assert(ids@[j] == x);
                        }
                        assert(ids@[ids0.len() as int] == id);
                    }
                }
                if pushed && x == id {
                    assert(*all[at].0 == x.value);
                }
            }
        }
    }
    proof {
        assert forall|id: Uuid| #[trigger] ids@.contains(id) <==> by_id@.contains_key(id.value)
            && by_id@[id.value].winner && by_id@[id.value].status is Active by {
            if ids@.contains(id) {
                let i = choose|i: int|
                    0 <= i < all.len() && *(#[trigger] all[i]).0 == id.value && all[i].1.winner
                        && all[i].1.status is Active;
                assert(by_id@.contains_key(*all[i].0) && by_id@[*all[i].0] == *all[i].1);
            }
            if by_id@.contains_key(id.value) && by_id@[id.value].winner
                && by_id@[id.value].status is Active {
                let k = id.value;
                assert(all.contains((&k, &by_id@[k])));
                let i = choose|i: int| 0 <= i < all.len() && all[i] == (&k, &by_id@[k]);
                assert(*all[i].0 == id.value && all[i].1.winner && all[i].1.status is Active);
            }
        }
    }
    ids
}

/// The providers of a chain, from the rows of one query over all its tenants.
///
/// Each row counts for its own tenant; a row of a tenant outside the chain is
/// dropped. The closest owner of a slug wins it, whatever the status.
#[must_use]
pub fn build_chain_providers(
    inheritance: &InheritanceContext,
    providers: Vec<ProviderV1>,
) -> (r: ChainProviders)
    ensures
        forall|i: int|
            #[trigger] kept(inheritance.chain(), providers@, i) ==> r.entry(providers@[i].id)
                == Some(seen(inheritance.chain(), providers@, i)),
        forall|id: Uuid|
            (#[trigger] r.entry(id)) is Some ==> exists|i: int|
                #[trigger] kept(inheritance.chain(), providers@, i) && providers@[i].id == id,
{
    let ghost chain = inheritance.chain();
    let ghost rows = providers@;
    let depth: usize = inheritance.chain_ids().len();
    let mut by_id: HashMap<u128, ChainProvider> = HashMap::with_capacity(providers.len());
    let mut d: usize = 0;
    proof {
        assert forall|k: int| !taken(chain, rows, 0, 0, k) by {
            if inherited(chain, rows, k) {
                lemma_distance_bound(chain, rows[k]);
            }
        }
    }
    while d < depth
        invariant
            d <= depth,
            depth == chain.len(),
            chain == inheritance.chain(),
            rows == providers@,
            holds_taken(by_id@, chain, rows, d as int, 0),
        decreases depth - d,
    {
        let mut i: usize = 0;
        while i < providers.len()
            invariant
                d < depth,
                i <= providers.len(),
                chain == inheritance.chain(),
                rows == providers@,
                holds_taken(by_id@, chain, rows, d as int, i as int),
            decreases providers.len() - i,
        {
            let here = match inheritance.position(providers[i].tenant_id) {
                Some(pos) => {
                    proof {
                        lemma_distance(chain, rows[i as int], pos as int);
                    }
                    pos == d
                },
                None => false,
            };
            let ghost m0 = by_id@;
            if here {
                let winner = row_wins(inheritance, &providers, i);
                let p = &providers[i];
                by_id.insert(
                    p.id.value,
                    ChainProvider {
                        id: p.id,
                        owner_tenant: p.tenant_id,
                        slug: p.slug.clone(),
                        status: p.status,
                        winner,
                    },
                );
            }
            proof {
                lemma_take(m0, by_id@, chain, rows, d as int, i as int, here);
            }
            i += 1;
        }
        proof {
            lemma_next_distance(by_id@, chain, rows, d as int);
        }
        d += 1;
    }
    proof {
        lemma_all_taken(by_id@, chain, rows);
    }
    let allow_list = collect_allowed(&by_id);
    ChainProviders { by_id, allow_list }
}

/// The model of [`chain_read_scope`].
pub open spec fn chain_read_view(own: AccessScopeView, chain: Seq<Uuid>) -> AccessScopeView {
    if chain.len() <= 1 || own.constraints.len() == 0 {
        own
    } else {
        AccessScopeView {
            constraints: own.constraints.push(seq![owned_by(chain.skip(1))]),
            unconstrained: false,
        }
    }
}

/// The scope of a read over a whole chain: the caller's own scope, or any row of
/// an ancestor. A scope without alternatives is kept as it is, so that one that
/// admits everything is not narrowed and one that admits nothing is not widened.
#[must_use]
pub fn chain_read_scope(own_scope: &AccessScope, inheritance: &InheritanceContext) -> (r: AccessScope)
    ensures
        r@ == chain_read_view(own_scope@, inheritance.chain()),
{
    let chain = inheritance.chain_ids();
    let own = own_scope.constraints();
    assert(own_scope@.constraints.len() == own@.len());
    if chain.len() <= 1 || own.len() == 0 {
        return own_scope.clone();
    }
    let mut ancestors: Vec<Uuid> = Vec::new();
    let mut i: usize = 1;
    while i < chain.len()
        invariant
            1 <= i <= chain@.len(),
            ancestors@ == chain@.subrange(1, i as int),
        decreases chain@.len() - i,
    {
        ancestors.push(chain[i]);
        i += 1;
        assert(ancestors@ =~= chain@.subrange(1, i as int));
    }
    assert(ancestors@ =~= chain@.skip(1));
    let mut constraints: Vec<ScopeConstraint> = Vec::new();
    let mut k: usize = 0;
    while k < own.len()
        invariant
            k <= own@.len(),
            constraints.len() == k,
            forall|j: int| 0 <= j < k ==> (#[trigger] constraints[j])@ == own@[j]@,
        decreases own@.len() - k,
    {
        constraints.push(own[k].clone());
        k += 1;
    }
    let mut filters: Vec<ScopeFilter> = Vec::new();
    filters.push(ScopeFilter::in_uuids(OWNER_TENANT_ID, ancestors));
    let branch = ScopeConstraint::new(filters);
    assert(branch@ =~= seq![owned_by(inheritance.chain().skip(1))]);
    constraints.push(branch);
    let r = AccessScope::from_constraints(constraints);
    proof {
        assert forall|j: int| 0 <= j < own@.len() implies own_scope@.constraints[j] == own@[j]@ by {
            assert(own@.map_values(|c: ScopeConstraint| c@)[j] == own@[j]@);
        }
        assert(r@.constraints =~= own_scope@.constraints.push(branch@));
    }
    r
}

/// Whether one of `tenants` owns `row`.
pub open spec fn owner_among(row: Row, tenants: Seq<Uuid>) -> bool {
    row.contains_key(OWNER_TENANT_ID@) && exists|i: int|
        0 <= i < tenants.len() && row[OWNER_TENANT_ID@] == ScopeValueView::Uuid(#[trigger] tenants[i])
}

/// A scope built from tenants admits exactly the rows that one of them owns.
pub proof fn law_tenant_scope_admits(tenants: Seq<Uuid>, row: Row)
    ensures
        AccessScopeView::of_tenants(tenants).admits(row) <==> owner_among(row, tenants),
{
    let scope = AccessScopeView::of_tenants(tenants);
    let f = owned_by(tenants);
    assert(scope.constraints[0][0] == f);
    assert(f.holds(row) <==> owner_among(row, tenants)) by {
        if owner_among(row, tenants) {
            let i = choose|i: int|
                0 <= i < tenants.len() && row[OWNER_TENANT_ID@] == ScopeValueView::Uuid(
                    #[trigger] tenants[i],
                );
            assert(f.values[i] == row[OWNER_TENANT_ID@]);
        }
        if f.holds(row) {
            let i = choose|i: int| 0 <= i < f.values.len() && f.values[i] == row[OWNER_TENANT_ID@];
            assert(row[OWNER_TENANT_ID@] == ScopeValueView::Uuid(tenants[i]));
        }
    }
    if f.holds(row) {
        assert(constraint_holds(scope.constraints[0], row));
    }
    if scope.admits(row) {
        assert(constraint_holds(scope.constraints[0], row));
        assert(scope.constraints[0][0].holds(row));
    }
}

/// A read over a chain admits what the caller's own scope admits, and beyond it
/// exactly the rows of ancestors. The caller's own constraints never bind a row of
/// an ancestor.
pub proof fn law_chain_read_admits(own: AccessScopeView, chain: Seq<Uuid>, row: Row)
    requires
        chain.len() >= 1,
        !own.unconstrained,
        own.constraints.len() > 0,
    ensures
        chain_read_view(own, chain).admits(row) <==> own.admits(row) || owner_among(
            row,
            chain.skip(1),
        ),
{
    let wide = chain_read_view(own, chain);
    let ancestors = chain.skip(1);
    law_tenant_scope_admits(ancestors, row);
    let tenant_scope = AccessScopeView::of_tenants(ancestors);
    if chain.len() <= 1 {
        assert(ancestors.len() == 0);
    } else {
        let n = own.constraints.len() as int;
        assert(wide.constraints[n] == tenant_scope.constraints[0]);
        if wide.admits(row) {
            let i = choose|i: int|
                0 <= i < wide.constraints.len() && constraint_holds(
                    #[trigger] wide.constraints[i],
                    row,
                );
            if i < n {
                assert(constraint_holds(own.constraints[i], row));
            } else {
                assert(constraint_holds(tenant_scope.constraints[0], row));
            }
        }
        if own.admits(row) {
            let i = choose|i: int|
                0 <= i < own.constraints.len() && constraint_holds(#[trigger] own.constraints[i], row);
            assert(wide.constraints[i] == own.constraints[i]);
        }
        if tenant_scope.admits(row) {
            let i = choose|i: int|
                0 <= i < tenant_scope.constraints.len() && constraint_holds(
                    #[trigger] tenant_scope.constraints[i],
                    row,
                );
            assert(i == 0);
            assert(constraint_holds(wide.constraints[n], row));
        }
    }
}

/// A read over a chain neither narrows a scope that admits everything nor widens
/// one that admits nothing, and is the caller's own scope for a root tenant.
pub proof fn law_chain_read_keeps_bare_scopes(own: AccessScopeView, chain: Seq<Uuid>)
    ensures
        own.constraints.len() == 0 || chain.len() <= 1 ==> chain_read_view(own, chain) == own,
{
}

/// Two rows that win the same slug belong to the same tenant. Where no tenant
/// owns a slug twice, they are one row.
pub proof fn law_one_winner_per_slug(chain: Seq<Uuid>, rows: Seq<ProviderV1>, i: int, j: int)
    requires
        wins(chain, rows, i),
        wins(chain, rows, j),
        rows[i].slug@ == rows[j].slug@,
    ensures
        rows[i].tenant_id == rows[j].tenant_id,
        (forall|a: int, b: int|
            0 <= a < rows.len() && 0 <= b < rows.len() && rows[a].tenant_id == rows[b].tenant_id
                && (#[trigger] rows[a]).slug@ == (#[trigger] rows[b]).slug@ ==> a == b) ==> i == j,
{
    lemma_distance_bound(chain, rows[i]);
    lemma_distance_bound(chain, rows[j]);
}

/// A slug that some chain tenant owns has a winner.
pub proof fn law_owned_slug_has_winner(chain: Seq<Uuid>, rows: Seq<ProviderV1>, i: int) -> (w: int)
    requires
        inherited(chain, rows, i),
    ensures
        wins(chain, rows, w),
        rows[w].slug@ == rows[i].slug@,
    decreases distance(chain, rows[i]),
{
    lemma_distance_bound(chain, rows[i]);
    if wins(chain, rows, i) {
        i
    } else {
        let j = choose|j: int|
            inherited(chain, rows, j) && (#[trigger] rows[j]).slug@ == rows[i].slug@ && !(distance(
                chain,
                rows[i],
            ) <= distance(chain, rows[j]));
        lemma_distance_bound(chain, rows[j]);
        law_owned_slug_has_winner(chain, rows, j)
    }
}

/// Whether two rows agree on identifier, owner and slug.
pub open spec fn same_ownership(a: ProviderV1, b: ProviderV1) -> bool {
    a.id == b.id && a.tenant_id == b.tenant_id && a.slug@ == b.slug@
}

/// The winner of a slug is decided by ownership alone: changing any provider's
/// status changes no winner.
pub proof fn law_status_decides_no_winner(
    chain: Seq<Uuid>,
    rows: Seq<ProviderV1>,
    other: Seq<ProviderV1>,
    i: int,
)
    requires
        rows.len() == other.len(),
        forall|k: int| 0 <= k < rows.len() ==> same_ownership(#[trigger] rows[k], other[k]),
        0 <= i < rows.len(),
    ensures
        wins(chain, rows, i) <==> wins(chain, other, i),
{
    assert forall|k: int| 0 <= k < rows.len() implies distance(chain, #[trigger] rows[k])
        == distance(chain, other[k]) by {
        assert(same_ownership(rows[k], other[k]));
        assert(forall|p: int|
            first_at(chain, rows[k].tenant_id, p) == first_at(chain, other[k].tenant_id, p));
    }
    assert(same_ownership(rows[i], other[i]));
    if wins(chain, rows, i) {
        assert forall|j: int|
            inherited(chain, other, j) && (#[trigger] other[j]).slug@
                == other[i].slug@ implies distance(chain, other[i]) <= distance(chain, other[j]) by {
            assert(same_ownership(rows[j], other[j]));
            assert(inherited(chain, rows, j));
        }
    }
    if wins(chain, other, i) {
        assert forall|j: int|
            inherited(chain, rows, j) && (#[trigger] rows[j]).slug@ == rows[i].slug@ implies distance(
            chain,
            rows[i],
        ) <= distance(chain, rows[j]) by {
            assert(same_ownership(rows[j], other[j]));
            assert(inherited(chain, other, j));
        }
    }
}

/// The order in which rows arrive decides no winner: lists that hold the same
/// rows have the same winners.
pub proof fn law_arrival_decides_no_winner(
    chain: Seq<Uuid>,
    rows: Seq<ProviderV1>,
    other: Seq<ProviderV1>,
    i: int,
    j: int,
)
    requires
        forall|p: ProviderV1| #[trigger] rows.contains(p) <==> other.contains(p),
        0 <= i < rows.len(),
        0 <= j < other.len(),
        rows[i] == other[j],
    ensures
        wins(chain, rows, i) <==> wins(chain, other, j),
{
    if wins(chain, rows, i) {
        assert forall|k: int|
            inherited(chain, other, k) && (#[trigger] other[k]).slug@
                == other[j].slug@ implies distance(chain, other[j]) <= distance(chain, other[k]) by {
            assert(other.contains(other[k]));
            assert(rows.contains(other[k]));
            let m = choose|m: int| 0 <= m < rows.len() && rows[m] == other[k];
            assert(inherited(chain, rows, m));
        }
    }
    if wins(chain, other, j) {
        assert forall|k: int|
            inherited(chain, rows, k) && (#[trigger] rows[k]).slug@ == rows[i].slug@ implies distance(
            chain,
            rows[i],
        ) <= distance(chain, rows[k]) by {
            assert(rows.contains(rows[k]));
            assert(other.contains(rows[k]));
            let m = choose|m: int| 0 <= m < other.len() && other[m] == rows[k];
            assert(inherited(chain, other, m));
        }
    }
}

/// A provider of the requesting tenant wins its slug, and with it shadows every
/// ancestor's provider of that slug, disabled or not.
pub proof fn law_own_provider_shadows(chain: Seq<Uuid>, rows: Seq<ProviderV1>, i: int, j: int)
    requires
        chain.len() >= 1,
        0 <= i < rows.len(),
        rows[i].tenant_id == chain[0],
        inherited(chain, rows, j),
        rows[j].slug@ == rows[i].slug@,
        rows[j].tenant_id != chain[0],
    ensures
        wins(chain, rows, i),
        !wins(chain, rows, j),
{
    assert(first_at(chain, rows[i].tenant_id, 0));
    lemma_distance(chain, rows[i], 0);
    assert forall|k: int| inherited(chain, rows, k) implies distance(chain, #[trigger] rows[k])
        >= 0 by {
        lemma_distance_bound(chain, rows[k]);
    }
    lemma_distance_bound(chain, rows[j]);
    assert(distance(chain, rows[j]) > 0);
}

/// The rows of one slug suffice to find its winner: over the rows that have the
/// slug the same ones win as over all rows of the chain.
pub proof fn law_slug_rows_suffice(
    chain: Seq<Uuid>,
    all: Seq<ProviderV1>,
    some: Seq<ProviderV1>,
    slug: Seq<char>,
    i: int,
    j: int,
)
    requires
        forall|p: ProviderV1| #[trigger] some.contains(p) <==> all.contains(p) && p.slug@ == slug,
        0 <= i < all.len(),
        0 <= j < some.len(),
        all[i] == some[j],
    ensures
        wins(chain, all, i) <==> wins(chain, some, j),
{
    assert(some.contains(some[j]));
    if wins(chain, all, i) {
        assert forall|k: int|
            inherited(chain, some, k) && (#[trigger] some[k]).slug@ == some[j].slug@ implies distance(
            chain,
            some[j],
        ) <= distance(chain, some[k]) by {
            assert(some.contains(some[k]));
            assert(all.contains(some[k]));
            let m = choose|m: int| 0 <= m < all.len() && all[m] == some[k];
            assert(inherited(chain, all, m));
        }
    }
    if wins(chain, some, j) {
        assert forall|k: int|
            inherited(chain, all, k) && (#[trigger] all[k]).slug@ == all[i].slug@ implies distance(
            chain,
            all[i],
        ) <= distance(chain, all[k]) by {
            assert(all.contains(all[k]));
            assert(some.contains(all[k]));
            let m = choose|m: int| 0 <= m < some.len() && some[m] == all[k];
            assert(inherited(chain, some, m));
        }
    }
}

} // verus!
