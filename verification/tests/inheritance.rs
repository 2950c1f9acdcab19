use gears::ids::{Timestamp, Uuid};
use gears::registry::inheritance::{build_chain_providers, chain_read_scope, InheritanceContext};
use gears::registry::models::{ProviderStatus, ProviderV1};
use gears::registry::security::{
    AccessScope, ScopeConstraint, ScopeFilter, OWNER_TENANT_ID, RESOURCE_ID,
};

fn uuid_of(text: &str) -> Uuid {
    Uuid::from_u128(uuid::Uuid::parse_str(text).unwrap().as_u128())
}

fn parent_id() -> Uuid {
    uuid_of("00000000-0000-0000-0000-000000000001")
}

fn grandparent_id() -> Uuid {
    uuid_of("00000000-0000-0000-0000-000000000002")
}

fn child_id() -> Uuid {
    uuid_of("00000000-0000-0000-0000-000000000010")
}

fn outsider_id() -> Uuid {
    uuid_of("00000000-0000-0000-0000-0000000000ff")
}

fn make_ancestor_ids() -> Vec<Uuid> {
    vec![parent_id(), grandparent_id()]
}

// ── Tests: InheritanceContext construction ─────────────────────────────

#[test]
fn test_new_context_sets_chain_correctly() {
    let ctx = InheritanceContext::new(child_id(), make_ancestor_ids());
    assert_eq!(ctx.tenant_id(), child_id());
    assert_eq!(ctx.chain_ids().len(), 3);
    assert_eq!(ctx.chain_ids()[0], child_id());
    assert_eq!(ctx.chain_ids()[1], parent_id());
    assert_eq!(ctx.chain_ids()[2], grandparent_id());
}

#[test]
fn test_new_context_with_no_ancestors() {
    let ctx = InheritanceContext::new(child_id(), vec![]);
    assert_eq!(ctx.chain_ids().len(), 1);
    assert_eq!(ctx.chain_ids()[0], child_id());
}

// ── Tests: chain-distance ranking ──────────────────────────────────────

#[test]
fn test_position_ranks_by_chain_distance() {
    let ctx = InheritanceContext::new(child_id(), make_ancestor_ids());
    assert_eq!(ctx.position(child_id()), Some(0));
    assert_eq!(ctx.position(parent_id()), Some(1));
    assert_eq!(ctx.position(grandparent_id()), Some(2));
}

#[test]
fn test_position_is_none_outside_the_chain() {
    let ctx = InheritanceContext::new(child_id(), make_ancestor_ids());
    assert_eq!(ctx.position(outsider_id()), None);
}

#[test]
fn test_single_tenant_no_ancestors_resolve_correctly() {
    let ctx = InheritanceContext::new(child_id(), vec![]);
    assert_eq!(ctx.chain_ids().len(), 1);
    assert_eq!(ctx.chain_ids()[0], child_id());
    assert_eq!(ctx.position(parent_id()), None);
    assert_eq!(ctx.position(grandparent_id()), None);
}

// ── Tests: chain_read_scope ────────────────────────────────────────────

fn pdp_scope_for(tenant: Uuid, resource_ids: Vec<Uuid>) -> AccessScope {
    AccessScope::single(ScopeConstraint::new(vec![
        ScopeFilter::eq(OWNER_TENANT_ID, tenant),
        ScopeFilter::in_uuids(RESOURCE_ID, resource_ids),
    ]))
}

#[test]
fn test_chain_read_scope_preserves_pdp_constraints_and_adds_ancestors() {
    let ctx = InheritanceContext::new(child_id(), make_ancestor_ids());
    let allowed_row = uuid_of("00000000-0000-0000-0000-0000000000aa");
    let own = pdp_scope_for(child_id(), vec![allowed_row]);

    let scope = chain_read_scope(&own, &ctx);

    // Branch 1 is the PDP scope, byte-identical.
    assert_eq!(scope.constraints().len(), 2);
    assert_eq!(scope.constraints()[0], own.constraints()[0]);

    // Branch 2 is a plain ancestor tenant filter — and nothing else, so the
    // PDP's row-level constraint never binds an inherited row.
    let ancestor_branch = &scope.constraints()[1];
    assert_eq!(ancestor_branch.filters().len(), 1);
    assert!(scope.contains_uuid(OWNER_TENANT_ID, parent_id()));
    assert!(scope.contains_uuid(OWNER_TENANT_ID, grandparent_id()));
}

/// `allow_all` carries an empty constraint
/// list, so OR-ing an ancestor branch onto it would narrow the scope to
/// ancestors only and drop every own-tenant row.
#[test]
fn test_chain_read_scope_leaves_an_unconstrained_scope_unconstrained() {
    let ctx = InheritanceContext::new(child_id(), make_ancestor_ids());
    let scope = chain_read_scope(&AccessScope::allow_all(), &ctx);
    assert!(scope.is_unconstrained());
}

#[test]
fn test_chain_read_scope_leaves_a_deny_all_scope_denying() {
    let ctx = InheritanceContext::new(child_id(), make_ancestor_ids());
    let scope = chain_read_scope(&AccessScope::deny_all(), &ctx);
    assert!(scope.is_deny_all());
}

#[test]
fn test_chain_read_scope_is_identity_for_a_root_tenant() {
    let ctx = InheritanceContext::new(child_id(), vec![]);
    let own = AccessScope::for_tenant(child_id());
    assert_eq!(chain_read_scope(&own, &ctx), own);
}


fn make_provider(id: Uuid, tenant_id: Uuid, slug: &str, status: ProviderStatus) -> ProviderV1 {
    let now = Timestamp::new(1_750_000_000, 0).unwrap();
    ProviderV1 {
        id,
        tenant_id,
        slug: slug.to_owned(),
        name: slug.to_owned(),
        gts_type: "gts.cf.genai.model.provider.v1~cf.genai._.generic.v1~".to_owned(),
        status,
        managed: false,
        metadata: None,
        discovery_enabled: false,
        discovery_interval_seconds: None,
        created_at: now,
        updated_at: now,
    }
}

fn single_ancestor() -> Vec<Uuid> {
    vec![parent_id()]
}

fn pid(tail: &str) -> Uuid {
    uuid_of(&format!("00000000-0000-0000-0000-0000000000{tail}"))
}

#[test]
fn test_chain_providers_single_tenant() {
    let ctx = InheritanceContext::new(child_id(), vec![]);
    let providers = vec![
        make_provider(pid("a0"), child_id(), "openai", ProviderStatus::Active),
        make_provider(pid("a1"), child_id(), "anthropic", ProviderStatus::Active),
    ];

    let chain = build_chain_providers(&ctx, providers);

    // Both providers should be winners and in the allow-list.
    assert_eq!(chain.len(), 2);
    assert_eq!(chain.allow_list().len(), 2);
    assert!(chain.is_allowed(pid("a0")));
    assert_eq!(chain.get(pid("a0")).map(|p| p.winner), Some(true));
}

#[test]
fn test_chain_providers_child_shadows_parent() {
    let ctx = InheritanceContext::new(child_id(), single_ancestor());
    let own_id = pid("b0");
    let parent_prov_id = pid("b1");

    let chain = build_chain_providers(
        &ctx,
        vec![
            make_provider(own_id, child_id(), "openai", ProviderStatus::Active),
            make_provider(
                parent_prov_id,
                parent_id(),
                "openai",
                ProviderStatus::Active,
            ),
        ],
    );

    // Child wins the "openai" slug.
    let child_prov = chain.get(own_id).expect("child provider should exist");
    assert!(child_prov.winner, "child should win the slug");
    assert_eq!(child_prov.owner_tenant, child_id());
    assert_eq!(chain.allow_list().len(), 1);
    assert!(chain.is_allowed(own_id));
    assert!(!chain.is_allowed(parent_prov_id));
}

/// The batch arrives in an arbitrary order, so the winner must be decided by
/// chain distance rather than by which row came first.
#[test]
fn test_chain_providers_attributes_rows_by_their_own_tenant_id() {
    let ctx = InheritanceContext::new(child_id(), make_ancestor_ids());
    let gp_prov = pid("c0");
    let parent_prov = pid("c1");
    let child_prov = pid("c2");

    // Deliberately reverse chain order: root first, requestor last.
    let chain = build_chain_providers(
        &ctx,
        vec![
            make_provider(gp_prov, grandparent_id(), "openai", ProviderStatus::Active),
            make_provider(parent_prov, parent_id(), "openai", ProviderStatus::Active),
            make_provider(child_prov, child_id(), "openai", ProviderStatus::Active),
        ],
    );

    assert!(
        chain.get(child_prov).expect("child provider").winner,
        "the closest tenant wins regardless of arrival order"
    );
    assert!(!chain.get(parent_prov).expect("parent provider").winner);
    assert!(!chain.get(gp_prov).expect("grandparent provider").winner);
    assert_eq!(chain.allow_list(), &[child_prov]);
}

#[test]
fn test_chain_providers_parent_shadows_grandparent() {
    let ctx = InheritanceContext::new(parent_id(), vec![grandparent_id()]);
    let parent_prov_id = pid("d0");
    let gp_prov_id = pid("d1");

    let chain = build_chain_providers(
        &ctx,
        vec![
            make_provider(
                parent_prov_id,
                parent_id(),
                "openai",
                ProviderStatus::Active,
            ),
            make_provider(
                gp_prov_id,
                grandparent_id(),
                "openai",
                ProviderStatus::Active,
            ),
        ],
    );

    assert!(chain.get(parent_prov_id).expect("parent provider").winner);
    assert!(
        !chain.get(gp_prov_id).expect("grandparent provider").winner,
        "grandparent should lose to parent"
    );
    assert_eq!(chain.allow_list(), &[parent_prov_id]);
}

#[test]
fn test_chain_providers_unrelated_slugs_coexist() {
    let ctx = InheritanceContext::new(child_id(), single_ancestor());
    let child_only_id = pid("e0");
    let parent_only_id = pid("e1");

    let chain = build_chain_providers(
        &ctx,
        vec![
            make_provider(
                child_only_id,
                child_id(),
                "child-only",
                ProviderStatus::Active,
            ),
            make_provider(
                parent_only_id,
                parent_id(),
                "parent-only",
                ProviderStatus::Active,
            ),
        ],
    );

    // Both slugs should be winners with no collisions.
    assert_eq!(chain.len(), 2);
    assert_eq!(chain.allow_list().len(), 2);
}

#[test]
fn test_chain_providers_disabled_shadow() {
    // A disabled shadow must still win its slug (so the ancestor's models
    // are excluded), but be absent from the allow-list (so its own models
    // are excluded too). folding status into `winner` hands
    // the slug back to the ancestor and re-exposes the shadowed models.
    let ctx = InheritanceContext::new(child_id(), single_ancestor());
    let child_prov_id = pid("f0");
    let parent_prov_id = pid("f1");

    let chain = build_chain_providers(
        &ctx,
        vec![
            make_provider(
                child_prov_id,
                child_id(),
                "openai",
                ProviderStatus::Disabled,
            ),
            make_provider(
                parent_prov_id,
                parent_id(),
                "openai",
                ProviderStatus::Active,
            ),
        ],
    );

    // Child (disabled) must still win the slug.
    let child = chain.get(child_prov_id).expect("child provider");
    assert!(child.winner, "disabled shadow must still win the slug");
    assert_eq!(child.owner_tenant, child_id());

    // Parent must be a loser.
    assert!(
        !chain.get(parent_prov_id).expect("parent provider").winner,
        "parent must lose to disabled child"
    );

    // Neither should be in the allow-list (child is disabled, parent lost).
    assert_eq!(chain.allow_list().len(), 0, "no active winners");
    assert!(!chain.is_allowed(child_prov_id));
    assert!(!chain.is_allowed(parent_prov_id));
}

/// The scope already excludes them, so this only fires on a widened scope —
/// which is exactly when silently trusting the row would leak across tenants.
#[test]
fn test_chain_providers_drops_a_provider_owned_outside_the_chain() {
    let ctx = InheritanceContext::new(child_id(), single_ancestor());
    let own = pid("01");
    let stranger = pid("02");

    let chain = build_chain_providers(
        &ctx,
        vec![
            make_provider(own, child_id(), "openai", ProviderStatus::Active),
            make_provider(stranger, outsider_id(), "anthropic", ProviderStatus::Active),
        ],
    );

    assert_eq!(chain.len(), 1);
    assert!(chain.get(stranger).is_none());
    assert_eq!(chain.allow_list(), &[own]);
}

/// A malformed chain that repeats a tenant must keep it at its closest
/// position rather than demoting it.
#[test]
fn test_chain_providers_survives_a_chain_that_repeats_a_tenant() {
    let ctx = InheritanceContext::new(child_id(), vec![parent_id(), child_id()]);
    let child_prov = pid("11");
    let parent_prov = pid("12");

    let chain = build_chain_providers(
        &ctx,
        vec![
            make_provider(parent_prov, parent_id(), "openai", ProviderStatus::Active),
            make_provider(child_prov, child_id(), "openai", ProviderStatus::Active),
        ],
    );

    assert!(chain.get(child_prov).expect("child provider").winner);
    assert!(!chain.get(parent_prov).expect("parent provider").winner);
}

// ── Tests: winner_for_slug ─────────────────────────────────────────────

#[test]
fn test_winner_for_slug_returns_the_closest_owner() {
    let ctx = InheritanceContext::new(child_id(), make_ancestor_ids());
    let child_prov = pid("21");
    let parent_prov = pid("22");

    let chain = build_chain_providers(
        &ctx,
        vec![
            make_provider(parent_prov, parent_id(), "openai", ProviderStatus::Active),
            make_provider(child_prov, child_id(), "openai", ProviderStatus::Active),
        ],
    );

    let winner = chain.winner_for_slug("openai").expect("slug resolves");
    assert_eq!(winner.id, child_prov);
    assert_eq!(winner.owner_tenant, child_id());
}

/// A disabled winner is returned too, so that it can be reported once its model is
/// known to be there.
#[test]
fn test_winner_for_slug_returns_a_disabled_winner() {
    let ctx = InheritanceContext::new(child_id(), single_ancestor());
    let child_prov = pid("31");
    let parent_prov = pid("32");

    let chain = build_chain_providers(
        &ctx,
        vec![
            make_provider(child_prov, child_id(), "openai", ProviderStatus::Disabled),
            make_provider(parent_prov, parent_id(), "openai", ProviderStatus::Active),
        ],
    );

    let winner = chain.winner_for_slug("openai").expect("slug resolves");
    assert_eq!(winner.id, child_prov);
    assert_eq!(winner.status, ProviderStatus::Disabled);
    assert!(chain.allow_list().is_empty());
}

#[test]
fn test_winner_for_slug_is_none_for_an_unknown_slug() {
    let ctx = InheritanceContext::new(child_id(), single_ancestor());
    let chain = build_chain_providers(
        &ctx,
        vec![make_provider(
            pid("41"),
            child_id(),
            "openai",
            ProviderStatus::Active,
        )],
    );
    assert!(chain.winner_for_slug("anthropic").is_none());
}

#[test]
fn test_chain_providers_empty_input_yields_empty_allow_list() {
    let ctx = InheritanceContext::new(child_id(), single_ancestor());
    let chain = build_chain_providers(&ctx, vec![]);
    assert!(chain.allow_list().is_empty());
    assert!(chain.winner_for_slug("openai").is_none());
}

// ── A row that shares its identifier with another ─────────────────────────

#[test]
fn the_farthest_row_of_an_identifier_is_kept() {
    let ctx = InheritanceContext::new(child_id(), single_ancestor());
    let chain = build_chain_providers(
        &ctx,
        vec![
            make_provider(pid("51"), parent_id(), "openai", ProviderStatus::Active),
            make_provider(pid("51"), child_id(), "openai", ProviderStatus::Active),
        ],
    );
    assert_eq!(chain.len(), 1);
    let kept = chain.get(pid("51")).unwrap();
    assert_eq!(kept.owner_tenant, parent_id());
    assert!(!kept.winner);
    assert!(!chain.is_allowed(pid("51")));
}

#[test]
fn arrival_order_and_status_decide_no_winner() {
    let ctx = InheritanceContext::new(child_id(), make_ancestor_ids());
    for status in [ProviderStatus::Active, ProviderStatus::Disabled] {
        let near = make_provider(pid("61"), parent_id(), "openai", status);
        let far = make_provider(pid("62"), grandparent_id(), "openai", ProviderStatus::Active);
        for rows in [vec![near.clone(), far.clone()], vec![far.clone(), near.clone()]] {
            let chain = build_chain_providers(&ctx, rows);
            assert_eq!(chain.winner_for_slug("openai").unwrap().id, pid("61"));
            assert!(!chain.get(pid("62")).unwrap().winner);
        }
    }
}

#[test]
fn a_copied_context_has_the_same_chain() {
    let ctx = InheritanceContext::new(child_id(), make_ancestor_ids());
    let copy = ctx.clone();
    assert_eq!(copy.chain_ids(), ctx.chain_ids());
    assert_eq!(copy.position(grandparent_id()), Some(2));
}
