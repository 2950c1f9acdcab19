//! What the endpoints are, from what each of them does.
use vstd::prelude::*;
use crate::registry::rest::routes::{
    authenticate, BodySchema, Endpoint, ListedFields, Method, QueryParam,
};
use crate::registry::security::SecurityContext;

verus! {

/// Whether the endpoint is for every member of a tenant.
pub open spec fn for_members(e: Endpoint) -> bool {
    e is ListTenantModels || e is GetTenantModel
}

/// Whether the endpoint is about models, and not about providers.
pub open spec fn about_models(e: Endpoint) -> bool {
    !(e is ListProviders || e is CreateProvider || e is GetProvider || e is UpdateProvider
        || e is DeleteProvider)
}

/// Whether the endpoint lists.
pub open spec fn is_listing(e: Endpoint) -> bool {
    e is ListTenantModels || e is ListManagementModels || e is ListProviders
}

/// Whether the endpoint makes something.
pub open spec fn is_making(e: Endpoint) -> bool {
    e is CreateModel || e is CreateProvider
}

/// Whether the endpoint changes something.
pub open spec fn is_changing(e: Endpoint) -> bool {
    e is UpdateModel || e is UpdateProvider
}

/// Whether the endpoint takes something away.
pub open spec fn is_removing(e: Endpoint) -> bool {
    e is DeleteModel || e is DeleteProvider
}

/// The endpoint's path, put together: the registry, the zone, the collection and, for
/// one thing, what names it.
pub open spec fn path_of(e: Endpoint) -> Seq<char> {
    "/model-registry/v1"@ + (if for_members(e) {
        ""@
    } else {
        "/admin"@
    }) + (if about_models(e) {
        "/models"@
    } else {
        "/providers"@
    }) + (if is_listing(e) || is_making(e) {
        ""@
    } else if for_members(e) {
        "/{canonical_id}"@
    } else {
        "/{id}"@
    })
}

/// An endpoint is called as goes with what it does, and answers with the status that
/// goes with it.
pub proof fn law_methods(e: Endpoint, method: Method, success: u16)
    requires
        call_ensures(Endpoint::method, (e,), method),
        call_ensures(Endpoint::success, (e,), success),
    ensures
        method is Post <==> is_making(e),
        method is Patch <==> is_changing(e),
        method is Delete <==> is_removing(e),
        success == (if is_making(e) {
            201u16
        } else if is_removing(e) {
            204u16
        } else {
            200u16
        }),
{
}

/// An endpoint stands in the path of its zone and its collection.
pub proof fn law_paths(e: Endpoint, path: &'static str)
    requires
        call_ensures(Endpoint::path, (e,), path),
    ensures
        path@ == path_of(e),
{
    reveal_strlit("/model-registry/v1");
    reveal_strlit("");
    reveal_strlit("/admin");
    reveal_strlit("/models");
    reveal_strlit("/providers");
    reveal_strlit("/{canonical_id}");
    reveal_strlit("/{id}");
    reveal_strlit("/model-registry/v1/models");
    reveal_strlit("/model-registry/v1/admin/models");
    reveal_strlit("/model-registry/v1/admin/providers");
    reveal_strlit("/model-registry/v1/admin/models/{id}");
    reveal_strlit("/model-registry/v1/admin/providers/{id}");
    reveal_strlit("/model-registry/v1/models/{canonical_id}");
    assert(path@ =~= path_of(e));
}

/// An endpoint tells exactly the failures that it can meet: a bad request where it takes
/// a query or a body, or would remove a provider that has models; a missing thing where
/// it names one, or a model's provider; a conflict where it takes a body. An unknown or
/// denied caller, and a failure, every one can meet.
pub proof fn law_failures_told(e: Endpoint, errors: Vec<u16>)
    requires
        call_ensures(Endpoint::errors, (e,), errors),
    ensures
        errors@.contains(400) <==> is_listing(e) || is_making(e) || is_changing(e)
            || e is DeleteProvider,
        errors@.contains(401),
        errors@.contains(403),
        errors@.contains(404) <==> !is_listing(e) && !(e is CreateProvider),
        errors@.contains(409) <==> is_making(e) || is_changing(e),
        errors@.contains(422) <==> is_listing(e) || is_making(e) || is_changing(e),
        errors@.contains(500),
        forall|c: u16| #[trigger]
            errors@.contains(c) ==> c == 400 || c == 401 || c == 403 || c == 404 || c == 409 || c
                == 422 || c == 500,
        forall|i: int, j: int| 0 <= i < j < errors@.len() ==> errors@[i] < errors@[j],
{
    let body = is_making(e) || is_changing(e);
    if is_listing(e) {
        assert(errors@ =~= seq![400u16, 401u16, 403u16, 422u16, 500u16]);
        assert(errors@[0] == 400 && errors@[1] == 401 && errors@[2] == 403 && errors@[3] == 422
            && errors@[4] == 500);
    } else if e is CreateProvider {
        assert(errors@ =~= seq![400u16, 401u16, 403u16, 409u16, 422u16, 500u16]);
        assert(errors@[0] == 400 && errors@[1] == 401 && errors@[2] == 403 && errors@[3] == 409
            && errors@[4] == 422 && errors@[5] == 500);
    } else if body {
        assert(errors@ =~= seq![400u16, 401u16, 403u16, 404u16, 409u16, 422u16, 500u16]);
        assert(errors@[0] == 400 && errors@[1] == 401 && errors@[2] == 403 && errors@[3] == 404
            && errors@[4] == 409 && errors@[5] == 422 && errors@[6] == 500);
    } else if e is DeleteProvider {
        assert(errors@ =~= seq![400u16, 401u16, 403u16, 404u16, 500u16]);
        assert(errors@[0] == 400 && errors@[1] == 401 && errors@[2] == 403 && errors@[3] == 404
            && errors@[4] == 500);
    } else {
        assert(errors@ =~= seq![401u16, 403u16, 404u16, 500u16]);
        assert(errors@[0] == 401 && errors@[1] == 403 && errors@[2] == 404 && errors@[3] == 500);
    }
}

/// What an endpoint takes and answers goes with what it does and what it is about.
pub proof fn law_bodies(
    e: Endpoint,
    request: Option<BodySchema>,
    response: Option<BodySchema>,
    fields: Option<ListedFields>,
    param: Option<QueryParam>,
    tag: &'static str,
)
    requires
        call_ensures(Endpoint::request_schema, (e,), request),
        call_ensures(Endpoint::response_schema, (e,), response),
        call_ensures(Endpoint::fields, (e,), fields),
        call_ensures(Endpoint::query_param, (e,), param),
        call_ensures(Endpoint::tag, (e,), tag),
    ensures
        request == (if is_making(e) {
            if about_models(e) {
                Some(BodySchema::CreateModelRequest)
            } else {
                Some(BodySchema::CreateProviderRequest)
            }
        } else if is_changing(e) {
            if about_models(e) {
                Some(BodySchema::UpdateModelRequest)
            } else {
                Some(BodySchema::UpdateProviderRequest)
            }
        } else {
            None
        }),
        response == (if is_removing(e) {
            None
        } else if e is ListManagementModels {
            Some(BodySchema::ModelManagementList)
        } else if is_listing(e) {
            if about_models(e) {
                Some(BodySchema::ModelList)
            } else {
                Some(BodySchema::ProviderList)
            }
        } else if about_models(e) {
            Some(BodySchema::Model)
        } else {
            Some(BodySchema::Provider)
        }),
        fields is Some <==> is_listing(e),
        fields matches Some(f) ==> (f is Models <==> about_models(e)),
        param is Some <==> e is ListManagementModels,
        param matches Some(p) ==> p.name@ == "include_deprecated"@ && !p.required && p.kind@
            == "boolean"@,
        tag@ == (if for_members(e) {
            "Models"@
        } else {
            "Admin"@
        }),
{
}

/// An endpoint's name among operations.
pub proof fn law_operation_names(e: Endpoint, name: &'static str)
    requires
        call_ensures(Endpoint::operation_id, (e,), name),
    ensures
        name@ == "model_registry."@ + (match e {
            Endpoint::ListTenantModels => "list_tenant_models"@,
            Endpoint::GetTenantModel => "get_tenant_model"@,
            Endpoint::ListManagementModels => "list_management_models"@,
            Endpoint::CreateModel => "create_model"@,
            Endpoint::GetModel => "get_model"@,
            Endpoint::UpdateModel => "update_model"@,
            Endpoint::DeleteModel => "delete_model"@,
            Endpoint::ListProviders => "list_providers"@,
            Endpoint::CreateProvider => "create_provider"@,
            Endpoint::GetProvider => "get_provider"@,
            Endpoint::UpdateProvider => "update_provider"@,
            Endpoint::DeleteProvider => "delete_provider"@,
        }),
{
    reveal_strlit("model_registry.");
    reveal_strlit("list_tenant_models");
    reveal_strlit("model_registry.list_tenant_models");
    reveal_strlit("get_tenant_model");
    reveal_strlit("model_registry.get_tenant_model");
    reveal_strlit("list_management_models");
    reveal_strlit("model_registry.list_management_models");
    reveal_strlit("create_model");
    reveal_strlit("model_registry.create_model");
    reveal_strlit("get_model");
    reveal_strlit("model_registry.get_model");
    reveal_strlit("update_model");
    reveal_strlit("model_registry.update_model");
    reveal_strlit("delete_model");
    reveal_strlit("model_registry.delete_model");
    reveal_strlit("list_providers");
    reveal_strlit("model_registry.list_providers");
    reveal_strlit("create_provider");
    reveal_strlit("model_registry.create_provider");
    reveal_strlit("get_provider");
    reveal_strlit("model_registry.get_provider");
    reveal_strlit("update_provider");
    reveal_strlit("model_registry.update_provider");
    reveal_strlit("delete_provider");
    reveal_strlit("model_registry.delete_provider");
    assert("model_registry.list_tenant_models"@ =~= "model_registry."@ + "list_tenant_models"@);
    assert("model_registry.get_tenant_model"@ =~= "model_registry."@ + "get_tenant_model"@);
    assert("model_registry.list_management_models"@ =~= "model_registry."@ + "list_management_models"@);
    assert("model_registry.create_model"@ =~= "model_registry."@ + "create_model"@);
    assert("model_registry.get_model"@ =~= "model_registry."@ + "get_model"@);
    assert("model_registry.update_model"@ =~= "model_registry."@ + "update_model"@);
    assert("model_registry.delete_model"@ =~= "model_registry."@ + "delete_model"@);
    assert("model_registry.list_providers"@ =~= "model_registry."@ + "list_providers"@);
    assert("model_registry.create_provider"@ =~= "model_registry."@ + "create_provider"@);
    assert("model_registry.get_provider"@ =~= "model_registry."@ + "get_provider"@);
    assert("model_registry.update_provider"@ =~= "model_registry."@ + "update_provider"@);
    assert("model_registry.delete_provider"@ =~= "model_registry."@ + "delete_provider"@);
}

/// No endpoint is open to an unknown caller, and a known one goes on as who they are.
pub proof fn law_only_known_callers(
    e: Endpoint,
    caller: Option<SecurityContext>,
    r: Result<SecurityContext, u16>,
)
    requires
        call_ensures(authenticate, (e, caller), r),
    ensures
        caller is None ==> r == Err::<SecurityContext, u16>(401),
        caller matches Some(ctx) ==> r == Ok::<SecurityContext, u16>(ctx),
{
}

} // verus!
