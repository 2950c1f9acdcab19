//! The rules that requests must keep.
use vstd::prelude::*;
use vstd::string::*;
use vstd::std_specs::iter::IteratorSpec;
use crate::text::{decimal, decimal_of, join2, join3};
use crate::registry::error::{DomainError, DomainErrorView};
use crate::registry::models::LifecycleStatus;
use crate::registry::query::ODataQuery;

verus! {

/// Whether `c` may stand in a slug.
pub open spec fn slug_char(c: char) -> bool {
    ('a' <= c && c <= 'z') || ('0' <= c && c <= '9') || c == '-'
}

/// Whether `slug` is a slug: one to 64 lower-case letters, digits and hyphens.
pub open spec fn valid_slug(slug: Seq<char>) -> bool {
    1 <= slug.len() <= 64 && forall|i: int| 0 <= i < slug.len() ==> slug_char(#[trigger] slug[i])
}

/// The error for a text that is no slug.
pub open spec fn slug_error(slug: Seq<char>) -> DomainErrorView {
    DomainErrorView::Validation {
        message: if slug.len() == 0 {
            "provider slug cannot be empty"@
        } else if slug.len() > 64 {
            "provider slug must be at most 64 characters"@
        } else {
            "provider slug must be lowercase alphanumeric with hyphens"@
        },
    }
}

/// Checks that `slug` is a slug. Its length is counted in characters.
pub fn validate_slug(slug: &str) -> (r: Result<(), DomainError>)
    ensures
        r is Ok <==> valid_slug(slug@),
        r matches Err(e) ==> e@ == slug_error(slug@),
{
    if slug.is_empty() {
        return Err(DomainError::validation("provider slug cannot be empty"));
    }
    if slug.unicode_len() > 64 {
        return Err(DomainError::validation("provider slug must be at most 64 characters"));
    }
    let mut chars = slug.chars();
    let ghost mut k: int = 0;
    loop
        invariant
            0 <= k <= slug@.len(),
            1 <= slug@.len() <= 64,
            chars.remaining() == slug@.subrange(k, slug@.len() as int),
            chars.obeys_prophetic_iter_laws(),
            forall|i: int| 0 <= i < k ==> slug_char(#[trigger] slug@[i]),
        decreases slug@.len() - k,
    {
        match chars.next() {
            None => {
                assert(k == slug@.len());
                return Ok(());
            },
            Some(c) => {
                assert(c == slug@[k]);
                let allowed = ('a' <= c && c <= 'z') || ('0' <= c && c <= '9') || c == '-';
                if !allowed {
                    return Err(
                        DomainError::validation(
                            "provider slug must be lowercase alphanumeric with hyphens",
                        ),
                    );
                }
                proof {
                    assert(slug@.subrange(k, slug@.len() as int).drop_first() =~= slug@.subrange(
                        k + 1,
                        slug@.len() as int,
                    ));
                    k = k + 1;
                }
            },
        }
    }
}

/// Checks that `name` has one to 255 characters, whatever their size in bytes.
pub fn validate_name(name: &str) -> (r: Result<(), DomainError>)
    ensures
        r is Ok <==> 1 <= name@.len() <= 255,
        r matches Err(e) ==> e@ == (DomainErrorView::Validation {
            message: if name@.len() == 0 {
                "provider name cannot be empty"@
            } else {
                "provider name must be at most 255 characters"@
            },
        }),
{
    if name.is_empty() {
        return Err(DomainError::validation("provider name cannot be empty"));
    }
    if name.unicode_len() > 255 {
        return Err(DomainError::validation("provider name must be at most 255 characters"));
    }
    Ok(())
}

/// The largest discovery interval, in seconds, that can be stored.
pub const MAX_DISCOVERY_INTERVAL: u32 = 2147483647;

/// Checks that a discovery interval can be stored as a signed 32-bit number.
pub fn validate_discovery_interval(interval: Option<u32>) -> (r: Result<(), DomainError>)
    ensures
        r is Ok <==> (interval matches Some(v) ==> v <= i32::MAX),
        r matches Err(e) ==> e@ == (DomainErrorView::Validation {
            message: "discovery_interval_seconds must not exceed 2147483647 (i32::MAX), got "@
                + decimal_of(interval->0 as nat),
        }),
{
    if let Some(v) = interval {
        if v > MAX_DISCOVERY_INTERVAL {
            return Err(
                DomainError::Validation {
                    message: join2(
                        "discovery_interval_seconds must not exceed 2147483647 (i32::MAX), got ",
                        decimal(v as u64).as_str(),
                    ),
                },
            );
        }
    }
    Ok(())
}

/// Checks that a model may go from one lifecycle status to another: every change
/// is allowed but one out of a terminal status.
pub fn validate_lifecycle_transition(from: LifecycleStatus, to: LifecycleStatus) -> (r: Result<
    (),
    DomainError,
>)
    ensures
        r is Ok <==> !from.terminal(),
        r matches Err(e) ==> e@ == (DomainErrorView::InvalidTransition {
            detail: "cannot transition from terminal status "@ + from.debug_name() + " to "@
                + to.debug_name(),
        }),
{
    if from.is_terminal() {
        let detail = join2(
            join3("cannot transition from terminal status ", from.name(), " to ").as_str(),
            to.name(),
        );
        return Err(DomainError::InvalidTransition { detail });
    }
    Ok(())
}

/// The error for a listing that asks for a projection.
pub open spec fn select_error() -> DomainErrorView {
    DomainErrorView::Validation {
        message:
            "$select is not supported by this endpoint; responses always carry every field"@,
    }
}

/// Refuses a listing that asks for a projection: listings return whole values.
pub fn reject_select(query: &ODataQuery) -> (r: Result<(), DomainError>)
    ensures
        r is Ok <==> query.select is None,
        r matches Err(e) ==> e@ == select_error(),
{
    if query.select.is_some() {
        return Err(
            DomainError::validation(
                "$select is not supported by this endpoint; responses always carry every field",
            ),
        );
    }
    Ok(())
}

/// Whether the first `::` of `id` stands at `k`.
pub open spec fn first_separator(id: Seq<char>, k: int) -> bool {
    &&& 0 <= k
    &&& k + 1 < id.len()
    &&& id[k] == ':' && id[k + 1] == ':'
    &&& forall|j: int| 0 <= j < k ==> !(id[j] == ':' && #[trigger] id[j + 1] == ':')
}

/// What stands before the first `::` of `id`, where there is one.
pub open spec fn slug_part(id: Seq<char>) -> Option<Seq<char>> {
    if exists|k: int| first_separator(id, k) {
        Some(id.subrange(0, choose|k: int| first_separator(id, k)))
    } else {
        None
    }
}

/// A text has one first separator at most.
proof fn lemma_slug_part(id: Seq<char>, k: int)
    requires
        first_separator(id, k),
    ensures
        slug_part(id) == Some(id.subrange(0, k)),
{
    let c = choose|k: int| first_separator(id, k);
    if c < k {
        assert(id[c + 1] == ':');
    } else if k < c {
        assert(id[k + 1] == ':');
    }
}

/// The provider slug that a canonical model id begins with: what stands before
/// its first `::`.
pub fn slug_of(canonical_id: &str) -> (r: Option<String>)
    ensures
        match r {
            Some(slug) => slug_part(canonical_id@) == Some(slug@),
            None => slug_part(canonical_id@) is None,
        },
{
    let n: usize = canonical_id.unicode_len();
    let mut chars = canonical_id.chars();
    let mut k: usize = 0;
    let mut after_colon = false;
    loop
        invariant
            k <= n,
            n == canonical_id@.len(),
            chars.remaining() == canonical_id@.subrange(k as int, n as int),
            chars.obeys_prophetic_iter_laws(),
            after_colon == (k > 0 && canonical_id@[k - 1] == ':'),
            forall|j: int|
                0 <= j < k - 1 ==> !(canonical_id@[j] == ':' && #[trigger] canonical_id@[j + 1]
                    == ':'),
        decreases n - k,
    {
        match chars.next() {
            None => {
                assert(k == n);
                return None;
            },
            Some(c) => {
                assert(k < n);
                assert(c == canonical_id@[k as int]);
                if c == ':' && after_colon {
                    let slug = canonical_id.substring_char(0, k - 1);
                    assert(first_separator(canonical_id@, k - 1)) by {
                        assert(canonical_id@[k - 1 + 1] == ':');
                    }
                    proof {
                        lemma_slug_part(canonical_id@, k - 1);
                    }
                    return Some(slug.to_owned());
                }
                assert(canonical_id@.subrange(k as int, n as int).drop_first()
                    =~= canonical_id@.subrange(k + 1, n as int));
                after_colon = c == ':';
                k += 1;
            },
        }
    }
}

/// A canonical id made of a provider's slug, `::` and the provider's own name for a
/// model leads back to that slug, whatever the name holds.
pub proof fn law_canonical_id_names_its_slug(slug: Seq<char>, name: Seq<char>)
    requires
        valid_slug(slug),
    ensures
        slug_part(slug + "::"@ + name) == Some(slug),
{
    reveal_strlit("::");
    let id = slug + "::"@ + name;
    let k = slug.len() as int;
    assert forall|j: int| 0 <= j < k implies !(id[j] == ':' && #[trigger] id[j + 1] == ':') by {
        assert(id[j] == slug[j]);
        assert(slug_char(slug[j]));
    }
    assert(first_separator(id, k));
    lemma_slug_part(id, k);
    assert(id.subrange(0, k) =~= slug);
}

} // verus!
