//! Fields of listings, filter texts and orders.
use vstd::prelude::*;
use crate::registry::odata::builder::{escaped, Filter, QueryBuilder};
use crate::registry::odata::models::{
    law_model_fields_distinct, ModelFilterField, ModelSchema,
};
use crate::registry::odata::providers::{
    law_provider_fields_distinct, ProviderFilterField, ProviderSchema,
};
use crate::registry::odata::values::{ODataValue, ODataValueView};
use crate::registry::odata::FieldKind;
use crate::registry::query::{ODataQuery, OrderKey};
use crate::registry::laws::wire::tells_of;
use crate::registry::rest::orderby::{
    filled, names_field, parse_orderby, parts, readable, reads_key, words,
};
use crate::registry::rest::problem::CanonicalError;
use crate::registry::rest::routes::ListedFields;
use crate::text::{lemma_lowered, lowered, same_letter};

verus! {

/// Whether two texts are the same but for the case of ASCII letters.
pub open spec fn same_word(a: Seq<char>, b: Seq<char>) -> bool {
    a.len() == b.len() && forall|i: int| 0 <= i < a.len() ==> same_letter(#[trigger] a[i], b[i])
}

/// The name of a model field.
pub open spec fn model_field_word(field: ModelFilterField) -> Seq<char> {
    match field {
        ModelFilterField::CanonicalId => "canonical_id"@,
        ModelFilterField::LifecycleStatus => "lifecycle_status"@,
        ModelFilterField::ApprovalStatus => "approval_status"@,
        ModelFilterField::GtsType => "gts_type"@,
        ModelFilterField::SupportedApi => "supported_api"@,
        ModelFilterField::ProviderModelId => "provider_model_id"@,
        ModelFilterField::Vendor => "vendor"@,
        ModelFilterField::Family => "family"@,
        ModelFilterField::Managed => "managed"@,
        ModelFilterField::Architecture => "architecture"@,
        ModelFilterField::Format => "format"@,
        ModelFilterField::Vision => "vision"@,
        ModelFilterField::FunctionCalling => "function_calling"@,
        ModelFilterField::Streaming => "streaming"@,
        ModelFilterField::ReasoningEffort => "reasoning_effort"@,
    }
}

/// A model field goes by its name, in either place, and holds a truth value or a text.
pub proof fn law_model_field_names(
    field: ModelFilterField,
    name: &'static str,
    schema_name: &'static str,
    kind: FieldKind,
)
    requires
        call_ensures(ModelFilterField::name, (field,), name),
        call_ensures(ModelSchema::field_name, (field,), schema_name),
        call_ensures(ModelFilterField::kind, (field,), kind),
    ensures
        name@ == model_field_word(field),
        schema_name@ == model_field_word(field),
        kind is Bool <==> field is Managed || field is Vision || field is FunctionCalling || field is Streaming || field is ReasoningEffort,
{
}

/// A model field is found by its name in any case, and by no other text.
pub proof fn law_model_field_found(raw: &str, field: ModelFilterField, r: Option<ModelFilterField>)
    requires
        call_ensures(ModelFilterField::from_name, (raw,), r),
    ensures
        r == Some(field) <==> same_word(raw@, model_field_word(field)),
{
    lemma_lowered(raw@, model_field_word(field));
    assert(field.spec_name() == model_field_word(field));
    if let Some(found) = r {
        lemma_lowered(raw@, found.spec_name());
        if same_word(raw@, model_field_word(field)) {
            law_model_fields_distinct(found, field);
        }
    }
}

/// The name of a provider field.
pub open spec fn provider_field_word(field: ProviderFilterField) -> Seq<char> {
    match field {
        ProviderFilterField::Slug => "slug"@,
        ProviderFilterField::Name => "name"@,
        ProviderFilterField::Status => "status"@,
        ProviderFilterField::GtsType => "gts_type"@,
        ProviderFilterField::Managed => "managed"@,
        ProviderFilterField::DiscoveryEnabled => "discovery_enabled"@,
    }
}

/// A provider field goes by its name, in either place, and holds a truth value or a text.
pub proof fn law_provider_field_names(
    field: ProviderFilterField,
    name: &'static str,
    schema_name: &'static str,
    kind: FieldKind,
)
    requires
        call_ensures(ProviderFilterField::name, (field,), name),
        call_ensures(ProviderSchema::field_name, (field,), schema_name),
        call_ensures(ProviderFilterField::kind, (field,), kind),
    ensures
        name@ == provider_field_word(field),
        schema_name@ == provider_field_word(field),
        kind is Bool <==> field is Managed || field is DiscoveryEnabled,
{
}

/// A provider field is found by its name in any case, and by no other text.
pub proof fn law_provider_field_found(raw: &str, field: ProviderFilterField, r: Option<ProviderFilterField>)
    requires
        call_ensures(ProviderFilterField::from_name, (raw,), r),
    ensures
        r == Some(field) <==> same_word(raw@, provider_field_word(field)),
{
    lemma_lowered(raw@, provider_field_word(field));
    assert(field.spec_name() == provider_field_word(field));
    if let Some(found) = r {
        lemma_lowered(raw@, found.spec_name());
        if same_word(raw@, provider_field_word(field)) {
            law_provider_fields_distinct(found, field);
        }
    }
}

/// A text without the doubling of its quotes: of every two quotes in a row, one is left.
pub open spec fn unescaped(text: Seq<char>) -> Seq<char>
    decreases text.len(),
{
    if text.len() == 0 {
        text
    } else if text.len() >= 2 && text.last() == '\'' && text[text.len() - 2] == '\'' {
        unescaped(text.subrange(0, text.len() - 2)).push('\'')
    } else {
        unescaped(text.drop_last()).push(text.last())
    }
}

/// How many quotes a text holds.
pub open spec fn quotes(text: Seq<char>) -> nat
    decreases text.len(),
{
    if text.len() == 0 {
        0
    } else {
        quotes(text.drop_last()) + if text.last() == '\'' {
            1nat
        } else {
            0nat
        }
    }
}

/// Reading an escaped text back gives the text, so that no text in a filter can be taken
/// for another, and each quote costs one more.
pub proof fn law_escaping_reads_back(text: Seq<char>)
    ensures
        unescaped(escaped(text)) == text,
        escaped(text).len() == text.len() + quotes(text),
    decreases text.len(),
{
    if text.len() > 0 {
        let front = escaped(text.drop_last());
        law_escaping_reads_back(text.drop_last());
        let all = escaped(text);
        if text.last() == '\'' {
            assert(all =~= front.push('\'').push('\''));
            assert(all.subrange(0, all.len() - 2) =~= front);
            assert(unescaped(all) =~= unescaped(front).push('\''));
        } else {
            assert(all.drop_last() =~= front);
            assert(unescaped(all) =~= unescaped(front).push(text.last()));
        }
        assert(text =~= text.drop_last().push(text.last()));
    } else {
        assert(escaped(text).len() == 0);
    }
}

/// Whether `written` is the text of a value in a filter: a text between quotes, with its
/// own quotes doubled, and a truth value by its word.
pub open spec fn writes_value(written: Seq<char>, value: ODataValueView) -> bool {
    match value {
        ODataValueView::String(text) => {
            &&& written.len() == text.len() + quotes(text) + 2
            &&& written[0] == '\''
            &&& written.last() == '\''
            &&& unescaped(written.subrange(1, written.len() - 1)) == text
        },
        ODataValueView::Bool(b) => written == if b {
            "true"@
        } else {
            "false"@
        },
    }
}

/// Whether `text` says that the field named `field` has the value.
pub open spec fn says_equal(text: Seq<char>, field: Seq<char>, value: ODataValueView) -> bool {
    let eq = field + " eq "@;
    &&& text.len() >= eq.len()
    &&& text.subrange(0, eq.len() as int) == eq
    &&& writes_value(text.subrange(eq.len() as int, text.len() as int), value)
}

/// A condition says what it is made of.
pub proof fn lemma_term(field: Seq<char>, value: ODataValueView)
    ensures
        says_equal(crate::registry::odata::builder::term_text(field, value), field, value),
{
    let eq = field + " eq "@;
    let text = crate::registry::odata::builder::term_text(field, value);
    let written = crate::registry::odata::builder::value_text(value);
    assert(text.subrange(0, eq.len() as int) =~= eq);
    assert(text.subrange(eq.len() as int, text.len() as int) =~= written);
    if let ODataValueView::String(inner) = value {
        reveal_strlit("'");
        law_escaping_reads_back(inner);
        assert(written.subrange(1, written.len() - 1) =~= escaped(inner));
    }
}

/// A condition names its field, and its value so that it can be read back.
pub proof fn law_conditions(
    model_field: ModelFilterField,
    provider_field: ProviderFilterField,
    value: ODataValue,
    on_model: Filter,
    on_provider: Filter,
)
    requires
        call_ensures(ModelFilterField::eq, (model_field, value), on_model),
        call_ensures(ProviderFilterField::eq, (provider_field, value), on_provider),
    ensures
        says_equal(on_model@, model_field_word(model_field), value@),
        says_equal(on_provider@, provider_field_word(provider_field), value@),
{
    lemma_term(model_field_word(model_field), value@);
    lemma_term(provider_field_word(provider_field), value@);
}

/// Two conditions stand in their order with `and` between them, and come out as text.
pub proof fn law_conditions_together(a: Filter, b: Filter, both: Filter, text: String)
    requires
        call_ensures(Filter::and, (a, b), both),
        call_ensures(Filter::into_text, (both,), text),
    ensures
        text@ == a@ + " and "@ + b@,
{
}

/// Each step of building a query sets its own clause and leaves the others alone. An
/// order comes after those given before.
pub proof fn law_queries_built(
    before: QueryBuilder,
    condition: Filter,
    field: ModelFilterField,
    descending: bool,
    limit: u64,
    filtered: QueryBuilder,
    ordered: QueryBuilder,
    limited: QueryBuilder,
)
    requires
        call_ensures(QueryBuilder::filter, (before, condition), filtered),
        call_ensures(QueryBuilder::order_by, (before, field, descending), ordered),
        call_ensures(QueryBuilder::page_size, (before, limit), limited),
    ensures
        filtered.query.filter is Some && filtered.query.filter->0@ == condition@,
        filtered.query.order == before.query.order,
        filtered.query.limit == before.query.limit,
        filtered.query.cursor == before.query.cursor,
        filtered.query.select == before.query.select,
        ordered.query.filter == before.query.filter,
        ordered.query.limit == before.query.limit,
        ordered.query.cursor == before.query.cursor,
        ordered.query.select == before.query.select,
        ordered.query.order@.len() == before.query.order@.len() + 1,
        forall|i: int|
            0 <= i < before.query.order@.len() ==> #[trigger] ordered.query.order@[i]
                == before.query.order@[i],
        ordered.query.order@.last().field@ == model_field_word(field),
        ordered.query.order@.last().descending == descending,
        limited.query.limit == Some(limit),
        limited.query.filter == before.query.filter,
        limited.query.order == before.query.order,
        limited.query.cursor == before.query.cursor,
        limited.query.select == before.query.select,
{
    assert forall|i: int| 0 <= i < before.query.order@.len() implies
        #[trigger] ordered.query.order@[i] == before.query.order@[i] by {
        assert(ordered.query.order@.drop_last()[i] == before.query.order@[i]);
    }
}

/// A query carries a hash exactly where it has a filter, and the filter's own. All else
/// is as it was put together.
pub proof fn law_queries_finished<F: Fn(String) -> String>(
    built: QueryBuilder,
    hash: F,
    r: ODataQuery,
)
    requires
        call_ensures(QueryBuilder::build::<F>, (built, hash), r),
    ensures
        r.filter == built.query.filter,
        r.order == built.query.order,
        r.limit == built.query.limit,
        r.cursor == built.query.cursor,
        r.select == built.query.select,
        r.filter_hash is Some <==> r.filter is Some,
        r.filter matches Some(text) ==> hash.ensures((text,), r.filter_hash->0),
{
}

/// Texts in a row with a separator between each two.
pub open spec fn joined(texts: Seq<Seq<char>>, separator: char) -> Seq<char>
    decreases texts.len(),
{
    if texts.len() == 0 {
        Seq::empty()
    } else if texts.len() == 1 {
        texts[0]
    } else {
        joined(texts.drop_last(), separator).push(separator) + texts.last()
    }
}

/// The parts of a text, joined again, give the text, and no part holds a separator.
pub proof fn law_parts_join_again(text: Seq<char>, separator: char)
    ensures
        parts(text, separator).len() >= 1,
        joined(parts(text, separator), separator) == text,
        forall|i: int|
            0 <= i < parts(text, separator).len() ==> !(#[trigger] parts(text, separator)[i]).contains(
                separator,
            ),
    decreases text.len(),
{
    let all = parts(text, separator);
    if text.len() == 0 {
        assert(all =~= seq![Seq::<char>::empty()]);
        assert(text =~= Seq::<char>::empty());
    } else {
        let before = parts(text.drop_last(), separator);
        law_parts_join_again(text.drop_last(), separator);
        assert(text =~= text.drop_last().push(text.last()));
        if text.last() == separator {
            assert(all.drop_last() =~= before);
            assert(joined(all, separator) =~= text);
            assert forall|i: int| 0 <= i < all.len() implies !(#[trigger] all[i]).contains(
                separator,
            ) by {
                if i < before.len() {
                    assert(all[i] == before[i]);
                }
            }
        } else {
            assert(all.drop_last() =~= before.drop_last());
            assert(all.last() == before.last().push(text.last()));
            if all.len() == 1 {
                assert(joined(before, separator) == before[0]);
                assert(joined(all, separator) =~= text);
            } else {
                assert(joined(all, separator) =~= joined(before, separator).push(text.last()));
            }
            assert forall|i: int| 0 <= i < all.len() implies !(#[trigger] all[i]).contains(
                separator,
            ) by {
                if i < all.len() - 1 {
                    assert(all[i] == before[i]);
                } else {
                    let last = before.last();
                    assert(!before[before.len() - 1].contains(separator));
                    if all[i].contains(separator) {
                        let k = choose|k: int| 0 <= k < all[i].len() && all[i][k] == separator;
                        if k < last.len() {
                            assert(last[k] == separator);
                        }
                    }
                }
            }
        }
    }
}

/// Whether `pieces` are what stands between the separators of `text`.
pub open spec fn are_between(pieces: Seq<Seq<char>>, text: Seq<char>, separator: char) -> bool {
    &&& pieces.len() >= 1
    &&& joined(pieces, separator) == text
    &&& forall|i: int| 0 <= i < pieces.len() ==> !(#[trigger] pieces[i]).contains(separator)
}

/// Whether `found` are the words of `text`: what stands between its spaces, but for what
/// is empty, in its order.
pub open spec fn are_words(found: Seq<Seq<char>>, text: Seq<char>) -> bool {
    exists|pieces: Seq<Seq<char>>| #[trigger]
        are_between(pieces, text, ' ') && found == pieces.filter(|w: Seq<char>| w.len() > 0)
}

proof fn lemma_filled(pieces: Seq<Seq<char>>)
    ensures
        filled(pieces) == pieces.filter(|w: Seq<char>| w.len() > 0),
    decreases pieces.len(),
{
    reveal(Seq::filter);
    if pieces.len() > 0 {
        lemma_filled(pieces.drop_last());
    }
}

proof fn lemma_words(text: Seq<char>)
    ensures
        are_words(words(text), text),
{
    law_parts_join_again(text, ' ');
    lemma_filled(parts(text, ' '));
    assert(are_between(parts(text, ' '), text, ' '));
}

/// Whether a word is the name, in any case, of the field called `field` in a listing.
pub open spec fn calls_field(fields: ListedFields, word: Seq<char>, field: Seq<char>) -> bool {
    match fields {
        ListedFields::Models => exists|f: ModelFilterField|
            same_word(word, #[trigger] model_field_word(f)) && field == model_field_word(f),
        ListedFields::Providers => exists|f: ProviderFilterField|
            same_word(word, #[trigger] provider_field_word(f)) && field == provider_field_word(f),
    }
}

/// Whether words stand for a key: the name of a field, and after it, if anything, `asc`
/// or `desc`, in any case. Without it the order ascends.
pub open spec fn stand_for(fields: ListedFields, found: Seq<Seq<char>>, key: OrderKey) -> bool {
    &&& found.len() == 1 || found.len() == 2
    &&& calls_field(fields, found[0], key.field@)
    &&& found.len() == 1 ==> !key.descending
    &&& found.len() == 2 && key.descending ==> same_word(found[1], "desc"@)
    &&& found.len() == 2 && !key.descending ==> same_word(found[1], "asc"@)
}

/// Whether words stand for no key at all.
pub open spec fn stand_for_nothing(fields: ListedFields, found: Seq<Seq<char>>) -> bool {
    ||| found.len() == 0
    ||| found.len() > 2
    ||| forall|field: Seq<char>| !#[trigger] calls_field(fields, found[0], field)
    ||| found.len() == 2 && !same_word(found[1], "asc"@) && !same_word(found[1], "desc"@)
}

proof fn lemma_calls_field(fields: ListedFields, word: Seq<char>, field: Seq<char>)
    ensures
        names_field(fields, word, field) <==> calls_field(fields, word, field),
{
    match fields {
        ListedFields::Models => {
            assert forall|f: ModelFilterField|
                lowered(word) == lowered(#[trigger] f.spec_name()) <==> same_word(
                    word,
                    model_field_word(f),
                ) by {
                lemma_lowered(word, f.spec_name());
            }
            if names_field(fields, word, field) {
                let f = choose|f: ModelFilterField|
                    lowered(word) == lowered(#[trigger] f.spec_name()) && field == f.spec_name();
                assert(same_word(word, model_field_word(f)));
            }
            if calls_field(fields, word, field) {
                let f = choose|f: ModelFilterField|
                    same_word(word, #[trigger] model_field_word(f)) && field == model_field_word(f);
                assert(lowered(word) == lowered(f.spec_name()));
            }
        },
        ListedFields::Providers => {
            assert forall|f: ProviderFilterField|
                lowered(word) == lowered(#[trigger] f.spec_name()) <==> same_word(
                    word,
                    provider_field_word(f),
                ) by {
                lemma_lowered(word, f.spec_name());
            }
            if names_field(fields, word, field) {
                let f = choose|f: ProviderFilterField|
                    lowered(word) == lowered(#[trigger] f.spec_name()) && field == f.spec_name();
                assert(same_word(word, provider_field_word(f)));
            }
            if calls_field(fields, word, field) {
                let f = choose|f: ProviderFilterField|
                    same_word(word, #[trigger] provider_field_word(f)) && field
                        == provider_field_word(f);
                assert(lowered(word) == lowered(f.spec_name()));
            }
        },
    }
}

/// Whether a part of a clause is read as a key.
pub open spec fn part_gives(fields: ListedFields, part: Seq<char>, key: OrderKey) -> bool {
    exists|found: Seq<Seq<char>>| #[trigger] are_words(found, part) && stand_for(fields, found, key)
}

/// Whether a part of a clause cannot be read.
pub open spec fn part_gives_nothing(fields: ListedFields, part: Seq<char>) -> bool {
    exists|found: Seq<Seq<char>>| #[trigger]
        are_words(found, part) && stand_for_nothing(fields, found)
}

proof fn lemma_part(fields: ListedFields, part: Seq<char>)
    ensures
        forall|key: OrderKey| #[trigger]
            reads_key(fields, part, key) ==> part_gives(fields, part, key),
        !readable(fields, part) ==> part_gives_nothing(fields, part),
{
    let w = words(part);
    lemma_words(part);
    if w.len() == 2 {
        lemma_lowered(w[1], "asc"@);
        lemma_lowered(w[1], "desc"@);
    }
    assert forall|key: OrderKey| #[trigger] reads_key(fields, part, key) implies part_gives(
        fields,
        part,
        key,
    ) by {
        lemma_calls_field(fields, w[0], key.field@);
        assert(stand_for(fields, w, key));
    }
    if !readable(fields, part) {
        if 1 <= w.len() <= 2 {
            assert forall|field: Seq<char>|
                names_field(fields, w[0], field) <==> #[trigger] calls_field(
                    fields,
                    w[0],
                    field,
                ) by {
                lemma_calls_field(fields, w[0], field);
            }
        }
        assert(stand_for_nothing(fields, w));
    }
}

/// A clause of an order gives one key for each part between its commas, in their order:
/// the field that the part names and the direction that it says. Where a part cannot be
/// read, the clause is refused, and the part is told.
pub proof fn law_orders_read(
    fields: ListedFields,
    text: &str,
    r: Result<Vec<OrderKey>, CanonicalError>,
)
    requires
        call_ensures(parse_orderby, (fields, text), r),
    ensures
        exists|pieces: Seq<Seq<char>>|
            {
                &&& #[trigger] are_between(pieces, text@, ',')
                &&& r matches Ok(keys) ==> keys@.len() == pieces.len() && forall|i: int|
                    0 <= i < pieces.len() ==> part_gives(fields, pieces[i], #[trigger] keys@[i])
                &&& r matches Err(e) ==> exists|i: int|
                    0 <= i < pieces.len() && part_gives_nothing(fields, #[trigger] pieces[i])
                        && tells_of(
                        e,
                        "$orderby"@,
                        "cannot order by `"@ + pieces[i]
                            + "`: expected a filterable field, then `asc` or `desc`"@,
                        "INVALID_ORDERBY"@,
                    )
            },
{
    let pieces = parts(text@, ',');
    law_parts_join_again(text@, ',');
    assert(are_between(pieces, text@, ','));
    match r {
        Ok(keys) => {
            assert forall|i: int| 0 <= i < pieces.len() implies part_gives(
                fields,
                pieces[i],
                #[trigger] keys@[i],
            ) by {
                lemma_part(fields, pieces[i]);
                assert(reads_key(fields, pieces[i], keys@[i]));
            }
        },
        Err(e) => {
            let i = choose|i: int|
                {
                    &&& 0 <= i < parts(text@, ',').len()
                    &&& !readable(fields, #[trigger] parts(text@, ',')[i])
                    &&& e@ == crate::registry::rest::orderby::orderby_problem(
                        parts(text@, ',')[i],
                    )
                    &&& forall|j: int|
                        0 <= j < i ==> readable(fields, #[trigger] parts(text@, ',')[j])
                };
            lemma_part(fields, pieces[i]);
        },
    }
}

} // verus!
