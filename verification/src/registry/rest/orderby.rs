//! The `$orderby` clause of a listing: fields, each with a direction, between commas.
use vstd::prelude::*;
use vstd::string::*;
use vstd::std_specs::iter::IteratorSpec;
use crate::text::{join3, lowered, same_ignoring_case};
use crate::registry::odata::models::ModelFilterField;
use crate::registry::odata::providers::ProviderFilterField;
use crate::registry::query::OrderKey;
use crate::registry::rest::problem::{CanonicalError, CanonicalErrorView};
use crate::registry::rest::routes::ListedFields;

verus! {

/// The parts of `text` between its separators. There is always one part more than
/// there are separators.
pub open spec fn parts(text: Seq<char>, separator: char) -> Seq<Seq<char>>
    decreases text.len(),
{
    if text.len() == 0 {
        seq![Seq::empty()]
    } else {
        let before = parts(text.drop_last(), separator);
        if text.last() == separator {
            before.push(Seq::empty())
        } else {
            before.drop_last().push(before.last().push(text.last()))
        }
    }
}

/// The parts that hold anything.
pub open spec fn filled(parts: Seq<Seq<char>>) -> Seq<Seq<char>>
    decreases parts.len(),
{
    if parts.len() == 0 {
        parts
    } else if parts.last().len() == 0 {
        filled(parts.drop_last())
    } else {
        filled(parts.drop_last()).push(parts.last())
    }
}

/// The words of `text`: what stands between its spaces.
pub open spec fn words(text: Seq<char>) -> Seq<Seq<char>> {
    filled(parts(text, ' '))
}

/// The models of texts.
pub open spec fn views(texts: Seq<String>) -> Seq<Seq<char>> {
    texts.map_values(|t: String| t@)
}

fn split(text: &str, separator: char) -> (r: Vec<String>)
    ensures
        views(r@) == parts(text@, separator),
{
    let n: usize = text.unicode_len();
    let mut chars = text.chars();
    let mut done: Vec<String> = Vec::new();
    let mut part = String::new();
    let mut i: usize = 0;
    proof {
        assert(text@.subrange(0, 0) =~= Seq::<char>::empty());
        assert(views(done@).push(part@) =~= parts(text@.subrange(0, 0), separator));
    }
    loop
        invariant
            i <= n,
            n == text@.len(),
            views(done@).push(part@) == parts(text@.subrange(0, i as int), separator),
            chars.remaining() == text@.subrange(i as int, n as int),
            chars.obeys_prophetic_iter_laws(),
        decreases n - i,
    {
        match chars.next() {
            None => {
                assert(text@.subrange(0, i as int) =~= text@);
                let ghost before = views(done@);
                let ghost last = part@;
                done.push(part);
                assert(views(done@) =~= before.push(last));
                return done;
            },
            Some(c) => {
                assert(c == text@[i as int]);
                let ghost here = text@.subrange(0, i as int);
                let ghost next = text@.subrange(0, i + 1);
                assert(next.drop_last() =~= here);
                assert(next.last() == c);
                let ghost before = views(done@);
                let ghost last = part@;
                assert(before.push(last).drop_last() =~= before);
                if c == separator {
                    done.push(part);
                    part = String::new();
                    assert(views(done@) =~= before.push(last));
                    assert(views(done@).push(part@) =~= parts(next, separator));
                } else {
                    let one = text.substring_char(i, i + 1);
                    assert(one@ =~= seq![c]);
                    part.append(one);
                    assert(part@ =~= last.push(c));
                    assert(views(done@).push(part@) =~= parts(next, separator));
                }
                assert(text@.subrange(i as int, n as int).drop_first() =~= text@.subrange(
                    i + 1,
                    n as int,
                ));
                i += 1;
            },
        }
    }
}

fn split_words(text: &str) -> (r: Vec<String>)
    ensures
        views(r@) == words(text@),
{
    let all = split(text, ' ');
    let mut r: Vec<String> = Vec::new();
    let mut i: usize = 0;
    while i < all.len()
        invariant
            i <= all.len(),
            views(r@) == filled(views(all@).subrange(0, i as int)),
        decreases all.len() - i,
    {
        let ghost next = views(all@).subrange(0, i + 1);
        assert(next.drop_last() =~= views(all@).subrange(0, i as int));
        assert(next.last() == all@[i as int]@);
        if !all[i].as_str().is_empty() {
            let ghost before = views(r@);
            r.push(all[i].clone());
            assert(views(r@) =~= before.push(all@[i as int]@));
        }
        i += 1;
    }
    assert(views(all@).subrange(0, i as int) =~= views(all@));
    r
}

/// Whether `name`, whatever the case of its letters, is the field `field` of a listing.
pub open spec fn names_field(fields: ListedFields, name: Seq<char>, field: Seq<char>) -> bool {
    match fields {
        ListedFields::Models => exists|f: ModelFilterField|
            lowered(name) == lowered(#[trigger] f.spec_name()) && field == f.spec_name(),
        ListedFields::Providers => exists|f: ProviderFilterField|
            lowered(name) == lowered(#[trigger] f.spec_name()) && field == f.spec_name(),
    }
}

fn field_named(fields: ListedFields, name: &str) -> (r: Option<&'static str>)
    ensures
        match r {
            Some(field) => names_field(fields, name@, field@),
            None => forall|field: Seq<char>| !names_field(fields, name@, field),
        },
{
    match fields {
        ListedFields::Models => match ModelFilterField::from_name(name) {
            Some(field) => Some(field.name()),
            None => None,
        },
        ListedFields::Providers => match ProviderFilterField::from_name(name) {
            Some(field) => Some(field.name()),
            None => None,
        },
    }
}

/// Whether `text` is read as `key`: a field of the listing by its name, and after it
/// `asc`, `desc` or nothing, which stands for `asc`.
pub open spec fn reads_key(fields: ListedFields, text: Seq<char>, key: OrderKey) -> bool {
    let w = words(text);
    &&& 1 <= w.len() <= 2
    &&& names_field(fields, w[0], key.field@)
    &&& w.len() == 1 ==> !key.descending
    &&& w.len() == 2 ==> lowered(w[1]) == lowered(
        if key.descending {
            "desc"@
        } else {
            "asc"@
        },
    )
}

/// Whether `text` is read as any key.
pub open spec fn readable(fields: ListedFields, text: Seq<char>) -> bool {
    let w = words(text);
    &&& 1 <= w.len() <= 2
    &&& exists|field: Seq<char>| names_field(fields, w[0], field)
    &&& w.len() == 2 ==> lowered(w[1]) == lowered("asc"@) || lowered(w[1]) == lowered("desc"@)
}

/// The problem of a part of an `$orderby` that names no field, or no direction.
pub open spec fn orderby_problem(text: Seq<char>) -> CanonicalErrorView {
    CanonicalErrorView::field(
        "$orderby"@,
        "cannot order by `"@ + text + "`: expected a filterable field, then `asc` or `desc`"@,
        "INVALID_ORDERBY"@,
    )
}

fn order_key(fields: ListedFields, text: &str) -> (r: Result<OrderKey, CanonicalError>)
    ensures
        match r {
            Ok(key) => reads_key(fields, text@, key),
            Err(e) => !readable(fields, text@) && e@ == orderby_problem(text@),
        },
{
    let w = split_words(text);
    let ghost v = words(text@);
    assert(v.len() == w@.len());
    if w.len() == 1 || w.len() == 2 {
        assert(v[0] == w@[0]@);
        if let Some(field) = field_named(fields, w[0].as_str()) {
            if w.len() == 1 {
                return Ok(OrderKey { field: field.to_owned(), descending: false });
            }
            assert(v[1] == w@[1]@);
            if same_ignoring_case(w[1].as_str(), "asc") {
                return Ok(OrderKey { field: field.to_owned(), descending: false });
            }
            if same_ignoring_case(w[1].as_str(), "desc") {
                return Ok(OrderKey { field: field.to_owned(), descending: true });
            }
        }
    }
    Err(
        CanonicalError::field_violation(
            "$orderby",
            join3(
                "cannot order by `",
                text,
                "`: expected a filterable field, then `asc` or `desc`",
            ),
            "INVALID_ORDERBY",
        ),
    )
}

/// Reads an `$orderby` clause. A field that the listing cannot be ordered by is
/// refused, and so is an unknown direction: the first such part is told.
pub fn parse_orderby(fields: ListedFields, text: &str) -> (r: Result<Vec<OrderKey>, CanonicalError>)
    ensures
        match r {
            Ok(keys) => keys@.len() == parts(text@, ',').len() && forall|i: int|
                0 <= i < keys@.len() ==> reads_key(
                    fields,
                    parts(text@, ',')[i],
                    #[trigger] keys@[i],
                ),
            Err(e) => exists|i: int|
                {
                    &&& 0 <= i < parts(text@, ',').len()
                    &&& !readable(fields, #[trigger] parts(text@, ',')[i])
                    &&& e@ == orderby_problem(parts(text@, ',')[i])
                    &&& forall|j: int|
                        0 <= j < i ==> readable(fields, #[trigger] parts(text@, ',')[j])
                },
        },
{
    let all = split(text, ',');
    let ghost ps = parts(text@, ',');
    let mut keys: Vec<OrderKey> = Vec::new();
    let mut i: usize = 0;
    while i < all.len()
        invariant
            i <= all.len(),
            ps == parts(text@, ','),
            views(all@) == ps,
            keys@.len() == i,
            forall|j: int| 0 <= j < i ==> reads_key(fields, ps[j], #[trigger] keys@[j]),
            forall|j: int| 0 <= j < i ==> readable(fields, #[trigger] ps[j]),
        decreases all.len() - i,
    {
        assert(ps[i as int] == all@[i as int]@);
        match order_key(fields, all[i].as_str()) {
            Ok(key) => {
                assert(readable(fields, ps[i as int]));
                keys.push(key);
            },
            Err(e) => {
                return Err(e);
            },
        }
        i += 1;
    }
    Ok(keys)
}

/// Whatever is read as a key names a field of the listing and, if anything, a
/// direction.
pub proof fn law_orderby_names_fields(fields: ListedFields, text: Seq<char>, key: OrderKey)
    ensures
        reads_key(fields, text, key) ==> readable(fields, text),
{
}

} // verus!
