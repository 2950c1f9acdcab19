//! Building listing queries from fields and values, without writing filter text.
use vstd::prelude::*;
use vstd::string::*;
use vstd::std_specs::iter::IteratorSpec;
use crate::registry::odata::models::ModelFilterField;
use crate::registry::odata::providers::ProviderFilterField;
use crate::registry::odata::values::{ODataValue, ODataValueView};
use crate::registry::query::{ODataQuery, OrderKey};

verus! {

/// `text` with each of its quotes doubled.
pub open spec fn escaped(text: Seq<char>) -> Seq<char>
    decreases text.len(),
{
    if text.len() == 0 {
        text
    } else {
        let front = escaped(text.drop_last());
        if text.last() == '\'' {
            front + seq!['\'', '\'']
        } else {
            front.push(text.last())
        }
    }
}

/// A value in filter text.
pub open spec fn value_text(value: ODataValueView) -> Seq<char> {
    match value {
        ODataValueView::String(text) => "'"@ + escaped(text) + "'"@,
        ODataValueView::Bool(b) => if b {
            "true"@
        } else {
            "false"@
        },
    }
}

/// The condition that a field has a value, in filter text.
pub open spec fn term_text(field: Seq<char>, value: ODataValueView) -> Seq<char> {
    field + " eq "@ + value_text(value)
}

fn escape(text: &str) -> (r: String)
    ensures
        r@ == escaped(text@),
{
    let mut r = String::new();
    let mut chars = text.chars();
    let ghost mut k: int = 0;
    proof {
        reveal_strlit("''");
    }
    assert(text@.subrange(0, 0) =~= Seq::<char>::empty());
    let n: usize = text.unicode_len();
    let mut i: usize = 0;
    loop
        invariant
            i <= n,
            n == text@.len(),
            k == i,
            r@ == escaped(text@.subrange(0, k)),
            chars.remaining() == text@.subrange(k, text@.len() as int),
            chars.obeys_prophetic_iter_laws(),
            "''"@ == seq!['\'', '\''],
        decreases n - i,
    {
        match chars.next() {
            None => {
                assert(text@.subrange(0, k) =~= text@);
                return r;
            },
            Some(c) => {
                assert(c == text@[k]);
                assert(text@.subrange(0, k + 1).drop_last() =~= text@.subrange(0, k));
                assert(text@.subrange(0, k + 1).last() == c);
                if c == '\'' {
                    r.append("''");
                } else {
                    let one = text.substring_char(i, i + 1);
                    assert(one@ =~= seq![c]);
                    r.append(one);
                    assert(r@ =~= escaped(text@.subrange(0, k)).push(c));
                }
                assert(text@.subrange(k, text@.len() as int).drop_first() =~= text@.subrange(
                    k + 1,
                    text@.len() as int,
                ));
                proof {
                    k = k + 1;
                }
                i += 1;
            },
        }
    }
}

/// A condition on listed rows.
#[derive(Clone, Debug, PartialEq, Eq)]
pub struct Filter {
    text: String,
}

impl View for Filter {
    type V = Seq<char>;

    /// The condition in filter text.
    closed spec fn view(&self) -> Seq<char> {
        self.text@
    }
}

fn term(field: &str, value: ODataValue) -> (r: Filter)
    ensures
        r@ == term_text(field@, value@),
{
    let mut text = field.to_owned();
    text.append(" eq ");
    match value {
        ODataValue::String(s) => {
            text.append("'");
            text.append(escape(s.as_str()).as_str());
            text.append("'");
            assert(text@ =~= term_text(field@, value@));
        },
        ODataValue::Bool(b) => if b {
            text.append("true");
        } else {
            text.append("false");
        },
    }
    Filter { text }
}

impl Filter {
    /// The condition in filter text.
    pub fn into_text(self) -> (r: String)
        ensures
            r@ == self@,
    {
        self.text
    }

    /// The condition that both hold.
    pub fn and(self, other: Filter) -> (r: Filter)
        ensures
            r@ == self@ + " and "@ + other@,
    {
        let mut text = self.text;
        text.append(" and ");
        text.append(other.text.as_str());
        Filter { text }
    }
}

impl ModelFilterField {
    /// The condition that a model's field has the value.
    pub fn eq(self, value: ODataValue) -> (r: Filter)
        ensures
            r@ == term_text(self.spec_name(), value@),
    {
        term(self.name(), value)
    }
}

impl ProviderFilterField {
    /// The condition that a provider's field has the value.
    pub fn eq(self, value: ODataValue) -> (r: Filter)
        ensures
            r@ == term_text(self.spec_name(), value@),
    {
        term(self.name(), value)
    }
}

/// A listing query that is being put together.
#[derive(Clone, Debug, PartialEq, Eq)]
pub struct QueryBuilder {
    pub query: ODataQuery,
}

impl QueryBuilder {
    /// A query without any clause.
    pub fn new() -> (r: QueryBuilder)
        ensures
            r.query.filter is None,
            r.query.filter_hash is None,
            r.query.order@.len() == 0,
            r.query.limit is None,
            r.query.cursor is None,
            r.query.select is None,
    {
        QueryBuilder { query: ODataQuery::default() }
    }

    /// Keeps only the rows of which the condition holds.
    pub fn filter(self, filter: Filter) -> (r: QueryBuilder)
        ensures
            r.query.filter matches Some(text) && text@ == filter@,
            r.query == (ODataQuery { filter: r.query.filter, ..self.query }),
    {
        QueryBuilder { query: self.query.with_filter(filter.text) }
    }

    /// Orders the rows by a model's field, after the orders given before.
    pub fn order_by(self, field: ModelFilterField, descending: bool) -> (r: QueryBuilder)
        ensures
            r.query.order@.len() == self.query.order@.len() + 1,
            r.query.order@.drop_last() == self.query.order@,
            r.query.order@.last().field@ == field.spec_name(),
            r.query.order@.last().descending == descending,
            r.query == (ODataQuery { order: r.query.order, ..self.query }),
    {
        let mut query = self.query;
        let ghost before = query.order@;
        query.order.push(OrderKey { field: field.name().to_owned(), descending });
        assert(query.order@.drop_last() =~= before);
        QueryBuilder { query }
    }

    /// Bounds the rows of a page.
    pub fn page_size(self, limit: u64) -> (r: QueryBuilder)
        ensures
            r.query == (ODataQuery { limit: Some(limit), ..self.query }),
    {
        QueryBuilder { query: self.query.with_limit(limit) }
    }

    /// The finished query. Where it has a filter, it carries the filter's hash, which
    /// `hash` computes from the filter text.
    pub fn build<F: Fn(String) -> String>(self, hash: F) -> (r: ODataQuery)
        requires
            forall|text: String| hash.requires((text,)),
        ensures
            r == (ODataQuery { filter_hash: r.filter_hash, ..self.query }),
            match r.filter {
                Some(text) => r.filter_hash is Some && hash.ensures((text,), r.filter_hash->0),
                None => r.filter_hash is None,
            },
    {
        let filter_hash = match &self.query.filter {
            Some(text) => Some(hash(text.clone())),
            None => None,
        };
        ODataQuery { filter_hash, ..self.query }
    }
}

/// A text without quotes stands in a filter as it is.
pub proof fn law_plain_text_is_unescaped(text: Seq<char>)
    requires
        !text.contains('\''),
    ensures
        escaped(text) == text,
    decreases text.len(),
{
    if text.len() > 0 {
        let front = text.drop_last();
        assert forall|i: int| 0 <= i < front.len() implies front[i] != '\'' by {
            assert(front[i] == text[i]);
            assert(text.contains(text[i]));
        }
        law_plain_text_is_unescaped(front);
        assert(text.contains(text.last()));
        assert(front.push(text.last()) =~= text);
    }
}

} // verus!
