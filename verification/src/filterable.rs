//! Filter predicate dispatch: what an optional filter value adds to the
//! WHERE clause of a query under construction.

use vstd::prelude::*;
use vstd::slice::axiom_spec_len;
use vstd::string::StringExecFns;
use crate::fragment::BoundValue;
use crate::fragment::can_bind_decimal;
use crate::fragment::decimal_fits;
use crate::fragment::FragmentView;
use crate::fragment::lemma_utf8_len_ascii;
use crate::fragment::lemma_utf8_len_concat;
use crate::fragment::MAX_PARAMETER_BYTES;
use crate::fragment::QueryFragment;
use crate::fragment::utf8_len;

verus! {

/// How a column is compared with the bound value.
pub enum Comparison {
    /// `LIKE`: the column matches the bound pattern.
    Like,
    /// `=`: the column equals the bound value.
    Equals,
}

/// One condition of a WHERE clause: a comparison and the value bound to it.
pub struct Condition {
    /// The comparison operator.
    pub comparison: Comparison,
    /// The value bound to the condition's placeholder.
    pub value: BoundValue,
}

/// The operator as it is written between the column and the placeholder.
pub open spec fn comparison_text(comparison: Comparison) -> Seq<char> {
    match comparison {
        Comparison::Like => " LIKE "@,
        Comparison::Equals => " = "@,
    }
}

/// The text of a condition up to its placeholder.
pub open spec fn condition_text(column: Seq<char>, comparison: Comparison) -> Seq<char> {
    " AND "@ + column + comparison_text(comparison)
}

/// The pattern that matches every text containing `value`: wildcards in
/// `value` are not escaped.
pub open spec fn contains_pattern(value: Seq<char>) -> Seq<char> {
    "%"@ + value + "%"@
}

/// The condition of a text filter: the column contains the value.
pub open spec fn contains_condition(value: Seq<char>) -> Condition {
    Condition { comparison: Comparison::Like, value: BoundValue::Text(contains_pattern(value)) }
}

/// The condition of an exact-match filter.
pub open spec fn equals_condition(value: BoundValue) -> Condition {
    Condition { comparison: Comparison::Equals, value }
}

/// The fragment after an optional condition on `column` was appended: an
/// absent condition leaves it as it was.
pub open spec fn with_condition(
    view: FragmentView,
    column: Seq<char>,
    condition: Option<Condition>,
) -> FragmentView {
    match condition {
        None => view,
        Some(c) => view.with_sql(condition_text(column, c.comparison)).with_parameter(c.value),
    }
}

/// Whether `value` fits a parameter of the wire protocol: a text within
/// the greatest parameter length, a decimal whose scale the driver can work
/// with and that the driver can encode.
pub open spec fn value_bindable(value: BoundValue) -> bool {
    match value {
        BoundValue::Text(text) => utf8_len(text) <= MAX_PARAMETER_BYTES,
        BoundValue::Decimal(decimal) => decimal_fits(decimal),
        _ => true,
    }
}

/// Whether the value of a condition, where there is one, fits a parameter.
pub open spec fn condition_bindable(condition: Option<Condition>) -> bool {
    match condition {
        Some(c) => value_bindable(c.value),
        None => true,
    }
}

/// The pattern of a text takes two bytes more than the text.
pub proof fn lemma_pattern_len(value: Seq<char>)
    ensures
        utf8_len(contains_pattern(value)) == utf8_len(value) + 2,
{
    reveal_strlit("%");
    lemma_utf8_len_ascii("%"@);
    lemma_utf8_len_concat("%"@, value);
    lemma_utf8_len_concat("%"@ + value, "%"@);
}

/// Appending a condition keeps placeholders and bound values in lockstep.
pub proof fn lemma_condition_keeps_lockstep(
    view: FragmentView,
    column: Seq<char>,
    condition: Option<Condition>,
)
    requires
        view.in_lockstep(),
    ensures
        with_condition(view, column, condition).in_lockstep(),
{
    match condition {
        None => {},
        Some(c) => {
            crate::fragment::lemma_sql_keeps_lockstep(view, condition_text(column, c.comparison));
            crate::fragment::lemma_parameter_keeps_lockstep(
                view.with_sql(condition_text(column, c.comparison)),
                c.value,
            );
        },
    }
}

/// Appends ` AND <column> LIKE ` to the text.
pub fn push_like_clause(builder: &mut QueryFragment, column: &str)
    requires
        old(builder)@.open,
    ensures
        final(builder)@ == old(builder)@.with_sql(condition_text(column@, Comparison::Like)),
        old(builder)@.in_lockstep() ==> final(builder)@.in_lockstep(),
{
    let clause = String::from_str(" AND ").concat(column).concat(" LIKE ");
    builder.push(clause.as_str());
}

/// Appends ` AND <column> = ` to the text.
pub fn push_equals_clause(builder: &mut QueryFragment, column: &str)
    requires
        old(builder)@.open,
    ensures
        final(builder)@ == old(builder)@.with_sql(condition_text(column@, Comparison::Equals)),
        old(builder)@.in_lockstep() ==> final(builder)@.in_lockstep(),
{
    let clause = String::from_str(" AND ").concat(column).concat(" = ");
    builder.push(clause.as_str());
}

/// Appends the condition that `column` contains `value`:
/// ` AND <column> LIKE ` and a placeholder bound to `%value%`.
pub fn push_contains_filter(builder: &mut QueryFragment, column: &str, value: &str)
    requires
        old(builder)@.open,
        condition_bindable(Some(contains_condition(value@))),
    ensures
        final(builder)@ == with_condition(
            old(builder)@,
            column@,
            Some(contains_condition(value@)),
        ),
        old(builder)@.in_lockstep() ==> final(builder)@.in_lockstep(),
{
    push_like_clause(builder, column);
    let pattern = String::from_str("%").concat(value).concat("%");
    builder.push_bind_text(pattern);
}

/// An optional filter value that knows how to constrain a column.
pub trait Filterable {
    /// The condition that the value stands for; none where it is absent.
    spec fn condition(&self) -> Option<Condition>;

    /// Appends the value's condition on `column` and binds its parameter.
    /// An absent value appends nothing and binds nothing. A present value
    /// has to fit a parameter of the wire protocol.
    fn append_filter(&self, builder: &mut QueryFragment, column: &str)
        requires
            old(builder)@.open,
            condition_bindable(self.condition()),
        ensures
            final(builder)@ == with_condition(old(builder)@, column@, self.condition()),
            old(builder)@.in_lockstep() ==> final(builder)@.in_lockstep(),
    ;
}

/// Text: a case-sensitive substring match.
impl Filterable for Option<String> {
    open spec fn condition(&self) -> Option<Condition> {
        match self {
            Some(value) => Some(contains_condition(value@)),
            None => None,
        }
    }


    fn append_filter(&self, builder: &mut QueryFragment, column: &str) {
        if let Some(value) = self {
            push_contains_filter(builder, column, value.as_str());
        }
    }
}

/// Integers: an exact match.
impl Filterable for Option<i32> {
    open spec fn condition(&self) -> Option<Condition> {
        match self {
            Some(value) => Some(equals_condition(BoundValue::Integer(*value as int))),
            None => None,
        }
    }


    fn append_filter(&self, builder: &mut QueryFragment, column: &str) {
        if let Some(value) = self {
            push_equals_clause(builder, column);
            builder.push_bind_i32(*value);
        }
    }
}

/// Booleans: an exact match.
impl Filterable for Option<bool> {
    open spec fn condition(&self) -> Option<Condition> {
        match self {
            Some(value) => Some(equals_condition(BoundValue::Boolean(*value))),
            None => None,
        }
    }


    fn append_filter(&self, builder: &mut QueryFragment, column: &str) {
        if let Some(value) = self {
            push_equals_clause(builder, column);
            builder.push_bind_bool(*value);
        }
    }
}

/// Fixed-point decimals: an exact match.
impl Filterable for Option<sqlx::types::BigDecimal> {
    open spec fn condition(&self) -> Option<Condition> {
        match self {
            Some(value) => Some(equals_condition(BoundValue::Decimal(*value))),
            None => None,
        }
    }


    fn append_filter(&self, builder: &mut QueryFragment, column: &str) {
        if let Some(value) = self {
            push_equals_clause(builder, column);
            builder.push_bind_decimal(value);
        }
    }
}

/// Whether a text filter can be appended: whether the pattern made of the
/// value, where there is one, fits a parameter.
pub fn text_filter_bindable(value: &Option<String>) -> (result: bool)
    ensures
        result == condition_bindable(value.condition()),
{
    match value {
        Some(text) => {
            let bytes = text.as_str().as_bytes();
            proof {
                lemma_pattern_len(text@);
                axiom_spec_len(bytes);
            }
            bytes.len() <= MAX_PARAMETER_BYTES - 2
        },
        None => true,
    }
}

/// Whether a decimal filter can be appended: whether the value, where
/// there is one, can be bound.
pub fn decimal_filter_bindable(value: &Option<sqlx::types::BigDecimal>) -> (result: bool)
    ensures
        result == condition_bindable(value.condition()),
{
    match value {
        Some(decimal) => can_bind_decimal(decimal),
        None => true,
    }
}

/// Appends a decimal filter where its value can be bound, and says whether
/// it could; otherwise the fragment is left as it was.
pub fn try_append_decimal_filter(
    value: &Option<sqlx::types::BigDecimal>,
    builder: &mut QueryFragment,
    column: &str,
) -> (appended: bool)
    requires
        old(builder)@.open,
    ensures
        appended == condition_bindable(value.condition()),
        appended ==> final(builder)@ == with_condition(old(builder)@, column@, value.condition()),
        !appended ==> final(builder)@ == old(builder)@,
        old(builder)@.in_lockstep() ==> final(builder)@.in_lockstep(),
{
    if decimal_filter_bindable(value) {
        value.append_filter(builder, column);
        true
    } else {
        false
    }
}

} // verus!
