//! The query under construction: SQL text and its bound parameters, kept in
//! lockstep by the database driver's own builder.

use vstd::prelude::*;
use vstd::utf8::encode_utf8;
use vstd::utf8::is_ascii_chars;
use vstd::utf8::is_ascii_chars_encode_utf8;
use crate::text::placeholder_text;

verus! {

/// A value bound to a positional parameter, as the contracts see it.
pub enum BoundValue {
    /// A text parameter.
    Text(Seq<char>),
    /// A 32-bit integer parameter.
    Integer(int),
    /// A 64-bit integer parameter.
    BigInt(int),
    /// A boolean parameter.
    Boolean(bool),
    /// A fixed-point decimal parameter.
    Decimal(sqlx::types::BigDecimal),
}

#[verifier::external_type_specification]
#[verifier::external_body]
pub struct ExBigDecimal(sqlx::types::BigDecimal);

/// SQL text together with the positionally ordered values bound to its
/// placeholders. The driver's builder holds both; `builder` is handed to the
/// driver when the query is executed.
#[verifier::external_body]
pub struct QueryFragment {
    pub builder: sqlx::QueryBuilder<'static, sqlx::Postgres>,
}

/// The SQL text that the fragment has accumulated.
pub uninterp spec fn fragment_sql(fragment: QueryFragment) -> Seq<char>;

/// The values bound so far, in binding order: entry `i` belongs to
/// placeholder `i + 1`.
pub uninterp spec fn fragment_binds(fragment: QueryFragment) -> Seq<BoundValue>;

/// Whether the fragment still accepts text and parameters, that is, whether
/// its bound values have not yet been taken to execute it.
pub uninterp spec fn fragment_open(fragment: QueryFragment) -> bool;

/// Whether the driver can encode `value` as a NUMERIC parameter.
pub uninterp spec fn decimal_bindable(value: sqlx::types::BigDecimal) -> bool;

/// The scale of `value`: the number of its digits behind the decimal point,
/// negative where the value is a multiple of a power of ten.
pub uninterp spec fn decimal_scale(value: sqlx::types::BigDecimal) -> int;

/// The least scale of a decimal that may be handed to the driver: below it
/// the driver's arithmetic on the scale leaves the 64-bit range.
pub const MIN_DECIMAL_SCALE: i64 = -0x4000_0000_0000_0000;

/// Whether `value` can be bound: its scale is one that the driver can work
/// with, and the driver can encode it.
pub open spec fn decimal_fits(value: sqlx::types::BigDecimal) -> bool {
    decimal_scale(value) >= MIN_DECIMAL_SCALE && decimal_bindable(value)
}

/// The greatest number of bytes the wire protocol allows for one parameter.
pub const MAX_PARAMETER_BYTES: usize = 0x7fff_ffff;

/// `sqlx::QueryBuilder::new`: the builder starts with `init` as its text,
/// with no bound value, and ready for more.
#[verifier::external_body]
pub(crate) fn builder_new(init: &str) -> (fragment: QueryFragment)
    ensures
        fragment_sql(fragment) == init@,
        fragment_binds(fragment) == Seq::<BoundValue>::empty(),
        fragment_open(fragment),
{
    QueryFragment { builder: sqlx::QueryBuilder::new(init) }
}

/// `sqlx::QueryBuilder::push`: appends `sql` to the text and leaves the bound
/// values alone. It panics on a builder whose values were taken.
#[verifier::external_body]
pub(crate) fn builder_push(fragment: &mut QueryFragment, sql: &str)
    requires
        fragment_open(*old(fragment)),
    ensures
        fragment_sql(*final(fragment)) == fragment_sql(*old(fragment)) + sql@,
        fragment_binds(*final(fragment)) == fragment_binds(*old(fragment)),
        fragment_open(*final(fragment)),
{
    fragment.builder.push(sql);
}

/// `sqlx::QueryBuilder::push_bind` with a `String`: binds the text as the next
/// parameter and appends that parameter's placeholder, `$` and its 1-based
/// number, to the text. It panics on a builder whose values were taken and on
/// a text of more bytes than the protocol's 32-bit length can hold.
#[verifier::external_body]
pub(crate) fn builder_push_bind_text(fragment: &mut QueryFragment, value: String)
    requires
        fragment_open(*old(fragment)),
        encode_utf8(value@).len() <= MAX_PARAMETER_BYTES,
    ensures
        fragment_sql(*final(fragment)) == fragment_sql(*old(fragment)) + placeholder_text(
            fragment_binds(*old(fragment)).len() + 1,
        ),
        fragment_binds(*final(fragment)) == fragment_binds(*old(fragment)).push(
            BoundValue::Text(value@),
        ),
        fragment_open(*final(fragment)),
{
    fragment.builder.push_bind(value);
}

/// `sqlx::QueryBuilder::push_bind` with an `i32`: binds the integer as the
/// next parameter and appends its placeholder. It panics on a builder whose
/// values were taken.
#[verifier::external_body]
pub(crate) fn builder_push_bind_i32(fragment: &mut QueryFragment, value: i32)
    requires
        fragment_open(*old(fragment)),
    ensures
        fragment_sql(*final(fragment)) == fragment_sql(*old(fragment)) + placeholder_text(
            fragment_binds(*old(fragment)).len() + 1,
        ),
        fragment_binds(*final(fragment)) == fragment_binds(*old(fragment)).push(
            BoundValue::Integer(value as int),
        ),
        fragment_open(*final(fragment)),
{
    fragment.builder.push_bind(value);
}

/// `sqlx::QueryBuilder::push_bind` with an `i64`: binds the integer as the
/// next parameter and appends its placeholder. It panics on a builder whose
/// values were taken.
#[verifier::external_body]
pub(crate) fn builder_push_bind_i64(fragment: &mut QueryFragment, value: i64)
    requires
        fragment_open(*old(fragment)),
    ensures
        fragment_sql(*final(fragment)) == fragment_sql(*old(fragment)) + placeholder_text(
            fragment_binds(*old(fragment)).len() + 1,
        ),
        fragment_binds(*final(fragment)) == fragment_binds(*old(fragment)).push(
            BoundValue::BigInt(value as int),
        ),
        fragment_open(*final(fragment)),
{
    fragment.builder.push_bind(value);
}

/// `sqlx::QueryBuilder::push_bind` with a `bool`: binds the flag as the next
/// parameter and appends its placeholder. It panics on a builder whose values
/// were taken.
#[verifier::external_body]
pub(crate) fn builder_push_bind_bool(fragment: &mut QueryFragment, value: bool)
    requires
        fragment_open(*old(fragment)),
    ensures
        fragment_sql(*final(fragment)) == fragment_sql(*old(fragment)) + placeholder_text(
            fragment_binds(*old(fragment)).len() + 1,
        ),
        fragment_binds(*final(fragment)) == fragment_binds(*old(fragment)).push(
            BoundValue::Boolean(value),
        ),
        fragment_open(*final(fragment)),
{
    fragment.builder.push_bind(value);
}

/// `bigdecimal::BigDecimal::fractional_digit_count`: the scale that the
/// decimal holds.
#[verifier::external_body]
pub(crate) fn decimal_scale_of(value: &sqlx::types::BigDecimal) -> (scale: i64)
    ensures
        scale == decimal_scale(*value),
{
    value.fractional_digit_count()
}

/// `sqlx::Arguments::add` on an empty `PgArguments`, with a copy of `value`:
/// whether the driver accepts the decimal as a parameter. `push_bind` makes
/// the same call and panics where it fails. The encoder subtracts the scale
/// from the number of digits in 64-bit arithmetic, which overflows for a
/// scale near the least 64-bit integer: such scales are left out.
#[verifier::external_body]
pub(crate) fn arguments_accept_decimal(value: &sqlx::types::BigDecimal) -> (accepted: bool)
    requires
        decimal_scale(*value) >= MIN_DECIMAL_SCALE,
    ensures
        accepted == decimal_bindable(*value),
{
    let mut arguments = sqlx::postgres::PgArguments::default();
    sqlx::Arguments::add(&mut arguments, value.clone()).is_ok()
}

/// `sqlx::QueryBuilder::push_bind` with a copy of a `BigDecimal`: binds the
/// decimal as the next parameter and appends its placeholder. It panics on a
/// builder whose values were taken, on a decimal that the driver cannot
/// encode, and where the encoder's arithmetic on the scale overflows.
#[verifier::external_body]
pub(crate) fn builder_push_bind_decimal(
    fragment: &mut QueryFragment,
    value: &sqlx::types::BigDecimal,
)
    requires
        fragment_open(*old(fragment)),
        decimal_scale(*value) >= MIN_DECIMAL_SCALE,
        decimal_bindable(*value),
    ensures
        fragment_sql(*final(fragment)) == fragment_sql(*old(fragment)) + placeholder_text(
            fragment_binds(*old(fragment)).len() + 1,
        ),
        fragment_binds(*final(fragment)) == fragment_binds(*old(fragment)).push(
            BoundValue::Decimal(*value),
        ),
        fragment_open(*final(fragment)),
{
    fragment.builder.push_bind(value.clone());
}

/// `Clone::clone` of `bigdecimal::BigDecimal`, which that crate derives: the
/// copy equals the decimal it was made from.
#[verifier::external_body]
pub(crate) fn decimal_clone(value: &sqlx::types::BigDecimal) -> (copy: sqlx::types::BigDecimal)
    ensures
        copy == *value,
{
    value.clone()
}

/// `sqlx::QueryBuilder::sql`: a copy of the text accumulated so far.
#[verifier::external_body]
pub(crate) fn builder_sql(fragment: &QueryFragment) -> (sql: String)
    ensures
        sql@ == fragment_sql(*fragment),
{
    fragment.builder.sql().to_string()
}

/// What the contracts know of a fragment.
pub struct FragmentView {
    /// The SQL text.
    pub sql: Seq<char>,
    /// The bound values, in binding order.
    pub binds: Seq<BoundValue>,
    /// Whether text and parameters can still be added.
    pub open: bool,
}

impl View for QueryFragment {
    type V = FragmentView;

    open spec fn view(&self) -> FragmentView {
        FragmentView {
            sql: fragment_sql(*self),
            binds: fragment_binds(*self),
            open: fragment_open(*self),
        }
    }
}

/// One step in the construction of a fragment.
pub enum Piece {
    /// Literal SQL text.
    Sql(Seq<char>),
    /// A bound value, written into the text as its placeholder.
    Parameter(BoundValue),
}

/// The values that a construction binds, in order.
pub open spec fn bound_values(pieces: Seq<Piece>) -> Seq<BoundValue>
    decreases pieces.len(),
{
    if pieces.len() == 0 {
        Seq::empty()
    } else {
        match pieces.last() {
            Piece::Sql(_) => bound_values(pieces.drop_last()),
            Piece::Parameter(value) => bound_values(pieces.drop_last()).push(value),
        }
    }
}

/// The text that a construction writes: literal text as it stands, and the
/// k-th bound value as the placeholder numbered k.
pub open spec fn rendered_sql(pieces: Seq<Piece>) -> Seq<char>
    decreases pieces.len(),
{
    if pieces.len() == 0 {
        Seq::empty()
    } else {
        match pieces.last() {
            Piece::Sql(text) => rendered_sql(pieces.drop_last()) + text,
            Piece::Parameter(_) => rendered_sql(pieces.drop_last()) + placeholder_text(
                bound_values(pieces.drop_last()).len() + 1,
            ),
        }
    }
}

/// The number of UTF-8 bytes that `text` takes.
pub open spec fn utf8_len(text: Seq<char>) -> nat {
    encode_utf8(text).len()
}

/// The UTF-8 length of a concatenation is the sum of the lengths.
pub proof fn lemma_utf8_len_concat(a: Seq<char>, b: Seq<char>)
    ensures
        utf8_len(a + b) == utf8_len(a) + utf8_len(b),
    decreases a.len(),
{
    if a.len() == 0 {
        assert(a + b =~= b);
    } else {
        assert((a + b).drop_first() =~= a.drop_first() + b);
        assert((a + b)[0] == a[0]);
        lemma_utf8_len_concat(a.drop_first(), b);
    }
}

/// A text of ASCII characters takes one byte for each.
pub proof fn lemma_utf8_len_ascii(text: Seq<char>)
    requires
        is_ascii_chars(text),
    ensures
        utf8_len(text) == text.len(),
{
    is_ascii_chars_encode_utf8(text);
}

impl FragmentView {
    /// Placeholders and bound values are in lockstep: the text is literal
    /// SQL interleaved with the placeholders 1, 2, ... in this order, one for
    /// each bound value.
    pub open spec fn in_lockstep(self) -> bool {
        exists|pieces: Seq<Piece>|
            self.sql == #[trigger] rendered_sql(pieces) && self.binds == bound_values(pieces)
    }

    /// The view after literal text was appended.
    pub open spec fn with_sql(self, text: Seq<char>) -> FragmentView {
        FragmentView { sql: self.sql + text, binds: self.binds, open: self.open }
    }

    /// The view after `value` was bound and its placeholder appended.
    pub open spec fn with_parameter(self, value: BoundValue) -> FragmentView {
        FragmentView {
            sql: self.sql + placeholder_text(self.binds.len() + 1),
            binds: self.binds.push(value),
            open: self.open,
        }
    }

    /// The view of a fresh fragment that holds `text` and no bound value.
    pub open spec fn starting_with(text: Seq<char>) -> FragmentView {
        FragmentView { sql: text, binds: Seq::empty(), open: true }
    }
}

/// A fresh fragment is in lockstep.
pub proof fn lemma_start_in_lockstep(text: Seq<char>)
    ensures
        FragmentView::starting_with(text).in_lockstep(),
{
    let none = Seq::<Piece>::empty();
    let pieces = none.push(Piece::Sql(text));
    assert(pieces.drop_last() =~= none);
    assert(rendered_sql(none) =~= Seq::<char>::empty());
    assert(bound_values(none) =~= Seq::<BoundValue>::empty());
    assert(rendered_sql(pieces) =~= text);
    assert(bound_values(pieces) =~= Seq::<BoundValue>::empty());
}

/// Appending literal text keeps a fragment in lockstep.
pub proof fn lemma_sql_keeps_lockstep(view: FragmentView, text: Seq<char>)
    requires
        view.in_lockstep(),
    ensures
        view.with_sql(text).in_lockstep(),
{
    let pieces = choose|pieces: Seq<Piece>|
        view.sql == #[trigger] rendered_sql(pieces) && view.binds == bound_values(pieces);
    let longer = pieces.push(Piece::Sql(text));
    assert(longer.drop_last() =~= pieces);
    assert(rendered_sql(longer) == view.sql + text);
    assert(bound_values(longer) == view.binds);
}

/// Binding a value keeps a fragment in lockstep.
pub proof fn lemma_parameter_keeps_lockstep(view: FragmentView, value: BoundValue)
    requires
        view.in_lockstep(),
    ensures
        view.with_parameter(value).in_lockstep(),
{
    let pieces = choose|pieces: Seq<Piece>|
        view.sql == #[trigger] rendered_sql(pieces) && view.binds == bound_values(pieces);
    let longer = pieces.push(Piece::Parameter(value));
    assert(longer.drop_last() =~= pieces);
    assert(rendered_sql(longer) == view.sql + placeholder_text(view.binds.len() + 1));
    assert(bound_values(longer) == view.binds.push(value));
}

impl QueryFragment {
    /// Starts a fragment with `init` as its text and no bound value.
    pub fn new(init: &str) -> (fragment: QueryFragment)
        ensures
            fragment@ == FragmentView::starting_with(init@),
            fragment@.in_lockstep(),
    {
        proof {
            lemma_start_in_lockstep(init@);
        }
        builder_new(init)
    }

    /// Appends literal SQL text. The text is structural: it must never come
    /// from caller input.
    pub fn push(&mut self, sql: &str)
        requires
            old(self)@.open,
        ensures
            final(self)@ == old(self)@.with_sql(sql@),
            old(self)@.in_lockstep() ==> final(self)@.in_lockstep(),
    {
        proof {
            if self@.in_lockstep() {
                lemma_sql_keeps_lockstep(self@, sql@);
            }
        }
        builder_push(self, sql);
    }

    /// Binds a text value as the next parameter and appends its placeholder.
    pub fn push_bind_text(&mut self, value: String)
        requires
            old(self)@.open,
            utf8_len(value@) <= MAX_PARAMETER_BYTES,
        ensures
            final(self)@ == old(self)@.with_parameter(BoundValue::Text(value@)),
            old(self)@.in_lockstep() ==> final(self)@.in_lockstep(),
    {
        proof {
            if self@.in_lockstep() {
                lemma_parameter_keeps_lockstep(self@, BoundValue::Text(value@));
            }
        }
        builder_push_bind_text(self, value);
    }

    /// Binds a 32-bit integer as the next parameter and appends its
    /// placeholder.
    pub fn push_bind_i32(&mut self, value: i32)
        requires
            old(self)@.open,
        ensures
            final(self)@ == old(self)@.with_parameter(BoundValue::Integer(value as int)),
            old(self)@.in_lockstep() ==> final(self)@.in_lockstep(),
    {
        proof {
            if self@.in_lockstep() {
                lemma_parameter_keeps_lockstep(self@, BoundValue::Integer(value as int));
            }
        }
        builder_push_bind_i32(self, value);
    }

    /// Binds a 64-bit integer as the next parameter and appends its
    /// placeholder.
    pub fn push_bind_i64(&mut self, value: i64)
        requires
            old(self)@.open,
        ensures
            final(self)@ == old(self)@.with_parameter(BoundValue::BigInt(value as int)),
            old(self)@.in_lockstep() ==> final(self)@.in_lockstep(),
    {
        proof {
            if self@.in_lockstep() {
                lemma_parameter_keeps_lockstep(self@, BoundValue::BigInt(value as int));
            }
        }
        builder_push_bind_i64(self, value);
    }

    /// Binds a boolean as the next parameter and appends its placeholder.
    pub fn push_bind_bool(&mut self, value: bool)
        requires
            old(self)@.open,
        ensures
            final(self)@ == old(self)@.with_parameter(BoundValue::Boolean(value)),
            old(self)@.in_lockstep() ==> final(self)@.in_lockstep(),
    {
        proof {
            if self@.in_lockstep() {
                lemma_parameter_keeps_lockstep(self@, BoundValue::Boolean(value));
            }
        }
        builder_push_bind_bool(self, value);
    }

    /// Binds a decimal as the next parameter and appends its placeholder.
    /// The decimal must be one that can be bound; `can_bind_decimal` tells.
    pub fn push_bind_decimal(&mut self, value: &sqlx::types::BigDecimal)
        requires
            old(self)@.open,
            decimal_fits(*value),
        ensures
            final(self)@ == old(self)@.with_parameter(BoundValue::Decimal(*value)),
            old(self)@.in_lockstep() ==> final(self)@.in_lockstep(),
    {
        proof {
            if self@.in_lockstep() {
                lemma_parameter_keeps_lockstep(self@, BoundValue::Decimal(*value));
            }
        }
        builder_push_bind_decimal(self, value);
    }

    /// Binds a decimal where it can be bound, and says whether it did;
    /// otherwise the fragment is left as it was.
    pub fn try_push_bind_decimal(&mut self, value: &sqlx::types::BigDecimal) -> (bound: bool)
        requires
            old(self)@.open,
        ensures
            bound == decimal_fits(*value),
            bound ==> final(self)@ == old(self)@.with_parameter(BoundValue::Decimal(*value)),
            !bound ==> final(self)@ == old(self)@,
            old(self)@.in_lockstep() ==> final(self)@.in_lockstep(),
    {
        if can_bind_decimal(value) {
            self.push_bind_decimal(value);
            true
        } else {
            false
        }
    }

    /// A copy of the SQL text accumulated so far.
    pub fn sql(&self) -> (sql: String)
        ensures
            sql@ == self@.sql,
    {
        builder_sql(self)
    }
}

/// A copy of a decimal.
pub fn copy_decimal(value: &sqlx::types::BigDecimal) -> (copy: sqlx::types::BigDecimal)
    ensures
        copy == *value,
{
    decimal_clone(value)
}

/// Whether `value` can be bound as a parameter: whether its scale is one
/// that the driver can work with and the driver can encode it. The driver
/// is asked only where the scale allows.
pub fn can_bind_decimal(value: &sqlx::types::BigDecimal) -> (accepted: bool)
    ensures
        accepted == decimal_fits(*value),
{
    if decimal_scale_of(value) >= MIN_DECIMAL_SCALE {
        arguments_accept_decimal(value)
    } else {
        false
    }
}

} // verus!
