use std::rc::Rc;

use vstd::hash_map::StringHashMap;
use vstd::prelude::*;

use crate::error::{
    conversion_error, conversion_text, message_error, out_of_range, out_of_range_text, Error,
    ErrorView, Result,
};
use crate::statement::{
    indexes_names, reset_spec, row_readable, row_view,
    step_spec, values_view, Cell, State, Statement, StatementView,
};
use crate::text::{digits, digits_of};
use crate::value::{Value, ValueInto, ValueView};

verus! {

/// What advancing a statement and reading its row gives: the values of
/// the row, `None` once the statement has finished, or an error.
pub open spec fn try_next_spec(
    s: StatementView,
    code: i32,
    last: Option<Error>,
    row: Seq<Cell>,
) -> (StatementView, std::result::Result<Option<Seq<ValueView>>, ErrorView>) {
    let (t, r) = step_spec(s, code, last, row);
    match r {
        Err(e) => (t, Err(e)),
        Ok(State::Done) => (t, Ok(None)),
        Ok(State::Row) => if row_readable(t.row) {
            (t, Ok(Some(row_view(t.row))))
        } else {
            (t, Err(message_error(crate::error::text_column_text())))
        },
    }
}

/// What one turn of a cursor gives: nothing once it has failed; otherwise
/// the next row, nothing at the end, or an error, after which it yields
/// nothing until it is reset.
pub open spec fn cursor_next_spec(
    s: StatementView,
    poisoned: bool,
    code: i32,
    last: Option<Error>,
    row: Seq<Cell>,
) -> (StatementView, bool, Option<std::result::Result<Seq<ValueView>, ErrorView>>) {
    if poisoned {
        (s, true, None)
    } else {
        let (t, r) = try_next_spec(s, code, last, row);
        match r {
            Ok(Some(values)) => (t, false, Some(Ok(values))),
            Ok(None) => (t, false, None),
            Err(e) => (t, true, Some(Err(e))),
        }
    }
}

/// The view of a result of values.
pub open spec fn values_result_view(r: Result<Option<Vec<Value>>>) -> std::result::Result<
    Option<Seq<ValueView>>,
    ErrorView,
> {
    match r {
        Ok(Some(values)) => Ok(Some(values_view(values@))),
        Ok(None) => Ok(None),
        Err(e) => Err(e@),
    }
}

/// The view of what a cursor's turn yields.
pub open spec fn row_result_view(r: Option<Result<Row>>) -> Option<
    std::result::Result<Seq<ValueView>, ErrorView>,
> {
    match r {
        Some(Ok(row)) => Some(Ok(row@.values)),
        Some(Err(e)) => Some(Err(e@)),
        None => None,
    }
}

/// Advance a statement and read its row; both cursors share this.
fn try_next_of(
    statement: &mut Statement,
    code: i32,
    last: Option<Error>,
    row: Vec<Cell>,
) -> (r: Result<Option<Vec<Value>>>)
    requires
        code == crate::statement::SQLITE_ROW ==> row@.len() == old(statement)@.names.len(),
    ensures
        (final(statement)@, values_result_view(r)) == try_next_spec(old(statement)@, code, last, row@),
        r matches Ok(Some(values)) ==> values@.len() == final(statement)@.names.len(),
{
    let state = statement.next(code, last, row)?;
    match state {
        State::Done => Ok(None),
        State::Row => {
            let values = statement.current_values()?;
            Ok(Some(values))
        },
    }
}

/// One turn of a cursor over a statement; both cursors share this.
fn next_of(
    statement: &mut Statement,
    poisoned: &mut bool,
    code: i32,
    last: Option<Error>,
    row: Vec<Cell>,
) -> (r: Option<Result<Row>>)
    requires
        code == crate::statement::SQLITE_ROW ==> row@.len() == old(statement)@.names.len(),
    ensures
        (final(statement)@, *final(poisoned), row_result_view(r)) == cursor_next_spec(
            old(statement)@,
            *old(poisoned),
            code,
            last,
            row@,
        ),
        r matches Some(Ok(x)) ==> indexes_names(x@.mapping, final(statement)@.names) && x@.values.len()
            == final(statement)@.names.len(),
{
    if *poisoned {
        return None;
    }
    match try_next_of(statement, code, last, row) {
        Ok(Some(values)) => Some(Ok(Row { column_mapping: statement.column_mapping(), values })),
        Ok(None) => None,
        Err(e) => {
            *poisoned = true;
            Some(Err(e))
        },
    }
}

/// An iterator for a prepared statement.
pub struct Cursor<'m> {
    statement: &'m mut Statement,
    poisoned: bool,
}

/// An iterator for a prepared statement with ownership.
pub struct CursorWithOwnership {
    statement: Statement,
    poisoned: bool,
}

/// A row.
pub struct Row {
    column_mapping: Rc<StringHashMap<usize>>,
    values: Vec<Value>,
}

/// What a row holds: the positions of its columns by name, and its values.
pub struct RowView {
    /// The position of each column name.
    pub mapping: Map<Seq<char>, usize>,
    /// The values.
    pub values: Seq<ValueView>,
}

impl View for Row {
    type V = RowView;

    closed spec fn view(&self) -> RowView {
        RowView { mapping: self.column_mapping@, values: values_view(self.values@) }
    }
}

/// A type suitable for indexing columns in a row.
pub trait RowIndex: Sized {
    /// The column that this picks in a row.
    spec fn column(&self, row: RowView) -> Option<int>;

    /// The text that stands for this index in an error.
    spec fn label(&self) -> Seq<char>;

    /// Return the text that stands for this index in an error.
    fn describe(&self) -> (r: String)
        ensures
            r@ == self.label();

    /// Check to see if the row contains the column.
    fn contains(&self, row: &Row) -> (r: bool)
        ensures
            r == self.column(row@) is Some;

    /// Identify the ordinal position; the first column has index 0.
    fn index(self, row: &Row) -> (r: usize)
        requires
            self.column(row@) is Some,
        ensures
            self.column(row@) == Some(r as int),
            r < row@.values.len();
}

impl RowIndex for usize {
    open spec fn column(&self, row: RowView) -> Option<int> {
        if *self < row.values.len() {
            Some(*self as int)
        } else {
            None
        }
    }

    open spec fn label(&self) -> Seq<char> {
        digits_of(*self as nat)
    }

    fn describe(&self) -> (r: String) {
        digits(*self as u64)
    }

    fn contains(&self, row: &Row) -> (r: bool) {
        *self < row.values.len()
    }

    fn index(self, row: &Row) -> (r: usize) {
        self
    }
}

impl<'a> RowIndex for &'a str {
    /// A name picks the column that the row's mapping gives it.
    open spec fn column(&self, row: RowView) -> Option<int> {
        if row.mapping.contains_key((*self)@) && row.mapping[(*self)@] < row.values.len() {
            Some(row.mapping[(*self)@] as int)
        } else {
            None
        }
    }

    open spec fn label(&self) -> Seq<char> {
        (*self)@
    }

    fn describe(&self) -> (r: String) {
        String::from_str(*self)
    }

    fn contains(&self, row: &Row) -> (r: bool) {
        match row.column_mapping.get(*self) {
            Some(i) => *i < row.values.len(),
            None => false,
        }
    }

    fn index(self, row: &Row) -> (r: usize) {
        match row.column_mapping.get(self) {
            Some(i) => *i,
            None => 0,
        }
    }
}

/// What reading a column that an index picks in a row gives as a `T`.
pub open spec fn row_read_outcome<T: ValueInto>(
    row: RowView,
    at: Option<int>,
    label: Seq<char>,
) -> std::result::Result<<T as DeepView>::V, ErrorView> {
    match at {
        None => Err(message_error(out_of_range_text(label))),
        Some(i) => match T::decode(row.values[i]) {
            Some(x) => Ok(x),
            None => Err(message_error(conversion_text())),
        },
    }
}

impl Row {
    /// Read the value in a column; the column must exist and hold a value
    /// that converts into a `T`.
    pub fn read<T: ValueInto, U: RowIndex>(&self, column: U) -> (r: T)
        requires
            row_read_outcome::<T>(self@, column.column(self@), column.label()) is Ok,
        ensures
            row_read_outcome::<T>(self@, column.column(self@), column.label()) == Ok::<
                <T as DeepView>::V,
                ErrorView,
            >(r.deep_view()),
    {
        let i = column.index(self);
        T::into(&self.values[i]).unwrap()
    }

    /// Try to read the value in a column.
    pub fn try_read<T: ValueInto, U: RowIndex>(&self, column: U) -> (r: Result<T>)
        ensures
            match r {
                Ok(x) => row_read_outcome::<T>(self@, column.column(self@), column.label())
                    == Ok::<<T as DeepView>::V, ErrorView>(x.deep_view()),
                Err(e) => row_read_outcome::<T>(self@, column.column(self@), column.label())
                    == Err::<<T as DeepView>::V, ErrorView>(e@),
            },
    {
        if !column.contains(self) {
            return Err(out_of_range(column.describe().as_str()));
        }
        let i = column.index(self);
        match T::into(&self.values[i]) {
            Some(x) => Ok(x),
            None => Err(conversion_error()),
        }
    }

    /// Take the value from a column, leaving null in its place; a second
    /// take of the same column gives null.
    pub fn take<U: RowIndex>(&mut self, column: U) -> (r: Value)
        requires
            column.column(old(self)@) is Some,
        ensures
            column.column(old(self)@) matches Some(i) && r@ == old(self)@.values[i]
                && final(self)@.values == old(self)@.values.update(i, ValueView::Null),
            final(self)@.mapping == old(self)@.mapping,
    {
        let i = column.index(self);
        let mut taken = Value::Null;
        self.values.set_and_swap(i, &mut taken);
        proof {
            assert(values_view(self.values@) =~= values_view(old(self).values@).update(i as int, ValueView::Null));
        }
        taken
    }

    /// Return the value in a column; the column must exist.
    pub fn value<U: RowIndex>(&self, column: U) -> (r: &Value)
        requires
            column.column(self@) is Some,
        ensures
            column.column(self@) matches Some(i) && r@ == self@.values[i],
    {
        let i = column.index(self);
        &self.values[i]
    }

    /// Return the number of values.
    pub fn len(&self) -> (r: usize)
        ensures
            r == self@.values.len(),
    {
        self.values.len()
    }

    /// Return the values, in the order of the columns.
    pub fn into_values(self) -> (r: Vec<Value>)
        ensures
            values_view(r@) == self@.values,
    {
        self.values
    }
}

impl PartialEq for Row {
    /// Rows compare by their values alone.
    fn eq(&self, other: &Row) -> (r: bool)
        ensures
            r == (self@.values == other@.values),
    {
        if self.values.len() != other.values.len() {
            assert(values_view(self.values@).len() != values_view(other.values@).len());
            return false;
        }
        let mut i: usize = 0;
        while i < self.values.len()
            invariant
                i <= self.values@.len(),
                self.values@.len() == other.values@.len(),
                forall|j: int| 0 <= j < i ==> self.values@[j]@ == other.values@[j]@,
            decreases self.values@.len() - i,
        {
            if self.values[i] != other.values[i] {
                assert(values_view(self.values@)[i as int] != values_view(other.values@)[i as int]);
                return false;
            }
            i = i + 1;
        }
        assert(values_view(self.values@) =~= values_view(other.values@));
        true
    }
}

impl vstd::std_specs::cmp::PartialEqSpecImpl for Row {
    open spec fn obeys_eq_spec() -> bool {
        true
    }

    open spec fn eq_spec(&self, other: &Row) -> bool {
        self@.values == other@.values
    }
}

/// What a cursor holds: the statement and whether a failure stopped it.
pub type CursorView = (StatementView, bool);

impl<'m> View for Cursor<'m> {
    type V = CursorView;

    closed spec fn view(&self) -> CursorView {
        ((*self.statement)@, self.poisoned)
    }
}

impl View for CursorWithOwnership {
    type V = CursorView;

    closed spec fn view(&self) -> CursorView {
        (self.statement@, self.poisoned)
    }
}

/// Create a cursor over a borrowed statement.
pub fn new<'m>(statement: &'m mut Statement) -> (r: Cursor<'m>)
    ensures
        r@ == (old(statement)@, false),
{
    Cursor { statement, poisoned: false }
}

/// Create a cursor that owns its statement.
pub fn new_with_ownership(statement: Statement) -> (r: CursorWithOwnership)
    ensures
        r@ == (statement@, false),
{
    CursorWithOwnership { statement, poisoned: false }
}

impl<'m> Cursor<'m> {
    /// Return the statement.
    pub fn statement(&self) -> (r: &Statement)
        ensures
            r@ == self@.0,
    {
        &*self.statement
    }

    /// Return the number of columns.
    pub fn column_count(&self) -> (r: usize)
        ensures
            r == self@.0.names.len(),
    {
        self.statement.column_count()
    }

    /// Whether the next turn needs a step of the engine: not once the
    /// cursor has failed or the statement has finished.
    pub fn needs_step(&self) -> (r: bool)
        ensures
            r == (!self@.1 && self@.0.state != Some(State::Done)),
    {
        !self.poisoned && self.statement.needs_step()
    }

    /// Reset the internal state, given the status code of the engine's reset.
    pub fn reset(self, code: i32, last: Option<Error>) -> (r: Result<Self>)
        ensures
            code == crate::error::SQLITE_OK <==> r is Ok,
            r matches Ok(c) ==> c@ == (reset_spec(self@.0), false),
            r matches Err(e) ==> e@ == crate::error::engine_error_spec(code, last),
    {
        let mut cursor = self;
        cursor.statement.reset(code, last)?;
        cursor.poisoned = false;
        Ok(cursor)
    }

    /// Advance to the next row and read all columns, given the engine's
    /// answer to the step.
    pub fn try_next(&mut self, code: i32, last: Option<Error>, row: Vec<Cell>) -> (r: Result<Option<Vec<Value>>>)
        requires
            code == crate::statement::SQLITE_ROW ==> row@.len() == old(self)@.0.names.len(),
        ensures
            (final(self)@.0, values_result_view(r)) == try_next_spec(old(self)@.0, code, last, row@),
            final(self)@.1 == old(self)@.1,
    {
        try_next_of(self.statement, code, last, row)
    }

    /// Yield the next row, given the engine's answer to the step.
    pub fn next(&mut self, code: i32, last: Option<Error>, row: Vec<Cell>) -> (r: Option<Result<Row>>)
        requires
            code == crate::statement::SQLITE_ROW ==> row@.len() == old(self)@.0.names.len(),
        ensures
            (final(self)@.0, final(self)@.1, row_result_view(r)) == cursor_next_spec(
                old(self)@.0,
                old(self)@.1,
                code,
                last,
                row@,
            ),
            r matches Some(Ok(x)) ==> indexes_names(x@.mapping, final(self)@.0.names)
                && x@.values.len() == final(self)@.0.names.len(),
    {
        next_of(self.statement, &mut self.poisoned, code, last, row)
    }
}

impl CursorWithOwnership {
    /// Return the statement.
    pub fn statement(&self) -> (r: &Statement)
        ensures
            r@ == self@.0,
    {
        &self.statement
    }

    /// Return the statement, giving up the cursor.
    pub fn into_statement(self) -> (r: Statement)
        ensures
            r@ == self@.0,
    {
        self.statement
    }

    /// Return the number of columns.
    pub fn column_count(&self) -> (r: usize)
        ensures
            r == self@.0.names.len(),
    {
        self.statement.column_count()
    }

    /// Whether the next turn needs a step of the engine: not once the
    /// cursor has failed or the statement has finished.
    pub fn needs_step(&self) -> (r: bool)
        ensures
            r == (!self@.1 && self@.0.state != Some(State::Done)),
    {
        !self.poisoned && self.statement.needs_step()
    }

    /// Reset the internal state, given the status code of the engine's reset.
    pub fn reset(self, code: i32, last: Option<Error>) -> (r: Result<Self>)
        ensures
            code == crate::error::SQLITE_OK <==> r is Ok,
            r matches Ok(c) ==> c@ == (reset_spec(self@.0), false),
            r matches Err(e) ==> e@ == crate::error::engine_error_spec(code, last),
    {
        let mut cursor = self;
        cursor.statement.reset(code, last)?;
        cursor.poisoned = false;
        Ok(cursor)
    }

    /// Advance to the next row and read all columns, given the engine's
    /// answer to the step.
    pub fn try_next(&mut self, code: i32, last: Option<Error>, row: Vec<Cell>) -> (r: Result<Option<Vec<Value>>>)
        requires
            code == crate::statement::SQLITE_ROW ==> row@.len() == old(self)@.0.names.len(),
        ensures
            (final(self)@.0, values_result_view(r)) == try_next_spec(old(self)@.0, code, last, row@),
            final(self)@.1 == old(self)@.1,
    {
        try_next_of(&mut self.statement, code, last, row)
    }

    /// Yield the next row, given the engine's answer to the step.
    pub fn next(&mut self, code: i32, last: Option<Error>, row: Vec<Cell>) -> (r: Option<Result<Row>>)
        requires
            code == crate::statement::SQLITE_ROW ==> row@.len() == old(self)@.0.names.len(),
        ensures
            (final(self)@.0, final(self)@.1, row_result_view(r)) == cursor_next_spec(
                old(self)@.0,
                old(self)@.1,
                code,
                last,
                row@,
            ),
            r matches Some(Ok(x)) ==> indexes_names(x@.mapping, final(self)@.0.names)
                && x@.values.len() == final(self)@.0.names.len(),
    {
        next_of(&mut self.statement, &mut self.poisoned, code, last, row)
    }
}

/// An answer of the engine to one step: its status code, the connection's
/// last error, and the columns of the row it produced.
pub type StepReply = (i32, Option<Error>, Seq<Cell>);

/// What a cursor yields over a sequence of the engine's answers, one turn each.
pub open spec fn cursor_run(s: StatementView, poisoned: bool, replies: Seq<StepReply>) -> Seq<
    Option<std::result::Result<Seq<ValueView>, ErrorView>>,
>
    decreases replies.len(),
{
    if replies.len() == 0 {
        Seq::empty()
    } else {
        let (t, p, out) = cursor_next_spec(s, poisoned, replies[0].0, replies[0].1, replies[0].2);
        seq![out] + cursor_run(t, p, replies.drop_first())
    }
}

/// A cursor yields one outcome per answer.
pub proof fn lemma_cursor_run_len(s: StatementView, poisoned: bool, replies: Seq<StepReply>)
    ensures
        cursor_run(s, poisoned, replies).len() == replies.len(),
    decreases replies.len(),
{
    if replies.len() > 0 {
        let (t, p, out) = cursor_next_spec(s, poisoned, replies[0].0, replies[0].1, replies[0].2);
        lemma_cursor_run_len(t, p, replies.drop_first());
    }
}

/// Once a cursor's statement has finished, every turn yields nothing.
pub proof fn lemma_cursor_stays_done(s: StatementView, poisoned: bool, replies: Seq<StepReply>)
    requires
        s.state == Some(State::Done) || poisoned,
    ensures
        forall|k: int| 0 <= k < replies.len() ==> (#[trigger] cursor_run(s, poisoned, replies)[k]) is None,
    decreases replies.len(),
{
    if replies.len() > 0 {
        let (t, p, out) = cursor_next_spec(s, poisoned, replies[0].0, replies[0].1, replies[0].2);
        lemma_cursor_stays_done(t, p, replies.drop_first());
        lemma_cursor_run_len(t, p, replies.drop_first());
        let run = cursor_run(s, poisoned, replies);
        assert forall|k: int| 0 <= k < replies.len() implies (#[trigger] run[k]) is None by {
            if k > 0 {
                assert(run[k] == cursor_run(t, p, replies.drop_first())[k - 1]);
            }
        }
    }
}

/// Over a query whose engine reports `n` readable rows and then its end, a
/// cursor that has not finished or failed yields exactly those `n` rows,
/// in order, and nothing on every turn after them.
pub proof fn lemma_cursor_yields_each_row(
    s: StatementView,
    replies: Seq<StepReply>,
    n: int,
)
    requires
        s.state != Some(State::Done),
        0 <= n < replies.len(),
        forall|k: int|
            0 <= k < n ==> (#[trigger] replies[k]).0 == crate::statement::SQLITE_ROW
                && replies[k].2.len() == s.names.len() && row_readable(replies[k].2),
        replies[n].0 == crate::statement::SQLITE_DONE,
    ensures
        forall|k: int|
            0 <= k < n ==> #[trigger] cursor_run(s, false, replies)[k] == Some(
                Ok::<Seq<ValueView>, ErrorView>(row_view(replies[k].2)),
            ),
        forall|k: int| n <= k < replies.len() ==> (#[trigger] cursor_run(s, false, replies)[k]) is None,
    decreases n,
{
    let (t, p, out) = cursor_next_spec(s, false, replies[0].0, replies[0].1, replies[0].2);
    let rest = replies.drop_first();
    let run = cursor_run(s, false, replies);
    lemma_cursor_run_len(t, p, rest);
    assert(run == seq![out] + cursor_run(t, p, rest));
    if n == 0 {
        assert(t.state == Some(State::Done));
        lemma_cursor_stays_done(t, p, rest);
        assert forall|k: int| n <= k < replies.len() implies (#[trigger] run[k]) is None by {
            if k > 0 {
                assert(run[k] == cursor_run(t, p, rest)[k - 1]);
            }
        }
    } else {
        assert(replies[0].0 == crate::statement::SQLITE_ROW);
        assert(!p && t.state == Some(State::Row) && t.names == s.names);
        assert forall|k: int| 0 <= k < n - 1 implies (#[trigger] rest[k]).0 == crate::statement::SQLITE_ROW
            && rest[k].2.len() == t.names.len() && row_readable(rest[k].2) by {
            assert(rest[k] == replies[k + 1]);
        }
        lemma_cursor_yields_each_row(t, rest, n - 1);
        assert forall|k: int| 0 <= k < n implies #[trigger] run[k] == Some(
            Ok::<Seq<ValueView>, ErrorView>(row_view(replies[k].2)),
        ) by {
            if k > 0 {
                assert(run[k] == cursor_run(t, p, rest)[k - 1]);
                assert(rest[k - 1] == replies[k]);
            }
        }
        assert forall|k: int| n <= k < replies.len() implies (#[trigger] run[k]) is None by {
            assert(run[k] == cursor_run(t, p, rest)[k - 1]);
        }
    }
}

/// In a row, a name that picks a column reads exactly as that column's
/// position does.
pub proof fn lemma_row_name_reads_as_position<T: ValueInto>(row: RowView, name: &str, i: usize)
    requires
        name.column(row) == Some(i as int),
    ensures
        i.column(row) == Some(i as int),
        row_read_outcome::<T>(row, name.column(row), name.label()) == row_read_outcome::<T>(
            row,
            i.column(row),
            i.label(),
        ),
{
}

} // verus!
