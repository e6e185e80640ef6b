use std::rc::Rc;

use vstd::hash_map::StringHashMap;
use vstd::prelude::*;

use crate::error::{
    check, engine_error, engine_error_spec, message_error, out_of_range, out_of_range_text,
    text_column_error, text_column_text, conversion_error, conversion_text, Error, ErrorView,
    Result, SQLITE_OK, result_view,
};
use crate::text::{digits, digits_of};
use crate::value::{copy_bytes, Type, Value, ValueInto, ValueView};

verus! {

/// The status code with which a step reports that a row is available.
pub const SQLITE_ROW: i32 = 100;

/// The status code with which a step reports that the statement has finished.
pub const SQLITE_DONE: i32 = 101;

/// The engine's code for an integer column.
pub const SQLITE_INTEGER: i32 = 1;

/// The engine's code for a floating-point column.
pub const SQLITE_FLOAT: i32 = 2;

/// The engine's code for a text column.
pub const SQLITE_TEXT: i32 = 3;

/// The engine's code for a binary column.
pub const SQLITE_BLOB: i32 = 4;

/// The engine's code for a null column.
pub const SQLITE_NULL: i32 = 5;

/// The state of a prepared statement.
#[derive(Clone, Copy, Debug, PartialEq, Eq, Structural)]
pub enum State {
    /// There is a row available for reading.
    Row,
    /// The statement has been entirely evaluated.
    Done,
}

/// What the engine reports for one column of the current row.
///
/// A binary or text column comes with the buffer that the engine handed
/// out, or `None` where it handed out none.
#[derive(Debug)]
pub enum Cell {
    /// A binary column.
    Binary(Option<Vec<u8>>),
    /// A floating-point column, as its IEEE 754 bit pattern.
    Float(u64),
    /// An integer column.
    Integer(i64),
    /// A text column.
    String(Option<String>),
    /// A null column.
    Null,
}

/// The value that a cell reads as: a missing binary buffer reads as no
/// bytes, a missing text buffer does not read.
pub open spec fn cell_value(c: Cell) -> Option<ValueView> {
    match c {
        Cell::Binary(Some(b)) => Some(ValueView::Binary(b@)),
        Cell::Binary(None) => Some(ValueView::Binary(Seq::empty())),
        Cell::Float(f) => Some(ValueView::Float(f)),
        Cell::Integer(i) => Some(ValueView::Integer(i)),
        Cell::String(Some(s)) => Some(ValueView::String(s@)),
        Cell::String(None) => None,
        Cell::Null => Some(ValueView::Null),
    }
}

/// The type of a cell.
pub open spec fn cell_kind(c: Cell) -> Type {
    match c {
        Cell::Binary(_) => Type::Binary,
        Cell::Float(_) => Type::Float,
        Cell::Integer(_) => Type::Integer,
        Cell::String(_) => Type::String,
        Cell::Null => Type::Null,
    }
}

/// The type that the engine's column type code stands for.
pub open spec fn kind_of_code(code: i32) -> Type {
    if code == SQLITE_BLOB {
        Type::Binary
    } else if code == SQLITE_FLOAT {
        Type::Float
    } else if code == SQLITE_INTEGER {
        Type::Integer
    } else if code == SQLITE_TEXT {
        Type::String
    } else {
        Type::Null
    }
}

/// Return the type that the engine's column type code stands for.
pub fn column_kind(code: i32) -> (r: Type)
    requires
        SQLITE_INTEGER <= code <= SQLITE_NULL,
    ensures
        r == kind_of_code(code),
{
    if code == SQLITE_BLOB {
        Type::Binary
    } else if code == SQLITE_FLOAT {
        Type::Float
    } else if code == SQLITE_INTEGER {
        Type::Integer
    } else if code == SQLITE_TEXT {
        Type::String
    } else {
        Type::Null
    }
}

impl Cell {
    /// Read the cell as a value.
    pub fn read(&self) -> (r: Result<Value>)
        ensures
            match r {
                Ok(v) => cell_value(*self) == Some(v@),
                Err(e) => cell_value(*self) is None && e@ == message_error(text_column_text()),
            },
    {
        match self {
            Cell::Binary(Some(b)) => Ok(Value::Binary(copy_bytes(b.as_slice()))),
            Cell::Binary(None) => Ok(Value::Binary(Vec::new())),
            Cell::Float(f) => Ok(Value::Float(*f)),
            Cell::Integer(i) => Ok(Value::Integer(*i)),
            Cell::String(Some(s)) => Ok(Value::String(s.clone())),
            Cell::String(None) => Err(text_column_error()),
            Cell::Null => Ok(Value::Null),
        }
    }

    /// Return the type of the cell.
    pub fn kind(&self) -> (r: Type)
        ensures
            r == cell_kind(*self),
    {
        match self {
            Cell::Binary(_) => Type::Binary,
            Cell::Float(_) => Type::Float,
            Cell::Integer(_) => Type::Integer,
            Cell::String(_) => Type::String,
            Cell::Null => Type::Null,
        }
    }
}

/// The last position at which a name occurs among column names.
pub open spec fn last_position(names: Seq<Seq<char>>, name: Seq<char>) -> Option<int>
    decreases names.len(),
{
    if names.len() == 0 {
        None
    } else if names.last() == name {
        Some(names.len() - 1)
    } else {
        last_position(names.drop_last(), name)
    }
}

/// A position that `last_position` gives lies among the names and holds the name.
pub proof fn lemma_last_position(names: Seq<Seq<char>>, name: Seq<char>)
    ensures
        last_position(names, name) matches Some(i) ==> 0 <= i < names.len() && names[i] == name,
        last_position(names, name) is None ==> forall|i: int| 0 <= i < names.len() ==> names[i] != name,
    decreases names.len(),
{
    if names.len() > 0 && names.last() != name {
        lemma_last_position(names.drop_last(), name);
        assert forall|i: int| 0 <= i < names.len() - 1 implies names[i] == names.drop_last()[i] by {}
    }
}

/// The characters of each name.
pub open spec fn names_view(names: Seq<String>) -> Seq<Seq<char>> {
    Seq::new(names.len(), |i: int| names[i]@)
}

/// Whether a map from names to positions gives, for each name, the last
/// position at which it occurs among the names, and holds no other name.
pub open spec fn indexes_names(mapping: Map<Seq<char>, usize>, names: Seq<Seq<char>>) -> bool {
    forall|name: Seq<char>|
        #![trigger mapping.contains_key(name)]
        #![trigger last_position(names, name)]
        (mapping.contains_key(name) <==> last_position(names, name) is Some) && (mapping.contains_key(
            name,
        ) ==> last_position(names, name) == Some(mapping[name] as int))
}

/// Adding a name at the end makes it the last position of that name and
/// leaves the others as they were.
proof fn lemma_last_position_push(names: Seq<Seq<char>>, name: Seq<char>, other: Seq<char>)
    ensures
        last_position(names.push(name), other) == if other == name {
            Some(names.len() as int)
        } else {
            last_position(names, other)
        },
{
    assert(names.push(name).drop_last() =~= names);
}

/// Map each name to the last position at which it occurs.
fn index_names(names: &Vec<String>) -> (r: StringHashMap<usize>)
    ensures
        indexes_names(r@, names_view(names@)),
{
    let mut mapping: StringHashMap<usize> = StringHashMap::new();
    let ghost all = names_view(names@);
    let mut i: usize = 0;
    assert(all.subrange(0, 0) =~= Seq::<Seq<char>>::empty());
    while i < names.len()
        invariant
            i <= names@.len(),
            all == names_view(names@),
            indexes_names(mapping@, all.subrange(0, i as int)),
        decreases names@.len() - i,
    {
        let ghost before = mapping@;
        let name = names[i].clone();
        mapping.insert(name, i);
        assert(all.subrange(0, i + 1) =~= all.subrange(0, i as int).push(all[i as int]));
        assert forall|other: Seq<char>|
            #![trigger mapping@.contains_key(other)]
            #![trigger last_position(all.subrange(0, i + 1), other)]
            (mapping@.contains_key(other) <==> last_position(all.subrange(0, i + 1), other) is Some)
                && (mapping@.contains_key(other) ==> last_position(all.subrange(0, i + 1), other)
                == Some(mapping@[other] as int)) by {
            lemma_last_position_push(all.subrange(0, i as int), all[i as int], other);
            assert(before.contains_key(other) <==> last_position(all.subrange(0, i as int), other) is Some);
        }
        i = i + 1;
    }
    assert(all.subrange(0, i as int) =~= all);
    mapping
}

/// A type suitable for indexing columns in a prepared statement.
pub trait ColumnIndex: Copy {
    /// The column that this picks among columns with these names.
    spec fn column(self, names: Seq<Seq<char>>) -> Option<int>;

    /// The text that stands for this index in an error.
    spec fn label(self) -> Seq<char>;

    /// Identify the ordinal position; the first column has index 0.
    fn index(self, statement: &Statement) -> (r: Result<usize>)
        ensures
            match r {
                Ok(i) => self.column(statement@.names) == Some(i as int) && i < statement@.names.len(),
                Err(e) => self.column(statement@.names) is None && e@ == message_error(
                    out_of_range_text(self.label()),
                ),
            };
}

impl ColumnIndex for usize {
    open spec fn column(self, names: Seq<Seq<char>>) -> Option<int> {
        if self < names.len() {
            Some(self as int)
        } else {
            None
        }
    }

    open spec fn label(self) -> Seq<char> {
        digits_of(self as nat)
    }

    fn index(self, statement: &Statement) -> (r: Result<usize>) {
        if self < statement.column_count() {
            Ok(self)
        } else {
            Err(out_of_range(digits(self as u64).as_str()))
        }
    }
}

impl<'a> ColumnIndex for &'a str {
    /// A name picks the last column that bears it.
    open spec fn column(self, names: Seq<Seq<char>>) -> Option<int> {
        last_position(names, self@)
    }

    open spec fn label(self) -> Seq<char> {
        self@
    }

    fn index(self, statement: &Statement) -> (r: Result<usize>) {
        proof {
            use_type_invariant(statement);
            lemma_last_position(statement@.names, self@);
        }
        match statement.column_mapping.get(self) {
            Some(i) => Ok(*i),
            None => Err(out_of_range(self)),
        }
    }
}

/// A prepared statement, as this side of the engine sees it: the names of
/// its columns, which are fixed when it is compiled, the state of its last
/// step, and the columns of the row that the last step produced.
pub struct Statement {
    column_names: Vec<String>,
    column_mapping: Rc<StringHashMap<usize>>,
    state: Option<State>,
    row: Vec<Cell>,
}

/// What a statement holds.
pub struct StatementView {
    /// The names of the columns.
    pub names: Seq<Seq<char>>,
    /// The state of the last step: `None` before the first one, after a
    /// reset and after a failed step.
    pub state: Option<State>,
    /// The columns of the current row, while the state is `Row`.
    pub row: Seq<Cell>,
}

impl View for Statement {
    type V = StatementView;

    closed spec fn view(&self) -> StatementView {
        StatementView {
            names: names_view(self.column_names@),
            state: self.state,
            row: self.row@,
        }
    }
}

impl Statement {
    #[verifier::type_invariant]
    closed spec fn inv(&self) -> bool {
        &&& self.state == Some(State::Row) ==> self.row@.len() == self.column_names@.len()
        &&& indexes_names(self.column_mapping@, names_view(self.column_names@))
    }
}

/// The value that the column at a position reads as: the reported cell
/// while there is a row, null otherwise.
pub open spec fn column_value(s: StatementView, at: int) -> Option<ValueView> {
    if s.state == Some(State::Row) {
        cell_value(s.row[at])
    } else {
        Some(ValueView::Null)
    }
}

/// The type of the column at a position: the reported cell's while there
/// is a row, null otherwise.
pub open spec fn column_kind_at(s: StatementView, at: int) -> Type {
    if s.state == Some(State::Row) {
        cell_kind(s.row[at])
    } else {
        Type::Null
    }
}

/// What reading a column that an index picks gives as a `T`.
pub open spec fn read_outcome<T: ValueInto>(
    s: StatementView,
    at: Option<int>,
    label: Seq<char>,
) -> std::result::Result<<T as DeepView>::V, ErrorView> {
    match at {
        None => Err(message_error(out_of_range_text(label))),
        Some(i) => match column_value(s, i) {
            None => Err(message_error(text_column_text())),
            Some(v) => match T::decode(v) {
                Some(x) => Ok(x),
                None => Err(message_error(conversion_text())),
            },
        },
    }
}

/// Whether every cell of a row reads as a value.
pub open spec fn row_readable(row: Seq<Cell>) -> bool {
    forall|i: int| 0 <= i < row.len() ==> (#[trigger] cell_value(row[i])) is Some
}

/// The values that the cells of a readable row read as.
pub open spec fn row_view(row: Seq<Cell>) -> Seq<ValueView> {
    Seq::new(
        row.len(),
        |i: int|
            match cell_value(row[i]) {
                Some(v) => v,
                None => ValueView::Null,
            },
    )
}

/// The views of a sequence of values.
pub open spec fn values_view(values: Seq<Value>) -> Seq<ValueView> {
    Seq::new(values.len(), |i: int| values[i]@)
}

/// What a step does: a finished statement stays finished without asking
/// the engine; otherwise the engine's status code decides between a row,
/// the end, and an error, after which the state is unknown.
pub open spec fn step_spec(
    s: StatementView,
    code: i32,
    last: Option<Error>,
    row: Seq<Cell>,
) -> (StatementView, std::result::Result<State, ErrorView>) {
    if s.state == Some(State::Done) {
        (s, Ok(State::Done))
    } else if code == SQLITE_ROW {
        (StatementView { names: s.names, state: Some(State::Row), row: row }, Ok(State::Row))
    } else if code == SQLITE_DONE {
        (StatementView { names: s.names, state: Some(State::Done), row: Seq::empty() }, Ok(State::Done))
    } else {
        (
            StatementView { names: s.names, state: None, row: Seq::empty() },
            Err(engine_error_spec(code, last)),
        )
    }
}

/// A statement after a reset: as compiled, before its first step.
pub open spec fn reset_spec(s: StatementView) -> StatementView {
    StatementView { names: s.names, state: None, row: Seq::empty() }
}

/// Relies on `Rc::clone`: the new pointer shares the allocation, so it
/// sees the same map.
#[verifier::external_body]
fn share(mapping: &Rc<StringHashMap<usize>>) -> (r: Rc<StringHashMap<usize>>)
    ensures
        r@ == mapping@,
{
    Rc::clone(mapping)
}

impl Statement {
    /// Create a statement from the status code of its compilation and the
    /// names of its columns.
    pub fn new(code: i32, last: Option<Error>, column_names: Vec<String>) -> (r: Result<Statement>)
        ensures
            code == SQLITE_OK <==> r is Ok,
            r matches Ok(s) ==> s@ == (StatementView {
                names: names_view(column_names@),
                state: None,
                row: Seq::empty(),
            }),
            r matches Err(e) ==> e@ == engine_error_spec(code, last),
    {
        match check(code, last) {
            Ok(()) => {
                let column_mapping = Rc::new(index_names(&column_names));
                Ok(Statement { column_names, column_mapping, state: None, row: Vec::new() })
            },
            Err(e) => Err(e),
        }
    }

    /// Create a cursor over this statement.
    pub fn iter(&mut self) -> (r: crate::cursor::Cursor<'_>)
        ensures
            r@ == (old(self)@, false),
    {
        crate::cursor::new(self)
    }

    /// Create a cursor that takes this statement over.
    pub fn into_iter(self) -> (r: crate::cursor::CursorWithOwnership)
        ensures
            r@ == (self@, false),
    {
        crate::cursor::new_with_ownership(self)
    }

    /// Return the number of columns.
    pub fn column_count(&self) -> (r: usize)
        ensures
            r == self@.names.len(),
    {
        self.column_names.len()
    }

    /// Return the map from each column name to its position, shared; a
    /// name that several columns bear maps to the last of them.
    pub fn column_mapping(&self) -> (r: Rc<StringHashMap<usize>>)
        ensures
            indexes_names(r@, self@.names),
    {
        proof {
            use_type_invariant(self);
        }
        share(&self.column_mapping)
    }

    /// Return the names of the columns.
    pub fn column_names(&self) -> (r: &[String])
        ensures
            names_view(r@) == self@.names,
    {
        self.column_names.as_slice()
    }

    /// Return the name of a column.
    pub fn column_name<T: ColumnIndex>(&self, index: T) -> (r: Result<&str>)
        ensures
            match r {
                Ok(name) => index.column(self@.names) matches Some(i) && name@ == self@.names[i],
                Err(e) => index.column(self@.names) is None && e@ == message_error(
                    out_of_range_text(index.label()),
                ),
            },
    {
        let i = index.index(self)?;
        Ok(self.column_names[i].as_str())
    }

    /// Return the type of a column: that of the current row's column, or
    /// null when there is no current row.
    pub fn column_type<T: ColumnIndex>(&self, index: T) -> (r: Result<Type>)
        ensures
            match r {
                Ok(t) => index.column(self@.names) matches Some(i) && t == column_kind_at(self@, i),
                Err(e) => index.column(self@.names) is None && e@ == message_error(
                    out_of_range_text(index.label()),
                ),
            },
    {
        proof {
            use_type_invariant(self);
        }
        let i = index.index(self)?;
        match self.state {
            Some(State::Row) => Ok(self.row[i].kind()),
            _ => Ok(Type::Null),
        }
    }

    /// Read a value from a column.
    pub fn read<T: ValueInto, U: ColumnIndex>(&self, index: U) -> (r: Result<T>)
        ensures
            match r {
                Ok(x) => read_outcome::<T>(self@, index.column(self@.names), index.label()) == Ok::<
                    <T as DeepView>::V,
                    ErrorView,
                >(x.deep_view()),
                Err(e) => read_outcome::<T>(self@, index.column(self@.names), index.label()) == Err::<
                    <T as DeepView>::V,
                    ErrorView,
                >(e@),
            },
    {
        proof {
            use_type_invariant(self);
        }
        let i = index.index(self)?;
        let value = match self.state {
            Some(State::Row) => self.row[i].read()?,
            _ => Value::Null,
        };
        match T::into(&value) {
            Some(x) => Ok(x),
            None => Err(conversion_error()),
        }
    }

    /// Whether advancing needs a step of the engine: not once the statement
    /// has finished.
    pub fn needs_step(&self) -> (r: bool)
        ensures
            r == (self@.state != Some(State::Done)),
    {
        match self.state {
            Some(State::Done) => false,
            _ => true,
        }
    }

    /// Advance to the next state, given the status code of the engine's
    /// step, the connection's last error, and the columns of the row that
    /// it produced, if any.
    pub fn next(&mut self, code: i32, last: Option<Error>, row: Vec<Cell>) -> (r: Result<State>)
        requires
            code == SQLITE_ROW ==> row@.len() == old(self)@.names.len(),
        ensures
            (final(self)@, result_view(r)) == step_spec(old(self)@, code, last, row@),
    {
        proof {
            use_type_invariant(&*self);
        }
        if !self.needs_step() {
            return Ok(State::Done);
        }
        if code == SQLITE_ROW {
            self.row = row;
            self.state = Some(State::Row);
            Ok(State::Row)
        } else if code == SQLITE_DONE {
            self.state = Some(State::Done);
            self.row = Vec::new();
            Ok(State::Done)
        } else {
            self.state = None;
            self.row = Vec::new();
            Err(engine_error(code, last))
        }
    }

    /// Reset the internal state, given the status code of the engine's
    /// reset. The statement is back before its first step either way.
    pub fn reset(&mut self, code: i32, last: Option<Error>) -> (r: Result<()>)
        ensures
            final(self)@ == reset_spec(old(self)@),
            code == SQLITE_OK <==> r is Ok,
            r matches Err(e) ==> e@ == engine_error_spec(code, last),
    {
        proof {
            use_type_invariant(&*self);
        }
        self.state = None;
        self.row = Vec::new();
        check(code, last)
    }

    /// Read every column of the current row.
    pub(crate) fn current_values(&self) -> (r: Result<Vec<Value>>)
        requires
            self@.state == Some(State::Row),
        ensures
            match r {
                Ok(values) => row_readable(self@.row) && values_view(values@) == row_view(self@.row)
                    && values@.len() == self@.names.len(),
                Err(e) => !row_readable(self@.row) && e@ == message_error(text_column_text()),
            },
    {
        proof {
            use_type_invariant(self);
        }
        let mut values: Vec<Value> = Vec::with_capacity(self.row.len());
        let mut i: usize = 0;
        while i < self.row.len()
            invariant
                i <= self.row@.len(),
                values@.len() == i,
                forall|j: int| 0 <= j < i ==> (#[trigger] cell_value(self.row@[j])) == Some(values@[j]@),
            decreases self.row@.len() - i,
        {
            let value = match self.row[i].read() {
                Ok(v) => v,
                Err(e) => {
                    return Err(e);
                },
            };
            values.push(value);
            i = i + 1;
        }
        assert(values_view(values@) =~= row_view(self.row@));
        Ok(values)
    }

    /// Return the position of a named parameter, given what the engine's
    /// lookup answered: zero for a name that the statement does not hold.
    pub fn parameter_index(found: i32) -> (r: Option<usize>)
        requires
            found >= 0,
        ensures
            found == 0 <==> r is None,
            r matches Some(i) ==> i == found,
    {
        if found == 0 {
            None
        } else {
            Some(found as usize)
        }
    }

    /// Check a parameter position; the first parameter has position 1.
    pub fn parameter_position(index: usize) -> (r: Result<usize>)
        ensures
            index > 0 <==> r is Ok,
            r matches Ok(i) ==> i == index,
            r matches Err(e) ==> e@ == message_error(out_of_range_text(digits_of(index as nat))),
    {
        if index > 0 {
            Ok(index)
        } else {
            Err(out_of_range(digits(index as u64).as_str()))
        }
    }

    /// Resolve a named parameter, given its position if the statement holds it.
    pub fn named_parameter(name: &str, found: Option<usize>) -> (r: Result<usize>)
        ensures
            found is Some <==> r is Ok,
            r matches Ok(i) ==> found == Some(i),
            r matches Err(e) ==> e@ == message_error(out_of_range_text(name@)),
    {
        match found {
            Some(i) => Ok(i),
            None => Err(out_of_range(name)),
        }
    }
}

/// Once a step reports that the statement has finished, every further
/// step, whatever the engine would answer, reports it again and leaves the
/// statement as it is, until a reset.
pub proof fn lemma_done_is_final(s: StatementView, code: i32, last: Option<Error>, row: Seq<Cell>)
    requires
        step_spec(s, code, last, row).1 == Ok::<State, ErrorView>(State::Done),
    ensures
        forall|c: i32, l: Option<Error>, r: Seq<Cell>|
            #[trigger] step_spec(step_spec(s, code, last, row).0, c, l, r) == (
                step_spec(s, code, last, row).0,
                Ok::<State, ErrorView>(State::Done),
            ),
{
}

/// A statement that ran to its end and is then reset asks the engine again
/// on its next step, and a row that the engine then reports is what its
/// columns read as.
pub proof fn lemma_reset_reuses(s: StatementView, last: Option<Error>, row: Seq<Cell>)
    requires
        s.state == Some(State::Done),
        row.len() == s.names.len(),
    ensures
        reset_spec(s).names == s.names,
        step_spec(reset_spec(s), SQLITE_ROW, last, row) == (
            StatementView { names: s.names, state: Some(State::Row), row: row },
            Ok::<State, ErrorView>(State::Row),
        ),
        forall|i: int|
            0 <= i < row.len() ==> #[trigger] column_value(
                step_spec(reset_spec(s), SQLITE_ROW, last, row).0,
                i,
            ) == cell_value(row[i]),
{
}

/// A name that picks a column reads exactly as that column's position does.
pub proof fn lemma_name_reads_as_position<T: ValueInto>(s: StatementView, name: &str, i: usize)
    requires
        name.column(s.names) == Some(i as int),
    ensures
        i.column(s.names) == Some(i as int),
        read_outcome::<T>(s, name.column(s.names), name.label()) == read_outcome::<T>(
            s,
            i.column(s.names),
            i.label(),
        ),
{
    lemma_last_position(s.names, name@);
}

} // verus!
