//! A typed access layer over an embedded SQL engine's prepared statements.
//!
//! The engine itself is driven by the caller, who hands each of its answers
//! (status codes, the columns of a row, the result of a lookup) to this
//! library. The library holds the rules that sit between the engine and
//! host values: the value model and its conversions in both directions,
//! the statement's stepping state machine, the cursor that turns steps into
//! materialized rows, and the errors that the engine's status codes become.
pub mod bind;
pub mod cursor;
pub mod descriptor;
pub mod error;
pub mod statement;
pub mod text;
pub mod value;

pub use bind::{Bindable, Binding, Parameter, ParameterIndex};
pub use cursor::{Cursor, CursorWithOwnership, Row, RowIndex};
pub use descriptor::{DBExecDescriptor, DBOpenDescriptor, DBPrepareDescriptor};
pub use error::{Error, Result};
pub use statement::{Cell, ColumnIndex, State, Statement};
pub use value::{BindableWithIndex, FloatBits, Type, Value, ValueInto};
