use vstd::prelude::*;

use crate::error::{message_error, out_of_range_text, ErrorView, Result};
use crate::statement::Statement;
use crate::text::digits_of;
use crate::value::{BindableWithIndex, Value, ValueView};

verus! {

/// A parameter of a statement, picked by its position or by its name.
#[derive(Debug)]
pub enum Parameter {
    /// The position; the first parameter has position 1.
    Position(usize),
    /// The name, as written in the statement (`:name`).
    Name(String),
}

/// What a parameter picks, with its name as characters.
pub enum ParameterView {
    Position(usize),
    Name(Seq<char>),
}

impl View for Parameter {
    type V = ParameterView;

    open spec fn view(&self) -> ParameterView {
        match self {
            Parameter::Position(i) => ParameterView::Position(*i),
            Parameter::Name(n) => ParameterView::Name(n@),
        }
    }
}

/// A type suitable for indexing parameters in a prepared statement.
pub trait ParameterIndex: Copy {
    /// The parameter that this picks.
    spec fn parameter(self) -> ParameterView;

    /// Return the parameter that this picks.
    fn to_parameter(self) -> (r: Parameter)
        ensures
            r@ == self.parameter();
}

impl ParameterIndex for usize {
    open spec fn parameter(self) -> ParameterView {
        ParameterView::Position(self)
    }

    fn to_parameter(self) -> (r: Parameter) {
        Parameter::Position(self)
    }
}

impl<'a> ParameterIndex for &'a str {
    open spec fn parameter(self) -> ParameterView {
        ParameterView::Name(self@)
    }

    fn to_parameter(self) -> (r: Parameter) {
        Parameter::Name(String::from_str(self))
    }
}

/// What resolving a parameter gives: its position, given the position
/// that the engine's lookup found for a name.
pub open spec fn resolve_spec(p: ParameterView, found: Option<usize>) -> std::result::Result<
    usize,
    ErrorView,
> {
    match p {
        ParameterView::Position(i) => if i > 0 {
            Ok(i)
        } else {
            Err(message_error(out_of_range_text(digits_of(i as nat))))
        },
        ParameterView::Name(n) => match found {
            Some(i) => Ok(i),
            None => Err(message_error(out_of_range_text(n))),
        },
    }
}

impl Parameter {
    /// Resolve the parameter to its position, given what the engine's lookup
    /// found for a name; a position of 0 and an unknown name are errors.
    pub fn resolve(&self, found: Option<usize>) -> (r: Result<usize>)
        ensures
            match r {
                Ok(i) => resolve_spec(self@, found) == Ok::<usize, ErrorView>(i),
                Err(e) => resolve_spec(self@, found) == Err::<usize, ErrorView>(e@),
            },
    {
        match self {
            Parameter::Position(i) => Statement::parameter_position(*i),
            Parameter::Name(n) => Statement::named_parameter(n.as_str(), found),
        }
    }
}

/// A binding: a parameter and the value it gets.
pub type Binding = (Parameter, Value);

/// The views of a sequence of bindings.
pub open spec fn bindings_view(b: Seq<Binding>) -> Seq<(ParameterView, ValueView)> {
    Seq::new(b.len(), |i: int| (b[i].0@, b[i].1@))
}

/// A type suitable for binding to a prepared statement: the bindings it
/// makes, in the order in which they are made.
pub trait Bindable {
    /// The bindings that this makes.
    spec fn bindings(&self) -> Seq<(ParameterView, ValueView)>;

    /// Return the bindings that this makes.
    fn to_bindings(&self) -> (r: Vec<Binding>)
        ensures
            bindings_view(r@) == self.bindings();
}

impl<T: ParameterIndex, U: BindableWithIndex> Bindable for (T, U) {
    open spec fn bindings(&self) -> Seq<(ParameterView, ValueView)> {
        seq![(self.0.parameter(), self.1.bound())]
    }

    fn to_bindings(&self) -> (r: Vec<Binding>) {
        let r = vec![(self.0.to_parameter(), self.1.to_value())];
        assert(bindings_view(r@) =~= self.bindings());
        r
    }
}

impl<'a, T: BindableWithIndex> Bindable for &'a [T] {
    /// The values bind to the parameters in order, from position 1.
    open spec fn bindings(&self) -> Seq<(ParameterView, ValueView)> {
        Seq::new((*self)@.len(), |i: int| (ParameterView::Position((i + 1) as usize), (*self)@[i].bound()))
    }

    fn to_bindings(&self) -> (r: Vec<Binding>) {
        let items: &[T] = *self;
        let mut r: Vec<Binding> = Vec::with_capacity(items.len());
        let mut i: usize = 0;
        while i < items.len()
            invariant
                i <= items@.len(),
                items@ == (*self)@,
                r@.len() == i,
                bindings_view(r@) =~= self.bindings().subrange(0, i as int),
            decreases items@.len() - i,
        {
            let ghost before = r@;
            let value = items[i].to_value();
            r.push((Parameter::Position(i + 1), value));
            assert(r@ == before.push((Parameter::Position((i + 1) as usize), value)));
            assert(bindings_view(r@)[i as int] == self.bindings()[i as int]);
            assert forall|j: int| 0 <= j < i implies bindings_view(r@)[j] == bindings_view(before)[j] by {
                assert(r@[j] == before[j]);
            }
            i = i + 1;
            assert(bindings_view(r@) =~= self.bindings().subrange(0, i as int));
        }
        assert(self.bindings().subrange(0, i as int) =~= self.bindings());
        r
    }
}

impl<'a, T: ParameterIndex, U: BindableWithIndex> Bindable for &'a [(T, U)] {
    open spec fn bindings(&self) -> Seq<(ParameterView, ValueView)> {
        Seq::new((*self)@.len(), |i: int| ((*self)@[i].0.parameter(), (*self)@[i].1.bound()))
    }

    fn to_bindings(&self) -> (r: Vec<Binding>) {
        let items: &[(T, U)] = *self;
        let mut r: Vec<Binding> = Vec::with_capacity(items.len());
        let mut i: usize = 0;
        while i < items.len()
            invariant
                i <= items@.len(),
                items@ == (*self)@,
                r@.len() == i,
                bindings_view(r@) =~= self.bindings().subrange(0, i as int),
            decreases items@.len() - i,
        {
            let ghost before = r@;
            let (p, v) = &items[i];
            let b = (p.to_parameter(), v.to_value());
            r.push(b);
            assert(r@ == before.push(b));
            assert(bindings_view(r@)[i as int] == self.bindings()[i as int]);
            assert forall|j: int| 0 <= j < i implies bindings_view(r@)[j] == bindings_view(before)[j] by {
                assert(r@[j] == before[j]);
            }
            i = i + 1;
            assert(bindings_view(r@) =~= self.bindings().subrange(0, i as int));
        }
        assert(self.bindings().subrange(0, i as int) =~= self.bindings());
        r
    }
}

} // verus!
