//! What the plugin reads of the q objects that it is called with.

use vstd::prelude::*;

verus! {

/// A q object, as far as the plugin reads it.
///
/// `Symbol`, `Int` and `Long` stand for the objects from which kxkdb's
/// `get_symbol`, `get_int` and `get_long` read a value; no object yields two
/// of them. `Other` stands for all the rest: lists, tables, the general null.
#[derive(Debug)]
pub enum QValue {
    Symbol(String),
    Int(i32),
    Long(i64),
    Other,
}

/// The mathematical content of a [`QValue`].
pub enum QValueView {
    Symbol(Seq<char>),
    Int(int),
    Long(int),
    Other,
}

impl View for QValue {
    type V = QValueView;

    open spec fn view(&self) -> QValueView {
        match self {
            QValue::Symbol(text) => QValueView::Symbol(text@),
            QValue::Int(i) => QValueView::Int(*i as int),
            QValue::Long(j) => QValueView::Long(*j as int),
            QValue::Other => QValueView::Other,
        }
    }
}

impl QValueView {
    /// The text of a symbol.
    pub open spec fn as_symbol(self) -> Option<Seq<char>> {
        match self {
            QValueView::Symbol(text) => Some(text),
            _ => None,
        }
    }

    /// The value of an int.
    pub open spec fn as_int(self) -> Option<int> {
        match self {
            QValueView::Int(i) => Some(i),
            _ => None,
        }
    }

    /// The value of a long.
    pub open spec fn as_long(self) -> Option<int> {
        match self {
            QValueView::Long(j) => Some(j),
            _ => None,
        }
    }

    /// A q symbol is a C string: its text holds no NUL.
    pub open spec fn wf(self) -> bool {
        self matches QValueView::Symbol(text) ==> !text.contains('\0')
    }
}

impl QValue {
    /// The text of a symbol.
    pub fn get_symbol(&self) -> (text: Option<&String>)
        ensures
            text is Some <==> self@.as_symbol() is Some,
            text matches Some(t) ==> self@.as_symbol() == Some(t@),
    {
        match self {
            QValue::Symbol(text) => Some(text),
            _ => None,
        }
    }

    /// The value of an int.
    pub fn get_int(&self) -> (value: Option<i32>)
        ensures
            value is Some <==> self@.as_int() is Some,
            value matches Some(i) ==> self@.as_int() == Some(i as int),
    {
        match self {
            QValue::Int(i) => Some(*i),
            _ => None,
        }
    }

    /// The value of a long.
    pub fn get_long(&self) -> (value: Option<i64>)
        ensures
            value is Some <==> self@.as_long() is Some,
            value matches Some(j) ==> self@.as_long() == Some(j as int),
    {
        match self {
            QValue::Long(j) => Some(*j),
            _ => None,
        }
    }
}

} // verus!
