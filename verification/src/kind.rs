//! The kinds of value that the engine knows, and their labels.

use crate::strings::str_eq;
use vstd::prelude::*;

verus! {

/// A kind of engine value.
#[derive(Clone, Copy, Debug, PartialEq, Eq, Structural, Hash)]
pub enum Type {
    Uninitialized,
    Undefined,
    Null,
    Bool,
    Int,
    Float,
    String,
    Symbol,
    Array,
    Function,
    Object,
    Module,
    Unknown,
}

impl Type {
    /// The label of the kind.
    pub open spec fn name(self) -> Seq<char> {
        match self {
            Type::Uninitialized => "Uninitialized"@,
            Type::Undefined => "Undefined"@,
            Type::Null => "Null"@,
            Type::Bool => "Bool"@,
            Type::Int => "Int"@,
            Type::Float => "Float"@,
            Type::String => "String"@,
            Type::Symbol => "Symbol"@,
            Type::Array => "Array"@,
            Type::Function => "Function"@,
            Type::Object => "Object"@,
            Type::Module => "Module"@,
            Type::Unknown => "Unknown"@,
        }
    }

    /// The kind that a label names, if it names one.
    pub open spec fn named(label: Seq<char>) -> Option<Type> {
        if exists|t: Type| #[trigger] t.name() == label {
            Some(choose|t: Type| #[trigger] t.name() == label)
        } else {
            None
        }
    }

    /// The label of the kind.
    pub fn as_str(self) -> (label: &'static str)
        ensures
            label@ == self.name(),
    {
        match self {
            Type::Uninitialized => "Uninitialized",
            Type::Undefined => "Undefined",
            Type::Null => "Null",
            Type::Bool => "Bool",
            Type::Int => "Int",
            Type::Float => "Float",
            Type::String => "String",
            Type::Symbol => "Symbol",
            Type::Array => "Array",
            Type::Function => "Function",
            Type::Object => "Object",
            Type::Module => "Module",
            Type::Unknown => "Unknown",
        }
    }

    /// Reads a label: the kind it names, or an error where it names none.
    /// Labels are matched exactly, letter case included.
    pub fn from_str(label: &str) -> (kind: Result<Type, ()>)
        ensures
            kind.ok() == Self::named(label@),
    {
        let found = if str_eq(label, "Uninitialized") {
            Some(Type::Uninitialized)
        } else if str_eq(label, "Undefined") {
            Some(Type::Undefined)
        } else if str_eq(label, "Null") {
            Some(Type::Null)
        } else if str_eq(label, "Bool") {
            Some(Type::Bool)
        } else if str_eq(label, "Int") {
            Some(Type::Int)
        } else if str_eq(label, "Float") {
            Some(Type::Float)
        } else if str_eq(label, "String") {
            Some(Type::String)
        } else if str_eq(label, "Symbol") {
            Some(Type::Symbol)
        } else if str_eq(label, "Array") {
            Some(Type::Array)
        } else if str_eq(label, "Function") {
            Some(Type::Function)
        } else if str_eq(label, "Object") {
            Some(Type::Object)
        } else if str_eq(label, "Module") {
            Some(Type::Module)
        } else if str_eq(label, "Unknown") {
            Some(Type::Unknown)
        } else {
            None
        };
        proof {
            lemma_names_distinct();
            match found {
                Some(t) => {
                    assert(t.name() == label@);
                },
                None => {
                    assert forall|t: Type| #[trigger] t.name() != label@ by {}
                },
            }
        }
        match found {
            Some(t) => Ok(t),
            None => Err(()),
        }
    }
}

/// No two kinds share a label.
pub proof fn lemma_names_distinct()
    ensures
        forall|a: Type, b: Type| #[trigger] a.name() == #[trigger] b.name() ==> a == b,
{
    reveal_strlit("Uninitialized");
    reveal_strlit("Undefined");
    reveal_strlit("Null");
    reveal_strlit("Bool");
    reveal_strlit("Int");
    reveal_strlit("Float");
    reveal_strlit("String");
    reveal_strlit("Symbol");
    reveal_strlit("Array");
    reveal_strlit("Function");
    reveal_strlit("Object");
    reveal_strlit("Module");
    reveal_strlit("Unknown");
    assert forall|a: Type, b: Type| #[trigger] a.name() == #[trigger] b.name() implies a == b by {
        if a != b {
            let x = a.name();
            let y = b.name();
            if x.len() == y.len() {
                assert(x[0] != y[0] || x[1] != y[1] || x[2] != y[2]);
            }
        }
    }
}

/// Reading the label of a kind gives the kind back.
pub proof fn lemma_named_name(t: Type)
    ensures
        Type::named(t.name()) == Some(t),
{
    lemma_names_distinct();
}

} // verus!
