//! The conditions a constructor can report.  All of them are recoverable
//! by the caller: a failure aborts one declaration's construction and
//! never corrupts previously accumulated table state.

use vstd::prelude::*;

verus! {

/// Why the front end itself could not be brought up.
#[derive(Debug)]
pub enum TypeCrawlerError {
    ClangInit { message: String },
}

/// Why an include path could not be added to the front end's search path.
#[derive(Debug)]
pub enum AddIncludePathError {
    DoesNotExist { path: String },
    NotADirectory { path: String },
}

/// Why a declaration could not be modeled.
#[derive(Debug)]
pub enum ParseError {
    /// A declaration lacks a required name, type or child.
    InvalidAst { context: String },
    /// A type the model does not represent, or one missing a required
    /// constituent type; `context` locates it by display name.
    UnsupportedType { context: String },
    /// A declaration kind that cannot appear at this position.
    UnsupportedEntity { at: String, context: String },
    /// The front end could not compute the bit offset of a field.
    Offsetof { field_name: String, struct_name: String },
    /// The front end could not compute a byte size.
    Sizeof { ty_name: String },
    /// The front end could not compute a byte alignment.
    Alignof { ty_name: String },
    /// A record reports no usable fields because these members are
    /// themselves invalid.
    InvalidFields { field_names: Vec<String>, struct_name: String },
    /// The front end reported a size, alignment and field layout that
    /// contradict each other.
    InconsistentLayout { ty_name: String },
}

/// The mathematical model of a [`ParseError`].
pub enum ParseErrorV {
    InvalidAst { context: Seq<char> },
    UnsupportedType { context: Seq<char> },
    UnsupportedEntity { at: Seq<char>, context: Seq<char> },
    Offsetof { field_name: Seq<char>, struct_name: Seq<char> },
    Sizeof { ty_name: Seq<char> },
    Alignof { ty_name: Seq<char> },
    InvalidFields { field_names: Seq<Seq<char>>, struct_name: Seq<char> },
    InconsistentLayout { ty_name: Seq<char> },
}

impl View for ParseError {
    type V = ParseErrorV;

    open spec fn view(&self) -> ParseErrorV {
        match self {
            ParseError::InvalidAst { context } => ParseErrorV::InvalidAst { context: context@ },
            ParseError::UnsupportedType { context } => (ParseErrorV::UnsupportedType {
                context: context@,
            }),
            ParseError::UnsupportedEntity { at, context } => (ParseErrorV::UnsupportedEntity {
                at: at@,
                context: context@,
            }),
            ParseError::Offsetof { field_name, struct_name } => (ParseErrorV::Offsetof {
                field_name: field_name@,
                struct_name: struct_name@,
            }),
            ParseError::Sizeof { ty_name } => ParseErrorV::Sizeof { ty_name: ty_name@ },
            ParseError::Alignof { ty_name } => ParseErrorV::Alignof { ty_name: ty_name@ },
            ParseError::InvalidFields { field_names, struct_name } => (ParseErrorV::InvalidFields {
                field_names: field_names.deep_view(),
                struct_name: struct_name@,
            }),
            ParseError::InconsistentLayout { ty_name } => (ParseErrorV::InconsistentLayout {
                ty_name: ty_name@,
            }),
        }
    }
}

} // verus!
