//! An ABI-accurate model of C/C++ type declarations.
//!
//! Declaration information gathered by an external front end is turned into
//! a recursive type representation ([`TypeKind`]) together with concrete
//! declaration kinds ([`StructDecl`], [`UnionDecl`], [`EnumDecl`],
//! [`Typedef`]).  Every named type is kept in an insertion-ordered symbol
//! table ([`Types`]); tables built from independently parsed translation
//! units can be merged into one project-wide view with [`Types::extend`].

mod enum_decl;
mod env;
mod error;
mod field;
mod info;
mod kind;
mod search;
mod struct_decl;
mod structural;
mod table;
mod text;
mod typedef;
mod union_decl;

pub use enum_decl::{EnumConstant, EnumDecl};
pub use env::{Env, EnvOptions, WordSize};
pub use error::{AddIncludePathError, ParseError, TypeCrawlerError};
pub use field::Field;
pub use info::{
    ConstantInfo, ConstantKind, ElabDeclInfo, EnumInfo, MemberInfo, MemberKind, RecordInfo,
    RecordKind, TypeInfo, TypeShape, UnderlyingInfo,
};
pub use kind::TypeKind;
pub use table::{ExtendTypesError, Types};
pub use struct_decl::{StructDecl, StructField};
pub use typedef::Typedef;
pub use union_decl::UnionDecl;
