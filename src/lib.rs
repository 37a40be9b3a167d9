//! Build descriptions of Rust items (structs, functions, traits, impls,
//! enums, generics and annotations) and render them as source text.
//!
//! Every entity implements [`SrcCode`]: its `generate` method returns the
//! rendered text, and the contract of `generate` states that text exactly as
//! a function of the entity's model.

pub mod annotation;
pub mod associated_types;
pub mod field;
pub mod function;
pub mod generics;
pub mod item_enum;
pub mod item_impl;
pub mod item_struct;
pub mod item_trait;
pub mod text;
pub mod traits;

pub use annotation::{Annotation, ClassificationError};
pub use associated_types::{AssociatedTypeDeclaration, AssociatedTypeDefinition};
pub use field::Field;
pub use function::{Function, FunctionBody, FunctionSignature, Parameter};
pub use generics::{Generic, Generics};
pub use item_enum::{Enum, Variant};
pub use item_impl::Impl;
pub use item_struct::Struct;
pub use item_trait::Trait;
pub use traits::{AnnotationExt, DocExt, FieldExt, SrcCode};
