use crate::ident::Ident;
use crate::span::{Span, Spanned};
use vstd::prelude::*;

verus! {

/// The placeholder node id carried by every freshly built field. Binding
/// fields to real, compiler-wide ids is a later pass's concern, so the
/// builder always stamps this sentinel.
pub const DUMMY_NODE_ID: u32 = 0xFFFF_FFFF;

/// Whether a field is visible outside its item. A field starts as
/// `Inherited` (visible only where the surrounding item says so) and can be
/// made `Public` by an explicit request, nothing else.
#[derive(Clone, Copy, PartialEq, Eq, Structural, Debug)]
pub enum Visibility {
    Inherited,
    Public,
}

/// A structured annotation on a declaration, such as `#[serde(default)]`:
/// a name, the arguments in its parentheses (none for a bare word such as
/// `#[default]`), and the span it is attributed to.
#[derive(Clone, PartialEq, Eq, Debug)]
pub struct Attribute {
    pub span: Span,
    pub name: String,
    pub args: Vec<String>,
}

/// A type reference, held as the printed path it denotes, with the span it
/// is attributed to.
#[derive(Clone, PartialEq, Eq, Debug)]
pub struct Ty {
    pub span: Span,
    pub path: String,
}

/// Which sort of field is being built: a named one (`x: T` in a record
/// struct) or a positional one (`T` in a tuple struct); either carries its
/// visibility. The sort is fixed when the builder is created; only the
/// visibility is ever mutated.
#[derive(Clone, PartialEq, Eq, Debug)]
pub enum FieldKind {
    Named(Ident, Visibility),
    Unnamed(Visibility),
}

/// The mathematical value of a `FieldKind`: the name stands as the character
/// sequence it denotes.
#[verifier::ext_equal]
pub enum KindModel {
    Named(Seq<char>, Visibility),
    Unnamed(Visibility),
}

impl View for FieldKind {
    type V = KindModel;

    open spec fn view(&self) -> KindModel {
        match self {
            FieldKind::Named(id, vis) => KindModel::Named(id@, *vis),
            FieldKind::Unnamed(vis) => KindModel::Unnamed(*vis),
        }
    }
}

impl KindModel {
    /// The visibility carried by either sort of field.
    pub open spec fn vis(self) -> Visibility {
        match self {
            KindModel::Named(_, v) => v,
            KindModel::Unnamed(v) => v,
        }
    }

    /// The same sort of field with its visibility replaced.
    pub open spec fn with_vis(self, vis: Visibility) -> KindModel {
        match self {
            KindModel::Named(n, _) => KindModel::Named(n, vis),
            KindModel::Unnamed(_) => KindModel::Unnamed(vis),
        }
    }
}

/// One finished structure field: its sort (with visibility), the placeholder
/// node id, its type, and its attributes in declaration order. Immutable
/// once built.
#[derive(Clone, PartialEq, Eq, Debug)]
pub struct FieldData {
    pub kind: FieldKind,
    pub id: u32,
    pub ty: Ty,
    pub attrs: Vec<Attribute>,
}

/// The mathematical value of a `FieldData`.
#[verifier::ext_equal]
pub struct FieldModel {
    pub kind: KindModel,
    pub id: u32,
    pub ty: Ty,
    pub attrs: Seq<Attribute>,
}

impl View for FieldData {
    type V = FieldModel;

    open spec fn view(&self) -> FieldModel {
        FieldModel { kind: self.kind@, id: self.id, ty: self.ty, attrs: self.attrs@ }
    }
}

/// A finished field together with its provenance: what finalization hands to
/// the continuation.
pub type StructField = Spanned<FieldData>;

} // verus!
