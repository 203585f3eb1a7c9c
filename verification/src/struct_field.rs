use crate::ast::{Attribute, FieldData, FieldKind, FieldModel, KindModel, StructField, Ty,
    Visibility, DUMMY_NODE_ID};
use crate::attr::AttrBuilder;
use crate::ident::ToIdent;
use crate::invoke::{Identity, Invoke};
use crate::span::{respan, Span, Spanned};
use crate::ty::TyBuilder;
use vstd::prelude::*;

verus! {

/// Accumulates the pieces of one structure field — its sort (named or
/// positional, with visibility), a provenance span, and attributes — and,
/// once a type is supplied, finalizes an immutable field and hands it to its
/// continuation. The builder is consumed by finalization, so a finished
/// field can never be mutated through it again.
pub struct StructFieldBuilder<F = Identity> {
    pub callback: F,
    pub span: Span,
    pub kind: FieldKind,
    pub attrs: Vec<Attribute>,
}

/// The mathematical value of a `StructFieldBuilder`: the continuation it
/// will invoke, the span it records, its field sort, and its attributes in
/// insertion order.
#[verifier::ext_equal]
pub struct BuilderModel<F> {
    pub callback: F,
    pub span: Span,
    pub kind: KindModel,
    pub attrs: Seq<Attribute>,
}

impl<F> View for StructFieldBuilder<F> {
    type V = BuilderModel<F>;

    open spec fn view(&self) -> BuilderModel<F> {
        BuilderModel {
            callback: self.callback,
            span: self.span,
            kind: self.kind@,
            attrs: self.attrs@,
        }
    }
}

impl<F> BuilderModel<F> {
    /// The state of a fresh named-field builder: inherited visibility,
    /// unknown span, no attributes.
    pub open spec fn new_named(name: Seq<char>, callback: F) -> Self {
        BuilderModel {
            callback: callback,
            span: Span::dummy(),
            kind: KindModel::Named(name, Visibility::Inherited),
            attrs: Seq::empty(),
        }
    }

    /// The state of a fresh positional-field builder.
    pub open spec fn new_unnamed(callback: F) -> Self {
        BuilderModel {
            callback: callback,
            span: Span::dummy(),
            kind: KindModel::Unnamed(Visibility::Inherited),
            attrs: Seq::empty(),
        }
    }

    /// The state after overwriting the span.
    pub open spec fn with_span(self, span: Span) -> Self {
        BuilderModel { callback: self.callback, span: span, kind: self.kind, attrs: self.attrs }
    }

    /// The state after the field is made public, whichever sort it is.
    pub open spec fn made_public(self) -> Self {
        BuilderModel {
            callback: self.callback,
            span: self.span,
            kind: self.kind.with_vis(Visibility::Public),
            attrs: self.attrs,
        }
    }

    /// The state after one attribute is appended.
    pub open spec fn with_attr(self, attr: Attribute) -> Self {
        BuilderModel {
            callback: self.callback,
            span: self.span,
            kind: self.kind,
            attrs: self.attrs.push(attr),
        }
    }

    /// The state after a batch of attributes is appended, keeping order.
    pub open spec fn with_more_attrs(self, attrs: Seq<Attribute>) -> Self {
        BuilderModel {
            callback: self.callback,
            span: self.span,
            kind: self.kind,
            attrs: self.attrs + attrs,
        }
    }

    /// The field that finalizing this builder with `ty` yields: the current
    /// sort and attributes, the supplied type, the placeholder node id, all
    /// wrapped with the current span for provenance.
    pub open spec fn finalized(self, ty: Ty) -> Spanned<FieldModel> {
        Spanned {
            span: self.span,
            node: FieldModel { kind: self.kind, id: DUMMY_NODE_ID, ty: ty, attrs: self.attrs },
        }
    }
}

impl StructFieldBuilder {
    /// A named-field builder that hands the finished field straight back to
    /// the caller.
    pub fn named<T: ToIdent>(name: T) -> (r: StructFieldBuilder<Identity>)
        ensures
            r@ == BuilderModel::new_named(name.ident_name(), Identity),
    {
        StructFieldBuilder::named_with_callback(name, Identity)
    }

    /// A positional-field builder that hands the finished field straight
    /// back to the caller.
    pub fn unnamed() -> (r: StructFieldBuilder<Identity>)
        ensures
            r@ == BuilderModel::new_unnamed(Identity),
    {
        StructFieldBuilder::unnamed_with_callback(Identity)
    }
}

impl<F: Invoke<StructField>> StructFieldBuilder<F> {
    /// A named-field builder; the finished field will go to `callback`.
    pub fn named_with_callback<T: ToIdent>(id: T, callback: F) -> (r: Self)
        ensures
            r@ == BuilderModel::new_named(id.ident_name(), callback),
    {
        let ident = id.to_ident();
        StructFieldBuilder {
            callback,
            span: Span::dummy(),
            kind: FieldKind::Named(ident, Visibility::Inherited),
            attrs: Vec::new(),
        }
    }

    /// A positional-field builder; the finished field will go to `callback`.
    pub fn unnamed_with_callback(callback: F) -> (r: Self)
        ensures
            r@ == BuilderModel::new_unnamed(callback),
    {
        StructFieldBuilder {
            callback,
            span: Span::dummy(),
            kind: FieldKind::Unnamed(Visibility::Inherited),
            attrs: Vec::new(),
        }
    }

    /// Overwrites the span the finished field will be wrapped with; the last
    /// write before finalization wins.
    pub fn span(self, span: Span) -> (r: Self)
        ensures
            r@ == self@.with_span(span),
    {
        let mut b = self;
        b.span = span;
        b
    }

    /// Sets the field's visibility to `Public`, for either sort of field.
    /// Doing so again changes nothing further.
    pub fn pub_(self) -> (r: Self)
        ensures
            r@ == self@.made_public(),
    {
        let StructFieldBuilder { callback, span, kind, attrs } = self;
        let kind = match kind {
            FieldKind::Named(id, _) => FieldKind::Named(id, Visibility::Public),
            FieldKind::Unnamed(_) => FieldKind::Unnamed(Visibility::Public),
        };
        StructFieldBuilder { callback, span, kind, attrs }
    }

    /// Appends a batch of attributes after those already present, keeping
    /// their order.
    pub fn with_attrs(self, attrs: Vec<Attribute>) -> (r: Self)
        ensures
            r@ == self@.with_more_attrs(attrs@),
    {
        let mut b = self;
        let mut more = attrs;
        b.attrs.append(&mut more);
        b
    }

    /// Begins a nested attribute builder. The attribute it finishes is
    /// appended to this builder's list, and this builder is returned so the
    /// chain can continue; the current span is handed down so the attribute
    /// shares the field's provenance.
    pub fn attr(self) -> (r: AttrBuilder<Self>)
        ensures
            r.callback == self,
            r.span == self.span,
            r.args@ == Seq::<String>::empty(),
    {
        let span = self.span;
        AttrBuilder::with_callback(self).span(span)
    }

    /// The exact field value that `build_ty` constructs and hands to the
    /// continuation.
    pub open spec fn finalized_field(self, ty: Ty) -> StructField {
        Spanned {
            span: self.span,
            node: FieldData { kind: self.kind, id: DUMMY_NODE_ID, ty: ty, attrs: self.attrs },
        }
    }

    /// Finalizes the field: builds it from the accumulated sort, attributes
    /// and the supplied type, stamps the placeholder node id, wraps it with
    /// the current span, and invokes the continuation with it, returning
    /// whatever the continuation returns. The builder is consumed.
    pub fn build_ty(self, ty: Ty) -> (out: F::Output)
        ensures
            self.callback.invoke_ens(self.finalized_field(ty), out),
    {
        let StructFieldBuilder { callback, span, kind, attrs } = self;
        let node = FieldData { kind, id: DUMMY_NODE_ID, ty, attrs };
        callback.invoke(respan(span, node))
    }

    /// Begins a nested type builder. The type it finishes feeds back into
    /// `build_ty`, finalizing this field; the current span is handed down so
    /// the type shares the field's provenance.
    pub fn ty(self) -> (r: TyBuilder<Self>)
        ensures
            r.callback == self,
            r.span == self.span,
    {
        let span = self.span;
        TyBuilder::with_callback(self).span(span)
    }
}

/// A field builder is itself the continuation of its nested attribute
/// builder: the finished attribute is appended and the builder handed back,
/// which is attribute accumulation, not finalization.
impl<F> Invoke<Attribute> for StructFieldBuilder<F> {
    type Output = StructFieldBuilder<F>;

    open spec fn invoke_ens(self, attr: Attribute, out: StructFieldBuilder<F>) -> bool {
        out@ == self@.with_attr(attr)
    }

    fn invoke(self, attr: Attribute) -> (out: StructFieldBuilder<F>) {
        let mut b = self;
        b.attrs.push(attr);
        b
    }
}

/// A field builder is itself the continuation of its nested type builder:
/// the finished type finalizes the field.
impl<F: Invoke<StructField>> Invoke<Ty> for StructFieldBuilder<F> {
    type Output = F::Output;

    open spec fn invoke_ens(self, ty: Ty, out: F::Output) -> bool {
        self.callback.invoke_ens(self.finalized_field(ty), out)
    }

    fn invoke(self, ty: Ty) -> (out: F::Output) {
        self.build_ty(ty)
    }
}

/// The field a builder constructs agrees with its model: finalizing the
/// exec builder and finalizing its mathematical value are the same field.
pub proof fn lemma_finalized_field_view<F: Invoke<StructField>>(b: StructFieldBuilder<F>, ty: Ty)
    ensures
        b.finalized_field(ty)@ == b@.finalized(ty),
{
}

/// Finalizing a fresh named builder yields a field whose kind is the given
/// name with inherited visibility, whose type is the supplied one, with no
/// attributes and the unknown span.
pub proof fn lemma_named_finalize<F>(name: Seq<char>, callback: F, ty: Ty)
    ensures
        BuilderModel::new_named(name, callback).finalized(ty).node.kind == KindModel::Named(
            name,
            Visibility::Inherited,
        ),
        BuilderModel::new_named(name, callback).finalized(ty).node.ty == ty,
        BuilderModel::new_named(name, callback).finalized(ty).node.attrs
            == Seq::<Attribute>::empty(),
        BuilderModel::new_named(name, callback).finalized(ty).span == Span::dummy(),
{
}

/// Finalizing a fresh positional builder yields a field whose kind is
/// unnamed with inherited visibility, with the supplied type.
pub proof fn lemma_unnamed_finalize<F>(callback: F, ty: Ty)
    ensures
        BuilderModel::new_unnamed(callback).finalized(ty).node.kind == KindModel::Unnamed(
            Visibility::Inherited,
        ),
        BuilderModel::new_unnamed(callback).finalized(ty).node.ty == ty,
        BuilderModel::new_unnamed(callback).finalized(ty).node.attrs == Seq::<Attribute>::empty(),
{
}

/// Making a builder public and then finalizing yields a public field,
/// whichever sort of field the builder holds.
pub proof fn lemma_public_finalize<F>(b: BuilderModel<F>, ty: Ty)
    ensures
        b.made_public().finalized(ty).node.kind.vis() == Visibility::Public,
{
}

/// Making a builder public twice is the same as making it public once.
pub proof fn lemma_made_public_idempotent<F>(b: BuilderModel<F>)
    ensures
        b.made_public().made_public() == b.made_public(),
{
}

/// Attribute order is preserved: appending `a1` then `a2` one at a time, or
/// bulk-adding `[a1, a2]`, both extend the builder's attributes by `a1` then
/// `a2`, and finalization carries that sequence into the field unchanged.
pub proof fn lemma_attr_order<F>(b: BuilderModel<F>, a1: Attribute, a2: Attribute, ty: Ty)
    ensures
        b.with_attr(a1).with_attr(a2).attrs == b.attrs.push(a1).push(a2),
        b.with_more_attrs(seq![a1, a2]).attrs == b.attrs.push(a1).push(a2),
        b.with_attr(a1).with_attr(a2).finalized(ty).node.attrs == b.attrs.push(a1).push(a2),
{
    assert(b.attrs + seq![a1, a2] =~= b.attrs.push(a1).push(a2));
}

/// The span set by the explicit mutator is the span recorded on the
/// finalized field, and neither making the field public nor adding an
/// attribute disturbs it.
pub proof fn lemma_span_finalize<F>(b: BuilderModel<F>, sp: Span, a: Attribute, ty: Ty)
    ensures
        b.with_span(sp).finalized(ty).span == sp,
        b.with_span(sp).made_public().finalized(ty).span == sp,
        b.with_span(sp).with_attr(a).finalized(ty).span == sp,
{
}

/// With the identity continuation, finalization's return value is the
/// finalized field itself.
pub proof fn lemma_identity_finalize(b: StructFieldBuilder<Identity>, ty: Ty, out: StructField)
    requires
        b.callback.invoke_ens(b.finalized_field(ty), out),
    ensures
        out == b.finalized_field(ty),
{
}

} // verus!
