use crate::ast::Ty;
use crate::invoke::Invoke;
use crate::span::Span;
use vstd::prelude::*;

verus! {

/// Builds one type reference for a waiting continuation. A field builder
/// nests one of these so that the finished type comes back to it and
/// finalizes the field.
pub struct TyBuilder<F> {
    pub callback: F,
    pub span: Span,
}

impl<F: Invoke<Ty>> TyBuilder<F> {
    /// A fresh builder whose finished type will go to `callback`; span
    /// unknown until overridden.
    pub fn with_callback(callback: F) -> (r: Self)
        ensures
            r.callback == callback,
            r.span == Span::dummy(),
    {
        TyBuilder { callback, span: Span::dummy() }
    }

    /// Overwrites the span the type will carry.
    pub fn span(self, span: Span) -> (r: Self)
        ensures
            r.callback == self.callback,
            r.span == span,
    {
        let mut b = self;
        b.span = span;
        b
    }

    /// Builds the path type named `path` at the builder's span and hands it
    /// to the continuation, returning whatever the continuation returns.
    pub fn id(self, path: String) -> (out: F::Output)
        ensures
            self.callback.invoke_ens((Ty { span: self.span, path: path }), out),
    {
        let TyBuilder { callback, span } = self;
        callback.invoke(Ty { span, path })
    }

    /// Hands a ready-made type to the continuation unchanged.
    pub fn build(self, ty: Ty) -> (out: F::Output)
        ensures
            self.callback.invoke_ens(ty, out),
    {
        let TyBuilder { callback, span: _ } = self;
        callback.invoke(ty)
    }
}

} // verus!
