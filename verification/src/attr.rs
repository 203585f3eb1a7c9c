use crate::ast::Attribute;
use crate::invoke::Invoke;
use crate::span::Span;
use vstd::prelude::*;

verus! {

/// Builds one attribute for a waiting continuation. Arguments are collected
/// in call order; `build` closes the attribute under its name and hands it
/// over. A field builder nests one of these so that the finished attribute
/// comes back to it.
pub struct AttrBuilder<F> {
    pub callback: F,
    pub span: Span,
    pub args: Vec<String>,
}

impl<F: Invoke<Attribute>> AttrBuilder<F> {
    /// A fresh builder whose finished attribute will go to `callback`: no
    /// arguments yet, span unknown.
    pub fn with_callback(callback: F) -> (r: Self)
        ensures
            r.callback == callback,
            r.span == Span::dummy(),
            r.args@ == Seq::<String>::empty(),
    {
        AttrBuilder { callback, span: Span::dummy(), args: Vec::new() }
    }

    /// Overwrites the span the attribute will carry.
    pub fn span(self, span: Span) -> (r: Self)
        ensures
            r.callback == self.callback,
            r.span == span,
            r.args == self.args,
    {
        let mut b = self;
        b.span = span;
        b
    }

    /// Appends one argument to the attribute's parenthesized list.
    pub fn arg(self, arg: String) -> (r: Self)
        ensures
            r.callback == self.callback,
            r.span == self.span,
            r.args@ == self.args@.push(arg),
    {
        let mut b = self;
        b.args.push(arg);
        b
    }

    /// Closes the attribute under `name` — a bare word if no argument was
    /// added, a list such as `#[serde(default)]` otherwise — and hands it to
    /// the continuation, returning whatever the continuation returns.
    pub fn build(self, name: String) -> (out: F::Output)
        ensures
            self.callback.invoke_ens(
                (Attribute { span: self.span, name: name, args: self.args }),
                out,
            ),
    {
        let AttrBuilder { callback, span, args } = self;
        callback.invoke(Attribute { span, name, args })
    }
}

} // verus!
