use vstd::prelude::*;

verus! {

/// A half-open range of byte positions in some source text. Builders record a
/// span on everything they construct so that later passes can point
/// diagnostics at the place a node came from.
#[derive(Clone, Copy, PartialEq, Eq, Structural, Debug)]
pub struct Span {
    pub lo: u32,
    pub hi: u32,
}

impl Span {
    /// The sentinel span of a node with no known source location. Every
    /// builder starts with it until a caller overrides the span.
    #[verifier::when_used_as_spec(dummy_spec)]
    pub fn dummy() -> (s: Span)
        ensures
            s == Span::dummy_spec(),
    {
        Span { lo: 0, hi: 0 }
    }

    /// The value `dummy` returns.
    pub open spec fn dummy_spec() -> Span {
        Span { lo: 0, hi: 0 }
    }
}

/// A node together with the span it is attributed to.
#[verifier::ext_equal]
#[derive(Clone, PartialEq, Eq, Debug)]
pub struct Spanned<T> {
    pub span: Span,
    pub node: T,
}

/// Attaches a span to a node.
pub fn respan<T>(span: Span, node: T) -> (r: Spanned<T>)
    ensures
        r == (Spanned { span: span, node: node }),
{
    Spanned { span, node }
}

impl<T: View> View for Spanned<T> {
    type V = Spanned<T::V>;

    open spec fn view(&self) -> Spanned<T::V> {
        Spanned { span: self.span, node: self.node@ }
    }
}

} // verus!
