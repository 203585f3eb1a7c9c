use vstd::prelude::*;

verus! {

/// An identifier token: the name a named field is declared under.
#[derive(Clone, PartialEq, Eq, Debug)]
pub struct Ident {
    pub name: String,
}

impl View for Ident {
    type V = Seq<char>;

    open spec fn view(&self) -> Seq<char> {
        self.name@
    }
}

/// Conversion into an identifier token: any value that unambiguously names a
/// field. The conversion is deterministic and total: it yields the token
/// whose name is exactly `ident_name`.
pub trait ToIdent: Sized {
    /// The character sequence the value denotes.
    spec fn ident_name(self) -> Seq<char>;

    /// Produces the identifier token.
    fn to_ident(self) -> (r: Ident)
        ensures
            r@ == self.ident_name(),
    ;
}

impl ToIdent for Ident {
    open spec fn ident_name(self) -> Seq<char> {
        self@
    }

    fn to_ident(self) -> (r: Ident) {
        self
    }
}

impl ToIdent for String {
    open spec fn ident_name(self) -> Seq<char> {
        self@
    }

    fn to_ident(self) -> (r: Ident) {
        Ident { name: self }
    }
}

impl ToIdent for &str {
    open spec fn ident_name(self) -> Seq<char> {
        self@
    }

    fn to_ident(self) -> (r: Ident) {
        let name = self.to_string();
        proof {
            vstd::string::to_string_from_display_ensures_for_str(self, name);
        }
        Ident { name }
    }
}

} // verus!
