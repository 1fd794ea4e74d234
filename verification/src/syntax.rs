use vstd::prelude::*;
use crate::args::{args_view, ArgView, AttrArg};

verus! {

/// Whether `s` is one well-formed identifier, exactly as the host language's
/// parser accepts it (keywords are not identifiers).
pub uninterp spec fn rust_ident(s: Seq<char>) -> bool;

/// The name of the type declaration that `s` forms: `Some` of the declared
/// identifier when `s` parses as one structural type declaration, `None`
/// otherwise.
pub uninterp spec fn decl_ident_of(s: Seq<char>) -> Option<Seq<char>>;

/// The attribute argument list that `s` forms: `Some` of its comma-separated
/// items when `s` parses as such a list, `None` otherwise.
pub uninterp spec fn meta_args_of(s: Seq<char>) -> Option<Seq<ArgView>>;

/// Relies on darling's `FromMeta` implementation for `syn::Ident`
/// (`from_string` hands the string to syn's identifier parser): it accepts
/// exactly the strings that form one identifier.
#[verifier::external_body]
pub(crate) fn ident_ok(s: &str) -> (r: bool)
    ensures
        r == rust_ident(s@),
{
    <syn::Ident as darling::FromMeta>::from_string(s).is_ok()
}

/// Relies on `syn::parse_str::<syn::DeriveInput>`: it accepts exactly the
/// strings that form one struct, enum or union declaration, and the parse
/// result's `ident` field carries the declared name.
#[verifier::external_body]
pub(crate) fn parse_decl_ident(s: &str) -> (r: Option<String>)
    ensures
        match r {
            Some(n) => decl_ident_of(s@) == Some(n@),
            None => decl_ident_of(s@) is None,
        },
{
    syn::parse_str::<syn::DeriveInput>(s).ok().map(|d| d.ident.to_string())
}

/// Relies on proc-macro2's token parser and on darling's
/// `NestedMeta::parse_meta_list`: together they split an attribute argument
/// list into its comma-separated items (an empty list for empty input). Each
/// `key = "value"` item keeps its key and its literal's contents; every other
/// item shape is kept as an opaque argument.
#[verifier::external_body]
pub(crate) fn parse_attr_args(s: &str) -> (r: Option<Vec<AttrArg>>)
    ensures
        match r {
            Some(v) => meta_args_of(s@) == Some(args_view(v@)) && (s@.len() == 0 ==> v@.len()
                == 0),
            None => meta_args_of(s@) is None && s@.len() > 0,
        },
{
    let tokens = s.parse::<proc_macro2::TokenStream>().ok()?;
    let metas = darling::ast::NestedMeta::parse_meta_list(tokens).ok()?;
    let mut out: Vec<AttrArg> = Vec::new();
    for m in metas {
        let mut arg = AttrArg::Other;
        if let darling::ast::NestedMeta::Meta(syn::Meta::NameValue(nv)) = m {
            if let (Some(id), syn::Expr::Lit(el)) = (nv.path.get_ident(), &nv.value) {
                if let syn::Lit::Str(ls) = &el.lit {
                    arg = AttrArg::NameValue { key: id.to_string(), value: ls.value() };
                }
            }
        }
        out.push(arg);
    }
    Some(out)
}

} // verus!
