use vstd::prelude::*;
use crate::args::{
    all_args_accepted, arg_accepted, args_view, config_of, lemma_config_ok_iff,
    lemma_config_single, message_of, parse_args, render_message, resolve_strategy, strategy_of,
    ArgView, AttrArg,
};
use crate::emit::{emit_code, emitted_code};
use crate::syntax::{decl_ident_of, meta_args_of, parse_attr_args, parse_decl_ident, rust_ident};

verus! {

/// What the processor hands back: the generated replacement code, or a
/// diagnostic describing why none was generated.
pub enum Expansion {
    Code(String),
    Diagnostic(String),
}

/// The mathematical image of the processor's output.
pub enum ExpansionView {
    Code(Seq<char>),
    Diagnostic(Seq<char>),
}

impl View for Expansion {
    type V = ExpansionView;

    open spec fn view(&self) -> ExpansionView {
        match self {
            Expansion::Code(s) => ExpansionView::Code(s@),
            Expansion::Diagnostic(s) => ExpansionView::Diagnostic(s@),
        }
    }
}

/// The diagnostic text for an annotated item that is no type declaration.
pub open spec fn decl_syntax_message() -> Seq<char> {
    "the annotated item does not parse as a struct, enum or union declaration"@
}

/// The diagnostic text for attribute arguments that form no argument list.
pub open spec fn attr_syntax_message() -> Seq<char> {
    "the attribute arguments do not parse as a list of `key = \"value\"` items"@
}

/// What the processor produces for a parsed argument list and a declaration:
/// a diagnostic when the declaration is no type declaration or the arguments
/// form no configuration, else the generated code for the declaration's name
/// and the configured (or default) strategy.
pub open spec fn expand_spec(args: Seq<ArgView>, decl: Seq<char>) -> ExpansionView {
    match decl_ident_of(decl) {
        None => ExpansionView::Diagnostic(decl_syntax_message()),
        Some(name) => match config_of(args, None) {
            Err(e) => ExpansionView::Diagnostic(message_of(e)),
            Ok(cfg) => ExpansionView::Code(emitted_code(decl, name, strategy_of(cfg))),
        },
    }
}

/// What the processor produces for raw attribute text and declaration text.
pub open spec fn track_spec(attr: Seq<char>, input: Seq<char>) -> ExpansionView {
    match meta_args_of(attr) {
        None => ExpansionView::Diagnostic(attr_syntax_message()),
        Some(args) => expand_spec(args, input),
    }
}

/// Rewrite one declaration under a parsed argument list: the declaration
/// decorated with the automatic derivations plus the two generated
/// implementations, or a diagnostic.
pub fn expand(args: &Vec<AttrArg>, decl: &str) -> (r: Expansion)
    ensures
        r@ == expand_spec(args_view(args@), decl@),
{
    let name = match parse_decl_ident(decl) {
        None => {
            return Expansion::Diagnostic(
                String::from_str(
                    "the annotated item does not parse as a struct, enum or union declaration",
                ),
            );
        },
        Some(n) => n,
    };
    match parse_args(args) {
        Err(e) => Expansion::Diagnostic(render_message(&e)),
        Ok(cfg) => {
            let strategy = resolve_strategy(cfg);
            Expansion::Code(emit_code(decl, name.as_str(), strategy.as_str()))
        },
    }
}

/// Rewrite one declaration under raw attribute argument text.
pub fn track(attr: &str, input: &str) -> (r: Expansion)
    ensures
        r@ == track_spec(attr@, input@),
{
    match parse_attr_args(attr) {
        None => Expansion::Diagnostic(
            String::from_str(
                "the attribute arguments do not parse as a list of `key = \"value\"` items",
            ),
        ),
        Some(args) => expand(&args, input),
    }
}

/// With an empty argument list, the emitted capability implementation's
/// strategy identifier is the built-in default, `Bincode`.
pub proof fn lemma_default_strategy(args: Seq<ArgView>, decl: Seq<char>, name: Seq<char>)
    requires
        decl_ident_of(decl) == Some(name),
        args.len() == 0,
    ensures
        expand_spec(args, decl) == ExpansionView::Code(emitted_code(decl, name, "Bincode"@)),
{
    lemma_config_ok_iff(args);
}

/// With the lone argument `serialization = "X"` for a well-formed identifier
/// `X`, the emitted implementation's strategy identifier is `X` verbatim;
/// where it stands inside the code is `emit::lemma_strategy_occurrences`.
pub proof fn lemma_chosen_strategy(decl: Seq<char>, name: Seq<char>, strategy: Seq<char>)
    requires
        decl_ident_of(decl) == Some(name),
        rust_ident(strategy),
    ensures
        expand_spec(seq![ArgView::NameValue { key: "serialization"@, value: strategy }], decl)
            == ExpansionView::Code(emitted_code(decl, name, strategy)),
{
    lemma_config_single(strategy);
}

/// An argument list that forms no configuration yields a diagnostic, and the
/// diagnostic's text depends on the arguments alone, never on the declaration:
/// nothing of the declaration's body stands in it.
pub proof fn lemma_bad_args_diagnose(args: Seq<ArgView>, decl1: Seq<char>, decl2: Seq<char>)
    requires
        !(args.len() <= 1 && all_args_accepted(args)),
        decl_ident_of(decl1) is Some,
        decl_ident_of(decl2) is Some,
    ensures
        expand_spec(args, decl1) matches ExpansionView::Diagnostic(m) && expand_spec(args, decl2)
            == ExpansionView::Diagnostic(m),
{
    lemma_config_ok_iff(args);
}

/// An argument list containing a key other than `serialization` never forms a
/// configuration: whatever the declaration, the output is a diagnostic.
pub proof fn lemma_unknown_key_diagnose(
    args: Seq<ArgView>,
    i: int,
    decl1: Seq<char>,
    decl2: Seq<char>,
)
    requires
        0 <= i < args.len(),
        args[i] matches ArgView::NameValue { key, .. } && key != "serialization"@,
        decl_ident_of(decl1) is Some,
        decl_ident_of(decl2) is Some,
    ensures
        expand_spec(args, decl1) matches ExpansionView::Diagnostic(m) && expand_spec(args, decl2)
            == ExpansionView::Diagnostic(m),
{
    assert(!arg_accepted(args[i]));
    lemma_bad_args_diagnose(args, decl1, decl2);
}

} // verus!
