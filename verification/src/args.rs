use vstd::prelude::*;
use crate::syntax::{ident_ok, rust_ident};

verus! {

/// One item of an attribute argument list, as the token parser hands it over:
/// either `key = "value"` with an identifier key and a string-literal value,
/// or any other argument shape, which the configuration never accepts.
pub enum AttrArg {
    NameValue { key: String, value: String },
    Other,
}

/// The mathematical image of one attribute argument.
pub enum ArgView {
    NameValue { key: Seq<char>, value: Seq<char> },
    Other,
}

impl View for AttrArg {
    type V = ArgView;

    open spec fn view(&self) -> ArgView {
        match self {
            AttrArg::NameValue { key, value } => ArgView::NameValue { key: key@, value: value@ },
            AttrArg::Other => ArgView::Other,
        }
    }
}

pub open spec fn args_view(s: Seq<AttrArg>) -> Seq<ArgView> {
    s.map_values(|a: AttrArg| a@)
}

/// The parsed configuration: the chosen serialization strategy identifier,
/// or none when the attribute names no strategy.
pub struct MacroArgs {
    pub serialization: Option<String>,
}

impl View for MacroArgs {
    type V = Option<Seq<char>>;

    open spec fn view(&self) -> Option<Seq<char>> {
        match self.serialization {
            Some(s) => Some(s@),
            None => None,
        }
    }
}

/// The one error kind of the processor: the argument list does not form a
/// valid configuration.
#[derive(Debug)]
pub enum ConfigError {
    UnknownKey { key: String },
    InvalidValue { value: String },
    Duplicate,
    Malformed,
}

/// The mathematical image of a configuration error.
pub enum ConfigErrorView {
    UnknownKey { key: Seq<char> },
    InvalidValue { value: Seq<char> },
    Duplicate,
    Malformed,
}

impl View for ConfigError {
    type V = ConfigErrorView;

    open spec fn view(&self) -> ConfigErrorView {
        match self {
            ConfigError::UnknownKey { key } => ConfigErrorView::UnknownKey { key: key@ },
            ConfigError::InvalidValue { value } => ConfigErrorView::InvalidValue { value: value@ },
            ConfigError::Duplicate => ConfigErrorView::Duplicate,
            ConfigError::Malformed => ConfigErrorView::Malformed,
        }
    }
}

/// Whether one argument is acceptable: `serialization = "<identifier>"`.
pub open spec fn arg_accepted(a: ArgView) -> bool {
    a matches ArgView::NameValue { key, value } && key == "serialization"@ && rust_ident(value)
}

/// What the argument list means, read left to right with `acc` holding the
/// strategy seen so far: the configuration it denotes, or the first error.
pub open spec fn config_of(s: Seq<ArgView>, acc: Option<Seq<char>>) -> Result<
    Option<Seq<char>>,
    ConfigErrorView,
>
    decreases s.len(),
{
    if s.len() == 0 {
        Ok(acc)
    } else {
        match s[0] {
            ArgView::NameValue { key, value } => {
                if key != "serialization"@ {
                    Err(ConfigErrorView::UnknownKey { key })
                } else if acc is Some {
                    Err(ConfigErrorView::Duplicate)
                } else if !rust_ident(value) {
                    Err(ConfigErrorView::InvalidValue { value })
                } else {
                    config_of(s.drop_first(), Some(value))
                }
            },
            ArgView::Other => Err(ConfigErrorView::Malformed),
        }
    }
}

pub open spec fn opt_str_view(o: Option<String>) -> Option<Seq<char>> {
    match o {
        Some(s) => Some(s@),
        None => None,
    }
}

/// Parse the argument list into a configuration: the empty list and the lone
/// `serialization = "<identifier>"` argument are accepted, everything else is
/// the first offending argument's error.
pub fn parse_args(args: &Vec<AttrArg>) -> (r: Result<MacroArgs, ConfigError>)
    ensures
        match r {
            Ok(cfg) => config_of(args_view(args@), None) == Ok::<Option<Seq<char>>, ConfigErrorView>(cfg@),
            Err(e) => config_of(args_view(args@), None) == Err::<Option<Seq<char>>, ConfigErrorView>(e@),
        },
{
    let serialization_key: String = String::from_str("serialization");
    let mut found: Option<String> = None;
    let mut i: usize = 0;
    proof {
        assert(args_view(args@).skip(0) =~= args_view(args@));
    }
    while i < args.len()
        invariant
            0 <= i <= args.len(),
            serialization_key@ == "serialization"@,
            config_of(args_view(args@), None) == config_of(
                args_view(args@).skip(i as int),
                opt_str_view(found),
            ),
        decreases args.len() - i,
    {
        let ghost rest = args_view(args@).skip(i as int);
        proof {
            assert(rest[0] == args@[i as int]@);
            assert(rest.drop_first() =~= args_view(args@).skip(i as int + 1));
        }
        match &args[i] {
            AttrArg::NameValue { key, value } => {
                if !(*key == serialization_key) {
                    return Err(ConfigError::UnknownKey { key: key.clone() });
                }
                if found.is_some() {
                    return Err(ConfigError::Duplicate);
                }
                if !ident_ok(value.as_str()) {
                    return Err(ConfigError::InvalidValue { value: value.clone() });
                }
                found = Some(value.clone());
            },
            AttrArg::Other => {
                return Err(ConfigError::Malformed);
            },
        }
        i = i + 1;
    }
    proof {
        assert(args_view(args@).skip(args@.len() as int) =~= Seq::<ArgView>::empty());
    }
    Ok(MacroArgs { serialization: found })
}

/// Whether every argument of the list is acceptable.
pub open spec fn all_args_accepted(s: Seq<ArgView>) -> bool {
    forall|i: int| 0 <= i < s.len() ==> arg_accepted(#[trigger] s[i])
}

proof fn lemma_config_ok_shape(s: Seq<ArgView>, acc: Option<Seq<char>>)
    requires
        config_of(s, acc) is Ok,
    ensures
        all_args_accepted(s),
        acc is Some ==> s.len() == 0,
        acc is None ==> s.len() <= 1,
    decreases s.len(),
{
    if s.len() > 0 {
        let rest = s.drop_first();
        lemma_config_ok_shape(rest, Some(s[0]->NameValue_value));
        assert forall|i: int| 0 <= i < s.len() implies arg_accepted(#[trigger] s[i]) by {
            if i > 0 {
                assert(s[i] == rest[i - 1]);
            }
        }
    }
}

/// An argument list forms a configuration exactly when every argument reads
/// `serialization = "<identifier>"` and at most one argument is given; the
/// empty list forms the empty configuration.
pub proof fn lemma_config_ok_iff(s: Seq<ArgView>)
    ensures
        config_of(s, None) is Ok <==> (s.len() <= 1 && all_args_accepted(s)),
        s.len() == 0 ==> config_of(s, None) == Ok::<Option<Seq<char>>, ConfigErrorView>(
            None::<Seq<char>>,
        ),
{
    if config_of(s, None) is Ok {
        lemma_config_ok_shape(s, None);
    }
    if s.len() == 1 && all_args_accepted(s) {
        assert(arg_accepted(s[0]));
        assert(s.drop_first() =~= Seq::<ArgView>::empty());
        assert(config_of(s.drop_first(), Some(s[0]->NameValue_value))
            == Ok::<Option<Seq<char>>, ConfigErrorView>(Some(s[0]->NameValue_value)));
    }
}

/// The lone argument `serialization = "<identifier>"` configures exactly that
/// identifier as the strategy.
pub proof fn lemma_config_single(value: Seq<char>)
    requires
        rust_ident(value),
    ensures
        config_of(seq![ArgView::NameValue { key: "serialization"@, value }], None)
            == Ok::<Option<Seq<char>>, ConfigErrorView>(Some(value)),
{
    let s = seq![ArgView::NameValue { key: "serialization"@, value }];
    assert(s.drop_first() =~= Seq::<ArgView>::empty());
    assert(s[0] == ArgView::NameValue { key: "serialization"@, value });
    assert(config_of(s.drop_first(), Some(value)) == Ok::<Option<Seq<char>>, ConfigErrorView>(
        Some(value),
    ));
}

/// The strategy the processor settles on: the configured identifier, or the
/// built-in default when none was configured.
pub open spec fn strategy_of(c: Option<Seq<char>>) -> Seq<char> {
    match c {
        Some(s) => s,
        None => "Bincode"@,
    }
}

/// The strategy identifier used when the attribute names none.
pub fn default_strategy() -> (r: String)
    ensures
        r@ == "Bincode"@,
{
    String::from_str("Bincode")
}

/// Resolve the serialization strategy: the configured identifier if present,
/// the default otherwise.
pub fn resolve_strategy(args: MacroArgs) -> (r: String)
    ensures
        r@ == strategy_of(args@),
{
    match args.serialization {
        Some(s) => s,
        None => default_strategy(),
    }
}

/// The diagnostic text rendered for each configuration error.
pub open spec fn message_of(e: ConfigErrorView) -> Seq<char> {
    match e {
        ConfigErrorView::UnknownKey { key } => "unknown attribute argument `"@ + key
            + "`; the only recognized argument is `serialization`"@,
        ConfigErrorView::InvalidValue { value } => "invalid serialization strategy `"@ + value
            + "`; expected an identifier"@,
        ConfigErrorView::Duplicate => "the `serialization` argument is given more than once"@,
        ConfigErrorView::Malformed => "unsupported attribute argument; expected `serialization = \"<identifier>\"`"@,
    }
}

/// Render a configuration error as its diagnostic text.
pub fn render_message(e: &ConfigError) -> (r: String)
    ensures
        r@ == message_of(e@),
{
    match e {
        ConfigError::UnknownKey { key } => {
            let mut m = String::from_str("unknown attribute argument `");
            m.append(key.as_str());
            m.append("`; the only recognized argument is `serialization`");
            proof {
                assert(m@ =~= message_of(e@));
            }
            m
        },
        ConfigError::InvalidValue { value } => {
            let mut m = String::from_str("invalid serialization strategy `");
            m.append(value.as_str());
            m.append("`; expected an identifier");
            proof {
                assert(m@ =~= message_of(e@));
            }
            m
        },
        ConfigError::Duplicate => String::from_str(
            "the `serialization` argument is given more than once",
        ),
        ConfigError::Malformed => String::from_str(
            "unsupported attribute argument; expected `serialization = \"<identifier>\"`",
        ),
    }
}

} // verus!
