use vstd::prelude::*;

verus! {

/// The decoration put above the declaration: the four automatic derivations.
pub open spec fn derive_line() -> Seq<char> {
    "#[derive(Clone, SerdeDiff, Serialize, Deserialize)]\n"@
}

pub open spec fn tr_open() -> Seq<char> {
    "impl Trackable<"@
}

pub open spec fn tr_sep() -> Seq<char> {
    ", "@
}

pub open spec fn tr_for() -> Seq<char> {
    "> for "@
}

pub open spec fn tr_sig() -> Seq<char> {
    " {\n    fn track<'notifier, I: Identifier>(&mut self, sender: &'notifier Sender<ModificationEvent<I>>, identifier: I) -> Tracker<'_, 'notifier, "@
}

pub open spec fn tr_new() -> Seq<char> {
    ", I> {\n        Tracker::new(self, sender, "@
}

pub open spec fn tr_close() -> Seq<char> {
    ", identifier)\n    }\n}"@
}

pub open spec fn gap() -> Seq<char> {
    "\n\n"@
}

pub open spec fn marker_open() -> Seq<char> {
    "impl TrackableMarker for "@
}

pub open spec fn marker_close() -> Seq<char> {
    " { }\n"@
}

/// The trackable-capability implementation generated for a type `name` with
/// strategy `strategy`: the strategy stands as the trait's second type
/// parameter, inside the tracker's type, and inside the tracker-construction
/// expression; the name stands as the trait's first type parameter, as the
/// implementing type, and inside the tracker's type.
pub open spec fn trackable_impl(name: Seq<char>, strategy: Seq<char>) -> Seq<char> {
    tr_open() + name + tr_sep() + strategy + tr_for() + name + tr_sig() + name + tr_sep()
        + strategy + tr_new() + strategy + tr_close()
}

/// The empty marker-capability implementation generated for a type `name`.
pub open spec fn marker_impl(name: Seq<char>) -> Seq<char> {
    marker_open() + name + marker_close()
}

/// The whole generated output: the declaration decorated with the automatic
/// derivations, then the two implementations.
pub open spec fn emitted_code(decl: Seq<char>, name: Seq<char>, strategy: Seq<char>) -> Seq<char> {
    derive_line() + decl + gap() + trackable_impl(name, strategy) + gap() + marker_impl(name)
}

/// Render the generated output for a declaration `decl` whose name is `name`,
/// with serialization strategy `strategy`.
pub fn emit_code(decl: &str, name: &str, strategy: &str) -> (r: String)
    ensures
        r@ == emitted_code(decl@, name@, strategy@),
{
    let mut code = String::from_str("#[derive(Clone, SerdeDiff, Serialize, Deserialize)]\n");
    code.append(decl);
    code.append("\n\n");
    code.append("impl Trackable<");
    code.append(name);
    code.append(", ");
    code.append(strategy);
    code.append("> for ");
    code.append(name);
    code.append(
        " {\n    fn track<'notifier, I: Identifier>(&mut self, sender: &'notifier Sender<ModificationEvent<I>>, identifier: I) -> Tracker<'_, 'notifier, ",
    );
    code.append(name);
    code.append(", ");
    code.append(strategy);
    code.append(", I> {\n        Tracker::new(self, sender, ");
    code.append(strategy);
    code.append(", identifier)\n    }\n}");
    code.append("\n\n");
    code.append("impl TrackableMarker for ");
    code.append(name);
    code.append(" { }\n");
    proof {
        assert(code@ =~= emitted_code(decl@, name@, strategy@));
    }
    code
}

/// A segment of a concatenation stands at its own offset.
proof fn lemma_embedded(pre: Seq<char>, seg: Seq<char>, post: Seq<char>, s: Seq<char>)
    requires
        s == pre + seg + post,
    ensures
        s.subrange(pre.len() as int, pre.len() as int + seg.len() as int) == seg,
{
    assert(s.subrange(pre.len() as int, pre.len() as int + seg.len() as int) =~= seg);
}

/// Where the generated implementations begin inside the emitted code.
pub open spec fn impls_pos(decl: Seq<char>) -> int {
    derive_line().len() as int + decl.len() as int + gap().len() as int
}

/// Where the strategy stands as the trait's second type parameter.
pub open spec fn strategy_param_pos(decl: Seq<char>, name: Seq<char>) -> int {
    impls_pos(decl) + tr_open().len() as int + name.len() as int + tr_sep().len() as int
}

/// Where the strategy stands inside the tracker-construction expression.
pub open spec fn strategy_tracker_pos(decl: Seq<char>, name: Seq<char>, strategy: Seq<char>) -> int {
    strategy_param_pos(decl, name) + strategy.len() as int + tr_for().len() as int + name.len() as int
        + tr_sig().len() as int + name.len() as int + tr_sep().len() as int + strategy.len() as int
        + tr_new().len() as int
}

/// Where the name stands as the trait's first type parameter.
pub open spec fn trackable_name_pos(decl: Seq<char>) -> int {
    impls_pos(decl) + tr_open().len() as int
}

/// Where the name stands as the type the trackable capability is implemented for.
pub open spec fn trackable_for_name_pos(decl: Seq<char>, name: Seq<char>, strategy: Seq<char>) -> int {
    strategy_param_pos(decl, name) + strategy.len() as int + tr_for().len() as int
}

/// Where the name stands as the type the marker capability is implemented for.
pub open spec fn marker_name_pos(decl: Seq<char>, name: Seq<char>, strategy: Seq<char>) -> int {
    impls_pos(decl) + trackable_impl(name, strategy).len() as int + gap().len() as int + marker_open().len() as int
}

/// The emitted code opens with the derive decoration followed by the original
/// declaration, verbatim.
pub proof fn lemma_emitted_layout(decl: Seq<char>, name: Seq<char>, strategy: Seq<char>)
    ensures
        emitted_code(decl, name, strategy).subrange(0, derive_line().len() as int)
            == derive_line(),
        emitted_code(decl, name, strategy).subrange(
            derive_line().len() as int,
            derive_line().len() as int + decl.len() as int,
        ) == decl,
{
    let e = emitted_code(decl, name, strategy);
    let post = gap() + trackable_impl(name, strategy) + gap() + marker_impl(name);
    assert(e =~= Seq::<char>::empty() + derive_line() + (decl + post));
    lemma_embedded(Seq::<char>::empty(), derive_line(), decl + post, e);
    assert(e =~= derive_line() + decl + post);
    lemma_embedded(derive_line(), decl, post, e);
}

/// The chosen strategy identifier stands, verbatim, both as the trait's second
/// type parameter and inside the tracker-construction expression of the
/// emitted code.
pub proof fn lemma_strategy_occurrences(decl: Seq<char>, name: Seq<char>, strategy: Seq<char>)
    ensures
        emitted_code(decl, name, strategy).subrange(
            strategy_param_pos(decl, name),
            strategy_param_pos(decl, name) + strategy.len() as int,
        ) == strategy,
        emitted_code(decl, name, strategy).subrange(
            strategy_tracker_pos(decl, name, strategy),
            strategy_tracker_pos(decl, name, strategy) + strategy.len() as int,
        ) == strategy,
{
    let e = emitted_code(decl, name, strategy);
    let pre1 = derive_line() + decl + gap() + tr_open() + name + tr_sep();
    let post1 = tr_for() + name + tr_sig() + name + tr_sep() + strategy + tr_new() + strategy
        + tr_close() + gap() + marker_impl(name);
    assert(e =~= pre1 + strategy + post1);
    lemma_embedded(pre1, strategy, post1, e);
    let pre2 = pre1 + strategy + tr_for() + name + tr_sig() + name + tr_sep() + strategy
        + tr_new();
    let post2 = tr_close() + gap() + marker_impl(name);
    assert(e =~= pre2 + strategy + post2);
    lemma_embedded(pre2, strategy, post2, e);
}

/// Both generated implementations bind to the declared type's name, verbatim:
/// as the trait's first type parameter, as the type the trackable capability
/// is implemented for, and as the type the marker capability is implemented
/// for.
pub proof fn lemma_name_occurrences(decl: Seq<char>, name: Seq<char>, strategy: Seq<char>)
    ensures
        emitted_code(decl, name, strategy).subrange(
            trackable_name_pos(decl),
            trackable_name_pos(decl) + name.len() as int,
        ) == name,
        emitted_code(decl, name, strategy).subrange(
            trackable_for_name_pos(decl, name, strategy),
            trackable_for_name_pos(decl, name, strategy) + name.len() as int,
        ) == name,
        emitted_code(decl, name, strategy).subrange(
            marker_name_pos(decl, name, strategy),
            marker_name_pos(decl, name, strategy) + name.len() as int,
        ) == name,
{
    let e = emitted_code(decl, name, strategy);
    let pre1 = derive_line() + decl + gap() + tr_open();
    let post1 = tr_sep() + strategy + tr_for() + name + tr_sig() + name + tr_sep() + strategy
        + tr_new() + strategy + tr_close() + gap() + marker_impl(name);
    assert(e =~= pre1 + name + post1);
    lemma_embedded(pre1, name, post1, e);
    let pre2 = pre1 + name + tr_sep() + strategy + tr_for();
    let post2 = tr_sig() + name + tr_sep() + strategy + tr_new() + strategy + tr_close() + gap()
        + marker_impl(name);
    assert(e =~= pre2 + name + post2);
    lemma_embedded(pre2, name, post2, e);
    let pre3 = derive_line() + decl + gap() + trackable_impl(name, strategy) + gap()
        + marker_open();
    let post3 = marker_close();
    assert(e =~= pre3 + name + post3);
    lemma_embedded(pre3, name, post3, e);
}

} // verus!
