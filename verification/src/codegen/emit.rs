//! The Rust source that the `event`, `result` and `event_fn` attributes
//! stand for.
use vstd::prelude::*;
use super::bot_command::{
    BotParamsMather, BotParamsMatherTuple, FnArgShape, MatherPieceView, MatherView, PatShape,
    mather_pieces_view, mathers_view,
};
use super::event_arg::{
    AttrArg, EventArgView, args_have_command, args_to_source, is_args_source, literal_between, literal_of, lemma_wrapped, middle,
    wrapped_in,
};
use super::macros::{
    EventBody, EventBodyView, EventPlan, EventPlanView, event, event_fn, event_fn_message,
    event_fn_targets_spec, params_from, plan_event_spec, plan_result_spec, result,
};
use crate::text::{concat, decimal, push_str, u64_to_string};

verus! {

/// A pattern as written.
pub open spec fn pat_text(p: PatShape) -> Seq<char> {
    match p {
        PatShape::Ident(n) => n@,
        PatShape::Other(t) => t@,
    }
}

/// The pattern and type of the typed parameter at index `k`; empty texts
/// where there is none.
pub open spec fn param_at(args: Seq<FnArgShape>, k: int) -> (Seq<char>, Seq<char>) {
    if 0 <= k < args.len() {
        match args[k] {
            FnArgShape::Typed(p, t) => (pat_text(p), t@),
            FnArgShape::Receiver => (Seq::empty(), Seq::empty()),
        }
    } else {
        (Seq::empty(), Seq::empty())
    }
}

/// `pattern: type` for a parameter.
pub open spec fn decl_of(pt: (Seq<char>, Seq<char>)) -> Seq<char> {
    pt.0 + ": "@ + pt.1
}

/// The statement that takes the next command value into a parameter.
pub open spec fn get_param_src(pt: (Seq<char>, Seq<char>)) -> Seq<char> {
    "let "@ + decl_of(pt) + " = match ::proc_qq::matcher_get::<"@ + pt.1
        + ">(&mut matcher) { Some(value) => value, None => return Ok(false), }; "@
}

/// The statement that takes the next value of a run written together into
/// a parameter.
pub open spec fn tuple_get_src(pt: (Seq<char>, Seq<char>)) -> Seq<char> {
    "let "@ + decl_of(pt)
        + " = if let Some(np) = ps.pop() { let sub_matcher = ::proc_qq::TupleMatcher::new(np); match ::proc_qq::tuple_matcher_get::<"@
        + pt.1 + ">(sub_matcher) { Some(value) => value, None => return Ok(false), } } else { return Ok(false); }; "@
}

/// The parameter a piece binds, if any (a restricted parameter is bound as
/// a plain one).
pub open spec fn piece_param(p: MatherPieceView) -> Option<int> {
    match p {
        MatherPieceView::Command(_) => None,
        MatherPieceView::Params(k) => Some(k),
        MatherPieceView::Enum(k, _) => Some(k),
    }
}

/// What pieces add, for each parameter they bind, to the call of the
/// handler's body, to its parameter list, and to the statements that take
/// the values; and how many parameters they bind.
pub open spec fn pieces_parts(args: Seq<FnArgShape>, ps: Seq<MatherPieceView>) -> (
    Seq<char>,
    Seq<char>,
    Seq<char>,
    nat,
)
    decreases ps.len(),
{
    if ps.len() == 0 {
        (Seq::empty(), Seq::empty(), Seq::empty(), 0)
    } else {
        let r = pieces_parts(args, ps.drop_last());
        match piece_param(ps.last()) {
            None => r,
            Some(k) => {
                let pt = param_at(args, k);
                (r.0 + pt.0 + ", "@, r.1 + decl_of(pt) + ", "@, r.2 + tuple_get_src(pt), r.3 + 1)
            },
        }
    }
}

/// Whether `text` is the element of a tuple matcher for a piece.
pub open spec fn is_element_source(p: MatherPieceView, text: Seq<char>) -> bool {
    match p {
        MatherPieceView::Command(w) => literal_between(
            text,
            "::proc_qq::TupleMatcherElement::Command("@,
            w,
            "), "@,
        ),
        _ => text == "::proc_qq::TupleMatcherElement::Param, "@,
    }
}

/// Whether `text` is the elements of a tuple matcher for the pieces, in order.
pub open spec fn is_elements_source(ps: Seq<MatherPieceView>, text: Seq<char>) -> bool
    decreases ps.len(),
{
    if ps.len() == 0 {
        text.len() == 0
    } else {
        exists|k: int|
            #![trigger text.take(k)]
            0 <= k <= text.len() && is_elements_source(ps.drop_last(), text.take(k))
                && is_element_source(ps.last(), text.skip(k))
    }
}

/// What a command item adds to the call of the handler's body and to its
/// parameter list.
pub open spec fn mather_parts(args: Seq<FnArgShape>, m: MatherView) -> (Seq<char>, Seq<char>) {
    match m {
        MatherView::Command(_) => (Seq::empty(), Seq::empty()),
        MatherView::Params(k) => (param_at(args, k).0 + ", "@, decl_of(param_at(args, k)) + ", "@),
        MatherView::Enum(k, _) => (param_at(args, k).0 + ", "@, decl_of(param_at(args, k)) + ", "@),
        MatherView::Multiple(ps) => (pieces_parts(args, ps).0, pieces_parts(args, ps).1),
    }
}

/// What the command items add to the call of the handler's body and to
/// its parameter list, in order.
pub open spec fn mathers_parts(args: Seq<FnArgShape>, ms: Seq<MatherView>) -> (Seq<char>, Seq<char>)
    decreases ms.len(),
{
    if ms.len() == 0 {
        (Seq::empty(), Seq::empty())
    } else {
        let r = mathers_parts(args, ms.drop_last());
        let x = mather_parts(args, ms.last());
        (r.0 + x.0, r.1 + x.1)
    }
}

/// The start of the statements of a run of pieces written together.
pub open spec fn tuple_pre() -> Seq<char> {
    "let mut ps = if let Some(ps) = matcher.tuple_matcher(vec!["@
}

/// The rest of the statements of a run of pieces written together, which
/// binds `n` parameters with the statements `gets`.
pub open spec fn tuple_post(n: nat, gets: Seq<char>) -> Seq<char> {
    "]) { ps } else { return Ok(false); }; ps.reverse(); if ps.len() != "@ + decimal(n as int)
        + "usize { return Ok(false); } "@ + gets
}

/// Whether `text` is the statements that match a command item: a fixed
/// word must come next; a parameter takes the next value; a run written
/// together is matched as a whole and its values taken in order.
pub open spec fn is_mather_source(m: MatherView, args: Seq<FnArgShape>, text: Seq<char>) -> bool {
    match m {
        MatherView::Command(w) => literal_between(
            text,
            "if !matcher.match_command("@,
            w,
            ") { return Ok(false); } "@,
        ),
        MatherView::Params(k) => text == get_param_src(param_at(args, k)),
        MatherView::Enum(k, _) => text == get_param_src(param_at(args, k)),
        MatherView::Multiple(ps) => {
            let pp = pieces_parts(args, ps);
            let post = tuple_post(pp.3, pp.2);
            wrapped_in(text, tuple_pre(), post) && is_elements_source(ps, middle(text, tuple_pre(), post))
        },
    }
}

/// Whether `text` is the statements that match the command items, in order.
pub open spec fn is_gets_source(ms: Seq<MatherView>, args: Seq<FnArgShape>, text: Seq<char>) -> bool
    decreases ms.len(),
{
    if ms.len() == 0 {
        text.len() == 0
    } else {
        exists|k: int|
            #![trigger text.take(k)]
            0 <= k <= text.len() && is_gets_source(ms.drop_last(), args, text.take(k))
                && is_mather_source(ms.last(), args, text.skip(k))
    }
}

/// The struct a handler becomes, named after its function.
pub open spec fn struct_src(name: Seq<char>) -> Seq<char> {
    "#[allow(non_camel_case_types)] pub struct "@ + name + " {} "@
}

/// The start of the impl of the handler trait `tn` for `name`, up to the
/// body of `handle`, which takes the event as `decl`.
pub open spec fn handle_head(tn: Seq<char>, name: Seq<char>, decl: Seq<char>) -> Seq<char> {
    "#[::proc_qq::re_exports::async_trait::async_trait] impl "@ + tn + " for "@ + name
        + " { async fn handle(&self, "@ + decl + ") -> ::proc_qq::re_exports::anyhow::Result<bool> "@
}

/// The method that holds the handler's own body, with the parameters `ps`.
pub open spec fn raw_impl(name: Seq<char>, ps: Seq<char>, body: Seq<char>) -> Seq<char> {
    "impl "@ + name + " { async fn raw(&self, "@ + ps + ") -> ::proc_qq::re_exports::anyhow::Result<bool> "@
        + body + " } "@
}

/// The start of a `handle` that checks the filters first.
pub open spec fn filter_pre() -> Seq<char> {
    "{ if !::proc_qq::match_event_args_all("@
}

/// The rest of a `handle` that checks the filters, then runs the body.
pub open spec fn filtered_post(name: Seq<char>, pat: Seq<char>, decl: Seq<char>, body: Seq<char>) -> Seq<char> {
    ", "@ + pat + ".into())? { return Ok(false); } self.raw("@ + pat + ").await } } "@ + raw_impl(
        name,
        decl,
        body,
    )
}

/// After the filters: what a `handle` with a bot command does before it
/// matches the command's items.
pub open spec fn matcher_setup(pat: Seq<char>) -> Seq<char> {
    ", "@ + pat
        + ".into())? { return Ok(false); } use ::proc_qq::MessageChainPointTrait; let m_chan = "@
        + pat
        + ".message_chain().clone(); let mut m_vec = vec![]; for x in m_chan { m_vec.push(x); } let mut matcher = ::proc_qq::CommandMatcher::new(m_vec); "@
}

/// The rest of a `handle` with a bot command, after the items are matched:
/// nothing may be left over, then the body runs with the values taken.
pub open spec fn command_post(
    name: Seq<char>,
    pat: Seq<char>,
    decl: Seq<char>,
    parts: (Seq<char>, Seq<char>),
    body: Seq<char>,
) -> Seq<char> {
    "if matcher.not_blank() { return Ok(false); } self.raw("@ + pat + ", "@ + parts.0 + ").await } } "@
        + raw_impl(name, decl + ", "@ + parts.1, body)
}

/// Whether `text` is the filters' expression, then the setup of the
/// command matcher, then the statements that match the command's items.
pub open spec fn is_command_middle(
    f: Seq<EventArgView>,
    ms: Seq<MatherView>,
    args: Seq<FnArgShape>,
    pat: Seq<char>,
    text: Seq<char>,
) -> bool {
    exists|k: int|
        #![trigger text.take(k)]
        0 <= k <= text.len() && is_args_source(f, text.take(k)) && wrapped_in(
            text.skip(k),
            matcher_setup(pat),
            Seq::empty(),
        ) && is_gets_source(ms, args, middle(text.skip(k), matcher_setup(pat), Seq::empty()))
}

/// Whether `text` is the impl of the handler trait for a handler planned
/// as `p`: a plain handler's `handle` is its body; one with filters runs
/// its body, kept in `raw`, only when the message passes them, and answers
/// `Ok(false)` otherwise; one with a bot command also matches the command's
/// items and passes their values to `raw`.
pub open spec fn is_handle_source(
    name: Seq<char>,
    params: Seq<FnArgShape>,
    p: EventPlanView,
    body: Seq<char>,
    text: Seq<char>,
) -> bool {
    let pt = param_at(params, p.event_index);
    let decl = decl_of(pt);
    let head = handle_head(p.trait_name, name, decl);
    match p.body {
        EventBodyView::Plain => text == head + body + " } "@,
        EventBodyView::Filtered(f) => {
            let pre = head + filter_pre();
            let post = filtered_post(name, pt.0, decl, body);
            wrapped_in(text, pre, post) && is_args_source(f, middle(text, pre, post))
        },
        EventBodyView::Command(f, ms) => {
            let args = params.skip(p.param_skip);
            let pre = head + filter_pre();
            let post = command_post(name, pt.0, decl, mathers_parts(args, ms), body);
            wrapped_in(text, pre, post) && is_command_middle(f, ms, args, pt.0, middle(text, pre, post))
        },
    }
}

/// The start of the registration of a handler.
pub open spec fn into_pre(name: Seq<char>) -> Seq<char> {
    "impl Into<::proc_qq::ModuleEventHandler> for "@ + name
        + " { fn into(self) -> ::proc_qq::ModuleEventHandler { ::proc_qq::ModuleEventHandler { name: "@
}

/// The end of the registration of a handler under the variant `en`.
pub open spec fn into_post(en: Seq<char>) -> Seq<char> {
    ".into(), process: "@ + en + "(Box::new(self)), } } } "@
}

/// Whether `text` is the source the `event` attribute stands for, for the
/// function `name` planned as `p`: the struct named after the function,
/// the impl of its handler trait, and its registration as a module
/// handler named after the function, under the plan's variant.
pub open spec fn is_event_source(
    name: Seq<char>,
    params: Seq<FnArgShape>,
    p: EventPlanView,
    body: Seq<char>,
    text: Seq<char>,
) -> bool {
    let s = struct_src(name);
    &&& text.len() >= s.len()
    &&& text.take(s.len() as int) == s
    &&& exists|k: int|
        #![trigger text.take(k)]
        s.len() <= k <= text.len() && is_handle_source(name, params, p, body, text.subrange(s.len() as int, k))
            && literal_between(text.skip(k), into_pre(name), name, into_post(p.enum_name))
}

/// The source the `result` attribute stands for, up to the handler's name
/// in its registration.
pub open spec fn result_pre(name: Seq<char>, params: Seq<FnArgShape>, body: Seq<char>) -> Seq<char> {
    struct_src(name)
        + "#[::proc_qq::re_exports::async_trait::async_trait] impl ::proc_qq::OnlyResultHandler for "@
        + name + " { async fn handle(&self, "@ + decl_of(param_at(params, 0))
        + ") -> ::proc_qq::re_exports::anyhow::Result<bool> "@ + body
        + " } impl Into<::proc_qq::EventResultHandler> for "@ + name
        + " { fn into(self) -> ::proc_qq::EventResultHandler { ::proc_qq::EventResultHandler { name: "@
}

/// The end of the source the `result` attribute stands for.
pub open spec fn result_post() -> Seq<char> {
    ".into(), process: ::proc_qq::ResultProcess::OnlyResult(Box::new(self)), } } } "@
}

/// Whether `text` is the source the `result` attribute stands for: the
/// struct named after the function, its `OnlyResultHandler` impl whose
/// `handle` is the function's body, and its registration named after the
/// function.
pub open spec fn is_result_source(name: Seq<char>, params: Seq<FnArgShape>, body: Seq<char>, text: Seq<char>) -> bool {
    literal_between(text, result_pre(name, params, body), name, result_post())
}

/// The typed parameters, each after a comma (the receiver left out).
pub open spec fn typed_params_src(params: Seq<FnArgShape>) -> Seq<char>
    decreases params.len(),
{
    if params.len() == 0 {
        Seq::empty()
    } else {
        typed_params_src(params.drop_last()) + match params.last() {
            FnArgShape::Receiver => Seq::empty(),
            FnArgShape::Typed(p, t) => ", "@ + pat_text(p) + ": "@ + t@,
        }
    }
}

/// The method that `event_fn` adds to the struct `target`: the function,
/// with `&self` before its own parameters.
pub open spec fn event_fn_impl(
    target: Seq<char>,
    vis: Seq<char>,
    is_async: bool,
    method: Seq<char>,
    params: Seq<FnArgShape>,
    body: Seq<char>,
) -> Seq<char> {
    "impl "@ + target + " { "@ + vis + (if is_async {
        " async"@
    } else {
        Seq::empty()
    }) + " fn "@ + method + "(&self"@ + typed_params_src(params) + ") "@ + body + " } "@
}

/// The source the `event_fn` attribute stands for: one impl per target,
/// in order.
pub open spec fn event_fn_source_spec(
    targets: Seq<Seq<char>>,
    vis: Seq<char>,
    is_async: bool,
    method: Seq<char>,
    params: Seq<FnArgShape>,
    body: Seq<char>,
) -> Seq<char>
    decreases targets.len(),
{
    if targets.len() == 0 {
        Seq::empty()
    } else {
        event_fn_source_spec(targets.drop_last(), vis, is_async, method, params, body)
            + event_fn_impl(targets.last(), vis, is_async, method, params, body)
    }
}

/// The filters of a plan with a bot command.
pub open spec fn event_args_view_of(p: EventPlanView) -> Seq<EventArgView> {
    match p.body {
        EventBodyView::Command(f, _) => f,
        EventBodyView::Filtered(f) => f,
        EventBodyView::Plain => Seq::empty(),
    }
}

/// The command items of a plan with a bot command.
pub open spec fn mathers_of(p: EventPlanView) -> Seq<MatherView> {
    match p.body {
        EventBodyView::Command(_, ms) => ms,
        _ => Seq::empty(),
    }
}

/// `a` then `b` split where `a` ends.
pub proof fn lemma_split(a: Seq<char>, b: Seq<char>)
    ensures
        (a + b).take(a.len() as int) == a,
        (a + b).skip(a.len() as int) == b,
{
    assert((a + b).take(a.len() as int) =~= a);
    assert((a + b).skip(a.len() as int) =~= b);
}

fn pat_str(p: &PatShape) -> (r: String)
    ensures
        r@ == pat_text(*p),
{
    match p {
        PatShape::Ident(n) => n.clone(),
        PatShape::Other(t) => t.clone(),
    }
}

fn param_strs(args: &Vec<FnArgShape>, k: usize) -> (r: (String, String))
    ensures
        (r.0@, r.1@) == param_at(args@, k as int),
{
    if k < args.len() {
        match &args[k] {
            FnArgShape::Typed(p, t) => (pat_str(p), t.clone()),
            FnArgShape::Receiver => (String::new(), String::new()),
        }
    } else {
        (String::new(), String::new())
    }
}

fn decl_str(pt: &(String, String)) -> (r: String)
    ensures
        r@ == decl_of((pt.0@, pt.1@)),
{
    let mut r = concat(pt.0.as_str(), ": ");
    push_str(&mut r, pt.1.as_str());
    r
}

fn tuple_get_str(pt: &(String, String)) -> (r: String)
    ensures
        r@ == tuple_get_src((pt.0@, pt.1@)),
{
    let mut r = concat("let ", decl_str(pt).as_str());
    push_str(
        &mut r,
        " = if let Some(np) = ps.pop() { let sub_matcher = ::proc_qq::TupleMatcher::new(np); match ::proc_qq::tuple_matcher_get::<",
    );
    push_str(&mut r, pt.1.as_str());
    push_str(
        &mut r,
        ">(sub_matcher) { Some(value) => value, None => return Ok(false), } } else { return Ok(false); }; ",
    );
    r
}

fn get_param_str(pt: &(String, String)) -> (r: String)
    ensures
        r@ == get_param_src((pt.0@, pt.1@)),
{
    let mut r = concat("let ", decl_str(pt).as_str());
    push_str(&mut r, " = match ::proc_qq::matcher_get::<");
    push_str(&mut r, pt.1.as_str());
    push_str(&mut r, ">(&mut matcher) { Some(value) => value, None => return Ok(false), }; ");
    r
}

fn piece_param_exec(p: &BotParamsMatherTuple) -> (r: Option<usize>)
    ensures
        match piece_param(p@) {
            Some(k) => r == Some(k as usize) && k == r->0 as int,
            None => r is None,
        },
{
    match p {
        BotParamsMatherTuple::Command(_) => None,
        BotParamsMatherTuple::Params(k) => Some(*k),
        BotParamsMatherTuple::Enum(k, _) => Some(*k),
    }
}

/// What the pieces add to the call, the parameter list and the statements,
/// and how many parameters they bind.
fn pieces_strs(args: &Vec<FnArgShape>, ps: &Vec<BotParamsMatherTuple>) -> (r: (String, String, String, usize))
    ensures
        (r.0@, r.1@, r.2@, r.3 as nat) == pieces_parts(args@, mather_pieces_view(ps@)),
{
    let ghost v = mather_pieces_view(ps@);
    let mut call = String::new();
    let mut raw = String::new();
    let mut gets = String::new();
    let mut n: usize = 0;
    let mut i: usize = 0;
    assert(v.take(0) =~= Seq::<MatherPieceView>::empty());
    while i < ps.len()
        invariant
            v == mather_pieces_view(ps@),
            i <= ps@.len(),
            n <= i,
            (call@, raw@, gets@, n as nat) == pieces_parts(args@, v.take(i as int)),
        decreases ps@.len() - i,
    {
        assert(v.take(i + 1).drop_last() =~= v.take(i as int));
        assert(v.take(i + 1).last() == ps@[i as int]@);
        match piece_param_exec(&ps[i]) {
            Some(k) => {
                let pt = param_strs(args, k);
                push_str(&mut call, pt.0.as_str());
                push_str(&mut call, ", ");
                push_str(&mut raw, decl_str(&pt).as_str());
                push_str(&mut raw, ", ");
                push_str(&mut gets, tuple_get_str(&pt).as_str());
                n = n + 1;
            },
            None => {},
        }
        i = i + 1;
    }
    assert(v.take(ps@.len() as int) =~= v);
    (call, raw, gets, n)
}

fn element_str(p: &BotParamsMatherTuple) -> (r: String)
    ensures
        is_element_source(p@, r@),
{
    match p {
        BotParamsMatherTuple::Command(w) => {
            let lit = literal_of(w.as_str());
            let mut r = concat("::proc_qq::TupleMatcherElement::Command(", lit.as_str());
            push_str(&mut r, "), ");
            proof {
                lemma_wrapped("::proc_qq::TupleMatcherElement::Command("@, lit@, "), "@);
            }
            r
        },
        _ => "::proc_qq::TupleMatcherElement::Param, ".to_owned(),
    }
}

fn elements_str(ps: &Vec<BotParamsMatherTuple>) -> (r: String)
    ensures
        is_elements_source(mather_pieces_view(ps@), r@),
{
    let ghost v = mather_pieces_view(ps@);
    let mut r = String::new();
    let mut i: usize = 0;
    assert(v.take(0) =~= Seq::<MatherPieceView>::empty());
    while i < ps.len()
        invariant
            v == mather_pieces_view(ps@),
            i <= ps@.len(),
            is_elements_source(v.take(i as int), r@),
        decreases ps@.len() - i,
    {
        let x = element_str(&ps[i]);
        let ghost before = r@;
        push_str(&mut r, x.as_str());
        proof {
            let s1 = v.take(i + 1);
            assert(s1.drop_last() =~= v.take(i as int));
            assert(s1.last() == ps@[i as int]@);
            lemma_split(before, x@);
            assert(is_elements_source(s1.drop_last(), r@.take(before.len() as int)));
            assert(is_elements_source(s1, r@));
        }
        i = i + 1;
    }
    assert(v.take(ps@.len() as int) =~= v);
    r
}

fn mather_strs(args: &Vec<FnArgShape>, m: &BotParamsMather) -> (r: (String, String, String))
    ensures
        (r.0@, r.1@) == mather_parts(args@, m@),
        is_mather_source(m@, args@, r.2@),
{
    match m {
        BotParamsMather::Command(w) => {
            let lit = literal_of(w.as_str());
            let mut g = concat("if !matcher.match_command(", lit.as_str());
            push_str(&mut g, ") { return Ok(false); } ");
            proof {
                lemma_wrapped("if !matcher.match_command("@, lit@, ") { return Ok(false); } "@);
            }
            (String::new(), String::new(), g)
        },
        BotParamsMather::Params(k) => {
            let pt = param_strs(args, *k);
            let call = concat(pt.0.as_str(), ", ");
            let raw = concat(decl_str(&pt).as_str(), ", ");
            (call, raw, get_param_str(&pt))
        },
        BotParamsMather::Enum(k, _) => {
            let pt = param_strs(args, *k);
            let call = concat(pt.0.as_str(), ", ");
            let raw = concat(decl_str(&pt).as_str(), ", ");
            (call, raw, get_param_str(&pt))
        },
        BotParamsMather::Multiple(ps) => {
            let (call, raw, gets, n) = pieces_strs(args, ps);
            let elems = elements_str(ps);
            let mut post = concat("]) { ps } else { return Ok(false); }; ps.reverse(); if ps.len() != ", u64_to_string(n as u64).as_str());
            push_str(&mut post, "usize { return Ok(false); } ");
            push_str(&mut post, gets.as_str());
            let mut g = concat("let mut ps = if let Some(ps) = matcher.tuple_matcher(vec![", elems.as_str());
            push_str(&mut g, post.as_str());
            proof {
                assert(post@ == tuple_post(n as nat, gets@));
                lemma_wrapped(tuple_pre(), elems@, post@);
            }
            (call, raw, g)
        },
    }
}

/// What the command items add to the call and the parameter list, and the
/// statements that match them.
fn mathers_strs(args: &Vec<FnArgShape>, ms: &Vec<BotParamsMather>) -> (r: (String, String, String))
    ensures
        (r.0@, r.1@) == mathers_parts(args@, mathers_view(ms@)),
        is_gets_source(mathers_view(ms@), args@, r.2@),
{
    let ghost v = mathers_view(ms@);
    let mut call = String::new();
    let mut raw = String::new();
    let mut gets = String::new();
    let mut i: usize = 0;
    assert(v.take(0) =~= Seq::<MatherView>::empty());
    while i < ms.len()
        invariant
            v == mathers_view(ms@),
            i <= ms@.len(),
            (call@, raw@) == mathers_parts(args@, v.take(i as int)),
            is_gets_source(v.take(i as int), args@, gets@),
        decreases ms@.len() - i,
    {
        let (c, w, g) = mather_strs(args, &ms[i]);
        let ghost before = gets@;
        push_str(&mut call, c.as_str());
        push_str(&mut raw, w.as_str());
        push_str(&mut gets, g.as_str());
        proof {
            let s1 = v.take(i + 1);
            assert(s1.drop_last() =~= v.take(i as int));
            assert(s1.last() == ms@[i as int]@);
            lemma_split(before, g@);
            assert(is_gets_source(s1.drop_last(), args@, gets@.take(before.len() as int)));
            assert(is_gets_source(s1, args@, gets@));
        }
        i = i + 1;
    }
    assert(v.take(ms@.len() as int) =~= v);
    (call, raw, gets)
}

fn raw_impl_str(name: &String, ps: &String, body: &String) -> (r: String)
    ensures
        r@ == raw_impl(name@, ps@, body@),
{
    let mut r = concat("impl ", name.as_str());
    push_str(&mut r, " { async fn raw(&self, ");
    push_str(&mut r, ps.as_str());
    push_str(&mut r, ") -> ::proc_qq::re_exports::anyhow::Result<bool> ");
    push_str(&mut r, body.as_str());
    push_str(&mut r, " } ");
    r
}

fn handle_str(name: &String, params: &Vec<FnArgShape>, plan: &EventPlan, body: &String) -> (r: String)
    requires
        plan.param_skip <= params.len(),
        plan@.body matches EventBodyView::Filtered(f) ==> !args_have_command(f),
        plan@.body matches EventBodyView::Command(f, _) ==> !args_have_command(f),
    ensures
        is_handle_source(name@, params@, plan@, body@, r@),
{
    let ghost pv = plan@;
    let pt = param_strs(params, plan.event_index);
    let decl = decl_str(&pt);
    let mut head = concat("#[::proc_qq::re_exports::async_trait::async_trait] impl ", plan.trait_name.as_str());
    push_str(&mut head, " for ");
    push_str(&mut head, name.as_str());
    push_str(&mut head, " { async fn handle(&self, ");
    push_str(&mut head, decl.as_str());
    push_str(&mut head, ") -> ::proc_qq::re_exports::anyhow::Result<bool> ");
    assert(head@ == handle_head(pv.trait_name, name@, decl@));
    match &plan.body {
        EventBody::Plain => {
            let mut h = concat(head.as_str(), body.as_str());
            push_str(&mut h, " } ");
            h
        },
        EventBody::Filtered(f) => {
            let a = args_to_source(f);
            let pre = concat(head.as_str(), "{ if !::proc_qq::match_event_args_all(");
            let mut post = concat(", ", pt.0.as_str());
            push_str(&mut post, ".into())? { return Ok(false); } self.raw(");
            push_str(&mut post, pt.0.as_str());
            push_str(&mut post, ").await } } ");
            push_str(&mut post, raw_impl_str(name, &decl, body).as_str());
            let mut h = concat(pre.as_str(), a.as_str());
            push_str(&mut h, post.as_str());
            proof {
                assert(post@ == filtered_post(name@, pt.0@, decl@, body@));
                lemma_wrapped(pre@, a@, post@);
            }
            h
        },
        EventBody::Command(f, ms) => {
            let a = args_to_source(f);
            let args = params_from(params, plan.param_skip);
            let (call, raw, gets) = mathers_strs(&args, ms);
            let mut setup = concat(", ", pt.0.as_str());
            push_str(
                &mut setup,
                ".into())? { return Ok(false); } use ::proc_qq::MessageChainPointTrait; let m_chan = ",
            );
            push_str(&mut setup, pt.0.as_str());
            push_str(
                &mut setup,
                ".message_chain().clone(); let mut m_vec = vec![]; for x in m_chan { m_vec.push(x); } let mut matcher = ::proc_qq::CommandMatcher::new(m_vec); ",
            );
            let pre = concat(head.as_str(), "{ if !::proc_qq::match_event_args_all(");
            let mut post = concat("if matcher.not_blank() { return Ok(false); } self.raw(", pt.0.as_str());
            push_str(&mut post, ", ");
            push_str(&mut post, call.as_str());
            push_str(&mut post, ").await } } ");
            let mut rps = concat(decl.as_str(), ", ");
            push_str(&mut rps, raw.as_str());
            push_str(&mut post, raw_impl_str(name, &rps, body).as_str());
            let mut mid = concat(a.as_str(), setup.as_str());
            push_str(&mut mid, gets.as_str());
            let mut h = concat(pre.as_str(), mid.as_str());
            push_str(&mut h, post.as_str());
            proof {
                let sv = setup@;
                assert(sv == matcher_setup(pt.0@));
                assert(post@ == command_post(name@, pt.0@, decl@, (call@, raw@), body@));
                let rest = sv + gets@;
                assert(mid@ =~= a@ + rest);
                lemma_split(a@, rest);
                lemma_wrapped(sv, gets@, Seq::<char>::empty());
                assert(sv + gets@ + Seq::<char>::empty() =~= rest);
                assert(is_command_middle(
                    event_args_view_of(pv),
                    mathers_of(pv),
                    args@,
                    pt.0@,
                    mid@,
                ));
                lemma_wrapped(pre@, mid@, post@);
            }
            h
        },
    }
}

/// The source the `event` attribute stands for, for the function `name`
/// with these parameters and body (its braces included) and these
/// attribute arguments: the handler struct, the impl of its handler trait,
/// and its registration; or the error `event` reports.
pub fn event_source(
    name: &String,
    is_async: bool,
    params: &Vec<FnArgShape>,
    attrs: &Vec<AttrArg>,
    body: &String,
) -> (r: Result<String, String>)
    ensures
        match plan_event_spec(is_async, params@, attrs@) {
            Ok(p) => r matches Ok(x) && is_event_source(name@, params@, p, body@, x@),
            Err(e) => r matches Err(m) && m@ == e,
        },
{
    let plan = match event(is_async, params, attrs) {
        Ok(p) => p,
        Err(e) => {
            return Err(e);
        },
    };
    let ghost pv = plan@;
    let handle = handle_str(name, params, &plan, body);
    let lit = literal_of(name.as_str());
    let mut into = concat("impl Into<::proc_qq::ModuleEventHandler> for ", name.as_str());
    push_str(
        &mut into,
        " { fn into(self) -> ::proc_qq::ModuleEventHandler { ::proc_qq::ModuleEventHandler { name: ",
    );
    let ghost ipre = into@;
    push_str(&mut into, lit.as_str());
    push_str(&mut into, ".into(), process: ");
    push_str(&mut into, plan.enum_name.as_str());
    push_str(&mut into, "(Box::new(self)), } } } ");
    let st = concat("#[allow(non_camel_case_types)] pub struct ", name.as_str());
    let mut out = concat(st.as_str(), " {} ");
    let ghost sv = out@;
    push_str(&mut out, handle.as_str());
    let ghost k = out@.len() as int;
    push_str(&mut out, into.as_str());
    proof {
        assert(ipre == into_pre(name@));
        assert(into@ =~= ipre + lit@ + into_post(pv.enum_name));
        lemma_wrapped(ipre, lit@, into_post(pv.enum_name));
        assert(sv == struct_src(name@));
        assert(out@ =~= sv + handle@ + into@);
        assert(out@.take(sv.len() as int) =~= sv);
        assert(out@.subrange(sv.len() as int, k) =~= handle@);
        assert(out@.skip(k) =~= into@);
        assert(is_handle_source(name@, params@, pv, body@, handle@));
        assert(literal_between(out@.skip(k), into_pre(name@), name@, into_post(pv.enum_name)));
        let t = out@.take(k);
        assert(is_event_source(name@, params@, pv, body@, out@));
    }
    Ok(out)
}

/// The source the `result` attribute stands for, for the function `name`
/// with these parameters and body: the struct, its `OnlyResultHandler`
/// impl and its registration; or the error `result` reports.
pub fn result_source(name: &String, is_async: bool, params: &Vec<FnArgShape>, body: &String) -> (r: Result<
    String,
    String,
>)
    ensures
        match plan_result_spec(is_async, params@) {
            Ok(_) => r matches Ok(x) && is_result_source(name@, params@, body@, x@),
            Err(e) => r matches Err(m) && m@ == e,
        },
{
    match result(is_async, params) {
        Ok(_) => {},
        Err(e) => {
            return Err(e);
        },
    }
    let pt = param_strs(params, 0);
    let decl = decl_str(&pt);
    let st = concat("#[allow(non_camel_case_types)] pub struct ", name.as_str());
    let mut pre = concat(st.as_str(), " {} ");
    push_str(
        &mut pre,
        "#[::proc_qq::re_exports::async_trait::async_trait] impl ::proc_qq::OnlyResultHandler for ",
    );
    push_str(&mut pre, name.as_str());
    push_str(&mut pre, " { async fn handle(&self, ");
    push_str(&mut pre, decl.as_str());
    push_str(&mut pre, ") -> ::proc_qq::re_exports::anyhow::Result<bool> ");
    push_str(&mut pre, body.as_str());
    push_str(&mut pre, " } impl Into<::proc_qq::EventResultHandler> for ");
    push_str(&mut pre, name.as_str());
    push_str(
        &mut pre,
        " { fn into(self) -> ::proc_qq::EventResultHandler { ::proc_qq::EventResultHandler { name: ",
    );
    let lit = literal_of(name.as_str());
    let mut out = concat(pre.as_str(), lit.as_str());
    push_str(&mut out, ".into(), process: ::proc_qq::ResultProcess::OnlyResult(Box::new(self)), } } } ");
    proof {
        assert(pre@ =~= result_pre(name@, params@, body@));
        lemma_wrapped(pre@, lit@, result_post());
    }
    Ok(out)
}

fn typed_params_str(params: &Vec<FnArgShape>) -> (r: String)
    ensures
        r@ == typed_params_src(params@),
{
    let mut r = String::new();
    let mut i: usize = 0;
    assert(params@.take(0) =~= Seq::<FnArgShape>::empty());
    while i < params.len()
        invariant
            i <= params@.len(),
            r@ == typed_params_src(params@.take(i as int)),
        decreases params@.len() - i,
    {
        assert(params@.take(i + 1).drop_last() =~= params@.take(i as int));
        assert(params@.take(i + 1).last() == params@[i as int]);
        match &params[i] {
            FnArgShape::Receiver => {},
            FnArgShape::Typed(p, t) => {
                push_str(&mut r, ", ");
                push_str(&mut r, pat_str(p).as_str());
                push_str(&mut r, ": ");
                push_str(&mut r, t.as_str());
            },
        }
        i = i + 1;
    }
    assert(params@.take(params@.len() as int) =~= params@);
    r
}

/// The source the `event_fn` attribute stands for: the function, with
/// `&self` before its own parameters, added as a method to each struct
/// the attribute names, in order; or the error when an argument is not a
/// single name.
pub fn event_fn_source(
    attrs: &Vec<AttrArg>,
    vis: &String,
    is_async: bool,
    method: &String,
    params: &Vec<FnArgShape>,
    body: &String,
) -> (r: Result<String, String>)
    ensures
        match event_fn_targets_spec(attrs@) {
            Some(names) => r matches Ok(x) && x@ == event_fn_source_spec(
                names,
                vis@,
                is_async,
                method@,
                params@,
                body@,
            ),
            None => r matches Err(m) && m@ == event_fn_message(),
        },
{
    let targets = match event_fn(attrs) {
        Ok(v) => v,
        Err(e) => {
            return Err(e);
        },
    };
    let ghost names = targets@.map_values(|n: String| n@);
    let tp = typed_params_str(params);
    let mut out = String::new();
    let mut i: usize = 0;
    assert(names.take(0) =~= Seq::<Seq<char>>::empty());
    while i < targets.len()
        invariant
            names == targets@.map_values(|n: String| n@),
            i <= targets@.len(),
            tp@ == typed_params_src(params@),
            out@ == event_fn_source_spec(names.take(i as int), vis@, is_async, method@, params@, body@),
        decreases targets@.len() - i,
    {
        assert(names.take(i + 1).drop_last() =~= names.take(i as int));
        assert(names.take(i + 1).last() == targets@[i as int]@);
        let ghost before = out@;
        push_str(&mut out, "impl ");
        push_str(&mut out, targets[i].as_str());
        push_str(&mut out, " { ");
        push_str(&mut out, vis.as_str());
        if is_async {
            push_str(&mut out, " async");
        }
        push_str(&mut out, " fn ");
        push_str(&mut out, method.as_str());
        push_str(&mut out, "(&self");
        push_str(&mut out, tp.as_str());
        push_str(&mut out, ") ");
        push_str(&mut out, body.as_str());
        push_str(&mut out, " } ");
        proof {
            let im = event_fn_impl(targets@[i as int]@, vis@, is_async, method@, params@, body@);
            if is_async {
                assert(out@ =~= before + im);
            } else {
                assert(out@ =~= before + im);
            }
        }
        i = i + 1;
    }
    assert(names.take(names.len() as int) =~= names);
    Ok(out)
}

} // verus!
