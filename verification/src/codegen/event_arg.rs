use vstd::prelude::*;
use crate::patterns::{regex_compiles, regex_valid};
use crate::text::{concat, push_str, str_eq};

verus! {

/// The literal of an attribute argument: a string, or anything else.
pub enum LitArg {
    Str(String),
    Other,
}

/// An argument of the `event` attribute, as written: a bare path, a list
/// such as `all(...)`, a name-value pair such as `eq = "..."`, or a bare
/// literal. Paths are given by their segments.
pub enum AttrArg {
    Path(Vec<String>),
    List(Vec<String>, Vec<AttrArg>),
    NameValue(Vec<String>, LitArg),
    Lit,
}

/// A filter on the text of a message event.
pub enum EventArg {
    All(Vec<EventArg>),
    Any(Vec<EventArg>),
    Not(Vec<EventArg>),
    Regexp(String),
    Eq(String),
    TrimRegexp(String),
    TrimEq(String),
    BotCommand(String),
}

/// The mathematical value of an [`EventArg`].
pub enum EventArgView {
    All(Seq<EventArgView>),
    Any(Seq<EventArgView>),
    Not(Seq<EventArgView>),
    Regexp(Seq<char>),
    Eq(Seq<char>),
    TrimRegexp(Seq<char>),
    TrimEq(Seq<char>),
    BotCommand(Seq<char>),
}

/// The mathematical value of a filter.
pub open spec fn event_arg_view(a: EventArg) -> EventArgView
    decreases a,
{
    match a {
        EventArg::All(v) => EventArgView::All(event_args_view(v@)),
        EventArg::Any(v) => EventArgView::Any(event_args_view(v@)),
        EventArg::Not(v) => EventArgView::Not(event_args_view(v@)),
        EventArg::Regexp(s) => EventArgView::Regexp(s@),
        EventArg::Eq(s) => EventArgView::Eq(s@),
        EventArg::TrimRegexp(s) => EventArgView::TrimRegexp(s@),
        EventArg::TrimEq(s) => EventArgView::TrimEq(s@),
        EventArg::BotCommand(s) => EventArgView::BotCommand(s@),
    }
}

/// The mathematical values of the filters, in order.
pub open spec fn event_args_view(s: Seq<EventArg>) -> Seq<EventArgView>
    decreases s,
{
    if s.len() == 0 {
        Seq::empty()
    } else {
        event_args_view(s.drop_last()).push(event_arg_view(s.last()))
    }
}


/// The filter a name-value argument stands for, given its string value.
pub open spec fn name_value_spec(name: Seq<char>, lit: LitArg) -> Result<EventArgView, Seq<char>> {
    if name == "regexp"@ {
        match lit {
            LitArg::Str(v) => if regex_compiles(v@) {
                Ok(EventArgView::Regexp(v@))
            } else {
                Err("正则表达式不正确"@)
            },
            LitArg::Other => Err("regexp只支持字符串类型参数值"@),
        }
    } else if name == "eq"@ {
        match lit {
            LitArg::Str(v) => Ok(EventArgView::Eq(v@)),
            LitArg::Other => Err("eq只支持字符串类型参数值"@),
        }
    } else if name == "trim_regexp"@ {
        match lit {
            LitArg::Str(v) => if regex_compiles(v@) {
                Ok(EventArgView::TrimRegexp(v@))
            } else {
                Err("正则表达式不正确"@)
            },
            LitArg::Other => Err("trim_regexp只支持字符串类型参数值"@),
        }
    } else if name == "trim_eq"@ {
        match lit {
            LitArg::Str(v) => Ok(EventArgView::TrimEq(v@)),
            LitArg::Other => Err("trim_eq只支持字符串类型参数值"@),
        }
    } else if name == "bot_command"@ {
        match lit {
            LitArg::Str(v) => Ok(EventArgView::BotCommand(v@)),
            LitArg::Other => Err("bot_command只支持字符串类型参数值"@),
        }
    } else {
        Err("不支持的参数名称"@)
    }
}

/// How one argument of the `event` attribute is read: `all(..)`, `any(..)`
/// and `not(..)` group further arguments; `regexp`, `eq`, `trim_regexp`,
/// `trim_eq` and `bot_command` take a string, and the regular expressions
/// must compile. Anything else is an error with its message.
pub open spec fn parse_arg_spec(a: AttrArg) -> Result<EventArgView, Seq<char>>
    decreases a,
{
    match a {
        AttrArg::Path(_) => Err("不支持的参数名称"@),
        AttrArg::Lit => Err("不支持值类型的参数"@),
        AttrArg::List(path, nested) => if path@.len() != 1 {
            Err("表达式有且只能有一个片段"@)
        } else {
            let n = path@[0]@;
            if n == "all"@ || n == "not"@ || n == "any"@ {
                match parse_args_spec(nested@) {
                    Ok(v) => Ok(
                        if n == "all"@ {
                            EventArgView::All(v)
                        } else if n == "not"@ {
                            EventArgView::Not(v)
                        } else {
                            EventArgView::Any(v)
                        },
                    ),
                    Err(e) => Err(e),
                }
            } else {
                Err("不支持的参数名称"@)
            }
        },
        AttrArg::NameValue(path, lit) => if path@.len() != 1 {
            Err("表达式有且只能有一个片段"@)
        } else {
            name_value_spec(path@[0]@, lit)
        },
    }
}

/// The arguments read in order; the first that cannot be read is the error.
pub open spec fn parse_args_spec(s: Seq<AttrArg>) -> Result<Seq<EventArgView>, Seq<char>>
    decreases s,
{
    if s.len() == 0 {
        Ok(Seq::empty())
    } else {
        match parse_args_spec(s.drop_last()) {
            Err(e) => Err(e),
            Ok(v) => match parse_arg_spec(s.last()) {
                Ok(x) => Ok(v.push(x)),
                Err(e) => Err(e),
            },
        }
    }
}

/// A grouping argument keeps the filters it groups and takes the meaning
/// its name says: `not(..)` reads to the negation of its arguments' filters,
/// `any(..)` to their disjunction and `all(..)` to their conjunction,
/// whenever those arguments read; their error otherwise.
pub proof fn law_grouping_names(path: Vec<String>, nested: Vec<AttrArg>)
    requires
        path@.len() == 1,
    ensures
        parse_args_spec(nested@) matches Ok(v) ==> {
            &&& path@[0]@ == "not"@ ==> parse_arg_spec(AttrArg::List(path, nested)) == Ok::<
                EventArgView,
                Seq<char>,
            >(EventArgView::Not(v))
            &&& path@[0]@ == "any"@ ==> parse_arg_spec(AttrArg::List(path, nested)) == Ok::<
                EventArgView,
                Seq<char>,
            >(EventArgView::Any(v))
            &&& path@[0]@ == "all"@ ==> parse_arg_spec(AttrArg::List(path, nested)) == Ok::<
                EventArgView,
                Seq<char>,
            >(EventArgView::All(v))
        },
        parse_args_spec(nested@) matches Err(e) ==> (path@[0]@ == "not"@ || path@[0]@ == "any"@
            || path@[0]@ == "all"@) ==> parse_arg_spec(AttrArg::List(path, nested)) == Err::<
            EventArgView,
            Seq<char>,
        >(e),
{
    reveal_strlit("not");
    reveal_strlit("any");
    reveal_strlit("all");
    assert("not"@[0] != "all"@[0]);
    assert("any"@[1] != "all"@[1]);
    assert("any"@[0] != "not"@[0]);
    assert("not"@ != "all"@);
    assert("any"@ != "all"@);
    assert("any"@ != "not"@);
}

/// Reading the arguments keeps one filter per argument, in order: the
/// arguments read to `Ok(v)` exactly when each reads on its own, and then
/// `v[i]` is what the `i`-th argument reads to; otherwise the error is that
/// of the first argument that cannot be read.
pub proof fn law_parse_args_per_child(s: Seq<AttrArg>)
    ensures
        parse_args_spec(s) is Ok <==> forall|i: int| 0 <= i < s.len() ==> #[trigger] parse_arg_spec(s[i]) is Ok,
        parse_args_spec(s) matches Ok(v) ==> v.len() == s.len() && forall|i: int|
            0 <= i < s.len() ==> #[trigger] parse_arg_spec(s[i]) == Ok::<EventArgView, Seq<char>>(v[i]),
        parse_args_spec(s) matches Err(e) ==> exists|i: int|
            0 <= i < s.len() && #[trigger] parse_arg_spec(s[i]) == Err::<EventArgView, Seq<char>>(e)
                && forall|j: int| 0 <= j < i ==> parse_arg_spec(#[trigger] s[j]) is Ok,
    decreases s.len(),
{
    if s.len() > 0 {
        let t = s.drop_last();
        law_parse_args_per_child(t);
        assert forall|i: int| 0 <= i < t.len() implies t[i] == s[i] by {}
        match parse_args_spec(t) {
            Ok(v) => {
                match parse_arg_spec(s.last()) {
                    Ok(x) => {
                        assert forall|i: int| 0 <= i < s.len() implies #[trigger] parse_arg_spec(s[i])
                            == Ok::<EventArgView, Seq<char>>(v.push(x)[i]) by {
                            if i < t.len() {
                                assert(t[i] == s[i]);
                            }
                        }
                    },
                    Err(e) => {
                        let i = s.len() - 1;
                        assert(parse_arg_spec(s[i]) == Err::<EventArgView, Seq<char>>(e));
                        assert forall|j: int| 0 <= j < i implies parse_arg_spec(#[trigger] s[j]) is Ok by {
                            assert(t[j] == s[j]);
                        }
                    },
                }
            },
            Err(e) => {
                let i = choose|i: int|
                    0 <= i < t.len() && #[trigger] parse_arg_spec(t[i]) == Err::<EventArgView, Seq<char>>(e)
                        && forall|j: int| 0 <= j < i ==> parse_arg_spec(#[trigger] t[j]) is Ok;
                assert(t[i] == s[i]);
                assert forall|j: int| 0 <= j < i implies parse_arg_spec(#[trigger] s[j]) is Ok by {
                    assert(t[j] == s[j]);
                }
            },
        }
    }
}

fn name_value(name: &str, lit: &LitArg) -> (r: Result<EventArg, String>)
    ensures
        match r {
            Ok(x) => name_value_spec(name@, *lit) == Ok::<EventArgView, Seq<char>>(event_arg_view(x)),
            Err(e) => name_value_spec(name@, *lit) == Err::<EventArgView, Seq<char>>(e@),
        },
{
    if str_eq(name, "regexp") {
        match lit {
            LitArg::Str(v) => if regex_valid(v.as_str()) {
                Ok(EventArg::Regexp(v.clone()))
            } else {
                Err("正则表达式不正确".to_owned())
            },
            LitArg::Other => Err("regexp只支持字符串类型参数值".to_owned()),
        }
    } else if str_eq(name, "eq") {
        match lit {
            LitArg::Str(v) => Ok(EventArg::Eq(v.clone())),
            LitArg::Other => Err("eq只支持字符串类型参数值".to_owned()),
        }
    } else if str_eq(name, "trim_regexp") {
        match lit {
            LitArg::Str(v) => if regex_valid(v.as_str()) {
                Ok(EventArg::TrimRegexp(v.clone()))
            } else {
                Err("正则表达式不正确".to_owned())
            },
            LitArg::Other => Err("trim_regexp只支持字符串类型参数值".to_owned()),
        }
    } else if str_eq(name, "trim_eq") {
        match lit {
            LitArg::Str(v) => Ok(EventArg::TrimEq(v.clone())),
            LitArg::Other => Err("trim_eq只支持字符串类型参数值".to_owned()),
        }
    } else if str_eq(name, "bot_command") {
        match lit {
            LitArg::Str(v) => Ok(EventArg::BotCommand(v.clone())),
            LitArg::Other => Err("bot_command只支持字符串类型参数值".to_owned()),
        }
    } else {
        Err("不支持的参数名称".to_owned())
    }
}

/// Reads one argument of the `event` attribute.
pub fn parse_arg(a: &AttrArg) -> (r: Result<EventArg, String>)
    ensures
        match r {
            Ok(x) => parse_arg_spec(*a) == Ok::<EventArgView, Seq<char>>(event_arg_view(x)),
            Err(e) => parse_arg_spec(*a) == Err::<EventArgView, Seq<char>>(e@),
        },
    decreases a,
{
    match a {
        AttrArg::Path(_) => Err("不支持的参数名称".to_owned()),
        AttrArg::Lit => Err("不支持值类型的参数".to_owned()),
        AttrArg::List(path, nested) => {
            if path.len() != 1 {
                return Err("表达式有且只能有一个片段".to_owned());
            }
            let n = path[0].as_str();
            let is_all = str_eq(n, "all");
            let is_not = str_eq(n, "not");
            let is_any = str_eq(n, "any");
            if is_all || is_not || is_any {
                match parse_args(nested) {
                    Ok(v) => {
                        let ghost vv = event_args_view(v@);
                        Ok(
                            if is_all {
                                EventArg::All(v)
                            } else if is_not {
                                EventArg::Not(v)
                            } else {
                                EventArg::Any(v)
                            },
                        )
                    },
                    Err(e) => Err(e),
                }
            } else {
                Err("不支持的参数名称".to_owned())
            }
        },
        AttrArg::NameValue(path, lit) => {
            if path.len() != 1 {
                return Err("表达式有且只能有一个片段".to_owned());
            }
            name_value(path[0].as_str(), lit)
        },
    }
}

proof fn lemma_parse_err_extends(s: Seq<AttrArg>, e: Seq<char>, k: int)
    requires
        0 < k <= s.len(),
        parse_args_spec(s.take(k)) == Err::<Seq<EventArgView>, Seq<char>>(e),
    ensures
        parse_args_spec(s) == Err::<Seq<EventArgView>, Seq<char>>(e),
    decreases s.len() - k,
{
    if k < s.len() {
        assert(s.take(k + 1).drop_last() =~= s.take(k));
        lemma_parse_err_extends(s, e, k + 1);
    } else {
        assert(s.take(k) =~= s);
    }
}

/// Reads the arguments of the `event` attribute, in order.
pub fn parse_args(children: &Vec<AttrArg>) -> (r: Result<Vec<EventArg>, String>)
    ensures
        match r {
            Ok(x) => parse_args_spec(children@) == Ok::<Seq<EventArgView>, Seq<char>>(
                event_args_view(x@),
            ),
            Err(e) => parse_args_spec(children@) == Err::<Seq<EventArgView>, Seq<char>>(e@),
        },
    decreases children,
{
    let mut out: Vec<EventArg> = Vec::new();
    let mut i: usize = 0;
    assert(children@.take(0) =~= Seq::<AttrArg>::empty());
    assert(event_args_view(out@) =~= Seq::<EventArgView>::empty());
    while i < children.len()
        invariant
            i <= children@.len(),
            parse_args_spec(children@.take(i as int)) == Ok::<Seq<EventArgView>, Seq<char>>(
                event_args_view(out@),
            ),
        decreases children@.len() - i,
    {
        assert(children@.take(i + 1).drop_last() =~= children@.take(i as int));
        assert(children@.take(i + 1).last() == children@[i as int]);
        assert(decreases_to!(children => children@[i as int]));
        match parse_arg(&children[i]) {
            Ok(x) => {
                let ghost old_out = out@;
                out.push(x);
                assert(out@.drop_last() =~= old_out);
            },
            Err(e) => {
                proof {
                    lemma_parse_err_extends(children@, e@, i + 1);
                }
                return Err(e);
            },
        }
        i = i + 1;
    }
    assert(children@.take(children@.len() as int) =~= children@);
    Ok(out)
}


/// Whether a filter is, or holds at any depth, a `bot_command`.
pub open spec fn arg_has_command(a: EventArgView) -> bool
    decreases a,
{
    match a {
        EventArgView::BotCommand(_) => true,
        EventArgView::All(v) => args_have_command(v),
        EventArgView::Any(v) => args_have_command(v),
        EventArgView::Not(v) => args_have_command(v),
        _ => false,
    }
}

/// Whether any of the filters is, or holds at any depth, a `bot_command`.
pub open spec fn args_have_command(s: Seq<EventArgView>) -> bool
    decreases s,
{
    s.len() > 0 && (args_have_command(s.drop_last()) || arg_has_command(s.last()))
}

proof fn lemma_view_take(s: Seq<EventArg>, i: int)
    requires
        0 <= i < s.len(),
    ensures
        event_args_view(s.take(i + 1)) == event_args_view(s.take(i)).push(event_arg_view(s[i])),
        event_args_view(s.take(i + 1)).drop_last() == event_args_view(s.take(i)),
        event_args_view(s.take(i + 1)).last() == event_arg_view(s[i]),
        event_args_view(s.take(i + 1)).len() > 0,
{
    assert(s.take(i + 1).drop_last() =~= s.take(i));
    assert(event_args_view(s.take(i)).push(event_arg_view(s[i])).drop_last() =~= event_args_view(
        s.take(i),
    ));
}

/// Whether any of the filters is, or holds at any depth, a `bot_command`.
pub fn contains_bot_command(all: &Vec<EventArg>) -> (r: bool)
    ensures
        r == args_have_command(event_args_view(all@)),
    decreases all,
{
    let mut i: usize = 0;
    assert(all@.take(0) =~= Seq::<EventArg>::empty());
    while i < all.len()
        invariant
            i <= all@.len(),
            !args_have_command(event_args_view(all@.take(i as int))),
        decreases all@.len() - i,
    {
        proof {
            lemma_view_take(all@, i as int);
        }
        assert(decreases_to!(all => all@[i as int]));
        let found = match &all[i] {
            EventArg::BotCommand(_) => true,
            EventArg::All(args) => contains_bot_command(args),
            EventArg::Any(args) => contains_bot_command(args),
            EventArg::Not(args) => contains_bot_command(args),
            _ => false,
        };
        assert(found == arg_has_command(event_arg_view(all@[i as int])));
        if found {
            proof {
                lemma_has_command_extends(all@, i as int + 1);
            }
            return true;
        }
        i = i + 1;
    }
    assert(all@.take(all@.len() as int) =~= all@);
    false
}

proof fn lemma_has_command_extends(s: Seq<EventArg>, k: int)
    requires
        0 < k <= s.len(),
        args_have_command(event_args_view(s.take(k))),
    ensures
        args_have_command(event_args_view(s)),
    decreases s.len() - k,
{
    if k < s.len() {
        lemma_view_take(s, k);
        lemma_has_command_extends(s, k + 1);
    } else {
        assert(s.take(k) =~= s);
    }
}

/// The filters other than a top-level `bot_command`, with that command;
/// none when there are two top-level `bot_command`s.
pub open spec fn split_command(s: Seq<EventArgView>) -> Option<(Seq<EventArgView>, Option<Seq<char>>)>
    decreases s.len(),
{
    if s.len() == 0 {
        Some((Seq::empty(), None))
    } else {
        match split_command(s.drop_last()) {
            None => None,
            Some((rest, bc)) => match s.last() {
                EventArgView::BotCommand(c) => if bc is None {
                    Some((rest, Some(c)))
                } else {
                    None
                },
                x => Some((rest.push(x), bc)),
            },
        }
    }
}

/// The message for a `bot_command` that is repeated or nested.
pub open spec fn one_command_message() -> Seq<char> {
    "bot_command 只能有一个，且必须是直接写在event括号中"@
}

/// Reads the arguments of the `event` attribute and takes out its
/// `bot_command`: an error when an argument cannot be read, when there are
/// two `bot_command`s, or when one stands inside `all`, `any` or `not`.
pub fn parse_args_and_command(attrs: &Vec<AttrArg>) -> (r: Result<(Vec<EventArg>, Option<String>), String>)
    ensures
        match parse_args_spec(attrs@) {
            Err(e) => r matches Err(m) && m@ == e,
            Ok(all) => match split_command(all) {
                None => r matches Err(m) && m@ == one_command_message(),
                Some((rest, bc)) => if args_have_command(rest) {
                    r matches Err(m) && m@ == one_command_message()
                } else {
                    r matches Ok((v, c)) && event_args_view(v@) == rest && match c {
                        Some(cs) => bc == Some(cs@),
                        None => bc is None,
                    }
                },
            },
        },
{
    let mut all = match parse_args(attrs) {
        Ok(a) => a,
        Err(e) => return Err(e),
    };
    let ghost whole = event_args_view(all@);
    let ghost given = all@;
    let mut rest: Vec<EventArg> = Vec::new();
    let mut command: Option<String> = None;
    let mut i: usize = 0;
    let n = all.len();
    assert(given.take(0) =~= Seq::<EventArg>::empty());
    assert(event_args_view(rest@) =~= Seq::<EventArgView>::empty());
    while i < n
        invariant
            n == given.len(),
            i <= n,
            whole == event_args_view(given),
            parse_args_spec(attrs@) == Ok::<Seq<EventArgView>, Seq<char>>(whole),
            all@ == given.skip(i as int),
            split_command(event_args_view(given.take(i as int))) == Some(
                (
                    event_args_view(rest@),
                    match command {
                        Some(c) => Some(c@),
                        None => None::<Seq<char>>,
                    },
                ),
            ),
        decreases n - i,
    {
        proof {
            lemma_view_take(given, i as int);
        }
        let x = all.remove(0);
        assert(x == given[i as int]);
        assert(all@ =~= given.skip(i + 1));
        match x {
            EventArg::BotCommand(c) => {
                if command.is_none() {
                    command = Some(c);
                } else {
                    proof {
                        lemma_view_prefix(given, i as int + 1);
                        assert(event_arg_view(given[i as int]) matches EventArgView::BotCommand(_));
                        assert(split_command(event_args_view(given.take(i + 1))) is None);
                        lemma_split_none_extends(event_args_view(given), i as int + 1);
                    }
                    return Err("bot_command 只能有一个，且必须是直接写在event括号中".to_owned());
                }
            },
            other => {
                let ghost ov = event_arg_view(other);
                let ghost old_rest = rest@;
                rest.push(other);
                assert(rest@.drop_last() =~= old_rest);
                assert(event_args_view(rest@) == event_args_view(old_rest).push(ov));
            },
        }
        i = i + 1;
    }
    assert(given.take(n as int) =~= given);
    if contains_bot_command(&rest) {
        return Err("bot_command 只能有一个，且必须是直接写在event括号中".to_owned());
    }
    Ok((rest, command))
}

proof fn lemma_view_prefix(s: Seq<EventArg>, k: int)
    requires
        0 <= k <= s.len(),
    ensures
        event_args_view(s).take(k) == event_args_view(s.take(k)),
        event_args_view(s).len() == s.len(),
    decreases s.len(),
{
    if s.len() > 0 {
        if k < s.len() {
            lemma_view_prefix(s.drop_last(), k);
            assert(s.drop_last().take(k) =~= s.take(k));
            assert(event_args_view(s).take(k) =~= event_args_view(s.drop_last()).take(k));
        } else {
            lemma_view_prefix(s.drop_last(), k - 1);
            assert(s.take(k) =~= s);
            assert(event_args_view(s).take(k) =~= event_args_view(s));
        }
    }
}

proof fn lemma_split_none_extends(s: Seq<EventArgView>, k: int)
    requires
        0 < k <= s.len(),
        split_command(s.take(k)) is None,
    ensures
        split_command(s) is None,
    decreases s.len() - k,
{
    if k < s.len() {
        assert(s.take(k + 1).drop_last() =~= s.take(k));
        lemma_split_none_extends(s, k + 1);
    } else {
        assert(s.take(k) =~= s);
    }
}


/// The value of a hexadecimal digit.
pub open spec fn hex_digit(c: char) -> Option<int> {
    if 48 <= c as int <= 57 {
        Some(c as int - 48)
    } else if 97 <= c as int <= 102 {
        Some(c as int - 87)
    } else if 65 <= c as int <= 70 {
        Some(c as int - 55)
    } else {
        None
    }
}

/// The number that a run of hexadecimal digits writes.
pub open spec fn hex_value(s: Seq<char>) -> int
    decreases s.len(),
{
    if s.len() == 0 {
        0
    } else {
        hex_value(s.drop_last()) * 16 + match hex_digit(s.last()) {
            Some(d) => d,
            None => 0,
        }
    }
}

/// How many hexadecimal digits follow in `b` from index `j` on.
pub open spec fn hex_run(b: Seq<char>, j: int) -> nat
    decreases b.len() - j,
{
    if j < 0 || j >= b.len() || hex_digit(b[j]) is None {
        0
    } else {
        1 + hex_run(b, j + 1)
    }
}

/// The character that a one-letter escape `\d` stands for.
pub open spec fn escape_char(d: char) -> Option<char> {
    if d == 'n' {
        Some('\n')
    } else if d == 'r' {
        Some('\r')
    } else if d == 't' {
        Some('\t')
    } else if d == '\\' {
        Some('\\')
    } else if d == '0' {
        Some('\0')
    } else if d == '\'' {
        Some('\'')
    } else if d == '"' {
        Some('"')
    } else {
        None
    }
}

/// Whether `v` is the number of a Unicode scalar value.
pub open spec fn is_scalar(v: int) -> bool {
    0 <= v <= 0x10FFFF && !(0xD800 <= v <= 0xDFFF)
}

/// `c` in front of the text, if there is one.
pub open spec fn prepend(c: char, rest: Option<Seq<char>>) -> Option<Seq<char>> {
    match rest {
        Some(t) => Some(seq![c] + t),
        None => None,
    }
}

/// The text that the body of a Rust string literal, from index `i` on,
/// stands for: plain characters stand for themselves, and the escapes
/// `\n \r \t \\ \0 \' \"`, `\xHH` (at most `7F`) and `\u{H..}` (one to
/// six digits) for the character they name; none where the body is not
/// one (a bare quote or carriage return, or another escape).
pub open spec fn unescape_from(b: Seq<char>, i: int) -> Option<Seq<char>>
    decreases b.len() - i,
{
    if i < 0 || i >= b.len() {
        Some(Seq::empty())
    } else if b[i] == '"' || b[i] == '\r' {
        None
    } else if b[i] != '\\' {
        prepend(b[i], unescape_from(b, i + 1))
    } else if i + 1 >= b.len() {
        None
    } else if escape_char(b[i + 1]) is Some {
        prepend(escape_char(b[i + 1])->0, unescape_from(b, i + 2))
    } else if b[i + 1] == 'x' {
        if i + 3 < b.len() && hex_digit(b[i + 2]) is Some && hex_digit(b[i + 3]) is Some
            && hex_value(b.subrange(i + 2, i + 4)) <= 0x7F {
            prepend(hex_value(b.subrange(i + 2, i + 4)) as char, unescape_from(b, i + 4))
        } else {
            None
        }
    } else if b[i + 1] == 'u' {
        let k = hex_run(b, i + 3);
        if i + 2 < b.len() && b[i + 2] == '{' && 1 <= k <= 6 && i + 3 + k < b.len() && b[i + 3
            + k] == '}' && is_scalar(hex_value(b.subrange(i + 3, i + 3 + k))) {
            prepend(
                hex_value(b.subrange(i + 3, i + 3 + k)) as char,
                unescape_from(b, i + 4 + k),
            )
        } else {
            None
        }
    } else {
        None
    }
}

/// Whether `lit` is the source of a Rust string literal, in double
/// quotes, that holds `s`.
pub open spec fn denotes_string(lit: Seq<char>, s: Seq<char>) -> bool {
    &&& lit.len() >= 2
    &&& lit[0] == '"'
    &&& lit[lit.len() - 1] == '"'
    &&& unescape_from(lit.subrange(1, lit.len() - 1), 0) == Some(s)
}

/// The source of a string literal holding `s` (`proc_macro2::Literal::string`,
/// then `to_string`). Inside a procedural macro the compiler writes the
/// literal, elsewhere `proc_macro2` escapes it itself, so which escapes
/// the text uses is left unsaid; either way it is a double-quoted Rust
/// string literal that holds `s`.
#[verifier::external_body]
pub(crate) fn literal_of(s: &str) -> (r: String)
    ensures
        denotes_string(r@, s@),
{
    proc_macro2::Literal::string(s).to_string()
}

/// Whether `text` is `p`, then some middle part, then `q`.
pub open spec fn wrapped_in(text: Seq<char>, p: Seq<char>, q: Seq<char>) -> bool {
    &&& text.len() >= p.len() + q.len()
    &&& text.take(p.len() as int) == p
    &&& text.skip(text.len() - q.len()) == q
}

/// The part of `text` between `p` and `q`.
pub open spec fn middle(text: Seq<char>, p: Seq<char>, q: Seq<char>) -> Seq<char> {
    text.subrange(p.len() as int, text.len() - q.len())
}

/// Whether `text` is `p`, then a string literal holding `t`, then `q`.
pub open spec fn literal_between(text: Seq<char>, p: Seq<char>, t: Seq<char>, q: Seq<char>) -> bool {
    wrapped_in(text, p, q) && denotes_string(middle(text, p, q), t)
}

/// Whether `text` is a Rust expression that rebuilds the filter `a` at run
/// time: the filter's constructor, with the nested filters' expressions,
/// or a string literal of its text, converted to a `String`.
pub open spec fn is_arg_source(a: EventArgView, text: Seq<char>) -> bool
    decreases a,
{
    match a {
        EventArgView::All(v) => {
            let p = "::proc_qq::EventArg::All(vec!["@;
            let q = "])"@;
            wrapped_in(text, p, q) && is_items_source(v, middle(text, p, q))
        },
        EventArgView::Any(v) => {
            let p = "::proc_qq::EventArg::Any(vec!["@;
            let q = "])"@;
            wrapped_in(text, p, q) && is_items_source(v, middle(text, p, q))
        },
        EventArgView::Not(v) => {
            let p = "::proc_qq::EventArg::Not(vec!["@;
            let q = "])"@;
            wrapped_in(text, p, q) && is_items_source(v, middle(text, p, q))
        },
        EventArgView::Eq(t) => literal_between(text, "::proc_qq::EventArg::Eq("@, t, ".to_string())"@),
        EventArgView::Regexp(t) => literal_between(
            text,
            "::proc_qq::EventArg::Regexp("@,
            t,
            ".to_string())"@,
        ),
        EventArgView::TrimEq(t) => literal_between(
            text,
            "::proc_qq::EventArg::TrimEq("@,
            t,
            ".to_string())"@,
        ),
        EventArgView::TrimRegexp(t) => literal_between(
            text,
            "::proc_qq::EventArg::TrimRegexp("@,
            t,
            ".to_string())"@,
        ),
        EventArgView::BotCommand(_) => text.len() == 0,
    }
}

/// Whether `text` is the expressions of the filters, in order, each
/// followed by a comma.
pub open spec fn is_items_source(s: Seq<EventArgView>, text: Seq<char>) -> bool
    decreases s,
{
    if s.len() == 0 {
        text.len() == 0
    } else {
        &&& text.len() > 0
        &&& text[text.len() - 1] == ','
        &&& exists|k: int|
            #![trigger text.take(k)]
            0 <= k < text.len() && is_items_source(s.drop_last(), text.take(k)) && is_arg_source(
                s.last(),
                text.subrange(k, text.len() - 1),
            )
    }
}

/// Whether `text` is the Rust expression of a `Vec` that holds the filters.
pub open spec fn is_args_source(s: Seq<EventArgView>, text: Seq<char>) -> bool {
    wrapped_in(text, "vec!["@, "]"@) && is_items_source(s, middle(text, "vec!["@, "]"@))
}

/// `m` between `p` and `q` is wrapped in them, and is their middle.
pub proof fn lemma_wrapped(p: Seq<char>, m: Seq<char>, q: Seq<char>)
    ensures
        wrapped_in(p + m + q, p, q),
        middle(p + m + q, p, q) == m,
{
    assert((p + m + q).take(p.len() as int) =~= p);
    assert((p + m + q).skip((p + m + q).len() - q.len()) =~= q);
    assert(middle(p + m + q, p, q) =~= m);
}

fn wrap3(a: &str, b: &str, c: &str) -> (r: String)
    ensures
        r@ == a@ + b@ + c@,
{
    let mut r = a.to_owned();
    push_str(&mut r, b);
    push_str(&mut r, c);
    r
}

proof fn lemma_no_command_at(s: Seq<EventArg>, i: int)
    requires
        0 <= i < s.len(),
        !args_have_command(event_args_view(s)),
    ensures
        !arg_has_command(event_arg_view(s[i])),
{
    if arg_has_command(event_arg_view(s[i])) {
        lemma_view_take(s, i);
        lemma_has_command_extends(s, i + 1);
    }
}

/// The Rust expression that rebuilds a filter at run time. A
/// `bot_command` has none, so it may not occur.
pub fn arg_to_source(a: &EventArg) -> (r: String)
    requires
        !arg_has_command(event_arg_view(*a)),
    ensures
        is_arg_source(event_arg_view(*a), r@),
    decreases a,
{
    let ghost av = event_arg_view(*a);
    match a {
        EventArg::All(v) => {
            let inner = args_items_to_source(v);
            let r = wrap3("::proc_qq::EventArg::All(vec![", inner.as_str(), "])");
            proof {
                lemma_wrapped("::proc_qq::EventArg::All(vec!["@, inner@, "])"@);
            }
            r
        },
        EventArg::Any(v) => {
            let inner = args_items_to_source(v);
            let r = wrap3("::proc_qq::EventArg::Any(vec![", inner.as_str(), "])");
            proof {
                lemma_wrapped("::proc_qq::EventArg::Any(vec!["@, inner@, "])"@);
            }
            r
        },
        EventArg::Not(v) => {
            let inner = args_items_to_source(v);
            let r = wrap3("::proc_qq::EventArg::Not(vec![", inner.as_str(), "])");
            proof {
                lemma_wrapped("::proc_qq::EventArg::Not(vec!["@, inner@, "])"@);
            }
            r
        },
        EventArg::Eq(t) => {
            let lit = literal_of(t.as_str());
            let r = wrap3("::proc_qq::EventArg::Eq(", lit.as_str(), ".to_string())");
            proof {
                lemma_wrapped("::proc_qq::EventArg::Eq("@, lit@, ".to_string())"@);
            }
            r
        },
        EventArg::Regexp(t) => {
            let lit = literal_of(t.as_str());
            let r = wrap3("::proc_qq::EventArg::Regexp(", lit.as_str(), ".to_string())");
            proof {
                lemma_wrapped("::proc_qq::EventArg::Regexp("@, lit@, ".to_string())"@);
            }
            r
        },
        EventArg::TrimEq(t) => {
            let lit = literal_of(t.as_str());
            let r = wrap3("::proc_qq::EventArg::TrimEq(", lit.as_str(), ".to_string())");
            proof {
                lemma_wrapped("::proc_qq::EventArg::TrimEq("@, lit@, ".to_string())"@);
            }
            r
        },
        EventArg::TrimRegexp(t) => {
            let lit = literal_of(t.as_str());
            let r = wrap3("::proc_qq::EventArg::TrimRegexp(", lit.as_str(), ".to_string())");
            proof {
                lemma_wrapped("::proc_qq::EventArg::TrimRegexp("@, lit@, ".to_string())"@);
            }
            r
        },
        EventArg::BotCommand(_) => String::new(),
    }
}

/// The expressions of the filters, each followed by a comma.
pub fn args_items_to_source(all: &Vec<EventArg>) -> (r: String)
    requires
        !args_have_command(event_args_view(all@)),
    ensures
        is_items_source(event_args_view(all@), r@),
    decreases all,
{
    let mut r = String::new();
    let mut i: usize = 0;
    assert(all@.take(0) =~= Seq::<EventArg>::empty());
    while i < all.len()
        invariant
            i <= all@.len(),
            !args_have_command(event_args_view(all@)),
            is_items_source(event_args_view(all@.take(i as int)), r@),
        decreases all@.len() - i,
    {
        proof {
            lemma_view_take(all@, i as int);
            lemma_no_command_at(all@, i as int);
        }
        assert(decreases_to!(all => all@[i as int]));
        let x = arg_to_source(&all[i]);
        let ghost before = r@;
        push_str(&mut r, x.as_str());
        push_str(&mut r, ",");
        proof {
            reveal_strlit(",");
            let s1 = event_args_view(all@.take(i + 1));
            assert(r@ =~= before + x@ + seq![',']);
            assert(r@.take(before.len() as int) =~= before);
            assert(r@.subrange(before.len() as int, r@.len() - 1) =~= x@);
            assert(is_items_source(s1.drop_last(), r@.take(before.len() as int)));
            assert(is_arg_source(s1.last(), r@.subrange(before.len() as int, r@.len() - 1)));
            assert(is_items_source(s1, r@));
        }
        i = i + 1;
    }
    assert(all@.take(all@.len() as int) =~= all@);
    r
}

/// The Rust expression of a `Vec` that holds the filters.
pub fn args_to_source(all: &Vec<EventArg>) -> (r: String)
    requires
        !args_have_command(event_args_view(all@)),
    ensures
        is_args_source(event_args_view(all@), r@),
{
    let inner = args_items_to_source(all);
    let r = wrap3("vec![", inner.as_str(), "]");
    proof {
        lemma_wrapped("vec!["@, inner@, "]"@);
    }
    r
}
} // verus!
