use vstd::prelude::*;
use super::bot_command::{
    BotParamsMather, FnArgShape, MatherView, PatShape, RawView, bad_item_message, bind_items,
    classify_all, mathers_view, parse_bot_args, parse_bot_command, split_ws,
};
use super::event_arg::{
    AttrArg, EventArg, EventArgView, args_have_command, event_args_view, one_command_message,
    parse_args_and_command, parse_args_spec, split_command,
};
use crate::handler::processes::{ModuleEventProcess, process_name};
use crate::handler::results::ResultProcess;
use crate::text::{concat, push_str, str_eq};

verus! {

/// The handler traits and `ModuleEventProcess` variants that the `event`
/// attribute knows: for each, the event type's name, the trait a handler
/// of that event implements, and the variant that registers it.
pub open spec fn event_types() -> Seq<(Seq<char>, Seq<char>, Seq<char>)> {
    seq![
        ("LoginEvent"@, "LoginEventProcess"@, "LoginEvent"@),
        ("GroupMessageEvent"@, "GroupMessageEventProcess"@, "GroupMessage"@),
        ("FriendMessageEvent"@, "FriendMessageEventProcess"@, "FriendMessage"@),
        ("GroupTempMessageEvent"@, "GroupTempMessageEventProcess"@, "GroupTempMessage"@),
        ("JoinGroupRequestEvent"@, "JoinGroupRequestEventProcess"@, "JoinGroupRequest"@),
        ("NewFriendRequestEvent"@, "NewFriendRequestEventProcess"@, "NewFriendRequest"@),
        ("NewFriendEvent"@, "NewFriendEventProcess"@, "NewFriend"@),
        ("FriendPokeEvent"@, "FriendPokeEventProcess"@, "FriendPoke"@),
        ("DeleteFriendEvent"@, "DeleteFriendEventProcess"@, "DeleteFriend"@),
        ("GroupMuteEvent"@, "GroupMuteEventProcess"@, "GroupMute"@),
        ("GroupLeaveEvent"@, "GroupLeaveEventProcess"@, "GroupLeave"@),
        ("GroupNameUpdateEvent"@, "GroupNameUpdateEventProcess"@, "GroupNameUpdate"@),
        ("GroupMessageRecallEvent"@, "GroupMessageRecallEventProcess"@, "GroupMessageRecall"@),
        ("FriendMessageRecallEvent"@, "FriendMessageRecallEventProcess"@, "FriendMessageRecall"@),
        ("MessageEvent"@, "MessageEventProcess"@, "Message"@),
        ("MSFOfflineEvent"@, "MSFOfflineEventProcess"@, "MSFOffline"@),
        ("KickedOfflineEvent"@, "KickedOfflineEventProcess"@, "KickedOffline"@),
        ("ConnectedAndOnlineEvent"@, "ConnectedAndOnlineEventProcess"@, "ConnectedAndOnline"@),
        ("DisconnectedAndOfflineEvent"@, "DisconnectedAndOfflineEventProcess"@, "DisconnectAndOffline"@),
        ("GroupDisbandEvent"@, "GroupDisbandEventProcess"@, "GroupDisband"@),
        ("MemberPermissionChangeEvent"@, "MemberPermissionChangeEventProcess"@, "MemberPermissionChange"@),
        ("NewMemberEvent"@, "NewMemberEventProcess"@, "NewMember"@),
        ("SelfInvitedEvent"@, "SelfInvitedEventProcess"@, "SelfInvited"@),
        ("GroupAudioMessageEvent"@, "GroupAudioMessageEventProcess"@, "GroupAudioMessage"@),
        ("FriendAudioMessageEvent"@, "FriendAudioMessageEventProcess"@, "FriendAudioMessage"@),
        ("ClientDisconnect"@, "ClientDisconnectProcess"@, "ClientDisconnect"@),
        ("GroupPoke"@, "GroupPokeProcess"@, "GroupPoke"@)
    ]
}

/// The kind that the `i`-th entry of `event_types` registers under.
pub open spec fn event_type_process(i: int) -> ModuleEventProcess {
    if i == 0 {
        ModuleEventProcess::LoginEvent
    } else if i == 1 {
        ModuleEventProcess::GroupMessage
    } else if i == 2 {
        ModuleEventProcess::FriendMessage
    } else if i == 3 {
        ModuleEventProcess::GroupTempMessage
    } else if i == 4 {
        ModuleEventProcess::JoinGroupRequest
    } else if i == 5 {
        ModuleEventProcess::NewFriendRequest
    } else if i == 6 {
        ModuleEventProcess::NewFriend
    } else if i == 7 {
        ModuleEventProcess::FriendPoke
    } else if i == 8 {
        ModuleEventProcess::DeleteFriend
    } else if i == 9 {
        ModuleEventProcess::GroupMute
    } else if i == 10 {
        ModuleEventProcess::GroupLeave
    } else if i == 11 {
        ModuleEventProcess::GroupNameUpdate
    } else if i == 12 {
        ModuleEventProcess::GroupMessageRecall
    } else if i == 13 {
        ModuleEventProcess::FriendMessageRecall
    } else if i == 14 {
        ModuleEventProcess::Message
    } else if i == 15 {
        ModuleEventProcess::MSFOffline
    } else if i == 16 {
        ModuleEventProcess::KickedOffline
    } else if i == 17 {
        ModuleEventProcess::ConnectedAndOnline
    } else if i == 18 {
        ModuleEventProcess::DisconnectAndOffline
    } else if i == 19 {
        ModuleEventProcess::GroupDisband
    } else if i == 20 {
        ModuleEventProcess::MemberPermissionChange
    } else if i == 21 {
        ModuleEventProcess::NewMember
    } else if i == 22 {
        ModuleEventProcess::SelfInvited
    } else if i == 23 {
        ModuleEventProcess::GroupAudioMessage
    } else if i == 24 {
        ModuleEventProcess::FriendAudioMessage
    } else if i == 25 {
        ModuleEventProcess::ClientDisconnect
    } else {
        ModuleEventProcess::GroupPoke
    }
}

/// Every handler trait that the `event` attribute knows registers under a
/// kind that exists: the variant it names is the name of a
/// `ModuleEventProcess` variant.
pub proof fn law_event_types_name_kinds()
    ensures
        forall|i: int|
            0 <= i < event_types().len() ==> #[trigger] event_types()[i].2 == process_name(
                event_type_process(i),
            ),
{
    assert forall|i: int| 0 <= i < event_types().len() implies #[trigger] event_types()[i].2
        == process_name(event_type_process(i)) by {
        if i == 0 {
            assert(event_types()[i].2 == "LoginEvent"@);
        } else if i == 1 {
            assert(event_types()[i].2 == "GroupMessage"@);
        } else if i == 2 {
            assert(event_types()[i].2 == "FriendMessage"@);
        } else if i == 3 {
            assert(event_types()[i].2 == "GroupTempMessage"@);
        } else if i == 4 {
            assert(event_types()[i].2 == "JoinGroupRequest"@);
        } else if i == 5 {
            assert(event_types()[i].2 == "NewFriendRequest"@);
        } else if i == 6 {
            assert(event_types()[i].2 == "NewFriend"@);
        } else if i == 7 {
            assert(event_types()[i].2 == "FriendPoke"@);
        } else if i == 8 {
            assert(event_types()[i].2 == "DeleteFriend"@);
        } else if i == 9 {
            assert(event_types()[i].2 == "GroupMute"@);
        } else if i == 10 {
            assert(event_types()[i].2 == "GroupLeave"@);
        } else if i == 11 {
            assert(event_types()[i].2 == "GroupNameUpdate"@);
        } else if i == 12 {
            assert(event_types()[i].2 == "GroupMessageRecall"@);
        } else if i == 13 {
            assert(event_types()[i].2 == "FriendMessageRecall"@);
        } else if i == 14 {
            assert(event_types()[i].2 == "Message"@);
        } else if i == 15 {
            assert(event_types()[i].2 == "MSFOffline"@);
        } else if i == 16 {
            assert(event_types()[i].2 == "KickedOffline"@);
        } else if i == 17 {
            assert(event_types()[i].2 == "ConnectedAndOnline"@);
        } else if i == 18 {
            assert(event_types()[i].2 == "DisconnectAndOffline"@);
        } else if i == 19 {
            assert(event_types()[i].2 == "GroupDisband"@);
        } else if i == 20 {
            assert(event_types()[i].2 == "MemberPermissionChange"@);
        } else if i == 21 {
            assert(event_types()[i].2 == "NewMember"@);
        } else if i == 22 {
            assert(event_types()[i].2 == "SelfInvited"@);
        } else if i == 23 {
            assert(event_types()[i].2 == "GroupAudioMessage"@);
        } else if i == 24 {
            assert(event_types()[i].2 == "FriendAudioMessage"@);
        } else if i == 25 {
            assert(event_types()[i].2 == "ClientDisconnect"@);
        } else if i == 26 {
            assert(event_types()[i].2 == "GroupPoke"@);
        }
    }
}

/// The entry of `event_types` from index `i` on whose parameter type,
/// written `& Name`, is `t`.
pub open spec fn lookup_event_type(t: Seq<char>, i: int) -> Option<(Seq<char>, Seq<char>, Seq<char>)>
    decreases event_types().len() - i,
{
    if i < 0 || i >= event_types().len() {
        None
    } else if "& "@ + event_types()[i].0 == t {
        Some(event_types()[i])
    } else {
        lookup_event_type(t, i + 1)
    }
}

/// The handler trait path and the registering variant path for an event
/// parameter whose type is written `t`; an error for an unknown type.
pub open spec fn struct_name_spec(t: Seq<char>) -> Result<(Seq<char>, Seq<char>), Seq<char>> {
    match lookup_event_type(t, 0) {
        Some(e) => Ok(("::proc_qq::"@ + e.1, "::proc_qq::ModuleEventProcess::"@ + e.2)),
        None => Err(unknown_type_message(t)),
    }
}

/// The message for an event parameter of a type that no handler trait takes.
pub open spec fn unknown_type_message(t: Seq<char>) -> Seq<char> {
    "未知的参数类型 "@ + t + ", 事件必须作为&self下一个参数(或第一个参数), 请在文档中查看兼容的事件以及参数类型 https://github.com/niuhuan/rust_proc_qq"@
}

/// The handler trait path and the registering variant path for an event
/// parameter whose type is written `param_ty`.
pub fn struct_name(param_ty: &str) -> (r: Result<(String, String), String>)
    ensures
        match struct_name_spec(param_ty@) {
            Ok((a, b)) => r matches Ok((x, y)) && x@ == a && y@ == b,
            Err(e) => r matches Err(m) && m@ == e,
        },
{
    let table: Vec<(&str, &str, &str)> = vec![
        ("LoginEvent", "LoginEventProcess", "LoginEvent"),
        ("GroupMessageEvent", "GroupMessageEventProcess", "GroupMessage"),
        ("FriendMessageEvent", "FriendMessageEventProcess", "FriendMessage"),
        ("GroupTempMessageEvent", "GroupTempMessageEventProcess", "GroupTempMessage"),
        ("JoinGroupRequestEvent", "JoinGroupRequestEventProcess", "JoinGroupRequest"),
        ("NewFriendRequestEvent", "NewFriendRequestEventProcess", "NewFriendRequest"),
        ("NewFriendEvent", "NewFriendEventProcess", "NewFriend"),
        ("FriendPokeEvent", "FriendPokeEventProcess", "FriendPoke"),
        ("DeleteFriendEvent", "DeleteFriendEventProcess", "DeleteFriend"),
        ("GroupMuteEvent", "GroupMuteEventProcess", "GroupMute"),
        ("GroupLeaveEvent", "GroupLeaveEventProcess", "GroupLeave"),
        ("GroupNameUpdateEvent", "GroupNameUpdateEventProcess", "GroupNameUpdate"),
        ("GroupMessageRecallEvent", "GroupMessageRecallEventProcess", "GroupMessageRecall"),
        ("FriendMessageRecallEvent", "FriendMessageRecallEventProcess", "FriendMessageRecall"),
        ("MessageEvent", "MessageEventProcess", "Message"),
        ("MSFOfflineEvent", "MSFOfflineEventProcess", "MSFOffline"),
        ("KickedOfflineEvent", "KickedOfflineEventProcess", "KickedOffline"),
        ("ConnectedAndOnlineEvent", "ConnectedAndOnlineEventProcess", "ConnectedAndOnline"),
        ("DisconnectedAndOfflineEvent", "DisconnectedAndOfflineEventProcess", "DisconnectAndOffline"),
        ("GroupDisbandEvent", "GroupDisbandEventProcess", "GroupDisband"),
        ("MemberPermissionChangeEvent", "MemberPermissionChangeEventProcess", "MemberPermissionChange"),
        ("NewMemberEvent", "NewMemberEventProcess", "NewMember"),
        ("SelfInvitedEvent", "SelfInvitedEventProcess", "SelfInvited"),
        ("GroupAudioMessageEvent", "GroupAudioMessageEventProcess", "GroupAudioMessage"),
        ("FriendAudioMessageEvent", "FriendAudioMessageEventProcess", "FriendAudioMessage"),
        ("ClientDisconnect", "ClientDisconnectProcess", "ClientDisconnect"),
        ("GroupPoke", "GroupPokeProcess", "GroupPoke"),
    ];
    let ghost tv = table@.map_values(|e: (&str, &str, &str)| (e.0@, e.1@, e.2@));
    assert(tv =~= event_types());
    let mut i: usize = 0;
    while i < table.len()
        invariant
            tv == table@.map_values(|e: (&str, &str, &str)| (e.0@, e.1@, e.2@)),
            tv == event_types(),
            i <= table@.len(),
            lookup_event_type(param_ty@, 0) == lookup_event_type(param_ty@, i as int),
        decreases table@.len() - i,
    {
        let (name, tr, var) = table[i];
        let full = concat("& ", name);
        if str_eq(full.as_str(), param_ty) {
            return Ok((concat("::proc_qq::", tr), concat("::proc_qq::ModuleEventProcess::", var)));
        }
        i = i + 1;
    }
    let mut m = concat("未知的参数类型 ", param_ty);
    push_str(&mut m, ", 事件必须作为&self下一个参数(或第一个参数), 请在文档中查看兼容的事件以及参数类型 https://github.com/niuhuan/rust_proc_qq");
    Err(m)
}


/// What the `event` attribute wraps around a handler's body.
pub enum EventBody {
    /// The body runs for every event.
    Plain,
    /// The body runs when the message passes every filter.
    Filtered(Vec<EventArg>),
    /// The body runs when the message passes every filter and matches the
    /// bot command; the command's parameters are bound as given, by their
    /// index among the parameters after the event.
    Command(Vec<EventArg>, Vec<BotParamsMather>),
}

/// What the `event` attribute makes of a handler: which parameter is the
/// event, where the command parameters start, the trait the handler
/// implements, the variant that registers it, and the body's wrapping.
pub struct EventPlan {
    pub event_index: usize,
    pub param_skip: usize,
    pub trait_name: String,
    pub enum_name: String,
    pub body: EventBody,
}

/// The mathematical value of an [`EventBody`].
pub enum EventBodyView {
    Plain,
    Filtered(Seq<EventArgView>),
    Command(Seq<EventArgView>, Seq<MatherView>),
}

/// The mathematical value of an [`EventPlan`].
pub struct EventPlanView {
    pub event_index: int,
    pub param_skip: int,
    pub trait_name: Seq<char>,
    pub enum_name: Seq<char>,
    pub body: EventBodyView,
}

impl View for EventPlan {
    type V = EventPlanView;

    open spec fn view(&self) -> EventPlanView {
        EventPlanView {
            event_index: self.event_index as int,
            param_skip: self.param_skip as int,
            trait_name: self.trait_name@,
            enum_name: self.enum_name@,
            body: match self.body {
                EventBody::Plain => EventBodyView::Plain,
                EventBody::Filtered(f) => EventBodyView::Filtered(event_args_view(f@)),
                EventBody::Command(f, m) => EventBodyView::Command(
                    event_args_view(f@),
                    mathers_view(m@),
                ),
            },
        }
    }
}

/// The filters of the `event` attribute and its `bot_command`, as
/// `parse_args_and_command` reads them.
pub open spec fn args_command_spec(attrs: Seq<AttrArg>) -> Result<
    (Seq<EventArgView>, Option<Seq<char>>),
    Seq<char>,
> {
    match parse_args_spec(attrs) {
        Err(e) => Err(e),
        Ok(all) => match split_command(all) {
            None => Err(one_command_message()),
            Some((rest, bc)) => if args_have_command(rest) {
                Err(one_command_message())
            } else {
                Ok((rest, bc))
            },
        },
    }
}

/// The items of a bot command, as `parse_bot_command` reads them.
pub open spec fn command_spec(bc: Option<Seq<char>>) -> Result<Option<Seq<RawView>>, Seq<char>> {
    match bc {
        None => Ok(None),
        Some(c) => match classify_all(split_ws(c)) {
            Ok(items) => Ok(Some(items)),
            Err(item) => Err(bad_item_message(item)),
        },
    }
}

/// The command items bound to the parameters, as `parse_bot_args` binds them.
pub open spec fn bot_args_spec(args: Seq<FnArgShape>, items: Option<Seq<RawView>>) -> Result<
    Option<Seq<MatherView>>,
    Seq<char>,
> {
    match items {
        None => Ok(None),
        Some(its) => match bind_items(its, args) {
            Ok(v) => Ok(Some(v)),
            Err(e) => Err(e),
        },
    }
}

/// Whether a parameter type, as written, is one of the message events.
pub open spec fn is_message_event_type(t: Seq<char>) -> bool {
    t == "& MessageEvent"@ || t == "& GroupMessageEvent"@ || t == "& FriendMessageEvent"@ || t
        == "& GroupTempMessageEvent"@
}

/// What the `event` attribute makes of an `async` or other handler with
/// these parameters and attribute arguments, or the error it reports.
pub open spec fn plan_event_spec(is_async: bool, params: Seq<FnArgShape>, attrs: Seq<AttrArg>) -> Result<
    EventPlanView,
    Seq<char>,
> {
    if !is_async {
        Err("必须是async方法"@)
    } else if params.len() == 0 {
        Err("需要事件作为参数"@)
    } else {
        let ei: int = if params[0] is Receiver { 1 } else { 0 };
        let skip = ei + 1;
        if ei >= params.len() {
            Err("需要事件作为参数"@)
        } else {
            match params[ei] {
                FnArgShape::Receiver => Err("不支持self"@),
                FnArgShape::Typed(_, ty) => match struct_name_spec(ty@) {
                    Err(e) => Err(e),
                    Ok((tn, en)) => match args_command_spec(attrs) {
                        Err(e) => Err(e),
                        Ok((filters, bc)) => match command_spec(bc) {
                            Err(e) => Err(e),
                            Ok(items) => match bot_args_spec(params.skip(skip), items) {
                                Err(e) => Err(e),
                                Ok(margs) => {
                                    let plan = |b: EventBodyView|
                                        EventPlanView {
                                            event_index: ei,
                                            param_skip: skip,
                                            trait_name: tn,
                                            enum_name: en,
                                            body: b,
                                        };
                                    if filters.len() == 0 && margs is None {
                                        Ok(plan(EventBodyView::Plain))
                                    } else if !is_message_event_type(ty@) {
                                        Err(
                                            "event 的参数只支持消息类型事件 (MessageEvent,*MessageEvent)"@,
                                        )
                                    } else {
                                        match margs {
                                            None => Ok(plan(EventBodyView::Filtered(filters))),
                                            Some(m) => Ok(plan(EventBodyView::Command(filters, m))),
                                        }
                                    }
                                },
                            },
                        },
                    },
                },
            }
        }
    }
}

fn copy_param(a: &FnArgShape) -> (r: FnArgShape)
    ensures
        r == *a,
{
    match a {
        FnArgShape::Receiver => FnArgShape::Receiver,
        FnArgShape::Typed(PatShape::Ident(id), ty) => FnArgShape::Typed(
            PatShape::Ident(id.clone()),
            ty.clone(),
        ),
        FnArgShape::Typed(PatShape::Other(t), ty) => FnArgShape::Typed(PatShape::Other(t.clone()), ty.clone()),
    }
}

pub(crate) fn params_from(params: &Vec<FnArgShape>, skip: usize) -> (r: Vec<FnArgShape>)
    requires
        skip <= params.len(),
    ensures
        r@ == params@.skip(skip as int),
{
    let mut r: Vec<FnArgShape> = Vec::new();
    let mut i: usize = skip;
    while i < params.len()
        invariant
            skip <= i <= params.len(),
            r@ == params@.subrange(skip as int, i as int),
        decreases params.len() - i,
    {
        r.push(copy_param(&params[i]));
        assert(r@ =~= params@.subrange(skip as int, i + 1));
        i = i + 1;
    }
    r
}

fn message_event_type(t: &str) -> (r: bool)
    ensures
        r == is_message_event_type(t@),
{
    str_eq(t, "& MessageEvent") || str_eq(t, "& GroupMessageEvent") || str_eq(
        t,
        "& FriendMessageEvent",
    ) || str_eq(t, "& GroupTempMessageEvent")
}

/// What the `event` attribute makes of a handler: the handler
/// must be `async` and take its event first, or after `self`; the event's
/// type picks the trait and variant; the attribute's filters and bot
/// command, which only message events may have, decide how the body is
/// wrapped.
pub fn event(is_async: bool, params: &Vec<FnArgShape>, attrs: &Vec<AttrArg>) -> (r: Result<
    EventPlan,
    String,
>)
    ensures
        match plan_event_spec(is_async, params@, attrs@) {
            Ok(p) => r matches Ok(x) && x@ == p,
            Err(e) => r matches Err(m) && m@ == e,
        },
{
    if !is_async {
        return Err("必须是async方法".to_owned());
    }
    if params.len() == 0 {
        return Err("需要事件作为参数".to_owned());
    }
    let ei: usize = match &params[0] {
        FnArgShape::Receiver => 1,
        FnArgShape::Typed(_, _) => 0,
    };
    let skip: usize = ei + 1;
    if ei >= params.len() {
        return Err("需要事件作为参数".to_owned());
    }
    let ty = match &params[ei] {
        FnArgShape::Receiver => {
            return Err("不支持self".to_owned());
        },
        FnArgShape::Typed(_, t) => t.clone(),
    };
    let (tn, en) = match struct_name(ty.as_str()) {
        Ok(p) => p,
        Err(e) => {
            return Err(e);
        },
    };
    let (filters, bc) = match parse_args_and_command(attrs) {
        Ok(p) => p,
        Err(e) => {
            return Err(e);
        },
    };
    let ghost bcv: Option<Seq<char>> = match &bc {
        Some(c) => Some(c@),
        None => None,
    };
    let items = match parse_bot_command(bc) {
        Ok(i) => i,
        Err(e) => {
            assert(command_spec(bcv) == Err::<Option<Seq<RawView>>, Seq<char>>(e@));
            return Err(e);
        },
    };
    let tail = params_from(params, skip);
    let margs = match parse_bot_args(&tail, items) {
        Ok(m) => m,
        Err(e) => {
            return Err(e);
        },
    };
    let body = if filters.len() == 0 && margs.is_none() {
        assert(event_args_view(filters@).len() == 0);
        EventBody::Plain
    } else if !message_event_type(ty.as_str()) {
        return Err("event 的参数只支持消息类型事件 (MessageEvent,*MessageEvent)".to_owned());
    } else {
        match margs {
            None => EventBody::Filtered(filters),
            Some(m) => EventBody::Command(filters, m),
        }
    };
    Ok(EventPlan { event_index: ei, param_skip: skip, trait_name: tn, enum_name: en, body })
}

/// What the `result` attribute makes of a result handler, or the error it
/// reports: an `async` handler with one parameter of type `&EventResult`
/// listens to every result.
pub open spec fn plan_result_spec(is_async: bool, params: Seq<FnArgShape>) -> Result<
    ResultProcess,
    Seq<char>,
> {
    if !is_async {
        Err("必须是async方法"@)
    } else if params.len() != 1 && params.len() != 2 {
        Err("必须有且只能有1~2个参数"@)
    } else if params.len() == 1 {
        match params[0] {
            FnArgShape::Receiver => Err("不支持self"@),
            FnArgShape::Typed(_, ty) => if ty@ == "& EventResult"@ {
                Ok(ResultProcess::OnlyResult)
            } else {
                Err("一个参数时只支持 &EventResult"@)
            },
        }
    } else {
        Err("现在只支持一个参数"@)
    }
}

/// What the `result` attribute makes of a result handler.
pub fn result(is_async: bool, params: &Vec<FnArgShape>) -> (r: Result<ResultProcess, String>)
    ensures
        match plan_result_spec(is_async, params@) {
            Ok(p) => r == Ok::<ResultProcess, String>(p),
            Err(e) => r matches Err(m) && m@ == e,
        },
{
    if !is_async {
        return Err("必须是async方法".to_owned());
    }
    if params.len() != 1 && params.len() != 2 {
        return Err("必须有且只能有1~2个参数".to_owned());
    }
    if params.len() == 1 {
        match &params[0] {
            FnArgShape::Receiver => Err("不支持self".to_owned()),
            FnArgShape::Typed(_, ty) => if str_eq(ty.as_str(), "& EventResult") {
                Ok(ResultProcess::OnlyResult)
            } else {
                Err("一个参数时只支持 &EventResult".to_owned())
            },
        }
    } else {
        Err("现在只支持一个参数".to_owned())
    }
}

/// The handler expressions of a module, each made into a handler and
/// followed by a comma.
pub open spec fn handles_source(exprs: Seq<Seq<char>>) -> Seq<char>
    decreases exprs.len(),
{
    if exprs.len() == 0 {
        Seq::empty()
    } else {
        handles_source(exprs.drop_last()) + exprs.last() + " {}.into(),"@
    }
}

/// The expression the `module!` macro stands for, given its arguments as
/// written: an id, a name, then the handlers; fewer than two arguments is
/// an error.
pub open spec fn module_source_spec(exprs: Seq<Seq<char>>) -> Result<Seq<char>, Seq<char>> {
    if exprs.len() < 2 {
        Err("参数数量不足"@)
    } else {
        Ok(
            "::proc_qq::Module { id: "@ + exprs[0] + ".to_owned(), name: "@ + exprs[1]
                + ".to_owned(), handles: vec!["@ + handles_source(exprs.skip(2)) + "], }"@,
        )
    }
}

/// The expression the `module!` macro stands for.
pub fn module(exprs: &Vec<String>) -> (r: Result<String, String>)
    ensures
        match module_source_spec(exprs@.map_values(|e: String| e@)) {
            Ok(src) => r matches Ok(x) && x@ == src,
            Err(e) => r matches Err(m) && m@ == e,
        },
{
    let ghost ev = exprs@.map_values(|e: String| e@);
    if exprs.len() < 2 {
        return Err("参数数量不足".to_owned());
    }
    let mut handles = String::new();
    let mut i: usize = 2;
    assert(ev.skip(2).take(0) =~= Seq::<Seq<char>>::empty());
    while i < exprs.len()
        invariant
            ev == exprs@.map_values(|e: String| e@),
            2 <= i <= exprs.len(),
            handles@ == handles_source(ev.skip(2).take(i - 2)),
        decreases exprs.len() - i,
    {
        assert(ev.skip(2).take(i - 1).drop_last() =~= ev.skip(2).take(i - 2));
        assert(ev.skip(2).take(i - 1).last() == exprs@[i as int]@);
        push_str(&mut handles, exprs[i].as_str());
        push_str(&mut handles, " {}.into(),");
        i = i + 1;
    }
    assert(ev.skip(2).take(i - 2) =~= ev.skip(2));
    let mut r = concat("::proc_qq::Module { id: ", exprs[0].as_str());
    push_str(&mut r, ".to_owned(), name: ");
    push_str(&mut r, exprs[1].as_str());
    push_str(&mut r, ".to_owned(), handles: vec![");
    push_str(&mut r, handles.as_str());
    push_str(&mut r, "], }");
    Ok(r)
}

/// The message for an `event_fn` argument that is not a plain name.
pub open spec fn event_fn_message() -> Seq<char> {
    "格式为event_fn(ident1,ident2,...)"@
}

/// The names of the handler structs that `event_fn` adds the method to:
/// each argument must be a path of one segment.
pub open spec fn event_fn_targets_spec(attrs: Seq<AttrArg>) -> Option<Seq<Seq<char>>>
    decreases attrs.len(),
{
    if attrs.len() == 0 {
        Some(Seq::empty())
    } else {
        match event_fn_targets_spec(attrs.drop_last()) {
            None => None,
            Some(names) => match attrs.last() {
                AttrArg::Path(segs) => if segs@.len() == 1 {
                    Some(names.push(segs@[0]@))
                } else {
                    None
                },
                _ => None,
            },
        }
    }
}

proof fn lemma_targets_none_extends(s: Seq<AttrArg>, k: int)
    requires
        0 < k <= s.len(),
        event_fn_targets_spec(s.take(k)) is None,
    ensures
        event_fn_targets_spec(s) is None,
    decreases s.len() - k,
{
    if k < s.len() {
        assert(s.take(k + 1).drop_last() =~= s.take(k));
        lemma_targets_none_extends(s, k + 1);
    } else {
        assert(s.take(k) =~= s);
    }
}

/// The names of the handler structs that the `event_fn` attribute adds
/// the method to.
pub fn event_fn(attrs: &Vec<AttrArg>) -> (r: Result<Vec<String>, String>)
    ensures
        match event_fn_targets_spec(attrs@) {
            Some(names) => r matches Ok(v) && v@.map_values(|n: String| n@) == names,
            None => r matches Err(m) && m@ == event_fn_message(),
        },
{
    let mut names: Vec<String> = Vec::new();
    let mut i: usize = 0;
    assert(attrs@.take(0) =~= Seq::<AttrArg>::empty());
    assert(names@.map_values(|n: String| n@) =~= Seq::<Seq<char>>::empty());
    while i < attrs.len()
        invariant
            i <= attrs@.len(),
            event_fn_targets_spec(attrs@.take(i as int)) == Some(
                names@.map_values(|n: String| n@),
            ),
        decreases attrs@.len() - i,
    {
        assert(attrs@.take(i + 1).drop_last() =~= attrs@.take(i as int));
        assert(attrs@.take(i + 1).last() == attrs@[i as int]);
        let ok = match &attrs[i] {
            AttrArg::Path(segs) => if segs.len() == 1 {
                let ghost old_names = names@;
                names.push(segs[0].clone());
                assert(names@.map_values(|n: String| n@) =~= old_names.map_values(
                    |n: String| n@,
                ).push(segs@[0]@));
                true
            } else {
                false
            },
            _ => false,
        };
        if !ok {
            proof {
                lemma_targets_none_extends(attrs@, i + 1);
            }
            return Err("格式为event_fn(ident1,ident2,...)".to_owned());
        }
        i = i + 1;
    }
    assert(attrs@.take(attrs@.len() as int) =~= attrs@);
    Ok(names)
}
} // verus!
