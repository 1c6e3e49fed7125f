use vstd::prelude::*;
use super::processes::{ModuleEventProcess, process_name};

verus! {

/// The kinds of event the client delivers to the modules.
#[derive(Clone, Copy, Debug, PartialEq, Eq, Structural)]
pub enum EventKind {
    Login,
    GroupMessage,
    FriendMessage,
    GroupTempMessage,
    GroupRequest,
    NewFriendRequest,
    NewFriend,
    FriendPoke,
    DeleteFriend,
    GroupMute,
    GroupLeave,
    GroupNameUpdate,
    GroupMessageRecall,
    FriendMessageRecall,
    MSFOffline,
    KickedOffline,
    GroupDisband,
    MemberPermissionChange,
    SelfInvited,
    GroupAudioMessage,
    FriendAudioMessage,
    NewMember,
    ClientDisconnect,
    GroupPoke,
    ConnectedAndOnline,
    DisconnectedAndOffline,
}

/// The login event: the account that is logging in.
pub struct LoginEvent {
    pub uin: i64,
}

/// Raised once the client is connected and logged in.
pub struct ConnectedAndOnlineEvent {}

/// Raised once the client has lost its connection.
pub struct DisconnectedAndOfflineEvent {}

/// Whether a handler of kind `p` is offered an event of kind `e`.
///
/// Every event goes to the handlers of its own kind; the three kinds of
/// chat message also go to the handlers of `Message`, which see any of them.
pub open spec fn offered_spec(e: EventKind, p: ModuleEventProcess) -> bool {
    match e {
        EventKind::Login => p == ModuleEventProcess::LoginEvent,
        EventKind::GroupMessage => p == ModuleEventProcess::GroupMessage || p
            == ModuleEventProcess::Message,
        EventKind::FriendMessage => p == ModuleEventProcess::FriendMessage || p
            == ModuleEventProcess::Message,
        EventKind::GroupTempMessage => p == ModuleEventProcess::GroupTempMessage || p
            == ModuleEventProcess::Message,
        EventKind::GroupRequest => p == ModuleEventProcess::JoinGroupRequest,
        EventKind::NewFriendRequest => p == ModuleEventProcess::NewFriendRequest,
        EventKind::NewFriend => p == ModuleEventProcess::NewFriend,
        EventKind::FriendPoke => p == ModuleEventProcess::FriendPoke,
        EventKind::DeleteFriend => p == ModuleEventProcess::DeleteFriend,
        EventKind::GroupMute => p == ModuleEventProcess::GroupMute,
        EventKind::GroupLeave => p == ModuleEventProcess::GroupLeave,
        EventKind::GroupNameUpdate => p == ModuleEventProcess::GroupNameUpdate,
        EventKind::GroupMessageRecall => p == ModuleEventProcess::GroupMessageRecall,
        EventKind::FriendMessageRecall => p == ModuleEventProcess::FriendMessageRecall,
        EventKind::MSFOffline => p == ModuleEventProcess::MSFOffline,
        EventKind::KickedOffline => p == ModuleEventProcess::KickedOffline,
        EventKind::GroupDisband => p == ModuleEventProcess::GroupDisband,
        EventKind::MemberPermissionChange => p == ModuleEventProcess::MemberPermissionChange,
        EventKind::SelfInvited => p == ModuleEventProcess::SelfInvited,
        EventKind::GroupAudioMessage => p == ModuleEventProcess::GroupAudioMessage,
        EventKind::FriendAudioMessage => p == ModuleEventProcess::FriendAudioMessage,
        EventKind::NewMember => p == ModuleEventProcess::NewMember,
        EventKind::ClientDisconnect => p == ModuleEventProcess::ClientDisconnect,
        EventKind::GroupPoke => p == ModuleEventProcess::GroupPoke,
        EventKind::ConnectedAndOnline => p == ModuleEventProcess::ConnectedAndOnline,
        EventKind::DisconnectedAndOffline => p == ModuleEventProcess::DisconnectAndOffline,
    }
}

/// The name of an event kind, as its variant is written in Rust source.
pub open spec fn event_name(e: EventKind) -> Seq<char> {
    match e {
        EventKind::Login => "Login"@,
        EventKind::GroupMessage => "GroupMessage"@,
        EventKind::FriendMessage => "FriendMessage"@,
        EventKind::GroupTempMessage => "GroupTempMessage"@,
        EventKind::GroupRequest => "GroupRequest"@,
        EventKind::NewFriendRequest => "NewFriendRequest"@,
        EventKind::NewFriend => "NewFriend"@,
        EventKind::FriendPoke => "FriendPoke"@,
        EventKind::DeleteFriend => "DeleteFriend"@,
        EventKind::GroupMute => "GroupMute"@,
        EventKind::GroupLeave => "GroupLeave"@,
        EventKind::GroupNameUpdate => "GroupNameUpdate"@,
        EventKind::GroupMessageRecall => "GroupMessageRecall"@,
        EventKind::FriendMessageRecall => "FriendMessageRecall"@,
        EventKind::MSFOffline => "MSFOffline"@,
        EventKind::KickedOffline => "KickedOffline"@,
        EventKind::GroupDisband => "GroupDisband"@,
        EventKind::MemberPermissionChange => "MemberPermissionChange"@,
        EventKind::SelfInvited => "SelfInvited"@,
        EventKind::GroupAudioMessage => "GroupAudioMessage"@,
        EventKind::FriendAudioMessage => "FriendAudioMessage"@,
        EventKind::NewMember => "NewMember"@,
        EventKind::ClientDisconnect => "ClientDisconnect"@,
        EventKind::GroupPoke => "GroupPoke"@,
        EventKind::ConnectedAndOnline => "ConnectedAndOnline"@,
        EventKind::DisconnectedAndOffline => "DisconnectedAndOffline"@,
    }
}

/// The name of the handler kind that takes events of kind `e`: the
/// event's own name, but for the three kinds whose handlers are named
/// otherwise (the login event, a request to join a group, and the lost
/// connection).
pub open spec fn handler_name(e: EventKind) -> Seq<char> {
    match e {
        EventKind::Login => "LoginEvent"@,
        EventKind::GroupRequest => "JoinGroupRequest"@,
        EventKind::DisconnectedAndOffline => "DisconnectAndOffline"@,
        _ => event_name(e),
    }
}

/// Whether events of kind `e` are chat messages.
pub open spec fn is_chat_message(e: EventKind) -> bool {
    e == EventKind::GroupMessage || e == EventKind::FriendMessage || e == EventKind::GroupTempMessage
}

/// Every event is offered to the handlers of its own kind, named as
/// `handler_name` says, and to no handler of another kind, except that
/// chat messages also go to the `Message` handlers, which see nothing
/// else.
pub proof fn law_offered_to_own_kind(e: EventKind, p: ModuleEventProcess)
    ensures
        exists|q: ModuleEventProcess| #[trigger] offered_spec(e, q) && process_name(q) == handler_name(e),
        offered_spec(e, p) ==> process_name(p) == handler_name(e) || (is_chat_message(e) && p
            == ModuleEventProcess::Message),
        offered_spec(e, ModuleEventProcess::Message) <==> is_chat_message(e),
{
    let q = match e {
        EventKind::Login => ModuleEventProcess::LoginEvent,
        EventKind::GroupMessage => ModuleEventProcess::GroupMessage,
        EventKind::FriendMessage => ModuleEventProcess::FriendMessage,
        EventKind::GroupTempMessage => ModuleEventProcess::GroupTempMessage,
        EventKind::GroupRequest => ModuleEventProcess::JoinGroupRequest,
        EventKind::NewFriendRequest => ModuleEventProcess::NewFriendRequest,
        EventKind::NewFriend => ModuleEventProcess::NewFriend,
        EventKind::FriendPoke => ModuleEventProcess::FriendPoke,
        EventKind::DeleteFriend => ModuleEventProcess::DeleteFriend,
        EventKind::GroupMute => ModuleEventProcess::GroupMute,
        EventKind::GroupLeave => ModuleEventProcess::GroupLeave,
        EventKind::GroupNameUpdate => ModuleEventProcess::GroupNameUpdate,
        EventKind::GroupMessageRecall => ModuleEventProcess::GroupMessageRecall,
        EventKind::FriendMessageRecall => ModuleEventProcess::FriendMessageRecall,
        EventKind::MSFOffline => ModuleEventProcess::MSFOffline,
        EventKind::KickedOffline => ModuleEventProcess::KickedOffline,
        EventKind::GroupDisband => ModuleEventProcess::GroupDisband,
        EventKind::MemberPermissionChange => ModuleEventProcess::MemberPermissionChange,
        EventKind::SelfInvited => ModuleEventProcess::SelfInvited,
        EventKind::GroupAudioMessage => ModuleEventProcess::GroupAudioMessage,
        EventKind::FriendAudioMessage => ModuleEventProcess::FriendAudioMessage,
        EventKind::NewMember => ModuleEventProcess::NewMember,
        EventKind::ClientDisconnect => ModuleEventProcess::ClientDisconnect,
        EventKind::GroupPoke => ModuleEventProcess::GroupPoke,
        EventKind::ConnectedAndOnline => ModuleEventProcess::ConnectedAndOnline,
        EventKind::DisconnectedAndOffline => ModuleEventProcess::DisconnectAndOffline,
    };
    assert(offered_spec(e, q) && process_name(q) == handler_name(e));
}

/// Whether a handler of kind `p` is offered an event of kind `e`.
pub fn offered(e: EventKind, p: ModuleEventProcess) -> (r: bool)
    ensures
        r == offered_spec(e, p),
{
    match e {
        EventKind::Login => p == ModuleEventProcess::LoginEvent,
        EventKind::GroupMessage => p == ModuleEventProcess::GroupMessage || p
            == ModuleEventProcess::Message,
        EventKind::FriendMessage => p == ModuleEventProcess::FriendMessage || p
            == ModuleEventProcess::Message,
        EventKind::GroupTempMessage => p == ModuleEventProcess::GroupTempMessage || p
            == ModuleEventProcess::Message,
        EventKind::GroupRequest => p == ModuleEventProcess::JoinGroupRequest,
        EventKind::NewFriendRequest => p == ModuleEventProcess::NewFriendRequest,
        EventKind::NewFriend => p == ModuleEventProcess::NewFriend,
        EventKind::FriendPoke => p == ModuleEventProcess::FriendPoke,
        EventKind::DeleteFriend => p == ModuleEventProcess::DeleteFriend,
        EventKind::GroupMute => p == ModuleEventProcess::GroupMute,
        EventKind::GroupLeave => p == ModuleEventProcess::GroupLeave,
        EventKind::GroupNameUpdate => p == ModuleEventProcess::GroupNameUpdate,
        EventKind::GroupMessageRecall => p == ModuleEventProcess::GroupMessageRecall,
        EventKind::FriendMessageRecall => p == ModuleEventProcess::FriendMessageRecall,
        EventKind::MSFOffline => p == ModuleEventProcess::MSFOffline,
        EventKind::KickedOffline => p == ModuleEventProcess::KickedOffline,
        EventKind::GroupDisband => p == ModuleEventProcess::GroupDisband,
        EventKind::MemberPermissionChange => p == ModuleEventProcess::MemberPermissionChange,
        EventKind::SelfInvited => p == ModuleEventProcess::SelfInvited,
        EventKind::GroupAudioMessage => p == ModuleEventProcess::GroupAudioMessage,
        EventKind::FriendAudioMessage => p == ModuleEventProcess::FriendAudioMessage,
        EventKind::NewMember => p == ModuleEventProcess::NewMember,
        EventKind::ClientDisconnect => p == ModuleEventProcess::ClientDisconnect,
        EventKind::GroupPoke => p == ModuleEventProcess::GroupPoke,
        EventKind::ConnectedAndOnline => p == ModuleEventProcess::ConnectedAndOnline,
        EventKind::DisconnectedAndOffline => p == ModuleEventProcess::DisconnectAndOffline,
    }
}

} // verus!
