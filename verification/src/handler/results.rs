use vstd::prelude::*;
use super::processes::{ModuleEventProcess, process_name};

verus! {

/// Which module and handler took care of an event.
pub struct ModuleInfo {
    pub module_id: String,
    pub module_name: String,
    pub handle_name: String,
}

/// What became of an event: a handler processed it, or a handler failed
/// with the given error message.
pub enum EventResult {
    Process(ModuleInfo),
    Exception(ModuleInfo, String),
}

/// The kind of event result a result handler listens to: the results of
/// one kind of event, or every result (`OnlyResult`).
#[derive(Clone, Copy, Debug, PartialEq, Eq, Structural)]
pub enum ResultProcess {
    GroupMessage,
    FriendMessage,
    GroupTempMessage,
    JoinGroupRequest,
    NewFriendRequest,
    NewFriend,
    FriendPoke,
    DeleteFriend,
    GroupMute,
    GroupLeave,
    GroupNameUpdate,
    GroupMessageRecall,
    FriendMessageRecall,
    MSFOffline,
    KickedOffline,
    LoginEvent,
    Message,
    ConnectedAndOnline,
    DisconnectAndOffline,
    GroupDisband,
    MemberPermissionChange,
    NewMember,
    SelfInvited,
    GroupAudioMessage,
    FriendAudioMessage,
    ClientDisconnect,
    GroupPoke,
    OnlyResult,
}

/// A named result handler.
pub struct EventResultHandler {
    pub name: String,
    pub process: ResultProcess,
}

/// The result kind under which the results of a handler of kind `p` are
/// reported.
pub open spec fn result_kind_spec(p: ModuleEventProcess) -> ResultProcess {
    match p {
        ModuleEventProcess::GroupMessage => ResultProcess::GroupMessage,
        ModuleEventProcess::FriendMessage => ResultProcess::FriendMessage,
        ModuleEventProcess::GroupTempMessage => ResultProcess::GroupTempMessage,
        ModuleEventProcess::JoinGroupRequest => ResultProcess::JoinGroupRequest,
        ModuleEventProcess::NewFriendRequest => ResultProcess::NewFriendRequest,
        ModuleEventProcess::NewFriend => ResultProcess::NewFriend,
        ModuleEventProcess::FriendPoke => ResultProcess::FriendPoke,
        ModuleEventProcess::DeleteFriend => ResultProcess::DeleteFriend,
        ModuleEventProcess::GroupMute => ResultProcess::GroupMute,
        ModuleEventProcess::GroupLeave => ResultProcess::GroupLeave,
        ModuleEventProcess::GroupNameUpdate => ResultProcess::GroupNameUpdate,
        ModuleEventProcess::GroupMessageRecall => ResultProcess::GroupMessageRecall,
        ModuleEventProcess::FriendMessageRecall => ResultProcess::FriendMessageRecall,
        ModuleEventProcess::MSFOffline => ResultProcess::MSFOffline,
        ModuleEventProcess::KickedOffline => ResultProcess::KickedOffline,
        ModuleEventProcess::LoginEvent => ResultProcess::LoginEvent,
        ModuleEventProcess::Message => ResultProcess::Message,
        ModuleEventProcess::ConnectedAndOnline => ResultProcess::ConnectedAndOnline,
        ModuleEventProcess::DisconnectAndOffline => ResultProcess::DisconnectAndOffline,
        ModuleEventProcess::GroupDisband => ResultProcess::GroupDisband,
        ModuleEventProcess::MemberPermissionChange => ResultProcess::MemberPermissionChange,
        ModuleEventProcess::NewMember => ResultProcess::NewMember,
        ModuleEventProcess::SelfInvited => ResultProcess::SelfInvited,
        ModuleEventProcess::GroupAudioMessage => ResultProcess::GroupAudioMessage,
        ModuleEventProcess::FriendAudioMessage => ResultProcess::FriendAudioMessage,
        ModuleEventProcess::ClientDisconnect => ResultProcess::ClientDisconnect,
        ModuleEventProcess::GroupPoke => ResultProcess::GroupPoke,
    }
}

/// The name of a result kind, as its variant is written in Rust source.
pub open spec fn result_name(r: ResultProcess) -> Seq<char> {
    match r {
        ResultProcess::GroupMessage => "GroupMessage"@,
        ResultProcess::FriendMessage => "FriendMessage"@,
        ResultProcess::GroupTempMessage => "GroupTempMessage"@,
        ResultProcess::JoinGroupRequest => "JoinGroupRequest"@,
        ResultProcess::NewFriendRequest => "NewFriendRequest"@,
        ResultProcess::NewFriend => "NewFriend"@,
        ResultProcess::FriendPoke => "FriendPoke"@,
        ResultProcess::DeleteFriend => "DeleteFriend"@,
        ResultProcess::GroupMute => "GroupMute"@,
        ResultProcess::GroupLeave => "GroupLeave"@,
        ResultProcess::GroupNameUpdate => "GroupNameUpdate"@,
        ResultProcess::GroupMessageRecall => "GroupMessageRecall"@,
        ResultProcess::FriendMessageRecall => "FriendMessageRecall"@,
        ResultProcess::MSFOffline => "MSFOffline"@,
        ResultProcess::KickedOffline => "KickedOffline"@,
        ResultProcess::LoginEvent => "LoginEvent"@,
        ResultProcess::Message => "Message"@,
        ResultProcess::ConnectedAndOnline => "ConnectedAndOnline"@,
        ResultProcess::DisconnectAndOffline => "DisconnectAndOffline"@,
        ResultProcess::GroupDisband => "GroupDisband"@,
        ResultProcess::MemberPermissionChange => "MemberPermissionChange"@,
        ResultProcess::NewMember => "NewMember"@,
        ResultProcess::SelfInvited => "SelfInvited"@,
        ResultProcess::GroupAudioMessage => "GroupAudioMessage"@,
        ResultProcess::FriendAudioMessage => "FriendAudioMessage"@,
        ResultProcess::ClientDisconnect => "ClientDisconnect"@,
        ResultProcess::GroupPoke => "GroupPoke"@,
        ResultProcess::OnlyResult => "OnlyResult"@,
    }
}

/// The results of a handler are reported under the result kind of the
/// same name as the handler's own kind, and never only to the handlers
/// that hear every result: a result handler of kind `r` other than
/// `OnlyResult` hears the results of handlers of kind `p` exactly when
/// their names agree.
pub proof fn law_result_kind_same_name(p: ModuleEventProcess, r: ResultProcess)
    ensures
        result_name(result_kind_spec(p)) == process_name(p),
        result_kind_spec(p) != ResultProcess::OnlyResult,
        r != ResultProcess::OnlyResult && listens_spec(r, p) ==> result_name(r) == process_name(p),
{
}

/// Whether a result handler of kind `r` is told about the result of a
/// handler of kind `p`: it listens to that kind of result, or to all.
pub open spec fn listens_spec(r: ResultProcess, p: ModuleEventProcess) -> bool {
    r == ResultProcess::OnlyResult || r == result_kind_spec(p)
}

/// The result kind under which the results of a handler of kind `p` are
/// reported.
pub fn result_kind(p: ModuleEventProcess) -> (r: ResultProcess)
    ensures
        r == result_kind_spec(p),
{
    match p {
        ModuleEventProcess::GroupMessage => ResultProcess::GroupMessage,
        ModuleEventProcess::FriendMessage => ResultProcess::FriendMessage,
        ModuleEventProcess::GroupTempMessage => ResultProcess::GroupTempMessage,
        ModuleEventProcess::JoinGroupRequest => ResultProcess::JoinGroupRequest,
        ModuleEventProcess::NewFriendRequest => ResultProcess::NewFriendRequest,
        ModuleEventProcess::NewFriend => ResultProcess::NewFriend,
        ModuleEventProcess::FriendPoke => ResultProcess::FriendPoke,
        ModuleEventProcess::DeleteFriend => ResultProcess::DeleteFriend,
        ModuleEventProcess::GroupMute => ResultProcess::GroupMute,
        ModuleEventProcess::GroupLeave => ResultProcess::GroupLeave,
        ModuleEventProcess::GroupNameUpdate => ResultProcess::GroupNameUpdate,
        ModuleEventProcess::GroupMessageRecall => ResultProcess::GroupMessageRecall,
        ModuleEventProcess::FriendMessageRecall => ResultProcess::FriendMessageRecall,
        ModuleEventProcess::MSFOffline => ResultProcess::MSFOffline,
        ModuleEventProcess::KickedOffline => ResultProcess::KickedOffline,
        ModuleEventProcess::LoginEvent => ResultProcess::LoginEvent,
        ModuleEventProcess::Message => ResultProcess::Message,
        ModuleEventProcess::ConnectedAndOnline => ResultProcess::ConnectedAndOnline,
        ModuleEventProcess::DisconnectAndOffline => ResultProcess::DisconnectAndOffline,
        ModuleEventProcess::GroupDisband => ResultProcess::GroupDisband,
        ModuleEventProcess::MemberPermissionChange => ResultProcess::MemberPermissionChange,
        ModuleEventProcess::NewMember => ResultProcess::NewMember,
        ModuleEventProcess::SelfInvited => ResultProcess::SelfInvited,
        ModuleEventProcess::GroupAudioMessage => ResultProcess::GroupAudioMessage,
        ModuleEventProcess::FriendAudioMessage => ResultProcess::FriendAudioMessage,
        ModuleEventProcess::ClientDisconnect => ResultProcess::ClientDisconnect,
        ModuleEventProcess::GroupPoke => ResultProcess::GroupPoke,
    }
}

} // verus!
