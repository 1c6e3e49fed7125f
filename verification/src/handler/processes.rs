use vstd::prelude::*;

verus! {

/// The kind of event a module handler listens to.
///
/// A handler written for a bot is registered under one of these kinds; the
/// dispatcher only offers it the events of that kind.
#[derive(Clone, Copy, Debug, PartialEq, Eq, Structural)]
pub enum ModuleEventProcess {
    GroupMessage,
    FriendMessage,
    GroupTempMessage,
    JoinGroupRequest,
    NewFriendRequest,
    NewFriend,
    FriendPoke,
    DeleteFriend,
    GroupMute,
    GroupLeave,
    GroupNameUpdate,
    GroupMessageRecall,
    FriendMessageRecall,
    MSFOffline,
    KickedOffline,
    LoginEvent,
    Message,
    ConnectedAndOnline,
    DisconnectAndOffline,
    GroupDisband,
    MemberPermissionChange,
    NewMember,
    SelfInvited,
    GroupAudioMessage,
    FriendAudioMessage,
    ClientDisconnect,
    GroupPoke,
}

/// The name of a kind, as its variant is written in Rust source.
pub open spec fn process_name(p: ModuleEventProcess) -> Seq<char> {
    match p {
        ModuleEventProcess::GroupMessage => "GroupMessage"@,
        ModuleEventProcess::FriendMessage => "FriendMessage"@,
        ModuleEventProcess::GroupTempMessage => "GroupTempMessage"@,
        ModuleEventProcess::JoinGroupRequest => "JoinGroupRequest"@,
        ModuleEventProcess::NewFriendRequest => "NewFriendRequest"@,
        ModuleEventProcess::NewFriend => "NewFriend"@,
        ModuleEventProcess::FriendPoke => "FriendPoke"@,
        ModuleEventProcess::DeleteFriend => "DeleteFriend"@,
        ModuleEventProcess::GroupMute => "GroupMute"@,
        ModuleEventProcess::GroupLeave => "GroupLeave"@,
        ModuleEventProcess::GroupNameUpdate => "GroupNameUpdate"@,
        ModuleEventProcess::GroupMessageRecall => "GroupMessageRecall"@,
        ModuleEventProcess::FriendMessageRecall => "FriendMessageRecall"@,
        ModuleEventProcess::MSFOffline => "MSFOffline"@,
        ModuleEventProcess::KickedOffline => "KickedOffline"@,
        ModuleEventProcess::LoginEvent => "LoginEvent"@,
        ModuleEventProcess::Message => "Message"@,
        ModuleEventProcess::ConnectedAndOnline => "ConnectedAndOnline"@,
        ModuleEventProcess::DisconnectAndOffline => "DisconnectAndOffline"@,
        ModuleEventProcess::GroupDisband => "GroupDisband"@,
        ModuleEventProcess::MemberPermissionChange => "MemberPermissionChange"@,
        ModuleEventProcess::NewMember => "NewMember"@,
        ModuleEventProcess::SelfInvited => "SelfInvited"@,
        ModuleEventProcess::GroupAudioMessage => "GroupAudioMessage"@,
        ModuleEventProcess::FriendAudioMessage => "FriendAudioMessage"@,
        ModuleEventProcess::ClientDisconnect => "ClientDisconnect"@,
        ModuleEventProcess::GroupPoke => "GroupPoke"@,
    }
}

/// A named handler inside a module.
pub struct ModuleEventHandler {
    pub name: String,
    pub process: ModuleEventProcess,
}

/// A module: an identifier, a display name and its handlers, in the order
/// in which they are offered an event.
pub struct Module {
    pub id: String,
    pub name: String,
    pub handles: Vec<ModuleEventHandler>,
}

} // verus!
