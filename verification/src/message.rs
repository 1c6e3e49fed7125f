use vstd::prelude::*;
use crate::text::{concat, i64_to_string, push_str};

verus! {

/// An element of a message, with what its text shows.
pub enum MessageElem {
    /// Plain text.
    Text(String),
    /// A mention of the account `target`, shown as its display text.
    At(i64, String),
    /// A face, shown by its name.
    Face(String),
    /// A group image, shown by its address.
    GroupImage(String),
    /// A friend image, shown by its address.
    FriendImage(String),
    /// A flash image (a group one when the flag is set), shown by its address.
    FlashImage(bool, String),
    /// Any other element, with the text it shows (empty for most).
    Other(String),
}

/// What an element shows in the text of a message.
pub open spec fn elem_text(e: MessageElem) -> Seq<char> {
    match e {
        MessageElem::Text(c) => c@,
        MessageElem::At(_, d) => "["@ + d@ + "]"@,
        MessageElem::Face(n) => "["@ + n@ + "]"@,
        MessageElem::GroupImage(u) => "[GroupImage: "@ + u@ + "]"@,
        MessageElem::FriendImage(u) => "[FriendImage: "@ + u@ + "]"@,
        MessageElem::FlashImage(g, u) => if g {
            "[FlashImage(group): "@ + u@ + "]"@
        } else {
            "[FlashImage(friend): "@ + u@ + "]"@
        },
        MessageElem::Other(t) => t@,
    }
}

/// The text of a message: what its elements show, one after the other.
pub open spec fn chain_text(s: Seq<MessageElem>) -> Seq<char>
    decreases s.len(),
{
    if s.len() == 0 {
        Seq::empty()
    } else {
        chain_text(s.drop_last()) + elem_text(s.last())
    }
}

/// A message: its elements in order.
pub struct MessageChain {
    pub elements: Vec<MessageElem>,
}

fn copy_text(s: &String) -> (r: String)
    ensures
        r == *s,
{
    s.clone()
}

/// A copy of an element.
pub fn copy_elem(e: &MessageElem) -> (r: MessageElem)
    ensures
        r == *e,
{
    match e {
        MessageElem::Text(c) => MessageElem::Text(copy_text(c)),
        MessageElem::At(t, d) => MessageElem::At(*t, copy_text(d)),
        MessageElem::Face(n) => MessageElem::Face(copy_text(n)),
        MessageElem::GroupImage(u) => MessageElem::GroupImage(copy_text(u)),
        MessageElem::FriendImage(u) => MessageElem::FriendImage(copy_text(u)),
        MessageElem::FlashImage(g, u) => MessageElem::FlashImage(*g, copy_text(u)),
        MessageElem::Other(t) => MessageElem::Other(copy_text(t)),
    }
}

fn elem_to_text(e: &MessageElem) -> (r: String)
    ensures
        r@ == elem_text(*e),
{
    match e {
        MessageElem::Text(c) => copy_text(c),
        MessageElem::At(_, d) => {
            let mut r = concat("[", d.as_str());
            push_str(&mut r, "]");
            r
        },
        MessageElem::Face(n) => {
            let mut r = concat("[", n.as_str());
            push_str(&mut r, "]");
            r
        },
        MessageElem::GroupImage(u) => {
            let mut r = concat("[GroupImage: ", u.as_str());
            push_str(&mut r, "]");
            r
        },
        MessageElem::FriendImage(u) => {
            let mut r = concat("[FriendImage: ", u.as_str());
            push_str(&mut r, "]");
            r
        },
        MessageElem::FlashImage(g, u) => {
            let mut r = if *g {
                concat("[FlashImage(group): ", u.as_str())
            } else {
                concat("[FlashImage(friend): ", u.as_str())
            };
            push_str(&mut r, "]");
            r
        },
        MessageElem::Other(t) => copy_text(t),
    }
}

impl MessageChain {
    /// A message of the one text `text`.
    pub fn parse_message_chain(text: &str) -> (r: MessageChain)
        ensures
            r.elements@.len() == 1,
            r.elements@[0] matches MessageElem::Text(t) && t@ == text@,
    {
        MessageChain { elements: vec![MessageElem::Text(text.to_owned())] }
    }

    /// The message with the elements `elems` added at its end, in order
    /// (one value converted to its elements: a text, a mention, an
    /// image...).
    pub fn append(self, elems: Vec<MessageElem>) -> (r: MessageChain)
        ensures
            r.elements@ == self.elements@ + elems@,
    {
        let mut elements = self.elements;
        let mut more = elems;
        elements.append(&mut more);
        MessageChain { elements }
    }

    /// A copy of the message.
    pub fn copy(&self) -> (r: MessageChain)
        ensures
            r.elements@ == self.elements@,
    {
        let mut elements: Vec<MessageElem> = Vec::new();
        let mut i: usize = 0;
        while i < self.elements.len()
            invariant
                i <= self.elements@.len(),
                elements@ == self.elements@.take(i as int),
            decreases self.elements@.len() - i,
        {
            elements.push(copy_elem(&self.elements[i]));
            assert(elements@ =~= self.elements@.take(i + 1));
            i = i + 1;
        }
        assert(self.elements@.take(i as int) =~= self.elements@);
        MessageChain { elements }
    }
}

/// What can tell the text of its message.
pub trait MessageContentTrait {
    /// The text of the message: what its elements show, one after the other.
    fn message_content(&self) -> String;
}

impl MessageContentTrait for MessageChain {
    fn message_content(&self) -> (r: String)
        ensures
            r@ == chain_text(self.elements@),
    {
        let mut r = String::new();
        let mut i: usize = 0;
        while i < self.elements.len()
            invariant
                i <= self.elements@.len(),
                r@ == chain_text(self.elements@.take(i as int)),
            decreases self.elements@.len() - i,
        {
            assert(self.elements@.take(i + 1).drop_last() =~= self.elements@.take(i as int));
            let t = elem_to_text(&self.elements[i]);
            push_str(&mut r, t.as_str());
            i = i + 1;
        }
        assert(self.elements@.take(i as int) =~= self.elements@);
        r
    }
}

/// Appending an element to a message extends its text by what the
/// element shows, and leaves the text before it as it was.
pub proof fn law_append_extends_content(chain: Seq<MessageElem>, e: MessageElem)
    ensures
        chain_text(chain.push(e)) == chain_text(chain) + elem_text(e),
{
    assert(chain.push(e).drop_last() =~= chain);
}

/// Appending elements to a message extends its text by what they show, in
/// order, and leaves the text before them as it was.
pub proof fn law_append_all_extends_content(chain: Seq<MessageElem>, elems: Seq<MessageElem>)
    ensures
        chain_text(chain + elems) == chain_text(chain) + chain_text(elems),
    decreases elems.len(),
{
    if elems.len() == 0 {
        assert(chain + elems =~= chain);
        assert(chain_text(chain) + chain_text(elems) =~= chain_text(chain));
    } else {
        law_append_all_extends_content(chain, elems.drop_last());
        assert((chain + elems).drop_last() =~= chain + elems.drop_last());
        assert((chain + elems).last() == elems.last());
        assert(chain_text(chain) + chain_text(elems) =~= chain_text(chain) + chain_text(
            elems.drop_last(),
        ) + elem_text(elems.last()));
    }
}

/// Chained appends, `chain.append(x).append(y).append(z)`: the message keeps
/// its elements first, unchanged, then those of `x`, of `y` and of `z`, in
/// that order; and it shows its old text followed by what each of them
/// shows.
pub proof fn law_append_chain(
    chain: Seq<MessageElem>,
    x: Seq<MessageElem>,
    y: Seq<MessageElem>,
    z: Seq<MessageElem>,
)
    ensures
        ({
            let r = chain + x + y + z;
            let a = chain.len() as int;
            let b = a + x.len();
            let c = b + y.len();
            &&& r.len() == c + z.len()
            &&& r.take(a) == chain
            &&& r.subrange(a, b) == x
            &&& r.subrange(b, c) == y
            &&& r.skip(c) == z
            &&& chain_text(r) == chain_text(chain) + chain_text(x) + chain_text(y) + chain_text(z)
        }),
{
    let r = chain + x + y + z;
    let a = chain.len() as int;
    let b = a + x.len();
    let c = b + y.len();
    assert(r.take(a) =~= chain);
    assert(r.subrange(a, b) =~= x);
    assert(r.subrange(b, c) =~= y);
    assert(r.skip(c) =~= z);
    law_append_all_extends_content(chain, x);
    law_append_all_extends_content(chain + x, y);
    law_append_all_extends_content(chain + x + y, z);
}

/// Where a message came from, and where an answer goes.
#[derive(Clone, Copy, Debug, PartialEq, Eq, Structural)]
pub enum MessageTarget {
    /// A group (group code, sender).
    Group(i64, i64),
    /// A friend (sender).
    Private(i64),
    /// A temporary chat through a group (group code, sender).
    GroupTemp(i64, i64),
}

/// How a message is sent to a target.
#[derive(Clone, Copy, Debug, PartialEq, Eq, Structural)]
pub enum SendRoute {
    /// As a group message to the group with this code.
    Group(i64),
    /// As a friend message to this account.
    Friend(i64),
    /// As a temporary message to this account, through the group with this code.
    Temp(i64, i64),
}

impl MessageTarget {
    /// How a message for this target is sent.
    pub fn send_route(&self) -> (r: SendRoute)
        ensures
            r == match *self {
                MessageTarget::Group(code, _) => SendRoute::Group(code),
                MessageTarget::Private(uin) => SendRoute::Friend(uin),
                MessageTarget::GroupTemp(code, uin) => SendRoute::Temp(code, uin),
            },
    {
        match self {
            MessageTarget::Group(code, _) => SendRoute::Group(*code),
            MessageTarget::Private(uin) => SendRoute::Friend(*uin),
            MessageTarget::GroupTemp(code, uin) => SendRoute::Temp(*code, *uin),
        }
    }
}

/// A message in a group.
pub struct GroupMessage {
    pub group_code: i64,
    pub from_uin: i64,
    pub group_card: String,
    pub elements: MessageChain,
}

/// A message from a friend.
pub struct FriendMessage {
    pub from_uin: i64,
    pub elements: MessageChain,
}

/// A message in a temporary chat through a group.
pub struct GroupTempMessage {
    pub group_code: i64,
    pub from_uin: i64,
    pub elements: MessageChain,
}

/// A message of any kind.
pub enum MessageEvent {
    GroupMessage(GroupMessage),
    FriendMessage(FriendMessage),
    GroupTempMessage(GroupTempMessage),
}

/// The message when a message is not of the kind asked for.
pub open spec fn wrong_kind_message() -> Seq<char> {
    "Not is a group message"@
}

impl MessageEvent {
    /// Whether the message was sent in a group.
    pub fn is_group_message(&self) -> (r: bool)
        ensures
            r == (*self is GroupMessage),
    {
        match self {
            MessageEvent::GroupMessage(_) => true,
            _ => false,
        }
    }

    /// The group message, or an error for another kind.
    pub fn as_group_message(&self) -> (r: Result<&GroupMessage, String>)
        ensures
            match *self {
                MessageEvent::GroupMessage(g) => r == Ok::<&GroupMessage, String>(&g),
                _ => r matches Err(m) && m@ == wrong_kind_message(),
            },
    {
        match self {
            MessageEvent::GroupMessage(g) => Ok(g),
            _ => Err("Not is a group message".to_owned()),
        }
    }

    /// Whether the message came from a friend.
    pub fn is_private_message(&self) -> (r: bool)
        ensures
            r == (*self is FriendMessage),
    {
        match self {
            MessageEvent::FriendMessage(_) => true,
            _ => false,
        }
    }

    /// The friend message, or an error for another kind.
    pub fn as_private_message(&self) -> (r: Result<&FriendMessage, String>)
        ensures
            match *self {
                MessageEvent::FriendMessage(f) => r == Ok::<&FriendMessage, String>(&f),
                _ => r matches Err(m) && m@ == wrong_kind_message(),
            },
    {
        match self {
            MessageEvent::FriendMessage(f) => Ok(f),
            _ => Err("Not is a group message".to_owned()),
        }
    }

    /// Whether the message came through a temporary chat.
    pub fn is_temp_message(&self) -> (r: bool)
        ensures
            r == (*self is GroupTempMessage),
    {
        match self {
            MessageEvent::GroupTempMessage(_) => true,
            _ => false,
        }
    }

    /// The temporary chat message, or an error for another kind.
    pub fn as_temp_message(&self) -> (r: Result<&GroupTempMessage, String>)
        ensures
            match *self {
                MessageEvent::GroupTempMessage(t) => r == Ok::<&GroupTempMessage, String>(&t),
                _ => r matches Err(m) && m@ == wrong_kind_message(),
            },
    {
        match self {
            MessageEvent::GroupTempMessage(t) => Ok(t),
            _ => Err("Not is a group message".to_owned()),
        }
    }

    /// The sender.
    pub open spec fn sender(&self) -> i64 {
        match *self {
            MessageEvent::GroupMessage(g) => g.from_uin,
            MessageEvent::FriendMessage(f) => f.from_uin,
            MessageEvent::GroupTempMessage(t) => t.from_uin,
        }
    }

    /// The elements of the message.
    pub open spec fn chain(&self) -> Seq<MessageElem> {
        match *self {
            MessageEvent::GroupMessage(g) => g.elements.elements@,
            MessageEvent::FriendMessage(f) => f.elements.elements@,
            MessageEvent::GroupTempMessage(t) => t.elements.elements@,
        }
    }

    /// The sender of the message.
    pub fn from_uin(&self) -> (r: i64)
        ensures
            r == self.sender(),
    {
        match self {
            MessageEvent::GroupMessage(g) => g.from_uin,
            MessageEvent::FriendMessage(f) => f.from_uin,
            MessageEvent::GroupTempMessage(t) => t.from_uin,
        }
    }

    /// A copy of the message's elements.
    pub fn elements(&self) -> (r: MessageChain)
        ensures
            r.elements@ == self.chain(),
    {
        match self {
            MessageEvent::GroupMessage(g) => g.elements.copy(),
            MessageEvent::FriendMessage(f) => f.elements.copy(),
            MessageEvent::GroupTempMessage(t) => t.elements.copy(),
        }
    }

    /// Whether a sent message can be recalled here: not in a temporary
    /// chat, where recalling is not supported.
    pub fn can_recall(&self) -> (r: bool)
        ensures
            r == !(*self is GroupTempMessage),
    {
        !self.is_temp_message()
    }
}

impl MessageContentTrait for GroupMessage {
    fn message_content(&self) -> (r: String)
        ensures
            r@ == chain_text(self.elements.elements@),
    {
        self.elements.message_content()
    }
}

impl MessageContentTrait for FriendMessage {
    fn message_content(&self) -> (r: String)
        ensures
            r@ == chain_text(self.elements.elements@),
    {
        self.elements.message_content()
    }
}

impl MessageContentTrait for GroupTempMessage {
    fn message_content(&self) -> (r: String)
        ensures
            r@ == chain_text(self.elements.elements@),
    {
        self.elements.message_content()
    }
}

impl MessageContentTrait for MessageEvent {
    fn message_content(&self) -> (r: String)
        ensures
            r@ == chain_text(self.chain()),
    {
        match self {
            MessageEvent::GroupMessage(g) => g.message_content(),
            MessageEvent::FriendMessage(f) => f.message_content(),
            MessageEvent::GroupTempMessage(t) => t.message_content(),
        }
    }
}

/// What can tell where its message came from, where an answer goes.
pub trait MessageTargetTrait {
    /// Where the message came from, where an answer goes.
    fn target(&self) -> MessageTarget;
}

impl MessageTargetTrait for GroupMessage {
    fn target(&self) -> (r: MessageTarget)
        ensures
            r == MessageTarget::Group(self.group_code, self.from_uin),
    {
        MessageTarget::Group(self.group_code, self.from_uin)
    }
}

impl MessageTargetTrait for FriendMessage {
    fn target(&self) -> (r: MessageTarget)
        ensures
            r == MessageTarget::Private(self.from_uin),
    {
        MessageTarget::Private(self.from_uin)
    }
}

impl MessageTargetTrait for GroupTempMessage {
    fn target(&self) -> (r: MessageTarget)
        ensures
            r == MessageTarget::GroupTemp(self.group_code, self.from_uin),
    {
        MessageTarget::GroupTemp(self.group_code, self.from_uin)
    }
}

impl MessageTargetTrait for MessageEvent {
    fn target(&self) -> (r: MessageTarget)
        ensures
            r == match *self {
                MessageEvent::GroupMessage(g) => MessageTarget::Group(g.group_code, g.from_uin),
                MessageEvent::FriendMessage(f) => MessageTarget::Private(f.from_uin),
                MessageEvent::GroupTempMessage(t) => MessageTarget::GroupTemp(
                    t.group_code,
                    t.from_uin,
                ),
            },
    {
        match self {
            MessageEvent::GroupMessage(g) => g.target(),
            MessageEvent::FriendMessage(f) => f.target(),
            MessageEvent::GroupTempMessage(t) => t.target(),
        }
    }
}

/// Where something sent back to the source of a message goes.
pub enum Route {
    /// To the group with this code.
    Group(i64),
    /// To the friend with this account.
    Friend(i64),
    /// Nowhere: the kind of message does not support it, with the error.
    Unsupported(String),
}

impl MessageEvent {
    /// Where an image for the source is uploaded:
    /// to the group or the friend; a temporary chat cannot take one.
    pub fn image_upload_route(&self) -> (r: Route)
        ensures
            match *self {
                MessageEvent::GroupMessage(g) => r == Route::Group(g.group_code),
                MessageEvent::FriendMessage(f) => r == Route::Friend(f.from_uin),
                MessageEvent::GroupTempMessage(_) => r matches Route::Unsupported(m) && m@
                    == "tmp message not supported upload image"@,
            },
    {
        match self {
            MessageEvent::GroupMessage(g) => Route::Group(g.group_code),
            MessageEvent::FriendMessage(f) => Route::Friend(f.from_uin),
            MessageEvent::GroupTempMessage(_) => Route::Unsupported(
                "tmp message not supported upload image".to_owned(),
            ),
        }
    }

    /// Where a short video for the source is uploaded: both groups and
    /// friends go through the group upload, a friend's under the friend's account; a
    /// temporary chat cannot take one.
    pub fn video_upload_route(&self) -> (r: Route)
        ensures
            match *self {
                MessageEvent::GroupMessage(g) => r == Route::Group(g.group_code),
                MessageEvent::FriendMessage(f) => r == Route::Group(f.from_uin),
                MessageEvent::GroupTempMessage(_) => r matches Route::Unsupported(m) && m@
                    == "tmp message not supported upload short video"@,
            },
    {
        match self {
            MessageEvent::GroupMessage(g) => Route::Group(g.group_code),
            MessageEvent::FriendMessage(f) => Route::Group(f.from_uin),
            MessageEvent::GroupTempMessage(_) => Route::Unsupported(
                "tmp message not supported upload short video".to_owned(),
            ),
        }
    }

    /// Where a voice message for the source goes:
    /// to the group or the friend; a temporary chat cannot take one.
    pub fn audio_route(&self) -> (r: Route)
        ensures
            match *self {
                MessageEvent::GroupMessage(g) => r == Route::Group(g.group_code),
                MessageEvent::FriendMessage(f) => r == Route::Friend(f.from_uin),
                MessageEvent::GroupTempMessage(_) => r matches Route::Unsupported(m) && m@
                    == "tmp message not supported upload audio"@,
            },
    {
        match self {
            MessageEvent::GroupMessage(g) => Route::Group(g.group_code),
            MessageEvent::FriendMessage(f) => Route::Friend(f.from_uin),
            MessageEvent::GroupTempMessage(_) => Route::Unsupported(
                "tmp message not supported upload audio".to_owned(),
            ),
        }
    }

    /// The group code under which a sent message is recalled: the
    /// group's for a group message, the bot's account for a friend message.
    /// A temporary chat does not support recalling.
    pub fn recall_code(&self, bot_uin: i64) -> (r: i64)
        requires
            !(*self is GroupTempMessage),
        ensures
            match *self {
                MessageEvent::GroupMessage(g) => r == g.group_code,
                _ => r == bot_uin,
            },
    {
        match self {
            MessageEvent::GroupMessage(g) => g.group_code,
            _ => bot_uin,
        }
    }
}

/// A member's rank in a group.
#[derive(Clone, Copy, Debug, PartialEq, Eq, Structural)]
pub enum GroupMemberPermission {
    Owner,
    Administrator,
    Member,
}

/// A member of a group.
pub struct GroupMemberInfo {
    pub group_code: i64,
    pub uin: i64,
    pub nickname: String,
    pub card_name: String,
    pub permission: GroupMemberPermission,
}

/// What can tell whether a group member is a plain member.
pub trait MemberTrait {
    /// Whether the member is a plain member, neither owner nor administrator.
    fn is_member(&self) -> bool;
}

impl MemberTrait for GroupMemberInfo {
    fn is_member(&self) -> (r: bool)
        ensures
            r == (self.permission == GroupMemberPermission::Member),
    {
        match self.permission {
            GroupMemberPermission::Member => true,
            _ => false,
        }
    }
}

/// The message when a member is missing from a list.
pub open spec fn member_not_found_message(uin: i64) -> Seq<char> {
    "Member nor found : (uin="@ + crate::text::decimal(uin as int) + ")"@
}

/// The first member of the list whose account is `uin`, or the error that
/// names the account.
pub fn must_find_member(list: &Vec<GroupMemberInfo>, uin: i64) -> (r: Result<GroupMemberInfo, String>)
    ensures
        match r {
            Ok(m) => exists|i: int|
                0 <= i < list@.len() && list@[i] == m && m.uin == uin && forall|j: int|
                    0 <= j < i ==> list@[j].uin != uin,
            Err(m) => m@ == member_not_found_message(uin) && forall|j: int|
                0 <= j < list@.len() ==> list@[j].uin != uin,
        },
{
    let mut i: usize = 0;
    while i < list.len()
        invariant
            i <= list@.len(),
            forall|j: int| 0 <= j < i ==> list@[j].uin != uin,
        decreases list@.len() - i,
    {
        if list[i].uin == uin {
            let x = &list[i];
            let m = GroupMemberInfo {
                group_code: x.group_code,
                uin: x.uin,
                nickname: x.nickname.clone(),
                card_name: x.card_name.clone(),
                permission: x.permission,
            };
            assert(list@[i as int] == m);
            return Ok(m);
        }
        i = i + 1;
    }
    let mut m = concat("Member nor found : (uin=", i64_to_string(uin).as_str());
    push_str(&mut m, ")");
    Err(m)
}

} // verus!
