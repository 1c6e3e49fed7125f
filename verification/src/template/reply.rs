use vstd::prelude::*;
use crate::message::{GroupMemberInfo, MessageChain, MessageElem, MessageEvent};
use crate::text::{concat, str_eq};

verus! {

/// Whether an answer's elements start as `make_reply_chain` starts them
/// for a group message from `sender` with the card `card`.
pub open spec fn is_reply_head(s: Seq<MessageElem>, sender: i64, card: Seq<char>) -> bool {
    &&& s.len() == 2
    &&& s[0] matches MessageElem::At(t, d) && t == sender && d@ == "@"@ + card
    &&& s[1] matches MessageElem::Text(x) && x@ == "\n\n"@
}

/// The start of an answer: in a group, a mention of
/// the sender shown by its group card, then an empty line; elsewhere
/// nothing.
pub fn make_reply_chain(event: &MessageEvent) -> (r: MessageChain)
    ensures
        match *event {
            MessageEvent::GroupMessage(g) => is_reply_head(r.elements@, g.from_uin, g.group_card@),
            _ => r.elements@.len() == 0,
        },
{
    match event {
        MessageEvent::GroupMessage(g) => {
            let at = MessageElem::At(g.from_uin, concat("@", g.group_card.as_str()));
            MessageChain { elements: vec![at, MessageElem::Text("\n\n".to_owned())] }
        },
        _ => MessageChain { elements: Vec::new() },
    }
}

/// An answer of the text `text`: the start of an answer,
/// then the text.
pub fn reply_text_chain(event: &MessageEvent, text: &str) -> (r: MessageChain)
    ensures
        r.elements@.len() > 0,
        r.elements@.last() matches MessageElem::Text(x) && x@ == text@,
        match *event {
            MessageEvent::GroupMessage(g) => is_reply_head(
                r.elements@.drop_last(),
                g.from_uin,
                g.group_card@,
            ),
            _ => r.elements@.len() == 1,
        },
{
    let head = make_reply_chain(event);
    let r = head.append(vec![MessageElem::Text(text.to_owned())]);
    assert(r.elements@.drop_last() =~= head.elements@);
    r
}

/// An answer of just the text `text`, with no mention.
pub fn reply_raw_text_chain(text: &str) -> (r: MessageChain)
    ensures
        r.elements@.len() == 1,
        r.elements@[0] matches MessageElem::Text(x) && x@ == text@,
{
    MessageChain::parse_message_chain(text)
}

/// A mention of a group member, shown by its group card, or
/// by its nickname when the card is empty.
pub fn at_member(member: &GroupMemberInfo) -> (r: MessageElem)
    ensures
        r matches MessageElem::At(t, d) && t == member.uin && d@ == "@"@ + (if member.card_name@
            != ""@ {
            member.card_name@
        } else {
            member.nickname@
        }),
{
    let name = if !str_eq(member.card_name.as_str(), "") {
        member.card_name.as_str()
    } else {
        member.nickname.as_str()
    };
    MessageElem::At(member.uin, concat("@", name))
}

} // verus!
