use proc_qq::entities::{FlashImage, ImageElement, ImageInfo};
use proc_qq::message::{
    must_find_member, FriendMessage, GroupMemberInfo, GroupMemberPermission, GroupMessage,
    GroupTempMessage, MemberTrait, MessageChain, MessageContentTrait, MessageElem, MessageEvent,
    MessageTarget, MessageTargetTrait, Route, SendRoute,
};

fn text(s: &str) -> MessageElem {
    MessageElem::Text(s.to_owned())
}

fn group_event(elements: Vec<MessageElem>) -> MessageEvent {
    MessageEvent::GroupMessage(GroupMessage {
        group_code: 100,
        from_uin: 7,
        group_card: "张三".to_owned(),
        elements: MessageChain { elements },
    })
}

fn friend_event(elements: Vec<MessageElem>) -> MessageEvent {
    MessageEvent::FriendMessage(FriendMessage { from_uin: 8, elements: MessageChain { elements } })
}

fn temp_event(elements: Vec<MessageElem>) -> MessageEvent {
    MessageEvent::GroupTempMessage(GroupTempMessage { group_code: 200, from_uin: 9, elements: MessageChain { elements } })
}

#[test]
fn text_of_a_plain_message_is_the_text() {
    assert_eq!(MessageChain::parse_message_chain("你好").message_content(), "你好");
}

#[test]
fn text_shows_every_element() {
    let chain = MessageChain {
        elements: vec![
            MessageElem::At(1, "@a".to_owned()),
            text("x"),
            MessageElem::Face("微笑".to_owned()),
            MessageElem::GroupImage("g".to_owned()),
            MessageElem::FriendImage("f".to_owned()),
            MessageElem::FlashImage(true, "fg".to_owned()),
            MessageElem::FlashImage(false, "ff".to_owned()),
            MessageElem::Other(String::new()),
        ],
    };
    assert_eq!(
        chain.message_content(),
        "[@a]x[微笑][GroupImage: g][FriendImage: f][FlashImage(group): fg][FlashImage(friend): ff]"
    );
}

#[test]
fn appending_extends_the_text() {
    let chain = MessageChain::parse_message_chain("a").append(vec![text("b")]);
    assert_eq!(chain.elements.len(), 2);
    assert_eq!(chain.message_content(), "ab");
    let copy = chain.copy();
    assert_eq!(copy.message_content(), "ab");
}

#[test]
fn chained_appends_keep_their_order() {
    let chain = MessageChain::parse_message_chain("a")
        .append(vec![MessageElem::At(10001, "@bob".to_owned())])
        .append(vec![text(" hi"), text("!")])
        .append(vec![MessageElem::GroupImage("g".to_owned())]);
    assert_eq!(chain.elements.len(), 5);
    assert_eq!(chain.message_content(), "a[@bob] hi![GroupImage: g]");
}

#[test]
fn message_kinds() {
    let g = group_event(vec![text("hi")]);
    let f = friend_event(vec![text("yo")]);
    let t = temp_event(vec![]);
    assert!(g.is_group_message() && !g.is_private_message() && !g.is_temp_message());
    assert!(f.is_private_message() && t.is_temp_message());
    assert_eq!(g.as_group_message().unwrap().group_code, 100);
    assert_eq!(f.as_group_message().err(), Some("Not is a group message".to_owned()));
    assert_eq!(f.as_private_message().unwrap().from_uin, 8);
    assert_eq!(g.as_private_message().err(), Some("Not is a group message".to_owned()));
    assert_eq!(t.as_temp_message().unwrap().group_code, 200);
    assert_eq!(g.as_temp_message().err(), Some("Not is a group message".to_owned()));
    assert_eq!((g.from_uin(), f.from_uin(), t.from_uin()), (7, 8, 9));
    assert_eq!(g.message_content(), "hi");
    assert_eq!(f.elements().message_content(), "yo");
}

#[test]
fn targets_of_messages() {
    assert_eq!(group_event(vec![]).target(), MessageTarget::Group(100, 7));
    assert_eq!(friend_event(vec![]).target(), MessageTarget::Private(8));
    assert_eq!(temp_event(vec![]).target(), MessageTarget::GroupTemp(200, 9));
}

#[test]
fn routes_back_to_the_source() {
    let g = group_event(vec![]);
    let f = friend_event(vec![]);
    let t = temp_event(vec![]);
    assert!(matches!(g.image_upload_route(), Route::Group(100)));
    assert!(matches!(f.image_upload_route(), Route::Friend(8)));
    assert!(matches!(t.image_upload_route(), Route::Unsupported(m) if m == "tmp message not supported upload image"));
    assert!(matches!(f.video_upload_route(), Route::Group(8)));
    assert!(matches!(t.video_upload_route(), Route::Unsupported(m) if m == "tmp message not supported upload short video"));
    assert!(matches!(g.audio_route(), Route::Group(100)));
    assert!(matches!(t.audio_route(), Route::Unsupported(m) if m == "tmp message not supported upload audio"));
    assert_eq!(g.recall_code(5), 100);
    assert_eq!(f.recall_code(5), 5);
    assert!(g.can_recall() && f.can_recall() && !t.can_recall());
}

fn member(uin: i64, permission: GroupMemberPermission) -> GroupMemberInfo {
    GroupMemberInfo { group_code: 1, uin, nickname: "nick".to_owned(), card_name: String::new(), permission }
}

#[test]
fn members_and_ranks() {
    let list = vec![
        member(1, GroupMemberPermission::Owner),
        member(2, GroupMemberPermission::Member),
        member(3, GroupMemberPermission::Administrator),
    ];
    assert!(!list[0].is_member() && list[1].is_member() && !list[2].is_member());
    assert_eq!(must_find_member(&list, 3).unwrap().uin, 3);
    assert_eq!(must_find_member(&list, 4).err(), Some("Member nor found : (uin=4)".to_owned()));
    assert_eq!(must_find_member(&list, -4).err(), Some("Member nor found : (uin=-4)".to_owned()));
}

fn info(url: &str) -> ImageInfo {
    ImageInfo { url: url.to_owned(), md5: vec![1, 2], width: 10, height: 20, size: 30 }
}

#[test]
fn image_elements() {
    let g = ImageElement::GroupImage(info("g"));
    let f = ImageElement::FriendImage(info("f"));
    let fg = ImageElement::FlashImage(FlashImage::GroupImage(info("fg")));
    let ff = ImageElement::FlashImage(FlashImage::FriendImage(info("ff")));
    assert_eq!((g.width(), g.height(), g.size()), (10, 20, 30));
    assert_eq!(fg.url(), "fg");
    assert_eq!(ff.md5(), vec![1, 2]);
    assert!(!g.is_flash() && fg.is_flash());
    assert!(g.is_group() && fg.is_group() && !f.is_group() && !ff.is_group());
    assert!(f.is_friend() && ff.is_friend() && !g.is_friend());
    assert_eq!(g.case_flash().err(), Some("mismatching".to_owned()));
    assert!(fg.case_flash().is_ok());
    assert_eq!(fg.case_group().unwrap().url, "fg");
    assert_eq!(f.case_group().err(), Some("mismatching".to_owned()));
    assert_eq!(ff.case_friend().unwrap().url, "ff");
    assert_eq!(g.case_friend().err(), Some("mismatching".to_owned()));
    assert_eq!(ff.into_friend().unwrap().url, "ff");
    assert_eq!(f.into_group().err(), Some("mismatching".to_owned()));
    assert_eq!(g.into_flash().err(), Some("mismatching".to_owned()));
    assert_eq!(fg.into_group().unwrap().url, "fg");
}

#[test]
fn messages_are_sent_by_target() {
    assert_eq!(MessageTarget::Group(1, 2).send_route(), SendRoute::Group(1));
    assert_eq!(MessageTarget::Private(3).send_route(), SendRoute::Friend(3));
    assert_eq!(MessageTarget::GroupTemp(4, 5).send_route(), SendRoute::Temp(4, 5));
}
