use proc_qq::patterns::hex_decoded_len;
use proc_qq::message::{
    FriendMessage, GroupMemberInfo, GroupMemberPermission, GroupMessage, MessageChain,
    MessageContentTrait, MessageElem, MessageEvent,
};
use proc_qq::template::config::{default_config, mongo_url, needs_editing, password_md5, redis_url};
use proc_qq::template::group_admin::{
    admin_command, admin_help, ban_command, ban_decision, mute_targets, AdminCommand, BanDecision,
};
use proc_qq::template::local::{
    ffmpeg_convert_args, ffmpeg_exit_status, join_paths, template_dir, template_dir_for,
};
use proc_qq::template::query::{
    daily_english_command, daily_english_key, daily_english_no_temp, daily_english_text,
    daily_english_url, ignore_message, image_lib_command, image_lib_menu, in_ignore_list,
    menu_text, no_ffmpeg_reply, no_temp_message, picture_url, DailyEnglishCommand, ImageLibCommand,
};
use proc_qq::template::reply::{at_member, make_reply_chain, reply_raw_text_chain, reply_text_chain};
use proc_qq::template::sign_in::{
    sign_in, sign_in_command, sign_in_db_plan, sign_in_help, sign_in_reply, wallet_reply,
    GroupSignIn, SignInCommand, SignInOutcome,
};

fn account(coins: i64, date: &str, count: i64) -> GroupSignIn {
    GroupSignIn { group_code: 1, uin: 2, coins, last_sign_in_date: date.to_owned(), last_sign_in_count: count }
}

#[test]
fn sign_in_commands() {
    assert!(matches!(sign_in_command("群签到", false), SignInCommand::Help));
    assert!(matches!(sign_in_command("签到", true), SignInCommand::SignIn));
    assert!(matches!(sign_in_command("钱包", true), SignInCommand::Wallet));
    assert!(matches!(sign_in_command("签到", false), SignInCommand::Ignore));
    assert!(matches!(sign_in_command("别的", true), SignInCommand::Ignore));
    assert!(sign_in_help().contains("每日一次"));
}

#[test]
fn first_sign_in_wins_thirty_and_the_draw() {
    match sign_in(1, 2, None, "2024-01-02".to_owned(), "2024-01-01", 17, 0, 0) {
        SignInOutcome::Signed(up, rec) => {
            assert_eq!(up, 47);
            assert_eq!(rec.coins, 47);
            assert_eq!(rec.last_sign_in_count, 1);
            assert_eq!(rec.last_sign_in_date, "2024-01-02");
            assert_eq!((rec.group_code, rec.uin), (1, 2));
        }
        SignInOutcome::AlreadySigned => panic!("first sign-in refused"),
    }
}

#[test]
fn signing_in_twice_a_day_is_refused() {
    let first = sign_in(1, 2, None, "2024-01-02".to_owned(), "2024-01-01", 5, 0, 0);
    let rec = match first {
        SignInOutcome::Signed(_, rec) => rec,
        SignInOutcome::AlreadySigned => panic!("first sign-in refused"),
    };
    let again = sign_in(1, 2, Some(rec), "2024-01-02".to_owned(), "2024-01-01", 99, 500, 7);
    assert!(matches!(again, SignInOutcome::AlreadySigned));
    assert_eq!(sign_in_reply(&again), "您今天已经签到过了");
}

#[test]
fn signing_in_the_next_day_lengthens_the_row() {
    let pre = account(100, "2024-01-01", 3);
    match sign_in(1, 2, Some(pre), "2024-01-02".to_owned(), "2024-01-01", 0, 62, 0) {
        SignInOutcome::Signed(up, rec) => {
            assert_eq!(up, 62);
            assert_eq!(rec.coins, 162);
            assert_eq!(rec.last_sign_in_count, 4);
        }
        _ => panic!("refused"),
    }
}

#[test]
fn a_broken_row_starts_over() {
    let pre = account(100, "2023-12-25", 3);
    match sign_in(1, 2, Some(pre), "2024-01-02".to_owned(), "2024-01-01", 0, 0, 65) {
        SignInOutcome::Signed(up, rec) => {
            assert_eq!(up, 5);
            assert_eq!(rec.coins, 105);
            assert_eq!(rec.last_sign_in_count, 1);
        }
        _ => panic!("refused"),
    }
    let pre = account(100, "2023-12-25", 3);
    match sign_in(1, 2, Some(pre), "2024-01-02".to_owned(), "2024-01-01", 0, 0, -65) {
        SignInOutcome::Signed(up, rec) => {
            assert_eq!(up, -5);
            assert_eq!(rec.coins, 95);
        }
        _ => panic!("refused"),
    }
    let pre = account(0, "2023-12-25", 3);
    match sign_in(1, 2, Some(pre), "2024-01-02".to_owned(), "2024-01-01", 0, 0, i64::MIN) {
        SignInOutcome::Signed(up, _) => assert_eq!(up, i64::MIN % 30),
        _ => panic!("refused"),
    }
}

#[test]
fn sign_in_answers() {
    let out = SignInOutcome::Signed(47, account(147, "2024-01-02", 2));
    assert_eq!(
        sign_in_reply(&out),
        "签到成功\n要坚持签到获得更多金币喔\n\n您一共连续签到2天\n今天获得金币47枚\n您一共有金币147枚"
    );
    assert_eq!(wallet_reply(&None), "您还没有开通群账户昂, 第一次签到自动开启");
    assert_eq!(
        wallet_reply(&Some(account(9, "2024-01-02", 3))),
        "您总共连续签到3天\n最后一次签到时间为2024-01-02\n剩余金币9枚"
    );
}

#[test]
fn sign_in_database_setup() {
    assert_eq!(sign_in_db_plan(0, &vec![]), (true, false));
    assert_eq!(sign_in_db_plan(1, &vec!["_id_".to_owned(), "uk_group_and_uin".to_owned()]), (false, true));
}

#[test]
fn ban_commands_are_read() {
    assert_eq!(ban_command("b12h @张三"), Some((12, Some('h'))));
    assert_eq!(ban_command("  b 30 m"), Some((30, Some('m'))));
    assert_eq!(ban_command("b0"), Some((0, None)));
    assert_eq!(ban_command("b123456"), Some((12345, None)));
    assert_eq!(ban_command("b12x"), Some((12, None)));
    assert_eq!(ban_command("ab12"), None);
    assert_eq!(ban_command("b"), None);
    assert_eq!(ban_command("b h"), None);
}

#[test]
fn admin_commands() {
    assert!(matches!(admin_command("群管", false), AdminCommand::NotInGroup));
    assert!(matches!(admin_command("群管", true), AdminCommand::Help));
    assert!(matches!(admin_command("b1d", false), AdminCommand::Ignore));
    assert!(matches!(admin_command("b1d", true), AdminCommand::Ban(86400)));
    assert!(matches!(admin_command("b12h", true), AdminCommand::Ban(43200)));
    assert!(matches!(admin_command("b2m", true), AdminCommand::Ban(120)));
    assert!(matches!(admin_command("b0", true), AdminCommand::Ban(0)));
    assert!(matches!(admin_command("hello", true), AdminCommand::Ignore));
    assert!(admin_help().ends_with("b0 则解除禁言"));
}

#[test]
fn ban_decisions() {
    assert!(matches!(ban_decision(true, false, 60), BanDecision::Refuse(m) if m == "您必须是群主或管理员才能使用"));
    assert!(matches!(ban_decision(false, true, 60), BanDecision::Refuse(m) if m == "机器人必须是群主或管理员才能使用"));
    assert!(matches!(ban_decision(false, false, 29 * 86400), BanDecision::Refuse(m) if m == "最多禁言29天"));
    assert!(matches!(ban_decision(false, false, 29 * 86400 - 1), BanDecision::Mute(2505599)));
    assert!(matches!(ban_decision(false, false, 0), BanDecision::Mute(0)));
}

#[test]
fn mentioned_members_are_muted() {
    let elems = vec![
        MessageElem::Text("b1h ".to_owned()),
        MessageElem::At(5, "@a".to_owned()),
        MessageElem::Text(" ".to_owned()),
        MessageElem::At(6, "@b".to_owned()),
    ];
    assert_eq!(mute_targets(&elems), vec![5, 6]);
}

#[test]
fn ignore_list() {
    assert!(in_ignore_list(2854196310));
    assert!(in_ignore_list(2854196306));
    assert!(!in_ignore_list(1));
    assert!(ignore_message(10, 10));
    assert!(ignore_message(2854196312, 10));
    assert!(!ignore_message(11, 10));
}

#[test]
fn menu_lists_named_modules() {
    let names = vec!["菜单".to_owned(), "".to_owned(), "群签到".to_owned()];
    assert_eq!(menu_text(&names), "菜单 (请直接回复功能名) : \n ❤️ 菜单\n ❤️ 群签到");
    assert_eq!(menu_text(&vec![]), "菜单 (请直接回复功能名) : ");
}

#[test]
fn image_library_commands() {
    assert!(matches!(image_lib_command("图库", false), ImageLibCommand::Menu));
    assert!(matches!(image_lib_command("随机老婆", false), ImageLibCommand::RandomWife));
    assert!(matches!(image_lib_command("动漫壁纸", false), ImageLibCommand::Wallpaper));
    assert!(matches!(image_lib_command("动漫壁纸", true), ImageLibCommand::NoTemp));
    assert!(matches!(image_lib_command("其他", true), ImageLibCommand::Ignore));
    assert_eq!(no_temp_message().message_content(), "临时会话不能使用此功能奥");
    assert!(image_lib_menu().starts_with("图库"));
}

#[test]
fn picture_address_is_found_in_the_page() {
    assert_eq!(
        picture_url("<img src=\"//img.example.com/a/b.jpg\" alt=\"x\">"),
        Ok("https://img.example.com/a/b.jpg".to_owned())
    );
    assert_eq!(picture_url("<html>no picture</html>"), Err("未能成功取得图片".to_owned()));
}

#[test]
fn daily_english() {
    assert!(matches!(daily_english_command("每日英语", false), DailyEnglishCommand::Send));
    assert!(matches!(daily_english_command("每日英语", true), DailyEnglishCommand::NoTemp));
    assert!(matches!(daily_english_command("x", false), DailyEnglishCommand::Ignore));
    assert_eq!(daily_english_key("2024-01-02"), "DAILY_ENGLISH::2024-01-02");
    assert_eq!(
        daily_english_url("2024-01-02"),
        "http://sentence.iciba.com/index.php?c=dailysentence&m=getdetail&title=2024-01-02"
    );
    assert_eq!(daily_english_text("Hello", "你好"), "Hello\n\n你好");
    assert_eq!(daily_english_no_temp(), "此功能不支持临时消息");
    assert!(no_ffmpeg_reply().contains("ffmpeg"));
}

#[test]
fn replies_mention_the_sender_in_groups() {
    let g = MessageEvent::GroupMessage(GroupMessage {
        group_code: 1,
        from_uin: 7,
        group_card: "张三".to_owned(),
        elements: MessageChain { elements: vec![] },
    });
    let f = MessageEvent::FriendMessage(FriendMessage { from_uin: 8, elements: MessageChain { elements: vec![] } });
    assert_eq!(make_reply_chain(&g).message_content(), "[@张三]\n\n");
    assert!(matches!(&make_reply_chain(&g).elements[0], MessageElem::At(7, _)));
    assert_eq!(make_reply_chain(&f).elements.len(), 0);
    assert_eq!(reply_text_chain(&g, "好").message_content(), "[@张三]\n\n好");
    assert_eq!(reply_text_chain(&f, "好").message_content(), "好");
    assert_eq!(reply_raw_text_chain("好").message_content(), "好");
}

#[test]
fn mentions_use_the_card_or_the_nickname() {
    let mut m = GroupMemberInfo {
        group_code: 1,
        uin: 3,
        nickname: "nick".to_owned(),
        card_name: "card".to_owned(),
        permission: GroupMemberPermission::Member,
    };
    assert!(matches!(at_member(&m), MessageElem::At(3, d) if d == "@card"));
    m.card_name = String::new();
    assert!(matches!(at_member(&m), MessageElem::At(3, d) if d == "@nick"));
}

#[test]
fn paths_are_joined() {
    assert_eq!(join_paths(&vec![]), "");
    assert_eq!(join_paths(&vec!["/tmp".to_owned(), "a.mp3".to_owned()]), "/tmp/a.mp3");
    assert_eq!(join_paths(&vec!["/tmp/".to_owned(), "a.mp3".to_owned()]), "/tmp/a.mp3");
    assert_eq!(join_paths(&vec!["a".to_owned(), "/etc".to_owned(), "b".to_owned()]), "/etc/b");
    assert_eq!(join_paths(&vec!["a".to_owned(), "".to_owned()]), "a/");
    assert_eq!(template_dir(), "/tmp");
    assert_eq!(template_dir_for(false, "C:\\Temp"), "/tmp");
    assert_eq!(template_dir_for(true, "C:\\Temp"), "C:\\Temp");
}

#[test]
fn ffmpeg_command() {
    assert_eq!(
        ffmpeg_convert_args("in.mp3", "out.pcm"),
        vec!["-i", "in.mp3", "-f", "s16le", "-ar", "24000", "-ac", "1", "out.pcm"]
    );
    assert_eq!(ffmpeg_exit_status(0), Ok(()));
    assert_eq!(ffmpeg_exit_status(2), Err("FFMPEG 未能成功运行 : EXIT CODE : 2".to_owned()));
}

#[test]
fn configuration() {
    let c = default_config();
    assert!(needs_editing(&c));
    assert_eq!(mongo_url(&c.mongo), "mongodb://127.0.0.1:27017/bot?w=majority");
    assert_eq!(redis_url(&c.redis), "redis://127.0.0.1:6379/");
    assert_eq!(c.account.password_md5, "echo -n password | md5");
}

#[test]
fn password_digest_is_read_from_hex() {
    let d = password_md5("5f4dcc3b5aa765d61d8327deb882cf99").unwrap();
    assert_eq!(d[0], 0x5f);
    assert_eq!(d[15], 0x99);
    assert_eq!(password_md5("5F4DCC3B5AA765D61D8327DEB882CF99").unwrap(), d);
    assert!(password_md5("zz4dcc3b5aa765d61d8327deb882cf99").is_err());
    assert!(password_md5("abc").is_err());
}

#[test]
fn hexadecimal_length() {
    assert_eq!(hex_decoded_len("00ff"), Some(2));
    assert_eq!(hex_decoded_len("0"), None);
    assert_eq!(hex_decoded_len("0g"), None);
    assert_eq!(hex_decoded_len(""), Some(0));
}
