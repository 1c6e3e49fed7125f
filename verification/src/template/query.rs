use vstd::prelude::*;
use crate::message::{MessageChain, MessageElem};
use crate::patterns::{regex_capture, regex_compiles, regex_first_capture, regex_valid};
use crate::text::{concat, push_str, str_eq};

verus! {

/// The accounts whose messages are ignored: the group helper, the sticker
/// bot and XiaoIce.
pub open spec fn ignored_accounts() -> Seq<i64> {
    seq![2854196310i64, 2854196312i64, 2854196306i64]
}

/// Whether messages from `uin` are ignored.
pub fn in_ignore_list(uin: i64) -> (r: bool)
    ensures
        r == ignored_accounts().contains(uin),
{
    let list: Vec<i64> = vec![2854196310, 2854196312, 2854196306];
    assert(list@ =~= ignored_accounts());
    let mut i: usize = 0;
    while i < list.len()
        invariant
            list@ == ignored_accounts(),
            i <= list@.len(),
            forall|j: int| 0 <= j < i ==> list@[j] != uin,
        decreases list@.len() - i,
    {
        if list[i] == uin {
            assert(list@[i as int] == uin);
            return true;
        }
        i = i + 1;
    }
    false
}

/// Whether the ignore module swallows a message: one that
/// the bot sent itself, or that comes from an ignored account.
pub fn ignore_message(from_uin: i64, bot_uin: i64) -> (r: bool)
    ensures
        r == (from_uin == bot_uin || ignored_accounts().contains(from_uin)),
{
    from_uin == bot_uin || in_ignore_list(from_uin)
}

/// The lines of the menu for the module names: one for each name that is
/// not empty.
pub open spec fn menu_lines(names: Seq<Seq<char>>) -> Seq<char>
    decreases names.len(),
{
    if names.len() == 0 {
        Seq::empty()
    } else if names.last().len() == 0 {
        menu_lines(names.drop_last())
    } else {
        menu_lines(names.drop_last()) + "\n ❤️ "@ + names.last()
    }
}

/// The menu for the modules of these names: a heading, then a line for
/// each module with a name.
pub fn menu_text(names: &Vec<String>) -> (r: String)
    ensures
        r@ == "菜单 (请直接回复功能名) : "@ + menu_lines(names@.map_values(|n: String| n@)),
{
    let ghost ns = names@.map_values(|n: String| n@);
    let mut lines = String::new();
    let mut i: usize = 0;
    assert(ns.take(0) =~= Seq::<Seq<char>>::empty());
    while i < names.len()
        invariant
            ns == names@.map_values(|n: String| n@),
            i <= names@.len(),
            lines@ == menu_lines(ns.take(i as int)),
        decreases names@.len() - i,
    {
        assert(ns.take(i + 1).drop_last() =~= ns.take(i as int));
        assert(ns.take(i + 1).last() == names@[i as int]@);
        if !names[i].as_str().is_empty() {
            push_str(&mut lines, "\n ❤️ ");
            push_str(&mut lines, names[i].as_str());
        }
        i = i + 1;
    }
    assert(ns.take(i as int) =~= ns);
    concat("菜单 (请直接回复功能名) : ", lines.as_str())
}

/// What a message asks of the image library module.
pub enum ImageLibCommand {
    /// Show the library's menu.
    Menu,
    /// Send a random "wife" picture.
    RandomWife,
    /// Send an anime wallpaper.
    Wallpaper,
    /// Answer that temporary chats cannot use the library.
    NoTemp,
    /// Not for this module.
    Ignore,
}

/// What a message asks of the image library module: its
/// name and its two pictures, none of them in a temporary chat.
pub fn image_lib_command(content: &str, is_temp: bool) -> (r: ImageLibCommand)
    ensures
        (content@ == "图库"@ || content@ == "随机老婆"@ || content@ == "动漫壁纸"@) && is_temp
            ==> r is NoTemp,
        content@ == "图库"@ && !is_temp ==> r is Menu,
        content@ == "随机老婆"@ && !is_temp ==> r is RandomWife,
        content@ == "动漫壁纸"@ && !is_temp ==> r is Wallpaper,
        !(content@ == "图库"@ || content@ == "随机老婆"@ || content@ == "动漫壁纸"@) ==> r is Ignore,
{
    proof {
        reveal_strlit("图库");
        reveal_strlit("随机老婆");
        reveal_strlit("动漫壁纸");
        assert("图库"@[0] != "随机老婆"@[0]);
        assert("图库"@[0] != "动漫壁纸"@[0]);
        assert("随机老婆"@[0] != "动漫壁纸"@[0]);
        assert("图库"@ != "随机老婆"@);
        assert("图库"@ != "动漫壁纸"@);
        assert("随机老婆"@ != "动漫壁纸"@);
    }
    let known = str_eq(content, "图库") || str_eq(content, "随机老婆") || str_eq(content, "动漫壁纸");
    if !known {
        ImageLibCommand::Ignore
    } else if is_temp {
        ImageLibCommand::NoTemp
    } else if str_eq(content, "图库") {
        ImageLibCommand::Menu
    } else if str_eq(content, "随机老婆") {
        ImageLibCommand::RandomWife
    } else {
        ImageLibCommand::Wallpaper
    }
}

/// The answer in a temporary chat, which cannot use the library.
pub fn no_temp_message() -> (r: MessageChain)
    ensures
        r.elements@.len() == 1,
        r.elements@[0] matches MessageElem::Text(x) && x@ == "临时会话不能使用此功能奥"@,
{
    MessageChain { elements: vec![MessageElem::Text("临时会话不能使用此功能奥".to_owned())] }
}

/// The library's menu.
pub fn image_lib_menu() -> (r: &'static str)
    ensures
        r@ == "图库 (请直接回复功能名) : \n ❤️ 随机老婆\n ❤️ 动漫壁纸"@,
{
    "图库 (请直接回复功能名) : \n ❤️ 随机老婆\n ❤️ 动漫壁纸"
}

/// The pattern of the picture's address in the random picture page.
pub open spec fn picture_pattern() -> Seq<char> {
    "src=\"//(.+\\.jpg)\""@
}

/// The address of the picture in the random picture page:
/// `https:` and the address in the page's first `src="//….jpg"`, or an
/// error when the page has none. The address group takes part in every
/// match of the pattern, so a match without it does not occur.
pub fn picture_url(page: &str) -> (r: Result<String, String>)
    ensures
        regex_compiles(picture_pattern()) ==> match regex_first_capture(picture_pattern(), page@, 1) {
            Some(Some(a)) => r matches Ok(u) && u@ == "https://"@ + a,
            _ => r matches Err(m) && m@ == "未能成功取得图片"@,
        },
        !regex_compiles(picture_pattern()) ==> r is Err,
{
    let pattern = "src=\"//(.+\\.jpg)\"";
    if !regex_valid(pattern) {
        return Err("未能成功取得图片".to_owned());
    }
    match regex_capture(pattern, page, 1) {
        Some(Some(a)) => Ok(concat("https://", a.as_str())),
        _ => Err("未能成功取得图片".to_owned()),
    }
}

/// What a message asks of the daily English module.
pub enum DailyEnglishCommand {
    /// Send today's sentence.
    Send,
    /// Answer that temporary chats cannot use it.
    NoTemp,
    /// Not for this module.
    Ignore,
}

/// What a message asks of the daily English module.
pub fn daily_english_command(content: &str, is_temp: bool) -> (r: DailyEnglishCommand)
    ensures
        content@ != "每日英语"@ ==> r is Ignore,
        content@ == "每日英语"@ ==> (if is_temp {
            r is NoTemp
        } else {
            r is Send
        }),
{
    if !str_eq(content, "每日英语") {
        DailyEnglishCommand::Ignore
    } else if is_temp {
        DailyEnglishCommand::NoTemp
    } else {
        DailyEnglishCommand::Send
    }
}

/// The answer in a temporary chat, which cannot use the daily sentence.
pub fn daily_english_no_temp() -> (r: &'static str)
    ensures
        r@ == "此功能不支持临时消息"@,
{
    "此功能不支持临时消息"
}

/// The answer when `ffmpeg` is missing.
pub fn no_ffmpeg_reply() -> (r: &'static str)
    ensures
        r@ == "机器人运行环境未安装ffmpeg命令, 无法使用此功能, 可联系机器人客服开启"@,
{
    "机器人运行环境未安装ffmpeg命令, 无法使用此功能, 可联系机器人客服开启"
}

/// The cache key of the sentence of day `day`.
pub fn daily_english_key(day: &str) -> (r: String)
    ensures
        r@ == "DAILY_ENGLISH::"@ + day@,
{
    concat("DAILY_ENGLISH::", day)
}

/// The address of the sentence of day `day`.
pub fn daily_english_url(day: &str) -> (r: String)
    ensures
        r@ == "http://sentence.iciba.com/index.php?c=dailysentence&m=getdetail&title="@ + day@,
{
    concat("http://sentence.iciba.com/index.php?c=dailysentence&m=getdetail&title=", day)
}

/// The answer of the daily sentence: the sentence, an empty line, then its
/// note.
pub fn daily_english_text(content: &str, note: &str) -> (r: String)
    ensures
        r@ == content@ + "\n\n"@ + note@,
{
    let mut r = concat(content, "\n\n");
    push_str(&mut r, note);
    r
}

/// The daily sentence as the sentence service answers it.
pub struct DailyEnglishRsp {
    pub note: String,
    pub content: String,
    pub tts: String,
}

/// The daily sentence with its voice, as it is cached.
pub struct DailyEnglish {
    pub note: String,
    pub content: String,
    pub buff: Vec<u8>,
}

} // verus!
