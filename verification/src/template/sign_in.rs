use vstd::prelude::*;
use crate::text::{concat, decimal, i64_to_string, push_str, str_eq};

verus! {

/// A member's sign-in account in a group: coins, the date of the last
/// sign-in (`YYYY-MM-DD`) and how many days in a row were signed.
pub struct GroupSignIn {
    pub group_code: i64,
    pub uin: i64,
    pub coins: i64,
    pub last_sign_in_date: String,
    pub last_sign_in_count: i64,
}

/// What a message asks of the sign-in module.
pub enum SignInCommand {
    /// Show how to use the module.
    Help,
    /// Sign in for today.
    SignIn,
    /// Show the account.
    Wallet,
    /// Not for this module.
    Ignore,
}

/// What a message asks of the sign-in module: its name
/// asks for help anywhere; signing in and the wallet work in groups only.
pub fn sign_in_command(content: &str, is_group: bool) -> (r: SignInCommand)
    ensures
        content@ == "群签到"@ ==> r is Help,
        content@ != "群签到"@ && is_group && content@ == "签到"@ ==> r is SignIn,
        content@ != "群签到"@ && is_group && content@ == "钱包"@ ==> r is Wallet,
        content@ != "群签到"@ && !(is_group && (content@ == "签到"@ || content@ == "钱包"@))
            ==> r is Ignore,
{
    proof {
        reveal_strlit("签到");
        reveal_strlit("钱包");
        assert("签到"@[0] != "钱包"@[0]);
        assert("签到"@ != "钱包"@);
    }
    if str_eq(content, "群签到") {
        SignInCommand::Help
    } else if is_group && str_eq(content, "签到") {
        SignInCommand::SignIn
    } else if is_group && str_eq(content, "钱包") {
        SignInCommand::Wallet
    } else {
        SignInCommand::Ignore
    }
}

/// The remainder of `a` divided by `m`, with the sign of `a`, as Rust's
/// `%` computes it.
pub open spec fn trunc_rem(a: int, m: int) -> int {
    if a >= 0 {
        a % m
    } else {
        -((-a) % m)
    }
}

/// What a sign-in gives.
pub enum SignInOutcome {
    /// The member already signed in today.
    AlreadySigned,
    /// The coins won today, and the account after the sign-in.
    Signed(i64, GroupSignIn),
}

/// The coins won by a sign-in that breaks the row of days: a random
/// number's remainder by 30, which keeps its sign.
pub open spec fn broken_row_coins(raw: i64) -> int {
    trunc_rem(raw as int, 30)
}

/// Whether the account's numbers stay within `i64` after the sign-in.
pub open spec fn sign_in_fits(pre: Option<GroupSignIn>, today: Seq<char>, yesterday: Seq<char>, streak_up: i64, raw: i64) -> bool {
    match pre {
        None => true,
        Some(p) => if p.last_sign_in_date@ == today {
            true
        } else if p.last_sign_in_date@ == yesterday {
            i64::MIN <= p.coins + streak_up <= i64::MAX && p.last_sign_in_count + 1 <= i64::MAX
        } else {
            i64::MIN <= p.coins + broken_row_coins(raw) <= i64::MAX
        },
    }
}

/// Whether the account's numbers stay within `i64` after the sign-in
/// (what `sign_in` needs of its inputs).
pub fn fits_after_sign_in(pre: &Option<GroupSignIn>, today: &str, yesterday: &str, streak_up: i64, raw: i64) -> (r: bool)
    ensures
        r == sign_in_fits(*pre, today@, yesterday@, streak_up, raw),
{
    match pre {
        None => true,
        Some(p) => if str_eq(p.last_sign_in_date.as_str(), today) {
            true
        } else if str_eq(p.last_sign_in_date.as_str(), yesterday) {
            p.coins.checked_add(streak_up).is_some() && p.last_sign_in_count < i64::MAX
        } else {
            p.coins.checked_add(rem30(raw)).is_some()
        },
    }
}

/// A sign-in of member `uin` of group `group_code` on `today`, whose account
/// was `pre`: a first sign-in wins `30 + draw` coins; a second one on the
/// same day is refused; one the day after the last wins `streak_up` coins
/// (the caller scales a new draw by the length of the row) and lengthens
/// the row; any other breaks the row and wins `broken_row_coins(raw)`.
pub open spec fn sign_in_spec(
    group_code: i64,
    uin: i64,
    pre: Option<GroupSignIn>,
    today: String,
    yesterday: Seq<char>,
    draw: i64,
    streak_up: i64,
    raw: i64,
) -> SignInOutcome {
    match pre {
        None => SignInOutcome::Signed(
            (30 + draw) as i64,
            GroupSignIn {
                group_code,
                uin,
                coins: (30 + draw) as i64,
                last_sign_in_date: today,
                last_sign_in_count: 1,
            },
        ),
        Some(p) => if p.last_sign_in_date@ == today@ {
            SignInOutcome::AlreadySigned
        } else if p.last_sign_in_date@ == yesterday {
            SignInOutcome::Signed(
                streak_up,
                GroupSignIn {
                    group_code,
                    uin,
                    coins: (p.coins + streak_up) as i64,
                    last_sign_in_date: today,
                    last_sign_in_count: (p.last_sign_in_count + 1) as i64,
                },
            )
        } else {
            SignInOutcome::Signed(
                broken_row_coins(raw) as i64,
                GroupSignIn {
                    group_code,
                    uin,
                    coins: (p.coins + broken_row_coins(raw)) as i64,
                    last_sign_in_date: today,
                    last_sign_in_count: 1,
                },
            )
        },
    }
}

fn rem30(a: i64) -> (r: i64)
    ensures
        r == trunc_rem(a as int, 30),
        -30 < r < 30,
{
    if a >= 0 {
        a % 30
    } else {
        let p: u64 = if a == i64::MIN {
            9223372036854775808u64
        } else {
            (-a) as u64
        };
        let m = (p % 30) as i64;
        -m
    }
}

/// Signs member `uin` of group `group_code` in on `today` ("签到"), given
/// the account `pre`, the draw in `0..100` for a first
/// sign-in, the coins for a sign-in that lengthens the row, and a random
/// number for one that breaks it.
pub fn sign_in(
    group_code: i64,
    uin: i64,
    pre: Option<GroupSignIn>,
    today: String,
    yesterday: &str,
    draw: i64,
    streak_up: i64,
    raw: i64,
) -> (r: SignInOutcome)
    requires
        0 <= draw < 100,
        sign_in_fits(pre, today@, yesterday@, streak_up, raw),
    ensures
        r == sign_in_spec(group_code, uin, pre, today, yesterday@, draw, streak_up, raw),
{
    match pre {
        None => {
            let up = 30 + draw;
            SignInOutcome::Signed(
                up,
                GroupSignIn {
                    group_code,
                    uin,
                    coins: up,
                    last_sign_in_date: today,
                    last_sign_in_count: 1,
                },
            )
        },
        Some(p) => {
            if str_eq(p.last_sign_in_date.as_str(), today.as_str()) {
                SignInOutcome::AlreadySigned
            } else if str_eq(p.last_sign_in_date.as_str(), yesterday) {
                SignInOutcome::Signed(
                    streak_up,
                    GroupSignIn {
                        group_code,
                        uin,
                        coins: p.coins + streak_up,
                        last_sign_in_date: today,
                        last_sign_in_count: p.last_sign_in_count + 1,
                    },
                )
            } else {
                let up = rem30(raw);
                SignInOutcome::Signed(
                    up,
                    GroupSignIn {
                        group_code,
                        uin,
                        coins: p.coins + up,
                        last_sign_in_date: today,
                        last_sign_in_count: 1,
                    },
                )
            }
        },
    }
}

/// A member signs in at most once a day: signing in again on the same
/// day, from the account the first sign-in left, is refused.
pub proof fn law_sign_in_once_a_day(
    group_code: i64,
    uin: i64,
    pre: Option<GroupSignIn>,
    today: String,
    yesterday: Seq<char>,
    draw: i64,
    streak_up: i64,
    raw: i64,
    draw2: i64,
    streak_up2: i64,
    raw2: i64,
)
    ensures
        sign_in_spec(group_code, uin, pre, today, yesterday, draw, streak_up, raw) is Signed
            ==> sign_in_spec(
            group_code,
            uin,
            Some(sign_in_spec(group_code, uin, pre, today, yesterday, draw, streak_up, raw)->1),
            today,
            yesterday,
            draw2,
            streak_up2,
            raw2,
        ) is AlreadySigned,
{
}

/// The answer to a sign-in.
pub open spec fn signed_reply(count: i64, up: i64, coins: i64) -> Seq<char> {
    "签到成功\n要坚持签到获得更多金币喔\n\n您一共连续签到"@ + decimal(count as int) + "天\n今天获得金币"@
        + decimal(up as int) + "枚\n您一共有金币"@ + decimal(coins as int) + "枚"@
}

/// The answer to a sign-in.
pub fn sign_in_reply(outcome: &SignInOutcome) -> (r: String)
    ensures
        match *outcome {
            SignInOutcome::AlreadySigned => r@ == "您今天已经签到过了"@,
            SignInOutcome::Signed(up, rec) => r@ == signed_reply(
                rec.last_sign_in_count,
                up,
                rec.coins,
            ),
        },
{
    match outcome {
        SignInOutcome::AlreadySigned => "您今天已经签到过了".to_owned(),
        SignInOutcome::Signed(up, rec) => {
            let mut r = concat(
                "签到成功\n要坚持签到获得更多金币喔\n\n您一共连续签到",
                i64_to_string(rec.last_sign_in_count).as_str(),
            );
            push_str(&mut r, "天\n今天获得金币");
            push_str(&mut r, i64_to_string(*up).as_str());
            push_str(&mut r, "枚\n您一共有金币");
            push_str(&mut r, i64_to_string(rec.coins).as_str());
            push_str(&mut r, "枚");
            r
        },
    }
}

/// The answer about an account.
pub open spec fn wallet_text(count: i64, date: Seq<char>, coins: i64) -> Seq<char> {
    "您总共连续签到"@ + decimal(count as int) + "天\n最后一次签到时间为"@ + date + "\n剩余金币"@
        + decimal(coins as int) + "枚"@
}

/// The answer about an account.
pub fn wallet_reply(pre: &Option<GroupSignIn>) -> (r: String)
    ensures
        match *pre {
            None => r@ == "您还没有开通群账户昂, 第一次签到自动开启"@,
            Some(p) => r@ == wallet_text(p.last_sign_in_count, p.last_sign_in_date@, p.coins),
        },
{
    match pre {
        None => "您还没有开通群账户昂, 第一次签到自动开启".to_owned(),
        Some(p) => {
            let mut r = concat("您总共连续签到", i64_to_string(p.last_sign_in_count).as_str());
            push_str(&mut r, "天\n最后一次签到时间为");
            push_str(&mut r, p.last_sign_in_date.as_str());
            push_str(&mut r, "\n剩余金币");
            push_str(&mut r, i64_to_string(p.coins).as_str());
            push_str(&mut r, "枚");
            r
        },
    }
}

/// How to use the sign-in module.
pub fn sign_in_help() -> (r: &'static str)
    ensures
        r@ == " 群签到\n在群中发出以下指令\n\n \"签到\" 获得金币, 每日一次\n \"钱包\" 查询金币剩余量\n"@,
{
    " 群签到\n在群中发出以下指令\n\n \"签到\" 获得金币, 每日一次\n \"钱包\" 查询金币剩余量\n"
}

/// What to set up in the database before the module runs: the collection
/// when none of its name exists, and
/// the unique index on group and member when an index of its name is
/// listed (the index is only made when its name is already there).
pub fn sign_in_db_plan(collections_found: usize, index_names: &Vec<String>) -> (r: (bool, bool))
    ensures
        r.0 == (collections_found == 0),
        r.1 == exists|i: int| 0 <= i < index_names@.len() && index_names@[i]@ == "uk_group_and_uin"@,
{
    let mut found = false;
    let mut i: usize = 0;
    while i < index_names.len()
        invariant
            i <= index_names@.len(),
            found == exists|j: int| 0 <= j < i && index_names@[j]@ == "uk_group_and_uin"@,
        decreases index_names@.len() - i,
    {
        if str_eq(index_names[i].as_str(), "uk_group_and_uin") {
            found = true;
        }
        i = i + 1;
    }
    (collections_found == 0, found)
}

} // verus!
