use vstd::prelude::*;
use crate::message::MessageElem;
use crate::patterns::{regex_capture, regex_compiles, regex_first_capture, regex_valid};
use crate::text::{chars_of, str_eq};

verus! {

/// The pattern of a ban command at the start of a message: white space,
/// `b`, white space, one to five digits, white space, then a unit of time.
pub open spec fn ban_pattern() -> Seq<char> {
    "^(\\s+)?b(\\s+)?([0-9]{1,5})(\\s+)?([smhd]?)(\\s+)?"@
}

/// The number that the ASCII digits `d` write.
pub open spec fn digits_value(d: Seq<char>) -> nat
    decreases d.len(),
{
    if d.len() == 0 {
        0
    } else {
        digits_value(d.drop_last()) * 10 + (d.last() as nat - '0' as nat) as nat
    }
}

/// Whether `d` is one to five ASCII digits.
pub open spec fn is_short_number(d: Seq<char>) -> bool {
    1 <= d.len() <= 5 && forall|i: int| 0 <= i < d.len() ==> '0' <= #[trigger] d[i] <= '9'
}

/// Whether `c` names a unit of time: seconds, minutes, hours or days.
pub open spec fn is_unit(c: char) -> bool {
    c == 's' || c == 'm' || c == 'h' || c == 'd'
}

/// The unit that the unit group of a ban command took, if any.
pub open spec fn unit_of(u: Option<Option<Seq<char>>>) -> Option<char> {
    match u {
        Some(Some(t)) => if t.len() == 1 && is_unit(t[0]) {
            Some(t[0])
        } else {
            None
        },
        _ => None,
    }
}

/// How the start of a message reads as a ban command: the number that the
/// pattern's third group took (its first match) and the unit its fifth
/// group took; none when the pattern does not match.
pub open spec fn ban_command_spec(s: Seq<char>) -> Option<(nat, Option<char>)> {
    if !regex_compiles(ban_pattern()) {
        None
    } else {
        match regex_first_capture(ban_pattern(), s, 3) {
            Some(Some(d)) => if is_short_number(d) {
                Some((digits_value(d), unit_of(regex_first_capture(ban_pattern(), s, 5))))
            } else {
                None
            },
            _ => None,
        }
    }
}

/// The length of a ban in seconds, for a number and its unit (seconds
/// when there is none).
pub open spec fn ban_seconds_spec(n: nat, unit: Option<char>) -> nat {
    match unit {
        Some('m') => n * 60,
        Some('h') => n * 3600,
        Some('d') => n * 86400,
        _ => n,
    }
}

/// The unit of a ban scales the number written into seconds: no unit, or
/// `s`, leaves it as seconds; `m` counts minutes (60 s), `h` hours (3600 s)
/// and `d` days (86400 s); any other character counts as no unit.
pub proof fn law_ban_units(n: nat, c: char)
    ensures
        ban_seconds_spec(n, None) == n,
        ban_seconds_spec(n, Some('s')) == n,
        ban_seconds_spec(n, Some('m')) == 60 * n,
        ban_seconds_spec(n, Some('h')) == 3600 * n,
        ban_seconds_spec(n, Some('d')) == 86400 * n,
        c != 'm' && c != 'h' && c != 'd' ==> ban_seconds_spec(n, Some(c)) == n,
        ban_seconds_spec(n, Some('h')) == 60 * ban_seconds_spec(n, Some('m')),
        ban_seconds_spec(n, Some('d')) == 24 * ban_seconds_spec(n, Some('h')),
{
}

/// The longest ban is shorter than this, in seconds: 29 days.
pub open spec fn ban_limit() -> nat {
    2505600
}

/// Ten to the power `e`, for `e` up to five.
pub open spec fn pow10(e: int) -> nat {
    if e <= 0 {
        1
    } else if e == 1 {
        10
    } else if e == 2 {
        100
    } else if e == 3 {
        1000
    } else if e == 4 {
        10000
    } else {
        100000
    }
}

/// The number that one to five ASCII digits write; none for anything else.
fn short_number(d: &str) -> (r: Option<u64>)
    ensures
        is_short_number(d@) ==> r == Some(digits_value(d@) as u64) && digits_value(d@) < 100000,
        !is_short_number(d@) ==> r is None,
{
    let v = chars_of(d);
    if v.len() == 0 || v.len() > 5 {
        return None;
    }
    let mut n: u64 = 0;
    let mut k: usize = 0;
    while k < v.len()
        invariant
            1 <= v@.len() <= 5,
            v@ == d@,
            k <= v@.len(),
            forall|i: int| 0 <= i < k ==> '0' <= #[trigger] v@[i] <= '9',
            n == digits_value(v@.take(k as int)),
            n < pow10(k as int),
        decreases v@.len() - k,
    {
        if !('0' <= v[k] && v[k] <= '9') {
            return None;
        }
        assert(v@.take(k + 1).drop_last() =~= v@.take(k as int));
        n = n * 10 + (v[k] as u64 - '0' as u64);
        k = k + 1;
    }
    assert(v@.take(k as int) =~= v@);
    Some(n)
}

/// The number and unit of a ban command at the start of `content`, or
/// none when it does not start with one.
pub fn ban_command(content: &str) -> (r: Option<(u64, Option<char>)>)
    ensures
        match ban_command_spec(content@) {
            None => r is None,
            Some((n, u)) => r == Some((n as u64, u)) && n < 100000,
        },
{
    let pattern = "^(\\s+)?b(\\s+)?([0-9]{1,5})(\\s+)?([smhd]?)(\\s+)?";
    if !regex_valid(pattern) {
        return None;
    }
    let digits = match regex_capture(pattern, content, 3) {
        Some(Some(d)) => d,
        _ => {
            return None;
        },
    };
    let n = match short_number(digits.as_str()) {
        Some(n) => n,
        None => {
            return None;
        },
    };
    let unit = match regex_capture(pattern, content, 5) {
        Some(Some(u)) => {
            let cs = chars_of(u.as_str());
            if cs.len() == 1 && (cs[0] == 's' || cs[0] == 'm' || cs[0] == 'h' || cs[0] == 'd') {
                Some(cs[0])
            } else {
                None
            }
        },
        _ => None,
    };
    Some((n, unit))
}

/// What a message asks of the group admin module.
pub enum AdminCommand {
    /// Its name, outside a group: answer that it works in groups only.
    NotInGroup,
    /// Its name, in a group: show how to use it.
    Help,
    /// A ban of the mentioned members for this many seconds.
    Ban(u64),
    /// Not for this module.
    Ignore,
}

/// What a message asks of the group admin module: its name
/// gets help (in groups only); in a group, a ban command gets a ban.
pub fn admin_command(content: &str, is_group: bool) -> (r: AdminCommand)
    ensures
        content@ == "群管"@ ==> (if is_group {
            r is Help
        } else {
            r is NotInGroup
        }),
        content@ != "群管"@ && !is_group ==> r is Ignore,
        content@ != "群管"@ && is_group ==> match ban_command_spec(content@) {
            None => r is Ignore,
            Some((n, u)) => r == AdminCommand::Ban(ban_seconds_spec(n, u) as u64),
        },
{
    if str_eq(content, "群管") {
        if is_group {
            AdminCommand::Help
        } else {
            AdminCommand::NotInGroup
        }
    } else if !is_group {
        AdminCommand::Ignore
    } else {
        match ban_command(content) {
            None => AdminCommand::Ignore,
            Some((n, u)) => {
                let secs: u64 = match u {
                    Some('m') => n * 60,
                    Some('h') => n * 3600,
                    Some('d') => n * 86400,
                    _ => n,
                };
                AdminCommand::Ban(secs)
            },
        }
    }
}

/// What becomes of a ban.
pub enum BanDecision {
    /// Answer with this refusal.
    Refuse(String),
    /// Mute each mentioned member for this many seconds (none lifts a
    /// ban), then answer "OK".
    Mute(u64),
}

/// What becomes of a ban of `secs` seconds: the caller and the bot must
/// both rank above plain members, and a ban must be shorter than 29 days.
pub fn ban_decision(caller_is_member: bool, bot_is_member: bool, secs: u64) -> (r: BanDecision)
    ensures
        caller_is_member ==> (r matches BanDecision::Refuse(m) && m@ == "您必须是群主或管理员才能使用"@),
        !caller_is_member && bot_is_member ==> (r matches BanDecision::Refuse(m) && m@
            == "机器人必须是群主或管理员才能使用"@),
        !caller_is_member && !bot_is_member && secs >= ban_limit() ==> (r matches BanDecision::Refuse(
            m,
        ) && m@ == "最多禁言29天"@),
        !caller_is_member && !bot_is_member && secs < ban_limit() ==> r == BanDecision::Mute(secs),
        r matches BanDecision::Mute(s) ==> s < ban_limit(),
{
    if caller_is_member {
        BanDecision::Refuse("您必须是群主或管理员才能使用".to_owned())
    } else if bot_is_member {
        BanDecision::Refuse("机器人必须是群主或管理员才能使用".to_owned())
    } else if secs >= 2505600 {
        BanDecision::Refuse("最多禁言29天".to_owned())
    } else {
        BanDecision::Mute(secs)
    }
}

/// The accounts mentioned in a message, in order.
pub open spec fn mentions(s: Seq<MessageElem>) -> Seq<i64>
    decreases s.len(),
{
    if s.len() == 0 {
        Seq::empty()
    } else {
        match s.last() {
            MessageElem::At(t, _) => mentions(s.drop_last()).push(t),
            _ => mentions(s.drop_last()),
        }
    }
}

/// The members to mute: the accounts mentioned in the message, in order.
pub fn mute_targets(elements: &Vec<MessageElem>) -> (r: Vec<i64>)
    ensures
        r@ == mentions(elements@),
{
    let mut r: Vec<i64> = Vec::new();
    let mut i: usize = 0;
    while i < elements.len()
        invariant
            i <= elements@.len(),
            r@ == mentions(elements@.take(i as int)),
        decreases elements@.len() - i,
    {
        assert(elements@.take(i + 1).drop_last() =~= elements@.take(i as int));
        match &elements[i] {
            MessageElem::At(t, _) => r.push(*t),
            _ => {},
        }
        i = i + 1;
    }
    assert(elements@.take(i as int) =~= elements@);
    r
}

/// How to use the group admin module.
pub open spec fn admin_help_text() -> Seq<char> {
    "b+禁言时间 @一个或多个人\n\n比如禁言张三12小时 : b12h @张三 \n\n比如禁言张三李四12天 : b12h @张三 @李四 \n\n s 秒, m 分, h 小时, d 天\n\nb0 则解除禁言"@
}

/// How to use the group admin module.
pub fn admin_help() -> (r: &'static str)
    ensures
        r@ == admin_help_text(),
{
    "b+禁言时间 @一个或多个人\n\n比如禁言张三12小时 : b12h @张三 \n\n比如禁言张三李四12天 : b12h @张三 @李四 \n\n s 秒, m 分, h 小时, d 天\n\nb0 则解除禁言"
}

} // verus!
