use proc_qq::codegen::bot_command::{
    parse_bot_args, parse_bot_command, take_param, BotCommandRaw, BotCommandRawTuple,
    BotParamsMather, BotParamsMatherTuple, FnArgShape, PatShape,
};
use proc_qq::codegen::event_arg::{
    args_to_source, contains_bot_command, parse_arg, parse_args, parse_args_and_command, AttrArg,
    EventArg, LitArg,
};
use proc_qq::codegen::macros::{event, event_fn, module, result, struct_name, EventBody};
use proc_qq::handler::results::ResultProcess;

fn typed(name: &str, ty: &str) -> FnArgShape {
    FnArgShape::Typed(PatShape::Ident(name.to_owned()), ty.to_owned())
}

fn name_value(name: &str, value: &str) -> AttrArg {
    AttrArg::NameValue(vec![name.to_owned()], LitArg::Str(value.to_owned()))
}

#[test]
fn bot_command_absent_gives_none() {
    assert!(matches!(parse_bot_command(None), Ok(None)));
}

#[test]
fn bot_command_words_and_params() {
    let items = parse_bot_command(Some("/删除 {idx}".to_owned())).unwrap().unwrap();
    assert_eq!(items.len(), 2);
    assert!(matches!(&items[0], BotCommandRaw::Command(c) if c == "/删除"));
    assert!(matches!(&items[1], BotCommandRaw::Param(p) if p == "idx"));
}

#[test]
fn bot_command_enum_parameter() {
    let items = parse_bot_command(Some("{option:|开启|关闭} 天气预报".to_owned()))
        .unwrap()
        .unwrap();
    assert_eq!(items.len(), 2);
    match &items[0] {
        BotCommandRaw::Enum(name, values) => {
            assert_eq!(name, "option");
            assert_eq!(values, &vec!["开启".to_owned(), "关闭".to_owned()]);
        }
        _ => panic!("expected an enum parameter"),
    }
    assert!(matches!(&items[1], BotCommandRaw::Command(c) if c == "天气预报"));
}

#[test]
fn bot_command_pieces_written_together() {
    let items = parse_bot_command(Some("请{min}{time:|小时|分钟|秒钟}后提醒我{event}".to_owned()))
        .unwrap()
        .unwrap();
    assert_eq!(items.len(), 1);
    match &items[0] {
        BotCommandRaw::Multiple(pieces) => {
            assert_eq!(pieces.len(), 5);
            assert!(matches!(&pieces[0], BotCommandRawTuple::Command(c) if c == "请"));
            assert!(matches!(&pieces[1], BotCommandRawTuple::Param(p) if p == "min"));
            assert!(matches!(&pieces[2], BotCommandRawTuple::Enum(p, v) if p == "time" && v.len() == 3));
            assert!(matches!(&pieces[3], BotCommandRawTuple::Command(c) if c == "后提醒我"));
            assert!(matches!(&pieces[4], BotCommandRawTuple::Param(p) if p == "event"));
        }
        _ => panic!("expected several pieces"),
    }
}

#[test]
fn bot_command_bad_item_names_it() {
    let err = parse_bot_command(Some("ok {1bad}".to_owned())).unwrap_err();
    assert!(err.ends_with(" => {1bad}"));
    assert!(err.starts_with("bot_command中的元素必须是由固定字符串和参数组合而成"));
}

#[test]
fn take_param_checks_name_and_kind() {
    let args = vec![FnArgShape::Receiver, typed("idx", "i64"), FnArgShape::Typed(PatShape::Other("(a, b)".to_owned()), "i64".to_owned())];
    assert_eq!(take_param(&args, 1, &"idx".to_owned()), Ok(1));
    assert_eq!(
        take_param(&args, 1, &"other".to_owned()),
        Err("bot_command中的参数名必须与参数名一致 other != idx".to_owned())
    );
    assert_eq!(take_param(&args, 0, &"idx".to_owned()), Err("bot_command的参数不支持Self".to_owned()));
    assert_eq!(
        take_param(&args, 2, &"idx".to_owned()),
        Err("bot_command中的参数必须是标识符 idx".to_owned())
    );
    assert_eq!(
        take_param(&args, 3, &"idx".to_owned()),
        Err("参数个数与bot_command不匹配，您的方法中缺少参数 : idx".to_owned())
    );
}

#[test]
fn bot_args_bind_parameters_in_order() {
    let items = parse_bot_command(Some("/删除 {idx}".to_owned())).unwrap();
    let args = vec![typed("idx", "i64")];
    let bound = parse_bot_args(&args, items).unwrap().unwrap();
    assert_eq!(bound.len(), 2);
    assert!(matches!(&bound[0], BotParamsMather::Command(c) if c == "/删除"));
    assert!(matches!(&bound[1], BotParamsMather::Params(0)));
}

#[test]
fn bot_args_bind_pieces_written_together() {
    let items = parse_bot_command(Some("请{min}{time:|小时|分钟}".to_owned())).unwrap();
    let args = vec![typed("min", "u64"), typed("time", "String")];
    let bound = parse_bot_args(&args, items).unwrap().unwrap();
    match &bound[0] {
        BotParamsMather::Multiple(pieces) => {
            assert!(matches!(&pieces[0], BotParamsMatherTuple::Command(c) if c == "请"));
            assert!(matches!(&pieces[1], BotParamsMatherTuple::Params(0)));
            assert!(matches!(&pieces[2], BotParamsMatherTuple::Enum(1, v) if v.len() == 2));
        }
        _ => panic!("expected several pieces"),
    }
}

#[test]
fn bot_args_missing_parameter_is_an_error() {
    let items = parse_bot_command(Some("/删除 {idx}".to_owned())).unwrap();
    let err = parse_bot_args(&vec![], items).unwrap_err();
    assert_eq!(err, "参数个数与bot_command不匹配，您的方法中缺少参数 : idx");
}

#[test]
fn attribute_arguments_are_read() {
    let attrs = vec![
        AttrArg::List(vec!["all".to_owned()], vec![name_value("eq", "a"), name_value("trim_eq", "b")]),
        name_value("regexp", "^hello$"),
    ];
    let args = parse_args(&attrs).unwrap();
    assert_eq!(args.len(), 2);
    match &args[0] {
        EventArg::All(inner) => {
            assert!(matches!(&inner[0], EventArg::Eq(s) if s == "a"));
            assert!(matches!(&inner[1], EventArg::TrimEq(s) if s == "b"));
        }
        _ => panic!("expected all(..)"),
    }
    assert!(matches!(&args[1], EventArg::Regexp(s) if s == "^hello$"));
}

#[test]
fn attribute_argument_errors() {
    assert_eq!(parse_arg(&name_value("regexp", "(")).err(), Some("正则表达式不正确".to_owned()));
    assert_eq!(
        parse_arg(&AttrArg::NameValue(vec!["eq".to_owned()], LitArg::Other)).err(),
        Some("eq只支持字符串类型参数值".to_owned())
    );
    assert_eq!(parse_arg(&name_value("unknown", "x")).err(), Some("不支持的参数名称".to_owned()));
    assert_eq!(parse_arg(&AttrArg::Lit).err(), Some("不支持值类型的参数".to_owned()));
    assert_eq!(parse_arg(&AttrArg::Path(vec!["x".to_owned()])).err(), Some("不支持的参数名称".to_owned()));
    assert_eq!(
        parse_arg(&AttrArg::NameValue(vec!["a".to_owned(), "b".to_owned()], LitArg::Str("x".to_owned()))).err(),
        Some("表达式有且只能有一个片段".to_owned())
    );
}

#[test]
fn bot_command_is_found_at_any_depth() {
    let nested = vec![EventArg::Not(vec![EventArg::Any(vec![EventArg::BotCommand("x".to_owned())])])];
    assert!(contains_bot_command(&nested));
    assert!(!contains_bot_command(&vec![EventArg::Eq("x".to_owned())]));
}

#[test]
fn bot_command_is_taken_out_of_the_filters() {
    let attrs = vec![name_value("eq", "a"), name_value("bot_command", "/hi {name}")];
    let (rest, command) = parse_args_and_command(&attrs).unwrap();
    assert_eq!(rest.len(), 1);
    assert_eq!(command, Some("/hi {name}".to_owned()));
}

#[test]
fn two_bot_commands_are_refused() {
    let attrs = vec![name_value("bot_command", "a"), name_value("bot_command", "b")];
    assert_eq!(
        parse_args_and_command(&attrs).err(),
        Some("bot_command 只能有一个，且必须是直接写在event括号中".to_owned())
    );
    let nested = vec![AttrArg::List(vec!["all".to_owned()], vec![name_value("bot_command", "a")])];
    assert_eq!(
        parse_args_and_command(&nested).err(),
        Some("bot_command 只能有一个，且必须是直接写在event括号中".to_owned())
    );
}

#[test]
fn filters_become_source_text() {
    let filters = vec![EventArg::All(vec![EventArg::Eq("a".to_owned())]), EventArg::TrimRegexp("b".to_owned())];
    assert_eq!(
        args_to_source(&filters),
        "vec![::proc_qq::EventArg::All(vec![::proc_qq::EventArg::Eq(\"a\".to_string()),]),::proc_qq::EventArg::TrimRegexp(\"b\".to_string()),]"
    );
}

#[test]
fn filter_text_becomes_an_escaped_string_literal() {
    let filters = vec![EventArg::Eq("say \"hi\"\n".to_owned())];
    assert_eq!(
        args_to_source(&filters),
        "vec![::proc_qq::EventArg::Eq(\"say \\\"hi\\\"\\n\".to_string()),]"
    );
}

#[test]
fn struct_name_knows_event_types() {
    assert_eq!(
        struct_name("& GroupMessageEvent"),
        Ok(("::proc_qq::GroupMessageEventProcess".to_owned(), "::proc_qq::ModuleEventProcess::GroupMessage".to_owned()))
    );
    assert_eq!(
        struct_name("& GroupPoke"),
        Ok(("::proc_qq::GroupPokeProcess".to_owned(), "::proc_qq::ModuleEventProcess::GroupPoke".to_owned()))
    );
    let err = struct_name("& Unknown").unwrap_err();
    assert!(err.starts_with("未知的参数类型 & Unknown, "));
}

#[test]
fn struct_name_knows_the_documented_member_and_connection_events() {
    assert_eq!(
        struct_name("& NewMemberEvent"),
        Ok(("::proc_qq::NewMemberEventProcess".to_owned(), "::proc_qq::ModuleEventProcess::NewMember".to_owned()))
    );
    assert_eq!(
        struct_name("& SelfInvitedEvent"),
        Ok(("::proc_qq::SelfInvitedEventProcess".to_owned(), "::proc_qq::ModuleEventProcess::SelfInvited".to_owned()))
    );
    assert_eq!(
        struct_name("& DisconnectedAndOfflineEvent"),
        Ok((
            "::proc_qq::DisconnectedAndOfflineEventProcess".to_owned(),
            "::proc_qq::ModuleEventProcess::DisconnectAndOffline".to_owned()
        ))
    );
    assert_eq!(
        struct_name("& NewFriendEvent"),
        Ok(("::proc_qq::NewFriendEventProcess".to_owned(), "::proc_qq::ModuleEventProcess::NewFriend".to_owned()))
    );
    assert_eq!(
        struct_name("& GroupAudioMessageEvent"),
        Ok(("::proc_qq::GroupAudioMessageEventProcess".to_owned(), "::proc_qq::ModuleEventProcess::GroupAudioMessage".to_owned()))
    );
}

#[test]
fn event_without_filters_wraps_nothing() {
    let plan = event(true, &vec![typed("event", "& MessageEvent")], &vec![]).unwrap();
    assert_eq!(plan.event_index, 0);
    assert_eq!(plan.param_skip, 1);
    assert_eq!(plan.trait_name, "::proc_qq::MessageEventProcess");
    assert_eq!(plan.enum_name, "::proc_qq::ModuleEventProcess::Message");
    assert!(matches!(plan.body, EventBody::Plain));
}

#[test]
fn event_after_self_is_found() {
    let plan = event(true, &vec![FnArgShape::Receiver, typed("e", "& LoginEvent")], &vec![]).unwrap();
    assert_eq!(plan.event_index, 1);
    assert_eq!(plan.param_skip, 2);
}

#[test]
fn event_with_filters_and_command() {
    let params = vec![typed("event", "& GroupMessageEvent"), typed("idx", "i64")];
    let attrs = vec![name_value("eq", "x"), name_value("bot_command", "/删除 {idx}")];
    let plan = event(true, &params, &attrs).unwrap();
    match plan.body {
        EventBody::Command(filters, bound) => {
            assert_eq!(filters.len(), 1);
            assert_eq!(bound.len(), 2);
            assert!(matches!(&bound[1], BotParamsMather::Params(0)));
        }
        _ => panic!("expected a command body"),
    }
    let filtered = event(true, &vec![typed("event", "& MessageEvent")], &vec![name_value("eq", "x")]).unwrap();
    assert!(matches!(filtered.body, EventBody::Filtered(f) if f.len() == 1));
}

#[test]
fn event_errors() {
    assert_eq!(event(false, &vec![], &vec![]).err(), Some("必须是async方法".to_owned()));
    assert_eq!(event(true, &vec![], &vec![]).err(), Some("需要事件作为参数".to_owned()));
    assert_eq!(event(true, &vec![FnArgShape::Receiver], &vec![]).err(), Some("需要事件作为参数".to_owned()));
    assert_eq!(
        event(true, &vec![FnArgShape::Receiver, FnArgShape::Receiver], &vec![]).err(),
        Some("不支持self".to_owned())
    );
    assert_eq!(
        event(true, &vec![typed("e", "& LoginEvent")], &vec![name_value("eq", "x")]).err(),
        Some("event 的参数只支持消息类型事件 (MessageEvent,*MessageEvent)".to_owned())
    );
}

#[test]
fn result_handler_rules() {
    assert_eq!(result(true, &vec![typed("r", "& EventResult")]), Ok(ResultProcess::OnlyResult));
    assert_eq!(result(false, &vec![typed("r", "& EventResult")]), Err("必须是async方法".to_owned()));
    assert_eq!(result(true, &vec![]), Err("必须有且只能有1~2个参数".to_owned()));
    assert_eq!(result(true, &vec![FnArgShape::Receiver]), Err("不支持self".to_owned()));
    assert_eq!(result(true, &vec![typed("r", "& String")]), Err("一个参数时只支持 &EventResult".to_owned()));
    assert_eq!(
        result(true, &vec![typed("a", "& EventResult"), typed("b", "i32")]),
        Err("现在只支持一个参数".to_owned())
    );
}

#[test]
fn module_macro_expression() {
    let exprs = vec!["\"hello\"".to_owned(), "\"你好\"".to_owned(), "print".to_owned(), "group_hello".to_owned()];
    assert_eq!(
        module(&exprs),
        Ok("::proc_qq::Module { id: \"hello\".to_owned(), name: \"你好\".to_owned(), handles: vec![print {}.into(),group_hello {}.into(),], }".to_owned())
    );
    assert_eq!(module(&vec!["\"id\"".to_owned()]), Err("参数数量不足".to_owned()));
}

#[test]
fn event_fn_targets() {
    let attrs = vec![AttrArg::Path(vec!["a".to_owned()]), AttrArg::Path(vec!["b".to_owned()])];
    assert_eq!(event_fn(&attrs), Ok(vec!["a".to_owned(), "b".to_owned()]));
    assert_eq!(
        event_fn(&vec![AttrArg::Path(vec!["a".to_owned(), "b".to_owned()])]),
        Err("格式为event_fn(ident1,ident2,...)".to_owned())
    );
    assert_eq!(event_fn(&vec![AttrArg::Lit]), Err("格式为event_fn(ident1,ident2,...)".to_owned()));
}

#[test]
fn example_commands_bind_their_parameters() {
    let params = vec![typed("_message", "& MessageEvent"), typed("user", "String"), typed("time", "i64")];
    let attrs = vec![name_value("bot_command", "/test_ban a {user} b {time}")];
    let plan = event(true, &params, &attrs).unwrap();
    match plan.body {
        EventBody::Command(filters, bound) => {
            assert!(filters.is_empty());
            assert_eq!(bound.len(), 5);
            assert!(matches!(&bound[0], BotParamsMather::Command(c) if c == "/test_ban"));
            assert!(matches!(&bound[1], BotParamsMather::Command(c) if c == "a"));
            assert!(matches!(&bound[2], BotParamsMather::Params(0)));
            assert!(matches!(&bound[3], BotParamsMather::Command(c) if c == "b"));
            assert!(matches!(&bound[4], BotParamsMather::Params(1)));
        }
        _ => panic!("expected a command body"),
    }
}

#[test]
fn example_command_with_han_words_written_together() {
    let items = parse_bot_command(Some("/test{var1}秒后发送{var2}".to_owned())).unwrap().unwrap();
    assert_eq!(items.len(), 1);
    match &items[0] {
        BotCommandRaw::Multiple(pieces) => {
            assert_eq!(pieces.len(), 4);
            assert!(matches!(&pieces[0], BotCommandRawTuple::Command(c) if c == "/test"));
            assert!(matches!(&pieces[1], BotCommandRawTuple::Param(p) if p == "var1"));
            assert!(matches!(&pieces[2], BotCommandRawTuple::Command(c) if c == "秒后发送"));
            assert!(matches!(&pieces[3], BotCommandRawTuple::Param(p) if p == "var2"));
        }
        _ => panic!("expected several pieces"),
    }
    let spaced = parse_bot_command(Some("/test {var1}秒后发送{var2}".to_owned())).unwrap().unwrap();
    assert_eq!(spaced.len(), 2);
}

#[test]
fn example_regexp_filter() {
    let params = vec![typed("event", "& MessageEvent")];
    let attrs = vec![name_value("regexp", "^(\\s+)?你很好(\\s+)?$")];
    let plan = event(true, &params, &attrs).unwrap();
    assert!(matches!(plan.body, EventBody::Filtered(f) if matches!(&f[0], EventArg::Regexp(r) if r == "^(\\s+)?你很好(\\s+)?$")));
}

#[test]
fn punctuation_is_not_a_command_word() {
    assert!(parse_bot_command(Some("hello!".to_owned())).is_err());
}
