use proc_qq::codegen::bot_command::{FnArgShape, PatShape};
use proc_qq::codegen::emit::{event_fn_source, event_source, result_source};
use proc_qq::codegen::event_arg::{AttrArg, LitArg};

fn typed(name: &str, ty: &str) -> FnArgShape {
    FnArgShape::Typed(PatShape::Ident(name.to_owned()), ty.to_owned())
}

fn name_value(name: &str, value: &str) -> AttrArg {
    AttrArg::NameValue(vec![name.to_owned()], LitArg::Str(value.to_owned()))
}

const HEAD: &str = "#[allow(non_camel_case_types)] pub struct print {} #[::proc_qq::re_exports::async_trait::async_trait] impl ::proc_qq::MessageEventProcess for print { async fn handle(&self, event: & MessageEvent) -> ::proc_qq::re_exports::anyhow::Result<bool> ";
const INTO: &str = "impl Into<::proc_qq::ModuleEventHandler> for print { fn into(self) -> ::proc_qq::ModuleEventHandler { ::proc_qq::ModuleEventHandler { name: \"print\".into(), process: ::proc_qq::ModuleEventProcess::Message(Box::new(self)), } } } ";

#[test]
fn event_plain_handler_source() {
    let src = event_source(
        &"print".to_owned(),
        true,
        &vec![typed("event", "& MessageEvent")],
        &vec![],
        &"{ Ok(false) }".to_owned(),
    )
    .unwrap();
    assert_eq!(src, format!("{}{{ Ok(false) }} }} {}", HEAD, INTO));
}

#[test]
fn event_filtered_handler_source() {
    let src = event_source(
        &"print".to_owned(),
        true,
        &vec![typed("event", "& MessageEvent")],
        &vec![name_value("trim_eq", "a")],
        &"{ Ok(true) }".to_owned(),
    )
    .unwrap();
    let handle = "{ if !::proc_qq::match_event_args_all(vec![::proc_qq::EventArg::TrimEq(\"a\".to_string()),], event.into())? { return Ok(false); } self.raw(event).await } } impl print { async fn raw(&self, event: & MessageEvent) -> ::proc_qq::re_exports::anyhow::Result<bool> { Ok(true) } } ";
    assert_eq!(src, format!("{}{}{}", HEAD, handle, INTO));
}

#[test]
fn event_command_handler_source() {
    let src = event_source(
        &"print".to_owned(),
        true,
        &vec![typed("event", "& MessageEvent"), typed("idx", "i64")],
        &vec![name_value("bot_command", "/删除 {idx}")],
        &"{ Ok(true) }".to_owned(),
    )
    .unwrap();
    let handle = "{ if !::proc_qq::match_event_args_all(vec![], event.into())? { return Ok(false); } use ::proc_qq::MessageChainPointTrait; let m_chan = event.message_chain().clone(); let mut m_vec = vec![]; for x in m_chan { m_vec.push(x); } let mut matcher = ::proc_qq::CommandMatcher::new(m_vec); if !matcher.match_command(\"/删除\") { return Ok(false); } let idx: i64 = match ::proc_qq::matcher_get::<i64>(&mut matcher) { Some(value) => value, None => return Ok(false), }; if matcher.not_blank() { return Ok(false); } self.raw(event, idx, ).await } } impl print { async fn raw(&self, event: & MessageEvent, idx: i64, ) -> ::proc_qq::re_exports::anyhow::Result<bool> { Ok(true) } } ";
    assert_eq!(src, format!("{}{}{}", HEAD, handle, INTO));
}

#[test]
fn event_source_reports_the_plan_errors() {
    assert_eq!(
        event_source(&"print".to_owned(), false, &vec![typed("event", "& MessageEvent")], &vec![], &"{}".to_owned()),
        Err("必须是async方法".to_owned())
    );
}

#[test]
fn result_handler_source() {
    let src = result_source(
        &"on_result".to_owned(),
        true,
        &vec![typed("result", "& EventResult")],
        &"{ Ok(false) }".to_owned(),
    )
    .unwrap();
    assert_eq!(
        src,
        "#[allow(non_camel_case_types)] pub struct on_result {} #[::proc_qq::re_exports::async_trait::async_trait] impl ::proc_qq::OnlyResultHandler for on_result { async fn handle(&self, result: & EventResult) -> ::proc_qq::re_exports::anyhow::Result<bool> { Ok(false) } } impl Into<::proc_qq::EventResultHandler> for on_result { fn into(self) -> ::proc_qq::EventResultHandler { ::proc_qq::EventResultHandler { name: \"on_result\".into(), process: ::proc_qq::ResultProcess::OnlyResult(Box::new(self)), } } } "
    );
    assert_eq!(
        result_source(
            &"on_result".to_owned(),
            true,
            &vec![typed("a", "& EventResult"), typed("b", "i64")],
            &"{}".to_owned()
        ),
        Err("现在只支持一个参数".to_owned())
    );
}

#[test]
fn event_fn_adds_the_method_to_each_struct() {
    let src = event_fn_source(
        &vec![AttrArg::Path(vec!["handle3".to_owned()]), AttrArg::Path(vec!["handle4".to_owned()])],
        &"".to_owned(),
        true,
        &"handle3_add".to_owned(),
        &vec![typed("message", "& MessageEvent")],
        &"{ B }".to_owned(),
    )
    .unwrap();
    assert_eq!(
        src,
        "impl handle3 {  async fn handle3_add(&self, message: & MessageEvent) { B } } impl handle4 {  async fn handle3_add(&self, message: & MessageEvent) { B } } "
    );
    assert_eq!(
        event_fn_source(&vec![AttrArg::Lit], &"".to_owned(), true, &"f".to_owned(), &vec![], &"{}".to_owned()),
        Err("格式为event_fn(ident1,ident2,...)".to_owned())
    );
}
