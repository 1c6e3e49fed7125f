use proc_qq::handler::dispatch::{
    event_result, next_handler, next_result_handler, send_status, DispatchAction, Dispatcher,
    HandlerOutcome, MapResult,
};
use proc_qq::handler::events::{offered, EventKind};
use proc_qq::handler::processes::{Module, ModuleEventHandler, ModuleEventProcess};
use proc_qq::handler::results::{result_kind, EventResult, EventResultHandler, ResultProcess};

fn handler(name: &str, process: ModuleEventProcess) -> ModuleEventHandler {
    ModuleEventHandler { name: name.to_owned(), process }
}

fn modules() -> Vec<Module> {
    vec![
        Module {
            id: "a".to_owned(),
            name: "A".to_owned(),
            handles: vec![
                handler("login", ModuleEventProcess::LoginEvent),
                handler("any", ModuleEventProcess::Message),
            ],
        },
        Module {
            id: "b".to_owned(),
            name: "B".to_owned(),
            handles: vec![
                handler("group", ModuleEventProcess::GroupMessage),
                handler("friend", ModuleEventProcess::FriendMessage),
            ],
        },
    ]
}

fn result_handlers() -> Vec<EventResultHandler> {
    vec![
        EventResultHandler { name: "friends".to_owned(), process: ResultProcess::FriendMessage },
        EventResultHandler { name: "all".to_owned(), process: ResultProcess::OnlyResult },
        EventResultHandler { name: "groups".to_owned(), process: ResultProcess::GroupMessage },
    ]
}

#[test]
fn message_handlers_see_every_chat_message() {
    assert!(offered(EventKind::GroupMessage, ModuleEventProcess::Message));
    assert!(offered(EventKind::GroupTempMessage, ModuleEventProcess::Message));
    assert!(!offered(EventKind::Login, ModuleEventProcess::Message));
    assert!(offered(EventKind::DisconnectedAndOffline, ModuleEventProcess::DisconnectAndOffline));
}

#[test]
fn handlers_are_offered_in_order() {
    let ms = modules();
    assert_eq!(next_handler(&ms, EventKind::GroupMessage, 0, 0), Some((0, 1)));
    assert_eq!(next_handler(&ms, EventKind::GroupMessage, 0, 2), Some((1, 0)));
    assert_eq!(next_handler(&ms, EventKind::FriendMessage, 1, 0), Some((1, 1)));
    assert_eq!(next_handler(&ms, EventKind::GroupPoke, 0, 0), None);
}

#[test]
fn first_handler_that_processes_stops_the_dispatch() {
    let ms = modules();
    let rhs = result_handlers();
    let (mut d, act) = Dispatcher::start(&ms, EventKind::GroupMessage);
    assert_eq!(act, DispatchAction::CallHandler(0, 1));
    let act = d.handler_done(&ms, &rhs, HandlerOutcome::Ignored);
    assert_eq!(act, DispatchAction::CallHandler(1, 0));
    let act = d.handler_done(&ms, &rhs, HandlerOutcome::Handled);
    assert_eq!(act, DispatchAction::CallResultHandler(1));
    let act = d.result_handler_done(&rhs, HandlerOutcome::Ignored);
    assert_eq!(act, DispatchAction::CallResultHandler(2));
    let act = d.result_handler_done(&rhs, HandlerOutcome::Ignored);
    assert_eq!(act, DispatchAction::Finish(MapResult::Process(1, 0)));
}

#[test]
fn a_failing_handler_ends_the_dispatch_with_an_exception() {
    let ms = modules();
    let rhs = result_handlers();
    let (mut d, act) = Dispatcher::start(&ms, EventKind::FriendMessage);
    assert_eq!(act, DispatchAction::CallHandler(0, 1));
    let act = d.handler_done(&ms, &rhs, HandlerOutcome::Failed);
    // the failing handler listens to every message, so only the handler of all results hears of it
    assert_eq!(act, DispatchAction::CallResultHandler(1));
    let act = d.result_handler_done(&rhs, HandlerOutcome::Handled);
    assert_eq!(act, DispatchAction::Finish(MapResult::Exception(0, 1)));
    let (mut d, _) = Dispatcher::start(&ms, EventKind::FriendMessage);
    let _ = d.handler_done(&ms, &rhs, HandlerOutcome::Ignored);
    let act = d.handler_done(&ms, &rhs, HandlerOutcome::Failed);
    assert_eq!(act, DispatchAction::CallResultHandler(0));
}

#[test]
fn an_event_nobody_takes_is_not_handled() {
    let ms = modules();
    let rhs = result_handlers();
    let (mut d, act) = Dispatcher::start(&ms, EventKind::Login);
    assert_eq!(act, DispatchAction::CallHandler(0, 0));
    let act = d.handler_done(&ms, &rhs, HandlerOutcome::Ignored);
    assert_eq!(act, DispatchAction::Finish(MapResult::NotHandled));
    let (_, act) = Dispatcher::start(&ms, EventKind::GroupPoke);
    assert_eq!(act, DispatchAction::Finish(MapResult::NotHandled));
}

#[test]
fn result_handlers_listen_to_their_kind_or_to_all() {
    let rhs = result_handlers();
    assert_eq!(next_result_handler(&rhs, ModuleEventProcess::GroupMessage, 0), Some(1));
    assert_eq!(next_result_handler(&rhs, ModuleEventProcess::GroupMessage, 2), Some(2));
    assert_eq!(next_result_handler(&rhs, ModuleEventProcess::FriendMessage, 0), Some(0));
    assert_eq!(next_result_handler(&vec![], ModuleEventProcess::Message, 0), None);
    assert_eq!(result_kind(ModuleEventProcess::Message), ResultProcess::Message);
}

#[test]
fn sending_connection_events_reports_failures() {
    assert_eq!(send_status(MapResult::Exception(0, 0)), Err("err".to_owned()));
    assert_eq!(send_status(MapResult::Process(0, 0)), Ok(()));
    assert_eq!(send_status(MapResult::NotHandled), Ok(()));
}

#[test]
fn result_handlers_hear_which_handler_took_the_event() {
    let ms = modules();
    assert!(event_result(&ms, MapResult::NotHandled, String::new()).is_none());
    match event_result(&ms, MapResult::Process(1, 0), String::new()) {
        Some(EventResult::Process(info)) => {
            assert_eq!(info.module_id, "b");
            assert_eq!(info.module_name, "B");
            assert_eq!(info.handle_name, "group");
        }
        _ => panic!("expected a processed result"),
    }
    match event_result(&ms, MapResult::Exception(0, 1), "boom".to_owned()) {
        Some(EventResult::Exception(info, err)) => {
            assert_eq!(info.handle_name, "any");
            assert_eq!(err, "boom");
        }
        _ => panic!("expected an exception"),
    }
}
