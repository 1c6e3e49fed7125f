use proc_qq::client::{device_plan, ClientBuilder, DevicePlan};
use proc_qq::entities::{
    ticket_window_step, AndroidHelper, DeviceSource, FileSessionStore, PopWindow, WindowAction,
    WindowEvent,
};
use proc_qq::login::{
    after_callback, after_token_login, authenticate, helper_url, login_step, reconnect_delay,
    relogin, token_to_try, AuthStep, Authentication, DeviceLockVerification, LoginAction,
    LoginResponse, QrAction, QrCodeState, QrLogin, Relogin, SessionLoad, ShowQR, ShowSlider,
    SliderWatch, TokenLoginOutcome,
};
use proc_qq::session::{token_to_bytes, Token};

#[test]
fn authentication_steps() {
    assert!(matches!(authenticate(&Authentication::QRCode), AuthStep::QrCode));
    assert!(matches!(
        authenticate(&Authentication::UinPassword(1, "pw".to_owned())),
        AuthStep::Password(1, p) if p == "pw"
    ));
    assert!(matches!(
        authenticate(&Authentication::UinPasswordMd5(2, [7u8; 16])),
        AuthStep::PasswordMd5(2, d) if d == [7u8; 16]
    ));
    assert!(matches!(authenticate(&Authentication::CustomUinPassword), AuthStep::AskPassword));
    assert!(matches!(authenticate(&Authentication::CustomUinPasswordMd5), AuthStep::AskPasswordMd5));
    assert!(matches!(authenticate(&Authentication::CallBack), AuthStep::RunCallBack));
    assert!(matches!(authenticate(&Authentication::Abandon), AuthStep::Fail(m) if m == "放弃登录"));
}

#[test]
fn callback_answers() {
    assert!(matches!(
        after_callback(&Authentication::CallBack),
        AuthStep::Fail(m) if m == "登录失败: 嵌套的回调函数"
    ));
    assert!(matches!(after_callback(&Authentication::Abandon), AuthStep::Fail(m) if m == "放弃登录"));
    assert!(matches!(after_callback(&Authentication::QRCode), AuthStep::QrCode));
    assert!(matches!(
        after_callback(&Authentication::UinPassword(10001, "pw".to_owned())),
        AuthStep::Password(10001, p) if p == "pw"
    ));
    assert!(matches!(after_callback(&Authentication::CustomUinPassword), AuthStep::AskPassword));
}

#[test]
fn helper_url_replaces_the_captcha_host() {
    assert_eq!(
        helper_url("https://ssl.captcha.qq.com/template/wireless_mqq_captcha.html?uin=1"),
        "https://txhelper.glitch.me/template/wireless_mqq_captcha.html?uin=1"
    );
    assert_eq!(helper_url("https://other.example/"), "https://other.example/");
}

#[test]
fn login_answers() {
    let url = DeviceLockVerification::Url;
    let helper = ShowSlider::AndroidHelper;
    assert!(matches!(login_step(&url, &helper, &LoginResponse::Success), LoginAction::Done));
    assert!(matches!(
        login_step(&url, &helper, &LoginResponse::DeviceLocked(Some("u".to_owned()))),
        LoginAction::ShowVerifyUrlAndExit(x) if x == "u"
    ));
    assert!(matches!(
        login_step(&url, &helper, &LoginResponse::DeviceLocked(None)),
        LoginAction::Fail(m) if m == "未能取得设备锁验证地址"
    ));
    assert!(matches!(
        login_step(&DeviceLockVerification::Sms, &helper, &LoginResponse::DeviceLocked(None)),
        LoginAction::VerifyBySms
    ));
    assert!(matches!(
        login_step(&url, &helper, &LoginResponse::NeedCaptcha(Some("https://ssl.captcha.qq.com/x".to_owned()))),
        LoginAction::SlideByHelper(x) if x == "https://txhelper.glitch.me/x"
    ));
    assert!(matches!(
        login_step(&url, &ShowSlider::PopWindow, &LoginResponse::NeedCaptcha(Some("https://ssl.captcha.qq.com/x".to_owned()))),
        LoginAction::SlideInWindow(x) if x == "https://ssl.captcha.qq.com/x"
    ));
    assert!(matches!(login_step(&url, &helper, &LoginResponse::DeviceLockLogin), LoginAction::DeviceLockLogin));
    assert!(matches!(login_step(&url, &helper, &LoginResponse::AccountFrozen), LoginAction::Fail(m) if m == "账户被冻结"));
    assert!(matches!(
        login_step(&url, &helper, &LoginResponse::TooManySMSRequest),
        LoginAction::Fail(m) if m == "短信请求过于频繁"
    ));
    assert!(matches!(
        login_step(&url, &helper, &LoginResponse::UnknownStatus(9, "{}".to_owned(), "\"bad\"".to_owned())),
        LoginAction::Fail(m) if m == "不能解析的登录响应: 9, {}, \"bad\""
    ));
}

#[test]
fn slider_watch_waits_for_a_new_text() {
    let mut w = SliderWatch::new();
    assert_eq!(w.answer("waiting".to_owned()), None);
    assert_eq!(w.answer("waiting".to_owned()), None);
    assert_eq!(w.answer("ticket-123".to_owned()), Some("ticket-123".to_owned()));
}

#[test]
fn qr_login_polls_with_the_latest_signature() {
    let mut q = QrLogin::new();
    assert!(matches!(q.step(QrCodeState::WaitingForScan), QrAction::Poll(s) if s.is_empty()));
    assert!(matches!(q.step(QrCodeState::ImageFetch(vec![1, 2])), QrAction::ShowThenPoll(s) if s == vec![1, 2]));
    assert!(matches!(q.step(QrCodeState::WaitingForConfirm), QrAction::Poll(s) if s == vec![1, 2]));
    assert!(matches!(q.step(QrCodeState::Timeout), QrAction::Refetch));
    assert!(matches!(q.step(QrCodeState::ImageFetch(vec![3])), QrAction::ShowThenPoll(s) if s == vec![3]));
    assert!(matches!(q.step(QrCodeState::WaitingForScan), QrAction::Poll(s) if s == vec![3]));
    assert!(matches!(q.step(QrCodeState::Confirmed), QrAction::Login));
    assert!(matches!(q.step(QrCodeState::Canceled), QrAction::Fail(m) if m == "二维码已取消"));
}

#[test]
fn relogin_policy() {
    assert!(matches!(relogin(&Authentication::QRCode, true), Relogin::Resumed));
    assert!(matches!(relogin(&Authentication::UinPassword(1, "p".to_owned()), false), Relogin::LoginAgain { save_session: true }));
    assert!(matches!(relogin(&Authentication::UinPasswordMd5(1, [0; 16]), false), Relogin::LoginAgain { save_session: true }));
    assert!(matches!(relogin(&Authentication::QRCode, false), Relogin::GiveUp));
    assert!(matches!(relogin(&Authentication::CallBack, false), Relogin::GiveUp));
}

#[test]
fn reconnect_delay_grows_by_a_second_up_to_five() {
    assert_eq!(reconnect_delay(0, 100_000_000, 1), (0, 100_000_000));
    assert_eq!(reconnect_delay(0, 100_000_000, 2), (1, 100_000_000));
    assert_eq!(reconnect_delay(0, 100_000_000, 6), (5, 100_000_000));
    assert_eq!(reconnect_delay(0, 100_000_000, 100), (5, 100_000_000));
    assert_eq!(reconnect_delay(3, 0, 4), (6, 0));
}

#[test]
fn token_login_uses_saved_bytes_only() {
    assert!(token_to_try(SessionLoad::NoStore).is_none());
    assert!(token_to_try(SessionLoad::LoadFailed).is_none());
    assert!(token_to_try(SessionLoad::Missing).is_none());
    let t = Token {
        uin: 42,
        d2: vec![1],
        d2key: vec![],
        tgt: vec![2, 3],
        srm_token: vec![],
        t133: vec![],
        encrypted_a1: vec![],
        out_packet_session_id: vec![],
        tgtgt_key: vec![4],
        wt_session_ticket_key: vec![],
    };
    let found = token_to_try(SessionLoad::Found(token_to_bytes(&t))).unwrap();
    assert_eq!(found.uin, 42);
    assert_eq!(found.tgt, vec![2, 3]);
    assert_eq!(after_token_login(TokenLoginOutcome::LoggedIn), (true, false));
    assert_eq!(after_token_login(TokenLoginOutcome::TokenLoginFailed), (false, true));
    assert_eq!(after_token_login(TokenLoginOutcome::OtherError), (false, false));
}

#[test]
fn builder_defaults_and_build() {
    let b = ClientBuilder::new();
    assert!(matches!(&b.device_source, DeviceSource::JsonFile(f) if f == "device.json"));
    assert_eq!((b.reconnect_secs, b.reconnect_nanos), (0, 100_000_000));
    assert_eq!(b.build().err(), Some("您必须设置验证方式 (调用authentication)".to_owned()));
    let s = ClientBuilder::new().authentication(Authentication::QRCode).build().unwrap();
    assert!(matches!(s.authentication, Authentication::QRCode));
    assert!(matches!(s.show_qr, ShowQR::SaveToFile));
    assert!(matches!(s.show_slider, ShowSlider::AndroidHelper));
    assert!(matches!(s.device_lock_verification, DeviceLockVerification::Url));
    assert!(!s.shutting);
    let s = ClientBuilder::new().authentication(Authentication::QRCode).console_qr(true).build().unwrap();
    assert!(matches!(s.show_qr, ShowQR::PrintToConsole));
    let s = ClientBuilder::new()
        .authentication(Authentication::QRCode)
        .show_rq(Some(ShowQR::PrintToConsole))
        .show_slider(Some(ShowSlider::PopWindow))
        .device_lock_verification(Some(DeviceLockVerification::Sms))
        .device(DeviceSource::JsonString("{}".to_owned()))
        .reconnect_duration(2, 5)
        .build()
        .unwrap();
    assert!(matches!(s.show_qr, ShowQR::PrintToConsole));
    assert!(matches!(s.show_slider, ShowSlider::PopWindow));
    assert!(matches!(s.device_lock_verification, DeviceLockVerification::Sms));
    assert!(matches!(&s.device_source, DeviceSource::JsonString(j) if j == "{}"));
    assert_eq!((s.reconnect_secs, s.reconnect_nanos), (2, 5));
}

#[test]
fn device_plans() {
    let f = DeviceSource::JsonFile("device.json".to_owned());
    assert!(matches!(device_plan(&f, true), DevicePlan::ReadFile(p) if p == "device.json"));
    assert!(matches!(device_plan(&f, false), DevicePlan::CreateFile(p) if p == "device.json"));
    assert!(matches!(device_plan(&DeviceSource::JsonString("{}".to_owned()), false), DevicePlan::Parse(j) if j == "{}"));
}

#[test]
fn default_device_source_is_device_json() {
    assert!(matches!(DeviceSource::default(), DeviceSource::JsonFile(f) if f == "device.json"));
}

#[test]
fn slider_solvers() {
    let h = AndroidHelper::boxed();
    let _shared = AndroidHelper::arc_boxed();
    assert_eq!(h.helper_page(&None), Err("滑动条URL不存在".to_owned()));
    assert_eq!(
        h.helper_page(&Some("https://ssl.captcha.qq.com/a".to_owned())),
        Ok("https://txhelper.glitch.me/a".to_owned())
    );
    let w = PopWindow::boxed();
    let _shared = PopWindow::arc_boxed();
    assert_eq!(w.window_url(&None), Err("滑动条URL不存在".to_owned()));
    assert_eq!(w.window_url(&Some("u".to_owned())), Ok("u".to_owned()));
    assert_eq!(w.ticket_or_error(None), Err("ticket未获取到".to_owned()));
    assert_eq!(w.ticket_or_error(Some("t".to_owned())), Ok("t".to_owned()));
}

#[test]
fn captcha_window_events() {
    assert!(matches!(ticket_window_step(WindowEvent::Init), WindowAction::Announce));
    assert!(matches!(ticket_window_step(WindowEvent::CloseRequested), WindowAction::Exit(None)));
    assert!(matches!(
        ticket_window_step(WindowEvent::Ticket("t".to_owned())),
        WindowAction::Exit(Some(t)) if t == "t"
    ));
    assert!(matches!(ticket_window_step(WindowEvent::Resized(3, 4)), WindowAction::PrintSize(3, 4)));
    assert!(matches!(ticket_window_step(WindowEvent::Other), WindowAction::Wait));
}

#[test]
fn file_session_store_keeps_its_path() {
    assert_eq!(FileSessionStore::boxed("session.token".to_owned()).path, "session.token");
}
