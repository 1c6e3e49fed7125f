use vstd::prelude::*;
use crate::session::{Token, bytes_to_token, read_token};
use crate::text::{concat, decimal, push_str, replace, replace_spec, u64_to_string};

verus! {

/// How the client logs in. The kinds that ask the user's own code (the
/// custom sources and the callback) stand here without that code, which
/// the caller holds.
pub enum Authentication {
    QRCode,
    UinPassword(i64, String),
    UinPasswordMd5(i64, [u8; 16]),
    CustomUinPassword,
    CustomUinPasswordMd5,
    CallBack,
    Abandon,
}

/// The first thing to do to log in.
pub enum AuthStep {
    /// Log in by QR code.
    QrCode,
    /// Log in with this account and password.
    Password(i64, String),
    /// Log in with this account and the MD5 digest of its password.
    PasswordMd5(i64, [u8; 16]),
    /// Ask the custom source for the account, then the password, and log
    /// in with them.
    AskPassword,
    /// Ask the custom source for the account, then the password's digest,
    /// and log in with them.
    AskPasswordMd5,
    /// Run the callback, and go on as `after_callback` says of its answer.
    RunCallBack,
    /// Give up with this error.
    Fail(String),
}

/// The message when the login is given up.
pub open spec fn abandon_message() -> Seq<char> {
    "放弃登录"@
}

/// The message when a callback answers with another callback.
pub open spec fn nested_callback_message() -> Seq<char> {
    "登录失败: 嵌套的回调函数"@
}

/// Whether `r` is the first thing to do to log in with `auth`.
pub open spec fn first_step(auth: Authentication, r: AuthStep) -> bool {
    match auth {
        Authentication::QRCode => r is QrCode,
        Authentication::UinPassword(u, p) => r == AuthStep::Password(u, p),
        Authentication::UinPasswordMd5(u, p) => r == AuthStep::PasswordMd5(u, p),
        Authentication::CustomUinPassword => r is AskPassword,
        Authentication::CustomUinPasswordMd5 => r is AskPasswordMd5,
        Authentication::CallBack => r is RunCallBack,
        Authentication::Abandon => r matches AuthStep::Fail(m) && m@ == abandon_message(),
    }
}

/// How to log in with the given authentication.
pub fn authenticate(auth: &Authentication) -> (r: AuthStep)
    ensures
        first_step(*auth, r),
{
    match auth {
        Authentication::QRCode => AuthStep::QrCode,
        Authentication::UinPassword(u, p) => AuthStep::Password(*u, p.clone()),
        Authentication::UinPasswordMd5(u, p) => AuthStep::PasswordMd5(*u, *p),
        Authentication::CustomUinPassword => AuthStep::AskPassword,
        Authentication::CustomUinPasswordMd5 => AuthStep::AskPasswordMd5,
        Authentication::CallBack => AuthStep::RunCallBack,
        Authentication::Abandon => AuthStep::Fail("放弃登录".to_owned()),
    }
}

/// What to do with the callback's answer: the callback decides whether to
/// give up, scan a QR code or use a password. Another callback ends the
/// login with an error; any other answer is followed as `authenticate`
/// follows it.
pub fn after_callback(returned: &Authentication) -> (r: AuthStep)
    ensures
        match *returned {
            Authentication::CallBack => r matches AuthStep::Fail(m) && m@
                == nested_callback_message(),
            _ => first_step(*returned, r),
        },
{
    match returned {
        Authentication::CallBack => AuthStep::Fail("登录失败: 嵌套的回调函数".to_owned()),
        _ => authenticate(returned),
    }
}

/// How a locked device is unlocked: by its verification address, or by
/// a code sent by SMS (whose source the caller holds).
pub enum DeviceLockVerification {
    Url,
    Sms,
}

/// How a slider captcha is solved: through the Android helper page, or in
/// a window of its own.
pub enum ShowSlider {
    AndroidHelper,
    PopWindow,
}

/// How the QR code of a QR login is shown.
pub enum ShowQR {
    OpenBySystem,
    PrintToConsole,
    Custom,
    SaveToFile,
}

/// The server's answer to a login request; an unknown status comes with
/// its number, and its data and message as `Debug` writes them.
pub enum LoginResponse {
    Success,
    DeviceLocked(Option<String>),
    NeedCaptcha(Option<String>),
    DeviceLockLogin,
    AccountFrozen,
    TooManySMSRequest,
    UnknownStatus(u8, String, String),
}

/// What to do with an answer to a login request.
pub enum LoginAction {
    /// The login succeeded.
    Done,
    /// Print this verification address as a QR code, then end the
    /// process with status 0.
    ShowVerifyUrlAndExit(String),
    /// Request an SMS, ask the code's source for the code, submit it, and
    /// go on with the answer.
    VerifyBySms,
    /// Read this helper page until its text changes, submit the new text as
    /// the ticket, and go on with the answer.
    SlideByHelper(String),
    /// Open a window at this address, submit the ticket it yields, and go
    /// on with the answer.
    SlideInWindow(String),
    /// Log in past the device lock and go on with the answer.
    DeviceLockLogin,
    /// The login failed with this error.
    Fail(String),
}

/// The address of the helper page for a slider captcha.
pub open spec fn helper_url_spec(verify_url: Seq<char>) -> Seq<char> {
    replace_spec(verify_url, "ssl.captcha.qq.com"@, "txhelper.glitch.me"@)
}

/// The address of the helper page for a slider captcha: the captcha's own
/// address with its host replaced.
pub fn helper_url(verify_url: &str) -> (r: String)
    ensures
        r@ == helper_url_spec(verify_url@),
{
    proof {
        reveal_strlit("ssl.captcha.qq.com");
    }
    replace(verify_url, "ssl.captcha.qq.com", "txhelper.glitch.me")
}

/// The message for a login answer that cannot be read.
pub open spec fn unknown_status_message(status: u8, data: Seq<char>, message: Seq<char>) -> Seq<char> {
    "不能解析的登录响应: "@ + decimal(status as int) + ", "@ + data + ", "@ + message
}

/// Where an answer to a login request leaves the login: logged in, the
/// process ends to let the user unlock the device, failed with a message,
/// or a further answer is awaited.
pub enum LoginProgress {
    LoggedIn,
    Exit,
    Failed(Seq<char>),
    Next,
}

/// Where the answer `resp` leaves the login.
pub open spec fn login_progress(lock: DeviceLockVerification, slider: ShowSlider, resp: LoginResponse) -> LoginProgress {
    match resp {
        LoginResponse::Success => LoginProgress::LoggedIn,
        LoginResponse::DeviceLocked(url) => match lock {
            DeviceLockVerification::Url => match url {
                Some(_) => LoginProgress::Exit,
                None => LoginProgress::Failed("未能取得设备锁验证地址"@),
            },
            DeviceLockVerification::Sms => LoginProgress::Next,
        },
        LoginResponse::NeedCaptcha(_) => LoginProgress::Next,
        LoginResponse::DeviceLockLogin => LoginProgress::Next,
        LoginResponse::AccountFrozen => LoginProgress::Failed("账户被冻结"@),
        LoginResponse::TooManySMSRequest => LoginProgress::Failed("短信请求过于频繁"@),
        LoginResponse::UnknownStatus(st, d, m) => LoginProgress::Failed(unknown_status_message(st, d@, m@)),
    }
}

/// Where an action leaves the login.
pub open spec fn action_progress(a: LoginAction) -> LoginProgress {
    match a {
        LoginAction::Done => LoginProgress::LoggedIn,
        LoginAction::ShowVerifyUrlAndExit(_) => LoginProgress::Exit,
        LoginAction::Fail(m) => LoginProgress::Failed(m@),
        _ => LoginProgress::Next,
    }
}

/// Where a login ends when the server answers `resps` in turn: the first
/// answer that does not call for another one decides; after all of them
/// a further answer is still awaited.
pub open spec fn login_run(lock: DeviceLockVerification, slider: ShowSlider, resps: Seq<LoginResponse>) -> LoginProgress
    decreases resps.len(),
{
    if resps.len() == 0 {
        LoginProgress::Next
    } else {
        match login_progress(lock, slider, resps[0]) {
            LoginProgress::Next => login_run(lock, slider, resps.drop_first()),
            p => p,
        }
    }
}

/// The law of a login: it succeeds exactly when the server answers
/// `Success` before any answer that ends it otherwise; it fails with a
/// message exactly when such an answer (a frozen account, too many SMS
/// requests, an unknown status, a device lock without its address) comes
/// first; every other answer (an SMS or slider check, a device-lock login)
/// leads to a further request.
pub proof fn law_login_run(lock: DeviceLockVerification, slider: ShowSlider, resps: Seq<LoginResponse>)
    ensures
        login_run(lock, slider, resps) is LoggedIn <==> exists|i: int|
            0 <= i < resps.len() && #[trigger] resps[i] is Success && forall|j: int|
                0 <= j < i ==> login_progress(lock, slider, #[trigger] resps[j]) is Next,
        forall|m: Seq<char>|
            login_run(lock, slider, resps) == LoginProgress::Failed(m) <==> exists|i: int|
                0 <= i < resps.len() && #[trigger] login_progress(lock, slider, resps[i])
                    == LoginProgress::Failed(m) && forall|j: int|
                    0 <= j < i ==> login_progress(lock, slider, #[trigger] resps[j]) is Next,
    decreases resps.len(),
{
    if resps.len() > 0 {
        let t = resps.drop_first();
        law_login_run(lock, slider, t);
        assert forall|i: int| 0 <= i < t.len() implies t[i] == resps[i + 1] by {}
        if login_progress(lock, slider, resps[0]) is Next {
            if login_run(lock, slider, resps) is LoggedIn {
                let i = choose|i: int|
                    0 <= i < t.len() && #[trigger] t[i] is Success && forall|j: int|
                        0 <= j < i ==> login_progress(lock, slider, #[trigger] t[j]) is Next;
                assert(resps[i + 1] is Success);
                assert forall|j: int| 0 <= j < i + 1 implies login_progress(
                    lock,
                    slider,
                    #[trigger] resps[j],
                ) is Next by {
                    if j > 0 {
                        assert(resps[j] == t[j - 1]);
                    }
                }
            }
            if exists|i: int|
                0 <= i < resps.len() && #[trigger] resps[i] is Success && forall|j: int|
                    0 <= j < i ==> login_progress(lock, slider, #[trigger] resps[j]) is Next {
                let i = choose|i: int|
                    0 <= i < resps.len() && #[trigger] resps[i] is Success && forall|j: int|
                        0 <= j < i ==> login_progress(lock, slider, #[trigger] resps[j]) is Next;
                assert(i != 0);
                assert(t[i - 1] is Success);
                assert forall|j: int| 0 <= j < i - 1 implies login_progress(lock, slider, #[trigger] t[j]) is Next by {
                    assert(t[j] == resps[j + 1]);
                }
            }
            assert forall|m: Seq<char>|
                login_run(lock, slider, resps) == LoginProgress::Failed(m) <==> exists|i: int|
                    0 <= i < resps.len() && #[trigger] login_progress(lock, slider, resps[i])
                        == LoginProgress::Failed(m) && forall|j: int|
                        0 <= j < i ==> login_progress(lock, slider, #[trigger] resps[j]) is Next by {
                if login_run(lock, slider, resps) == LoginProgress::Failed(m) {
                    let i = choose|i: int|
                        0 <= i < t.len() && #[trigger] login_progress(lock, slider, t[i])
                            == LoginProgress::Failed(m) && forall|j: int|
                            0 <= j < i ==> login_progress(lock, slider, #[trigger] t[j]) is Next;
                    assert(login_progress(lock, slider, resps[i + 1]) == LoginProgress::Failed(m));
                    assert forall|j: int| 0 <= j < i + 1 implies login_progress(
                        lock,
                        slider,
                        #[trigger] resps[j],
                    ) is Next by {
                        if j > 0 {
                            assert(resps[j] == t[j - 1]);
                        }
                    }
                }
                if exists|i: int|
                    0 <= i < resps.len() && #[trigger] login_progress(lock, slider, resps[i])
                        == LoginProgress::Failed(m) && forall|j: int|
                        0 <= j < i ==> login_progress(lock, slider, #[trigger] resps[j]) is Next {
                    let i = choose|i: int|
                        0 <= i < resps.len() && #[trigger] login_progress(lock, slider, resps[i])
                            == LoginProgress::Failed(m) && forall|j: int|
                            0 <= j < i ==> login_progress(lock, slider, #[trigger] resps[j]) is Next;
                    assert(i != 0);
                    assert(login_progress(lock, slider, t[i - 1]) == LoginProgress::Failed(m));
                    assert forall|j: int| 0 <= j < i - 1 implies login_progress(
                        lock,
                        slider,
                        #[trigger] t[j],
                    ) is Next by {
                        assert(t[j] == resps[j + 1]);
                    }
                }
            }
        } else {
            assert forall|m: Seq<char>|
                login_run(lock, slider, resps) == LoginProgress::Failed(m) <==> exists|i: int|
                    0 <= i < resps.len() && #[trigger] login_progress(lock, slider, resps[i])
                        == LoginProgress::Failed(m) && forall|j: int|
                        0 <= j < i ==> login_progress(lock, slider, #[trigger] resps[j]) is Next by {
                if exists|i: int|
                    0 <= i < resps.len() && #[trigger] login_progress(lock, slider, resps[i])
                        == LoginProgress::Failed(m) && forall|j: int|
                        0 <= j < i ==> login_progress(lock, slider, #[trigger] resps[j]) is Next {
                    let i = choose|i: int|
                        0 <= i < resps.len() && #[trigger] login_progress(lock, slider, resps[i])
                            == LoginProgress::Failed(m) && forall|j: int|
                            0 <= j < i ==> login_progress(lock, slider, #[trigger] resps[j]) is Next;
                    if i > 0 {
                        assert(login_progress(lock, slider, resps[0]) is Next);
                    }
                }
                if login_run(lock, slider, resps) == LoginProgress::Failed(m) {
                    assert(login_progress(lock, slider, resps[0]) == LoginProgress::Failed(m));
                }
            }
            if exists|i: int|
                0 <= i < resps.len() && #[trigger] resps[i] is Success && forall|j: int|
                    0 <= j < i ==> login_progress(lock, slider, #[trigger] resps[j]) is Next {
                let i = choose|i: int|
                    0 <= i < resps.len() && #[trigger] resps[i] is Success && forall|j: int|
                        0 <= j < i ==> login_progress(lock, slider, #[trigger] resps[j]) is Next;
                if i > 0 {
                    assert(login_progress(lock, slider, resps[0]) is Next);
                }
            }
            if resps[0] is Success {
                assert(login_run(lock, slider, resps) is LoggedIn);
            }
        }
    }
}

/// What to do with an answer to a login request, given how
/// a device lock and a slider captcha are handled. A captcha answer comes
/// with its address.
pub fn login_step(lock: &DeviceLockVerification, slider: &ShowSlider, resp: &LoginResponse) -> (r:
    LoginAction)
    requires
        resp matches LoginResponse::NeedCaptcha(u) ==> u is Some,
    ensures
        action_progress(r) == login_progress(*lock, *slider, *resp),
        match *resp {
            LoginResponse::Success => r is Done,
            LoginResponse::DeviceLocked(url) => match *lock {
                DeviceLockVerification::Url => match url {
                    Some(u) => r matches LoginAction::ShowVerifyUrlAndExit(x) && x@ == u@,
                    None => r matches LoginAction::Fail(m) && m@ == "未能取得设备锁验证地址"@,
                },
                DeviceLockVerification::Sms => r is VerifyBySms,
            },
            LoginResponse::NeedCaptcha(url) => match *slider {
                ShowSlider::AndroidHelper => r matches LoginAction::SlideByHelper(x) && x@
                    == helper_url_spec(url->0@),
                ShowSlider::PopWindow => r matches LoginAction::SlideInWindow(x) && x@ == url->0@,
            },
            LoginResponse::DeviceLockLogin => r is DeviceLockLogin,
            LoginResponse::AccountFrozen => r matches LoginAction::Fail(m) && m@ == "账户被冻结"@,
            LoginResponse::TooManySMSRequest => r matches LoginAction::Fail(m) && m@
                == "短信请求过于频繁"@,
            LoginResponse::UnknownStatus(s, d, m) => r matches LoginAction::Fail(x) && x@
                == unknown_status_message(s, d@, m@),
        },
{
    match resp {
        LoginResponse::Success => LoginAction::Done,
        LoginResponse::DeviceLocked(url) => match lock {
            DeviceLockVerification::Url => match url {
                Some(u) => LoginAction::ShowVerifyUrlAndExit(u.clone()),
                None => LoginAction::Fail("未能取得设备锁验证地址".to_owned()),
            },
            DeviceLockVerification::Sms => LoginAction::VerifyBySms,
        },
        LoginResponse::NeedCaptcha(url) => {
            let u = url.as_ref().unwrap();
            match slider {
                ShowSlider::AndroidHelper => LoginAction::SlideByHelper(helper_url(u.as_str())),
                ShowSlider::PopWindow => LoginAction::SlideInWindow(u.clone()),
            }
        },
        LoginResponse::DeviceLockLogin => LoginAction::DeviceLockLogin,
        LoginResponse::AccountFrozen => LoginAction::Fail("账户被冻结".to_owned()),
        LoginResponse::TooManySMSRequest => LoginAction::Fail("短信请求过于频繁".to_owned()),
        LoginResponse::UnknownStatus(s, d, m) => {
            let mut x = concat("不能解析的登录响应: ", u64_to_string(*s as u64).as_str());
            push_str(&mut x, ", ");
            push_str(&mut x, d.as_str());
            push_str(&mut x, ", ");
            push_str(&mut x, m.as_str());
            LoginAction::Fail(x)
        },
    }
}

/// Watches the helper page of a slider captcha: its first text is kept,
/// and the first later text that differs from it is the ticket.
pub struct SliderWatch {
    pub first: Option<String>,
}

impl SliderWatch {
    /// A watch that has read nothing yet.
    pub fn new() -> (r: SliderWatch)
        ensures
            r.first is None,
    {
        SliderWatch { first: None }
    }

    /// Takes one text of the helper page; returns the ticket once the text
    /// differs from the first one read, and none before (wait five seconds
    /// and read again).
    pub fn answer(&mut self, text: String) -> (r: Option<String>)
        ensures
            match old(self).first {
                None => r is None && final(self).first == Some(text),
                Some(f) => final(self).first == Some(f) && if f@ == text@ {
                    r is None
                } else {
                    r == Some(text)
                },
            },
    {
        match &self.first {
            None => {
                self.first = Some(text);
                None
            },
            Some(f) => {
                if crate::text::str_eq(f.as_str(), text.as_str()) {
                    None
                } else {
                    Some(text)
                }
            },
        }
    }
}

/// The state of a QR code login as the server reports it; a fetched image
/// comes with its signature (the image itself stays with the caller).
pub enum QrCodeState {
    ImageFetch(Vec<u8>),
    WaitingForScan,
    WaitingForConfirm,
    Timeout,
    Confirmed,
    Canceled,
}

/// What to do with a state of the QR code login.
pub enum QrAction {
    /// Show the fetched image, wait five seconds, then ask for the state of
    /// the code with this signature.
    ShowThenPoll(Vec<u8>),
    /// Wait five seconds, then ask for the state of the code with this
    /// signature.
    Poll(Vec<u8>),
    /// Fetch a new code at once.
    Refetch,
    /// Log in with the confirmed code, then go on as `login_step` says.
    Login,
    /// The login failed with this error.
    Fail(String),
}

/// The signature a QR code login holds after the states `states`,
/// starting from `init`: each fetched image replaces it.
pub open spec fn sig_after(init: Seq<u8>, states: Seq<QrCodeState>) -> Seq<u8>
    decreases states.len(),
{
    if states.len() == 0 {
        init
    } else {
        match states.last() {
            QrCodeState::ImageFetch(s) => s@,
            _ => sig_after(init, states.drop_last()),
        }
    }
}

/// The law of QR polling: after any run of states, the signature held, and
/// so the one every later poll asks with, is that of the latest image
/// fetched, or the first one where no image came; and runs of states
/// chain.
pub proof fn law_qr_latest_fetch(init: Seq<u8>, a: Seq<QrCodeState>, b: Seq<QrCodeState>)
    ensures
        forall|i: int|
            0 <= i < a.len() && #[trigger] a[i] is ImageFetch && (forall|j: int|
                i < j < a.len() ==> !(#[trigger] a[j] is ImageFetch)) ==> sig_after(init, a)
                == a[i]->ImageFetch_0@,
        (forall|j: int| 0 <= j < a.len() ==> !(#[trigger] a[j] is ImageFetch)) ==> sig_after(init, a)
            == init,
        sig_after(sig_after(init, a), b) == sig_after(init, a + b),
    decreases a.len() + b.len(),
{
    if b.len() > 0 {
        law_qr_latest_fetch(init, a, b.drop_last());
        assert((a + b).drop_last() =~= a + b.drop_last());
        assert((a + b).last() == b.last());
    } else {
        assert(a + b =~= a);
        if a.len() > 0 {
            let t = a.drop_last();
            law_qr_latest_fetch(init, t, b);
            assert forall|i: int|
                0 <= i < a.len() && #[trigger] a[i] is ImageFetch && (forall|j: int|
                    i < j < a.len() ==> !(#[trigger] a[j] is ImageFetch)) implies sig_after(init, a)
                == a[i]->ImageFetch_0@ by {
                if i < a.len() - 1 {
                    assert(!(a[a.len() - 1] is ImageFetch));
                    assert(t[i] == a[i]);
                    assert forall|j: int| i < j < t.len() implies !(#[trigger] t[j] is ImageFetch) by {
                        assert(t[j] == a[j]);
                    }
                }
            }
            if forall|j: int| 0 <= j < a.len() ==> !(#[trigger] a[j] is ImageFetch) {
                assert(!(a[a.len() - 1] is ImageFetch));
                assert forall|j: int| 0 <= j < t.len() implies !(#[trigger] t[j] is ImageFetch) by {
                    assert(t[j] == a[j]);
                }
            }
        }
    }
}

/// A QR code login: the signature of the latest image fetched.
pub struct QrLogin {
    pub sig: Vec<u8>,
}

impl QrLogin {
    /// A QR code login before any image.
    pub fn new() -> (r: QrLogin)
        ensures
            r.sig@ == Seq::<u8>::empty(),
    {
        QrLogin { sig: Vec::new() }
    }

    /// Takes a state of the QR code: a new image's signature is kept, and
    /// the state of the code is always asked with the latest signature.
    pub fn step(&mut self, state: QrCodeState) -> (r: QrAction)
        ensures
            final(self).sig@ == sig_after(old(self).sig@, seq![state]),
            match state {
                QrCodeState::ImageFetch(s) => r matches QrAction::ShowThenPoll(x) && x@ == s@,
                QrCodeState::WaitingForScan => r matches QrAction::Poll(x) && x@ == old(self).sig@,
                QrCodeState::WaitingForConfirm => r matches QrAction::Poll(x) && x@
                    == old(self).sig@,
                QrCodeState::Timeout => r is Refetch,
                QrCodeState::Confirmed => r is Login,
                QrCodeState::Canceled => r matches QrAction::Fail(m) && m@ == "二维码已取消"@,
            },
    {
        proof {
            let one = seq![state];
            assert(one.len() == 1);
            assert(one.last() == state);
            assert(one.drop_last() =~= Seq::<QrCodeState>::empty());
            assert(sig_after(self.sig@, one.drop_last()) == self.sig@);
        }
        match state {
            QrCodeState::ImageFetch(s) => {
                self.sig = s.clone();
                QrAction::ShowThenPoll(s)
            },
            QrCodeState::WaitingForScan => QrAction::Poll(self.sig.clone()),
            QrCodeState::WaitingForConfirm => QrAction::Poll(self.sig.clone()),
            QrCodeState::Timeout => QrAction::Refetch,
            QrCodeState::Confirmed => QrAction::Login,
            QrCodeState::Canceled => QrAction::Fail("二维码已取消".to_owned()),
        }
    }
}

/// What to do after the connection came back.
pub enum Relogin {
    /// The saved session was taken up again.
    Resumed,
    /// Log in again with the account and password; after that login, save
    /// the new session when `save_session` holds, then hand out events
    /// again.
    LoginAgain { save_session: bool },
    /// This login cannot be repeated: stop with the error of the lost
    /// connection.
    GiveUp,
}

/// What to do after reconnecting: take up the session
/// if the token login worked, else log in again where the authentication
/// is an account and password and save the new session, as after the
/// first login, else give up.
pub fn relogin(auth: &Authentication, token_ok: bool) -> (r: Relogin)
    ensures
        token_ok ==> r is Resumed,
        !token_ok ==> (match *auth {
            Authentication::UinPassword(_, _) => r == (Relogin::LoginAgain { save_session: true }),
            Authentication::UinPasswordMd5(_, _) => r == (Relogin::LoginAgain { save_session: true }),
            _ => r is GiveUp,
        }),
{
    if token_ok {
        Relogin::Resumed
    } else {
        match auth {
            Authentication::UinPassword(_, _) => Relogin::LoginAgain { save_session: true },
            Authentication::UinPasswordMd5(_, _) => Relogin::LoginAgain { save_session: true },
            _ => Relogin::GiveUp,
        }
    }
}

/// The wait before the `times`-th attempt to reconnect, in whole seconds
/// added to the configured wait: one more second for each failed
/// attempt, at most five.
pub open spec fn reconnect_extra_secs(times: nat) -> nat {
    if times <= 6 {
        if times == 0 {
            0
        } else {
            (times - 1) as nat
        }
    } else {
        5
    }
}

/// The wait before the `times`-th attempt to reconnect:
/// the configured wait, given in seconds and nanoseconds, plus
/// `min(5, times - 1)` seconds.
pub fn reconnect_delay(base_secs: u64, base_nanos: u32, times: u64) -> (r: (u64, u32))
    requires
        times >= 1,
        base_secs + reconnect_extra_secs(times as nat) <= u64::MAX,
    ensures
        r.0 == base_secs + reconnect_extra_secs(times as nat),
        r.1 == base_nanos,
{
    let extra: u64 = if times - 1 < 5 {
        times - 1
    } else {
        5
    };
    (base_secs + extra, base_nanos)
}

/// The wait before a reconnection never shrinks from one attempt to the
/// next, and is never more than five seconds over the configured wait.
pub proof fn law_reconnect_delay_grows_to_bound(t1: nat, t2: nat)
    requires
        1 <= t1 <= t2,
    ensures
        reconnect_extra_secs(t1) <= reconnect_extra_secs(t2) <= 5,
{
}

/// What a session store gave when asked for the saved session.
pub enum SessionLoad {
    /// No session store is set.
    NoStore,
    /// Reading the store failed.
    LoadFailed,
    /// The store holds no session.
    Missing,
    /// The store holds these bytes.
    Found(Vec<u8>),
}

/// The token to log in with, if any: only saved bytes give
/// one. The bytes must hold a whole token.
pub fn token_to_try(load: SessionLoad) -> (r: Option<Token>)
    requires
        load matches SessionLoad::Found(b) ==> read_token(b@) is Some,
    ensures
        match load {
            SessionLoad::Found(b) => r matches Some(t) && read_token(b@) == Some((t.uin, t.keys())),
            _ => r is None,
        },
{
    match load {
        SessionLoad::Found(b) => Some(bytes_to_token(b)),
        _ => None,
    }
}

/// How a token login ended.
pub enum TokenLoginOutcome {
    LoggedIn,
    TokenLoginFailed,
    OtherError,
}

/// Whether a token login succeeded, and whether the saved session must be
/// removed: only a refused token is removed.
pub fn after_token_login(outcome: TokenLoginOutcome) -> (r: (bool, bool))
    ensures
        r.0 == (outcome is LoggedIn),
        r.1 == (outcome is TokenLoginFailed),
{
    match outcome {
        TokenLoginOutcome::LoggedIn => (true, false),
        TokenLoginOutcome::TokenLoginFailed => (false, true),
        TokenLoginOutcome::OtherError => (false, false),
    }
}

} // verus!
