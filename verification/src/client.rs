use vstd::prelude::*;
use crate::entities::DeviceSource;
use crate::login::{Authentication, DeviceLockVerification, ShowQR, ShowSlider};

verus! {

/// The settings a client is built from. What the caller's own code
/// provides (modules, result handlers, session store, protocol, connection
/// handler) stays with the caller.
pub struct ClientBuilder {
    pub device_source: DeviceSource,
    pub authentication: Option<Authentication>,
    pub show_qr: Option<ShowQR>,
    pub show_slider: Option<ShowSlider>,
    pub device_lock_verification: Option<DeviceLockVerification>,
    /// The wait before reconnecting, in seconds and nanoseconds.
    pub reconnect_secs: u64,
    pub reconnect_nanos: u32,
    /// Whether QR codes can be printed to the console, which makes that the
    /// default way of showing them.
    pub console_qr: bool,
}

/// The settings of a built client, with every default filled in.
pub struct ClientSettings {
    pub device_source: DeviceSource,
    pub authentication: Authentication,
    pub show_qr: ShowQR,
    pub show_slider: ShowSlider,
    pub device_lock_verification: DeviceLockVerification,
    pub shutting: bool,
    pub reconnect_secs: u64,
    pub reconnect_nanos: u32,
}

fn copy_auth(a: &Authentication) -> (r: Authentication)
    ensures
        r == *a,
{
    match a {
        Authentication::QRCode => Authentication::QRCode,
        Authentication::UinPassword(u, p) => Authentication::UinPassword(*u, p.clone()),
        Authentication::UinPasswordMd5(u, p) => Authentication::UinPasswordMd5(*u, *p),
        Authentication::CustomUinPassword => Authentication::CustomUinPassword,
        Authentication::CustomUinPasswordMd5 => Authentication::CustomUinPasswordMd5,
        Authentication::CallBack => Authentication::CallBack,
        Authentication::Abandon => Authentication::Abandon,
    }
}

fn copy_source(d: &DeviceSource) -> (r: DeviceSource)
    ensures
        r == *d,
{
    match d {
        DeviceSource::JsonFile(f) => DeviceSource::JsonFile(f.clone()),
        DeviceSource::JsonString(s) => DeviceSource::JsonString(s.clone()),
    }
}

fn copy_show_qr(q: &ShowQR) -> (r: ShowQR)
    ensures
        r == *q,
{
    match q {
        ShowQR::OpenBySystem => ShowQR::OpenBySystem,
        ShowQR::PrintToConsole => ShowQR::PrintToConsole,
        ShowQR::Custom => ShowQR::Custom,
        ShowQR::SaveToFile => ShowQR::SaveToFile,
    }
}

/// The message when a client is built without a way to log in.
pub open spec fn no_authentication_message() -> Seq<char> {
    "您必须设置验证方式 (调用authentication)"@
}

impl ClientBuilder {
    /// A builder with the defaults: the device in `device.json`, no
    /// authentication yet, and a reconnection wait of 100 milliseconds.
    pub fn new() -> (r: ClientBuilder)
        ensures
            r.device_source matches DeviceSource::JsonFile(f) && f@ == "device.json"@,
            r.authentication is None,
            r.show_qr is None,
            r.show_slider is None,
            r.device_lock_verification is None,
            r.reconnect_secs == 0,
            r.reconnect_nanos == 100_000_000,
            !r.console_qr,
    {
        ClientBuilder {
            device_source: DeviceSource::default(),
            authentication: None,
            show_qr: None,
            show_slider: None,
            device_lock_verification: None,
            reconnect_secs: 0,
            reconnect_nanos: 100_000_000,
            console_qr: false,
        }
    }

    /// Sets whether QR codes can be printed to the console.
    pub fn console_qr(self, console_qr: bool) -> (r: ClientBuilder)
        ensures
            r == (ClientBuilder { console_qr, ..self }),
    {
        ClientBuilder { console_qr, ..self }
    }

    /// Sets how the QR code of a QR login is shown.
    pub fn show_rq(self, show_qr: Option<ShowQR>) -> (r: ClientBuilder)
        ensures
            r == (ClientBuilder { show_qr, ..self }),
    {
        ClientBuilder { show_qr, ..self }
    }

    /// Sets how slider captchas are solved.
    pub fn show_slider(self, show_slider: Option<ShowSlider>) -> (r: ClientBuilder)
        ensures
            r == (ClientBuilder { show_slider, ..self }),
    {
        ClientBuilder { show_slider, ..self }
    }

    /// Sets how a locked device is unlocked.
    pub fn device_lock_verification(self, device_lock_verification: Option<DeviceLockVerification>) -> (r:
        ClientBuilder)
        ensures
            r == (ClientBuilder { device_lock_verification, ..self }),
    {
        ClientBuilder { device_lock_verification, ..self }
    }

    /// Sets where the device description comes from.
    pub fn device(self, device_source: DeviceSource) -> (r: ClientBuilder)
        ensures
            r == (ClientBuilder { device_source, ..self }),
    {
        ClientBuilder { device_source, ..self }
    }

    /// Sets how the client logs in.
    pub fn authentication(self, authentication: Authentication) -> (r: ClientBuilder)
        ensures
            r == (ClientBuilder { authentication: Some(authentication), ..self }),
    {
        ClientBuilder { authentication: Some(authentication), ..self }
    }

    /// Sets the wait before reconnecting.
    pub fn reconnect_duration(self, secs: u64, nanos: u32) -> (r: ClientBuilder)
        ensures
            r == (ClientBuilder { reconnect_secs: secs, reconnect_nanos: nanos, ..self }),
    {
        ClientBuilder { reconnect_secs: secs, reconnect_nanos: nanos, ..self }
    }

    /// The settings of the client to build: the authentication must
    /// be set; the QR code is printed to the console where that can be done
    /// and saved to a file otherwise, slider captchas go through the
    /// Android helper and a locked device is unlocked by its address, unless
    /// set otherwise.
    pub fn build(&self) -> (r: Result<ClientSettings, String>)
        ensures
            match self.authentication {
                None => r matches Err(m) && m@ == no_authentication_message(),
                Some(a) => r matches Ok(s) && s == (ClientSettings {
                    device_source: self.device_source,
                    authentication: a,
                    show_qr: match self.show_qr {
                        Some(q) => q,
                        None => if self.console_qr {
                            ShowQR::PrintToConsole
                        } else {
                            ShowQR::SaveToFile
                        },
                    },
                    show_slider: match self.show_slider {
                        Some(v) => v,
                        None => ShowSlider::AndroidHelper,
                    },
                    device_lock_verification: match self.device_lock_verification {
                        Some(v) => v,
                        None => DeviceLockVerification::Url,
                    },
                    shutting: false,
                    reconnect_secs: self.reconnect_secs,
                    reconnect_nanos: self.reconnect_nanos,
                }),
            },
    {
        let authentication = match &self.authentication {
            Some(a) => copy_auth(a),
            None => {
                return Err("您必须设置验证方式 (调用authentication)".to_owned());
            },
        };
        let show_qr = match &self.show_qr {
            Some(q) => copy_show_qr(q),
            None => if self.console_qr {
                ShowQR::PrintToConsole
            } else {
                ShowQR::SaveToFile
            },
        };
        let show_slider = match &self.show_slider {
            Some(ShowSlider::AndroidHelper) => ShowSlider::AndroidHelper,
            Some(ShowSlider::PopWindow) => ShowSlider::PopWindow,
            None => ShowSlider::AndroidHelper,
        };
        let device_lock_verification = match &self.device_lock_verification {
            Some(DeviceLockVerification::Url) => DeviceLockVerification::Url,
            Some(DeviceLockVerification::Sms) => DeviceLockVerification::Sms,
            None => DeviceLockVerification::Url,
        };
        Ok(
            ClientSettings {
                device_source: copy_source(&self.device_source),
                authentication,
                show_qr,
                show_slider,
                device_lock_verification,
                shutting: false,
                reconnect_secs: self.reconnect_secs,
                reconnect_nanos: self.reconnect_nanos,
            },
        )
    }
}

/// How the device description is obtained.
pub enum DevicePlan {
    /// Read the description from this file.
    ReadFile(String),
    /// Make up a random device and write its description to this file.
    CreateFile(String),
    /// Read the description from this text.
    Parse(String),
}

/// How the device description is obtained for a source, given whether its
/// file exists.
pub open spec fn device_plan_spec(source: DeviceSource, file_exists: bool) -> DevicePlan {
    match source {
        DeviceSource::JsonFile(f) => if file_exists {
            DevicePlan::ReadFile(f)
        } else {
            DevicePlan::CreateFile(f)
        },
        DeviceSource::JsonString(s) => DevicePlan::Parse(s),
    }
}

/// Builds from a device file agree: the build that finds no file creates
/// the very file that every later build, finding it, reads, so they use
/// the device the first one made; a device given as text is parsed alike
/// every time.
pub proof fn law_device_file_round_trip(source: DeviceSource)
    ensures
        source matches DeviceSource::JsonFile(f) ==> device_plan_spec(source, false)
            == DevicePlan::CreateFile(f) && device_plan_spec(source, true) == DevicePlan::ReadFile(f),
        source is JsonString ==> device_plan_spec(source, false) == device_plan_spec(source, true),
{
}

/// How the device description is obtained for a source, given whether its
/// file exists: an existing file is read, a missing one is created.
pub fn device_plan(source: &DeviceSource, file_exists: bool) -> (r: DevicePlan)
    ensures
        r == device_plan_spec(*source, file_exists),
{
    match source {
        DeviceSource::JsonFile(f) => if file_exists {
            DevicePlan::ReadFile(f.clone())
        } else {
            DevicePlan::CreateFile(f.clone())
        },
        DeviceSource::JsonString(s) => DevicePlan::Parse(s.clone()),
    }
}

} // verus!
