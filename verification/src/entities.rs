use vstd::prelude::*;
use std::sync::Arc;
use crate::login::{helper_url, helper_url_spec};

verus! {

/// Where the device description is read from.
#[derive(Debug)]
pub enum DeviceSource {
    JsonFile(String),
    JsonString(String),
}

impl DeviceSource {
    /// The default device source: the file `device.json`.
    pub fn default() -> (r: DeviceSource)
        ensures
            r matches DeviceSource::JsonFile(f) && f@ == "device.json"@,
    {
        let f = "device.json";
        DeviceSource::JsonFile(f.to_owned())
    }
}


/// The message when a slider captcha comes without its address.
pub open spec fn no_slider_url_message() -> Seq<char> {
    "滑动条URL不存在"@
}

/// Solves slider captchas through the Android helper page: the page at
/// the captcha's address, with its host replaced, shows a new text once the
/// captcha is solved in the helper app, and that text is the ticket.
pub struct AndroidHelper;

impl AndroidHelper {
    /// A boxed helper, to be set as the client's slider solver.
    pub fn boxed() -> (r: Box<AndroidHelper>)
        ensures
            *r == AndroidHelper,
    {
        Box::new(AndroidHelper)
    }

    /// A shared boxed helper, to be set as the client's slider solver.
    pub fn arc_boxed() -> (r: Arc<Box<AndroidHelper>>)
        ensures
            **r == AndroidHelper,
    {
        Arc::new(Box::new(AndroidHelper))
    }

    /// The helper page to read for the captcha at `verify_url` (the start
    /// of `show_slider`); then read it with a `SliderWatch` until the ticket
    /// comes.
    pub fn helper_page(&self, verify_url: &Option<String>) -> (r: Result<String, String>)
        ensures
            match *verify_url {
                Some(u) => r matches Ok(p) && p@ == helper_url_spec(u@),
                None => r matches Err(m) && m@ == no_slider_url_message(),
            },
    {
        match verify_url {
            Some(u) => Ok(helper_url(u.as_str())),
            None => Err("滑动条URL不存在".to_owned()),
        }
    }
}

/// Solves slider captchas in a window of its own, which yields the ticket.
pub struct PopWindow;

impl PopWindow {
    /// A boxed window solver, to be set as the client's slider solver.
    pub fn boxed() -> (r: Box<PopWindow>)
        ensures
            *r == PopWindow,
    {
        Box::new(PopWindow)
    }

    /// A shared boxed window solver, to be set as the client's slider solver.
    pub fn arc_boxed() -> (r: Arc<Box<PopWindow>>)
        ensures
            **r == PopWindow,
    {
        Arc::new(Box::new(PopWindow))
    }

    /// The address to open the window at (the start of `show_slider`).
    pub fn window_url(&self, verify_url: &Option<String>) -> (r: Result<String, String>)
        ensures
            match *verify_url {
                Some(u) => r matches Ok(p) && p@ == u@,
                None => r matches Err(m) && m@ == no_slider_url_message(),
            },
    {
        match verify_url {
            Some(u) => Ok(u.clone()),
            None => Err("滑动条URL不存在".to_owned()),
        }
    }

    /// The ticket the window yielded, or the error when it was closed
    /// without one (the end of `show_slider`).
    pub fn ticket_or_error(&self, ticket: Option<String>) -> (r: Result<String, String>)
        ensures
            match ticket {
                Some(t) => r == Ok::<String, String>(t),
                None => r matches Err(m) && m@ == "ticket未获取到"@,
            },
    {
        match ticket {
            Some(t) => Ok(t),
            None => Err("ticket未获取到".to_owned()),
        }
    }
}

/// What the captcha window's event loop is told.
pub enum WindowEvent {
    /// The loop started.
    Init,
    /// The user asked to close the window.
    CloseRequested,
    /// The page posted the ticket.
    Ticket(String),
    /// The window was resized to this width and height.
    Resized(u32, u32),
    /// Anything else.
    Other,
}

/// What the captcha window's event loop does with an event.
pub enum WindowAction {
    /// Print that the window starts, and wait for the next event.
    Announce,
    /// Print the new size, and wait for the next event.
    PrintSize(u32, u32),
    /// Wait for the next event.
    Wait,
    /// Close the window and end the loop with this ticket, if any.
    Exit(Option<String>),
}

/// One step of the captcha window's event loop: a posted ticket
/// closes the window with it, a close request without one.
pub fn ticket_window_step(e: WindowEvent) -> (r: WindowAction)
    ensures
        match e {
            WindowEvent::Init => r is Announce,
            WindowEvent::CloseRequested => r == WindowAction::Exit(None),
            WindowEvent::Ticket(t) => r == WindowAction::Exit(Some(t)),
            WindowEvent::Resized(w, h) => r == WindowAction::PrintSize(w, h),
            WindowEvent::Other => r is Wait,
        },
{
    match e {
        WindowEvent::Init => WindowAction::Announce,
        WindowEvent::CloseRequested => WindowAction::Exit(None),
        WindowEvent::Ticket(t) => WindowAction::Exit(Some(t)),
        WindowEvent::Resized(w, h) => WindowAction::PrintSize(w, h),
        WindowEvent::Other => WindowAction::Wait,
    }
}

/// Keeps the saved session in a file at `path`.
pub struct FileSessionStore {
    pub path: String,
}

impl FileSessionStore {
    /// A boxed store at `path`, to be set as the client's session store.
    pub fn boxed(path: String) -> (r: Box<FileSessionStore>)
        ensures
            r.path == path,
    {
        Box::new(FileSessionStore { path })
    }
}
/// What an image element says of its image: its address, MD5 digest and
/// size.
pub struct ImageInfo {
    pub url: String,
    pub md5: Vec<u8>,
    pub width: u32,
    pub height: u32,
    pub size: u32,
}

/// A flash image, sent to a friend or in a group.
pub enum FlashImage {
    FriendImage(ImageInfo),
    GroupImage(ImageInfo),
}

/// An image element of a message: a group image, a friend image, or a
/// flash image of either kind.
pub enum ImageElement {
    GroupImage(ImageInfo),
    FriendImage(ImageInfo),
    FlashImage(FlashImage),
}

/// The message when an image is not of the kind asked for.
pub open spec fn mismatching_message() -> Seq<char> {
    "mismatching"@
}

impl ImageElement {
    /// The image the element holds, of whatever kind.
    pub open spec fn info(&self) -> ImageInfo {
        match *self {
            ImageElement::GroupImage(i) => i,
            ImageElement::FriendImage(i) => i,
            ImageElement::FlashImage(FlashImage::FriendImage(i)) => i,
            ImageElement::FlashImage(FlashImage::GroupImage(i)) => i,
        }
    }

    /// Whether the image belongs to a group, flash or not.
    pub open spec fn in_group(&self) -> bool {
        match *self {
            ImageElement::GroupImage(_) => true,
            ImageElement::FlashImage(FlashImage::GroupImage(_)) => true,
            _ => false,
        }
    }

    fn image(&self) -> (r: &ImageInfo)
        ensures
            *r == self.info(),
    {
        match self {
            ImageElement::GroupImage(i) => i,
            ImageElement::FriendImage(i) => i,
            ImageElement::FlashImage(FlashImage::FriendImage(i)) => i,
            ImageElement::FlashImage(FlashImage::GroupImage(i)) => i,
        }
    }

    /// The image's width.
    pub fn width(&self) -> (r: u32)
        ensures
            r == self.info().width,
    {
        self.image().width
    }

    /// The image's height.
    pub fn height(&self) -> (r: u32)
        ensures
            r == self.info().height,
    {
        self.image().height
    }

    /// The image's size.
    pub fn size(&self) -> (r: u32)
        ensures
            r == self.info().size,
    {
        self.image().size
    }

    /// The image's address.
    pub fn url(&self) -> (r: String)
        ensures
            r == self.info().url,
    {
        self.image().url.clone()
    }

    /// The image's MD5 digest.
    pub fn md5(&self) -> (r: Vec<u8>)
        ensures
            r@ == self.info().md5@,
    {
        self.image().md5.clone()
    }

    /// Whether the image is a flash image.
    pub fn is_flash(&self) -> (r: bool)
        ensures
            r == (*self is FlashImage),
    {
        match self {
            ImageElement::FlashImage(_) => true,
            _ => false,
        }
    }

    /// The flash image, or an error for another kind.
    pub fn case_flash(&self) -> (r: Result<&FlashImage, String>)
        ensures
            match *self {
                ImageElement::FlashImage(f) => r == Ok::<&FlashImage, String>(&f),
                _ => r matches Err(m) && m@ == mismatching_message(),
            },
    {
        match self {
            ImageElement::FlashImage(f) => Ok(f),
            _ => Err("mismatching".to_owned()),
        }
    }

    /// The flash image, or an error for another kind.
    pub fn into_flash(self) -> (r: Result<FlashImage, String>)
        ensures
            match self {
                ImageElement::FlashImage(f) => r == Ok::<FlashImage, String>(f),
                _ => r matches Err(m) && m@ == mismatching_message(),
            },
    {
        match self {
            ImageElement::FlashImage(f) => Ok(f),
            _ => Err("mismatching".to_owned()),
        }
    }

    /// Whether the image belongs to a group, flash or not.
    pub fn is_group(&self) -> (r: bool)
        ensures
            r == self.in_group(),
    {
        match self {
            ImageElement::GroupImage(_) => true,
            ImageElement::FriendImage(_) => false,
            ImageElement::FlashImage(FlashImage::FriendImage(_)) => false,
            ImageElement::FlashImage(FlashImage::GroupImage(_)) => true,
        }
    }

    /// The group image, flash or not, or an error for a friend image.
    pub fn case_group(&self) -> (r: Result<&ImageInfo, String>)
        ensures
            self.in_group() ==> r == Ok::<&ImageInfo, String>(&self.info()),
            !self.in_group() ==> (r matches Err(m) && m@ == mismatching_message()),
    {
        match self {
            ImageElement::GroupImage(i) => Ok(i),
            ImageElement::FriendImage(_) => Err("mismatching".to_owned()),
            ImageElement::FlashImage(FlashImage::FriendImage(_)) => Err("mismatching".to_owned()),
            ImageElement::FlashImage(FlashImage::GroupImage(i)) => Ok(i),
        }
    }

    /// The group image, flash or not, or an error for a friend image.
    pub fn into_group(self) -> (r: Result<ImageInfo, String>)
        ensures
            self.in_group() ==> r == Ok::<ImageInfo, String>(self.info()),
            !self.in_group() ==> (r matches Err(m) && m@ == mismatching_message()),
    {
        match self {
            ImageElement::GroupImage(i) => Ok(i),
            ImageElement::FriendImage(_) => Err("mismatching".to_owned()),
            ImageElement::FlashImage(FlashImage::FriendImage(_)) => Err("mismatching".to_owned()),
            ImageElement::FlashImage(FlashImage::GroupImage(i)) => Ok(i),
        }
    }

    /// Whether the image was sent to a friend, flash or not.
    pub fn is_friend(&self) -> (r: bool)
        ensures
            r == !self.in_group(),
    {
        match self {
            ImageElement::GroupImage(_) => false,
            ImageElement::FriendImage(_) => true,
            ImageElement::FlashImage(FlashImage::FriendImage(_)) => true,
            ImageElement::FlashImage(FlashImage::GroupImage(_)) => false,
        }
    }

    /// The friend image, flash or not, or an error for a group image.
    pub fn case_friend(&self) -> (r: Result<&ImageInfo, String>)
        ensures
            !self.in_group() ==> r == Ok::<&ImageInfo, String>(&self.info()),
            self.in_group() ==> (r matches Err(m) && m@ == mismatching_message()),
    {
        match self {
            ImageElement::GroupImage(_) => Err("mismatching".to_owned()),
            ImageElement::FriendImage(i) => Ok(i),
            ImageElement::FlashImage(FlashImage::FriendImage(i)) => Ok(i),
            ImageElement::FlashImage(FlashImage::GroupImage(_)) => Err("mismatching".to_owned()),
        }
    }

    /// The friend image, flash or not, or an error for a group image.
    pub fn into_friend(self) -> (r: Result<ImageInfo, String>)
        ensures
            !self.in_group() ==> r == Ok::<ImageInfo, String>(self.info()),
            self.in_group() ==> (r matches Err(m) && m@ == mismatching_message()),
    {
        match self {
            ImageElement::GroupImage(_) => Err("mismatching".to_owned()),
            ImageElement::FriendImage(i) => Ok(i),
            ImageElement::FlashImage(FlashImage::FriendImage(i)) => Ok(i),
            ImageElement::FlashImage(FlashImage::GroupImage(_)) => Err("mismatching".to_owned()),
        }
    }
}

} // verus!
