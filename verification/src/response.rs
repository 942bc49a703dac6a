//! What a handler answers with: a rendered template, a redirect that carries
//! a flash message, or a JSON body.

use vstd::prelude::*;

verus! {

/// The HTTP status of an answer.
#[derive(Clone, Copy, Debug, PartialEq, Eq, Structural)]
pub enum Status {
    OK,
    SeeOther,
    NotFound,
    InternalServerError,
}

impl Status {
    /// The status code.
    pub fn code(&self) -> (code: u16)
        ensures
            code == match *self {
                Status::OK => 200u16,
                Status::SeeOther => 303u16,
                Status::NotFound => 404u16,
                Status::InternalServerError => 500u16,
            },
    {
        match self {
            Status::OK => 200,
            Status::SeeOther => 303,
            Status::NotFound => 404,
            Status::InternalServerError => 500,
        }
    }
}

/// The content type of an answer that has a body.
#[derive(Clone, Copy, Debug, PartialEq, Eq, Structural)]
pub enum ContentType {
    HTML,
    JSON,
}

/// A flash message that came with a request: it was set by the answer to
/// the request before.
#[derive(Clone, Debug, PartialEq, Eq)]
pub struct FlashMessage {
    pub name: String,
    pub msg: String,
}

/// A redirect that sets a flash message for the request that follows it. It
/// leads to the path `url`; where `ssid` is set, the path is that of the page
/// on one network, and `ssid` is the value of its query parameter `ssid`, not
/// yet encoded.
#[derive(Clone, Debug, PartialEq, Eq)]
pub struct Flash {
    pub name: String,
    pub msg: String,
    pub url: String,
    pub ssid: Option<String>,
}

/// What a `Flash` stands for.
pub struct FlashView {
    pub name: Seq<char>,
    pub msg: Seq<char>,
    pub url: Seq<char>,
    pub ssid: Option<Seq<char>>,
}

impl View for Flash {
    type V = FlashView;

    open spec fn view(&self) -> FlashView {
        FlashView {
            name: self.name@,
            msg: self.msg@,
            url: self.url@,
            ssid: match self.ssid {
                Some(ssid) => Some(ssid@),
                None => None,
            },
        }
    }
}

impl FlashView {
    /// A redirect to `url` with a message of success.
    pub open spec fn success(url: Seq<char>, msg: Seq<char>) -> FlashView {
        FlashView { name: "success"@, msg, url, ssid: None }
    }

    /// A redirect to `url` with a message of failure.
    pub open spec fn error(url: Seq<char>, msg: Seq<char>) -> FlashView {
        FlashView { name: "error"@, msg, url, ssid: None }
    }

    /// The redirect that answers an action: to `url` either way, with
    /// `done` where the action succeeded and with `failed` where it did not.
    pub open spec fn acted(succeeded: bool, url: Seq<char>, done: Seq<char>, failed: Seq<char>)
        -> FlashView {
        if succeeded {
            FlashView::success(url, done)
        } else {
            FlashView::error(url, failed)
        }
    }

    /// The same redirect, to the page on the network `ssid`.
    pub open spec fn on_network(self, ssid: Seq<char>) -> FlashView {
        FlashView { ssid: Some(ssid), ..self }
    }
}

impl Flash {
    /// A redirect to `url` with a message of success.
    pub fn success(url: &str, msg: &str) -> (flash: Flash)
        ensures
            flash@ == FlashView::success(url@, msg@),
    {
        Flash { name: "success".to_string(), msg: msg.to_string(), url: url.to_string(), ssid: None }
    }

    /// A redirect to `url` with a message of failure.
    pub fn error(url: &str, msg: &str) -> (flash: Flash)
        ensures
            flash@ == FlashView::error(url@, msg@),
    {
        Flash { name: "error".to_string(), msg: msg.to_string(), url: url.to_string(), ssid: None }
    }

    /// The redirect that answers an action.
    pub fn acted(succeeded: bool, url: &str, done: &str, failed: &str) -> (flash: Flash)
        ensures
            flash@ == FlashView::acted(succeeded, url@, done@, failed@),
    {
        if succeeded {
            Flash::success(url, done)
        } else {
            Flash::error(url, failed)
        }
    }

    /// The same redirect, to the page on the network `ssid`.
    pub fn on_network(self, ssid: &str) -> (flash: Flash)
        ensures
            flash@ == self@.on_network(ssid@),
    {
        Flash { name: self.name, msg: self.msg, url: self.url, ssid: Some(ssid.to_string()) }
    }

    /// A redirect is answered with "303 See Other".
    pub fn status(&self) -> (status: Status)
        ensures
            status == Status::SeeOther,
    {
        Status::SeeOther
    }

    /// A redirect has no body, and so no content type.
    pub fn content_type(&self) -> (content_type: Option<ContentType>)
        ensures
            content_type is None,
    {
        None
    }
}

/// A failed action is answered with a flash message that is named "error"
/// and says that the action failed, whatever the action.
pub proof fn lemma_failed_action_flashes_error(url: Seq<char>, done: Seq<char>, failed: Seq<char>)
    ensures
        FlashView::acted(false, url, done, failed).name == "error"@,
        FlashView::acted(false, url, done, failed).msg == failed,
        FlashView::acted(false, url, done, failed).url == url,
{
}

/// What is known of an outside call whose error is not looked at.
#[derive(Clone, Debug, PartialEq, Eq)]
pub enum Answer<T> {
    /// The call has not been made.
    Pending,
    /// The call was made and failed.
    Failed,
    /// The call was made and gave this.
    Given(T),
}

/// What a handler that works in steps wants next: an outside call made, or
/// its answer sent. The caller makes the call, notes what came of it, and
/// asks again.
#[derive(Debug)]
pub enum Step<C, R> {
    Call(C),
    Done(R),
}

/// A template to render, by name, and the context to render it with.
#[derive(Debug)]
pub struct Template<C> {
    pub name: String,
    pub context: C,
}

impl<C> Template<C> {
    /// The template `name` with `context`.
    pub fn render(name: &str, context: C) -> (template: Template<C>)
        ensures
            template.name@ == name@,
            template.context == context,
    {
        Template { name: name.to_string(), context }
    }

    /// A rendered page is answered with "200 OK".
    pub fn status(&self) -> (status: Status)
        ensures
            status == Status::OK,
    {
        Status::OK
    }

    /// A rendered page is HTML.
    pub fn content_type(&self) -> (content_type: Option<ContentType>)
        ensures
            content_type == Some(ContentType::HTML),
    {
        Some(ContentType::HTML)
    }
}

} // verus!
