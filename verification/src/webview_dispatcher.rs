//! Speaks to a webview from anywhere.
use vstd::prelude::*;

use crate::color::Color;
use crate::context::{id_after, CefRuntimeContext, ContextView, Message};
use crate::error::Error;
use crate::geometry::{Float64, Position, Rect, Size};
use crate::webview::{HandlerId, WebviewId, WindowId};
use crate::webview_message::{Cookie, WebviewMessage};

verus! {

/// Speaks to a webview by messages to the event loop.
///
/// Each method gives the message to send; what an answer comes to, `getter_reply` says.
#[derive(Debug, Clone, Copy, PartialEq, Eq, Structural)]
pub struct CefWebviewDispatcher {
    /// The window that the webview is in.
    pub window_id: WindowId,
    pub webview_id: WebviewId,
}

/// What a question comes to that is always answered once it was sent.
pub fn awaited_reply<V>(sent: Result<(), Error>, received: Option<Result<V, Error>>) -> (reply:
    Result<V, Error>)
    requires
        sent is Ok ==> received is Some,
    ensures
        reply == (match sent {
            Ok(_) => received->0,
            Err(error) => Err::<V, Error>(error),
        }),
{
    match sent {
        Ok(_) => received.unwrap(),
        Err(error) => Err(error),
    }
}

impl CefWebviewDispatcher {
    /// Asks the event loop to run a function of the application.
    pub fn run_on_main_thread<T>(&self, task: HandlerId) -> (message: Message<T>)
        ensures
            message == Message::<T>::Task(task),
    {
        Message::Task(task)
    }

    /// Adds a listener for the events of the webview, under the next id.
    pub fn on_webview_event<T>(
        &self,
        context: &mut CefRuntimeContext,
        handler: HandlerId,
    ) -> (added: (u32, Message<T>))
        ensures
            added.0 == old(context)@.next_webview_event_id,
            added.1 == (Message::<T>::Webview {
                window_id: self.window_id,
                webview_id: self.webview_id,
                message: WebviewMessage::AddEventListener(added.0, handler),
            }),
            final(context)@ == (ContextView {
                next_webview_event_id: id_after(added.0, 1),
                ..old(context)@
            }),
    {
        let event_id = context.next_webview_event_id();
        let message = Message::Webview {
            window_id: self.window_id,
            webview_id: self.webview_id,
            message: WebviewMessage::AddEventListener(event_id, handler),
        };
        (event_id, message)
    }

    /// Ends that the webview is moved to another window: it is spoken to there from now on,
    /// unless the move failed.
    pub fn finish_reparent(
        &mut self,
        target: WindowId,
        sent: Result<(), Error>,
        received: Option<Result<(), Error>>,
    ) -> (result: Result<(), Error>)
        requires
            sent is Ok ==> received is Some,
        ensures
            result == (match sent {
                Ok(_) => received->0,
                Err(error) => Err::<(), Error>(error),
            }),
            *final(self) == (CefWebviewDispatcher {
                window_id: if result is Ok {
                    target
                } else {
                    old(self).window_id
                },
                webview_id: old(self).webview_id,
            }),
    {
        let result = awaited_reply(sent, received);
        if result.is_ok() {
            self.window_id = target;
        }
        result
    }

    /// Hands the browser to a function of the application.
    pub fn with_webview<T>(&self, handler: HandlerId) -> (message: Message<T>)
        ensures
            message == (Message::<T>::Webview {
                window_id: self.window_id,
                webview_id: self.webview_id,
                message: WebviewMessage::WithWebview(handler),
            }),
    {
        Message::Webview {
            window_id: self.window_id,
            webview_id: self.webview_id,
            message: WebviewMessage::WithWebview(handler),
        }
    }

    /// Opens the developer tools.
    pub fn open_devtools<T>(&self) -> (message: Message<T>)
        ensures
            message == (Message::<T>::Webview {
                window_id: self.window_id,
                webview_id: self.webview_id,
                message: WebviewMessage::OpenDevTools,
            }),
    {
        Message::Webview {
            window_id: self.window_id,
            webview_id: self.webview_id,
            message: WebviewMessage::OpenDevTools,
        }
    }

    /// Closes the developer tools.
    pub fn close_devtools<T>(&self) -> (message: Message<T>)
        ensures
            message == (Message::<T>::Webview {
                window_id: self.window_id,
                webview_id: self.webview_id,
                message: WebviewMessage::CloseDevTools,
            }),
    {
        Message::Webview {
            window_id: self.window_id,
            webview_id: self.webview_id,
            message: WebviewMessage::CloseDevTools,
        }
    }

    /// Asks whether the developer tools are open.
    pub fn is_devtools_open<T>(&self) -> (message: Message<T>)
        ensures
            message == (Message::<T>::Webview {
                window_id: self.window_id,
                webview_id: self.webview_id,
                message: WebviewMessage::IsDevToolsOpen,
            }),
    {
        Message::Webview {
            window_id: self.window_id,
            webview_id: self.webview_id,
            message: WebviewMessage::IsDevToolsOpen,
        }
    }

    /// Sets the zoom level.
    pub fn set_zoom<T>(&self, scale_factor: Float64) -> (message: Message<T>)
        ensures
            message == (Message::<T>::Webview {
                window_id: self.window_id,
                webview_id: self.webview_id,
                message: WebviewMessage::SetZoom(scale_factor),
            }),
    {
        Message::Webview {
            window_id: self.window_id,
            webview_id: self.webview_id,
            message: WebviewMessage::SetZoom(scale_factor),
        }
    }

    /// Runs a script.
    pub fn eval_script<T>(&self, script: String) -> (message: Message<T>)
        ensures
            message == (Message::<T>::Webview {
                window_id: self.window_id,
                webview_id: self.webview_id,
                message: WebviewMessage::EvaluateScript(script),
            }),
    {
        Message::Webview {
            window_id: self.window_id,
            webview_id: self.webview_id,
            message: WebviewMessage::EvaluateScript(script),
        }
    }

    /// Asks for the address.
    pub fn url<T>(&self) -> (message: Message<T>)
        ensures
            message == (Message::<T>::Webview {
                window_id: self.window_id,
                webview_id: self.webview_id,
                message: WebviewMessage::Url,
            }),
    {
        Message::Webview {
            window_id: self.window_id,
            webview_id: self.webview_id,
            message: WebviewMessage::Url,
        }
    }

    /// Asks for the place of the webview.
    pub fn bounds<T>(&self) -> (message: Message<T>)
        ensures
            message == (Message::<T>::Webview {
                window_id: self.window_id,
                webview_id: self.webview_id,
                message: WebviewMessage::Bounds,
            }),
    {
        Message::Webview {
            window_id: self.window_id,
            webview_id: self.webview_id,
            message: WebviewMessage::Bounds,
        }
    }

    /// Asks for the position of the webview.
    pub fn position<T>(&self) -> (message: Message<T>)
        ensures
            message == (Message::<T>::Webview {
                window_id: self.window_id,
                webview_id: self.webview_id,
                message: WebviewMessage::Position,
            }),
    {
        Message::Webview {
            window_id: self.window_id,
            webview_id: self.webview_id,
            message: WebviewMessage::Position,
        }
    }

    /// Asks for the size of the webview.
    pub fn size<T>(&self) -> (message: Message<T>)
        ensures
            message == (Message::<T>::Webview {
                window_id: self.window_id,
                webview_id: self.webview_id,
                message: WebviewMessage::Size,
            }),
    {
        Message::Webview {
            window_id: self.window_id,
            webview_id: self.webview_id,
            message: WebviewMessage::Size,
        }
    }

    /// Loads a page.
    pub fn navigate<T>(&self, url: String) -> (message: Message<T>)
        ensures
            message == (Message::<T>::Webview {
                window_id: self.window_id,
                webview_id: self.webview_id,
                message: WebviewMessage::Navigate(url),
            }),
    {
        Message::Webview {
            window_id: self.window_id,
            webview_id: self.webview_id,
            message: WebviewMessage::Navigate(url),
        }
    }

    /// Loads the page again.
    pub fn reload<T>(&self) -> (message: Message<T>)
        ensures
            message == (Message::<T>::Webview {
                window_id: self.window_id,
                webview_id: self.webview_id,
                message: WebviewMessage::Reload,
            }),
    {
        Message::Webview {
            window_id: self.window_id,
            webview_id: self.webview_id,
            message: WebviewMessage::Reload,
        }
    }

    /// Prints the page.
    pub fn print<T>(&self) -> (message: Message<T>)
        ensures
            message == (Message::<T>::Webview {
                window_id: self.window_id,
                webview_id: self.webview_id,
                message: WebviewMessage::Print,
            }),
    {
        Message::Webview {
            window_id: self.window_id,
            webview_id: self.webview_id,
            message: WebviewMessage::Print,
        }
    }

    /// Closes the webview.
    pub fn close<T>(&self) -> (message: Message<T>)
        ensures
            message == (Message::<T>::Webview {
                window_id: self.window_id,
                webview_id: self.webview_id,
                message: WebviewMessage::Close,
            }),
    {
        Message::Webview {
            window_id: self.window_id,
            webview_id: self.webview_id,
            message: WebviewMessage::Close,
        }
    }

    /// Places the webview.
    pub fn set_bounds<T>(&self, bounds: Rect) -> (message: Message<T>)
        ensures
            message == (Message::<T>::Webview {
                window_id: self.window_id,
                webview_id: self.webview_id,
                message: WebviewMessage::SetBounds(bounds),
            }),
    {
        Message::Webview {
            window_id: self.window_id,
            webview_id: self.webview_id,
            message: WebviewMessage::SetBounds(bounds),
        }
    }

    /// Sets the size of the webview.
    pub fn set_size<T>(&self, size: Size) -> (message: Message<T>)
        ensures
            message == (Message::<T>::Webview {
                window_id: self.window_id,
                webview_id: self.webview_id,
                message: WebviewMessage::SetSize(size),
            }),
    {
        Message::Webview {
            window_id: self.window_id,
            webview_id: self.webview_id,
            message: WebviewMessage::SetSize(size),
        }
    }

    /// Moves the webview.
    pub fn set_position<T>(&self, position: Position) -> (message: Message<T>)
        ensures
            message == (Message::<T>::Webview {
                window_id: self.window_id,
                webview_id: self.webview_id,
                message: WebviewMessage::SetPosition(position),
            }),
    {
        Message::Webview {
            window_id: self.window_id,
            webview_id: self.webview_id,
            message: WebviewMessage::SetPosition(position),
        }
    }

    /// Gives the webview the focus.
    pub fn set_focus<T>(&self) -> (message: Message<T>)
        ensures
            message == (Message::<T>::Webview {
                window_id: self.window_id,
                webview_id: self.webview_id,
                message: WebviewMessage::SetFocus,
            }),
    {
        Message::Webview {
            window_id: self.window_id,
            webview_id: self.webview_id,
            message: WebviewMessage::SetFocus,
        }
    }

    /// Asks to move the webview to another window; `finish_reparent` ends it.
    pub fn reparent<T>(&self, target: WindowId) -> (message: Message<T>)
        ensures
            message == (Message::<T>::Webview {
                window_id: self.window_id,
                webview_id: self.webview_id,
                message: WebviewMessage::Reparent(target),
            }),
    {
        Message::Webview {
            window_id: self.window_id,
            webview_id: self.webview_id,
            message: WebviewMessage::Reparent(target),
        }
    }

    /// Asks for the cookies of an address.
    pub fn cookies_for_url<T>(&self, url: String) -> (message: Message<T>)
        ensures
            message == (Message::<T>::Webview {
                window_id: self.window_id,
                webview_id: self.webview_id,
                message: WebviewMessage::CookiesForUrl(url),
            }),
    {
        Message::Webview {
            window_id: self.window_id,
            webview_id: self.webview_id,
            message: WebviewMessage::CookiesForUrl(url),
        }
    }

    /// Asks for all cookies.
    pub fn cookies<T>(&self) -> (message: Message<T>)
        ensures
            message == (Message::<T>::Webview {
                window_id: self.window_id,
                webview_id: self.webview_id,
                message: WebviewMessage::Cookies,
            }),
    {
        Message::Webview {
            window_id: self.window_id,
            webview_id: self.webview_id,
            message: WebviewMessage::Cookies,
        }
    }

    /// Sets a cookie.
    pub fn set_cookie<T>(&self, cookie: Cookie) -> (message: Message<T>)
        ensures
            message == (Message::<T>::Webview {
                window_id: self.window_id,
                webview_id: self.webview_id,
                message: WebviewMessage::SetCookie(cookie),
            }),
    {
        Message::Webview {
            window_id: self.window_id,
            webview_id: self.webview_id,
            message: WebviewMessage::SetCookie(cookie),
        }
    }

    /// Deletes a cookie.
    pub fn delete_cookie<T>(&self, cookie: Cookie) -> (message: Message<T>)
        ensures
            message == (Message::<T>::Webview {
                window_id: self.window_id,
                webview_id: self.webview_id,
                message: WebviewMessage::DeleteCookie(cookie),
            }),
    {
        Message::Webview {
            window_id: self.window_id,
            webview_id: self.webview_id,
            message: WebviewMessage::DeleteCookie(cookie),
        }
    }

    /// Lets the webview follow the size of its window.
    pub fn set_auto_resize<T>(&self, auto_resize: bool) -> (message: Message<T>)
        ensures
            message == (Message::<T>::Webview {
                window_id: self.window_id,
                webview_id: self.webview_id,
                message: WebviewMessage::SetAutoResize(auto_resize),
            }),
    {
        Message::Webview {
            window_id: self.window_id,
            webview_id: self.webview_id,
            message: WebviewMessage::SetAutoResize(auto_resize),
        }
    }

    /// Clears the browsing data.
    pub fn clear_all_browsing_data<T>(&self) -> (message: Message<T>)
        ensures
            message == (Message::<T>::Webview {
                window_id: self.window_id,
                webview_id: self.webview_id,
                message: WebviewMessage::ClearAllBrowsingData,
            }),
    {
        Message::Webview {
            window_id: self.window_id,
            webview_id: self.webview_id,
            message: WebviewMessage::ClearAllBrowsingData,
        }
    }

    /// Hides the webview.
    pub fn hide_webview<T>(&self) -> (message: Message<T>)
        ensures
            message == (Message::<T>::Webview {
                window_id: self.window_id,
                webview_id: self.webview_id,
                message: WebviewMessage::Hide,
            }),
    {
        Message::Webview {
            window_id: self.window_id,
            webview_id: self.webview_id,
            message: WebviewMessage::Hide,
        }
    }

    /// Shows the webview.
    pub fn show<T>(&self) -> (message: Message<T>)
        ensures
            message == (Message::<T>::Webview {
                window_id: self.window_id,
                webview_id: self.webview_id,
                message: WebviewMessage::Show,
            }),
    {
        Message::Webview {
            window_id: self.window_id,
            webview_id: self.webview_id,
            message: WebviewMessage::Show,
        }
    }

    /// Sets the color of the background.
    pub fn set_background_color<T>(&self, color: Option<Color>) -> (message: Message<T>)
        ensures
            message == (Message::<T>::Webview {
                window_id: self.window_id,
                webview_id: self.webview_id,
                message: WebviewMessage::SetBackgroundColor(color),
            }),
    {
        Message::Webview {
            window_id: self.window_id,
            webview_id: self.webview_id,
            message: WebviewMessage::SetBackgroundColor(color),
        }
    }
}

} // verus!
