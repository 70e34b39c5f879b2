//! Decisions of the clipboard facade: which listener backend the runtime
//! environment selects, in what order `load` tries formats, and how a native
//! read becomes a content value. The native reads and writes themselves are
//! the runtime's job; src only decides and wraps.

use vstd::prelude::*;

use crate::content::{mime_class, mime_class_of, ClipboardContent};
use crate::Error;

verus! {

/// The listener backend selected at construction.
#[derive(Debug, PartialEq, Eq)]
pub enum BackendChoice {
    /// A Wayland data-control listener on this display.
    Wayland { display: String },
    /// An X11 listener, on the named display or the default connection.
    X11 { display: Option<String> },
}

/// Backend selection: a Wayland display wins; otherwise X11, on the named
/// display when one is set, else the default connection.
pub fn choose_backend(wayland_display: Option<String>, x11_display: Option<String>) -> (r:
    BackendChoice)
    ensures
        wayland_display matches Some(d) ==> r == (BackendChoice::Wayland { display: d }),
        wayland_display is None ==> r == (BackendChoice::X11 { display: x11_display }),
{
    match wayland_display {
        Some(display) => BackendChoice::Wayland { display },
        None => BackendChoice::X11 { display: x11_display },
    }
}

/// A kind of native read `load` can attempt.
#[derive(Debug, PartialEq, Eq, Structural, Clone, Copy)]
pub enum LoadTarget {
    Text,
    Image,
}

/// The reads `load` attempts for a format hint, in order: no hint tries text
/// then image; a hint naming a text or image type tries only that; any other
/// hint reads nothing, so `load` reports `Empty`.
pub fn load_attempts(format_hint: Option<&str>) -> (r: Vec<LoadTarget>)
    ensures
        format_hint is None ==> r@ == seq![LoadTarget::Text, LoadTarget::Image],
        format_hint matches Some(h) && mime_class_of(h@) == 1 ==> r@ == seq![LoadTarget::Text],
        format_hint matches Some(h) && mime_class_of(h@) == 2 ==> r@ == seq![LoadTarget::Image],
        format_hint matches Some(h) && mime_class_of(h@) != 1 && mime_class_of(h@) != 2 ==> r@
            == Seq::<LoadTarget>::empty(),
    {
        let mut r: Vec<LoadTarget> = Vec::new();
        match format_hint {
            None => {
                r.push(LoadTarget::Text);
                r.push(LoadTarget::Image);
                proof {
                    assert(r@ =~= seq![LoadTarget::Text, LoadTarget::Image]);
                }
            },
            Some(h) => {
                let c = mime_class(h);
                if c == 1 {
                    r.push(LoadTarget::Text);
                    proof {
                        assert(r@ =~= seq![LoadTarget::Text]);
                    }
                } else if c == 2 {
                    r.push(LoadTarget::Image);
                    proof {
                        assert(r@ =~= seq![LoadTarget::Image]);
                    }
                }
            },
        }
        r
    }

/// Wraps what a native text read returned: text becomes plaintext content;
/// nothing readable is `Empty`.
pub fn wrap_text_read(text: Option<String>) -> (r: Result<ClipboardContent, Error>)
    ensures
        text matches Some(t) ==> r == Ok::<ClipboardContent, Error>(ClipboardContent::Plaintext(t)),
        text is None ==> r == Err::<ClipboardContent, Error>(Error::Empty),
{
    match text {
        Some(t) => Ok(ClipboardContent::Plaintext(t)),
        None => Err(Error::Empty),
    }
}

/// Wraps what a native image read returned — width, height and pixel bytes —
/// into image content; nothing readable is `Empty`.
pub fn wrap_image_read(image: Option<(usize, usize, Vec<u8>)>) -> (r: Result<
    ClipboardContent,
    Error,
>)
    ensures
        image matches Some(i) ==> r == Ok::<ClipboardContent, Error>(
            ClipboardContent::Image { width: i.0, height: i.1, bytes: i.2 },
        ),
        image is None ==> r == Err::<ClipboardContent, Error>(Error::Empty),
{
    match image {
        Some((width, height, bytes)) => Ok(ClipboardContent::Image { width, height, bytes }),
        None => Err(Error::Empty),
    }
}

} // verus!
