//! Turning the number a host toolkit hands over into a reference to a native window.

use vstd::prelude::*;
use crate::error::{ErrorModel, WebViewError};

verus! {

/// The windowing system the process runs on.
#[derive(Clone, Copy, Debug, PartialEq, Eq, Structural)]
pub enum Platform {
    Windows,
    MacOs,
    Linux,
    /// Any system for which no embedding rule exists.
    Other,
}

/// What the Objective-C runtime reported about the object behind a handle.
#[derive(Clone, Copy, Debug, PartialEq, Eq, Structural)]
pub struct AppKitProbe {
    /// The runtime knows a class named `NSWindow`.
    pub window_class_known: bool,
    /// The runtime knows a class named `NSView`.
    pub view_class_known: bool,
    /// The object is a kind of `NSWindow`.
    pub is_window: bool,
    /// The address of the window's content view, zero when it has none.
    /// Only meaningful when `is_window` holds.
    pub content_view: u64,
    /// The object is a kind of `NSView`.
    pub is_view: bool,
}

/// A native window or view that a web view can be embedded in.
#[derive(Clone, Copy, Debug, PartialEq, Eq, Structural)]
pub enum NativeWindowRef {
    /// A Win32 window, by its non-zero `HWND`.
    Win32 { hwnd: isize },
    /// An AppKit view, by the non-zero address of the `NSView`.
    AppKit { ns_view: u64 },
    /// An X11 window, by its non-zero window id.
    Xlib { window: u64 },
}

impl NativeWindowRef {
    /// No reference ever holds a zero handle.
    pub open spec fn wf(self) -> bool {
        match self {
            NativeWindowRef::Win32 { hwnd } => hwnd != 0,
            NativeWindowRef::AppKit { ns_view } => ns_view != 0,
            NativeWindowRef::Xlib { window } => window != 0,
        }
    }
}

impl AppKitProbe {
    /// The report for an object that was never looked at: nothing is known of it.
    pub fn unexamined() -> (probe: AppKitProbe)
        ensures
            probe == (AppKitProbe {
                window_class_known: false,
                view_class_known: false,
                is_window: false,
                content_view: 0,
                is_view: false,
            }),
    {
        AppKitProbe {
            window_class_known: false,
            view_class_known: false,
            is_window: false,
            content_view: 0,
            is_view: false,
        }
    }

    /// The object was recognised as a window or as a view.
    pub open spec fn class_matches(self) -> bool {
        self.window_class_known && self.view_class_known && (self.is_window || self.is_view)
    }

    /// The view to embed in for the object at `handle`, if the report allows one:
    /// a window is narrowed to its content view, a view stands for itself.
    pub open spec fn view_for(self, handle: u64) -> Option<u64> {
        if handle == 0 || !self.window_class_known || !self.view_class_known {
            None
        } else if self.is_window {
            if self.content_view != 0 {
                Some(self.content_view)
            } else {
                None
            }
        } else if self.is_view {
            Some(handle)
        } else {
            None
        }
    }
}

/// The `HWND` that a handle denotes: the handle's bits at the width of a pointer.
pub open spec fn hwnd_of(handle: u64) -> isize {
    handle as isize
}

/// The native reference that `handle` resolves to on `platform`, given what runtime
/// inspection reported (consulted on macOS only).
pub open spec fn resolution(platform: Platform, handle: u64, probe: AppKitProbe) -> Result<
    NativeWindowRef,
    ErrorModel,
> {
    if handle == 0 {
        Err(ErrorModel::InvalidWindowHandle)
    } else {
        match platform {
            Platform::Windows => if hwnd_of(handle) != 0 {
                Ok(NativeWindowRef::Win32 { hwnd: hwnd_of(handle) })
            } else {
                Err(ErrorModel::InvalidWindowHandle)
            },
            Platform::MacOs => match probe.view_for(handle) {
                Some(ns_view) => Ok(NativeWindowRef::AppKit { ns_view }),
                None => Err(ErrorModel::InvalidWindowHandle),
            },
            Platform::Linux => Ok(NativeWindowRef::Xlib { window: handle }),
            Platform::Other => Err(ErrorModel::UnsupportedPlatform),
        }
    }
}

/// The contract-level reading of a resolution result.
pub open spec fn resolved_view(r: Result<NativeWindowRef, WebViewError>) -> Result<
    NativeWindowRef,
    ErrorModel,
> {
    match r {
        Ok(window) => Ok(window),
        Err(e) => Err(e@),
    }
}

/// Whether resolving `handle` on `platform` has to inspect the object behind it.
/// Inspection dereferences the handle, so it is never asked for a zero handle.
pub fn needs_inspection(platform: Platform, handle: u64) -> (b: bool)
    ensures
        b == (platform == Platform::MacOs && handle != 0),
{
    match platform {
        Platform::MacOs => handle != 0,
        _ => false,
    }
}

/// Narrows the object at `parent_handle` to the `NSView` a web view is embedded in.
///
/// A window yields its content view, a view yields itself. Anything else, a window
/// without content view, a zero handle, or a runtime that lacks either class is an
/// invalid handle.
pub fn appkit_ns_view_from_handle(parent_handle: u64, probe: &AppKitProbe) -> (r: Result<
    u64,
    WebViewError,
>)
    ensures
        match probe.view_for(parent_handle) {
            Some(ns_view) => r == Ok::<u64, WebViewError>(ns_view),
            None => r is Err && r->Err_0@ == ErrorModel::InvalidWindowHandle,
        },
        r is Ok ==> r->Ok_0 != 0,
{
    if parent_handle == 0 {
        return Err(WebViewError::InvalidWindowHandle);
    }
    if !probe.window_class_known || !probe.view_class_known {
        return Err(WebViewError::InvalidWindowHandle);
    }
    if probe.is_window {
        if probe.content_view == 0 {
            return Err(WebViewError::InvalidWindowHandle);
        }
        return Ok(probe.content_view);
    }
    if probe.is_view {
        return Ok(parent_handle);
    }
    Err(WebViewError::InvalidWindowHandle)
}

/// Resolves the handle a host toolkit supplied into a native window reference.
///
/// `inspect` is the platform's runtime inspection; it is called at most once, only
/// on macOS and only with a non-zero handle.
pub fn raw_window_handle_from<F>(platform: Platform, parent_handle: u64, inspect: F) -> (r: Result<
    NativeWindowRef,
    WebViewError,
>) where F: FnOnce(u64) -> AppKitProbe
    requires
        platform == Platform::MacOs && parent_handle != 0 ==> inspect.requires((parent_handle,)),
    ensures
        platform == Platform::MacOs && parent_handle != 0 ==> exists|probe: AppKitProbe|
            inspect.ensures((parent_handle,), probe) && resolved_view(r) == resolution(
                platform,
                parent_handle,
                probe,
            ),
        !(platform == Platform::MacOs && parent_handle != 0) ==> forall|probe: AppKitProbe|
            resolved_view(r) == resolution(platform, parent_handle, probe),
        r is Ok ==> r->Ok_0.wf(),
{
    let probe = if needs_inspection(platform, parent_handle) {
        inspect(parent_handle)
    } else {
        AppKitProbe::unexamined()
    };
    resolve_inspected(platform, parent_handle, &probe)
}

/// Resolves a handle once the report of runtime inspection is at hand.
pub fn resolve_inspected(platform: Platform, parent_handle: u64, probe: &AppKitProbe) -> (r: Result<
    NativeWindowRef,
    WebViewError,
>)
    ensures
        resolved_view(r) == resolution(platform, parent_handle, *probe),
        r is Ok ==> r->Ok_0.wf(),
{
    if parent_handle == 0 {
        return Err(WebViewError::InvalidWindowHandle);
    }
    match platform {
        Platform::Windows => {
            let hwnd: isize = #[verifier::truncate] (parent_handle as isize);
            if hwnd == 0 {
                Err(WebViewError::InvalidWindowHandle)
            } else {
                Ok(NativeWindowRef::Win32 { hwnd })
            }
        },
        Platform::MacOs => {
            match appkit_ns_view_from_handle(parent_handle, probe) {
                Ok(ns_view) => Ok(NativeWindowRef::AppKit { ns_view }),
                Err(e) => Err(e),
            }
        },
        Platform::Linux => Ok(NativeWindowRef::Xlib { window: parent_handle }),
        Platform::Other => Err(WebViewError::UnsupportedPlatform),
    }
}

/// A zero handle is refused on every platform, whatever inspection reports.
pub proof fn lemma_zero_handle_is_invalid(platform: Platform, probe: AppKitProbe)
    ensures
        resolution(platform, 0, probe) == Err::<NativeWindowRef, ErrorModel>(
            ErrorModel::InvalidWindowHandle,
        ),
{
}

/// A non-zero handle resolves exactly when its platform can embed in it: on
/// macOS when inspection recognised a view, or a window that has a content
/// view; on Linux always; on Windows when the handle is not zero at the width
/// of a pointer; elsewhere never. It then resolves to that view, window or
/// `HWND`, and otherwise fails as an invalid handle, or as an unsupported
/// platform where there is no rule at all.
pub proof fn lemma_resolution_is_decided_by_inspection(
    platform: Platform,
    handle: u64,
    probe: AppKitProbe,
)
    requires
        handle != 0,
    ensures
        resolution(platform, handle, probe) is Ok <==> match platform {
            Platform::MacOs => probe.class_matches() && (probe.is_window ==> probe.content_view
                != 0),
            Platform::Linux => true,
            Platform::Windows => hwnd_of(handle) != 0,
            Platform::Other => false,
        },
        resolution(platform, handle, probe) is Ok ==> resolution(platform, handle, probe)->Ok_0
            == match platform {
            Platform::MacOs => NativeWindowRef::AppKit {
                ns_view: if probe.is_window {
                    probe.content_view
                } else {
                    handle
                },
            },
            Platform::Linux => NativeWindowRef::Xlib { window: handle },
            _ => NativeWindowRef::Win32 { hwnd: hwnd_of(handle) },
        },
        resolution(platform, handle, probe) is Ok ==> resolution(platform, handle, probe)->Ok_0.wf(),
        resolution(platform, handle, probe) is Err ==> resolution(platform, handle, probe)->Err_0
            == if platform == Platform::Other {
            ErrorModel::UnsupportedPlatform
        } else {
            ErrorModel::InvalidWindowHandle
        },
{
}

} // verus!
