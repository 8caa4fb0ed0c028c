//! Names and status values shared by the dictation controller, the integration layer and
//! the compatibility D-Bus interface.
use vstd::prelude::*;

verus! {

pub const COMPAT_BUS_NAME: &'static str = "io.github.saywrite.Host";

pub const COMPAT_OBJECT_PATH: &'static str = "/io/github/saywrite/Host";

pub const COMPAT_INTERFACE_NAME: &'static str = "io.github.saywrite.Host";

pub const STATE_IDLE: &'static str = "idle";

pub const STATE_LISTENING: &'static str = "listening";

pub const STATE_PROCESSING: &'static str = "processing";

pub const STATE_DONE: &'static str = "done";

pub const INSERTION_CAPABILITY_TYPING: &'static str = "typing";

pub const INSERTION_CAPABILITY_CLIPBOARD_ONLY: &'static str = "clipboard-only";

pub const INSERTION_CAPABILITY_NOTIFICATION_ONLY: &'static str = "notification-only";

pub const INSERTION_CAPABILITY_UNAVAILABLE: &'static str = "unavailable";

pub const INSERTION_RESULT_TYPED: &'static str = "typed";

pub const INSERTION_RESULT_COPIED: &'static str = "copied";

pub const INSERTION_RESULT_NOTIFIED: &'static str = "notified";

pub const INSERTION_RESULT_FAILED: &'static str = "failed";

/// What the integration reports about itself.
#[derive(Debug, Clone)]
pub struct IntegrationStatus {
    pub status: String,
    pub hotkey_active: bool,
    pub insertion_available: bool,
    pub insertion_capability: String,
    pub insertion_backend: String,
}

/// The short status the host interface reports.
#[derive(Debug, Clone)]
pub struct HostStatus {
    pub status: String,
    pub hotkey_active: bool,
    pub insertion_available: bool,
}

/// How an insertion capability is described to the user.
pub open spec fn capability_label_of(capability: Seq<char>) -> Seq<char> {
    if capability == INSERTION_CAPABILITY_TYPING@ {
        "Direct typing"@
    } else if capability == INSERTION_CAPABILITY_CLIPBOARD_ONLY@ {
        "Clipboard only"@
    } else if capability == INSERTION_CAPABILITY_NOTIFICATION_ONLY@ {
        "Notification only"@
    } else {
        "Unavailable"@
    }
}

/// How an insertion capability is described to the user.
pub fn insertion_capability_label(capability: &str) -> (r: &'static str)
    ensures
        r@ == capability_label_of(capability@),
{
    if crate::text::str_eq(capability, INSERTION_CAPABILITY_TYPING) {
        "Direct typing"
    } else if crate::text::str_eq(capability, INSERTION_CAPABILITY_CLIPBOARD_ONLY) {
        "Clipboard only"
    } else if crate::text::str_eq(capability, INSERTION_CAPABILITY_NOTIFICATION_ONLY) {
        "Notification only"
    } else {
        "Unavailable"
    }
}

/// Whether a capability types text directly into the focused app.
pub open spec fn types_directly(capability: Seq<char>) -> bool {
    capability == INSERTION_CAPABILITY_TYPING@
}

/// Whether a capability types text directly into the focused app.
pub fn supports_direct_typing(capability: &str) -> (r: bool)
    ensures
        r == types_directly(capability@),
{
    crate::text::str_eq(capability, INSERTION_CAPABILITY_TYPING)
}

/// How the result of an insertion is named to the user.
pub open spec fn result_label_of(result_kind: Seq<char>) -> Seq<char> {
    if result_kind == INSERTION_RESULT_TYPED@ {
        "Typed"@
    } else if result_kind == INSERTION_RESULT_COPIED@ {
        "Copied"@
    } else if result_kind == INSERTION_RESULT_NOTIFIED@ {
        "Shown"@
    } else if result_kind == INSERTION_RESULT_FAILED@ {
        "Failed"@
    } else {
        "Done"@
    }
}

/// How the result of an insertion is named to the user.
pub fn insertion_result_label(result_kind: &str) -> (r: &'static str)
    ensures
        r@ == result_label_of(result_kind@),
{
    if crate::text::str_eq(result_kind, INSERTION_RESULT_TYPED) {
        "Typed"
    } else if crate::text::str_eq(result_kind, INSERTION_RESULT_COPIED) {
        "Copied"
    } else if crate::text::str_eq(result_kind, INSERTION_RESULT_NOTIFIED) {
        "Shown"
    } else if crate::text::str_eq(result_kind, INSERTION_RESULT_FAILED) {
        "Failed"
    } else {
        "Done"
    }
}

} // verus!
