//! freedesktop notification vocabulary: urgency and priority levels, close reasons,
//! capabilities, categories, button purposes and signal names, with their wire strings.
use vstd::prelude::*;
use vstd::std_specs::convert::FromSpecImpl;
use vstd::string::StringExecFns;
use crate::text::{owned, str_eq, str_starts_with};

verus! {

/// The urgency level of a notification.
#[derive(Debug, Clone, Copy, PartialEq, Eq, Hash, Structural)]
pub enum Urgency {
    /// Low urgency. Server implementations may display the notification how they choose.
    Low,
    /// Normal urgency. Server implementations may display the notification how they choose.
    Normal,
    /// Critical urgency. Critical notifications do not automatically expire; they are closed
    /// only when the user dismisses them.
    Critical,
}

/// The urgency a freedesktop `urgency` byte denotes (unknown values are normal).
pub open spec fn urgency_of(value: u8) -> Urgency {
    if value == 0 {
        Urgency::Low
    } else if value == 2 {
        Urgency::Critical
    } else {
        Urgency::Normal
    }
}

impl From<u8> for Urgency {
    fn from(value: u8) -> (r: Self) {
        match value {
            0 => Urgency::Low,
            2 => Urgency::Critical,
            _ => Urgency::Normal,
        }
    }
}

impl FromSpecImpl<u8> for Urgency {
    open spec fn obeys_from_spec() -> bool {
        true
    }

    open spec fn from_spec(v: u8) -> Urgency {
        urgency_of(v)
    }
}

/// The priority of a notification on the 4-level scale shared by `GNotification` and the
/// XDG Desktop Portal. The freedesktop spec has only three urgencies and cannot express
/// `High`; [`Urgency`] is the freedesktop-compatible 3-level projection.
#[derive(Debug, Clone, Copy, PartialEq, Eq, Hash, Structural)]
pub enum Priority {
    /// Low priority.
    Low,
    /// Normal priority. The default when unspecified.
    Normal,
    /// High priority: above normal, below urgent. Projects to [`Urgency::Normal`].
    High,
    /// Urgent priority. Urgent notifications do not automatically expire.
    Urgent,
}

/// The numeric level of a priority (`Low` = 0 … `Urgent` = 3).
pub open spec fn priority_level(p: Priority) -> u8 {
    match p {
        Priority::Low => 0,
        Priority::Normal => 1,
        Priority::High => 2,
        Priority::Urgent => 3,
    }
}

/// The priority a level byte denotes (unknown values are normal).
pub open spec fn priority_of_level(value: u8) -> Priority {
    if value == 0 {
        Priority::Low
    } else if value == 2 {
        Priority::High
    } else if value == 3 {
        Priority::Urgent
    } else {
        Priority::Normal
    }
}

/// Lifts a freedesktop urgency onto the 4-level scale (`Critical` becomes `Urgent`).
pub open spec fn priority_of_urgency(u: Urgency) -> Priority {
    match u {
        Urgency::Low => Priority::Low,
        Urgency::Normal => Priority::Normal,
        Urgency::Critical => Priority::Urgent,
    }
}

/// Projects a priority onto the freedesktop urgency scale (`High` collapses to `Normal`).
pub open spec fn urgency_of_priority(p: Priority) -> Urgency {
    match p {
        Priority::Low => Urgency::Low,
        Priority::Normal | Priority::High => Urgency::Normal,
        Priority::Urgent => Urgency::Critical,
    }
}

/// The priority a `GNotification` / portal priority string names.
pub open spec fn priority_of_str(s: Seq<char>) -> Priority {
    if s == "low"@ {
        Priority::Low
    } else if s == "high"@ {
        Priority::High
    } else if s == "urgent"@ {
        Priority::Urgent
    } else {
        Priority::Normal
    }
}

impl Priority {
    /// The numeric level of this priority (`Low` = 0 … `Urgent` = 3).
    pub fn level(self) -> (r: u8)
        ensures
            r == priority_level(self),
    {
        match self {
            Priority::Low => 0,
            Priority::Normal => 1,
            Priority::High => 2,
            Priority::Urgent => 3,
        }
    }

    /// Parses a `GNotification` / portal priority string (`low`, `normal`, `high`,
    /// `urgent`). Unknown values fall back to `Normal`.
    pub fn parse(s: &str) -> (r: Priority)
        ensures
            r == priority_of_str(s@),
    {
        if str_eq(s, "low") {
            Priority::Low
        } else if str_eq(s, "high") {
            Priority::High
        } else if str_eq(s, "urgent") {
            Priority::Urgent
        } else {
            Priority::Normal
        }
    }
}

impl Default for Priority {
    fn default() -> (r: Priority)
        ensures
            r == Priority::Normal,
    {
        Priority::Normal
    }
}

impl From<u8> for Priority {
    fn from(value: u8) -> (r: Self) {
        match value {
            0 => Priority::Low,
            2 => Priority::High,
            3 => Priority::Urgent,
            _ => Priority::Normal,
        }
    }
}

impl FromSpecImpl<u8> for Priority {
    open spec fn obeys_from_spec() -> bool {
        true
    }

    open spec fn from_spec(v: u8) -> Priority {
        priority_of_level(v)
    }
}

impl From<Urgency> for Priority {
    /// Lifts a freedesktop urgency onto the 4-level scale: `Critical` maps to `Urgent`.
    fn from(urgency: Urgency) -> (r: Self) {
        match urgency {
            Urgency::Low => Priority::Low,
            Urgency::Normal => Priority::Normal,
            Urgency::Critical => Priority::Urgent,
        }
    }
}

impl FromSpecImpl<Urgency> for Priority {
    open spec fn obeys_from_spec() -> bool {
        true
    }

    open spec fn from_spec(v: Urgency) -> Priority {
        priority_of_urgency(v)
    }
}

impl From<Priority> for Urgency {
    /// Projects the 4-level priority back onto the freedesktop urgency scale: `High`
    /// collapses to `Normal`.
    fn from(priority: Priority) -> (r: Self) {
        match priority {
            Priority::Low => Urgency::Low,
            Priority::Normal | Priority::High => Urgency::Normal,
            Priority::Urgent => Urgency::Critical,
        }
    }
}

impl FromSpecImpl<Priority> for Urgency {
    open spec fn obeys_from_spec() -> bool {
        true
    }

    open spec fn from_spec(v: Priority) -> Urgency {
        urgency_of_priority(v)
    }
}

/// The reason a notification was closed.
#[derive(Debug, Clone, Copy, PartialEq, Eq, Hash, Structural)]
pub enum ClosedReason {
    /// The notification expired.
    Expired,
    /// The notification was dismissed by the user.
    DismissedByUser,
    /// The notification was closed by a call to CloseNotification.
    Closed,
    /// Undefined/reserved reasons.
    Unknown,
}

/// The close reason a freedesktop reason code denotes.
pub open spec fn closed_reason_of(value: u32) -> ClosedReason {
    if value == 1 {
        ClosedReason::Expired
    } else if value == 2 {
        ClosedReason::DismissedByUser
    } else if value == 3 {
        ClosedReason::Closed
    } else {
        ClosedReason::Unknown
    }
}

/// The freedesktop code of a close reason.
pub open spec fn closed_reason_code(r: ClosedReason) -> u32 {
    match r {
        ClosedReason::Expired => 1,
        ClosedReason::DismissedByUser => 2,
        ClosedReason::Closed => 3,
        ClosedReason::Unknown => 4,
    }
}

impl ClosedReason {
    /// The freedesktop `NotificationClosed` reason code.
    pub fn code(self) -> (r: u32)
        ensures
            r == closed_reason_code(self),
    {
        match self {
            ClosedReason::Expired => 1,
            ClosedReason::DismissedByUser => 2,
            ClosedReason::Closed => 3,
            ClosedReason::Unknown => 4,
        }
    }
}

impl From<u32> for ClosedReason {
    fn from(value: u32) -> (r: Self) {
        match value {
            1 => ClosedReason::Expired,
            2 => ClosedReason::DismissedByUser,
            3 => ClosedReason::Closed,
            _ => ClosedReason::Unknown,
        }
    }
}

impl FromSpecImpl<u32> for ClosedReason {
    open spec fn obeys_from_spec() -> bool {
        true
    }

    open spec fn from_spec(v: u32) -> ClosedReason {
        closed_reason_of(v)
    }
}

/// The form an unknown capability or category string is kept in: `x-` names verbatim,
/// anything else behind an `x-unknown-` prefix.
pub open spec fn vendor_string(s: Seq<char>) -> Seq<char> {
    if "x-"@.is_prefix_of(s) {
        s
    } else {
        "x-unknown-"@ + s
    }
}

/// Server capabilities as defined in the specification.
#[derive(Debug, Clone, PartialEq, Eq, Hash)]
pub enum Capabilities {
    /// Supports using icons instead of text for displaying actions.
    ActionIcons,
    /// The server will provide the specified actions to the user.
    Actions,
    /// Supports body text.
    Body,
    /// The server supports hyperlinks in the notifications.
    BodyHyperlinks,
    /// The server supports images in the notifications.
    BodyImages,
    /// Supports markup in the body text.
    BodyMarkup,
    /// Indicates the server renders animations from all frames in a given image array.
    IconMulti,
    /// Supports display of exactly 1 frame of any given image array.
    IconStatic,
    /// Indicates the server supports persistence of notifications.
    Persistence,
    /// Indicates the server supports sounds on notifications.
    Sound,
    /// Vendor-specific capability.
    Vendor(String),
}

/// The typed `Capabilities` a wire string names, if it is one of the known strings.
pub open spec fn known_capability(s: Seq<char>) -> Option<Capabilities> {
    if s == "action-icons"@ {
        Some(Capabilities::ActionIcons)
    } else if s == "actions"@ {
        Some(Capabilities::Actions)
    } else if s == "body"@ {
        Some(Capabilities::Body)
    } else if s == "body-hyperlinks"@ {
        Some(Capabilities::BodyHyperlinks)
    } else if s == "body-images"@ {
        Some(Capabilities::BodyImages)
    } else if s == "body-markup"@ {
        Some(Capabilities::BodyMarkup)
    } else if s == "icon-multi"@ {
        Some(Capabilities::IconMulti)
    } else if s == "icon-static"@ {
        Some(Capabilities::IconStatic)
    } else if s == "persistence"@ {
        Some(Capabilities::Persistence)
    } else if s == "sound"@ {
        Some(Capabilities::Sound)
    } else {
        None
    }
}

/// The wire string of a `Capabilities`.
pub open spec fn capability_str(c: Capabilities) -> Seq<char> {
    match c {
        Capabilities::ActionIcons => "action-icons"@,
        Capabilities::Actions => "actions"@,
        Capabilities::Body => "body"@,
        Capabilities::BodyHyperlinks => "body-hyperlinks"@,
        Capabilities::BodyImages => "body-images"@,
        Capabilities::BodyMarkup => "body-markup"@,
        Capabilities::IconMulti => "icon-multi"@,
        Capabilities::IconStatic => "icon-static"@,
        Capabilities::Persistence => "persistence"@,
        Capabilities::Sound => "sound"@,
        Capabilities::Vendor(s) => s@,
    }
}

/// Standard notification categories.
#[derive(Debug, Clone, PartialEq, Eq, Hash)]
pub enum Category {
    /// A generic audio or video call notification that doesn't fit into any other category.
    Call,
    /// An audio or video call was ended.
    CallEnded,
    /// A audio or video call is incoming.
    CallIncoming,
    /// An incoming audio or video call was not answered.
    CallUnanswered,
    /// An audio or video call is ongoing (portal v2).
    CallOngoing,
    /// A generic device-related notification that doesn't fit into any other category.
    Device,
    /// A device, such as a USB device, was added to the system.
    DeviceAdded,
    /// A device had some kind of error.
    DeviceError,
    /// A device, such as a USB device, was removed from the system.
    DeviceRemoved,
    /// A generic e-mail-related notification that doesn't fit into any other category.
    Email,
    /// A new e-mail notification.
    EmailArrived,
    /// A notification stating that an e-mail has bounced.
    EmailBounced,
    /// A generic instant message-related notification that doesn't fit into any other category.
    Im,
    /// An instant message error notification.
    ImError,
    /// A received instant message notification.
    ImReceived,
    /// A generic network notification that doesn't fit into any other category.
    Network,
    /// A network connection notification, such as successful sign-on to a network service.
    NetworkConnected,
    /// A network disconnected notification.
    NetworkDisconnected,
    /// A network-related or connection-related error.
    NetworkError,
    /// A generic presence change notification that doesn't fit into any other category, such as going away or idle.
    Presence,
    /// An offline presence change notification.
    PresenceOffline,
    /// An online presence change notification.
    PresenceOnline,
    /// A generic file transfer or download notification that doesn't fit into any other category.
    Transfer,
    /// A file transfer or download complete notification.
    TransferComplete,
    /// A file transfer or download error.
    TransferError,
    /// A web notification from a browser (portal v2).
    BrowserWebNotification,
    /// A low-battery warning (portal v2).
    OsBatteryLow,
    /// An alarm is ringing (portal v2).
    AlarmRinging,
    /// An extreme weather warning (portal v2).
    WeatherWarningExtreme,
    /// A presidential-level cell-broadcast alert (portal v2).
    CellbroadcastDangerPresidential,
    /// An extreme-danger cell-broadcast alert (portal v2).
    CellbroadcastDangerExtreme,
    /// A severe-danger cell-broadcast alert (portal v2).
    CellbroadcastDangerSevere,
    /// A public-safety cell-broadcast alert (portal v2).
    CellbroadcastPublicSafety,
    /// An AMBER (child-abduction) cell-broadcast alert (portal v2).
    CellbroadcastAmberAlert,
    /// A cell-broadcast test message (portal v2).
    CellbroadcastTest,
    /// Vendor-specific category.
    Vendor(String),
}

/// The typed `Category` a wire string names, if it is one of the known strings.
pub open spec fn known_category(s: Seq<char>) -> Option<Category> {
    if s == "call"@ {
        Some(Category::Call)
    } else if s == "call.ended"@ {
        Some(Category::CallEnded)
    } else if s == "call.incoming"@ {
        Some(Category::CallIncoming)
    } else if s == "call.unanswered"@ {
        Some(Category::CallUnanswered)
    } else if s == "call.ongoing"@ {
        Some(Category::CallOngoing)
    } else if s == "device"@ {
        Some(Category::Device)
    } else if s == "device.added"@ {
        Some(Category::DeviceAdded)
    } else if s == "device.error"@ {
        Some(Category::DeviceError)
    } else if s == "device.removed"@ {
        Some(Category::DeviceRemoved)
    } else if s == "email"@ {
        Some(Category::Email)
    } else if s == "email.arrived"@ {
        Some(Category::EmailArrived)
    } else if s == "email.bounced"@ {
        Some(Category::EmailBounced)
    } else if s == "im"@ {
        Some(Category::Im)
    } else if s == "im.error"@ {
        Some(Category::ImError)
    } else if s == "im.received"@ {
        Some(Category::ImReceived)
    } else if s == "network"@ {
        Some(Category::Network)
    } else if s == "network.connected"@ {
        Some(Category::NetworkConnected)
    } else if s == "network.disconnected"@ {
        Some(Category::NetworkDisconnected)
    } else if s == "network.error"@ {
        Some(Category::NetworkError)
    } else if s == "presence"@ {
        Some(Category::Presence)
    } else if s == "presence.offline"@ {
        Some(Category::PresenceOffline)
    } else if s == "presence.online"@ {
        Some(Category::PresenceOnline)
    } else if s == "transfer"@ {
        Some(Category::Transfer)
    } else if s == "transfer.complete"@ {
        Some(Category::TransferComplete)
    } else if s == "transfer.error"@ {
        Some(Category::TransferError)
    } else if s == "browser.web-notification"@ {
        Some(Category::BrowserWebNotification)
    } else if s == "os.battery.low"@ {
        Some(Category::OsBatteryLow)
    } else if s == "alarm.ringing"@ {
        Some(Category::AlarmRinging)
    } else if s == "weather.warning.extreme"@ {
        Some(Category::WeatherWarningExtreme)
    } else if s == "cellbroadcast.danger.presidential"@ {
        Some(Category::CellbroadcastDangerPresidential)
    } else if s == "cellbroadcast.danger.extreme"@ {
        Some(Category::CellbroadcastDangerExtreme)
    } else if s == "cellbroadcast.danger.severe"@ {
        Some(Category::CellbroadcastDangerSevere)
    } else if s == "cellbroadcast.public-safety"@ {
        Some(Category::CellbroadcastPublicSafety)
    } else if s == "cellbroadcast.amber-alert"@ {
        Some(Category::CellbroadcastAmberAlert)
    } else if s == "cellbroadcast.test"@ {
        Some(Category::CellbroadcastTest)
    } else {
        None
    }
}

/// The wire string of a `Category`.
pub open spec fn category_str(c: Category) -> Seq<char> {
    match c {
        Category::Call => "call"@,
        Category::CallEnded => "call.ended"@,
        Category::CallIncoming => "call.incoming"@,
        Category::CallUnanswered => "call.unanswered"@,
        Category::CallOngoing => "call.ongoing"@,
        Category::Device => "device"@,
        Category::DeviceAdded => "device.added"@,
        Category::DeviceError => "device.error"@,
        Category::DeviceRemoved => "device.removed"@,
        Category::Email => "email"@,
        Category::EmailArrived => "email.arrived"@,
        Category::EmailBounced => "email.bounced"@,
        Category::Im => "im"@,
        Category::ImError => "im.error"@,
        Category::ImReceived => "im.received"@,
        Category::Network => "network"@,
        Category::NetworkConnected => "network.connected"@,
        Category::NetworkDisconnected => "network.disconnected"@,
        Category::NetworkError => "network.error"@,
        Category::Presence => "presence"@,
        Category::PresenceOffline => "presence.offline"@,
        Category::PresenceOnline => "presence.online"@,
        Category::Transfer => "transfer"@,
        Category::TransferComplete => "transfer.complete"@,
        Category::TransferError => "transfer.error"@,
        Category::BrowserWebNotification => "browser.web-notification"@,
        Category::OsBatteryLow => "os.battery.low"@,
        Category::AlarmRinging => "alarm.ringing"@,
        Category::WeatherWarningExtreme => "weather.warning.extreme"@,
        Category::CellbroadcastDangerPresidential => "cellbroadcast.danger.presidential"@,
        Category::CellbroadcastDangerExtreme => "cellbroadcast.danger.extreme"@,
        Category::CellbroadcastDangerSevere => "cellbroadcast.danger.severe"@,
        Category::CellbroadcastPublicSafety => "cellbroadcast.public-safety"@,
        Category::CellbroadcastAmberAlert => "cellbroadcast.amber-alert"@,
        Category::CellbroadcastTest => "cellbroadcast.test"@,
        Category::Vendor(s) => s@,
    }
}

/// The purpose of a notification button (XDG portal v2). These are the seven spec-defined
/// purposes; anything else is preserved verbatim. `im.reply-with-text` is lifted into
/// `Actions::reply` rather than shown as a button.
#[derive(Debug, Clone, PartialEq, Eq, Hash)]
pub enum ButtonPurpose {
    /// A custom system alert (e.g. an alarm or timer), defined outside the categories.
    SystemCustomAlert,
    /// An inline text reply (IM), lifted into `Actions::reply` rather than surfaced as a button.
    ImReplyWithText,
    /// Accept an incoming call.
    CallAccept,
    /// Decline an incoming call.
    CallDecline,
    /// Hang up an ongoing call.
    CallHangUp,
    /// Enable the speakerphone for an ongoing call.
    CallEnableSpeakerphone,
    /// Disable the speakerphone for an ongoing call.
    CallDisableSpeakerphone,
    /// Any other (e.g. vendor `x-*`) purpose, preserved verbatim.
    Other(String),
}

/// The typed `ButtonPurpose` a wire string names, if it is one of the known strings.
pub open spec fn known_purpose(s: Seq<char>) -> Option<ButtonPurpose> {
    if s == "system.custom-alert"@ {
        Some(ButtonPurpose::SystemCustomAlert)
    } else if s == "im.reply-with-text"@ {
        Some(ButtonPurpose::ImReplyWithText)
    } else if s == "call.accept"@ {
        Some(ButtonPurpose::CallAccept)
    } else if s == "call.decline"@ {
        Some(ButtonPurpose::CallDecline)
    } else if s == "call.hang-up"@ {
        Some(ButtonPurpose::CallHangUp)
    } else if s == "call.enable-speakerphone"@ {
        Some(ButtonPurpose::CallEnableSpeakerphone)
    } else if s == "call.disable-speakerphone"@ {
        Some(ButtonPurpose::CallDisableSpeakerphone)
    } else {
        None
    }
}

/// The wire string of a `ButtonPurpose`.
pub open spec fn purpose_str(c: ButtonPurpose) -> Seq<char> {
    match c {
        ButtonPurpose::SystemCustomAlert => "system.custom-alert"@,
        ButtonPurpose::ImReplyWithText => "im.reply-with-text"@,
        ButtonPurpose::CallAccept => "call.accept"@,
        ButtonPurpose::CallDecline => "call.decline"@,
        ButtonPurpose::CallHangUp => "call.hang-up"@,
        ButtonPurpose::CallEnableSpeakerphone => "call.enable-speakerphone"@,
        ButtonPurpose::CallDisableSpeakerphone => "call.disable-speakerphone"@,
        ButtonPurpose::Other(s) => s@,
    }
}

impl Capabilities {
    /// Parses a capability string; unknown strings become vendor capabilities (`x-` names
    /// verbatim, anything else as `x-unknown-<s>`).
    pub fn parse(s: &str) -> (r: Capabilities)
        ensures
            known_capability(s@) matches Some(c) ==> r == c,
            known_capability(s@) is None ==> (r matches Capabilities::Vendor(v) && v@ == vendor_string(s@)),
    {
        if str_eq(s, "action-icons") {
            return Capabilities::ActionIcons;
        }
        if str_eq(s, "actions") {
            return Capabilities::Actions;
        }
        if str_eq(s, "body") {
            return Capabilities::Body;
        }
        if str_eq(s, "body-hyperlinks") {
            return Capabilities::BodyHyperlinks;
        }
        if str_eq(s, "body-images") {
            return Capabilities::BodyImages;
        }
        if str_eq(s, "body-markup") {
            return Capabilities::BodyMarkup;
        }
        if str_eq(s, "icon-multi") {
            return Capabilities::IconMulti;
        }
        if str_eq(s, "icon-static") {
            return Capabilities::IconStatic;
        }
        if str_eq(s, "persistence") {
            return Capabilities::Persistence;
        }
        if str_eq(s, "sound") {
            return Capabilities::Sound;
        }
        if str_starts_with(s, "x-") {
            Capabilities::Vendor(owned(s))
        } else {
            let mut v = owned("x-unknown-");
            v.append(s);
            Capabilities::Vendor(v)
        }
    }

    /// Convert to string representation for D-Bus.
    pub fn as_str(&self) -> (r: &str)
        ensures
            r@ == capability_str(*self),
    {
        match self {
            Capabilities::ActionIcons => "action-icons",
            Capabilities::Actions => "actions",
            Capabilities::Body => "body",
            Capabilities::BodyHyperlinks => "body-hyperlinks",
            Capabilities::BodyImages => "body-images",
            Capabilities::BodyMarkup => "body-markup",
            Capabilities::IconMulti => "icon-multi",
            Capabilities::IconStatic => "icon-static",
            Capabilities::Persistence => "persistence",
            Capabilities::Sound => "sound",
            Capabilities::Vendor(s) => s.as_str(),
        }
    }
}

impl Category {
    /// Parses a category hint; unknown strings become vendor categories (`x-` names
    /// verbatim, anything else as `x-unknown-<s>`).
    pub fn parse(s: &str) -> (r: Category)
        ensures
            known_category(s@) matches Some(c) ==> r == c,
            known_category(s@) is None ==> (r matches Category::Vendor(v) && v@ == vendor_string(s@)),
    {
        if str_eq(s, "call") {
            return Category::Call;
        }
        if str_eq(s, "call.ended") {
            return Category::CallEnded;
        }
        if str_eq(s, "call.incoming") {
            return Category::CallIncoming;
        }
        if str_eq(s, "call.unanswered") {
            return Category::CallUnanswered;
        }
        if str_eq(s, "call.ongoing") {
            return Category::CallOngoing;
        }
        if str_eq(s, "device") {
            return Category::Device;
        }
        if str_eq(s, "device.added") {
            return Category::DeviceAdded;
        }
        if str_eq(s, "device.error") {
            return Category::DeviceError;
        }
        if str_eq(s, "device.removed") {
            return Category::DeviceRemoved;
        }
        if str_eq(s, "email") {
            return Category::Email;
        }
        if str_eq(s, "email.arrived") {
            return Category::EmailArrived;
        }
        if str_eq(s, "email.bounced") {
            return Category::EmailBounced;
        }
        if str_eq(s, "im") {
            return Category::Im;
        }
        if str_eq(s, "im.error") {
            return Category::ImError;
        }
        if str_eq(s, "im.received") {
            return Category::ImReceived;
        }
        if str_eq(s, "network") {
            return Category::Network;
        }
        if str_eq(s, "network.connected") {
            return Category::NetworkConnected;
        }
        if str_eq(s, "network.disconnected") {
            return Category::NetworkDisconnected;
        }
        if str_eq(s, "network.error") {
            return Category::NetworkError;
        }
        if str_eq(s, "presence") {
            return Category::Presence;
        }
        if str_eq(s, "presence.offline") {
            return Category::PresenceOffline;
        }
        if str_eq(s, "presence.online") {
            return Category::PresenceOnline;
        }
        if str_eq(s, "transfer") {
            return Category::Transfer;
        }
        if str_eq(s, "transfer.complete") {
            return Category::TransferComplete;
        }
        if str_eq(s, "transfer.error") {
            return Category::TransferError;
        }
        if str_eq(s, "browser.web-notification") {
            return Category::BrowserWebNotification;
        }
        if str_eq(s, "os.battery.low") {
            return Category::OsBatteryLow;
        }
        if str_eq(s, "alarm.ringing") {
            return Category::AlarmRinging;
        }
        if str_eq(s, "weather.warning.extreme") {
            return Category::WeatherWarningExtreme;
        }
        if str_eq(s, "cellbroadcast.danger.presidential") {
            return Category::CellbroadcastDangerPresidential;
        }
        if str_eq(s, "cellbroadcast.danger.extreme") {
            return Category::CellbroadcastDangerExtreme;
        }
        if str_eq(s, "cellbroadcast.danger.severe") {
            return Category::CellbroadcastDangerSevere;
        }
        if str_eq(s, "cellbroadcast.public-safety") {
            return Category::CellbroadcastPublicSafety;
        }
        if str_eq(s, "cellbroadcast.amber-alert") {
            return Category::CellbroadcastAmberAlert;
        }
        if str_eq(s, "cellbroadcast.test") {
            return Category::CellbroadcastTest;
        }
        if str_starts_with(s, "x-") {
            Category::Vendor(owned(s))
        } else {
            let mut v = owned("x-unknown-");
            v.append(s);
            Category::Vendor(v)
        }
    }

    /// Convert to string representation for hints.
    pub fn as_str(&self) -> (r: &str)
        ensures
            r@ == category_str(*self),
    {
        match self {
            Category::Call => "call",
            Category::CallEnded => "call.ended",
            Category::CallIncoming => "call.incoming",
            Category::CallUnanswered => "call.unanswered",
            Category::CallOngoing => "call.ongoing",
            Category::Device => "device",
            Category::DeviceAdded => "device.added",
            Category::DeviceError => "device.error",
            Category::DeviceRemoved => "device.removed",
            Category::Email => "email",
            Category::EmailArrived => "email.arrived",
            Category::EmailBounced => "email.bounced",
            Category::Im => "im",
            Category::ImError => "im.error",
            Category::ImReceived => "im.received",
            Category::Network => "network",
            Category::NetworkConnected => "network.connected",
            Category::NetworkDisconnected => "network.disconnected",
            Category::NetworkError => "network.error",
            Category::Presence => "presence",
            Category::PresenceOffline => "presence.offline",
            Category::PresenceOnline => "presence.online",
            Category::Transfer => "transfer",
            Category::TransferComplete => "transfer.complete",
            Category::TransferError => "transfer.error",
            Category::BrowserWebNotification => "browser.web-notification",
            Category::OsBatteryLow => "os.battery.low",
            Category::AlarmRinging => "alarm.ringing",
            Category::WeatherWarningExtreme => "weather.warning.extreme",
            Category::CellbroadcastDangerPresidential => "cellbroadcast.danger.presidential",
            Category::CellbroadcastDangerExtreme => "cellbroadcast.danger.extreme",
            Category::CellbroadcastDangerSevere => "cellbroadcast.danger.severe",
            Category::CellbroadcastPublicSafety => "cellbroadcast.public-safety",
            Category::CellbroadcastAmberAlert => "cellbroadcast.amber-alert",
            Category::CellbroadcastTest => "cellbroadcast.test",
            Category::Vendor(s) => s.as_str(),
        }
    }
}

impl ButtonPurpose {
    /// Parses a button purpose; anything unknown is kept verbatim.
    pub fn parse(s: &str) -> (r: ButtonPurpose)
        ensures
            known_purpose(s@) matches Some(c) ==> r == c,
            known_purpose(s@) is None ==> (r matches ButtonPurpose::Other(v) && v@ == s@),
    {
        if str_eq(s, "system.custom-alert") {
            return ButtonPurpose::SystemCustomAlert;
        }
        if str_eq(s, "im.reply-with-text") {
            return ButtonPurpose::ImReplyWithText;
        }
        if str_eq(s, "call.accept") {
            return ButtonPurpose::CallAccept;
        }
        if str_eq(s, "call.decline") {
            return ButtonPurpose::CallDecline;
        }
        if str_eq(s, "call.hang-up") {
            return ButtonPurpose::CallHangUp;
        }
        if str_eq(s, "call.enable-speakerphone") {
            return ButtonPurpose::CallEnableSpeakerphone;
        }
        if str_eq(s, "call.disable-speakerphone") {
            return ButtonPurpose::CallDisableSpeakerphone;
        }
        ButtonPurpose::Other(owned(s))
    }

    /// The purpose's string form.
    pub fn as_str(&self) -> (r: &str)
        ensures
            r@ == purpose_str(*self),
    {
        match self {
            ButtonPurpose::SystemCustomAlert => "system.custom-alert",
            ButtonPurpose::ImReplyWithText => "im.reply-with-text",
            ButtonPurpose::CallAccept => "call.accept",
            ButtonPurpose::CallDecline => "call.decline",
            ButtonPurpose::CallHangUp => "call.hang-up",
            ButtonPurpose::CallEnableSpeakerphone => "call.enable-speakerphone",
            ButtonPurpose::CallDisableSpeakerphone => "call.disable-speakerphone",
            ButtonPurpose::Other(s) => s.as_str(),
        }
    }
}

/// The category strings this server recognizes as typed variants, advertised so a frontend
/// does not down-convert categories it cannot confirm are handled.
pub const KNOWN_CATEGORIES: [&'static str; 35] = [
        "call",
        "call.ended",
        "call.incoming",
        "call.unanswered",
        "call.ongoing",
        "device",
        "device.added",
        "device.error",
        "device.removed",
        "email",
        "email.arrived",
        "email.bounced",
        "im",
        "im.error",
        "im.received",
        "network",
        "network.connected",
        "network.disconnected",
        "network.error",
        "presence",
        "presence.offline",
        "presence.online",
        "transfer",
        "transfer.complete",
        "transfer.error",
        "browser.web-notification",
        "os.battery.low",
        "alarm.ringing",
        "weather.warning.extreme",
        "cellbroadcast.danger.presidential",
        "cellbroadcast.danger.extreme",
        "cellbroadcast.danger.severe",
        "cellbroadcast.public-safety",
        "cellbroadcast.amber-alert",
        "cellbroadcast.test",
];

/// The category taxonomy of `org.freedesktop.portal.Notification` v2, which the portal
/// backend advertises via `SupportedOptions["category"]`.
pub const PORTAL_CATEGORIES: [&'static str; 14] = [
        "im.received",
        "alarm.ringing",
        "call.incoming",
        "call.ongoing",
        "call.unanswered",
        "weather.warning.extreme",
        "cellbroadcast.danger.presidential",
        "cellbroadcast.danger.extreme",
        "cellbroadcast.danger.severe",
        "cellbroadcast.public-safety",
        "cellbroadcast.amber-alert",
        "cellbroadcast.test",
        "os.battery.low",
        "browser.web-notification",
];

/// Signals the notification daemons emit.
#[derive(Debug, Clone, Copy, PartialEq, Eq, Structural)]
pub enum Signal {
    /// `NotificationClosed(u id, u reason)`.
    NotificationClosed,
    /// `ActionInvoked`.
    ActionInvoked,
    /// KDE inline-reply result: `NotificationReplied(u id, s text)`.
    NotificationReplied,
    /// freedesktop `ActivationToken(u id, s token)`, emitted before `ActionInvoked`.
    ActivationToken,
}

/// The D-Bus member name of a signal.
pub open spec fn signal_str(s: Signal) -> Seq<char> {
    match s {
        Signal::NotificationClosed => "NotificationClosed"@,
        Signal::ActionInvoked => "ActionInvoked"@,
        Signal::NotificationReplied => "NotificationReplied"@,
        Signal::ActivationToken => "ActivationToken"@,
    }
}

impl Signal {
    /// The D-Bus member name of this signal.
    pub fn as_str(&self) -> (r: &'static str)
        ensures
            r@ == signal_str(*self),
    {
        match self {
            Signal::NotificationClosed => "NotificationClosed",
            Signal::ActionInvoked => "ActionInvoked",
            Signal::NotificationReplied => "NotificationReplied",
            Signal::ActivationToken => "ActivationToken",
        }
    }
}

/// Every level byte names the priority that has that level: `from(p as u8) == p`.
pub proof fn law_priority_level_round_trip(p: Priority)
    ensures
        priority_of_level(priority_level(p)) == p,
{
}

/// Lifting an urgency to a priority and projecting it back gives the urgency again.
pub proof fn law_urgency_priority_round_trip(u: Urgency)
    ensures
        urgency_of_priority(priority_of_urgency(u)) == u,
{
}

/// No urgency lifts to `High`: the freedesktop scale cannot express it.
pub proof fn law_urgency_never_lifts_to_high(u: Urgency)
    ensures
        priority_of_urgency(u) != Priority::High,
{
}

/// Every close-reason code read back gives the reason it encodes.
pub proof fn law_closed_reason_round_trip(r: ClosedReason)
    ensures
        closed_reason_of(closed_reason_code(r)) == r,
{
}

/// Every known category string parses to a typed (non-vendor) category whose wire string
/// is that string again.
pub proof fn law_known_category_round_trip(c: Category)
    requires
        !(c is Vendor),
    ensures
        known_category(category_str(c)) == Some(c),
{
    match c {
        Category::Call => {
            reveal_strlit("call");
            assert("call"@.len() == 4);
        },
        Category::CallEnded => {
            reveal_strlit("call.ended");
            assert("call.ended"@.len() == 10);
            reveal_strlit("call");
            assert("call"@.len() == 4);
        },
        Category::CallIncoming => {
            reveal_strlit("call.incoming");
            assert("call.incoming"@.len() == 13);
            reveal_strlit("call");
            assert("call"@.len() == 4);
            reveal_strlit("call.ended");
            assert("call.ended"@.len() == 10);
        },
        Category::CallUnanswered => {
            reveal_strlit("call.unanswered");
            assert("call.unanswered"@.len() == 15);
            reveal_strlit("call");
            assert("call"@.len() == 4);
            reveal_strlit("call.ended");
            assert("call.ended"@.len() == 10);
            reveal_strlit("call.incoming");
            assert("call.incoming"@.len() == 13);
        },
        Category::CallOngoing => {
            reveal_strlit("call.ongoing");
            assert("call.ongoing"@.len() == 12);
            reveal_strlit("call");
            assert("call"@.len() == 4);
            reveal_strlit("call.ended");
            assert("call.ended"@.len() == 10);
            reveal_strlit("call.incoming");
            assert("call.incoming"@.len() == 13);
            reveal_strlit("call.unanswered");
            assert("call.unanswered"@.len() == 15);
        },
        Category::Device => {
            reveal_strlit("device");
            assert("device"@.len() == 6);
            reveal_strlit("call");
            assert("call"@.len() == 4);
            reveal_strlit("call.ended");
            assert("call.ended"@.len() == 10);
            reveal_strlit("call.incoming");
            assert("call.incoming"@.len() == 13);
            reveal_strlit("call.unanswered");
            assert("call.unanswered"@.len() == 15);
            reveal_strlit("call.ongoing");
            assert("call.ongoing"@.len() == 12);
        },
        Category::DeviceAdded => {
            reveal_strlit("device.added");
            assert("device.added"@.len() == 12);
            reveal_strlit("call");
            assert("call"@.len() == 4);
            reveal_strlit("call.ended");
            assert("call.ended"@.len() == 10);
            reveal_strlit("call.incoming");
            assert("call.incoming"@.len() == 13);
            reveal_strlit("call.unanswered");
            assert("call.unanswered"@.len() == 15);
            reveal_strlit("call.ongoing");
            assert("call.ongoing"@.len() == 12);
            assert("device.added"@[0] != "call.ongoing"@[0]);
            reveal_strlit("device");
            assert("device"@.len() == 6);
        },
        Category::DeviceError => {
            reveal_strlit("device.error");
            assert("device.error"@.len() == 12);
            reveal_strlit("call");
            assert("call"@.len() == 4);
            reveal_strlit("call.ended");
            assert("call.ended"@.len() == 10);
            reveal_strlit("call.incoming");
            assert("call.incoming"@.len() == 13);
            reveal_strlit("call.unanswered");
            assert("call.unanswered"@.len() == 15);
            reveal_strlit("call.ongoing");
            assert("call.ongoing"@.len() == 12);
            assert("device.error"@[0] != "call.ongoing"@[0]);
            reveal_strlit("device");
            assert("device"@.len() == 6);
            reveal_strlit("device.added");
            assert("device.added"@.len() == 12);
            assert("device.error"@[7] != "device.added"@[7]);
        },
        Category::DeviceRemoved => {
            reveal_strlit("device.removed");
            assert("device.removed"@.len() == 14);
            reveal_strlit("call");
            assert("call"@.len() == 4);
            reveal_strlit("call.ended");
            assert("call.ended"@.len() == 10);
            reveal_strlit("call.incoming");
            assert("call.incoming"@.len() == 13);
            reveal_strlit("call.unanswered");
            assert("call.unanswered"@.len() == 15);
            reveal_strlit("call.ongoing");
            assert("call.ongoing"@.len() == 12);
            reveal_strlit("device");
            assert("device"@.len() == 6);
            reveal_strlit("device.added");
            assert("device.added"@.len() == 12);
            reveal_strlit("device.error");
            assert("device.error"@.len() == 12);
        },
        Category::Email => {
            reveal_strlit("email");
            assert("email"@.len() == 5);
            reveal_strlit("call");
            assert("call"@.len() == 4);
            reveal_strlit("call.ended");
            assert("call.ended"@.len() == 10);
            reveal_strlit("call.incoming");
            assert("call.incoming"@.len() == 13);
            reveal_strlit("call.unanswered");
            assert("call.unanswered"@.len() == 15);
            reveal_strlit("call.ongoing");
            assert("call.ongoing"@.len() == 12);
            reveal_strlit("device");
            assert("device"@.len() == 6);
            reveal_strlit("device.added");
            assert("device.added"@.len() == 12);
            reveal_strlit("device.error");
            assert("device.error"@.len() == 12);
            reveal_strlit("device.removed");
            assert("device.removed"@.len() == 14);
        },
        Category::EmailArrived => {
            reveal_strlit("email.arrived");
            assert("email.arrived"@.len() == 13);
            reveal_strlit("call");
            assert("call"@.len() == 4);
            reveal_strlit("call.ended");
            assert("call.ended"@.len() == 10);
            reveal_strlit("call.incoming");
            assert("call.incoming"@.len() == 13);
            assert("email.arrived"@[0] != "call.incoming"@[0]);
            reveal_strlit("call.unanswered");
            assert("call.unanswered"@.len() == 15);
            reveal_strlit("call.ongoing");
            assert("call.ongoing"@.len() == 12);
            reveal_strlit("device");
            assert("device"@.len() == 6);
            reveal_strlit("device.added");
            assert("device.added"@.len() == 12);
            reveal_strlit("device.error");
            assert("device.error"@.len() == 12);
            reveal_strlit("device.removed");
            assert("device.removed"@.len() == 14);
            reveal_strlit("email");
            assert("email"@.len() == 5);
        },
        Category::EmailBounced => {
            reveal_strlit("email.bounced");
            assert("email.bounced"@.len() == 13);
            reveal_strlit("call");
            assert("call"@.len() == 4);
            reveal_strlit("call.ended");
            assert("call.ended"@.len() == 10);
            reveal_strlit("call.incoming");
            assert("call.incoming"@.len() == 13);
            assert("email.bounced"@[0] != "call.incoming"@[0]);
            reveal_strlit("call.unanswered");
            assert("call.unanswered"@.len() == 15);
            reveal_strlit("call.ongoing");
            assert("call.ongoing"@.len() == 12);
            reveal_strlit("device");
            assert("device"@.len() == 6);
            reveal_strlit("device.added");
            assert("device.added"@.len() == 12);
            reveal_strlit("device.error");
            assert("device.error"@.len() == 12);
            reveal_strlit("device.removed");
            assert("device.removed"@.len() == 14);
            reveal_strlit("email");
            assert("email"@.len() == 5);
            reveal_strlit("email.arrived");
            assert("email.arrived"@.len() == 13);
            assert("email.bounced"@[6] != "email.arrived"@[6]);
        },
        Category::Im => {
            reveal_strlit("im");
            assert("im"@.len() == 2);
            reveal_strlit("call");
            assert("call"@.len() == 4);
            reveal_strlit("call.ended");
            assert("call.ended"@.len() == 10);
            reveal_strlit("call.incoming");
            assert("call.incoming"@.len() == 13);
            reveal_strlit("call.unanswered");
            assert("call.unanswered"@.len() == 15);
            reveal_strlit("call.ongoing");
            assert("call.ongoing"@.len() == 12);
            reveal_strlit("device");
            assert("device"@.len() == 6);
            reveal_strlit("device.added");
            assert("device.added"@.len() == 12);
            reveal_strlit("device.error");
            assert("device.error"@.len() == 12);
            reveal_strlit("device.removed");
            assert("device.removed"@.len() == 14);
            reveal_strlit("email");
            assert("email"@.len() == 5);
            reveal_strlit("email.arrived");
            assert("email.arrived"@.len() == 13);
            reveal_strlit("email.bounced");
            assert("email.bounced"@.len() == 13);
        },
        Category::ImError => {
            reveal_strlit("im.error");
            assert("im.error"@.len() == 8);
            reveal_strlit("call");
            assert("call"@.len() == 4);
            reveal_strlit("call.ended");
            assert("call.ended"@.len() == 10);
            reveal_strlit("call.incoming");
            assert("call.incoming"@.len() == 13);
            reveal_strlit("call.unanswered");
            assert("call.unanswered"@.len() == 15);
            reveal_strlit("call.ongoing");
            assert("call.ongoing"@.len() == 12);
            reveal_strlit("device");
            assert("device"@.len() == 6);
            reveal_strlit("device.added");
            assert("device.added"@.len() == 12);
            reveal_strlit("device.error");
            assert("device.error"@.len() == 12);
            reveal_strlit("device.removed");
            assert("device.removed"@.len() == 14);
            reveal_strlit("email");
            assert("email"@.len() == 5);
            reveal_strlit("email.arrived");
            assert("email.arrived"@.len() == 13);
            reveal_strlit("email.bounced");
            assert("email.bounced"@.len() == 13);
            reveal_strlit("im");
            assert("im"@.len() == 2);
        },
        Category::ImReceived => {
            reveal_strlit("im.received");
            assert("im.received"@.len() == 11);
            reveal_strlit("call");
            assert("call"@.len() == 4);
            reveal_strlit("call.ended");
            assert("call.ended"@.len() == 10);
            reveal_strlit("call.incoming");
            assert("call.incoming"@.len() == 13);
            reveal_strlit("call.unanswered");
            assert("call.unanswered"@.len() == 15);
            reveal_strlit("call.ongoing");
            assert("call.ongoing"@.len() == 12);
            reveal_strlit("device");
            assert("device"@.len() == 6);
            reveal_strlit("device.added");
            assert("device.added"@.len() == 12);
            reveal_strlit("device.error");
            assert("device.error"@.len() == 12);
            reveal_strlit("device.removed");
            assert("device.removed"@.len() == 14);
            reveal_strlit("email");
            assert("email"@.len() == 5);
            reveal_strlit("email.arrived");
            assert("email.arrived"@.len() == 13);
            reveal_strlit("email.bounced");
            assert("email.bounced"@.len() == 13);
            reveal_strlit("im");
            assert("im"@.len() == 2);
            reveal_strlit("im.error");
            assert("im.error"@.len() == 8);
        },
        Category::Network => {
            reveal_strlit("network");
            assert("network"@.len() == 7);
            reveal_strlit("call");
            assert("call"@.len() == 4);
            reveal_strlit("call.ended");
            assert("call.ended"@.len() == 10);
            reveal_strlit("call.incoming");
            assert("call.incoming"@.len() == 13);
            reveal_strlit("call.unanswered");
            assert("call.unanswered"@.len() == 15);
            reveal_strlit("call.ongoing");
            assert("call.ongoing"@.len() == 12);
            reveal_strlit("device");
            assert("device"@.len() == 6);
            reveal_strlit("device.added");
            assert("device.added"@.len() == 12);
            reveal_strlit("device.error");
            assert("device.error"@.len() == 12);
            reveal_strlit("device.removed");
            assert("device.removed"@.len() == 14);
            reveal_strlit("email");
            assert("email"@.len() == 5);
            reveal_strlit("email.arrived");
            assert("email.arrived"@.len() == 13);
            reveal_strlit("email.bounced");
            assert("email.bounced"@.len() == 13);
            reveal_strlit("im");
            assert("im"@.len() == 2);
            reveal_strlit("im.error");
            assert("im.error"@.len() == 8);
            reveal_strlit("im.received");
            assert("im.received"@.len() == 11);
        },
        Category::NetworkConnected => {
            reveal_strlit("network.connected");
            assert("network.connected"@.len() == 17);
            reveal_strlit("call");
            assert("call"@.len() == 4);
            reveal_strlit("call.ended");
            assert("call.ended"@.len() == 10);
            reveal_strlit("call.incoming");
            assert("call.incoming"@.len() == 13);
            reveal_strlit("call.unanswered");
            assert("call.unanswered"@.len() == 15);
            reveal_strlit("call.ongoing");
            assert("call.ongoing"@.len() == 12);
            reveal_strlit("device");
            assert("device"@.len() == 6);
            reveal_strlit("device.added");
            assert("device.added"@.len() == 12);
            reveal_strlit("device.error");
            assert("device.error"@.len() == 12);
            reveal_strlit("device.removed");
            assert("device.removed"@.len() == 14);
            reveal_strlit("email");
            assert("email"@.len() == 5);
            reveal_strlit("email.arrived");
            assert("email.arrived"@.len() == 13);
            reveal_strlit("email.bounced");
            assert("email.bounced"@.len() == 13);
            reveal_strlit("im");
            assert("im"@.len() == 2);
            reveal_strlit("im.error");
            assert("im.error"@.len() == 8);
            reveal_strlit("im.received");
            assert("im.received"@.len() == 11);
            reveal_strlit("network");
            assert("network"@.len() == 7);
        },
        Category::NetworkDisconnected => {
            reveal_strlit("network.disconnected");
            assert("network.disconnected"@.len() == 20);
            reveal_strlit("call");
            assert("call"@.len() == 4);
            reveal_strlit("call.ended");
            assert("call.ended"@.len() == 10);
            reveal_strlit("call.incoming");
            assert("call.incoming"@.len() == 13);
            reveal_strlit("call.unanswered");
            assert("call.unanswered"@.len() == 15);
            reveal_strlit("call.ongoing");
            assert("call.ongoing"@.len() == 12);
            reveal_strlit("device");
            assert("device"@.len() == 6);
            reveal_strlit("device.added");
            assert("device.added"@.len() == 12);
            reveal_strlit("device.error");
            assert("device.error"@.len() == 12);
            reveal_strlit("device.removed");
            assert("device.removed"@.len() == 14);
            reveal_strlit("email");
            assert("email"@.len() == 5);
            reveal_strlit("email.arrived");
            assert("email.arrived"@.len() == 13);
            reveal_strlit("email.bounced");
            assert("email.bounced"@.len() == 13);
            reveal_strlit("im");
            assert("im"@.len() == 2);
            reveal_strlit("im.error");
            assert("im.error"@.len() == 8);
            reveal_strlit("im.received");
            assert("im.received"@.len() == 11);
            reveal_strlit("network");
            assert("network"@.len() == 7);
            reveal_strlit("network.connected");
            assert("network.connected"@.len() == 17);
        },
        Category::NetworkError => {
            reveal_strlit("network.error");
            assert("network.error"@.len() == 13);
            reveal_strlit("call");
            assert("call"@.len() == 4);
            reveal_strlit("call.ended");
            assert("call.ended"@.len() == 10);
            reveal_strlit("call.incoming");
            assert("call.incoming"@.len() == 13);
            assert("network.error"@[0] != "call.incoming"@[0]);
            reveal_strlit("call.unanswered");
            assert("call.unanswered"@.len() == 15);
            reveal_strlit("call.ongoing");
            assert("call.ongoing"@.len() == 12);
            reveal_strlit("device");
            assert("device"@.len() == 6);
            reveal_strlit("device.added");
            assert("device.added"@.len() == 12);
            reveal_strlit("device.error");
            assert("device.error"@.len() == 12);
            reveal_strlit("device.removed");
            assert("device.removed"@.len() == 14);
            reveal_strlit("email");
            assert("email"@.len() == 5);
            reveal_strlit("email.arrived");
            assert("email.arrived"@.len() == 13);
            assert("network.error"@[0] != "email.arrived"@[0]);
            reveal_strlit("email.bounced");
            assert("email.bounced"@.len() == 13);
            assert("network.error"@[0] != "email.bounced"@[0]);
            reveal_strlit("im");
            assert("im"@.len() == 2);
            reveal_strlit("im.error");
            assert("im.error"@.len() == 8);
            reveal_strlit("im.received");
            assert("im.received"@.len() == 11);
            reveal_strlit("network");
            assert("network"@.len() == 7);
            reveal_strlit("network.connected");
            assert("network.connected"@.len() == 17);
            reveal_strlit("network.disconnected");
            assert("network.disconnected"@.len() == 20);
        },
        Category::Presence => {
            reveal_strlit("presence");
            assert("presence"@.len() == 8);
            reveal_strlit("call");
            assert("call"@.len() == 4);
            reveal_strlit("call.ended");
            assert("call.ended"@.len() == 10);
            reveal_strlit("call.incoming");
            assert("call.incoming"@.len() == 13);
            reveal_strlit("call.unanswered");
            assert("call.unanswered"@.len() == 15);
            reveal_strlit("call.ongoing");
            assert("call.ongoing"@.len() == 12);
            reveal_strlit("device");
            assert("device"@.len() == 6);
            reveal_strlit("device.added");
            assert("device.added"@.len() == 12);
            reveal_strlit("device.error");
            assert("device.error"@.len() == 12);
            reveal_strlit("device.removed");
            assert("device.removed"@.len() == 14);
            reveal_strlit("email");
            assert("email"@.len() == 5);
            reveal_strlit("email.arrived");
            assert("email.arrived"@.len() == 13);
            reveal_strlit("email.bounced");
            assert("email.bounced"@.len() == 13);
            reveal_strlit("im");
            assert("im"@.len() == 2);
            reveal_strlit("im.error");
            assert("im.error"@.len() == 8);
            assert("presence"@[0] != "im.error"@[0]);
            reveal_strlit("im.received");
            assert("im.received"@.len() == 11);
            reveal_strlit("network");
            assert("network"@.len() == 7);
            reveal_strlit("network.connected");
            assert("network.connected"@.len() == 17);
            reveal_strlit("network.disconnected");
            assert("network.disconnected"@.len() == 20);
            reveal_strlit("network.error");
            assert("network.error"@.len() == 13);
        },
        Category::PresenceOffline => {
            reveal_strlit("presence.offline");
            assert("presence.offline"@.len() == 16);
            reveal_strlit("call");
            assert("call"@.len() == 4);
            reveal_strlit("call.ended");
            assert("call.ended"@.len() == 10);
            reveal_strlit("call.incoming");
            assert("call.incoming"@.len() == 13);
            reveal_strlit("call.unanswered");
            assert("call.unanswered"@.len() == 15);
            reveal_strlit("call.ongoing");
            assert("call.ongoing"@.len() == 12);
            reveal_strlit("device");
            assert("device"@.len() == 6);
            reveal_strlit("device.added");
            assert("device.added"@.len() == 12);
            reveal_strlit("device.error");
            assert("device.error"@.len() == 12);
            reveal_strlit("device.removed");
            assert("device.removed"@.len() == 14);
            reveal_strlit("email");
            assert("email"@.len() == 5);
            reveal_strlit("email.arrived");
            assert("email.arrived"@.len() == 13);
            reveal_strlit("email.bounced");
            assert("email.bounced"@.len() == 13);
            reveal_strlit("im");
            assert("im"@.len() == 2);
            reveal_strlit("im.error");
            assert("im.error"@.len() == 8);
            reveal_strlit("im.received");
            assert("im.received"@.len() == 11);
            reveal_strlit("network");
            assert("network"@.len() == 7);
            reveal_strlit("network.connected");
            assert("network.connected"@.len() == 17);
            reveal_strlit("network.disconnected");
            assert("network.disconnected"@.len() == 20);
            reveal_strlit("network.error");
            assert("network.error"@.len() == 13);
            reveal_strlit("presence");
            assert("presence"@.len() == 8);
        },
        Category::PresenceOnline => {
            reveal_strlit("presence.online");
            assert("presence.online"@.len() == 15);
            reveal_strlit("call");
            assert("call"@.len() == 4);
            reveal_strlit("call.ended");
            assert("call.ended"@.len() == 10);
            reveal_strlit("call.incoming");
            assert("call.incoming"@.len() == 13);
            reveal_strlit("call.unanswered");
            assert("call.unanswered"@.len() == 15);
            assert("presence.online"@[0] != "call.unanswered"@[0]);
            reveal_strlit("call.ongoing");
            assert("call.ongoing"@.len() == 12);
            reveal_strlit("device");
            assert("device"@.len() == 6);
            reveal_strlit("device.added");
            assert("device.added"@.len() == 12);
            reveal_strlit("device.error");
            assert("device.error"@.len() == 12);
            reveal_strlit("device.removed");
            assert("device.removed"@.len() == 14);
            reveal_strlit("email");
            assert("email"@.len() == 5);
            reveal_strlit("email.arrived");
            assert("email.arrived"@.len() == 13);
            reveal_strlit("email.bounced");
            assert("email.bounced"@.len() == 13);
            reveal_strlit("im");
            assert("im"@.len() == 2);
            reveal_strlit("im.error");
            assert("im.error"@.len() == 8);
            reveal_strlit("im.received");
            assert("im.received"@.len() == 11);
            reveal_strlit("network");
            assert("network"@.len() == 7);
            reveal_strlit("network.connected");
            assert("network.connected"@.len() == 17);
            reveal_strlit("network.disconnected");
            assert("network.disconnected"@.len() == 20);
            reveal_strlit("network.error");
            assert("network.error"@.len() == 13);
            reveal_strlit("presence");
            assert("presence"@.len() == 8);
            reveal_strlit("presence.offline");
            assert("presence.offline"@.len() == 16);
        },
        Category::Transfer => {
            reveal_strlit("transfer");
            assert("transfer"@.len() == 8);
            reveal_strlit("call");
            assert("call"@.len() == 4);
            reveal_strlit("call.ended");
            assert("call.ended"@.len() == 10);
            reveal_strlit("call.incoming");
            assert("call.incoming"@.len() == 13);
            reveal_strlit("call.unanswered");
            assert("call.unanswered"@.len() == 15);
            reveal_strlit("call.ongoing");
            assert("call.ongoing"@.len() == 12);
            reveal_strlit("device");
            assert("device"@.len() == 6);
            reveal_strlit("device.added");
            assert("device.added"@.len() == 12);
            reveal_strlit("device.error");
            assert("device.error"@.len() == 12);
            reveal_strlit("device.removed");
            assert("device.removed"@.len() == 14);
            reveal_strlit("email");
            assert("email"@.len() == 5);
            reveal_strlit("email.arrived");
            assert("email.arrived"@.len() == 13);
            reveal_strlit("email.bounced");
            assert("email.bounced"@.len() == 13);
            reveal_strlit("im");
            assert("im"@.len() == 2);
            reveal_strlit("im.error");
            assert("im.error"@.len() == 8);
            assert("transfer"@[0] != "im.error"@[0]);
            reveal_strlit("im.received");
            assert("im.received"@.len() == 11);
            reveal_strlit("network");
            assert("network"@.len() == 7);
            reveal_strlit("network.connected");
            assert("network.connected"@.len() == 17);
            reveal_strlit("network.disconnected");
            assert("network.disconnected"@.len() == 20);
            reveal_strlit("network.error");
            assert("network.error"@.len() == 13);
            reveal_strlit("presence");
            assert("presence"@.len() == 8);
            assert("transfer"@[0] != "presence"@[0]);
            reveal_strlit("presence.offline");
            assert("presence.offline"@.len() == 16);
            reveal_strlit("presence.online");
            assert("presence.online"@.len() == 15);
        },
        Category::TransferComplete => {
            reveal_strlit("transfer.complete");
            assert("transfer.complete"@.len() == 17);
            reveal_strlit("call");
            assert("call"@.len() == 4);
            reveal_strlit("call.ended");
            assert("call.ended"@.len() == 10);
            reveal_strlit("call.incoming");
            assert("call.incoming"@.len() == 13);
            reveal_strlit("call.unanswered");
            assert("call.unanswered"@.len() == 15);
            reveal_strlit("call.ongoing");
            assert("call.ongoing"@.len() == 12);
            reveal_strlit("device");
            assert("device"@.len() == 6);
            reveal_strlit("device.added");
            assert("device.added"@.len() == 12);
            reveal_strlit("device.error");
            assert("device.error"@.len() == 12);
            reveal_strlit("device.removed");
            assert("device.removed"@.len() == 14);
            reveal_strlit("email");
            assert("email"@.len() == 5);
            reveal_strlit("email.arrived");
            assert("email.arrived"@.len() == 13);
            reveal_strlit("email.bounced");
            assert("email.bounced"@.len() == 13);
            reveal_strlit("im");
            assert("im"@.len() == 2);
            reveal_strlit("im.error");
            assert("im.error"@.len() == 8);
            reveal_strlit("im.received");
            assert("im.received"@.len() == 11);
            reveal_strlit("network");
            assert("network"@.len() == 7);
            reveal_strlit("network.connected");
            assert("network.connected"@.len() == 17);
            assert("transfer.complete"@[0] != "network.connected"@[0]);
            reveal_strlit("network.disconnected");
            assert("network.disconnected"@.len() == 20);
            reveal_strlit("network.error");
            assert("network.error"@.len() == 13);
            reveal_strlit("presence");
            assert("presence"@.len() == 8);
            reveal_strlit("presence.offline");
            assert("presence.offline"@.len() == 16);
            reveal_strlit("presence.online");
            assert("presence.online"@.len() == 15);
            reveal_strlit("transfer");
            assert("transfer"@.len() == 8);
        },
        Category::TransferError => {
            reveal_strlit("transfer.error");
            assert("transfer.error"@.len() == 14);
            reveal_strlit("call");
            assert("call"@.len() == 4);
            reveal_strlit("call.ended");
            assert("call.ended"@.len() == 10);
            reveal_strlit("call.incoming");
            assert("call.incoming"@.len() == 13);
            reveal_strlit("call.unanswered");
            assert("call.unanswered"@.len() == 15);
            reveal_strlit("call.ongoing");
            assert("call.ongoing"@.len() == 12);
            reveal_strlit("device");
            assert("device"@.len() == 6);
            reveal_strlit("device.added");
            assert("device.added"@.len() == 12);
            reveal_strlit("device.error");
            assert("device.error"@.len() == 12);
            reveal_strlit("device.removed");
            assert("device.removed"@.len() == 14);
            assert("transfer.error"@[0] != "device.removed"@[0]);
            reveal_strlit("email");
            assert("email"@.len() == 5);
            reveal_strlit("email.arrived");
            assert("email.arrived"@.len() == 13);
            reveal_strlit("email.bounced");
            assert("email.bounced"@.len() == 13);
            reveal_strlit("im");
            assert("im"@.len() == 2);
            reveal_strlit("im.error");
            assert("im.error"@.len() == 8);
            reveal_strlit("im.received");
            assert("im.received"@.len() == 11);
            reveal_strlit("network");
            assert("network"@.len() == 7);
            reveal_strlit("network.connected");
            assert("network.connected"@.len() == 17);
            reveal_strlit("network.disconnected");
            assert("network.disconnected"@.len() == 20);
            reveal_strlit("network.error");
            assert("network.error"@.len() == 13);
            reveal_strlit("presence");
            assert("presence"@.len() == 8);
            reveal_strlit("presence.offline");
            assert("presence.offline"@.len() == 16);
            reveal_strlit("presence.online");
            assert("presence.online"@.len() == 15);
            reveal_strlit("transfer");
            assert("transfer"@.len() == 8);
            reveal_strlit("transfer.complete");
            assert("transfer.complete"@.len() == 17);
        },
        Category::BrowserWebNotification => {
            reveal_strlit("browser.web-notification");
            assert("browser.web-notification"@.len() == 24);
            reveal_strlit("call");
            assert("call"@.len() == 4);
            reveal_strlit("call.ended");
            assert("call.ended"@.len() == 10);
            reveal_strlit("call.incoming");
            assert("call.incoming"@.len() == 13);
            reveal_strlit("call.unanswered");
            assert("call.unanswered"@.len() == 15);
            reveal_strlit("call.ongoing");
            assert("call.ongoing"@.len() == 12);
            reveal_strlit("device");
            assert("device"@.len() == 6);
            reveal_strlit("device.added");
            assert("device.added"@.len() == 12);
            reveal_strlit("device.error");
            assert("device.error"@.len() == 12);
            reveal_strlit("device.removed");
            assert("device.removed"@.len() == 14);
            reveal_strlit("email");
            assert("email"@.len() == 5);
            reveal_strlit("email.arrived");
            assert("email.arrived"@.len() == 13);
            reveal_strlit("email.bounced");
            assert("email.bounced"@.len() == 13);
            reveal_strlit("im");
            assert("im"@.len() == 2);
            reveal_strlit("im.error");
            assert("im.error"@.len() == 8);
            reveal_strlit("im.received");
            assert("im.received"@.len() == 11);
            reveal_strlit("network");
            assert("network"@.len() == 7);
            reveal_strlit("network.connected");
            assert("network.connected"@.len() == 17);
            reveal_strlit("network.disconnected");
            assert("network.disconnected"@.len() == 20);
            reveal_strlit("network.error");
            assert("network.error"@.len() == 13);
            reveal_strlit("presence");
            assert("presence"@.len() == 8);
            reveal_strlit("presence.offline");
            assert("presence.offline"@.len() == 16);
            reveal_strlit("presence.online");
            assert("presence.online"@.len() == 15);
            reveal_strlit("transfer");
            assert("transfer"@.len() == 8);
            reveal_strlit("transfer.complete");
            assert("transfer.complete"@.len() == 17);
            reveal_strlit("transfer.error");
            assert("transfer.error"@.len() == 14);
        },
        Category::OsBatteryLow => {
            reveal_strlit("os.battery.low");
            assert("os.battery.low"@.len() == 14);
            reveal_strlit("call");
            assert("call"@.len() == 4);
            reveal_strlit("call.ended");
            assert("call.ended"@.len() == 10);
            reveal_strlit("call.incoming");
            assert("call.incoming"@.len() == 13);
            reveal_strlit("call.unanswered");
            assert("call.unanswered"@.len() == 15);
            reveal_strlit("call.ongoing");
            assert("call.ongoing"@.len() == 12);
            reveal_strlit("device");
            assert("device"@.len() == 6);
            reveal_strlit("device.added");
            assert("device.added"@.len() == 12);
            reveal_strlit("device.error");
            assert("device.error"@.len() == 12);
            reveal_strlit("device.removed");
            assert("device.removed"@.len() == 14);
            assert("os.battery.low"@[0] != "device.removed"@[0]);
            reveal_strlit("email");
            assert("email"@.len() == 5);
            reveal_strlit("email.arrived");
            assert("email.arrived"@.len() == 13);
            reveal_strlit("email.bounced");
            assert("email.bounced"@.len() == 13);
            reveal_strlit("im");
            assert("im"@.len() == 2);
            reveal_strlit("im.error");
            assert("im.error"@.len() == 8);
            reveal_strlit("im.received");
            assert("im.received"@.len() == 11);
            reveal_strlit("network");
            assert("network"@.len() == 7);
            reveal_strlit("network.connected");
            assert("network.connected"@.len() == 17);
            reveal_strlit("network.disconnected");
            assert("network.disconnected"@.len() == 20);
            reveal_strlit("network.error");
            assert("network.error"@.len() == 13);
            reveal_strlit("presence");
            assert("presence"@.len() == 8);
            reveal_strlit("presence.offline");
            assert("presence.offline"@.len() == 16);
            reveal_strlit("presence.online");
            assert("presence.online"@.len() == 15);
            reveal_strlit("transfer");
            assert("transfer"@.len() == 8);
            reveal_strlit("transfer.complete");
            assert("transfer.complete"@.len() == 17);
            reveal_strlit("transfer.error");
            assert("transfer.error"@.len() == 14);
            assert("os.battery.low"@[0] != "transfer.error"@[0]);
            reveal_strlit("browser.web-notification");
            assert("browser.web-notification"@.len() == 24);
        },
        Category::AlarmRinging => {
            reveal_strlit("alarm.ringing");
            assert("alarm.ringing"@.len() == 13);
            reveal_strlit("call");
            assert("call"@.len() == 4);
            reveal_strlit("call.ended");
            assert("call.ended"@.len() == 10);
            reveal_strlit("call.incoming");
            assert("call.incoming"@.len() == 13);
            assert("alarm.ringing"@[0] != "call.incoming"@[0]);
            reveal_strlit("call.unanswered");
            assert("call.unanswered"@.len() == 15);
            reveal_strlit("call.ongoing");
            assert("call.ongoing"@.len() == 12);
            reveal_strlit("device");
            assert("device"@.len() == 6);
            reveal_strlit("device.added");
            assert("device.added"@.len() == 12);
            reveal_strlit("device.error");
            assert("device.error"@.len() == 12);
            reveal_strlit("device.removed");
            assert("device.removed"@.len() == 14);
            reveal_strlit("email");
            assert("email"@.len() == 5);
            reveal_strlit("email.arrived");
            assert("email.arrived"@.len() == 13);
            assert("alarm.ringing"@[0] != "email.arrived"@[0]);
            reveal_strlit("email.bounced");
            assert("email.bounced"@.len() == 13);
            assert("alarm.ringing"@[0] != "email.bounced"@[0]);
            reveal_strlit("im");
            assert("im"@.len() == 2);
            reveal_strlit("im.error");
            assert("im.error"@.len() == 8);
            reveal_strlit("im.received");
            assert("im.received"@.len() == 11);
            reveal_strlit("network");
            assert("network"@.len() == 7);
            reveal_strlit("network.connected");
            assert("network.connected"@.len() == 17);
            reveal_strlit("network.disconnected");
            assert("network.disconnected"@.len() == 20);
            reveal_strlit("network.error");
            assert("network.error"@.len() == 13);
            assert("alarm.ringing"@[0] != "network.error"@[0]);
            reveal_strlit("presence");
            assert("presence"@.len() == 8);
            reveal_strlit("presence.offline");
            assert("presence.offline"@.len() == 16);
            reveal_strlit("presence.online");
            assert("presence.online"@.len() == 15);
            reveal_strlit("transfer");
            assert("transfer"@.len() == 8);
            reveal_strlit("transfer.complete");
            assert("transfer.complete"@.len() == 17);
            reveal_strlit("transfer.error");
            assert("transfer.error"@.len() == 14);
            reveal_strlit("browser.web-notification");
            assert("browser.web-notification"@.len() == 24);
            reveal_strlit("os.battery.low");
            assert("os.battery.low"@.len() == 14);
        },
        Category::WeatherWarningExtreme => {
            reveal_strlit("weather.warning.extreme");
            assert("weather.warning.extreme"@.len() == 23);
            reveal_strlit("call");
            assert("call"@.len() == 4);
            reveal_strlit("call.ended");
            assert("call.ended"@.len() == 10);
            reveal_strlit("call.incoming");
            assert("call.incoming"@.len() == 13);
            reveal_strlit("call.unanswered");
            assert("call.unanswered"@.len() == 15);
            reveal_strlit("call.ongoing");
            assert("call.ongoing"@.len() == 12);
            reveal_strlit("device");
            assert("device"@.len() == 6);
            reveal_strlit("device.added");
            assert("device.added"@.len() == 12);
            reveal_strlit("device.error");
            assert("device.error"@.len() == 12);
            reveal_strlit("device.removed");
            assert("device.removed"@.len() == 14);
            reveal_strlit("email");
            assert("email"@.len() == 5);
            reveal_strlit("email.arrived");
            assert("email.arrived"@.len() == 13);
            reveal_strlit("email.bounced");
            assert("email.bounced"@.len() == 13);
            reveal_strlit("im");
            assert("im"@.len() == 2);
            reveal_strlit("im.error");
            assert("im.error"@.len() == 8);
            reveal_strlit("im.received");
            assert("im.received"@.len() == 11);
            reveal_strlit("network");
            assert("network"@.len() == 7);
            reveal_strlit("network.connected");
            assert("network.connected"@.len() == 17);
            reveal_strlit("network.disconnected");
            assert("network.disconnected"@.len() == 20);
            reveal_strlit("network.error");
            assert("network.error"@.len() == 13);
            reveal_strlit("presence");
            assert("presence"@.len() == 8);
            reveal_strlit("presence.offline");
            assert("presence.offline"@.len() == 16);
            reveal_strlit("presence.online");
            assert("presence.online"@.len() == 15);
            reveal_strlit("transfer");
            assert("transfer"@.len() == 8);
            reveal_strlit("transfer.complete");
            assert("transfer.complete"@.len() == 17);
            reveal_strlit("transfer.error");
            assert("transfer.error"@.len() == 14);
            reveal_strlit("browser.web-notification");
            assert("browser.web-notification"@.len() == 24);
            reveal_strlit("os.battery.low");
            assert("os.battery.low"@.len() == 14);
            reveal_strlit("alarm.ringing");
            assert("alarm.ringing"@.len() == 13);
        },
        Category::CellbroadcastDangerPresidential => {
            reveal_strlit("cellbroadcast.danger.presidential");
            assert("cellbroadcast.danger.presidential"@.len() == 33);
            reveal_strlit("call");
            assert("call"@.len() == 4);
            reveal_strlit("call.ended");
            assert("call.ended"@.len() == 10);
            reveal_strlit("call.incoming");
            assert("call.incoming"@.len() == 13);
            reveal_strlit("call.unanswered");
            assert("call.unanswered"@.len() == 15);
            reveal_strlit("call.ongoing");
            assert("call.ongoing"@.len() == 12);
            reveal_strlit("device");
            assert("device"@.len() == 6);
            reveal_strlit("device.added");
            assert("device.added"@.len() == 12);
            reveal_strlit("device.error");
            assert("device.error"@.len() == 12);
            reveal_strlit("device.removed");
            assert("device.removed"@.len() == 14);
            reveal_strlit("email");
            assert("email"@.len() == 5);
            reveal_strlit("email.arrived");
            assert("email.arrived"@.len() == 13);
            reveal_strlit("email.bounced");
            assert("email.bounced"@.len() == 13);
            reveal_strlit("im");
            assert("im"@.len() == 2);
            reveal_strlit("im.error");
            assert("im.error"@.len() == 8);
            reveal_strlit("im.received");
            assert("im.received"@.len() == 11);
            reveal_strlit("network");
            assert("network"@.len() == 7);
            reveal_strlit("network.connected");
            assert("network.connected"@.len() == 17);
            reveal_strlit("network.disconnected");
            assert("network.disconnected"@.len() == 20);
            reveal_strlit("network.error");
            assert("network.error"@.len() == 13);
            reveal_strlit("presence");
            assert("presence"@.len() == 8);
            reveal_strlit("presence.offline");
            assert("presence.offline"@.len() == 16);
            reveal_strlit("presence.online");
            assert("presence.online"@.len() == 15);
            reveal_strlit("transfer");
            assert("transfer"@.len() == 8);
            reveal_strlit("transfer.complete");
            assert("transfer.complete"@.len() == 17);
            reveal_strlit("transfer.error");
            assert("transfer.error"@.len() == 14);
            reveal_strlit("browser.web-notification");
            assert("browser.web-notification"@.len() == 24);
            reveal_strlit("os.battery.low");
            assert("os.battery.low"@.len() == 14);
            reveal_strlit("alarm.ringing");
            assert("alarm.ringing"@.len() == 13);
            reveal_strlit("weather.warning.extreme");
            assert("weather.warning.extreme"@.len() == 23);
        },
        Category::CellbroadcastDangerExtreme => {
            reveal_strlit("cellbroadcast.danger.extreme");
            assert("cellbroadcast.danger.extreme"@.len() == 28);
            reveal_strlit("call");
            assert("call"@.len() == 4);
            reveal_strlit("call.ended");
            assert("call.ended"@.len() == 10);
            reveal_strlit("call.incoming");
            assert("call.incoming"@.len() == 13);
            reveal_strlit("call.unanswered");
            assert("call.unanswered"@.len() == 15);
            reveal_strlit("call.ongoing");
            assert("call.ongoing"@.len() == 12);
            reveal_strlit("device");
            assert("device"@.len() == 6);
            reveal_strlit("device.added");
            assert("device.added"@.len() == 12);
            reveal_strlit("device.error");
            assert("device.error"@.len() == 12);
            reveal_strlit("device.removed");
            assert("device.removed"@.len() == 14);
            reveal_strlit("email");
            assert("email"@.len() == 5);
            reveal_strlit("email.arrived");
            assert("email.arrived"@.len() == 13);
            reveal_strlit("email.bounced");
            assert("email.bounced"@.len() == 13);
            reveal_strlit("im");
            assert("im"@.len() == 2);
            reveal_strlit("im.error");
            assert("im.error"@.len() == 8);
            reveal_strlit("im.received");
            assert("im.received"@.len() == 11);
            reveal_strlit("network");
            assert("network"@.len() == 7);
            reveal_strlit("network.connected");
            assert("network.connected"@.len() == 17);
            reveal_strlit("network.disconnected");
            assert("network.disconnected"@.len() == 20);
            reveal_strlit("network.error");
            assert("network.error"@.len() == 13);
            reveal_strlit("presence");
            assert("presence"@.len() == 8);
            reveal_strlit("presence.offline");
            assert("presence.offline"@.len() == 16);
            reveal_strlit("presence.online");
            assert("presence.online"@.len() == 15);
            reveal_strlit("transfer");
            assert("transfer"@.len() == 8);
            reveal_strlit("transfer.complete");
            assert("transfer.complete"@.len() == 17);
            reveal_strlit("transfer.error");
            assert("transfer.error"@.len() == 14);
            reveal_strlit("browser.web-notification");
            assert("browser.web-notification"@.len() == 24);
            reveal_strlit("os.battery.low");
            assert("os.battery.low"@.len() == 14);
            reveal_strlit("alarm.ringing");
            assert("alarm.ringing"@.len() == 13);
            reveal_strlit("weather.warning.extreme");
            assert("weather.warning.extreme"@.len() == 23);
            reveal_strlit("cellbroadcast.danger.presidential");
            assert("cellbroadcast.danger.presidential"@.len() == 33);
        },
        Category::CellbroadcastDangerSevere => {
            reveal_strlit("cellbroadcast.danger.severe");
            assert("cellbroadcast.danger.severe"@.len() == 27);
            reveal_strlit("call");
            assert("call"@.len() == 4);
            reveal_strlit("call.ended");
            assert("call.ended"@.len() == 10);
            reveal_strlit("call.incoming");
            assert("call.incoming"@.len() == 13);
            reveal_strlit("call.unanswered");
            assert("call.unanswered"@.len() == 15);
            reveal_strlit("call.ongoing");
            assert("call.ongoing"@.len() == 12);
            reveal_strlit("device");
            assert("device"@.len() == 6);
            reveal_strlit("device.added");
            assert("device.added"@.len() == 12);
            reveal_strlit("device.error");
            assert("device.error"@.len() == 12);
            reveal_strlit("device.removed");
            assert("device.removed"@.len() == 14);
            reveal_strlit("email");
            assert("email"@.len() == 5);
            reveal_strlit("email.arrived");
            assert("email.arrived"@.len() == 13);
            reveal_strlit("email.bounced");
            assert("email.bounced"@.len() == 13);
            reveal_strlit("im");
            assert("im"@.len() == 2);
            reveal_strlit("im.error");
            assert("im.error"@.len() == 8);
            reveal_strlit("im.received");
            assert("im.received"@.len() == 11);
            reveal_strlit("network");
            assert("network"@.len() == 7);
            reveal_strlit("network.connected");
            assert("network.connected"@.len() == 17);
            reveal_strlit("network.disconnected");
            assert("network.disconnected"@.len() == 20);
            reveal_strlit("network.error");
            assert("network.error"@.len() == 13);
            reveal_strlit("presence");
            assert("presence"@.len() == 8);
            reveal_strlit("presence.offline");
            assert("presence.offline"@.len() == 16);
            reveal_strlit("presence.online");
            assert("presence.online"@.len() == 15);
            reveal_strlit("transfer");
            assert("transfer"@.len() == 8);
            reveal_strlit("transfer.complete");
            assert("transfer.complete"@.len() == 17);
            reveal_strlit("transfer.error");
            assert("transfer.error"@.len() == 14);
            reveal_strlit("browser.web-notification");
            assert("browser.web-notification"@.len() == 24);
            reveal_strlit("os.battery.low");
            assert("os.battery.low"@.len() == 14);
            reveal_strlit("alarm.ringing");
            assert("alarm.ringing"@.len() == 13);
            reveal_strlit("weather.warning.extreme");
            assert("weather.warning.extreme"@.len() == 23);
            reveal_strlit("cellbroadcast.danger.presidential");
            assert("cellbroadcast.danger.presidential"@.len() == 33);
            reveal_strlit("cellbroadcast.danger.extreme");
            assert("cellbroadcast.danger.extreme"@.len() == 28);
        },
        Category::CellbroadcastPublicSafety => {
            reveal_strlit("cellbroadcast.public-safety");
            assert("cellbroadcast.public-safety"@.len() == 27);
            reveal_strlit("call");
            assert("call"@.len() == 4);
            reveal_strlit("call.ended");
            assert("call.ended"@.len() == 10);
            reveal_strlit("call.incoming");
            assert("call.incoming"@.len() == 13);
            reveal_strlit("call.unanswered");
            assert("call.unanswered"@.len() == 15);
            reveal_strlit("call.ongoing");
            assert("call.ongoing"@.len() == 12);
            reveal_strlit("device");
            assert("device"@.len() == 6);
            reveal_strlit("device.added");
            assert("device.added"@.len() == 12);
            reveal_strlit("device.error");
            assert("device.error"@.len() == 12);
            reveal_strlit("device.removed");
            assert("device.removed"@.len() == 14);
            reveal_strlit("email");
            assert("email"@.len() == 5);
            reveal_strlit("email.arrived");
            assert("email.arrived"@.len() == 13);
            reveal_strlit("email.bounced");
            assert("email.bounced"@.len() == 13);
            reveal_strlit("im");
            assert("im"@.len() == 2);
            reveal_strlit("im.error");
            assert("im.error"@.len() == 8);
            reveal_strlit("im.received");
            assert("im.received"@.len() == 11);
            reveal_strlit("network");
            assert("network"@.len() == 7);
            reveal_strlit("network.connected");
            assert("network.connected"@.len() == 17);
            reveal_strlit("network.disconnected");
            assert("network.disconnected"@.len() == 20);
            reveal_strlit("network.error");
            assert("network.error"@.len() == 13);
            reveal_strlit("presence");
            assert("presence"@.len() == 8);
            reveal_strlit("presence.offline");
            assert("presence.offline"@.len() == 16);
            reveal_strlit("presence.online");
            assert("presence.online"@.len() == 15);
            reveal_strlit("transfer");
            assert("transfer"@.len() == 8);
            reveal_strlit("transfer.complete");
            assert("transfer.complete"@.len() == 17);
            reveal_strlit("transfer.error");
            assert("transfer.error"@.len() == 14);
            reveal_strlit("browser.web-notification");
            assert("browser.web-notification"@.len() == 24);
            reveal_strlit("os.battery.low");
            assert("os.battery.low"@.len() == 14);
            reveal_strlit("alarm.ringing");
            assert("alarm.ringing"@.len() == 13);
            reveal_strlit("weather.warning.extreme");
            assert("weather.warning.extreme"@.len() == 23);
            reveal_strlit("cellbroadcast.danger.presidential");
            assert("cellbroadcast.danger.presidential"@.len() == 33);
            reveal_strlit("cellbroadcast.danger.extreme");
            assert("cellbroadcast.danger.extreme"@.len() == 28);
            reveal_strlit("cellbroadcast.danger.severe");
            assert("cellbroadcast.danger.severe"@.len() == 27);
            assert("cellbroadcast.public-safety"@[14] != "cellbroadcast.danger.severe"@[14]);
        },
        Category::CellbroadcastAmberAlert => {
            reveal_strlit("cellbroadcast.amber-alert");
            assert("cellbroadcast.amber-alert"@.len() == 25);
            reveal_strlit("call");
            assert("call"@.len() == 4);
            reveal_strlit("call.ended");
            assert("call.ended"@.len() == 10);
            reveal_strlit("call.incoming");
            assert("call.incoming"@.len() == 13);
            reveal_strlit("call.unanswered");
            assert("call.unanswered"@.len() == 15);
            reveal_strlit("call.ongoing");
            assert("call.ongoing"@.len() == 12);
            reveal_strlit("device");
            assert("device"@.len() == 6);
            reveal_strlit("device.added");
            assert("device.added"@.len() == 12);
            reveal_strlit("device.error");
            assert("device.error"@.len() == 12);
            reveal_strlit("device.removed");
            assert("device.removed"@.len() == 14);
            reveal_strlit("email");
            assert("email"@.len() == 5);
            reveal_strlit("email.arrived");
            assert("email.arrived"@.len() == 13);
            reveal_strlit("email.bounced");
            assert("email.bounced"@.len() == 13);
            reveal_strlit("im");
            assert("im"@.len() == 2);
            reveal_strlit("im.error");
            assert("im.error"@.len() == 8);
            reveal_strlit("im.received");
            assert("im.received"@.len() == 11);
            reveal_strlit("network");
            assert("network"@.len() == 7);
            reveal_strlit("network.connected");
            assert("network.connected"@.len() == 17);
            reveal_strlit("network.disconnected");
            assert("network.disconnected"@.len() == 20);
            reveal_strlit("network.error");
            assert("network.error"@.len() == 13);
            reveal_strlit("presence");
            assert("presence"@.len() == 8);
            reveal_strlit("presence.offline");
            assert("presence.offline"@.len() == 16);
            reveal_strlit("presence.online");
            assert("presence.online"@.len() == 15);
            reveal_strlit("transfer");
            assert("transfer"@.len() == 8);
            reveal_strlit("transfer.complete");
            assert("transfer.complete"@.len() == 17);
            reveal_strlit("transfer.error");
            assert("transfer.error"@.len() == 14);
            reveal_strlit("browser.web-notification");
            assert("browser.web-notification"@.len() == 24);
            reveal_strlit("os.battery.low");
            assert("os.battery.low"@.len() == 14);
            reveal_strlit("alarm.ringing");
            assert("alarm.ringing"@.len() == 13);
            reveal_strlit("weather.warning.extreme");
            assert("weather.warning.extreme"@.len() == 23);
            reveal_strlit("cellbroadcast.danger.presidential");
            assert("cellbroadcast.danger.presidential"@.len() == 33);
            reveal_strlit("cellbroadcast.danger.extreme");
            assert("cellbroadcast.danger.extreme"@.len() == 28);
            reveal_strlit("cellbroadcast.danger.severe");
            assert("cellbroadcast.danger.severe"@.len() == 27);
            reveal_strlit("cellbroadcast.public-safety");
            assert("cellbroadcast.public-safety"@.len() == 27);
        },
        Category::CellbroadcastTest => {
            reveal_strlit("cellbroadcast.test");
            assert("cellbroadcast.test"@.len() == 18);
            reveal_strlit("call");
            assert("call"@.len() == 4);
            reveal_strlit("call.ended");
            assert("call.ended"@.len() == 10);
            reveal_strlit("call.incoming");
            assert("call.incoming"@.len() == 13);
            reveal_strlit("call.unanswered");
            assert("call.unanswered"@.len() == 15);
            reveal_strlit("call.ongoing");
            assert("call.ongoing"@.len() == 12);
            reveal_strlit("device");
            assert("device"@.len() == 6);
            reveal_strlit("device.added");
            assert("device.added"@.len() == 12);
            reveal_strlit("device.error");
            assert("device.error"@.len() == 12);
            reveal_strlit("device.removed");
            assert("device.removed"@.len() == 14);
            reveal_strlit("email");
            assert("email"@.len() == 5);
            reveal_strlit("email.arrived");
            assert("email.arrived"@.len() == 13);
            reveal_strlit("email.bounced");
            assert("email.bounced"@.len() == 13);
            reveal_strlit("im");
            assert("im"@.len() == 2);
            reveal_strlit("im.error");
            assert("im.error"@.len() == 8);
            reveal_strlit("im.received");
            assert("im.received"@.len() == 11);
            reveal_strlit("network");
            assert("network"@.len() == 7);
            reveal_strlit("network.connected");
            assert("network.connected"@.len() == 17);
            reveal_strlit("network.disconnected");
            assert("network.disconnected"@.len() == 20);
            reveal_strlit("network.error");
            assert("network.error"@.len() == 13);
            reveal_strlit("presence");
            assert("presence"@.len() == 8);
            reveal_strlit("presence.offline");
            assert("presence.offline"@.len() == 16);
            reveal_strlit("presence.online");
            assert("presence.online"@.len() == 15);
            reveal_strlit("transfer");
            assert("transfer"@.len() == 8);
            reveal_strlit("transfer.complete");
            assert("transfer.complete"@.len() == 17);
            reveal_strlit("transfer.error");
            assert("transfer.error"@.len() == 14);
            reveal_strlit("browser.web-notification");
            assert("browser.web-notification"@.len() == 24);
            reveal_strlit("os.battery.low");
            assert("os.battery.low"@.len() == 14);
            reveal_strlit("alarm.ringing");
            assert("alarm.ringing"@.len() == 13);
            reveal_strlit("weather.warning.extreme");
            assert("weather.warning.extreme"@.len() == 23);
            reveal_strlit("cellbroadcast.danger.presidential");
            assert("cellbroadcast.danger.presidential"@.len() == 33);
            reveal_strlit("cellbroadcast.danger.extreme");
            assert("cellbroadcast.danger.extreme"@.len() == 28);
            reveal_strlit("cellbroadcast.danger.severe");
            assert("cellbroadcast.danger.severe"@.len() == 27);
            reveal_strlit("cellbroadcast.public-safety");
            assert("cellbroadcast.public-safety"@.len() == 27);
            reveal_strlit("cellbroadcast.amber-alert");
            assert("cellbroadcast.amber-alert"@.len() == 25);
        },
        Category::Vendor(_) => {},
    }
}

/// What a category string parses to renders back to a string that parses to the same
/// category: unknown strings become `x-` vendor names, which stay vendor names.
pub proof fn law_vendor_category_stable(s: Seq<char>)
    requires
        known_category(s) is None,
    ensures
        "x-"@.is_prefix_of(vendor_string(s)),
        known_category(vendor_string(s)) is None,
{
    reveal_strlit("x-");
    reveal_strlit("x-unknown-");
    assert("x-"@.len() == 2);
    assert("x-unknown-"@.len() == 10);
    assert("x-"@[0] == 'x');
    assert("x-unknown-"@[0] == 'x');
    let v = vendor_string(s);
    if "x-"@.is_prefix_of(s) {
        assert(s.subrange(0, 2)[0] == s[0]);
    } else {
        assert(v.subrange(0, 2) =~= "x-"@);
        assert(v[0] == "x-unknown-"@[0]);
    }
    assert(v[0] == 'x');
    reveal_strlit("call");
    assert("call"@.len() == 4);
    assert("call"@[0] != 'x');
    reveal_strlit("call.ended");
    assert("call.ended"@.len() == 10);
    assert("call.ended"@[0] != 'x');
    reveal_strlit("call.incoming");
    assert("call.incoming"@.len() == 13);
    assert("call.incoming"@[0] != 'x');
    reveal_strlit("call.unanswered");
    assert("call.unanswered"@.len() == 15);
    assert("call.unanswered"@[0] != 'x');
    reveal_strlit("call.ongoing");
    assert("call.ongoing"@.len() == 12);
    assert("call.ongoing"@[0] != 'x');
    reveal_strlit("device");
    assert("device"@.len() == 6);
    assert("device"@[0] != 'x');
    reveal_strlit("device.added");
    assert("device.added"@.len() == 12);
    assert("device.added"@[0] != 'x');
    reveal_strlit("device.error");
    assert("device.error"@.len() == 12);
    assert("device.error"@[0] != 'x');
    reveal_strlit("device.removed");
    assert("device.removed"@.len() == 14);
    assert("device.removed"@[0] != 'x');
    reveal_strlit("email");
    assert("email"@.len() == 5);
    assert("email"@[0] != 'x');
    reveal_strlit("email.arrived");
    assert("email.arrived"@.len() == 13);
    assert("email.arrived"@[0] != 'x');
    reveal_strlit("email.bounced");
    assert("email.bounced"@.len() == 13);
    assert("email.bounced"@[0] != 'x');
    reveal_strlit("im");
    assert("im"@.len() == 2);
    assert("im"@[0] != 'x');
    reveal_strlit("im.error");
    assert("im.error"@.len() == 8);
    assert("im.error"@[0] != 'x');
    reveal_strlit("im.received");
    assert("im.received"@.len() == 11);
    assert("im.received"@[0] != 'x');
    reveal_strlit("network");
    assert("network"@.len() == 7);
    assert("network"@[0] != 'x');
    reveal_strlit("network.connected");
    assert("network.connected"@.len() == 17);
    assert("network.connected"@[0] != 'x');
    reveal_strlit("network.disconnected");
    assert("network.disconnected"@.len() == 20);
    assert("network.disconnected"@[0] != 'x');
    reveal_strlit("network.error");
    assert("network.error"@.len() == 13);
    assert("network.error"@[0] != 'x');
    reveal_strlit("presence");
    assert("presence"@.len() == 8);
    assert("presence"@[0] != 'x');
    reveal_strlit("presence.offline");
    assert("presence.offline"@.len() == 16);
    assert("presence.offline"@[0] != 'x');
    reveal_strlit("presence.online");
    assert("presence.online"@.len() == 15);
    assert("presence.online"@[0] != 'x');
    reveal_strlit("transfer");
    assert("transfer"@.len() == 8);
    assert("transfer"@[0] != 'x');
    reveal_strlit("transfer.complete");
    assert("transfer.complete"@.len() == 17);
    assert("transfer.complete"@[0] != 'x');
    reveal_strlit("transfer.error");
    assert("transfer.error"@.len() == 14);
    assert("transfer.error"@[0] != 'x');
    reveal_strlit("browser.web-notification");
    assert("browser.web-notification"@.len() == 24);
    assert("browser.web-notification"@[0] != 'x');
    reveal_strlit("os.battery.low");
    assert("os.battery.low"@.len() == 14);
    assert("os.battery.low"@[0] != 'x');
    reveal_strlit("alarm.ringing");
    assert("alarm.ringing"@.len() == 13);
    assert("alarm.ringing"@[0] != 'x');
    reveal_strlit("weather.warning.extreme");
    assert("weather.warning.extreme"@.len() == 23);
    assert("weather.warning.extreme"@[0] != 'x');
    reveal_strlit("cellbroadcast.danger.presidential");
    assert("cellbroadcast.danger.presidential"@.len() == 33);
    assert("cellbroadcast.danger.presidential"@[0] != 'x');
    reveal_strlit("cellbroadcast.danger.extreme");
    assert("cellbroadcast.danger.extreme"@.len() == 28);
    assert("cellbroadcast.danger.extreme"@[0] != 'x');
    reveal_strlit("cellbroadcast.danger.severe");
    assert("cellbroadcast.danger.severe"@.len() == 27);
    assert("cellbroadcast.danger.severe"@[0] != 'x');
    reveal_strlit("cellbroadcast.public-safety");
    assert("cellbroadcast.public-safety"@.len() == 27);
    assert("cellbroadcast.public-safety"@[0] != 'x');
    reveal_strlit("cellbroadcast.amber-alert");
    assert("cellbroadcast.amber-alert"@.len() == 25);
    assert("cellbroadcast.amber-alert"@[0] != 'x');
    reveal_strlit("cellbroadcast.test");
    assert("cellbroadcast.test"@.len() == 18);
    assert("cellbroadcast.test"@[0] != 'x');
}

/// Every known capability string parses to that capability and renders back to itself.
pub proof fn law_known_capability_round_trip(c: Capabilities)
    requires
        !(c is Vendor),
    ensures
        known_capability(capability_str(c)) == Some(c),
{
    match c {
        Capabilities::ActionIcons => {
            reveal_strlit("action-icons");
            assert("action-icons"@.len() == 12);
        },
        Capabilities::Actions => {
            reveal_strlit("actions");
            assert("actions"@.len() == 7);
            reveal_strlit("action-icons");
            assert("action-icons"@.len() == 12);
        },
        Capabilities::Body => {
            reveal_strlit("body");
            assert("body"@.len() == 4);
            reveal_strlit("action-icons");
            assert("action-icons"@.len() == 12);
            reveal_strlit("actions");
            assert("actions"@.len() == 7);
        },
        Capabilities::BodyHyperlinks => {
            reveal_strlit("body-hyperlinks");
            assert("body-hyperlinks"@.len() == 15);
            reveal_strlit("action-icons");
            assert("action-icons"@.len() == 12);
            reveal_strlit("actions");
            assert("actions"@.len() == 7);
            reveal_strlit("body");
            assert("body"@.len() == 4);
        },
        Capabilities::BodyImages => {
            reveal_strlit("body-images");
            assert("body-images"@.len() == 11);
            reveal_strlit("action-icons");
            assert("action-icons"@.len() == 12);
            reveal_strlit("actions");
            assert("actions"@.len() == 7);
            reveal_strlit("body");
            assert("body"@.len() == 4);
            reveal_strlit("body-hyperlinks");
            assert("body-hyperlinks"@.len() == 15);
        },
        Capabilities::BodyMarkup => {
            reveal_strlit("body-markup");
            assert("body-markup"@.len() == 11);
            reveal_strlit("action-icons");
            assert("action-icons"@.len() == 12);
            reveal_strlit("actions");
            assert("actions"@.len() == 7);
            reveal_strlit("body");
            assert("body"@.len() == 4);
            reveal_strlit("body-hyperlinks");
            assert("body-hyperlinks"@.len() == 15);
            reveal_strlit("body-images");
            assert("body-images"@.len() == 11);
            assert("body-markup"@[5] != "body-images"@[5]);
        },
        Capabilities::IconMulti => {
            reveal_strlit("icon-multi");
            assert("icon-multi"@.len() == 10);
            reveal_strlit("action-icons");
            assert("action-icons"@.len() == 12);
            reveal_strlit("actions");
            assert("actions"@.len() == 7);
            reveal_strlit("body");
            assert("body"@.len() == 4);
            reveal_strlit("body-hyperlinks");
            assert("body-hyperlinks"@.len() == 15);
            reveal_strlit("body-images");
            assert("body-images"@.len() == 11);
            reveal_strlit("body-markup");
            assert("body-markup"@.len() == 11);
        },
        Capabilities::IconStatic => {
            reveal_strlit("icon-static");
            assert("icon-static"@.len() == 11);
            reveal_strlit("action-icons");
            assert("action-icons"@.len() == 12);
            reveal_strlit("actions");
            assert("actions"@.len() == 7);
            reveal_strlit("body");
            assert("body"@.len() == 4);
            reveal_strlit("body-hyperlinks");
            assert("body-hyperlinks"@.len() == 15);
            reveal_strlit("body-images");
            assert("body-images"@.len() == 11);
            assert("icon-static"@[0] != "body-images"@[0]);
            reveal_strlit("body-markup");
            assert("body-markup"@.len() == 11);
            assert("icon-static"@[0] != "body-markup"@[0]);
            reveal_strlit("icon-multi");
            assert("icon-multi"@.len() == 10);
        },
        Capabilities::Persistence => {
            reveal_strlit("persistence");
            assert("persistence"@.len() == 11);
            reveal_strlit("action-icons");
            assert("action-icons"@.len() == 12);
            reveal_strlit("actions");
            assert("actions"@.len() == 7);
            reveal_strlit("body");
            assert("body"@.len() == 4);
            reveal_strlit("body-hyperlinks");
            assert("body-hyperlinks"@.len() == 15);
            reveal_strlit("body-images");
            assert("body-images"@.len() == 11);
            assert("persistence"@[0] != "body-images"@[0]);
            reveal_strlit("body-markup");
            assert("body-markup"@.len() == 11);
            assert("persistence"@[0] != "body-markup"@[0]);
            reveal_strlit("icon-multi");
            assert("icon-multi"@.len() == 10);
            reveal_strlit("icon-static");
            assert("icon-static"@.len() == 11);
            assert("persistence"@[0] != "icon-static"@[0]);
        },
        Capabilities::Sound => {
            reveal_strlit("sound");
            assert("sound"@.len() == 5);
            reveal_strlit("action-icons");
            assert("action-icons"@.len() == 12);
            reveal_strlit("actions");
            assert("actions"@.len() == 7);
            reveal_strlit("body");
            assert("body"@.len() == 4);
            reveal_strlit("body-hyperlinks");
            assert("body-hyperlinks"@.len() == 15);
            reveal_strlit("body-images");
            assert("body-images"@.len() == 11);
            reveal_strlit("body-markup");
            assert("body-markup"@.len() == 11);
            reveal_strlit("icon-multi");
            assert("icon-multi"@.len() == 10);
            reveal_strlit("icon-static");
            assert("icon-static"@.len() == 11);
            reveal_strlit("persistence");
            assert("persistence"@.len() == 11);
        },
        Capabilities::Vendor(_) => {},
    }
}

/// Unknown capability strings become `x-` vendor names that are never mistaken for a
/// known capability.
pub proof fn law_vendor_capability_stable(s: Seq<char>)
    requires
        known_capability(s) is None,
    ensures
        "x-"@.is_prefix_of(vendor_string(s)),
        known_capability(vendor_string(s)) is None,
{
    reveal_strlit("x-");
    reveal_strlit("x-unknown-");
    assert("x-"@.len() == 2);
    assert("x-unknown-"@.len() == 10);
    assert("x-"@[0] == 'x');
    assert("x-unknown-"@[0] == 'x');
    let v = vendor_string(s);
    if "x-"@.is_prefix_of(s) {
        assert(s.subrange(0, 2)[0] == s[0]);
    } else {
        assert(v.subrange(0, 2) =~= "x-"@);
        assert(v[0] == "x-unknown-"@[0]);
    }
    assert(v[0] == 'x');
    reveal_strlit("action-icons");
    assert("action-icons"@.len() == 12);
    assert("action-icons"@[0] != 'x');
    reveal_strlit("actions");
    assert("actions"@.len() == 7);
    assert("actions"@[0] != 'x');
    reveal_strlit("body");
    assert("body"@.len() == 4);
    assert("body"@[0] != 'x');
    reveal_strlit("body-hyperlinks");
    assert("body-hyperlinks"@.len() == 15);
    assert("body-hyperlinks"@[0] != 'x');
    reveal_strlit("body-images");
    assert("body-images"@.len() == 11);
    assert("body-images"@[0] != 'x');
    reveal_strlit("body-markup");
    assert("body-markup"@.len() == 11);
    assert("body-markup"@[0] != 'x');
    reveal_strlit("icon-multi");
    assert("icon-multi"@.len() == 10);
    assert("icon-multi"@[0] != 'x');
    reveal_strlit("icon-static");
    assert("icon-static"@.len() == 11);
    assert("icon-static"@[0] != 'x');
    reveal_strlit("persistence");
    assert("persistence"@.len() == 11);
    assert("persistence"@[0] != 'x');
    reveal_strlit("sound");
    assert("sound"@.len() == 5);
    assert("sound"@[0] != 'x');
}

/// Every known button purpose string parses to that purpose and renders back to itself.
pub proof fn law_known_purpose_round_trip(p: ButtonPurpose)
    requires
        !(p is Other),
    ensures
        known_purpose(purpose_str(p)) == Some(p),
{
    match p {
        ButtonPurpose::SystemCustomAlert => {
            reveal_strlit("system.custom-alert");
            assert("system.custom-alert"@.len() == 19);
        },
        ButtonPurpose::ImReplyWithText => {
            reveal_strlit("im.reply-with-text");
            assert("im.reply-with-text"@.len() == 18);
            reveal_strlit("system.custom-alert");
            assert("system.custom-alert"@.len() == 19);
        },
        ButtonPurpose::CallAccept => {
            reveal_strlit("call.accept");
            assert("call.accept"@.len() == 11);
            reveal_strlit("system.custom-alert");
            assert("system.custom-alert"@.len() == 19);
            reveal_strlit("im.reply-with-text");
            assert("im.reply-with-text"@.len() == 18);
        },
        ButtonPurpose::CallDecline => {
            reveal_strlit("call.decline");
            assert("call.decline"@.len() == 12);
            reveal_strlit("system.custom-alert");
            assert("system.custom-alert"@.len() == 19);
            reveal_strlit("im.reply-with-text");
            assert("im.reply-with-text"@.len() == 18);
            reveal_strlit("call.accept");
            assert("call.accept"@.len() == 11);
        },
        ButtonPurpose::CallHangUp => {
            reveal_strlit("call.hang-up");
            assert("call.hang-up"@.len() == 12);
            reveal_strlit("system.custom-alert");
            assert("system.custom-alert"@.len() == 19);
            reveal_strlit("im.reply-with-text");
            assert("im.reply-with-text"@.len() == 18);
            reveal_strlit("call.accept");
            assert("call.accept"@.len() == 11);
            reveal_strlit("call.decline");
            assert("call.decline"@.len() == 12);
            assert("call.hang-up"@[5] != "call.decline"@[5]);
        },
        ButtonPurpose::CallEnableSpeakerphone => {
            reveal_strlit("call.enable-speakerphone");
            assert("call.enable-speakerphone"@.len() == 24);
            reveal_strlit("system.custom-alert");
            assert("system.custom-alert"@.len() == 19);
            reveal_strlit("im.reply-with-text");
            assert("im.reply-with-text"@.len() == 18);
            reveal_strlit("call.accept");
            assert("call.accept"@.len() == 11);
            reveal_strlit("call.decline");
            assert("call.decline"@.len() == 12);
            reveal_strlit("call.hang-up");
            assert("call.hang-up"@.len() == 12);
        },
        ButtonPurpose::CallDisableSpeakerphone => {
            reveal_strlit("call.disable-speakerphone");
            assert("call.disable-speakerphone"@.len() == 25);
            reveal_strlit("system.custom-alert");
            assert("system.custom-alert"@.len() == 19);
            reveal_strlit("im.reply-with-text");
            assert("im.reply-with-text"@.len() == 18);
            reveal_strlit("call.accept");
            assert("call.accept"@.len() == 11);
            reveal_strlit("call.decline");
            assert("call.decline"@.len() == 12);
            reveal_strlit("call.hang-up");
            assert("call.hang-up"@.len() == 12);
            reveal_strlit("call.enable-speakerphone");
            assert("call.enable-speakerphone"@.len() == 24);
        },
        ButtonPurpose::Other(_) => {},
    }
}

impl std::str::FromStr for Priority {
    type Err = ();

    fn from_str(s: &str) -> (r: Result<Self, Self::Err>)
        ensures
            r == Ok::<Priority, ()>(priority_of_str(s@)),
    {
        Ok(Priority::parse(s))
    }
}

impl std::str::FromStr for Capabilities {
    type Err = ();

    fn from_str(s: &str) -> (r: Result<Self, Self::Err>)
        ensures
            r matches Ok(c) && (known_capability(s@) matches Some(k) ==> c == k) && (known_capability(s@) is None
                ==> (c matches Capabilities::Vendor(v) && v@ == vendor_string(s@))),
    {
        Ok(Capabilities::parse(s))
    }
}

impl std::str::FromStr for Category {
    type Err = ();

    fn from_str(s: &str) -> (r: Result<Self, Self::Err>)
        ensures
            r matches Ok(c) && (known_category(s@) matches Some(k) ==> c == k) && (known_category(s@) is None
                ==> (c matches Category::Vendor(v) && v@ == vendor_string(s@))),
    {
        Ok(Category::parse(s))
    }
}

impl std::str::FromStr for ButtonPurpose {
    type Err = ();

    fn from_str(s: &str) -> (r: Result<Self, Self::Err>)
        ensures
            r matches Ok(c) && (known_purpose(s@) matches Some(k) ==> c == k) && (known_purpose(s@) is None
                ==> (c matches ButtonPurpose::Other(v) && v@ == s@)),
    {
        Ok(ButtonPurpose::parse(s))
    }
}

/// The category at position `i` of [`KNOWN_CATEGORIES`].
pub open spec fn known_category_at(i: int) -> Category {
    if i == 0 {
        Category::Call
    } else if i == 1 {
        Category::CallEnded
    } else if i == 2 {
        Category::CallIncoming
    } else if i == 3 {
        Category::CallUnanswered
    } else if i == 4 {
        Category::CallOngoing
    } else if i == 5 {
        Category::Device
    } else if i == 6 {
        Category::DeviceAdded
    } else if i == 7 {
        Category::DeviceError
    } else if i == 8 {
        Category::DeviceRemoved
    } else if i == 9 {
        Category::Email
    } else if i == 10 {
        Category::EmailArrived
    } else if i == 11 {
        Category::EmailBounced
    } else if i == 12 {
        Category::Im
    } else if i == 13 {
        Category::ImError
    } else if i == 14 {
        Category::ImReceived
    } else if i == 15 {
        Category::Network
    } else if i == 16 {
        Category::NetworkConnected
    } else if i == 17 {
        Category::NetworkDisconnected
    } else if i == 18 {
        Category::NetworkError
    } else if i == 19 {
        Category::Presence
    } else if i == 20 {
        Category::PresenceOffline
    } else if i == 21 {
        Category::PresenceOnline
    } else if i == 22 {
        Category::Transfer
    } else if i == 23 {
        Category::TransferComplete
    } else if i == 24 {
        Category::TransferError
    } else if i == 25 {
        Category::BrowserWebNotification
    } else if i == 26 {
        Category::OsBatteryLow
    } else if i == 27 {
        Category::AlarmRinging
    } else if i == 28 {
        Category::WeatherWarningExtreme
    } else if i == 29 {
        Category::CellbroadcastDangerPresidential
    } else if i == 30 {
        Category::CellbroadcastDangerExtreme
    } else if i == 31 {
        Category::CellbroadcastDangerSevere
    } else if i == 32 {
        Category::CellbroadcastPublicSafety
    } else if i == 33 {
        Category::CellbroadcastAmberAlert
    } else {
        Category::CellbroadcastTest
    }
}

/// The position of a typed category in [`KNOWN_CATEGORIES`] (`-1` for a vendor one).
pub open spec fn known_category_index(c: Category) -> int {
    match c {
        Category::Call => 0,
        Category::CallEnded => 1,
        Category::CallIncoming => 2,
        Category::CallUnanswered => 3,
        Category::CallOngoing => 4,
        Category::Device => 5,
        Category::DeviceAdded => 6,
        Category::DeviceError => 7,
        Category::DeviceRemoved => 8,
        Category::Email => 9,
        Category::EmailArrived => 10,
        Category::EmailBounced => 11,
        Category::Im => 12,
        Category::ImError => 13,
        Category::ImReceived => 14,
        Category::Network => 15,
        Category::NetworkConnected => 16,
        Category::NetworkDisconnected => 17,
        Category::NetworkError => 18,
        Category::Presence => 19,
        Category::PresenceOffline => 20,
        Category::PresenceOnline => 21,
        Category::Transfer => 22,
        Category::TransferComplete => 23,
        Category::TransferError => 24,
        Category::BrowserWebNotification => 25,
        Category::OsBatteryLow => 26,
        Category::AlarmRinging => 27,
        Category::WeatherWarningExtreme => 28,
        Category::CellbroadcastDangerPresidential => 29,
        Category::CellbroadcastDangerExtreme => 30,
        Category::CellbroadcastDangerSevere => 31,
        Category::CellbroadcastPublicSafety => 32,
        Category::CellbroadcastAmberAlert => 33,
        Category::CellbroadcastTest => 34,
        Category::Vendor(_) => -1,
    }
}

/// [`KNOWN_CATEGORIES`] lists exactly the typed categories: each listed string parses to a
/// typed (non-vendor) category whose wire string is that string again, and every typed
/// category's wire string is listed.
pub proof fn law_known_categories_listed(i: int, c: Category)
    ensures
        0 <= i < KNOWN_CATEGORIES@.len() ==> (known_category(KNOWN_CATEGORIES@[i]@) matches Some(k) && !(k is Vendor)
            && category_str(k) == KNOWN_CATEGORIES@[i]@),
        !(c is Vendor) ==> exists|j: int| 0 <= j < KNOWN_CATEGORIES@.len() && KNOWN_CATEGORIES@[j]@ == category_str(c),
{
    if 0 <= i < KNOWN_CATEGORIES@.len() {
        let k = known_category_at(i);
        assert(KNOWN_CATEGORIES@[i]@ == category_str(k));
        law_known_category_round_trip(k);
    }
    if !(c is Vendor) {
        let j = known_category_index(c);
        assert(0 <= j < KNOWN_CATEGORIES@.len() && KNOWN_CATEGORIES@[j]@ == category_str(c));
    }
}

} // verus!
