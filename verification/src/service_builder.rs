//! The notification service's configuration, as its builder collects it: how long popups
//! stay, do-not-disturb, whether expired notifications are removed, the app blocklist, and
//! whether the control daemon is registered.
use vstd::prelude::*;

verus! {

/// Builder for configuring a notification service.
pub struct NotificationServiceBuilder {
    popup_duration: u32,
    dnd: bool,
    remove_expired: bool,
    blocklist: Vec<String>,
    register_wayle_daemon: bool,
}

impl NotificationServiceBuilder {
    /// Popup display time in milliseconds.
    pub closed spec fn popup_duration_spec(&self) -> u32 {
        self.popup_duration
    }

    /// Whether do-not-disturb is on.
    pub closed spec fn dnd_spec(&self) -> bool {
        self.dnd
    }

    /// Whether expired notifications are removed.
    pub closed spec fn remove_expired_spec(&self) -> bool {
        self.remove_expired
    }

    /// The blocklist glob patterns.
    pub closed spec fn blocklist_spec(&self) -> Seq<String> {
        self.blocklist@
    }

    /// Whether the control daemon is registered.
    pub closed spec fn daemon_spec(&self) -> bool {
        self.register_wayle_daemon
    }

    /// The defaults: 5-second popups, do-not-disturb off, expired notifications removed, no
    /// blocklist, no control daemon.
    pub open spec fn is_default(&self) -> bool {
        &&& self.popup_duration_spec() == 5000
        &&& !self.dnd_spec()
        &&& self.remove_expired_spec()
        &&& self.blocklist_spec().len() == 0
        &&& !self.daemon_spec()
    }

    /// A builder with the defaults.
    pub fn new() -> (r: Self)
        ensures
            r.is_default(),
    {
        NotificationServiceBuilder {
            popup_duration: 5000,
            dnd: false,
            remove_expired: true,
            blocklist: Vec::new(),
            register_wayle_daemon: false,
        }
    }

    /// Sets how long popups are displayed, in milliseconds.
    pub fn popup_duration(self, duration: u32) -> (r: Self)
        ensures
            r.popup_duration_spec() == duration,
            r.dnd_spec() == self.dnd_spec(),
            r.remove_expired_spec() == self.remove_expired_spec(),
            r.blocklist_spec() == self.blocklist_spec(),
            r.daemon_spec() == self.daemon_spec(),
    {
        NotificationServiceBuilder { popup_duration: duration, ..self }
    }

    /// Sets do-not-disturb: new notifications are kept in the list but not shown as popups.
    pub fn dnd(self, dnd: bool) -> (r: Self)
        ensures
            r.dnd_spec() == dnd,
            r.popup_duration_spec() == self.popup_duration_spec(),
            r.remove_expired_spec() == self.remove_expired_spec(),
            r.blocklist_spec() == self.blocklist_spec(),
            r.daemon_spec() == self.daemon_spec(),
    {
        NotificationServiceBuilder { dnd, ..self }
    }

    /// Sets whether expired notifications are removed.
    pub fn remove_expired(self, remove: bool) -> (r: Self)
        ensures
            r.remove_expired_spec() == remove,
            r.popup_duration_spec() == self.popup_duration_spec(),
            r.dnd_spec() == self.dnd_spec(),
            r.blocklist_spec() == self.blocklist_spec(),
            r.daemon_spec() == self.daemon_spec(),
    {
        NotificationServiceBuilder { remove_expired: remove, ..self }
    }

    /// Sets the glob patterns (`*`, `?`) whose matching app names are silently dropped.
    pub fn blocklist(self, patterns: Vec<String>) -> (r: Self)
        ensures
            r.blocklist_spec() == patterns@,
            r.popup_duration_spec() == self.popup_duration_spec(),
            r.dnd_spec() == self.dnd_spec(),
            r.remove_expired_spec() == self.remove_expired_spec(),
            r.daemon_spec() == self.daemon_spec(),
    {
        NotificationServiceBuilder { blocklist: patterns, ..self }
    }

    /// Registers the control daemon (`com.wayle.Notifications1`) for CLI control.
    pub fn with_daemon(self) -> (r: Self)
        ensures
            r.daemon_spec(),
            r.popup_duration_spec() == self.popup_duration_spec(),
            r.dnd_spec() == self.dnd_spec(),
            r.remove_expired_spec() == self.remove_expired_spec(),
            r.blocklist_spec() == self.blocklist_spec(),
    {
        NotificationServiceBuilder { register_wayle_daemon: true, ..self }
    }

    /// Popup display time in milliseconds.
    pub fn configured_popup_duration(&self) -> (r: u32)
        ensures
            r == self.popup_duration_spec(),
    {
        self.popup_duration
    }

    /// Whether do-not-disturb is on.
    pub fn configured_dnd(&self) -> (r: bool)
        ensures
            r == self.dnd_spec(),
    {
        self.dnd
    }

    /// Whether expired notifications are removed.
    pub fn configured_remove_expired(&self) -> (r: bool)
        ensures
            r == self.remove_expired_spec(),
    {
        self.remove_expired
    }

    /// The blocklist glob patterns.
    pub fn configured_blocklist(&self) -> (r: &[String])
        ensures
            r@ == self.blocklist_spec(),
    {
        self.blocklist.as_slice()
    }

    /// Whether the control daemon is registered.
    pub fn registers_daemon(&self) -> (r: bool)
        ensures
            r == self.daemon_spec(),
    {
        self.register_wayle_daemon
    }
}

impl Default for NotificationServiceBuilder {
    fn default() -> (r: Self)
        ensures
            r.is_default(),
    {
        Self::new()
    }
}

} // verus!
