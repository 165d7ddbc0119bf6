//! The `org.freedesktop.Notifications` server: what it advertises, and what it decides for a
//! `Notify` call (coalescing, the blocklist, translation into the model).
use vstd::prelude::*;
use crate::freedesktop::{FdoNotify, build_props, fdo_facets, stack_tag_from_hints, stack_tag_of};
use crate::hints::Vardict;
use crate::model::{NotificationId, NotificationProps, NotificationSource, dbus_pairs, strings_view};
use crate::text::{opt_view, owned};
use crate::types::{Capabilities, capability_str};
use crate::wire_registry::{RegistryView, WireRegistry, close_spec, opt_str, resolve_spec};
use crate::notification::NotificationEvent;
use crate::types::ClosedReason;

verus! {

/// The glob verdict of the `wildcard` crate on `text` against `pattern` (`*` any run, `?`
/// one byte, `\` escapes, matched over the UTF-8 bytes); false for a pattern it rejects.
pub uninterp spec fn glob_match(pattern: Seq<char>, text: Seq<char>) -> bool;

/// Matches `text` against the glob `pattern` with `wildcard::Wildcard`; an invalid pattern
/// matches nothing. The result is named, not restated: `glob_match`.
#[verifier::external_body]
pub fn matches(pattern: &str, text: &str) -> (r: bool)
    ensures
        r == glob_match(pattern@, text@),
{
    match wildcard::Wildcard::new(pattern.as_bytes()) {
        Ok(w) => w.is_match(text.as_bytes()),
        Err(_) => false,
    }
}

/// Whether some blocklist pattern matches the app name.
pub open spec fn blocked(patterns: Seq<String>, app: Seq<char>) -> bool {
    exists|i: int| 0 <= i < patterns.len() && #[trigger] glob_match(patterns[i]@, app)
}

/// Whether the blocklist blocks notifications from `app_name`.
pub fn is_blocked(patterns: &[String], app_name: &str) -> (r: bool)
    ensures
        r == blocked(patterns@, app_name@),
{
    let mut i: usize = 0;
    while i < patterns.len()
        invariant
            i <= patterns@.len(),
            forall|j: int| 0 <= j < i ==> !#[trigger] glob_match(patterns@[j]@, app_name@),
        decreases patterns@.len() - i,
    {
        if matches(patterns[i].as_str(), app_name) {
            return true;
        }
        i = i + 1;
    }
    false
}

/// The action key of KDE's inline-reply extension, also advertised as a capability.
pub open spec fn inline_reply_capability() -> Seq<char> {
    "inline-reply"@
}

/// Every capability the daemon parses into the model (all but `icon-multi`, which excludes
/// `icon-static`), plus KDE's inline reply.
pub open spec fn advertised_capabilities() -> Seq<Seq<char>> {
    seq![
        capability_str(Capabilities::Body),
        capability_str(Capabilities::BodyMarkup),
        capability_str(Capabilities::BodyHyperlinks),
        capability_str(Capabilities::Actions),
        capability_str(Capabilities::ActionIcons),
        capability_str(Capabilities::IconStatic),
        capability_str(Capabilities::BodyImages),
        capability_str(Capabilities::Persistence),
        capability_str(Capabilities::Sound),
        inline_reply_capability(),
    ]
}

/// `GetCapabilities`.
pub fn get_capabilities() -> (r: Vec<String>)
    ensures
        strings_view(r@) == advertised_capabilities(),
{
    let mut caps: Vec<String> = Vec::new();
    caps.push(owned(Capabilities::Body.as_str()));
    caps.push(owned(Capabilities::BodyMarkup.as_str()));
    caps.push(owned(Capabilities::BodyHyperlinks.as_str()));
    caps.push(owned(Capabilities::Actions.as_str()));
    caps.push(owned(Capabilities::ActionIcons.as_str()));
    caps.push(owned(Capabilities::IconStatic.as_str()));
    caps.push(owned(Capabilities::BodyImages.as_str()));
    caps.push(owned(Capabilities::Persistence.as_str()));
    caps.push(owned(Capabilities::Sound.as_str()));
    caps.push(owned("inline-reply"));
    proof {
        assert(strings_view(caps@) =~= advertised_capabilities());
    }
    caps
}

/// `GetServerInformation`: name, vendor, the package version, and the spec version.
pub fn get_server_information(version: &str) -> (r: (String, String, String, String))
    ensures
        r.0@ == "wayle"@,
        r.1@ == "wayle"@,
        r.2@ == version@,
        r.3@ == "1.3"@,
{
    (owned("wayle"), owned("wayle"), owned(version), owned("1.3"))
}

/// The arguments of a `Notify` call, its hints already normalized.
pub struct NotifyCall {
    /// The unique bus name of the sender, when known.
    pub owner: Option<String>,
    /// `app_name`.
    pub app_name: String,
    /// `replaces_id`.
    pub replaces_id: u32,
    /// `app_icon`.
    pub app_icon: String,
    /// `summary`.
    pub summary: String,
    /// `body`.
    pub body: String,
    /// Flat `[id, label, ...]` actions.
    pub actions: Vec<String>,
    /// Hints, with any image data replaced by its cached `image-path`.
    pub hints: Vardict,
    /// `expire_timeout`.
    pub expire_timeout: i32,
}

/// `p` is the translation of the call `call` (see [`fdo_facets`]) under the resolved
/// identity and wire id, stamped with the session and the owner.
pub open spec fn notify_props_ok(
    call: NotifyCall,
    session: Seq<char>,
    timestamp: i64,
    guid: NotificationId,
    wire: u32,
    p: NotificationProps,
) -> bool {
    &&& p.id == guid
    &&& p.timestamp == timestamp
    &&& p.dispatch matches NotificationSource::Freedesktop(d) && d.wire_id == wire && d.session_id@
        == session && d.owner == call.owner
    &&& fdo_facets(
        call.app_name@,
        call.app_icon@,
        call.summary,
        call.body@,
        dbus_pairs(strings_view(call.actions@)),
        call.hints@,
        call.expire_timeout,
        p,
    )
}

/// `Notify`: resolves the identity and wire id (coalescing onto an owned `replaces_id` or a
/// stack-tag slot, see [`resolve_spec`]) with `fresh` as a new identity, then drops the
/// notification if the blocklist matches the app name and otherwise translates it. The wire
/// id is returned to the app either way.
pub fn notify_with(
    registry: &mut WireRegistry,
    blocklist: &[String],
    session_id: &str,
    timestamp: i64,
    call: NotifyCall,
    fresh: NotificationId,
) -> (r: (u32, Option<NotificationProps>))
    requires
        old(registry).wf(),
    ensures
        final(registry).wf(),
        ({
            let (v, guid, wire) = resolve_spec(
                old(registry)@,
                call.replaces_id,
                call.app_name@,
                stack_tag_of(call.hints@),
                fresh,
            );
            &&& final(registry)@ == v
            &&& r.0 == wire
            &&& r.1 is None <==> blocked(blocklist@, call.app_name@)
            &&& r.1 matches Some(p) ==> notify_props_ok(call, session_id@, timestamp, guid, wire, p)
        }),
{
    let tag = stack_tag_from_hints(call.hints.as_slice());
    let (guid, wire_id) = match &tag {
        Some(t) => registry.resolve_with(call.replaces_id, call.app_name.as_str(), Some(t.as_str()), fresh),
        None => registry.resolve_with(call.replaces_id, call.app_name.as_str(), None, fresh),
    };
    if is_blocked(blocklist, call.app_name.as_str()) {
        return (wire_id, None);
    }
    let props = build_props(
        FdoNotify {
            guid,
            wire_id,
            session_id: owned(session_id),
            timestamp,
            owner: call.owner,
            app_name: call.app_name,
            app_icon: call.app_icon,
            summary: call.summary,
            body: call.body,
            actions: call.actions,
            hints: call.hints,
            expire_timeout: call.expire_timeout,
        },
    );
    (wire_id, Some(props))
}

/// `Notify` with a freshly generated identity for a notification that coalesces onto nothing
/// (see [`notify_with`]).
pub fn notify(
    registry: &mut WireRegistry,
    blocklist: &[String],
    session_id: &str,
    timestamp: i64,
    call: NotifyCall,
) -> (r: (u32, Option<NotificationProps>))
    requires
        old(registry).wf(),
    ensures
        final(registry).wf(),
        exists|fresh: NotificationId| #![trigger resolve_spec(old(registry)@, call.replaces_id, call.app_name@, stack_tag_of(call.hints@), fresh)] {
            let (v, guid, wire) = resolve_spec(
                old(registry)@,
                call.replaces_id,
                call.app_name@,
                stack_tag_of(call.hints@),
                fresh,
            );
            &&& final(registry)@ == v
            &&& r.0 == wire
            &&& r.1 is None <==> blocked(blocklist@, call.app_name@)
            &&& r.1 matches Some(p) ==> notify_props_ok(call, session_id@, timestamp, guid, wire, p)
        },
{
    let fresh = NotificationId::generate();
    notify_with(registry, blocklist, session_id, timestamp, call, fresh)
}

/// `CloseNotification(wire_id)`: the app closes by wire id; the notification it named (if the
/// id is live) is removed as closed, and the wire id is forgotten.
pub fn close_notification(registry: &mut WireRegistry, wire_id: u32) -> (r: Option<NotificationEvent>)
    requires
        old(registry).wf(),
    ensures
        final(registry).wf(),
        final(registry)@ == close_spec(old(registry)@, wire_id).0,
        match close_spec(old(registry)@, wire_id).1 {
            Some(guid) => r matches Some(NotificationEvent::Remove(g, reason)) && g == guid && reason
                == ClosedReason::Closed,
            None => r is None,
        },
{
    match registry.close(wire_id) {
        Some(guid) => Some(NotificationEvent::Remove(guid, ClosedReason::Closed)),
        None => None,
    }
}

} // verus!
