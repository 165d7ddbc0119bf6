//! A notification as a shell holds it: its identity, the display snapshot, and the dispatch
//! data; and what each interaction with it asks the daemon and the originating app to do.
use vstd::prelude::*;
use crate::dispatch::{BusCall, source_dispatched, source_replied};
use crate::wire_registry::opt_str;
use crate::model::{
    Action, ActionId, Actions, Alert, Classification, Content, Image, InvokeSource, Lifecycle,
    NotificationId, NotificationProps, NotificationSource, Origin, Presentation, default_key,
};
use crate::types::ClosedReason;
use vstd::std_specs::cmp::PartialEqSpecImpl;

verus! {

/// Everything a shell renders for a notification, as one snapshot, so an update replaces
/// every facet at once.
#[derive(Debug, Clone, PartialEq)]
pub struct NotificationView {
    /// The sending application.
    pub origin: Origin,
    /// The renderable text.
    pub content: Content,
    /// Large content image.
    pub image: Option<Image>,
    /// The interaction surface.
    pub actions: Actions,
    /// Audio-feedback intent.
    pub alert: Alert,
    /// Priority, category and behavior axes.
    pub classification: Classification,
    /// Timeout policy + manual-dismiss lock.
    pub lifecycle: Lifecycle,
    /// Routing, lock-screen privacy, re-alert.
    pub presentation: Presentation,
    /// When it was received, in milliseconds since the Unix epoch.
    pub received: i64,
    /// Why it left the screen; `None` while live.
    pub close_reason: Option<ClosedReason>,
}

/// A desktop notification, abstracted over the delivering protocol. Two notifications are
/// equal when they have the same identity.
#[derive(Debug, Clone)]
pub struct Notification {
    /// The identity.
    pub id: NotificationId,
    /// What a shell renders.
    pub view: NotificationView,
    /// How its actions reach the originating app.
    pub dispatch: NotificationSource,
}

impl PartialEq for Notification {
    fn eq(&self, other: &Self) -> (r: bool) {
        self.id == other.id
    }
}

impl PartialEqSpecImpl for Notification {
    open spec fn obeys_eq_spec() -> bool {
        true
    }

    open spec fn eq_spec(&self, other: &Self) -> bool {
        self.id == other.id
    }
}

/// What the daemon's pipeline is asked to do.
pub enum NotificationEvent {
    /// A notification arrived (or replaced one with the same identity).
    Add(Box<Notification>),
    /// A notification left, for a reason.
    Remove(NotificationId, ClosedReason),
    /// Several notifications left at once.
    RemoveMany(Vec<NotificationId>, ClosedReason),
    /// Remove from the visible popups only (keep in history) and cancel the popup timer.
    DismissPopup(NotificationId),
    /// Pause the popup's auto-dismiss timer.
    InhibitPopup(NotificationId),
    /// Resume the popup's auto-dismiss timer.
    ReleasePopup(NotificationId),
}

/// An interaction's plan: the bus calls to make in order, and the event to send once all of
/// them have succeeded (none is sent when a call fails, so a failed action leaves the
/// notification in place).
pub struct ActionPlan {
    /// The bus calls, in order.
    pub calls: Vec<BusCall>,
    /// The event that follows success.
    pub follow_up: Option<NotificationEvent>,
}

/// The event that follows a successful action: nothing for a resident notification;
/// otherwise removal from history for an activation from history or a "remove" popup close,
/// and only the banner's dismissal for a "keep" popup close.
pub open spec fn after_action_spec(resident: bool, id: NotificationId, source: InvokeSource) -> Option<(bool, NotificationId)> {
    if resident {
        None
    } else {
        match source {
            InvokeSource::History => Some((true, id)),
            InvokeSource::Popup { remove_from_history } => Some((remove_from_history, id)),
        }
    }
}

/// `e` is the event `after_action_spec` describes: `(true, id)` a `Remove(id, Closed)`,
/// `(false, id)` a `DismissPopup(id)`.
pub open spec fn is_after_event(e: Option<NotificationEvent>, d: Option<(bool, NotificationId)>) -> bool {
    match d {
        None => e is None,
        Some((true, id)) => e matches Some(NotificationEvent::Remove(i, r)) && i == id && r
            == ClosedReason::Closed,
        Some((false, id)) => e matches Some(NotificationEvent::DismissPopup(i)) && i == id,
    }
}

/// The view of a freshly translated notification.
pub open spec fn view_of(props: NotificationProps) -> NotificationView {
    NotificationView {
        origin: props.origin,
        content: props.content,
        image: props.image,
        actions: props.actions,
        alert: props.alert,
        classification: props.classification,
        lifecycle: props.lifecycle,
        presentation: props.presentation,
        received: props.timestamp,
        close_reason: None,
    }
}

/// `existing` updated from `incoming` (a replace): everything but the identity, the reception
/// time and the close reason comes from `incoming`, the dispatch included.
pub open spec fn merged(existing: Notification, incoming: Notification) -> Notification {
    Notification {
        id: existing.id,
        view: NotificationView {
            received: existing.view.received,
            close_reason: existing.view.close_reason,
            ..incoming.view
        },
        dispatch: incoming.dispatch,
    }
}

impl Notification {
    /// Wraps a translated notification: its facets become the view, received at its
    /// timestamp and not closed.
    pub fn from_props(props: NotificationProps) -> (r: Notification)
        ensures
            r.id == props.id,
            r.view == view_of(props),
            r.dispatch == props.dispatch,
    {
        Notification {
            id: props.id,
            view: NotificationView {
                origin: props.origin,
                content: props.content,
                image: props.image,
                actions: props.actions,
                alert: props.alert,
                classification: props.classification,
                lifecycle: props.lifecycle,
                presentation: props.presentation,
                received: props.timestamp,
                close_reason: None,
            },
            dispatch: props.dispatch,
        }
    }

    /// Applies a replacement in place: the identity, reception time and close reason stay,
    /// every other facet and the dispatch (so the directed-signal owner too) are replaced.
    pub fn update_from(&mut self, incoming: Notification)
        ensures
            *final(self) == merged(*old(self), incoming),
    {
        let received = self.view.received;
        let close_reason = self.view.close_reason;
        self.view = NotificationView { received, close_reason, ..incoming.view };
        self.dispatch = incoming.dispatch;
    }

    /// Dismissal by the user: removal from history (the pipeline emits the closed signal).
    pub fn dismiss(&self) -> (r: NotificationEvent)
        ensures
            r matches NotificationEvent::Remove(id, reason) && id == self.id && reason
                == ClosedReason::DismissedByUser,
    {
        NotificationEvent::Remove(self.id, ClosedReason::DismissedByUser)
    }

    /// The same as [`Self::dismiss`].
    pub fn close(&self) -> (r: NotificationEvent)
        ensures
            r matches NotificationEvent::Remove(id, reason) && id == self.id && reason
                == ClosedReason::DismissedByUser,
    {
        self.dismiss()
    }

    /// Removes it from the visible popups only; it stays in history.
    pub fn dismiss_popup(&self) -> (r: NotificationEvent)
        ensures
            r matches NotificationEvent::DismissPopup(id) && id == self.id,
    {
        NotificationEvent::DismissPopup(self.id)
    }

    /// Pauses its popup timer (while hovered).
    pub fn inhibit_popup(&self) -> (r: NotificationEvent)
        ensures
            r matches NotificationEvent::InhibitPopup(id) && id == self.id,
    {
        NotificationEvent::InhibitPopup(self.id)
    }

    /// Resumes its popup timer.
    pub fn release_popup(&self) -> (r: NotificationEvent)
        ensures
            r matches NotificationEvent::ReleasePopup(id) && id == self.id,
    {
        NotificationEvent::ReleasePopup(self.id)
    }

    /// The event after a successful action invoked from `source`.
    pub fn after_action(&self, source: InvokeSource) -> (r: Option<NotificationEvent>)
        ensures
            is_after_event(r, after_action_spec(self.view.classification.resident, self.id, source)),
    {
        if self.view.classification.resident {
            return None;
        }
        match source {
            InvokeSource::History => Some(NotificationEvent::Remove(self.id, ClosedReason::Closed)),
            InvokeSource::Popup { remove_from_history } => {
                if remove_from_history {
                    Some(NotificationEvent::Remove(self.id, ClosedReason::Closed))
                } else {
                    Some(NotificationEvent::DismissPopup(self.id))
                }
            },
        }
    }

    /// A body click: nothing at all without a default action; otherwise the default action's
    /// dispatch, then the dismissal its source calls for.
    pub fn activate_default(&self, source: InvokeSource, token: Option<&str>) -> (r: ActionPlan)
        ensures
            self.view.actions.default is None ==> r.calls@.len() == 0 && r.follow_up is None,
            self.view.actions.default is Some ==> source_dispatched(
                self.dispatch,
                self.view.actions.urls@,
                opt_str(token),
                default_key(),
                r.calls@,
            ) && is_after_event(
                r.follow_up,
                after_action_spec(self.view.classification.resident, self.id, source),
            ),
    {
        if self.view.actions.default.is_none() {
            return ActionPlan { calls: Vec::new(), follow_up: None };
        }
        let calls = self.dispatch.dispatch_action(
            self.view.actions.urls.as_slice(),
            token,
            &ActionId::default_action(),
        );
        ActionPlan { calls, follow_up: self.after_action(source) }
    }

    /// A button: its dispatch, then the dismissal its source calls for.
    pub fn invoke(&self, action: &Action, source: InvokeSource, token: Option<&str>) -> (r:
        ActionPlan)
        ensures
            source_dispatched(self.dispatch, self.view.actions.urls@, opt_str(token), action.id@, r.calls@),
            is_after_event(
                r.follow_up,
                after_action_spec(self.view.classification.resident, self.id, source),
            ),
    {
        let calls = self.dispatch.dispatch_action(self.view.actions.urls.as_slice(), token, &action.id);
        ActionPlan { calls, follow_up: self.after_action(source) }
    }

    /// An inline reply: nothing without a reply affordance; otherwise the protocol's reply
    /// call, then (only when the protocol has one and so delivers it) the dismissal its source
    /// calls for.
    pub fn reply(&self, text: &str, source: InvokeSource) -> (r: ActionPlan)
        ensures
            self.view.actions.reply is None ==> r.calls@.len() == 0 && r.follow_up is None,
            self.view.actions.reply is Some ==> r.calls@.len() <= 1 && source_replied(
                self.dispatch,
                text@,
                if r.calls@.len() == 0 {
                    None
                } else {
                    Some(r.calls@[0])
                },
            ) && (r.calls@.len() == 0 ==> r.follow_up is None) && (r.calls@.len() == 1
                ==> is_after_event(
                r.follow_up,
                after_action_spec(self.view.classification.resident, self.id, source),
            )),
    {
        if self.view.actions.reply.is_none() {
            return ActionPlan { calls: Vec::new(), follow_up: None };
        }
        match self.dispatch.reply(text) {
            Some(call) => {
                let mut calls: Vec<BusCall> = Vec::new();
                calls.push(call);
                ActionPlan { calls, follow_up: self.after_action(source) }
            },
            None => ActionPlan { calls: Vec::new(), follow_up: None },
        }
    }

    /// Strips the actions so the card is no longer clickable (its target is unreachable).
    pub fn strip_actions(&mut self)
        ensures
            final(self).id == old(self).id,
            final(self).dispatch == old(self).dispatch,
            final(self).view == (NotificationView {
                actions: final(self).view.actions,
                ..old(self).view
            }),
            final(self).view.actions.default is None,
            final(self).view.actions.buttons@.len() == 0,
            final(self).view.actions.urls@.len() == 0,
            final(self).view.actions.reply is None,
            !final(self).view.actions.action_icons,
    {
        self.view.actions = Actions::none();
    }
}

} // verus!
