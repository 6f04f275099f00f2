//! Tray presentation: translating low-level menu notifications into abstract
//! application events.
//!
//! The platform delivers menu activations on its own event-delivery context,
//! where a handler must not block: a handler only classifies the notification
//! by the identifier it carries and either forwards an `ApplicationEvent` to
//! the dispatch loop's queue or, for the redeploy entry, fires the already
//! asynchronous redeploy directly, since that path has no state to reconcile.

use vstd::prelude::*;
use crate::dispatch::ApplicationEvent;

verus! {

/// The identifiers of the three actionable menu entries, recorded when the
/// menu is built.
pub struct MenuIds {
    /// Identifier of the quit entry.
    pub quit: String,
    /// Identifier of the redeploy entry.
    pub redeploy: String,
    /// Identifier of the service checkbox entry.
    pub service: String,
}

/// What a menu-activation handler does with one notification.
#[derive(PartialEq, Eq, Structural, Clone, Copy, Debug)]
pub enum HandlerAction {
    /// Push the given event onto the dispatch loop's queue.
    Forward(ApplicationEvent),
    /// Fire the redeploy worker directly; nothing to reconcile afterwards.
    Redeploy,
    /// The notification belongs to no actionable entry; drop it.
    Ignore,
}

/// How a menu notification is classified, by the identifier it carries,
/// against the recorded entry identifiers, in that order of precedence.
pub open spec fn classify_spec(
    id: Seq<char>,
    quit: Seq<char>,
    redeploy: Seq<char>,
    service: Seq<char>,
) -> HandlerAction {
    if id == quit {
        HandlerAction::Forward(ApplicationEvent::Quit)
    } else if id == redeploy {
        HandlerAction::Redeploy
    } else if id == service {
        HandlerAction::Forward(ApplicationEvent::ServiceToggleRequested)
    } else {
        HandlerAction::Ignore
    }
}

/// Classifies one menu notification by its identifier.
pub fn classify_menu_event(event_id: &String, ids: &MenuIds) -> (a: HandlerAction)
    ensures
        a == classify_spec(event_id@, ids.quit@, ids.redeploy@, ids.service@),
{
    if *event_id == ids.quit {
        HandlerAction::Forward(ApplicationEvent::Quit)
    } else if *event_id == ids.redeploy {
        HandlerAction::Redeploy
    } else if *event_id == ids.service {
        HandlerAction::Forward(ApplicationEvent::ServiceToggleRequested)
    } else {
        HandlerAction::Ignore
    }
}

/// A notification delivered by the tray icon itself, as the platform
/// reports it.
#[derive(PartialEq, Eq, Structural, Clone, Copy, Debug)]
pub enum IconNotification {
    /// A single click on the icon.
    Click,
    /// A double click on the icon.
    DoubleClick,
    /// The pointer entered the icon's area.
    Enter,
    /// The pointer moved over the icon's area.
    Move,
    /// The pointer left the icon's area.
    Leave,
}

/// How a notification from the tray icon itself is classified: a click
/// activates the icon, every other notification is dropped.
pub open spec fn classify_icon_spec(n: IconNotification) -> HandlerAction {
    match n {
        IconNotification::Click => HandlerAction::Forward(ApplicationEvent::IconActivated),
        _ => HandlerAction::Ignore,
    }
}

/// Classifies one notification from the tray icon itself.
pub fn classify_icon_event(n: IconNotification) -> (a: HandlerAction)
    ensures
        a == classify_icon_spec(n),
{
    match n {
        IconNotification::Click => HandlerAction::Forward(ApplicationEvent::IconActivated),
        _ => HandlerAction::Ignore,
    }
}

} // verus!
