use rime_tray::dispatch::ApplicationEvent;
use rime_tray::tray::{
    classify_icon_event, classify_menu_event, HandlerAction, IconNotification, MenuIds,
};

fn ids() -> MenuIds {
    MenuIds {
        quit: "1001".to_string(),
        redeploy: "1002".to_string(),
        service: "1003".to_string(),
    }
}

#[test]
fn quit_id_forwards_quit() {
    assert_eq!(
        classify_menu_event(&"1001".to_string(), &ids()),
        HandlerAction::Forward(ApplicationEvent::Quit)
    );
}

#[test]
fn redeploy_id_fires_redeploy_directly() {
    assert_eq!(
        classify_menu_event(&"1002".to_string(), &ids()),
        HandlerAction::Redeploy
    );
}

#[test]
fn service_id_forwards_a_toggle_request() {
    assert_eq!(
        classify_menu_event(&"1003".to_string(), &ids()),
        HandlerAction::Forward(ApplicationEvent::ServiceToggleRequested)
    );
}

#[test]
fn unknown_id_is_ignored() {
    assert_eq!(
        classify_menu_event(&"9999".to_string(), &ids()),
        HandlerAction::Ignore
    );
}

#[test]
fn icon_click_forwards_icon_activated() {
    assert_eq!(
        classify_icon_event(IconNotification::Click),
        HandlerAction::Forward(ApplicationEvent::IconActivated)
    );
}

#[test]
fn other_icon_notifications_are_ignored() {
    for n in [
        IconNotification::DoubleClick,
        IconNotification::Enter,
        IconNotification::Move,
        IconNotification::Leave,
    ] {
        assert_eq!(classify_icon_event(n), HandlerAction::Ignore);
    }
}
