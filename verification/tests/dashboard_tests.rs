use gui::dashboard::{
    ContentView, Dashboard, DashboardEvent, ServerEvent, TabLabelStyle, TabState,
};
use gui::tabs::{ConnectionEvent, ConnectionPanel};

const TAB_NAMES: [&str; 6] = [
    "Connection",
    "Statistics",
    "Settings",
    "Installation",
    "Logs",
    "About",
];

#[test]
fn fresh_dashboard_selects_connection() {
    let d = Dashboard::default();
    assert_eq!(d.selected_tab, 0);
    assert_eq!(d.tab_states.len(), 6);
    let v = d.view();
    assert_eq!(v.heading, "Connection");
    assert_eq!(v.language_label, "Language");
    assert_eq!(v.sidebar_tabs.len(), 6);
    for (i, tab) in v.sidebar_tabs.iter().enumerate() {
        assert_eq!(tab.display_name, TAB_NAMES[i]);
        let expected = if i == 0 {
            TabLabelStyle::Selected
        } else {
            TabLabelStyle::Normal
        };
        assert_eq!(tab.style, expected);
    }
    match v.content {
        ContentView::Connection(c) => assert_eq!(c.last_response, None),
        ContentView::Placeholder(_) => panic!("fresh dashboard must show the connection panel"),
    }
}

#[test]
fn tab_click_selects_each_tab() {
    let mut d = Dashboard::default();
    for i in 0..6 {
        let request = d.update(DashboardEvent::TabClick(i));
        assert_eq!(request, None);
        assert_eq!(d.selected_tab, i);
    }
}

#[test]
fn tab_click_is_idempotent() {
    let mut d = Dashboard::default();
    d.update(DashboardEvent::TabClick(4));
    let once = d.clone();
    let view_once = d.view();
    d.update(DashboardEvent::TabClick(4));
    assert_eq!(d, once);
    assert_eq!(d.view(), view_once);
}

#[test]
fn other_tabs_show_placeholder_and_their_heading() {
    let mut d = Dashboard::default();
    for i in 1..6 {
        d.update(DashboardEvent::TabClick(i));
        let v = d.view();
        assert_eq!(v.heading, TAB_NAMES[i]);
        assert_eq!(
            v.content,
            ContentView::Placeholder(String::from("unimplemented"))
        );
        for (j, tab) in v.sidebar_tabs.iter().enumerate() {
            let expected = if j == i {
                TabLabelStyle::Selected
            } else {
                TabLabelStyle::Normal
            };
            assert_eq!(tab.style, expected);
        }
    }
}

#[test]
fn connection_tab_delegates_and_never_shows_placeholder() {
    let mut d = Dashboard::default();
    d.update(DashboardEvent::TabClick(5));
    d.update(DashboardEvent::TabClick(0));
    let v = d.view();
    assert_eq!(v.heading, "Connection");
    assert!(matches!(v.content, ContentView::Connection(_)));
}

#[test]
fn language_click_and_server_events_are_no_ops() {
    let mut d = Dashboard::default();
    d.update(DashboardEvent::TabClick(2));
    let before = d.clone();
    let view_before = d.view();

    let request = d.update(DashboardEvent::LanguageClick);
    assert_eq!(request, None);
    assert_eq!(d, before);

    let request = d.update(DashboardEvent::ServerEvent(ServerEvent {}));
    assert_eq!(request, None);
    assert_eq!(d, before);

    assert_eq!(d.view(), view_before);
    assert_eq!(d.selected_tab, 2);
    for (i, tab) in d.tab_states.iter().enumerate() {
        assert_eq!(tab.display_name, TAB_NAMES[i]);
    }
}

#[test]
fn connection_request_passes_through_to_the_host() {
    let mut d = Dashboard::default();
    let before = d.clone();
    let request = d.update(DashboardEvent::ConnectionEvent(ConnectionEvent::Request(
        String::from("get session"),
    )));
    assert_eq!(request, Some(String::from("get session")));
    assert_eq!(d, before);
}

#[test]
fn connection_response_reaches_the_panel() {
    let mut d = Dashboard::default();
    let request = d.update(DashboardEvent::ConnectionEvent(ConnectionEvent::Response(
        String::from("pong"),
    )));
    assert_eq!(request, None);
    assert_eq!(d.selected_tab, 0);
    let v = d.view();
    match v.content {
        ContentView::Connection(c) => assert_eq!(c.last_response, Some(String::from("pong"))),
        ContentView::Placeholder(_) => panic!("connection tab must delegate to the panel"),
    }
}

#[test]
fn connection_events_keep_the_tabs() {
    let mut d = Dashboard::default();
    d.update(DashboardEvent::TabClick(3));
    d.update(DashboardEvent::ConnectionEvent(ConnectionEvent::Response(
        String::from("ready"),
    )));
    assert_eq!(d.selected_tab, 3);
    for (i, tab) in d.tab_states.iter().enumerate() {
        assert_eq!(tab.display_name, TAB_NAMES[i]);
    }
    assert_eq!(d.language_state.display_name, "Language");
}

#[test]
fn request_handler_loop_round_trip() {
    // The host's event loop: pass an outgoing request to the handler and
    // feed its answer back as a response event.
    let mut d = Dashboard::default();
    let mut handler = |message: String| format!("answer to {}", message);
    if let Some(request) = d.update(DashboardEvent::ConnectionEvent(ConnectionEvent::Request(
        String::from("version"),
    ))) {
        let response = handler(request);
        d.update(DashboardEvent::ConnectionEvent(ConnectionEvent::Response(
            response,
        )));
    }
    let v = d.view();
    match v.content {
        ContentView::Connection(c) => {
            assert_eq!(c.last_response, Some(String::from("answer to version")))
        }
        ContentView::Placeholder(_) => panic!("connection tab must delegate to the panel"),
    }
}

#[test]
fn tab_state_default_is_unnamed() {
    let t = TabState::default();
    assert_eq!(t.display_name, "");
}

#[test]
fn connection_panel_default_has_no_response() {
    let p = ConnectionPanel::default();
    assert_eq!(p.last_response, None);
    assert_eq!(p.view().last_response, None);
}

#[test]
fn connection_panel_request_leaves_state_unchanged() {
    let mut p = ConnectionPanel::default();
    p.update(ConnectionEvent::Response(String::from("first")));
    let before = p.clone();
    let request = p.update(ConnectionEvent::Request(String::from("again")));
    assert_eq!(request, Some(String::from("again")));
    assert_eq!(p, before);
    let request = p.update(ConnectionEvent::Response(String::from("second")));
    assert_eq!(request, None);
    assert_eq!(p.last_response, Some(String::from("second")));
}
