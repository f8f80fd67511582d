//! The dashboard: tab navigation state, event dispatch, and the description
//! of what each redraw renders.

use vstd::prelude::*;

use crate::tabs::{ConnectionEvent, ConnectionPanel, ConnectionView};

verus! {

/// The visual style of a sidebar tab button: the selected tab is highlighted.
#[derive(Clone, Copy, Debug, PartialEq, Eq)]
pub enum TabLabelStyle {
    Normal,
    Selected,
}

/// An event coming from the streaming server. The dashboard receives such
/// events but never inspects them, so the payload is opaque to it.
#[derive(Clone, Debug, PartialEq, Eq)]
pub struct ServerEvent {}

/// An event consumed by [`Dashboard::update`].
#[derive(Clone, Debug, PartialEq, Eq)]
pub enum DashboardEvent {
    ServerEvent(ServerEvent),
    TabClick(usize),
    LanguageClick,
    ConnectionEvent(ConnectionEvent),
}

/// One navigational tab: its label in the sidebar.
#[derive(Clone, Debug, PartialEq, Eq)]
pub struct TabState {
    pub display_name: String,
}

impl Default for TabState {
    /// A tab starts with an empty display name.
    fn default() -> (t: Self)
        ensures
            t.display_name@ == Seq::<char>::empty(),
    {
        TabState { display_name: String::new() }
    }
}

/// One entry of the sidebar: a tab's label together with its button style.
#[derive(Clone, Debug, PartialEq, Eq)]
pub struct SidebarTab {
    pub display_name: String,
    pub style: TabLabelStyle,
}

/// The content area of the dashboard: the connection panel's content for the
/// first tab, a placeholder label for every tab not implemented yet.
#[derive(Clone, Debug, PartialEq, Eq)]
pub enum ContentView {
    Connection(ConnectionView),
    Placeholder(String),
}

/// Everything one redraw of the dashboard shows, as plain data for the
/// host's renderer: the sidebar tabs in order, the language button's label,
/// the content heading, and the content area itself.
#[derive(Clone, Debug, PartialEq, Eq)]
pub struct DashboardView {
    pub sidebar_tabs: Vec<SidebarTab>,
    pub language_label: String,
    pub heading: String,
    pub content: ContentView,
}

/// The label shown in place of content for tabs that are not implemented.
pub open spec fn placeholder_label() -> Seq<char> {
    "unimplemented"@
}

/// The dashboard panel: a fixed list of tabs, the index of the selected one,
/// a language button, and the embedded connection sub-panel.
#[derive(Clone, Debug, PartialEq, Eq)]
pub struct Dashboard {
    pub selected_tab: usize,
    pub tab_states: Vec<TabState>,
    pub language_state: TabState,
    pub connection_panel: ConnectionPanel,
}

impl Dashboard {
    /// `selected_tab` always indexes into `tab_states`.
    pub open spec fn wf(self) -> bool {
        self.selected_tab < self.tab_states@.len()
    }

    /// Whether `event` may be handed to `update`: a tab click must carry a
    /// valid tab index, which the host guarantees by only creating a button
    /// for each existing tab.
    pub open spec fn accepts(self, event: DashboardEvent) -> bool {
        event matches DashboardEvent::TabClick(tab) ==> tab < self.tab_states@.len()
    }

    /// The dashboard state after handling `event`.
    pub open spec fn step(self, event: DashboardEvent) -> Dashboard {
        match event {
            DashboardEvent::ServerEvent(_) => self,
            DashboardEvent::TabClick(tab) => Dashboard { selected_tab: tab, ..self },
            DashboardEvent::LanguageClick => self,
            DashboardEvent::ConnectionEvent(inner) => Dashboard {
                connection_panel: self.connection_panel.step(inner),
                ..self
            },
        }
    }

    /// The message that handling `event` asks the host to send, if any: only
    /// the connection panel ever issues requests.
    pub open spec fn outgoing_request(event: DashboardEvent) -> Option<String> {
        match event {
            DashboardEvent::ConnectionEvent(inner) => inner.outgoing_request(),
            _ => None,
        }
    }

    /// The heading of the content area: the selected tab's display name.
    pub open spec fn heading(self) -> Seq<char> {
        self.tab_states@[self.selected_tab as int].display_name@
    }

    /// Whether the content area shows the placeholder instead of the
    /// connection panel's content.
    pub open spec fn shows_placeholder(self) -> bool {
        self.selected_tab != 0
    }

    /// Handles one event: a tab click selects that tab, a connection event
    /// is forwarded to the connection panel, and language clicks and server
    /// events are ignored. Returns the message that the host's request
    /// handler should answer, if the connection panel asked for one; the
    /// answer comes back as a [`ConnectionEvent::Response`].
    pub fn update(&mut self, event: DashboardEvent) -> (request: Option<String>)
        requires
            old(self).wf(),
            old(self).accepts(event),
        ensures
            *final(self) == old(self).step(event),
            final(self).wf(),
            request == Dashboard::outgoing_request(event),
    {
        match event {
            DashboardEvent::ServerEvent(_) => None,
            DashboardEvent::TabClick(tab) => {
                self.selected_tab = tab;
                None
            },
            DashboardEvent::LanguageClick => None,
            DashboardEvent::ConnectionEvent(inner) => self.connection_panel.update(inner),
        }
    }

    /// Describes one redraw for the host's renderer: the sidebar holds one
    /// styled entry per tab, in order, with exactly the selected tab
    /// highlighted; the heading is the selected tab's display name; only the
    /// first tab has real content, delegated to the connection panel, while
    /// every other tab shows the placeholder label.
    pub fn view(&self) -> (r: DashboardView)
        requires
            self.wf(),
        ensures
            r.sidebar_tabs@.len() == self.tab_states@.len(),
            forall|i: int| 0 <= i < self.tab_states@.len() ==> {
                &&& (#[trigger] r.sidebar_tabs@[i]).display_name@
                    == self.tab_states@[i].display_name@
                &&& r.sidebar_tabs@[i].style == (if i == self.selected_tab as int {
                    TabLabelStyle::Selected
                } else {
                    TabLabelStyle::Normal
                })
            },
            r.language_label@ == self.language_state.display_name@,
            r.heading@ == self.heading(),
            !self.shows_placeholder() ==> r.content == ContentView::Connection(
                self.connection_panel.rendered(),
            ),
            self.shows_placeholder() ==> (r.content matches ContentView::Placeholder(label)
                && label@ == placeholder_label()),
    {
        let mut sidebar_tabs: Vec<SidebarTab> = Vec::new();
        let tab_count = self.tab_states.len();
        let mut index: usize = 0;
        while index < tab_count
            invariant
                tab_count == self.tab_states@.len(),
                index <= tab_count,
                sidebar_tabs@.len() == index,
                forall|i: int| 0 <= i < index ==> {
                    &&& (#[trigger] sidebar_tabs@[i]).display_name@
                        == self.tab_states@[i].display_name@
                    &&& sidebar_tabs@[i].style == (if i == self.selected_tab as int {
                        TabLabelStyle::Selected
                    } else {
                        TabLabelStyle::Normal
                    })
                },
            decreases tab_count - index,
        {
            let style = if index == self.selected_tab {
                TabLabelStyle::Selected
            } else {
                TabLabelStyle::Normal
            };
            sidebar_tabs.push(SidebarTab {
                display_name: self.tab_states[index].display_name.clone(),
                style,
            });
            index += 1;
        }

        let heading = self.tab_states[self.selected_tab].display_name.clone();
        let content = if self.selected_tab == 0 {
            ContentView::Connection(self.connection_panel.view())
        } else {
            ContentView::Placeholder("unimplemented".to_owned())
        };

        DashboardView {
            sidebar_tabs,
            language_label: self.language_state.display_name.clone(),
            heading,
            content,
        }
    }
}

impl Default for Dashboard {
    /// A fresh dashboard: the six fixed tabs in their order, the connection
    /// tab selected, an untouched connection panel, and the language button.
    fn default() -> (d: Self)
        ensures
            d.wf(),
            d.selected_tab == 0,
            d.tab_states@.len() == 6,
            d.tab_states@[0].display_name@ == "Connection"@,
            d.tab_states@[1].display_name@ == "Statistics"@,
            d.tab_states@[2].display_name@ == "Settings"@,
            d.tab_states@[3].display_name@ == "Installation"@,
            d.tab_states@[4].display_name@ == "Logs"@,
            d.tab_states@[5].display_name@ == "About"@,
            d.language_state.display_name@ == "Language"@,
            d.connection_panel.last_response is None,
            d.heading() == "Connection"@,
            !d.shows_placeholder(),
    {
        let mut tab_states: Vec<TabState> = Vec::new();
        tab_states.push(TabState { display_name: "Connection".to_owned() });
        tab_states.push(TabState { display_name: "Statistics".to_owned() });
        tab_states.push(TabState { display_name: "Settings".to_owned() });
        tab_states.push(TabState { display_name: "Installation".to_owned() });
        tab_states.push(TabState { display_name: "Logs".to_owned() });
        tab_states.push(TabState { display_name: "About".to_owned() });
        Dashboard {
            selected_tab: 0,
            tab_states,
            language_state: TabState { display_name: "Language".to_owned() },
            connection_panel: ConnectionPanel::default(),
        }
    }
}

/// Clicking a valid tab selects exactly that tab, and clicking the same tab
/// again leaves the dashboard unchanged.
pub proof fn lemma_tab_click_selects_and_is_idempotent(d: Dashboard, tab: usize)
    requires
        d.wf(),
        tab < d.tab_states@.len(),
    ensures
        d.step(DashboardEvent::TabClick(tab)).selected_tab == tab,
        d.step(DashboardEvent::TabClick(tab)).wf(),
        d.step(DashboardEvent::TabClick(tab)).step(DashboardEvent::TabClick(tab))
            == d.step(DashboardEvent::TabClick(tab)),
{
}

/// After selecting any tab other than the first, the dashboard shows the
/// placeholder content, under a heading equal to that tab's display name.
pub proof fn lemma_other_tabs_show_placeholder(d: Dashboard, tab: usize)
    requires
        d.wf(),
        0 < tab < d.tab_states@.len(),
    ensures
        d.step(DashboardEvent::TabClick(tab)).shows_placeholder(),
        d.step(DashboardEvent::TabClick(tab)).heading()
            == d.tab_states@[tab as int].display_name@,
{
}

/// Selecting the first tab hands the content area to the connection panel:
/// the placeholder is never shown there, the panel's state is untouched by
/// the click, and the heading is the first tab's display name.
pub proof fn lemma_connection_tab_delegates(d: Dashboard)
    requires
        d.wf(),
        d.tab_states@.len() > 0,
    ensures
        !d.step(DashboardEvent::TabClick(0)).shows_placeholder(),
        d.step(DashboardEvent::TabClick(0)).connection_panel == d.connection_panel,
        d.step(DashboardEvent::TabClick(0)).heading() == d.tab_states@[0].display_name@,
{
}

/// Language clicks and server events change nothing at all: not the selected
/// tab, not any tab's display name, not the connection panel.
pub proof fn lemma_passive_events_are_no_ops(d: Dashboard, event: DashboardEvent)
    requires
        event is LanguageClick || event is ServerEvent,
    ensures
        d.step(event) == d,
{
}

/// Forwarding a connection event changes only the connection panel: the
/// selected tab and every display name stay as they were.
pub proof fn lemma_connection_events_keep_tabs(d: Dashboard, inner: ConnectionEvent)
    ensures
        d.step(DashboardEvent::ConnectionEvent(inner)).selected_tab == d.selected_tab,
        d.step(DashboardEvent::ConnectionEvent(inner)).tab_states == d.tab_states,
        d.step(DashboardEvent::ConnectionEvent(inner)).language_state == d.language_state,
{
}

} // verus!
