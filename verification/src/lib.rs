//! A desktop dashboard panel for a VR streaming application: tab navigation,
//! a sidebar of tab buttons, and a connection sub-panel.
//!
//! The library holds the dashboard's state and logic: which tab is selected,
//! how events are dispatched, and what each redraw shows, described as plain
//! data. A host front-end turns that description into widgets of its GUI
//! toolkit and feeds user input back in as [`dashboard::DashboardEvent`]s.

pub mod dashboard;
pub mod tabs;
