use docklab::app::{
    centered_percentages, handle_key, toggle_overlay, App, Key, Overlay, Tab, GUIDE_TEXT,
    HELP_TEXT, LIVE_REFRESH_INTERVAL_NS,
};
use docklab::data::{Fetch, Fetched, OverviewData, RunState};

fn sample(now: u64) -> App {
    App::new(
        OverviewData {
            container_info: "NAMES\tSTATUS\ndocklab\tUp".to_string(),
            image_info: "REPOSITORY".to_string(),
            running: RunState::Running,
        },
        Ok("CPU 1%".to_string()),
        Err("Error: No such container: docklab".to_string()),
        now,
    )
}

#[test]
fn new_app_starts_on_overview() {
    let app = sample(7);
    assert!(app.active_tab == Tab::Overview);
    assert!(app.overlay.is_none());
    assert!(!app.should_quit);
    assert!(app.disk_usage.is_none());
    assert!(app.network.is_none());
}

#[test]
fn tab_titles_and_indices() {
    let titles: Vec<&str> = Tab::ALL.iter().map(|t| t.title()).collect();
    assert_eq!(titles, vec!["Overview", "Stats", "Disk Usage", "Network", "Processes"]);
    for (i, t) in Tab::ALL.iter().enumerate() {
        assert_eq!(t.index(), i);
    }
    assert_eq!(Tab::Disk.label(), "[3] Disk Usage");
    assert_eq!(Tab::Overview.label(), "[1] Overview");
}

#[test]
fn switching_to_on_demand_tabs_fetches_them() {
    let mut app = sample(0);
    assert_eq!(app.set_tab(Tab::Stats), None);
    assert!(app.active_tab == Tab::Stats);
    assert_eq!(app.set_tab(Tab::Disk), Some(Fetch::DiskUsage));
    app.store(Fetched::DiskUsage(Ok("TYPE".to_string())));
    assert_eq!(app.set_tab(Tab::Network), Some(Fetch::Network));
    assert_eq!(app.set_tab(Tab::Disk), Some(Fetch::DiskUsage));
    assert_eq!(app.disk_usage, Some(Ok("TYPE".to_string())));
}

#[test]
fn refresh_asks_for_the_active_tab() {
    let mut app = sample(0);
    for (t, f) in [
        (Tab::Overview, Fetch::Overview),
        (Tab::Stats, Fetch::Stats),
        (Tab::Disk, Fetch::DiskUsage),
        (Tab::Network, Fetch::Network),
        (Tab::Processes, Fetch::Processes),
    ] {
        app.set_tab(t);
        assert_eq!(app.force_refresh_active(), f);
    }
}

#[test]
fn store_fills_the_matching_panel() {
    let mut app = sample(0);
    app.store(Fetched::Stats(Err("x".to_string())));
    assert_eq!(app.stats, Err("x".to_string()));
    app.store(Fetched::Network(Ok("n".to_string())));
    assert_eq!(app.network, Some(Ok("n".to_string())));
    app.store(Fetched::Processes(Ok("p".to_string())));
    assert_eq!(app.processes, Ok("p".to_string()));
    app.store(Fetched::Overview(OverviewData {
        container_info: String::new(),
        image_info: String::new(),
        running: RunState::NotCreated,
    }));
    assert_eq!(app.overview.running, RunState::NotCreated);
}

#[test]
fn tick_polls_every_two_seconds() {
    let mut app = sample(1_000);
    assert!(app.on_tick(1_000).is_empty());
    assert!(app.on_tick(1_000 + LIVE_REFRESH_INTERVAL_NS - 1).is_empty());
    assert_eq!(
        app.on_tick(1_000 + LIVE_REFRESH_INTERVAL_NS),
        vec![Fetch::Overview, Fetch::Stats, Fetch::Processes]
    );
    assert!(app.on_tick(0).is_empty());
    app.mark_live_refresh(5_000_000_000);
    assert!(app.on_tick(6_000_000_000).is_empty());
    assert_eq!(app.on_tick(7_000_000_000).len(), 3);
    assert_eq!(LIVE_REFRESH_INTERVAL_NS, 2_000_000_000);
}

#[test]
fn keys_without_overlay() {
    let mut app = sample(0);
    assert_eq!(handle_key(&mut app, Key::Char('3')), Some(Fetch::DiskUsage));
    assert!(app.active_tab == Tab::Disk);
    assert_eq!(handle_key(&mut app, Key::Char('r')), Some(Fetch::DiskUsage));
    assert_eq!(handle_key(&mut app, Key::Char('5')), None);
    assert!(app.active_tab == Tab::Processes);
    assert_eq!(handle_key(&mut app, Key::Char('x')), None);
    assert_eq!(handle_key(&mut app, Key::Other), None);
    assert_eq!(handle_key(&mut app, Key::Char('?')), None);
    assert!(app.overlay == Some(Overlay::Help));
}

#[test]
fn keys_with_overlay() {
    let mut app = sample(0);
    handle_key(&mut app, Key::Char('g'));
    assert!(app.overlay == Some(Overlay::Guide));
    assert_eq!(handle_key(&mut app, Key::Char('2')), None);
    assert!(app.active_tab == Tab::Overview);
    assert_eq!(handle_key(&mut app, Key::Char('r')), None);
    handle_key(&mut app, Key::Char('h'));
    assert!(app.overlay == Some(Overlay::Help));
    handle_key(&mut app, Key::Char('h'));
    assert!(app.overlay.is_none());
    handle_key(&mut app, Key::Char('g'));
    handle_key(&mut app, Key::Esc);
    assert!(app.overlay.is_none());
    assert!(!app.should_quit);
    handle_key(&mut app, Key::Char('?'));
    handle_key(&mut app, Key::Char('q'));
    assert!(app.overlay.is_none());
    assert!(!app.should_quit);
}

#[test]
fn quit_keys() {
    let mut app = sample(0);
    handle_key(&mut app, Key::Char('q'));
    assert!(app.should_quit);
    let mut app = sample(0);
    handle_key(&mut app, Key::Esc);
    assert!(app.should_quit);
}

#[test]
fn toggle_overlay_twice_closes() {
    let mut app = sample(0);
    toggle_overlay(&mut app, Overlay::Guide);
    assert!(app.overlay == Some(Overlay::Guide));
    toggle_overlay(&mut app, Overlay::Help);
    assert!(app.overlay == Some(Overlay::Help));
    toggle_overlay(&mut app, Overlay::Help);
    assert!(app.overlay.is_none());
}

#[test]
fn panel_text_per_tab() {
    let mut app = sample(0);
    assert_eq!(
        app.panel_text(),
        "-- Container --\nNAMES\tSTATUS\ndocklab\tUp\n\n-- Image --\nNo image 'kalilinux/kali-rolling' found."
    );
    app.store(Fetched::Overview(OverviewData {
        container_info: "NAMES\n".to_string(),
        image_info: "REPOSITORY\nkalilinux/kali-rolling".to_string(),
        running: RunState::Stopped,
    }));
    assert_eq!(
        app.panel_text(),
        "-- Container --\nNo container named 'docklab' found.\n\n-- Image --\nREPOSITORY\nkalilinux/kali-rolling"
    );
    app.set_tab(Tab::Stats);
    assert_eq!(app.panel_text(), "CPU 1%");
    app.set_tab(Tab::Disk);
    assert_eq!(app.panel_text(), "Loading...");
    app.store(Fetched::DiskUsage(Ok(String::new())));
    assert_eq!(app.panel_text(), "No output from docker system df -v.");
    app.set_tab(Tab::Network);
    assert_eq!(app.panel_text(), "Loading...");
    app.store(Fetched::Network(Err("denied".to_string())));
    assert_eq!(app.panel_text(), "Error running docker inspect (network): denied");
    app.set_tab(Tab::Processes);
    assert_eq!(
        app.panel_text(),
        "Container not running \u{2014} run 'lab create' to start it."
    );
}

#[test]
fn overlay_texts() {
    assert_eq!(Overlay::Help.title(), "Help");
    assert_eq!(Overlay::Guide.title(), "Guide");
    assert_eq!(Overlay::Help.text(), HELP_TEXT);
    assert!(Overlay::Guide.text().starts_with("DockLAB quick start:"));
    assert!(GUIDE_TEXT.contains("refresh automatically every 2s"));
}

#[test]
fn centered_margins() {
    assert_eq!(centered_percentages(70), [15, 70, 15]);
    assert_eq!(centered_percentages(60), [20, 60, 20]);
    assert_eq!(centered_percentages(100), [0, 100, 0]);
    assert_eq!(centered_percentages(5), [47, 5, 47]);
}
