use docklab::app::{handle_key, App, Key, Overlay, Tab};
use docklab::cli::{first_step, next_after, Next, Workflow};
use docklab::data::{Fetch, Fetched, OverviewData, RunState};

fn fresh() -> App {
    App::new(
        OverviewData {
            container_info: "c".to_string(),
            image_info: "i".to_string(),
            running: RunState::Stopped,
        },
        Ok("s".to_string()),
        Ok("p".to_string()),
        3,
    )
}

#[test]
fn help_key_twice_restores_the_dashboard() {
    for c in ['h', '?', 'g'] {
        let mut app = fresh();
        handle_key(&mut app, Key::Char(c));
        assert!(app.overlay.is_some());
        handle_key(&mut app, Key::Char(c));
        assert!(app.overlay.is_none());
        assert!(!app.should_quit);
        assert!(app.active_tab == Tab::Overview);
    }
}

#[test]
fn escape_with_overlay_does_not_quit() {
    let mut app = fresh();
    handle_key(&mut app, Key::Char('h'));
    handle_key(&mut app, Key::Esc);
    assert!(app.overlay.is_none() && !app.should_quit);
    handle_key(&mut app, Key::Esc);
    assert!(app.should_quit);
}

#[test]
fn tab_bar_keys_select_their_tabs() {
    for (i, t) in Tab::ALL.iter().enumerate() {
        let mut app = fresh();
        let key = char::from(b'1' + i as u8);
        assert!(t.label().starts_with(&format!("[{}]", key)));
        handle_key(&mut app, Key::Char(key));
        assert!(app.active_tab == *t);
    }
}

#[test]
fn keys_leave_panel_data_alone() {
    let mut app = fresh();
    for k in [Key::Char('3'), Key::Char('r'), Key::Char('g'), Key::Char('x'), Key::Esc, Key::Other] {
        handle_key(&mut app, k);
        assert_eq!(app.stats, Ok("s".to_string()));
        assert_eq!(app.processes, Ok("p".to_string()));
        assert!(app.disk_usage.is_none());
        assert_eq!(app.overview.container_info, "c");
    }
}

#[test]
fn on_demand_panels_are_not_polled() {
    let app = fresh();
    let due = app.on_tick(u64::MAX);
    assert!(!due.contains(&Fetch::DiskUsage) && !due.contains(&Fetch::Network));
    let mut app = fresh();
    assert_eq!(handle_key(&mut app, Key::Char('4')), Some(Fetch::Network));
    assert_eq!(handle_key(&mut app, Key::Char('r')), Some(Fetch::Network));
    assert_eq!(handle_key(&mut app, Key::Char('2')), None);
    assert_eq!(handle_key(&mut app, Key::Char('r')), Some(Fetch::Stats));
}

#[test]
fn refreshed_panel_shows_only_the_new_data() {
    let mut a = fresh();
    let mut b = fresh();
    b.store(Fetched::Stats(Err("old".to_string())));
    a.set_tab(Tab::Stats);
    b.set_tab(Tab::Stats);
    a.store(Fetched::Stats(Ok("new".to_string())));
    b.store(Fetched::Stats(Ok("new".to_string())));
    assert_eq!(a.panel_text(), "new");
    assert_eq!(a.panel_text(), b.panel_text());
    let _ = Overlay::Help;
}

#[test]
fn every_workflow_ends_within_three_runs() {
    for w in [Workflow::Create, Workflow::Close, Workflow::Reconnect] {
        for outcomes in 0..8u8 {
            let mut next = Next::Run(first_step(w));
            for k in 0..3 {
                if let Next::Run(s) = next {
                    next = next_after(s, outcomes & (1 << k) != 0);
                }
            }
            assert!(matches!(next, Next::Done(_)));
        }
    }
}
