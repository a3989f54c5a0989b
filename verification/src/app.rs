//! The dashboard's state: which tab is shown, which overlay is open, the
//! data of each panel, and how keys, ticks and fetched data change it.

use vstd::prelude::*;
use vstd::string::*;
use crate::data::{
    rendered, render_result, result_view, Fetch, Fetched, OverviewData, OverviewView, CONTAINER_NAME,
    IMAGE_NAME,
};
use crate::text::{line_count, lines_in};

verus! {

/// A tab of the dashboard.
#[derive(Clone, Copy, PartialEq, Eq, Debug, Structural)]
pub enum Tab {
    Overview,
    Stats,
    Disk,
    Network,
    Processes,
}

impl Tab {
    /// The tabs, in the order the tab bar shows them and keys `1` to `5`
    /// select them.
    pub const ALL: [Tab; 5] = [Tab::Overview, Tab::Stats, Tab::Disk, Tab::Network, Tab::Processes];

    /// The position of the tab in `ALL`.
    pub open spec fn position(self) -> nat {
        match self {
            Tab::Overview => 0,
            Tab::Stats => 1,
            Tab::Disk => 2,
            Tab::Network => 3,
            Tab::Processes => 4,
        }
    }

    /// The title the tab bar and the panel frame show.
    pub open spec fn title_text(self) -> Seq<char> {
        match self {
            Tab::Overview => "Overview"@,
            Tab::Stats => "Stats"@,
            Tab::Disk => "Disk Usage"@,
            Tab::Network => "Network"@,
            Tab::Processes => "Processes"@,
        }
    }

    /// The tab's title.
    pub fn title(&self) -> (r: &'static str)
        ensures
            r@ == self.title_text(),
    {
        match self {
            Tab::Overview => "Overview",
            Tab::Stats => "Stats",
            Tab::Disk => "Disk Usage",
            Tab::Network => "Network",
            Tab::Processes => "Processes",
        }
    }

    /// The tab's position in `ALL`.
    pub fn index(&self) -> (r: usize)
        ensures
            r == self.position(),
            r < 5,
            Tab::ALL@[r as int] == *self,
    {
        let all = Tab::ALL;
        let mut i: usize = 0;
        while i < 5
            invariant
                i <= 5,
                all@ == Tab::ALL@,
                forall|j: int| 0 <= j < i ==> all@[j] != *self,
            decreases 5 - i,
        {
            if all[i] == *self {
                return i;
            }
            i = i + 1;
        }
        // Not reached: every tab is in `ALL`.
        proof {
            assert(all@[self.position() as int] == *self);
        }
        0
    }
}

/// A pop-up shown over the dashboard.
#[derive(Clone, Copy, PartialEq, Eq, Debug, Structural)]
pub enum Overlay {
    Help,
    Guide,
}

/// An optional result of text, taken by its texts.
pub open spec fn loaded_view(r: Option<Result<String, String>>) -> Option<Result<Seq<char>, Seq<char>>> {
    match r {
        Some(x) => Some(result_view(x)),
        None => None,
    }
}

/// The dashboard's state as plain values.
pub struct AppState {
    pub active_tab: Tab,
    pub overlay: Option<Overlay>,
    pub should_quit: bool,
    pub overview: OverviewView,
    pub stats: Result<Seq<char>, Seq<char>>,
    pub disk_usage: Option<Result<Seq<char>, Seq<char>>>,
    pub network: Option<Result<Seq<char>, Seq<char>>>,
    pub processes: Result<Seq<char>, Seq<char>>,
    /// When the panels that poll on a timer were last refreshed, in
    /// nanoseconds of the caller's monotonic clock.
    pub refreshed_at: u64,
}

/// The dashboard. Disk Usage and Network are `None` until first fetched.
pub struct App {
    pub active_tab: Tab,
    pub overlay: Option<Overlay>,
    pub should_quit: bool,
    pub overview: OverviewData,
    pub stats: Result<String, String>,
    pub disk_usage: Option<Result<String, String>>,
    pub network: Option<Result<String, String>>,
    pub processes: Result<String, String>,
    last_live_refresh: u64,
}

impl View for App {
    type V = AppState;

    closed spec fn view(&self) -> AppState {
        AppState {
            active_tab: self.active_tab,
            overlay: self.overlay,
            should_quit: self.should_quit,
            overview: self.overview@,
            stats: result_view(self.stats),
            disk_usage: loaded_view(self.disk_usage),
            network: loaded_view(self.network),
            processes: result_view(self.processes),
            refreshed_at: self.last_live_refresh,
        }
    }
}

/// How long Overview, Stats and Processes go between timed refreshes, in
/// nanoseconds (two seconds).
pub const LIVE_REFRESH_INTERVAL_NS: u64 = 2_000_000_000;

/// The fetch that refreshes the data `tab` shows.
pub open spec fn fetch_for(tab: Tab) -> Fetch {
    match tab {
        Tab::Overview => Fetch::Overview,
        Tab::Stats => Fetch::Stats,
        Tab::Disk => Fetch::DiskUsage,
        Tab::Network => Fetch::Network,
        Tab::Processes => Fetch::Processes,
    }
}

/// The fetch that switching to `tab` makes: Disk Usage and Network, which
/// are not polled on a timer, refresh when switched to; the others are kept
/// fresh by the timer and fetch nothing.
pub open spec fn switch_fetch(tab: Tab) -> Option<Fetch> {
    match tab {
        Tab::Disk => Some(Fetch::DiskUsage),
        Tab::Network => Some(Fetch::Network),
        _ => None,
    }
}

/// The state after `data` has been stored in `s`.
pub open spec fn stored(s: AppState, data: Fetched) -> AppState {
    match data {
        Fetched::Overview(o) => AppState { overview: o@, ..s },
        Fetched::Stats(r) => AppState { stats: result_view(r), ..s },
        Fetched::DiskUsage(r) => AppState { disk_usage: Some(result_view(r)), ..s },
        Fetched::Network(r) => AppState { network: Some(result_view(r)), ..s },
        Fetched::Processes(r) => AppState { processes: result_view(r), ..s },
    }
}

/// Whether a timed refresh is due at `now`, the last one having been at
/// `last`: at least the refresh interval has passed (a clock that reads
/// earlier than `last` counts as no time passed).
pub open spec fn refresh_due(last: u64, now: u64) -> bool {
    now >= last && now - last >= LIVE_REFRESH_INTERVAL_NS
}

/// The panels refreshed on a timer: Overview, Stats and Processes.
pub open spec fn live_fetches() -> Seq<Fetch> {
    seq![Fetch::Overview, Fetch::Stats, Fetch::Processes]
}

impl App {
    /// A dashboard on the Overview tab, with no overlay, holding the given
    /// Overview, Stats and Processes data, Disk Usage and Network not yet
    /// fetched, and `now` as the time of the last timed refresh.
    pub fn new(
        overview: OverviewData,
        stats: Result<String, String>,
        processes: Result<String, String>,
        now: u64,
    ) -> (app: App)
        ensures
            app@ == (AppState {
                active_tab: Tab::Overview,
                overlay: None,
                should_quit: false,
                overview: overview@,
                stats: result_view(stats),
                disk_usage: None,
                network: None,
                processes: result_view(processes),
                refreshed_at: now,
            }),
    {
        App {
            active_tab: Tab::Overview,
            overlay: None,
            should_quit: false,
            overview,
            stats,
            disk_usage: None,
            network: None,
            processes,
            last_live_refresh: now,
        }
    }

    fn live_fetch_list() -> (r: Vec<Fetch>)
        ensures
            r@ == live_fetches(),
    {
        let r = vec![Fetch::Overview, Fetch::Stats, Fetch::Processes];
        assert(r@ =~= live_fetches());
        r
    }

    /// Shows `tab`, and returns the fetch that switching to it makes.
    pub fn set_tab(&mut self, tab: Tab) -> (f: Option<Fetch>)
        ensures
            final(self)@ == (AppState { active_tab: tab, ..old(self)@ }),
            f == switch_fetch(tab),
    {
        self.active_tab = tab;
        self.switch_fetch(tab)
    }

    fn switch_fetch(&self, tab: Tab) -> (f: Option<Fetch>)
        ensures
            f == switch_fetch(tab),
    {
        match tab {
            Tab::Disk => Some(Fetch::DiskUsage),
            Tab::Network => Some(Fetch::Network),
            _ => None,
        }
    }

    /// The fetch that refreshes the active tab.
    pub fn force_refresh_active(&self) -> (f: Fetch)
        ensures
            f == fetch_for(self@.active_tab),
    {
        match self.active_tab {
            Tab::Overview => Fetch::Overview,
            Tab::Stats => Fetch::Stats,
            Tab::Disk => Fetch::DiskUsage,
            Tab::Network => Fetch::Network,
            Tab::Processes => Fetch::Processes,
        }
    }

    /// Stores fetched data in the panel it belongs to.
    pub fn store(&mut self, data: Fetched)
        ensures
            final(self)@ == stored(old(self)@, data),
    {
        match data {
            Fetched::Overview(o) => self.overview = o,
            Fetched::Stats(r) => self.stats = r,
            Fetched::DiskUsage(r) => self.disk_usage = Some(r),
            Fetched::Network(r) => self.network = Some(r),
            Fetched::Processes(r) => self.processes = r,
        }
    }

    /// The fetches due at `now`. Overview, Stats, and Processes are cheap
    /// enough to poll on a timer; Disk Usage and Network only refresh on tab
    /// switch or explicit 'r'.
    pub fn on_tick(&self, now: u64) -> (r: Vec<Fetch>)
        ensures
            refresh_due(self@.refreshed_at, now) ==> r@ == live_fetches(),
            !refresh_due(self@.refreshed_at, now) ==> r@ == Seq::<Fetch>::empty(),
    {
        if now >= self.last_live_refresh && now - self.last_live_refresh >= LIVE_REFRESH_INTERVAL_NS {
            App::live_fetch_list()
        } else {
            let r: Vec<Fetch> = Vec::new();
            assert(r@ =~= Seq::<Fetch>::empty());
            r
        }
    }

    /// Records `now` as the time of the last timed refresh.
    pub fn mark_live_refresh(&mut self, now: u64)
        ensures
            final(self)@ == (AppState { refreshed_at: now, ..old(self)@ }),
    {
        self.last_live_refresh = now;
    }
}


/// A key press, as far as the dashboard tells keys apart.
#[derive(Clone, Copy, PartialEq, Eq, Debug)]
pub enum Key {
    /// A key that types a character.
    Char(char),
    /// The Escape key.
    Esc,
    /// Any other key.
    Other,
}

/// `current` with `overlay` toggled: closed where it is the one open,
/// otherwise opened in place of whatever was open.
pub open spec fn toggled(current: Option<Overlay>, overlay: Overlay) -> Option<Overlay> {
    if current == Some(overlay) {
        None
    } else {
        Some(overlay)
    }
}

/// The tab that a digit key selects: `1` to `5` select the tabs in the order
/// of `Tab::ALL`.
pub open spec fn digit_tab(c: char) -> Option<Tab> {
    if c == '1' {
        Some(Tab::Overview)
    } else if c == '2' {
        Some(Tab::Stats)
    } else if c == '3' {
        Some(Tab::Disk)
    } else if c == '4' {
        Some(Tab::Network)
    } else if c == '5' {
        Some(Tab::Processes)
    } else {
        None
    }
}

/// What a key press does to the dashboard, and the fetch it asks for.
/// With an overlay open, Esc and `q` close it, `h`/`?` and `g` toggle the
/// help and guide overlays, and every other key is ignored. With none open,
/// `q` and Esc quit, `r` refreshes the active tab, `h`/`?` and `g` open the
/// help and guide overlays, and `1` to `5` switch tabs.
pub open spec fn key_transition(s: AppState, key: Key) -> (AppState, Option<Fetch>) {
    if s.overlay is Some {
        match key {
            Key::Esc => (AppState { overlay: None, ..s }, None),
            Key::Char(c) => {
                if c == 'q' {
                    (AppState { overlay: None, ..s }, None)
                } else if c == 'h' || c == '?' {
                    (AppState { overlay: toggled(s.overlay, Overlay::Help), ..s }, None)
                } else if c == 'g' {
                    (AppState { overlay: toggled(s.overlay, Overlay::Guide), ..s }, None)
                } else {
                    (s, None)
                }
            },
            Key::Other => (s, None),
        }
    } else {
        match key {
            Key::Esc => (AppState { should_quit: true, ..s }, None),
            Key::Char(c) => {
                if c == 'q' {
                    (AppState { should_quit: true, ..s }, None)
                } else if c == 'r' {
                    (s, Some(fetch_for(s.active_tab)))
                } else if c == 'h' || c == '?' {
                    (AppState { overlay: toggled(s.overlay, Overlay::Help), ..s }, None)
                } else if c == 'g' {
                    (AppState { overlay: toggled(s.overlay, Overlay::Guide), ..s }, None)
                } else if let Some(t) = digit_tab(c) {
                    (AppState { active_tab: t, ..s }, switch_fetch(t))
                } else {
                    (s, None)
                }
            },
            Key::Other => (s, None),
        }
    }
}

/// Opens `overlay`, or closes it where it is the one open.
pub fn toggle_overlay(app: &mut App, overlay: Overlay)
    ensures
        final(app)@ == (AppState { overlay: toggled(old(app)@.overlay, overlay), ..old(app)@ }),
{
    let open_now = match (app.overlay, overlay) {
        (Some(Overlay::Help), Overlay::Help) => true,
        (Some(Overlay::Guide), Overlay::Guide) => true,
        _ => false,
    };
    app.overlay = if open_now {
        None
    } else {
        Some(overlay)
    };
}

/// Applies a key press to the dashboard; returns the fetch it asks for.
pub fn handle_key(app: &mut App, key: Key) -> (f: Option<Fetch>)
    ensures
        (final(app)@, f) == key_transition(old(app)@, key),
{
    if app.overlay.is_some() {
        match key {
            Key::Esc => app.overlay = None,
            Key::Char(c) => {
                if c == 'q' {
                    app.overlay = None;
                } else if c == 'h' || c == '?' {
                    toggle_overlay(app, Overlay::Help);
                } else if c == 'g' {
                    toggle_overlay(app, Overlay::Guide);
                }
            },
            Key::Other => {},
        }
        return None;
    }
    match key {
        Key::Esc => {
            app.should_quit = true;
            None
        },
        Key::Char(c) => {
            if c == 'q' {
                app.should_quit = true;
                None
            } else if c == 'r' {
                Some(app.force_refresh_active())
            } else if c == 'h' || c == '?' {
                toggle_overlay(app, Overlay::Help);
                None
            } else if c == 'g' {
                toggle_overlay(app, Overlay::Guide);
                None
            } else if c == '1' {
                app.set_tab(Tab::Overview)
            } else if c == '2' {
                app.set_tab(Tab::Stats)
            } else if c == '3' {
                app.set_tab(Tab::Disk)
            } else if c == '4' {
                app.set_tab(Tab::Network)
            } else if c == '5' {
                app.set_tab(Tab::Processes)
            } else {
                None
            }
        },
        Key::Other => None,
    }
}


/// The key that selects `tab` (`1` to `5`).
pub open spec fn key_of(tab: Tab) -> char {
    match tab {
        Tab::Overview => '1',
        Tab::Stats => '2',
        Tab::Disk => '3',
        Tab::Network => '4',
        Tab::Processes => '5',
    }
}

impl Tab {
    /// The tab's entry in the tab bar: its key in brackets, then its title.
    pub fn label(&self) -> (r: String)
        ensures
            r@ == "["@ + seq![key_of(*self)] + "] "@ + self.title_text(),
    {
        let key = match self {
            Tab::Overview => "1",
            Tab::Stats => "2",
            Tab::Disk => "3",
            Tab::Network => "4",
            Tab::Processes => "5",
        };
        proof {
            reveal_strlit("1");
            reveal_strlit("2");
            reveal_strlit("3");
            reveal_strlit("4");
            reveal_strlit("5");
        }
        let mut r = String::from_str("[");
        r.append(key);
        r.append("] ");
        r.append(self.title());
        assert(key@ =~= seq![key_of(*self)]);
        r
    }
}

/// The text shown for one listing of the Overview panel: the listing itself
/// where it has more than its header line, otherwise `missing`.
pub open spec fn listing_or(info: Seq<char>, missing: Seq<char>) -> Seq<char> {
    if line_count(info) <= 1 {
        missing
    } else {
        info
    }
}

/// The Overview panel's text.
pub open spec fn overview_text(o: OverviewView) -> Seq<char> {
    "-- Container --\n"@ + listing_or(
        o.container_info,
        "No container named '"@ + CONTAINER_NAME@ + "' found."@,
    ) + "\n\n-- Image --\n"@ + listing_or(o.image_info, "No image '"@ + IMAGE_NAME@ + "' found."@)
}

/// The text of a panel whose data is fetched on demand: the rendered result,
/// or a loading note while nothing has been fetched.
pub open spec fn loaded_text(r: Option<Result<Seq<char>, Seq<char>>>, label: Seq<char>) -> Seq<char> {
    match r {
        Some(x) => rendered(x, label),
        None => "Loading..."@,
    }
}

/// The body text of the active panel.
pub open spec fn panel_text_spec(s: AppState) -> Seq<char> {
    match s.active_tab {
        Tab::Overview => overview_text(s.overview),
        Tab::Stats => rendered(s.stats, "docker stats"@),
        Tab::Disk => loaded_text(s.disk_usage, "docker system df -v"@),
        Tab::Network => loaded_text(s.network, "docker inspect (network)"@),
        Tab::Processes => rendered(s.processes, "docker top"@),
    }
}

fn listing_text(info: &String, missing: String) -> (r: String)
    ensures
        r@ == listing_or(info@, missing@),
        line_count(info@) <= 1 ==> r@ == missing@,
        line_count(info@) > 1 ==> r@ == info@,
{
    if lines_in(info.as_str()) <= 1 {
        missing
    } else {
        info.clone()
    }
}

fn loaded_panel(r: &Option<Result<String, String>>, label: &str) -> (t: String)
    ensures
        t@ == loaded_text(loaded_view(*r), label@),
{
    match r {
        Some(x) => render_result(x, label),
        None => String::from_str("Loading..."),
    }
}

impl App {
    /// The body text of the active panel.
    pub fn panel_text(&self) -> (r: String)
        ensures
            r@ == panel_text_spec(self@),
    {
        match self.active_tab {
            Tab::Overview => {
                let mut missing_container = String::from_str("No container named '");
                missing_container.append(CONTAINER_NAME);
                missing_container.append("' found.");
                let mut missing_image = String::from_str("No image '");
                missing_image.append(IMAGE_NAME);
                missing_image.append("' found.");
                let container = listing_text(&self.overview.container_info, missing_container);
                let image = listing_text(&self.overview.image_info, missing_image);
                let mut r = String::from_str("-- Container --\n");
                r.append(container.as_str());
                r.append("\n\n-- Image --\n");
                r.append(image.as_str());
                r
            },
            Tab::Stats => render_result(&self.stats, "docker stats"),
            Tab::Disk => loaded_panel(&self.disk_usage, "docker system df -v"),
            Tab::Network => loaded_panel(&self.network, "docker inspect (network)"),
            Tab::Processes => render_result(&self.processes, "docker top"),
        }
    }
}


/// The help overlay's text.
pub const HELP_TEXT: &'static str = "\
Keybindings:
  1-5      Switch tabs (Overview / Stats / Disk Usage / Network / Processes)
  r        Force refresh the active tab
  h, ?     Toggle this help overlay
  g        Toggle the guide overlay
  q, Esc   Quit (Esc closes an overlay first if one is open)
";

/// The guide overlay's text.
pub const GUIDE_TEXT: &'static str = "\
DockLAB quick start:
  1. lab create   -> pull the Kali image, start the container, drop into bash
  2. lab mon      -> this screen: live status, stats, disk usage, network, processes
  3. lab close    -> stop and remove the container and image
  4. ./reconnect.sh -> reconnect to the existing container

Overview, Stats, and Processes refresh automatically every 2s.
Disk Usage and Network only refresh when you switch to them or press 'r',
since they change less often and cost more to query.
";

impl Overlay {
    /// The overlay's name.
    pub fn title(&self) -> (r: &'static str)
        ensures
            r@ == (match *self {
                Overlay::Help => "Help"@,
                Overlay::Guide => "Guide"@,
            }),
    {
        match self {
            Overlay::Help => "Help",
            Overlay::Guide => "Guide",
        }
    }

    /// The overlay's text.
    pub fn text(&self) -> (r: &'static str)
        ensures
            r@ == (match *self {
                Overlay::Help => HELP_TEXT@,
                Overlay::Guide => GUIDE_TEXT@,
            }),
    {
        match self {
            Overlay::Help => HELP_TEXT,
            Overlay::Guide => GUIDE_TEXT,
        }
    }
}

/// The percentages a pop-up of `percent` percent of an extent is laid out
/// with: an equal margin before and after it.
pub fn centered_percentages(percent: u16) -> (r: [u16; 3])
    requires
        percent <= 100,
    ensures
        r@ == seq![((100 - percent) / 2) as u16, percent, ((100 - percent) / 2) as u16],
{
    let margin = (100 - percent) / 2;
    let r = [margin, percent, margin];
    assert(r@ =~= seq![((100 - percent) / 2) as u16, percent, ((100 - percent) / 2) as u16]);
    r
}

} // verus!
