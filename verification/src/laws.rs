//! Properties the dashboard and the command line keep across operations,
//! stated over the specifications of the functions they speak of.

use vstd::prelude::*;
use crate::app::{
    digit_tab, fetch_for, key_of, key_transition, listing_or, live_fetches, overview_text,
    panel_text_spec, refresh_due, stored, AppState, Key, Overlay, Tab, LIVE_REFRESH_INTERVAL_NS,
};
use crate::cli::{
    action_spec, first_step_spec, next_spec, Action, Command, Next, Report, Step, Workflow,
};
use crate::data::{
    capture_spec, failure_text, rendered, result_view, run_state_spec, Fetch, Fetched, Launch,
    OverviewView, RunState, NOT_RUNNING_HINT,
};
use crate::text::{
    has_infix, is_blank, is_white_space, line_count, newline_count, trim, trim_end, trim_start,
};

verus! {

/// Pressing `h`, `?` or `g` twice on a dashboard with no overlay open leaves
/// it as it was: the overlays toggle.
pub proof fn overlay_toggles_back(s: AppState, c: char)
    requires
        s.overlay is None,
        c == 'h' || c == '?' || c == 'g',
    ensures
        key_transition(key_transition(s, Key::Char(c)).0, Key::Char(c)) == (s, None::<Fetch>),
{
}

/// With an overlay open, Esc and `q` close it and do not quit.
pub proof fn escape_closes_overlay_first(s: AppState, k: Key)
    requires
        s.overlay is Some,
        k == Key::Esc || k == Key::Char('q'),
    ensures
        key_transition(s, k) == (AppState { overlay: None, ..s }, None::<Fetch>),
{
}

/// With no overlay open, Esc and `q` quit.
pub proof fn escape_quits_without_overlay(s: AppState, k: Key)
    requires
        s.overlay is None,
        k == Key::Esc || k == Key::Char('q'),
    ensures
        key_transition(s, k).0.should_quit,
        key_transition(s, k).0.overlay is None,
{
}

/// The key that the tab bar shows beside a tab selects that tab: the tab at
/// position `i` of `Tab::ALL` has the key `1 + i`, and pressing it with no
/// overlay open makes the tab active.
pub proof fn tab_keys_match_tab_bar(s: AppState, t: Tab)
    requires
        s.overlay is None,
    ensures
        Tab::ALL@[t.position() as int] == t,
        key_of(t) as u32 == '1' as u32 + t.position(),
        digit_tab(key_of(t)) == Some(t),
        key_transition(s, Key::Char(key_of(t))).0.active_tab == t,
{
}

/// Keys change only the active tab, the open overlay and whether to quit;
/// the panels' data and the refresh time stay as they were.
pub proof fn keys_keep_data(s: AppState, k: Key)
    ensures
        ({
            let t = key_transition(s, k).0;
            &&& t.overview == s.overview
            &&& t.stats == s.stats
            &&& t.disk_usage == s.disk_usage
            &&& t.network == s.network
            &&& t.processes == s.processes
            &&& t.refreshed_at == s.refreshed_at
        }),
{
}

/// Disk Usage and Network only refresh on tab switch or explicit `r`: the
/// timer never fetches them, and a key fetches them only where it is their
/// tab's digit, or `r` while their tab is active.
pub proof fn on_demand_panels_refresh_on_request(s: AppState, k: Key)
    ensures
        !live_fetches().contains(Fetch::DiskUsage),
        !live_fetches().contains(Fetch::Network),
        key_transition(s, k).1 == Some(Fetch::DiskUsage) ==> (k == Key::Char('3') || (k
            == Key::Char('r') && s.active_tab == Tab::Disk)),
        key_transition(s, k).1 == Some(Fetch::Network) ==> (k == Key::Char('4') || (k
            == Key::Char('r') && s.active_tab == Tab::Network)),
{
    assert(live_fetches()[0] == Fetch::Overview);
    assert(live_fetches()[1] == Fetch::Stats);
    assert(live_fetches()[2] == Fetch::Processes);
}

/// The kind of fetch some fetched data answers.
pub open spec fn answers(data: Fetched) -> Fetch {
    match data {
        Fetched::Overview(_) => Fetch::Overview,
        Fetched::Stats(_) => Fetch::Stats,
        Fetched::DiskUsage(_) => Fetch::DiskUsage,
        Fetched::Network(_) => Fetch::Network,
        Fetched::Processes(_) => Fetch::Processes,
    }
}

/// `r` asks for the active tab's data, and once that data is stored the
/// panel shows it and nothing of what it showed before: two dashboards on
/// the same tab show the same text after storing the same refresh.
pub proof fn refresh_replaces_panel(s1: AppState, s2: AppState, data: Fetched)
    requires
        s1.overlay is None,
        s1.active_tab == s2.active_tab,
        answers(data) == fetch_for(s1.active_tab),
    ensures
        key_transition(s1, Key::Char('r')) == (s1, Some(fetch_for(s1.active_tab))),
        panel_text_spec(stored(s1, data)) == panel_text_spec(stored(s2, data)),
{
}

/// The timed refresh is due exactly when two seconds have passed since the
/// last one.
pub proof fn refresh_every_two_seconds(last: u64, elapsed: u64)
    requires
        last + elapsed <= u64::MAX,
    ensures
        refresh_due(last, (last + elapsed) as u64) <==> elapsed >= 2_000_000_000,
        LIVE_REFRESH_INTERVAL_NS == 2_000_000_000,
{
}

/// Help, version and guide flags take priority over subcommands, in that
/// order.
pub proof fn flags_take_priority(help: bool, version: bool, guide: bool, command: Option<Command>)
    ensures
        help ==> action_spec(help, version, guide, command) == Action::ShowHelp,
        !help && version ==> action_spec(help, version, guide, command) == Action::ShowVersion,
        !help && !version && guide ==> action_spec(help, version, guide, command)
            == Action::ShowGuide,
{
}

/// Closing stops the container, removes it and removes the image, whatever
/// the first two report, and its outcome is that of removing the image.
pub proof fn close_removes_everything(stopped: bool, removed: bool, image_removed: bool)
    ensures
        first_step_spec(Workflow::Close) == Step::Stop,
        next_spec(Step::Stop, stopped) == Next::Run(Step::Remove),
        next_spec(Step::Remove, removed) == Next::Run(Step::RemoveImage),
        next_spec(Step::RemoveImage, image_removed) == Next::Done(
            if image_removed {
                Report::Removed
            } else {
                Report::RemovalIssue
            },
        ),
{
}

/// Creating starts the container only after the image was pulled.
pub proof fn create_starts_only_after_pull(pulled: bool)
    ensures
        first_step_spec(Workflow::Create) == Step::Pull,
        (next_spec(Step::Pull, pulled) == Next::Run(Step::Launch)) <==> pulled,
{
}

/// Where a workflow stands after its steps report the outcomes `oks`.
pub open spec fn follow(n: Next, oks: Seq<bool>) -> Next
    decreases oks.len(),
{
    match n {
        Next::Run(step) => if oks.len() == 0 {
            n
        } else {
            follow(next_spec(step, oks[0]), oks.drop_first())
        },
        Next::Done(_) => n,
    }
}

/// Every workflow ends within three docker runs, whatever they report.
pub proof fn workflows_end(w: Workflow, oks: Seq<bool>)
    requires
        oks.len() >= 3,
    ensures
        follow(Next::Run(first_step_spec(w)), oks) is Done,
{
    reveal_with_fuel(follow, 4);
    let o1 = oks.drop_first();
    let o2 = o1.drop_first();
    let o3 = o2.drop_first();
    assert(o1[0] == oks[1]);
    assert(o2[0] == oks[2]);
}


/// A failed query shows the not-running hint exactly when the lowercased
/// error says that the container is not running or does not exist; any other
/// error is shown whole, after the query's label.
pub proof fn hint_only_for_missing_container(error: Seq<char>, lowered: Seq<char>, label: Seq<char>)
    ensures
        has_infix(lowered, "is not running"@) || has_infix(lowered, "no such container"@)
            ==> failure_text(error, lowered, label) == NOT_RUNNING_HINT@,
        !has_infix(lowered, "is not running"@) && !has_infix(lowered, "no such container"@)
            ==> failure_text(error, lowered, label) == "Error running "@ + label + ": "@ + error,
{
}

/// A query's output that is not blank is shown exactly as it came, and a
/// blank one is replaced by a note naming the query.
pub proof fn output_shown_as_is(out: Seq<char>, label: Seq<char>)
    ensures
        !is_blank(out) ==> rendered(Ok(out), label) == out,
        is_blank(out) ==> rendered(Ok(out), label) == "No output from "@ + label + "."@,
{
}

proof fn newline_count_zero(t: Seq<char>)
    ensures
        newline_count(t) == 0 <==> forall|i: int| 0 <= i < t.len() ==> t[i] != '\n',
    decreases t.len(),
{
    if t.len() > 0 {
        let u = t.drop_last();
        newline_count_zero(u);
        assert forall|i: int| 0 <= i < u.len() implies u[i] == t[i] by {}
        if newline_count(t) == 0 {
            assert forall|i: int| 0 <= i < t.len() implies t[i] != '\n' by {
                if i < u.len() {
                    assert(u[i] == t[i]);
                }
            }
        }
    }
}

/// A text counts as at most one line exactly when no line feed occurs
/// before its last character.
pub proof fn at_most_one_line(s: Seq<char>)
    ensures
        line_count(s) <= 1 <==> forall|i: int| 0 <= i < s.len() - 1 ==> s[i] != '\n',
        line_count(Seq::<char>::empty()) == 0,
{
    if s.len() > 0 {
        let u = s.drop_last();
        newline_count_zero(u);
        assert forall|i: int| 0 <= i < u.len() implies u[i] == s[i] by {}
    }
}

/// An Overview listing with at most a header line, the empty text included,
/// is replaced by its note; only a listing with a data row is shown as it is.
pub proof fn short_listings_show_their_note(info: Seq<char>, missing: Seq<char>)
    ensures
        line_count(info) <= 1 ==> listing_or(info, missing) == missing,
        line_count(info) >= 2 ==> listing_or(info, missing) == info,
{
}

/// When both Overview queries come back empty, the panel says that neither
/// the container nor the image was found.
pub proof fn empty_overview_says_nothing_found(o: OverviewView)
    requires
        o.container_info.len() == 0,
        o.image_info.len() == 0,
    ensures
        overview_text(o) == "-- Container --\n"@ + "No container named 'docklab' found."@
            + "\n\n-- Image --\n"@ + "No image 'kalilinux/kali-rolling' found."@,
{
    at_most_one_line(o.container_info);
    at_most_one_line(o.image_info);
    assert(o.container_info =~= Seq::<char>::empty());
    assert(o.image_info =~= Seq::<char>::empty());
    reveal_strlit("docklab");
    reveal_strlit("kalilinux/kali-rolling");
    reveal_strlit("No container named '");
    reveal_strlit("' found.");
    reveal_strlit("No container named 'docklab' found.");
    reveal_strlit("No image '");
    reveal_strlit("No image 'kalilinux/kali-rolling' found.");
    assert("No container named '"@ + "docklab"@ + "' found."@ =~= "No container named 'docklab' found."@);
    assert("No image '"@ + "kalilinux/kali-rolling"@ + "' found."@ =~= "No image 'kalilinux/kali-rolling' found."@);
}

/// `h` and `?` toggle the help overlay and `g` the guide, whatever is open:
/// the pressed key's overlay closes where it is the one open, and otherwise
/// opens, replacing any other. The tab and the quit flag stay, and nothing
/// is fetched.
pub proof fn overlay_keys_toggle_their_overlay(s: AppState, c: char)
    requires
        c == 'h' || c == '?' || c == 'g',
    ensures
        ({
            let o = if c == 'g' {
                Overlay::Guide
            } else {
                Overlay::Help
            };
            let (t, f) = key_transition(s, Key::Char(c));
            &&& t.overlay == (if s.overlay == Some(o) {
                None
            } else {
                Some(o)
            })
            &&& t.active_tab == s.active_tab
            &&& t.should_quit == s.should_quit
            &&& f is None
        }),
        s.overlay == Some(Overlay::Help) ==> key_transition(s, Key::Char('g')).0.overlay == Some(
            Overlay::Guide,
        ),
        s.overlay == Some(Overlay::Guide) ==> key_transition(s, Key::Char('h')).0.overlay == Some(
            Overlay::Help,
        ),
{
}

proof fn trim_start_at(s: Seq<char>) -> (i: int)
    ensures
        0 <= i <= s.len(),
        trim_start(s) == s.subrange(i, s.len() as int),
        forall|k: int| 0 <= k < i ==> is_white_space(#[trigger] s[k]),
        i < s.len() ==> !is_white_space(s[i]),
    decreases s.len(),
{
    if s.len() > 0 && is_white_space(s[0]) {
        let t = s.drop_first();
        let i0 = trim_start_at(t);
        assert(t.subrange(i0, t.len() as int) =~= s.subrange(i0 + 1, s.len() as int));
        assert forall|k: int| 0 <= k < i0 + 1 implies is_white_space(#[trigger] s[k]) by {
            if k > 0 {
                assert(s[k] == t[k - 1]);
            }
        }
        if i0 + 1 < s.len() {
            assert(s[i0 + 1] == t[i0]);
        }
        i0 + 1
    } else {
        assert(s.subrange(0, s.len() as int) =~= s);
        0
    }
}

proof fn trim_end_at(s: Seq<char>) -> (j: int)
    ensures
        0 <= j <= s.len(),
        trim_end(s) == s.subrange(0, j),
        forall|k: int| j <= k < s.len() ==> is_white_space(#[trigger] s[k]),
        j > 0 ==> !is_white_space(s[j - 1]),
    decreases s.len(),
{
    if s.len() > 0 && is_white_space(s.last()) {
        let t = s.drop_last();
        let j0 = trim_end_at(t);
        assert(t.subrange(0, j0) =~= s.subrange(0, j0));
        assert forall|k: int| j0 <= k < s.len() implies is_white_space(#[trigger] s[k]) by {
            if k < s.len() - 1 {
                assert(s[k] == t[k]);
            }
        }
        if j0 > 0 {
            assert(s[j0 - 1] == t[j0 - 1]);
        }
        j0
    } else {
        assert(s.subrange(0, s.len() as int) =~= s);
        s.len() as int
    }
}

/// Trimming removes white space at both ends and nothing else: the trimmed
/// text is a contiguous part of the original, everything before and after it
/// is white space, and it neither starts nor ends with white space. Inner
/// line feeds, and so every line of the text, are kept.
pub proof fn trim_drops_only_outer_white_space(s: Seq<char>)
    ensures
        exists|i: int, j: int|
            #![trigger s.subrange(i, j)]
            0 <= i <= j <= s.len() && trim(s) == s.subrange(i, j) && (forall|k: int|
                0 <= k < i ==> is_white_space(#[trigger] s[k])) && (forall|k: int|
                j <= k < s.len() ==> is_white_space(#[trigger] s[k])) && (i < j
                ==> !is_white_space(s[i]) && !is_white_space(s[j - 1])),
{
    let i = trim_start_at(s);
    let t = trim_start(s);
    let j = trim_end_at(t);
    assert(t.subrange(0, j) =~= s.subrange(i, i + j));
    assert forall|k: int| i + j <= k < s.len() implies is_white_space(#[trigger] s[k]) by {
        assert(s[k] == t[k - i]);
    }
    if j > 0 {
        assert(s[i + j - 1] == t[j - 1]);
        assert(s[i] == t[0]);
    }
    assert(trim(s) == s.subrange(i, i + j));
}

/// A successful run yields its whole standard output with only the white
/// space at its ends removed; a failed run yields its standard error so
/// trimmed, or where that is blank the program and its exit status.
pub proof fn capture_keeps_whole_output(program: Seq<char>, launch: Launch)
    ensures
        (match launch {
            Launch::Exited { success, stdout, stderr, status } => if success {
                capture_spec(program, launch) == Ok::<Seq<char>, Seq<char>>(trim(stdout@))
            } else if !is_blank(stderr@) {
                capture_spec(program, launch) == Err::<Seq<char>, Seq<char>>(trim(stderr@))
            } else {
                capture_spec(program, launch) == Err::<Seq<char>, Seq<char>>(
                    program + " exited with "@ + status@,
                )
            },
            Launch::Unavailable { reason } => capture_spec(program, launch) == Err::<
                Seq<char>,
                Seq<char>,
            >("failed to execute '"@ + program + "': "@ + reason@),
        }),
{
}

/// With no flag, each subcommand asks for its own action: `create` pulls
/// first, `close` stops and removes, `reconnect` attaches, `mon` opens the
/// dashboard, and no two subcommands ask for the same.
pub proof fn subcommands_do_their_own_thing(c1: Command, c2: Command)
    ensures
        action_spec(false, false, false, Some(Command::Create)) == Action::Run(Workflow::Create),
        action_spec(false, false, false, Some(Command::Close)) == Action::Run(Workflow::Close),
        action_spec(false, false, false, Some(Command::Mon)) == Action::Monitor,
        action_spec(false, false, false, Some(Command::Reconnect)) == Action::Run(
            Workflow::Reconnect,
        ),
        action_spec(false, false, false, None) == Action::MissingCommand,
        c1 != c2 ==> action_spec(false, false, false, Some(c1)) != action_spec(
            false,
            false,
            false,
            Some(c2),
        ),
        action_spec(false, false, false, Some(Command::Close)) matches Action::Run(w)
            && first_step_spec(w) == Step::Stop,
        action_spec(false, false, false, Some(Command::Create)) matches Action::Run(w)
            && first_step_spec(w) == Step::Pull,
        action_spec(false, false, false, Some(Command::Reconnect)) matches Action::Run(w)
            && first_step_spec(w) == Step::Attach,
{
}


/// With an overlay open, keys other than Esc, `q`, `h`, `?` and `g` do
/// nothing.
pub proof fn overlay_open_ignores_other_keys(s: AppState, k: Key)
    requires
        s.overlay is Some,
        k != Key::Esc,
        k != Key::Char('q'),
        k != Key::Char('h'),
        k != Key::Char('?'),
        k != Key::Char('g'),
    ensures
        key_transition(s, k) == (s, None::<Fetch>),
{
}

/// With no overlay open, `1` to `5` show Overview, Stats, Disk Usage,
/// Network and Processes; only Disk Usage and Network are fetched on the
/// switch.
pub proof fn digit_keys_select_tabs(s: AppState)
    requires
        s.overlay is None,
    ensures
        key_transition(s, Key::Char('1')) == (AppState { active_tab: Tab::Overview, ..s }, None::<Fetch>),
        key_transition(s, Key::Char('2')) == (AppState { active_tab: Tab::Stats, ..s }, None::<Fetch>),
        key_transition(s, Key::Char('3')) == (AppState { active_tab: Tab::Disk, ..s }, Some(Fetch::DiskUsage)),
        key_transition(s, Key::Char('4')) == (AppState { active_tab: Tab::Network, ..s }, Some(Fetch::Network)),
        key_transition(s, Key::Char('5')) == (AppState { active_tab: Tab::Processes, ..s }, None::<Fetch>),
        key_transition(s, Key::Char('0')) == (s, None::<Fetch>),
        key_transition(s, Key::Char('6')) == (s, None::<Fetch>),
{
}

/// Storing fetched data replaces the data of its own panel and nothing else.
pub proof fn store_changes_only_its_panel(s: AppState, data: Fetched)
    ensures
        ({
            let t = stored(s, data);
            &&& t.active_tab == s.active_tab
            &&& t.overlay == s.overlay
            &&& t.should_quit == s.should_quit
            &&& t.refreshed_at == s.refreshed_at
            &&& t.overview == (match data {
                Fetched::Overview(o) => o@,
                _ => s.overview,
            })
            &&& t.stats == (match data {
                Fetched::Stats(r) => result_view(r),
                _ => s.stats,
            })
            &&& t.disk_usage == (match data {
                Fetched::DiskUsage(r) => Some(result_view(r)),
                _ => s.disk_usage,
            })
            &&& t.network == (match data {
                Fetched::Network(r) => Some(result_view(r)),
                _ => s.network,
            })
            &&& t.processes == (match data {
                Fetched::Processes(r) => result_view(r),
                _ => s.processes,
            })
        }),
{
}

/// The container runs exactly when the running-state query answers `true`
/// (around white space); it is stopped on any other answer, and missing when
/// there is no answer.
pub proof fn run_state_follows_inspect(raw: Seq<char>)
    ensures
        trim(raw) == "true"@ <==> run_state_spec(raw) == RunState::Running,
        is_blank(raw) <==> run_state_spec(raw) == RunState::NotCreated,
{
    reveal_strlit("true");
    if is_blank(raw) {
        assert(trim(raw).len() == 0);
    }
}

} // verus!
