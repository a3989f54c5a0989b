//! What the dashboard asks `docker` for, and how the answers become panel
//! data and panel text.

use vstd::prelude::*;
use vstd::string::*;
use crate::text::{
    blank, contains, has_infix, is_blank, lowercase, lowercase_of, trim, trimmed,
};

verus! {

/// The name of the lab container.
pub const CONTAINER_NAME: &'static str = "docklab";

/// The image the lab container is created from.
pub const IMAGE_NAME: &'static str = "kalilinux/kali-rolling";

/// Whether the lab container exists and runs.
#[derive(Clone, Copy, PartialEq, Eq, Debug, Structural)]
pub enum RunState {
    Running,
    Stopped,
    NotCreated,
}

impl RunState {
    /// The status bar's badge for the run state.
    pub fn label(&self) -> (r: &'static str)
        ensures
            r@ == (match *self {
                RunState::Running => "RUNNING"@,
                RunState::Stopped => "STOPPED"@,
                RunState::NotCreated => "NOT CREATED"@,
            }),
    {
        match self {
            RunState::Running => "RUNNING",
            RunState::Stopped => "STOPPED",
            RunState::NotCreated => "NOT CREATED",
        }
    }
}

/// The facts the Overview panel shows.
pub struct OverviewData {
    pub container_info: String,
    pub image_info: String,
    pub running: RunState,
}

/// The Overview panel's data, taken by its texts.
pub struct OverviewView {
    pub container_info: Seq<char>,
    pub image_info: Seq<char>,
    pub running: RunState,
}

impl View for OverviewData {
    type V = OverviewView;

    open spec fn view(&self) -> OverviewView {
        OverviewView {
            container_info: self.container_info@,
            image_info: self.image_info@,
            running: self.running,
        }
    }
}

/// The run state that `docker inspect -f {{.State.Running}}` reports:
/// `true` means running, any other non-blank answer means stopped, and no
/// answer means the container does not exist.
pub open spec fn run_state_spec(raw: Seq<char>) -> RunState {
    if trim(raw) == "true"@ {
        RunState::Running
    } else if !is_blank(raw) {
        RunState::Stopped
    } else {
        RunState::NotCreated
    }
}

/// The run state that the raw output of the running-state query stands for.
pub fn run_state_of(raw: &str) -> (r: RunState)
    ensures
        r == run_state_spec(raw@),
{
    let t = trimmed(raw);
    let yes = String::from_str("true");
    if t == yes {
        RunState::Running
    } else if !blank(raw) {
        RunState::Stopped
    } else {
        RunState::NotCreated
    }
}

/// The text of a query's output, or the empty text where the query failed.
pub open spec fn text_or_empty(r: Result<String, String>) -> Seq<char> {
    match r {
        Ok(s) => s@,
        Err(_) => Seq::empty(),
    }
}

fn unwrap_or_empty(r: Result<String, String>) -> (s: String)
    ensures
        s@ == text_or_empty(r),
{
    match r {
        Ok(s) => s,
        Err(_) => String::new(),
    }
}

/// The Overview panel's data from the outputs of its three queries: the
/// container listing, the image listing and the running state. A failed
/// query counts as empty output.
pub fn overview_from(
    container: Result<String, String>,
    image: Result<String, String>,
    running: Result<String, String>,
) -> (o: OverviewData)
    ensures
        o.container_info@ == text_or_empty(container),
        o.image_info@ == text_or_empty(image),
        o.running == run_state_spec(text_or_empty(running)),
{
    let c = unwrap_or_empty(container);
    let i = unwrap_or_empty(image);
    let r = unwrap_or_empty(running);
    let state = run_state_of(r.as_str());
    OverviewData { container_info: c, image_info: i, running: state }
}


/// A result of text with its texts taken by their views.
pub open spec fn result_view(r: Result<String, String>) -> Result<Seq<char>, Seq<char>> {
    match r {
        Ok(s) => Ok(s@),
        Err(e) => Err(e@),
    }
}

/// How one run of an outside program went.
pub enum Launch {
    /// The program ran and exited; `status` is its exit status as text.
    Exited { success: bool, stdout: String, stderr: String, status: String },
    /// The program could not be started, for `reason`.
    Unavailable { reason: String },
}

/// What a captured run of `program` amounts to: on success its standard
/// output, trimmed; on failure its standard error, trimmed, or where that is
/// blank a line naming the program and its exit status; and where the
/// program could not be started, a line saying so.
pub open spec fn capture_spec(program: Seq<char>, launch: Launch) -> Result<Seq<char>, Seq<char>> {
    match launch {
        Launch::Exited { success, stdout, stderr, status } => {
            if success {
                Ok(trim(stdout@))
            } else if trim(stderr@).len() == 0 {
                Err(program + " exited with "@ + status@)
            } else {
                Err(trim(stderr@))
            }
        },
        Launch::Unavailable { reason } => Err("failed to execute '"@ + program + "': "@ + reason@),
    }
}

/// The outcome of running `program`, as the panels use it.
pub fn capture_outcome(program: &str, launch: Launch) -> (r: Result<String, String>)
    ensures
        result_view(r) == capture_spec(program@, launch),
        (match launch {
            Launch::Exited { success, stdout, stderr, status } => {
                if success {
                    r matches Ok(out) && out@ == trim(stdout@)
                } else if !is_blank(stderr@) {
                    r matches Err(e) && e@ == trim(stderr@)
                } else {
                    r matches Err(e) && e@ == program@ + " exited with "@ + status@
                }
            },
            Launch::Unavailable { reason } => r matches Err(e) && e@ == "failed to execute '"@
                + program@ + "': "@ + reason@,
        }),
{
    match launch {
        Launch::Exited { success, stdout, stderr, status } => {
            if success {
                Ok(trimmed(stdout.as_str()))
            } else {
                let e = trimmed(stderr.as_str());
                if e.as_str().unicode_len() == 0 {
                    let mut m = String::from_str(program);
                    m.append(" exited with ");
                    m.append(status.as_str());
                    Err(m)
                } else {
                    Err(e)
                }
            }
        },
        Launch::Unavailable { reason } => {
            let mut m = String::from_str("failed to execute '");
            m.append(program);
            m.append("': ");
            m.append(reason.as_str());
            Err(m)
        },
    }
}

/// A program and its arguments.
pub struct Invocation {
    pub program: String,
    pub args: Vec<String>,
}

/// The texts of a list of strings.
pub open spec fn texts(v: Seq<String>) -> Seq<Seq<char>> {
    v.map_values(|a: String| a@)
}

impl View for Invocation {
    type V = (Seq<char>, Seq<Seq<char>>);

    open spec fn view(&self) -> (Seq<char>, Seq<Seq<char>>) {
        (self.program@, texts(self.args@))
    }
}

fn strings(parts: &[&str]) -> (v: Vec<String>)
    ensures
        v@.len() == parts@.len(),
        forall|i: int| 0 <= i < parts@.len() ==> #[trigger] v@[i]@ == parts@[i]@,
{
    let mut v: Vec<String> = Vec::new();
    let mut i: usize = 0;
    while i < parts.len()
        invariant
            i <= parts@.len(),
            v@.len() == i,
            forall|j: int| 0 <= j < i ==> #[trigger] v@[j]@ == parts@[j]@,
        decreases parts@.len() - i,
    {
        v.push(String::from_str(parts[i]));
        i = i + 1;
    }
    v
}

/// The shell invocation that runs `script` (`sh -c script`).
pub fn shell_invocation(script: String) -> (r: Invocation)
    ensures
        r@ == ("sh"@, seq!["-c"@, script@]),
{
    let mut args: Vec<String> = Vec::new();
    args.push(String::from_str("-c"));
    args.push(script);
    let r = Invocation { program: String::from_str("sh"), args };
    assert(texts(r.args@) =~= seq!["-c"@, script@]);
    r
}

/// The template `docker ps` formats the container listing with.
pub const CONTAINER_TABLE: &'static str = "table {{.Names}}\\t{{.Status}}\\t{{.Image}}\\t{{.ID}}";

/// The template `docker images` formats the image listing with.
pub const IMAGE_TABLE: &'static str = "table {{.Repository}}\\t{{.Tag}}\\t{{.ID}}\\t{{.Size}}";

/// The template `docker inspect` reports the running state with.
pub const RUNNING_TEMPLATE: &'static str = "{{.State.Running}}";

/// What a panel's data is fetched for.
#[derive(Clone, Copy, PartialEq, Eq, Debug, Structural)]
pub enum Fetch {
    Overview,
    Stats,
    DiskUsage,
    Network,
    Processes,
}

/// The shell script that shows the container's network settings.
pub open spec fn network_script() -> Seq<char> {
    "docker inspect "@ + CONTAINER_NAME@ + " | grep -A 10 NetworkSettings"@
}

/// The programs run, in order, to fetch the data for `f`.
pub open spec fn invocations_spec(f: Fetch) -> Seq<(Seq<char>, Seq<Seq<char>>)> {
    match f {
        Fetch::Overview => seq![
            ("docker"@, seq!["ps"@, "-a"@, "--filter"@, "name="@ + CONTAINER_NAME@, "--format"@, CONTAINER_TABLE@]),
            ("docker"@, seq!["images"@, IMAGE_NAME@, "--format"@, IMAGE_TABLE@]),
            ("docker"@, seq!["inspect"@, "-f"@, RUNNING_TEMPLATE@, CONTAINER_NAME@]),
        ],
        Fetch::Stats => seq![("docker"@, seq!["stats"@, "--no-stream"@, CONTAINER_NAME@])],
        Fetch::DiskUsage => seq![("docker"@, seq!["system"@, "df"@, "-v"@])],
        Fetch::Network => seq![("sh"@, seq!["-c"@, network_script()])],
        Fetch::Processes => seq![("docker"@, seq!["top"@, CONTAINER_NAME@])],
    }
}

fn docker(parts: &[&str]) -> (r: Invocation)
    ensures
        r.program@ == "docker"@,
        texts(r.args@) == parts@.map_values(|p: &str| p@),
{
    let args = strings(parts);
    let r = Invocation { program: String::from_str("docker"), args };
    assert(texts(r.args@) =~= parts@.map_values(|p: &str| p@));
    r
}

/// The data fetched for one panel.
pub enum Fetched {
    Overview(OverviewData),
    Stats(Result<String, String>),
    DiskUsage(Result<String, String>),
    Network(Result<String, String>),
    Processes(Result<String, String>),
}

impl Fetch {
    /// The programs to run, in order, to fetch the data for this panel.
    pub fn invocations(&self) -> (r: Vec<Invocation>)
        ensures
            r@.len() == invocations_spec(*self).len(),
            forall|i: int| 0 <= i < r@.len() ==> #[trigger] r@[i]@ == invocations_spec(*self)[i],
    {
        let mut r: Vec<Invocation> = Vec::new();
        match self {
            Fetch::Overview => {
                let mut filter = String::from_str("name=");
                filter.append(CONTAINER_NAME);
                let mut args = strings(&["ps", "-a", "--filter"]);
                args.push(filter);
                args.push(String::from_str("--format"));
                args.push(String::from_str(CONTAINER_TABLE));
                assert(args@[0]@ == "ps"@ && args@[1]@ == "-a"@ && args@[2]@ == "--filter"@);
                let a = Invocation { program: String::from_str("docker"), args };
                assert(texts(a.args@) =~= seq!["ps"@, "-a"@, "--filter"@, "name="@ + CONTAINER_NAME@, "--format"@, CONTAINER_TABLE@]);
                let b = docker(&["images", IMAGE_NAME, "--format", IMAGE_TABLE]);
                assert(texts(b.args@) =~= seq!["images"@, IMAGE_NAME@, "--format"@, IMAGE_TABLE@]);
                let c = docker(&["inspect", "-f", RUNNING_TEMPLATE, CONTAINER_NAME]);
                assert(texts(c.args@) =~= seq!["inspect"@, "-f"@, RUNNING_TEMPLATE@, CONTAINER_NAME@]);
                r.push(a);
                r.push(b);
                r.push(c);
            },
            Fetch::Stats => {
                let a = docker(&["stats", "--no-stream", CONTAINER_NAME]);
                assert(texts(a.args@) =~= seq!["stats"@, "--no-stream"@, CONTAINER_NAME@]);
                r.push(a);
            },
            Fetch::DiskUsage => {
                let a = docker(&["system", "df", "-v"]);
                assert(texts(a.args@) =~= seq!["system"@, "df"@, "-v"@]);
                r.push(a);
            },
            Fetch::Network => {
                let mut script = String::from_str("docker inspect ");
                script.append(CONTAINER_NAME);
                script.append(" | grep -A 10 NetworkSettings");
                r.push(shell_invocation(script));
            },
            Fetch::Processes => {
                let a = docker(&["top", CONTAINER_NAME]);
                assert(texts(a.args@) =~= seq!["top"@, CONTAINER_NAME@]);
                r.push(a);
            },
        }
        r
    }

    /// The panel data made of the outputs of this panel's invocations, in
    /// the order `invocations` lists them.
    pub fn complete(&self, outputs: Vec<Result<String, String>>) -> (r: Fetched)
        requires
            outputs@.len() == invocations_spec(*self).len(),
        ensures
            *self == Fetch::Overview ==> (r matches Fetched::Overview(o) && o.container_info@
                == text_or_empty(outputs@[0]) && o.image_info@ == text_or_empty(outputs@[1])
                && o.running == run_state_spec(text_or_empty(outputs@[2]))),
            *self == Fetch::Stats ==> r == Fetched::Stats(outputs@[0]),
            *self == Fetch::DiskUsage ==> r == Fetched::DiskUsage(outputs@[0]),
            *self == Fetch::Network ==> r == Fetched::Network(outputs@[0]),
            *self == Fetch::Processes ==> r == Fetched::Processes(outputs@[0]),
    {
        let ghost given = outputs@;
        let mut outputs = outputs;
        match self {
            Fetch::Overview => {
                let running = outputs.pop().unwrap();
                let image = outputs.pop().unwrap();
                let container = outputs.pop().unwrap();
                Fetched::Overview(overview_from(container, image, running))
            },
            Fetch::Stats => Fetched::Stats(outputs.pop().unwrap()),
            Fetch::DiskUsage => Fetched::DiskUsage(outputs.pop().unwrap()),
            Fetch::Network => Fetched::Network(outputs.pop().unwrap()),
            Fetch::Processes => Fetched::Processes(outputs.pop().unwrap()),
        }
    }
}

/// The hint shown in place of a docker error that says the container is
/// missing or stopped.
pub const NOT_RUNNING_HINT: &'static str = "Container not running \u{2014} run 'lab create' to start it.";

/// The panel text for a failed query: the not-running hint where the
/// lowercased error mentions that the container is not running or does not
/// exist, otherwise the error itself, introduced by the query's label.
pub open spec fn failure_text(error: Seq<char>, lowered: Seq<char>, label: Seq<char>) -> Seq<char> {
    if has_infix(lowered, "is not running"@) || has_infix(lowered, "no such container"@) {
        NOT_RUNNING_HINT@
    } else {
        "Error running "@ + label + ": "@ + error
    }
}

/// The panel text for a query's result: its output where that is not blank,
/// a note that there was no output where it is, and for an error the text
/// `failure_text` gives on the error and its lowercase form.
pub open spec fn rendered(res: Result<Seq<char>, Seq<char>>, label: Seq<char>) -> Seq<char> {
    match res {
        Ok(s) => if !is_blank(s) {
            s
        } else {
            "No output from "@ + label + "."@
        },
        Err(e) => failure_text(e, lowercase_of(e), label),
    }
}

/// The panel text for a failed query, given the error and its lowercase form.
pub fn describe_failure(error: &str, lowered: &str, label: &str) -> (r: String)
    ensures
        r@ == failure_text(error@, lowered@, label@),
        has_infix(lowered@, "is not running"@) || has_infix(lowered@, "no such container"@)
            ==> r@ == NOT_RUNNING_HINT@,
        !has_infix(lowered@, "is not running"@) && !has_infix(lowered@, "no such container"@)
            ==> r@ == "Error running "@ + label@ + ": "@ + error@,
{
    if contains(lowered, "is not running") || contains(lowered, "no such container") {
        String::from_str(NOT_RUNNING_HINT)
    } else {
        let mut m = String::from_str("Error running ");
        m.append(label);
        m.append(": ");
        m.append(error);
        m
    }
}

/// Turns a raw docker result into panel text, mapping "container not
/// running" style failures to a friendly hint instead of the raw error.
pub fn render_result(res: &Result<String, String>, label: &str) -> (r: String)
    ensures
        r@ == rendered(result_view(*res), label@),
        (match *res {
            Ok(s) => if !is_blank(s@) {
                r@ == s@
            } else {
                r@ == "No output from "@ + label@ + "."@
            },
            Err(e) => if has_infix(lowercase_of(e@), "is not running"@) || has_infix(
                lowercase_of(e@),
                "no such container"@,
            ) {
                r@ == NOT_RUNNING_HINT@
            } else {
                r@ == "Error running "@ + label@ + ": "@ + e@
            },
        }),
{
    match res {
        Ok(s) => {
            if !blank(s.as_str()) {
                s.clone()
            } else {
                let mut m = String::from_str("No output from ");
                m.append(label);
                m.append(".");
                m
            }
        },
        Err(e) => {
            let lowered = lowercase(e.as_str());
            describe_failure(e.as_str(), lowered.as_str(), label)
        },
    }
}

} // verus!
