//! The command-line front end's decisions: which action a command line asks
//! for, and the docker steps each lab workflow runs, in order.

use vstd::prelude::*;
use vstd::string::*;
use crate::data::{texts, Invocation, CONTAINER_NAME, IMAGE_NAME};

verus! {

/// The subcommands.
#[derive(Clone, Copy, PartialEq, Eq, Debug, Structural)]
pub enum Command {
    Create,
    Close,
    Mon,
    Reconnect,
}

/// The lab workflows that run docker in the foreground.
#[derive(Clone, Copy, PartialEq, Eq, Debug, Structural)]
pub enum Workflow {
    Create,
    Close,
    Reconnect,
}

/// What a command line asks for.
#[derive(Clone, Copy, PartialEq, Eq, Debug, Structural)]
pub enum Action {
    ShowHelp,
    ShowVersion,
    ShowGuide,
    Run(Workflow),
    Monitor,
    /// No flag and no subcommand: the help is shown.
    MissingCommand,
}

/// The action for the given flags and subcommand. Flags take priority over
/// subcommands, in the order help, version, guide.
pub open spec fn action_spec(help: bool, version: bool, guide: bool, command: Option<Command>) -> Action {
    if help {
        Action::ShowHelp
    } else if version {
        Action::ShowVersion
    } else if guide {
        Action::ShowGuide
    } else {
        match command {
            Some(Command::Create) => Action::Run(Workflow::Create),
            Some(Command::Close) => Action::Run(Workflow::Close),
            Some(Command::Mon) => Action::Monitor,
            Some(Command::Reconnect) => Action::Run(Workflow::Reconnect),
            None => Action::MissingCommand,
        }
    }
}

/// The action for the given flags and subcommand.
pub fn dispatch(help: bool, version: bool, guide: bool, command: Option<Command>) -> (a: Action)
    ensures
        a == action_spec(help, version, guide, command),
        help ==> a == Action::ShowHelp,
        !help && version ==> a == Action::ShowVersion,
        !help && !version && guide ==> a == Action::ShowGuide,
        !help && !version && !guide ==> a == (match command {
            Some(Command::Create) => Action::Run(Workflow::Create),
            Some(Command::Close) => Action::Run(Workflow::Close),
            Some(Command::Mon) => Action::Monitor,
            Some(Command::Reconnect) => Action::Run(Workflow::Reconnect),
            None => Action::MissingCommand,
        }),
{
    if help {
        Action::ShowHelp
    } else if version {
        Action::ShowVersion
    } else if guide {
        Action::ShowGuide
    } else {
        match command {
            Some(Command::Create) => Action::Run(Workflow::Create),
            Some(Command::Close) => Action::Run(Workflow::Close),
            Some(Command::Mon) => Action::Monitor,
            Some(Command::Reconnect) => Action::Run(Workflow::Reconnect),
            None => Action::MissingCommand,
        }
    }
}

/// One docker run of a workflow.
#[derive(Clone, Copy, PartialEq, Eq, Debug, Structural)]
pub enum Step {
    /// Pull the image.
    Pull,
    /// Start the lab container interactively.
    Launch,
    /// Stop the container.
    Stop,
    /// Remove the container.
    Remove,
    /// Remove the image.
    RemoveImage,
    /// Re-attach to the existing container.
    Attach,
}

/// How a workflow ended.
#[derive(Clone, Copy, PartialEq, Eq, Debug, Structural)]
pub enum Report {
    /// The pull failed, so nothing was started.
    PullFailed,
    /// The interactive session ran and ended.
    SessionEnded,
    /// The container could not be started.
    LaunchFailed,
    /// Container and image are gone.
    Removed,
    /// Removing the image reported a problem.
    RemovalIssue,
    /// The session in the re-attached container ended.
    Reattached,
    /// Re-attaching failed.
    ReattachFailed,
}

/// What follows a step.
#[derive(Clone, Copy, PartialEq, Eq, Debug, Structural)]
pub enum Next {
    Run(Step),
    Done(Report),
}

/// The first step of a workflow.
pub open spec fn first_step_spec(w: Workflow) -> Step {
    match w {
        Workflow::Create => Step::Pull,
        Workflow::Close => Step::Stop,
        Workflow::Reconnect => Step::Attach,
    }
}

/// What follows `step`, given whether it succeeded. Creating pulls the
/// image, and only where that worked starts the container; closing stops
/// the container, removes it and removes the image whatever each of these
/// reports, and judges the outcome by the last; reconnecting attaches once.
pub open spec fn next_spec(step: Step, ok: bool) -> Next {
    match step {
        Step::Pull => if ok {
            Next::Run(Step::Launch)
        } else {
            Next::Done(Report::PullFailed)
        },
        Step::Launch => if ok {
            Next::Done(Report::SessionEnded)
        } else {
            Next::Done(Report::LaunchFailed)
        },
        Step::Stop => Next::Run(Step::Remove),
        Step::Remove => Next::Run(Step::RemoveImage),
        Step::RemoveImage => if ok {
            Next::Done(Report::Removed)
        } else {
            Next::Done(Report::RemovalIssue)
        },
        Step::Attach => if ok {
            Next::Done(Report::Reattached)
        } else {
            Next::Done(Report::ReattachFailed)
        },
    }
}

/// The first step of a workflow.
pub fn first_step(w: Workflow) -> (s: Step)
    ensures
        s == first_step_spec(w),
{
    match w {
        Workflow::Create => Step::Pull,
        Workflow::Close => Step::Stop,
        Workflow::Reconnect => Step::Attach,
    }
}

/// What follows `step`, given whether it succeeded.
pub fn next_after(step: Step, ok: bool) -> (n: Next)
    ensures
        n == next_spec(step, ok),
{
    match step {
        Step::Pull => if ok {
            Next::Run(Step::Launch)
        } else {
            Next::Done(Report::PullFailed)
        },
        Step::Launch => if ok {
            Next::Done(Report::SessionEnded)
        } else {
            Next::Done(Report::LaunchFailed)
        },
        Step::Stop => Next::Run(Step::Remove),
        Step::Remove => Next::Run(Step::RemoveImage),
        Step::RemoveImage => if ok {
            Next::Done(Report::Removed)
        } else {
            Next::Done(Report::RemovalIssue)
        },
        Step::Attach => if ok {
            Next::Done(Report::Reattached)
        } else {
            Next::Done(Report::ReattachFailed)
        },
    }
}

/// The shell command run inside a newly started lab container before its
/// interactive shell: update the system, install a base tool set and set
/// the prompt.
pub const SETUP_SCRIPT: &'static str = r#"apt update -y && apt upgrade -y && apt install -y curl wget nmap nano git net-tools lynis && echo "PS1='┌──(DockLAB<~>\h)-[\w]\n└─# '" >> ~/.bashrc"#;

/// The arguments `args` with a follow-up shell command attached: where
/// `post` is not empty, `-c` and `post` followed by `; exec bash`, so that an
/// interactive shell remains once it is done.
pub open spec fn with_post_spec(args: Seq<Seq<char>>, post: Seq<char>) -> Seq<Seq<char>> {
    if post.len() == 0 {
        args
    } else {
        args + seq!["-c"@, post + "; exec bash"@]
    }
}

/// `args` with the follow-up shell command `post` attached.
pub fn with_post(args: Vec<String>, post: &str) -> (r: Vec<String>)
    ensures
        texts(r@) == with_post_spec(texts(args@), post@),
{
    let ghost given = args@;
    let mut r = args;
    if post.unicode_len() != 0 {
        let mut combined = String::from_str(post);
        combined.append("; exec bash");
        r.push(String::from_str("-c"));
        r.push(combined);
        assert(texts(r@) =~= texts(given) + seq!["-c"@, post@ + "; exec bash"@]);
    }
    r
}

/// The docker arguments of a step, before any follow-up command.
pub open spec fn step_args(step: Step) -> Seq<Seq<char>> {
    match step {
        Step::Pull => seq!["pull"@, IMAGE_NAME@],
        Step::Launch => seq!["run"@, "-it"@, "--name"@, CONTAINER_NAME@, IMAGE_NAME@, "bash"@],
        Step::Stop => seq!["stop"@, CONTAINER_NAME@],
        Step::Remove => seq!["rm"@, "-f"@, CONTAINER_NAME@],
        Step::RemoveImage => seq!["rmi"@, "-f"@, IMAGE_NAME@],
        Step::Attach => seq!["start"@, "-ai"@, CONTAINER_NAME@],
    }
}

/// The follow-up shell command of a step: only starting the container has
/// one.
pub open spec fn step_post(step: Step) -> Seq<char> {
    match step {
        Step::Launch => SETUP_SCRIPT@,
        _ => Seq::empty(),
    }
}

fn words(parts: &[&str]) -> (v: Vec<String>)
    ensures
        texts(v@) == parts@.map_values(|p: &str| p@),
{
    let mut v: Vec<String> = Vec::new();
    let mut i: usize = 0;
    while i < parts.len()
        invariant
            i <= parts@.len(),
            texts(v@) == parts@.take(i as int).map_values(|p: &str| p@),
        decreases parts@.len() - i,
    {
        let ghost before = v@;
        v.push(String::from_str(parts[i]));
        assert(texts(v@) =~= texts(before).push(parts@[i as int]@));
        assert(parts@.take(i + 1) =~= parts@.take(i as int).push(parts@[i as int]));
        i = i + 1;
    }
    assert(parts@.take(parts@.len() as int) =~= parts@);
    v
}

impl Step {
    /// The docker command line of the step, follow-up command included.
    pub fn command_line(&self) -> (r: Invocation)
        ensures
            r@ == ("docker"@, with_post_spec(step_args(*self), step_post(*self))),
    {
        let (args, post) = match self {
            Step::Pull => (words(&["pull", IMAGE_NAME]), ""),
            Step::Launch => (words(&["run", "-it", "--name", CONTAINER_NAME, IMAGE_NAME, "bash"]), SETUP_SCRIPT),
            Step::Stop => (words(&["stop", CONTAINER_NAME]), ""),
            Step::Remove => (words(&["rm", "-f", CONTAINER_NAME]), ""),
            Step::RemoveImage => (words(&["rmi", "-f", IMAGE_NAME]), ""),
            Step::Attach => (words(&["start", "-ai", CONTAINER_NAME]), ""),
        };
        proof {
            reveal_strlit("");
        }
        assert(texts(args@) =~= step_args(*self));
        assert(post@ == step_post(*self));
        let full = with_post(args, post);
        Invocation { program: String::from_str("docker"), args: full }
    }
}

/// The words of `v` joined by single spaces.
pub open spec fn joined(v: Seq<Seq<char>>) -> Seq<char>
    decreases v.len(),
{
    if v.len() == 0 {
        Seq::empty()
    } else if v.len() == 1 {
        v[0]
    } else {
        joined(v.drop_last()) + " "@ + v.last()
    }
}

/// The line verbose mode prints before running `inv`.
pub fn running_line(inv: &Invocation) -> (r: String)
    ensures
        r@ == "[verbose] Running: "@ + inv.program@ + " "@ + joined(texts(inv.args@)),
{
    let mut r = String::from_str("[verbose] Running: ");
    r.append(inv.program.as_str());
    r.append(" ");
    let n = inv.args.len();
    let mut i: usize = 0;
    let ghost head = "[verbose] Running: "@ + inv.program@ + " "@;
    while i < n
        invariant
            n == inv.args@.len(),
            i <= n,
            r@ == head + joined(texts(inv.args@).take(i as int)),
        decreases n - i,
    {
        let ghost all = texts(inv.args@);
        assert(all.take(i + 1).drop_last() =~= all.take(i as int));
        if i > 0 {
            r.append(" ");
        }
        r.append(inv.args[i].as_str());
        i = i + 1;
    }
    assert(texts(inv.args@).take(n as int) =~= texts(inv.args@));
    r
}

} // verus!
