use docklab::cli::{
    dispatch, first_step, next_after, running_line, with_post, Action, Command, Next, Report,
    Step, Workflow, SETUP_SCRIPT,
};

fn line(step: Step) -> Vec<String> {
    let inv = step.command_line();
    let mut v = vec![inv.program.clone()];
    v.extend(inv.args.iter().cloned());
    v
}

#[test]
fn flags_come_before_subcommands() {
    assert_eq!(dispatch(true, true, true, Some(Command::Create)), Action::ShowHelp);
    assert_eq!(dispatch(false, true, true, Some(Command::Close)), Action::ShowVersion);
    assert_eq!(dispatch(false, false, true, Some(Command::Mon)), Action::ShowGuide);
    assert_eq!(dispatch(false, false, false, Some(Command::Mon)), Action::Monitor);
    assert_eq!(
        dispatch(false, false, false, Some(Command::Reconnect)),
        Action::Run(Workflow::Reconnect)
    );
    assert_eq!(dispatch(false, false, false, None), Action::MissingCommand);
}

#[test]
fn create_runs_only_after_pull() {
    assert_eq!(first_step(Workflow::Create), Step::Pull);
    assert_eq!(next_after(Step::Pull, false), Next::Done(Report::PullFailed));
    assert_eq!(next_after(Step::Pull, true), Next::Run(Step::Launch));
    assert_eq!(next_after(Step::Launch, true), Next::Done(Report::SessionEnded));
    assert_eq!(next_after(Step::Launch, false), Next::Done(Report::LaunchFailed));
}

#[test]
fn close_runs_every_step() {
    assert_eq!(first_step(Workflow::Close), Step::Stop);
    assert_eq!(next_after(Step::Stop, false), Next::Run(Step::Remove));
    assert_eq!(next_after(Step::Remove, false), Next::Run(Step::RemoveImage));
    assert_eq!(next_after(Step::RemoveImage, false), Next::Done(Report::RemovalIssue));
    assert_eq!(next_after(Step::RemoveImage, true), Next::Done(Report::Removed));
}

#[test]
fn reconnect_attaches_once() {
    assert_eq!(first_step(Workflow::Reconnect), Step::Attach);
    assert_eq!(next_after(Step::Attach, true), Next::Done(Report::Reattached));
    assert_eq!(next_after(Step::Attach, false), Next::Done(Report::ReattachFailed));
}

#[test]
fn step_command_lines() {
    assert_eq!(line(Step::Pull), vec!["docker", "pull", "kalilinux/kali-rolling"]);
    assert_eq!(line(Step::Stop), vec!["docker", "stop", "docklab"]);
    assert_eq!(line(Step::Remove), vec!["docker", "rm", "-f", "docklab"]);
    assert_eq!(line(Step::RemoveImage), vec!["docker", "rmi", "-f", "kalilinux/kali-rolling"]);
    assert_eq!(line(Step::Attach), vec!["docker", "start", "-ai", "docklab"]);
    let launch = line(Step::Launch);
    let setup = format!("{}; exec bash", SETUP_SCRIPT);
    assert_eq!(
        launch,
        vec!["docker", "run", "-it", "--name", "docklab", "kalilinux/kali-rolling", "bash", "-c", setup.as_str()]
    );
    assert!(SETUP_SCRIPT.starts_with("apt update -y && apt upgrade -y"));
}

#[test]
fn post_command_keeps_a_shell() {
    let args = vec!["a".to_string()];
    assert_eq!(with_post(args.clone(), ""), vec!["a"]);
    assert_eq!(with_post(args, "ls"), vec!["a", "-c", "ls; exec bash"]);
}

#[test]
fn verbose_line_lists_the_command() {
    let inv = Step::Remove.command_line();
    assert_eq!(running_line(&inv), "[verbose] Running: docker rm -f docklab");
    let bare = docklab::data::Invocation { program: "docker".to_string(), args: vec![] };
    assert_eq!(running_line(&bare), "[verbose] Running: docker ");
}
