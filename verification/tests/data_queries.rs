use docklab::data::{
    capture_outcome, overview_from, run_state_of, shell_invocation, Fetch, Fetched, Invocation,
    Launch, RunState, CONTAINER_NAME, IMAGE_NAME,
};

fn line(inv: &Invocation) -> Vec<String> {
    let mut v = vec![inv.program.clone()];
    v.extend(inv.args.iter().cloned());
    v
}

#[test]
fn run_state_reads_inspect_output() {
    assert_eq!(run_state_of("true"), RunState::Running);
    assert_eq!(run_state_of(" true\n"), RunState::Running);
    assert_eq!(run_state_of("false"), RunState::Stopped);
    assert_eq!(run_state_of("True"), RunState::Stopped);
    assert_eq!(run_state_of(""), RunState::NotCreated);
    assert_eq!(run_state_of(" \n"), RunState::NotCreated);
}

#[test]
fn overview_counts_failures_as_empty() {
    let o = overview_from(
        Ok("NAMES\ndocklab".to_string()),
        Err("boom".to_string()),
        Err("Error: No such object: docklab".to_string()),
    );
    assert_eq!(o.container_info, "NAMES\ndocklab");
    assert_eq!(o.image_info, "");
    assert_eq!(o.running, RunState::NotCreated);
    let o = overview_from(Ok(String::new()), Ok("REPO".to_string()), Ok("false".to_string()));
    assert_eq!(o.running, RunState::Stopped);
}

#[test]
fn capture_trims_success_output() {
    let r = capture_outcome(
        "docker",
        Launch::Exited {
            success: true,
            stdout: "  out \n".to_string(),
            stderr: "ignored".to_string(),
            status: "exit status: 0".to_string(),
        },
    );
    assert_eq!(r, Ok("out".to_string()));
}

#[test]
fn capture_reports_stderr_of_failure() {
    let r = capture_outcome(
        "docker",
        Launch::Exited {
            success: false,
            stdout: String::new(),
            stderr: " Error: No such container: docklab\n".to_string(),
            status: "exit status: 1".to_string(),
        },
    );
    assert_eq!(r, Err("Error: No such container: docklab".to_string()));
}

#[test]
fn capture_names_status_of_silent_failure() {
    let r = capture_outcome(
        "docker",
        Launch::Exited {
            success: false,
            stdout: "x".to_string(),
            stderr: " \n".to_string(),
            status: "exit status: 125".to_string(),
        },
    );
    assert_eq!(r, Err("docker exited with exit status: 125".to_string()));
}

#[test]
fn capture_reports_launch_failure() {
    let r = capture_outcome(
        "docker",
        Launch::Unavailable { reason: "No such file or directory (os error 2)".to_string() },
    );
    assert_eq!(
        r,
        Err("failed to execute 'docker': No such file or directory (os error 2)".to_string())
    );
}

#[test]
fn invocations_name_the_docker_queries() {
    let o = Fetch::Overview.invocations();
    assert_eq!(o.len(), 3);
    assert_eq!(
        line(&o[0]),
        vec![
            "docker",
            "ps",
            "-a",
            "--filter",
            "name=docklab",
            "--format",
            "table {{.Names}}\\t{{.Status}}\\t{{.Image}}\\t{{.ID}}"
        ]
    );
    assert_eq!(
        line(&o[1]),
        vec!["docker", "images", IMAGE_NAME, "--format", "table {{.Repository}}\\t{{.Tag}}\\t{{.ID}}\\t{{.Size}}"]
    );
    assert_eq!(line(&o[2]), vec!["docker", "inspect", "-f", "{{.State.Running}}", CONTAINER_NAME]);
    assert_eq!(line(&Fetch::Stats.invocations()[0]), vec!["docker", "stats", "--no-stream", "docklab"]);
    assert_eq!(line(&Fetch::DiskUsage.invocations()[0]), vec!["docker", "system", "df", "-v"]);
    assert_eq!(
        line(&Fetch::Network.invocations()[0]),
        vec!["sh", "-c", "docker inspect docklab | grep -A 10 NetworkSettings"]
    );
    assert_eq!(line(&Fetch::Processes.invocations()[0]), vec!["docker", "top", "docklab"]);
    for f in [Fetch::Stats, Fetch::DiskUsage, Fetch::Network, Fetch::Processes] {
        assert_eq!(f.invocations().len(), 1);
    }
}

#[test]
fn shell_invocation_runs_sh() {
    assert_eq!(line(&shell_invocation("echo hi".to_string())), vec!["sh", "-c", "echo hi"]);
}

#[test]
fn complete_builds_panel_data() {
    match Fetch::Overview.complete(vec![
        Ok("c".to_string()),
        Ok("i".to_string()),
        Ok("true".to_string()),
    ]) {
        Fetched::Overview(o) => {
            assert_eq!(o.container_info, "c");
            assert_eq!(o.image_info, "i");
            assert_eq!(o.running, RunState::Running);
        }
        _ => panic!("wrong panel"),
    }
    match Fetch::Network.complete(vec![Err("e".to_string())]) {
        Fetched::Network(r) => assert_eq!(r, Err("e".to_string())),
        _ => panic!("wrong panel"),
    }
    match Fetch::DiskUsage.complete(vec![Ok("d".to_string())]) {
        Fetched::DiskUsage(r) => assert_eq!(r, Ok("d".to_string())),
        _ => panic!("wrong panel"),
    }
}

#[test]
fn run_state_labels() {
    assert_eq!(RunState::Running.label(), "RUNNING");
    assert_eq!(RunState::Stopped.label(), "STOPPED");
    assert_eq!(RunState::NotCreated.label(), "NOT CREATED");
}
