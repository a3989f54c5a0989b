use docklab::data::render_result;

#[test]
fn render_result_maps_not_running_error() {
    let res: Result<String, String> =
        Err("Error response from daemon: Container abc is not running".to_string());
    assert_eq!(
        render_result(&res, "docker stats"),
        "Container not running \u{2014} run 'lab create' to start it."
    );
}

#[test]
fn render_result_maps_no_such_container_error() {
    let res: Result<String, String> = Err("Error: No such container: kalilab".to_string());
    assert_eq!(
        render_result(&res, "docker top"),
        "Container not running \u{2014} run 'lab create' to start it."
    );
}

#[test]
fn render_result_passes_through_other_errors() {
    let res: Result<String, String> = Err("permission denied".to_string());
    assert_eq!(
        render_result(&res, "docker stats"),
        "Error running docker stats: permission denied"
    );
}

#[test]
fn render_result_passes_through_success() {
    let res: Result<String, String> = Ok("some output".to_string());
    assert_eq!(render_result(&res, "docker top"), "some output");
}

#[test]
fn render_result_flags_empty_success() {
    let res: Result<String, String> = Ok("".to_string());
    assert_eq!(render_result(&res, "docker top"), "No output from docker top.");
}

#[test]
fn render_result_flags_blank_success() {
    let res: Result<String, String> = Ok(" \n\t\u{3000}".to_string());
    assert_eq!(render_result(&res, "docker stats"), "No output from docker stats.");
}

#[test]
fn render_result_keeps_surrounding_space_of_output() {
    let res: Result<String, String> = Ok("  padded \n".to_string());
    assert_eq!(render_result(&res, "docker top"), "  padded \n");
}

#[test]
fn render_result_lowercases_before_matching() {
    let res: Result<String, String> = Err("CONTAINER IS NOT RUNNING".to_string());
    assert_eq!(
        render_result(&res, "docker top"),
        "Container not running \u{2014} run 'lab create' to start it."
    );
}

#[test]
fn render_result_needs_the_whole_phrase() {
    let res: Result<String, String> = Err("no such image".to_string());
    assert_eq!(render_result(&res, "docker top"), "Error running docker top: no such image");
}
