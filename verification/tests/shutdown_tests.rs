use apppy_launcher::shutdown::{
    close_proceeds, requests_for_close_event, shutdown_log_line, shutdown_url, RequestOutcome,
};

#[test]
fn url_is_the_fixed_local_endpoint() {
    assert_eq!(shutdown_url(), "http://127.0.0.1:5000/api/shutdown");
}

#[test]
fn one_close_event_issues_exactly_one_request() {
    let requests = requests_for_close_event();
    assert_eq!(requests.len(), 1);
    assert_eq!(requests[0], "http://127.0.0.1:5000/api/shutdown");
}

#[test]
fn close_proceeds_whatever_the_outcome() {
    assert!(close_proceeds(RequestOutcome::Resolved));
    assert!(close_proceeds(RequestOutcome::Failed));
}

#[test]
fn log_lines_keep_their_swapped_wording() {
    assert_eq!(
        shutdown_log_line(RequestOutcome::Failed),
        "Flask server shutdown request success."
    );
    assert_eq!(
        shutdown_log_line(RequestOutcome::Resolved),
        "Flask server shutdown request failed."
    );
}
