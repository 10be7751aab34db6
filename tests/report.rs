use repo_search::model::{RepositorySummary, SearchResultSet};
use repo_search::query::SearchQuery;
use repo_search::report::{render_header, render_report, report_or_error, SearchError};

#[test]
fn header_reports_total_and_page_size() {
    assert_eq!(render_header(1000, 2), vec!["Results: 1000".to_string(), "Showed: 2".to_string()]);
    assert_eq!(render_header(-1, 0), vec!["Results: -1".to_string(), "Showed: 0".to_string()]);
}

#[test]
fn empty_page_gives_header_only() {
    let set = SearchResultSet { total_count: 0, items: Vec::new() };
    let lines = render_report(&set, 30);
    assert_eq!(lines, vec!["Results: 0".to_string(), "Showed: 30".to_string()]);
}

#[test]
fn decode_failure_gives_no_report() {
    let outcome = Err(SearchError::Decode("expected value at line 1 column 1".to_string()));
    match report_or_error(outcome, 2) {
        Ok(_) => panic!("a failed decode must not give a report"),
        Err(e) => {
            assert_eq!(
                e.message(),
                "The program has exited with error: expected value at line 1 column 1"
            );
            assert_eq!(e.exit_code(), 1);
        }
    }
}

#[test]
fn transport_failure_gives_no_report() {
    let outcome = Err(SearchError::Transport("connection refused".to_string()));
    match report_or_error(outcome, 2) {
        Ok(_) => panic!("a failed request must not give a report"),
        Err(e) => {
            assert_eq!(e.message(), "Program has exited with error: connection refused");
            assert_eq!(e.exit_code(), 1);
        }
    }
}

#[test]
fn decoded_page_gives_report() {
    let set = SearchResultSet { total_count: 5, items: Vec::new() };
    let lines = report_or_error(Ok(set), 10).unwrap();
    assert_eq!(lines, vec!["Results: 5".to_string(), "Showed: 10".to_string()]);
}

#[test]
fn request_url_carries_parameters() {
    let q = SearchQuery::new("octo", 1, 2);
    assert_eq!(
        q.request_url(),
        "https://api.github.com/search/repositories?q=octo&per_page=2&page=1"
    );
    assert_eq!(q.user_agent(), "octo");
}

#[test]
fn request_url_keeps_term_verbatim() {
    let q = SearchQuery::new("rust lang", 65535, 100);
    assert_eq!(
        q.request_url(),
        "https://api.github.com/search/repositories?q=rust lang&per_page=100&page=65535"
    );
}

#[test]
fn octo_search_end_to_end() {
    let q = SearchQuery::new("octo", 1, 2);
    assert_eq!(
        q.request_url(),
        "https://api.github.com/search/repositories?q=octo&per_page=2&page=1"
    );
    let first = RepositorySummary {
        name: "abcdefghijklmnopqrstuvwxyz0123".to_string(),
        owner_login: "octocat".to_string(),
        description: Some("A repository with a description well past the cut".to_string()),
        default_branch: "master".to_string(),
        stargazers_count: 1500,
        open_issues: 12,
        forks: 300,
        homepage: None,
    };
    let second = RepositorySummary {
        name: "octokits".to_string(),
        owner_login: "octo-org".to_string(),
        description: None,
        default_branch: "main".to_string(),
        stargazers_count: 42,
        open_issues: 0,
        forks: 9,
        homepage: Some("https://octo.example".to_string()),
    };
    let set = SearchResultSet { total_count: 1000, items: vec![first, second] };
    let lines = render_report(&set, q.per_page);
    let sep = "-".repeat(135);
    let expected = vec![
        "Results: 1000".to_string(),
        "Showed: 2".to_string(),
        sep.clone(),
        "Owner: octocat".to_string(),
        format!(
            "Name: {} {} {} {} {}  {}",
            format!("{:<20}", "abcdefghij..."),
            format!("{:<30}", "\u{f062c} master"),
            format!("{:<50}", "A repository with a descr..."),
            format!("{:<10}", "\u{f51f} 1500"),
            format!("{:<10}", "\u{ea63} 12"),
            format!("{:<10}", "\u{f41b} 300"),
        ),
        sep,
        "Owner: octo-org".to_string(),
        format!(
            "Name: {} {} {} {} {}  {}",
            format!("{:<20}", "octokits"),
            format!("{:<30}", "\u{f062c} main"),
            format!("{:<50}", "No description"),
            format!("{:<10}", "\u{f51f} 42"),
            format!("{:<10}", "\u{ea63} 0"),
            format!("{:<10}", "\u{f41b} 9"),
        ),
        "Homepage \u{f02dc} : https://octo.example".to_string(),
    ];
    assert_eq!(lines, expected);
}
