use git_blame::{blame_args, since_arg, Repo, RevisionId};

#[test]
fn since_arg_formats_days() {
    assert_eq!(since_arg(14), "--since=14.days");
    assert_eq!(since_arg(0), "--since=0.days");
    assert_eq!(since_arg(7), "--since=7.days");
    assert_eq!(since_arg(365), "--since=365.days");
}

#[test]
fn since_arg_formats_large_values() {
    assert_eq!(since_arg(u64::MAX), "--since=18446744073709551615.days");
    assert_eq!(since_arg(1000000), "--since=1000000.days");
}

#[test]
fn blame_args_are_exact() {
    let parent = RevisionId::from_hex("86d242301830075e93ff039a4d1e88673a4a3020").unwrap();
    let args = blame_args(&parent, 14, "README.md");
    let expected = vec![
        "blame",
        "86d242301830075e93ff039a4d1e88673a4a3020",
        "-s",
        "-l",
        "-p",
        "--incremental",
        "--since=14.days",
        "--",
        "README.md",
    ];
    assert_eq!(args, expected);
}

#[test]
fn repo_is_plain_data() {
    let repo = Repo {
        id: 7,
        login: "jane".to_string(),
        full_name: "jane/widgets".to_string(),
        html_url: "https://example.com/jane/widgets".to_string(),
        git_url: "git://example.com/jane/widgets.git".to_string(),
        fork: false,
    };
    let copy = repo.clone();
    assert_eq!(repo, copy);
    assert_eq!(copy.full_name, "jane/widgets");
    assert!(!copy.fork);
}
