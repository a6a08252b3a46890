use siostam::git_extraction::get_name_from_url;

#[test]
fn test_get_name_from_url_https() {
    assert_eq!(
        get_name_from_url("https://github.com/alexcrichton/git2-rs"),
        "git2-rs"
    );
}

#[test]
fn test_get_name_from_url_https_git() {
    assert_eq!(
        get_name_from_url("https://github.com/alexcrichton/git2-rs.git"),
        "git2-rs"
    );
}

#[test]
fn test_get_name_from_url_ssh() {
    assert_eq!(
        get_name_from_url("git@github.com:alexcrichton/git2-rs.git"),
        "git2-rs"
    );
}
