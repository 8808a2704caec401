use processbot::github::latest_release_url;

#[test]
fn latest_release_url_names_owner_and_repository() {
    assert_eq!(
        latest_release_url("https://api.github.com", "paritytech", "substrate"),
        "https://api.github.com/repos/paritytech/substrate/releases/latest"
    );
    assert_eq!(latest_release_url("", "", ""), "/repos///releases/latest");
}
