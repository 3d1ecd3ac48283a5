use github_workflow::fingerprint::{fingerprint, same_fingerprint, FINGERPRINT_LEN};
use github_workflow::github::{
    authorization_header, fetch_all, org_repos, repos, user_agent_header, user_repos, PageAction,
    PageEvent, PageInfo, Pages, Query,
};

fn hex(digest: &[u8; 20]) -> String {
    let mut out = String::new();
    for byte in digest {
        out.push_str(&format!("{:02x}", byte));
    }
    out
}

#[test]
fn fingerprint_is_the_sha1_of_the_parts_in_order() {
    assert_eq!(FINGERPRINT_LEN, 20);
    assert_eq!(hex(&fingerprint(b"", b"", b"")), "da39a3ee5e6b4b0d3255bfef95601890afd80709");
    assert_eq!(hex(&fingerprint(b"a", b"b", b"c")), "a9993e364706816aba3e25717850c26c9cd0d89d");
    assert_eq!(hex(&fingerprint(b"abc", b"", b"")), "a9993e364706816aba3e25717850c26c9cd0d89d");
    assert_eq!(
        hex(&fingerprint(b"hello", b" ", b"world")),
        "2aae6c35c94fcfb415dbe95f408b9ce91ee846ed"
    );
    assert_ne!(fingerprint(b"c", b"b", b"a"), fingerprint(b"a", b"b", b"c"));
}

#[test]
fn fingerprints_are_compared_byte_for_byte() {
    let a = [1u8; 20];
    let mut b = [1u8; 20];
    assert!(same_fingerprint(&a, &b));
    b[19] = 2;
    assert!(!same_fingerprint(&a, &b));
    b[19] = 1;
    b[0] = 0;
    assert!(!same_fingerprint(&a, &b));
}

#[test]
fn query_checksum_hashes_name_login_and_query() {
    let query = Query {
        name: "hello".to_string(),
        login: " ".to_string(),
        query: "world".to_string(),
        page_info_ptr: "/ignored".to_string(),
        nodes_ptr: "/ignored".to_string(),
    };
    assert_eq!(hex(&query.checksum()), "2aae6c35c94fcfb415dbe95f408b9ce91ee846ed");
    let other = Query { page_info_ptr: "/else".to_string(), ..query.clone() };
    assert_eq!(other.checksum(), query.checksum());
    let changed = Query { login: "x".to_string(), ..query.clone() };
    assert_ne!(changed.checksum(), query.checksum());
}

const USER_QUERY: &str = r#"
query($login: String!, $after: String) {
    user(login: $login) {
        repositories(first: 100, after: $after) {
            nodes {
                owner {
                    login
                }
                name
                description
                url
                isFork
                isArchived
                isPrivate
                pushedAt
            }
            pageInfo {
                endCursor
                hasNextPage
            }
        }
    }
}"#;

#[test]
fn user_listing_is_described() {
    let listing = user_repos("octocat");
    assert_eq!(listing.name, "octocat_repos");
    assert_eq!(listing.login, "octocat");
    assert_eq!(listing.query, USER_QUERY);
    assert_eq!(listing.page_info_ptr, "/data/user/repositories/pageInfo");
    assert_eq!(listing.nodes_ptr, "/data/user/repositories/nodes");
    assert_eq!(listing, repos("user", "octocat"));
}

#[test]
fn organization_listing_is_described() {
    let listing = org_repos("rust-lang");
    assert_eq!(listing.name, "rust-lang_repos");
    assert_eq!(listing.login, "rust-lang");
    assert_eq!(listing.query, USER_QUERY.replace("    user(login", "    organization(login"));
    assert_eq!(listing.page_info_ptr, "/data/organization/repositories/pageInfo");
    assert_eq!(listing.nodes_ptr, "/data/organization/repositories/nodes");
    assert_ne!(listing.checksum(), user_repos("rust-lang").checksum());
}

#[test]
fn request_headers_are_formed() {
    assert_eq!(authorization_header("t0k3n"), "Authorization: Bearer t0k3n");
    assert_eq!(user_agent_header("github", "0.3.1"), "User-Agent: github/0.3.1");
}

#[test]
fn pages_are_walked_until_the_last() {
    let pages: Pages<u32> = Pages::new();
    let (pages, action) = fetch_all(pages, PageEvent::Start);
    assert_eq!(action, PageAction::Fetch { after: None });
    let (pages, action) = fetch_all(
        pages,
        PageEvent::Page { response: 10, info: PageInfo { cursor: "c1".to_string(), has_next: true } },
    );
    assert_eq!(action, PageAction::Fetch { after: Some("c1".to_string()) });
    assert_eq!(pages.responses, vec![10]);
    let (pages, action) = fetch_all(
        pages,
        PageEvent::Page { response: 20, info: PageInfo { cursor: "c2".to_string(), has_next: true } },
    );
    assert_eq!(action, PageAction::Fetch { after: Some("c2".to_string()) });
    let (pages, action) = fetch_all(
        pages,
        PageEvent::Page { response: 30, info: PageInfo { cursor: "c3".to_string(), has_next: false } },
    );
    assert_eq!(action, PageAction::Done(vec![10, 20, 30]));
    assert!(pages.responses.is_empty());
}

#[test]
fn failed_page_ends_the_walk() {
    let pages: Pages<u32> = Pages::new();
    let (pages, _) = fetch_all(pages, PageEvent::Start);
    let (pages, _) = fetch_all(
        pages,
        PageEvent::Page { response: 10, info: PageInfo { cursor: "c1".to_string(), has_next: true } },
    );
    let (pages, action) = fetch_all(pages, PageEvent::Failed);
    assert_eq!(action, PageAction::Fail);
    assert!(pages.responses.is_empty());
}
