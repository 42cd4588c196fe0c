use pingbot::providers::discourse::is_pingcap_user;
use pingbot::providers::discourse::scan_posters;
use pingbot::providers::discourse::with_base_urls;
use pingbot::providers::discourse::Categories;
use pingbot::providers::discourse::Category;
use pingbot::providers::discourse::CategoryContent;
use pingbot::providers::discourse::CategoryList;
use pingbot::providers::discourse::Discourse;
use pingbot::providers::discourse::Error;
use pingbot::providers::discourse::Poster;
use pingbot::providers::discourse::Topic;
use pingbot::providers::discourse::TopicList;
use pingbot::providers::discourse::TopicSearch;
use pingbot::providers::discourse::TopicStep;
use pingbot::providers::discourse::User;
use pingbot::providers::Header;
use pingbot::providers::Method;
use pingbot::providers::Request;
use pingbot::time::Timestamp;
use std::collections::HashMap;

fn forum(members: &[&str]) -> Discourse {
    Discourse::new(
        "https://asktug.com".to_string(),
        members.iter().map(|m| m.to_string()).collect(),
    )
}

fn user(id: i32, name: &str, username: &str) -> User {
    User { id, name: name.to_string(), username: username.to_string() }
}

fn topic(id: i32, posters: &[i32]) -> Topic {
    Topic {
        id,
        title: format!("topic {}", id),
        created_at: Timestamp::new(1_600_000_000, 0).unwrap(),
        posters: posters
            .iter()
            .map(|&user_id| Poster { user_id, description: String::new() })
            .collect(),
        base_url: String::new(),
    }
}

fn posters(ids: &[i32]) -> Vec<Poster> {
    ids.iter().map(|&user_id| Poster { user_id, description: String::new() }).collect()
}

fn content(users: Vec<User>, topics: Vec<Topic>) -> CategoryContent {
    CategoryContent { users, topic_list: TopicList { topics } }
}

fn category(id: i32, name: &str) -> Category {
    Category { id, name: name.to_string() }
}

fn listed(categories: Vec<Category>) -> Categories {
    Categories { category_list: CategoryList { categories } }
}

fn ids(topics: &[Topic]) -> Vec<i32> {
    topics.iter().map(|t| t.id).collect()
}

fn headers(req: &Request) -> Vec<(String, String)> {
    req.headers.iter().map(|h| (h.key.clone(), h.value.clone())).collect()
}

fn fetch_url(search: &TopicSearch) -> String {
    match search.step() {
        TopicStep::FetchCategory(req) => req.url,
        TopicStep::ListCategories(req) => panic!("asked for the list: {}", req.url),
        TopicStep::Done => panic!("done"),
    }
}

#[test]
fn a_staff_ending_marks_a_member() {
    assert!(is_pingcap_user(&"jane-PingCAP".to_string()));
    assert!(is_pingcap_user(&"Jane Doe - PingCAP".to_string()));
    assert!(is_pingcap_user(&"-PingCAP".to_string()));
    assert!(is_pingcap_user(&"王小明-PingCAP".to_string()));
}

#[test]
fn the_staff_ending_is_matched_letter_for_letter_at_the_end() {
    for name in ["jane", "PingCAP", "jane-pingcap", "jane-PingCAP ", "-PingCAP-jane", "jane -PingCAPs", ""] {
        assert!(!is_pingcap_user(&name.to_string()), "{:?}", name);
    }
}

#[test]
fn the_roster_is_matched_letter_for_letter() {
    let f = forum(&["jane", "you06"]);
    assert!(f.if_member(&"jane".to_string()));
    assert!(f.if_member(&"you06".to_string()));
    assert!(!f.if_member(&"Jane".to_string()));
    assert!(!f.if_member(&"jane ".to_string()));
    assert!(!f.if_member(&"jan".to_string()));
    assert!(!forum(&[]).if_member(&"jane".to_string()));
}

#[test]
fn the_suffix_rule_holds_without_the_roster() {
    let f = forum(&[]);
    assert!(f.classify(&user(1, "Jane", "jane-PingCAP")));
    assert!(!f.if_member(&"jane-PingCAP".to_string()));
}

#[test]
fn the_roster_rule_holds_without_the_suffix() {
    let f = forum(&["jane"]);
    assert!(f.classify(&user(1, "Jane", "jane")));
    assert!(!is_pingcap_user(&"jane".to_string()));
}

#[test]
fn either_name_may_carry_the_ending_but_only_the_user_name_is_on_the_roster() {
    let f = forum(&["jane"]);
    assert!(f.classify(&user(1, "Jane - PingCAP", "jd")));
    assert!(f.classify(&user(1, "JD", "jd-PingCAP")));
    assert!(!f.classify(&user(1, "jane", "jd")));
    assert!(!f.classify(&user(1, "JD", "jd")));
    assert!(f.classify(&user(1, "Jane - PingCAP", "jane")));
}

#[test]
fn the_endings_can_be_configured() {
    let f = Discourse::with_suffixes(
        "https://forum.example".to_string(),
        vec!["jane".to_string()],
        vec!["@acme".to_string()],
    );
    assert!(f.classify(&user(1, "Bob", "bob@acme")));
    assert!(f.classify(&user(1, "Bob@acme", "bob")));
    assert!(f.classify(&user(1, "Jane", "jane")));
    assert!(!f.classify(&user(1, "Bob", "bob-PingCAP")));
    let none = Discourse::with_suffixes("https://forum.example".to_string(), vec![], vec![]);
    assert!(!none.classify(&user(1, "Bob - PingCAP", "bob-PingCAP")));
}

#[test]
fn the_membership_map_has_one_entry_for_each_id() {
    let f = forum(&["jane"]);
    let map = f.membership_map(&vec![
        user(1, "Jane", "jane"),
        user(2, "Bob", "bob"),
        user(3, "Eve - PingCAP", "eve"),
    ]);
    let mut expected = HashMap::new();
    expected.insert(1, true);
    expected.insert(2, false);
    expected.insert(3, true);
    assert_eq!(map, expected);
    assert!(f.membership_map(&vec![]).is_empty());
}

#[test]
fn where_an_id_occurs_twice_the_later_entry_decides() {
    let f = forum(&["jane"]);
    let map = f.membership_map(&vec![user(1, "Jane", "jane"), user(1, "Bob", "bob")]);
    assert_eq!(map.get(&1), Some(&false));
    let map = f.membership_map(&vec![user(1, "Bob", "bob"), user(1, "Jane", "jane")]);
    assert_eq!(map.get(&1), Some(&true));
}

#[test]
fn a_look_at_the_posters_ends_at_the_first_member() {
    let mut members = HashMap::new();
    members.insert(1, true);
    members.insert(2, false);
    let scan = scan_posters(&posters(&[9, 2, 8, 1, 7, 1]), &members);
    assert!(scan.member_found);
    assert_eq!(scan.unknown, vec![9, 8]);
    let scan = scan_posters(&posters(&[1, 9]), &members);
    assert!(scan.member_found);
    assert!(scan.unknown.is_empty());
}

#[test]
fn an_unknown_poster_counts_as_an_outsider_and_is_noted() {
    let mut members = HashMap::new();
    members.insert(2, false);
    let scan = scan_posters(&posters(&[9, 2, 9, 8]), &members);
    assert!(!scan.member_found);
    assert_eq!(scan.unknown, vec![9, 9, 8]);
    let scan = scan_posters(&posters(&[]), &members);
    assert!(!scan.member_found);
    assert!(scan.unknown.is_empty());
}

#[test]
fn a_topic_with_a_member_among_its_posters_is_dropped() {
    let f = forum(&["jane"]);
    let users = vec![user(1, "Jane", "jane"), user(2, "Bob", "bob")];
    let topics = vec![topic(10, &[2, 1]), topic(11, &[2]), topic(12, &[1]), topic(13, &[2, 2])];
    let scan = f.find_no_reply_topics_by_category(content(users, topics));
    assert_eq!(ids(&scan.topics), vec![11, 13]);
    assert!(scan.unknown_posters.is_empty());
}

#[test]
fn topics_without_a_member_are_kept_whatever_else_is_known_of_their_posters() {
    let f = forum(&["jane"]);
    let users = vec![user(1, "Jane", "jane"), user(2, "Bob", "bob")];
    let a = topic(1, &[2, 1]);
    let b = topic(2, &[40, 41]);
    let c = topic(3, &[]);
    let scan = f.find_no_reply_topics_by_category(content(users, vec![a, b, c]));
    assert_eq!(ids(&scan.topics), vec![2, 3]);
    assert_eq!(scan.unknown_posters, vec![40, 41]);
}

#[test]
fn the_notes_come_topic_by_topic() {
    let f = forum(&["jane"]);
    let users = vec![user(1, "Jane", "jane")];
    let topics = vec![topic(1, &[7, 1, 8]), topic(2, &[9]), topic(3, &[1, 5]), topic(4, &[6, 7])];
    let scan = f.find_no_reply_topics_by_category(content(users, topics));
    assert_eq!(ids(&scan.topics), vec![2, 4]);
    assert_eq!(scan.unknown_posters, vec![7, 9, 6, 7]);
}

#[test]
fn a_category_without_users_reports_every_topic() {
    let f = forum(&["jane"]);
    let scan = f.find_no_reply_topics_by_category(content(vec![], vec![topic(1, &[1]), topic(2, &[])]));
    assert_eq!(ids(&scan.topics), vec![1, 2]);
    assert_eq!(scan.unknown_posters, vec![1]);
}

#[test]
fn a_topic_is_shown_with_its_id_title_and_address() {
    let t = topic(77, &[]).with_base_url(&"https://asktug.com".to_string());
    assert_eq!(t.base_url, "https://asktug.com");
    assert_eq!(t.to_string(), "77: topic 77, https://asktug.com/t/topic/77");
    let mut t = topic(-3, &[]);
    t.title = "TiDB 用户问答".to_string();
    assert_eq!(t.to_string(), "-3: TiDB 用户问答, /t/topic/-3");
}

#[test]
fn topics_take_the_address_of_the_forum() {
    let marked = with_base_urls(vec![topic(1, &[4]), topic(2, &[])], &"https://asktug.com".to_string());
    assert_eq!(ids(&marked), vec![1, 2]);
    assert!(marked.iter().all(|t| t.base_url == "https://asktug.com"));
    assert_eq!(marked[0].posters.len(), 1);
    assert_eq!(marked[0].title, "topic 1");
}

#[test]
fn a_category_is_shown_with_its_id_and_name() {
    assert_eq!(category(5, "TiDB 开发者").to_string(), "5: TiDB 开发者");
    assert_eq!(category(-1, "").to_string(), "-1: ");
}

#[test]
fn the_requests_of_the_forum() {
    let f = forum(&[]);
    let req = f.categories_request();
    assert!(matches!(req.method, Method::Get));
    assert_eq!(req.url, "https://asktug.com/categories.json");
    assert_eq!(headers(&req), vec![("user-agent".to_string(), "pingbot".to_string())]);
    assert!(req.body.is_none());
    let req = f.category_request(&category(42, "x"));
    assert_eq!(req.url, "https://asktug.com/c/42.json");
    assert_eq!(headers(&req), vec![("user-agent".to_string(), "pingbot".to_string())]);
    let extra = vec![Header { key: "X-One".to_string(), value: "1".to_string() }];
    let req = f.request("https://asktug.com/x".to_string(), extra);
    assert_eq!(
        headers(&req),
        vec![("user-agent".to_string(), "pingbot".to_string()), ("X-One".to_string(), "1".to_string())]
    );
}

#[test]
fn an_error_says_its_reason() {
    assert_eq!(Error::new("connection refused".to_string()).to_string(), "connection refused");
}

#[test]
fn of_three_topics_the_two_without_a_member_are_reported() {
    let f = forum(&["jane"]);
    let names = vec!["TiDB 用户问答".to_string()];
    let search = f.find_no_reply_topics_by_categories(names);
    assert!(search.current().is_none());
    match search.step() {
        TopicStep::ListCategories(request) => {
            assert_eq!(request.url, "https://asktug.com/categories.json")
        }
        _ => panic!("the list of categories comes first"),
    }
    let search = search.on_categories(listed(vec![category(7, "TiDB 用户问答")]));
    assert_eq!(search.current().map(|c| c.id), Some(7));
    assert_eq!(fetch_url(&search), "https://asktug.com/c/7.json");
    let users = vec![user(1, "Jane", "jane"), user(2, "Bob", "bob")];
    let a = topic(1, &[2, 1]);
    let b = topic(2, &[40, 41]);
    let c = topic(3, &[]);
    let (search, unknown) = search.on_content(content(users, vec![a, b, c]));
    assert_eq!(unknown, vec![40, 41]);
    assert!(matches!(search.step(), TopicStep::Done));
    assert!(search.current().is_none());
    let found = search.finish().unwrap().ok().unwrap();
    assert_eq!(ids(&found), vec![2, 3]);
    let lines: Vec<String> = found.iter().map(|t| t.to_string()).collect();
    assert_eq!(
        lines,
        vec!["2: topic 2, https://asktug.com/t/topic/2", "3: topic 3, https://asktug.com/t/topic/3"]
    );
}

#[test]
fn categories_are_searched_in_the_order_of_the_forum() {
    let f = forum(&["jane"]);
    let names = vec!["b".to_string(), "a".to_string(), "missing".to_string()];
    let all = listed(vec![category(1, "a"), category(2, "x"), category(3, "b"), category(4, "A"), category(5, "a")]);
    let search = f.find_no_reply_topics_by_categories(names).on_categories(all);
    assert_eq!(fetch_url(&search), "https://asktug.com/c/1.json");
    let (search, _) = search.on_content(content(vec![], vec![topic(10, &[])]));
    assert_eq!(fetch_url(&search), "https://asktug.com/c/3.json");
    let (search, _) = search.on_content(content(vec![user(1, "J", "jane")], vec![topic(30, &[1]), topic(31, &[])]));
    assert_eq!(fetch_url(&search), "https://asktug.com/c/5.json");
    assert!(search.current().map(|c| c.name == "a").unwrap());
    let (search, _) = search.on_content(content(vec![], vec![topic(50, &[])]));
    assert_eq!(ids(&search.finish().unwrap().ok().unwrap()), vec![10, 31, 50]);
}

#[test]
fn a_name_that_matches_no_category_is_passed_over() {
    let f = forum(&[]);
    let search = f
        .find_no_reply_topics_by_categories(vec!["missing".to_string()])
        .on_categories(listed(vec![category(1, "a"), category(2, "Missing"), category(3, "missing ")]));
    assert!(matches!(search.step(), TopicStep::Done));
    assert!(search.finish().unwrap().ok().unwrap().is_empty());
    let search = f.find_no_reply_topics_by_categories(vec![]).on_categories(listed(vec![category(1, "a")]));
    assert!(search.finish().unwrap().ok().unwrap().is_empty());
}

#[test]
fn the_membership_map_is_made_anew_for_each_category() {
    let f = forum(&["jane"]);
    let names = vec!["a".to_string(), "b".to_string()];
    let search = f
        .find_no_reply_topics_by_categories(names)
        .on_categories(listed(vec![category(1, "a"), category(2, "b")]));
    let (search, unknown) = search.on_content(content(vec![user(1, "Jane", "jane")], vec![topic(10, &[1])]));
    assert!(unknown.is_empty());
    let (search, unknown) = search.on_content(content(vec![], vec![topic(20, &[1])]));
    assert_eq!(unknown, vec![1]);
    assert_eq!(ids(&search.finish().unwrap().ok().unwrap()), vec![20]);
}

#[test]
fn no_topic_is_handed_out_before_every_category_is_searched() {
    let f = forum(&[]);
    let names = vec!["a".to_string(), "b".to_string()];
    let search = f
        .find_no_reply_topics_by_categories(names)
        .on_categories(listed(vec![category(1, "a"), category(2, "b")]));
    let (search, _) = search.on_content(content(vec![], vec![topic(10, &[])]));
    assert!(search.finish().is_none());
}

#[test]
fn content_nobody_asked_for_changes_nothing() {
    let f = forum(&[]);
    let search = f
        .find_no_reply_topics_by_categories(vec!["a".to_string()])
        .on_categories(listed(vec![category(1, "a")]));
    let (search, _) = search.on_content(content(vec![], vec![topic(10, &[])]));
    let (search, unknown) = search.on_content(content(vec![], vec![topic(11, &[5])]));
    assert!(unknown.is_empty());
    assert_eq!(ids(&search.finish().unwrap().ok().unwrap()), vec![10]);
}

#[test]
fn nothing_is_handed_out_before_the_list_of_categories_is_there() {
    let f = forum(&[]);
    let search = f.find_no_reply_topics_by_categories(vec![]);
    assert!(search.finish().is_none());
    let search = f.find_no_reply_topics_by_categories(vec![]);
    let (search, unknown) = search.on_content(content(vec![], vec![topic(10, &[3])]));
    assert!(unknown.is_empty());
    assert!(matches!(search.step(), TopicStep::ListCategories(_)));
}

#[test]
fn a_second_list_of_categories_changes_nothing() {
    let f = forum(&[]);
    let search = f
        .find_no_reply_topics_by_categories(vec!["a".to_string(), "b".to_string()])
        .on_categories(listed(vec![category(1, "a")]))
        .on_categories(listed(vec![category(2, "b")]));
    assert_eq!(fetch_url(&search), "https://asktug.com/c/1.json");
    let (search, _) = search.on_content(content(vec![], vec![]));
    assert!(search.finish().unwrap().ok().unwrap().is_empty());
}

#[test]
fn a_failed_list_of_categories_ends_the_search_with_the_failure() {
    let f = forum(&[]);
    let search = f
        .find_no_reply_topics_by_categories(vec!["a".to_string()])
        .on_failure(Error::new("dns error".to_string()));
    assert!(matches!(search.step(), TopicStep::Done));
    let search = search.on_categories(listed(vec![category(1, "a")]));
    assert!(matches!(search.step(), TopicStep::Done));
    assert_eq!(search.finish().unwrap().err().unwrap().to_string(), "dns error");
}

#[test]
fn a_failed_category_ends_the_search_with_the_failure() {
    let f = forum(&[]);
    let search = f
        .find_no_reply_topics_by_categories(vec!["a".to_string(), "b".to_string()])
        .on_categories(listed(vec![category(1, "a"), category(2, "b")]));
    let (search, _) = search.on_content(content(vec![], vec![topic(10, &[])]));
    let search = search.on_failure(Error::new("missing field `users`".to_string()));
    assert!(matches!(search.step(), TopicStep::Done));
    assert!(search.current().is_none());
    let (search, unknown) = search.on_content(content(vec![], vec![topic(20, &[5])]));
    assert!(unknown.is_empty());
    let search = search.on_failure(Error::new("second".to_string()));
    assert_eq!(search.finish().unwrap().err().unwrap().to_string(), "missing field `users`");
}

#[test]
fn a_failure_after_the_last_category_changes_nothing() {
    let f = forum(&[]);
    let search = f
        .find_no_reply_topics_by_categories(vec!["a".to_string()])
        .on_categories(listed(vec![category(1, "a")]));
    let (search, _) = search.on_content(content(vec![], vec![topic(10, &[])]));
    let search = search.on_failure(Error::new("late".to_string()));
    assert_eq!(ids(&search.finish().unwrap().ok().unwrap()), vec![10]);
}
