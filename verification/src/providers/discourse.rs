//! The discussion forum: which topics of the watched categories have no
//! poster from the team.

use crate::providers::header;
use crate::providers::header_views;
use crate::providers::with_headers;
use crate::providers::Header;
use crate::providers::Method;
use crate::providers::Request;
use crate::providers::RequestView;
use crate::providers::USER_AGENT;
use crate::providers::USER_AGENT_VALUE;
use crate::text::contains_text;
use crate::text::decimal;
use crate::text::ends_with;
use crate::text::ends_with_any;
use crate::text::ends_with_one_of;
use crate::text::push_decimal;
use crate::text::str_ends_with;
use crate::text::texts;
use crate::time::Timestamp;
use std::collections::HashMap;
use vstd::prelude::*;

verus! {

/// The endings that mark a staff account when no others are configured.
pub const STAFF_SUFFIX: &'static str = "-PingCAP";

/// The same ending as it reads after a display name.
pub const STAFF_SUFFIX_SPACED: &'static str = "- PingCAP";

/// Why a request to the forum was of no use.
#[derive(Debug)]
pub struct Error {
    reason: String,
}

impl View for Error {
    type V = Seq<char>;

    closed spec fn view(&self) -> Seq<char> {
        self.reason@
    }
}

impl Error {
    /// The error that says `reason`.
    pub fn new(reason: String) -> (e: Error)
        ensures
            e@ == reason@,
    {
        Error { reason }
    }

    /// The reason, as it is shown to the user.
    pub fn to_string(&self) -> (s: String)
        ensures
            s@ == self@,
    {
        self.reason.clone()
    }
}

/// A category of the forum.
#[derive(Debug)]
pub struct Category {
    pub id: i32,
    pub name: String,
}

impl Category {
    /// The category as it is named in progress messages.
    pub open spec fn label(self) -> Seq<char> {
        decimal(self.id as int) + ": "@ + self.name@
    }

    /// The category as it is named in progress messages: `id: name`.
    pub fn to_string(&self) -> (s: String)
        ensures
            s@ == self.label(),
    {
        let mut s = String::new();
        push_decimal(&mut s, self.id as i64);
        s.append(": ");
        s.append(self.name.as_str());
        s
    }
}

/// The list of categories as the forum wraps it.
#[derive(Debug)]
pub struct CategoryList {
    pub categories: Vec<Category>,
}

/// The answer to a request for the list of categories.
#[derive(Debug)]
pub struct Categories {
    pub category_list: CategoryList,
}

/// An account that took part in a category.
#[derive(Debug)]
pub struct User {
    pub id: i32,
    pub name: String,
    pub username: String,
}

/// A participant of a topic, named by account id.
#[derive(Debug)]
pub struct Poster {
    pub user_id: i32,
    pub description: String,
}

/// A topic of a category.
#[derive(Debug)]
pub struct Topic {
    pub id: i32,
    pub title: String,
    pub created_at: Timestamp,
    pub posters: Vec<Poster>,
    /// Not sent by the forum: filled in with the forum's address.
    pub base_url: String,
}

/// The line that stands for a topic in a report.
pub open spec fn topic_line(id: int, title: Seq<char>, base_url: Seq<char>) -> Seq<char> {
    decimal(id) + ": "@ + title + ", "@ + base_url + "/t/topic/"@ + decimal(id)
}

impl Topic {
    /// The topic as one of the forum at `base_url`.
    pub open spec fn at(self, base_url: String) -> Topic {
        Topic { base_url, ..self }
    }

    /// Marks the topic as one of the forum at `base_url`.
    pub fn with_base_url(self, base_url: &String) -> (r: Topic)
        ensures
            r == self.at(*base_url),
    {
        Topic {
            id: self.id,
            title: self.title,
            created_at: self.created_at,
            posters: self.posters,
            base_url: base_url.clone(),
        }
    }

    /// The line that stands for the topic in a report: `id: title, address`.
    pub fn to_string(&self) -> (s: String)
        ensures
            s@ == topic_line(self.id as int, self.title@, self.base_url@),
    {
        let mut s = String::new();
        push_decimal(&mut s, self.id as i64);
        s.append(": ");
        s.append(self.title.as_str());
        s.append(", ");
        s.append(self.base_url.as_str());
        s.append("/t/topic/");
        push_decimal(&mut s, self.id as i64);
        s
    }
}

/// The topics of a category as the forum wraps them.
#[derive(Debug)]
pub struct TopicList {
    pub topics: Vec<Topic>,
}

/// The answer to a request for one category: who took part, and in what.
#[derive(Debug)]
pub struct CategoryContent {
    pub users: Vec<User>,
    pub topic_list: TopicList,
}

/// A comment with the role of its author.
#[derive(Debug)]
pub struct Comment {
    pub html_url: String,
    pub author_association: String,
}

/// Whether `name` carries one of the two default staff endings.
pub open spec fn has_staff_suffix(name: Seq<char>) -> bool {
    ends_with(name, STAFF_SUFFIX@) || ends_with(name, STAFF_SUFFIX_SPACED@)
}

/// Tells whether `name` carries one of the two default staff endings.
pub fn is_pingcap_user(name: &String) -> (r: bool)
    ensures
        r == has_staff_suffix(name@),
{
    str_ends_with(name.as_str(), STAFF_SUFFIX) || str_ends_with(
        name.as_str(),
        STAFF_SUFFIX_SPACED,
    )
}

/// Whether `poster` is known to be a team member.
pub open spec fn is_member_poster(poster: Poster, members: Map<i32, bool>) -> bool {
    members.contains_key(poster.user_id) && members[poster.user_id]
}

/// Whether one of `posters` is known to be a team member.
pub open spec fn has_member_poster(posters: Seq<Poster>, members: Map<i32, bool>) -> bool {
    exists|i: int| 0 <= i < posters.len() && is_member_poster(#[trigger] posters[i], members)
}

/// Whether the poster at index `i` is the first team member among `posters`.
pub open spec fn is_first_member(posters: Seq<Poster>, members: Map<i32, bool>, i: int) -> bool {
    &&& 0 <= i < posters.len()
    &&& is_member_poster(posters[i], members)
    &&& forall|j: int| 0 <= j < i ==> !is_member_poster(#[trigger] posters[j], members)
}

/// The posters that are looked at: all of them, or those before the first
/// team member, where the look at a topic ends.
pub open spec fn scanned_posters(posters: Seq<Poster>, members: Map<i32, bool>) -> Seq<Poster> {
    if exists|i: int| is_first_member(posters, members, i) {
        posters.take(choose|i: int| is_first_member(posters, members, i))
    } else {
        posters
    }
}

/// The ids among `posters` that `members` knows nothing of, in order.
pub open spec fn unknown_ids(posters: Seq<Poster>, members: Map<i32, bool>) -> Seq<i32> {
    posters.filter(|p: Poster| !members.contains_key(p.user_id)).map_values(|p: Poster| p.user_id)
}

/// The ids that looking at `posters` finds unknown. They count as outsiders
/// and are worth a note to the operator.
pub open spec fn unknown_posters(posters: Seq<Poster>, members: Map<i32, bool>) -> Seq<i32> {
    unknown_ids(scanned_posters(posters, members), members)
}

/// The test a topic has to pass to be reported.
pub open spec fn unanswered(members: Map<i32, bool>) -> spec_fn(Topic) -> bool {
    |topic: Topic| !has_member_poster(topic.posters@, members)
}

/// The unknown ids found in each of `topics`, one topic after the other.
pub open spec fn unknown_in_topics(topics: Seq<Topic>, members: Map<i32, bool>) -> Seq<i32>
    decreases topics.len(),
{
    if topics.len() == 0 {
        Seq::empty()
    } else {
        unknown_in_topics(topics.drop_last(), members) + unknown_posters(
            topics.last().posters@,
            members,
        )
    }
}

/// What looking at the posters of one topic found.
#[derive(Debug)]
pub struct PosterScan {
    /// Whether a team member is among the posters.
    pub member_found: bool,
    /// The poster ids that were looked at and are unknown.
    pub unknown: Vec<i32>,
}

/// Looks at `posters` in order, up to the first team member.
pub fn scan_posters(posters: &Vec<Poster>, members: &HashMap<i32, bool>) -> (r: PosterScan)
    ensures
        r.member_found == has_member_poster(posters@, members@),
        r.unknown@ == unknown_posters(posters@, members@),
{
    let ghost is_unknown = |p: Poster| !members@.contains_key(p.user_id);
    let ghost id_of = |p: Poster| p.user_id;
    let mut unknown: Vec<i32> = Vec::new();
    let mut i: usize = 0;
    while i < posters.len()
        invariant
            i <= posters@.len(),
            is_unknown == |p: Poster| !members@.contains_key(p.user_id),
            id_of == |p: Poster| p.user_id,
            forall|j: int| 0 <= j < i ==> !is_member_poster(#[trigger] posters@[j], members@),
            unknown@ == posters@.take(i as int).filter(is_unknown).map_values(id_of),
        decreases posters@.len() - i,
    {
        let id = posters[i].user_id;
        match members.get(&id) {
            Some(is_member) => {
                if *is_member {
                    assert(is_first_member(posters@, members@, i as int));
                    return PosterScan { member_found: true, unknown };
                }
            },
            None => {
                unknown.push(id);
            },
        }
        proof {
            assert(posters@.take(i as int + 1).drop_last() =~= posters@.take(i as int));
            reveal(Seq::filter);
        }
        i += 1;
    }
    proof {
        assert(posters@.take(posters@.len() as int) =~= posters@);
        assert forall|k: int| !is_first_member(posters@, members@, k) by {}
    }
    PosterScan { member_found: false, unknown }
}

/// The forum at one address, and the rules that tell who on it belongs to
/// the team: a roster of user names, and endings that mark a staff account.
pub struct Discourse {
    base_url: String,
    members: Vec<String>,
    suffixes: Vec<String>,
}

/// The two default staff endings.
pub open spec fn default_suffixes() -> Seq<Seq<char>> {
    seq![STAFF_SUFFIX@, STAFF_SUFFIX_SPACED@]
}

impl Discourse {
    /// The address of the forum, as the text value that is handed on to topics.
    pub closed spec fn address(&self) -> String {
        self.base_url
    }

    /// The address of the forum.
    pub open spec fn base_url(&self) -> Seq<char> {
        self.address()@
    }

    /// The roster: the user names of the team.
    pub closed spec fn members(&self) -> Seq<Seq<char>> {
        texts(self.members@)
    }

    /// The endings that mark a staff account.
    pub closed spec fn suffixes(&self) -> Seq<Seq<char>> {
        texts(self.suffixes@)
    }

    /// Whether `username` is on the roster, letter for letter.
    pub open spec fn in_roster(&self, username: Seq<char>) -> bool {
        self.members().contains(username)
    }

    /// Whether `name` ends like a staff account.
    pub open spec fn has_suffix(&self, name: Seq<char>) -> bool {
        ends_with_one_of(name, self.suffixes())
    }

    /// Whether an account with display name `name` and user name `username`
    /// counts as a team member: it is on the roster, or either name ends
    /// like a staff account.
    pub open spec fn is_team_member(&self, name: Seq<char>, username: Seq<char>) -> bool {
        self.in_roster(username) || self.has_suffix(name) || self.has_suffix(username)
    }

    /// For each account id in `users`, whether the account counts as a
    /// team member. Where an id occurs twice the later entry decides.
    pub open spec fn membership(&self, users: Seq<User>) -> Map<i32, bool>
        decreases users.len(),
    {
        if users.len() == 0 {
            Map::empty()
        } else {
            self.membership(users.drop_last()).insert(
                users.last().id,
                self.is_team_member(users.last().name@, users.last().username@),
            )
        }
    }

    /// The request for `url` with the header every request carries, then `extra`.
    pub open spec fn spec_request(&self, url: Seq<char>, extra: Seq<(Seq<char>, Seq<char>)>)
        -> RequestView {
        RequestView {
            method: Method::Get,
            url,
            headers: seq![(USER_AGENT@, USER_AGENT_VALUE@)] + extra,
            body: None,
        }
    }

    /// The request for the list of categories.
    pub open spec fn spec_categories_request(&self) -> RequestView {
        self.spec_request(self.base_url() + "/categories.json"@, Seq::empty())
    }

    /// The request for the content of the category with id `id`.
    pub open spec fn spec_category_request(&self, id: int) -> RequestView {
        self.spec_request(self.base_url() + "/c/"@ + decimal(id) + ".json"@, Seq::empty())
    }

    /// The forum at `base_url` with the roster `members` and the two default
    /// staff endings.
    pub fn new(base_url: String, members: Vec<String>) -> (r: Discourse)
        ensures
            r.base_url() == base_url@,
            r.members() == texts(members@),
            r.suffixes() == default_suffixes(),
    {
        let mut suffixes: Vec<String> = Vec::new();
        suffixes.push(STAFF_SUFFIX.to_owned());
        suffixes.push(STAFF_SUFFIX_SPACED.to_owned());
        Discourse { base_url, members, suffixes }
    }

    /// The forum at `base_url` with the roster `members` and the staff
    /// endings `suffixes`.
    pub fn with_suffixes(base_url: String, members: Vec<String>, suffixes: Vec<String>) -> (r:
        Discourse)
        ensures
            r.base_url() == base_url@,
            r.members() == texts(members@),
            r.suffixes() == texts(suffixes@),
    {
        Discourse { base_url, members, suffixes }
    }

    /// Tells whether `user` is on the roster.
    pub fn if_member(&self, user: &String) -> (r: bool)
        ensures
            r == self.in_roster(user@),
    {
        contains_text(&self.members, user)
    }

    /// Tells whether `user` counts as a team member.
    pub fn classify(&self, user: &User) -> (r: bool)
        ensures
            r == self.is_team_member(user.name@, user.username@),
    {
        self.if_member(&user.username) || ends_with_any(&user.name, &self.suffixes)
            || ends_with_any(&user.username, &self.suffixes)
    }

    /// Builds the map from account id to team membership for one category.
    pub fn membership_map(&self, users: &Vec<User>) -> (r: HashMap<i32, bool>)
        ensures
            r@ == self.membership(users@),
    {
        let mut map: HashMap<i32, bool> = HashMap::new();
        let mut i: usize = 0;
        while i < users.len()
            invariant
                i <= users@.len(),
                map@ == self.membership(users@.take(i as int)),
            decreases users@.len() - i,
        {
            assert(users@.take(i as int + 1).drop_last() =~= users@.take(i as int));
            let is_member = self.classify(&users[i]);
            map.insert(users[i].id, is_member);
            i += 1;
        }
        assert(users@.take(users@.len() as int) =~= users@);
        map
    }

    /// Describes the GET of `url`: the user agent, then `headers`.
    pub fn request(&self, url: String, headers: Vec<Header>) -> (r: Request)
        ensures
            r@ == self.spec_request(url@, header_views(headers@)),
    {
        let mut fixed: Vec<Header> = Vec::new();
        fixed.push(header(USER_AGENT, USER_AGENT_VALUE));
        assert(header_views(fixed@) =~= seq![(USER_AGENT@, USER_AGENT_VALUE@)]);
        let all = with_headers(fixed, headers);
        Request { method: Method::Get, url, headers: all, body: None }
    }

    /// The request for the list of categories.
    pub fn categories_request(&self) -> (r: Request)
        ensures
            r@ == self.spec_categories_request(),
    {
        let mut url = self.base_url.clone();
        url.append("/categories.json");
        let headers: Vec<Header> = Vec::new();
        self.request(url, headers)
    }

    /// The request for the content of `category`.
    pub fn category_request(&self, category: &Category) -> (r: Request)
        ensures
            r@ == self.spec_category_request(category.id as int),
    {
        let mut url = self.base_url.clone();
        url.append("/c/");
        push_decimal(&mut url, category.id as i64);
        url.append(".json");
        let headers: Vec<Header> = Vec::new();
        self.request(url, headers)
    }
}

/// With the default endings, the ending test of a forum is the default one.
pub proof fn lemma_default_suffixes(forum: Discourse, name: Seq<char>)
    requires
        forum.suffixes() == default_suffixes(),
    ensures
        forum.has_suffix(name) == has_staff_suffix(name),
{
    if ends_with(name, STAFF_SUFFIX@) {
        assert(ends_with(name, forum.suffixes()[0]));
    } else if ends_with(name, STAFF_SUFFIX_SPACED@) {
        assert(ends_with(name, forum.suffixes()[1]));
    }
}

/// The topics of one category that nobody from the team took part in, and
/// the poster ids that turned out to be unknown on the way.
#[derive(Debug)]
pub struct CategoryScan {
    pub topics: Vec<Topic>,
    pub unknown_posters: Vec<i32>,
}

impl Discourse {
    /// Goes through the topics of one category. A topic is dropped as soon
    /// as one of its posters is known to be a team member; a poster whose
    /// id is not among the category's users counts as an outsider and is
    /// noted.
    pub fn find_no_reply_topics_by_category(&self, content: CategoryContent) -> (r: CategoryScan)
        ensures
            r.topics@ == content.topic_list.topics@.filter(
                unanswered(self.membership(content.users@)),
            ),
            r.unknown_posters@ == unknown_in_topics(
                content.topic_list.topics@,
                self.membership(content.users@),
            ),
    {
        let members = self.membership_map(&content.users);
        let ghost topics = content.topic_list.topics@;
        let ghost test = unanswered(members@);
        let mut no_reply_topics: Vec<Topic> = Vec::new();
        let mut unknown_posters: Vec<i32> = Vec::new();
        for topic in it: content.topic_list.topics
            invariant
                it.seq() == topics,
                test == unanswered(members@),
                no_reply_topics@ == topics.take(it.index() as int).filter(test),
                unknown_posters@ == unknown_in_topics(topics.take(it.index() as int), members@),
        {
            proof {
                let done = it.index() as int;
                assert(topics.take(done + 1).drop_last() =~= topics.take(done));
                reveal(Seq::filter);
            }
            let scan = scan_posters(&topic.posters, &members);
            let mut unknown = scan.unknown;
            unknown_posters.append(&mut unknown);
            if !scan.member_found {
                no_reply_topics.push(topic);
            }
        }
        assert(topics.take(topics.len() as int) =~= topics);
        CategoryScan { topics: no_reply_topics, unknown_posters }
    }
}

/// A topic with a poster who is known to be a team member is never
/// reported; a topic whose posters are all outsiders or unknown always is.
pub proof fn lemma_topic_reported_iff_no_member_poster(
    topics: Seq<Topic>,
    members: Map<i32, bool>,
    topic: Topic,
)
    requires
        topics.contains(topic),
    ensures
        topics.filter(unanswered(members)).contains(topic) <==> !has_member_poster(
            topic.posters@,
            members,
        ),
{
    let test = unanswered(members);
    let kept = topics.filter(test);
    if has_member_poster(topic.posters@, members) {
        if kept.contains(topic) {
            let k = choose|k: int| 0 <= k < kept.len() && kept[k] == topic;
            topics.lemma_filter_pred(test, k);
        }
    } else {
        let i = choose|i: int| 0 <= i < topics.len() && topics[i] == topic;
        topics.lemma_filter_contains(test, i);
    }
}

/// The test a category has to pass to be searched: its name is one of `names`.
pub open spec fn watched(names: Seq<Seq<char>>) -> spec_fn(Category) -> bool {
    |category: Category| names.contains(category.name@)
}

/// Each of `topics` as one of the forum at `base_url`.
pub open spec fn topics_at(topics: Seq<Topic>, base_url: String) -> Seq<Topic> {
    topics.map_values(|topic: Topic| topic.at(base_url))
}

/// Marks each of `topics` as one of the forum at `base_url`.
pub fn with_base_urls(topics: Vec<Topic>, base_url: &String) -> (r: Vec<Topic>)
    ensures
        r@ == topics_at(topics@, *base_url),
{
    let mut marked: Vec<Topic> = Vec::new();
    for topic in it: topics
        invariant
            it.seq() == topics@,
            marked@ == topics_at(topics@.take(it.index() as int), *base_url),
    {
        marked.push(topic.with_base_url(base_url));
    }
    marked
}

/// What the search asks the transport to do next.
pub enum TopicStep {
    /// Fetch the forum's list of categories; answer with
    /// [`TopicSearch::on_categories`].
    ListCategories(Request),
    /// Fetch the content of a category; answer with [`TopicSearch::on_content`].
    FetchCategory(Request),
    /// Nothing: [`TopicSearch::finish`] has the result, or the failure.
    Done,
}

/// The state of a search, as plain values.
pub struct TopicSearchView {
    pub forum: Discourse,
    /// The names of the categories to watch.
    pub names: Seq<Seq<char>>,
    /// Whether the forum's list of categories has come back.
    pub listed: bool,
    /// The categories still to be searched; the first is being fetched.
    pub pending: Seq<Category>,
    /// The topics found so far that nobody from the team took part in.
    pub found: Seq<Topic>,
    /// Why the search was given up, if it was.
    pub failure: Option<Error>,
}

impl TopicSearchView {
    /// The state before the first request.
    pub open spec fn start(forum: Discourse, names: Seq<Seq<char>>) -> Self {
        TopicSearchView {
            forum,
            names,
            listed: false,
            pending: Seq::empty(),
            found: Seq::empty(),
            failure: None,
        }
    }

    /// Whether a request failed and the search was given up.
    pub open spec fn is_failed(self) -> bool {
        self.failure is Some
    }

    /// Whether the forum's list of categories is still to come.
    pub open spec fn is_listing_categories(self) -> bool {
        !self.is_failed() && !self.listed
    }

    /// Whether a watched category is still to be searched.
    pub open spec fn is_fetching(self) -> bool {
        !self.is_failed() && self.listed && self.pending.len() > 0
    }

    /// Whether every watched category has been searched and the result is there.
    pub open spec fn is_done(self) -> bool {
        !self.is_failed() && self.listed && self.pending.len() == 0
    }

    /// The state after the forum's list of categories has come back: of
    /// the categories listed, those whose name is one of the names to watch
    /// are to be searched, in the order of the list. A name that matches no
    /// category is passed over.
    pub open spec fn on_categories(self, categories: Seq<Category>) -> Self {
        if self.is_listing_categories() {
            TopicSearchView {
                listed: true,
                pending: categories.filter(watched(self.names)),
                ..self
            }
        } else {
            self
        }
    }

    /// The topics of `content` to report. The membership map is made from
    /// the users of `content` alone.
    pub open spec fn reported(self, content: CategoryContent) -> Seq<Topic> {
        topics_at(
            content.topic_list.topics@.filter(unanswered(self.forum.membership(content.users@))),
            self.forum.address(),
        )
    }

    /// The poster ids that going through `content` finds unknown.
    pub open spec fn unknown_in(self, content: CategoryContent) -> Seq<i32> {
        if self.is_fetching() {
            unknown_in_topics(
                content.topic_list.topics@,
                self.forum.membership(content.users@),
            )
        } else {
            Seq::empty()
        }
    }

    /// The state after the content of the first pending category has come back.
    pub open spec fn on_content(self, content: CategoryContent) -> Self {
        if self.is_fetching() {
            TopicSearchView {
                pending: self.pending.drop_first(),
                found: self.found + self.reported(content),
                ..self
            }
        } else {
            self
        }
    }

    /// The state after a request has failed, be it that it could not be
    /// sent or that the answer could not be read. The search is given up
    /// with `error`, and all that was found is dropped. A failure that
    /// answers no request changes nothing; so the first failure stays.
    pub open spec fn on_failure(self, error: Error) -> Self {
        if self.is_listing_categories() || self.is_fetching() {
            TopicSearchView {
                pending: Seq::empty(),
                found: Seq::empty(),
                failure: Some(error),
                ..self
            }
        } else {
            self
        }
    }

    /// The state after the contents of `contents` have come back, one after another.
    pub open spec fn on_all_contents(self, contents: Seq<CategoryContent>) -> Self
        decreases contents.len(),
    {
        if contents.len() == 0 {
            self
        } else {
            self.on_all_contents(contents.drop_last()).on_content(contents.last())
        }
    }

    /// The topics to report of each of `contents`, one category after the other.
    pub open spec fn all_reported(self, contents: Seq<CategoryContent>) -> Seq<Topic>
        decreases contents.len(),
    {
        if contents.len() == 0 {
            Seq::empty()
        } else {
            self.all_reported(contents.drop_last()) + self.reported(contents.last())
        }
    }
}

/// Searching the categories: when the list of categories is there and the
/// forum answers the requests for the first pending categories with their
/// contents, the search is through with these categories, and has found the
/// topics to report of each, in the order of the categories.
pub proof fn lemma_searching_the_categories(v: TopicSearchView, contents: Seq<CategoryContent>)
    requires
        !v.is_failed(),
        v.listed,
        contents.len() <= v.pending.len(),
    ensures
        v.on_all_contents(contents) == (TopicSearchView {
            pending: v.pending.skip(contents.len() as int),
            found: v.found + v.all_reported(contents),
            ..v
        }),
    decreases contents.len(),
{
    if contents.len() > 0 {
        let before = contents.drop_last();
        lemma_searching_the_categories(v, before);
        let mid = v.on_all_contents(before);
        assert(mid.pending.drop_first() =~= v.pending.skip(contents.len() as int));
        assert(mid.reported(contents.last()) == v.reported(contents.last()));
        assert((v.found + v.all_reported(before)) + v.reported(contents.last()) =~= v.found + (
        v.all_reported(before) + v.reported(contents.last())));
    } else {
        assert(v.pending.skip(0) =~= v.pending);
        assert(v.found + Seq::<Topic>::empty() =~= v.found);
    }
}

/// A whole search: when the forum answers the first request with the list
/// `categories` and each later one with the content of the category asked
/// for, then after as many contents as there are watched categories in the
/// list the search is done, and it has found the topics to report of each
/// watched category, in the order of the list.
pub proof fn lemma_a_whole_search(
    forum: Discourse,
    names: Seq<Seq<char>>,
    categories: Seq<Category>,
    contents: Seq<CategoryContent>,
)
    requires
        contents.len() == categories.filter(watched(names)).len(),
    ensures
        ({
            let start = TopicSearchView::start(forum, names);
            let end = start.on_categories(categories).on_all_contents(contents);
            &&& end.is_done()
            &&& end.found == start.all_reported(contents)
        }),
{
    let start = TopicSearchView::start(forum, names);
    let listed = start.on_categories(categories);
    lemma_searching_the_categories(listed, contents);
    lemma_all_reported_depends_on_the_forum(listed, start, contents);
    assert(listed.pending.skip(contents.len() as int) =~= Seq::<Category>::empty());
    assert(Seq::<Topic>::empty() + start.all_reported(contents) =~= start.all_reported(contents));
}

/// What is reported of a category depends on the forum alone.
proof fn lemma_all_reported_depends_on_the_forum(
    v: TopicSearchView,
    w: TopicSearchView,
    contents: Seq<CategoryContent>,
)
    requires
        v.forum == w.forum,
    ensures
        v.all_reported(contents) == w.all_reported(contents),
    decreases contents.len(),
{
    if contents.len() > 0 {
        lemma_all_reported_depends_on_the_forum(v, w, contents.drop_last());
    }
}

/// Every topic reported of a category carries the address of the forum.
pub proof fn lemma_reported_topics_carry_the_address(v: TopicSearchView, content: CategoryContent)
    ensures
        forall|i: int|
            0 <= i < v.reported(content).len() ==> (#[trigger] v.reported(content)[i]).base_url
                == v.forum.address(),
{
}

/// A failed request ends the search: it reports nothing, asks for nothing
/// more, and whatever is handed to it afterwards, an answer or another
/// failure, changes nothing.
pub proof fn lemma_a_failure_ends_the_search(
    v: TopicSearchView,
    error: Error,
    categories: Seq<Category>,
    content: CategoryContent,
    later: Error,
)
    requires
        v.is_listing_categories() || v.is_fetching(),
    ensures
        v.on_failure(error).failure == Some(error),
        v.on_failure(error).found.len() == 0,
        !v.on_failure(error).is_listing_categories(),
        !v.on_failure(error).is_fetching(),
        !v.on_failure(error).is_done(),
        v.on_failure(error).on_categories(categories) == v.on_failure(error),
        v.on_failure(error).on_content(content) == v.on_failure(error),
        v.on_failure(error).on_failure(later) == v.on_failure(error),
{
}

/// A search through the watched categories for topics that nobody from the
/// team took part in.
///
/// The search does no I/O. [`TopicSearch::step`] names the next request,
/// and the answer is handed to [`TopicSearch::on_categories`] or
/// [`TopicSearch::on_content`]. A request that fails is handed to
/// [`TopicSearch::on_failure`]: that ends the search, and nothing is reported.
pub struct TopicSearch<'a> {
    forum: &'a Discourse,
    names: Vec<String>,
    listed: bool,
    pending: Vec<Category>,
    found: Vec<Topic>,
    failure: Option<Error>,
}

impl<'a> View for TopicSearch<'a> {
    type V = TopicSearchView;

    closed spec fn view(&self) -> TopicSearchView {
        TopicSearchView {
            forum: *self.forum,
            names: texts(self.names@),
            listed: self.listed,
            pending: self.pending@,
            found: self.found@,
            failure: self.failure,
        }
    }
}

impl<'a> TopicSearch<'a> {
    /// The category that is fetched next, if any.
    pub fn current(&self) -> (r: Option<&Category>)
        ensures
            match r {
                Some(category) => self@.is_fetching() && *category == self@.pending[0],
                None => !self@.is_fetching(),
            },
    {
        if self.failure.is_none() && self.listed && self.pending.len() > 0 {
            Some(&self.pending[0])
        } else {
            None
        }
    }

    /// The request to make next, if any.
    pub fn step(&self) -> (r: TopicStep)
        ensures
            match r {
                TopicStep::ListCategories(request) => {
                    &&& self@.is_listing_categories()
                    &&& request@ == self@.forum.spec_categories_request()
                },
                TopicStep::FetchCategory(request) => {
                    &&& self@.is_fetching()
                    &&& request@ == self@.forum.spec_category_request(self@.pending[0].id as int)
                },
                TopicStep::Done => !self@.is_listing_categories() && !self@.is_fetching(),
            },
    {
        if self.failure.is_some() {
            TopicStep::Done
        } else if !self.listed {
            TopicStep::ListCategories(self.forum.categories_request())
        } else if self.pending.len() > 0 {
            TopicStep::FetchCategory(self.forum.category_request(&self.pending[0]))
        } else {
            TopicStep::Done
        }
    }

    /// Takes in the forum's list of categories, the answer to
    /// [`TopicStep::ListCategories`].
    pub fn on_categories(self, categories: Categories) -> (r: TopicSearch<'a>)
        ensures
            r@ == self@.on_categories(categories.category_list.categories@),
    {
        if self.failure.is_some() || self.listed {
            return self;
        }
        let ghost all = categories.category_list.categories@;
        let ghost test = watched(texts(self.names@));
        let mut pending: Vec<Category> = Vec::new();
        for category in it: categories.category_list.categories
            invariant
                it.seq() == all,
                test == watched(texts(self.names@)),
                pending@ == all.take(it.index() as int).filter(test),
        {
            proof {
                let done = it.index() as int;
                assert(all.take(done + 1).drop_last() =~= all.take(done));
                reveal(Seq::filter);
            }
            if contains_text(&self.names, &category.name) {
                pending.push(category);
            }
        }
        assert(all.take(all.len() as int) =~= all);
        TopicSearch { listed: true, pending, ..self }
    }

    /// Takes in the content of the category that was asked for, the answer
    /// to [`TopicStep::FetchCategory`], and hands back, beside the next
    /// state, the poster ids that were unknown.
    pub fn on_content(self, content: CategoryContent) -> (r: (TopicSearch<'a>, Vec<i32>))
        ensures
            r.0@ == self@.on_content(content),
            r.1@ == self@.unknown_in(content),
    {
        if self.failure.is_some() || !self.listed || self.pending.len() == 0 {
            return (self, Vec::new());
        }
        let mut pending = self.pending;
        let _ = pending.remove(0);
        let scan = self.forum.find_no_reply_topics_by_category(content);
        let mut marked = with_base_urls(scan.topics, &self.forum.base_url);
        let mut found = self.found;
        found.append(&mut marked);
        (TopicSearch { pending, found, ..self }, scan.unknown_posters)
    }

    /// Takes in the failure of the request last asked for: it could not be
    /// sent, or its answer could not be read.
    pub fn on_failure(self, error: Error) -> (r: TopicSearch<'a>)
        ensures
            r@ == self@.on_failure(error),
    {
        if self.failure.is_some() || (self.listed && self.pending.len() == 0) {
            return self;
        }
        TopicSearch { pending: Vec::new(), found: Vec::new(), failure: Some(error), ..self }
    }

    /// How the search ended: with the topics to report, in the order in
    /// which they were found, or with the failure that ended it. `None`
    /// while requests are still to be made: nothing is handed out of a
    /// search that is under way.
    pub fn finish(self) -> (r: Option<Result<Vec<Topic>, Error>>)
        ensures
            r is None <==> self@.is_listing_categories() || self@.is_fetching(),
            r matches Some(Ok(topics)) ==> self@.is_done() && topics@ == self@.found,
            r matches Some(Err(error)) ==> self@.failure == Some(error),
    {
        match self.failure {
            Some(error) => Some(Err(error)),
            None => {
                if self.listed && self.pending.len() == 0 {
                    Some(Ok(self.found))
                } else {
                    None
                }
            },
        }
    }
}

impl Discourse {
    /// Begins the search of the categories named in `categories` for topics
    /// that nobody from the team took part in.
    pub fn find_no_reply_topics_by_categories<'a>(&'a self, categories: Vec<String>) -> (r:
        TopicSearch<'a>)
        ensures
            r@ == TopicSearchView::start(*self, texts(categories@)),
    {
        TopicSearch {
            forum: self,
            names: categories,
            listed: false,
            pending: Vec::new(),
            found: Vec::new(),
            failure: None,
        }
    }
}

} // verus!
