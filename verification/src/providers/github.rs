//! The issue tracker: which issues are open, recent, filed by an outsider and
//! still without a comment from the team.

use crate::paging::is_complete_listing;
use crate::paging::lemma_full_batches_keep_asking;
use crate::paging::lemma_stops_after_first_short_batch;
use crate::paging::PagedFetcher;
use crate::paging::PagerView;
use crate::providers::header;
use crate::providers::with_headers;
use crate::providers::Header;
use crate::providers::Method;
use crate::providers::Request;
use crate::providers::RequestView;
use crate::providers::ACCEPT;
use crate::providers::AUTHORIZATION;
use crate::providers::USER_AGENT;
use crate::providers::USER_AGENT_VALUE;
use crate::text::decimal;
use crate::text::push_decimal;
use crate::text::push_decimal_nat;
use crate::time::Timestamp;
use crate::time::NANOS_PER_HOUR;
use vstd::prelude::*;

verus! {

/// Where the tracker answers requests.
pub const API_BASE_URL: &'static str = "https://api.github.com";

/// Where an issue can be read in a browser.
pub const WEB_BASE_URL: &'static str = "https://github.com";

/// The media type asked for when listing issues.
pub const ISSUE_MEDIA_TYPE: &'static str = "application/vnd.github.machine-man-preview";

/// Items per page of a listing.
pub const PER_PAGE: usize = 100;

/// The age window in hours: an issue filed longer ago than this, be it by a
/// nanosecond, is no longer reported.
pub const MAX_AGE_HOURS: i64 = 72;

/// Why a request to the tracker, or the configuration for it, was of no use.
#[derive(Debug)]
pub struct Error {
    reason: String,
}

impl View for Error {
    type V = Seq<char>;

    closed spec fn view(&self) -> Seq<char> {
        self.reason@
    }
}

impl Error {
    /// The error that says `reason`.
    pub fn new(reason: String) -> (e: Error)
        ensures
            e@ == reason@,
    {
        Error { reason }
    }

    /// The reason, as it is shown to the user.
    pub fn to_string(&self) -> (s: String)
        ensures
            s@ == self@,
    {
        self.reason.clone()
    }
}

/// Whether `role` is one of the four relations to a repository that mark
/// its holder as part of the team.
pub open spec fn is_team_role(role: Seq<char>) -> bool {
    ||| role == "OWNER"@
    ||| role == "COLLABORATOR"@
    ||| role == "MEMBER"@
    ||| role == "CONTRIBUTOR"@
}

/// Tells whether the author relation `relation` marks a team member.
pub fn if_member(relation: &String) -> (r: bool)
    ensures
        r == is_team_role(relation@),
{
    let owner: String = "OWNER".to_owned();
    let collaborator: String = "COLLABORATOR".to_owned();
    let member: String = "MEMBER".to_owned();
    let contributor: String = "CONTRIBUTOR".to_owned();
    *relation == owner || *relation == collaborator || *relation == member || *relation
        == contributor
}

/// Whether the `/` at index `i` is the only one in `s` and has text on both sides.
pub open spec fn splits_at(s: Seq<char>, i: int) -> bool {
    &&& 0 < i < s.len() - 1
    &&& s[i] == '/'
    &&& forall|j: int| 0 <= j < s.len() && j != i ==> s[j] != '/'
}

/// The owner and the name that `s` gives when it reads `owner/name`, and
/// `None` when it does not: when it has no `/`, more than one, or nothing
/// before or after it.
pub open spec fn repo_parts(s: Seq<char>) -> Option<(Seq<char>, Seq<char>)> {
    if exists|i: int| splits_at(s, i) {
        let i = choose|i: int| splits_at(s, i);
        Some((s.take(i), s.skip(i + 1)))
    } else {
        None
    }
}

/// What the error says when `s` is no repository reference.
pub open spec fn malformed_repo_reason(s: Seq<char>) -> Seq<char> {
    "invalid repository, expected owner/name: "@ + s
}

/// A split point is the only one, so it decides the parts.
pub proof fn lemma_split_point_decides(s: Seq<char>, i: int)
    requires
        splits_at(s, i),
    ensures
        repo_parts(s) == Some((s.take(i), s.skip(i + 1))),
{
    assert((choose|k: int| splits_at(s, k)) == i);
}

/// The index of the first `/` in `s` at or after `from`, or the length of
/// `s` when there is none.
fn find_slash(s: &str, from: usize) -> (at: usize)
    requires
        from <= s@.len(),
    ensures
        from <= at <= s@.len(),
        forall|j: int| from <= j < at ==> s@[j] != '/',
        at < s@.len() ==> s@[at as int] == '/',
{
    let n = s.unicode_len();
    let mut at: usize = from;
    while at < n && s.get_char(at) != '/'
        invariant
            n == s@.len(),
            from <= at <= n,
            forall|j: int| from <= j < at ==> s@[j] != '/',
        decreases n - at,
    {
        at += 1;
    }
    at
}

/// A repository of the tracker.
#[derive(Debug)]
pub struct Repo {
    pub owner: String,
    pub repo: String,
}

impl Repo {
    /// Reads a reference of the form `owner/name`.
    pub fn parse(raw: &str) -> (r: Result<Repo, Error>)
        ensures
            match r {
                Ok(repo) => repo_parts(raw@) == Some((repo.owner@, repo.repo@)),
                Err(e) => repo_parts(raw@) is None && e@ == malformed_repo_reason(raw@),
            },
    {
        let n = raw.unicode_len();
        let slash = find_slash(raw, 0);
        let second = if slash < n {
            find_slash(raw, slash + 1)
        } else {
            n
        };
        if 0 < slash && slash < n && slash + 1 < n && second == n {
            proof {
                lemma_split_point_decides(raw@, slash as int);
            }
            let owner = raw.substring_char(0, slash).to_owned();
            let repo = raw.substring_char(slash + 1, n).to_owned();
            Ok(Repo { owner, repo })
        } else {
            let mut reason: String = "invalid repository, expected owner/name: ".to_owned();
            reason.append(raw);
            Err(Error::new(reason))
        }
    }
}

/// Whether `raw[i]` is the first entry of `raw` that is no repository reference.
pub open spec fn first_malformed(raw: Seq<String>, i: int) -> bool {
    &&& 0 <= i < raw.len()
    &&& repo_parts(raw[i]@) is None
    &&& forall|j: int| 0 <= j < i ==> repo_parts(#[trigger] raw[j]@) is Some
}

/// Reads every configured repository reference, in order. The first one
/// that is malformed makes the whole configuration an error.
pub fn parse_repos(raw: Vec<String>) -> (r: Result<Vec<Repo>, Error>)
    ensures
        match r {
            Ok(repos) => {
                &&& repos@.len() == raw@.len()
                &&& forall|i: int|
                    0 <= i < raw@.len() ==> repo_parts(#[trigger] raw@[i]@) == Some(
                        (repos@[i].owner@, repos@[i].repo@),
                    )
            },
            Err(e) => exists|i: int|
                first_malformed(raw@, i) && e@ == malformed_repo_reason(#[trigger] raw@[i]@),
        },
{
    let mut repos: Vec<Repo> = Vec::new();
    let mut i: usize = 0;
    while i < raw.len()
        invariant
            i <= raw@.len(),
            repos@.len() == i,
            forall|j: int|
                0 <= j < i ==> repo_parts(#[trigger] raw@[j]@) == Some(
                    (repos@[j].owner@, repos@[j].repo@),
                ),
        decreases raw@.len() - i,
    {
        match Repo::parse(raw[i].as_str()) {
            Ok(repo) => {
                repos.push(repo);
            },
            Err(e) => {
                return Err(e);
            },
        }
        i += 1;
    }
    Ok(repos)
}

/// The account a token belongs to.
#[derive(Debug)]
pub struct User {
    pub login: String,
}

/// The mark the tracker puts on an issue that is a pull request.
#[derive(Debug)]
pub struct Pull {
    pub html_url: String,
}

/// One issue of a listing.
#[derive(Debug)]
pub struct Issue {
    pub number: i32,
    pub title: String,
    /// Not sent by the tracker: filled in from the repository that was listed.
    pub owner: String,
    /// Not sent by the tracker: filled in from the repository that was listed.
    pub repo: String,
    pub pull_request: Option<Pull>,
    pub created_at: Timestamp,
    pub author_association: String,
}

/// One comment on an issue.
#[derive(Debug)]
pub struct Comment {
    pub html_url: String,
    pub author_association: String,
}

/// The address of issue `number` of `owner/repo`, for a reader.
pub open spec fn issue_address(owner: Seq<char>, repo: Seq<char>, number: int) -> Seq<char> {
    WEB_BASE_URL@ + "/"@ + owner + "/"@ + repo + "/issues/"@ + decimal(number)
}

impl Issue {
    /// Whether the tracker marked the issue as a pull request.
    pub open spec fn is_pull_request(self) -> bool {
        self.pull_request is Some
    }

    /// The age of the issue at the instant `now`: the nanoseconds that have
    /// passed since it was filed.
    pub open spec fn age(self, now: Timestamp) -> int {
        now.spec_nanos_since(self.created_at)
    }

    /// Whether the issue is inside the age window at the instant `now`: it
    /// was filed no longer than `max_age_hours` hours ago.
    pub open spec fn within_window(self, now: Timestamp, max_age_hours: int) -> bool {
        self.age(now) <= max_age_hours * NANOS_PER_HOUR
    }

    /// Whether the team is expected to answer this issue: it is inside the
    /// age window, it is no pull request, and it was not filed by a team
    /// member.
    pub open spec fn awaits_reply(self, now: Timestamp, max_age_hours: int) -> bool {
        &&& self.within_window(now, max_age_hours)
        &&& !self.is_pull_request()
        &&& !is_team_role(self.author_association@)
    }

    /// The issue as a member of `repo`.
    pub open spec fn in_repo(self, repo: Repo) -> Issue {
        Issue { owner: repo.owner, repo: repo.repo, ..self }
    }

    /// Tells whether the team is expected to answer this issue.
    pub fn is_awaiting_reply(&self, now: &Timestamp, max_age_hours: i64) -> (r: bool)
        ensures
            r == self.awaits_reply(*now, max_age_hours as int),
    {
        let hour: i128 = NANOS_PER_HOUR as i128;
        assert(max_age_hours * hour == max_age_hours * 3_600_000_000_000) by (nonlinear_arith)
            requires
                hour == 3_600_000_000_000,
        ;
        let window: i128 = (max_age_hours as i128) * hour;
        if now.nanos_since(&self.created_at) > window {
            return false;
        }
        self.pull_request.is_none() && !if_member(&self.author_association)
    }

    /// Marks the issue as a member of `repo`.
    pub fn with_repo(self, repo: &Repo) -> (r: Issue)
        ensures
            r == self.in_repo(*repo),
    {
        Issue {
            number: self.number,
            title: self.title,
            owner: repo.owner.clone(),
            repo: repo.repo.clone(),
            pull_request: self.pull_request,
            created_at: self.created_at,
            author_association: self.author_association,
        }
    }

    /// The line that stands for the issue in a report: its address.
    pub fn to_string(&self) -> (s: String)
        ensures
            s@ == issue_address(self.owner@, self.repo@, self.number as int),
    {
        let mut s: String = WEB_BASE_URL.to_owned();
        s.append("/");
        s.append(self.owner.as_str());
        s.append("/");
        s.append(self.repo.as_str());
        s.append("/issues/");
        push_decimal(&mut s, self.number as i64);
        s
    }
}

/// How many of `comments` were written by a team member.
pub open spec fn member_comments(comments: Seq<Comment>) -> nat {
    comments.filter(|c: Comment| is_team_role(c.author_association@)).len()
}

/// Counts the comments written by a team member.
pub fn count_member_comments(comments: &Vec<Comment>) -> (n: usize)
    ensures
        n == member_comments(comments@),
{
    let ghost by_team = |c: Comment| is_team_role(c.author_association@);
    let mut n: usize = 0;
    let mut i: usize = 0;
    while i < comments.len()
        invariant
            i <= comments@.len(),
            n <= i,
            n == comments@.take(i as int).filter(by_team).len(),
            by_team == |c: Comment| is_team_role(c.author_association@),
        decreases comments@.len() - i,
    {
        proof {
            assert(comments@.take(i as int + 1).drop_last() =~= comments@.take(i as int));
            reveal(Seq::filter);
        }
        if if_member(&comments[i].author_association) {
            n += 1;
        }
        i += 1;
    }
    assert(comments@.take(comments@.len() as int) =~= comments@);
    n
}

/// The address that lists page `page` of the issues of `owner/repo`, in
/// pages of `per_page`.
pub open spec fn issues_url(owner: Seq<char>, repo: Seq<char>, page: int, per_page: int) -> Seq<
    char,
> {
    API_BASE_URL@ + "/repos/"@ + owner + "/"@ + repo + "/issues?page="@ + decimal(page)
        + "&per_page="@ + decimal(per_page)
}

/// The address that lists page `page` of the comments on issue `number` of
/// `owner/repo`, in pages of `per_page`.
pub open spec fn comments_url(
    owner: Seq<char>,
    repo: Seq<char>,
    number: int,
    page: int,
    per_page: int,
) -> Seq<char> {
    API_BASE_URL@ + "/repos/"@ + owner + "/"@ + repo + "/issues/"@ + decimal(number)
        + "/comments?page="@ + decimal(page) + "&per_page="@ + decimal(per_page)
}

/// The address that tells whose token is in use.
pub open spec fn user_url() -> Seq<char> {
    API_BASE_URL@ + "/user"@
}

/// Access to the tracker on behalf of one token.
pub struct GitHub {
    token: String,
}

impl Clone for GitHub {
    fn clone(&self) -> (r: Self)
        ensures
            r == *self,
    {
        GitHub { token: self.token.clone() }
    }
}

impl GitHub {
    /// The value of the authorization header.
    pub closed spec fn authorization(&self) -> Seq<char> {
        self.token@
    }

    /// The request for `url` with the headers every request carries, then `extra`.
    pub open spec fn spec_request(&self, url: Seq<char>, extra: Seq<(Seq<char>, Seq<char>)>)
        -> RequestView {
        RequestView {
            method: Method::Get,
            url,
            headers: seq![
                (USER_AGENT@, USER_AGENT_VALUE@),
                (AUTHORIZATION@, self.authorization()),
            ] + extra,
            body: None,
        }
    }

    /// The request for page `page` of the issues of `repo`.
    pub open spec fn spec_issues_request(&self, repo: Repo, page: int, per_page: int)
        -> RequestView {
        self.spec_request(
            issues_url(repo.owner@, repo.repo@, page, per_page),
            seq![(ACCEPT@, ISSUE_MEDIA_TYPE@)],
        )
    }

    /// The request for page `page` of the comments on `issue`.
    pub open spec fn spec_comments_request(&self, issue: Issue, page: int, per_page: int)
        -> RequestView {
        self.spec_request(
            comments_url(issue.owner@, issue.repo@, issue.number as int, page, per_page),
            Seq::empty(),
        )
    }

    /// Access with `token`, which is sent as `token <token>`.
    pub fn new(token: String) -> (r: GitHub)
        ensures
            r.authorization() == "token "@ + token@,
    {
        let mut auth_header: String = "token ".to_owned();
        auth_header.append(token.as_str());
        GitHub { token: auth_header }
    }

    /// Describes the GET of `url`: the user agent, the authorization, then `headers`.
    pub fn request(&self, url: String, headers: Vec<Header>) -> (r: Request)
        ensures
            r@ == self.spec_request(url@, crate::providers::header_views(headers@)),
    {
        let mut fixed: Vec<Header> = Vec::new();
        fixed.push(header(USER_AGENT, USER_AGENT_VALUE));
        fixed.push(header(AUTHORIZATION, self.token.as_str()));
        let all = with_headers(fixed, headers);
        let r = Request { method: Method::Get, url, headers: all, body: None };
        assert(crate::providers::header_views(fixed@) =~= seq![
            (USER_AGENT@, USER_AGENT_VALUE@),
            (AUTHORIZATION@, self.authorization()),
        ]);
        r
    }

    /// The request that asks whose token this is.
    pub fn user_request(&self) -> (r: Request)
        ensures
            r@ == self.spec_request(user_url(), Seq::empty()),
    {
        let mut url: String = API_BASE_URL.to_owned();
        url.append("/user");
        self.request(url, Vec::new())
    }

    /// The name of the account that `user`, the answer to
    /// [`GitHub::user_request`], describes.
    pub fn get_user_result(&self, user: User) -> (login: String)
        ensures
            login == user.login,
    {
        user.login
    }

    /// The request for page `page` of the issues of `repo`, in pages of `per_page`.
    pub fn issues_request(&self, repo: &Repo, page: usize, per_page: usize) -> (r: Request)
        ensures
            r@ == self.spec_issues_request(*repo, page as int, per_page as int),
    {
        let mut url: String = API_BASE_URL.to_owned();
        url.append("/repos/");
        url.append(repo.owner.as_str());
        url.append("/");
        url.append(repo.repo.as_str());
        url.append("/issues?page=");
        push_decimal_nat(&mut url, page as u64);
        url.append("&per_page=");
        push_decimal_nat(&mut url, per_page as u64);
        let mut headers: Vec<Header> = Vec::new();
        headers.push(header(ACCEPT, ISSUE_MEDIA_TYPE));
        assert(crate::providers::header_views(headers@) =~= seq![(ACCEPT@, ISSUE_MEDIA_TYPE@)]);
        self.request(url, headers)
    }

    /// The request for page `page` of the comments on `issue`, in pages of `per_page`.
    pub fn comments_request(&self, issue: &Issue, page: usize, per_page: usize) -> (r: Request)
        ensures
            r@ == self.spec_comments_request(*issue, page as int, per_page as int),
    {
        let mut url: String = API_BASE_URL.to_owned();
        url.append("/repos/");
        url.append(issue.owner.as_str());
        url.append("/");
        url.append(issue.repo.as_str());
        url.append("/issues/");
        push_decimal(&mut url, issue.number as i64);
        url.append("/comments?page=");
        push_decimal_nat(&mut url, page as u64);
        url.append("&per_page=");
        push_decimal_nat(&mut url, per_page as u64);
        let headers: Vec<Header> = Vec::new();
        self.request(url, headers)
    }
}

/// The test an issue has to pass to be looked at further.
pub open spec fn awaiting(now: Timestamp, max_age_hours: int) -> spec_fn(Issue) -> bool {
    |issue: Issue| issue.awaits_reply(now, max_age_hours)
}

/// Each of `issues` as a member of `repo`.
pub open spec fn issues_in_repo(issues: Seq<Issue>, repo: Repo) -> Seq<Issue> {
    issues.map_values(|issue: Issue| issue.in_repo(repo))
}

/// Marks each of `issues` as a member of `repo` and keeps, in order, those
/// the team is expected to answer.
pub fn select_awaiting(issues: Vec<Issue>, repo: &Repo, now: &Timestamp, max_age_hours: i64) -> (r:
    Vec<Issue>)
    ensures
        r@ == issues_in_repo(issues@, *repo).filter(awaiting(*now, max_age_hours as int)),
{
    let ghost marked = issues_in_repo(issues@, *repo);
    let ghost test = awaiting(*now, max_age_hours as int);
    let mut kept: Vec<Issue> = Vec::new();
    for issue in it: issues
        invariant
            it.seq() == issues@,
            marked == issues_in_repo(issues@, *repo),
            test == awaiting(*now, max_age_hours as int),
            kept@ == marked.take(it.index() as int).filter(test),
    {
        proof {
            let done = it.index() as int;
            assert(marked.take(done + 1).drop_last() =~= marked.take(done));
            reveal(Seq::filter);
        }
        let issue = issue.with_repo(repo);
        if issue.is_awaiting_reply(now, max_age_hours) {
            kept.push(issue);
        }
    }
    assert(marked.take(issues@.len() as int) =~= marked);
    kept
}

/// What the search asks the transport to do next.
pub enum IssueStep {
    /// List page `page` of the issues of a repository; answer with
    /// [`IssueSearch::on_issues`].
    ListIssues { request: Request, page: usize },
    /// List page `page` of the comments on an issue; answer with
    /// [`IssueSearch::on_comments`].
    ListComments { request: Request, page: usize },
    /// Nothing: [`IssueSearch::finish`] has the result, or the failure.
    Done,
}

/// The state of a search, as plain values.
pub struct IssueSearchView {
    pub github: GitHub,
    pub now: Timestamp,
    pub max_age_hours: int,
    pub per_page: nat,
    /// The repositories still to be listed; the first is being listed.
    pub repos: Seq<Repo>,
    /// The pages received of the repository being listed.
    pub listing: PagerView<Issue>,
    /// The issues awaiting a reply whose comments are still to be read;
    /// once every repository is listed, those of the first are being read.
    pub pending: Seq<Issue>,
    /// The pages received of the comments being read.
    pub comments: PagerView<Comment>,
    /// The issues found to be without a reply from the team.
    pub no_reply: Seq<Issue>,
    /// Why the search was given up, if it was.
    pub failure: Option<Error>,
}

impl IssueSearchView {
    /// The state before the first request.
    pub open spec fn start(
        github: GitHub,
        repos: Seq<Repo>,
        now: Timestamp,
        max_age_hours: int,
        per_page: nat,
    ) -> Self {
        IssueSearchView {
            github,
            now,
            max_age_hours,
            per_page,
            repos,
            listing: PagerView::fresh(per_page),
            pending: Seq::empty(),
            comments: PagerView::fresh(per_page),
            no_reply: Seq::empty(),
            failure: None,
        }
    }

    /// Whether a request failed and the search was given up.
    pub open spec fn is_failed(self) -> bool {
        self.failure is Some
    }

    /// Whether a repository is still to be listed.
    pub open spec fn is_listing(self) -> bool {
        !self.is_failed() && self.repos.len() > 0
    }

    /// Whether every repository is listed and comments are still to be read.
    pub open spec fn is_reading_comments(self) -> bool {
        !self.is_failed() && self.repos.len() == 0 && self.pending.len() > 0
    }

    /// Whether every request was answered and the result is there.
    pub open spec fn is_done(self) -> bool {
        !self.is_failed() && self.repos.len() == 0 && self.pending.len() == 0
    }

    /// The state after a request has failed, be it that it could not be
    /// sent or that the answer could not be read. The search is given up
    /// with `error`, and all that was gathered is dropped. A failure that
    /// answers no request changes nothing; so the first failure stays.
    pub open spec fn on_failure(self, error: Error) -> Self {
        if self.is_listing() || self.is_reading_comments() {
            IssueSearchView {
                repos: Seq::empty(),
                listing: PagerView::fresh(self.per_page),
                pending: Seq::empty(),
                comments: PagerView::fresh(self.per_page),
                no_reply: Seq::empty(),
                failure: Some(error),
                ..self
            }
        } else {
            self
        }
    }

    /// The state after a page of issues has come back. While the pages are
    /// full the listing goes on; the first other page ends it, and the issues
    /// of the repository that await a reply join those still to be read.
    pub open spec fn on_issues(self, batch: Seq<Issue>) -> Self {
        if !self.is_listing() {
            self
        } else {
            let listing = self.listing.accept(batch);
            if listing.wants_page() {
                IssueSearchView { listing, ..self }
            } else {
                IssueSearchView {
                    repos: self.repos.drop_first(),
                    listing: PagerView::fresh(self.per_page),
                    pending: self.pending + issues_in_repo(listing.items, self.repos[0]).filter(
                        awaiting(self.now, self.max_age_hours),
                    ),
                    ..self
                }
            }
        }
    }

    /// The state after a page of comments has come back. After the last
    /// page, the issue they belong to is reported if and only if no team
    /// member wrote any of them.
    pub open spec fn on_comments(self, batch: Seq<Comment>) -> Self {
        if !self.is_reading_comments() {
            self
        } else {
            let comments = self.comments.accept(batch);
            if comments.wants_page() {
                IssueSearchView { comments, ..self }
            } else {
                IssueSearchView {
                    pending: self.pending.drop_first(),
                    comments: PagerView::fresh(self.per_page),
                    no_reply: if member_comments(comments.items) == 0 {
                        self.no_reply.push(self.pending[0])
                    } else {
                        self.no_reply
                    },
                    ..self
                }
            }
        }
    }

    /// The state after the pages of `batches` have come back as pages of
    /// issues, one after another.
    pub open spec fn on_all_issues(self, batches: Seq<Seq<Issue>>) -> Self
        decreases batches.len(),
    {
        if batches.len() == 0 {
            self
        } else {
            self.on_all_issues(batches.drop_last()).on_issues(batches.last())
        }
    }

    /// The state after the pages of `batches` have come back as pages of
    /// comments, one after another.
    pub open spec fn on_all_comments(self, batches: Seq<Seq<Comment>>) -> Self
        decreases batches.len(),
    {
        if batches.len() == 0 {
            self
        } else {
            self.on_all_comments(batches.drop_last()).on_comments(batches.last())
        }
    }

    /// What holds of every state a search can reach.
    pub open spec fn inv(self) -> bool {
        &&& self.is_failed() ==> self.repos.len() == 0 && self.pending.len() == 0
            && self.no_reply.len() == 0
        &&& self.listing.per_page == self.per_page
        &&& self.comments.per_page == self.per_page
        &&& self.listing.wants_page()
        &&& self.comments.wants_page()
        &&& forall|i: int|
            0 <= i < self.pending.len() ==> (#[trigger] self.pending[i]).awaits_reply(
                self.now,
                self.max_age_hours,
            )
        &&& forall|i: int|
            0 <= i < self.no_reply.len() ==> (#[trigger] self.no_reply[i]).awaits_reply(
                self.now,
                self.max_age_hours,
            )
    }
}

/// A search starts in a state that satisfies the invariant.
pub proof fn lemma_start_inv(
    github: GitHub,
    repos: Seq<Repo>,
    now: Timestamp,
    max_age_hours: int,
    per_page: nat,
)
    ensures
        IssueSearchView::start(github, repos, now, max_age_hours, per_page).inv(),
{
}

/// A page of issues keeps the invariant.
pub proof fn lemma_on_issues_inv(v: IssueSearchView, batch: Seq<Issue>)
    requires
        v.inv(),
    ensures
        v.on_issues(batch).inv(),
{
    let after = v.on_issues(batch);
    if v.is_listing() && !v.listing.accept(batch).wants_page() {
        let listed = issues_in_repo(v.listing.accept(batch).items, v.repos[0]);
        assert forall|i: int| 0 <= i < after.pending.len() implies (
        #[trigger] after.pending[i]).awaits_reply(v.now, v.max_age_hours) by {
            if i >= v.pending.len() {
                listed.lemma_filter_pred(awaiting(v.now, v.max_age_hours), i - v.pending.len());
            }
        }
    }
}

/// A page of comments keeps the invariant.
pub proof fn lemma_on_comments_inv(v: IssueSearchView, batch: Seq<Comment>)
    requires
        v.inv(),
    ensures
        v.on_comments(batch).inv(),
{
}

/// A failure keeps the invariant.
pub proof fn lemma_on_failure_inv(v: IssueSearchView, error: Error)
    requires
        v.inv(),
    ensures
        v.on_failure(error).inv(),
{
}

/// A failed request ends the search: it reports nothing, asks for nothing
/// more, and whatever is handed to it afterwards, an answer or another
/// failure, changes nothing.
pub proof fn lemma_a_failure_ends_the_search(
    v: IssueSearchView,
    error: Error,
    issues: Seq<Issue>,
    comments: Seq<Comment>,
    later: Error,
)
    requires
        v.is_listing() || v.is_reading_comments(),
    ensures
        v.on_failure(error).failure == Some(error),
        v.on_failure(error).no_reply.len() == 0,
        !v.on_failure(error).is_listing(),
        !v.on_failure(error).is_reading_comments(),
        !v.on_failure(error).is_done(),
        v.on_failure(error).on_issues(issues) == v.on_failure(error),
        v.on_failure(error).on_comments(comments) == v.on_failure(error),
        v.on_failure(error).on_failure(later) == v.on_failure(error),
{
}

/// A pull request is never reported, whatever else holds of it.
pub proof fn lemma_pull_request_never_reported(v: IssueSearchView, issue: Issue)
    requires
        v.inv(),
        issue.is_pull_request(),
    ensures
        !v.no_reply.contains(issue),
{
}

/// An issue older than the window is never reported, whether or not it
/// has comments.
pub proof fn lemma_old_issue_never_reported(v: IssueSearchView, issue: Issue)
    requires
        v.inv(),
        issue.age(v.now) > v.max_age_hours * NANOS_PER_HOUR,
    ensures
        !v.no_reply.contains(issue),
{
}

/// An issue filed by a team member is never reported, whether or not it
/// has comments.
pub proof fn lemma_team_issue_never_reported(v: IssueSearchView, issue: Issue)
    requires
        v.inv(),
        is_team_role(issue.author_association@),
    ensures
        !v.no_reply.contains(issue),
{
}

/// While the pages of a repository come back full, the search only gathers them.
proof fn lemma_full_pages_of_issues(v: IssueSearchView, full: Seq<Seq<Issue>>)
    requires
        v.is_listing(),
        v.listing == PagerView::<Issue>::fresh(v.per_page),
        full.len() < usize::MAX,
        forall|i: int| 0 <= i < full.len() ==> (#[trigger] full[i]).len() == v.per_page,
    ensures
        v.on_all_issues(full) == (IssueSearchView { listing: v.listing.accept_all(full), ..v }),
    decreases full.len(),
{
    if full.len() > 0 {
        let before = full.drop_last();
        lemma_full_pages_of_issues(v, before);
        lemma_full_batches_keep_asking(v.per_page, before);
        lemma_full_batches_keep_asking(v.per_page, full);
    }
}

/// While the pages of comments on an issue come back full, the search only gathers them.
proof fn lemma_full_pages_of_comments(v: IssueSearchView, full: Seq<Seq<Comment>>)
    requires
        v.is_reading_comments(),
        v.comments == PagerView::<Comment>::fresh(v.per_page),
        full.len() < usize::MAX,
        forall|i: int| 0 <= i < full.len() ==> (#[trigger] full[i]).len() == v.per_page,
    ensures
        v.on_all_comments(full) == (IssueSearchView { comments: v.comments.accept_all(full), ..v }),
    decreases full.len(),
{
    if full.len() > 0 {
        let before = full.drop_last();
        lemma_full_pages_of_comments(v, before);
        lemma_full_batches_keep_asking(v.per_page, before);
        lemma_full_batches_keep_asking(v.per_page, full);
    }
}

/// Listing a repository from its first page on: when the tracker answers
/// with the full pages `full` and then with the page `short` of another
/// length, the search is through with the repository after exactly these
/// pages, and those of its issues that await a reply, all pages taken
/// together and in order, have joined the issues whose comments are to be read.
pub proof fn lemma_listing_a_repository(
    v: IssueSearchView,
    full: Seq<Seq<Issue>>,
    short: Seq<Issue>,
)
    requires
        v.is_listing(),
        v.listing == PagerView::<Issue>::fresh(v.per_page),
        full.len() < usize::MAX,
        forall|i: int| 0 <= i < full.len() ==> (#[trigger] full[i]).len() == v.per_page,
        short.len() != v.per_page,
    ensures
        v.on_all_issues(full).is_listing(),
        v.on_all_issues(full).repos == v.repos,
        v.on_all_issues(full.push(short)) == (IssueSearchView {
            repos: v.repos.drop_first(),
            pending: v.pending + issues_in_repo(full.flatten() + short, v.repos[0]).filter(
                awaiting(v.now, v.max_age_hours),
            ),
            ..v
        }),
{
    lemma_full_pages_of_issues(v, full);
    lemma_stops_after_first_short_batch(v.per_page, full, short, short);
    assert(full.push(short).drop_last() =~= full);
}

/// Reading the comments on an issue from their first page on: when the
/// tracker answers with the full pages `full` and then with the page
/// `short` of another length, the search is through with the issue after
/// exactly these pages, and has reported it if and only if no comment on
/// any of the pages was written by a team member.
pub proof fn lemma_reading_the_comments_on_an_issue(
    v: IssueSearchView,
    full: Seq<Seq<Comment>>,
    short: Seq<Comment>,
)
    requires
        v.is_reading_comments(),
        v.comments == PagerView::<Comment>::fresh(v.per_page),
        full.len() < usize::MAX,
        forall|i: int| 0 <= i < full.len() ==> (#[trigger] full[i]).len() == v.per_page,
        short.len() != v.per_page,
    ensures
        v.on_all_comments(full).is_reading_comments(),
        v.on_all_comments(full).pending == v.pending,
        v.on_all_comments(full.push(short)) == (IssueSearchView {
            pending: v.pending.drop_first(),
            no_reply: if member_comments(full.flatten() + short) == 0 {
                v.no_reply.push(v.pending[0])
            } else {
                v.no_reply
            },
            ..v
        }),
{
    lemma_full_pages_of_comments(v, full);
    lemma_stops_after_first_short_batch(v.per_page, full, short, short);
    assert(full.push(short).drop_last() =~= full);
}

/// Pages of issues that come back one after another can be taken in two parts.
proof fn lemma_on_all_issues_in_parts(
    v: IssueSearchView,
    first: Seq<Seq<Issue>>,
    then: Seq<Seq<Issue>>,
)
    ensures
        v.on_all_issues(first + then) == v.on_all_issues(first).on_all_issues(then),
    decreases then.len(),
{
    if then.len() == 0 {
        assert(first + then =~= first);
    } else {
        lemma_on_all_issues_in_parts(v, first, then.drop_last());
        assert((first + then).drop_last() =~= first + then.drop_last());
    }
}

/// Pages of comments that come back one after another can be taken in two parts.
proof fn lemma_on_all_comments_in_parts(
    v: IssueSearchView,
    first: Seq<Seq<Comment>>,
    then: Seq<Seq<Comment>>,
)
    ensures
        v.on_all_comments(first + then) == v.on_all_comments(first).on_all_comments(then),
    decreases then.len(),
{
    if then.len() == 0 {
        assert(first + then =~= first);
    } else {
        lemma_on_all_comments_in_parts(v, first, then.drop_last());
        assert((first + then).drop_last() =~= first + then.drop_last());
    }
}

/// The issues awaiting a reply in the listings `listings`, where
/// `listings[i]` holds the pages of `repos[i]`: repository after repository,
/// and within a repository in the order of its pages.
pub open spec fn awaiting_in_listings(
    repos: Seq<Repo>,
    listings: Seq<Seq<Seq<Issue>>>,
    now: Timestamp,
    max_age_hours: int,
) -> Seq<Issue>
    decreases listings.len(),
{
    if listings.len() == 0 {
        Seq::empty()
    } else {
        awaiting_in_listings(repos, listings.drop_last(), now, max_age_hours) + issues_in_repo(
            listings.last().flatten(),
            repos[listings.len() - 1],
        ).filter(awaiting(now, max_age_hours))
    }
}

/// Those of `issues` without a comment by a team member, in order, where
/// `answers[i]` holds the pages of comments on `issues[i]`.
pub open spec fn without_reply(issues: Seq<Issue>, answers: Seq<Seq<Seq<Comment>>>) -> Seq<Issue>
    decreases answers.len(),
{
    if answers.len() == 0 {
        Seq::empty()
    } else {
        let before = without_reply(issues, answers.drop_last());
        if member_comments(answers.last().flatten()) == 0 {
            before.push(issues[answers.len() - 1])
        } else {
            before
        }
    }
}

/// Listing the repositories: when the tracker answers the requests for the
/// first repositories with their complete listings, one after the other,
/// the search is through with these repositories after exactly these pages,
/// and their issues that await a reply have joined the issues whose
/// comments are to be read, in the order in which they were listed.
pub proof fn lemma_listing_the_repositories(v: IssueSearchView, listings: Seq<Seq<Seq<Issue>>>)
    requires
        !v.is_failed(),
        v.listing == PagerView::<Issue>::fresh(v.per_page),
        listings.len() <= v.repos.len(),
        forall|i: int|
            0 <= i < listings.len() ==> is_complete_listing(#[trigger] listings[i], v.per_page),
    ensures
        v.on_all_issues(listings.flatten()) == (IssueSearchView {
            repos: v.repos.skip(listings.len() as int),
            pending: v.pending + awaiting_in_listings(
                v.repos,
                listings,
                v.now,
                v.max_age_hours,
            ),
            ..v
        }),
    decreases listings.len(),
{
    if listings.len() == 0 {
        assert(listings.flatten() =~= Seq::<Seq<Issue>>::empty());
        assert(v.repos.skip(0) =~= v.repos);
        assert(v.pending + Seq::<Issue>::empty() =~= v.pending);
    } else {
        let before = listings.drop_last();
        let pages = listings.last();
        lemma_listing_the_repositories(v, before);
        let mid = v.on_all_issues(before.flatten());
        assert(listings =~= before.push(pages));
        before.lemma_flatten_push(pages);
        lemma_on_all_issues_in_parts(v, before.flatten(), pages);
        assert(pages =~= pages.drop_last().push(pages.last()));
        lemma_listing_a_repository(mid, pages.drop_last(), pages.last());
        pages.drop_last().lemma_flatten_push(pages.last());
        assert(mid.repos.drop_first() =~= v.repos.skip(listings.len() as int));
        assert(mid.repos[0] == v.repos[listings.len() - 1]);
        let earlier = awaiting_in_listings(v.repos, before, v.now, v.max_age_hours);
        let added = issues_in_repo(pages.flatten(), v.repos[listings.len() - 1]).filter(
            awaiting(v.now, v.max_age_hours),
        );
        assert((v.pending + earlier) + added =~= v.pending + (earlier + added));
    }
}

/// Reading the comments: when every repository is listed and the tracker
/// answers the requests for the comments on the first pending issues with
/// their complete listings, one after the other, the search is through with
/// these issues after exactly these pages, and has reported, in order,
/// those of them that have no comment by a team member.
pub proof fn lemma_reading_the_comments(v: IssueSearchView, answers: Seq<Seq<Seq<Comment>>>)
    requires
        !v.is_failed(),
        v.repos.len() == 0,
        v.comments == PagerView::<Comment>::fresh(v.per_page),
        answers.len() <= v.pending.len(),
        forall|i: int|
            0 <= i < answers.len() ==> is_complete_listing(#[trigger] answers[i], v.per_page),
    ensures
        v.on_all_comments(answers.flatten()) == (IssueSearchView {
            pending: v.pending.skip(answers.len() as int),
            no_reply: v.no_reply + without_reply(v.pending, answers),
            ..v
        }),
    decreases answers.len(),
{
    if answers.len() == 0 {
        assert(answers.flatten() =~= Seq::<Seq<Comment>>::empty());
        assert(v.pending.skip(0) =~= v.pending);
        assert(v.no_reply + Seq::<Issue>::empty() =~= v.no_reply);
    } else {
        let before = answers.drop_last();
        let pages = answers.last();
        lemma_reading_the_comments(v, before);
        let mid = v.on_all_comments(before.flatten());
        assert(answers =~= before.push(pages));
        before.lemma_flatten_push(pages);
        lemma_on_all_comments_in_parts(v, before.flatten(), pages);
        assert(pages =~= pages.drop_last().push(pages.last()));
        lemma_reading_the_comments_on_an_issue(mid, pages.drop_last(), pages.last());
        pages.drop_last().lemma_flatten_push(pages.last());
        assert(mid.pending.drop_first() =~= v.pending.skip(answers.len() as int));
        assert(mid.pending[0] == v.pending[answers.len() - 1]);
        let kept = without_reply(v.pending, before);
        assert(v.no_reply + kept.push(mid.pending[0]) =~= (v.no_reply + kept).push(
            mid.pending[0],
        ));
    }
}

/// A whole search: when the tracker answers every request with the page
/// asked for, where `listings[i]` is the complete listing of the `i`-th
/// repository and `answers[j]` the complete listing of the comments on the
/// `j`-th issue that awaits a reply, then after exactly these pages the
/// search is done, and it reports those issues that await a reply and have
/// no comment by a team member: all of them, each once, in the order in
/// which they were listed.
pub proof fn lemma_a_whole_search(
    github: GitHub,
    repos: Seq<Repo>,
    now: Timestamp,
    max_age_hours: int,
    per_page: nat,
    listings: Seq<Seq<Seq<Issue>>>,
    answers: Seq<Seq<Seq<Comment>>>,
)
    requires
        listings.len() == repos.len(),
        forall|i: int|
            0 <= i < listings.len() ==> is_complete_listing(#[trigger] listings[i], per_page),
        answers.len() == awaiting_in_listings(repos, listings, now, max_age_hours).len(),
        forall|i: int|
            0 <= i < answers.len() ==> is_complete_listing(#[trigger] answers[i], per_page),
    ensures
        ({
            let start = IssueSearchView::start(github, repos, now, max_age_hours, per_page);
            let end = start.on_all_issues(listings.flatten()).on_all_comments(answers.flatten());
            &&& end.is_done()
            &&& end.no_reply == without_reply(
                awaiting_in_listings(repos, listings, now, max_age_hours),
                answers,
            )
        }),
{
    let start = IssueSearchView::start(github, repos, now, max_age_hours, per_page);
    lemma_listing_the_repositories(start, listings);
    let listed = start.on_all_issues(listings.flatten());
    let awaiting_all = awaiting_in_listings(repos, listings, now, max_age_hours);
    assert(listed.pending =~= awaiting_all);
    assert(listed.repos =~= Seq::<Repo>::empty());
    lemma_reading_the_comments(listed, answers);
    let end = listed.on_all_comments(answers.flatten());
    assert(end.pending =~= Seq::<Issue>::empty());
    assert(end.no_reply =~= without_reply(awaiting_all, answers));
}

/// A search for the issues that await a reply and have none from the team.
///
/// The search does no I/O. [`IssueSearch::step`] names the next request,
/// and the answer is handed to [`IssueSearch::on_issues`] or
/// [`IssueSearch::on_comments`]. A request that fails is handed to
/// [`IssueSearch::on_failure`]: that ends the search, and nothing is reported.
pub struct IssueSearch {
    github: GitHub,
    now: Timestamp,
    max_age_hours: i64,
    per_page: usize,
    repos: Vec<Repo>,
    listing: PagedFetcher<Issue>,
    pending: Vec<Issue>,
    comments: PagedFetcher<Comment>,
    no_reply: Vec<Issue>,
    failure: Option<Error>,
}

impl View for IssueSearch {
    type V = IssueSearchView;

    closed spec fn view(&self) -> IssueSearchView {
        IssueSearchView {
            github: self.github,
            now: self.now,
            max_age_hours: self.max_age_hours as int,
            per_page: self.per_page as nat,
            repos: self.repos@,
            listing: self.listing@,
            pending: self.pending@,
            comments: self.comments@,
            no_reply: self.no_reply@,
            failure: self.failure,
        }
    }
}

impl IssueSearch {
    #[verifier::type_invariant]
    closed spec fn well_formed(self) -> bool {
        self@.inv()
    }

    /// A search through `repos`, in order, for issues that at the instant
    /// `now` were filed no longer than `max_age_hours` hours ago.
    pub fn new(
        github: GitHub,
        repos: Vec<Repo>,
        now: Timestamp,
        max_age_hours: i64,
        per_page: usize,
    ) -> (r: IssueSearch)
        ensures
            r@ == IssueSearchView::start(
                github,
                repos@,
                now,
                max_age_hours as int,
                per_page as nat,
            ),
    {
        IssueSearch {
            github,
            now,
            max_age_hours,
            per_page,
            repos,
            listing: PagedFetcher::new(per_page),
            pending: Vec::new(),
            comments: PagedFetcher::new(per_page),
            no_reply: Vec::new(),
            failure: None,
        }
    }

    /// The repository that is being listed, if any.
    pub fn current_repo(&self) -> (r: Option<&Repo>)
        ensures
            match r {
                Some(repo) => self@.is_listing() && *repo == self@.repos[0],
                None => !self@.is_listing(),
            },
    {
        proof {
            use_type_invariant(self);
        }
        if self.repos.len() > 0 {
            Some(&self.repos[0])
        } else {
            None
        }
    }

    /// The issue whose comments are being read, if any.
    pub fn current_issue(&self) -> (r: Option<&Issue>)
        ensures
            match r {
                Some(issue) => self@.is_reading_comments() && *issue == self@.pending[0],
                None => !self@.is_reading_comments(),
            },
    {
        proof {
            use_type_invariant(self);
        }
        if self.repos.len() == 0 && self.pending.len() > 0 {
            Some(&self.pending[0])
        } else {
            None
        }
    }

    /// The request to make next, if any.
    pub fn step(&self) -> (r: IssueStep)
        ensures
            match r {
                IssueStep::ListIssues { request, page } => {
                    &&& self@.is_listing()
                    &&& page == self@.listing.page + 1
                    &&& request@ == self@.github.spec_issues_request(
                        self@.repos[0],
                        (self@.listing.page + 1) as int,
                        self@.per_page as int,
                    )
                },
                IssueStep::ListComments { request, page } => {
                    &&& self@.is_reading_comments()
                    &&& page == self@.comments.page + 1
                    &&& request@ == self@.github.spec_comments_request(
                        self@.pending[0],
                        (self@.comments.page + 1) as int,
                        self@.per_page as int,
                    )
                },
                IssueStep::Done => !self@.is_listing() && !self@.is_reading_comments(),
            },
    {
        proof {
            use_type_invariant(self);
        }
        if self.repos.len() > 0 {
            match self.listing.next_page() {
                Some(page) => IssueStep::ListIssues {
                    request: self.github.issues_request(&self.repos[0], page, self.per_page),
                    page,
                },
                None => IssueStep::Done,
            }
        } else if self.pending.len() > 0 {
            match self.comments.next_page() {
                Some(page) => IssueStep::ListComments {
                    request: self.github.comments_request(&self.pending[0], page, self.per_page),
                    page,
                },
                None => IssueStep::Done,
            }
        } else {
            IssueStep::Done
        }
    }

    /// Takes in a page of issues, the answer to [`IssueStep::ListIssues`].
    pub fn on_issues(self, batch: Vec<Issue>) -> (r: IssueSearch)
        ensures
            r@ == self@.on_issues(batch@),
    {
        proof {
            use_type_invariant(&self);
            lemma_on_issues_inv(self@, batch@);
        }
        if self.repos.len() == 0 {
            return self;
        }
        let mut listing = self.listing;
        listing.accept(batch);
        if listing.next_page().is_some() {
            return IssueSearch { listing, ..self };
        }
        let mut repos = self.repos;
        let repo = repos.remove(0);
        let mut kept = select_awaiting(listing.into_items(), &repo, &self.now, self.max_age_hours);
        let mut pending = self.pending;
        pending.append(&mut kept);
        IssueSearch { repos, listing: PagedFetcher::new(self.per_page), pending, ..self }
    }

    /// Takes in a page of comments, the answer to [`IssueStep::ListComments`].
    pub fn on_comments(self, batch: Vec<Comment>) -> (r: IssueSearch)
        ensures
            r@ == self@.on_comments(batch@),
    {
        proof {
            use_type_invariant(&self);
            lemma_on_comments_inv(self@, batch@);
        }
        if self.repos.len() > 0 || self.pending.len() == 0 {
            return self;
        }
        let mut comments = self.comments;
        comments.accept(batch);
        if comments.next_page().is_some() {
            return IssueSearch { comments, ..self };
        }
        let mut pending = self.pending;
        let issue = pending.remove(0);
        let mut no_reply = self.no_reply;
        if count_member_comments(comments.items()) == 0 {
            no_reply.push(issue);
        }
        IssueSearch { pending, comments: PagedFetcher::new(self.per_page), no_reply, ..self }
    }

    /// Takes in the failure of the request last asked for: it could not be
    /// sent, or its answer could not be read.
    pub fn on_failure(self, error: Error) -> (r: IssueSearch)
        ensures
            r@ == self@.on_failure(error),
    {
        proof {
            use_type_invariant(&self);
            lemma_on_failure_inv(self@, error);
        }
        if self.repos.len() == 0 && self.pending.len() == 0 {
            return self;
        }
        IssueSearch {
            repos: Vec::new(),
            listing: PagedFetcher::new(self.per_page),
            pending: Vec::new(),
            comments: PagedFetcher::new(self.per_page),
            no_reply: Vec::new(),
            failure: Some(error),
            ..self
        }
    }

    /// How the search ended: with the issues without a reply from the team,
    /// in the order in which they were listed, or with the failure that
    /// ended it. `None` while requests are still to be made: nothing is
    /// handed out of a search that is under way.
    pub fn finish(self) -> (r: Option<Result<Vec<Issue>, Error>>)
        ensures
            r is None <==> self@.is_listing() || self@.is_reading_comments(),
            r matches Some(Ok(issues)) ==> {
                &&& self@.is_done()
                &&& issues@ == self@.no_reply
                &&& forall|i: int|
                    0 <= i < issues@.len() ==> (#[trigger] issues@[i]).awaits_reply(
                        self@.now,
                        self@.max_age_hours,
                    )
            },
            r matches Some(Err(error)) ==> self@.failure == Some(error),
    {
        proof {
            use_type_invariant(&self);
        }
        if self.repos.len() > 0 || self.pending.len() > 0 {
            return None;
        }
        match self.failure {
            Some(error) => Some(Err(error)),
            None => Some(Ok(self.no_reply)),
        }
    }
}

impl GitHub {
    /// Begins the search for the issues of the repositories `raw`, each given
    /// as `owner/name`, that were filed within the last [`MAX_AGE_HOURS`]
    /// hours before `now` by an outsider and have no comment from the team.
    pub fn get_opened_issues(&self, raw: Vec<String>, now: Timestamp) -> (r: Result<
        IssueSearch,
        Error,
    >)
        ensures
            match r {
                Ok(search) => {
                    &&& search@ == IssueSearchView::start(
                        *self,
                        search@.repos,
                        now,
                        MAX_AGE_HOURS as int,
                        PER_PAGE as nat,
                    )
                    &&& search@.repos.len() == raw@.len()
                    &&& forall|i: int|
                        0 <= i < raw@.len() ==> repo_parts(#[trigger] raw@[i]@) == Some(
                            (search@.repos[i].owner@, search@.repos[i].repo@),
                        )
                },
                Err(e) => exists|i: int|
                    first_malformed(raw@, i) && e@ == malformed_repo_reason(#[trigger] raw@[i]@),
            },
    {
        match parse_repos(raw) {
            Ok(repos) => Ok(IssueSearch::new(self.clone(), repos, now, MAX_AGE_HOURS, PER_PAGE)),
            Err(e) => Err(e),
        }
    }
}

} // verus!
