//! The report: what was found, as one text.

use crate::providers::discourse::topic_line;
use crate::providers::discourse::Topic;
use crate::providers::github::issue_address;
use crate::providers::github::Issue;
use crate::text::decimal;
use crate::text::push_decimal_nat;
use vstd::prelude::*;

verus! {

/// What a section without items reads.
#[derive(Clone, Copy, Debug, PartialEq, Eq, Structural)]
pub enum EmptySections {
    /// Nothing at all: the section is left out.
    Omit,
    /// Its heading, with the count zero.
    State,
}

/// The heading of the issue section, after the count.
pub const ISSUES_HEADING: &'static str = " no-reply issues in 3 days\n";

/// The heading of the topic section, after the count.
pub const TOPICS_HEADING: &'static str = " no-reply topics in TUG\n";

/// What separates the topic section from what stands before it.
pub const SECTION_BREAK: &'static str = "\n\n";

/// One line for each of `issues`, in order: the address of the issue.
pub open spec fn issue_lines(issues: Seq<Issue>) -> Seq<char>
    decreases issues.len(),
{
    if issues.len() == 0 {
        Seq::empty()
    } else {
        let last = issues.last();
        issue_lines(issues.drop_last()) + issue_address(
            last.owner@,
            last.repo@,
            last.number as int,
        ) + "\n"@
    }
}

/// One line for each of `topics`, in order: id, title and address of the topic.
pub open spec fn topic_lines(topics: Seq<Topic>) -> Seq<char>
    decreases topics.len(),
{
    if topics.len() == 0 {
        Seq::empty()
    } else {
        let last = topics.last();
        topic_lines(topics.drop_last()) + topic_line(last.id as int, last.title@, last.base_url@)
            + "\n"@
    }
}

/// Whether a section of `count` items is written.
pub open spec fn section_shown(count: nat, empty: EmptySections) -> bool {
    count > 0 || empty == EmptySections::State
}

/// The issue section: the count with its heading, then the lines.
pub open spec fn issue_section(issues: Seq<Issue>, empty: EmptySections) -> Seq<char> {
    if section_shown(issues.len(), empty) {
        decimal(issues.len() as int) + ISSUES_HEADING@ + issue_lines(issues)
    } else {
        Seq::empty()
    }
}

/// The topic section: a break, the count with its heading, then the lines.
pub open spec fn topic_section(topics: Seq<Topic>, empty: EmptySections) -> Seq<char> {
    if section_shown(topics.len(), empty) {
        SECTION_BREAK@ + decimal(topics.len() as int) + TOPICS_HEADING@ + topic_lines(topics)
    } else {
        Seq::empty()
    }
}

/// The whole report: the issue section, then the topic section.
pub open spec fn report_text(issues: Seq<Issue>, topics: Seq<Topic>, empty: EmptySections) -> Seq<
    char,
> {
    issue_section(issues, empty) + topic_section(topics, empty)
}

/// A finished report.
#[derive(Debug)]
pub struct Report {
    pub text: String,
    /// Whether the report lists an issue.
    pub has_issue: bool,
    /// Whether the report lists a topic.
    pub has_topic: bool,
}

/// Writes the report on `issues` and `topics`. The items keep their order.
pub fn build_report(issues: &Vec<Issue>, topics: &Vec<Topic>, empty: EmptySections) -> (r: Report)
    ensures
        r.text@ == report_text(issues@, topics@, empty),
        r.has_issue == (issues@.len() > 0),
        r.has_topic == (topics@.len() > 0),
{
    let mut text = String::new();
    let state_empty = match empty {
        EmptySections::State => true,
        EmptySections::Omit => false,
    };
    let has_issue = issues.len() != 0;
    if has_issue || state_empty {
        push_decimal_nat(&mut text, issues.len() as u64);
        text.append(ISSUES_HEADING);
        let ghost head = text@;
        let mut i: usize = 0;
        while i < issues.len()
            invariant
                i <= issues@.len(),
                text@ == head + issue_lines(issues@.take(i as int)),
            decreases issues@.len() - i,
        {
            assert(issues@.take(i as int + 1).drop_last() =~= issues@.take(i as int));
            let line = issues[i].to_string();
            text.append(line.as_str());
            text.append("\n");
            i += 1;
        }
        assert(issues@.take(issues@.len() as int) =~= issues@);
    }
    let has_topic = topics.len() != 0;
    if has_topic || state_empty {
        text.append(SECTION_BREAK);
        push_decimal_nat(&mut text, topics.len() as u64);
        text.append(TOPICS_HEADING);
        let ghost head = text@;
        let mut i: usize = 0;
        while i < topics.len()
            invariant
                i <= topics@.len(),
                text@ == head + topic_lines(topics@.take(i as int)),
            decreases topics@.len() - i,
        {
            assert(topics@.take(i as int + 1).drop_last() =~= topics@.take(i as int));
            let line = topics[i].to_string();
            text.append(line.as_str());
            text.append("\n");
            i += 1;
        }
        assert(topics@.take(topics@.len() as int) =~= topics@);
    }
    Report { text, has_issue, has_topic }
}

} // verus!
