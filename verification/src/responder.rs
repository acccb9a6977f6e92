//! What to do about a chat message: the decisions of the bot, without the chat.
//!
//! The caller receives the message, fetches the log and sends the reply. This
//! module decides: whether a message holds a link to a pasted log, where the
//! raw text of that paste is to be had, and what to answer once the log was
//! scanned. A log without findings gets no answer.

use crate::finding::{glyph_of, Finding, FindingView};
use crate::pattern::{find, regex_find, Capture, CaptureView};
use crate::registry::{common_mistakes, spec_scan, standard_rules};
use crate::text::{replace_first, spec_replace_first};
use vstd::prelude::*;

verus! {

/// A link to a paste on paste.ee, as it stands in a message.
pub const PASTE_LINK_PATTERN: &'static str = r"https:/{2}paste.ee/p/[^\s/]+";

/// The part of a link that shows the page of a paste.
pub const PAGE_PART: &'static str = "/p/";

/// The part that stands in its place in the link to the raw text.
pub const RAW_PART: &'static str = "/r/";

pub const REPLY_TITLE: &'static str = "Automated Response: (Warning: Experimental)";

/// The colour of the reply, as red, green and blue: a dark teal.
pub const REPLY_COLOUR: u32 = 0x11806A;

pub const REPLY_FOOTER_ICON: &'static str =
    "https://cdn.discordapp.com/emojis/280120125284417536.png?v=1";

pub const REPLY_FOOTER_TEXT: &'static str =
    "This might not solve your problem, but it could be worth a try";

/// What the caller is to do about a message.
#[derive(Clone, Debug, PartialEq, Eq)]
pub enum Step {
    /// Nothing: the message comes from a bot or holds no link to a paste.
    Ignore,
    /// Fetch the text behind this link and hand it to [`on_log`].
    Fetch(String),
}

/// The mathematical content of a [`Step`].
pub enum StepView {
    Ignore,
    Fetch(Seq<char>),
}

impl View for Step {
    type V = StepView;

    open spec fn view(&self) -> StepView {
        match self {
            Step::Ignore => StepView::Ignore,
            Step::Fetch(link) => StepView::Fetch(link@),
        }
    }
}

/// One labelled entry of a reply.
#[derive(Clone, Debug, PartialEq, Eq)]
pub struct Field {
    pub name: String,
    pub value: String,
    /// Whether the entry may share a line with its neighbours.
    pub inline: bool,
}

/// The mathematical content of a [`Field`].
pub struct FieldView {
    pub name: Seq<char>,
    pub value: Seq<char>,
    pub inline: bool,
}

impl View for Field {
    type V = FieldView;

    open spec fn view(&self) -> FieldView {
        FieldView { name: self.name@, value: self.value@, inline: self.inline }
    }
}

impl DeepView for Field {
    type V = FieldView;

    open spec fn deep_view(&self) -> FieldView {
        self@
    }
}

/// The answer to a message that linked to a log with findings.
#[derive(Clone, Debug, PartialEq, Eq)]
pub struct Reply {
    pub title: String,
    pub colour: u32,
    pub fields: Vec<Field>,
    pub footer_icon: String,
    pub footer_text: String,
}

/// The mathematical content of a [`Reply`].
pub struct ReplyView {
    pub title: Seq<char>,
    pub colour: u32,
    pub fields: Seq<FieldView>,
    pub footer_icon: Seq<char>,
    pub footer_text: Seq<char>,
}

impl View for Reply {
    type V = ReplyView;

    open spec fn view(&self) -> ReplyView {
        ReplyView {
            title: self.title@,
            colour: self.colour,
            fields: self.fields.deep_view(),
            footer_icon: self.footer_icon@,
            footer_text: self.footer_text@,
        }
    }
}

impl DeepView for Reply {
    type V = ReplyView;

    open spec fn deep_view(&self) -> ReplyView {
        self@
    }
}

/// The link to the raw text of the paste whose page is at `link`: the first
/// [`PAGE_PART`] becomes [`RAW_PART`].
pub open spec fn spec_raw_link(link: Seq<char>) -> Seq<char> {
    spec_replace_first(link, PAGE_PART@, RAW_PART@)
}

/// The link to the raw text of the paste whose page is at `link`.
pub fn raw_link(link: &str) -> (raw: String)
    ensures
        raw@ == spec_raw_link(link@),
{
    replace_first(link, PAGE_PART, RAW_PART)
}

/// What [`on_message_from`] decides, given what the search for
/// [`PASTE_LINK_PATTERN`] returned.
pub open spec fn spec_on_message_from(from_bot: bool, link: CaptureView) -> StepView {
    match link {
        CaptureView::Group(page) if !from_bot => StepView::Fetch(spec_raw_link(page)),
        _ => StepView::Ignore,
    }
}

/// What [`on_message`] decides about a message with the text `content`.
pub open spec fn spec_on_message(from_bot: bool, content: Seq<char>) -> StepView {
    spec_on_message_from(from_bot, regex_find(PASTE_LINK_PATTERN@, content))
}

/// The step for a message in which the search for a link to a paste returned
/// `link`: fetch the raw text of the paste, unless a bot wrote the message or
/// no link was found.
pub fn on_message_from(from_bot: bool, link: &Capture) -> (step: Step)
    ensures
        step@ == spec_on_message_from(from_bot, link@),
{
    if from_bot {
        return Step::Ignore;
    }
    match link {
        Capture::Group(page) => Step::Fetch(raw_link(page.as_str())),
        _ => Step::Ignore,
    }
}

/// The step for a message with the text `content`. Messages of bots are
/// ignored unread.
pub fn on_message(from_bot: bool, content: &str) -> (step: Step)
    ensures
        step@ == spec_on_message(from_bot, content@),
{
    if from_bot {
        Step::Ignore
    } else {
        on_message_from(false, &find(PASTE_LINK_PATTERN, content))
    }
}

/// The entry of a reply that shows `finding`: its glyph as the label, its
/// message as the body.
pub open spec fn spec_field_for(finding: FindingView) -> FieldView {
    FieldView { name: glyph_of(finding.severity), value: finding.message, inline: true }
}

/// The reply that shows `findings`, one entry each and in their order; none
/// where there are no findings.
pub open spec fn spec_reply_for(findings: Seq<FindingView>) -> Option<ReplyView> {
    if findings.len() == 0 {
        None
    } else {
        Some(
            ReplyView {
                title: REPLY_TITLE@,
                colour: REPLY_COLOUR,
                fields: findings.map_values(|finding: FindingView| spec_field_for(finding)),
                footer_icon: REPLY_FOOTER_ICON@,
                footer_text: REPLY_FOOTER_TEXT@,
            },
        )
    }
}

/// What [`on_log`] answers: nothing if the log could not be fetched, else the
/// reply for what a scan of it with the standard rules finds.
pub open spec fn spec_on_log(fetched: Option<Seq<char>>) -> Option<ReplyView> {
    match fetched {
        Some(log) => spec_reply_for(spec_scan(standard_rules(), log)),
        None => None,
    }
}

/// The reply that shows `findings`; none where there are no findings.
pub fn reply_for(findings: &Vec<Finding>) -> (reply: Option<Reply>)
    ensures
        reply.deep_view() == spec_reply_for(findings.deep_view()),
{
    if findings.len() == 0 {
        return None;
    }
    let mut fields: Vec<Field> = Vec::new();
    let mut next: usize = 0;
    while next < findings.len()
        invariant
            next <= findings.len(),
            fields.len() == next,
            forall|i: int|
                0 <= i < next ==> (#[trigger] fields[i])@ == spec_field_for(findings[i]@),
        decreases findings.len() - next,
    {
        let finding = &findings[next];
        fields.push(
            Field {
                name: finding.severity.glyph().to_owned(),
                value: finding.message.clone(),
                inline: true,
            },
        );
        next += 1;
    }
    assert(fields.deep_view() =~= findings.deep_view().map_values(
        |finding: FindingView| spec_field_for(finding),
    ));
    Some(
        Reply {
            title: REPLY_TITLE.to_owned(),
            colour: REPLY_COLOUR,
            fields,
            footer_icon: REPLY_FOOTER_ICON.to_owned(),
            footer_text: REPLY_FOOTER_TEXT.to_owned(),
        },
    )
}

/// The answer once the fetch has ended: `fetched` is the text of the log, or
/// `None` if it could not be had.
pub fn on_log(fetched: Option<&str>) -> (reply: Option<Reply>)
    ensures
        reply.deep_view() == spec_on_log(
            match fetched {
                Some(log) => Some(log@),
                None => None,
            },
        ),
{
    match fetched {
        Some(log) => reply_for(&common_mistakes(log)),
        None => None,
    }
}

} // verus!
