//! What the chat commands decide, without the chat.
//!
//! The caller talks to the chat and to the web. This module reads comic
//! numbers, picks the site that a piece of drama comes from, and puts links
//! and messages together.

use crate::number::{parse_u32, spec_parse_u32};
use crate::text::{before_first, contains, occurs_in, spec_before_first};
use vstd::prelude::*;
use vstd::string::StringExecFns;

verus! {

/// Where the comics are: the number of a comic follows.
pub const XKCD_URL: &'static str = "https://xkcd.com/";

/// Ends the number in the title of a page that explains a comic.
pub const TITLE_MARK: &'static str = ":";

/// Whether `argument` is the number of a comic: whether it reads as a number.
pub fn is_comic_number(argument: &str) -> (is_number: bool)
    ensures
        is_number == spec_parse_u32(argument@) is Some,
{
    parse_u32(argument).is_some()
}

/// The number with which `title` begins, as it is written there: what stands
/// before the first [`TITLE_MARK`], if that reads as a number.
pub open spec fn spec_comic_number(title: Seq<char>) -> Option<Seq<char>> {
    let head = spec_before_first(title, TITLE_MARK@);
    if spec_parse_u32(head) is Some {
        Some(head)
    } else {
        None
    }
}

/// The number of the comic that a page with the title `title` explains.
pub fn comic_number(title: &str) -> (number: Option<String>)
    ensures
        number.deep_view() == spec_comic_number(title@),
{
    let head = before_first(title, TITLE_MARK);
    if parse_u32(head).is_some() {
        Some(head.to_owned())
    } else {
        None
    }
}

/// The link to the comic with the number `number`.
pub fn comic_link(number: &str) -> (link: String)
    ensures
        link@ == XKCD_URL@ + number@,
{
    let mut link = String::from_str(XKCD_URL);
    link.append(number);
    link
}

/// The site with drama about mods in general.
pub const MC_DRAMA: &'static str = "https://ftb-drama.herokuapp.com";

/// The site with drama about Fabric.
pub const FABRIC_DRAMA: &'static str = "https://fabric-drama.herokuapp.com";

/// The word that asks for drama about Fabric.
pub const FABRIC_WORD: &'static str = "fabric";

/// `text` in lower case, as `str::to_lowercase` writes it.
pub uninterp spec fn lowercase(text: Seq<char>) -> Seq<char>;

/// Calls `str::to_lowercase`, which maps each character to its Unicode lower
/// case. The contract only names the result.
#[verifier::external_body]
fn to_lowercase(text: &str) -> (lowered: String)
    ensures
        lowered@ == lowercase(text@),
{
    text.to_lowercase()
}

/// The site for a message that reads `lowered` in lower case.
pub open spec fn spec_drama_site_from(lowered: Seq<char>) -> Seq<char> {
    if occurs_in(FABRIC_WORD@, lowered) {
        FABRIC_DRAMA@
    } else {
        MC_DRAMA@
    }
}

/// The site for a message that reads `lowered` in lower case: the one about
/// Fabric if the message names Fabric.
pub fn drama_site_from(lowered: &str) -> (site: &'static str)
    ensures
        site@ == spec_drama_site_from(lowered@),
{
    if contains(lowered, FABRIC_WORD) {
        FABRIC_DRAMA
    } else {
        MC_DRAMA
    }
}

/// The site that a piece of drama is to come from, for the message `content`:
/// the one about Fabric if the message names Fabric, in whatever case.
pub fn drama_site(content: &str) -> (site: &'static str)
    ensures
        site@ == spec_drama_site_from(lowercase(content@)),
{
    let lowered = to_lowercase(content);
    drama_site_from(lowered.as_str())
}

/// Where `site` hands out a piece of drama.
pub fn drama_feed(site: &str) -> (link: String)
    ensures
        link@ == site@ + "/json"@,
{
    let mut link = String::from_str(site);
    link.append("/json");
    link
}

/// The lasting link to the piece of drama that `site` made from `seed` in its
/// version `version`.
pub fn drama_permalink(site: &str, version: &str, seed: &str) -> (link: String)
    ensures
        link@ == site@ + "/"@ + version@ + "/"@ + seed@,
{
    let mut link = String::from_str(site);
    link.append("/");
    link.append(version);
    link.append("/");
    link.append(seed);
    link
}

pub const INFO_TITLE: &'static str =
    "<:backgroundcat:280120125284417536>A bot to parse logfiles on the MultiMC discord<:backgroundcat:280120125284417536>";

/// Stands for the name of the author where it cannot be had.
pub const UNKNOWN_CREATOR: &'static str = "<Error getting name>";

pub const INFO_BEFORE_CREATOR: &'static str = "\nDeveloped by ";

pub const INFO_AFTER_CREATOR: &'static str =
    ".\nTo start, just upload a log from MultiMC. (Type `-log` for help)\n\n\
    [Source Code available under AGPLv3](https://gitlab.com/Scotsguy/background-cat)\n";

/// What the bot says about itself, given the name of its author, or `None`
/// where the name could not be had.
pub fn info_description(creator: Option<&str>) -> (description: String)
    ensures
        description@ == INFO_BEFORE_CREATOR@ + (match creator {
            Some(name) => name@,
            None => UNKNOWN_CREATOR@,
        }) + INFO_AFTER_CREATOR@,
{
    let name = match creator {
        Some(name) => name,
        None => UNKNOWN_CREATOR,
    };
    let mut description = String::from_str(INFO_BEFORE_CREATOR);
    description.append(name);
    description.append(INFO_AFTER_CREATOR);
    description
}

} // verus!
