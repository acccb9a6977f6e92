use background_cat::finding::{Finding, Severity};
use background_cat::pattern::Capture;
use background_cat::responder::{
    on_log, on_message, on_message_from, raw_link, reply_for, Field, Reply, Step,
};

fn reply_with(fields: Vec<Field>) -> Reply {
    Reply {
        title: "Automated Response: (Warning: Experimental)".to_string(),
        colour: 0x11806A,
        fields,
        footer_icon: "https://cdn.discordapp.com/emojis/280120125284417536.png?v=1".to_string(),
        footer_text: "This might not solve your problem, but it could be worth a try".to_string(),
    }
}

#[test]
fn message_with_a_paste_link_asks_for_the_raw_text() {
    assert_eq!(
        on_message(false, "my game crashes https://paste.ee/p/AbC12 please help"),
        Step::Fetch("https://paste.ee/r/AbC12".to_string())
    );
    assert_eq!(
        on_message(false, "https://paste.ee/p/first and https://paste.ee/p/second"),
        Step::Fetch("https://paste.ee/r/first".to_string())
    );
    assert_eq!(
        on_message(false, "https://paste.ee/p/abc/p/def"),
        Step::Fetch("https://paste.ee/r/abc".to_string())
    );
}

#[test]
fn message_without_a_paste_link_is_ignored() {
    assert_eq!(on_message(false, ""), Step::Ignore);
    assert_eq!(on_message(false, "my game crashes"), Step::Ignore);
    assert_eq!(on_message(false, "http://paste.ee/p/AbC12"), Step::Ignore);
    assert_eq!(on_message(false, "https://paste.ee/p/"), Step::Ignore);
    assert_eq!(on_message(false, "https://paste.ee/r/AbC12"), Step::Ignore);
    assert_eq!(on_message(false, "https://pastebin.com/AbC12"), Step::Ignore);
}

#[test]
fn message_of_a_bot_is_ignored() {
    assert_eq!(on_message(true, "https://paste.ee/p/AbC12"), Step::Ignore);
    assert_eq!(
        on_message_from(true, &Capture::Group("https://paste.ee/p/AbC12".to_string())),
        Step::Ignore
    );
}

#[test]
fn step_follows_what_the_search_returned() {
    assert_eq!(
        on_message_from(false, &Capture::Group("https://paste.ee/p/AbC12".to_string())),
        Step::Fetch("https://paste.ee/r/AbC12".to_string())
    );
    assert_eq!(
        on_message_from(false, &Capture::Group("no page part".to_string())),
        Step::Fetch("no page part".to_string())
    );
    assert_eq!(on_message_from(false, &Capture::NoMatch), Step::Ignore);
    assert_eq!(on_message_from(false, &Capture::NoGroup), Step::Ignore);
    assert_eq!(on_message_from(false, &Capture::BadPattern), Step::Ignore);
}

#[test]
fn raw_link_replaces_the_first_page_part() {
    assert_eq!(raw_link("https://paste.ee/p/AbC12"), "https://paste.ee/r/AbC12");
    assert_eq!(raw_link("https://paste.ee/p/p/p/"), "https://paste.ee/r/p/p/");
    assert_eq!(raw_link("https://paste.ee/r/AbC12"), "https://paste.ee/r/AbC12");
    assert_eq!(raw_link(""), "");
}

#[test]
fn no_findings_no_reply() {
    assert_eq!(reply_for(&vec![]), None);
    assert_eq!(on_log(Some("")), None);
    assert_eq!(on_log(Some("[12:00:00] all is well\n")), None);
}

#[test]
fn failed_fetch_gives_no_reply() {
    assert_eq!(on_log(None), None);
}

#[test]
fn reply_shows_each_finding_as_a_field() {
    let findings = vec![
        Finding { severity: Severity::Critical, message: "first".to_string() },
        Finding { severity: Severity::Warning, message: "second".to_string() },
        Finding { severity: Severity::Notice, message: "third".to_string() },
    ];
    assert_eq!(
        reply_for(&findings),
        Some(reply_with(vec![
            Field { name: "‼".to_string(), value: "first".to_string(), inline: true },
            Field { name: "❗".to_string(), value: "second".to_string(), inline: true },
            Field { name: "⚠".to_string(), value: "third".to_string(), inline: true },
        ]))
    );
}

#[test]
fn log_with_findings_gets_a_reply() {
    let log = "MultiMC version: 0.6.7-123\nMinecraft folder is:\nC:/Program Files/MultiMC\n";
    assert_eq!(
        on_log(Some(log)),
        Some(reply_with(vec![
            Field {
                name: "‼".to_string(),
                value: "Your MultiMC installation is in Program Files, where MultiMC doesn't have permission to write.\nYou should move it somewhere else, like your Desktop.".to_string(),
                inline: true,
            },
            Field {
                name: "❗".to_string(),
                value: "You seem to be using an old build of MultiMC (0.6.7-123). Please update to a more recent version.".to_string(),
                inline: true,
            },
        ]))
    );
}
