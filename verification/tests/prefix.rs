use irc_bot_core::irc_msgs::{parse_prefix, prefix_from_pircolate, MsgPrefix, OwningMsgPrefix};

fn owning(text: &str) -> OwningMsgPrefix {
    OwningMsgPrefix::from_string(text.to_string())
}

fn prefix<'a>(nick: Option<&'a str>, user: Option<&'a str>, host: Option<&'a str>) -> MsgPrefix<'a> {
    MsgPrefix { nick, user, host }
}

#[test]
fn parse_bare_nick() {
    assert_eq!(parse_prefix("bob"), prefix(Some("bob"), None, None));
    assert_eq!(parse_prefix("irc.example.org"), prefix(Some("irc.example.org"), None, None));
}

#[test]
fn parse_empty_text() {
    assert_eq!(parse_prefix(""), prefix(Some(""), None, None));
}

#[test]
fn parse_full_prefix() {
    assert_eq!(owning("a!b@c").parse(), prefix(Some("a"), Some("b"), Some("c")));
    assert_eq!(
        parse_prefix("bob!~robert@host.example.org"),
        prefix(Some("bob"), Some("~robert"), Some("host.example.org"))
    );
}

#[test]
fn parse_nick_and_host() {
    assert_eq!(parse_prefix("a@c"), prefix(Some("a"), None, Some("c")));
}

#[test]
fn parse_nick_and_user() {
    assert_eq!(parse_prefix("a!b"), prefix(Some("a"), Some("b"), None));
}

#[test]
fn parse_splits_at_last_at_and_first_bang() {
    assert_eq!(parse_prefix("a!b!c@d@e"), prefix(Some("a"), Some("b!c@d"), Some("e")));
}

#[test]
fn parse_bang_behind_the_last_at_belongs_to_the_host() {
    assert_eq!(parse_prefix("a@b!c"), prefix(Some("a"), None, Some("b!c")));
}

#[test]
fn parse_separators_alone() {
    assert_eq!(parse_prefix("!@"), prefix(Some(""), Some(""), Some("")));
    assert_eq!(parse_prefix("@"), prefix(Some(""), None, Some("")));
    assert_eq!(parse_prefix("!"), prefix(Some(""), Some(""), None));
}

#[test]
fn parse_text_beyond_ascii() {
    assert_eq!(
        parse_prefix("žofka!üser@höst.example"),
        prefix(Some("žofka"), Some("üser"), Some("höst.example"))
    );
}

#[test]
fn to_owning_renders_all_components() {
    let p = prefix(Some("a"), Some("b"), Some("c"));
    assert_eq!(p.to_owning().as_str(), "a!b@c");
}

#[test]
fn to_owning_renders_unknown_components_as_empty() {
    assert_eq!(prefix(None, None, None).to_owning().as_str(), "!@");
    assert_eq!(prefix(Some("bob"), None, None).to_owning().as_str(), "bob!@");
    assert_eq!(prefix(None, Some("u"), None).to_owning().as_str(), "!u@");
    assert_eq!(prefix(None, None, Some("h")).to_owning().as_str(), "!@h");
}

#[test]
fn parse_of_rendered_prefix_gives_the_prefix_back() {
    let p = prefix(Some("bob"), Some("robert"), Some("example.org"));
    let o = p.to_owning();
    assert_eq!(o.parse(), p);
}

#[test]
fn parse_of_rendered_partial_prefix_gives_empty_components() {
    let o = prefix(Some("bob"), None, None).to_owning();
    assert_eq!(o.parse(), prefix(Some("bob"), Some(""), Some("")));
    let o = prefix(None, None, None).to_owning();
    assert_eq!(o.parse(), prefix(Some(""), Some(""), Some("")));
}

#[test]
fn from_string_keeps_the_text_as_it_is() {
    assert_eq!(owning("no separators here").as_str(), "no separators here");
    assert_eq!(owning("").as_str(), "");
}

#[test]
fn update_from_nothing_keeps_canonical_text() {
    let mut o = owning("a!b@c");
    o.update_from(&prefix(None, None, None));
    assert_eq!(o.as_str(), "a!b@c");
    o.update_from(&prefix(None, None, None));
    assert_eq!(o.as_str(), "a!b@c");
}

#[test]
fn update_from_nothing_brings_text_into_canonical_form() {
    let mut o = owning("bob");
    o.update_from(&prefix(None, None, None));
    assert_eq!(o.as_str(), "bob!@");
    o.update_from(&prefix(None, None, None));
    assert_eq!(o.as_str(), "bob!@");
}

#[test]
fn update_from_new_nick() {
    let mut o = owning("a!b@c");
    o.update_from(&prefix(Some("x"), None, None));
    assert_eq!(o.as_str(), "x!b@c");
}

#[test]
fn update_from_new_user_and_host() {
    let mut o = owning("a!b@c");
    o.update_from(&prefix(None, Some("u"), None));
    assert_eq!(o.as_str(), "a!u@c");
    o.update_from(&prefix(None, None, Some("h")));
    assert_eq!(o.as_str(), "a!u@h");
    o.update_from(&prefix(Some("n"), Some("v"), Some("g")));
    assert_eq!(o.as_str(), "n!v@g");
}

#[test]
fn update_from_fills_unknown_components() {
    let mut o = owning("bob");
    o.update_from(&prefix(None, Some("robert"), None));
    assert_eq!(o.as_str(), "bob!robert@");
    o.update_from(&prefix(None, None, Some("example.org")));
    assert_eq!(o.as_str(), "bob!robert@example.org");
}

#[test]
fn update_from_empty_component_overwrites() {
    let mut o = owning("a!b@c");
    o.update_from(&prefix(None, Some(""), None));
    assert_eq!(o.as_str(), "a!@c");
}

#[test]
fn len_of_unknown_prefix_is_two() {
    assert_eq!(prefix(None, None, None).len(), 2);
}

#[test]
fn len_adds_components_and_separators() {
    assert_eq!(prefix(Some("bob"), Some("u"), Some("example.org")).len(), 17);
    assert_eq!(prefix(Some("bob"), None, None).len(), 5);
    assert_eq!(prefix(Some(""), Some(""), Some("")).len(), 2);
}

#[test]
fn len_counts_bytes() {
    assert_eq!(prefix(Some("é"), None, None).len(), 4);
    assert_eq!(prefix(Some("日本"), None, Some("語")).len(), 11);
}

#[test]
fn owning_len_is_exact() {
    assert_eq!(owning("a!b@c").len(), 5);
    assert_eq!(owning("").len(), 0);
    assert_eq!(owning("é!@").len(), 4);
}

#[test]
fn len_bounds_the_rendered_length() {
    let p = prefix(Some("bob"), Some("robert"), Some("example.org"));
    assert_eq!(p.len(), p.to_owning().len());
    let q = prefix(Some("bob"), None, None);
    assert_eq!(q.len(), q.to_owning().len());
}

#[test]
fn prefix_from_parser_with_nick() {
    assert_eq!(
        prefix_from_pircolate(Some(("n", Some("u"), Some("h")))),
        prefix(Some("n"), Some("u"), Some("h"))
    );
    assert_eq!(prefix_from_pircolate(Some(("n", None, Some("h")))), prefix(Some("n"), None, Some("h")));
    assert_eq!(prefix_from_pircolate(Some(("n", None, None))), prefix(Some("n"), None, None));
}

#[test]
fn prefix_from_parser_without_prefix() {
    assert_eq!(prefix_from_pircolate(None), prefix(None, None, None));
}
