//! Sender prefixes and message addressing.
//!
//! A prefix names the sender of a message in the form `nick!user@host`.
//! [`MsgPrefix`] is a borrowed, possibly partial prefix; [`OwningMsgPrefix`]
//! owns the text of one. The addressing functions decide whether a message is
//! directed at a given nickname and take the mention off its text.

use crate::text::{
    byte_len, chars_of, find_char, find_mention_sep, is_mention_sep, mention_seps_end,
    prefix_run_end, rfind_char, same_chars, skip_mention_seps, starts_with_at, strip_prefix_run,
    trailing_whitespace_start, trim, utf8_len, whitespace_end,
};
use crate::laws::lemma_joined_is_canonical;
use vstd::prelude::*;
use vstd::string::*;

verus! {

/// Identifies one server connection. The number carries no meaning beyond
/// telling connections apart.
#[derive(Clone, Copy, Debug, PartialEq, Eq, Hash)]
pub struct ServerId {
    pub raw: u128,
}

/// Where a message was sent: a connection, and a channel or nickname on it.
#[derive(Clone, Copy, Debug, PartialEq, Eq)]
pub struct MsgDest<'a> {
    pub server_id: ServerId,
    pub target: &'a str,
}

/// The sender of a message, as far as it is known. An absent component is
/// unknown, which is not the same as empty.
#[derive(Clone, Copy, Debug, PartialEq, Eq)]
pub struct MsgPrefix<'a> {
    pub nick: Option<&'a str>,
    pub user: Option<&'a str>,
    pub host: Option<&'a str>,
}

/// What a command handler is told about the message that invoked it.
#[derive(Debug)]
pub struct MsgMetadata<'a> {
    pub dest: MsgDest<'a>,
    pub prefix: MsgPrefix<'a>,
}

/// A sender prefix that owns its text.
#[derive(Debug)]
pub struct OwningMsgPrefix {
    backing: String,
}

/// The three components of a prefix, as character sequences.
pub struct PrefixParts {
    pub nick: Option<Seq<char>>,
    pub user: Option<Seq<char>>,
    pub host: Option<Seq<char>>,
}

/// The characters of an optional string slice.
pub open spec fn opt_chars(s: Option<&str>) -> Option<Seq<char>> {
    match s {
        Some(s) => Some(s@),
        None => None,
    }
}

impl<'a> View for MsgPrefix<'a> {
    type V = PrefixParts;

    open spec fn view(&self) -> PrefixParts {
        PrefixParts {
            nick: opt_chars(self.nick),
            user: opt_chars(self.user),
            host: opt_chars(self.host),
        }
    }
}

impl View for OwningMsgPrefix {
    type V = Seq<char>;

    /// The text that the prefix owns.
    closed spec fn view(&self) -> Seq<char> {
        self.backing@
    }
}

/// The prefix with no component known.
pub open spec fn no_parts() -> PrefixParts {
    PrefixParts { nick: None, user: None, host: None }
}

/// The components of the prefix text `t`. The host is what follows the last
/// `@`; where there is no `@` it is unknown. Of what stands before that `@`
/// (of all of `t`, where there is none), the nick is what precedes the first
/// `!` and the user what follows it; where there is no `!` all of it is the
/// nick and the user is unknown.
pub open spec fn parsed_prefix(t: Seq<char>) -> PrefixParts {
    let (rest, host) = match t.index_of_last('@') {
        Some(i) => (t.take(i), Some(t.skip(i + 1))),
        None => (t, None),
    };
    match rest.index_of_first('!') {
        Some(j) => PrefixParts { nick: Some(rest.take(j)), user: Some(rest.skip(j + 1)), host },
        None => PrefixParts { nick: Some(rest), user: None, host },
    }
}

/// A component's characters, none where it is unknown.
pub open spec fn or_empty(part: Option<Seq<char>>) -> Seq<char> {
    match part {
        Some(s) => s,
        None => Seq::empty(),
    }
}

/// The text `nick!user@host` of three components.
pub open spec fn joined(nick: Seq<char>, user: Seq<char>, host: Seq<char>) -> Seq<char> {
    nick + seq!['!'] + user + seq!['@'] + host
}

/// The canonical text of a prefix: `nick!user@host`, with nothing in the
/// place of an unknown component.
pub open spec fn rendered(p: PrefixParts) -> Seq<char> {
    joined(or_empty(p.nick), or_empty(p.user), or_empty(p.host))
}

/// Whether `t` has the canonical form of a prefix, `nick!user@host`: a `!`
/// stands somewhere before an `@`.
pub open spec fn is_canonical(t: Seq<char>) -> bool {
    exists|j: int, i: int| 0 <= j < i < t.len() && t[j] == '!' && t[i] == '@'
}

/// One component after an update: the new value where there is one, else the
/// old one, else nothing.
pub open spec fn updated_part(old_part: Option<Seq<char>>, new_part: Option<Seq<char>>) -> Seq<
    char,
> {
    match (old_part, new_part) {
        (_, Some(s)) => s,
        (Some(s), None) => s,
        (None, None) => Seq::empty(),
    }
}

/// The text of a prefix after an update: the old text `t` is taken apart,
/// each component is updated from `new_parts`, and the three are joined.
pub open spec fn updated_text(t: Seq<char>, new_parts: PrefixParts) -> Seq<char> {
    let old_parts = parsed_prefix(t);
    joined(
        updated_part(old_parts.nick, new_parts.nick),
        updated_part(old_parts.user, new_parts.user),
        updated_part(old_parts.host, new_parts.host),
    )
}

/// Takes the prefix text `prefix` apart into nick, user and host.
pub fn parse_prefix(prefix: &str) -> (p: MsgPrefix<'_>)
    ensures
        p@ == parsed_prefix(prefix@),
{
    let t = chars_of(prefix);
    let (rest_end, host) = match rfind_char(&t, '@') {
        Some(i) => {
            let host = prefix.substring_char(i + 1, t.len());
            (i, Some(host))
        },
        None => (t.len(), None),
    };
    assert(prefix@.take(prefix@.len() as int) =~= prefix@);
    match find_char(&t, rest_end, '!') {
        Some(j) => {
            let nick = prefix.substring_char(0, j);
            let user = prefix.substring_char(j + 1, rest_end);
            assert(nick@ =~= prefix@.take(rest_end as int).take(j as int));
            assert(user@ =~= prefix@.take(rest_end as int).skip(j + 1));
            MsgPrefix { nick: Some(nick), user: Some(user), host }
        },
        None => {
            let nick = prefix.substring_char(0, rest_end);
            MsgPrefix { nick: Some(nick), user: None, host }
        },
    }
}

/// Whether `msg` opens with a mention of `nick`: it begins with `nick`, and
/// its first mention separator stands right behind that, at position
/// `nick.len()`.
pub open spec fn opens_with_mention(msg: Seq<char>, nick: Seq<char>) -> bool {
    &&& nick.is_prefix_of(msg)
    &&& nick.len() < msg.len()
    &&& is_mention_sep(msg[nick.len() as int])
    &&& forall|i: int| 0 <= i < nick.len() ==> !is_mention_sep(#[trigger] msg[i])
}

/// Whether a message with the text `msg`, sent to `target`, is directed at
/// `nick`: it was sent to `nick` itself, or its text is `nick` and no more,
/// or its text opens with a mention of `nick`.
pub open spec fn msg_is_to_nick(target: Seq<char>, msg: Seq<char>, nick: Seq<char>) -> bool {
    target == nick || msg == nick || opens_with_mention(msg, nick)
}

/// What a message directed at `nick` says to it: the text without its
/// leading copies of `nick`, then without the mention separators that
/// follow, then without the whitespace at either end.
pub open spec fn without_mention(text: Seq<char>, nick: Seq<char>) -> Seq<char> {
    trim(skip_mention_seps(strip_prefix_run(text, nick)))
}

/// What a message says to `nick`, if it is directed at `nick` at all.
pub open spec fn msg_to_nick(text: Seq<char>, target: Seq<char>, nick: Seq<char>) -> Option<
    Seq<char>,
> {
    if msg_is_to_nick(target, text, nick) {
        Some(without_mention(text, nick))
    } else {
        None
    }
}

/// Whether `msg` opens with a mention of `nick`.
fn mention_opens(msg: &[char], nick: &[char]) -> (r: bool)
    ensures
        r == opens_with_mention(msg@, nick@),
{
    if !starts_with_at(msg, 0, nick) {
        return false;
    }
    match find_mention_sep(msg) {
        Some(i) => i == nick.len(),
        None => false,
    }
}

/// Whether a message with the characters `msg`, sent to `target`, is
/// directed at `nick`.
fn directed_at(target: &[char], msg: &[char], nick: &[char]) -> (r: bool)
    ensures
        r == msg_is_to_nick(target@, msg@, nick@),
{
    same_chars(target, nick) || same_chars(msg, nick) || mention_opens(msg, nick)
}

/// Whether a message with the text `msg`, sent to `target`, is directed at
/// `nick`.
pub fn is_msg_to_nick(target: &str, msg: &str, nick: &str) -> (r: bool)
    ensures
        r == msg_is_to_nick(target@, msg@, nick@),
{
    let target = chars_of(target);
    let msg = chars_of(msg);
    let nick = chars_of(nick);
    directed_at(&target, &msg, &nick)
}

/// What the message `text`, sent to `target`, says to `nick`: `None` where it
/// is not directed at `nick`.
pub fn parse_msg_to_nick<'msg>(text: &'msg str, target: &str, nick: &str) -> (r: Option<
    &'msg str,
>)
    ensures
        opt_chars(r) == msg_to_nick(text@, target@, nick@),
{
    let target = chars_of(target);
    let msg = chars_of(text);
    let nick = chars_of(nick);
    if directed_at(&target, &msg, &nick) {
        let after_nick = prefix_run_end(&msg, &nick);
        let after_seps = mention_seps_end(&msg, after_nick);
        let start = whitespace_end(&msg, after_seps);
        let end = trailing_whitespace_start(&msg, start);
        Some(text.substring_char(start, end))
    } else {
        None
    }
}

/// The prefix that a protocol parser found: a nick with, perhaps, a user
/// and a host, or nothing at all.
pub fn prefix_from_pircolate<'a>(
    pirc_pfx: Option<(&'a str, Option<&'a str>, Option<&'a str>)>,
) -> (p: MsgPrefix<'a>)
    ensures
        p@ == match pirc_pfx {
            Some((nick, user, host)) => PrefixParts {
                nick: Some(nick@),
                user: opt_chars(user),
                host: opt_chars(host),
            },
            None => no_parts(),
        },
{
    match pirc_pfx {
        Some((nick, user, host)) => MsgPrefix { nick: Some(nick), user: user, host: host },
        None => MsgPrefix { nick: None, user: None, host: None },
    }
}

/// The number of bytes of a component, none where it is unknown.
pub open spec fn part_len(part: Option<Seq<char>>) -> nat {
    match part {
        Some(s) => utf8_len(s),
        None => 0,
    }
}

/// An upper bound on the number of bytes of a prefix in the protocol: its
/// known components and two separators.
pub open spec fn len_bound(p: PrefixParts) -> nat {
    part_len(p.nick) + part_len(p.user) + part_len(p.host) + 2
}

/// The number of bytes of a component, none where it is unknown.
fn component_len(component: Option<&str>) -> (n: usize)
    ensures
        n == part_len(opt_chars(component)),
{
    match component {
        Some(s) => byte_len(s),
        None => 0,
    }
}

/// The component's text, empty where it is unknown.
fn component_text<'a>(component: Option<&'a str>) -> (s: &'a str)
    ensures
        s@ == or_empty(opt_chars(component)),
{
    match component {
        Some(s) => s,
        None => {
            proof {
                reveal_strlit("");
            }
            ""
        },
    }
}

/// The text `nick!user@host`.
fn join(nick: &str, user: &str, host: &str) -> (s: String)
    ensures
        s@ == joined(nick@, user@, host@),
        is_canonical(s@),
{
    proof {
        reveal_strlit("!");
        reveal_strlit("@");
        lemma_joined_is_canonical(nick@, user@, host@);
    }
    assert("!"@ =~= seq!['!']);
    assert("@"@ =~= seq!['@']);
    let mut s = String::from_str(nick);
    s.append("!");
    s.append(user);
    s.append("@");
    s.append(host);
    s
}

/// The component to keep in an update: the new one where it is known, else
/// the old one, else the empty text.
fn updated<'a>(old_part: Option<&'a str>, new_part: Option<&'a str>) -> (s: &'a str)
    ensures
        s@ == updated_part(opt_chars(old_part), opt_chars(new_part)),
{
    match new_part {
        Some(s) => s,
        None => component_text(old_part),
    }
}

impl<'a> MsgPrefix<'a> {
    /// An upper bound on the length of the prefix in bytes, a few bytes
    /// above the exact length at most.
    pub fn len(&self) -> (n: usize)
        requires
            len_bound(self@) <= usize::MAX,
        ensures
            n == len_bound(self@),
    {
        component_len(self.nick) + component_len(self.user) + component_len(self.host) + 2
    }

    /// The prefix as text of its own, in canonical form.
    pub fn to_owning(&self) -> (owning: OwningMsgPrefix)
        ensures
            owning@ == rendered(self@),
            is_canonical(owning@),
    {
        OwningMsgPrefix::from_string(
            join(
                component_text(self.nick),
                component_text(self.user),
                component_text(self.host),
            ),
        )
    }
}

impl OwningMsgPrefix {
    /// Takes `prefix` as the text of a prefix, as it is.
    pub fn from_string(prefix: String) -> (owning: Self)
        ensures
            owning@ == prefix@,
    {
        OwningMsgPrefix { backing: prefix }
    }

    /// The components of the prefix.
    pub fn parse<'a>(&'a self) -> (p: MsgPrefix<'a>)
        ensures
            p@ == parsed_prefix(self@),
    {
        parse_prefix(self.backing.as_str())
    }

    /// The text of the prefix.
    pub fn as_str(&self) -> (s: &str)
        ensures
            s@ == self@,
    {
        self.backing.as_str()
    }

    /// The exact length of the prefix in bytes.
    pub fn len(&self) -> (n: usize)
        ensures
            n == utf8_len(self@),
    {
        byte_len(self.backing.as_str())
    }

    /// Writes each known component of `new` over the same component of the
    /// prefix, and brings the text into canonical form.
    pub fn update_from(&mut self, new: &MsgPrefix)
        ensures
            final(self)@ == updated_text(old(self)@, new@),
            is_canonical(final(self)@),
    {
        let old_parts = self.parse();
        let text = join(
            updated(old_parts.nick, new.nick),
            updated(old_parts.user, new.user),
            updated(old_parts.host, new.host),
        );
        self.backing = text;
    }
}

} // verus!
