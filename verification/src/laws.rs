//! What holds of prefixes, of addressing and of authorization levels, for
//! all inputs.

use crate::bot_cmd::BotCmdAuthLvl;
use crate::irc_msgs::{
    is_canonical, joined, len_bound, msg_is_to_nick, msg_to_nick, no_parts, opens_with_mention,
    or_empty, parsed_prefix, rendered, updated_part, updated_text, without_mention, PrefixParts,
};
use crate::text::{
    is_mention_sep, is_whitespace, lemma_absent, lemma_first_at, lemma_last_at, skip_mention_seps,
    strip_prefix_run, trim, trim_end, trim_start, utf8_len,
};
use vstd::prelude::*;
use vstd::utf8::encode_utf8;

verus! {

/// Whether `s` holds neither `!` nor `@`.
pub open spec fn has_no_separator(s: Seq<char>) -> bool {
    !s.contains('!') && !s.contains('@')
}

/// A text with neither `!` nor `@` is a nick and nothing else.
pub proof fn lemma_parse_bare_nick(t: Seq<char>)
    requires
        has_no_separator(t),
    ensures
        parsed_prefix(t) == (PrefixParts { nick: Some(t), user: None, host: None }),
{
    lemma_absent(t, '@');
    lemma_absent(t, '!');
}

/// The text `nick!user@host` is taken apart into the three components it
/// was joined from, where the nick holds no `!` and the host no `@`.
pub proof fn lemma_parse_joined(nick: Seq<char>, user: Seq<char>, host: Seq<char>)
    requires
        !nick.contains('!'),
        !host.contains('@'),
    ensures
        parsed_prefix(joined(nick, user, host)) == (PrefixParts {
            nick: Some(nick),
            user: Some(user),
            host: Some(host),
        }),
{
    let t = joined(nick, user, host);
    let j = nick.len() as int;
    let i = j + 1 + user.len();
    lemma_last_at(t, '@', i);
    let rest = t.take(i);
    lemma_first_at(rest, '!', j);
    assert(rest.take(j) =~= nick);
    assert(rest.skip(j + 1) =~= user);
    assert(t.skip(i + 1) =~= host);
}

/// Parsing the canonical text of a prefix gives the prefix back, where all
/// three components are known and none of them holds `!` or `@`.
pub proof fn lemma_parse_rendered(p: PrefixParts)
    requires
        p.nick is Some && has_no_separator(p.nick->0),
        p.user is Some && has_no_separator(p.user->0),
        p.host is Some && has_no_separator(p.host->0),
    ensures
        parsed_prefix(rendered(p)) == p,
{
    lemma_parse_joined(p.nick->0, p.user->0, p.host->0);
}

/// Parsing the canonical text of a prefix gives each known component back,
/// and an empty one in the place of each unknown one, where no component
/// holds `!` or `@`.
pub proof fn lemma_parse_rendered_partial(p: PrefixParts)
    requires
        has_no_separator(or_empty(p.nick)),
        has_no_separator(or_empty(p.user)),
        has_no_separator(or_empty(p.host)),
    ensures
        parsed_prefix(rendered(p)) == (PrefixParts {
            nick: Some(or_empty(p.nick)),
            user: Some(or_empty(p.user)),
            host: Some(or_empty(p.host)),
        }),
{
    lemma_parse_joined(or_empty(p.nick), or_empty(p.user), or_empty(p.host));
}

/// Whatever the three components hold, `nick!user@host` has canonical form.
pub proof fn lemma_joined_is_canonical(nick: Seq<char>, user: Seq<char>, host: Seq<char>)
    ensures
        is_canonical(joined(nick, user, host)),
{
    let t = joined(nick, user, host);
    let j = nick.len() as int;
    let i = j + 1 + user.len();
    assert(0 <= j < i < t.len() && t[j] == '!' && t[i] == '@');
}

/// A text has canonical form exactly if taking it apart and joining the
/// components gives the same text.
pub proof fn lemma_canonical_text(t: Seq<char>)
    ensures
        is_canonical(t) <==> rendered(parsed_prefix(t)) == t,
{
    let p = parsed_prefix(t);
    lemma_joined_is_canonical(or_empty(p.nick), or_empty(p.user), or_empty(p.host));
    if is_canonical(t) {
        let (j0, i0) = choose|j: int, i: int| 0 <= j < i < t.len() && t[j] == '!' && t[i] == '@';
        t.index_of_last_ensures('@');
        let rest = t.take(t.index_of_last('@')->0);
        assert(rest[j0] == '!');
        rest.index_of_first_ensures('!');
        assert(rendered(p) =~= t);
    }
}

/// An update with no component known brings the text into canonical form
/// and changes nothing else: the outcome is the canonical text of the old
/// prefix, and a text that has canonical form already stays as it is.
pub proof fn lemma_update_from_nothing(t: Seq<char>)
    ensures
        updated_text(t, no_parts()) == rendered(parsed_prefix(t)),
        rendered(parsed_prefix(updated_text(t, no_parts()))) == rendered(parsed_prefix(t)),
        is_canonical(t) ==> updated_text(t, no_parts()) == t,
{
    let p = parsed_prefix(t);
    lemma_canonical_text(t);
    lemma_joined_is_canonical(or_empty(p.nick), or_empty(p.user), or_empty(p.host));
    lemma_canonical_text(rendered(p));
}

/// An update of `nick!user@host` replaces each component for which the new
/// prefix knows one and keeps the others, where the old nick holds no `!`
/// and the old host no `@`.
pub proof fn lemma_update_joined(
    nick: Seq<char>,
    user: Seq<char>,
    host: Seq<char>,
    new_parts: PrefixParts,
)
    requires
        !nick.contains('!'),
        !host.contains('@'),
    ensures
        updated_text(joined(nick, user, host), new_parts) == joined(
            updated_part(Some(nick), new_parts.nick),
            updated_part(Some(user), new_parts.user),
            updated_part(Some(host), new_parts.host),
        ),
{
    lemma_parse_joined(nick, user, host);
}

/// Every updated text has canonical form.
pub proof fn lemma_updated_is_canonical(t: Seq<char>, new_parts: PrefixParts)
    ensures
        is_canonical(updated_text(t, new_parts)),
{
    let p = parsed_prefix(t);
    lemma_joined_is_canonical(
        updated_part(p.nick, new_parts.nick),
        updated_part(p.user, new_parts.user),
        updated_part(p.host, new_parts.host),
    );
}

/// The bytes of a text are the bytes of its parts.
pub proof fn lemma_utf8_len_concat(a: Seq<char>, b: Seq<char>)
    ensures
        utf8_len(a + b) == utf8_len(a) + utf8_len(b),
    decreases a.len(),
{
    if a.len() > 0 {
        assert((a + b).drop_first() =~= a.drop_first() + b);
        lemma_utf8_len_concat(a.drop_first(), b);
    }
}

/// A character below U+0080 takes one byte.
pub proof fn lemma_utf8_len_ascii(c: char)
    requires
        (c as u32) < 0x80,
    ensures
        utf8_len(seq![c]) == 1,
{
    reveal_with_fuel(encode_utf8, 2);
}

/// The length bound of a prefix is the exact length of its canonical text.
pub proof fn lemma_len_bound_of_rendered(p: PrefixParts)
    ensures
        utf8_len(rendered(p)) == len_bound(p),
{
    let nick = or_empty(p.nick);
    let user = or_empty(p.user);
    let host = or_empty(p.host);
    lemma_utf8_len_concat(nick, seq!['!']);
    lemma_utf8_len_concat(nick + seq!['!'], user);
    lemma_utf8_len_concat(nick + seq!['!'] + user, seq!['@']);
    lemma_utf8_len_concat(nick + seq!['!'] + user + seq!['@'], host);
    lemma_utf8_len_ascii('!');
    lemma_utf8_len_ascii('@');
}

/// A message sent to the nick itself is directed at it, whatever it says.
pub proof fn lemma_sent_to_nick(msg: Seq<char>, nick: Seq<char>)
    ensures
        msg_is_to_nick(nick, msg, nick),
        msg_to_nick(msg, nick, nick) == Some(without_mention(msg, nick)),
{
}

/// A message that says the nick and no more is directed at it, wherever it
/// was sent.
pub proof fn lemma_nick_alone(target: Seq<char>, nick: Seq<char>)
    ensures
        msg_is_to_nick(target, nick, nick),
{
}

/// A message opens with a mention of a nick exactly if it is the nick, a
/// mention separator and any text, and the nick holds no mention separator.
pub proof fn lemma_mention(msg: Seq<char>, nick: Seq<char>)
    ensures
        opens_with_mention(msg, nick) <==> (exists|sep: char, rest: Seq<char>|
            is_mention_sep(sep) && #[trigger] (nick.push(sep) + rest) == msg) && (forall|i: int|
            0 <= i < nick.len() ==> !is_mention_sep(#[trigger] nick[i])),
{
    if opens_with_mention(msg, nick) {
        let n = nick.len() as int;
        let sep = msg[n];
        let rest = msg.skip(n + 1);
        assert(nick.push(sep) + rest =~= msg);
    }
}

/// A message that opens with a mention of a nick says to it what follows
/// the mention: the text behind the first separator, without the mention
/// separators and the whitespace it begins with and without the whitespace
/// it ends with.
pub proof fn lemma_mention_taken_off(
    target: Seq<char>,
    nick: Seq<char>,
    sep: char,
    rest: Seq<char>,
)
    requires
        is_mention_sep(sep),
        forall|i: int| 0 <= i < nick.len() ==> !is_mention_sep(#[trigger] nick[i]),
    ensures
        msg_to_nick(nick.push(sep) + rest, target, nick) == Some(trim(skip_mention_seps(rest))),
{
    let msg = nick.push(sep) + rest;
    let n = nick.len() as int;
    let tail = seq![sep] + rest;
    assert(msg.skip(n) =~= tail);
    if n > 0 {
        assert(!nick.is_prefix_of(tail)) by {
            if nick.is_prefix_of(tail) {
                assert(tail.subrange(0, n)[0] == nick[0]);
            }
        }
        assert(strip_prefix_run(tail, nick) == tail);
    } else {
        assert(msg =~= tail);
    }
    assert(tail.skip(1) =~= rest);
}

/// A message that does not begin with a nick, and was not sent to it, is
/// not directed at it.
pub proof fn lemma_unrelated(target: Seq<char>, msg: Seq<char>, nick: Seq<char>)
    requires
        target != nick,
        !nick.is_prefix_of(msg),
    ensures
        !msg_is_to_nick(target, msg, nick),
        msg_to_nick(msg, target, nick) is None,
{
}

/// `count` copies of `pat`, one behind the other.
pub open spec fn repeated(pat: Seq<char>, count: nat) -> Seq<char>
    decreases count,
{
    if count == 0 {
        Seq::empty()
    } else {
        pat + repeated(pat, (count - 1) as nat)
    }
}

/// Stripping the leading copies of a pattern takes some number of copies
/// off, which is returned, and leaves a text that does not begin with
/// another.
pub proof fn lemma_strip_prefix_run(s: Seq<char>, pat: Seq<char>) -> (count: nat)
    requires
        pat.len() > 0,
    ensures
        s == repeated(pat, count) + strip_prefix_run(s, pat),
        !pat.is_prefix_of(strip_prefix_run(s, pat)),
    decreases s.len(),
{
    if pat.is_prefix_of(s) {
        let tail = s.skip(pat.len() as int);
        let below = lemma_strip_prefix_run(tail, pat);
        assert(pat + (repeated(pat, below) + strip_prefix_run(tail, pat)) =~= (pat + repeated(
            pat,
            below,
        )) + strip_prefix_run(tail, pat));
        below + 1
    } else {
        0
    }
}

/// Stripping the leading copies of the empty pattern changes nothing.
pub proof fn lemma_strip_empty_prefix(s: Seq<char>)
    ensures
        strip_prefix_run(s, Seq::empty()) == s,
{
}

/// `skip_mention_seps` cuts mention separators off the front, and stops at
/// the first character that is none.
pub proof fn lemma_skip_mention_seps(s: Seq<char>)
    ensures
        ({
            let r = skip_mention_seps(s);
            let cut = s.len() - r.len();
            &&& 0 <= cut <= s.len()
            &&& r == s.skip(cut)
            &&& forall|i: int| 0 <= i < cut ==> is_mention_sep(s[i])
            &&& r.len() > 0 ==> !is_mention_sep(r[0])
        }),
    decreases s.len(),
{
    if s.len() > 0 && is_mention_sep(s[0]) {
        let tail = s.skip(1);
        lemma_skip_mention_seps(tail);
        let r = skip_mention_seps(s);
        let cut = s.len() - r.len();
        assert forall|i: int| 0 <= i < cut implies is_mention_sep(s[i]) by {
            if i > 0 {
                assert(s[i] == tail[i - 1]);
            }
        }
    }
}

/// `trim_start` cuts whitespace off the front, and stops at the first
/// character that is none.
pub proof fn lemma_trim_start(s: Seq<char>)
    ensures
        ({
            let r = trim_start(s);
            let cut = s.len() - r.len();
            &&& 0 <= cut <= s.len()
            &&& r == s.skip(cut)
            &&& forall|i: int| 0 <= i < cut ==> is_whitespace(s[i])
            &&& r.len() > 0 ==> !is_whitespace(r[0])
        }),
    decreases s.len(),
{
    if s.len() > 0 && is_whitespace(s[0]) {
        let tail = s.skip(1);
        lemma_trim_start(tail);
        let r = trim_start(s);
        let cut = s.len() - r.len();
        assert(tail.skip(cut - 1) =~= s.skip(cut));
        assert forall|i: int| 0 <= i < cut implies is_whitespace(s[i]) by {
            if i > 0 {
                assert(s[i] == tail[i - 1]);
            }
        }
    } else {
        assert(s.skip(0) =~= s);
    }
}

/// `trim_end` cuts whitespace off the back, and stops at the last character
/// that is none.
pub proof fn lemma_trim_end(s: Seq<char>)
    ensures
        ({
            let r = trim_end(s);
            &&& r.len() <= s.len()
            &&& r == s.take(r.len() as int)
            &&& forall|i: int| r.len() <= i < s.len() ==> is_whitespace(s[i])
            &&& r.len() > 0 ==> !is_whitespace(r.last())
        }),
    decreases s.len(),
{
    if s.len() > 0 && is_whitespace(s.last()) {
        let front = s.drop_last();
        lemma_trim_end(front);
        let r = trim_end(s);
        assert forall|i: int| r.len() <= i < s.len() implies is_whitespace(s[i]) by {
            if i < s.len() - 1 {
                assert(s[i] == front[i]);
            }
        }
    }
}

/// `trim` gives the part of a text between the whitespace it begins with
/// and the whitespace it ends with: a text that neither begins nor ends
/// with whitespace, and the empty text where there is nothing else.
pub proof fn lemma_trim(s: Seq<char>)
    ensures
        ({
            let r = trim(s);
            let cut = s.len() - trim_start(s).len();
            &&& 0 <= cut <= cut + r.len() <= s.len()
            &&& r == s.subrange(cut, cut + r.len())
            &&& forall|i: int| 0 <= i < cut ==> is_whitespace(s[i])
            &&& forall|i: int| cut + r.len() <= i < s.len() ==> is_whitespace(s[i])
            &&& r.len() > 0 ==> !is_whitespace(r[0]) && !is_whitespace(r.last())
        }),
{
    let front = trim_start(s);
    let r = trim(s);
    let cut = s.len() - front.len();
    lemma_trim_start(s);
    lemma_trim_end(front);
    assert forall|i: int| cut + r.len() <= i < s.len() implies is_whitespace(s[i]) by {
        assert(s[i] == front[i - cut]);
    }
}

/// A text that is trimmed stays as it is when trimmed again.
pub proof fn lemma_trim_twice(s: Seq<char>)
    ensures
        trim(trim(s)) == trim(s),
{
    lemma_trim(s);
}

/// The authorization levels are totally ordered by rank, with the admin at
/// the top and the public at the bottom, and levels of one rank are one
/// level.
pub proof fn lemma_auth_lvl_order(a: BotCmdAuthLvl, b: BotCmdAuthLvl, c: BotCmdAuthLvl)
    ensures
        a.rank() >= b.rank() || b.rank() >= a.rank(),
        a.rank() == b.rank() ==> a == b,
        a.rank() >= b.rank() && b.rank() >= c.rank() ==> a.rank() >= c.rank(),
        BotCmdAuthLvl::Admin.rank() >= a.rank(),
        a.rank() >= BotCmdAuthLvl::Public.rank(),
{
}

} // verus!
