//! Properties that hold of every input: how the pieces of the proposal
//! interpreter fit together.
use vstd::prelude::*;

use crate::interpreter::{
    command_outcome, direction_outcome, id_outcome, is_interesting, lowercased, next_proposal_id,
    parse_spec, token_of, tokens_of, wrong_direction_msg, wrong_id_msg, Mutability, ParsedCommand,
    Token,
};
use crate::slack::{
    great_vote_text, not_your_turn_text, proposal_reply, too_late_text, vote_reply_spec, ReplyView,
};
use crate::text::{
    all_digits, ascii_lower_char, ascii_lowercase, ascii_upper_char, ascii_uppercase, decimal_i64, decimal_of, digit_char, digits_of,
    digit_value, digits_value, is_digit, is_punctuation, is_white_space, signed_decimal, unsigned_part,
    without_punctuation, words, words_after,
};

verus! {

broadcast use vstd::string::group_string_axioms;

/// Turning a mutability round twice gives it back, and turning it once
/// always changes it.
pub proof fn law_not_involution(m: Mutability)
    ensures
        m.negated().negated() == m,
        m.negated() != m,
{
}

/// Reading back the display form of a mutability gives the same mutability.
pub proof fn law_mutability_name_round_trip(m: Mutability)
    ensures
        Mutability::parsed(m.name()) == Some(m),
{
    reveal_strlit("Mutable");
    reveal_strlit("mutable");
    reveal_strlit("Immutable");
    reveal_strlit("immutable");
    match m {
        Mutability::Mutable => {
            assert(vstd::utf8::is_ascii_chars("Mutable"@));
            assert(ascii_lowercase("Mutable"@) =~= "mutable"@);
        },
        Mutability::Immutable => {
            assert(vstd::utf8::is_ascii_chars("Immutable"@));
            assert(ascii_lowercase("Immutable"@) =~= "immutable"@);
        },
    }
}

proof fn lemma_ascii_lowercase_idempotent(s: Seq<char>)
    requires
        vstd::utf8::is_ascii_chars(s),
    ensures
        vstd::utf8::is_ascii_chars(ascii_lowercase(s)),
        ascii_lowercase(ascii_lowercase(s)) == ascii_lowercase(s),
        lowercased(ascii_lowercase(s)) == lowercased(s),
{
    let l = ascii_lowercase(s);
    assert forall|i: int| 0 <= i < l.len() implies '\0' <= #[trigger] l[i] <= '\u{7f}' by {
        assert(l[i] == ascii_lower_char(s[i]));
        assert('\0' <= s[i] <= '\u{7f}');
    }
    assert(ascii_lowercase(l) =~= l);
}

/// Words are read regardless of case: an ASCII word and its lower-case form
/// stand for the same token and name the same mutability.
pub proof fn law_case_insensitive(word: Seq<char>)
    requires
        vstd::utf8::is_ascii_chars(word),
    ensures
        token_of(ascii_lowercase(word)) == token_of(word),
        Mutability::parsed(ascii_lowercase(word)) == Mutability::parsed(word),
{
    lemma_ascii_lowercase_idempotent(word);
}

proof fn lemma_filter_idempotent(s: Seq<char>)
    ensures
        without_punctuation(without_punctuation(s)) == without_punctuation(s),
    decreases s.len(),
{
    reveal_with_fuel(Seq::filter, 1);
    if s.len() > 0 {
        lemma_filter_idempotent(s.drop_last());
        let f = without_punctuation(s.drop_last());
        if !is_punctuation(s.last()) {
            assert(f.push(s.last()).drop_last() =~= f);
        }
    }
}

/// Removing punctuation leaves none behind, and doing it twice is the same
/// as doing it once.
pub proof fn law_punctuation_removed(s: Seq<char>)
    ensures
        forall|i: int|
            0 <= i < without_punctuation(s).len() ==> !is_punctuation(
                #[trigger] without_punctuation(s)[i],
            ),
        without_punctuation(without_punctuation(s)) == without_punctuation(s),
{
    assert forall|i: int| 0 <= i < without_punctuation(s).len() implies !is_punctuation(
        #[trigger] without_punctuation(s)[i],
    ) by {
        s.lemma_filter_pred(|c: char| !is_punctuation(c), i);
    }
    lemma_filter_idempotent(s);
}

proof fn lemma_words_after_clean(s: Seq<char>, cur: Seq<char>)
    requires
        forall|j: int| 0 <= j < cur.len() ==> !is_white_space(#[trigger] cur[j]),
    ensures
        forall|i: int|
            0 <= i < words_after(s, cur).len() ==> (#[trigger] words_after(s, cur)[i]).len() > 0
                && forall|j: int|
                0 <= j < words_after(s, cur)[i].len() ==> !is_white_space(
                    #[trigger] words_after(s, cur)[i][j],
                ),
    decreases s.len(),
{
    if s.len() == 0 {
        assert(words_after(s, cur) == crate::text::flush(cur));
    } else if is_white_space(s[0]) {
        lemma_words_after_clean(s.drop_first(), Seq::empty());
        let a = if cur.len() == 0 {
            Seq::<Seq<char>>::empty()
        } else {
            seq![cur]
        };
        let b = words_after(s.drop_first(), Seq::empty());
        assert(words_after(s, cur) == a + b);
        assert forall|i: int| 0 <= i < (a + b).len() implies (#[trigger] (a + b)[i]).len() > 0
            && forall|j: int| 0 <= j < (a + b)[i].len() ==> !is_white_space(#[trigger] (a + b)[i][j]) by {
            if i < a.len() {
                assert((a + b)[i] == cur);
            } else {
                assert((a + b)[i] == b[i - a.len()]);
            }
        }
    } else {
        let c2 = cur.push(s[0]);
        assert forall|j: int| 0 <= j < c2.len() implies !is_white_space(#[trigger] c2[j]) by {
            if j < cur.len() {
                assert(c2[j] == cur[j]);
            }
        }
        lemma_words_after_clean(s.drop_first(), c2);
        assert(words_after(s, cur) == words_after(s.drop_first(), c2));
    }
}

/// Every word of a proposal is non-empty and holds no white space.
pub proof fn law_words_are_clean(s: Seq<char>)
    ensures
        forall|i: int|
            0 <= i < words(s).len() ==> (#[trigger] words(s)[i]).len() > 0 && forall|j: int|
                0 <= j < words(s)[i].len() ==> !is_white_space(#[trigger] words(s)[i][j]),
{
    lemma_words_after_clean(s, Seq::empty());
}

/// Only keywords reach the parser: no token of a proposal is plain text.
pub proof fn law_only_keywords(prop: Seq<char>)
    ensures
        forall|i: int| 0 <= i < tokens_of(prop).len() ==> #[trigger] tokens_of(prop)[i] != Token::Text,
{
    let m = words(prop).map_values(|w: Seq<char>| token_of(w));
    assert forall|i: int| 0 <= i < tokens_of(prop).len() implies #[trigger] tokens_of(prop)[i]
        != Token::Text by {
        m.lemma_filter_pred(|t: Token| is_interesting(t), i);
    }
}

/// An id followed by an enactment keyword is an enactment of that id by the
/// sender, whatever follows.
pub proof fn law_enactment_form(tokens: Seq<Token>, creator: Seq<char>, p: i32)
    requires
        tokens.len() >= 2,
        tokens[0] == Token::Id(p),
        tokens[1] == Token::Enact,
    ensures
        parse_spec(tokens, creator) == ParsedCommand::Enactment(p, creator),
{
}

/// An id, an amendment keyword and a target id form an amendment of that
/// target; a repeal keyword in the same place forms a repeal of it.
pub proof fn law_amendment_and_repeal_forms(
    tokens: Seq<Token>,
    creator: Seq<char>,
    p: i32,
    t: i32,
)
    requires
        tokens.len() >= 3,
        tokens[0] == Token::Id(p),
        tokens[1] == Token::Amend || tokens[1] == Token::Repeal,
        tokens[2] == Token::Id(t),
    ensures
        tokens[1] == Token::Amend ==> parse_spec(tokens, creator) == ParsedCommand::Amendment(
            p,
            creator,
            t,
        ),
        tokens[1] == Token::Repeal ==> parse_spec(tokens, creator) == ParsedCommand::Repealment(
            p,
            creator,
            t,
        ),
{
}

/// A transmutation carries the direction its fourth keyword names: an id, a
/// transmutation keyword, a target id and a mutability form the
/// transmutation of that target to that mutability.
pub proof fn law_transmutation_keeps_direction(
    tokens: Seq<Token>,
    creator: Seq<char>,
    p: i32,
    t: i32,
    m: Mutability,
)
    requires
        tokens.len() >= 4,
        tokens[0] == Token::Id(p),
        tokens[1] == Token::Transmute,
        tokens[2] == Token::Id(t),
        tokens[3] == Token::Muta(m),
    ensures
        parse_spec(tokens, creator) == ParsedCommand::Transmutation(p, creator, t, m),
{
}

/// Transmutations naming opposite directions are told apart: the parsed
/// command of one is never that of the other.
pub proof fn law_transmutation_directions_differ(
    tokens: Seq<Token>,
    creator: Seq<char>,
    p: i32,
    t: i32,
)
    requires
        tokens.len() >= 4,
        tokens[0] == Token::Id(p),
        tokens[1] == Token::Transmute,
        tokens[2] == Token::Id(t),
        tokens[3] is Muta,
    ensures
        parse_spec(tokens, creator) != parse_spec(
            tokens.update(3, Token::Muta(tokens[3]->Muta_0.negated())),
            creator,
        ),
{
    let u = tokens.update(3, Token::Muta(tokens[3]->Muta_0.negated()));
    assert(u[0] == tokens[0] && u[1] == tokens[1] && u[2] == tokens[2]);
    law_not_involution(tokens[3]->Muta_0);
}

/// Whether a command is one of the four well-formed kinds of proposal.
pub open spec fn is_complete(cmd: ParsedCommand<Seq<char>>) -> bool {
    cmd is Enactment || cmd is Amendment || cmd is Repealment || cmd is Transmutation
}

/// Keywords after a complete proposal are ignored.
pub proof fn law_trailing_keywords_ignored(
    tokens: Seq<Token>,
    extra: Seq<Token>,
    creator: Seq<char>,
)
    requires
        is_complete(parse_spec(tokens, creator)),
    ensures
        parse_spec(tokens + extra, creator) == parse_spec(tokens, creator),
{
    let t = tokens + extra;
    assert(tokens.len() >= 2);
    assert(t[0] == tokens[0]);
    assert(t[1] == tokens[1]);
    if tokens.len() >= 3 {
        assert(t[2] == tokens[2]);
    }
    if tokens.len() >= 4 {
        assert(t[3] == tokens[3]);
    }
}

/// The only proposal that is ever accepted is an enactment carrying the next
/// proposal number; amendments, repeals and transmutations are never
/// accepted.
pub proof fn law_only_next_enactment_accepted(
    cmd: ParsedCommand<Seq<char>>,
    last: Option<i32>,
    target_is_rule: bool,
    target_mutability: Result<Mutability, Seq<char>>,
)
    ensures
        command_outcome(cmd, last, target_is_rule, target_mutability) is Ok ==> (cmd is Enactment
            && cmd->Enactment_0 == next_proposal_id(last)),
{
}

/// A malformed proposal gets the same answer whatever the database holds.
pub proof fn law_malformed_independent_of_db(
    cmd: ParsedCommand<Seq<char>>,
    last1: Option<i32>,
    rule1: bool,
    mutability1: Result<Mutability, Seq<char>>,
    last2: Option<i32>,
    rule2: bool,
    mutability2: Result<Mutability, Seq<char>>,
)
    requires
        !is_complete(cmd),
    ensures
        command_outcome(cmd, last1, rule1, mutability1) == command_outcome(
            cmd,
            last2,
            rule2,
            mutability2,
        ),
        command_outcome(cmd, last1, rule1, mutability1) is Err,
{
}

/// Proposal numbers run on from the last one: after proposal `last`, exactly
/// `last + 1` passes the id check, and every number up to `last` is refused
/// with an error naming `last + 1`; with no proposal yet, only 300 passes.
pub proof fn law_id_check_follows_last(prop_id: i32, last: Option<i32>)
    ensures
        last matches Some(n) ==> (id_outcome(prop_id, last) is Ok <==> prop_id == n + 1),
        last matches Some(n) ==> (prop_id <= n ==> id_outcome(prop_id, last) == Err::<
            (),
            Seq<char>,
        >(wrong_id_msg(n + 1))),
        last is None ==> (id_outcome(prop_id, last) is Ok <==> prop_id == 300),
{
}

/// A rule whose stored mutability is `current` can be transmuted to the
/// other one only: asking for the direction it already has is refused with
/// the wrong-direction error.
pub proof fn law_transmutation_to_same_refused(target_id: i32, current: Mutability)
    ensures
        direction_outcome(target_id, current, Ok(current)) == Err::<(), Seq<char>>(
            wrong_direction_msg(target_id, current),
        ),
        direction_outcome(target_id, current.negated(), Ok(current)) is Ok,
{
    law_not_involution(current);
}

/// A vote pressed when its message is sent is in time; once a vote is too
/// late, every later press is too late as well; a press ten seconds or more
/// after the message is too late.
pub proof fn law_vote_deadline(sent: i64, now: i64, later: i64)
    ensures
        vote_reply_spec(sent, sent) == great_vote_text(),
        vote_reply_spec(sent, now) == too_late_text() && now <= later ==> vote_reply_spec(
            sent,
            later,
        ) == too_late_text(),
        now - sent >= 10 ==> vote_reply_spec(sent, now) == too_late_text(),
        great_vote_text() != too_late_text(),
{
    reveal_strlit("Great vote!");
    reveal_strlit("Oh no, to late!");
    assert(great_vote_text().len() != too_late_text().len());
}

/// A rule can only be transmuted to the opposite of its mutability.
pub proof fn law_transmute_only_to_opposite(target_id: i32, dir: Mutability, current: Mutability)
    ensures
        direction_outcome(target_id, dir, Ok(current)) is Ok <==> dir == current.negated(),
{
}

proof fn lemma_digits_of(n: nat)
    ensures
        digits_of(n).len() > 0,
        all_digits(digits_of(n)),
        digits_value(digits_of(n)) == n,
    decreases n,
{
    let c = digit_char((n % 10) as int);
    assert(digit_value(c) == n % 10);
    if n < 10 {
        let e = digits_of(n);
        assert(e.drop_last() =~= Seq::<char>::empty());
        assert(digits_value(Seq::<char>::empty()) == 0);
        assert(digits_value(e) == digits_value(e.drop_last()) * 10 + digit_value(e.last()));
    } else {
        lemma_digits_of(n / 10);
        let d = digits_of(n / 10);
        let e = d.push(digit_char((n % 10) as int));
        assert(e.drop_last() =~= d);
        assert(digits_of(n) == e);
        assert(digits_value(e) == digits_value(d) * 10 + digit_value(c));
        assert forall|i: int| 0 <= i < e.len() implies is_digit(#[trigger] e[i]) by {
            if i < d.len() {
                assert(e[i] == d[i]);
            }
        }
    }
}

/// A number that the bot writes out reads back as the same number.
pub proof fn law_decimal_round_trip(n: i64)
    ensures
        decimal_i64(decimal_of(n as int)) == Some(n),
{
    let s = decimal_of(n as int);
    if n < 0 {
        let m = (-(n as int)) as nat;
        lemma_digits_of(m);
        assert(s == seq!['-'] + digits_of(m));
        assert(s[0] == '-');
        assert(unsigned_part(s) =~= digits_of(m));
    } else {
        lemma_digits_of(n as nat);
        let d = digits_of(n as nat);
        assert(is_digit(d[0]));
        assert(unsigned_part(s) == d);
    }
}

/// The player whom the database names as the current rule maker is refused
/// with the not-your-turn error, whatever the proposal says; any other
/// sender gets the interpreter's verdict as a message.
pub proof fn law_rulemaker_refused(
    rulemaker: Seq<char>,
    sender: Seq<char>,
    text: Seq<char>,
    answer: Result<Seq<char>, Seq<char>>,
)
    ensures
        sender == rulemaker ==> proposal_reply(Some(rulemaker), sender, text, answer)
            == ReplyView::Text(not_your_turn_text()),
        sender != rulemaker ==> proposal_reply(Some(rulemaker), sender, text, answer) is Message,
{
}

proof fn lemma_filter_keeps_ascii(s: Seq<char>)
    requires
        vstd::utf8::is_ascii_chars(s),
    ensures
        vstd::utf8::is_ascii_chars(without_punctuation(s)),
    decreases s.len(),
{
    reveal_with_fuel(Seq::filter, 1);
    if s.len() > 0 {
        let d = s.drop_last();
        assert(forall|i: int| 0 <= i < d.len() ==> d[i] == s[i]);
        lemma_filter_keeps_ascii(d);
        assert('\0' <= s[s.len() - 1] <= '\u{7f}');
    }
}

proof fn lemma_lowercase_commutes_with_filter(s: Seq<char>)
    ensures
        ascii_lowercase(without_punctuation(s)) == without_punctuation(ascii_lowercase(s)),
    decreases s.len(),
{
    reveal_with_fuel(Seq::filter, 1);
    if s.len() > 0 {
        let d = s.drop_last();
        let c = s.last();
        lemma_lowercase_commutes_with_filter(d);
        let l = ascii_lowercase(s);
        assert(l.drop_last() =~= ascii_lowercase(d));
        assert(l.last() == ascii_lower_char(c));
        assert(is_punctuation(ascii_lower_char(c)) == is_punctuation(c));
        let fd = without_punctuation(d);
        if !is_punctuation(c) {
            assert(ascii_lowercase(fd.push(c)) =~= ascii_lowercase(fd).push(ascii_lower_char(c)));
        }
    }
}

/// Tokens ignore case and punctuation: an ASCII word stands for the same
/// token as the word without its punctuation, and as the word in capitals.
pub proof fn law_tokens_ignore_case_and_punctuation(word: Seq<char>)
    requires
        vstd::utf8::is_ascii_chars(word),
    ensures
        token_of(without_punctuation(word)) == token_of(word),
        token_of(ascii_uppercase(word)) == token_of(word),
{
    let wp = without_punctuation(word);
    lemma_filter_keeps_ascii(word);
    lemma_lowercase_commutes_with_filter(word);
    lemma_filter_idempotent(ascii_lowercase(word));
    assert(lowercased(wp) == ascii_lowercase(wp));
    assert(without_punctuation(lowercased(wp)) == without_punctuation(lowercased(word)));

    let up = ascii_uppercase(word);
    assert forall|i: int| 0 <= i < up.len() implies '\0' <= #[trigger] up[i] <= '\u{7f}' by {
        assert(up[i] == ascii_upper_char(word[i]));
        assert('\0' <= word[i] <= '\u{7f}');
    }
    assert forall|i: int| 0 <= i < word.len() implies #[trigger] ascii_lowercase(up)[i]
        == ascii_lowercase(word)[i] by {
        let c = word[i];
        assert(up[i] == ascii_upper_char(c));
        if 'a' <= c && c <= 'z' {
            assert(ascii_upper_char(c) as int == c as int - 32);
        }
    }
    assert(ascii_lowercase(up) =~= ascii_lowercase(word));
}

} // verus!
