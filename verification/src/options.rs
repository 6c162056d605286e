//! The agent's option string: comma-separated `key=value` or bare `key`
//! tokens, read into a map from keys to values.

use crate::decimal::{decimal_digits, parse_u16, parsed_u16, written_u16_reads_back};
use crate::json::joined;
use vstd::hash_map::StringHashMap;
use vstd::prelude::*;

verus! {

/// The options of the agent: a map from keys to values.
pub type Options = StringHashMap<String>;

/// Whether `at` is the place of the first `wanted` in `text`.
pub open spec fn is_first(text: Seq<char>, wanted: char, at: int) -> bool {
    &&& 0 <= at < text.len()
    &&& text[at] == wanted
    &&& forall|j: int| 0 <= j < at ==> text[j] != wanted
}

/// The place of the first `wanted` in `text`, if it occurs at all.
pub open spec fn first_position(text: Seq<char>, wanted: char) -> Option<int> {
    if exists|at: int| is_first(text, wanted, at) {
        Some(choose|at: int| is_first(text, wanted, at))
    } else {
        None
    }
}

/// The pieces into which the occurrences of `separator` cut `text`, in order.
/// A text without the separator is one piece, the empty text too.
pub open spec fn segments(text: Seq<char>, separator: char) -> Seq<Seq<char>>
    decreases text.len(),
{
    match first_position(text, separator) {
        Some(at) if 0 <= at < text.len() => seq![text.take(at)] + segments(
            text.skip(at + 1),
            separator,
        ),
        _ => seq![text],
    }
}

/// Where `wanted` occurs at all, it occurs somewhere first.
proof fn lemma_occurrence_has_first(text: Seq<char>, wanted: char, at: int)
    requires
        0 <= at < text.len(),
        text[at] == wanted,
    ensures
        exists|first: int| is_first(text, wanted, first),
    decreases at,
{
    if forall|j: int| 0 <= j < at ==> text[j] != wanted {
        assert(is_first(text, wanted, at));
    } else {
        let earlier = choose|j: int| 0 <= j < at && text[j] == wanted;
        lemma_occurrence_has_first(text, wanted, earlier);
    }
}

/// Joining from the front: the first piece, the separator, then the rest
/// joined.
proof fn lemma_joined_front(first: Seq<char>, rest: Seq<Seq<char>>, separator: Seq<char>)
    requires
        rest.len() > 0,
    ensures
        joined(seq![first] + rest, separator) == first + separator + joined(rest, separator),
    decreases rest.len(),
{
    let all = seq![first] + rest;
    if rest.len() == 1 {
        assert(all.drop_last() =~= seq![first]);
        assert(all.last() == rest[0]);
        assert(joined(seq![first], separator) == first);
        assert(joined(rest, separator) == rest[0]);
        assert(joined(all, separator) == joined(all.drop_last(), separator) + separator
            + all.last());
    } else {
        assert(all.drop_last() =~= seq![first] + rest.drop_last());
        assert(all.last() == rest.last());
        lemma_joined_front(first, rest.drop_last(), separator);
        assert(joined(all, separator) =~= first + separator + joined(rest, separator));
    }
}

/// Cutting loses nothing and leaves no separator behind: there is at least
/// one piece, no piece holds the separator, and the pieces joined with the
/// separator are the text again.
pub proof fn pieces_rejoin(text: Seq<char>, separator: char)
    ensures
        segments(text, separator).len() > 0,
        forall|i: int|
            0 <= i < segments(text, separator).len() ==> !(#[trigger] segments(
                text,
                separator,
            )[i]).contains(separator),
        joined(segments(text, separator), seq![separator]) == text,
    decreases text.len(),
{
    let pieces = segments(text, separator);
    match first_position(text, separator) {
        Some(at) => {
            assert(is_first(text, separator, at));
            let head = text.take(at);
            let tail = text.skip(at + 1);
            pieces_rejoin(tail, separator);
            let rest = segments(tail, separator);
            assert(pieces == seq![head] + rest);
            lemma_joined_front(head, rest, seq![separator]);
            assert(head + seq![separator] + tail =~= text);
            assert forall|i: int| 0 <= i < pieces.len() implies !(#[trigger] pieces[i]).contains(
                separator,
            ) by {
                if i == 0 {
                    assert forall|j: int| 0 <= j < head.len() implies head[j] != separator by {
                        assert(head[j] == text[j]);
                    }
                } else {
                    assert(pieces[i] == rest[i - 1]);
                }
            }
        },
        None => {
            assert(pieces == seq![text]);
            if text.contains(separator) {
                let at = choose|at: int| 0 <= at < text.len() && text[at] == separator;
                lemma_occurrence_has_first(text, separator, at);
            }
        },
    }
}

/// Key and value of one token: what stands before and after its first `=`,
/// or the whole token and the empty text where it has none.
pub open spec fn key_value(token: Seq<char>) -> (Seq<char>, Seq<char>) {
    match first_position(token, '=') {
        Some(at) => (token.take(at), token.skip(at + 1)),
        None => (token, Seq::empty()),
    }
}

/// The key and value of every token of an option string, in order. The empty
/// string holds no token.
pub open spec fn option_pairs(text: Seq<char>) -> Seq<(Seq<char>, Seq<char>)> {
    if text.len() == 0 {
        Seq::empty()
    } else {
        segments(text, ',').map_values(|token: Seq<char>| key_value(token))
    }
}

/// The map that results from entering `pairs` in order: of two pairs with one
/// key the later one stays.
pub open spec fn entered(pairs: Seq<(Seq<char>, Seq<char>)>) -> Map<Seq<char>, Seq<char>>
    decreases pairs.len(),
{
    if pairs.len() == 0 {
        Map::empty()
    } else {
        entered(pairs.drop_last()).insert(pairs.last().0, pairs.last().1)
    }
}

/// A key is entered exactly where some pair holds it, and its value is that
/// of the last such pair.
pub proof fn last_pair_wins(pairs: Seq<(Seq<char>, Seq<char>)>, key: Seq<char>)
    ensures
        entered(pairs).contains_key(key) <==> exists|i: int|
            0 <= i < pairs.len() && (#[trigger] pairs[i]).0 == key,
        forall|i: int|
            0 <= i < pairs.len() && (#[trigger] pairs[i]).0 == key && (forall|j: int|
                i < j < pairs.len() ==> (#[trigger] pairs[j]).0 != key) ==> entered(pairs)[key]
                == pairs[i].1,
    decreases pairs.len(),
{
    if pairs.len() > 0 {
        let before = pairs.drop_last();
        last_pair_wins(before, key);
        if pairs.last().0 == key {
            assert(pairs[pairs.len() - 1].0 == key);
        } else {
            if entered(before).contains_key(key) {
                let i = choose|i: int| 0 <= i < before.len() && (#[trigger] before[i]).0 == key;
                assert(pairs[i].0 == key);
            }
            if exists|i: int| 0 <= i < pairs.len() && (#[trigger] pairs[i]).0 == key {
                let i = choose|i: int| 0 <= i < pairs.len() && (#[trigger] pairs[i]).0 == key;
                assert(before[i].0 == key);
            }
        }
        assert forall|i: int|
            0 <= i < pairs.len() && (#[trigger] pairs[i]).0 == key && (forall|j: int|
                i < j < pairs.len() ==> (#[trigger] pairs[j]).0 != key) implies entered(pairs)[key]
            == pairs[i].1 by {
            if i < pairs.len() - 1 {
                assert(pairs[pairs.len() - 1].0 != key);
                assert(before[i].0 == key);
                assert forall|j: int| i < j < before.len() implies (#[trigger] before[j]).0
                    != key by {
                    assert(pairs[j].0 != key);
                }
            }
        }
    }
}

/// The options that an option string holds; an absent string holds none.
pub open spec fn parsed_options(text: Option<Seq<char>>) -> Map<Seq<char>, Seq<char>> {
    match text {
        Some(text) => entered(option_pairs(text)),
        None => Map::empty(),
    }
}

/// The options held by a map, values as text.
pub open spec fn as_text(options: Map<Seq<char>, String>) -> Map<Seq<char>, Seq<char>> {
    options.map_values(|value: String| value@)
}

/// The views of `pairs`, in order.
pub open spec fn pair_texts(pairs: Seq<(String, String)>) -> Seq<(Seq<char>, Seq<char>)> {
    Seq::new(pairs.len(), |i: int| (pairs[i].0@, pairs[i].1@))
}

/// Key of the option that names the port to listen on.
pub const PORT_OPTION: &'static str = "port";

/// Port on which the agent listens where the options name none.
pub const DEFAULT_PORT: u16 = 8001;

/// The port that `options` ask for: the number that the value of `port`
/// denotes, the default where the key is absent, and none where the value
/// denotes no 16-bit unsigned number.
pub open spec fn listen_port(options: Map<Seq<char>, Seq<char>>) -> Option<u16> {
    if options.contains_key(PORT_OPTION@) {
        parsed_u16(options[PORT_OPTION@])
    } else {
        Some(DEFAULT_PORT)
    }
}

/// Finds the port that the options ask for.
pub fn resolve_port(options: &Options) -> (port: Option<u16>)
    ensures
        port == listen_port(as_text(options@)),
{
    match options.get(PORT_OPTION) {
        Some(value) => parse_u16(value.as_str()),
        None => Some(DEFAULT_PORT),
    }
}

/// Options that hold `port=N` for a 16-bit unsigned number N ask for port N,
/// and options without the key ask for the default port.
pub proof fn port_option_names_the_port(options: Map<Seq<char>, Seq<char>>, number: u16)
    ensures
        options.contains_key(PORT_OPTION@) && options[PORT_OPTION@] == decimal_digits(
            number as nat,
        ) ==> listen_port(options) == Some(number),
        !options.contains_key(PORT_OPTION@) ==> listen_port(options) == Some(DEFAULT_PORT),
{
    written_u16_reads_back(number);
}

/// The first place at or after `from` where `wanted` stands.
fn find_from(text: &str, len: usize, from: usize, wanted: char) -> (found: Option<usize>)
    requires
        len == text@.len(),
        from <= len,
    ensures
        match found {
            Some(at) => from <= at < len && is_first(text@.skip(from as int), wanted, at - from),
            None => first_position(text@.skip(from as int), wanted) is None,
        },
{
    let mut at: usize = from;
    while at < len
        invariant
            from <= at <= len,
            len == text@.len(),
            forall|j: int| from <= j < at ==> text@[j] != wanted,
        decreases len - at,
    {
        if text.get_char(at) == wanted {
            assert forall|j: int| 0 <= j < at - from implies text@.skip(from as int)[j]
                != wanted by {
                assert(text@.skip(from as int)[j] == text@[from + j]);
            }
            return Some(at);
        }
        at = at + 1;
    }
    proof {
        let rest = text@.skip(from as int);
        assert forall|k: int| !is_first(rest, wanted, k) by {
            if 0 <= k < rest.len() {
                assert(rest[k] == text@[from + k]);
            }
        }
    }
    None
}

/// The place of the first occurrence is the only one that is first.
proof fn lemma_first_is_unique(text: Seq<char>, wanted: char, at: int)
    requires
        is_first(text, wanted, at),
    ensures
        first_position(text, wanted) == Some(at),
{
    let chosen = choose|k: int| is_first(text, wanted, k);
    assert(is_first(text, wanted, chosen));
    if chosen < at {
        assert(text[chosen] != wanted);
    } else if at < chosen {
        assert(text[at] != wanted);
    }
}

/// Splits one token at its first `=`.
fn split_token(token: &str) -> (pair: (String, String))
    ensures
        (pair.0@, pair.1@) == key_value(token@),
{
    let len: usize = token.unicode_len();
    match find_from(token, len, 0, '=') {
        Some(at) => {
            proof {
                assert(token@.skip(0) =~= token@);
                lemma_first_is_unique(token@, '=', at as int);
            }
            let key = token.substring_char(0, at);
            let value = token.substring_char(at + 1, len);
            assert(key@ =~= token@.take(at as int));
            assert(value@ =~= token@.skip(at + 1));
            (String::from_str(key), String::from_str(value))
        },
        None => {
            assert(token@.skip(0) =~= token@);
            (String::from_str(token), String::new())
        },
    }
}

/// Reads the tokens of an option string: key and value of each, in order.
pub fn split_options(text: &str) -> (pairs: Vec<(String, String)>)
    ensures
        pair_texts(pairs@) == option_pairs(text@),
{
    let len: usize = text.unicode_len();
    let mut pairs: Vec<(String, String)> = Vec::new();
    if len == 0 {
        assert(pair_texts(pairs@) =~= option_pairs(text@));
        return pairs;
    }
    let ghost read = |token: Seq<char>| key_value(token);
    let mut start: usize = 0;
    proof {
        assert(text@.skip(0) =~= text@);
        assert(pair_texts(pairs@) + segments(text@, ',').map_values(read) =~= segments(
            text@,
            ',',
        ).map_values(read));
    }
    loop
        invariant_except_break
            start <= len,
            len == text@.len(),
            len > 0,
            read == (|token: Seq<char>| key_value(token)),
            pair_texts(pairs@) + segments(text@.skip(start as int), ',').map_values(read)
                == segments(text@, ',').map_values(read),
        ensures
            len == text@.len(),
            len > 0,
            read == (|token: Seq<char>| key_value(token)),
            pair_texts(pairs@) == segments(text@, ',').map_values(read),
        decreases len - start,
    {
        let ghost rest = text@.skip(start as int);
        let ghost before = pair_texts(pairs@);
        match find_from(text, len, start, ',') {
            Some(end) => {
                let token = text.substring_char(start, end);
                let pair = split_token(token);
                pairs.push(pair);
                proof {
                    lemma_first_is_unique(rest, ',', end - start);
                    assert(token@ =~= rest.take(end - start));
                    assert(rest.skip(end - start + 1) =~= text@.skip(end + 1));
                    assert(segments(rest, ',') == seq![token@] + segments(
                        text@.skip(end + 1),
                        ',',
                    ));
                    assert(pair_texts(pairs@) =~= before + seq![key_value(token@)]);
                    assert(segments(rest, ',').map_values(read) =~= seq![key_value(token@)]
                        + segments(text@.skip(end + 1), ',').map_values(read));
                    assert(pair_texts(pairs@) + segments(text@.skip(end + 1), ',').map_values(read)
                        =~= before + segments(rest, ',').map_values(read));
                }
                start = end + 1;
            },
            None => {
                let token = text.substring_char(start, len);
                let pair = split_token(token);
                pairs.push(pair);
                proof {
                    assert(token@ =~= rest);
                    assert(segments(rest, ',') == seq![rest]);
                    assert(pair_texts(pairs@) =~= before + seq![key_value(token@)]);
                    assert(segments(rest, ',').map_values(read) =~= seq![key_value(token@)]);
                }
                break;
            },
        }
    }
    pairs
}

/// Reads an option string into a map from keys to values. An absent and an
/// empty string give the empty map; a key without `=` gets the empty value;
/// of two tokens with one key the later one stays.
pub fn parse_options(options: Option<&str>) -> (map: Options)
    ensures
        as_text(map@) == parsed_options(
            match options {
                Some(text) => Some(text@),
                None => None,
            },
        ),
{
    let mut map: Options = StringHashMap::new();
    match options {
        None => {
            assert(as_text(map@) =~= Map::empty());
        },
        Some(text) => {
            let mut pairs = split_options(text);
            let ghost all = pair_texts(pairs@);
            let mut at: usize = 0;
            assert(as_text(map@) =~= entered(all.take(0)));
            while at < pairs.len()
                invariant
                    at <= pairs.len(),
                    all == pair_texts(pairs@),
                    as_text(map@) == entered(all.take(at as int)),
                decreases pairs.len() - at,
            {
                let key = pairs[at].0.clone();
                let value = pairs[at].1.clone();
                let ghost before = map@;
                map.insert(key, value);
                proof {
                    let upto = all.take(at + 1);
                    assert(upto.drop_last() =~= all.take(at as int));
                    assert(upto.last() == all[at as int]);
                    assert(as_text(map@) =~= as_text(before).insert(key@, value@));
                }
                at = at + 1;
            }
            assert(all.take(at as int) =~= all);
        },
    }
    map
}

} // verus!
