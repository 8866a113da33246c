//! Which web pages may talk to the server.

use vstd::prelude::*;
use vstd::utf8::{
    decode_utf8, encode_utf8, encode_utf8_decode_utf8, encode_utf8_valid_utf8,
    is_ascii_chars_encode_utf8, valid_utf8,
};

verus! {

/// Whether `text` as a whole fits `pattern`, where `*` stands for any characters, none among them,
/// `?` for exactly one, and any other character for itself.
pub open spec fn glob(pattern: Seq<char>, text: Seq<char>) -> bool
    decreases pattern.len(), text.len(),
{
    if pattern.len() == 0 {
        text.len() == 0
    } else if pattern[0] == '*' {
        glob(pattern.drop_first(), text) || (text.len() > 0 && glob(pattern, text.drop_first()))
    } else {
        &&& text.len() > 0
        &&& pattern[0] == '?' || pattern[0] == text[0]
        &&& glob(pattern.drop_first(), text.drop_first())
    }
}

/// Calls `wildmatch::WildMatch::new` on the pattern and `matches` on the text.
///
/// Claimed: that is true exactly if the whole text fits the pattern. No character is an escape, and
/// upper and lower case differ.
#[verifier::external_body]
fn wildcard_matches(pattern: &str, text: &str) -> (b: bool)
    ensures
        b == glob(pattern@, text@),
{
    wildmatch::WildMatch::new(pattern).matches(text)
}

/// The origins that are always allowed: pages of this machine and of the viewer's home page.
pub open spec fn default_cors_patterns() -> Seq<Seq<char>> {
    seq![
        "*://localhost"@,
        "*://localhost:*"@,
        "*://127.0.0.1"@,
        "*://127.0.0.1:*"@,
        "*://rerun.io"@,
        "*://rerun.io:*"@,
    ]
}

/// The texts of strings.
pub open spec fn texts(strings: Seq<String>) -> Seq<Seq<char>> {
    strings.map_values(|s: String| s@)
}

/// Whether one of `patterns` fits `origin`.
pub open spec fn allowed(origin: Seq<char>, patterns: Seq<Seq<char>>) -> bool {
    exists|i: int| 0 <= i < patterns.len() && glob(#[trigger] patterns[i], origin)
}

/// Whether the origin is allowed by one of the patterns.
pub fn is_origin_allowed(origin: &str, patterns: &Vec<String>) -> (b: bool)
    ensures
        b == allowed(origin@, texts(patterns@)),
{
    for i in 0..patterns.len()
        invariant
            forall|j: int| 0 <= j < i ==> !glob(#[trigger] texts(patterns@)[j], origin@),
    {
        assert(texts(patterns@)[i as int] == patterns@[i as int]@);
        if wildcard_matches(patterns[i].as_str(), origin) {
            return true;
        }
    }
    false
}

/// The patterns of the origins that may make requests: the default ones, then `extra`.
pub fn allowed_origin_patterns(extra: &Vec<String>) -> (patterns: Vec<String>)
    ensures
        texts(patterns@) == default_cors_patterns() + texts(extra@),
{
    let mut patterns: Vec<String> = Vec::new();
    patterns.push("*://localhost".to_owned());
    patterns.push("*://localhost:*".to_owned());
    patterns.push("*://127.0.0.1".to_owned());
    patterns.push("*://127.0.0.1:*".to_owned());
    patterns.push("*://rerun.io".to_owned());
    patterns.push("*://rerun.io:*".to_owned());
    assert(texts(patterns@) =~= default_cors_patterns());
    for i in 0..extra.len()
        invariant
            texts(patterns@) == default_cors_patterns() + texts(extra@).take(i as int),
    {
        let ghost before = patterns@;
        patterns.push(extra[i].clone());
        assert(texts(patterns@) =~= texts(before).push(extra@[i as int]@));
        assert(texts(extra@).take(i + 1) =~= texts(extra@).take(i as int).push(
            extra@[i as int]@,
        ));
    }
    assert(texts(extra@).take(extra@.len() as int) =~= texts(extra@));
    patterns
}

/// Whether a byte may stand in a header that is text: a tab, or a visible character or blank of
/// ASCII.
pub open spec fn is_header_char(byte: u8) -> bool {
    byte == 9 || 32 <= byte < 127
}

/// The text of a header, if it is text.
pub open spec fn header_text(bytes: Seq<u8>) -> Option<Seq<char>> {
    if forall|i: int| 0 <= i < bytes.len() ==> is_header_char(#[trigger] bytes[i]) {
        Some(Seq::new(bytes.len(), |i: int| bytes[i] as char))
    } else {
        None
    }
}

/// Calls `std::str::from_utf8`.
///
/// Claimed: it gives the text whose bytes these are, and fails exactly if there is none.
#[verifier::external_body]
fn utf8_text(bytes: &Vec<u8>) -> (text: Option<&str>)
    ensures
        text is Some <==> valid_utf8(bytes@),
        text matches Some(s) ==> encode_utf8(s@) == bytes@,
{
    std::str::from_utf8(bytes).ok()
}

/// Bytes of ASCII are the characters that they are in UTF-8.
proof fn ascii_is_utf8(bytes: Seq<u8>)
    requires
        forall|i: int| 0 <= i < bytes.len() ==> is_header_char(#[trigger] bytes[i]),
    ensures
        valid_utf8(bytes),
        decode_utf8(bytes) == Seq::new(bytes.len(), |i: int| bytes[i] as char),
{
    let chars = Seq::new(bytes.len(), |i: int| bytes[i] as char);
    assert forall|i: int| 0 <= i < chars.len() implies '\0' <= #[trigger] chars[i] <= '\u{7f}' by {
        assert(is_header_char(bytes[i]));
    }
    is_ascii_chars_encode_utf8(chars);
    assert(encode_utf8(chars) =~= bytes);
    encode_utf8_valid_utf8(chars);
    encode_utf8_decode_utf8(chars);
}

/// Whether a request with these bytes as its `Origin` header is answered, where `patterns` are those
/// of [`allowed_origin_patterns`]. A header that is not text is refused.
pub fn is_origin_header_allowed(origin: &Vec<u8>, patterns: &Vec<String>) -> (b: bool)
    ensures
        b == (header_text(origin@) matches Some(text) && allowed(text, texts(patterns@))),
{
    for i in 0..origin.len()
        invariant
            forall|j: int| 0 <= j < i ==> is_header_char(#[trigger] origin@[j]),
    {
        let byte: u8 = origin[i];
        if !(byte == 9 || (32 <= byte && byte < 127)) {
            assert(!is_header_char(origin@[i as int]));
            return false;
        }
    }
    proof {
        ascii_is_utf8(origin@);
    }
    match utf8_text(origin) {
        Some(text) => {
            proof {
                encode_utf8_decode_utf8(text@);
            }
            is_origin_allowed(text, patterns)
        },
        None => false,
    }
}

/// More patterns never take an origin away: what the default ones allow stays allowed, and what is
/// allowed is so by a default pattern or by an extra one.
pub proof fn extra_patterns_only_add(origin: Seq<char>, extra: Seq<Seq<char>>)
    ensures
        allowed(origin, default_cors_patterns() + extra) <==> allowed(
            origin,
            default_cors_patterns(),
        ) || allowed(origin, extra),
{
    let defaults = default_cors_patterns();
    let all = defaults + extra;
    if allowed(origin, defaults) {
        let i = choose|i: int| 0 <= i < defaults.len() && glob(#[trigger] defaults[i], origin);
        assert(all[i] == defaults[i]);
    }
    if allowed(origin, extra) {
        let i = choose|i: int| 0 <= i < extra.len() && glob(#[trigger] extra[i], origin);
        assert(all[defaults.len() + i] == extra[i]);
    }
    if allowed(origin, all) {
        let i = choose|i: int| 0 <= i < all.len() && glob(#[trigger] all[i], origin);
        if i < defaults.len() {
            assert(all[i] == defaults[i]);
        } else {
            assert(all[i] == extra[i - defaults.len()]);
        }
    }
}

/// Whether no character of `text` stands for others.
pub open spec fn is_literal(text: Seq<char>) -> bool {
    forall|i: int| 0 <= i < text.len() ==> #[trigger] text[i] != '*' && text[i] != '?'
}

/// A pattern that begins with literal text fits what begins with that text, if the rest fits.
pub proof fn literal_fits_itself(literal: Seq<char>, rest: Seq<char>, text: Seq<char>)
    requires
        is_literal(literal),
    ensures
        glob(literal + rest, text) <==> literal.len() <= text.len() && text.take(
            literal.len() as int,
        ) == literal && glob(rest, text.skip(literal.len() as int)),
    decreases literal.len(),
{
    let pattern = literal + rest;
    if literal.len() == 0 {
        assert(pattern =~= rest);
        assert(text.take(0) =~= literal);
        assert(text.skip(0) =~= text);
    } else {
        assert(pattern[0] == literal[0]);
        assert(pattern.drop_first() =~= literal.drop_first() + rest);
        if text.len() > 0 {
            literal_fits_itself(literal.drop_first(), rest, text.drop_first());
            let n = literal.len() as int;
            if n <= text.len() {
                assert(text.drop_first().skip(n - 1) =~= text.skip(n));
                assert(text.take(n).drop_first() =~= text.drop_first().take(n - 1));
                if text.take(n) == literal {
                    assert(text[0] == text.take(n)[0]);
                }
                if text[0] == literal[0] && text.drop_first().take(n - 1) == literal.drop_first() {
                    assert forall|i: int| 0 <= i < n implies text.take(n)[i] == literal[i] by {
                        if i > 0 {
                            assert(text.drop_first().take(n - 1)[i - 1] == literal.drop_first()[i
                                - 1]);
                        }
                    }
                    assert(text.take(n) =~= literal);
                }
            }
        }
    }
}

/// A `*` fits any beginning.
pub proof fn star_fits_any_beginning(rest: Seq<char>, text: Seq<char>)
    ensures
        glob(seq!['*'] + rest, text) <==> exists|k: int|
            0 <= k <= text.len() && glob(rest, #[trigger] text.skip(k)),
    decreases text.len(),
{
    let pattern = seq!['*'] + rest;
    assert(pattern.drop_first() =~= rest);
    assert(text.skip(0) =~= text);
    if text.len() > 0 {
        let tail = text.drop_first();
        star_fits_any_beginning(rest, tail);
        if exists|k: int| 0 <= k <= tail.len() && glob(rest, #[trigger] tail.skip(k)) {
            let k = choose|k: int| 0 <= k <= tail.len() && glob(rest, #[trigger] tail.skip(k));
            assert(tail.skip(k) =~= text.skip(k + 1));
        }
        if exists|k: int| 0 <= k <= text.len() && glob(rest, #[trigger] text.skip(k)) {
            let k = choose|k: int| 0 <= k <= text.len() && glob(rest, #[trigger] text.skip(k));
            if k > 0 {
                assert(tail.skip(k - 1) =~= text.skip(k));
            }
        }
    }
}

/// The hosts whose pages are always allowed.
pub open spec fn default_hosts() -> Seq<Seq<char>> {
    seq!["localhost"@, "127.0.0.1"@, "rerun.io"@]
}

/// Whether `origin` is a page of `host` under any scheme and on any port.
pub open spec fn is_page_of(origin: Seq<char>, host: Seq<char>) -> bool {
    ||| exists|scheme: Seq<char>| origin == #[trigger] (scheme + "://"@) + host
    ||| exists|scheme: Seq<char>, port: Seq<char>|
        origin == #[trigger] ((scheme + "://"@) + host + ":"@ + port)
}

/// By default only pages of this machine and of the viewer's home page are allowed, under any scheme
/// and on any port.
pub proof fn default_origins_are_pages_of_default_hosts(origin: Seq<char>)
    ensures
        allowed(origin, default_cors_patterns()) <==> exists|i: int|
            0 <= i < default_hosts().len() && is_page_of(origin, #[trigger] default_hosts()[i]),
{
    let patterns = default_cors_patterns();
    let hosts = default_hosts();
    reveal_strlit("://");
    reveal_strlit(":");
    reveal_strlit("localhost");
    reveal_strlit("127.0.0.1");
    reveal_strlit("rerun.io");
    reveal_strlit("*://localhost");
    reveal_strlit("*://localhost:*");
    reveal_strlit("*://127.0.0.1");
    reveal_strlit("*://127.0.0.1:*");
    reveal_strlit("*://rerun.io");
    reveal_strlit("*://rerun.io:*");
    assert(patterns[0] =~= seq!['*'] + ("://"@ + hosts[0]));
    assert(patterns[1] =~= seq!['*'] + ("://"@ + hosts[0] + ":"@ + seq!['*']));
    assert(patterns[2] =~= seq!['*'] + ("://"@ + hosts[1]));
    assert(patterns[3] =~= seq!['*'] + ("://"@ + hosts[1] + ":"@ + seq!['*']));
    assert(patterns[4] =~= seq!['*'] + ("://"@ + hosts[2]));
    assert(patterns[5] =~= seq!['*'] + ("://"@ + hosts[2] + ":"@ + seq!['*']));
    host_patterns_fit_its_pages(origin, hosts[0]);
    host_patterns_fit_its_pages(origin, hosts[1]);
    host_patterns_fit_its_pages(origin, hosts[2]);
    if allowed(origin, patterns) {
        let i = choose|i: int| 0 <= i < patterns.len() && glob(#[trigger] patterns[i], origin);
        assert(is_page_of(origin, hosts[i / 2]));
    }
    if exists|i: int| 0 <= i < hosts.len() && is_page_of(origin, #[trigger] hosts[i]) {
        let i = choose|i: int| 0 <= i < hosts.len() && is_page_of(origin, #[trigger] hosts[i]);
        assert(glob(patterns[2 * i], origin) || glob(patterns[2 * i + 1], origin));
    }
}

proof fn host_patterns_fit_its_pages(origin: Seq<char>, host: Seq<char>)
    requires
        is_literal(host),
    ensures
        glob(seq!['*'] + ("://"@ + host), origin) || glob(
            seq!['*'] + ("://"@ + host + ":"@ + seq!['*']),
            origin,
        ) <==> is_page_of(origin, host),
{
    reveal_strlit("://");
    reveal_strlit(":");
    let bare = "://"@ + host;
    let with_port = "://"@ + host + ":"@;
    assert(bare + Seq::<char>::empty() =~= bare);
    star_fits_any_beginning(bare, origin);
    star_fits_any_beginning(with_port + seq!['*'], origin);
    assert forall|k: int| 0 <= k <= origin.len() && glob(bare, #[trigger] origin.skip(k)) implies origin
        == (origin.take(k) + "://"@) + host by {
        literal_fits_itself(bare, Seq::empty(), origin.skip(k));
        assert(origin.skip(k).take(bare.len() as int) =~= origin.skip(k));
        assert(origin =~= origin.take(k) + origin.skip(k));
        assert((origin.take(k) + "://"@) + host =~= origin.take(k) + bare);
    }
    assert forall|k: int|
        0 <= k <= origin.len() && glob(
            with_port + seq!['*'],
            #[trigger] origin.skip(k),
        ) implies exists|scheme: Seq<char>, port: Seq<char>|
        origin == #[trigger] ((scheme + "://"@) + host + ":"@ + port) by {
        literal_fits_itself(with_port, seq!['*'], origin.skip(k));
        let scheme = origin.take(k);
        let port = origin.skip(k).skip(with_port.len() as int);
        assert(origin =~= scheme + (origin.skip(k).take(with_port.len() as int) + port));
        assert((scheme + "://"@) + host + ":"@ + port =~= scheme + (with_port + port));
    }
    assert forall|scheme: Seq<char>| origin == #[trigger] (scheme + "://"@) + host implies glob(
        seq!['*'] + bare,
        origin,
    ) by {
        assert(origin.skip(scheme.len() as int) =~= bare);
        assert(bare.take(bare.len() as int) =~= bare);
        assert(bare.skip(bare.len() as int) =~= Seq::empty());
        literal_fits_itself(bare, Seq::empty(), bare);
    }
    assert forall|scheme: Seq<char>, port: Seq<char>|
        origin == #[trigger] ((scheme + "://"@) + host + ":"@ + port) implies glob(
        seq!['*'] + (with_port + seq!['*']),
        origin,
    ) by {
        let tail = with_port + port;
        assert(origin.skip(scheme.len() as int) =~= tail);
        assert(tail.take(with_port.len() as int) =~= with_port);
        assert(tail.skip(with_port.len() as int) =~= port);
        star_fits_any_beginning(Seq::empty(), port);
        assert(port.skip(port.len() as int) =~= Seq::empty());
        assert(seq!['*'] + Seq::<char>::empty() =~= seq!['*']);
        literal_fits_itself(with_port, seq!['*'], tail);
    }
}

/// A `?` fits exactly one character, whichever it is, and the end of a pattern fits the end of the text.
pub proof fn question_mark_fits_one_character(rest: Seq<char>, text: Seq<char>)
    ensures
        glob(seq!['?'] + rest, text) <==> text.len() > 0 && glob(rest, text.drop_first()),
        glob(Seq::empty(), text) <==> text.len() == 0,
{
    assert((seq!['?'] + rest).drop_first() =~= rest);
}

/// An origin is allowed by one pattern exactly if it fits that, by more exactly if one of them allows it,
/// and by none not at all.
pub proof fn one_fitting_pattern_is_enough(
    origin: Seq<char>,
    pattern: Seq<char>,
    others: Seq<Seq<char>>,
)
    ensures
        !allowed(origin, Seq::empty()),
        allowed(origin, seq![pattern]) <==> glob(pattern, origin),
        allowed(origin, others.push(pattern)) <==> allowed(origin, others) || glob(pattern, origin),
{
    assert(seq![pattern][0] == pattern);
    let all = others.push(pattern);
    if allowed(origin, others) {
        let i = choose|i: int| 0 <= i < others.len() && glob(#[trigger] others[i], origin);
        assert(all[i] == others[i]);
    }
    assert(all[others.len() as int] == pattern);
    if allowed(origin, all) {
        let i = choose|i: int| 0 <= i < all.len() && glob(#[trigger] all[i], origin);
        if i < others.len() {
            assert(all[i] == others[i]);
        }
    }
}

/// By default an origin is allowed exactly if it is a scheme, `://`, one of three hosts, and nothing more
/// or a colon and a port, whatever the scheme and the port.
pub proof fn three_hosts_are_allowed_by_default(origin: Seq<char>)
    ensures
        allowed(origin, default_cors_patterns()) <==> {
            ||| exists|scheme: Seq<char>| origin == #[trigger] (scheme + "://"@) + "localhost"@
            ||| exists|scheme: Seq<char>| origin == #[trigger] (scheme + "://"@) + "127.0.0.1"@
            ||| exists|scheme: Seq<char>| origin == #[trigger] (scheme + "://"@) + "rerun.io"@
            ||| exists|scheme: Seq<char>, port: Seq<char>|
                origin == #[trigger] ((scheme + "://"@) + "localhost"@ + ":"@ + port)
            ||| exists|scheme: Seq<char>, port: Seq<char>|
                origin == #[trigger] ((scheme + "://"@) + "127.0.0.1"@ + ":"@ + port)
            ||| exists|scheme: Seq<char>, port: Seq<char>|
                origin == #[trigger] ((scheme + "://"@) + "rerun.io"@ + ":"@ + port)
        },
{
    default_origins_are_pages_of_default_hosts(origin);
    let hosts = default_hosts();
    assert(hosts[0] == "localhost"@ && hosts[1] == "127.0.0.1"@ && hosts[2] == "rerun.io"@);
    assert(is_page_of(origin, hosts[0]) || is_page_of(origin, hosts[1]) || is_page_of(
        origin,
        hosts[2],
    ) <==> exists|i: int| 0 <= i < hosts.len() && is_page_of(origin, #[trigger] hosts[i]));
}

/// A header is text exactly if all its bytes are tabs or visible characters or blanks of ASCII, and the
/// text has just these characters.
pub proof fn headers_are_read_byte_for_byte(bytes: Seq<u8>)
    ensures
        header_text(bytes) is Some <==> forall|i: int|
            0 <= i < bytes.len() ==> #[trigger] bytes[i] == 9 || 32 <= bytes[i] <= 126,
        header_text(bytes) matches Some(text) ==> text.len() == bytes.len() && forall|i: int|
            0 <= i < bytes.len() ==> #[trigger] text[i] as int == bytes[i] as int,
{
    if forall|i: int| 0 <= i < bytes.len() ==> #[trigger] bytes[i] == 9 || 32 <= bytes[i] <= 126 {
        assert forall|i: int| 0 <= i < bytes.len() implies is_header_char(#[trigger] bytes[i]) by {}
    }
    if header_text(bytes) is Some {
        assert forall|i: int| 0 <= i < bytes.len() implies #[trigger] bytes[i] == 9 || 32 <= bytes[i]
            <= 126 by {
            assert(is_header_char(bytes[i]));
        }
    }
}

/// Patterns are taken as they are, all of them.
pub proof fn patterns_are_taken_as_they_are(strings: Seq<String>)
    ensures
        texts(strings).len() == strings.len(),
        forall|i: int| 0 <= i < strings.len() ==> #[trigger] texts(strings)[i] == strings[i]@,
{
}

} // verus!
