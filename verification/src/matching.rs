//! Resolving the model's free-text answer to one endpoint of the catalog.

use crate::models::{ConfigFile, Endpoint, ErrorKind, PipelineError};
use crate::text::{
    char_is_whitespace, contains, contains_range, from_chars, is_substring, is_whitespace,
    lowercase, strip, strip_bounds, to_chars, trimmed, Strip,
};
use vstd::prelude::*;
use vstd::string::StringExecFns;

verus! {

/// A text as the resolver compares it: trimmed, then in lowercase.
pub open spec fn normalize(s: Seq<char>) -> Seq<char> {
    lowercase(trimmed(s))
}

/// `s[a..b]` is a token of `s`: a longest run of characters that are not white space.
pub open spec fn is_token(s: Seq<char>, a: int, b: int) -> bool {
    &&& 0 <= a < b <= s.len()
    &&& forall|k: int| a <= k < b ==> !is_whitespace(#[trigger] s[k])
    &&& (a == 0 || is_whitespace(s[a - 1]))
    &&& (b == s.len() || is_whitespace(s[b]))
}

/// Every token of `phrase` stands somewhere in `answer`.
pub open spec fn all_tokens_in(phrase: Seq<char>, answer: Seq<char>) -> bool {
    forall|a: int, b: int| #[trigger]
        is_token(phrase, a, b) ==> is_substring(phrase.subrange(a, b), answer)
}

/// The rule by which a normalized trigger phrase is recognised in a normalized
/// answer: the whole phrase stands in the answer, or each of its tokens does.
pub open spec fn phrase_matches(phrase: Seq<char>, answer: Seq<char>) -> bool {
    is_substring(phrase, answer) || all_tokens_in(phrase, answer)
}

/// Whether `endpoint` is recognised in the answer `response`.
pub open spec fn endpoint_matches(endpoint: Endpoint, response: Seq<char>) -> bool {
    phrase_matches(normalize(endpoint.text@), normalize(response))
}

/// `i` is the first endpoint of the catalog that is recognised in `response`.
pub open spec fn is_first_match(endpoints: Seq<Endpoint>, response: Seq<char>, i: int) -> bool {
    &&& 0 <= i < endpoints.len()
    &&& endpoint_matches(endpoints[i], response)
    &&& forall|j: int| 0 <= j < i ==> !endpoint_matches(#[trigger] endpoints[j], response)
}

/// No endpoint of the catalog is recognised in `response`.
pub open spec fn no_match(endpoints: Seq<Endpoint>, response: Seq<char>) -> bool {
    forall|j: int| 0 <= j < endpoints.len() ==> !endpoint_matches(#[trigger] endpoints[j], response)
}

/// At most one endpoint is the first that is recognised in an answer, and
/// there is one exactly where some endpoint is recognised.
pub proof fn lemma_first_match(endpoints: Seq<Endpoint>, response: Seq<char>, i: int, j: int)
    ensures
        is_first_match(endpoints, response, i) && is_first_match(endpoints, response, j) ==> i == j,
        is_first_match(endpoints, response, i) ==> !no_match(endpoints, response),
        0 <= j < endpoints.len() && endpoint_matches(endpoints[j], response) && is_first_match(
            endpoints,
            response,
            i,
        ) ==> i <= j,
{
}

/// The characters of `s`, normalized.
pub fn normalized_chars(s: &str) -> (r: Vec<char>)
    ensures
        r@ == normalize(s@),
{
    let chars = to_chars(s);
    let (a, b) = strip_bounds(&chars, 0, chars.len(), Strip::Whitespace);
    assert(chars@.subrange(0, chars@.len() as int) == chars@);
    let cut = from_chars(&chars, a, b);
    let lower = cut.as_str().to_lowercase();
    to_chars(lower.as_str())
}

/// Tells whether every token of `phrase` stands somewhere in `answer`.
pub fn tokens_contained(phrase: &Vec<char>, answer: &Vec<char>) -> (r: bool)
    ensures
        r == all_tokens_in(phrase@, answer@),
{
    let n: usize = phrase.len();
    let mut i: usize = 0;
    while i < n
        invariant
            n == phrase.len(),
            i <= n,
            i == 0 || i == n || is_whitespace(phrase@[i - 1]) || is_whitespace(phrase@[i as int]),
            forall|a: int, b: int| #[trigger]
                is_token(phrase@, a, b) && b <= i ==> is_substring(
                    phrase@.subrange(a, b),
                    answer@,
                ),
        decreases n - i,
    {
        if char_is_whitespace(phrase[i]) {
            i += 1;
        } else {
            let start: usize = i;
            let mut j: usize = i + 1;
            while j < n && !char_is_whitespace(phrase[j])
                invariant
                    n == phrase.len(),
                    start < j <= n,
                    forall|k: int| start <= k < j ==> !is_whitespace(#[trigger] phrase@[k]),
                decreases n - j,
            {
                j += 1;
            }
            assert(is_token(phrase@, start as int, j as int));
            if !contains_range(answer, phrase, start, j) {
                return false;
            }
            assert forall|a: int, b: int| #[trigger]
                is_token(phrase@, a, b) && b <= j implies is_substring(
                phrase@.subrange(a, b),
                answer@,
            ) by {
                if b > start {
                    assert(!is_whitespace(phrase@[b - 1]));
                    if a < start {
                        assert(!is_whitespace(phrase@[start - 1]));
                        assert(!is_whitespace(phrase@[start as int]));
                    }
                    if a > start {
                        assert(!is_whitespace(phrase@[a - 1]));
                    }
                    if b < j {
                        assert(!is_whitespace(phrase@[b as int]));
                    }
                    assert(a == start && b == j);
                }
            }
            i = j;
        }
    }
    true
}

/// Tells whether the normalized trigger phrase `phrase` is recognised in the
/// normalized answer `answer`.
pub fn phrase_recognised(phrase: &Vec<char>, answer: &Vec<char>) -> (r: bool)
    ensures
        r == phrase_matches(phrase@, answer@),
{
    contains(answer, phrase) || tokens_contained(phrase, answer)
}

/// The index of the first endpoint of the catalog that is recognised in
/// `response`, or `None` where none is.
pub fn find_endpoint_index(config: &ConfigFile, response: &str) -> (r: Option<usize>)
    ensures
        match r {
            Some(i) => is_first_match(config.endpoints@, response@, i as int),
            None => no_match(config.endpoints@, response@),
        },
{
    let answer = normalized_chars(response);
    let mut i: usize = 0;
    while i < config.endpoints.len()
        invariant
            i <= config.endpoints.len(),
            answer@ == normalize(response@),
            forall|j: int| 0 <= j < i ==> !endpoint_matches(#[trigger] config.endpoints@[j], response@),
        decreases config.endpoints.len() - i,
    {
        let phrase = normalized_chars(config.endpoints[i].text.as_str());
        if phrase_recognised(&phrase, &answer) {
            return Some(i);
        }
        i += 1;
    }
    None
}

/// The text of the error that reports that no endpoint was recognised in `response`.
pub open spec fn no_match_message(response: Seq<char>) -> Seq<char> {
    "No endpoint matched the response: '"@ + response + "'"@
}

/// Finds the endpoint that the answer `response` names.
///
/// The trigger phrase of each endpoint and the answer are normalized. An
/// endpoint is recognised where its whole phrase, or each token of it, stands
/// in the answer. Of several, the first of the catalog is returned; where
/// there is none, the error is of class [`ErrorKind::NoMatch`].
pub fn find_endpoint_by_substring<'a>(config: &'a ConfigFile, response: &str) -> (r: Result<
    &'a Endpoint,
    PipelineError,
>)
    ensures
        match r {
            Ok(e) => exists|i: int|
                is_first_match(config.endpoints@, response@, i) && *e == #[trigger] config.endpoints@[i],
            Err(e) => {
                &&& no_match(config.endpoints@, response@)
                &&& e.kind == ErrorKind::NoMatch
                &&& e.message@ == no_match_message(response@)
            },
        },
{
    match find_endpoint_index(config, response) {
        Some(i) => Ok(&config.endpoints[i]),
        None => {
            let mut message = String::from_str("No endpoint matched the response: '");
            message.append(response);
            message.append("'");
            Err(PipelineError { kind: ErrorKind::NoMatch, message })
        },
    }
}

/// Every character of `s` is white space.
pub open spec fn is_blank(s: Seq<char>) -> bool {
    forall|k: int| 0 <= k < s.len() ==> is_whitespace(#[trigger] s[k])
}

/// Tells whether every character of `s` is white space.
pub fn is_blank_text(s: &str) -> (r: bool)
    ensures
        r == is_blank(s@),
{
    let v = to_chars(s);
    let mut i: usize = 0;
    while i < v.len()
        invariant
            v@ == s@,
            i <= v.len(),
            forall|k: int| 0 <= k < i ==> is_whitespace(#[trigger] s@[k]),
        decreases v.len() - i,
    {
        if !char_is_whitespace(v[i]) {
            return false;
        }
        i += 1;
    }
    true
}

/// `s[a..b]` is a line of `s`: it runs from the start of the text, or from
/// behind a line feed, to the next line feed or to the end of the text.
pub open spec fn is_line(s: Seq<char>, a: int, b: int) -> bool {
    &&& 0 <= a <= b <= s.len()
    &&& forall|k: int| a <= k < b ==> #[trigger] s[k] != '\n'
    &&& (a == 0 || s[a - 1] == '\n')
    &&& (b == s.len() || s[b] == '\n')
}

/// `s[a..b]` is the last line of `s` that is not blank.
pub open spec fn is_last_nonblank_line(s: Seq<char>, a: int, b: int) -> bool {
    &&& is_line(s, a, b)
    &&& !is_blank(s.subrange(a, b))
    &&& is_blank(s.subrange(b, s.len() as int))
}

/// A line of the model's answer, trimmed and without the double quotes and
/// then the single quotes that surround it.
pub open spec fn cleaned(line: Seq<char>) -> Seq<char> {
    strip(strip(trimmed(line), Strip::Char('"')), Strip::Char('\''))
}

/// `t` is the phrase that the answer `raw` names: its last line that is not
/// blank, cleaned.
pub open spec fn is_chosen_phrase(raw: Seq<char>, t: Seq<char>) -> bool {
    exists|a: int, b: int| #[trigger] is_last_nonblank_line(raw, a, b) && t == cleaned(raw.subrange(a, b))
}

/// An answer names at most one phrase.
pub proof fn lemma_chosen_phrase_unique(raw: Seq<char>, t: Seq<char>, u: Seq<char>)
    requires
        is_chosen_phrase(raw, t),
        is_chosen_phrase(raw, u),
    ensures
        t == u,
{
    let (a, b) = choose|a: int, b: int| #[trigger]
        is_last_nonblank_line(raw, a, b) && t == cleaned(raw.subrange(a, b));
    let (c, d) = choose|c: int, d: int| #[trigger]
        is_last_nonblank_line(raw, c, d) && u == cleaned(raw.subrange(c, d));
    lemma_last_nonblank_line_unique(raw, a, b, c, d);
}

/// A blank answer names no phrase.
pub proof fn lemma_blank_names_nothing(raw: Seq<char>, t: Seq<char>)
    requires
        is_blank(raw),
    ensures
        !is_chosen_phrase(raw, t),
{
    if is_chosen_phrase(raw, t) {
        let (a, b) = choose|a: int, b: int| #[trigger]
            is_last_nonblank_line(raw, a, b) && t == cleaned(raw.subrange(a, b));
        let x = raw.subrange(a, b);
        let k = choose|k: int| 0 <= k < x.len() && !is_whitespace(#[trigger] x[k]);
        assert(is_whitespace(raw[a + k]));
    }
}

/// A text has at most one last line that is not blank.
pub proof fn lemma_last_nonblank_line_unique(s: Seq<char>, a: int, b: int, c: int, d: int)
    requires
        is_last_nonblank_line(s, a, b),
        is_last_nonblank_line(s, c, d),
    ensures
        a == c,
        b == d,
{
    let x = s.subrange(a, b);
    let y = s.subrange(c, d);
    let k = choose|k: int| 0 <= k < x.len() && !is_whitespace(#[trigger] x[k]);
    let m = choose|m: int| 0 <= m < y.len() && !is_whitespace(#[trigger] y[m]);
    assert(!is_whitespace(s[a + k]));
    assert(!is_whitespace(s[c + m]));
    if b < d {
        assert(s[b] == '\n');
        if a + k >= d {
            assert(is_whitespace(s.subrange(d, s.len() as int)[a + k - d]));
        }
        assert(is_whitespace(s.subrange(b, s.len() as int)[c + m - b]));
    }
    if d < b {
        assert(s[d] == '\n');
        assert(is_whitespace(s.subrange(d, s.len() as int)[a + k - d]));
    }
    if a < c {
        assert(s[c - 1] == '\n');
    }
    if c < a {
        assert(s[a - 1] == '\n');
    }
}

/// Reads the phrase that the model chose out of its raw answer.
///
/// The phrase is the last line of the answer that is not blank, trimmed and
/// without surrounding quotes. An answer with no such line, or whose phrase
/// is empty, is an error of class [`ErrorKind::Generation`].
pub fn extract_matched_action(ollama_response: &str) -> (r: Result<String, PipelineError>)
    ensures
        match r {
            Ok(t) => t@.len() > 0 && is_chosen_phrase(ollama_response@, t@),
            Err(e) => {
                &&& e.kind == ErrorKind::Generation
                &&& if is_blank(ollama_response@) {
                    e.message@ == "Empty response"@
                } else {
                    &&& e.message@ == "Empty extracted response"@
                    &&& is_chosen_phrase(ollama_response@, Seq::empty())
                }
            },
        },
{
    let v = to_chars(ollama_response);
    let ghost s = ollama_response@;
    let n: usize = v.len();
    let mut k: usize = n;
    while k > 0 && char_is_whitespace(v[k - 1])
        invariant
            v@ == s,
            n == v.len(),
            k <= n,
            forall|j: int| k <= j < n ==> is_whitespace(#[trigger] s[j]),
        decreases k,
    {
        k -= 1;
    }
    if k == 0 {
        return Err(PipelineError::new(ErrorKind::Generation, "Empty response"));
    }
    let mut a: usize = k - 1;
    while a > 0 && v[a - 1] != '\n'
        invariant
            v@ == s,
            a < k <= n,
            n == v.len(),
            forall|j: int| a <= j < k ==> #[trigger] s[j] != '\n' || j == k - 1,
        decreases a,
    {
        a -= 1;
    }
    let mut b: usize = k - 1;
    while b < n && v[b] != '\n'
        invariant
            v@ == s,
            a < k <= n,
            k - 1 <= b <= n,
            n == v.len(),
            forall|j: int| a <= j < b ==> #[trigger] s[j] != '\n',
        decreases n - b,
    {
        b += 1;
    }
    proof {
        assert(!is_whitespace(s[k - 1]));
        assert(b >= k);
        assert(s.subrange(a as int, b as int)[k - 1 - a] == s[k - 1]);
        assert(is_last_nonblank_line(s, a as int, b as int));
        assert(!is_blank(s)) by {
            assert(!is_whitespace(s[k - 1]));
        }
    }
    let (a1, b1) = strip_bounds(&v, a, b, Strip::Whitespace);
    let (a2, b2) = strip_bounds(&v, a1, b1, Strip::Char('"'));
    let (a3, b3) = strip_bounds(&v, a2, b2, Strip::Char('\''));
    if a3 == b3 {
        assert(v@.subrange(a3 as int, b3 as int) =~= Seq::<char>::empty());
        return Err(PipelineError::new(ErrorKind::Generation, "Empty extracted response"));
    }
    Ok(from_chars(&v, a3, b3))
}

} // verus!
