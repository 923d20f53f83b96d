//! JSON values and the extraction of a JSON document from free text.

use crate::models::{ErrorKind, PipelineError};
use crate::text::{char_is_whitespace, from_chars, is_whitespace, same_text, to_chars};
use vstd::prelude::*;
use vstd::string::StringExecFns;

verus! {

/// The number type of `serde_json`, carried through unread.
#[verifier::external_type_specification]
#[verifier::external_body]
pub struct ExNumber(serde_json::Number);

/// The value type of `serde_json`, as its parser returns it.
#[verifier::external_type_specification]
#[verifier::external_body]
pub struct ExValue(serde_json::Value);

/// The error type of `serde_json`.
#[verifier::external_type_specification]
#[verifier::external_body]
pub struct ExJsonError(serde_json::Error);

/// A JSON value.
#[derive(Debug, PartialEq)]
pub enum JsonValue {
    Null,
    Bool(bool),
    Number(serde_json::Number),
    Str(String),
    Array(Vec<JsonValue>),
    Object(Vec<JsonMember>),
}

/// One member of a JSON object.
#[derive(Debug, PartialEq)]
pub struct JsonMember {
    pub key: String,
    pub value: JsonValue,
}

/// The mathematical content of a [`JsonValue`].
pub enum JsonModel {
    Null,
    Bool(bool),
    Number(serde_json::Number),
    Str(Seq<char>),
    Array(Seq<JsonModel>),
    Object(Seq<MemberModel>),
}

/// The mathematical content of a [`JsonMember`].
pub struct MemberModel {
    pub key: Seq<char>,
    pub value: JsonModel,
}

impl View for JsonValue {
    type V = JsonModel;

    open spec fn view(&self) -> JsonModel
        decreases self,
    {
        match self {
            JsonValue::Null => JsonModel::Null,
            JsonValue::Bool(b) => JsonModel::Bool(*b),
            JsonValue::Number(n) => JsonModel::Number(*n),
            JsonValue::Str(s) => JsonModel::Str(s@),
            JsonValue::Array(items) => JsonModel::Array(
                Seq::new(
                    items@.len(),
                    |i: int|
                        if 0 <= i < items@.len() {
                            items@[i].view()
                        } else {
                            JsonModel::Null
                        },
                ),
            ),
            JsonValue::Object(entries) => JsonModel::Object(
                Seq::new(
                    entries@.len(),
                    |i: int|
                        if 0 <= i < entries@.len() {
                            MemberModel { key: entries@[i].key@, value: entries@[i].value.view() }
                        } else {
                            MemberModel { key: Seq::empty(), value: JsonModel::Null }
                        },
                ),
            ),
        }
    }
}

/// What `serde_json::from_str` makes of a text: the value that the text
/// denotes, or `None` where the text is not one JSON document.
pub uninterp spec fn parsed_json(text: Seq<char>) -> Option<JsonModel>;

/// The compact JSON text that `serde_json` writes for a value of its own
/// that holds `content`.
pub uninterp spec fn written_json(content: JsonModel) -> Seq<char>;

/// The indented JSON text that `serde_json` writes for a value of its own
/// that holds `content`.
pub uninterp spec fn pretty_written_json(content: JsonModel) -> Seq<char>;

/// What a value of `serde_json` holds that was made from `value`: the same
/// values, with the members of each object as `serde_json` keeps them, in
/// its order and one for each name.
pub uninterp spec fn serde_order(value: JsonModel) -> JsonModel;

/// The compact JSON text of `value`.
pub open spec fn rendered_json(value: JsonModel) -> Seq<char> {
    written_json(serde_order(value))
}

/// The indented JSON text of `value`.
pub open spec fn pretty_json(value: JsonModel) -> Seq<char> {
    pretty_written_json(serde_order(value))
}

/// What a value of `serde_json` holds.
pub uninterp spec fn content_of(value: serde_json::Value) -> JsonModel;

/// Moves a value of `serde_json` into a [`JsonValue`], variant by variant:
/// the result holds what the value holds. The members of an object come in
/// the order in which `serde_json` holds them.
#[verifier::external_body]
fn from_serde(value: serde_json::Value) -> (r: JsonValue)
    ensures
        r@ == content_of(value),
{
    match value {
        serde_json::Value::Null => JsonValue::Null,
        serde_json::Value::Bool(b) => JsonValue::Bool(b),
        serde_json::Value::Number(n) => JsonValue::Number(n),
        serde_json::Value::String(s) => JsonValue::Str(s),
        serde_json::Value::Array(a) => JsonValue::Array(a.into_iter().map(from_serde).collect()),
        serde_json::Value::Object(o) => JsonValue::Object(
            o.into_iter().map(|(key, v)| JsonMember { key, value: from_serde(v) }).collect(),
        ),
    }
}

/// Copies a [`JsonValue`] into a value of `serde_json`, variant by variant.
/// The members of an object are handed to `serde_json`'s map, which keeps
/// them in its own order and keeps one member for each name.
#[verifier::external_body]
fn to_serde(value: &JsonValue) -> (r: serde_json::Value)
    ensures
        content_of(r) == serde_order(value@),
{
    match value {
        JsonValue::Null => serde_json::Value::Null,
        JsonValue::Bool(b) => serde_json::Value::Bool(*b),
        JsonValue::Number(n) => serde_json::Value::Number(n.clone()),
        JsonValue::Str(s) => serde_json::Value::String(s.clone()),
        JsonValue::Array(a) => serde_json::Value::Array(a.iter().map(to_serde).collect()),
        JsonValue::Object(o) => serde_json::Value::Object(
            o.iter().map(|m| (m.key.clone(), to_serde(&m.value))).collect(),
        ),
    }
}

/// `serde_json::from_str` at the type `serde_json::Value`: succeeds exactly
/// on the texts that are one JSON document, and then returns the value that
/// the text denotes.
#[verifier::external_body]
fn parse_json(text: &str) -> (r: Result<serde_json::Value, serde_json::Error>)
    ensures
        r is Ok <==> parsed_json(text@) is Some,
        r matches Ok(v) ==> parsed_json(text@) == Some(content_of(v)),
{
    serde_json::from_str::<serde_json::Value>(text)
}

/// The `Display` text of a `serde_json::Error`. Nothing is claimed of it.
#[verifier::external_body]
fn describe_json_error(error: &serde_json::Error) -> String {
    error.to_string()
}

/// The `Display` text of a `serde_json::Value`: its compact JSON text.
#[verifier::external_body]
fn render_json(value: &serde_json::Value) -> (r: String)
    ensures
        r@ == written_json(content_of(*value)),
{
    value.to_string()
}

/// The member of `entries` named `key` that comes first from index `i` on.
pub open spec fn member_from(entries: Seq<MemberModel>, key: Seq<char>, i: int) -> Option<
    JsonModel,
>
    decreases entries.len() - i,
{
    if i < 0 || i >= entries.len() {
        None
    } else if entries[i].key == key {
        Some(entries[i].value)
    } else {
        member_from(entries, key, i + 1)
    }
}

impl JsonModel {
    /// The member named `key` of an object; `None` for any other value and
    /// for an object without such a member.
    pub open spec fn member(self, key: Seq<char>) -> Option<JsonModel> {
        match self {
            JsonModel::Object(entries) => member_from(entries, key, 0),
            _ => None,
        }
    }

    /// The elements of an array; `None` for any other value.
    pub open spec fn items(self) -> Option<Seq<JsonModel>> {
        match self {
            JsonModel::Array(items) => Some(items),
            _ => None,
        }
    }

    /// The members of an object, in order; `None` for any other value.
    pub open spec fn entries(self) -> Option<Seq<MemberModel>> {
        match self {
            JsonModel::Object(entries) => Some(entries),
            _ => None,
        }
    }
}

/// The contents of a list of values.
pub open spec fn models_of(items: Seq<JsonValue>) -> Seq<JsonModel> {
    Seq::new(items.len(), |i: int| items[i]@)
}

/// The contents of a list of named values.
pub open spec fn entry_models_of(entries: Seq<JsonMember>) -> Seq<MemberModel> {
    Seq::new(entries.len(), |i: int| MemberModel { key: entries[i].key@, value: entries[i].value@ })
}

/// The member named `key` among `entries`, or `None` where there is none.
pub fn find_member<'a>(entries: &'a Vec<JsonMember>, key: &str) -> (r: Option<
    &'a JsonValue,
>)
    ensures
        match r {
            Some(v) => member_from(entry_models_of(entries@), key@, 0) == Some(v@),
            None => member_from(entry_models_of(entries@), key@, 0) is None,
        },
{
    let ghost models = entry_models_of(entries@);
    let mut i: usize = 0;
    while i < entries.len()
        invariant
            i <= entries.len(),
            models == entry_models_of(entries@),
            member_from(models, key@, 0) == member_from(models, key@, i as int),
        decreases entries.len() - i,
    {
        if same_text(entries[i].key.as_str(), key) {
            return Some(&entries[i].value);
        }
        i += 1;
    }
    None
}

/// `serde_json::to_string_pretty` on a `serde_json::Value`: where it
/// succeeds, the text is the indented JSON text of the value.
#[verifier::external_body]
fn render_json_pretty(value: &serde_json::Value) -> (r: Result<String, serde_json::Error>)
    ensures
        r matches Ok(text) ==> text@ == pretty_written_json(content_of(*value)),
{
    serde_json::to_string_pretty(value)
}

impl JsonValue {
    /// The value that the JSON text `text` denotes. A text that is not one
    /// JSON document is an error of class [`ErrorKind::Extraction`] with the
    /// parser's words.
    pub fn parse(text: &str) -> (r: Result<JsonValue, PipelineError>)
        ensures
            match r {
                Ok(value) => parsed_json(text@) == Some(value@),
                Err(e) => parsed_json(text@) is None && e.kind == ErrorKind::Extraction,
            },
    {
        match parse_json(text) {
            Ok(value) => Ok(from_serde(value)),
            Err(error) => Err(
                PipelineError {
                    kind: ErrorKind::Extraction,
                    message: describe_json_error(&error),
                },
            ),
        }
    }

    /// The indented JSON text of the value. A failure of the writer is an
    /// error of class [`ErrorKind::Extraction`] with the writer's words.
    pub fn to_string_pretty(&self) -> (r: Result<String, PipelineError>)
        ensures
            match r {
                Ok(text) => text@ == pretty_json(self@),
                Err(e) => e.kind == ErrorKind::Extraction,
            },
    {
        let value = to_serde(self);
        match render_json_pretty(&value) {
            Ok(text) => Ok(text),
            Err(error) => Err(
                PipelineError {
                    kind: ErrorKind::Extraction,
                    message: describe_json_error(&error),
                },
            ),
        }
    }

    /// The member named `key`, where the value is an object that has one.
    pub fn get<'a>(&'a self, key: &str) -> (r: Option<&'a JsonValue>)
        ensures
            match r {
                Some(v) => self@.member(key@) == Some(v@),
                None => self@.member(key@) is None,
            },
    {
        match self {
            JsonValue::Object(entries) => {
                assert(self@.entries().unwrap() =~= entry_models_of(entries@));
                find_member(entries, key)
            },
            _ => None,
        }
    }

    /// The elements of the value, where it is an array.
    pub fn as_array<'a>(&'a self) -> (r: Option<&'a Vec<JsonValue>>)
        ensures
            match r {
                Some(items) => self@.items() == Some(models_of(items@)),
                None => self@.items() is None,
            },
    {
        match self {
            JsonValue::Array(items) => {
                assert(self@.items().unwrap() =~= models_of(items@));
                Some(items)
            },
            _ => None,
        }
    }

    /// The members of the value, where it is an object.
    pub fn as_object<'a>(&'a self) -> (r: Option<&'a Vec<JsonMember>>)
        ensures
            match r {
                Some(entries) => self@.entries() == Some(entry_models_of(entries@)),
                None => self@.entries() is None,
            },
    {
        match self {
            JsonValue::Object(entries) => {
                assert(self@.entries().unwrap() =~= entry_models_of(entries@));
                Some(entries)
            },
            _ => None,
        }
    }

    /// The compact JSON text of the value.
    pub fn to_string(&self) -> (r: String)
        ensures
            r@ == rendered_json(self@),
    {
        let value = to_serde(self);
        render_json(&value)
    }
}

/// `s[a..b]` is the JSON candidate of `s`: it runs from the first `{` of the
/// text to its last `}`.
pub open spec fn is_json_span(s: Seq<char>, a: int, b: int) -> bool {
    &&& 0 <= a
    &&& a + 2 <= b <= s.len()
    &&& s[a] == '{'
    &&& s[b - 1] == '}'
    &&& forall|k: int| 0 <= k < a ==> #[trigger] s[k] != '{'
    &&& forall|k: int| b <= k < s.len() ==> #[trigger] s[k] != '}'
}

/// `s` holds a JSON candidate.
pub open spec fn has_json_span(s: Seq<char>) -> bool {
    exists|a: int, b: int| is_json_span(s, a, b)
}

/// A text has at most one JSON candidate.
pub proof fn lemma_json_span_unique(s: Seq<char>, a: int, b: int, c: int, d: int)
    requires
        is_json_span(s, a, b),
        is_json_span(s, c, d),
    ensures
        a == c,
        b == d,
{
    if a < c {
        assert(s[a] == '{');
    }
    if c < a {
        assert(s[c] == '{');
    }
    if b < d {
        assert(s[d - 1] == '}');
    }
    if d < b {
        assert(s[b - 1] == '}');
    }
}

/// The bounds of the JSON candidate of `v`, if it has one.
pub fn find_json_span(v: &Vec<char>) -> (r: Option<(usize, usize)>)
    ensures
        match r {
            Some((a, b)) => is_json_span(v@, a as int, b as int),
            None => !has_json_span(v@),
        },
{
    let n: usize = v.len();
    let mut a: usize = 0;
    while a < n && v[a] != '{'
        invariant
            n == v.len(),
            a <= n,
            forall|k: int| 0 <= k < a ==> #[trigger] v@[k] != '{',
        decreases n - a,
    {
        a += 1;
    }
    let mut b: usize = n;
    while b > 0 && v[b - 1] != '}'
        invariant
            n == v.len(),
            b <= n,
            forall|k: int| b <= k < n ==> #[trigger] v@[k] != '}',
        decreases b,
    {
        b -= 1;
    }
    if a < n && b > 0 && a < b - 1 {
        Some((a, b))
    } else {
        proof {
            assert forall|c: int, d: int| !is_json_span(v@, c, d) by {
                if is_json_span(v@, c, d) {
                    assert(v@[c] == '{');
                    assert(v@[d - 1] == '}');
                    assert(c >= a);
                    assert(d <= b);
                }
            }
        }
        None
    }
}

/// `c` closes an object or an array.
pub open spec fn is_closer(c: char) -> bool {
    c == '}' || c == ']'
}

/// From index `i` on, `s` holds only white space and commas up to a closing
/// brace or bracket.
pub open spec fn closes(s: Seq<char>, i: int) -> bool
    decreases s.len() - i,
{
    if i < 0 || i >= s.len() {
        false
    } else if is_closer(s[i]) {
        true
    } else if s[i] == ',' || is_whitespace(s[i]) {
        closes(s, i + 1)
    } else {
        false
    }
}

/// The character at index `i` of `s` is a trailing comma: a comma with
/// nothing but white space and commas between it and a closing brace or bracket.
pub open spec fn is_trailing_comma(s: Seq<char>, i: int) -> bool {
    0 <= i < s.len() && s[i] == ',' && closes(s, i + 1)
}

/// `s[i..]` without its trailing commas.
pub open spec fn without_trailing_commas_from(s: Seq<char>, i: int) -> Seq<char>
    decreases s.len() - i,
{
    if i < 0 || i >= s.len() {
        Seq::empty()
    } else if is_trailing_comma(s, i) {
        without_trailing_commas_from(s, i + 1)
    } else {
        seq![s[i]] + without_trailing_commas_from(s, i + 1)
    }
}

/// `s` without its trailing commas.
pub open spec fn without_trailing_commas(s: Seq<char>) -> Seq<char> {
    without_trailing_commas_from(s, 0)
}

/// `s` has no trailing comma.
pub open spec fn has_no_trailing_comma(s: Seq<char>) -> bool {
    forall|i: int| !is_trailing_comma(s, i)
}

proof fn lemma_closes_shift(c: char, t: Seq<char>, j: int)
    requires
        0 <= j,
    ensures
        closes(seq![c] + t, j + 1) == closes(t, j),
    decreases t.len() - j,
{
    let u = seq![c] + t;
    if j < t.len() {
        assert(u[j + 1] == t[j]);
        if !is_closer(t[j]) && (t[j] == ',' || is_whitespace(t[j])) {
            lemma_closes_shift(c, t, j + 1);
        }
    }
}

proof fn lemma_without_shift(c: char, t: Seq<char>, j: int)
    requires
        0 <= j,
    ensures
        without_trailing_commas_from(seq![c] + t, j + 1) == without_trailing_commas_from(t, j),
    decreases t.len() - j,
{
    let u = seq![c] + t;
    if j < t.len() {
        assert(u[j + 1] == t[j]);
        lemma_closes_shift(c, t, j + 1);
        lemma_without_shift(c, t, j + 1);
    }
}

proof fn lemma_closes_kept(s: Seq<char>, i: int)
    requires
        0 <= i,
    ensures
        closes(without_trailing_commas_from(s, i), 0) == closes(s, i),
    decreases s.len() - i,
{
    if i < s.len() {
        lemma_closes_kept(s, i + 1);
        let rest = without_trailing_commas_from(s, i + 1);
        if !is_trailing_comma(s, i) {
            let t = seq![s[i]] + rest;
            assert(t[0] == s[i]);
            lemma_closes_shift(s[i], rest, 0);
        }
    }
}

proof fn lemma_without_idempotent_from(s: Seq<char>, i: int)
    requires
        0 <= i,
    ensures
        without_trailing_commas(without_trailing_commas_from(s, i)) == without_trailing_commas_from(
            s,
            i,
        ),
    decreases s.len() - i,
{
    if i < s.len() {
        lemma_without_idempotent_from(s, i + 1);
        let rest = without_trailing_commas_from(s, i + 1);
        if !is_trailing_comma(s, i) {
            let t = seq![s[i]] + rest;
            assert(t[0] == s[i]);
            lemma_closes_shift(s[i], rest, 0);
            lemma_closes_kept(s, i + 1);
            lemma_without_shift(s[i], rest, 0);
            assert(!is_trailing_comma(t, 0));
        }
    }
}

proof fn lemma_without_length(s: Seq<char>, i: int, k: int)
    requires
        0 <= i <= k,
    ensures
        without_trailing_commas_from(s, i).len() <= if i <= s.len() {
            s.len() - i
        } else {
            0
        },
        is_trailing_comma(s, k) ==> without_trailing_commas_from(s, i).len() < s.len() - i,
    decreases s.len() - i,
{
    if i < s.len() {
        if i < k {
            lemma_without_length(s, i + 1, k);
        } else {
            lemma_without_length(s, i + 1, k + 1);
        }
    }
}

proof fn lemma_without_unchanged_from(s: Seq<char>, i: int)
    requires
        0 <= i <= s.len(),
        has_no_trailing_comma(s),
    ensures
        without_trailing_commas_from(s, i) == s.subrange(i, s.len() as int),
    decreases s.len() - i,
{
    if i < s.len() {
        lemma_without_unchanged_from(s, i + 1);
        assert(!is_trailing_comma(s, i));
        assert(seq![s[i]] + s.subrange(i + 1, s.len() as int) =~= s.subrange(i, s.len() as int));
    } else {
        assert(s.subrange(i, s.len() as int) =~= Seq::<char>::empty());
    }
}

/// Removing the trailing commas a second time changes nothing.
pub proof fn lemma_without_trailing_commas_idempotent(s: Seq<char>)
    ensures
        without_trailing_commas(without_trailing_commas(s)) == without_trailing_commas(s),
{
    lemma_without_idempotent_from(s, 0);
}

/// A text without trailing commas is left as it is.
pub proof fn lemma_without_trailing_commas_unchanged(s: Seq<char>)
    requires
        has_no_trailing_comma(s),
    ensures
        without_trailing_commas(s) == s,
{
    lemma_without_unchanged_from(s, 0);
    assert(s.subrange(0, s.len() as int) =~= s);
}

/// No trailing comma is left behind.
pub proof fn lemma_without_trailing_commas_complete(s: Seq<char>)
    ensures
        has_no_trailing_comma(without_trailing_commas(s)),
{
    let t = without_trailing_commas(s);
    lemma_without_trailing_commas_idempotent(s);
    assert forall|k: int| !is_trailing_comma(t, k) by {
        if is_trailing_comma(t, k) {
            lemma_without_length(t, 0, k);
        }
    }
}

/// The characters of `v` without its trailing commas.
pub fn strip_trailing_commas(v: &Vec<char>) -> (r: Vec<char>)
    ensures
        r@ == without_trailing_commas(v@),
{
    let n: usize = v.len();
    let mut flags: Vec<bool> = Vec::new();
    flags.push(false);
    let mut i: usize = 0;
    while i < n
        invariant
            n == v.len(),
            i <= n,
            flags.len() == i + 1,
            forall|k: int| 0 <= k <= i ==> !#[trigger] flags@[k],
        decreases n - i,
    {
        flags.push(false);
        i += 1;
    }
    let mut j: usize = n;
    while j > 0
        invariant
            n == v.len(),
            flags.len() == n + 1,
            j <= n,
            forall|k: int| j <= k <= n ==> #[trigger] flags@[k] == closes(v@, k),
        decreases j,
    {
        j -= 1;
        let c = v[j];
        let f = if c == '}' || c == ']' {
            true
        } else if c == ',' || char_is_whitespace(c) {
            flags[j + 1]
        } else {
            false
        };
        flags.set(j, f);
    }
    let mut out: Vec<char> = Vec::new();
    let mut m: usize = 0;
    while m < n
        invariant
            n == v.len(),
            flags.len() == n + 1,
            m <= n,
            forall|k: int| 0 <= k <= n ==> #[trigger] flags@[k] == closes(v@, k),
            out@ + without_trailing_commas_from(v@, m as int) == without_trailing_commas(v@),
        decreases n - m,
    {
        if !(v[m] == ',' && flags[m + 1]) {
            out.push(v[m]);
            assert(out@ + without_trailing_commas_from(v@, m + 1) =~= (out@.drop_last() + (
                seq![v@[m as int]] + without_trailing_commas_from(v@, m + 1))));
        }
        m += 1;
    }
    assert(out@ + Seq::<char>::empty() =~= out@);
    out
}

/// Removes the commas of `json_str` that stand before a closing brace or
/// bracket, with nothing but white space and commas in between.
pub fn remove_trailing_commas(json_str: &str) -> (r: String)
    ensures
        r@ == without_trailing_commas(json_str@),
{
    let v = to_chars(json_str);
    let out = strip_trailing_commas(&v);
    assert(out@.subrange(0, out@.len() as int) == out@);
    from_chars(&out, 0, out.len())
}

/// The text of the error for an answer without a JSON candidate.
pub open spec fn no_json_message(raw: Seq<char>) -> Seq<char> {
    "No JSON structure found in response: "@ + raw
}

/// The text of the error for a candidate that is not JSON: it holds the
/// parser's own words, `reason`, and the candidate as it stood in the answer.
pub open spec fn parse_failure_message(reason: Seq<char>, candidate: Seq<char>) -> Seq<char> {
    "Failed to parse JSON: "@ + reason + ". Raw JSON: "@ + candidate
}

/// The error for a candidate that the parser refused with the words `reason`.
pub fn parse_failure(reason: &str, candidate: &str) -> (r: PipelineError)
    ensures
        r.kind == ErrorKind::Extraction,
        r.message@ == parse_failure_message(reason@, candidate@),
{
    let mut message = String::from_str("Failed to parse JSON: ");
    message.append(reason);
    message.append(". Raw JSON: ");
    message.append(candidate);
    PipelineError { kind: ErrorKind::Extraction, message }
}

/// `value` is what the answer `raw` holds: the parsed JSON candidate of the
/// answer, its trailing commas removed.
pub open spec fn extracts(raw: Seq<char>, value: JsonModel) -> bool {
    exists|a: int, b: int| #[trigger]
        is_json_span(raw, a, b) && parsed_json(without_trailing_commas(raw.subrange(a, b)))
            == Some(value)
}

/// No document can be read out of the answer `raw`, and `message` says why:
/// either the answer has no JSON candidate, or its candidate is not JSON.
pub open spec fn extraction_fails_with(raw: Seq<char>, message: Seq<char>) -> bool {
    if has_json_span(raw) {
        exists|a: int, b: int, reason: Seq<char>| #[trigger]
            is_json_span(raw, a, b) && parsed_json(without_trailing_commas(raw.subrange(a, b)))
                is None && message == #[trigger] parse_failure_message(reason, raw.subrange(a, b))
    } else {
        message == no_json_message(raw)
    }
}

/// Reads the JSON document out of the model's answer `raw_text`.
///
/// The candidate runs from the first `{` of the answer to its last `}`. Its
/// trailing commas are removed, and what is left is parsed. An answer without
/// a candidate, and a candidate that is not JSON, are errors of class
/// [`ErrorKind::Extraction`]; the first carries the answer, the second the
/// parser's words and the candidate.
pub fn sanitize_json(raw_text: &str) -> (r: Result<JsonValue, PipelineError>)
    ensures
        match r {
            Ok(v) => extracts(raw_text@, v@),
            Err(e) => e.kind == ErrorKind::Extraction && extraction_fails_with(raw_text@, e.message@),
        },
{
    let v = to_chars(raw_text);
    match find_json_span(&v) {
        None => {
            let mut message = String::from_str("No JSON structure found in response: ");
            message.append(raw_text);
            Err(PipelineError { kind: ErrorKind::Extraction, message })
        },
        Some((a, b)) => {
            let span = from_chars(&v, a, b);
            let cleaned = remove_trailing_commas(span.as_str());
            match JsonValue::parse(cleaned.as_str()) {
                Ok(value) => Ok(value),
                Err(refusal) => {
                    let failure = parse_failure(refusal.message.as_str(), span.as_str());
                    assert(is_json_span(raw_text@, a as int, b as int));
                    Err(failure)
                },
            }
        },
    }
}

} // verus!
