//! Finding the token in outgoing requests: which request qualifies, which
//! fragment of its form body names the token, and what value is kept.

use vstd::prelude::*;
use vstd::slice::slice_subrange;
use crate::outside::{lowercase, lowercase_of, percent_decode, percent_decoded, regex_is_match, regex_search};
use crate::text::{chars_of, chars_text_of, contains, contains_text, fields, first_index, lemma_fields_unfold, lemma_first_index, position_of, slice_text_of, string_of, text_of};

verus! {

/// One outgoing request as the browser announced it.
pub struct NetworkRequestEvent {
    pub url: String,
    pub body: Option<String>,
}

/// Where a captured token is kept during one attempt.
pub struct TokenSlot {
    pub value: Option<String>,
}

/// A piece of the host name that a qualifying request goes to.
pub open spec fn target_domain() -> Seq<char> {
    "growtopiagame.com"@
}

/// A piece of the path that a qualifying request goes to.
pub open spec fn target_path() -> Seq<char> {
    "login"@
}

/// The word that the key of the token's field holds.
pub open spec fn token_word() -> Seq<char> {
    "token"@
}

/// The regular expression that a body must match before its fields are read.
pub open spec fn token_pattern() -> Seq<char> {
    "(?i)token"@
}

/// The request goes to the target host and to its login path.
pub open spec fn url_qualifies(url: Seq<char>) -> bool {
    contains_text(url, target_domain()) && contains_text(url, target_path())
}

/// The body matches the token pattern.
pub open spec fn body_passes(body: Seq<char>) -> bool {
    regex_is_match(token_pattern(), body) == Some(true)
}

/// The key, in lower case, holds the token word.
pub open spec fn is_token_key(key: Seq<char>) -> bool {
    contains_text(lowercase_of(key), token_word())
}

/// The value that is kept for a raw one: percent-decoded where it holds a
/// percent sign and decodes, the raw value otherwise.
pub open spec fn settled_value(raw: Seq<char>) -> Seq<char> {
    if raw.contains('%') {
        match percent_decoded(raw) {
            Some(plain) => plain,
            None => raw,
        }
    } else {
        raw
    }
}

/// The key of a fragment: what stands before its first equals sign, and all
/// of it where it has none.
pub open spec fn key_of(fragment: Seq<char>) -> Seq<char> {
    fragment.take(first_index(fragment, '='))
}

/// The token that one fragment of a form body gives. The fragment must hold
/// an equals sign, and its key, which stands before the first one, must be a
/// token key. The raw value is everything behind that first equals sign,
/// further equals signs included.
pub open spec fn fragment_token(fragment: Seq<char>) -> Option<Seq<char>> {
    let cut = first_index(fragment, '=');
    if cut < fragment.len() && is_token_key(fragment.take(cut)) {
        Some(settled_value(fragment.skip(cut + 1)))
    } else {
        None
    }
}

/// The token of the first fragment that gives one.
pub open spec fn first_token(fragments: Seq<Seq<char>>) -> Option<Seq<char>>
    decreases fragments.len(),
{
    if fragments.len() == 0 {
        None
    } else {
        match fragment_token(fragments[0]) {
            Some(token) => Some(token),
            None => first_token(fragments.drop_first()),
        }
    }
}

/// The token that a form body gives: that of the first of its fragments, cut
/// at `&`, which gives one.
pub open spec fn params_token(params: Seq<char>) -> Option<Seq<char>> {
    first_token(fields(params, '&'))
}

/// The token that one request gives: none unless its address qualifies, it
/// has a body, and the body passes the pattern.
pub open spec fn event_token(url: Seq<char>, body: Option<Seq<char>>) -> Option<Seq<char>> {
    match body {
        Some(params) => if url_qualifies(url) && body_passes(params) {
            params_token(params)
        } else {
            None
        },
        None => None,
    }
}

/// What the slot holds after a request that gave `found`.
pub open spec fn slot_after(before: Option<Seq<char>>, found: Option<Seq<char>>) -> Option<
    Seq<char>,
> {
    match found {
        Some(token) => Some(token),
        None => before,
    }
}

impl NetworkRequestEvent {
    /// The token that this request gives.
    pub open spec fn token(&self) -> Option<Seq<char>> {
        event_token(self.url@, text_of(self.body))
    }
}

impl View for TokenSlot {
    type V = Option<Seq<char>>;

    open spec fn view(&self) -> Option<Seq<char>> {
        text_of(self.value)
    }
}

impl TokenSlot {
    /// An empty slot.
    pub fn new() -> (slot: TokenSlot)
        ensures
            slot@ is None,
    {
        TokenSlot { value: None }
    }

    /// Puts `token` into the slot, over whatever it held.
    pub fn store(&mut self, token: String)
        ensures
            final(self)@ == Some(token@),
    {
        self.value = Some(token);
    }

    /// A copy of what the slot holds.
    pub fn read(&self) -> (held: Option<String>)
        ensures
            held == self.value,
    {
        self.value.clone()
    }

    /// Reads one request and keeps its token where it gives one.
    pub fn observe(&mut self, event: &NetworkRequestEvent)
        ensures
            final(self)@ == slot_after(old(self)@, event.token()),
    {
        match &event.body {
            Some(params) => {
                match extract_token(event.url.as_str(), Some(params.as_str())) {
                    Some(token) => {
                        self.store(token);
                    },
                    None => {},
                }
            },
            None => {},
        }
    }
}

/// Whether the address holds the target host and the login path.
pub fn address_qualifies(url: &[char]) -> (fits: bool)
    ensures
        fits == url_qualifies(url@),
{
    let domain = chars_of("growtopiagame.com");
    let path = chars_of("login");
    contains(url, domain.as_slice()) && contains(url, path.as_slice())
}

/// Whether a key that was put into lower case holds the token word.
pub fn key_names_token(lowered_key: &[char]) -> (named: bool)
    ensures
        named == contains_text(lowered_key@, token_word()),
{
    let word = chars_of("token");
    contains(lowered_key, word.as_slice())
}

/// Whether `raw` holds a percent sign.
pub fn has_percent(raw: &[char]) -> (found: bool)
    ensures
        found == raw@.contains('%'),
{
    let at = position_of(raw, '%');
    proof {
        lemma_first_index(raw@, '%');
    }
    at < raw.len()
}

/// The value that is kept where decoding `raw` gave `decoded`: the decoded
/// text, or the raw one where decoding failed.
pub fn keep_value(raw: &[char], decoded: Option<Vec<char>>) -> (kept: Vec<char>)
    ensures
        kept@ == match decoded {
            Some(plain) => plain@,
            None => raw@,
        },
{
    match decoded {
        Some(plain) => plain,
        None => {
            let kept = vstd::slice::slice_to_vec(raw);
            kept
        },
    }
}

/// The value that is kept for `raw`.
pub fn settle_value(raw: &[char]) -> (kept: Vec<char>)
    ensures
        kept@ == settled_value(raw@),
{
    if has_percent(raw) {
        let decoded = percent_decode(raw);
        keep_value(raw, decoded)
    } else {
        keep_value(raw, None)
    }
}

/// The token that one fragment gives.
pub fn scan_fragment(fragment: &[char]) -> (token: Option<Vec<char>>)
    ensures
        chars_text_of(token) == fragment_token(fragment@),
{
    let eq = position_of(fragment, '=');
    if eq >= fragment.len() {
        return None;
    }
    let key = slice_subrange(fragment, 0, eq);
    let lowered = lowercase(key);
    if !key_names_token(lowered.as_slice()) {
        return None;
    }
    let raw = slice_subrange(fragment, eq + 1, fragment.len());
    Some(settle_value(raw))
}

/// The token that a form body gives.
pub fn scan_params(params: &[char]) -> (token: Option<Vec<char>>)
    ensures
        chars_text_of(token) == params_token(params@),
{
    let mut start: usize = 0;
    assert(params@.skip(0) =~= params@);
    loop
        invariant
            start <= params.len(),
            params_token(params@) == first_token(fields(params@.skip(start as int), '&')),
        decreases params.len() - start,
    {
        let rest = slice_subrange(params, start, params.len());
        let cut = position_of(rest, '&');
        let fragment = slice_subrange(rest, 0, cut);
        proof {
            lemma_fields_unfold(rest@, '&');
        }
        match scan_fragment(fragment) {
            Some(found) => {
                return Some(found);
            },
            None => {},
        }
        if cut >= rest.len() {
            assert(first_token(fields(rest@, '&').drop_first()) is None);
            return None;
        }
        proof {
            assert(rest@.skip(cut + 1) =~= params@.skip(start + cut + 1));
        }
        start = start + cut + 1;
    }
}

/// Whether a body whose pattern search gave `found` passes.
pub fn pattern_passed(found: Option<bool>) -> (passed: bool)
    ensures
        passed == (found == Some(true)),
{
    match found {
        Some(hit) => hit,
        None => false,
    }
}

/// The token that a request with this address and this body gives.
pub fn extract_token(url: &str, body: Option<&str>) -> (token: Option<String>)
    ensures
        text_of(token) == event_token(url@, slice_text_of(body)),
{
    let address = chars_of(url);
    if !address_qualifies(address.as_slice()) {
        return None;
    }
    match body {
        Some(params) => {
            if !pattern_passed(regex_search("(?i)token", params)) {
                return None;
            }
            let fields = chars_of(params);
            match scan_params(fields.as_slice()) {
                Some(found) => Some(string_of(found.as_slice())),
                None => None,
            }
        },
        None => None,
    }
}

/// A body that does not pass the pattern leaves the slot as it was, whatever
/// its fragments hold.
pub proof fn lemma_failed_pattern_keeps_slot(
    before: Option<Seq<char>>,
    url: Seq<char>,
    body: Seq<char>,
)
    requires
        !body_passes(body),
    ensures
        slot_after(before, event_token(url, Some(body))) == before,
{
}

/// Fragments of which none has a token key give no token.
pub proof fn lemma_no_token_key_gives_none(fragments: Seq<Seq<char>>)
    requires
        forall|i: int|
            0 <= i < fragments.len() ==> !is_token_key(#[trigger] key_of(fragments[i])),
    ensures
        first_token(fragments) is None,
    decreases fragments.len(),
{
    if fragments.len() > 0 {
        let rest = fragments.drop_first();
        assert forall|i: int| 0 <= i < rest.len() implies !is_token_key(
            #[trigger] key_of(rest[i]),
        ) by {
            assert(rest[i] == fragments[i + 1]);
        }
        assert(!is_token_key(key_of(fragments[0])));
        lemma_no_token_key_gives_none(rest);
    }
}

/// A body in which no fragment has a token key leaves the slot as it was.
pub proof fn lemma_body_without_token_key_keeps_slot(
    before: Option<Seq<char>>,
    url: Seq<char>,
    body: Seq<char>,
)
    requires
        forall|i: int|
            0 <= i < fields(body, '&').len() ==> !is_token_key(
                #[trigger] key_of(fields(body, '&')[i]),
            ),
    ensures
        slot_after(before, event_token(url, Some(body))) == before,
{
    lemma_no_token_key_gives_none(fields(body, '&'));
}

/// The first fragment that gives a token decides: where the fragment at
/// `at` gives one and none before it does, that token is the body's.
pub proof fn lemma_first_qualifying_fragment_wins(fragments: Seq<Seq<char>>, at: int)
    requires
        0 <= at < fragments.len(),
        fragment_token(fragments[at]) is Some,
        forall|j: int| 0 <= j < at ==> fragment_token(#[trigger] fragments[j]) is None,
    ensures
        first_token(fragments) == fragment_token(fragments[at]),
    decreases at,
{
    if at > 0 {
        let rest = fragments.drop_first();
        assert forall|j: int| 0 <= j < at - 1 implies fragment_token(#[trigger] rest[j]) is None by {
            assert(rest[j] == fragments[j + 1]);
        }
        assert(rest[at - 1] == fragments[at]);
        lemma_first_qualifying_fragment_wins(rest, at - 1);
    }
}

} // verus!
