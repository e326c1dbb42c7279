//! Chat requests, and the estimate of how many tokens one will cost.

use crate::text::{is_prefix_of, starts_with};
use vstd::prelude::*;

verus! {

/// Where an image is found.
#[derive(Clone, Debug)]
pub struct ImageUrl {
    pub url: String,
}

/// One part of a message that is made of parts.
#[derive(Clone, Debug)]
pub enum ContentItem {
    Text { text: String },
    Image { image_url: ImageUrl },
}

/// What a message says: plain text, or parts.
#[derive(Clone, Debug)]
pub enum MsgContent {
    String(String),
    Array(Vec<ContentItem>),
}

/// One message of a chat.
#[derive(Clone, Debug)]
pub struct Msg {
    pub role: String,
    pub content: MsgContent,
    pub name: Option<String>,
}

/// A chat request, as far as the estimate reads it.
#[derive(Clone, Debug)]
pub struct Req {
    pub model: String,
    pub messages: Vec<Msg>,
}

/// The tokens that an image is taken to cost.
pub const IMAGE_TOKENS: usize = 1024;

/// The characters with the Unicode property `White_Space`.
pub open spec fn is_space(c: char) -> bool {
    let u = c as u32;
    ||| 0x09 <= u <= 0x0d
    ||| u == 0x20
    ||| u == 0x85
    ||| u == 0xa0
    ||| u == 0x1680
    ||| 0x2000 <= u <= 0x200a
    ||| u == 0x2028
    ||| u == 0x2029
    ||| u == 0x202f
    ||| u == 0x205f
    ||| u == 0x3000
}

/// Whether a word starts at place `i` of `s`: a character that is no space
/// and follows a space or nothing.
pub open spec fn word_starts_at(s: Seq<char>, i: int) -> bool {
    0 <= i < s.len() && !is_space(s[i]) && (i == 0 || is_space(s[i - 1]))
}

/// The number of words in `s`: its maximal runs of characters that are no
/// spaces.
pub open spec fn word_count(s: Seq<char>) -> nat
    decreases s.len(),
{
    if s.len() == 0 {
        0
    } else {
        word_count(s.drop_last()) + if word_starts_at(s, s.len() - 1) {
            1nat
        } else {
            0nat
        }
    }
}

/// `n`, held at the largest `usize`.
pub open spec fn capped(n: nat) -> usize {
    if n > usize::MAX {
        usize::MAX
    } else {
        n as usize
    }
}

/// The estimate for a text of `words` words: a fifth more tokens than
/// words, and at least one.
pub open spec fn words_estimate(words: nat) -> nat {
    if words + words / 5 >= 1 {
        words + words / 5
    } else {
        1
    }
}

/// The estimate for a text.
pub open spec fn text_estimate(s: Seq<char>) -> nat {
    words_estimate(word_count(s))
}

/// The estimate for one part of a message.
pub open spec fn item_estimate(item: ContentItem) -> nat {
    match item {
        ContentItem::Text { text } => text_estimate(text@),
        ContentItem::Image { .. } => IMAGE_TOKENS as nat,
    }
}

/// The estimate for the parts of a message: the sum over the parts.
pub open spec fn items_estimate(items: Seq<ContentItem>) -> nat
    decreases items.len(),
{
    if items.len() == 0 {
        0
    } else {
        items_estimate(items.drop_last()) + item_estimate(items.last())
    }
}

/// The estimate for one message.
pub open spec fn msg_estimate(msg: Msg) -> nat {
    match msg.content {
        MsgContent::String(s) => text_estimate(s@),
        MsgContent::Array(items) => items_estimate(items@),
    }
}

/// The estimate for messages: the sum over the messages.
pub open spec fn msgs_estimate(msgs: Seq<Msg>) -> nat
    decreases msgs.len(),
{
    if msgs.len() == 0 {
        0
    } else {
        msgs_estimate(msgs.drop_last()) + msg_estimate(msgs.last())
    }
}

/// Whether `c` has the Unicode property `White_Space`, as
/// `char::is_whitespace` tells.
fn is_whitespace(c: char) -> (r: bool)
    ensures
        r == is_space(c),
{
    let u: u32 = c as u32;
    (0x09 <= u && u <= 0x0d) || u == 0x20 || u == 0x85 || u == 0xa0 || u == 0x1680 || (0x2000
        <= u && u <= 0x200a) || u == 0x2028 || u == 0x2029 || u == 0x202f || u == 0x205f || u
        == 0x3000
}

/// The number of words in `s`, held at the largest `usize`.
pub fn count_words(s: &str) -> (n: usize)
    ensures
        n == capped(word_count(s@)),
{
    let mut n: usize = 0;
    let mut after_space: bool = true;
    for c in it: s.chars()
        invariant
            it.seq() == s@,
            n == capped(word_count(s@.take(it.index()))),
            after_space == (it.index() == 0 || is_space(s@[it.index() - 1])),
    {
        assert(s@.take(it.index() + 1).drop_last() == s@.take(it.index()));
        let space: bool = is_whitespace(c);
        if !space && after_space {
            n = n.saturating_add(1);
        }
        after_space = space;
    }
    assert(s@.take(s@.len() as int) == s@);
    n
}

/// The estimate for a text, held at the largest `usize`.
pub fn estimate_text(s: &str) -> (n: usize)
    ensures
        n == capped(text_estimate(s@)),
{
    let words: usize = count_words(s);
    let n: usize = words.saturating_add(words / 5);
    if n >= 1 {
        n
    } else {
        1
    }
}

impl ContentItem {
    /// The estimate for this part, held at the largest `usize`.
    pub fn tokens_estimate(&self) -> (n: usize)
        ensures
            n == capped(item_estimate(*self)),
    {
        match self {
            ContentItem::Text { text } => estimate_text(text.as_str()),
            ContentItem::Image { .. } => IMAGE_TOKENS,
        }
    }
}

impl Msg {
    /// The estimate for this message, held at the largest `usize`.
    pub fn tokens_estimate(&self) -> (n: usize)
        ensures
            n == capped(msg_estimate(*self)),
    {
        match &self.content {
            MsgContent::String(content) => estimate_text(content.as_str()),
            MsgContent::Array(content) => {
                let mut n: usize = 0;
                let mut i: usize = 0;
                while i < content.len()
                    invariant
                        i <= content.len(),
                        n == capped(items_estimate(content@.take(i as int))),
                    decreases content.len() - i,
                {
                    assert(content@.take(i + 1).drop_last() == content@.take(i as int));
                    n = n.saturating_add(content[i].tokens_estimate());
                    i = i + 1;
                }
                assert(content@.take(content@.len() as int) == content@);
                n
            },
        }
    }
}

/// The texts among the parts of a message, in their order.
pub open spec fn texts_of(items: Seq<ContentItem>) -> Seq<Seq<char>>
    decreases items.len(),
{
    if items.len() == 0 {
        Seq::empty()
    } else {
        match items.last() {
            ContentItem::Text { text } => texts_of(items.drop_last()).push(text@),
            ContentItem::Image { .. } => texts_of(items.drop_last()),
        }
    }
}

/// The lines with a line feed between each two.
pub open spec fn join_lines(lines: Seq<Seq<char>>) -> Seq<char>
    decreases lines.len(),
{
    if lines.len() == 0 {
        Seq::empty()
    } else if lines.len() == 1 {
        lines[0]
    } else {
        join_lines(lines.drop_last()) + seq!['\n'] + lines.last()
    }
}

/// What a message says as one text: the plain text, or the texts among its
/// parts, one to a line.
pub open spec fn content_text(content: MsgContent) -> Seq<char> {
    match content {
        MsgContent::String(s) => s@,
        MsgContent::Array(items) => join_lines(texts_of(items@)),
    }
}

impl MsgContent {
    /// What the message says as one text; images are left out.
    pub fn to_string(&self) -> (out: String)
        ensures
            out@ == content_text(*self),
    {
        match self {
            MsgContent::String(content) => content.clone(),
            MsgContent::Array(content) => {
                let mut out = String::new();
                let mut any: bool = false;
                let mut i: usize = 0;
                while i < content.len()
                    invariant
                        i <= content.len(),
                        out@ == join_lines(texts_of(content@.take(i as int))),
                        any == (texts_of(content@.take(i as int)).len() > 0),
                    decreases content.len() - i,
                {
                    assert(content@.take(i + 1).drop_last() == content@.take(i as int));
                    match &content[i] {
                        ContentItem::Text { text } => {
                            proof {
                                let before = texts_of(content@.take(i as int));
                                assert(before.push(text@).drop_last() == before);
                                reveal_strlit("\n");
                                assert("\n"@ == seq!['\n']);
                                assert(Seq::<char>::empty() + text@ == text@);
                            }
                            if any {
                                out.append("\n");
                            }
                            out.append(text.as_str());
                            any = true;
                        },
                        ContentItem::Image { .. } => {},
                    }
                    i = i + 1;
                }
                assert(content@.take(content@.len() as int) == content@);
                out
            },
        }
    }
}

/// The number of tokens into which the encoding of `model` breaks `text`,
/// as the `tiktoken` crate counts them; `None` where the crate knows no
/// encoding for `model`.
pub uninterp spec fn model_tokens(model: Seq<char>, text: Seq<char>) -> Option<nat>;

/// `tiktoken::encoding_for_model`, and `CoreBpe::count` on the encoding it
/// finds: the number of tokens in `text` for `model`. The number depends on
/// the two texts alone, so it has a name.
#[verifier::external_body]
fn count_tokens(model: &str, text: &str) -> (r: Option<usize>)
    ensures
        r matches Some(n) ==> model_tokens(model@, text@) == Some(n as nat),
        r is None ==> model_tokens(model@, text@) is None,
{
    tiktoken::encoding_for_model(model).map(|encoding| encoding.count(text))
}

/// The sum of the three counts of one message, if all three are known.
pub open spec fn spec_sum_counts(role: Option<nat>, content: Option<nat>, name: Option<nat>)
    -> Option<nat> {
    match (role, content, name) {
        (Some(r), Some(c), Some(n)) => Some(r + c + n),
        _ => None,
    }
}

/// The tokens that the encoding of `model` counts in one message: in its
/// role, in what it says, and in its name where it has one.
pub open spec fn msg_tokens(model: Seq<char>, msg: Msg) -> Option<nat> {
    spec_sum_counts(
        model_tokens(model, msg.role@),
        model_tokens(model, content_text(msg.content)),
        match msg.name {
            Some(name) => model_tokens(model, name@),
            None => Some(0nat),
        },
    )
}

/// The tokens that the encoding of `model` counts in messages, if it counts
/// each of them.
pub open spec fn msgs_tokens(model: Seq<char>, msgs: Seq<Msg>) -> Option<nat>
    decreases msgs.len(),
{
    if msgs.len() == 0 {
        Some(0nat)
    } else {
        match (msgs_tokens(model, msgs.drop_last()), msg_tokens(model, msgs.last())) {
            (Some(a), Some(b)) => Some(a + b),
            _ => None,
        }
    }
}

/// The models that are counted by their encoding start with this.
pub open spec fn encoded_prefix() -> Seq<char> {
    "gpt-"@
}

/// The estimate that is taken: the count by the encoding where the model
/// asks for it and it is known, else the count by words.
pub open spec fn spec_pick_estimate(by_encoding: bool, tokens: Option<nat>, words: nat) -> nat {
    if by_encoding && tokens is Some {
        tokens->Some_0
    } else {
        words
    }
}

/// The estimate for a request.
pub open spec fn req_estimate(req: Req) -> nat {
    spec_pick_estimate(
        is_prefix_of(encoded_prefix(), req.model@),
        msgs_tokens(req.model@, req.messages@),
        msgs_estimate(req.messages@),
    )
}

/// A count as a natural number.
pub open spec fn known(a: Option<usize>) -> Option<nat> {
    match a {
        Some(n) => Some(n as nat),
        None => None,
    }
}

/// A count held at the largest `usize`.
pub open spec fn capped_opt(a: Option<nat>) -> Option<usize> {
    match a {
        Some(n) => Some(capped(n)),
        None => None,
    }
}

/// The sum of the three counts of one message, held at the largest `usize`,
/// if all three are known.
pub fn sum_counts(role: Option<usize>, content: Option<usize>, name: Option<usize>) -> (r:
    Option<usize>)
    ensures
        r == capped_opt(
            spec_sum_counts(
                known(role),
                known(content),
                known(name),
            ),
        ),
{
    match (role, content, name) {
        (Some(r), Some(c), Some(n)) => Some(r.saturating_add(c).saturating_add(n)),
        _ => None,
    }
}

/// The estimate that is taken: the count by the encoding where the model
/// asks for it and it is known, else the count by words.
pub fn pick_estimate(by_encoding: bool, tokens: Option<usize>, words: usize) -> (n: usize)
    ensures
        n == spec_pick_estimate(by_encoding, known(tokens), words as nat),
{
    match tokens {
        Some(t) => if by_encoding {
            t
        } else {
            words
        },
        None => words,
    }
}

impl Msg {
    /// The tokens that the encoding of `model` counts in this message, held
    /// at the largest `usize`; `None` where it counts none.
    pub fn tokens_counted(&self, model: &str) -> (r: Option<usize>)
        ensures
            r == capped_opt(msg_tokens(model@, *self)),
    {
        let role: Option<usize> = count_tokens(model, self.role.as_str());
        let text: String = self.content.to_string();
        let content: Option<usize> = count_tokens(model, text.as_str());
        let name: Option<usize> = match &self.name {
            Some(name) => count_tokens(model, name.as_str()),
            None => Some(0),
        };
        sum_counts(role, content, name)
    }
}

impl Req {
    /// The estimate by words, held at the largest `usize`.
    pub fn words_estimate(&self) -> (n: usize)
        ensures
            n == capped(msgs_estimate(self.messages@)),
    {
        let mut n: usize = 0;
        let mut i: usize = 0;
        while i < self.messages.len()
            invariant
                i <= self.messages.len(),
                n == capped(msgs_estimate(self.messages@.take(i as int))),
            decreases self.messages.len() - i,
        {
            assert(self.messages@.take(i + 1).drop_last() == self.messages@.take(i as int));
            n = n.saturating_add(self.messages[i].tokens_estimate());
            i = i + 1;
        }
        assert(self.messages@.take(self.messages@.len() as int) == self.messages@);
        n
    }

    /// The tokens that the encoding of the model counts in the messages,
    /// held at the largest `usize`; `None` where it does not count them all.
    pub fn tokens_counted(&self) -> (r: Option<usize>)
        ensures
            r == capped_opt(msgs_tokens(self.model@, self.messages@)),
    {
        let mut n: usize = 0;
        let mut i: usize = 0;
        while i < self.messages.len()
            invariant
                i <= self.messages.len(),
                Some(n) == capped_opt(msgs_tokens(self.model@, self.messages@.take(i as int))),
            decreases self.messages.len() - i,
        {
            assert(self.messages@.take(i + 1).drop_last() == self.messages@.take(i as int));
            match self.messages[i].tokens_counted(self.model.as_str()) {
                Some(m) => {
                    n = n.saturating_add(m);
                },
                None => {
                    proof {
                        lemma_tokens_unknown(self.model@, self.messages@, i as int);
                    }
                    return None;
                },
            }
            i = i + 1;
        }
        assert(self.messages@.take(self.messages@.len() as int) == self.messages@);
        Some(n)
    }

    /// The estimate for this request, held at the largest `usize`: for a
    /// model whose name starts with `gpt-` the tokens that its encoding
    /// counts, where it counts them all; else the count by words.
    pub fn tokens_estimate(&self) -> (n: usize)
        ensures
            n == capped(req_estimate(*self)),
    {
        if !starts_with(self.model.as_str(), "gpt-") {
            return self.words_estimate();
        }
        let tokens: Option<usize> = self.tokens_counted();
        match tokens {
            Some(t) => t,
            None => self.words_estimate(),
        }
    }
}

/// Where the encoding counts no tokens in message `i`, it counts none in
/// the messages as a whole.
pub proof fn lemma_tokens_unknown(model: Seq<char>, msgs: Seq<Msg>, i: int)
    requires
        0 <= i < msgs.len(),
        msg_tokens(model, msgs[i]) is None,
    ensures
        msgs_tokens(model, msgs) is None,
    decreases msgs.len(),
{
    if i < msgs.len() - 1 {
        lemma_tokens_unknown(model, msgs.drop_last(), i);
    }
}

} // verus!
