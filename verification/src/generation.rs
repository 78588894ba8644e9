//! The per-request generation session.
//!
//! A session is created after the composed prompt has been tokenized: it
//! fixes the budget of new tokens, then consumes one sampled token per
//! step.  An end-of-generation token finishes the session; otherwise the
//! token's bytes run through the incremental UTF-8 decoder, the completed
//! characters are appended to the output, and the position counter
//! advances for the next forward pass.  The session is done after at most
//! `max_new_tokens` steps, and the finished translation is the output
//! trimmed of surrounding whitespace.

use vstd::prelude::*;
use crate::TOKEN_WINDOW;
use crate::errors::TranslationError;
use crate::text::{spec_trim, string_from_chars, trim_chars};
use crate::utf8dec::{spec_feed, Utf8Decoder};

verus! {

/// What the model produced for one generation step: whether the sampled
/// token is an end-of-generation marker, and otherwise its raw bytes.
pub struct TokenOutput {
    pub eog: bool,
    pub bytes: Vec<u8>,
}

/// The characters a session emits when fed `replies` in order, starting
/// from decoder state `pending` with `budget` steps left.
pub open spec fn spec_gen_chars(pending: Seq<u8>, replies: Seq<TokenOutput>, budget: int) -> Seq<
    char,
>
    decreases replies.len(),
{
    if budget <= 0 || replies.len() == 0 {
        Seq::empty()
    } else if replies[0].eog {
        Seq::empty()
    } else {
        spec_feed(pending, replies[0].bytes@).1 + spec_gen_chars(
            spec_feed(pending, replies[0].bytes@).0,
            replies.drop_first(),
            budget - 1,
        )
    }
}

/// How many of the offered replies a session consumes before stopping.
pub open spec fn spec_gen_consumed(replies: Seq<TokenOutput>, budget: int) -> int
    decreases replies.len(),
{
    if budget <= 0 || replies.len() == 0 {
        0
    } else if replies[0].eog {
        1
    } else {
        1 + spec_gen_consumed(replies.drop_first(), budget - 1)
    }
}

/// The finished translation of a whole run: the emitted characters with
/// surrounding whitespace trimmed.
pub open spec fn spec_translation(prompt_tokens: int, replies: Seq<TokenOutput>) -> Seq<char> {
    spec_trim(spec_gen_chars(Seq::empty(), replies, TOKEN_WINDOW - prompt_tokens))
}

/// One in-flight generation session.
pub struct GenerationSession {
    /// Tokens of the prompt, including the beginning-of-sequence marker.
    pub prompt_tokens: usize,
    /// Budget of new tokens for this request.
    pub max_new_tokens: usize,
    /// Tokens sampled and fed back so far.
    pub produced: usize,
    /// Position of the next token in the context.
    pub next_pos: usize,
    /// Incremental decoder carrying bytes split across tokens.
    pub decoder: Utf8Decoder,
    /// Characters accumulated so far.
    pub output: Vec<char>,
    /// Whether generation has stopped.
    pub done: bool,
}

impl GenerationSession {
    /// The session's internal invariant.
    pub open spec fn wf(&self) -> bool {
        &&& self.prompt_tokens + self.max_new_tokens == TOKEN_WINDOW
        &&& self.produced <= self.max_new_tokens
        &&& self.next_pos == self.prompt_tokens + self.produced
        &&& self.decoder.wf()
        &&& (self.produced == self.max_new_tokens ==> self.done)
    }

    /// Opens a session for a prompt of `prompt_token_count` tokens.  A
    /// prompt that does not fit the token window is rejected; a prompt
    /// that exactly fills it leaves a budget of zero, which is not an
    /// error: the session is immediately done and translates to the empty
    /// string.
    pub fn new(prompt_token_count: usize) -> (r: Result<GenerationSession, TranslationError>)
        ensures
            r is Ok <==> prompt_token_count <= TOKEN_WINDOW,
            r matches Err(e) ==> e == (TranslationError::PromptTooLong {
                prompt_tokens: prompt_token_count,
            }),
            r matches Ok(s) ==> {
                &&& s.wf()
                &&& s.prompt_tokens == prompt_token_count
                &&& s.max_new_tokens == TOKEN_WINDOW - prompt_token_count
                &&& s.produced == 0
                &&& s.next_pos == prompt_token_count
                &&& s.decoder.pending() == Seq::<u8>::empty()
                &&& s.output@ == Seq::<char>::empty()
                &&& (s.done <==> prompt_token_count == TOKEN_WINDOW)
            },
    {
        if prompt_token_count > TOKEN_WINDOW {
            return Err(TranslationError::PromptTooLong { prompt_tokens: prompt_token_count });
        }
        let max_new = TOKEN_WINDOW - prompt_token_count;
        Ok(
            GenerationSession {
                prompt_tokens: prompt_token_count,
                max_new_tokens: max_new,
                produced: 0,
                next_pos: prompt_token_count,
                decoder: Utf8Decoder::new(),
                output: Vec::new(),
                done: max_new == 0,
            },
        )
    }

    /// Consumes one sampled token.  An end-of-generation token stops the
    /// session and contributes nothing; any other token's bytes run
    /// through the decoder and the completed characters join the output.
    /// Returns whether generation has stopped.
    pub fn step(&mut self, eog: bool, bytes: &[u8]) -> (finished: bool)
        requires
            old(self).wf(),
            !old(self).done,
        ensures
            final(self).wf(),
            finished == final(self).done,
            final(self).prompt_tokens == old(self).prompt_tokens,
            final(self).max_new_tokens == old(self).max_new_tokens,
            eog ==> {
                &&& final(self).done
                &&& final(self).produced == old(self).produced
                &&& final(self).next_pos == old(self).next_pos
                &&& final(self).output@ == old(self).output@
                &&& final(self).decoder.pending() == old(self).decoder.pending()
            },
            !eog ==> {
                &&& final(self).produced == old(self).produced + 1
                &&& final(self).next_pos == old(self).next_pos + 1
                &&& final(self).decoder.pending() == spec_feed(
                    old(self).decoder.pending(),
                    bytes@,
                ).0
                &&& final(self).output@ == old(self).output@ + spec_feed(
                    old(self).decoder.pending(),
                    bytes@,
                ).1
                &&& (final(self).done <==> old(self).produced + 1 == old(self).max_new_tokens)
            },
    {
        if eog {
            self.done = true;
            return true;
        }
        let mut chunk = self.decoder.feed(bytes);
        self.output.append(&mut chunk);
        self.produced += 1;
        self.next_pos += 1;
        if self.produced == self.max_new_tokens {
            self.done = true;
        }
        self.done
    }

    /// Finishes the session: the accumulated output trimmed of leading
    /// and trailing whitespace.
    pub fn finish(&self) -> (r: String)
        ensures
            r@ == spec_trim(self.output@),
    {
        let trimmed = trim_chars(&self.output);
        string_from_chars(&trimmed)
    }
}

/// Runs a whole session against a pre-listed sequence of model outputs,
/// one per step, in order.  Exactly mirrors driving [`GenerationSession`]
/// step by step and finishing it.
pub fn run_generation(prompt_token_count: usize, replies: &Vec<TokenOutput>) -> (r: Result<
    String,
    TranslationError,
>)
    ensures
        r is Ok <==> prompt_token_count <= TOKEN_WINDOW,
        r matches Err(e) ==> e == (TranslationError::PromptTooLong {
            prompt_tokens: prompt_token_count,
        }),
        r matches Ok(s) ==> s@ == spec_translation(prompt_token_count as int, replies@),
{
    let mut session = match GenerationSession::new(prompt_token_count) {
        Ok(s) => s,
        Err(e) => {
            return Err(e);
        },
    };
    let ghost budget: int = session.max_new_tokens as int;
    proof {
        assert(replies@.skip(0) =~= replies@);
        assert(Seq::<char>::empty() + spec_gen_chars(Seq::empty(), replies@, budget)
            =~= spec_gen_chars(Seq::empty(), replies@, budget));
        if session.done {
            assert(spec_gen_chars(Seq::empty(), replies@, budget) =~= Seq::<char>::empty());
        }
    }
    let n = replies.len();
    let mut i: usize = 0;
    while i < n && !session.done
        invariant
            n == replies@.len(),
            i <= n,
            session.wf(),
            session.prompt_tokens == prompt_token_count,
            session.max_new_tokens == TOKEN_WINDOW - prompt_token_count,
            budget == session.max_new_tokens as int,
            !session.done ==> spec_gen_chars(Seq::empty(), replies@, budget) == session.output@
                + spec_gen_chars(
                session.decoder.pending(),
                replies@.skip(i as int),
                budget - session.produced,
            ),
            session.done ==> spec_gen_chars(Seq::empty(), replies@, budget) == session.output@,
        decreases n - i,
    {
        let ghost pre = session;
        let ghost rest = replies@.skip(i as int);
        let reply = &replies[i];
        session.step(reply.eog, reply.bytes.as_slice());
        proof {
            let b = budget - pre.produced as int;
            assert(rest[0] == replies@[i as int]);
            assert(rest.drop_first() =~= replies@.skip(i + 1 as int));
            assert(b >= 1);
            if replies@[i as int].eog {
                assert(spec_gen_chars(pre.decoder.pending(), rest, b) =~= Seq::<char>::empty());
                assert(pre.output@ + Seq::<char>::empty() =~= pre.output@);
            } else {
                let fed = spec_feed(pre.decoder.pending(), replies@[i as int].bytes@);
                assert(spec_gen_chars(pre.decoder.pending(), rest, b) == fed.1 + spec_gen_chars(
                    fed.0,
                    rest.drop_first(),
                    b - 1,
                ));
                assert(pre.output@ + (fed.1 + spec_gen_chars(fed.0, rest.drop_first(), b - 1))
                    =~= (pre.output@ + fed.1) + spec_gen_chars(fed.0, rest.drop_first(), b - 1));
                if session.done {
                    assert(spec_gen_chars(fed.0, rest.drop_first(), 0) =~= Seq::<char>::empty());
                    assert((pre.output@ + fed.1) + Seq::<char>::empty() =~= pre.output@ + fed.1);
                }
            }
        }
        i += 1;
    }
    proof {
        if !session.done {
            assert(replies@.skip(i as int) =~= Seq::<TokenOutput>::empty());
        }
    }
    Ok(session.finish())
}

/// Law: generation is deterministic.  Greedy sampling makes the model's
/// reply sequence a function of the loaded model and the prompt alone, so
/// for a fixed prompt and fixed replies the finished translation is one
/// fixed character sequence — repeated calls return identical output.
pub proof fn lemma_generation_deterministic(
    prompt_tokens: int,
    r1: Seq<TokenOutput>,
    r2: Seq<TokenOutput>,
)
    requires
        r1 == r2,
    ensures
        spec_translation(prompt_tokens, r1) == spec_translation(prompt_tokens, r2),
{
}

/// Law: generation always terminates, and never exceeds its budget.  A
/// session consumes at most `budget` tokens — it stops at an
/// end-of-generation token or when the budget is exhausted — and a budget
/// of zero yields the empty output without error.
pub proof fn lemma_generation_terminates(replies: Seq<TokenOutput>, budget: int)
    requires
        budget >= 0,
    ensures
        0 <= spec_gen_consumed(replies, budget) <= budget,
        spec_gen_consumed(replies, budget) <= replies.len(),
        budget == 0 ==> spec_gen_chars(Seq::empty(), replies, budget) == Seq::<char>::empty(),
        budget == 0 ==> spec_translation(TOKEN_WINDOW as int, replies) == Seq::<char>::empty(),
    decreases replies.len(),
{
    if budget > 0 && replies.len() > 0 && !replies[0].eog {
        lemma_generation_terminates(replies.drop_first(), budget - 1);
    }
}

/// The bytes of a run of tokens, in order.
pub open spec fn concat_token_bytes(replies: Seq<TokenOutput>) -> Seq<u8>
    decreases replies.len(),
{
    if replies.len() == 0 {
        Seq::empty()
    } else {
        replies[0].bytes@ + concat_token_bytes(replies.drop_first())
    }
}

/// The characters a session emits for a run of non-terminal tokens depend
/// only on the concatenation of the tokens' bytes, not on where the token
/// boundaries fall.
pub proof fn lemma_token_boundaries_irrelevant(
    pending: Seq<u8>,
    replies: Seq<TokenOutput>,
    budget: int,
)
    requires
        replies.len() <= budget,
        forall|i: int| 0 <= i < replies.len() ==> !(#[trigger] replies[i]).eog,
    ensures
        spec_gen_chars(pending, replies, budget) == spec_feed(
            pending,
            concat_token_bytes(replies),
        ).1,
    decreases replies.len(),
{
    if replies.len() == 0 {
        assert(spec_feed(pending, Seq::empty()).1 =~= Seq::<char>::empty());
    } else {
        let head = replies[0].bytes@;
        let rest = concat_token_bytes(replies.drop_first());
        crate::utf8dec::lemma_spec_feed_concat(pending, head, rest);
        lemma_token_boundaries_irrelevant(
            spec_feed(pending, head).0,
            replies.drop_first(),
            budget - 1,
        );
    }
}

/// Law: multi-byte correctness.  When the bytes of a run of tokens form
/// a valid UTF-8 encoding — however its characters are split across the
/// tokens, including through the middle of a multi-byte character — the
/// session emits exactly the decoding of the whole byte stream: nothing
/// dropped, nothing garbled.
pub proof fn lemma_multibyte_across_tokens(replies: Seq<TokenOutput>, budget: int)
    requires
        replies.len() <= budget,
        forall|i: int| 0 <= i < replies.len() ==> !(#[trigger] replies[i]).eog,
        vstd::utf8::valid_utf8(concat_token_bytes(replies)),
    ensures
        spec_gen_chars(Seq::empty(), replies, budget) == vstd::utf8::decode_utf8(
            concat_token_bytes(replies),
        ),
{
    lemma_token_boundaries_irrelevant(Seq::empty(), replies, budget);
    crate::utf8dec::lemma_feed_valid_utf8(concat_token_bytes(replies));
}

} // verus!
