//! Owned, resizable buffers of token identifiers.

use vstd::prelude::*;

use crate::token::LToken;

verus! {

/// A block of text represented as an ordered, mutable list of token
/// identifiers.
///
/// The buffer discipline matters to callers: `resize` pads with the
/// placeholder identifier `0`, `clear` overwrites every element with the
/// placeholder while keeping the length, and `copy_trailing` only touches the
/// trailing elements — so a caller that would otherwise read stale leading
/// elements must `clear` first.
#[derive(Clone, Debug)]
pub struct LTokenSequence {
    tokens: Vec<i32>,
}

impl View for LTokenSequence {
    type V = Seq<i32>;

    closed spec fn view(&self) -> Seq<i32> {
        self.tokens@
    }
}

impl LTokenSequence {
    /// An empty sequence.
    pub fn new() -> (r: LTokenSequence)
        ensures
            r@ == Seq::<i32>::empty(),
    {
        LTokenSequence { tokens: Vec::new() }
    }

    /// The logical length: the size set by the last `resize`, plus pushes.
    pub fn len(&self) -> (r: usize)
        ensures
            r == self@.len(),
    {
        self.tokens.len()
    }

    /// True when the sequence holds no tokens.
    pub fn is_empty(&self) -> (r: bool)
        ensures
            r == (self@.len() == 0),
    {
        self.tokens.len() == 0
    }

    /// The identifier at position `index`.
    pub fn get(&self, index: usize) -> (r: i32)
        requires
            index < self@.len(),
        ensures
            r == self@[index as int],
    {
        self.tokens[index]
    }

    /// The token at position `index`.
    pub fn token_at(&self, index: usize) -> (r: LToken)
        requires
            index < self@.len(),
        ensures
            r == LToken(self@[index as int]),
    {
        LToken(self.tokens[index])
    }

    /// Overwrite the identifier at position `index`.
    pub fn set(&mut self, index: usize, id: i32)
        requires
            index < old(self)@.len(),
        ensures
            final(self)@ == old(self)@.update(index as int, id),
    {
        self.tokens.set(index, id);
    }

    /// Read access to the raw identifiers, for handing the buffer to the
    /// native layer.
    pub fn raw_tokens(&self) -> (r: &Vec<i32>)
        ensures
            r@ == self@,
    {
        &self.tokens
    }

    /// Set the length to `length`: a smaller length truncates to the first
    /// `length` elements, a larger one pads the tail with the placeholder
    /// identifier, and the surviving prefix is untouched either way.
    pub fn resize(&mut self, length: usize)
        ensures
            final(self)@.len() == length,
            forall|i: int|
                0 <= i < length && i < old(self)@.len() ==> final(self)@[i] == old(self)@[i],
            forall|i: int|
                old(self)@.len() <= i < length ==> final(self)@[i] == 0i32,
    {
        if self.tokens.len() > length {
            self.tokens.truncate(length);
        } else {
            while self.tokens.len() < length
                invariant
                    self.tokens@.len() <= length,
                    forall|i: int|
                        0 <= i < old(self).tokens@.len() ==> self.tokens@[i] == old(self).tokens@[i],
                    old(self).tokens@.len() <= self.tokens@.len(),
                    forall|i: int|
                        old(self).tokens@.len() <= i < self.tokens@.len() ==> self.tokens@[i]
                            == 0i32,
                decreases length - self.tokens@.len(),
            {
                self.tokens.push(LToken::default_token());
            }
        }
    }

    /// Append one token.
    pub fn push(&mut self, token: LToken)
        ensures
            final(self)@ == old(self)@.push(token.0),
    {
        self.tokens.push(token.0);
    }

    /// Overwrite every element with the placeholder identifier, keeping the
    /// length.
    pub fn clear(&mut self)
        ensures
            final(self)@.len() == old(self)@.len(),
            forall|i: int| 0 <= i < final(self)@.len() ==> final(self)@[i] == 0i32,
    {
        let n = self.tokens.len();
        let mut i: usize = 0;
        while i < n
            invariant
                n == self.tokens@.len(),
                i <= n,
                forall|j: int| 0 <= j < i ==> self.tokens@[j] == 0i32,
            decreases n - i,
        {
            self.tokens.set(i, 0);
            i += 1;
        }
    }

    /// How many elements `copy_trailing` moves: the smaller of the two
    /// lengths.
    pub open spec fn spec_trailing_count(dst: Seq<i32>, src: Seq<i32>) -> int {
        if dst.len() <= src.len() {
            dst.len() as int
        } else {
            src.len() as int
        }
    }

    /// What `copy_trailing` leaves behind: the prefix of `dst` untouched, the
    /// trailing `min(len(dst), len(src))` elements taken from the tail of
    /// `src`.
    pub open spec fn spec_copy_trailing(dst: Seq<i32>, src: Seq<i32>) -> Seq<i32> {
        let n = Self::spec_trailing_count(dst, src);
        dst.take(dst.len() - n) + src.skip(src.len() - n)
    }

    /// Overwrite the last `min(len(self), len(from))` elements of `self` with
    /// the last `min(len(self), len(from))` elements of `from`, leaving every
    /// earlier element of `self` untouched.
    pub fn copy_trailing(&mut self, from: &LTokenSequence)
        ensures
            final(self)@ == Self::spec_copy_trailing(old(self)@, from@),
            final(self)@.len() == old(self)@.len(),
    {
        let self_len = self.tokens.len();
        let from_len = from.len();
        let count = if self_len <= from_len {
            self_len
        } else {
            from_len
        };
        let self_base = self_len - count;
        let from_base = from_len - count;
        let mut i: usize = 0;
        while i < count
            invariant
                count == Self::spec_trailing_count(old(self)@, from@),
                self_len == old(self)@.len(),
                from_len == from@.len(),
                self_base + count == self_len,
                from_base + count == from_len,
                self.tokens@.len() == old(self)@.len(),
                i <= count,
                forall|j: int|
                    0 <= j < i ==> #[trigger] self.tokens@[self_base + j] == from@[from_base + j],
                forall|j: int|
                    0 <= j < self.tokens@.len() && !(self_base <= j < self_base + i)
                        ==> self.tokens@[j] == old(self)@[j],
            decreases count - i,
        {
            self.tokens.set(self_base + i, from.get(from_base + i));
            i += 1;
        }
        proof {
            let result = Self::spec_copy_trailing(old(self)@, from@);
            assert forall|k: int| 0 <= k < self.tokens@.len() implies self.tokens@[k] == result[k] by {
                if k < self_base {
                    assert(self.tokens@[k] == old(self)@[k]);
                } else {
                    assert(self.tokens@[self_base + (k - self_base)] == from@[from_base + (k
                        - self_base)]);
                }
            }
            assert(self.tokens@ =~= result);
        }
    }

    /// The law of `copy_trailing`, element by element: the last
    /// `min(len(dst), len(src))` elements of the result equal the last
    /// `min(len(dst), len(src))` elements of `src`, and every element before
    /// that boundary equals the one `dst` held.
    pub proof fn lemma_copy_trailing_elements(dst: Seq<i32>, src: Seq<i32>)
        ensures
            Self::spec_copy_trailing(dst, src).len() == dst.len(),
            forall|i: int|
                0 <= i < Self::spec_trailing_count(dst, src) ==> #[trigger] Self::spec_copy_trailing(
                    dst,
                    src,
                )[dst.len() - Self::spec_trailing_count(dst, src) + i] == src[src.len()
                    - Self::spec_trailing_count(dst, src) + i],
            forall|i: int|
                0 <= i < dst.len() - Self::spec_trailing_count(dst, src)
                    ==> #[trigger] Self::spec_copy_trailing(dst, src)[i] == dst[i],
    {
    }
}

} // verus!
