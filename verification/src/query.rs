use vstd::prelude::*;
use vstd::utf8::{decode_utf8, valid_utf8};

use crate::buffer::{cstr_from_buf, c_text, lossy_utf8, INITIAL_BUF_SIZE, MAX_BUF_SIZE};
use crate::error::Error;

verus! {

broadcast use vstd::string::group_string_axioms;

/// `libc::ERANGE`, the code by which the library reports that a buffer was
/// too small. libc defines it as 34 on Linux, Android, macOS and Windows,
/// the targets this crate is built for; the claim is made for those.
#[verifier::external_body]
fn range_error_code() -> (code: i32)
    ensures
        code == 34,
{
    libc::ERANGE
}

/// The return code that asks for a larger buffer.
pub open spec fn range_error() -> i32 {
    34
}

/// The buffer size offered at the `k`-th attempt of a JSON query (counting
/// from 0): 4 KiB doubled `k` times.
pub open spec fn retry_size(k: nat) -> nat
    decreases k,
{
    if k == 0 {
        INITIAL_BUF_SIZE as nat
    } else {
        2 * retry_size((k - 1) as nat)
    }
}

/// The number of retries after which the buffer has reached its largest size.
pub open spec fn last_round() -> nat {
    8
}

/// What to do after one call of a JSON query.
pub enum JsonStep {
    /// The call succeeded; this is the JSON text.
    Complete(String),
    /// The buffer was too small: call again with a fresh buffer.
    Retry,
    /// The buffer cannot grow further: the query ends with this error.
    Abandon(Error),
    /// The call failed: the query ends with the library's last error message,
    /// or with this error where the library has none.
    Failed(Error),
}

/// A query whose JSON answer the library writes into a caller-provided
/// buffer. It starts with a 4 KiB buffer and doubles it each time the
/// library answers that it was too small, up to 1 MiB.
pub struct JsonQuery {
    size: usize,
    round: Ghost<nat>,
}

impl JsonQuery {
    #[verifier::type_invariant]
    spec fn inv(self) -> bool {
        &&& self.round@ <= last_round()
        &&& self.size == retry_size(self.round@)
    }

    /// The size of the buffer that the next call is offered.
    pub closed spec fn buffer_len(self) -> nat {
        self.size as nat
    }

    /// How many times the buffer has been doubled so far.
    pub closed spec fn rounds(self) -> nat {
        self.round@
    }

    /// A query that has made no call yet.
    pub fn new() -> (q: JsonQuery)
        ensures
            q.rounds() == 0,
            q.buffer_len() == INITIAL_BUF_SIZE,
            q.buffer_len() == 4096,
    {
        JsonQuery { size: INITIAL_BUF_SIZE, round: Ghost(0) }
    }

    /// The size of the buffer that the next call is offered.
    pub fn buffer_size(&self) -> (n: usize)
        ensures
            n == self.buffer_len(),
            n == retry_size(self.rounds()),
            self.rounds() <= last_round(),
    {
        proof {
            use_type_invariant(self);
        }
        self.size
    }

    /// The buffer length as the `int` argument of the call.
    pub fn capacity(&self) -> (n: i32)
        ensures
            n == self.buffer_len(),
    {
        proof {
            use_type_invariant(self);
            lemma_retry_size_bound(self.round@);
        }
        self.size as i32
    }

    /// A fresh zeroed buffer of the current size.
    pub fn buffer(&self) -> (buf: Vec<u8>)
        ensures
            buf@.len() == self.buffer_len(),
            forall|i: int| 0 <= i < buf@.len() ==> buf@[i] == 0u8,
    {
        let n = self.buffer_size();
        let mut buf: Vec<u8> = Vec::new();
        while buf.len() < n
            invariant
                buf@.len() <= n,
                forall|i: int| 0 <= i < buf@.len() ==> buf@[i] == 0u8,
            decreases n - buf@.len(),
        {
            buf.push(0u8);
        }
        buf
    }

    /// Decides what follows a call that returned `rc` after writing into `buf`.
    pub fn step(&mut self, rc: i32, buf: &[u8]) -> (next: JsonStep)
        ensures
            rc == 0 ==> (next matches JsonStep::Complete(t) && t@ == lossy_utf8(c_text(buf@)) && (
            valid_utf8(c_text(buf@)) ==> t@ == decode_utf8(c_text(buf@)))),
            rc == range_error() && 2 * old(self).buffer_len() <= MAX_BUF_SIZE ==> {
                &&& next is Retry
                &&& final(self).buffer_len() == 2 * old(self).buffer_len()
                &&& final(self).rounds() == old(self).rounds() + 1
            },
            rc == range_error() && 2 * old(self).buffer_len() > MAX_BUF_SIZE ==> next
                == JsonStep::Abandon(Error::BufferTooSmall),
            rc != 0 && rc != range_error() ==> (next matches JsonStep::Failed(e) && e
                matches Error::Ffi(m) && m@ == "unknown error"@),
            !(next is Retry) ==> *final(self) == *old(self),
            rc == 34 && old(self).buffer_len() <= 524288 ==> (next is Retry
                && final(self).buffer_len() == 2 * old(self).buffer_len()),
            rc == 34 && old(self).buffer_len() > 524288 ==> (next matches JsonStep::Abandon(e)
                && e is BufferTooSmall),
            rc != 0 && rc != 34 ==> next is Failed,
    {
        proof {
            use_type_invariant(&*self);
            lemma_retry_size_bound(self.round@);
        }
        if rc == 0 {
            return JsonStep::Complete(cstr_from_buf(buf));
        }
        if rc == range_error_code() {
            let doubled = self.size * 2;
            if doubled > MAX_BUF_SIZE {
                return JsonStep::Abandon(Error::BufferTooSmall);
            }
            proof {
                lemma_retry_size_bound(self.round@);
                if self.round@ >= last_round() {
                    lemma_retry_size_monotone(last_round(), self.round@);
                }
            }
            let next_round: Ghost<nat> = Ghost(self.round@ + 1);
            *self = JsonQuery { size: doubled, round: next_round };
            return JsonStep::Retry;
        }
        JsonStep::Failed(Error::Ffi("unknown error".to_string()))
    }
}

/// The buffer stays within 1 MiB exactly for the first nine attempts.
pub proof fn lemma_retry_size_bound(k: nat)
    ensures
        retry_size(k) >= INITIAL_BUF_SIZE,
        k <= last_round() <==> retry_size(k) <= MAX_BUF_SIZE,
        k == last_round() ==> retry_size(k) == MAX_BUF_SIZE,
    decreases k,
{
    reveal_with_fuel(retry_size, 9);
    if k > last_round() {
        lemma_retry_size_monotone(last_round() + 1, k);
    }
    if k > 0 {
        lemma_retry_size_bound((k - 1) as nat);
    }
}

/// A JSON query offers at most nine buffers: after the buffer has been
/// doubled eight times (to 1 MiB) the next too-small answer ends the query,
/// and before that every too-small answer leads to a larger buffer.
pub proof fn lemma_ninth_attempt_is_last(k: nat)
    requires
        k <= last_round(),
    ensures
        2 * retry_size(k) > MAX_BUF_SIZE <==> k == last_round(),
{
    lemma_retry_size_bound(k);
    lemma_retry_size_bound(k + 1);
}

/// Buffer sizes grow with the number of attempts.
pub proof fn lemma_retry_size_monotone(j: nat, k: nat)
    requires
        j <= k,
    ensures
        retry_size(j) <= retry_size(k),
    decreases k,
{
    if j < k {
        lemma_retry_size_monotone(j, (k - 1) as nat);
    }
}

} // verus!
