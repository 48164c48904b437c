use vstd::prelude::*;
use vstd::utf8::{decode_utf8, valid_utf8};


verus! {

broadcast use vstd::string::group_string_axioms;

/// Size of the buffer into which the library writes its last error message.
pub const ERROR_BUF_SIZE: usize = 512;

/// Size of the first buffer offered for a JSON response.
pub const INITIAL_BUF_SIZE: usize = 4096;

/// Largest buffer ever offered for a JSON response (1 MiB).
pub const MAX_BUF_SIZE: usize = 1048576;

/// `n` is the length of the text at the start of `buf`: no NUL byte comes
/// before it, and it ends at the first NUL byte or at the end of `buf`.
pub open spec fn text_len_is(buf: Seq<u8>, n: int) -> bool {
    &&& 0 <= n <= buf.len()
    &&& forall|i: int| 0 <= i < n ==> buf[i] != 0u8
    &&& (n == buf.len() || buf[n] == 0u8)
}

/// The bytes of `buf` before its first NUL byte (all of `buf` if it holds none).
pub open spec fn c_text(buf: Seq<u8>) -> Seq<u8> {
    buf.take(choose|n: int| text_len_is(buf, n))
}

/// The text at the start of `buf` is exactly its first `n` bytes.
pub proof fn lemma_c_text(buf: Seq<u8>, n: int)
    requires
        text_len_is(buf, n),
    ensures
        c_text(buf) == buf.take(n),
{
    let m = choose|m: int| text_len_is(buf, m);
    assert(text_len_is(buf, m));
    if m < n {
        assert(buf[m] != 0u8);
    } else if n < m {
        assert(buf[n] != 0u8);
    }
}

/// What `String::from_utf8_lossy` makes of `bytes`.
pub uninterp spec fn lossy_utf8(bytes: Seq<u8>) -> Seq<char>;

/// `String::from_utf8_lossy`: decodes `bytes` as UTF-8, each invalid sequence
/// replaced by U+FFFD. Its result is named `lossy_utf8`; std's documentation
/// states that a valid UTF-8 input is decoded as it stands.
#[verifier::external_body]
fn utf8_lossy(bytes: &[u8]) -> (text: String)
    ensures
        text@ == lossy_utf8(bytes@),
        valid_utf8(bytes@) ==> text@ == decode_utf8(bytes@),
{
    String::from_utf8_lossy(bytes).into_owned()
}

/// The text of a NUL-terminated byte buffer: the bytes before the first NUL
/// (or the whole buffer), decoded as UTF-8 with invalid sequences replaced.
pub fn cstr_from_buf(buf: &[u8]) -> (text: String)
    ensures
        text@ == lossy_utf8(c_text(buf@)),
        valid_utf8(c_text(buf@)) ==> text@ == decode_utf8(c_text(buf@)),
        exists|n: int|
            #![trigger buf@.take(n)]
            {
                &&& 0 <= n <= buf@.len()
                &&& forall|i: int| 0 <= i < n ==> buf@[i] != 0u8
                &&& (n == buf@.len() || buf@[n] == 0u8)
                &&& text@ == lossy_utf8(buf@.take(n))
                &&& (valid_utf8(buf@.take(n)) ==> text@ == decode_utf8(buf@.take(n)))
            },
{
    let mut end: usize = 0;
    while end < buf.len() && buf[end] != 0
        invariant
            end <= buf.len(),
            forall|i: int| 0 <= i < end ==> buf@[i] != 0u8,
        decreases buf.len() - end,
    {
        end = end + 1;
    }
    proof {
        lemma_c_text(buf@, end as int);
    }
    let bytes = &buf[0..end];
    assert(bytes@ == c_text(buf@));
    let text = utf8_lossy(bytes);
    assert(bytes@ == buf@.take(end as int));
    assert(text_len_is(buf@, end as int));
    text
}

/// The message held by the text `t` of an error buffer: none where `t` is
/// empty or reads "no error".
pub open spec fn error_text_message(t: Seq<char>) -> Option<Seq<char>> {
    if t.len() == 0 || t == "no error"@ {
        None
    } else {
        Some(t)
    }
}

/// A zeroed buffer of `ERROR_BUF_SIZE` bytes for the library's error message.
pub fn error_buffer() -> (buf: Vec<u8>)
    ensures
        buf@.len() == ERROR_BUF_SIZE,
        forall|i: int| 0 <= i < buf@.len() ==> buf@[i] == 0u8,
{
    zeroed(ERROR_BUF_SIZE)
}

/// `n` zero bytes.
fn zeroed(n: usize) -> (buf: Vec<u8>)
    ensures
        buf@.len() == n,
        forall|i: int| 0 <= i < n ==> buf@[i] == 0u8,
{
    let mut buf: Vec<u8> = Vec::new();
    while buf.len() < n
        invariant
            buf@.len() <= n,
            forall|i: int| 0 <= i < buf@.len() ==> buf@[i] == 0u8,
        decreases n - buf@.len(),
    {
        buf.push(0u8);
    }
    buf
}

/// The error message that the library wrote into `buf`, if it wrote one.
pub fn read_error_buf(buf: &[u8]) -> (msg: Option<String>)
    ensures
        msg is None <==> error_text_message(lossy_utf8(c_text(buf@))) is None,
        msg matches Some(m) ==> error_text_message(lossy_utf8(c_text(buf@))) == Some(m@),
        msg is None <==> (lossy_utf8(c_text(buf@)).len() == 0 || lossy_utf8(c_text(buf@))
            == "no error"@),
        msg matches Some(m) ==> m@ == lossy_utf8(c_text(buf@)),
{
    let text = cstr_from_buf(buf);
    let none = "no error".to_string();
    if text.as_str().is_empty() || text == none {
        None
    } else {
        Some(text)
    }
}

} // verus!
