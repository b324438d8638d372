use vstd::prelude::*;
use vstd::string::StringSliceAdditionalSpecFns;

verus! {

/// A buffer of `len` spaces, into which a driver writes a diagnostic.
pub fn whitespace_buffer(len: usize) -> (r: Vec<u8>)
    ensures
        r@ == Seq::new(len as nat, |i: int| 0x20u8),
{
    let mut buffer: Vec<u8> = Vec::with_capacity(len);
    let mut i: usize = 0;
    while i < len
        invariant
            i <= len,
            buffer@ == Seq::new(i as nat, |j: int| 0x20u8),
        decreases len - i,
    {
        buffer.push(0x20u8);
        i = i + 1;
        assert(buffer@ =~= Seq::new(i as nat, |j: int| 0x20u8));
    }
    buffer
}

/// Where the text in `b` ends: at its first NUL byte, else at its end.
pub open spec fn text_end(b: Seq<u8>) -> nat
    decreases b.len(),
{
    if b.len() == 0 {
        0
    } else if b[0] == 0 {
        0
    } else {
        1 + text_end(b.drop_first())
    }
}

pub proof fn lemma_text_end(b: Seq<u8>)
    ensures
        text_end(b) <= b.len(),
        forall|i: int| 0 <= i < text_end(b) ==> b[i] != 0,
        text_end(b) < b.len() ==> b[text_end(b) as int] == 0,
    decreases b.len(),
{
    if b.len() > 0 && b[0] != 0 {
        lemma_text_end(b.drop_first());
        assert forall|i: int| 0 <= i < text_end(b) implies b[i] != 0 by {
            if i > 0 {
                assert(b[i] == b.drop_first()[i - 1]);
            }
        }
    }
}

/// The bytes of a NUL-terminated diagnostic that a driver wrote into `buffer`.
pub fn diagnostic_bytes(buffer: &Vec<u8>) -> (r: Vec<u8>)
    ensures
        r@ == buffer@.subrange(0, text_end(buffer@) as int),
{
    proof {
        lemma_text_end(buffer@);
    }
    let mut out: Vec<u8> = Vec::new();
    let mut i: usize = 0;
    while i < buffer.len() && buffer[i] != 0
        invariant
            i <= buffer@.len(),
            i <= text_end(buffer@),
            text_end(buffer@) <= buffer@.len(),
            text_end(buffer@) < buffer@.len() ==> buffer@[text_end(buffer@) as int] == 0,
            forall|j: int| 0 <= j < text_end(buffer@) ==> buffer@[j] != 0,
            out@ == buffer@.subrange(0, i as int),
        decreases buffer@.len() - i,
    {
        out.push(buffer[i]);
        i = i + 1;
        assert(out@ =~= buffer@.subrange(0, i as int));
    }
    out
}

/// What decoding `b` as UTF-8 gives, each invalid sequence replaced by U+FFFD.
pub uninterp spec fn lossy_text_of(b: Seq<u8>) -> Seq<char>;

/// Relies on `String::from_utf8_lossy`: the text depends on the bytes alone,
/// and it is empty exactly when there are no bytes, since each byte ends up in
/// a character or in a replacement character.
#[verifier::external_body]
pub(crate) fn lossy_text(b: &Vec<u8>) -> (r: String)
    ensures
        r@ == lossy_text_of(b@),
        r@.len() == 0 <==> b@.len() == 0,
{
    String::from_utf8_lossy(b.as_slice()).into_owned()
}

/// The text of a diagnostic that a driver wrote into `buffer`.
pub fn diagnostic_text(buffer: &Vec<u8>) -> (r: String)
    ensures
        r@ == lossy_text_of(buffer@.subrange(0, text_end(buffer@) as int)),
        r@.len() == 0 <==> text_end(buffer@) == 0,
{
    proof {
        lemma_text_end(buffer@);
    }
    let bytes = diagnostic_bytes(buffer);
    lossy_text(&bytes)
}

/// Whether `b` holds a NUL byte.
pub open spec fn holds_nul(b: Seq<u8>) -> bool {
    exists|i: int| 0 <= i < b.len() && b[i] == 0
}

/// The bytes of `source` followed by one NUL byte, as a driver reads
/// source text; `None` where the text itself holds a NUL byte.
pub fn nul_terminated(source: &str) -> (r: Option<Vec<u8>>)
    ensures
        holds_nul(source.spec_bytes()) <==> r is None,
        r matches Some(v) ==> v@ == source.spec_bytes().push(0u8),
{
    let mut bytes = source.as_bytes_vec();
    let mut i: usize = 0;
    while i < bytes.len()
        invariant
            bytes@ == source.spec_bytes(),
            i <= bytes@.len(),
            forall|j: int| 0 <= j < i ==> bytes@[j] != 0,
        decreases bytes@.len() - i,
    {
        if bytes[i] == 0 {
            return None;
        }
        i = i + 1;
    }
    bytes.push(0u8);
    Some(bytes)
}

} // verus!
