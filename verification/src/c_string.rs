//! Strings exchanged with the C side of the port: a Rust string becomes a
//! NUL-terminated byte string (`CString::new`), and a NUL-terminated byte
//! string is read back as a Rust string (`CStr::to_str`).

use vstd::prelude::*;
use vstd::string::StringSliceAdditionalSpecFns;
use vstd::utf8::{decode_utf8, encode_utf8, valid_utf8};

verus! {

/// `String::from_utf8`: a string holding the given bytes, or nothing where the
/// bytes are not valid UTF-8. The contract states the documented behaviour
/// of the call over vstd's model of UTF-8.
#[verifier::external_body]
pub(crate) fn string_from_utf8(bytes: Vec<u8>) -> (r: Option<String>)
    ensures
        r is Some <==> valid_utf8(bytes@),
        r matches Some(s) ==> s@ == decode_utf8(bytes@),
{
    String::from_utf8(bytes).ok()
}

/// The bytes that a reader of a C string takes from `buf`: those before the
/// first NUL (all of them where there is none).
pub open spec fn c_string_prefix(buf: Seq<u8>) -> Seq<u8>
    decreases buf.len(),
{
    if buf.len() == 0 || buf[0] == 0 {
        Seq::empty()
    } else {
        seq![buf[0]] + c_string_prefix(buf.drop_first())
    }
}

/// Where the first `i` bytes of `buf` are not NUL and the buffer ends or
/// holds a NUL at `i`, the C string of `buf` is its first `i` bytes.
pub proof fn lemma_c_string_prefix_at(buf: Seq<u8>, i: int)
    requires
        0 <= i <= buf.len(),
        forall|j: int| 0 <= j < i ==> buf[j] != 0,
        i == buf.len() || buf[i] == 0,
    ensures
        c_string_prefix(buf) == buf.take(i),
    decreases buf.len(),
{
    if i == 0 {
        assert(buf.take(0) =~= Seq::<u8>::empty());
    } else {
        let rest = buf.drop_first();
        assert forall|j: int| 0 <= j < i - 1 implies rest[j] != 0 by {
            assert(rest[j] == buf[j + 1]);
        }
        lemma_c_string_prefix_at(rest, i - 1);
        assert(seq![buf[0]] + rest.take(i - 1) =~= buf.take(i));
    }
}

/// The bytes of the C string made from `name` (`CString::new(name)`), NUL
/// included: nothing where `name` holds a NUL byte, which `CString::new`
/// refuses; otherwise the UTF-8 bytes of `name` followed by one NUL.
pub fn c_string_bytes(name: &str) -> (r: Option<Vec<u8>>)
    ensures
        r is Some <==> !name.spec_bytes().contains(0u8),
        r matches Some(v) ==> v@ == name.spec_bytes().push(0u8),
{
    let bytes = name.as_bytes();
    let n = bytes.len();
    let mut out: Vec<u8> = Vec::new();
    let mut i: usize = 0;
    while i < n
        invariant
            i <= n,
            n == bytes@.len(),
            bytes@ == name.spec_bytes(),
            out@ =~= bytes@.take(i as int),
            forall|j: int| 0 <= j < i ==> bytes@[j] != 0,
        decreases n - i,
    {
        let b = bytes[i];
        if b == 0 {
            assert(name.spec_bytes()[i as int] == 0u8);
            return None;
        }
        out.push(b);
        i = i + 1;
    }
    out.push(0);
    proof {
        assert(bytes@.take(n as int) =~= bytes@);
        assert(!name.spec_bytes().contains(0u8)) by {
            if name.spec_bytes().contains(0u8) {
                let j = choose|j: int| 0 <= j < bytes@.len() && bytes@[j] == 0u8;
                assert(bytes@[j] != 0);
            }
        }
    }
    Some(out)
}

/// Reads the C string held in `buf` as a Rust string (`CStr::to_str` and
/// `to_owned`): the bytes before the first NUL, where they are valid UTF-8;
/// nothing where they are not, which `CStr::to_str` refuses.
pub fn c_string_to_string(buf: &[u8]) -> (r: Option<String>)
    ensures
        r is Some <==> valid_utf8(c_string_prefix(buf@)),
        r matches Some(s) ==> s@ == decode_utf8(c_string_prefix(buf@)),
{
    let n = buf.len();
    let mut out: Vec<u8> = Vec::new();
    let mut i: usize = 0;
    while i < n && buf[i] != 0
        invariant
            i <= n,
            n == buf@.len(),
            out@ =~= buf@.take(i as int),
            forall|j: int| 0 <= j < i ==> buf@[j] != 0,
        decreases n - i,
    {
        out.push(buf[i]);
        i = i + 1;
    }
    proof {
        lemma_c_string_prefix_at(buf@, i as int);
    }
    string_from_utf8(out)
}

/// A name handed to the C side as a C string is read back unchanged: for
/// every string without a NUL byte, the C string of its bytes followed by a
/// NUL is valid UTF-8 and decodes to the string itself.
pub proof fn lemma_c_string_round_trip(s: Seq<char>)
    requires
        !encode_utf8(s).contains(0u8),
    ensures
        c_string_prefix(encode_utf8(s).push(0u8)) == encode_utf8(s),
        valid_utf8(c_string_prefix(encode_utf8(s).push(0u8))),
        decode_utf8(c_string_prefix(encode_utf8(s).push(0u8))) == s,
{
    let e = encode_utf8(s);
    let buf = e.push(0u8);
    assert forall|j: int| 0 <= j < e.len() implies buf[j] != 0 by {
        assert(buf[j] == e[j]);
        if e[j] == 0 {
            assert(e.contains(0u8));
        }
    }
    lemma_c_string_prefix_at(buf, e.len() as int);
    assert(buf.take(e.len() as int) =~= e);
    vstd::utf8::encode_utf8_valid_utf8(s);
    vstd::utf8::encode_utf8_decode_utf8(s);
}

} // verus!
