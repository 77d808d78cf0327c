use vstd::prelude::*;
use vstd::string::*;
use crate::abi::{signature_of, ABIItem, EventInfo};
use crate::naming::push_char;

verus! {

/// The Keccak-256 digest of a string's UTF-8 bytes.
pub uninterp spec fn keccak_of(s: Seq<char>) -> Seq<u8>;

/// Relies on ethers::utils::keccak256: the 32-byte Keccak-256 digest of the
/// string's bytes, a function of the string alone.
#[verifier::external_body]
fn keccak_digest(s: &str) -> (r: Vec<u8>)
    ensures
        r@ == keccak_of(s@),
        r@.len() == 32,
{
    ethers::utils::keccak256(s).to_vec()
}

/// The lowercase hexadecimal digit of a value below 16.
pub open spec fn hex_digit(n: u8) -> char {
    if n < 10 {
        (48 + n) as char
    } else {
        (87 + n) as char
    }
}

pub open spec fn is_hex_char(c: char) -> bool {
    ('0' <= c && c <= '9') || ('a' <= c && c <= 'f')
}

/// Two lowercase hexadecimal digits per byte, high digit first.
pub open spec fn hex_of(b: Seq<u8>) -> Seq<char>
    decreases b.len(),
{
    if b.len() == 0 {
        Seq::empty()
    } else {
        hex_of(b.drop_last()) + seq![hex_digit(b.last() / 16), hex_digit(b.last() % 16)]
    }
}

proof fn lemma_hex_of(b: Seq<u8>)
    ensures
        hex_of(b).len() == 2 * b.len(),
        forall|i: int| 0 <= i < hex_of(b).len() ==> is_hex_char(#[trigger] hex_of(b)[i]),
    decreases b.len(),
{
    if b.len() > 0 {
        lemma_hex_of(b.drop_last());
    }
}

fn hex_digit_exec(n: u8) -> (r: char)
    requires
        n < 16,
    ensures
        r == hex_digit(n),
{
    if n < 10 {
        (48 + n) as char
    } else {
        (87 + n) as char
    }
}

/// Renders bytes as lowercase hexadecimal, two digits each.
pub fn to_hex(b: &[u8]) -> (r: String)
    ensures
        r@ == hex_of(b@),
{
    let mut out = String::new();
    let mut i: usize = 0;
    while i < b.len()
        invariant
            i <= b@.len(),
            out@ == hex_of(b@.subrange(0, i as int)),
        decreases b@.len() - i,
    {
        let x = b[i];
        push_char(&mut out, hex_digit_exec(x / 16));
        push_char(&mut out, hex_digit_exec(x % 16));
        proof {
            let next = b@.subrange(0, i + 1);
            assert(next.drop_last() =~= b@.subrange(0, i as int));
            assert(next.last() == x);
        }
        i = i + 1;
    }
    assert(b@.subrange(0, b@.len() as int) =~= b@);
    out
}

/// The topic hash of an event, as lowercase hexadecimal without a prefix.
pub fn compute_topic_id(event_signature: &str) -> (r: String)
    ensures
        r@ == hex_of(keccak_of(event_signature@)),
        r@.len() == 64,
{
    let d = keccak_digest(event_signature);
    proof {
        lemma_hex_of(d@);
    }
    to_hex(d.as_slice())
}

/// `<Name>(<signature>)`, the text that an event's topic hashes.
pub open spec fn event_text(name: Seq<char>, sig: Seq<char>) -> Seq<char> {
    name + "("@ + sig + ")"@
}

/// The topic id of an event with the given name and signature: `0x` and the
/// Keccak-256 digest of `<Name>(<signature>)` in lowercase hexadecimal.
pub open spec fn topic_id_of(name: Seq<char>, sig: Seq<char>) -> Seq<char> {
    "0x"@ + hex_of(keccak_of(event_text(name, sig)))
}

/// A well-formed topic id: `0x` followed by exactly 64 lowercase hexadecimal digits.
pub open spec fn is_topic_id(t: Seq<char>) -> bool {
    &&& t.len() == 66
    &&& t.subrange(0, 2) == "0x"@
    &&& forall|i: int| 2 <= i < 66 ==> is_hex_char(#[trigger] t[i])
}

/// The routing key of an event: `0x` followed by exactly 64 lowercase
/// hexadecimal digits.
pub fn event_topic_id(info: &EventInfo) -> (r: String)
    ensures
        r@ == topic_id_of(info.name@, info.signature@),
        r@.len() == 66,
        r@.subrange(0, 2) == "0x"@,
        forall|i: int| 2 <= i < 66 ==> is_hex_char(#[trigger] r@[i]),
{
    let text = info.name.clone().concat("(").concat(info.signature.as_str()).concat(")");
    let hex = compute_topic_id(text.as_str());
    proof {
        lemma_hex_of(keccak_of(text@));
        reveal_strlit("0x");
    }
    let r = String::from_str("0x").concat(hex.as_str());
    assert(r@.subrange(0, 2) =~= "0x"@);
    assert forall|i: int| 2 <= i < 66 implies is_hex_char(#[trigger] r@[i]) by {
        assert(r@[i] == hex@[i - 2]);
    }
    r
}

/// Deriving the signature of an entry is deterministic: entries with the same
/// fields get the same signature, and the same name and fields give the same
/// topic id.
pub proof fn lemma_signature_deterministic(a: ABIItem, b: ABIItem)
    requires
        a.inputs@ == b.inputs@,
    ensures
        signature_of(a) == signature_of(b),
        a.name@ == b.name@ ==> topic_id_of(a.name@, signature_of(a)) == topic_id_of(
            b.name@,
            signature_of(b),
        ),
{
}

} // verus!
