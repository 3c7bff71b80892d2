//! Byte encodings: hexadecimal text, artifact bundles, guest inputs, deferral states
//! and merkle proofs.

use openvm_sdk::openvm_circuit::arch::deferral::DeferralState;
use vstd::bytes::{lemma_auto_spec_u64_to_from_le_bytes, spec_u64_to_le_bytes};
use vstd::prelude::*;
use vstd::string::*;

use crate::execution_input::{ExecutionInput, InputContents, StateContents};

verus! {

/// The value of a hexadecimal digit.
pub open spec fn hex_digit(c: char) -> Option<int> {
    if '0' <= c <= '9' {
        Some(c as int - 48)
    } else if 'a' <= c <= 'f' {
        Some(c as int - 87)
    } else if 'A' <= c <= 'F' {
        Some(c as int - 55)
    } else {
        None
    }
}

/// Whether `s` is hexadecimal text: an even number of digits.
pub open spec fn is_hex(s: Seq<char>) -> bool {
    s.len() % 2 == 0 && forall|i: int| 0 <= i < s.len() ==> hex_digit(#[trigger] s[i]) is Some
}

/// The bytes that hexadecimal text stands for, two digits each.
pub open spec fn hex_bytes(s: Seq<char>) -> Seq<u8> {
    Seq::new(
        s.len() / 2,
        |i: int| (16 * hex_digit(s[2 * i])->0 + hex_digit(s[2 * i + 1])->0) as u8,
    )
}

/// What is said of a text that is not hexadecimal.
pub uninterp spec fn hex_error(s: Seq<char>) -> Seq<char>;

/// Calls `hex::decode`: an even number of hexadecimal digits of either case is
/// decoded two at a time, the first of a pair being the high half of the byte;
/// anything else is an error.
#[verifier::external_body]
pub(crate) fn decode_hex(s: &str) -> (r: Result<Vec<u8>, String>)
    ensures
        is_hex(s@) ==> r is Ok && r->Ok_0@ == hex_bytes(s@),
        !is_hex(s@) ==> r is Err && r->Err_0@ == hex_error(s@),
{
    hex::decode(s).map_err(|e| e.to_string())
}

/// The encoding of one item: its length as eight little-endian bytes, then itself.
pub open spec fn encoded_item(item: Seq<u8>) -> Seq<u8> {
    spec_u64_to_le_bytes(item.len() as u64) + item
}

/// The encodings of the items, one after the other.
pub open spec fn encoded_items(items: Seq<Seq<u8>>) -> Seq<u8>
    decreases items.len(),
{
    if items.len() == 0 {
        Seq::empty()
    } else {
        encoded_items(items.drop_last()) + encoded_item(items.last())
    }
}

/// The encoding of a bundle: the number of items as eight little-endian bytes, then
/// the items.
pub open spec fn encoded_bundle(items: Seq<Seq<u8>>) -> Seq<u8> {
    spec_u64_to_le_bytes(items.len() as u64) + encoded_items(items)
}

/// Whether the number of items and the length of each fit in eight bytes.
pub open spec fn encodable(items: Seq<Seq<u8>>) -> bool {
    items.len() <= u64::MAX && forall|i: int|
        0 <= i < items.len() ==> (#[trigger] items[i]).len() <= u64::MAX
}

/// Whether `bytes` begin with the encoding of the bundle `items`.
pub open spec fn holds_bundle(bytes: Seq<u8>, items: Seq<Seq<u8>>) -> bool {
    encoded_bundle(items).len() <= bytes.len() && bytes.take(encoded_bundle(items).len() as int)
        == encoded_bundle(items)
}

/// The contents of a list of byte strings.
pub open spec fn contents(items: Seq<Vec<u8>>) -> Seq<Seq<u8>> {
    Seq::new(items.len(), |i: int| items[i]@)
}

/// Byte strings in memory are encodable.
pub proof fn contents_are_encodable(items: Vec<Vec<u8>>)
    ensures
        encodable(contents(items@)),
{
    assert(items.len() == items@.len());
    assert forall|i: int| 0 <= i < items@.len() implies (#[trigger] contents(items@)[i]).len()
        <= u64::MAX by {
        assert(items@[i].len() == items@[i]@.len());
    }
}

/// The encodings of the items begin with that of the first.
proof fn items_from_the_front(items: Seq<Seq<u8>>)
    requires
        items.len() > 0,
    ensures
        encoded_items(items) == encoded_item(items[0]) + encoded_items(items.drop_first()),
    decreases items.len(),
{
    let last = encoded_item(items.last());
    if items.len() == 1 {
        assert(items.drop_last() =~= Seq::<Seq<u8>>::empty());
        assert(items.drop_first() =~= Seq::<Seq<u8>>::empty());
        assert(encoded_items(items) =~= encoded_item(items[0]) + encoded_items(
            items.drop_first(),
        ));
    } else {
        let init = items.drop_last();
        items_from_the_front(init);
        assert(items.drop_first().drop_last() =~= init.drop_first());
        assert(items.drop_first().last() == items.last());
        assert(encoded_item(items[0]) + encoded_items(init.drop_first()) + last =~= encoded_item(
            items[0],
        ) + (encoded_items(init.drop_first()) + last));
    }
}

/// Bytes that begin with the encodings of two lists of one length hold one list.
proof fn items_are_unique(bytes: Seq<u8>, a: Seq<Seq<u8>>, b: Seq<Seq<u8>>)
    requires
        a.len() == b.len(),
        encodable(a),
        encodable(b),
        encoded_items(a).is_prefix_of(bytes),
        encoded_items(b).is_prefix_of(bytes),
    ensures
        a == b,
    decreases a.len(),
{
    if a.len() == 0 {
        assert(a =~= b);
    } else {
        items_from_the_front(a);
        items_from_the_front(b);
        lemma_auto_spec_u64_to_from_le_bytes();
        let x = a[0];
        let y = b[0];
        assert(bytes.take(8) =~= spec_u64_to_le_bytes(x.len() as u64));
        assert(bytes.take(8) =~= spec_u64_to_le_bytes(y.len() as u64));
        assert(x.len() == y.len());
        let n = 8 + x.len();
        assert(x =~= bytes.subrange(8, n as int)) by {
            assert forall|i: int| 0 <= i < x.len() implies x[i] == bytes[8 + i] by {
                assert(encoded_item(x)[8 + i] == x[i]);
                assert(encoded_items(a)[8 + i] == bytes[8 + i]);
            }
        }
        assert(y =~= bytes.subrange(8, n as int)) by {
            assert forall|i: int| 0 <= i < y.len() implies y[i] == bytes[8 + i] by {
                assert(encoded_item(y)[8 + i] == y[i]);
                assert(encoded_items(b)[8 + i] == bytes[8 + i]);
            }
        }
        let rest = bytes.skip(n as int);
        let c = a.drop_first();
        let d = b.drop_first();
        assert forall|i: int| 0 <= i < encoded_items(c).len() implies encoded_items(c)[i]
            == rest[i] by {
            assert(encoded_items(a)[n + i] == bytes[n + i]);
        }
        assert forall|i: int| 0 <= i < encoded_items(d).len() implies encoded_items(d)[i]
            == rest[i] by {
            assert(encoded_items(b)[n + i] == bytes[n + i]);
        }
        assert(encoded_items(c) =~= rest.take(encoded_items(c).len() as int));
        assert(encoded_items(d) =~= rest.take(encoded_items(d).len() as int));
        assert(encodable(c)) by {
            assert forall|i: int| 0 <= i < c.len() implies (#[trigger] c[i]).len() <= u64::MAX by {
                assert(c[i] == a[i + 1]);
            }
        }
        assert(encodable(d)) by {
            assert forall|i: int| 0 <= i < d.len() implies (#[trigger] d[i]).len() <= u64::MAX by {
                assert(d[i] == b[i + 1]);
            }
        }
        items_are_unique(rest, c, d);
        assert(a =~= seq![x] + c);
        assert(b =~= seq![y] + d);
    }
}

/// Bytes hold one bundle at most: what is decoded from them is settled.
pub proof fn at_most_one_bundle(bytes: Seq<u8>, a: Seq<Seq<u8>>, b: Seq<Seq<u8>>)
    requires
        encodable(a),
        encodable(b),
        holds_bundle(bytes, a),
        holds_bundle(bytes, b),
    ensures
        a == b,
{
    lemma_auto_spec_u64_to_from_le_bytes();
    assert(bytes.take(8) =~= spec_u64_to_le_bytes(a.len() as u64)) by {
        assert(bytes.take(encoded_bundle(a).len() as int).take(8) =~= bytes.take(8));
        assert(encoded_bundle(a).take(8) =~= spec_u64_to_le_bytes(a.len() as u64));
    }
    assert(bytes.take(8) =~= spec_u64_to_le_bytes(b.len() as u64)) by {
        assert(bytes.take(encoded_bundle(b).len() as int).take(8) =~= bytes.take(8));
        assert(encoded_bundle(b).take(8) =~= spec_u64_to_le_bytes(b.len() as u64));
    }
    let rest = bytes.skip(8);
    assert(encoded_items(a) =~= rest.take(encoded_items(a).len() as int)) by {
        assert forall|i: int| 0 <= i < encoded_items(a).len() implies encoded_items(a)[i]
            == rest[i] by {
            assert(encoded_bundle(a)[8 + i] == bytes.take(encoded_bundle(a).len() as int)[8 + i]);
        }
    }
    assert(encoded_items(b) =~= rest.take(encoded_items(b).len() as int)) by {
        assert forall|i: int| 0 <= i < encoded_items(b).len() implies encoded_items(b)[i]
            == rest[i] by {
            assert(encoded_bundle(b)[8 + i] == bytes.take(encoded_bundle(b).len() as int)[8 + i]);
        }
    }
    items_are_unique(rest, a, b);
}

/// What is said of bytes that do not begin with the encoding of a bundle.
pub uninterp spec fn bundle_error(bytes: Seq<u8>) -> Seq<char>;

/// Calls `bincode::deserialize` for a list of byte strings: the list with whose
/// encoding the bytes begin, whatever follows it, or an error if there is none.
#[verifier::external_body]
pub(crate) fn decode_bundle(bytes: &[u8]) -> (r: Result<Vec<Vec<u8>>, String>)
    ensures
        r matches Ok(items) ==> holds_bundle(bytes@, contents(items@)),
        r matches Err(e) ==> e@ == bundle_error(bytes@) && forall|items: Seq<Seq<u8>>|
            encodable(items) ==> !#[trigger] holds_bundle(bytes@, items),
{
    bincode::deserialize::<Vec<Vec<u8>>>(bytes).map_err(|e| e.to_string())
}

/// What is said of bytes that do not begin with an encoded deferral input.
pub uninterp spec fn deferral_input_error(bytes: Seq<u8>) -> Seq<char>;

/// Calls `bincode::deserialize` for an `openvm_sdk::DeferralInput`, a struct of one
/// list of byte strings, and hands out that list. It is encoded as the list alone is.
#[verifier::external_body]
pub(crate) fn decode_deferral_input(bytes: &[u8]) -> (r: Result<Vec<Vec<u8>>, String>)
    ensures
        r matches Ok(items) ==> holds_bundle(bytes@, contents(items@)),
        r matches Err(e) ==> e@ == deferral_input_error(bytes@) && forall|items: Seq<Seq<u8>>|
            encodable(items) ==> !#[trigger] holds_bundle(bytes@, items),
{
    let decoded = bincode::deserialize::<openvm_sdk::DeferralInput>(bytes);
    decoded.map(|input| input.byte_vec).map_err(|e| e.to_string())
}

/// The guest input of the SDK: a queue of byte strings that the guest reads one by
/// one.
#[verifier::external_body]
pub struct GuestInput {
    inner: openvm_sdk::StdIn,
}

/// The byte strings in a guest input, in the order in which they are read.
pub uninterp spec fn guest_chunks(input: GuestInput) -> Seq<Seq<u8>>;

/// The serialized form of a guest input that holds these byte strings, if it has one.
pub uninterp spec fn guest_encoding(chunks: Seq<Seq<u8>>) -> Option<Seq<u8>>;

/// Calls `openvm_sdk::StdIn::default`: an input that holds nothing.
#[verifier::external_body]
pub(crate) fn empty_input() -> (r: GuestInput)
    ensures
        guest_chunks(r) == Seq::<Seq<u8>>::empty(),
{
    GuestInput { inner: openvm_sdk::StdIn::default() }
}

/// Calls `openvm_sdk::StdIn::write_bytes`: the byte string goes to the end of the
/// queue.
#[verifier::external_body]
pub(crate) fn write_chunk(input: &mut GuestInput, data: &[u8])
    ensures
        guest_chunks(*final(input)) == guest_chunks(*old(input)).push(data@),
{
    input.inner.write_bytes(data)
}

/// The contents of an input of these byte strings: each byte is one word, and there
/// are no deferral states.
pub open spec fn plain_input(chunks: Seq<Seq<u8>>) -> InputContents {
    InputContents {
        chunks: Seq::new(
            chunks.len(),
            |i: int| Seq::new(chunks[i].len(), |j: int| chunks[i][j] as u32),
        ),
        deferrals: Seq::empty(),
    }
}

/// What is said of an input of these byte strings that cannot be serialized.
pub uninterp spec fn guest_error(chunks: Seq<Seq<u8>>) -> Seq<char>;

/// Calls `bincode::serialize` for an input: bytes that depend on what the input holds
/// alone and decode to it again, or an error.
#[verifier::external_body]
pub(crate) fn serialize_input(input: &GuestInput) -> (r: Result<Vec<u8>, String>)
    ensures
        r matches Ok(bytes) ==> guest_encoding(guest_chunks(*input)) == Some(bytes@)
            && encoded_input(bytes@) == Some(plain_input(guest_chunks(*input))),
        r matches Err(e) ==> guest_encoding(guest_chunks(*input)) is None && e@ == guest_error(
            guest_chunks(*input),
        ),
{
    bincode::serialize(&input.inner).map_err(|e| e.to_string())
}

/// The deferral state of one circuit, of `openvm_circuit`.
#[verifier::external_type_specification]
#[verifier::external_body]
pub struct ExDeferralState(DeferralState);

/// What is known of a deferred input: its bytes, or the commitment to its output.
pub enum KnownInput {
    Raw(Seq<u8>),
    Output(Seq<u8>),
}

/// The inputs that a deferral state holds, by their commitments.
pub uninterp spec fn state_inputs(state: DeferralState) -> Map<Seq<u8>, KnownInput>;

/// The outputs that a deferral state holds, by their commitments.
pub uninterp spec fn state_outputs(state: DeferralState) -> Map<Seq<u8>, Seq<u8>>;

/// What the deferral state holds with whose encoding the bytes begin, if they do.
pub uninterp spec fn encoded_state(bytes: Seq<u8>) -> Option<StateContents>;

/// What is said of bytes that do not begin with an encoded deferral state.
pub uninterp spec fn state_error(bytes: Seq<u8>) -> Seq<char>;

/// Calls `bincode::deserialize` for a `DeferralState`: a state that holds what the
/// bytes say, or an error. The order in which the state walks its entries is left
/// open.
#[verifier::external_body]
pub(crate) fn decode_state(bytes: &[u8]) -> (r: Result<DeferralState, String>)
    ensures
        r matches Ok(s) ==> encoded_state(bytes@) == Some(
            (StateContents { inputs: state_inputs(s), outputs: state_outputs(s) }),
        ),
        r matches Err(e) ==> encoded_state(bytes@) is None && e@ == state_error(bytes@),
{
    bincode::deserialize::<DeferralState>(bytes).map_err(|e| e.to_string())
}

/// What the input holds with whose encoding the bytes begin, if they do.
pub uninterp spec fn encoded_input(bytes: Seq<u8>) -> Option<InputContents>;

/// What is said of bytes that do not begin with an encoded input.
pub uninterp spec fn input_error(bytes: Seq<u8>) -> Seq<char>;

/// Calls `bincode::deserialize` for an `openvm_sdk::StdIn`: what the bytes say, with
/// each field element as its canonical number, or an error.
#[verifier::external_body]
pub(crate) fn decode_input(bytes: &[u8]) -> (r: Result<ExecutionInput, String>)
    ensures
        r matches Ok(input) ==> encoded_input(bytes@) == Some(input@),
        r matches Err(e) ==> encoded_input(bytes@) is None && e@ == input_error(bytes@),
{
    let input = bincode::deserialize::<openvm_sdk::StdIn>(bytes).map_err(|e| e.to_string())?;
    let word = openvm_stark_backend::p3_field::PrimeField32::as_canonical_u32;
    let chunks = input.buffer.iter().map(|c| c.iter().map(word).collect()).collect();
    Ok(ExecutionInput { chunks, deferrals: input.deferrals })
}

/// What is said of bytes that do not begin with encoded deferral merkle proofs, if they
/// do not.
pub uninterp spec fn merkle_proofs_error(bytes: Seq<u8>) -> Option<Seq<char>>;

/// Calls `openvm_verify_stark_host::deferral::DeferralMerkleProofs::decode`: whether the
/// bytes begin with the encoding of two merkle paths, and what is said of them if they
/// do not.
#[verifier::external_body]
pub(crate) fn check_merkle_proofs(bytes: &[u8]) -> (r: Result<(), String>)
    ensures
        match merkle_proofs_error(bytes@) {
            None => r is Ok,
            Some(text) => r is Err && r->Err_0@ == text,
        },
{
    let mut reader = bytes;
    let decoded = openvm_verify_stark_host::deferral::DeferralMerkleProofs::decode(&mut reader);
    decoded.map(|_| ()).map_err(|e| e.to_string())
}

/// A bundle is laid out as its number of items and then each item behind its length, the
/// numbers as eight bytes; adding an item to a bundle only adds at its end.
pub proof fn bundles_are_laid_out_in_order(items: Seq<Seq<u8>>, more: Seq<u8>)
    requires
        encodable(items.push(more)),
    ensures
        encoded_bundle(items).len() >= 8,
        encoded_bundle(items).take(8) == spec_u64_to_le_bytes(items.len() as u64),
        encoded_bundle(items.push(more)).skip(8) == encoded_bundle(items).skip(8)
            + spec_u64_to_le_bytes(more.len() as u64) + more,
        encoded_bundle(Seq::<Seq<u8>>::empty()).len() == 8,
{
    lemma_auto_spec_u64_to_from_le_bytes();
    assert(items.push(more).drop_last() =~= items);
    assert(items.push(more).last() == more);
    assert(encoded_bundle(items).take(8) =~= spec_u64_to_le_bytes(items.len() as u64));
    assert(encoded_bundle(items).skip(8) =~= encoded_items(items));
    assert(encoded_bundle(items.push(more)).skip(8) =~= encoded_bundle(items).skip(8)
        + spec_u64_to_le_bytes(more.len() as u64) + more);
}

/// Bytes hold a bundle exactly if they begin with its encoding, whatever follows.
pub proof fn bundles_may_be_followed(items: Seq<Seq<u8>>, rest: Seq<u8>)
    ensures
        holds_bundle(encoded_bundle(items) + rest, items),
{
    assert((encoded_bundle(items) + rest).take(encoded_bundle(items).len() as int)
        =~= encoded_bundle(items));
}

/// The digits of either case stand for their values.
pub proof fn hex_digits_have_their_values(c: char)
    ensures
        '0' <= c <= '9' ==> hex_digit(c) == Some(c as int - '0' as int),
        'a' <= c <= 'f' ==> hex_digit(c) == Some(c as int - 'a' as int + 10),
        'A' <= c <= 'F' ==> hex_digit(c) == Some(c as int - 'A' as int + 10),
        hex_digit(c) is None <==> !('0' <= c <= '9') && !('a' <= c <= 'f') && !('A' <= c <= 'F'),
{
}

/// Two digits make a byte, the first of them its high half; and texts of digits are
/// decoded one after the other.
pub proof fn hex_is_decoded_in_pairs(high: char, low: char, rest: Seq<char>)
    requires
        hex_digit(high) is Some,
        hex_digit(low) is Some,
        is_hex(rest),
    ensures
        is_hex(Seq::<char>::empty()) && hex_bytes(Seq::<char>::empty()).len() == 0,
        is_hex(seq![high, low] + rest),
        hex_bytes(seq![high, low] + rest) == seq![
            (16 * hex_digit(high)->0 + hex_digit(low)->0) as u8,
        ] + hex_bytes(rest),
        0 <= 16 * hex_digit(high)->0 + hex_digit(low)->0 < 256,
{
    let s = seq![high, low] + rest;
    assert forall|i: int| 0 <= i < s.len() implies hex_digit(#[trigger] s[i]) is Some by {
        if i >= 2 {
            assert(s[i] == rest[i - 2]);
        }
    }
    assert forall|i: int| 0 <= i < hex_bytes(rest).len() implies hex_bytes(s)[i + 1]
        == #[trigger] hex_bytes(rest)[i] by {
        assert(s[2 * (i + 1)] == rest[2 * i]);
        assert(s[2 * (i + 1) + 1] == rest[2 * i + 1]);
    }
    assert(hex_bytes(s) =~= seq![(16 * hex_digit(high)->0 + hex_digit(low)->0) as u8]
        + hex_bytes(rest));
}

/// A text with an odd number of characters, or with one that is no digit, is not
/// hexadecimal.
pub proof fn only_digits_are_hex(s: Seq<char>)
    ensures
        is_hex(s) <==> s.len() % 2 == 0 && forall|i: int|
            0 <= i < s.len() ==> {
                let c = #[trigger] s[i];
                ('0' <= c <= '9') || ('a' <= c <= 'f') || ('A' <= c <= 'F')
            },
{
    if is_hex(s) {
        assert forall|i: int| 0 <= i < s.len() implies {
            let c = #[trigger] s[i];
            ('0' <= c <= '9') || ('a' <= c <= 'f') || ('A' <= c <= 'F')
        } by {
            assert(hex_digit(s[i]) is Some);
        }
    }
}

/// An input of byte strings holds each of them, byte for byte, and no deferral states.
pub proof fn plain_inputs_hold_their_bytes(chunks: Seq<Seq<u8>>)
    ensures
        plain_input(chunks).deferrals.len() == 0,
        plain_input(chunks).chunks.len() == chunks.len(),
        forall|i: int|
            0 <= i < chunks.len() ==> (#[trigger] plain_input(chunks).chunks[i]).len()
                == chunks[i].len(),
        forall|i: int, j: int|
            0 <= i < chunks.len() && 0 <= j < chunks[i].len()
                ==> #[trigger] plain_input(chunks).chunks[i][j] == chunks[i][j],
{
}

} // verus!
