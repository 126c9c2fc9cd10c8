use std::string::FromUtf8Error;

use vstd::prelude::*;
use vstd::utf8::{
    decode_utf8, encode_utf8, encode_utf8_decode_utf8, encode_utf8_valid_utf8, valid_utf8,
};

verus! {

/// The error of `String::from_utf8`, which the library hands on unread.
#[verifier::external_type_specification]
#[verifier::external_body]
pub struct ExFromUtf8Error(FromUtf8Error);

/// `String::from_utf8` succeeds exactly on the byte vectors that are valid
/// UTF-8, and the string it then returns holds the text that the bytes encode.
pub assume_specification[ String::from_utf8 ](vec: Vec<u8>) -> (decoded: Result<
    String,
    FromUtf8Error,
>)
    ensures
        valid_utf8(vec@) ==> decoded.is_ok() && decoded.unwrap()@ == decode_utf8(vec@),
        !valid_utf8(vec@) ==> decoded.is_err(),
;

/// Whether the name in a buffer ends at `end`: no byte before `end` is NUL,
/// and `end` is the place of a NUL or the end of the buffer.
pub open spec fn is_name_end(buffer: Seq<i8>, end: int) -> bool {
    &&& 0 <= end <= buffer.len()
    &&& forall|index: int| 0 <= index < end ==> buffer[index] != 0
    &&& end < buffer.len() ==> buffer[end] == 0
}

/// The length of the name in a buffer: the place of the first NUL, or the
/// length of the buffer if it holds none.
pub open spec fn name_len(buffer: Seq<i8>) -> int {
    choose|end: int| is_name_end(buffer, end)
}

/// The byte that the API's signed character `c` stands for.
pub open spec fn byte_of(c: i8) -> u8 {
    if c < 0 {
        (c + 256) as u8
    } else {
        c as u8
    }
}

/// The bytes of the name in a buffer: what stands before the first NUL.
pub open spec fn name_bytes(buffer: Seq<i8>) -> Seq<u8> {
    Seq::new(name_len(buffer) as nat, |index: int| byte_of(buffer[index]))
}

/// The text that a buffer names, if the bytes of its name are valid UTF-8.
pub open spec fn name_text(buffer: Seq<i8>) -> Option<Seq<char>> {
    if valid_utf8(name_bytes(buffer)) {
        Some(decode_utf8(name_bytes(buffer)))
    } else {
        None
    }
}

/// The texts that a list of buffers names, in the order of the buffers. A
/// buffer whose name is not valid UTF-8 names nothing and is passed over.
pub open spec fn decoded_names(buffers: Seq<Seq<i8>>) -> Seq<Seq<char>> {
    buffers.filter_map(|buffer: Seq<i8>| name_text(buffer))
}

/// A buffer has one place at which its name ends.
pub proof fn lemma_name_end_unique(buffer: Seq<i8>, end: int)
    requires
        is_name_end(buffer, end),
    ensures
        name_len(buffer) == end,
{
    let chosen = name_len(buffer);
    assert(is_name_end(buffer, chosen));
    if chosen < end {
        assert(buffer[chosen] == 0);
    }
    if end < chosen {
        assert(buffer[end] == 0);
    }
}

/// Builds a `String` from one of the API's fixed-width, NUL-padded buffers.
///
/// The name ends at the first NUL: the padding, and anything that follows it,
/// is dropped. A name that is not valid UTF-8 is rejected.
pub fn string_from_i8(bytes: &[i8]) -> (decoded: Result<String, FromUtf8Error>)
    ensures
        decoded.is_ok() <==> name_text(bytes@).is_some(),
        decoded.is_ok() ==> Some(decoded.unwrap()@) == name_text(bytes@),
{
    let mut name: Vec<u8> = Vec::new();
    let mut index: usize = 0;
    while index < bytes.len() && bytes[index] != 0
        invariant
            index <= bytes@.len(),
            name@.len() == index,
            forall|earlier: int| 0 <= earlier < index ==> bytes@[earlier] != 0,
            forall|earlier: int| 0 <= earlier < index ==> name@[earlier] == byte_of(bytes@[earlier]),
        decreases bytes@.len() - index,
    {
        let c: i8 = bytes[index];
        let byte: u8 = if c < 0 {
            (c as i16 + 256) as u8
        } else {
            c as u8
        };
        name.push(byte);
        index += 1;
    }
    proof {
        lemma_name_end_unique(bytes@, index as int);
        assert(name@ =~= name_bytes(bytes@));
    }
    String::from_utf8(name)
}

/// The bytes as which a name crosses to the API: its UTF-8 bytes and a NUL
/// after them. A name that holds a NUL cannot cross.
pub open spec fn nul_terminated(name: Seq<char>) -> Option<Seq<u8>> {
    if encode_utf8(name).contains(0u8) {
        None
    } else {
        Some(encode_utf8(name).push(0u8))
    }
}

/// Puts a name into the form in which it crosses to the API: its UTF-8 bytes
/// and a NUL after them. A name that holds a NUL is refused.
pub fn to_nul_terminated(name: &str) -> (bytes: Option<Vec<u8>>)
    ensures
        bytes.is_some() <==> nul_terminated(name@).is_some(),
        bytes matches Some(terminated) ==> Some(terminated@) == nul_terminated(name@),
{
    let encoded = name.as_bytes();
    let mut terminated: Vec<u8> = Vec::new();
    let mut index: usize = 0;
    while index < encoded.len()
        invariant
            index <= encoded@.len(),
            encoded@ == encode_utf8(name@),
            terminated@ == encoded@.take(index as int),
            forall|earlier: int| 0 <= earlier < index ==> encoded@[earlier] != 0,
        decreases encoded@.len() - index,
    {
        if encoded[index] == 0 {
            return None;
        }
        terminated.push(encoded[index]);
        assert(terminated@ =~= encoded@.take(index + 1));
        index += 1;
    }
    assert(encoded@.take(index as int) =~= encoded@);
    terminated.push(0);
    Some(terminated)
}

/// A name that has crossed to the API is read back as it was: where a buffer
/// starts with the bytes as which `name` crosses, the text that the buffer
/// names is `name`.
pub proof fn lemma_name_round_trip(name: Seq<char>, buffer: Seq<i8>)
    requires
        nul_terminated(name).is_some(),
        nul_terminated(name).unwrap().len() <= buffer.len(),
        forall|index: int|
            0 <= index < nul_terminated(name).unwrap().len() ==> byte_of(#[trigger] buffer[index])
                == nul_terminated(name).unwrap()[index],
    ensures
        name_text(buffer) == Some(name),
{
    let encoded = encode_utf8(name);
    let terminated = nul_terminated(name).unwrap();
    assert forall|index: int| 0 <= index < encoded.len() implies buffer[index] != 0 by {
        assert(byte_of(buffer[index]) == terminated[index]);
        assert(encoded.contains(encoded[index]));
    }
    assert(byte_of(buffer[encoded.len() as int]) == terminated[encoded.len() as int]);
    lemma_name_end_unique(buffer, encoded.len() as int);
    assert forall|index: int| 0 <= index < encoded.len() implies name_bytes(buffer)[index]
        == encoded[index] by {
        assert(byte_of(buffer[index]) == terminated[index]);
    }
    assert(name_bytes(buffer) =~= encoded);
    encode_utf8_valid_utf8(name);
    encode_utf8_decode_utf8(name);
}

/// Appends the text that `buffer` names to `names`. A buffer whose name is
/// not valid UTF-8 leaves `names` as it is.
pub fn push_name(names: &mut Vec<String>, buffer: &[i8])
    ensures
        final(names).deep_view() == match name_text(buffer@) {
            Some(text) => old(names).deep_view().push(text),
            None => old(names).deep_view(),
        },
{
    match string_from_i8(buffer) {
        Ok(name) => {
            names.push(name);
            assert(names.deep_view() =~= old(names).deep_view().push(name@));
        },
        Err(_) => {},
    }
}

/// What `decoded_names` is of a list that is one buffer longer.
pub proof fn lemma_decoded_names_push(buffers: Seq<Seq<i8>>, buffer: Seq<i8>)
    ensures
        decoded_names(buffers.push(buffer)) == match name_text(buffer) {
            Some(text) => decoded_names(buffers).push(text),
            None => decoded_names(buffers),
        },
{
    let longer = buffers.push(buffer);
    assert(longer.drop_last() =~= buffers);
    assert(longer.last() == buffer);
    match name_text(buffer) {
        Some(text) => {
            assert(decoded_names(buffers) + seq![text] =~= decoded_names(buffers).push(text));
        },
        None => {},
    }
}

} // verus!
