//! Opaque pagination cursors: a sort key (or several, joined with `|`) in Base64.

use vstd::prelude::*;
use vstd::utf8::{decode_utf8, encode_utf8, valid_utf8, encode_utf8_valid_utf8, encode_utf8_decode_utf8};
use crate::codec::{base64_decode, base64_decoding, base64_encode, base64_encoding, string_from_utf8};
use crate::error::{concat2, AppError};
use crate::fields::{free_of, join_spec, join_strs, lemma_split_join, split_spec, split_str, str_views, string_views};

verus! {

/// The cursor that stands for a sort key: the Base64 text of its UTF-8 bytes.
pub open spec fn cursor_of(key: Seq<char>) -> Seq<char> {
    base64_encoding(encode_utf8(key))
}

/// The sort key that a cursor stands for, if it is Base64 of UTF-8 text.
pub open spec fn cursor_key(cursor: Seq<char>) -> Option<Seq<char>> {
    match base64_decoding(cursor) {
        Some(bytes) => if valid_utf8(bytes) {
            Some(decode_utf8(bytes))
        } else {
            None
        },
        None => None,
    }
}

/// Several sort keys joined into one with `|`.
pub open spec fn composite_key(keys: Seq<Seq<char>>) -> Seq<char> {
    join_spec(keys, seq!['|'])
}

/// Every key is free of the `|` that joins composite keys.
pub open spec fn keys_free_of_bar(keys: Seq<Seq<char>>) -> bool {
    forall|i: int| 0 <= i < keys.len() ==> free_of(#[trigger] keys[i], seq!['|'])
}

/// Encodes a sort key (typically an id) into a cursor.
pub fn encode(sort_key: &str) -> (r: String)
    requires
        encode_utf8(sort_key@).len() <= usize::MAX / 2,
    ensures
        r@ == cursor_of(sort_key@),
{
    base64_encode(sort_key.as_bytes())
}

/// Decodes a cursor back to its sort key. Decoding the cursor of a key gives the key back.
pub fn decode(cursor: &str) -> (r: Result<String, AppError>)
    ensures
        r is Ok <==> cursor_key(cursor@) is Some,
        r matches Ok(s) ==> cursor_key(cursor@) == Some(s@),
        r matches Err(e) ==> e is BadRequest,
        forall|k: Seq<char>| #[trigger] cursor_of(k) == cursor@ ==> r is Ok && r->Ok_0@ == k,
{
    match base64_decode(cursor) {
        Err(e) => Err(AppError::BadRequest(concat2("Invalid cursor format: ", e.as_str()))),
        Ok(bytes) => {
            let ghost b = bytes@;
            match string_from_utf8(bytes) {
                Ok(s) => {
                    proof {
                        assert forall|k: Seq<char>| #[trigger]
                            cursor_of(k) == cursor@ implies s@ == k by {
                            encode_utf8_decode_utf8(k);
                        }
                    }
                    Ok(s)
                },
                Err(e) => {
                    proof {
                        assert forall|k: Seq<char>| #[trigger]
                            cursor_of(k) == cursor@ implies false by {
                            encode_utf8_valid_utf8(k);
                        }
                    }
                    Err(AppError::BadRequest(concat2("Invalid cursor encoding: ", e.as_str())))
                },
            }
        },
    }
}

/// Encodes composite sort keys (for example a name and an id) into one cursor.
pub fn encode_composite(keys: &[&str]) -> (r: String)
    requires
        encode_utf8(composite_key(str_views(keys@))).len() <= usize::MAX / 2,
    ensures
        r@ == cursor_of(composite_key(str_views(keys@))),
{
    let combined = join_strs(keys, "|");
    proof {
        reveal_strlit("|");
        assert("|"@ =~= seq!['|']);
    }
    encode(combined.as_str())
}

/// Decodes a composite cursor into its sort keys. The cursor of one or more keys that hold
/// no `|` decodes to those keys.
pub fn decode_composite(cursor: &str) -> (r: Result<Vec<String>, AppError>)
    ensures
        r is Ok <==> cursor_key(cursor@) is Some,
        r matches Ok(v) ==> string_views(v@) == split_spec(cursor_key(cursor@)->0, seq!['|']),
        r matches Err(e) ==> e is BadRequest,
        forall|keys: Seq<Seq<char>>|
            #![trigger cursor_of(composite_key(keys))]
            keys.len() >= 1 && keys_free_of_bar(keys) && cursor_of(composite_key(keys)) == cursor@
                ==> r is Ok && string_views(r->Ok_0@) == keys,
{
    match decode(cursor) {
        Err(e) => Err(e),
        Ok(s) => {
            let parts = split_str(s.as_str(), '|');
            proof {
                assert forall|keys: Seq<Seq<char>>|
                    #![trigger cursor_of(composite_key(keys))]
                    keys.len() >= 1 && keys_free_of_bar(keys) && cursor_of(composite_key(keys))
                        == cursor@ implies string_views(parts@) == keys by {
                    lemma_split_join(keys, '|');
                }
            }
            Ok(parts)
        },
    }
}

} // verus!
