//! Short file names, as they stand in the directories of a card.
use vstd::prelude::*;

use crate::digits::find;

verus! {

/// `embedded_sdmmc::ShortFileName`, the name of a file or directory in eleven bytes: eight for the
/// name, three for the extension, both filled up with spaces.
#[verifier::external_type_specification]
#[verifier::external_body]
pub struct ExShortFileName(embedded_sdmmc::ShortFileName);

/// The eleven bytes that a short name holds.
pub uninterp spec fn short_name_bytes(name: embedded_sdmmc::ShortFileName) -> Seq<u8>;

/// The eleven bytes of the short name that `embedded_sdmmc::ShortFileName::create_from_str` makes
/// of a text, `None` where it refuses the text.
pub uninterp spec fn short_name_of(text: Seq<char>) -> Option<Seq<u8>>;

/// A character that every short name may have, and that it keeps as it is: a capital letter, a
/// digit or an underscore.
pub open spec fn plain_char(c: char) -> bool {
    'A' <= c <= 'Z' || '0' <= c <= '9' || c == '_'
}

/// Whether all characters of a text are plain.
pub open spec fn plain_text(text: Seq<char>) -> bool {
    forall|i: int| 0 <= i < text.len() ==> plain_char(#[trigger] text[i])
}

/// The bytes of a plain text, filled up with spaces.
pub open spec fn padded(text: Seq<char>, width: nat) -> Seq<u8> {
    Seq::new(
        width,
        |i: int|
            if i < text.len() {
                text[i] as u8
            } else {
                0x20u8
            },
    )
}

/// Whether a text is a plain name and a plain extension with a dot between them, and neither is
/// empty or too long.
pub open spec fn is_plain_name(text: Seq<char>, name: Seq<char>, extension: Seq<char>) -> bool {
    &&& text == name + "."@ + extension
    &&& plain_text(name) && 1 <= name.len() <= 8
    &&& plain_text(extension) && 1 <= extension.len() <= 3
}

/// Whether a short name that was made of a text keeps a plain name and a plain extension.
pub open spec fn keeps_plain_names(
    text: Seq<char>,
    created: Option<embedded_sdmmc::ShortFileName>,
) -> bool {
    forall|name: Seq<char>, extension: Seq<char>|
        #[trigger] is_plain_name(text, name, extension) ==> (created matches Some(short)
            && short_name_bytes(short) == padded(name, 8) + padded(extension, 3))
}

/// `embedded_sdmmc::ShortFileName::create_from_str`: the short name of a text. Which texts it
/// refuses and which bytes it makes of the others is given by [`short_name_of`]; of a plain name
/// and a plain extension with a dot between them it makes the name and the extension, each filled
/// up with spaces.
#[verifier::external_body]
pub(crate) fn create_short_name(text: &str) -> (created: Option<embedded_sdmmc::ShortFileName>)
    ensures
        created is Some <==> short_name_of(text@) is Some,
        created matches Some(name) ==> short_name_of(text@) == Some(short_name_bytes(name)),
        keeps_plain_names(text@, created),
{
    embedded_sdmmc::ShortFileName::create_from_str(text).ok()
}

/// `==` of `embedded_sdmmc::ShortFileName`: whether two short names have the same bytes.
#[verifier::external_body]
pub(crate) fn same_short_name(
    a: &embedded_sdmmc::ShortFileName,
    b: &embedded_sdmmc::ShortFileName,
) -> (same: bool)
    ensures
        same == (short_name_bytes(*a) == short_name_bytes(*b)),
{
    a == b
}

/// The bytes before the first space.
pub open spec fn before_space(bytes: Seq<u8>) -> Seq<u8> {
    bytes.take(find(bytes, 0x20) as int)
}

/// `embedded_sdmmc::ShortFileName::base_name`: the name without its extension, up to the first
/// space in the eight bytes that it may take.
#[verifier::external_body]
pub(crate) fn short_base_name(name: &embedded_sdmmc::ShortFileName) -> (base: &[u8])
    ensures
        base@ == before_space(short_name_bytes(*name).take(8)),
{
    name.base_name()
}

} // verus!
