//! What a server answered to a probe.
//!
//! An answer counts where it starts a handshake record that holds a
//! ServerHello. Of such an answer the summary keeps four fields:
//!
//! ```text
//! byte 0          16, a handshake record
//! byte 5          02, a ServerHello
//! bytes 9, 10     the version
//! byte 43         n, the length of the session id
//! bytes 44+n, 45+n    the cipher suite
//! bytes 47+n, 48+n    the length of the extensions
//! from byte 49+n  the extensions: type (2), length (2), value
//! ```
//!
//! An answer that ends before a field that the summary needs is summed up
//! like one that is no ServerHello at all.

use vstd::prelude::*;
use vstd::slice::slice_subrange;
use vstd::string::StringExecFns;
use vstd::utf8::{decode_utf8, valid_utf8};
use crate::encoding::{hex_encode, hex_lower, utf8_text};

verus! {

/// The summary of one answer: cipher, version, protocol name and extension
/// types, separated by `|`.
pub struct JarmPart {
    pub raw: String,
}

impl JarmPart {
    /// The summary with the given text.
    pub fn new(raw: &str) -> (part: JarmPart)
        ensures
            part.raw@ == raw@,
    {
        JarmPart { raw: String::from_str(raw) }
    }
}

/// The summary of an answer that is no ServerHello: four empty fields.
pub open spec fn sentinel() -> Seq<char> {
    seq!['|', '|', '|']
}

/// The type of the extension that names the negotiated protocol.
pub open spec fn alpn_type() -> Seq<u8> {
    seq![0x00u8, 0x10u8]
}

/// The number that the two bytes from place `at` hold, the high byte first.
pub open spec fn short_at(data: Seq<u8>, at: int) -> int {
    data[at] * 256 + data[at + 1]
}

/// The extensions of an answer: their types, and for each its value, or
/// nothing where the extension is empty.
pub struct ExtensionList {
    pub types: Seq<Seq<u8>>,
    pub values: Seq<Option<Seq<u8>>>,
}

/// `list` behind an extension of the given type and value.
pub open spec fn behind(
    kind: Seq<u8>,
    value: Option<Seq<u8>>,
    list: Option<ExtensionList>,
) -> Option<ExtensionList> {
    match list {
        Some(rest) => Some(
            ExtensionList { types: seq![kind] + rest.types, values: seq![value] + rest.values },
        ),
        None => None,
    }
}

/// The extensions that stand in `data` from place `at` up to place `end`,
/// or nothing where one of them reaches beyond the data. An extension
/// begins wherever the one before it has ended, as long as that is before
/// `end`.
pub open spec fn extensions_between(data: Seq<u8>, at: int, end: int) -> Option<ExtensionList>
    decreases
        if at < end {
            end - at
        } else {
            0
        },
{
    if at >= end || at < 0 {
        Some(ExtensionList { types: Seq::empty(), values: Seq::empty() })
    } else if at + 4 > data.len() {
        None
    } else {
        let kind = data.subrange(at, at + 2);
        let length = short_at(data, at + 2);
        if length == 0 {
            behind(kind, None, extensions_between(data, at + 4, end))
        } else if at + 4 + length > data.len() {
            None
        } else {
            behind(
                kind,
                Some(data.subrange(at + 4, at + 4 + length)),
                extensions_between(data, at + 4 + length, end),
            )
        }
    }
}

/// The extensions of an answer whose session id has `counter` bytes, or
/// nothing where the answer ends too early. The two bytes before the
/// extensions hold their length; the last place at which an extension may
/// begin is two bytes before their end.
pub open spec fn extensions_of(data: Seq<u8>, counter: u8) -> Option<ExtensionList> {
    if data.len() < counter + 49 {
        None
    } else {
        extensions_between(data, counter + 49, short_at(data, counter + 47) + counter + 48)
    }
}

/// The protocol name in the value of the extension that names it: the text
/// behind the first three bytes, or nothing where there are no three bytes
/// or what follows is no UTF-8.
pub open spec fn protocol_in(value: Seq<u8>) -> Option<Seq<char>> {
    if value.len() >= 3 && valid_utf8(value.skip(3)) {
        Some(decode_utf8(value.skip(3)))
    } else {
        None
    }
}

/// The protocol name that the extensions from place `from` on hold: that of
/// the first extension of the type [`alpn_type`] that has a value; the
/// empty name where there is none; nothing where that value is malformed.
/// A type behind the last value counts as a type without a value.
pub open spec fn protocol_from(
    types: Seq<Seq<u8>>,
    values: Seq<Option<Seq<u8>>>,
    from: int,
) -> Option<Seq<char>>
    decreases types.len() - from,
{
    if from < 0 || from >= types.len() {
        Some(Seq::empty())
    } else if types[from] == alpn_type() && from < values.len() && values[from] is Some {
        protocol_in(values[from]->0)
    } else {
        protocol_from(types, values, from + 1)
    }
}

/// The types in hexadecimal notation, with a hyphen between one and the
/// next.
pub open spec fn hyphenated(types: Seq<Seq<u8>>) -> Seq<char>
    decreases types.len(),
{
    if types.len() == 0 {
        Seq::empty()
    } else if types.len() == 1 {
        hex_lower(types[0])
    } else {
        hyphenated(types.drop_last()) + seq!['-'] + hex_lower(types.last())
    }
}

/// The protocol name and the extension types of an answer whose session id
/// has `counter` bytes, or nothing where the answer is malformed.
pub open spec fn extension_fields(data: Seq<u8>, counter: u8) -> Option<(Seq<char>, Seq<char>)> {
    match extensions_of(data, counter) {
        Some(list) => match protocol_from(list.types, list.values, 0) {
            Some(name) => Some((name, hyphenated(list.types))),
            None => None,
        },
        None => None,
    }
}

/// The last two fields of a summary: the protocol name and the extension
/// types with `|` between them, both empty where the answer is malformed.
pub open spec fn extension_summary(data: Seq<u8>, counter: u8) -> Seq<char> {
    match extension_fields(data, counter) {
        Some((name, types)) => name + seq!['|'] + types,
        None => seq!['|'],
    }
}

/// Whether the answer starts a handshake record with a ServerHello in it.
pub open spec fn is_server_hello(data: Seq<u8>) -> bool {
    data.len() >= 6 && data[0] == 0x16 && data[5] == 0x02
}

/// The summary of an answer: [`sentinel`] where the answer is no
/// ServerHello, ends too early or is malformed; otherwise the cipher suite
/// and the version in hexadecimal notation, the protocol name and the
/// extension types.
pub open spec fn summary(data: Seq<u8>) -> Seq<char> {
    if !is_server_hello(data) || data.len() < 44 || data.len() < 46 + data[43] {
        sentinel()
    } else {
        let counter = data[43];
        match extension_fields(data, counter) {
            Some((name, types)) => hex_lower(data.subrange(44 + counter, 46 + counter)) + seq!['|']
                + hex_lower(data.subrange(9, 11)) + seq!['|'] + name + seq!['|'] + types,
            None => sentinel(),
        }
    }
}

/// The number that two bytes hold, the high byte first.
pub fn as_u32_be(array: &[u8]) -> (value: u32)
    requires
        array@.len() == 2,
    ensures
        value == short_at(array@, 0),
{
    let high: u32 = array[0] as u32;
    let low: u32 = array[1] as u32;
    high * 256 + low
}

/// The types in hexadecimal notation, with a hyphen between one and the
/// next.
pub fn add_formatting_hyphen(types: &[&[u8]]) -> (text: String)
    ensures
        text@ == hyphenated(types.deep_view()),
{
    let mut text = String::new();
    let mut i: usize = 0;
    while i < types.len()
        invariant
            i <= types@.len(),
            text@ == hyphenated(types.deep_view().take(i as int)),
        decreases types@.len() - i,
    {
        let ghost done = types.deep_view().take(i as int);
        let ghost grown = types.deep_view().take(i + 1);
        proof {
            reveal_strlit("-");
            assert(grown.drop_last() =~= done);
        }
        if i > 0 {
            text.append("-");
        }
        let encoded = hex_encode(types[i]);
        text.append(encoded.as_str());
        i = i + 1;
    }
    assert(types.deep_view().take(types@.len() as int) =~= types.deep_view());
    text
}

/// Whether `name` is the text `expected`, or both are nothing.
spec fn is_text(name: Option<String>, expected: Option<Seq<char>>) -> bool {
    match (name, expected) {
        (Some(text), Some(chars)) => text@ == chars,
        (None, None) => true,
        _ => false,
    }
}

/// The protocol name that the extensions hold, see [`protocol_from`].
fn protocol_name(types: &[&[u8]], values: &Vec<Option<&[u8]>>) -> (name: Option<String>)
    ensures
        is_text(name, protocol_from(types.deep_view(), values.deep_view(), 0)),
{
    let mut i: usize = 0;
    while i < types.len()
        invariant
            i <= types@.len(),
            protocol_from(types.deep_view(), values.deep_view(), 0) == protocol_from(
                types.deep_view(),
                values.deep_view(),
                i as int,
            ),
        decreases types@.len() - i,
    {
        let kind: &[u8] = types[i];
        assert(types.deep_view()[i as int] =~= kind@);
        if i < values.len() && kind.len() == 2 && kind[0] == 0x00 && kind[1] == 0x10 {
            assert(kind@ =~= alpn_type());
            match values[i] {
                Some(value) => {
                    assert(values.deep_view()[i as int]->0 =~= value@);
                    if value.len() < 3 {
                        return None;
                    }
                    let name = slice_subrange(value, 3, value.len());
                    return match utf8_text(name) {
                        Some(text) => Some(String::from_str(text)),
                        None => None,
                    };
                },
                None => {},
            }
        }
        i = i + 1;
    }
    Some(String::new())
}

/// The protocol name that the extensions hold, see [`protocol_from`]: that
/// of the first extension of the type [`alpn_type`] that has a value. The
/// name is empty where there is no such extension, and where its value is
/// malformed.
pub fn find_extension(types: &[&[u8]], values: Vec<Option<&[u8]>>) -> (name: String)
    ensures
        name@ == match protocol_from(types.deep_view(), values.deep_view(), 0) {
            Some(text) => text,
            None => Seq::empty(),
        },
{
    match protocol_name(types, &values) {
        Some(name) => name,
        None => String::new(),
    }
}

/// `list` behind the extensions of the given types and values.
spec fn behind_all(
    types: Seq<Seq<u8>>,
    values: Seq<Option<Seq<u8>>>,
    list: Option<ExtensionList>,
) -> Option<ExtensionList> {
    match list {
        Some(rest) => Some(
            ExtensionList { types: types + rest.types, values: values + rest.values },
        ),
        None => None,
    }
}

/// One more extension in front of a list is one more behind those before
/// it.
proof fn lemma_behind_all_push(
    types: Seq<Seq<u8>>,
    values: Seq<Option<Seq<u8>>>,
    kind: Seq<u8>,
    value: Option<Seq<u8>>,
    list: Option<ExtensionList>,
)
    ensures
        behind_all(types, values, behind(kind, value, list)) == behind_all(
            types.push(kind),
            values.push(value),
            list,
        ),
{
    if let Some(rest) = list {
        assert(types + (seq![kind] + rest.types) =~= types.push(kind) + rest.types);
        assert(values + (seq![value] + rest.values) =~= values.push(value) + rest.values);
    }
}

/// The extensions of an answer, see [`extensions_of`]: their types and
/// their values, as parts of `data`.
fn read_extensions<'a>(data: &'a [u8], counter: u8) -> (found: Option<
    (Vec<&'a [u8]>, Vec<Option<&'a [u8]>>),
>)
    ensures
        match extensions_of(data@, counter) {
            Some(list) => found matches Some((types, values)) && types.deep_view() == list.types
                && values.deep_view() == list.values,
            None => found is None,
        },
{
    let start: usize = counter as usize + 49;
    if data.len() < start {
        return None;
    }
    let length = as_u32_be(slice_subrange(data, start - 2, start)) as usize;
    let end: usize = length + start - 1;
    let mut count: usize = start;
    let mut types: Vec<&'a [u8]> = Vec::new();
    let mut values: Vec<Option<&'a [u8]>> = Vec::new();
    while count < end
        invariant
            count <= data@.len(),
            end < 0x10000 + 0x200,
            extensions_of(data@, counter) == behind_all(
                types.deep_view(),
                values.deep_view(),
                extensions_between(data@, count as int, end as int),
            ),
        decreases
            if count < end {
                end - count
            } else {
                0
            },
    {
        if data.len() - count < 4 {
            return None;
        }
        let kind = slice_subrange(data, count, count + 2);
        let ext_length = as_u32_be(slice_subrange(data, count + 2, count + 4)) as usize;
        let ghost before_types = types.deep_view();
        let ghost before_values = values.deep_view();
        if ext_length == 0 {
            proof {
                lemma_behind_all_push(
                    before_types,
                    before_values,
                    kind@,
                    None,
                    extensions_between(data@, count + 4, end as int),
                );
            }
            types.push(kind);
            values.push(None);
            count = count + 4;
        } else {
            if data.len() - count - 4 < ext_length {
                return None;
            }
            let value = slice_subrange(data, count + 4, count + 4 + ext_length);
            proof {
                lemma_behind_all_push(
                    before_types,
                    before_values,
                    kind@,
                    Some(value@),
                    extensions_between(data@, count + 4 + ext_length, end as int),
                );
            }
            types.push(kind);
            values.push(Some(value));
            count = count + 4 + ext_length;
        }
        assert(types.deep_view() =~~= before_types.push(kind@));
        assert(values.deep_view() =~~= before_values.push(
            match values@.last() {
                Some(value) => Some(value@),
                None => None,
            },
        ));
    }
    Some((types, values))
}

/// The protocol name and the extension types of an answer, see
/// [`extension_fields`].
fn read_extension_fields(data: &[u8], counter: u8) -> (fields: Option<(String, String)>)
    ensures
        match extension_fields(data@, counter) {
            Some((name, types)) => fields matches Some((name_text, types_text)) && name_text@
                == name && types_text@ == types,
            None => fields is None,
        },
{
    match read_extensions(data, counter) {
        Some((types, values)) => {
            match protocol_name(types.as_slice(), &values) {
                Some(name) => Some((name, add_formatting_hyphen(types.as_slice()))),
                None => None,
            }
        },
        None => None,
    }
}

/// The last two fields of the summary of an answer whose session id has
/// `counter` bytes, see [`extension_summary`]: the protocol name and the
/// extension types with `|` between them, or `|` alone where the answer
/// ends too early or is malformed.
pub fn extract_extension_info(data: Vec<u8>, counter: u8) -> (text: String)
    ensures
        text@ == extension_summary(data@, counter),
{
    proof {
        reveal_strlit("|");
    }
    match read_extension_fields(data.as_slice(), counter) {
        Some((name, types)) => {
            let mut text = name;
            text.append("|");
            text.append(types.as_str());
            text
        },
        None => String::from_str("|"),
    }
}

/// The summary of an answer, see [`summary`].
pub fn read_packet(data: Vec<u8>) -> (part: JarmPart)
    ensures
        part.raw@ == summary(data@),
        !is_server_hello(data@) ==> part.raw@ == sentinel(),
{
    proof {
        reveal_strlit("|");
        reveal_strlit("|||");
    }
    if data.len() < 44 || data[0] != 22 || data[5] != 2 {
        return JarmPart::new("|||");
    }
    let counter: u8 = data[43];
    let start: usize = counter as usize + 44;
    if data.len() < start + 2 {
        return JarmPart::new("|||");
    }
    let selected_cipher = slice_subrange(data.as_slice(), start, start + 2);
    let version = slice_subrange(data.as_slice(), 9, 11);
    match read_extension_fields(data.as_slice(), counter) {
        Some((name, types)) => {
            let mut jarm = hex_encode(selected_cipher);
            jarm.append("|");
            let version_text = hex_encode(version);
            jarm.append(version_text.as_str());
            jarm.append("|");
            jarm.append(name.as_str());
            jarm.append("|");
            jarm.append(types.as_str());
            JarmPart { raw: jarm }
        },
        None => JarmPart::new("|||"),
    }
}

} // verus!
