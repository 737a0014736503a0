//! Request headers given as `KEY=VALUE` or `KEY:VALUE`.
use vstd::prelude::*;
use vstd::string::*;
use crate::chars::chars_of;
use crate::json::{JsonObject, json_map_insert_string, json_map_new, json_members};
use crate::text::{find_char, free_of, is_first, lemma_split_once_at, lemma_split_once_none, split_once, string_of, trim, trim_bounds};

verus! {

/// Why a header argument was refused.
pub enum HeaderError {
    /// The argument, which holds neither `=` nor `:`.
    MissingSeparator(String),
    /// The name before the separator is empty once trimmed.
    EmptyName,
}

impl HeaderError {
    /// The message shown for the error.
    pub fn message(&self) -> (text: String)
        ensures
            match self {
                HeaderError::MissingSeparator(h) => text@ == "header 必须使用 KEY=VALUE 或 KEY:VALUE 格式: "@ + h@,
                HeaderError::EmptyName => text@ == "header 名称不能为空"@,
            },
    {
        match self {
            HeaderError::MissingSeparator(h) => {
                let mut text = "header 必须使用 KEY=VALUE 或 KEY:VALUE 格式: ".to_owned();
                text.append(h.as_str());
                text
            },
            HeaderError::EmptyName => "header 名称不能为空".to_owned(),
        }
    }
}

/// The untrimmed name and value of a header: split at the first `=`, or,
/// when there is none, at the first `:`.
pub open spec fn header_split(h: Seq<char>) -> Option<(Seq<char>, Seq<char>)> {
    match split_once(h, '=') {
        Some(p) => Some(p),
        None => split_once(h, ':'),
    }
}

/// A header argument is accepted when it has a separator and a non-empty
/// trimmed name.
pub open spec fn header_valid(h: Seq<char>) -> bool {
    match header_split(h) {
        Some((name, _)) => trim(name).len() > 0,
        None => false,
    }
}

/// The trimmed name of an accepted header.
pub open spec fn header_name(h: Seq<char>) -> Seq<char> {
    match header_split(h) {
        Some((name, _)) => trim(name),
        None => Seq::empty(),
    }
}

/// The trimmed value of an accepted header.
pub open spec fn header_value(h: Seq<char>) -> Seq<char> {
    match header_split(h) {
        Some((_, value)) => trim(value),
        None => Seq::empty(),
    }
}

/// The headers as object members, inserted in order, each a string: a
/// later header with the same name replaces an earlier one.
pub open spec fn header_map(hs: Seq<Seq<char>>) -> Map<Seq<char>, Option<Seq<char>>>
    decreases hs.len(),
{
    if hs.len() == 0 {
        Map::empty()
    } else {
        header_map(hs.drop_last()).insert(header_name(hs.last()), Some(header_value(hs.last())))
    }
}

/// `k` is the first refused header.
pub open spec fn first_invalid(hs: Seq<Seq<char>>, k: int) -> bool {
    &&& 0 <= k < hs.len()
    &&& !header_valid(hs[k])
    &&& forall|j: int| 0 <= j < k ==> header_valid(hs[j])
}

/// The error that a refused header gives.
pub open spec fn header_error_matches(e: HeaderError, h: Seq<char>) -> bool {
    match e {
        HeaderError::MissingSeparator(arg) => header_split(h) is None && arg@ == h,
        HeaderError::EmptyName => header_split(h) is Some && header_name(h).len() == 0,
    }
}

/// Name and value of one header, or the error it gives.
fn parse_one(header: &String) -> (r: Result<(String, String), HeaderError>)
    ensures
        match r {
            Ok((name, value)) => header_valid(header@) && name@ == header_name(header@)
                && value@ == header_value(header@),
            Err(e) => !header_valid(header@) && header_error_matches(e, header@),
        },
{
    let chars = chars_of(header.as_str());
    let separator = header_separator(&chars);
    if separator.is_none() {
        return Err(HeaderError::MissingSeparator(header.clone()));
    }
    let at = separator.unwrap();
    let n = chars.len();
    let name_chars = slice_chars(&chars, 0, at);
    let value_chars = slice_chars(&chars, at + 1, n);
    assert(name_chars@ == chars@.take(at as int));
    assert(value_chars@ == chars@.skip(at + 1));
    let (nlo, nhi) = trim_bounds(&name_chars);
    if nlo == nhi {
        return Err(HeaderError::EmptyName);
    }
    let (vlo, vhi) = trim_bounds(&value_chars);
    Ok((string_of(&name_chars, nlo, nhi), string_of(&value_chars, vlo, vhi)))
}

/// Where a header argument splits into name and value.
fn header_separator(chars: &Vec<char>) -> (at: Option<usize>)
    ensures
        match at {
            Some(i) => i < chars@.len() && header_split(chars@) == Some(
                (chars@.take(i as int), chars@.skip(i + 1)),
            ),
            None => header_split(chars@) is None,
        },
{
    match find_char(chars, '=') {
        Some(i) => {
            proof {
                lemma_split_once_at(chars@, '=', i as int);
            }
            Some(i)
        },
        None => {
            proof {
                lemma_split_once_none(chars@, '=');
            }
            match find_char(chars, ':') {
                Some(i) => {
                    proof {
                        lemma_split_once_at(chars@, ':', i as int);
                    }
                    Some(i)
                },
                None => {
                    proof {
                        lemma_split_once_none(chars@, ':');
                    }
                    None
                },
            }
        },
    }
}

/// The characters `chars[from..to]`.
fn slice_chars(chars: &Vec<char>, from: usize, to: usize) -> (part: Vec<char>)
    requires
        from <= to <= chars@.len(),
    ensures
        part@ == chars@.subrange(from as int, to as int),
{
    let mut part: Vec<char> = Vec::new();
    let mut i = from;
    while i < to
        invariant
            from <= i <= to <= chars@.len(),
            part@ == chars@.subrange(from as int, i as int),
        decreases to - i,
    {
        part.push(chars[i]);
        assert(part@ =~= chars@.subrange(from as int, i + 1));
        i = i + 1;
    }
    part
}

/// Parses `KEY=VALUE` (or, without `=`, `KEY:VALUE`) header arguments into a
/// JSON object of string members, name and value trimmed, a later header
/// replacing an earlier one of the same name. The first argument without a
/// separator, or with an empty name, is refused.
pub fn parse_headers(headers: &[String]) -> (r: Result<JsonObject, HeaderError>)
    ensures
        r is Ok <==> forall|i: int| 0 <= i < headers@.len() ==> header_valid(#[trigger] headers@[i]@),
        match r {
            Ok(m) => json_members(m) == header_map(headers@.map_values(|h: String| h@)),
            Err(e) => exists|k: int|
                first_invalid(headers@.map_values(|h: String| h@), k) && header_error_matches(
                    e,
                    headers@[k]@,
                ),
        },
{
    let ghost hs = headers@.map_values(|h: String| h@);
    let mut parsed = json_map_new();
    let mut i: usize = 0;
    while i < headers.len()
        invariant
            i <= headers@.len(),
            hs == headers@.map_values(|h: String| h@),
            forall|j: int| 0 <= j < i ==> header_valid(#[trigger] headers@[j]@),
            json_members(parsed) == header_map(hs.take(i as int)),
        decreases headers@.len() - i,
    {
        match parse_one(&headers[i]) {
            Ok((name, value)) => {
                assert(hs.take(i + 1).drop_last() =~= hs.take(i as int));
                assert(hs.take(i + 1).last() == headers@[i as int]@);
                json_map_insert_string(&mut parsed, name, value);
            },
            Err(e) => {
                assert(first_invalid(hs, i as int));
                return Err(e);
            },
        }
        i = i + 1;
    }
    assert(hs.take(headers@.len() as int) =~= hs);
    Ok(parsed)
}

/// A header holding `=` splits at its first `=`: the name is the trimmed
/// text before it, which holds no `=`, and the value the trimmed text after
/// it, which may hold more `=` (and any `:`).
pub proof fn lemma_header_splits_at_first_equals(h: Seq<char>, i: int)
    requires
        is_first(h, '=', i),
    ensures
        header_split(h) == Some((h.take(i), h.skip(i + 1))),
        free_of(h.take(i), '='),
        header_valid(h) == (trim(h.take(i)).len() > 0),
        header_valid(h) ==> header_name(h) == trim(h.take(i)) && header_value(h) == trim(
            h.skip(i + 1),
        ),
{
    lemma_split_once_at(h, '=', i);
}

/// A header without `=` splits at its first `:`.
pub proof fn lemma_header_splits_at_first_colon(h: Seq<char>, i: int)
    requires
        free_of(h, '='),
        is_first(h, ':', i),
    ensures
        header_split(h) == Some((h.take(i), h.skip(i + 1))),
        header_valid(h) == (trim(h.take(i)).len() > 0),
        header_valid(h) ==> header_name(h) == trim(h.take(i)) && header_value(h) == trim(
            h.skip(i + 1),
        ),
{
    lemma_split_once_none(h, '=');
    lemma_split_once_at(h, ':', i);
}

/// A header with neither `=` nor `:` is refused for its missing separator.
pub proof fn lemma_header_without_separator(h: Seq<char>)
    requires
        free_of(h, '='),
        free_of(h, ':'),
    ensures
        header_split(h) is None,
        !header_valid(h),
{
    lemma_split_once_none(h, '=');
    lemma_split_once_none(h, ':');
}

/// The object holds a member for each header name given, and the value of
/// a name is that of the last header with that name: a later header
/// replaces an earlier one.
pub proof fn lemma_header_map_last_wins(hs: Seq<Seq<char>>, k: Seq<char>)
    ensures
        header_map(hs).dom().contains(k) <==> exists|j: int|
            0 <= j < hs.len() && header_name(#[trigger] hs[j]) == k,
        forall|j: int|
            0 <= j < hs.len() && header_name(#[trigger] hs[j]) == k && (forall|m: int|
                j < m < hs.len() ==> header_name(#[trigger] hs[m]) != k) ==> header_map(hs)[k]
                == Some(header_value(hs[j])),
    decreases hs.len(),
{
    if hs.len() > 0 {
        let prev = hs.drop_last();
        lemma_header_map_last_wins(prev, k);
        let last = hs.len() - 1;
        if header_name(hs[last]) == k {
        } else {
            assert forall|j: int|
                0 <= j < hs.len() && header_name(#[trigger] hs[j]) == k && (forall|m: int|
                    j < m < hs.len() ==> header_name(#[trigger] hs[m]) != k) implies header_map(
                hs,
            )[k] == Some(header_value(hs[j])) by {
                assert(j < last);
                assert(prev[j] == hs[j]);
                assert forall|m: int| j < m < prev.len() implies header_name(
                    #[trigger] prev[m],
                ) != k by {
                    assert(prev[m] == hs[m]);
                }
            }
            if exists|j: int| 0 <= j < hs.len() && header_name(#[trigger] hs[j]) == k {
                let j = choose|j: int| 0 <= j < hs.len() && header_name(#[trigger] hs[j]) == k;
                assert(prev[j] == hs[j]);
            }
            if exists|j: int| 0 <= j < prev.len() && header_name(#[trigger] prev[j]) == k {
                let j = choose|j: int| 0 <= j < prev.len() && header_name(#[trigger] prev[j]) == k;
                assert(prev[j] == hs[j]);
            }
        }
    }
}

} // verus!
