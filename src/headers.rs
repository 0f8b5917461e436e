//! Merging a session's entries into the `Server-Timing` header of a response.

use vstd::prelude::*;
use vstd::utf8::encode_utf8;
use http::{HeaderMap, HeaderName, HeaderValue};
use crate::session::{segment_text, ServerTiming};

verus! {

#[verifier::external_type_specification]
#[verifier::external_body]
#[verifier::reject_recursive_types(T)]
pub struct ExHeaderMap<T>(HeaderMap<T>);

#[verifier::external_type_specification]
#[verifier::external_body]
pub struct ExHeaderValue(HeaderValue);

/// What a header map holds: for each header name, in lower case, the bytes of
/// its values in order.
pub uninterp spec fn header_fields(m: HeaderMap) -> Map<Seq<char>, Seq<Seq<u8>>>;

/// The header name `server-timing`.
pub open spec fn timing_name() -> Seq<char> {
    seq!['s', 'e', 'r', 'v', 'e', 'r', '-', 't', 'i', 'm', 'i', 'n', 'g']
}

/// A header name that http takes as it stands: 1 to 64 characters, each a
/// lower-case letter, a digit or `-`.
pub open spec fn plain_name(name: Seq<char>) -> bool {
    &&& 0 < name.len() <= 64
    &&& forall|i: int| 0 <= i < name.len() ==> (('a' <= #[trigger] name[i] && name[i] <= 'z') || ('0' <= name[i] && name[i] <= '9') || name[i] == '-')
}

/// The first value under `name`, if there is one.
pub open spec fn first_value(fields: Map<Seq<char>, Seq<Seq<u8>>>, name: Seq<char>) -> Option<Seq<u8>> {
    if fields.contains_key(name) && fields[name].len() > 0 {
        Some(fields[name][0])
    } else {
        None
    }
}

/// The first value under `server-timing`, if there is one.
pub open spec fn existing_timing(fields: Map<Seq<char>, Seq<Seq<u8>>>) -> Option<Seq<u8>> {
    first_value(fields, timing_name())
}

/// A map holds few enough names that one more always fits.
pub open spec fn has_room(fields: Map<Seq<char>, Seq<Seq<u8>>>) -> bool {
    fields.dom().finite() && fields.dom().len() < 6554
}

/// A header value may hold tabs and any byte from 32 up but 127.
pub open spec fn valid_value(bytes: Seq<u8>) -> bool {
    forall|i: int| 0 <= i < bytes.len() ==> ((bytes[i] >= 32 && bytes[i] != 127) || bytes[i] == 9)
}

/// The new entries ahead of what the header held, joined by `", "`.
pub open spec fn merged_value(segment: Seq<u8>, existing: Option<Seq<u8>>) -> Seq<u8> {
    match existing {
        Some(e) => segment + seq![44u8, 32u8] + e,
        None => segment,
    }
}

/// What the header map holds once `segment` was merged into it, where that
/// succeeded.
pub open spec fn fields_after_merge(fields: Map<Seq<char>, Seq<Seq<u8>>>, segment: Seq<char>) -> Map<Seq<char>, Seq<Seq<u8>>> {
    fields.insert(timing_name(), seq![merged_value(encode_utf8(segment), existing_timing(fields))])
}

/// Relies on `HeaderMap::get`, which yields the first value under a name,
/// and on `HeaderValue::as_bytes`, which yields that value's bytes.
#[verifier::external_body]
fn first_header_value(headers: &HeaderMap, name: &str) -> (r: Option<Vec<u8>>)
    requires
        plain_name(name@),
    ensures
        match r {
            Some(v) => first_value(header_fields(*headers), name@) == Some(v@),
            None => first_value(header_fields(*headers), name@) is None,
        },
{
    match headers.get(name) {
        Some(v) => Some(v.as_bytes().to_vec()),
        None => None,
    }
}

/// Relies on `HeaderName::from_bytes`, which takes a plain name as it
/// stands; on `HeaderValue::from_bytes`, which accepts exactly the bytes that
/// are a tab or from 32 up but 127; and on `HeaderMap::try_insert`, which
/// either makes the value the only one under the name or, when the map
/// cannot grow past its largest size, leaves what the map holds as it was.
/// That size is `1 << 15` slots, which a map of fewer than 6554 names never
/// needs to pass.
#[verifier::external_body]
fn put_header_value(headers: &mut HeaderMap, name: &str, value: &[u8]) -> (r: bool)
    requires
        plain_name(name@),
    ensures
        !valid_value(value@) ==> !r,
        valid_value(value@) && has_room(header_fields(*old(headers))) ==> r,
        r ==> header_fields(*final(headers)) == header_fields(*old(headers)).insert(name@, seq![value@]),
        !r ==> header_fields(*final(headers)) == header_fields(*old(headers)),
{
    match (HeaderName::from_bytes(name.as_bytes()), HeaderValue::from_bytes(value)) {
        (Ok(k), Ok(v)) => headers.try_insert(k, v).is_ok(),
        _ => false,
    }
}

/// Puts `segment` ahead of what the `server-timing` header holds (joined by
/// `", "`), or sets the header to `segment` where it is absent. Where the
/// merged value is no valid header value, or the map is full, the header
/// stays as it was and the result is `false`; a valid value in a map with
/// room is always written.
pub fn add_timing_header(headers: &mut HeaderMap, segment: &str) -> (r: bool)
    ensures
        valid_value(merged_value(encode_utf8(segment@), existing_timing(header_fields(*old(headers)))))
            && has_room(header_fields(*old(headers))) ==> r,
        r ==> header_fields(*final(headers)) == fields_after_merge(header_fields(*old(headers)), segment@),
        !r ==> header_fields(*final(headers)) == header_fields(*old(headers)),
        !valid_value(merged_value(encode_utf8(segment@), existing_timing(header_fields(*old(headers))))) ==> !r,
{
    let name = "server-timing";
    proof {
        reveal_strlit("server-timing");
        assert(name@ =~= timing_name());
    }
    let existing = first_header_value(headers, name);
    let bytes = segment.as_bytes();
    let mut value: Vec<u8> = Vec::new();
    let mut i: usize = 0;
    while i < bytes.len()
        invariant
            i <= bytes@.len(),
            value@ == bytes@.take(i as int),
        decreases bytes@.len() - i,
    {
        value.push(bytes[i]);
        i = i + 1;
        assert(value@ =~= bytes@.take(i as int));
    }
    assert(bytes@.take(i as int) =~= bytes@);
    match existing {
        Some(e) => {
            value.push(44u8);
            value.push(32u8);
            let mut j: usize = 0;
            let ghost head = value@;
            while j < e.len()
                invariant
                    j <= e@.len(),
                    value@ == head + e@.take(j as int),
                decreases e@.len() - j,
            {
                value.push(e[j]);
                j = j + 1;
                assert(value@ =~= head + e@.take(j as int));
            }
            assert(e@.take(j as int) =~= e@);
        },
        None => {},
    }
    assert(value@ =~= merged_value(encode_utf8(segment@), existing_timing(header_fields(*old(headers)))));
    put_header_value(headers, name, value.as_slice())
}

impl ServerTiming {
    /// Merges the session's entries, timed up to now, into the
    /// `server-timing` header of `headers`; `false` where the header stayed
    /// as it was, which happens only for a value that no header may hold or in
    /// a map without room.
    pub fn apply(&self, headers: &mut HeaderMap) -> (r: bool)
        ensures
            exists|total: nat|
                (r ==> header_fields(*final(headers)) == fields_after_merge(header_fields(*old(headers)), segment_text(self@, total)))
                && (!r ==> header_fields(*final(headers)) == header_fields(*old(headers)))
                && (!valid_value(merged_value(encode_utf8(segment_text(self@, total)), existing_timing(header_fields(*old(headers))))) ==> !r)
                && (valid_value(merged_value(encode_utf8(segment_text(self@, total)), existing_timing(header_fields(*old(headers)))))
                    && has_room(header_fields(*old(headers))) ==> r),
    {
        let segment = self.finish();
        add_timing_header(headers, segment.as_str())
    }
}

} // verus!
