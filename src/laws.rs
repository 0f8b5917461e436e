//! Properties of the header that the middleware produces.

use vstd::prelude::*;
use vstd::utf8::encode_utf8;
use crate::format::{entry_text, millis_text};
use crate::headers::{existing_timing, fields_after_merge, timing_name};
use crate::session::{after_record, gap, records_text, segment_text, SessionState, TimingRecord};

verus! {

/// The header value of a session opens with the application's own entry:
/// `app;dur=` followed by the total time where there is no description, and
/// `app;desc="description";dur=` followed by the total time where there is one.
pub proof fn lemma_header_opens_with_app(s: SessionState, total: nat)
    ensures
        segment_text(s, total).subrange(0, entry_text(s.app, s.description, total).len() as int)
            == entry_text(s.app, s.description, total),
        s.description is None ==> entry_text(s.app, s.description, total) == s.app + ";dur="@ + millis_text(total),
        s.description matches Some(d) ==> entry_text(s.app, s.description, total)
            == s.app + ";desc=\""@ + d + "\";dur="@ + millis_text(total),
{
    let e = entry_text(s.app, s.description, total);
    assert(segment_text(s, total).subrange(0, e.len() as int) =~= e);
}

/// Merging into a response that already carries a `server-timing` value puts
/// the middleware's entries first and keeps the earlier value, whole, after
/// them; without an earlier value the header holds the entries alone.
pub proof fn lemma_existing_value_follows(fields: Map<Seq<char>, Seq<Seq<u8>>>, segment: Seq<char>)
    ensures
        fields_after_merge(fields, segment).contains_key(timing_name()),
        existing_timing(fields) matches Some(e) ==> fields_after_merge(fields, segment)[timing_name()]
            == seq![encode_utf8(segment) + seq![44u8, 32u8] + e],
        existing_timing(fields) is None ==> fields_after_merge(fields, segment)[timing_name()]
            == seq![encode_utf8(segment)],
        forall|k: Seq<char>| k != timing_name() ==> fields_after_merge(fields, segment).contains_key(k) == fields.contains_key(k)
            && (fields.contains_key(k) ==> fields_after_merge(fields, segment)[k] == fields[k]),
{
}

/// Two `record` calls add exactly two entries after those already there, in
/// the order of the calls, each after the application's own entry.
pub proof fn lemma_records_in_call_order(
    s: SessionState,
    name1: Seq<char>,
    description1: Option<Seq<char>>,
    now1: nat,
    name2: Seq<char>,
    description2: Option<Seq<char>>,
    now2: nat,
    total: nat,
)
    ensures
        ({
            let s1 = after_record(s, name1, description1, now1);
            let s2 = after_record(s1, name2, description2, now2);
            &&& s2.records.len() == s.records.len() + 2
            &&& s2.records[s.records.len() as int].name == name1
            &&& s2.records[s.records.len() + 1int].name == name2
            &&& s2.records.take(s.records.len() as int) == s.records
            &&& segment_text(s2, total) == entry_text(s.app, s.description, total) + records_text(s.records)
                + ", "@ + entry_text(name1, description1, gap(now1, s.mark))
                + ", "@ + entry_text(name2, description2, gap(now2, s1.mark))
        }),
{
    let s1 = after_record(s, name1, description1, now1);
    let s2 = after_record(s1, name2, description2, now2);
    assert(s2.records.drop_last() =~= s1.records);
    assert(s1.records.drop_last() =~= s.records);
    assert(s2.records.take(s.records.len() as int) =~= s.records);
    assert(s1.records.last() == (TimingRecord { name: name1, description: description1, nanos: gap(now1, s.mark) }));
    assert(s2.records.last() == (TimingRecord { name: name2, description: description2, nanos: gap(now2, s1.mark) }));
    assert(records_text(s1.records) == records_text(s.records) + ", "@ + entry_text(name1, description1, gap(now1, s.mark)));
    assert(records_text(s2.records) == records_text(s1.records) + ", "@ + entry_text(name2, description2, gap(now2, s1.mark)));
    assert(segment_text(s2, total) =~= entry_text(s.app, s.description, total) + records_text(s.records)
        + ", "@ + entry_text(name1, description1, gap(now1, s.mark))
        + ", "@ + entry_text(name2, description2, gap(now2, s1.mark)));
}

} // verus!
