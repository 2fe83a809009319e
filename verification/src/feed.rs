//! The data-driven feed parser.  A descriptor's property table is its bound
//! parsing strategy: the parser splits a sanitized feed body into entry
//! segments, then reads each property of the schema out of each segment by
//! its wire tag, decoding the standard XML character entities in the values.

use vstd::prelude::*;

use crate::catalog::{EntityDescriptor, PropertyDescriptor, PropertyModel};
use crate::text::{
    chars_of, contains_pattern, contains_seq, find_at, find_from, lemma_find_at_first, match_at,
    matches_at, subvec,
};

verus! {

/// The segments of `text` lying strictly between an occurrence of `open` and
/// the next following occurrence of `close`, from position `from` on,
/// left to right and without overlap.
pub open spec fn extract_spec(
    text: Seq<char>,
    open: Seq<char>,
    close: Seq<char>,
    from: int,
) -> Seq<Seq<char>>
    decreases text.len() - from
        when 0 <= from && open.len() > 0 && close.len() > 0
        via extract_spec_dec
{
    match find_at(text, open, from) {
        None => Seq::empty(),
        Some(i) => {
            let vstart = i + open.len();
            match find_at(text, close, vstart) {
                None => Seq::empty(),
                Some(j) => seq![text.subrange(vstart, j)] + extract_spec(
                    text,
                    open,
                    close,
                    j + close.len(),
                ),
            }
        },
    }
}

#[via_fn]
proof fn extract_spec_dec(text: Seq<char>, open: Seq<char>, close: Seq<char>, from: int) {
    lemma_find_at_first(text, open, from);
    match find_at(text, open, from) {
        None => {},
        Some(i) => {
            lemma_find_at_first(text, close, i + open.len());
        },
    }
}

/// All the segments of `text` between `open` and `close`, in order.
pub fn extract_segments(text: &Vec<char>, open: &Vec<char>, close: &Vec<char>) -> (segs: Vec<
    Vec<char>,
>)
    requires
        open@.len() > 0,
        close@.len() > 0,
    ensures
        segs@.map_values(|v: Vec<char>| v@) == extract_spec(text@, open@, close@, 0),
{
    let mut segs: Vec<Vec<char>> = Vec::new();
    let mut from: usize = 0;
    loop
        invariant
            open@.len() > 0,
            close@.len() > 0,
            extract_spec(text@, open@, close@, 0) == segs@.map_values(|v: Vec<char>| v@)
                + extract_spec(text@, open@, close@, from as int),
        decreases text@.len() + 1 - from,
    {
        let text_len = text.len();
        let found_open = find_from(text, open, from);
        match found_open {
            None => {
                proof {
                    assert(extract_spec(text@, open@, close@, from as int) =~= Seq::empty());
                    assert(segs@.map_values(|v: Vec<char>| v@) =~= segs@.map_values(
                        |v: Vec<char>| v@,
                    ) + Seq::empty());
                }
                return segs;
            },
            Some(i) => {
                proof {
                    lemma_find_at_first(text@, open@, from as int);
                    assert(matches_at(text@, open@, i as int));
                    assert(i + open@.len() <= text_len);
                }
                let vstart = i + open.len();
                let found_close = find_from(text, close, vstart);
                match found_close {
                    None => {
                        proof {
                            assert(extract_spec(text@, open@, close@, from as int)
                                =~= Seq::empty());
                            assert(segs@.map_values(|v: Vec<char>| v@) =~= segs@.map_values(
                                |v: Vec<char>| v@,
                            ) + Seq::empty());
                        }
                        return segs;
                    },
                    Some(j) => {
                        proof {
                            lemma_find_at_first(text@, close@, vstart as int);
                            assert(matches_at(text@, close@, j as int));
                            assert(vstart <= j && j + close@.len() <= text_len);
                        }
                        let seg = subvec(text, vstart, j);
                        let ghost old_segs = segs@;
                        let ghost old_from = from as int;
                        segs.push(seg);
                        from = j + close.len();
                        proof {
                            let f = |v: Vec<char>| v@;
                            assert(segs@.map_values(f) =~= old_segs.map_values(f).push(seg@));
                            assert(extract_spec(text@, open@, close@, old_from) == seq![seg@]
                                + extract_spec(text@, open@, close@, from as int));
                            assert(old_segs.map_values(f) + extract_spec(
                                text@,
                                open@,
                                close@,
                                old_from,
                            ) =~= segs@.map_values(f) + extract_spec(
                                text@,
                                open@,
                                close@,
                                from as int,
                            ));
                        }
                    },
                }
            },
        }
    }
}

/// The five standard XML character entities and their replacements.
pub open spec fn amp_entity() -> Seq<char> {
    seq!['&', 'a', 'm', 'p', ';']
}

pub open spec fn lt_entity() -> Seq<char> {
    seq!['&', 'l', 't', ';']
}

pub open spec fn gt_entity() -> Seq<char> {
    seq!['&', 'g', 't', ';']
}

pub open spec fn quot_entity() -> Seq<char> {
    seq!['&', 'q', 'u', 'o', 't', ';']
}

pub open spec fn apos_entity() -> Seq<char> {
    seq!['&', 'a', 'p', 'o', 's', ';']
}

/// `s` with every standard XML character entity replaced by the character it
/// stands for, scanning left to right; any other text is kept as it is.
pub open spec fn decode_spec(s: Seq<char>) -> Seq<char>
    decreases s.len(),
{
    if s.len() == 0 {
        s
    } else if matches_at(s, amp_entity(), 0) {
        seq!['&'] + decode_spec(s.skip(5))
    } else if matches_at(s, lt_entity(), 0) {
        seq!['<'] + decode_spec(s.skip(4))
    } else if matches_at(s, gt_entity(), 0) {
        seq!['>'] + decode_spec(s.skip(4))
    } else if matches_at(s, quot_entity(), 0) {
        seq!['"'] + decode_spec(s.skip(6))
    } else if matches_at(s, apos_entity(), 0) {
        seq!['\''] + decode_spec(s.skip(6))
    } else {
        seq![s[0]] + decode_spec(s.skip(1))
    }
}

/// Matching a pattern inside `s` at `at` is matching it at the head of the
/// suffix of `s` starting there.
proof fn lemma_matches_at_skip(s: Seq<char>, pat: Seq<char>, at: int)
    requires
        0 <= at <= s.len(),
    ensures
        matches_at(s, pat, at) == matches_at(s.skip(at), pat, 0),
{
    if matches_at(s, pat, at) {
        assert forall|k: int| 0 <= k < pat.len() implies s.skip(at)[k] == pat[k] by {
            assert(s[at + k] == pat[k]);
        }
    } else if matches_at(s.skip(at), pat, 0) {
        assert forall|k: int| 0 <= k < pat.len() implies s[at + k] == pat[k] by {
            assert(s.skip(at)[k] == pat[k]);
        }
    }
}

/// Decodes the five standard XML character entities in `s`.
pub fn decode_entities(s: &Vec<char>) -> (r: Vec<char>)
    ensures
        r@ == decode_spec(s@),
{
    let amp: Vec<char> = vec!['&', 'a', 'm', 'p', ';'];
    let lt: Vec<char> = vec!['&', 'l', 't', ';'];
    let gt: Vec<char> = vec!['&', 'g', 't', ';'];
    let quot: Vec<char> = vec!['&', 'q', 'u', 'o', 't', ';'];
    let apos: Vec<char> = vec!['&', 'a', 'p', 'o', 's', ';'];
    let mut r: Vec<char> = Vec::new();
    let mut i: usize = 0;
    proof {
        assert(s@.skip(0) =~= s@);
        assert(Seq::<char>::empty() + decode_spec(s@) =~= decode_spec(s@));
    }
    while i < s.len()
        invariant
            i <= s@.len(),
            amp@ == amp_entity(),
            lt@ == lt_entity(),
            gt@ == gt_entity(),
            quot@ == quot_entity(),
            apos@ == apos_entity(),
            decode_spec(s@) == r@ + decode_spec(s@.skip(i as int)),
        decreases s@.len() - i,
    {
        let ghost old_i = i as int;
        let ghost suffix = s@.skip(old_i);
        proof {
            lemma_matches_at_skip(s@, amp_entity(), old_i);
            lemma_matches_at_skip(s@, lt_entity(), old_i);
            lemma_matches_at_skip(s@, gt_entity(), old_i);
            lemma_matches_at_skip(s@, quot_entity(), old_i);
            lemma_matches_at_skip(s@, apos_entity(), old_i);
            assert(suffix.len() > 0);
            assert(suffix[0] == s@[old_i]);
        }
        if match_at(s, &amp, i) {
            r.push('&');
            i = i + 5;
        } else if match_at(s, &lt, i) {
            r.push('<');
            i = i + 4;
        } else if match_at(s, &gt, i) {
            r.push('>');
            i = i + 4;
        } else if match_at(s, &quot, i) {
            r.push('"');
            i = i + 6;
        } else if match_at(s, &apos, i) {
            r.push('\'');
            i = i + 6;
        } else {
            r.push(s[i]);
            i = i + 1;
        }
        proof {
            assert(suffix.skip(i - old_i) =~= s@.skip(i as int));
            assert(r@ + decode_spec(s@.skip(i as int)) =~= decode_spec(s@));
        }
    }
    proof {
        assert(decode_spec(s@.skip(s@.len() as int)) =~= Seq::<char>::empty());
        assert(decode_spec(s@.skip(s@.len() as int)).len() == 0);
        assert(r@ =~= decode_spec(s@));
    }
    r
}

/// Opening tag of the property with wire name `wire` inside an entry.
pub open spec fn open_tag(wire: Seq<char>) -> Seq<char> {
    seq!['<', 'd', ':'] + wire + seq!['>']
}

/// Closing tag of the property with wire name `wire`.
pub open spec fn close_tag(wire: Seq<char>) -> Seq<char> {
    seq!['<', '/', 'd', ':'] + wire + seq!['>']
}

/// The decoded text of the first occurrence of property `wire` in an entry
/// segment, or nothing when the entry does not carry the property.
pub open spec fn field_of(entry: Seq<char>, wire: Seq<char>) -> Option<Seq<char>> {
    match find_at(entry, open_tag(wire), 0) {
        None => None,
        Some(i) => {
            let vstart = i + open_tag(wire).len();
            match find_at(entry, close_tag(wire), vstart) {
                None => None,
                Some(j) => Some(decode_spec(entry.subrange(vstart, j))),
            }
        },
    }
}

/// One parsed field: the schema's client-facing field name and the decoded
/// value, or `None` where the entry does not carry the property.
#[derive(Clone, Debug, PartialEq, Eq)]
pub struct RecordField {
    pub name: String,
    pub value: Option<Vec<char>>,
}

/// Model of one parsed field.
#[verifier::ext_equal]
pub struct FieldModel {
    pub name: Seq<char>,
    pub value: Option<Seq<char>>,
}

impl RecordField {
    pub open spec fn model(self) -> FieldModel {
        (FieldModel {
            name: self.name@,
            value: match self.value {
                Some(v) => Some(v@),
                None => None,
            },
        })
    }
}

/// One typed record of a collection: one field per schema property, in
/// schema order.
#[derive(Clone, Debug, PartialEq, Eq)]
pub struct EntityRecord {
    pub fields: Vec<RecordField>,
}

impl EntityRecord {
    pub open spec fn model(self) -> Seq<FieldModel> {
        self.fields@.map_values(|f: RecordField| f.model())
    }
}

/// The record an entry segment parses to under a property table: one field
/// per property, in schema order.
pub open spec fn record_of(entry: Seq<char>, props: Seq<PropertyModel>) -> Seq<FieldModel> {
    Seq::new(
        props.len(),
        |k: int| (FieldModel { name: props[k].name, value: field_of(entry, props[k].wire_name) }),
    )
}

/// Builds the character vector `prefix` + `wire` + `>`: the form of both the
/// opening and the closing tag of a property.
fn tag_chars(prefix: &str, wire: &String) -> (v: Vec<char>)
    ensures
        v@ == prefix@ + wire@ + seq!['>'],
        v@.len() == prefix@.len() + wire@.len() + 1,
{
    let mut t = prefix.to_owned();
    t.append(wire.as_str());
    t.append(">");
    let v = chars_of(t.as_str());
    proof {
        reveal_strlit(">");
        assert(v@ =~= prefix@ + wire@ + seq!['>']);
    }
    v
}

/// Reads one property out of an entry segment.
pub fn extract_field(entry: &Vec<char>, wire: &String) -> (r: Option<Vec<char>>)
    ensures
        match r {
            Some(v) => field_of(entry@, wire@) == Some(v@),
            None => field_of(entry@, wire@) is None,
        },
{
    let open = tag_chars("<d:", wire);
    let close = tag_chars("</d:", wire);
    proof {
        reveal_strlit("<d:");
        reveal_strlit("</d:");
        assert(open@ =~= open_tag(wire@));
        assert(close@ =~= close_tag(wire@));
    }
    let entry_len = entry.len();
    let found_open = find_from(entry, &open, 0);
    match found_open {
        None => None,
        Some(i) => {
            proof {
                lemma_find_at_first(entry@, open@, 0);
                assert(matches_at(entry@, open@, i as int));
                assert(i + open@.len() <= entry_len);
            }
            let vstart = i + open.len();
            let found_close = find_from(entry, &close, vstart);
            match found_close {
                None => None,
                Some(j) => {
                    proof {
                        lemma_find_at_first(entry@, close@, vstart as int);
                        assert(vstart <= j <= entry_len);
                    }
                    let raw = subvec(entry, vstart, j);
                    Some(decode_entities(&raw))
                },
            }
        },
    }
}

/// Parses one entry segment into a record under a descriptor's property
/// table.
pub fn extract_record(entry: &Vec<char>, props: &Vec<PropertyDescriptor>) -> (r: EntityRecord)
    ensures
        r.model() == record_of(entry@, props@.map_values(|p: PropertyDescriptor| p.model())),
{
    let ghost prop_models = props@.map_values(|p: PropertyDescriptor| p.model());
    let mut fields: Vec<RecordField> = Vec::new();
    let mut k: usize = 0;
    proof {
        assert(fields@.map_values(|f: RecordField| f.model()) =~~= record_of(
            entry@,
            prop_models,
        ).take(0));
    }
    while k < props.len()
        invariant
            k <= props@.len(),
            prop_models == props@.map_values(|p: PropertyDescriptor| p.model()),
            fields@.len() == k,
            fields@.map_values(|f: RecordField| f.model()) == record_of(entry@, prop_models).take(
                k as int,
            ),
        decreases props@.len() - k,
    {
        let value = extract_field(entry, &props[k].wire_name);
        fields.push(RecordField { name: props[k].name.clone(), value });
        proof {
            assert(prop_models[k as int] == props@[k as int].model());
            assert(fields@[k as int].model().name == prop_models[k as int].name);
            assert(fields@[k as int].model().value == field_of(
                entry@,
                prop_models[k as int].wire_name,
            ));
            assert(fields@.map_values(|f: RecordField| f.model()) =~~= record_of(
                entry@,
                prop_models,
            ).take(k as int + 1));
        }
        k = k + 1;
    }
    let r = EntityRecord { fields };
    proof {
        assert(r.model() =~~= record_of(entry@, prop_models));
    }
    r
}

/// Opening of a feed document's root element.
pub open spec fn feed_marker() -> Seq<char> {
    seq!['<', 'f', 'e', 'e', 'd']
}

/// Opening of an entry element (attributes may follow).
pub open spec fn entry_open() -> Seq<char> {
    seq!['<', 'e', 'n', 't', 'r', 'y']
}

/// Closing tag of an entry element.
pub open spec fn entry_close() -> Seq<char> {
    seq!['<', '/', 'e', 'n', 't', 'r', 'y', '>']
}

/// The entry segments of a feed body, in document order.
pub open spec fn entries_of(xml: Seq<char>) -> Seq<Seq<char>> {
    extract_spec(xml, entry_open(), entry_close(), 0)
}

/// The records a feed body parses to under a property table: one record per
/// entry, in document order.
pub open spec fn feed_records(xml: Seq<char>, props: Seq<PropertyModel>) -> Seq<Seq<FieldModel>> {
    entries_of(xml).map_values(|e: Seq<char>| record_of(e, props))
}

/// Rejection signal for a body that does not hold a feed document.
#[derive(Clone, Copy, Debug, PartialEq, Eq, Structural)]
pub struct MalformedPayload;

/// The descriptor's bound parsing strategy: parses a sanitized feed body into
/// this schema's typed records.  Succeeds exactly on bodies holding a feed
/// root element; the records are then the entries' fields under the
/// descriptor's property table, in document order.
pub fn parse_feed(desc: &EntityDescriptor, xml: &Vec<char>) -> (r: Result<
    Vec<EntityRecord>,
    MalformedPayload,
>)
    ensures
        r is Ok <==> contains_seq(xml@, feed_marker()),
        match r {
            Ok(records) => records@.map_values(|rec: EntityRecord| rec.model()) == feed_records(
                xml@,
                desc.model().properties,
            ),
            Err(MalformedPayload) => !contains_seq(xml@, feed_marker()),
        },
{
    let marker: Vec<char> = vec!['<', 'f', 'e', 'e', 'd'];
    if !contains_pattern(xml, &marker) {
        return Err(MalformedPayload);
    }
    let ghost prop_models = desc.model().properties;
    let open: Vec<char> = vec!['<', 'e', 'n', 't', 'r', 'y'];
    let close: Vec<char> = vec!['<', '/', 'e', 'n', 't', 'r', 'y', '>'];
    let segments = extract_segments(xml, &open, &close);
    let ghost segment_views = segments@.map_values(|v: Vec<char>| v@);
    let mut records: Vec<EntityRecord> = Vec::new();
    let mut k: usize = 0;
    proof {
        assert(records@.map_values(|rec: EntityRecord| rec.model()) =~~= feed_records(
            xml@,
            prop_models,
        ).take(0));
    }
    while k < segments.len()
        invariant
            k <= segments@.len(),
            prop_models == desc.model().properties,
            segment_views == segments@.map_values(|v: Vec<char>| v@),
            segment_views == entries_of(xml@),
            records@.len() == k,
            records@.map_values(|rec: EntityRecord| rec.model()) == feed_records(
                xml@,
                prop_models,
            ).take(k as int),
        decreases segments@.len() - k,
    {
        let record = extract_record(&segments[k], &desc.properties);
        records.push(record);
        proof {
            assert(segment_views[k as int] == segments@[k as int]@);
            assert(feed_records(xml@, prop_models)[k as int] == record_of(
                segment_views[k as int],
                prop_models,
            ));
            assert(records@.map_values(|rec: EntityRecord| rec.model()) =~~= feed_records(
                xml@,
                prop_models,
            ).take(k as int + 1));
        }
        k = k + 1;
    }
    proof {
        assert(records@.map_values(|rec: EntityRecord| rec.model()) =~~= feed_records(
            xml@,
            prop_models,
        ));
    }
    Ok(records)
}

} // verus!
