//! Result rendering: a human-readable, field-by-field text dump of parsed
//! records, for operators inspecting the feed rather than machine clients.

use vstd::prelude::*;

use crate::feed::{EntityRecord, FieldModel};

verus! {

/// Placeholder text for a property an entry does not carry.
pub open spec fn null_text() -> Seq<char> {
    seq!['(', 'n', 'u', 'l', 'l', ')']
}

/// One rendered field: `name: value`, on a line of its own.
pub open spec fn render_field(f: FieldModel) -> Seq<char> {
    f.name + seq![':', ' '] + (match f.value {
        Some(v) => v,
        None => null_text(),
    }) + seq!['\n']
}

/// One record's fields, rendered in schema order.
pub open spec fn render_fields(fs: Seq<FieldModel>) -> Seq<char>
    decreases fs.len(),
{
    if fs.len() == 0 {
        Seq::empty()
    } else {
        render_fields(fs.drop_last()) + render_field(fs.last())
    }
}

/// All records rendered in document order, a blank line after each.
pub open spec fn render_records_text(rs: Seq<Seq<FieldModel>>) -> Seq<char>
    decreases rs.len(),
{
    if rs.len() == 0 {
        Seq::empty()
    } else {
        render_records_text(rs.drop_last()) + render_fields(rs.last()) + seq!['\n']
    }
}

/// Appends `s` to `out`.
fn append_chars(out: &mut Vec<char>, s: &Vec<char>)
    ensures
        final(out)@ == old(out)@ + s@,
{
    let mut k: usize = 0;
    while k < s.len()
        invariant
            k <= s@.len(),
            out@ == old(out)@ + s@.take(k as int),
        decreases s@.len() - k,
    {
        out.push(s[k]);
        proof {
            assert(old(out)@ + s@.take(k as int + 1) =~= (old(out)@ + s@.take(k as int)).push(
                s@[k as int],
            ));
        }
        k = k + 1;
    }
    proof {
        assert(out@ =~= old(out)@ + s@);
    }
}

/// Renders one record.
fn append_record(out: &mut Vec<char>, record: &EntityRecord)
    ensures
        final(out)@ == old(out)@ + render_fields(record.model()),
{
    let ghost fs = record.model();
    let mut k: usize = 0;
    proof {
        assert(out@ =~= old(out)@ + render_fields(fs.take(0)));
    }
    while k < record.fields.len()
        invariant
            k <= record.fields@.len(),
            fs == record.model(),
            fs.len() == record.fields@.len(),
            out@ == old(out)@ + render_fields(fs.take(k as int)),
        decreases record.fields@.len() - k,
    {
        let ghost before = out@;
        let field = &record.fields[k];
        let name_chars = chars_of_string(&field.name);
        append_chars(out, &name_chars);
        out.push(':');
        out.push(' ');
        match &field.value {
            Some(v) => append_chars(out, v),
            None => {
                out.push('(');
                out.push('n');
                out.push('u');
                out.push('l');
                out.push('l');
                out.push(')');
            },
        }
        out.push('\n');
        proof {
            assert(fs[k as int] == record.fields@[k as int].model());
            assert(out@ =~= before + render_field(fs[k as int]));
            assert(fs.take(k as int + 1).drop_last() =~= fs.take(k as int));
            assert(fs.take(k as int + 1).last() == fs[k as int]);
            assert(out@ =~= old(out)@ + render_fields(fs.take(k as int + 1)));
        }
        k = k + 1;
    }
    proof {
        assert(fs.take(fs.len() as int) =~= fs);
    }
}

/// The characters of a `String`.
fn chars_of_string(s: &String) -> (v: Vec<char>)
    ensures
        v@ == s@,
{
    crate::text::chars_of(s.as_str())
}

/// Renders a parsed record sequence as readable text: each record a block of
/// `name: value` lines in schema order, a blank line after each record, and
/// `(null)` standing for a property an entry does not carry.
pub fn render_records(records: &Vec<EntityRecord>) -> (out: Vec<char>)
    ensures
        out@ == render_records_text(records@.map_values(|r: EntityRecord| r.model())),
{
    let ghost rs = records@.map_values(|r: EntityRecord| r.model());
    let mut out: Vec<char> = Vec::new();
    let mut k: usize = 0;
    proof {
        assert(out@ =~= render_records_text(rs.take(0)));
    }
    while k < records.len()
        invariant
            k <= records@.len(),
            rs == records@.map_values(|r: EntityRecord| r.model()),
            rs.len() == records@.len(),
            out@ == render_records_text(rs.take(k as int)),
        decreases records@.len() - k,
    {
        let ghost before = out@;
        append_record(&mut out, &records[k]);
        out.push('\n');
        proof {
            assert(rs[k as int] == records@[k as int].model());
            assert(out@ =~= before + render_fields(rs[k as int]) + seq!['\n']);
            assert(rs.take(k as int + 1).drop_last() =~= rs.take(k as int));
            assert(rs.take(k as int + 1).last() == rs[k as int]);
            assert(out@ =~= render_records_text(rs.take(k as int + 1)));
        }
        k = k + 1;
    }
    proof {
        assert(rs.take(rs.len() as int) =~= rs);
    }
    out
}

} // verus!
