//! The canonical tagged record format: one line per record, a tag followed by
//! tab-separated `key=value` fields in a fixed order.
use vstd::prelude::*;
use crate::matrix::WrapPolicy;

verus! {

/// One `key=value` field, with the tab that precedes it.
pub open spec fn field(key: Seq<char>, value: Seq<char>) -> Seq<char> {
    seq!['\t'] + key + seq!['='] + value
}

/// The fields in order, each with its leading tab.
pub open spec fn fields_text(fields: Seq<(Seq<char>, Seq<char>)>) -> Seq<char>
    decreases fields.len(),
{
    if fields.len() == 0 {
        Seq::empty()
    } else {
        fields_text(fields.drop_last()) + field(fields.last().0, fields.last().1)
    }
}

/// A record line: the tag, then its fields.
pub open spec fn record(tag: Seq<char>, fields: Seq<(Seq<char>, Seq<char>)>) -> Seq<char> {
    tag + fields_text(fields)
}

/// What the keys and values of `fields` read.
pub open spec fn field_views(fields: Seq<(&str, String)>) -> Seq<(Seq<char>, Seq<char>)> {
    fields.map_values(|p: (&str, String)| (p.0@, p.1@))
}

/// Renders one record: the tag, then a tab and `key=value` for each field in order.
pub fn render_record(tag: &str, fields: &Vec<(&str, String)>) -> (r: String)
    ensures
        r@ == record(tag@, field_views(fields@)),
{
    let mut line = String::from_str(tag);
    let mut i: usize = 0;
    while i < fields.len()
        invariant
            0 <= i <= fields@.len(),
            line@ == tag@ + fields_text(field_views(fields@.subrange(0, i as int))),
        decreases fields@.len() - i,
    {
        proof {
            assert(field_views(fields@.subrange(0, i + 1)).drop_last() =~= field_views(
                fields@.subrange(0, i as int),
            ));
        }
        proof {
            reveal_strlit("\t");
            reveal_strlit("=");
        }
        let ghost before = line@;
        line.append("\t");
        line.append(fields[i].0);
        line.append("=");
        line.append(fields[i].1.as_str());
        proof {
            let fv = field_views(fields@.subrange(0, i + 1));
            assert(fv.last() == (fields@[i as int].0@, fields@[i as int].1@));
            assert(fields_text(fv) == fields_text(fv.drop_last()) + field(fv.last().0, fv.last().1));
            assert(line@ =~= before + field(fv.last().0, fv.last().1));
            assert(line@ =~= tag@ + fields_text(fv));
        }
        i = i + 1;
    }
    proof {
        assert(fields@.subrange(0, i as int) =~= fields@);
    }
    line
}

/// `1` for true, `0` for false.
pub open spec fn flag_text(v: bool) -> Seq<char> {
    if v {
        seq!['1']
    } else {
        seq!['0']
    }
}

pub fn bool01(v: bool) -> (r: &'static str)
    ensures
        r@ == flag_text(v),
{
    proof {
        reveal_strlit("1");
        reveal_strlit("0");
    }
    if v {
        "1"
    } else {
        "0"
    }
}

/// The name that records give a wrap policy.
pub open spec fn wrap_text(w: WrapPolicy) -> Seq<char> {
    match w {
        WrapPolicy::NoWrap => "None"@,
        WrapPolicy::Glyph => "Glyph"@,
        WrapPolicy::Word => "Word"@,
        WrapPolicy::WordOrGlyph => "WordOrGlyph"@,
    }
}

pub fn wrap_name(w: WrapPolicy) -> (r: &'static str)
    ensures
        r@ == wrap_text(w),
{
    match w {
        WrapPolicy::NoWrap => "None",
        WrapPolicy::Glyph => "Glyph",
        WrapPolicy::Word => "Word",
        WrapPolicy::WordOrGlyph => "WordOrGlyph",
    }
}

/// A width as records write it: its text, or `none` for an unconstrained line.
pub open spec fn width_text(width: Option<Seq<char>>) -> Seq<char> {
    match width {
        None => "none"@,
        Some(t) => t,
    }
}

/// The width field's value, from the width's six-digit text when one is given.
pub fn width_name(width: &Option<String>) -> (r: String)
    ensures
        r@ == width_text(
            match width {
                None => None,
                Some(t) => Some(t@),
            },
        ),
{
    match width {
        None => String::from_str("none"),
        Some(t) => t.clone(),
    }
}

} // verus!
