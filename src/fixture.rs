//! The records of one case: what shaping and layout produced for it, in the
//! canonical format, with offsets in UTF-16 code units and faces as catalog
//! indices.
use vstd::prelude::*;
use cosmic_text::fontdb::ID;
use crate::catalog::{face_index, FontCatalog};
use crate::decimal::{decimal, decimal_text, signed_decimal, signed_decimal_text};
use crate::matrix::ParityCase;
use crate::offsets::{utf16_index, utf16_index_for_byte};
use crate::records::{
    bool01, field, field_views, fields_text, flag_text, record, render_record, width_name, width_text, wrap_name,
    wrap_text,
};

verus! {

/// A glyph as shaping produced it, in logical order. Offsets are bytes of the
/// case text; the floating-point attributes are held as their six-digit text.
pub struct ShapedGlyph {
    pub start: usize,
    pub end: usize,
    pub font_id: ID,
    pub glyph_id: u16,
    pub x_advance: String,
    pub y_advance: String,
    pub x_offset: String,
    pub y_offset: String,
    pub metadata: usize,
}

/// The rasterization cache key of a positioned glyph, field by field.
pub struct CacheKeyFields {
    pub font_id: ID,
    pub glyph_id: u16,
    pub size_bits: u32,
    pub x_bin: String,
    pub y_bin: String,
    pub weight: u16,
    pub flags: u32,
}

/// A glyph as layout placed it, in visual order within its line.
pub struct LayoutGlyph {
    pub start: usize,
    pub end: usize,
    pub font_id: ID,
    pub glyph_id: u16,
    pub x: String,
    pub y: String,
    pub w: String,
    pub level: u8,
    pub metadata: usize,
    pub cache_key: CacheKeyFields,
    /// Whether the rasterizer could produce an image for the cache key.
    pub has_image: bool,
}

/// One visual line: its width's text and its glyphs.
pub struct LaidLine {
    pub w: String,
    pub glyphs: Vec<LayoutGlyph>,
}

/// The glyphs of a span's words, word after word.
pub open spec fn word_glyphs(words: Seq<Vec<ShapedGlyph>>) -> Seq<ShapedGlyph>
    decreases words.len(),
{
    if words.len() == 0 {
        Seq::empty()
    } else {
        words[0]@ + word_glyphs(words.drop_first())
    }
}

/// The glyphs of a shaped line's spans, span after span.
pub open spec fn span_glyphs(spans: Seq<Vec<Vec<ShapedGlyph>>>) -> Seq<ShapedGlyph>
    decreases spans.len(),
{
    if spans.len() == 0 {
        Seq::empty()
    } else {
        word_glyphs(spans[0]@) + span_glyphs(spans.drop_first())
    }
}

/// Flattens shaping's grouping of glyphs into spans and words into one
/// sequence in logical order.
pub fn flatten_glyphs(spans: Vec<Vec<Vec<ShapedGlyph>>>) -> (r: Vec<ShapedGlyph>)
    ensures
        r@ == span_glyphs(spans@),
{
    let ghost all = spans@;
    let mut spans = spans;
    let mut r: Vec<ShapedGlyph> = Vec::new();
    while spans.len() > 0
        invariant
            r@ + span_glyphs(spans@) == span_glyphs(all),
        decreases spans@.len(),
    {
        let ghost rest = spans@;
        let mut words = spans.remove(0);
        assert(spans@ =~= rest.drop_first());
        assert(r@ + word_glyphs(words@) + span_glyphs(spans@) =~= r@ + span_glyphs(rest));
        while words.len() > 0
            invariant
                r@ + word_glyphs(words@) + span_glyphs(spans@) == span_glyphs(all),
            decreases words@.len(),
        {
            let ghost ws = words@;
            let mut glyphs = words.remove(0);
            assert(words@ =~= ws.drop_first());
            let ghost before = r@;
            r.append(&mut glyphs);
            assert(r@ + word_glyphs(words@) + span_glyphs(spans@) =~= before + word_glyphs(ws)
                + span_glyphs(spans@));
        }
        assert(r@ + span_glyphs(spans@) =~= r@ + word_glyphs(words@) + span_glyphs(spans@));
    }
    assert(r@ + span_glyphs(spans@) =~= r@);
    r
}

/// A byte offset of `text`, written as its UTF-16 offset.
pub open spec fn offset_text(text: Seq<char>, b: usize) -> Seq<char> {
    decimal(utf16_index(text, b as int))
}

/// A face, written as its catalog index.
pub open spec fn font_text(faces: Seq<ID>, id: ID) -> Seq<char> {
    signed_decimal(face_index(faces, id))
}

pub open spec fn opt_view(o: Option<String>) -> Option<Seq<char>> {
    match o {
        None => None,
        Some(t) => Some(t@),
    }
}

pub open spec fn case_fields(c: ParityCase, font_size: Seq<char>, width: Seq<char>) -> Seq<
    (Seq<char>, Seq<char>),
> {
    seq![
        ("case"@, c.id@),
        ("family"@, c.family@),
        ("font_size"@, font_size),
        ("wrap"@, wrap_text(c.wrap)),
        ("width"@, width),
    ]
}

pub open spec fn shape_fields(id: Seq<char>, rtl: bool, count: nat) -> Seq<(Seq<char>, Seq<char>)> {
    seq![("case"@, id), ("rtl"@, flag_text(rtl)), ("count"@, decimal(count))]
}

pub open spec fn sg_fields(faces: Seq<ID>, c: ParityCase, index: nat, g: ShapedGlyph) -> Seq<
    (Seq<char>, Seq<char>),
> {
    seq![
        ("case"@, c.id@),
        ("index"@, decimal(index)),
        ("start"@, offset_text(c.text@, g.start)),
        ("end"@, offset_text(c.text@, g.end)),
        ("font"@, font_text(faces, g.font_id)),
        ("glyph"@, decimal(g.glyph_id as nat)),
        ("xa"@, g.x_advance@),
        ("ya"@, g.y_advance@),
        ("xo"@, g.x_offset@),
        ("yo"@, g.y_offset@),
        ("meta"@, decimal(g.metadata as nat)),
    ]
}

pub open spec fn ll_fields(id: Seq<char>, line: nat, w: Seq<char>, count: nat) -> Seq<
    (Seq<char>, Seq<char>),
> {
    seq![("case"@, id), ("line"@, decimal(line)), ("w"@, w), ("count"@, decimal(count))]
}

/// The cache-key fields of a layout record; they depend on the cache key alone.
pub open spec fn cache_key_fields(faces: Seq<ID>, k: CacheKeyFields) -> Seq<(Seq<char>, Seq<char>)> {
    seq![
        ("ck_font"@, font_text(faces, k.font_id)),
        ("ck_gid"@, decimal(k.glyph_id as nat)),
        ("ck_size_bits"@, decimal(k.size_bits as nat)),
        ("ck_x_bin"@, k.x_bin@),
        ("ck_y_bin"@, k.y_bin@),
        ("ck_weight"@, decimal(k.weight as nat)),
        ("ck_flags"@, decimal(k.flags as nat)),
    ]
}

pub open spec fn lg_fields(
    faces: Seq<ID>,
    c: ParityCase,
    line: nat,
    index: nat,
    g: LayoutGlyph,
) -> Seq<(Seq<char>, Seq<char>)> {
    seq![
        ("case"@, c.id@),
        ("line"@, decimal(line)),
        ("index"@, decimal(index)),
        ("start"@, offset_text(c.text@, g.start)),
        ("end"@, offset_text(c.text@, g.end)),
        ("font"@, font_text(faces, g.font_id)),
        ("glyph"@, decimal(g.glyph_id as nat)),
        ("x"@, g.x@),
        ("y"@, g.y@),
        ("w"@, g.w@),
        ("level"@, decimal(g.level as nat)),
        ("meta"@, decimal(g.metadata as nat)),
    ] + cache_key_fields(faces, g.cache_key) + seq![("img"@, flag_text(g.has_image))]
}

fn offset_field(text: &str, b: usize) -> (r: String)
    ensures
        r@ == offset_text(text@, b),
{
    decimal_text(utf16_index_for_byte(text, b) as u64)
}

fn font_field(catalog: &FontCatalog, id: &ID) -> (r: String)
    requires
        catalog.wf(),
    ensures
        r@ == font_text(catalog@, *id),
{
    signed_decimal_text(catalog.index_of(id) as i64)
}

/// The `CASE` record: the case's key, family, font size, wrap policy and width.
pub fn case_record(case: &ParityCase, font_size: &String, width: &Option<String>) -> (r: String)
    ensures
        r@ == record(
            "CASE"@,
            case_fields(*case, font_size@, width_text(opt_view(*width))),
        ),
{
    let fields: Vec<(&str, String)> = vec![
        ("case", String::from_str(case.id)),
        ("family", String::from_str(case.family)),
        ("font_size", font_size.clone()),
        ("wrap", String::from_str(wrap_name(case.wrap))),
        ("width", width_name(width)),
    ];
    let r = render_record("CASE", &fields);
    assert(field_views(fields@) =~= case_fields(
        *case,
        font_size@,
        width_text(opt_view(*width)),
    ));
    r
}

/// The `SHAPE` record: the case's key, whether the line is right-to-left, and
/// the number of shaped glyphs.
pub fn shape_record(id: &str, rtl: bool, count: usize) -> (r: String)
    ensures
        r@ == record("SHAPE"@, shape_fields(id@, rtl, count as nat)),
{
    let fields: Vec<(&str, String)> = vec![
        ("case", String::from_str(id)),
        ("rtl", String::from_str(bool01(rtl))),
        ("count", decimal_text(count as u64)),
    ];
    let r = render_record("SHAPE", &fields);
    assert(field_views(fields@) =~= shape_fields(id@, rtl, count as nat));
    r
}

/// The `SG` record of the shaped glyph at `index`.
pub fn shaped_glyph_record(
    catalog: &FontCatalog,
    case: &ParityCase,
    index: usize,
    g: &ShapedGlyph,
) -> (r: String)
    requires
        catalog.wf(),
    ensures
        r@ == record("SG"@, sg_fields(catalog@, *case, index as nat, *g)),
{
    let fields: Vec<(&str, String)> = vec![
        ("case", String::from_str(case.id)),
        ("index", decimal_text(index as u64)),
        ("start", offset_field(case.text, g.start)),
        ("end", offset_field(case.text, g.end)),
        ("font", font_field(catalog, &g.font_id)),
        ("glyph", decimal_text(g.glyph_id as u64)),
        ("xa", g.x_advance.clone()),
        ("ya", g.y_advance.clone()),
        ("xo", g.x_offset.clone()),
        ("yo", g.y_offset.clone()),
        ("meta", decimal_text(g.metadata as u64)),
    ];
    let r = render_record("SG", &fields);
    assert(field_views(fields@) =~= sg_fields(catalog@, *case, index as nat, *g));
    r
}

/// The `LL` record of a visual line: its index, width and glyph count.
pub fn line_record(id: &str, line: usize, w: &String, count: usize) -> (r: String)
    ensures
        r@ == record("LL"@, ll_fields(id@, line as nat, w@, count as nat)),
{
    let fields: Vec<(&str, String)> = vec![
        ("case", String::from_str(id)),
        ("line", decimal_text(line as u64)),
        ("w", w.clone()),
        ("count", decimal_text(count as u64)),
    ];
    let r = render_record("LL", &fields);
    assert(field_views(fields@) =~= ll_fields(id@, line as nat, w@, count as nat));
    r
}

/// The `LG` record of the glyph at `index` of visual line `line`.
pub fn layout_glyph_record(
    catalog: &FontCatalog,
    case: &ParityCase,
    line: usize,
    index: usize,
    g: &LayoutGlyph,
) -> (r: String)
    requires
        catalog.wf(),
    ensures
        r@ == record("LG"@, lg_fields(catalog@, *case, line as nat, index as nat, *g)),
{
    let k = &g.cache_key;
    let fields: Vec<(&str, String)> = vec![
        ("case", String::from_str(case.id)),
        ("line", decimal_text(line as u64)),
        ("index", decimal_text(index as u64)),
        ("start", offset_field(case.text, g.start)),
        ("end", offset_field(case.text, g.end)),
        ("font", font_field(catalog, &g.font_id)),
        ("glyph", decimal_text(g.glyph_id as u64)),
        ("x", g.x.clone()),
        ("y", g.y.clone()),
        ("w", g.w.clone()),
        ("level", decimal_text(g.level as u64)),
        ("meta", decimal_text(g.metadata as u64)),
        ("ck_font", font_field(catalog, &k.font_id)),
        ("ck_gid", decimal_text(k.glyph_id as u64)),
        ("ck_size_bits", decimal_text(k.size_bits as u64)),
        ("ck_x_bin", k.x_bin.clone()),
        ("ck_y_bin", k.y_bin.clone()),
        ("ck_weight", decimal_text(k.weight as u64)),
        ("ck_flags", decimal_text(k.flags as u64)),
        ("img", String::from_str(bool01(g.has_image))),
    ];
    let r = render_record("LG", &fields);
    assert(field_views(fields@) =~= lg_fields(catalog@, *case, line as nat, index as nat, *g));
    r
}


/// What the strings of `v` read.
pub open spec fn texts(v: Seq<String>) -> Seq<Seq<char>> {
    v.map_values(|s: String| s@)
}

/// The `SG` records of the shaped glyphs, in order.
pub open spec fn sg_records(faces: Seq<ID>, c: ParityCase, shaped: Seq<ShapedGlyph>) -> Seq<
    Seq<char>,
> {
    Seq::new(shaped.len(), |i: int| record("SG"@, sg_fields(faces, c, i as nat, shaped[i])))
}

/// The `LG` records of the first `n` glyphs of line `l`.
pub open spec fn lg_records(faces: Seq<ID>, c: ParityCase, l: nat, glyphs: Seq<LayoutGlyph>, n: nat) -> Seq<
    Seq<char>,
> {
    Seq::new(n, |j: int| record("LG"@, lg_fields(faces, c, l, j as nat, glyphs[j])))
}

/// The records of visual line `l`: its `LL` record, then one `LG` record per glyph.
pub open spec fn line_records(faces: Seq<ID>, c: ParityCase, l: nat, line: LaidLine) -> Seq<
    Seq<char>,
> {
    seq![record("LL"@, ll_fields(c.id@, l, line.w@, line.glyphs@.len()))] + lg_records(
        faces,
        c,
        l,
        line.glyphs@,
        line.glyphs@.len(),
    )
}

/// The records of all visual lines, line after line.
pub open spec fn lines_records(faces: Seq<ID>, c: ParityCase, lines: Seq<LaidLine>) -> Seq<
    Seq<char>,
>
    decreases lines.len(),
{
    if lines.len() == 0 {
        Seq::empty()
    } else {
        lines_records(faces, c, lines.drop_last()) + line_records(
            faces,
            c,
            (lines.len() - 1) as nat,
            lines.last(),
        )
    }
}

/// Every record of one case, in the order of the stream: `CASE`, `SHAPE`,
/// one `SG` per shaped glyph, then the records of each visual line.
pub open spec fn case_records_spec(
    faces: Seq<ID>,
    c: ParityCase,
    font_size: Seq<char>,
    width: Seq<char>,
    rtl: bool,
    shaped: Seq<ShapedGlyph>,
    lines: Seq<LaidLine>,
) -> Seq<Seq<char>> {
    seq![
        record("CASE"@, case_fields(c, font_size, width)),
        record("SHAPE"@, shape_fields(c.id@, rtl, shaped.len())),
    ] + sg_records(faces, c, shaped) + lines_records(faces, c, lines)
}

/// The records of one case, from what shaping (`rtl`, `shaped`) and layout
/// (`lines`) produced for it. `font_size` and `width` are the six-digit texts
/// of the case's font size and width.
pub fn case_records(
    catalog: &FontCatalog,
    case: &ParityCase,
    font_size: &String,
    width: &Option<String>,
    rtl: bool,
    shaped: &Vec<ShapedGlyph>,
    lines: &Vec<LaidLine>,
) -> (r: Vec<String>)
    requires
        catalog.wf(),
    ensures
        texts(r@) == case_records_spec(
            catalog@,
            *case,
            font_size@,
            width_text(opt_view(*width)),
            rtl,
            shaped@,
            lines@,
        ),
{
    let ghost faces = catalog@;
    let ghost c = *case;
    let mut out: Vec<String> = Vec::new();
    out.push(case_record(case, font_size, width));
    out.push(shape_record(case.id, rtl, shaped.len()));
    let ghost head = seq![
        record("CASE"@, case_fields(c, font_size@, width_text(opt_view(*width)))),
        record("SHAPE"@, shape_fields(c.id@, rtl, shaped@.len())),
    ];
    assert(texts(out@) =~= head);
    let mut i: usize = 0;
    while i < shaped.len()
        invariant
            catalog.wf(),
            faces == catalog@,
            c == *case,
                0 <= i <= shaped@.len(),
            texts(out@) == head + sg_records(faces, c, shaped@.subrange(0, i as int)),
        decreases shaped@.len() - i,
    {
        let rec = shaped_glyph_record(catalog, case, i, &shaped[i]);
        let ghost prev = texts(out@);
        out.push(rec);
        assert(texts(out@) =~= prev.push(rec@));
        assert(sg_records(faces, c, shaped@.subrange(0, i + 1)) =~= sg_records(
            faces,
            c,
            shaped@.subrange(0, i as int),
        ).push(rec@));
        assert(texts(out@) =~= head + sg_records(faces, c, shaped@.subrange(0, i + 1)));
        i = i + 1;
    }
    assert(shaped@.subrange(0, i as int) =~= shaped@);
    let ghost body = head + sg_records(faces, c, shaped@);
    let mut l: usize = 0;
    while l < lines.len()
        invariant
            catalog.wf(),
            faces == catalog@,
            c == *case,
                0 <= l <= lines@.len(),
            texts(out@) == body + lines_records(faces, c, lines@.subrange(0, l as int)),
        decreases lines@.len() - l,
    {
        let line = &lines[l];
        let ghost before = texts(out@);
        out.push(line_record(case.id, l, &line.w, line.glyphs.len()));
        let ghost ll = seq![record("LL"@, ll_fields(c.id@, l as nat, line.w@, line.glyphs@.len()))];
        assert(texts(out@) =~= before + ll);
        let mut j: usize = 0;
        while j < line.glyphs.len()
            invariant
                catalog.wf(),
                faces == catalog@,
                c == *case,
                        0 <= j <= line.glyphs@.len(),
                texts(out@) == before + ll + lg_records(faces, c, l as nat, line.glyphs@, j as nat),
            decreases line.glyphs@.len() - j,
        {
            let rec = layout_glyph_record(catalog, case, l, j, &line.glyphs[j]);
            let ghost prev = texts(out@);
            out.push(rec);
            assert(texts(out@) =~= prev.push(rec@));
            assert(lg_records(faces, c, l as nat, line.glyphs@, (j + 1) as nat) =~= lg_records(
                faces,
                c,
                l as nat,
                line.glyphs@,
                j as nat,
            ).push(rec@));
            assert(texts(out@) =~= before + ll + lg_records(
                faces,
                c,
                l as nat,
                line.glyphs@,
                (j + 1) as nat,
            ));
            j = j + 1;
        }
        proof {
            let p = lines@.subrange(0, l + 1);
            assert(p.drop_last() =~= lines@.subrange(0, l as int));
            assert(p.last() == *line);
            assert(texts(out@) =~= body + lines_records(faces, c, p));
        }
        l = l + 1;
    }
    assert(lines@.subrange(0, l as int) =~= lines@);
    out
}

/// Whether record `r` carries `tag`: the tag, then the tab before its first field.
pub open spec fn has_tag(r: Seq<char>, tag: Seq<char>) -> bool {
    &&& r.len() > tag.len()
    &&& r.subrange(0, tag.len() as int) == tag
    &&& r[tag.len() as int] == '\t'
}

/// Number of records in `rs` that carry `tag`.
pub open spec fn count_tagged(rs: Seq<Seq<char>>, tag: Seq<char>) -> nat
    decreases rs.len(),
{
    if rs.len() == 0 {
        0
    } else {
        count_tagged(rs.drop_last(), tag) + if has_tag(rs.last(), tag) {
            1nat
        } else {
            0nat
        }
    }
}

proof fn lemma_fields_text_first(f: Seq<(Seq<char>, Seq<char>)>)
    requires
        f.len() > 0,
    ensures
        fields_text(f).len() > 0,
        fields_text(f)[0] == '\t',
    decreases f.len(),
{
    let last = field(f.last().0, f.last().1);
    assert(last[0] == '\t');
    if f.len() > 1 {
        lemma_fields_text_first(f.drop_last());
        assert((fields_text(f.drop_last()) + last)[0] == fields_text(f.drop_last())[0]);
    } else {
        assert(fields_text(f.drop_last()) =~= Seq::<char>::empty());
        assert(fields_text(f.drop_last()) + last =~= last);
    }
}

proof fn lemma_tag_match(t: Seq<char>, f: Seq<(Seq<char>, Seq<char>)>)
    requires
        f.len() > 0,
    ensures
        has_tag(record(t, f), t),
{
    lemma_fields_text_first(f);
    let r = record(t, f);
    assert(r.subrange(0, t.len() as int) =~= t);
}

proof fn lemma_tag_mismatch(t1: Seq<char>, f: Seq<(Seq<char>, Seq<char>)>, t2: Seq<char>, k: int)
    requires
        0 <= k < t1.len(),
        k < t2.len(),
        t1[k] != t2[k],
    ensures
        !has_tag(record(t1, f), t2),
{
    let r = record(t1, f);
    if has_tag(r, t2) {
        assert(r.subrange(0, t2.len() as int)[k] == r[k]);
    }
}

proof fn lemma_count_concat(a: Seq<Seq<char>>, b: Seq<Seq<char>>, tag: Seq<char>)
    ensures
        count_tagged(a + b, tag) == count_tagged(a, tag) + count_tagged(b, tag),
    decreases b.len(),
{
    if b.len() == 0 {
        assert(a + b =~= a);
    } else {
        assert((a + b).drop_last() =~= a + b.drop_last());
        lemma_count_concat(a, b.drop_last(), tag);
    }
}

proof fn lemma_count_uniform(rs: Seq<Seq<char>>, tag: Seq<char>, all: bool)
    requires
        forall|i: int| 0 <= i < rs.len() ==> has_tag(#[trigger] rs[i], tag) == all,
    ensures
        count_tagged(rs, tag) == if all {
            rs.len()
        } else {
            0
        },
    decreases rs.len(),
{
    if rs.len() > 0 {
        let p = rs.drop_last();
        assert forall|i: int| 0 <= i < p.len() implies has_tag(#[trigger] p[i], tag) == all by {
            assert(p[i] == rs[i]);
        }
        lemma_count_uniform(p, tag, all);
    }
}

proof fn lemma_line_block_counts(faces: Seq<ID>, c: ParityCase, l: nat, line: LaidLine)
    ensures
        count_tagged(line_records(faces, c, l, line), "SG"@) == 0,
        count_tagged(line_records(faces, c, l, line), "LL"@) == 1,
        count_tagged(line_records(faces, c, l, line), "LG"@) == line.glyphs@.len(),
{
    reveal_strlit("SG");
    reveal_strlit("LL");
    reveal_strlit("LG");
    let ll = seq![record("LL"@, ll_fields(c.id@, l, line.w@, line.glyphs@.len()))];
    let lgs = lg_records(faces, c, l, line.glyphs@, line.glyphs@.len());
    lemma_tag_mismatch("LL"@, ll_fields(c.id@, l, line.w@, line.glyphs@.len()), "SG"@, 0);
    lemma_tag_match("LL"@, ll_fields(c.id@, l, line.w@, line.glyphs@.len()));
    lemma_tag_mismatch("LL"@, ll_fields(c.id@, l, line.w@, line.glyphs@.len()), "LG"@, 1);
    lemma_count_uniform(ll, "SG"@, false);
    lemma_count_uniform(ll, "LL"@, true);
    lemma_count_uniform(ll, "LG"@, false);
    assert forall|j: int| 0 <= j < lgs.len() implies {
        &&& !has_tag(#[trigger] lgs[j], "SG"@)
        &&& !has_tag(lgs[j], "LL"@)
        &&& has_tag(lgs[j], "LG"@)
    } by {
        let f = lg_fields(faces, c, l, j as nat, line.glyphs@[j]);
        lemma_tag_mismatch("LG"@, f, "SG"@, 0);
        lemma_tag_mismatch("LG"@, f, "LL"@, 1);
        lemma_tag_match("LG"@, f);
    }
    lemma_count_uniform(lgs, "SG"@, false);
    lemma_count_uniform(lgs, "LL"@, false);
    lemma_count_uniform(lgs, "LG"@, true);
    lemma_count_concat(ll, lgs, "SG"@);
    lemma_count_concat(ll, lgs, "LL"@);
    lemma_count_concat(ll, lgs, "LG"@);
}

proof fn lemma_lines_counts(faces: Seq<ID>, c: ParityCase, lines: Seq<LaidLine>)
    ensures
        count_tagged(lines_records(faces, c, lines), "SG"@) == 0,
        count_tagged(lines_records(faces, c, lines), "LL"@) == lines.len(),
    decreases lines.len(),
{
    if lines.len() > 0 {
        let p = lines.drop_last();
        let b = line_records(faces, c, (lines.len() - 1) as nat, lines.last());
        lemma_lines_counts(faces, c, p);
        lemma_line_block_counts(faces, c, (lines.len() - 1) as nat, lines.last());
        lemma_count_concat(lines_records(faces, c, p), b, "SG"@);
        lemma_count_concat(lines_records(faces, c, p), b, "LL"@);
    }
}

/// Counts agree with the records they announce: the `SHAPE` record's `count`
/// is the number of `SG` records of the case, there is one `LL` record per
/// visual line, and the records of each line are its `LL` record, whose
/// `count` is the number of `LG` records that follow it for that line.
pub proof fn lemma_counts_consistent(
    faces: Seq<ID>,
    c: ParityCase,
    font_size: Seq<char>,
    width: Seq<char>,
    rtl: bool,
    shaped: Seq<ShapedGlyph>,
    lines: Seq<LaidLine>,
)
    ensures
        case_records_spec(faces, c, font_size, width, rtl, shaped, lines)[1] == record(
            "SHAPE"@,
            shape_fields(c.id@, rtl, shaped.len()),
        ),
        count_tagged(case_records_spec(faces, c, font_size, width, rtl, shaped, lines), "SG"@)
            == shaped.len(),
        count_tagged(case_records_spec(faces, c, font_size, width, rtl, shaped, lines), "LL"@)
            == lines.len(),
        forall|l: int|
            0 <= l < lines.len() ==> {
                let b = #[trigger] line_records(faces, c, l as nat, lines[l]);
                &&& b[0] == record(
                    "LL"@,
                    ll_fields(c.id@, l as nat, lines[l].w@, lines[l].glyphs@.len()),
                )
                &&& count_tagged(b, "LG"@) == lines[l].glyphs@.len()
                &&& count_tagged(b, "LG"@) == b.len() - 1
            },
{
    reveal_strlit("SG");
    reveal_strlit("LL");
    reveal_strlit("CASE");
    reveal_strlit("SHAPE");
    let head = seq![
        record("CASE"@, case_fields(c, font_size, width)),
        record("SHAPE"@, shape_fields(c.id@, rtl, shaped.len())),
    ];
    let sgs = sg_records(faces, c, shaped);
    let rest = lines_records(faces, c, lines);
    lemma_tag_mismatch("CASE"@, case_fields(c, font_size, width), "SG"@, 0);
    lemma_tag_mismatch("SHAPE"@, shape_fields(c.id@, rtl, shaped.len()), "SG"@, 1);
    lemma_tag_mismatch("CASE"@, case_fields(c, font_size, width), "LL"@, 0);
    lemma_tag_mismatch("SHAPE"@, shape_fields(c.id@, rtl, shaped.len()), "LL"@, 0);
    lemma_count_uniform(head, "SG"@, false);
    lemma_count_uniform(head, "LL"@, false);
    assert forall|i: int| 0 <= i < sgs.len() implies {
        &&& has_tag(#[trigger] sgs[i], "SG"@)
        &&& !has_tag(sgs[i], "LL"@)
    } by {
        let f = sg_fields(faces, c, i as nat, shaped[i]);
        lemma_tag_match("SG"@, f);
        lemma_tag_mismatch("SG"@, f, "LL"@, 0);
    }
    lemma_count_uniform(sgs, "SG"@, true);
    lemma_count_uniform(sgs, "LL"@, false);
    lemma_lines_counts(faces, c, lines);
    lemma_count_concat(head, sgs, "SG"@);
    lemma_count_concat(head + sgs, rest, "SG"@);
    lemma_count_concat(head, sgs, "LL"@);
    lemma_count_concat(head + sgs, rest, "LL"@);
    assert forall|l: int| 0 <= l < lines.len() implies {
        let b = #[trigger] line_records(faces, c, l as nat, lines[l]);
        &&& b[0] == record(
            "LL"@,
            ll_fields(c.id@, l as nat, lines[l].w@, lines[l].glyphs@.len()),
        )
        &&& count_tagged(b, "LG"@) == lines[l].glyphs@.len()
        &&& count_tagged(b, "LG"@) == b.len() - 1
    } by {
        lemma_line_block_counts(faces, c, l as nat, lines[l]);
    }
}

/// Cache keys with the same face index, glyph id, size bits, sub-pixel bins,
/// weight and flags are written as the same cache-key fields.
pub proof fn lemma_cache_key_stable(faces: Seq<ID>, k1: CacheKeyFields, k2: CacheKeyFields)
    requires
        face_index(faces, k1.font_id) == face_index(faces, k2.font_id),
        k1.glyph_id == k2.glyph_id,
        k1.size_bits == k2.size_bits,
        k1.x_bin@ == k2.x_bin@,
        k1.y_bin@ == k2.y_bin@,
        k1.weight == k2.weight,
        k1.flags == k2.flags,
    ensures
        cache_key_fields(faces, k1) == cache_key_fields(faces, k2),
{
    assert(cache_key_fields(faces, k1) =~= cache_key_fields(faces, k2));
}

} // verus!
