//! Metadata format templates: splitting a template into literal text and
//! `{title}`/`{artist}`/`{album}` placeholders, and assembling the output
//! while collapsing separator text next to fields that resolved empty.

use vstd::prelude::*;
use crate::text::{trim_seq, trim_chars, str_to_chars, chars_to_string, matches_at, contains_at, push_all};

verus! {

/// One of the three template fields.
#[derive(Debug, Clone, Copy, PartialEq, Eq, Structural)]
pub enum FieldKind {
    Title,
    Artist,
    Album,
}

/// The placeholder text of a field.
pub open spec fn ph_str(f: FieldKind) -> Seq<char> {
    match f {
        FieldKind::Title => "{title}"@,
        FieldKind::Artist => "{artist}"@,
        FieldKind::Album => "{album}"@,
    }
}

/// The placeholder that starts at index `i` of the template, if any.
pub open spec fn ph_at(fmt: Seq<char>, i: int) -> Option<FieldKind> {
    if contains_at(fmt, "{title}"@, i) {
        Some(FieldKind::Title)
    } else if contains_at(fmt, "{artist}"@, i) {
        Some(FieldKind::Artist)
    } else if contains_at(fmt, "{album}"@, i) {
        Some(FieldKind::Album)
    } else {
        None
    }
}

/// The index of the first placeholder at or after `j`, if any.
pub open spec fn first_ph_from(fmt: Seq<char>, j: int) -> Option<int>
    recommends
        0 <= j <= fmt.len(),
    decreases fmt.len() - j when 0 <= j <= fmt.len()
{
    if j >= fmt.len() {
        None
    } else if ph_at(fmt, j) is Some {
        Some(j)
    } else {
        first_ph_from(fmt, j + 1)
    }
}

proof fn lemma_first_ph_from(fmt: Seq<char>, j: int)
    requires
        0 <= j <= fmt.len(),
    ensures
        match first_ph_from(fmt, j) {
            Some(i) => j <= i < fmt.len() && ph_at(fmt, i) is Some && forall|k: int|
                j <= k < i ==> ph_at(fmt, k) is None,
            None => forall|k: int| j <= k < fmt.len() ==> ph_at(fmt, k) is None,
        },
    decreases fmt.len() - j,
{
    if j < fmt.len() && ph_at(fmt, j) is None {
        lemma_first_ph_from(fmt, j + 1);
    }
}

/// One segment of a split template: literal text, or a field placeholder.
pub enum Seg {
    Lit(Seq<char>),
    Field(FieldKind),
}

/// The segments of the template from `pos` on: the literal before each
/// placeholder (kept even when empty), each placeholder, and the trailing
/// literal only when it is nonempty.
pub open spec fn segments_from(fmt: Seq<char>, pos: int) -> Seq<Seg>
    recommends
        0 <= pos <= fmt.len(),
    decreases fmt.len() - pos when 0 <= pos <= fmt.len() via segments_from_decreases
{
    match first_ph_from(fmt, pos) {
        None => {
            if pos < fmt.len() {
                seq![Seg::Lit(fmt.subrange(pos, fmt.len() as int))]
            } else {
                Seq::<Seg>::empty()
            }
        },
        Some(i) => {
            let f = ph_at(fmt, i)->0;
            seq![Seg::Lit(fmt.subrange(pos, i)), Seg::Field(f)] + segments_from(
                fmt,
                i + ph_str(f).len(),
            )
        },
    }
}

#[via_fn]
proof fn segments_from_decreases(fmt: Seq<char>, pos: int) {
    reveal_strlit("{title}");
    reveal_strlit("{artist}");
    reveal_strlit("{album}");
    lemma_first_ph_from(fmt, pos);
}

/// The split of the whole template.
pub open spec fn segments_of(fmt: Seq<char>) -> Seq<Seg> {
    segments_from(fmt, 0)
}

/// The (already trimmed) value of a field.
pub open spec fn field_val(f: FieldKind, tv: Seq<char>, av: Seq<char>, lv: Seq<char>) -> Seq<char> {
    match f {
        FieldKind::Title => tv,
        FieldKind::Artist => av,
        FieldKind::Album => lv,
    }
}

/// The segment after `i` is a placeholder whose value is nonempty.
pub open spec fn next_field_present(
    segs: Seq<Seg>,
    i: int,
    tv: Seq<char>,
    av: Seq<char>,
    lv: Seq<char>,
) -> bool {
    i + 1 < segs.len() && (segs[i + 1] matches Seg::Field(f) && field_val(f, tv, av, lv).len() > 0)
}

/// Assembly of the split template from segment `i` on. A placeholder
/// contributes its value when nonempty; a literal is kept when it is the
/// leading prefix, the trailing suffix, or stands between two fields that
/// both resolved nonempty.
pub open spec fn collapse_from(
    segs: Seq<Seg>,
    i: int,
    prev: bool,
    tv: Seq<char>,
    av: Seq<char>,
    lv: Seq<char>,
) -> Seq<char>
    recommends
        0 <= i <= segs.len(),
    decreases segs.len() - i when 0 <= i <= segs.len()
{
    if i >= segs.len() {
        Seq::<char>::empty()
    } else {
        match segs[i] {
            Seg::Field(f) => {
                let v = field_val(f, tv, av, lv);
                if v.len() > 0 {
                    v + collapse_from(segs, i + 1, true, tv, av, lv)
                } else {
                    collapse_from(segs, i + 1, false, tv, av, lv)
                }
            },
            Seg::Lit(t) => {
                let keep = i == 0 || i == segs.len() - 1 || (prev && next_field_present(
                    segs,
                    i,
                    tv,
                    av,
                    lv,
                ));
                (if keep {
                    t
                } else {
                    Seq::<char>::empty()
                }) + collapse_from(segs, i + 1, prev, tv, av, lv)
            },
        }
    }
}

/// The collapsed rendering of a template over raw field texts: fields are
/// trimmed, placeholders replaced, separators next to empty fields
/// dropped, and the assembly trimmed.
pub open spec fn format_collapsed_spec(
    fmt: Seq<char>,
    title: Seq<char>,
    artist: Seq<char>,
    album: Seq<char>,
) -> Seq<char> {
    trim_seq(
        collapse_from(segments_of(fmt), 0, false, trim_seq(title), trim_seq(artist), trim_seq(album)),
    )
}

/// Executable segment of a split template.
pub enum Segment {
    Lit(Vec<char>),
    Field(FieldKind),
}

/// The abstract value of one executable segment.
pub open spec fn seg_view(s: Segment) -> Seg {
    match s {
        Segment::Lit(v) => Seg::Lit(v@),
        Segment::Field(f) => Seg::Field(f),
    }
}

/// The abstract value of a segment list.
pub open spec fn segs_view(s: Seq<Segment>) -> Seq<Seg> {
    s.map(|i: int, x: Segment| seg_view(x))
}

/// The placeholder starting at index `i`, if any.
fn ph_at_exec(
    fmt: &Vec<char>,
    i: usize,
    tpat: &Vec<char>,
    apat: &Vec<char>,
    lpat: &Vec<char>,
) -> (r: Option<FieldKind>)
    requires
        tpat@ == "{title}"@,
        apat@ == "{artist}"@,
        lpat@ == "{album}"@,
        i <= fmt@.len(),
    ensures
        r == ph_at(fmt@, i as int),
{
    let n: usize = fmt.len();
    if n - i >= tpat.len() && matches_at(fmt, tpat, i) {
        Some(FieldKind::Title)
    } else if n - i >= apat.len() && matches_at(fmt, apat, i) {
        Some(FieldKind::Artist)
    } else if n - i >= lpat.len() && matches_at(fmt, lpat, i) {
        Some(FieldKind::Album)
    } else {
        None
    }
}

/// Length of a field's placeholder text.
fn ph_len(f: FieldKind) -> (r: usize)
    ensures
        r == ph_str(f).len(),
{
    proof {
        reveal_strlit("{title}");
        reveal_strlit("{artist}");
        reveal_strlit("{album}");
    }
    match f {
        FieldKind::Title => 7,
        FieldKind::Artist => 8,
        FieldKind::Album => 7,
    }
}

/// Splits the template into its segments.
fn split_segments(fmt: &Vec<char>) -> (segs: Vec<Segment>)
    ensures
        segs_view(segs@) == segments_of(fmt@),
{
    let tpat = str_to_chars("{title}");
    let apat = str_to_chars("{artist}");
    let lpat = str_to_chars("{album}");
    let n: usize = fmt.len();
    let mut segs: Vec<Segment> = Vec::new();
    let mut pos: usize = 0;
    while pos < n
        invariant
            pos <= n,
            n == fmt@.len(),
            tpat@ == "{title}"@,
            apat@ == "{artist}"@,
            lpat@ == "{album}"@,
            segments_of(fmt@) == segs_view(segs@) + segments_from(fmt@, pos as int),
        decreases n - pos,
    {
        let mut j: usize = pos;
        let mut found: Option<FieldKind> = None;
        while j < n && found.is_none()
            invariant
                pos <= j <= n,
                n == fmt@.len(),
                tpat@ == "{title}"@,
                apat@ == "{artist}"@,
                lpat@ == "{album}"@,
                match found {
                    Some(f) => j < n && ph_at(fmt@, j as int) == Some(f) && first_ph_from(
                        fmt@,
                        pos as int,
                    ) == Some(j as int),
                    None => first_ph_from(fmt@, pos as int) == first_ph_from(fmt@, j as int),
                },
            decreases n - j + (if found is Some { 0int } else { 1int }),
        {
            found = ph_at_exec(fmt, j, &tpat, &apat, &lpat);
            if found.is_none() {
                j = j + 1;
            }
        }
        match found {
            None => {
                proof {
                    assert(first_ph_from(fmt@, pos as int) is None);
                }
                let mut lit: Vec<char> = Vec::new();
                let mut k: usize = pos;
                while k < n
                    invariant
                        pos <= k <= n,
                        n == fmt@.len(),
                        lit@ == fmt@.subrange(pos as int, k as int),
                    decreases n - k,
                {
                    lit.push(fmt[k]);
                    k = k + 1;
                    proof {
                        assert(lit@ =~= fmt@.subrange(pos as int, k as int));
                    }
                }
                let ghost old_segs = segs@;
                segs.push(Segment::Lit(lit));
                proof {
                    assert(segs_view(segs@) =~= segs_view(old_segs).push(
                        Seg::Lit(fmt@.subrange(pos as int, n as int)),
                    ));
                    assert(segments_from(fmt@, pos as int) =~= seq![
                        Seg::Lit(fmt@.subrange(pos as int, n as int)),
                    ]);
                    assert(segments_of(fmt@) =~= segs_view(segs@) + segments_from(fmt@, n as int));
                }
                pos = n;
            },
            Some(f) => {
                let i: usize = j;
                let mut lit: Vec<char> = Vec::new();
                let mut k: usize = pos;
                while k < i
                    invariant
                        pos <= k <= i,
                        i <= n,
                        n == fmt@.len(),
                        lit@ == fmt@.subrange(pos as int, k as int),
                    decreases i - k,
                {
                    lit.push(fmt[k]);
                    k = k + 1;
                    proof {
                        assert(lit@ =~= fmt@.subrange(pos as int, k as int));
                    }
                }
                let ghost old_segs = segs@;
                segs.push(Segment::Lit(lit));
                segs.push(Segment::Field(f));
                let l: usize = ph_len(f);
                proof {
                    assert(ph_at(fmt@, i as int) == Some(f));
                    assert(contains_at(fmt@, ph_str(f), i as int)) by {
                        reveal_strlit("{title}");
                        reveal_strlit("{artist}");
                        reveal_strlit("{album}");
                    };
                    assert(i + l <= n);
                    assert(segs_view(segs@) =~= segs_view(old_segs) + seq![
                        Seg::Lit(fmt@.subrange(pos as int, i as int)),
                        Seg::Field(f),
                    ]);
                    assert(segments_from(fmt@, pos as int) == seq![
                        Seg::Lit(fmt@.subrange(pos as int, i as int)),
                        Seg::Field(f),
                    ] + segments_from(fmt@, i + l));
                    assert(segments_of(fmt@) =~= segs_view(segs@) + segments_from(fmt@, (i + l) as int));
                }
                pos = i + l;
            },
        }
    }
    proof {
        assert(segments_from(fmt@, n as int) =~= Seq::<Seg>::empty());
        assert(segments_of(fmt@) =~= segs_view(segs@));
    }
    segs
}

/// Reference to the (trimmed) value of a field.
fn field_val_ref<'a>(f: FieldKind, tv: &'a Vec<char>, av: &'a Vec<char>, lv: &'a Vec<char>) -> (r: &'a Vec<
    char,
>)
    ensures
        r@ == field_val(f, tv@, av@, lv@),
{
    match f {
        FieldKind::Title => tv,
        FieldKind::Artist => av,
        FieldKind::Album => lv,
    }
}

/// Renders the format template over the raw field texts, trimming the
/// fields, dropping separator text next to fields that resolved empty, and
/// trimming the assembled result.
pub fn format_collapsed(fmt: &str, title: &str, artist: &str, album: &str) -> (r: String)
    ensures
        r@ == format_collapsed_spec(fmt@, title@, artist@, album@),
{
    let fmtc = str_to_chars(fmt);
    let tv = trim_chars(&str_to_chars(title));
    let av = trim_chars(&str_to_chars(artist));
    let lv = trim_chars(&str_to_chars(album));
    let segs = split_segments(&fmtc);
    let ghost sv = segments_of(fmt@);
    let m: usize = segs.len();
    proof {
        assert(segs_view(segs@).len() == segs@.len());
    }
    let mut out: Vec<char> = Vec::new();
    let mut prev: bool = false;
    let mut i: usize = 0;
    while i < m
        invariant
            i <= m,
            m == segs@.len(),
            sv == segs_view(segs@),
            sv == segments_of(fmt@),
            tv@ == trim_seq(title@),
            av@ == trim_seq(artist@),
            lv@ == trim_seq(album@),
            collapse_from(sv, 0, false, tv@, av@, lv@) == out@ + collapse_from(
                sv,
                i as int,
                prev,
                tv@,
                av@,
                lv@,
            ),
        decreases m - i,
    {
        proof {
            assert(sv[i as int] == seg_view(segs@[i as int]));
        }
        match &segs[i] {
            Segment::Field(f) => {
                let v = field_val_ref(*f, &tv, &av, &lv);
                if v.len() > 0 {
                    push_all(&mut out, v);
                    prev = true;
                } else {
                    prev = false;
                }
            },
            Segment::Lit(t) => {
                let keep: bool = if i == 0 || i == m - 1 {
                    true
                } else if prev && i + 1 < m {
                    match &segs[i + 1] {
                        Segment::Field(f2) => field_val_ref(*f2, &tv, &av, &lv).len() > 0,
                        Segment::Lit(_) => false,
                    }
                } else {
                    false
                };
                proof {
                    assert(keep == (i == 0 || i as int == sv.len() - 1 || (prev && next_field_present(
                        sv,
                        i as int,
                        tv@,
                        av@,
                        lv@,
                    ))));
                }
                if keep {
                    push_all(&mut out, t);
                }
            },
        }
        i = i + 1;
    }
    proof {
        assert(collapse_from(sv, m as int, prev, tv@, av@, lv@) =~= Seq::<char>::empty());
        assert(out@ =~= collapse_from(sv, 0, false, tv@, av@, lv@));
    }
    chars_to_string(&trim_chars(&out))
}

} // verus!
