//! Decoding of ANSI SGR escape sequences (`ESC [ params m`) in chat text
//! into styled spans.

use vstd::prelude::*;
use crate::style::{Color, Modifier, Style};
use crate::text::{
    lemma_boundary_after_ascii, lemma_boundary_iff, parse_unsigned, parse_unsigned_bytes,
    substring_bytes, utf8,
};

verus! {

/// A run of text drawn in one style.
#[derive(Clone, Debug)]
pub struct Span {
    pub content: String,
    pub style: Style,
}

/// `b` cut at every `sep`, as `str::split` does: `n` separators give
/// `n + 1` pieces, empty ones included.
pub open spec fn split_bytes(b: Seq<u8>, sep: u8) -> Seq<Seq<u8>>
    decreases b.len(),
{
    if b.len() == 0 {
        seq![Seq::<u8>::empty()]
    } else {
        let init = split_bytes(b.drop_last(), sep);
        if b.last() == sep {
            init.push(Seq::<u8>::empty())
        } else {
            init.update(init.len() - 1, init.last().push(b.last()))
        }
    }
}

/// The numeric parameters of an SGR sequence: the pieces between `;` that
/// parse as a `u8`, in order; the others are left out.
pub open spec fn sgr_params(parts: Seq<Seq<u8>>) -> Seq<u8>
    decreases parts.len(),
{
    if parts.len() == 0 {
        seq![]
    } else {
        let init = sgr_params(parts.drop_last());
        match parse_unsigned(parts.last(), 255) {
            Some(v) => init.push(v as u8),
            None => init,
        }
    }
}

/// The piece at `i`, read as a `u8`.
pub open spec fn part_u8(parts: Seq<Seq<u8>>, i: int) -> Option<u8> {
    if 0 <= i < parts.len() {
        match parse_unsigned(parts[i], 255) {
            Some(v) => Some(v as u8),
            None => None,
        }
    } else {
        None
    }
}

/// An extended colour `2;r;g;b` or `5;n` that follows the piece at `start`,
/// with the number of further pieces it takes. `start` counts the raw
/// pieces between `;`.
pub open spec fn extended_color(parts: Seq<Seq<u8>>, start: int) -> Option<(Color, int)> {
    if start + 1 >= parts.len() {
        None
    } else {
        match part_u8(parts, start + 1) {
            Some(mode) => if mode == 2 {
                if start + 4 < parts.len() {
                    match (part_u8(parts, start + 2), part_u8(parts, start + 3), part_u8(parts, start + 4)) {
                        (Some(r), Some(g), Some(b)) => Some((Color::Rgb(r, g, b), 4)),
                        _ => None,
                    }
                } else {
                    None
                }
            } else if mode == 5 {
                if start + 2 < parts.len() {
                    match part_u8(parts, start + 2) {
                        Some(n) => Some((Color::Indexed(n), 2)),
                        None => None,
                    }
                } else {
                    None
                }
            } else {
                None
            },
            None => None,
        }
    }
}

/// The effect of one SGR code other than the extended colours 38 and 48.
pub open spec fn basic_sgr(code: u8, style: Style, fallback: Style) -> Style {
    if code == 0 {
        fallback
    } else if code == 1 {
        style.spec_add_modifier(Modifier::Bold)
    } else if code == 3 {
        style.spec_add_modifier(Modifier::Italic)
    } else if code == 4 {
        style.spec_add_modifier(Modifier::Underlined)
    } else if code == 22 {
        style.spec_remove_modifier(Modifier::Bold)
    } else if code == 23 {
        style.spec_remove_modifier(Modifier::Italic)
    } else if code == 24 {
        style.spec_remove_modifier(Modifier::Underlined)
    } else if 30 <= code <= 37 || 90 <= code <= 97 {
        style.spec_fg(standard_color(code))
    } else if code == 39 {
        style.spec_fg(
            match fallback.fg {
                Some(c) => c,
                None => Color::Reset,
            },
        )
    } else if code == 49 {
        style.spec_bg(Color::Reset)
    } else {
        style
    }
}

/// The colours of codes 30–37 and 90–97.
pub open spec fn standard_color(code: u8) -> Color {
    if code == 30 { Color::Black }
    else if code == 31 { Color::Red }
    else if code == 32 { Color::Green }
    else if code == 33 { Color::Yellow }
    else if code == 34 { Color::Blue }
    else if code == 35 { Color::Magenta }
    else if code == 36 { Color::Cyan }
    else if code == 37 { Color::White }
    else if code == 90 { Color::DarkGray }
    else if code == 91 { Color::LightRed }
    else if code == 92 { Color::LightGreen }
    else if code == 93 { Color::LightYellow }
    else if code == 94 { Color::LightBlue }
    else if code == 95 { Color::LightMagenta }
    else if code == 96 { Color::LightCyan }
    else { Color::White }
}

/// The style after applying the parameters from index `idx` on.
pub open spec fn sgr_from(
    params: Seq<u8>,
    parts: Seq<Seq<u8>>,
    idx: int,
    style: Style,
    fallback: Style,
) -> Style
    decreases params.len() - idx,
{
    if idx < 0 || idx >= params.len() {
        style
    } else {
        let code = params[idx];
        if code == 38 || code == 48 {
            let ext = if idx + 1 < params.len() { extended_color(parts, idx) } else { None };
            match ext {
                Some((c, adv)) => {
                    let next = if code == 38 { style.spec_fg(c) } else { style.spec_bg(c) };
                    if idx + 1 + adv >= params.len() || adv < 0 {
                        next
                    } else {
                        sgr_from(params, parts, idx + 1 + adv, next, fallback)
                    }
                },
                None => sgr_from(params, parts, idx + 1, style, fallback),
            }
        } else {
            sgr_from(params, parts, idx + 1, basic_sgr(code, style, fallback), fallback)
        }
    }
}

/// The style that the SGR parameter bytes `seq` (what stands between
/// `ESC [` and `m`) turn `style` into; an empty sequence resets to
/// `fallback`.
pub open spec fn sgr_style(seq: Seq<u8>, style: Style, fallback: Style) -> Style {
    if seq.len() == 0 {
        fallback
    } else {
        let parts = split_bytes(seq, 59u8);
        sgr_from(sgr_params(parts), parts, 0, style, fallback)
    }
}

/// The view of a vector of pieces.
pub open spec fn parts_view(parts: Seq<Vec<u8>>) -> Seq<Seq<u8>> {
    parts.map_values(|p: Vec<u8>| p@)
}

fn split_semicolons(b: &[u8]) -> (parts: Vec<Vec<u8>>)
    ensures
        parts_view(parts@) == split_bytes(b@, 59u8),
{
    let mut parts: Vec<Vec<u8>> = Vec::new();
    let mut cur: Vec<u8> = Vec::new();
    let mut i: usize = 0;
    assert(b@.take(0) =~= Seq::<u8>::empty());
    assert(parts_view(parts@).push(cur@) =~= split_bytes(b@.take(0), 59u8));
    while i < b.len()
        invariant
            i <= b@.len(),
            parts_view(parts@).push(cur@) == split_bytes(b@.take(i as int), 59u8),
        decreases b.len() - i,
    {
        let c = b[i];
        let ghost before = parts_view(parts@);
        let ghost cur_before = cur@;
        assert(b@.take(i + 1).drop_last() =~= b@.take(i as int));
        if c == 59u8 {
            parts.push(cur);
            cur = Vec::new();
            assert(parts_view(parts@) =~= before.push(cur_before));
            assert(parts_view(parts@).push(cur@) =~= split_bytes(b@.take(i + 1), 59u8));
        } else {
            cur.push(c);
            assert(parts_view(parts@) =~= before);
            assert(parts_view(parts@).push(cur@) =~= split_bytes(b@.take(i + 1), 59u8));
        }
        i = i + 1;
    }
    let ghost before = parts_view(parts@);
    let ghost cur_before = cur@;
    parts.push(cur);
    assert(parts_view(parts@) =~= before.push(cur_before));
    assert(b@.take(b@.len() as int) =~= b@);
    parts
}

fn collect_params(parts: &Vec<Vec<u8>>) -> (params: Vec<u8>)
    ensures
        params@ == sgr_params(parts_view(parts@)),
{
    let mut params: Vec<u8> = Vec::new();
    let mut i: usize = 0;
    while i < parts.len()
        invariant
            i <= parts@.len(),
            params@ == sgr_params(parts_view(parts@).take(i as int)),
        decreases parts.len() - i,
    {
        assert(parts_view(parts@).take(i + 1).drop_last() =~= parts_view(parts@).take(i as int));
        assert(parts_view(parts@).take(i + 1).last() == parts@[i as int]@);
        match parse_unsigned_bytes(parts[i].as_slice(), 255) {
            Some(v) => params.push(v as u8),
            None => {},
        }
        i = i + 1;
    }
    assert(parts_view(parts@).take(parts@.len() as int) =~= parts_view(parts@));
    params
}

fn part_u8_exec(parts: &Vec<Vec<u8>>, i: usize) -> (r: Option<u8>)
    ensures
        r == part_u8(parts_view(parts@), i as int),
{
    if i < parts.len() {
        match parse_unsigned_bytes(parts[i].as_slice(), 255) {
            Some(v) => Some(v as u8),
            None => None,
        }
    } else {
        None
    }
}

/// Reads an extended colour (`38;2;r;g;b` / `38;5;n` and the same after
/// 48) whose `38` or `48` is the parameter at `start_idx`, counted over
/// the raw `;` pieces of `seq`; gives the colour and how many further
/// parameters it used.
pub fn parse_extended_color(seq: &str, start_idx: usize, _params: &[u8]) -> (r: Option<(Color, usize)>)
    ensures
        match extended_color(split_bytes(utf8(seq@), 59u8), start_idx as int) {
            Some((c, adv)) => r == Some((c, adv as usize)),
            None => r is None,
        },
{
    let parts = split_semicolons(seq.as_bytes());
    extended_color_exec(&parts, start_idx)
}

fn extended_color_exec(parts: &Vec<Vec<u8>>, start_idx: usize) -> (r: Option<(Color, usize)>)
    ensures
        match extended_color(parts_view(parts@), start_idx as int) {
            Some((c, adv)) => r == Some((c, adv as usize)) && start_idx + adv < parts@.len(),
            None => r is None,
        },
{
    let n = parts.len();
    if start_idx >= n || start_idx + 1 >= n {
        return None;
    }
    let mode = match part_u8_exec(parts, start_idx + 1) {
        Some(m) => m,
        None => return None,
    };
    if mode == 2 {
        if n - start_idx > 4 {
            let r = part_u8_exec(parts, start_idx + 2);
            let g = part_u8_exec(parts, start_idx + 3);
            let b = part_u8_exec(parts, start_idx + 4);
            match (r, g, b) {
                (Some(r), Some(g), Some(b)) => Some((Color::Rgb(r, g, b), 4)),
                _ => None,
            }
        } else {
            None
        }
    } else if mode == 5 {
        if start_idx + 2 < n {
            match part_u8_exec(parts, start_idx + 2) {
                Some(k) => Some((Color::Indexed(k), 2)),
                None => None,
            }
        } else {
            None
        }
    } else {
        None
    }
}

fn standard_color_exec(code: u8) -> (c: Color)
    ensures
        c == standard_color(code),
{
    if code == 30 { Color::Black }
    else if code == 31 { Color::Red }
    else if code == 32 { Color::Green }
    else if code == 33 { Color::Yellow }
    else if code == 34 { Color::Blue }
    else if code == 35 { Color::Magenta }
    else if code == 36 { Color::Cyan }
    else if code == 37 { Color::White }
    else if code == 90 { Color::DarkGray }
    else if code == 91 { Color::LightRed }
    else if code == 92 { Color::LightGreen }
    else if code == 93 { Color::LightYellow }
    else if code == 94 { Color::LightBlue }
    else if code == 95 { Color::LightMagenta }
    else if code == 96 { Color::LightCyan }
    else { Color::White }
}

fn basic_sgr_exec(code: u8, style: Style, fallback: Style) -> (r: Style)
    ensures
        r == basic_sgr(code, style, fallback),
{
    if code == 0 {
        fallback
    } else if code == 1 {
        style.add_modifier(Modifier::Bold)
    } else if code == 3 {
        style.add_modifier(Modifier::Italic)
    } else if code == 4 {
        style.add_modifier(Modifier::Underlined)
    } else if code == 22 {
        style.remove_modifier(Modifier::Bold)
    } else if code == 23 {
        style.remove_modifier(Modifier::Italic)
    } else if code == 24 {
        style.remove_modifier(Modifier::Underlined)
    } else if (30 <= code && code <= 37) || (90 <= code && code <= 97) {
        style.fg(standard_color_exec(code))
    } else if code == 39 {
        style.fg(
            match fallback.fg {
                Some(c) => c,
                None => Color::Reset,
            },
        )
    } else if code == 49 {
        style.bg(Color::Reset)
    } else {
        style
    }
}

/// Applies the SGR parameters `seq` (between `ESC [` and `m`) to `style`:
/// reset, bold, italic, underline and their removal, the 16 standard
/// colours, 256-colour and RGB colours, and the default colours.
pub fn apply_sgr(seq: &str, style: Style, fallback_style: Style) -> (r: Style)
    ensures
        r == sgr_style(utf8(seq@), style, fallback_style),
{
    let bytes = seq.as_bytes();
    if bytes.len() == 0 {
        return fallback_style;
    }
    let parts = split_semicolons(bytes);
    let params = collect_params(&parts);
    let ghost pv = parts_view(parts@);
    let ghost target = sgr_from(params@, pv, 0, style, fallback_style);
    proof {
        lemma_params_len(pv);
    }
    let mut style = style;
    let mut idx: usize = 0;
    while idx < params.len()
        invariant
            pv == parts_view(parts@),
            pv.len() == parts@.len(),
            params@ == sgr_params(pv),
            params@.len() <= parts@.len(),
            sgr_from(params@, pv, idx as int, style, fallback_style) == target,
            idx <= parts@.len(),
        decreases parts.len() - idx,
    {
        let code = params[idx];
        if code == 38 || code == 48 {
            let ext = if idx + 1 < params.len() { extended_color_exec(&parts, idx) } else { None };
            match ext {
                Some((c, adv)) => {
                    style = if code == 38 { style.fg(c) } else { style.bg(c) };
                    idx = idx + 1 + adv;
                },
                None => {
                    idx = idx + 1;
                },
            }
        } else {
            style = basic_sgr_exec(code, style, fallback_style);
            idx = idx + 1;
        }
    }
    style
}

proof fn lemma_params_len(parts: Seq<Seq<u8>>)
    ensures
        sgr_params(parts).len() <= parts.len(),
    decreases parts.len(),
{
    if parts.len() > 0 {
        lemma_params_len(parts.drop_last());
    }
}


/// Where the search for the `m` that ends an escape sequence whose
/// parameters start at `start` stops, scanning on from `j`: at the first
/// `m`, at the end of the text, or 32 bytes after `start`.
pub open spec fn scan_sgr_end(b: Seq<u8>, start: int, j: int) -> int
    decreases b.len() - j,
{
    if 0 <= j < b.len() && b[j] != 109u8 && j - start < 32 {
        scan_sgr_end(b, start, j + 1)
    } else {
        j
    }
}

pub proof fn lemma_scan_sgr_end(b: Seq<u8>, start: int, j: int)
    ensures
        scan_sgr_end(b, start, j) >= j,
        j >= 0 ==> scan_sgr_end(b, start, j) >= 0,
        0 <= j <= b.len() ==> scan_sgr_end(b, start, j) <= b.len(),
    decreases b.len() - j,
{
    if 0 <= j < b.len() && b[j] != 109u8 && j - start < 32 {
        lemma_scan_sgr_end(b, start, j + 1);
    }
}

/// An escape sequence introducer `ESC [` at `i`.
pub open spec fn escape_at(b: Seq<u8>, i: int) -> bool {
    0 <= i && i + 1 < b.len() && b[i] == 27u8 && b[i + 1] == 91u8
}

/// The text runs from `i` on, where the pending text starts at
/// `text_start` and `style` is the style in force.
pub open spec fn ansi_runs(b: Seq<u8>, fallback: Style, i: int, text_start: int, style: Style) -> Seq<(Seq<u8>, Style)>
    decreases b.len() - i,
{
    if i < 0 || i >= b.len() {
        if 0 <= text_start < b.len() {
            seq![(b.subrange(text_start, b.len() as int), style)]
        } else {
            seq![]
        }
    } else if escape_at(b, i) {
        let flushed = if text_start < i { seq![(b.subrange(text_start, i), style)] } else { seq![] };
        let e = scan_sgr_end(b, i + 2, i + 2);
        proof {
            lemma_scan_sgr_end(b, i + 2, i + 2);
        }
        if e < b.len() && b[e] == 109u8 {
            flushed + ansi_runs(b, fallback, e + 1, e + 1, sgr_style(b.subrange(i + 2, e), style, fallback))
        } else {
            flushed + ansi_runs(b, fallback, i + 1, i + 1, style)
        }
    } else {
        ansi_runs(b, fallback, i + 1, text_start, style)
    }
}

/// The styled runs of the text with UTF-8 bytes `b`: text between escape
/// sequences keeps the style in force, each complete `ESC [ .. m` changes
/// it and is not shown, and an `ESC [` with no `m` within reach loses its
/// `ESC`. Text made only of complete escape sequences gives no run.
pub open spec fn ansi_spans_spec(b: Seq<u8>, fallback: Style) -> Seq<(Seq<u8>, Style)> {
    ansi_runs(b, fallback, 0, 0, fallback)
}

/// The runs of a vector of spans, each as its UTF-8 bytes and its style.
pub open spec fn spans_view(spans: Seq<Span>) -> Seq<(Seq<u8>, Style)> {
    spans.map_values(|s: Span| (utf8(s.content@), s.style))
}

/// Splits chat text holding ANSI SGR escape sequences into styled spans,
/// starting from `fallback_style`.
pub fn parse_ansi_to_spans(input: &str, fallback_style: Style) -> (spans: Vec<Span>)
    ensures
        spans_view(spans@) == ansi_spans_spec(utf8(input@), fallback_style),
{
    let bytes = input.as_bytes();
    let ghost b = utf8(input@);
    assert(bytes@ == b);
    proof {
        vstd::utf8::encode_utf8_valid_utf8(input@);
        vstd::utf8::is_char_boundary_start_end_of_seq(b);
    }
    let len = bytes.len();
    let ghost target = ansi_runs(b, fallback_style, 0, 0, fallback_style);
    let mut spans: Vec<Span> = Vec::new();
    let mut current_style = fallback_style;
    let mut i: usize = 0;
    let mut text_start: usize = 0;
    while i < len
        invariant
            len == b.len(),
            bytes@ == b,
            b == utf8(input@),
            vstd::utf8::valid_utf8(b),
            text_start <= i <= len,
            vstd::utf8::is_char_boundary(b, text_start as int),
            spans_view(spans@) + ansi_runs(b, fallback_style, i as int, text_start as int, current_style)
                == target,
        decreases len - i,
    {
        if bytes[i] == 27u8 && i + 1 < len && bytes[i + 1] == 91u8 {
            let ghost before = spans_view(spans@);
            let ghost old_style = current_style;
            let ghost old_i = i as int;
            let ghost old_ts = text_start as int;
            proof {
                lemma_boundary_iff(b, i as int);
                lemma_boundary_iff(b, i + 1);
                lemma_boundary_after_ascii(b, i + 1);
                lemma_scan_sgr_end(b, i + 2, i + 2);
            }
            if text_start < i {
                let content = substring_bytes(input, text_start, i);
                spans.push(Span { content, style: current_style });
            }
            let ghost flushed = if old_ts < old_i { seq![(b.subrange(old_ts, old_i), old_style)] } else { seq![] };
            assert(spans_view(spans@) =~= before + flushed);
            let seq_start = i + 2;
            let mut seq_end = seq_start;
            while seq_end < len && bytes[seq_end] != 109u8 && seq_end - seq_start < 32
                invariant
                    seq_start <= seq_end <= len,
                    len == b.len(),
                    bytes@ == b,
                    scan_sgr_end(b, seq_start as int, seq_end as int) == scan_sgr_end(b, seq_start as int, seq_start as int),
                decreases len - seq_end,
            {
                seq_end = seq_end + 1;
            }
            if seq_end < len && bytes[seq_end] == 109u8 {
                proof {
                    lemma_boundary_iff(b, seq_end as int);
                    lemma_boundary_after_ascii(b, seq_end as int);
                }
                let seq = substring_bytes(input, seq_start, seq_end);
                current_style = apply_sgr(seq.as_str(), current_style, fallback_style);
                i = seq_end + 1;
            } else {
                i = i + 1;
            }
            text_start = i;
            assert(spans_view(spans@) + ansi_runs(b, fallback_style, i as int, text_start as int, current_style)
                =~= before + ansi_runs(b, fallback_style, old_i, old_ts, old_style));
        } else {
            i = i + 1;
        }
    }
    if text_start < len {
        let content = substring_bytes(input, text_start, len);
        spans.push(Span { content, style: current_style });
    }
    assert(spans_view(spans@) =~= target);
    spans
}


proof fn lemma_runs_without_escape(b: Seq<u8>, fallback: Style, i: int, text_start: int, style: Style)
    requires
        0 <= text_start <= i <= b.len(),
        forall|k: int| i <= k < b.len() ==> b[k] != 27u8,
    ensures
        ansi_runs(b, fallback, i, text_start, style) == (if text_start < b.len() {
            seq![(b.subrange(text_start, b.len() as int), style)]
        } else {
            seq![]
        }),
    decreases b.len() - i,
{
    if i < b.len() {
        lemma_runs_without_escape(b, fallback, i + 1, text_start, style);
    }
}

/// Text without escape characters comes out as one span, unchanged, in the
/// fallback style; empty text gives no span.
pub proof fn law_plain_text_is_one_span(b: Seq<u8>, fallback: Style)
    requires
        forall|k: int| 0 <= k < b.len() ==> b[k] != 27u8,
    ensures
        b.len() > 0 ==> ansi_spans_spec(b, fallback) == seq![(b, fallback)],
        b.len() == 0 ==> ansi_spans_spec(b, fallback) == Seq::<(Seq<u8>, Style)>::empty(),
{
    lemma_runs_without_escape(b, fallback, 0, 0, fallback);
    assert(b.subrange(0, b.len() as int) =~= b);
}

/// The bytes of `b` from `i` on with the escape sequences taken out: each
/// complete `ESC [ P m` goes, and of any other `ESC [` only the `ESC`.
pub open spec fn strip_escapes(b: Seq<u8>, i: int) -> Seq<u8>
    decreases b.len() - i,
{
    if i < 0 || i >= b.len() {
        seq![]
    } else if escape_at(b, i) {
        let e = scan_sgr_end(b, i + 2, i + 2);
        proof {
            lemma_scan_sgr_end(b, i + 2, i + 2);
        }
        if e < b.len() && b[e] == 109u8 {
            strip_escapes(b, e + 1)
        } else {
            strip_escapes(b, i + 1)
        }
    } else {
        seq![b[i]] + strip_escapes(b, i + 1)
    }
}

/// The texts of `runs` joined in order.
pub open spec fn runs_text(runs: Seq<(Seq<u8>, Style)>) -> Seq<u8>
    decreases runs.len(),
{
    if runs.len() == 0 {
        seq![]
    } else {
        runs[0].0 + runs_text(runs.drop_first())
    }
}

proof fn lemma_runs_text_concat(p: Seq<(Seq<u8>, Style)>, q: Seq<(Seq<u8>, Style)>)
    ensures
        runs_text(p + q) == runs_text(p) + runs_text(q),
    decreases p.len(),
{
    if p.len() == 0 {
        assert(p + q =~= q);
    } else {
        assert((p + q).drop_first() =~= p.drop_first() + q);
        lemma_runs_text_concat(p.drop_first(), q);
        assert(runs_text(p + q) =~= runs_text(p) + runs_text(q));
    }
}

proof fn lemma_runs_text_and_nonempty(b: Seq<u8>, fallback: Style, i: int, text_start: int, style: Style)
    requires
        0 <= text_start <= i <= b.len(),
    ensures
        runs_text(ansi_runs(b, fallback, i, text_start, style)) == b.subrange(text_start, i) + strip_escapes(b, i),
        forall|k: int| 0 <= k < ansi_runs(b, fallback, i, text_start, style).len()
            ==> #[trigger] ansi_runs(b, fallback, i, text_start, style)[k].0.len() > 0,
    decreases b.len() - i,
{
    let runs = ansi_runs(b, fallback, i, text_start, style);
    if i >= b.len() {
        if text_start < b.len() {
            let one = seq![(b.subrange(text_start, b.len() as int), style)];
            assert(one.drop_first() =~= Seq::<(Seq<u8>, Style)>::empty());
            assert(runs_text(one.drop_first()) =~= Seq::<u8>::empty());
            assert(one[0].0 == b.subrange(text_start, b.len() as int));
            assert(runs_text(one) =~= b.subrange(text_start, b.len() as int));
        } else {
            assert(runs.len() == 0);
            assert(runs_text(runs) =~= Seq::<u8>::empty());
        }
        assert(b.subrange(text_start, i) + strip_escapes(b, i) =~= runs_text(runs));
    } else if escape_at(b, i) {
        lemma_scan_sgr_end(b, i + 2, i + 2);
        let flushed = if text_start < i { seq![(b.subrange(text_start, i), style)] } else { seq![] };
        let e = scan_sgr_end(b, i + 2, i + 2);
        assert(runs_text(flushed) =~= b.subrange(text_start, i)) by {
            if text_start < i {
                assert(flushed.drop_first() =~= Seq::<(Seq<u8>, Style)>::empty());
                assert(runs_text(flushed.drop_first()) =~= Seq::<u8>::empty());
                assert(flushed[0].0 == b.subrange(text_start, i));
            } else {
                assert(flushed.len() == 0);
                assert(b.subrange(text_start, i) =~= Seq::<u8>::empty());
            }
        }
        if e < b.len() && b[e] == 109u8 {
            let st = sgr_style(b.subrange(i + 2, e), style, fallback);
            let rest = ansi_runs(b, fallback, e + 1, e + 1, st);
            lemma_runs_text_and_nonempty(b, fallback, e + 1, e + 1, st);
            lemma_runs_text_concat(flushed, rest);
            assert(runs == flushed + rest);
            assert(b.subrange(e + 1, e + 1) =~= Seq::<u8>::empty());
            assert(runs_text(runs) =~= b.subrange(text_start, i) + strip_escapes(b, i));
            assert forall|k: int| 0 <= k < runs.len() implies #[trigger] runs[k].0.len() > 0 by {
                if k >= flushed.len() {
                    assert(runs[k] == rest[k - flushed.len()]);
                }
            }
        } else {
            let rest = ansi_runs(b, fallback, i + 1, i + 1, style);
            lemma_runs_text_and_nonempty(b, fallback, i + 1, i + 1, style);
            lemma_runs_text_concat(flushed, rest);
            assert(runs == flushed + rest);
            assert(b.subrange(i + 1, i + 1) =~= Seq::<u8>::empty());
            assert(runs_text(runs) =~= b.subrange(text_start, i) + strip_escapes(b, i));
            assert forall|k: int| 0 <= k < runs.len() implies #[trigger] runs[k].0.len() > 0 by {
                if k >= flushed.len() {
                    assert(runs[k] == rest[k - flushed.len()]);
                }
            }
        }
    } else {
        lemma_runs_text_and_nonempty(b, fallback, i + 1, text_start, style);
        assert(b.subrange(text_start, i + 1) =~= b.subrange(text_start, i) + seq![b[i]]);
        assert(runs_text(runs) =~= b.subrange(text_start, i) + strip_escapes(b, i));
    }
}

/// The spans are never empty, and joined in order they give the text with
/// its escape sequences taken out (see `strip_escapes`).
pub proof fn law_spans_join_to_stripped_text(b: Seq<u8>, fallback: Style)
    ensures
        runs_text(ansi_spans_spec(b, fallback)) == strip_escapes(b, 0),
        forall|k: int| 0 <= k < ansi_spans_spec(b, fallback).len()
            ==> #[trigger] ansi_spans_spec(b, fallback)[k].0.len() > 0,
{
    lemma_runs_text_and_nonempty(b, fallback, 0, 0, fallback);
    assert(b.subrange(0, 0) =~= Seq::<u8>::empty());
}

/// The codes applied one after another, each by `basic_sgr`.
pub open spec fn basic_fold(codes: Seq<u8>, style: Style, fallback: Style) -> Style
    decreases codes.len(),
{
    if codes.len() == 0 {
        style
    } else {
        basic_fold(codes.drop_first(), basic_sgr(codes[0], style, fallback), fallback)
    }
}

proof fn lemma_split_len(b: Seq<u8>, sep: u8)
    ensures
        split_bytes(b, sep).len() >= 1,
    decreases b.len(),
{
    if b.len() > 0 {
        lemma_split_len(b.drop_last(), sep);
    }
}

proof fn lemma_split_concat(x: Seq<u8>, y: Seq<u8>, sep: u8)
    ensures
        split_bytes(x + seq![sep] + y, sep) == split_bytes(x, sep) + split_bytes(y, sep),
    decreases y.len(),
{
    let z = x + seq![sep] + y;
    if y.len() == 0 {
        assert(z.drop_last() =~= x);
        assert(split_bytes(y, sep) =~= seq![Seq::<u8>::empty()]);
        assert(split_bytes(z, sep) =~= split_bytes(x, sep) + split_bytes(y, sep));
    } else {
        let y1 = y.drop_last();
        assert(z.drop_last() =~= x + seq![sep] + y1);
        assert(z.last() == y.last());
        lemma_split_concat(x, y1, sep);
        lemma_split_len(y1, sep);
        assert(split_bytes(z, sep) =~= split_bytes(x, sep) + split_bytes(y, sep));
    }
}

proof fn lemma_params_concat(p: Seq<Seq<u8>>, q: Seq<Seq<u8>>)
    ensures
        sgr_params(p + q) == sgr_params(p) + sgr_params(q),
    decreases q.len(),
{
    if q.len() == 0 {
        assert(p + q =~= p);
        assert(sgr_params(p) + sgr_params(q) =~= sgr_params(p));
    } else {
        assert((p + q).drop_last() =~= p + q.drop_last());
        assert((p + q).last() == q.last());
        lemma_params_concat(p, q.drop_last());
        assert(sgr_params(p + q) =~= sgr_params(p) + sgr_params(q));
    }
}

proof fn lemma_sgr_from_basic(params: Seq<u8>, parts: Seq<Seq<u8>>, idx: int, style: Style, fallback: Style)
    requires
        0 <= idx <= params.len(),
        !params.contains(38u8),
        !params.contains(48u8),
    ensures
        sgr_from(params, parts, idx, style, fallback) == basic_fold(params.skip(idx), style, fallback),
    decreases params.len() - idx,
{
    if idx < params.len() {
        assert(params[idx] != 38u8 && params[idx] != 48u8);
        lemma_sgr_from_basic(params, parts, idx + 1, basic_sgr(params[idx], style, fallback), fallback);
        assert(params.skip(idx).drop_first() =~= params.skip(idx + 1));
        assert(params.skip(idx)[0] == params[idx]);
    } else {
        assert(params.skip(idx).len() == 0);
    }
}

proof fn lemma_fold_concat(p: Seq<u8>, q: Seq<u8>, style: Style, fallback: Style)
    ensures
        basic_fold(p + q, style, fallback) == basic_fold(q, basic_fold(p, style, fallback), fallback),
    decreases p.len(),
{
    if p.len() == 0 {
        assert(p + q =~= q);
    } else {
        assert((p + q).drop_first() =~= p.drop_first() + q);
        assert((p + q)[0] == p[0]);
        lemma_fold_concat(p.drop_first(), q, basic_sgr(p[0], style, fallback), fallback);
    }
}

/// Two non-empty lists of codes joined by `;` act as the first list and
/// then the second, when neither holds an extended colour (38 or 48).
pub proof fn law_sgr_codes_apply_in_turn(a: Seq<u8>, b: Seq<u8>, style: Style, fallback: Style)
    requires
        a.len() > 0,
        b.len() > 0,
        !sgr_params(split_bytes(a, 59u8)).contains(38u8),
        !sgr_params(split_bytes(a, 59u8)).contains(48u8),
        !sgr_params(split_bytes(b, 59u8)).contains(38u8),
        !sgr_params(split_bytes(b, 59u8)).contains(48u8),
    ensures
        sgr_style(a + seq![59u8] + b, style, fallback) == sgr_style(b, sgr_style(a, style, fallback), fallback),
{
    let pa = split_bytes(a, 59u8);
    let pb = split_bytes(b, 59u8);
    let ab = a + seq![59u8] + b;
    lemma_split_concat(a, b, 59u8);
    lemma_params_concat(pa, pb);
    let qa = sgr_params(pa);
    let qb = sgr_params(pb);
    let q = sgr_params(split_bytes(ab, 59u8));
    assert(q == qa + qb);
    assert(!q.contains(38u8)) by {
        if q.contains(38u8) {
            let k = choose|k: int| 0 <= k < q.len() && q[k] == 38u8;
            if k < qa.len() {
                assert(qa[k] == 38u8);
            } else {
                assert(qb[k - qa.len()] == 38u8);
            }
        }
    }
    assert(!q.contains(48u8)) by {
        if q.contains(48u8) {
            let k = choose|k: int| 0 <= k < q.len() && q[k] == 48u8;
            if k < qa.len() {
                assert(qa[k] == 48u8);
            } else {
                assert(qb[k - qa.len()] == 48u8);
            }
        }
    }
    lemma_sgr_from_basic(q, split_bytes(ab, 59u8), 0, style, fallback);
    lemma_sgr_from_basic(qa, pa, 0, style, fallback);
    let mid = sgr_style(a, style, fallback);
    lemma_sgr_from_basic(qb, pb, 0, mid, fallback);
    assert(q.skip(0) =~= q);
    assert(qa.skip(0) =~= qa);
    assert(qb.skip(0) =~= qb);
    lemma_fold_concat(qa, qb, style, fallback);
}

proof fn lemma_two_digit_code(d1: u8, d2: u8, style: Style, fallback: Style)
    requires
        48 <= d1 <= 57,
        48 <= d2 <= 57,
        (d1 - 48) * 10 + (d2 - 48) != 38,
        (d1 - 48) * 10 + (d2 - 48) != 48,
    ensures
        sgr_style(seq![d1, d2], style, fallback) == basic_sgr(((d1 - 48) * 10 + (d2 - 48)) as u8, style, fallback),
{
    let b = seq![d1, d2];
    let code = (d1 - 48) * 10 + (d2 - 48);
    assert(b.drop_last() =~= seq![d1]);
    assert(seq![d1].drop_last() =~= Seq::<u8>::empty());
    let p0 = split_bytes(Seq::<u8>::empty(), 59u8);
    assert(p0 =~= seq![Seq::<u8>::empty()]);
    assert(split_bytes(seq![d1], 59u8) =~= seq![seq![d1]]);
    assert(b.last() == d2);
    assert(seq![d1].last() == d1);
    assert(seq![d1].push(d2) =~= b);
    assert(split_bytes(b, 59u8) == split_bytes(seq![d1], 59u8).update(0, seq![d1].push(d2)));
    assert(split_bytes(b, 59u8) =~= seq![b]);
    let parts = split_bytes(b, 59u8);
    assert(crate::text::unsigned_digits(b) =~= b);
    assert(crate::text::digits_value(b.drop_last()) == (d1 - 48) as nat) by {
        assert(seq![d1].drop_last() =~= Seq::<u8>::empty());
        assert(crate::text::digits_value(Seq::<u8>::empty()) == 0);
        assert(crate::text::digits_value(seq![d1]) == crate::text::digits_value(seq![d1].drop_last()) * 10
            + (seq![d1].last() - 48) as nat);
    }
    assert(crate::text::digits_value(b) == code);
    assert(parse_unsigned(b, 255) == Some(code as nat));
    assert(parts.drop_last() =~= Seq::<Seq<u8>>::empty());
    assert(parts.last() == b);
    assert(sgr_params(parts.drop_last()) =~= Seq::<u8>::empty());
    assert(sgr_params(parts) == sgr_params(parts.drop_last()).push(code as u8));
    assert(sgr_params(parts) =~= seq![code as u8]);
    let params = seq![code as u8];
    assert(sgr_from(params, parts, 1, basic_sgr(code as u8, style, fallback), fallback)
        == basic_sgr(code as u8, style, fallback));
}

/// The standard colour codes set the foreground to their fixed colours:
/// 30–37 black, red, green, yellow, blue, magenta, cyan, white, and 90–97
/// dark grey, light red, light green, light yellow, light blue, light
/// magenta, light cyan, white; everything else about the style stays.
pub proof fn law_standard_colour_codes(style: Style, fallback: Style)
    ensures
        sgr_style(seq![51u8, 48u8], style, fallback) == style.spec_fg(Color::Black),
        sgr_style(seq![51u8, 49u8], style, fallback) == style.spec_fg(Color::Red),
        sgr_style(seq![51u8, 50u8], style, fallback) == style.spec_fg(Color::Green),
        sgr_style(seq![51u8, 51u8], style, fallback) == style.spec_fg(Color::Yellow),
        sgr_style(seq![51u8, 52u8], style, fallback) == style.spec_fg(Color::Blue),
        sgr_style(seq![51u8, 53u8], style, fallback) == style.spec_fg(Color::Magenta),
        sgr_style(seq![51u8, 54u8], style, fallback) == style.spec_fg(Color::Cyan),
        sgr_style(seq![51u8, 55u8], style, fallback) == style.spec_fg(Color::White),
        sgr_style(seq![57u8, 48u8], style, fallback) == style.spec_fg(Color::DarkGray),
        sgr_style(seq![57u8, 49u8], style, fallback) == style.spec_fg(Color::LightRed),
        sgr_style(seq![57u8, 50u8], style, fallback) == style.spec_fg(Color::LightGreen),
        sgr_style(seq![57u8, 51u8], style, fallback) == style.spec_fg(Color::LightYellow),
        sgr_style(seq![57u8, 52u8], style, fallback) == style.spec_fg(Color::LightBlue),
        sgr_style(seq![57u8, 53u8], style, fallback) == style.spec_fg(Color::LightMagenta),
        sgr_style(seq![57u8, 54u8], style, fallback) == style.spec_fg(Color::LightCyan),
        sgr_style(seq![57u8, 55u8], style, fallback) == style.spec_fg(Color::White),
{
    lemma_two_digit_code(51u8, 48u8, style, fallback);
    lemma_two_digit_code(51u8, 49u8, style, fallback);
    lemma_two_digit_code(51u8, 50u8, style, fallback);
    lemma_two_digit_code(51u8, 51u8, style, fallback);
    lemma_two_digit_code(51u8, 52u8, style, fallback);
    lemma_two_digit_code(51u8, 53u8, style, fallback);
    lemma_two_digit_code(51u8, 54u8, style, fallback);
    lemma_two_digit_code(51u8, 55u8, style, fallback);
    lemma_two_digit_code(57u8, 48u8, style, fallback);
    lemma_two_digit_code(57u8, 49u8, style, fallback);
    lemma_two_digit_code(57u8, 50u8, style, fallback);
    lemma_two_digit_code(57u8, 51u8, style, fallback);
    lemma_two_digit_code(57u8, 52u8, style, fallback);
    lemma_two_digit_code(57u8, 53u8, style, fallback);
    lemma_two_digit_code(57u8, 54u8, style, fallback);
    lemma_two_digit_code(57u8, 55u8, style, fallback);
}

/// An empty parameter list (`ESC [ m`) and the parameter `0` both reset
/// to the fallback style.
pub proof fn law_sgr_reset(style: Style, fallback: Style)
    ensures
        sgr_style(Seq::<u8>::empty(), style, fallback) == fallback,
        sgr_style(seq![48u8], style, fallback) == fallback,
{
    let b = seq![48u8];
    assert(b.drop_last() =~= Seq::<u8>::empty());
    let parts = split_bytes(b, 59u8);
    assert(parts =~= seq![seq![48u8]]);
    assert(parts.drop_last() =~= Seq::<Seq<u8>>::empty());
    assert(crate::text::unsigned_digits(seq![48u8]) =~= seq![48u8]);
    assert(parse_unsigned(seq![48u8], 255) == Some(0nat));
    assert(sgr_params(parts.drop_last()) =~= Seq::<u8>::empty());
    assert(parts.last() == seq![48u8]);
    assert(sgr_params(parts) =~= seq![0u8]);
    assert(sgr_from(seq![0u8], parts, 1, fallback, fallback) == fallback);
}

} // verus!
