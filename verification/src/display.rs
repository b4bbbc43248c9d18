use vstd::prelude::*;
use vstd::string::*;

use crate::session::hint_views;
use crate::star::StarClass;
use crate::text::text;

verus! {

/// Bytes in the UTF-8 form of a text, as `str::len` counts them.
pub open spec fn byte_len(s: Seq<char>) -> int {
    (vstd::utf8::encode_utf8(s).len() as usize) as int
}

/// Width in bytes of the first `n` hints laid out on one line: key, space
/// and description, with `" • "` between hints.
pub open spec fn hints_width(hints: Seq<(Seq<char>, Seq<char>)>, n: int) -> int
    decreases n,
{
    if n <= 0 {
        0
    } else {
        hints_width(hints, n - 1) + (if n - 1 > 0 { 5int } else { 0int }) + byte_len(hints[n - 1].0) + 1
            + byte_len(hints[n - 1].1)
    }
}

/// Lines the footer needs for its hints at a given width: the laid-out
/// width divided by the line width, rounded up, kept between 1 and 3.
pub open spec fn footer_lines(width: int, total: int) -> int {
    let w = if width > 1 { width } else { 1 };
    let lines = (total + w - 1) / w;
    if lines < 1 {
        1
    } else if lines > 3 {
        3
    } else {
        lines
    }
}

/// How many lines (1 to 3) the footer's key hints need at `width` columns.
pub fn footer_lines_needed(width: u16, key_hints: &[(String, String)]) -> (r: u16)
    requires
        hints_width(hint_views(key_hints@), key_hints@.len() as int) <= usize::MAX,
    ensures
        r == footer_lines(width as int, hints_width(hint_views(key_hints@), key_hints@.len() as int)),
{
    let w: usize = if width > 1 { width as usize } else { 1 };
    let ghost hv = hint_views(key_hints@);
    let mut total: usize = 0;
    let mut idx: usize = 0;
    proof {
        lemma_hints_width_monotone(hv, key_hints@.len() as int);
    }
    while idx < key_hints.len()
        invariant
            idx <= key_hints@.len(),
            hv == hint_views(key_hints@),
            hv.len() == key_hints@.len(),
            total == hints_width(hv, idx as int),
            forall|k: int| 0 <= k <= key_hints@.len() ==> #[trigger] hints_width(hv, k) <= hints_width(hv, key_hints@.len() as int),
            hints_width(hv, key_hints@.len() as int) <= usize::MAX,
        decreases key_hints@.len() - idx,
    {
        let (key, desc) = &key_hints[idx];
        assert(hv[idx as int] == (key@, desc@));
        assert(hints_width(hv, idx + 1) <= hints_width(hv, key_hints@.len() as int));
        if idx > 0 {
            total = total + 5;
        }
        total = total + key.as_str().len();
        total = total + 1;
        total = total + desc.as_str().len();
        idx = idx + 1;
    }
    let q: usize = total / w;
    proof {
        if total % w > 0 {
            assert(w >= 2);
            assert(q <= total / 2) by (nonlinear_arith)
                requires
                    q == total / w,
                    w >= 2,
            {
                vstd::arithmetic::div_mod::lemma_div_is_ordered_by_denominator(total as int, 2, w as int);
            }
        }
    }
    let lines: usize = if total % w > 0 { q + 1 } else { q };
    proof {
        let t = total as int;
        let wi = w as int;
        assert(lines == (t + wi - 1) / wi) by (nonlinear_arith)
            requires
                lines == (if t % wi > 0 { t / wi + 1 } else { t / wi }),
                wi >= 1,
                t >= 0,
        {
            vstd::arithmetic::div_mod::lemma_fundamental_div_mod(t, wi);
            vstd::arithmetic::div_mod::lemma_fundamental_div_mod(t + wi - 1, wi);
        }
    }
    if lines < 1 {
        1
    } else if lines > 3 {
        3
    } else {
        lines as u16
    }
}

proof fn lemma_hints_width_monotone(hv: Seq<(Seq<char>, Seq<char>)>, n: int)
    requires
        n >= 0,
    ensures
        forall|k: int| 0 <= k <= n ==> #[trigger] hints_width(hv, k) <= hints_width(hv, n),
    decreases n,
{
    if n > 0 {
        lemma_hints_width_monotone(hv, n - 1);
    }
}

/// A text cut to at most `max_len` bytes' worth of room: unchanged when its
/// UTF-8 form fits, else its first `max_len - 1` characters and an ellipsis
/// (just the first character, or nothing, when `max_len` is 1 or 0).
pub open spec fn abbreviated(s: Seq<char>, max_len: int) -> Seq<char> {
    if byte_len(s) <= max_len {
        s
    } else if max_len > 1 {
        s.take(if max_len - 1 < s.len() { max_len - 1 } else { s.len() as int }) + seq!['\u{2026}']
    } else {
        s.take(if max_len < s.len() { max_len } else { s.len() as int })
    }
}

/// Shortens a name to fit `max_len` columns (see `abbreviated`).
pub fn abbrev(s: &str, max_len: usize) -> (r: String)
    ensures
        r@ == abbreviated(s@, max_len as int),
{
    if s.len() <= max_len {
        return text(s);
    }
    let n = s.unicode_len();
    if max_len > 1 {
        let k = if max_len - 1 < n { max_len - 1 } else { n };
        let mut out = text(s.substring_char(0, k));
        out.append("\u{2026}");
        proof {
            reveal_strlit("\u{2026}");
            assert(s@.subrange(0, k as int) =~= s@.take(k as int));
        }
        out
    } else {
        let k = if max_len < n { max_len } else { n };
        proof {
            assert(s@.subrange(0, k as int) =~= s@.take(k as int));
        }
        text(s.substring_char(0, k))
    }
}

/// The short name of a class (`I` to `IV`).
pub fn class_short(class: StarClass) -> (r: &'static str)
    ensures
        r@ == (match class {
            StarClass::I => "I"@,
            StarClass::II => "II"@,
            StarClass::III => "III"@,
            StarClass::IV => "IV"@,
        }),
{
    match class {
        StarClass::I => "I",
        StarClass::II => "II",
        StarClass::III => "III",
        StarClass::IV => "IV",
    }
}

/// How a highlighted figure is tinted.
#[derive(Debug, Clone, Copy, PartialEq, Eq, Structural)]
pub enum Tint {
    Gain,
    Loss,
}

/// The tint of a figure with highlight `delta` at tick `now`: highlights
/// blink, on for two ticks and off for two; a rise shows as a gain, anything
/// else as a loss.
pub fn delta_tint(delta: Option<i64>, now: u64) -> (r: Option<Tint>)
    ensures
        r == (match delta {
            Some(d) => if (now / 2) % 2 == 0 {
                Some(if d > 0 { Tint::Gain } else { Tint::Loss })
            } else {
                None
            },
            None => None,
        }),
{
    match delta {
        Some(d) => {
            if (now / 2) % 2 == 0 {
                if d > 0 {
                    Some(Tint::Gain)
                } else {
                    Some(Tint::Loss)
                }
            } else {
                None
            }
        },
        None => None,
    }
}

} // verus!
