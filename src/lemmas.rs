use vstd::prelude::*;

use crate::buffer::{
    collapsed, drop_suffix, ellipsis, ends_with, erase_last_run, first_cut, fits_behind_ellipsis,
    is_whitespace, key_step, label_of, last_space, lemma_visible_count_concat, push_token,
    rendered_width, run_of, starts_run, starts_with, strip_ellipsis, triple_run,
    trim_end_whitespace, truncated, visible_count, DisplayState,
};
use crate::digits::decimal;
use crate::keys::{iced_token, rdev_token, HookKey, ToolkitKey, BACK_SPACE};

verus! {

/// `s` holds no space.
pub open spec fn no_spaces(s: Seq<char>) -> bool {
    forall|i: int| 0 <= i < s.len() ==> s[i] != ' '
}

/// `s` holds no white space.
pub open spec fn no_whitespace(s: Seq<char>) -> bool {
    forall|i: int| 0 <= i < s.len() ==> !is_whitespace(s[i])
}

proof fn lemma_decimal_no_spaces(n: nat)
    ensures
        no_spaces(decimal(n)),
        no_whitespace(decimal(n)),
    decreases n,
{
    if n >= 10 {
        lemma_decimal_no_spaces(n / 10);
        let d = decimal(n / 10);
        assert forall|i: int| 0 <= i < decimal(n).len() implies decimal(n)[i] != ' ' && !is_whitespace(
            decimal(n)[i],
        ) by {
            if i < d.len() {
                assert(decimal(n)[i] == d[i]);
            }
        }
    }
}

proof fn lemma_label_no_spaces(token: Seq<char>, n: nat)
    requires
        no_spaces(token),
    ensures
        no_spaces(label_of(token, n)),
        label_of(token, n).len() >= token.len() + 5,
{
    lemma_decimal_no_spaces(n);
    let l = label_of(token, n);
    let dots = seq!['.', '.', '.', 'x'];
    assert(decimal(n).len() >= 1);
    assert forall|i: int| 0 <= i < l.len() implies l[i] != ' ' by {
        if i < token.len() {
            assert(l[i] == token[i]);
        } else if i < token.len() + 4 {
            assert(l[i] == dots[i - token.len()]);
        } else {
            assert(l[i] == decimal(n)[i - token.len() - 4]);
        }
    }
}

/// A line that ends in a label, and a space, never ends in three runs of the
/// same space-free token.
proof fn lemma_label_is_not_triple(pre: Seq<char>, token: Seq<char>, n: nat)
    requires
        no_spaces(token),
    ensures
        !ends_with(pre + run_of(label_of(token, n)), triple_run(token)),
{
    lemma_label_no_spaces(token, n);
    let l = label_of(token, n);
    let s = pre + run_of(l);
    let tr = triple_run(token);
    if ends_with(s, tr) {
        let i: int = 2 * token.len() as int + 1;
        assert(tr[i] == ' ');
        let j = s.len() - tr.len() + i;
        assert(s.subrange(s.len() - tr.len(), s.len() as int)[i] == s[j]);
        assert(s[j] == l[j - pre.len()]);
    }
}

proof fn lemma_appended_ends_with(pre: Seq<char>, suffix: Seq<char>)
    ensures
        ends_with(pre + suffix, suffix),
        drop_suffix(pre + suffix, suffix.len()) == pre,
{
    assert((pre + suffix).subrange(pre.len() as int, (pre + suffix).len() as int) =~= suffix);
    assert(drop_suffix(pre + suffix, suffix.len()) =~= pre);
}

/// The `n`-th press of a token, `n` past three, on a line that ends in the
/// token's label for `n - 1`, replaces that label by the label for `n`.
pub proof fn lemma_label_replaced(pre: Seq<char>, token: Seq<char>, n: nat)
    requires
        no_spaces(token),
        n >= 4,
    ensures
        collapsed(pre + run_of(label_of(token, (n - 1) as nat)), token, (n - 1) as nat, n)
            == pre + run_of(label_of(token, n)),
{
    lemma_label_is_not_triple(pre, token, (n - 1) as nat);
    lemma_appended_ends_with(pre, run_of(label_of(token, (n - 1) as nat)));
}

/// Five presses in a row of a space-free token that was not the last one leave
/// the line ending in the token's label for five, in place of the runs; a
/// sixth press replaces that label by the label for six, with nothing left of
/// the label for five.
pub proof fn lemma_five_repeats_collapse(
    text: Seq<char>,
    last: Option<Seq<char>>,
    count: u32,
    token: Seq<char>,
)
    requires
        no_spaces(token),
        last != Some(token),
    ensures
        ({
            let s1 = push_token(text, last, count, token);
            let s2 = push_token(s1.0, s1.1, s1.2, token);
            let s3 = push_token(s2.0, s2.1, s2.2, token);
            let s4 = push_token(s3.0, s3.1, s3.2, token);
            let s5 = push_token(s4.0, s4.1, s4.2, token);
            let s6 = push_token(s5.0, s5.1, s5.2, token);
            &&& s5.0 == text + run_of(label_of(token, 5))
            &&& ends_with(s5.0, run_of(label_of(token, 5)))
            &&& s5.2 == 5
            &&& s6.0 == drop_suffix(s5.0, run_of(label_of(token, 5)).len()) + run_of(label_of(token, 6))
            &&& s6.2 == 6
        }),
{
    let r = run_of(token);
    let s1 = push_token(text, last, count, token);
    assert(s1.0 == text + r && s1.2 == 1);
    let s2 = push_token(s1.0, s1.1, s1.2, token);
    assert(s2.0 == text + r + r && s2.2 == 2);
    let s3 = push_token(s2.0, s2.1, s2.2, token);
    assert(s3.0 == text + r + r + r && s3.2 == 3);
    assert(text + r + r + r =~= text + triple_run(token));
    lemma_appended_ends_with(text, triple_run(token));
    let s4 = push_token(s3.0, s3.1, s3.2, token);
    assert(s4.0 == text + run_of(label_of(token, 4)) && s4.2 == 4);
    lemma_label_replaced(text, token, 5);
    let s5 = push_token(s4.0, s4.1, s4.2, token);
    assert(s5.0 == text + run_of(label_of(token, 5)) && s5.2 == 5);
    lemma_appended_ends_with(text, run_of(label_of(token, 5)));
    lemma_label_replaced(text, token, 6);
}

/// Three presses of a token that was not the last one, then one of another
/// token, are all written out: the line gains `a a a b `.
pub proof fn lemma_three_repeats_stay(
    text: Seq<char>,
    last: Option<Seq<char>>,
    count: u32,
    a: Seq<char>,
    b: Seq<char>,
)
    requires
        last != Some(a),
        a != b,
    ensures
        ({
            let s1 = push_token(text, last, count, a);
            let s2 = push_token(s1.0, s1.1, s1.2, a);
            let s3 = push_token(s2.0, s2.1, s2.2, a);
            let s4 = push_token(s3.0, s3.1, s3.2, b);
            &&& s4.0 == text + run_of(a) + run_of(a) + run_of(a) + run_of(b)
            &&& s3.2 == 3
            &&& s4.1 == Some(b)
            &&& s4.2 == 1
        }),
{
}

/// Erasing after two runs `a ` and `b `, `b` a non-empty token without white
/// space, leaves the line as it was before `b `: ending in `a `.
pub proof fn lemma_erase_drops_last_run(text: Seq<char>, a: Seq<char>, b: Seq<char>)
    requires
        b.len() > 0,
        no_whitespace(b),
    ensures
        erase_last_run(text + run_of(a) + run_of(b)) == text + run_of(a),
{
    let s = text + run_of(a) + run_of(b);
    let t = text + run_of(a) + b;
    assert(s.drop_last() =~= t);
    assert(t.last() == b[b.len() - 1]);
    assert(trim_end_whitespace(t) == t);
    assert(is_whitespace(s.last()));
    assert(trim_end_whitespace(s) == t);
    assert(no_spaces(b)) by {
        assert forall|i: int| 0 <= i < b.len() implies b[i] != ' ' by {
            assert(!is_whitespace(b[i]));
        }
    }
    let p = text + run_of(a);
    assert forall|j: nat| j <= b.len() implies last_space(p + b.subrange(0, j as int)) == Some(
        (p.len() - 1) as nat,
    ) by {
        lemma_last_space_after(p, b, j);
    }
    assert(p + b.subrange(0, b.len() as int) =~= t);
    assert(t.subrange(0, p.len() - 1) =~= text + a);
}

proof fn lemma_last_space_after(p: Seq<char>, b: Seq<char>, j: nat)
    requires
        p.len() > 0,
        p.last() == ' ',
        no_spaces(b),
        j <= b.len(),
    ensures
        last_space(p + b.subrange(0, j as int)) == Some((p.len() - 1) as nat),
    decreases j,
{
    if j == 0 {
        assert(p + b.subrange(0, 0) =~= p);
    } else {
        let s = p + b.subrange(0, j as int);
        assert(s.last() == b[j - 1]);
        assert(s.drop_last() =~= p + b.subrange(0, j - 1));
        lemma_last_space_after(p, b, (j - 1) as nat);
    }
}

proof fn lemma_visible_count_ellipsis(s: Seq<char>)
    ensures
        visible_count(ellipsis() + s) == 3 + visible_count(s),
{
    lemma_visible_count_concat(ellipsis(), s);
    reveal_with_fuel(visible_count, 4);
    assert(ellipsis().drop_first() =~= seq!['.', '.']);
    assert(ellipsis().drop_first().drop_first() =~= seq!['.']);
    assert(ellipsis().drop_first().drop_first().drop_first() =~= Seq::<char>::empty());
}

proof fn lemma_first_cut(body: Seq<char>, k: nat, font_size: nat, max_width: nat)
    requires
        k <= body.len(),
    ensures
        k <= first_cut(body, k, font_size, max_width) <= body.len(),
        first_cut(body, k, font_size, max_width) == body.len() || (starts_run(
            body,
            first_cut(body, k, font_size, max_width),
        ) && fits_behind_ellipsis(
            body.subrange(first_cut(body, k, font_size, max_width) as int, body.len() as int),
            font_size,
            max_width,
        )),
    decreases body.len() - k,
{
    if k < body.len() && !(starts_run(body, k) && fits_behind_ellipsis(
        body.subrange(k as int, body.len() as int),
        font_size,
        max_width,
    )) {
        lemma_first_cut(body, k + 1, font_size, max_width);
    }
}

/// The cut comes no later than any position where a run begins and fits.
proof fn lemma_first_cut_at_most(body: Seq<char>, k: nat, p: nat, font_size: nat, max_width: nat)
    requires
        k <= p <= body.len(),
        p == body.len() || (starts_run(body, p) && fits_behind_ellipsis(
            body.subrange(p as int, body.len() as int),
            font_size,
            max_width,
        )),
    ensures
        first_cut(body, k, font_size, max_width) <= p,
    decreases p - k,
{
    if k < p && !(starts_run(body, k) && fits_behind_ellipsis(
        body.subrange(k as int, body.len() as int),
        font_size,
        max_width,
    )) {
        lemma_first_cut_at_most(body, k + 1, p, font_size, max_width);
    }
}

/// Cutting a line to its width. A line at least as wide as `max_width` comes
/// out as the marker followed by a tail of the line without its own marker,
/// and that tail begins a run (or is empty): only the oldest runs fall off.
/// So when no run of the line starts with a dot, the marker is never followed
/// by another dot. Whenever the marker itself fits, the result is no wider than
/// `max_width`; and cutting an already cut line changes nothing.
pub proof fn lemma_truncation(text: Seq<char>, font_size: nat, max_width: nat)
    ensures
        rendered_width(text, font_size) >= max_width ==> {
            let out = truncated(text, font_size, max_width);
            let body = strip_ellipsis(text);
            let k = first_cut(body, 0, font_size, max_width);
            &&& starts_with(out, ellipsis())
            &&& out == ellipsis() + body.subrange(k as int, body.len() as int)
            &&& k == body.len() || starts_run(body, k)
            &&& ends_with(text, out.subrange(3, out.len() as int))
            &&& (forall|j: nat| j < body.len() && starts_run(body, j) ==> body[j as int] != '.')
                ==> (out.len() == 3 || out[3] != '.')
        },
        3 * font_size <= max_width ==> rendered_width(truncated(text, font_size, max_width), font_size)
            <= max_width,
        truncated(truncated(text, font_size, max_width), font_size, max_width) == truncated(
            text,
            font_size,
            max_width,
        ),
{
    let out = truncated(text, font_size, max_width);
    if rendered_width(text, font_size) >= max_width {
        let body = strip_ellipsis(text);
        let k = first_cut(body, 0, font_size, max_width);
        lemma_first_cut(body, 0, font_size, max_width);
        let rest = body.subrange(k as int, body.len() as int);
        assert(out == ellipsis() + rest);
        assert(out.subrange(0, 3) =~= ellipsis());
        assert(out.subrange(3, out.len() as int) =~= rest);
        assert(text.subrange(text.len() - rest.len(), text.len() as int) =~= rest);
        if k < body.len() {
            assert(out[3] == body[k as int]);
        }
        lemma_visible_count_ellipsis(rest);
        assert(rendered_width(out, font_size) == (3 + visible_count(rest)) * font_size);
        if k == body.len() {
            assert(rest =~= Seq::<char>::empty());
            assert(visible_count(rest) == 0);
        }
        if rendered_width(out, font_size) >= max_width {
            assert(strip_ellipsis(out) =~= rest);
            assert(rest.subrange(0, rest.len() as int) =~= rest);
            assert(first_cut(rest, 0, font_size, max_width) == 0);
            assert(truncated(out, font_size, max_width) =~= out);
        }
    }
}

/// A cut line keeps its last run whenever that run fits behind the marker:
/// the newest key stays in view.
pub proof fn lemma_truncation_keeps_last_run(
    text: Seq<char>,
    pre: Seq<char>,
    piece: Seq<char>,
    font_size: nat,
    max_width: nat,
)
    requires
        strip_ellipsis(text) == pre + run_of(piece),
        pre.len() == 0 || pre.last() == ' ',
        fits_behind_ellipsis(run_of(piece), font_size, max_width),
    ensures
        ends_with(truncated(text, font_size, max_width), run_of(piece)),
{
    let out = truncated(text, font_size, max_width);
    let body = strip_ellipsis(text);
    let r = run_of(piece);
    let p = pre.len();
    assert(body.subrange(p as int, body.len() as int) =~= r);
    if rendered_width(text, font_size) >= max_width {
        if p > 0 {
            assert(body[p - 1] == pre.last());
        }
        lemma_first_cut(body, 0, font_size, max_width);
        lemma_first_cut_at_most(body, 0, p, font_size, max_width);
        let k = first_cut(body, 0, font_size, max_width);
        assert(out.subrange(out.len() - r.len(), out.len() as int) =~= r);
    } else {
        if starts_with(text, ellipsis()) {
            assert(text.subrange(text.len() - r.len(), text.len() as int) =~= r);
        } else {
            assert(text.subrange(text.len() - r.len(), text.len() as int) =~= r);
        }
    }
}

/// While the line stays narrower than its width, a key token leaves it exactly
/// as the collapsing step writes it: up to the third press in a row the run is
/// appended, from the fourth the new label replaces three runs, or else the
/// previous label, or else is appended.
pub proof fn lemma_uncut_key_step(
    before: DisplayState,
    token: Seq<char>,
    after: DisplayState,
    resize: Option<(u32, u32)>,
)
    requires
        key_step(before, token, after, resize),
        !(before.erase_on_backspace && token == BACK_SPACE@),
        rendered_width(
            push_token(before.text@, before.last_view(), before.repeat_count, token).0,
            before.font_size as nat,
        ) < before.max_width,
    ensures
        after.text@ == push_token(before.text@, before.last_view(), before.repeat_count, token).0,
{
}

/// Every token of the hook's table is non-empty and holds no white space, so
/// each stands in the line as one run.
pub proof fn lemma_hook_tokens_are_runs(key: HookKey)
    ensures
        rdev_token(key).len() > 0,
        no_spaces(rdev_token(key)),
        no_whitespace(rdev_token(key)),
{
    match key {
        HookKey::Alt => {
            reveal_strlit("Alt");
        },
        HookKey::AltGr => {
            reveal_strlit("Alt");
        },
        HookKey::Backspace => {
            reveal_strlit("\u{232b}");
        },
        HookKey::CapsLock => {
            reveal_strlit("Caps");
        },
        HookKey::ControlLeft => {
            reveal_strlit("\u{fb33}");
        },
        HookKey::ControlRight => {
            reveal_strlit("\u{fb33}");
        },
        HookKey::Delete => {
            reveal_strlit("\u{fae7}");
        },
        HookKey::End => {
            reveal_strlit("End");
        },
        HookKey::Escape => {
            reveal_strlit("esc");
        },
        HookKey::F1 => {
            reveal_strlit("F1");
        },
        HookKey::F2 => {
            reveal_strlit("F2");
        },
        HookKey::F3 => {
            reveal_strlit("F3");
        },
        HookKey::F4 => {
            reveal_strlit("F4");
        },
        HookKey::F5 => {
            reveal_strlit("F5");
        },
        HookKey::F6 => {
            reveal_strlit("F6");
        },
        HookKey::F7 => {
            reveal_strlit("F7");
        },
        HookKey::F8 => {
            reveal_strlit("F8");
        },
        HookKey::F9 => {
            reveal_strlit("F9");
        },
        HookKey::F10 => {
            reveal_strlit("F10");
        },
        HookKey::F11 => {
            reveal_strlit("F11");
        },
        HookKey::F12 => {
            reveal_strlit("F12");
        },
        HookKey::Home => {
            reveal_strlit("\u{f7db}");
        },
        HookKey::LeftArrow => {
            reveal_strlit("\u{fc2f}");
        },
        HookKey::RightArrow => {
            reveal_strlit("\u{fc32}");
        },
        HookKey::UpArrow => {
            reveal_strlit("\u{fc35}");
        },
        HookKey::DownArrow => {
            reveal_strlit("\u{fc2c}");
        },
        HookKey::MetaLeft => {
            reveal_strlit("Win");
        },
        HookKey::MetaRight => {
            reveal_strlit("Win");
        },
        HookKey::PageDown => {
            reveal_strlit("PageDown");
        },
        HookKey::PageUp => {
            reveal_strlit("PageUp");
        },
        HookKey::Return => {
            reveal_strlit("\u{23ce}");
        },
        HookKey::ShiftLeft => {
            reveal_strlit("\u{fb35}");
        },
        HookKey::ShiftRight => {
            reveal_strlit("\u{fb35}");
        },
        HookKey::Space => {
            reveal_strlit("_");
        },
        HookKey::Tab => {
            reveal_strlit("\u{f811}");
        },
        HookKey::PrintScreen => {
            reveal_strlit("PrtSc");
        },
        HookKey::ScrollLock => {
            reveal_strlit("ScrLk");
        },
        HookKey::Pause => {
            reveal_strlit("Pause");
        },
        HookKey::NumLock => {
            reveal_strlit("NumLock");
        },
        HookKey::BackQuote => {
            reveal_strlit("`");
        },
        HookKey::Num1 => {
            reveal_strlit("1");
        },
        HookKey::Num2 => {
            reveal_strlit("2");
        },
        HookKey::Num3 => {
            reveal_strlit("3");
        },
        HookKey::Num4 => {
            reveal_strlit("4");
        },
        HookKey::Num5 => {
            reveal_strlit("5");
        },
        HookKey::Num6 => {
            reveal_strlit("6");
        },
        HookKey::Num7 => {
            reveal_strlit("7");
        },
        HookKey::Num8 => {
            reveal_strlit("8");
        },
        HookKey::Num9 => {
            reveal_strlit("9");
        },
        HookKey::Num0 => {
            reveal_strlit("0");
        },
        HookKey::Minus => {
            reveal_strlit("-");
        },
        HookKey::Equal => {
            reveal_strlit("=");
        },
        HookKey::KeyQ => {
            reveal_strlit("Q");
        },
        HookKey::KeyW => {
            reveal_strlit("W");
        },
        HookKey::KeyE => {
            reveal_strlit("E");
        },
        HookKey::KeyR => {
            reveal_strlit("R");
        },
        HookKey::KeyT => {
            reveal_strlit("T");
        },
        HookKey::KeyY => {
            reveal_strlit("Y");
        },
        HookKey::KeyU => {
            reveal_strlit("U");
        },
        HookKey::KeyI => {
            reveal_strlit("I");
        },
        HookKey::KeyO => {
            reveal_strlit("O");
        },
        HookKey::KeyP => {
            reveal_strlit("P");
        },
        HookKey::LeftBracket => {
            reveal_strlit("[");
        },
        HookKey::RightBracket => {
            reveal_strlit("]");
        },
        HookKey::KeyA => {
            reveal_strlit("A");
        },
        HookKey::KeyS => {
            reveal_strlit("S");
        },
        HookKey::KeyD => {
            reveal_strlit("D");
        },
        HookKey::KeyF => {
            reveal_strlit("F");
        },
        HookKey::KeyG => {
            reveal_strlit("G");
        },
        HookKey::KeyH => {
            reveal_strlit("H");
        },
        HookKey::KeyJ => {
            reveal_strlit("J");
        },
        HookKey::KeyK => {
            reveal_strlit("K");
        },
        HookKey::KeyL => {
            reveal_strlit("L");
        },
        HookKey::SemiColon => {
            reveal_strlit(";");
        },
        HookKey::Quote => {
            reveal_strlit("'");
        },
        HookKey::BackSlash => {
            reveal_strlit("\\");
        },
        HookKey::IntlBackslash => {
            reveal_strlit("|");
        },
        HookKey::KeyZ => {
            reveal_strlit("Z");
        },
        HookKey::KeyX => {
            reveal_strlit("X");
        },
        HookKey::KeyC => {
            reveal_strlit("C");
        },
        HookKey::KeyV => {
            reveal_strlit("V");
        },
        HookKey::KeyB => {
            reveal_strlit("B");
        },
        HookKey::KeyN => {
            reveal_strlit("N");
        },
        HookKey::KeyM => {
            reveal_strlit("M");
        },
        HookKey::Comma => {
            reveal_strlit(",");
        },
        HookKey::Dot => {
            reveal_strlit(".");
        },
        HookKey::Slash => {
            reveal_strlit("/");
        },
        HookKey::Insert => {
            reveal_strlit("Ins");
        },
        HookKey::KpReturn => {
            reveal_strlit("\u{23ce}");
        },
        HookKey::KpMinus => {
            reveal_strlit("-");
        },
        HookKey::KpPlus => {
            reveal_strlit("+");
        },
        HookKey::KpMultiply => {
            reveal_strlit("*");
        },
        HookKey::KpDivide => {
            reveal_strlit("/");
        },
        HookKey::Kp0 => {
            reveal_strlit("0");
        },
        HookKey::Kp1 => {
            reveal_strlit("1");
        },
        HookKey::Kp2 => {
            reveal_strlit("2");
        },
        HookKey::Kp3 => {
            reveal_strlit("3");
        },
        HookKey::Kp4 => {
            reveal_strlit("4");
        },
        HookKey::Kp5 => {
            reveal_strlit("5");
        },
        HookKey::Kp6 => {
            reveal_strlit("6");
        },
        HookKey::Kp7 => {
            reveal_strlit("7");
        },
        HookKey::Kp8 => {
            reveal_strlit("8");
        },
        HookKey::Kp9 => {
            reveal_strlit("9");
        },
        HookKey::KpDelete => {
            reveal_strlit("\u{fae7}");
        },
        HookKey::Function => {
            reveal_strlit("Function");
        },
        HookKey::Unknown(code) => {
            lemma_decimal_no_spaces(code as nat);
            reveal_with_fuel(decimal, 2);
        },
    }
}

/// Every token of the toolkit's table is non-empty and holds no white space.
pub proof fn lemma_toolkit_tokens_are_runs(key: ToolkitKey)
    ensures
        iced_token(key).len() > 0,
        no_spaces(iced_token(key)),
        no_whitespace(iced_token(key)),
{
    match key {
        ToolkitKey::Key1 => {
            reveal_strlit("1");
        },
        ToolkitKey::Key2 => {
            reveal_strlit("2");
        },
        ToolkitKey::Key3 => {
            reveal_strlit("3");
        },
        ToolkitKey::Key4 => {
            reveal_strlit("4");
        },
        ToolkitKey::Key5 => {
            reveal_strlit("5");
        },
        ToolkitKey::Key6 => {
            reveal_strlit("6");
        },
        ToolkitKey::Key7 => {
            reveal_strlit("7");
        },
        ToolkitKey::Key8 => {
            reveal_strlit("8");
        },
        ToolkitKey::Key9 => {
            reveal_strlit("9");
        },
        ToolkitKey::Key0 => {
            reveal_strlit("0");
        },
        ToolkitKey::A => {
            reveal_strlit("A");
        },
        ToolkitKey::B => {
            reveal_strlit("B");
        },
        ToolkitKey::C => {
            reveal_strlit("C");
        },
        ToolkitKey::D => {
            reveal_strlit("D");
        },
        ToolkitKey::E => {
            reveal_strlit("E");
        },
        ToolkitKey::F => {
            reveal_strlit("F");
        },
        ToolkitKey::G => {
            reveal_strlit("G");
        },
        ToolkitKey::H => {
            reveal_strlit("H");
        },
        ToolkitKey::I => {
            reveal_strlit("I");
        },
        ToolkitKey::J => {
            reveal_strlit("J");
        },
        ToolkitKey::K => {
            reveal_strlit("K");
        },
        ToolkitKey::L => {
            reveal_strlit("L");
        },
        ToolkitKey::M => {
            reveal_strlit("M");
        },
        ToolkitKey::N => {
            reveal_strlit("N");
        },
        ToolkitKey::O => {
            reveal_strlit("O");
        },
        ToolkitKey::P => {
            reveal_strlit("P");
        },
        ToolkitKey::Q => {
            reveal_strlit("Q");
        },
        ToolkitKey::R => {
            reveal_strlit("R");
        },
        ToolkitKey::S => {
            reveal_strlit("S");
        },
        ToolkitKey::T => {
            reveal_strlit("T");
        },
        ToolkitKey::U => {
            reveal_strlit("U");
        },
        ToolkitKey::V => {
            reveal_strlit("V");
        },
        ToolkitKey::W => {
            reveal_strlit("W");
        },
        ToolkitKey::X => {
            reveal_strlit("X");
        },
        ToolkitKey::Y => {
            reveal_strlit("Y");
        },
        ToolkitKey::Z => {
            reveal_strlit("Z");
        },
        ToolkitKey::Apostrophe => {
            reveal_strlit("'");
        },
        ToolkitKey::Backslash => {
            reveal_strlit("\\");
        },
        ToolkitKey::Colon => {
            reveal_strlit(":");
        },
        ToolkitKey::Comma => {
            reveal_strlit(",");
        },
        ToolkitKey::Equals => {
            reveal_strlit("=");
        },
        ToolkitKey::LBracket => {
            reveal_strlit("[");
        },
        ToolkitKey::Minus => {
            reveal_strlit("-");
        },
        ToolkitKey::Period => {
            reveal_strlit(".");
        },
        ToolkitKey::Plus => {
            reveal_strlit("+");
        },
        ToolkitKey::RBracket => {
            reveal_strlit("]");
        },
        ToolkitKey::Semicolon => {
            reveal_strlit(";");
        },
        ToolkitKey::Slash => {
            reveal_strlit("/");
        },
        ToolkitKey::Escape => {
            reveal_strlit("esc");
        },
        ToolkitKey::F1 => {
            reveal_strlit("F1");
        },
        ToolkitKey::F2 => {
            reveal_strlit("F2");
        },
        ToolkitKey::F3 => {
            reveal_strlit("F3");
        },
        ToolkitKey::F4 => {
            reveal_strlit("F4");
        },
        ToolkitKey::F5 => {
            reveal_strlit("F5");
        },
        ToolkitKey::F6 => {
            reveal_strlit("F6");
        },
        ToolkitKey::F7 => {
            reveal_strlit("F7");
        },
        ToolkitKey::F8 => {
            reveal_strlit("F8");
        },
        ToolkitKey::F9 => {
            reveal_strlit("F9");
        },
        ToolkitKey::F10 => {
            reveal_strlit("F10");
        },
        ToolkitKey::F11 => {
            reveal_strlit("F11");
        },
        ToolkitKey::F12 => {
            reveal_strlit("F12");
        },
        ToolkitKey::F13 => {
            reveal_strlit("F13");
        },
        ToolkitKey::F14 => {
            reveal_strlit("F14");
        },
        ToolkitKey::F15 => {
            reveal_strlit("F15");
        },
        ToolkitKey::F16 => {
            reveal_strlit("F16");
        },
        ToolkitKey::F17 => {
            reveal_strlit("F17");
        },
        ToolkitKey::F18 => {
            reveal_strlit("F18");
        },
        ToolkitKey::F19 => {
            reveal_strlit("F19");
        },
        ToolkitKey::F20 => {
            reveal_strlit("F20");
        },
        ToolkitKey::F21 => {
            reveal_strlit("F21");
        },
        ToolkitKey::F22 => {
            reveal_strlit("F22");
        },
        ToolkitKey::F23 => {
            reveal_strlit("F23");
        },
        ToolkitKey::F24 => {
            reveal_strlit("F24");
        },
        ToolkitKey::Snapshot => {
            reveal_strlit("Snapshot");
        },
        ToolkitKey::Scroll => {
            reveal_strlit("Scroll");
        },
        ToolkitKey::Pause => {
            reveal_strlit("Pause");
        },
        ToolkitKey::Insert => {
            reveal_strlit("Insert");
        },
        ToolkitKey::Home => {
            reveal_strlit("\u{f7db}");
        },
        ToolkitKey::Delete => {
            reveal_strlit("\u{fae7}");
        },
        ToolkitKey::End => {
            reveal_strlit("End");
        },
        ToolkitKey::PageDown => {
            reveal_strlit("PageDown");
        },
        ToolkitKey::PageUp => {
            reveal_strlit("PageUp");
        },
        ToolkitKey::Left => {
            reveal_strlit("\u{fc2f}");
        },
        ToolkitKey::Up => {
            reveal_strlit("\u{fc35}");
        },
        ToolkitKey::Right => {
            reveal_strlit("\u{fc32}");
        },
        ToolkitKey::Down => {
            reveal_strlit("\u{fc2c}");
        },
        ToolkitKey::Backspace => {
            reveal_strlit("\u{232b}");
        },
        ToolkitKey::Enter => {
            reveal_strlit("\u{23ce}");
        },
        ToolkitKey::Space => {
            reveal_strlit("_");
        },
        ToolkitKey::Compose => {
            reveal_strlit("Compose");
        },
        ToolkitKey::Caret => {
            reveal_strlit("Caret");
        },
        ToolkitKey::Numlock => {
            reveal_strlit("Numlock");
        },
        ToolkitKey::Numpad0 => {
            reveal_strlit("0");
        },
        ToolkitKey::Numpad1 => {
            reveal_strlit("1");
        },
        ToolkitKey::Numpad2 => {
            reveal_strlit("2");
        },
        ToolkitKey::Numpad3 => {
            reveal_strlit("3");
        },
        ToolkitKey::Numpad4 => {
            reveal_strlit("4");
        },
        ToolkitKey::Numpad5 => {
            reveal_strlit("5");
        },
        ToolkitKey::Numpad6 => {
            reveal_strlit("6");
        },
        ToolkitKey::Numpad7 => {
            reveal_strlit("7");
        },
        ToolkitKey::Numpad8 => {
            reveal_strlit("8");
        },
        ToolkitKey::Numpad9 => {
            reveal_strlit("9");
        },
        ToolkitKey::NumpadAdd => {
            reveal_strlit("+");
        },
        ToolkitKey::NumpadDivide => {
            reveal_strlit("/");
        },
        ToolkitKey::NumpadDecimal => {
            reveal_strlit(".");
        },
        ToolkitKey::NumpadComma => {
            reveal_strlit(",");
        },
        ToolkitKey::NumpadEnter => {
            reveal_strlit("\u{23ce}");
        },
        ToolkitKey::NumpadEquals => {
            reveal_strlit("=");
        },
        ToolkitKey::NumpadMultiply => {
            reveal_strlit("*");
        },
        ToolkitKey::NumpadSubtract => {
            reveal_strlit("-");
        },
        ToolkitKey::Asterisk => {
            reveal_strlit("*");
        },
        ToolkitKey::At => {
            reveal_strlit("@");
        },
        ToolkitKey::Capital => {
            reveal_strlit("Caps");
        },
        ToolkitKey::Convert => {
            reveal_strlit("Convert");
        },
        ToolkitKey::Grave => {
            reveal_strlit("`");
        },
        ToolkitKey::Kana => {
            reveal_strlit("Kana");
        },
        ToolkitKey::Kanji => {
            reveal_strlit("Kanji");
        },
        ToolkitKey::LAlt => {
            reveal_strlit("Alt");
        },
        ToolkitKey::LControl => {
            reveal_strlit("\u{fb33}");
        },
        ToolkitKey::LShift => {
            reveal_strlit("\u{fb35}");
        },
        ToolkitKey::LWin => {
            reveal_strlit("Win");
        },
        ToolkitKey::OEM102 => {
            reveal_strlit("OEM102");
        },
        ToolkitKey::RAlt => {
            reveal_strlit("Alt");
        },
        ToolkitKey::RControl => {
            reveal_strlit("\u{fb33}");
        },
        ToolkitKey::RShift => {
            reveal_strlit("\u{fb35}");
        },
        ToolkitKey::RWin => {
            reveal_strlit("Win");
        },
        ToolkitKey::Sysrq => {
            reveal_strlit("Sysrq");
        },
        ToolkitKey::Tab => {
            reveal_strlit("\u{f811}");
        },
        ToolkitKey::Underline => {
            reveal_strlit("Underline");
        },
        ToolkitKey::Unlabeled => {
            reveal_strlit("Unlabeled");
        },
        ToolkitKey::VolumeDown => {
            reveal_strlit("VolumeDown");
        },
        ToolkitKey::VolumeUp => {
            reveal_strlit("VolumeUp");
        },
        ToolkitKey::Wake => {
            reveal_strlit("Wake");
        },
        ToolkitKey::WebBack => {
            reveal_strlit("WebBack");
        },
        ToolkitKey::WebFavorites => {
            reveal_strlit("WebFav");
        },
        ToolkitKey::WebForward => {
            reveal_strlit("WebForward");
        },
        ToolkitKey::WebHome => {
            reveal_strlit("WebHome");
        },
        ToolkitKey::WebRefresh => {
            reveal_strlit("WebRefresh");
        },
        ToolkitKey::WebSearch => {
            reveal_strlit("WebSearch");
        },
        ToolkitKey::WebStop => {
            reveal_strlit("WebStop");
        },
        ToolkitKey::Yen => {
            reveal_strlit("Yen");
        },
        ToolkitKey::Copy => {
            reveal_strlit("Copy");
        },
        ToolkitKey::Paste => {
            reveal_strlit("Paste");
        },
        ToolkitKey::Cut => {
            reveal_strlit("Cut");
        },
        _ => {
            reveal_strlit("?");
        },
    }
}

} // verus!
