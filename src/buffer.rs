use vstd::prelude::*;

use crate::digits::{decimal, push_decimal};
use crate::keys::BACK_SPACE;
use crate::text::{chars_of, string_from_chars};

verus! {

/// Number of characters of `s` other than spaces.
pub open spec fn visible_count(s: Seq<char>) -> nat
    decreases s.len(),
{
    if s.len() == 0 {
        0
    } else {
        (if s[0] == ' ' { 0nat } else { 1nat }) + visible_count(s.drop_first())
    }
}

/// The width a line takes on screen: each visible character takes the font size.
pub open spec fn rendered_width(s: Seq<char>, font_size: nat) -> nat {
    visible_count(s) * font_size
}

/// A token as it stands in the line: followed by one space.
pub open spec fn run_of(token: Seq<char>) -> Seq<char> {
    token.push(' ')
}

/// Three runs of the same token in a row.
pub open spec fn triple_run(token: Seq<char>) -> Seq<char> {
    run_of(token) + run_of(token) + run_of(token)
}

/// The collapsed label `{token}...x{n}`.
pub open spec fn label_of(token: Seq<char>, n: nat) -> Seq<char> {
    token + seq!['.', '.', '.', 'x'] + decimal(n)
}

/// The marker that stands in front of a line whose start was cut off.
pub open spec fn ellipsis() -> Seq<char> {
    seq!['.', '.', '.']
}

pub open spec fn ends_with(s: Seq<char>, suffix: Seq<char>) -> bool {
    suffix.len() <= s.len() && s.subrange(s.len() - suffix.len(), s.len() as int) == suffix
}

pub open spec fn starts_with(s: Seq<char>, prefix: Seq<char>) -> bool {
    prefix.len() <= s.len() && s.subrange(0, prefix.len() as int) == prefix
}

/// `s` without its last `n` characters.
pub open spec fn drop_suffix(s: Seq<char>, n: nat) -> Seq<char> {
    s.subrange(0, s.len() - n)
}

/// How many times in a row `token` has come before this press: the stored count
/// when it repeats the last token, else none.
pub open spec fn previous_count(last: Option<Seq<char>>, count: u32, token: Seq<char>) -> u32 {
    if last == Some(token) {
        count
    } else {
        0
    }
}

/// The repeat count after one more press; it stays at the largest `u32`.
pub open spec fn next_count(prev: u32) -> u32 {
    if prev < u32::MAX {
        (prev + 1) as u32
    } else {
        prev
    }
}

/// The line after `token` was added as its `n`-th press in a row, `prev` being the
/// count before: up to three presses are written out, from the fourth on the
/// three runs, or else the previous label, give way to the new label.
pub open spec fn collapsed(text: Seq<char>, token: Seq<char>, prev: nat, n: nat) -> Seq<char> {
    let label = run_of(label_of(token, n));
    if n <= 3 {
        text + run_of(token)
    } else if ends_with(text, triple_run(token)) {
        drop_suffix(text, triple_run(token).len()) + label
    } else if ends_with(text, run_of(label_of(token, prev))) {
        drop_suffix(text, run_of(label_of(token, prev)).len()) + label
    } else {
        text + label
    }
}

/// Adds `token` to a line whose last token and count are `last` and `count`,
/// before the line is cut to its width: the new line, last token and count.
pub open spec fn push_token(text: Seq<char>, last: Option<Seq<char>>, count: u32, token: Seq<char>) -> (
    Seq<char>,
    Option<Seq<char>>,
    u32,
) {
    let prev = previous_count(last, count, token);
    let n = next_count(prev);
    (collapsed(text, token, prev as nat, n as nat), Some(token), n)
}

/// The line without a leading marker.
pub open spec fn strip_ellipsis(s: Seq<char>) -> Seq<char> {
    if starts_with(s, ellipsis()) {
        s.subrange(3, s.len() as int)
    } else {
        s
    }
}

/// Whether `s`, put behind the marker, fits in `max_width`.
pub open spec fn fits_behind_ellipsis(s: Seq<char>, font_size: nat, max_width: nat) -> bool {
    (3 + visible_count(s)) * font_size <= max_width
}

/// Whether a run of `s` begins at position `k`: at the start, or after a space.
pub open spec fn starts_run(s: Seq<char>, k: nat) -> bool {
    k == 0 || s[k - 1] == ' '
}

/// The first position from `k` on where a run of `body` begins and the rest
/// fits behind the marker, or the end of `body`.
pub open spec fn first_cut(body: Seq<char>, k: nat, font_size: nat, max_width: nat) -> nat
    decreases body.len() - k,
{
    if k >= body.len() || (starts_run(body, k) && fits_behind_ellipsis(
        body.subrange(k as int, body.len() as int),
        font_size,
        max_width,
    )) {
        k
    } else {
        first_cut(body, k + 1, font_size, max_width)
    }
}

/// The line as shown: kept when narrower than `max_width`, else the longest
/// tail of whole runs that fits behind the marker, the marker in front; when
/// not even the last run fits, the marker alone.
pub open spec fn truncated(text: Seq<char>, font_size: nat, max_width: nat) -> Seq<char> {
    if rendered_width(text, font_size) < max_width {
        text
    } else {
        let body = strip_ellipsis(text);
        ellipsis() + body.subrange(first_cut(body, 0, font_size, max_width) as int, body.len() as int)
    }
}

/// Whether `c` is white space: the characters of Unicode's `White_Space`
/// property, as `char::is_whitespace` has them.
pub open spec fn is_whitespace(c: char) -> bool {
    let u = c as u32;
    (0x09 <= u && u <= 0x0d) || u == 0x20 || u == 0x85 || u == 0xa0 || u == 0x1680 || (0x2000 <= u
        && u <= 0x200a) || u == 0x2028 || u == 0x2029 || u == 0x202f || u == 0x205f || u == 0x3000
}

/// The line without trailing white space.
pub open spec fn trim_end_whitespace(s: Seq<char>) -> Seq<char>
    decreases s.len(),
{
    if s.len() > 0 && is_whitespace(s.last()) {
        trim_end_whitespace(s.drop_last())
    } else {
        s
    }
}

/// The position of the last space in `s`.
pub open spec fn last_space(s: Seq<char>) -> Option<nat>
    decreases s.len(),
{
    if s.len() == 0 {
        None
    } else if s.last() == ' ' {
        Some((s.len() - 1) as nat)
    } else {
        last_space(s.drop_last())
    }
}

/// The line with its last run removed: trailing white space is trimmed, and
/// what precedes the last space of what is left is kept, with a space after
/// it, or nothing when no space is left.
pub open spec fn erase_last_run(text: Seq<char>) -> Seq<char> {
    let t = trim_end_whitespace(text);
    match last_space(t) {
        None => Seq::empty(),
        Some(i) => run_of(t.subrange(0, i as int)),
    }
}

/// The height asked of the window: one line of text and a fixed margin.
pub open spec fn line_height(font_size: u32) -> u32 {
    if font_size <= u32::MAX - 10 {
        (font_size + 10) as u32
    } else {
        u32::MAX
    }
}

/// Counting visible characters adds up over concatenation.
pub proof fn lemma_visible_count_concat(a: Seq<char>, b: Seq<char>)
    ensures
        visible_count(a + b) == visible_count(a) + visible_count(b),
    decreases a.len(),
{
    if a.len() == 0 {
        assert(a + b =~= b);
    } else {
        assert((a + b).drop_first() =~= a.drop_first() + b);
        lemma_visible_count_concat(a.drop_first(), b);
    }
}

/// No string has more visible characters than characters.
pub proof fn lemma_visible_count_bound(s: Seq<char>)
    ensures
        visible_count(s) <= s.len(),
    decreases s.len(),
{
    if s.len() > 0 {
        lemma_visible_count_bound(s.drop_first());
    }
}

fn append_chars(dst: &mut Vec<char>, src: &Vec<char>)
    ensures
        final(dst)@ == old(dst)@ + src@,
{
    let mut i: usize = 0;
    while i < src.len()
        invariant
            i <= src@.len(),
            dst@ == old(dst)@ + src@.subrange(0, i as int),
        decreases src@.len() - i,
    {
        dst.push(src[i]);
        i = i + 1;
        assert(dst@ =~= old(dst)@ + src@.subrange(0, i as int));
    }
    assert(src@.subrange(0, src@.len() as int) =~= src@);
}

fn ends_with_chars(s: &Vec<char>, suffix: &Vec<char>) -> (r: bool)
    ensures
        r == ends_with(s@, suffix@),
{
    if suffix.len() > s.len() {
        return false;
    }
    let off = s.len() - suffix.len();
    let mut i: usize = 0;
    while i < suffix.len()
        invariant
            suffix@.len() <= s@.len() <= usize::MAX,
            off == s@.len() - suffix@.len(),
            i <= suffix@.len(),
            forall|j: int| 0 <= j < i ==> s@[off + j] == suffix@[j],
        decreases suffix@.len() - i,
    {
        if s[off + i] != suffix[i] {
            assert(s@.subrange(off as int, s@.len() as int)[i as int] != suffix@[i as int]);
            return false;
        }
        i = i + 1;
    }
    assert(s@.subrange(off as int, s@.len() as int) =~= suffix@);
    true
}

fn same_chars(a: &Vec<char>, b: &Vec<char>) -> (r: bool)
    ensures
        r == (a@ == b@),
{
    if a.len() != b.len() {
        return false;
    }
    let r = ends_with_chars(a, b);
    assert(a@.subrange(0, a@.len() as int) =~= a@);
    r
}

/// The number of visible characters of `s`.
fn visible_chars(s: &Vec<char>) -> (n: usize)
    ensures
        n == visible_count(s@),
{
    let mut n: usize = 0;
    let mut i: usize = 0;
    while i < s.len()
        invariant
            i <= s@.len(),
            n == visible_count(s@.subrange(0, i as int)),
            n <= i,
        decreases s@.len() - i,
    {
        proof {
            let head = s@.subrange(0, i as int);
            assert(s@.subrange(0, i + 1) =~= head + seq![s@[i as int]]);
            lemma_visible_count_concat(head, seq![s@[i as int]]);
            assert(seq![s@[i as int]].drop_first() =~= Seq::<char>::empty());
            assert(visible_count(Seq::<char>::empty()) == 0);
            assert(visible_count(seq![s@[i as int]]) == if s@[i as int] == ' ' { 0nat } else { 1nat });
        }
        if s[i] != ' ' {
            n = n + 1;
        }
        i = i + 1;
    }
    assert(s@.subrange(0, s@.len() as int) =~= s@);
    n
}

/// `count` times the font size, exactly.
fn scaled(count: u128, font_size: u32) -> (w: u128)
    requires
        count <= 0x1_0000_0000_0000_0004,
    ensures
        w == count * font_size,
{
    proof {
        assert(count * (font_size as int) <= 0x1_0000_0000_0000_0004 * 0xffff_ffff) by (nonlinear_arith)
            requires
                count <= 0x1_0000_0000_0000_0004,
                font_size <= 0xffff_ffff,
        ;
    }
    count * (font_size as u128)
}

fn run_chars(token: &Vec<char>) -> (r: Vec<char>)
    ensures
        r@ == run_of(token@),
{
    let mut r: Vec<char> = Vec::new();
    append_chars(&mut r, token);
    r.push(' ');
    r
}

fn label_chars(token: &Vec<char>, n: u32) -> (r: Vec<char>)
    ensures
        r@ == label_of(token@, n as nat),
{
    let mut r: Vec<char> = Vec::new();
    append_chars(&mut r, token);
    r.push('.');
    r.push('.');
    r.push('.');
    r.push('x');
    push_decimal(n, &mut r);
    assert(r@ =~= label_of(token@, n as nat));
    r
}

/// Adds `token` to the line as its `n`-th press in a row.
fn collapse_into(text: &mut Vec<char>, token: &Vec<char>, prev: u32, n: u32)
    ensures
        final(text)@ == collapsed(old(text)@, token@, prev as nat, n as nat),
{
    let run = run_chars(token);
    if n <= 3 {
        append_chars(text, &run);
        return;
    }
    let new_label = run_chars(&label_chars(token, n));
    let mut triple: Vec<char> = Vec::new();
    append_chars(&mut triple, &run);
    append_chars(&mut triple, &run);
    append_chars(&mut triple, &run);
    let old_label = run_chars(&label_chars(token, prev));
    if ends_with_chars(text, &triple) {
        let keep = text.len() - triple.len();
        text.truncate(keep);
    } else if ends_with_chars(text, &old_label) {
        let keep = text.len() - old_label.len();
        text.truncate(keep);
    }
    append_chars(text, &new_label);
}

/// Where the body of a line begins, and how many visible characters the
/// marker in front of it takes.
proof fn lemma_marker_prefix(t: Seq<char>, start: nat)
    requires
        start == (if t.len() >= 3 && t[0] == '.' && t[1] == '.' && t[2] == '.' { 3nat } else { 0nat }),
    ensures
        strip_ellipsis(t) == t.subrange(start as int, t.len() as int),
        visible_count(t) == start + visible_count(t.subrange(start as int, t.len() as int)),
{
    if start == 3 {
        assert(t.subrange(0, 3) =~= ellipsis());
        assert(t =~= t.subrange(0, 3) + t.subrange(3, t.len() as int));
        lemma_visible_count_concat(t.subrange(0, 3), t.subrange(3, t.len() as int));
        reveal_with_fuel(visible_count, 4);
        assert(t.subrange(0, 3).drop_first() =~= seq!['.', '.']);
        assert(t.subrange(0, 3).drop_first().drop_first() =~= seq!['.']);
        assert(t.subrange(0, 3).drop_first().drop_first().drop_first() =~= Seq::<char>::empty());
        assert(visible_count(t.subrange(0, 3)) == 3);
    } else {
        assert(!starts_with(t, ellipsis())) by {
            if t.len() >= 3 {
                assert(t.subrange(0, 3)[0] == t[0]);
                assert(t.subrange(0, 3)[1] == t[1]);
                assert(t.subrange(0, 3)[2] == t[2]);
            }
        }
        assert(t.subrange(0, t.len() as int) =~= t);
    }
}

/// Cuts the line down to `max_width` as `truncated` describes.
fn truncate_to_width(text: &mut Vec<char>, font_size: u32, max_width: u32)
    ensures
        final(text)@ == truncated(old(text)@, font_size as nat, max_width as nat),
{
    let ghost t = text@;
    let vis = visible_chars(text);
    proof {
        lemma_visible_count_bound(t);
    }
    if scaled(vis as u128, font_size) < max_width as u128 {
        return;
    }
    let len = text.len();
    let start: usize = if len >= 3 && text[0] == '.' && text[1] == '.' && text[2] == '.' {
        3
    } else {
        0
    };
    let ghost body = strip_ellipsis(t);
    proof {
        lemma_marker_prefix(t, start as nat);
    }
    let mut cnt: usize = vis - start;
    let mut k: usize = start;
    while k < len && !((k == start || text[k - 1] == ' ') && scaled(3 + cnt as u128, font_size)
        <= max_width as u128)
        invariant
            text@ == t,
            len == t.len(),
            start <= k <= len,
            body == t.subrange(start as int, len as int),
            cnt == visible_count(t.subrange(k as int, len as int)),
            cnt <= len,
            first_cut(body, 0, font_size as nat, max_width as nat)
                == first_cut(body, (k - start) as nat, font_size as nat, max_width as nat),
        decreases len - k,
    {
        proof {
            let rest = t.subrange(k as int, len as int);
            assert(body.subrange((k - start) as int, body.len() as int) =~= rest);
            if k > start {
                assert(body[(k - start) - 1] == t[k - 1]);
            }
            assert(rest.drop_first() =~= t.subrange(k + 1, len as int));
            lemma_visible_count_bound(t.subrange(k + 1, len as int));
        }
        if text[k] != ' ' {
            cnt = cnt - 1;
        }
        k = k + 1;
    }
    proof {
        assert(body.subrange((k - start) as int, body.len() as int) =~= t.subrange(k as int, len as int));
        if k > start && k < len {
            assert(body[(k - start) - 1] == t[k - 1]);
        }
    }
    let mut out: Vec<char> = Vec::new();
    out.push('.');
    out.push('.');
    out.push('.');
    let mut i: usize = k;
    while i < len
        invariant
            text@ == t,
            len == t.len(),
            k <= i <= len,
            out@ == ellipsis() + t.subrange(k as int, i as int),
        decreases len - i,
    {
        out.push(text[i]);
        i = i + 1;
        assert(out@ =~= ellipsis() + t.subrange(k as int, i as int));
    }
    *text = out;
}

fn is_whitespace_char(c: char) -> (r: bool)
    ensures
        r == is_whitespace(c),
{
    let u = c as u32;
    (0x09 <= u && u <= 0x0d) || u == 0x20 || u == 0x85 || u == 0xa0 || u == 0x1680 || (0x2000 <= u
        && u <= 0x200a) || u == 0x2028 || u == 0x2029 || u == 0x202f || u == 0x205f || u == 0x3000
}

/// Removes the last run of the line, as `erase_last_run` describes.
fn erase_last_run_in(text: &mut Vec<char>)
    ensures
        final(text)@ == erase_last_run(old(text)@),
{
    let ghost t = text@;
    let mut end: usize = text.len();
    assert(t.subrange(0, end as int) =~= t);
    while end > 0 && is_whitespace_char(text[end - 1])
        invariant
            text@ == t,
            end <= t.len(),
            trim_end_whitespace(t) == trim_end_whitespace(t.subrange(0, end as int)),
        decreases end,
    {
        assert(t.subrange(0, end as int).drop_last() =~= t.subrange(0, end - 1));
        end = end - 1;
    }
    let ghost trimmed = t.subrange(0, end as int);
    assert(trim_end_whitespace(t) == trimmed);
    let mut j: usize = end;
    while j > 0 && text[j - 1] != ' '
        invariant
            text@ == t,
            j <= end <= t.len(),
            trimmed == t.subrange(0, end as int),
            last_space(trimmed) == last_space(t.subrange(0, j as int)),
        decreases j,
    {
        assert(t.subrange(0, j as int).drop_last() =~= t.subrange(0, j - 1));
        j = j - 1;
    }
    if j == 0 {
        text.clear();
        assert(text@ =~= Seq::<char>::empty());
    } else {
        text.truncate(j - 1);
        text.push(' ');
        assert(trimmed.subrange(0, j - 1) =~= t.subrange(0, j - 1));
    }
}

/// What one key token does to the line, as `DisplayState::on_key_token`
/// describes it, `resize` being the window size it asks for.
pub open spec fn key_step(
    before: DisplayState,
    token: Seq<char>,
    after: DisplayState,
    resize: Option<(u32, u32)>,
) -> bool {
    &&& after.wf()
    &&& after.max_width == before.max_width
    &&& after.font_size == before.font_size
    &&& after.erase_on_backspace == before.erase_on_backspace
    &&& if before.erase_on_backspace && token == BACK_SPACE@ {
        &&& after.text@ == erase_last_run(before.text@)
        &&& after.last_token is None
        &&& after.repeat_count == 0
        &&& resize is None
    } else {
        let pushed = push_token(before.text@, before.last_view(), before.repeat_count, token);
        &&& after.text@ == truncated(pushed.0, before.font_size as nat, before.max_width as nat)
        &&& after.last_view() == pushed.1
        &&& after.repeat_count == pushed.2
        &&& resize == Some((before.max_width, line_height(before.font_size)))
    }
}

/// The rolling line of recent keys and what it needs to go on: the last
/// token and how often in a row it came, and the line's configuration.
pub struct DisplayState {
    /// The line as it is shown.
    pub text: Vec<char>,
    /// The token added last, if the count has not been reset since.
    pub last_token: Option<Vec<char>>,
    /// How many times in a row `last_token` has come.
    pub repeat_count: u32,
    pub max_width: u32,
    pub font_size: u32,
    pub erase_on_backspace: bool,
}

impl DisplayState {
    /// The last token's characters.
    pub open spec fn last_view(&self) -> Option<Seq<char>> {
        match self.last_token {
            Some(t) => Some(t@),
            None => None,
        }
    }

    /// A last token is stored exactly when the count is positive.
    pub open spec fn wf(&self) -> bool {
        (self.last_token is None) == (self.repeat_count == 0)
    }

    /// An empty line with the given configuration.
    pub fn new(max_width: u32, font_size: u32, erase_on_backspace: bool) -> (r: DisplayState)
        ensures
            r.wf(),
            r.text@ == Seq::<char>::empty(),
            r.last_token is None,
            r.repeat_count == 0,
            r.max_width == max_width,
            r.font_size == font_size,
            r.erase_on_backspace == erase_on_backspace,
    {
        DisplayState {
            text: Vec::new(),
            last_token: None,
            repeat_count: 0,
            max_width,
            font_size,
            erase_on_backspace,
        }
    }

    /// Takes one key token. With erasing on, the backspace token removes the
    /// last run and resets the repeat count, and no resize is asked. Any other
    /// token is added, collapsing repeats from the fourth on, the line is cut to
    /// the width, and the window is asked for the full width and one line's height.
    pub fn on_key_token(&mut self, token: &str) -> (r: Option<(u32, u32)>)
        ensures
            key_step(*old(self), token@, *final(self), r),
    {
        let coming = chars_of(token);
        if self.erase_on_backspace {
            let back = chars_of(BACK_SPACE);
            if same_chars(&coming, &back) {
                erase_last_run_in(&mut self.text);
                self.repeat_count = 0;
                self.last_token = None;
                return None;
            }
        }
        let prev: u32 = match &self.last_token {
            Some(last) => if same_chars(last, &coming) {
                self.repeat_count
            } else {
                0
            },
            None => 0,
        };
        let n: u32 = if prev < u32::MAX {
            prev + 1
        } else {
            prev
        };
        collapse_into(&mut self.text, &coming, prev, n);
        truncate_to_width(&mut self.text, self.font_size, self.max_width);
        self.repeat_count = n;
        self.last_token = Some(coming);
        let height: u32 = if self.font_size <= u32::MAX - 10 {
            self.font_size + 10
        } else {
            u32::MAX
        };
        Some((self.max_width, height))
    }

    /// The line as a string.
    pub fn text(&self) -> (r: String)
        ensures
            r@ == self.text@,
    {
        string_from_chars(&self.text)
    }
}

/// The position of the first space in `s`.
pub open spec fn first_space(s: Seq<char>) -> Option<nat>
    decreases s.len(),
{
    if s.len() == 0 {
        None
    } else if s[0] == ' ' {
        Some(0)
    } else {
        match first_space(s.drop_first()) {
            Some(i) => Some(i + 1),
            None => None,
        }
    }
}

/// The line without its oldest run: what follows its first space, or `None`
/// when it holds no space.
pub fn drop_oldest_run(content: &str) -> (r: Option<String>)
    ensures
        match first_space(content@) {
            None => r is None,
            Some(i) => r is Some && r->0@ == content@.subrange(i + 1 as int, content@.len() as int),
        },
{
    let chars = chars_of(content);
    let ghost c = chars@;
    let mut i: usize = 0;
    assert(c.subrange(0, c.len() as int) =~= c);
    while i < chars.len() && chars[i] != ' '
        invariant
            chars@ == c,
            i <= c.len(),
            first_space(c) == match first_space(c.subrange(i as int, c.len() as int)) {
                Some(j) => Some((j + i) as nat),
                None => None,
            },
        decreases c.len() - i,
    {
        assert(c.subrange(i as int, c.len() as int).drop_first() =~= c.subrange(i + 1, c.len() as int));
        i = i + 1;
    }
    if i == chars.len() {
        assert(c.subrange(i as int, c.len() as int) =~= Seq::<char>::empty());
        return None;
    }
    let mut rest: Vec<char> = Vec::new();
    let mut j: usize = i + 1;
    while j < chars.len()
        invariant
            chars@ == c,
            i < j <= c.len(),
            rest@ == c.subrange(i + 1, j as int),
        decreases c.len() - j,
    {
        rest.push(chars[j]);
        j = j + 1;
        assert(rest@ =~= c.subrange(i + 1, j as int));
    }
    Some(string_from_chars(&rest))
}

} // verus!
