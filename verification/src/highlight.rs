//! Visual highlighting of the structural punctuation — `{`, `}` and `:` —
//! of a serialized record. Each structural character is replaced by its
//! highlight mark, a blind character-level substitution that does not spare
//! punctuation occurring inside data. The marks come from the `colored`
//! crate, so each is either the bare character (colors disabled) or the
//! character wrapped in ANSI escape sequences (colors enabled).

use vstd::prelude::*;

use crate::entry::Entry;
use crate::format::serialize_entry;
use crate::format::spec_entry;

verus! {

/// The ANSI escape character.
pub open spec fn esc_char() -> char {
    '\x1b'
}

/// `s` wrapped in an ANSI color sequence: `ESC [ code m`, the text, then
/// the reset sequence `ESC [ 0 m`.
pub open spec fn color_wrap(code: Seq<char>, s: Seq<char>) -> Seq<char> {
    seq![esc_char(), '['] + code + seq!['m'] + s + seq![esc_char(), '[', '0', 'm']
}

/// The ANSI foreground color code for blue.
pub open spec fn blue_code() -> Seq<char> {
    seq!['3', '4']
}

/// `m` is a highlight mark for the character `c`: either `c` itself
/// (colors disabled) or `c` wrapped in blue (colors enabled).
pub open spec fn is_mark_for(m: Seq<char>, c: char) -> bool {
    m == seq![c] || m == color_wrap(blue_code(), seq![c])
}

/// The three highlight marks applied to a serialized record.
pub struct Highlight {
    pub brace_open: String,
    pub brace_close: String,
    pub colon: String,
}

/// Each mark of `h` highlights its own structural character.
pub open spec fn highlight_ok(h: Highlight) -> bool {
    &&& is_mark_for(h.brace_open@, '{')
    &&& is_mark_for(h.brace_close@, '}')
    &&& is_mark_for(h.colon@, ':')
}

/// Relies on `colored::Colorize::blue` and the `Display` of
/// `ColoredString`: the result is the input itself when colorizing is
/// switched off (or the crate's `no-color` feature is on), and otherwise
/// the input wrapped in `ESC[34m` and `ESC[0m`. The input must not contain
/// the escape character, since `ColoredString` re-styles any embedded
/// reset sequence.
#[verifier::external_body]
fn blue_styled(s: &str) -> (r: String)
    requires
        forall|i: int| 0 <= i < s@.len() ==> s@[i] != esc_char(),
    ensures
        r@ == s@ || r@ == color_wrap(blue_code(), s@),
{
    format!("{}", colored::Colorize::blue(s))
}

/// The marks the tailer highlights with: `{`, `}` and `:`, each styled
/// blue by the `colored` crate (or left bare when colors are off).
pub fn standard_highlight() -> (h: Highlight)
    ensures
        highlight_ok(h),
{
    proof {
        reveal_strlit("{");
        reveal_strlit("}");
        reveal_strlit(":");
        assert("{"@ =~= seq!['{']);
        assert("}"@ =~= seq!['}']);
        assert(":"@ =~= seq![':']);
    }
    Highlight {
        brace_open: blue_styled("{"),
        brace_close: blue_styled("}"),
        colon: blue_styled(":"),
    }
}

/// What one character of the serialized text becomes: structural
/// punctuation turns into its mark, everything else stays itself.
pub open spec fn mark_of(c: char, h: Highlight) -> Seq<char> {
    if c == '{' {
        h.brace_open@
    } else if c == '}' {
        h.brace_close@
    } else if c == ':' {
        h.colon@
    } else {
        seq![c]
    }
}

/// The highlighting pass: every character replaced by `mark_of`.
pub open spec fn spec_colorize(s: Seq<char>, h: Highlight) -> Seq<char>
    decreases s.len(),
{
    if s.len() == 0 {
        Seq::<char>::empty()
    } else {
        mark_of(s[0], h) + spec_colorize(s.skip(1), h)
    }
}

/// The stripping pass: ANSI escape sequences (`ESC` up to and including
/// the next `m`) are removed, everything else is kept.
pub open spec fn spec_strip(s: Seq<char>) -> Seq<char>
    decreases s.len(),
{
    if s.len() == 0 {
        Seq::<char>::empty()
    } else if s[0] == esc_char() {
        spec_strip_esc(s.skip(1))
    } else {
        seq![s[0]] + spec_strip(s.skip(1))
    }
}

/// The stripping pass while inside an escape sequence: characters are
/// dropped up to and including the terminating `m`.
pub open spec fn spec_strip_esc(s: Seq<char>) -> Seq<char>
    decreases s.len(),
{
    if s.len() == 0 {
        Seq::<char>::empty()
    } else if s[0] == 'm' {
        spec_strip(s.skip(1))
    } else {
        spec_strip_esc(s.skip(1))
    }
}

/// Applies the highlighting pass to `s` with the marks of `h`.
pub fn colorize(s: &str, h: &Highlight) -> (r: String)
    ensures
        r@ == spec_colorize(s@, *h),
{
    let n = s.unicode_len();
    let mut out = String::new();
    let mut i: usize = 0;
    proof {
        assert(s@.skip(0) =~= s@);
        assert(out@ + spec_colorize(s@, *h) =~= spec_colorize(s@, *h));
    }
    while i < n
        invariant
            n == s@.len(),
            i <= n,
            spec_colorize(s@, *h) == out@ + spec_colorize(s@.skip(i as int), *h),
        decreases n - i,
    {
        let c = s.get_char(i);
        proof {
            assert(s@.skip(i as int)[0] == s@[i as int]);
            assert(s@.skip(i as int).skip(1) =~= s@.skip(i + 1));
        }
        if c == '{' {
            out.append(h.brace_open.as_str());
        } else if c == '}' {
            out.append(h.brace_close.as_str());
        } else if c == ':' {
            out.append(h.colon.as_str());
        } else {
            let piece = s.substring_char(i, i + 1);
            proof {
                assert(piece@ =~= seq![s@[i as int]]);
            }
            out.append(piece);
        }
        proof {
            assert(spec_colorize(s@, *h) =~= out@ + spec_colorize(s@.skip(i + 1), *h));
        }
        i += 1;
    }
    proof {
        assert(s@.skip(n as int) =~= Seq::<char>::empty());
        assert(spec_colorize(s@, *h) =~= out@);
    }
    out
}

/// Removes every ANSI escape sequence from `s`.
pub fn strip_marks(s: &str) -> (r: String)
    ensures
        r@ == spec_strip(s@),
{
    let n = s.unicode_len();
    let mut out = String::new();
    let mut in_esc = false;
    let mut i: usize = 0;
    proof {
        assert(s@.skip(0) =~= s@);
        assert(out@ + spec_strip(s@) =~= spec_strip(s@));
    }
    while i < n
        invariant
            n == s@.len(),
            i <= n,
            spec_strip(s@) == out@ + (if in_esc {
                spec_strip_esc(s@.skip(i as int))
            } else {
                spec_strip(s@.skip(i as int))
            }),
        decreases n - i,
    {
        let c = s.get_char(i);
        proof {
            assert(s@.skip(i as int)[0] == s@[i as int]);
            assert(s@.skip(i as int).skip(1) =~= s@.skip(i + 1));
        }
        if in_esc {
            if c == 'm' {
                in_esc = false;
            }
        } else if c == '\x1b' {
            in_esc = true;
        } else {
            let piece = s.substring_char(i, i + 1);
            proof {
                assert(piece@ =~= seq![s@[i as int]]);
            }
            out.append(piece);
            proof {
                assert(spec_strip(s@) =~= out@ + spec_strip(s@.skip(i + 1)));
            }
        }
        i += 1;
    }
    proof {
        assert(s@.skip(n as int) =~= Seq::<char>::empty());
        assert(spec_strip(s@) =~= out@);
    }
    out
}

/// The full rendering of one record: serialize, then highlight.
pub open spec fn spec_rendered(e: Entry, h: Highlight) -> Seq<char> {
    spec_colorize(spec_entry(e), h)
}

/// Renders one record for display: its canonical serialized form with the
/// structural punctuation highlighted.
pub fn render_entry(e: &Entry, h: &Highlight) -> (r: String)
    ensures
        r@ == spec_rendered(*e, *h),
{
    let serialized = serialize_entry(e);
    colorize(serialized.as_str(), h)
}

/// Rendering is deterministic: a record that is serialized and highlighted
/// twice, with no mutation in between, yields byte-identical lines.
pub proof fn lemma_render_deterministic(e: Entry, h: Highlight, r1: Seq<char>, r2: Seq<char>)
    requires
        r1 == spec_rendered(e, h),
        r2 == spec_rendered(e, h),
    ensures
        r1 == r2,
{
}

/// Stripping passes over a leading non-escape character.
proof fn lemma_strip_plain_char(c: char, t: Seq<char>)
    requires
        c != esc_char(),
    ensures
        spec_strip(seq![c] + t) == seq![c] + spec_strip(t),
{
    let u = seq![c] + t;
    assert(u[0] == c);
    assert(u.skip(1) =~= t);
}

/// Stripping drops a leading escape body that contains no `m`, up to the
/// `m` that ends it.
proof fn lemma_strip_esc_skip(code: Seq<char>, rest: Seq<char>)
    requires
        forall|i: int| 0 <= i < code.len() ==> code[i] != 'm',
    ensures
        spec_strip_esc(code + rest) == spec_strip_esc(rest),
    decreases code.len(),
{
    if code.len() == 0 {
        assert(code + rest =~= rest);
    } else {
        let u = code + rest;
        assert(u[0] == code[0]);
        assert(u.skip(1) =~= code.skip(1) + rest);
        lemma_strip_esc_skip(code.skip(1), rest);
    }
}

/// Stripping recovers the bare character from a color-wrapped one.
proof fn lemma_strip_wrapped(code: Seq<char>, c: char, t: Seq<char>)
    requires
        forall|i: int| 0 <= i < code.len() ==> code[i] != 'm',
        c != esc_char(),
    ensures
        spec_strip(color_wrap(code, seq![c]) + t) == seq![c] + spec_strip(t),
{
    let u = color_wrap(code, seq![c]) + t;
    assert(u[0] == esc_char());
    let body = seq!['['] + code;
    let after_m = seq![c] + (seq![esc_char(), '[', '0', 'm'] + t);
    assert(u.skip(1) =~= body + (seq!['m'] + after_m));
    assert(forall|i: int| 0 <= i < body.len() ==> body[i] != 'm');
    lemma_strip_esc_skip(body, seq!['m'] + after_m);
    assert((seq!['m'] + after_m)[0] == 'm');
    assert((seq!['m'] + after_m).skip(1) =~= after_m);
    assert(spec_strip(u) == spec_strip(after_m));
    lemma_strip_plain_char(c, seq![esc_char(), '[', '0', 'm'] + t);
    let reset = seq![esc_char(), '[', '0', 'm'] + t;
    assert(reset[0] == esc_char());
    assert(reset.skip(1) =~= seq!['[', '0'] + (seq!['m'] + t));
    assert(forall|i: int|
        0 <= i < seq!['[', '0'].len() ==> seq!['[', '0'][i] != 'm') by {
        assert(seq!['[', '0'][0] == '[');
        assert(seq!['[', '0'][1] == '0');
    }
    lemma_strip_esc_skip(seq!['[', '0'], seq!['m'] + t);
    assert((seq!['m'] + t)[0] == 'm');
    assert((seq!['m'] + t).skip(1) =~= t);
}

/// Round trip: stripping the highlighting marks from a highlighted line
/// recovers exactly the text that was highlighted — so stripping a
/// rendered record recovers its canonical serialized form. The text must
/// not itself contain the ANSI escape character, whose sequences stripping
/// would also remove.
pub proof fn lemma_strip_colorize_round_trip(s: Seq<char>, h: Highlight)
    requires
        highlight_ok(h),
        forall|i: int| 0 <= i < s.len() ==> s[i] != esc_char(),
    ensures
        spec_strip(spec_colorize(s, h)) == s,
    decreases s.len(),
{
    if s.len() == 0 {
    } else {
        let c = s[0];
        let t = spec_colorize(s.skip(1), h);
        assert(forall|i: int| 0 <= i < s.skip(1).len() ==> s.skip(1)[i] != esc_char());
        lemma_strip_colorize_round_trip(s.skip(1), h);
        assert(forall|i: int|
            0 <= i < blue_code().len() ==> blue_code()[i] != 'm') by {
            assert(blue_code()[0] == '3');
            assert(blue_code()[1] == '4');
        }
        if c == '{' || c == '}' || c == ':' {
            if mark_of(c, h) == seq![c] {
                lemma_strip_plain_char(c, t);
            } else {
                lemma_strip_wrapped(blue_code(), c, t);
            }
        } else {
            lemma_strip_plain_char(c, t);
        }
        assert(seq![c] + s.skip(1) =~= s);
    }
}

/// Round trip at the record level: stripping the highlighting marks from
/// a rendered line recovers exactly the record's canonical serialized
/// form. The record's own text must be free of the escape character,
/// whose sequences stripping would also remove.
pub proof fn lemma_strip_rendered_round_trip(e: Entry, h: Highlight)
    requires
        highlight_ok(h),
        forall|i: int| 0 <= i < spec_entry(e).len() ==> spec_entry(e)[i] != esc_char(),
    ensures
        spec_strip(spec_rendered(e, h)) == spec_entry(e),
{
    lemma_strip_colorize_round_trip(spec_entry(e), h);
}

} // verus!
