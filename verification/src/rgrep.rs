use vstd::prelude::*;
use vstd::string::{StrSliceExecFns, StringExecFns};
use colored::Colorize;

verus! {

/// The text holds the terminal escape character. Painting such text
/// may rewrite its inner escape sequences, so only escape-free text is
/// promised to reappear whole inside its painted form.
pub open spec fn has_esc(s: Seq<char>) -> bool {
    exists|i: int| 0 <= i < s.len() && s[i] == '\u{1b}'
}

/// Nothing, or one terminal SGR escape sequence: the escape character,
/// an opening bracket, digit-or-semicolon parameters, and the final
/// `m`. Text a terminal renders as invisible styling.
pub open spec fn sgr_piece(x: Seq<char>) -> bool {
    ||| x.len() == 0
    ||| (x.len() >= 3 && x[0] == '\u{1b}' && x[1] == '[' && x.last() == 'm' && forall|i: int|
        2 <= i < x.len() - 1 ==> (('0' <= x[i] && x[i] <= '9') || x[i] == ';'))
}

/// `t` is `s` with at most one SGR escape on each side: painting adds
/// only color codes around the text, or nothing at all, so `s` is `t`
/// with its color codes ignored.
pub open spec fn painted(t: Seq<char>, s: Seq<char>) -> bool {
    exists|a: Seq<char>, b: Seq<char>| t == a + s + b && sgr_piece(a) && sgr_piece(b)
}

/// `n` spaces.
pub open spec fn spaces(n: nat) -> Seq<char>
    decreases n,
{
    if n == 0 {
        Seq::empty()
    } else {
        spaces((n - 1) as nat).push(' ')
    }
}

/// `s` right-aligned in a field of width `w` (unchanged when already
/// that wide).
pub open spec fn pad_left_spec(s: Seq<char>, w: nat) -> Seq<char> {
    if s.len() >= w {
        s
    } else {
        spaces((w - s.len()) as nat) + s
    }
}

/// `s` left-aligned in a field of width `w`.
pub open spec fn pad_right_spec(s: Seq<char>, w: nat) -> Seq<char> {
    if s.len() >= w {
        s
    } else {
        s + spaces((w - s.len()) as nat)
    }
}

/// The decimal digit `d` as a character.
pub open spec fn digit_char(d: nat) -> char {
    if d == 0 {
        '0'
    } else if d == 1 {
        '1'
    } else if d == 2 {
        '2'
    } else if d == 3 {
        '3'
    } else if d == 4 {
        '4'
    } else if d == 5 {
        '5'
    } else if d == 6 {
        '6'
    } else if d == 7 {
        '7'
    } else if d == 8 {
        '8'
    } else {
        '9'
    }
}

/// The decimal digits of `n`, most significant first.
pub open spec fn dec_digits(n: nat) -> Seq<char>
    decreases n,
{
    if n < 10 {
        seq![digit_char(n)]
    } else {
        dec_digits(n / 10) + seq![digit_char(n % 10)]
    }
}

/// Decimal digits never hold the terminal escape character, so painted
/// numbers always reappear whole.
pub proof fn lemma_dec_digits_no_esc(n: nat)
    ensures
        !has_esc(dec_digits(n)),
    decreases n,
{
    if n < 10 {
        assert(dec_digits(n)[0] == digit_char(n));
    } else {
        lemma_dec_digits_no_esc(n / 10);
        let a = dec_digits(n / 10);
        assert forall|i: int| 0 <= i < dec_digits(n).len() implies dec_digits(n)[i]
            != '\u{1b}' by {
            if i < a.len() {
                assert(dec_digits(n)[i] == a[i]);
            } else {
                assert(dec_digits(n)[i] == digit_char(n % 10));
            }
        }
    }
}

/// The layout of one matched line of grep output: the line number
/// right-aligned in six columns, a colon, the column number
/// left-aligned in three, a space, and the line split around its
/// matched piece.
pub open spec fn line_layout(
    no: Seq<char>,
    col: Seq<char>,
    prefix: Seq<char>,
    matched: Seq<char>,
    suffix: Seq<char>,
) -> Seq<char> {
    pad_left_spec(no, 6) + seq![':'] + pad_right_spec(col, 3) + seq![' '] + prefix + matched
        + suffix
}

fn digit_str(d: usize) -> (r: &'static str)
    requires
        d < 10,
    ensures
        r@ == seq![digit_char(d as nat)],
{
    proof {
        reveal_strlit("0");
        reveal_strlit("1");
        reveal_strlit("2");
        reveal_strlit("3");
        reveal_strlit("4");
        reveal_strlit("5");
        reveal_strlit("6");
        reveal_strlit("7");
        reveal_strlit("8");
        reveal_strlit("9");
    }
    let r = if d == 0 {
        "0"
    } else if d == 1 {
        "1"
    } else if d == 2 {
        "2"
    } else if d == 3 {
        "3"
    } else if d == 4 {
        "4"
    } else if d == 5 {
        "5"
    } else if d == 6 {
        "6"
    } else if d == 7 {
        "7"
    } else if d == 8 {
        "8"
    } else {
        "9"
    };
    proof {
        assert(r@ =~= seq![digit_char(d as nat)]);
    }
    r
}

/// `n` written in decimal.
pub fn decimal_string(n: usize) -> (r: String)
    ensures
        r@ == dec_digits(n as nat),
    decreases n,
{
    if n < 10 {
        digit_str(n).to_owned()
    } else {
        let hi = decimal_string(n / 10);
        let lo = digit_str(n % 10);
        hi.concat(lo)
    }
}

fn spaces_string(n: usize) -> (r: String)
    ensures
        r@ == spaces(n as nat),
{
    let mut out = String::new();
    let mut i: usize = 0;
    while i < n
        invariant
            i <= n,
            out@ == spaces(i as nat),
        decreases n - i,
    {
        out.append(" ");
        proof {
            reveal_strlit(" ");
            assert(out@ =~= spaces((i + 1) as nat));
        }
        i = i + 1;
    }
    out
}

/// `s` right-aligned in a field of `w` characters.
pub fn pad_left(s: &str, w: usize) -> (r: String)
    ensures
        r@ == pad_left_spec(s@, w as nat),
{
    let len = s.unicode_len();
    if len >= w {
        s.to_owned()
    } else {
        let mut out = spaces_string(w - len);
        out.append(s);
        out
    }
}

/// `s` left-aligned in a field of `w` characters.
pub fn pad_right(s: &str, w: usize) -> (r: String)
    ensures
        r@ == pad_right_spec(s@, w as nat),
{
    let len = s.unicode_len();
    if len >= w {
        s.to_owned()
    } else {
        let pad = spaces_string(w - len);
        let mut out = s.to_owned();
        out.append(pad.as_str());
        out
    }
}

/// One matched line laid out from a split of the line: some painting
/// of the line number, of the column (the prefix's length plus one)
/// and of the matched piece, assembled by `line_layout` around the
/// split's own prefix and suffix. With color codes ignored, the text
/// after the header is the line itself.
pub open spec fn laid_out(
    out: Seq<char>,
    lineno: nat,
    p: Seq<char>,
    m: Seq<char>,
    sfx: Seq<char>,
) -> bool {
    exists|no: Seq<char>, c: Seq<char>, mm: Seq<char>|
        {
            &&& painted(no, dec_digits(lineno))
            &&& painted(c, dec_digits(p.len() + 1))
            &&& mm.len() >= m.len()
            &&& (!has_esc(m) ==> painted(mm, m))
            &&& out == line_layout(no, c, p, mm, sfx)
        }
}

/// Lays one matched line out from its already-painted pieces: the
/// whole result is exactly `line_layout` of the five pieces.
pub fn format_line_parts(
    no: &str,
    col: &str,
    prefix: &str,
    matched: &str,
    suffix: &str,
) -> (r: String)
    ensures
        r@ == line_layout(no@, col@, prefix@, matched@, suffix@),
{
    proof {
        reveal_strlit(":");
        reveal_strlit(" ");
    }
    let mut out = pad_left(no, 6);
    out.append(":");
    let padded_col = pad_right(col, 3);
    out.append(padded_col.as_str());
    out.append(" ");
    out.append(prefix);
    out.append(matched);
    out.append(suffix);
    proof {
        assert(out@ =~= line_layout(no@, col@, prefix@, matched@, suffix@));
    }
    out
}

/// Relies on colored's `Colorize::blue` and `ColoredString`'s
/// rendering: the output is the input text left bare, or wrapped in
/// one SGR style prefix and one SGR reset, as the environment decides;
/// only escape text is ever added. An input that holds an inner reset
/// escape may have more styling inserted after each reset, so the
/// wrapped shape is promised only of escape-free input.
#[verifier::external_body]
fn paint_blue(s: &str) -> (r: String)
    ensures
        r@.len() >= s@.len(),
        !has_esc(s@) ==> painted(r@, s@),
{
    s.blue().to_string()
}

/// Relies on colored's `Colorize::cyan`, as `paint_blue` does on
/// `blue`.
#[verifier::external_body]
fn paint_cyan(s: &str) -> (r: String)
    ensures
        r@.len() >= s@.len(),
        !has_esc(s@) ==> painted(r@, s@),
{
    s.cyan().to_string()
}

/// Relies on colored's `Colorize::red`, as `paint_blue` does on
/// `blue`.
#[verifier::external_body]
fn paint_red(s: &str) -> (r: String)
    ensures
        r@.len() >= s@.len(),
        !has_esc(s@) ==> painted(r@, s@),
{
    s.red().to_string()
}

#[verifier::external_type_specification]
#[verifier::external_body]
pub struct ExRegex(regex::Regex);

#[verifier::external_type_specification]
#[verifier::external_body]
pub struct ExRegexError(regex::Error);

/// What the regex engine answers for a pattern text and a line:
/// nothing, or the line cut around the leftmost match — a function of
/// the two texts alone.
pub uninterp spec fn find_of(pat: Seq<char>, line: Seq<char>) -> Option<
    (Seq<char>, Seq<char>, Seq<char>),
>;

/// The image of an optional line split.
pub open spec fn split_view(r: Option<(String, String, String)>) -> Option<
    (Seq<char>, Seq<char>, Seq<char>),
> {
    match r {
        Some(t) => Some((t.0@, t.1@, t.2@)),
        None => None,
    }
}

/// A compiled search pattern, kept together with the pattern text it
/// was built from. The only way to build one is `Pattern::new`, so the
/// two always agree, and a search through it is a function of the
/// pattern text and the line alone.
pub struct Pattern {
    re: regex::Regex,
    text: String,
}

impl Pattern {
    /// The pattern text this was compiled from.
    pub closed spec fn pat(&self) -> Seq<char> {
        self.text@
    }

    /// Relies on regex::Regex::new: compiles the pattern text, an
    /// error exactly on an invalid pattern.
    #[verifier::external_body]
    pub fn new(pattern: &str) -> (r: Result<Pattern, regex::Error>)
        ensures
            r matches Ok(p) ==> p.pat() == pattern@,
    {
        match regex::Regex::new(pattern) {
            Ok(re) => Ok(Pattern { re, text: pattern.to_string() }),
            Err(e) => Err(e),
        }
    }

    /// Relies on regex::Regex::find: the leftmost match of the pattern
    /// in the line, a function of pattern text and line alone, named
    /// `find_of`; its bounds lie on character boundaries, so the three
    /// pieces cut around it rebuild the line.
    #[verifier::external_body]
    fn find_split(&self, line: &str) -> (r: Option<(String, String, String)>)
        ensures
            split_view(r) == find_of(self.pat(), line@),
            r matches Some(t) ==> line@ == t.0@ + t.1@ + t.2@,
    {
        match self.re.find(line) {
            Some(m) => Some(
                (
                    line[..m.start()].to_string(),
                    line[m.start()..m.end()].to_string(),
                    line[m.end()..].to_string(),
                ),
            ),
            None => None,
        }
    }
}

/// Formats one matched line: the line number, the column of the match
/// (counted in characters, starting at 1), and the line with its
/// matched range painted. The range is given in characters. With color
/// codes ignored, the text after the line:column header is the line
/// itself.
pub fn format_line(line: &str, lineno: usize, start: usize, end: usize) -> (r: String)
    requires
        start <= end,
        end <= line@.len(),
        line@.len() < usize::MAX,
    ensures
        laid_out(
            r@,
            lineno as nat,
            line@.subrange(0, start as int),
            line@.subrange(start as int, end as int),
            line@.subrange(end as int, line@.len() as int),
        ),
{
    let n = line.unicode_len();
    let prefix = line.substring_char(0, start);
    let matched = line.substring_char(start, end);
    let suffix = line.substring_char(end, n);
    let no = paint_blue(decimal_string(lineno).as_str());
    let c = paint_cyan(decimal_string(start + 1).as_str());
    let mm = paint_red(matched);
    let out = format_line_parts(no.as_str(), c.as_str(), prefix, mm.as_str(), suffix);
    proof {
        lemma_dec_digits_no_esc(lineno as nat);
        lemma_dec_digits_no_esc(start as nat + 1);
        assert(painted(no@, dec_digits(lineno as nat)) && painted(c@, dec_digits(start as nat + 1))
            && (!has_esc(line@.subrange(start as int, end as int)) ==> painted(
            mm@,
            line@.subrange(start as int, end as int),
        )) && out@ == line_layout(
            no@,
            c@,
            line@.subrange(0, start as int),
            mm@,
            line@.subrange(end as int, line@.len() as int),
        ));
        assert(laid_out(
            out@,
            lineno as nat,
            line@.subrange(0, start as int),
            line@.subrange(start as int, end as int),
            line@.subrange(end as int, line@.len() as int),
        ));
    }
    out
}

/// One line of grep output: the formatted line exactly when the
/// pattern matches the line, else nothing. The line is laid out cut
/// around the leftmost match, with the matched piece painted and the
/// column counted in characters from 1.
pub fn render_line(pattern: &Pattern, lineno: usize, line: &str) -> (r: Option<String>)
    requires
        line@.len() < usize::MAX,
    ensures
        r is Some <==> find_of(pattern.pat(), line@) is Some,
        r matches Some(out) ==> (find_of(pattern.pat(), line@) matches Some(t)
            && line@ == t.0 + t.1 + t.2 && laid_out(out@, lineno as nat, t.0, t.1, t.2)),
{
    match pattern.find_split(line) {
        Some((prefix, matched, suffix)) => {
            proof {
                assert(prefix@.len() <= line@.len());
            }
            let plen = prefix.as_str().unicode_len();
            let no = paint_blue(decimal_string(lineno).as_str());
            let c = paint_cyan(decimal_string(plen + 1).as_str());
            let mm = paint_red(matched.as_str());
            let out = format_line_parts(
                no.as_str(),
                c.as_str(),
                prefix.as_str(),
                mm.as_str(),
                suffix.as_str(),
            );
            proof {
                lemma_dec_digits_no_esc(lineno as nat);
                lemma_dec_digits_no_esc(prefix@.len() + 1);
                assert(find_of(pattern.pat(), line@) == Some((prefix@, matched@, suffix@)));
                assert(line@ == prefix@ + matched@ + suffix@ && painted(
                    no@,
                    dec_digits(lineno as nat),
                ) && painted(c@, dec_digits(prefix@.len() + 1)) && (!has_esc(matched@) ==> painted(
                    mm@,
                    matched@,
                )) && out@ == line_layout(no@, c@, prefix@, mm@, suffix@));
                assert(laid_out(out@, lineno as nat, prefix@, matched@, suffix@));
            }
            Some(out)
        },
        None => None,
    }
}

/// The texts of a sequence of rendered lines.
pub open spec fn texts_of(parts: Seq<String>) -> Seq<Seq<char>> {
    parts.map_values(|p: String| p@)
}

/// The rendered lines joined, with the separator between each two.
pub open spec fn joined_with(parts: Seq<Seq<char>>, sep: Seq<char>) -> Seq<char>
    decreases parts.len(),
{
    if parts.len() == 0 {
        Seq::empty()
    } else if parts.len() == 1 {
        parts[0]
    } else {
        joined_with(parts.drop_last(), sep) + sep + parts.last()
    }
}

/// Joins the rendered lines with `sep` between them: exactly
/// `joined_with` of their texts, so the result is empty exactly when
/// no line matched.
pub fn join_rendered(parts: &Vec<String>, sep: &str) -> (r: String)
    ensures
        r@ == joined_with(texts_of(parts@), sep@),
{
    let mut out = String::new();
    let mut i: usize = 0;
    while i < parts.len()
        invariant
            i <= parts@.len(),
            out@ == joined_with(texts_of(parts@).take(i as int), sep@),
        decreases parts@.len() - i,
    {
        if i > 0 {
            out.append(sep);
        }
        out.append(parts[i].as_str());
        proof {
            let all = texts_of(parts@);
            assert(all.take(i as int + 1).drop_last() =~= all.take(i as int));
            assert(all.take(i as int + 1).last() == parts@[i as int]@);
            assert(out@ =~= joined_with(all.take(i as int + 1), sep@));
        }
        i = i + 1;
    }
    proof {
        assert(texts_of(parts@).take(parts@.len() as int) =~= texts_of(parts@));
    }
    out
}

} // verus!
