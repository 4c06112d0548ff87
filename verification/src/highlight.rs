//! Syntax span builder: turns a document into an ordered sequence of styled
//! spans that partition the text exactly. Tokenization is delegated line by
//! line to the syntect grammar engine; whenever no grammar is selected, the
//! name resolves to no grammar, or a line's tokens fail to cover it, the text
//! degrades to a single unstyled span in the default color instead of failing.

use vstd::prelude::*;

verus! {

use syntect::easy::HighlightLines;
use syntect::highlighting::Theme;
use syntect::highlighting::ThemeSet;
use syntect::parsing::SyntaxReference;
use syntect::parsing::SyntaxSet;

#[verifier::external_type_specification]
#[verifier::external_body]
pub struct ExSyntaxSet(SyntaxSet);

#[verifier::external_type_specification]
#[verifier::external_body]
pub struct ExSyntaxReference(SyntaxReference);

#[verifier::external_type_specification]
#[verifier::external_body]
pub struct ExThemeSet(ThemeSet);

#[verifier::external_type_specification]
#[verifier::external_body]
pub struct ExTheme(Theme);

#[verifier::external_type_specification]
#[verifier::external_body]
pub struct ExHighlightLines<'a>(HighlightLines<'a>);

/// An opaque RGB foreground color.
#[derive(Clone, Copy, Debug, PartialEq, Eq, Structural)]
pub struct Rgb {
    pub r: u8,
    pub g: u8,
    pub b: u8,
}

/// One styled run of text: the substring it covers, its foreground color, and
/// bold/underline flags. Italic attributes are recognized in grammar metadata
/// but deliberately carry no flag here: they have no visual effect in this
/// design.
#[derive(Debug, Clone)]
pub struct StyledSpan {
    pub text: String,
    pub color: Rgb,
    pub bold: bool,
    pub underline: bool,
}

/// The default foreground color for unstyled text in the given mode.
pub open spec fn default_color(dark: bool) -> Rgb {
    if dark {
        Rgb { r: 0xd4, g: 0xd4, b: 0xd4 }
    } else {
        Rgb { r: 0x33, g: 0x33, b: 0x33 }
    }
}

fn default_color_for(dark: bool) -> (c: Rgb)
    ensures
        c == default_color(dark),
{
    if dark {
        Rgb { r: 0xd4, g: 0xd4, b: 0xd4 }
    } else {
        Rgb { r: 0x33, g: 0x33, b: 0x33 }
    }
}

/// The concatenation of the spans' texts.
pub open spec fn spans_text(spans: Seq<StyledSpan>) -> Seq<char>
    decreases spans.len(),
{
    if spans.len() == 0 {
        Seq::<char>::empty()
    } else {
        spans_text(spans.drop_last()) + spans.last().text@
    }
}

/// The concatenation of the lines' characters.
pub open spec fn lines_text(lines: Seq<String>) -> Seq<char>
    decreases lines.len(),
{
    if lines.len() == 0 {
        Seq::<char>::empty()
    } else {
        lines_text(lines.drop_last()) + lines.last()@
    }
}

/// The concatenation of the texts of raw tokens (text, red, green, blue,
/// font-style bits).
pub open spec fn tokens_text(toks: Seq<(String, u8, u8, u8, u8)>) -> Seq<char>
    decreases toks.len(),
{
    if toks.len() == 0 {
        Seq::<char>::empty()
    } else {
        tokens_text(toks.drop_last()) + toks.last().0@
    }
}

/// The styled span a raw token (text, red, green, blue, font-style bits)
/// translates to: its text and color, bold from the lowest style bit,
/// underline from the next; the italic bit carries no flag.
pub open spec fn span_of_token(t: (String, u8, u8, u8, u8)) -> StyledSpan {
    StyledSpan {
        text: t.0,
        color: Rgb { r: t.1, g: t.2, b: t.3 },
        bold: (t.4 & 1) != 0,
        underline: (t.4 & 2) != 0,
    }
}

proof fn lemma_spans_text_push(spans: Seq<StyledSpan>, s: StyledSpan)
    ensures
        spans_text(spans.push(s)) == spans_text(spans) + s.text@,
{
    assert(spans.push(s).drop_last() =~= spans);
    assert(spans.push(s).last() == s);
}

proof fn lemma_lines_text_take_step(lines: Seq<String>, k: int)
    requires
        0 <= k < lines.len(),
    ensures
        lines_text(lines.take(k + 1)) == lines_text(lines.take(k)) + lines[k]@,
{
    assert(lines.take(k + 1).drop_last() =~= lines.take(k));
    assert(lines.take(k + 1).last() == lines[k]);
}

proof fn lemma_tokens_text_take_step(toks: Seq<(String, u8, u8, u8, u8)>, k: int)
    requires
        0 <= k < toks.len(),
    ensures
        tokens_text(toks.take(k + 1)) == tokens_text(toks.take(k)) + toks[k].0@,
{
    assert(toks.take(k + 1).drop_last() =~= toks.take(k));
    assert(toks.take(k + 1).last() == toks[k]);
}

/// Splits a document into its lines, each keeping its trailing newline; the
/// last line has none unless the text ends with one. The lines concatenate
/// back to the document exactly.
fn split_lines(text: &str) -> (lines: Vec<String>)
    ensures
        lines_text(lines@) == text@,
{
    let n = text.unicode_len();
    let mut lines: Vec<String> = Vec::new();
    let mut start: usize = 0;
    let mut i: usize = 0;
    proof {
        assert(text@.take(0) =~= Seq::<char>::empty());
    }
    while i < n
        invariant
            0 <= start <= i <= n,
            n == text@.len(),
            lines_text(lines@) == text@.take(start as int),
        decreases n - i,
    {
        let c = text.get_char(i);
        if c == '\n' {
            let piece = text.substring_char(start, i + 1);
            let ghost old_lines = lines@;
            lines.push(String::from_str(piece));
            proof {
                assert(lines@ == old_lines.push(lines@.last()));
                assert(lines@.drop_last() =~= old_lines);
                assert(lines_text(lines@) == lines_text(old_lines) + piece@);
                assert(text@.take(start as int) + text@.subrange(start as int, i + 1) =~= text@.take(
                    i + 1,
                ));
            }
            start = i + 1;
        }
        i = i + 1;
    }
    if start < n {
        let piece = text.substring_char(start, n);
        let ghost old_lines = lines@;
        lines.push(String::from_str(piece));
        proof {
            assert(lines@.drop_last() =~= old_lines);
            assert(lines_text(lines@) == lines_text(old_lines) + piece@);
            assert(text@.take(start as int) + text@.subrange(start as int, n as int) =~= text@.take(
                n as int,
            ));
        }
    }
    proof {
        assert(text@.take(n as int) =~= text@);
    }
    lines
}

/// Whether the bundled grammar set holds a grammar with exactly this name, as
/// `SyntaxSet::find_syntax_by_name` resolves it.
pub uninterp spec fn grammar_known(name: Seq<char>) -> bool;

/// Whether the bundled grammar set associates some grammar with this file
/// extension, as `SyntaxSet::find_syntax_by_extension` resolves it.
pub uninterp spec fn extension_known(ext: Seq<char>) -> bool;

/// Relies on `SyntaxSet::load_defaults_newlines`: loads the grammar set
/// bundled with syntect from embedded data.
#[verifier::external_body]
fn load_default_syntaxes() -> SyntaxSet {
    SyntaxSet::load_defaults_newlines()
}

/// Relies on `ThemeSet::load_defaults`: loads the theme set bundled with
/// syntect from embedded data.
#[verifier::external_body]
fn load_default_themes() -> ThemeSet {
    ThemeSet::load_defaults()
}

/// Relies on `HighlightLines::new`: starts a fresh stateful line highlighter
/// for this grammar and theme.
#[verifier::external_body]
fn hl_new<'a>(syntax: &SyntaxReference, theme: &'a Theme) -> HighlightLines<'a> {
    HighlightLines::new(syntax, theme)
}

/// Relies on `HighlightLines::highlight_line`: tokenizes one line under the
/// grammar, carrying parser state across calls. Each token is handed out as
/// (text, red, green, blue, font-style bits); a parse error becomes `None`.
/// Nothing is assumed of the tokens: the caller checks that they cover the
/// line before using them.
#[verifier::external_body]
fn hl_line<'a>(
    h: &mut HighlightLines<'a>,
    line: &str,
    ss: &SyntaxSet,
) -> Option<Vec<(String, u8, u8, u8, u8)>> {
    match h.highlight_line(line, ss) {
        Ok(ranges) => Some(
            ranges.iter().map(
                |(st, tx)| {
                    (tx.to_string(), st.foreground.r, st.foreground.g, st.foreground.b, st.font_style.bits())
                },
            ).collect(),
        ),
        Err(_) => None,
    }
}

/// Holds the grammar and theme sets that syntect bundles, loaded once.
pub struct SyntaxHighlighter {
    syntax_set: SyntaxSet,
    theme_set: ThemeSet,
}

impl SyntaxHighlighter {
    /// Loads the bundled grammar and theme sets.
    pub fn new() -> SyntaxHighlighter {
        SyntaxHighlighter { syntax_set: load_default_syntaxes(), theme_set: load_default_themes() }
    }

    /// Relies on `ThemeSet::load_defaults` bundling the "base16-mocha.dark"
    /// theme; hands back the default theme if the key were ever absent.
    #[verifier::external_body]
    pub fn get_dark_theme(&self) -> Theme {
        self.theme_set.themes.get("base16-mocha.dark").cloned().unwrap_or_default()
    }

    /// Relies on `ThemeSet::load_defaults` bundling the "base16-ocean.light"
    /// theme; hands back the default theme if the key were ever absent.
    #[verifier::external_body]
    pub fn get_light_theme(&self) -> Theme {
        self.theme_set.themes.get("base16-ocean.light").cloned().unwrap_or_default()
    }

    /// The bundled grammar set.
    pub fn syntax_set(&self) -> &SyntaxSet {
        &self.syntax_set
    }

    /// Relies on `SyntaxSet::find_syntax_by_name`: a linear search of the
    /// bundled set for a grammar named exactly `name` — a fixed function of
    /// the name, since the set is always the bundled one.
    #[verifier::external_body]
    pub fn find_syntax_by_name(&self, name: &str) -> (r: Option<SyntaxReference>)
        ensures
            r is Some <==> grammar_known(name@),
    {
        self.syntax_set.find_syntax_by_name(name).cloned()
    }

    /// Relies on `SyntaxSet::find_syntax_by_extension`: resolves a file
    /// extension (case-insensitively) to a bundled grammar and hands back its
    /// name; that name resolves in turn, since the found grammar is in the
    /// set that `find_syntax_by_name` searches.
    #[verifier::external_body]
    pub fn find_syntax_by_extension(&self, ext: &str) -> (r: Option<String>)
        ensures
            r is Some <==> extension_known(ext@),
            r is Some ==> grammar_known(r->0@),
    {
        self.syntax_set.find_syntax_by_extension(ext).map(|s| s.name.clone())
    }

    /// Relies on `SyntaxSet::syntaxes`: the name of every bundled grammar, in
    /// the set's order.
    #[verifier::external_body]
    pub fn all_syntaxes(&self) -> Vec<String> {
        self.syntax_set.syntaxes().iter().map(|s| s.name.clone()).collect()
    }

    /// Appends the spans for one line of tokenizer output, whatever the
    /// tokenizer returned: when the tokens' texts concatenate to the line
    /// exactly, each token becomes its span (the span of its text, color and
    /// font-style bits); otherwise — a parse error, or tokens that fail to
    /// cover the line — the whole line becomes one default-colored span. In
    /// every case the appended spans' texts concatenate to the line.
    pub fn emit_line(
        &self,
        line: &String,
        toks: Option<Vec<(String, u8, u8, u8, u8)>>,
        dark: bool,
        spans: &mut Vec<StyledSpan>,
    )
        ensures
            spans_text(final(spans)@) == spans_text(old(spans)@) + line@,
            (match toks {
                Some(ts) => tokens_text(ts@) == line@,
                None => false,
            }) ==> final(spans)@ == old(spans)@ + toks->0@.map_values(|t| span_of_token(t)),
            !(match toks {
                Some(ts) => tokens_text(ts@) == line@,
                None => false,
            }) ==> final(spans)@ == old(spans)@.push(
                StyledSpan { text: *line, color: default_color(dark), bold: false, underline: false },
            ),
    {
        let ghost spans0 = old(spans)@;
        if let Some(ts) = toks {
            let m = ts.len();
            let mut acc = String::new();
            let mut k: usize = 0;
            proof {
                assert(ts@.take(0) =~= Seq::<(String, u8, u8, u8, u8)>::empty());
            }
            while k < m
                invariant
                    0 <= k <= m,
                    m == ts@.len(),
                    acc@ == tokens_text(ts@.take(k as int)),
                decreases m - k,
            {
                proof {
                    lemma_tokens_text_take_step(ts@, k as int);
                }
                acc.append(ts[k].0.as_str());
                k = k + 1;
            }
            proof {
                assert(ts@.take(m as int) =~= ts@);
            }
            if acc.eq(line) {
                let mut k: usize = 0;
                while k < m
                    invariant
                        0 <= k <= m,
                        m == ts@.len(),
                        spans_text(spans@) == spans_text(spans0) + tokens_text(ts@.take(k as int)),
                        spans@ == spans0 + ts@.take(k as int).map_values(|t| span_of_token(t)),
                    decreases m - k,
                {
                    let ghost sp_before = spans@;
                    let t = &ts[k];
                    spans.push(
                        StyledSpan {
                            text: t.0.clone(),
                            color: Rgb { r: t.1, g: t.2, b: t.3 },
                            bold: t.4 & 1 != 0,
                            underline: t.4 & 2 != 0,
                        },
                    );
                    proof {
                        lemma_tokens_text_take_step(ts@, k as int);
                        lemma_spans_text_push(sp_before, spans@.last());
                        assert(spans@.last() == span_of_token(ts@[k as int]));
                        assert(ts@.take(k + 1).map_values(|t| span_of_token(t)) =~= ts@.take(
                            k as int,
                        ).map_values(|t| span_of_token(t)).push(span_of_token(ts@[k as int])));
                        assert(spans@ =~= spans0 + ts@.take(k + 1).map_values(
                            |t| span_of_token(t),
                        ));
                    }
                    k = k + 1;
                }
                proof {
                    assert(ts@.take(m as int) =~= ts@);
                }
                return ;
            }
        }
        let ghost sp_before = spans@;
        spans.push(
            StyledSpan { text: line.clone(), color: default_color_for(dark), bold: false, underline: false },
        );
        proof {
            lemma_spans_text_push(sp_before, spans@.last());
        }
    }

    /// Builds the styled spans of `text` under the named grammar and
    /// light/dark mode. The spans always partition the text exactly: their
    /// concatenation reproduces the input, newlines included. When no grammar
    /// is given, or the name resolves to none, the whole text becomes one
    /// span in the default color with no style flags.
    pub fn highlight(&self, text: &str, grammar: Option<&str>, dark: bool) -> (spans: Vec<
        StyledSpan,
    >)
        ensures
            spans_text(spans@) == text@,
            (match grammar {
                None => true,
                Some(g) => !grammar_known(g@),
            }) ==> spans@.len() == 1 && spans@[0].text@ == text@ && spans@[0].color
                == default_color(dark) && !spans@[0].bold && !spans@[0].underline,
    {
        let resolved = match grammar {
            None => None,
            Some(g) => self.find_syntax_by_name(g),
        };
        match resolved {
            None => {
                let mut spans: Vec<StyledSpan> = Vec::new();
                let ghost sp_before = spans@;
                spans.push(
                    StyledSpan {
                        text: String::from_str(text),
                        color: default_color_for(dark),
                        bold: false,
                        underline: false,
                    },
                );
                proof {
                    lemma_spans_text_push(sp_before, spans@.last());
                    assert(spans_text(sp_before) == Seq::<char>::empty());
                }
                spans
            },
            Some(syntax) => {
                let theme = if dark {
                    self.get_dark_theme()
                } else {
                    self.get_light_theme()
                };
                let mut h = hl_new(&syntax, &theme);
                let lines = split_lines(text);
                let mut spans: Vec<StyledSpan> = Vec::new();
                let nl = lines.len();
                let mut li: usize = 0;
                proof {
                    assert(lines@.take(0) =~= Seq::<String>::empty());
                }
                while li < nl
                    invariant
                        0 <= li <= nl,
                        nl == lines@.len(),
                        lines_text(lines@) == text@,
                        spans_text(spans@) == lines_text(lines@.take(li as int)),
                    decreases nl - li,
                {
                    proof {
                        lemma_lines_text_take_step(lines@, li as int);
                    }
                    let line = &lines[li];
                    let toks = hl_line(&mut h, line.as_str(), &self.syntax_set);
                    self.emit_line(line, toks, dark, &mut spans);
                    li = li + 1;
                }
                proof {
                    assert(lines@.take(nl as int) =~= lines@);
                }
                spans
            },
        }
    }
}

} // verus!
