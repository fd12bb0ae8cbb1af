//! The syntax highlighter: a catalog of grammars and colour themes loaded
//! once, read-only afterwards, that turns text into HTML with one
//! numbered anchor per line.

use vstd::prelude::*;
use syntect::easy::HighlightLines;
use syntect::highlighting::{Color, FontStyle, Style, Theme, ThemeSet};
use syntect::parsing::{SyntaxReference, SyntaxSet};
use crate::text::{dec_digits, hex2, push_decimal, push_hex2};

verus! {

#[verifier::external_type_specification]
#[verifier::external_body]
pub struct ExSyntaxSet(SyntaxSet);

#[verifier::external_type_specification]
#[verifier::external_body]
pub struct ExSyntaxReference(SyntaxReference);

#[verifier::external_type_specification]
#[verifier::external_body]
pub struct ExThemeSet(ThemeSet);

#[verifier::external_type_specification]
#[verifier::external_body]
pub struct ExTheme(Theme);

#[verifier::external_type_specification]
#[verifier::external_body]
pub struct ExHighlightLines<'a>(HighlightLines<'a>);

/// An RGBA colour; its four channels are plain public bytes.
#[verifier::external_type_specification]
pub struct ExColor(Color);

/// The theme that submitted pastes are rendered with.
pub const DEFAULT_THEME: &'static str = "base16-ocean.dark";

/// The names of the grammars of a syntax set, in catalog order.
pub uninterp spec fn syntax_catalog(ss: SyntaxSet) -> Seq<Seq<char>>;

/// The themes of a theme set, by name, each with the RGBA background colour
/// it sets, if it sets one.
pub uninterp spec fn theme_backgrounds(ts: ThemeSet) -> Map<Seq<char>, Option<(u8, u8, u8, u8)>>;

/// The styled regions that the bundled grammar named `grammar` and the
/// bundled theme named `theme` give `line`, after the lines `earlier` of the
/// same text: each region's foreground and background as RGBA, its font
/// style bits and its text; `None` where the grammar fails on the line.
pub uninterp spec fn line_regions(
    grammar: Seq<char>,
    theme: Seq<char>,
    earlier: Seq<Seq<char>>,
    line: Seq<char>,
) -> Option<Seq<((u8, u8, u8, u8), (u8, u8, u8, u8), u8, Seq<char>)>>;

/// The HTML spans of styled regions, with a background written only where it
/// differs from `bg`; `None` where writing fails.
pub uninterp spec fn regions_html(
    regions: Seq<((u8, u8, u8, u8), (u8, u8, u8, u8), u8, Seq<char>)>,
    bg: (u8, u8, u8, u8),
) -> Option<Seq<char>>;

/// The names of syntect's bundled grammars, in catalog order, in the build
/// for lines that keep their line endings (`newlines`) or the one for lines
/// without them.
pub uninterp spec fn bundled_grammar_names(newlines: bool) -> Seq<Seq<char>>;

/// A theme of syntect's bundled set by name: `None` where there is none of
/// that name, else the RGBA background it sets, if it sets one.
pub uninterp spec fn bundled_theme(name: Seq<char>) -> Option<Option<(u8, u8, u8, u8)>>;

/// syntect's bundled themes by name, with the background each sets.
pub open spec fn bundled_backgrounds() -> Map<Seq<char>, Option<(u8, u8, u8, u8)>> {
    Map::new(|n: Seq<char>| bundled_theme(n) is Some, |n: Seq<char>| bundled_theme(n)->0)
}

/// Relies on syntect's `SyntaxSet::load_defaults_newlines`: the bundled
/// grammars, built for lines that keep their line endings, among them
/// "Plain Text" (which `SyntaxSet::find_syntax_plain_text` counts on).
#[verifier::external_body]
fn load_syntax_set() -> (r: SyntaxSet)
    ensures
        syntax_catalog(r) == bundled_grammar_names(true),
        syntax_catalog(r).contains("Plain Text"@),
{
    SyntaxSet::load_defaults_newlines()
}

/// Relies on syntect's `ThemeSet::load_defaults`: the bundled themes, among
/// them `base16-ocean.dark`.
#[verifier::external_body]
fn load_theme_set() -> (r: ThemeSet)
    ensures
        forall|n: Seq<char>| #[trigger] bundled_theme(n) == if theme_backgrounds(r).contains_key(n) {
            Some(theme_backgrounds(r)[n])
        } else {
            None
        },
        theme_backgrounds(r).contains_key(DEFAULT_THEME@),
{
    ThemeSet::load_defaults()
}

/// Relies on syntect's `SyntaxSet::syntaxes`: every grammar, in order; each
/// is handed out as its `name`.
#[verifier::external_body]
fn syntax_names(ss: &SyntaxSet) -> (r: Vec<String>)
    ensures
        r@.map_values(|n: String| n@) == syntax_catalog(*ss),
{
    ss.syntaxes().iter().map(|syn| syn.name.clone()).collect()
}

/// Relies on syntect's `SyntaxSet::find_syntax_by_name`: a grammar whose
/// name equals `name`, if there is one.
#[verifier::external_body]
fn find_syntax<'a>(ss: &'a SyntaxSet, name: &str) -> (r: Option<&'a SyntaxReference>)
    ensures
        r.is_some() <==> syntax_catalog(*ss).contains(name@),
{
    ss.find_syntax_by_name(name)
}

/// Relies on the `themes` map of syntect's `ThemeSet` and std's
/// `BTreeMap::get`: the theme stored under `name`, if there is one.
#[verifier::external_body]
fn find_theme<'a>(ts: &'a ThemeSet, name: &str) -> (r: Option<&'a Theme>)
    ensures
        r.is_some() <==> theme_backgrounds(*ts).contains_key(name@),
{
    ts.themes.get(name)
}

pub open spec fn rgba(c: Color) -> (u8, u8, u8, u8) {
    (c.r, c.g, c.b, c.a)
}

/// Relies on the `themes` map of syntect's `ThemeSet`, std's `BTreeMap::get`
/// and `Theme::settings.background`: for a theme of that name, the
/// background it sets, if it sets one.
#[verifier::external_body]
fn theme_background(ts: &ThemeSet, name: &str) -> (r: Option<Option<Color>>)
    ensures
        r.is_some() <==> theme_backgrounds(*ts).contains_key(name@),
        r.is_some() ==> match r->0 {
            Some(c) => theme_backgrounds(*ts)[name@] == Some(rgba(c)),
            None => theme_backgrounds(*ts)[name@] is None,
        },
{
    ts.themes.get(name).map(|t| t.settings.background)
}

/// A line-by-line highlighter together with the syntax set its grammar
/// belongs to, and a record of the grammar, the theme and the lines it has
/// been given so far.
pub struct LineRenderer<'a> {
    highlighter: HighlightLines<'a>,
    syntax_set: &'a SyntaxSet,
    grammar: Ghost<Seq<char>>,
    theme: Ghost<Seq<char>>,
    fed: Ghost<Seq<Seq<char>>>,
}

/// Relies on syntect's `SyntaxSet::find_syntax_by_name`, the `themes` map
/// of `ThemeSet` with std's `BTreeMap::get`, and `HighlightLines::new`: a
/// line-by-line highlighter for the grammar named `grammar` in `ss` and the
/// theme named `theme` in `ts`, at the start of a text, where both exist.
#[verifier::external_body]
fn line_renderer<'a>(
    ss: &'a SyntaxSet,
    ts: &'a ThemeSet,
    grammar: &str,
    theme: &str,
) -> (r: Option<LineRenderer<'a>>)
    ensures
        r.is_some() <==> (syntax_catalog(*ss).contains(grammar@)
            && theme_backgrounds(*ts).contains_key(theme@)),
        r.is_some() ==> (r->0.grammar@ == grammar@ && r->0.theme@ == theme@
            && r->0.fed@ == Seq::<Seq<char>>::empty()),
{
    let syntax = ss.find_syntax_by_name(grammar)?;
    let th = ts.themes.get(theme)?;
    Some(LineRenderer {
        highlighter: HighlightLines::new(syntax, th),
        syntax_set: ss,
        grammar: Ghost(grammar@),
        theme: Ghost(theme@),
        fed: Ghost(Seq::empty()),
    })
}

pub open spec fn region_views(v: Seq<((u8, u8, u8, u8), (u8, u8, u8, u8), u8, String)>) -> Seq<
    ((u8, u8, u8, u8), (u8, u8, u8, u8), u8, Seq<char>),
> {
    v.map_values(|x: ((u8, u8, u8, u8), (u8, u8, u8, u8), u8, String)| (x.0, x.1, x.2, x.3@))
}

/// Relies on syntect's `HighlightLines::highlight_line`, called with the
/// syntax set that the grammar came from: the styled regions of the next
/// line; each style is handed out as its colours' channels and its
/// `FontStyle` bits.
#[verifier::external_body]
fn highlight_next(h: &mut LineRenderer, line: &str) -> (r: Option<
    Vec<((u8, u8, u8, u8), (u8, u8, u8, u8), u8, String)>,
>)
    ensures
        final(h).grammar == old(h).grammar,
        final(h).theme == old(h).theme,
        final(h).fed@ == old(h).fed@.push(line@),
        match r {
            Some(v) => line_regions(old(h).grammar@, old(h).theme@, old(h).fed@, line@) == Some(
                region_views(v@),
            ),
            None => line_regions(old(h).grammar@, old(h).theme@, old(h).fed@, line@) is None,
        },
{
    let v = h.highlighter.highlight_line(line, h.syntax_set).ok()?;
    Some(v.iter().map(|(s, t)| {
        let (f, b) = (s.foreground, s.background);
        ((f.r, f.g, f.b, f.a), (b.r, b.g, b.b, b.a), s.font_style.bits(), t.to_string())
    }).collect())
}

/// Relies on syntect's `styled_line_to_highlighted_html` with
/// `IncludeBackground::IfDifferent(bg)`: the regions, rebuilt as styles, as
/// HTML spans.
#[verifier::external_body]
fn styled_html(
    regions: &Vec<((u8, u8, u8, u8), (u8, u8, u8, u8), u8, String)>,
    bg: (u8, u8, u8, u8),
) -> (r: Option<String>)
    ensures
        match r {
            Some(s) => regions_html(region_views(regions@), bg) == Some(s@),
            None => regions_html(region_views(regions@), bg) is None,
        },
{
    let c = |x: &(u8, u8, u8, u8)| Color { r: x.0, g: x.1, b: x.2, a: x.3 };
    let v: Vec<(Style, &str)> = regions.iter().map(|(f, b, s, t)| {
        (Style { foreground: c(f), background: c(b), font_style: FontStyle::from_bits_truncate(*s) }, t.as_str())
    }).collect();
    let bg = syntect::html::IncludeBackground::IfDifferent(c(&bg));
    syntect::html::styled_line_to_highlighted_html(&v[..], bg).ok()
}

/// The lines of `s`, each with the line feed that ends it; a last line
/// without one counts too.
pub open spec fn lines_of(s: Seq<char>) -> Seq<Seq<char>>
    decreases s.len(),
{
    if s.len() == 0 {
        seq![]
    } else {
        let rest = lines_of(s.drop_first());
        if s[0] == '\n' || rest.len() == 0 {
            seq![seq![s[0]]] + rest
        } else {
            rest.update(0, seq![s[0]] + rest[0])
        }
    }
}

/// Relies on syntect's `LinesWithEndings`: the text cut after each line
/// feed, a last piece without one included.
#[verifier::external_body]
fn split_lines(s: &str) -> (r: Vec<&str>)
    ensures
        r@.map_values(|l: &str| l@) == lines_of(s@),
{
    syntect::util::LinesWithEndings::from(s).collect()
}

/// Errors of the highlighter.
#[derive(Clone, Copy, Debug, PartialEq, Eq, Structural)]
pub enum HighlightError {
    /// The grammar failed on a line, or its spans could not be written.
    Highlighting,
}

/// The opening of the page, with the background colour in `#rrggbb`.
pub open spec fn page_open(c: (u8, u8, u8, u8)) -> Seq<char> {
    "<pre class=\"contents\" style=\"background-color:#"@ + hex2(c.0) + hex2(c.1) + hex2(c.2)
        + "\">"@
}

/// The anchor that stands before line `n`, counting from one.
pub open spec fn line_anchor(n: nat) -> Seq<char> {
    "<a id=\"L"@ + dec_digits(n) + "\" href=\"#L"@ + dec_digits(n) + "\" class=\"line\"></a>"@
}

/// Each line's HTML after its anchor, in order.
pub open spec fn anchored_lines(htmls: Seq<Seq<char>>) -> Seq<char>
    decreases htmls.len(),
{
    if htmls.len() == 0 {
        seq![]
    } else {
        anchored_lines(htmls.drop_last()) + line_anchor(htmls.len()) + htmls.last()
    }
}

/// The whole page for the given background and per-line HTML.
pub open spec fn page(c: (u8, u8, u8, u8), htmls: Seq<Seq<char>>) -> Seq<char> {
    page_open(c) + anchored_lines(htmls) + "</pre>"@
}

/// The grammar that a language name selects from a catalog: the grammar of
/// that name, else plain text.
pub open spec fn selected_grammar(catalog: Seq<Seq<char>>, language: Seq<char>) -> Seq<char> {
    if catalog.contains(language) {
        language
    } else {
        "Plain Text"@
    }
}

/// The background a theme sets, else opaque white.
pub open spec fn background_or_white(bg: Option<(u8, u8, u8, u8)>) -> (u8, u8, u8, u8) {
    match bg {
        Some(c) => c,
        None => (255, 255, 255, 255),
    }
}

/// The HTML of each of `lines` in turn, highlighted from the first line on;
/// `None` where any line fails.
pub open spec fn line_htmls(
    grammar: Seq<char>,
    theme: Seq<char>,
    bg: (u8, u8, u8, u8),
    lines: Seq<Seq<char>>,
) -> Option<Seq<Seq<char>>>
    decreases lines.len(),
{
    if lines.len() == 0 {
        Some(seq![])
    } else {
        match line_htmls(grammar, theme, bg, lines.drop_last()) {
            None => None,
            Some(prev) => match line_regions(grammar, theme, lines.drop_last(), lines.last()) {
                None => None,
                Some(regions) => match regions_html(regions, bg) {
                    None => None,
                    Some(h) => Some(prev.push(h)),
                },
            },
        }
    }
}

/// What highlighting `s` as `syntax` with `theme` gives, over a grammar
/// catalog and the themes' backgrounds (`theme` among them).
pub open spec fn rendering(
    languages: Seq<Seq<char>>,
    backgrounds: Map<Seq<char>, Option<(u8, u8, u8, u8)>>,
    s: Seq<char>,
    syntax: Seq<char>,
    theme: Seq<char>,
) -> Result<Seq<char>, HighlightError> {
    let bg = background_or_white(backgrounds[theme]);
    match line_htmls(selected_grammar(languages, syntax), theme, bg, lines_of(s)) {
        Some(h) => Ok(page(bg, h)),
        None => Err(HighlightError::Highlighting),
    }
}

pub open spec fn result_view(r: Result<String, HighlightError>) -> Result<Seq<char>, HighlightError> {
    match r {
        Ok(s) => Ok(s@),
        Err(e) => Err(e),
    }
}

/// A language name that the catalog lacks is highlighted exactly as
/// "Plain Text" is.
pub proof fn lemma_unknown_language_falls_back(
    languages: Seq<Seq<char>>,
    backgrounds: Map<Seq<char>, Option<(u8, u8, u8, u8)>>,
    s: Seq<char>,
    language: Seq<char>,
    theme: Seq<char>,
)
    requires
        languages.contains("Plain Text"@),
        !languages.contains(language),
    ensures
        rendering(languages, backgrounds, s, language, theme) == rendering(
            languages,
            backgrounds,
            s,
            "Plain Text"@,
            theme,
        ),
{
}

/// Where every line is highlighted, there is one piece of HTML, and so one
/// anchor, per line.
pub proof fn lemma_one_html_per_line(
    grammar: Seq<char>,
    theme: Seq<char>,
    bg: (u8, u8, u8, u8),
    lines: Seq<Seq<char>>,
)
    ensures
        line_htmls(grammar, theme, bg, lines) is Some ==> line_htmls(
            grammar,
            theme,
            bg,
            lines,
        )->0.len() == lines.len(),
    decreases lines.len(),
{
    if lines.len() > 0 {
        lemma_one_html_per_line(grammar, theme, bg, lines.drop_last());
    }
}

/// Two highlighters over syntect's bundled catalogs highlight every text
/// alike.
pub proof fn lemma_bundled_highlighters_agree(
    h1: &Highlighter,
    h2: &Highlighter,
    s: Seq<char>,
    syntax: Seq<char>,
    theme: Seq<char>,
)
    requires
        h1.languages() == bundled_grammar_names(true),
        h1.backgrounds() == bundled_backgrounds(),
        h2.languages() == bundled_grammar_names(true),
        h2.backgrounds() == bundled_backgrounds(),
    ensures
        rendering(h1.languages(), h1.backgrounds(), s, syntax, theme) == rendering(
            h2.languages(),
            h2.backgrounds(),
            s,
            syntax,
            theme,
        ),
{
}

/// Once a line fails, the text as a whole fails.
proof fn lemma_failure_persists(
    grammar: Seq<char>,
    theme: Seq<char>,
    bg: (u8, u8, u8, u8),
    lines: Seq<Seq<char>>,
    i: int,
)
    requires
        0 <= i <= lines.len(),
        line_htmls(grammar, theme, bg, lines.take(i)) is None,
    ensures
        line_htmls(grammar, theme, bg, lines) is None,
    decreases lines.len() - i,
{
    if i == lines.len() {
        assert(lines.take(i) =~= lines);
    } else {
        assert(lines.drop_last().take(i) =~= lines.take(i));
        lemma_failure_persists(grammar, theme, bg, lines.drop_last(), i);
    }
}

/// The grammar and theme catalogs, loaded once and only read afterwards.
pub struct Highlighter {
    syntax_set: SyntaxSet,
    theme_set: ThemeSet,
}

impl Highlighter {
    /// The names of the grammars, in catalog order.
    pub closed spec fn languages(&self) -> Seq<Seq<char>> {
        syntax_catalog(self.syntax_set)
    }

    /// The themes by name, with the background each sets.
    pub closed spec fn backgrounds(&self) -> Map<Seq<char>, Option<(u8, u8, u8, u8)>> {
        theme_backgrounds(self.theme_set)
    }

    /// The names of the themes.
    pub open spec fn themes(&self) -> Set<Seq<char>> {
        self.backgrounds().dom()
    }

    /// Loads the bundled grammars and themes.
    pub fn new() -> (r: Self)
        ensures
            r.languages() == bundled_grammar_names(true),
            r.backgrounds() == bundled_backgrounds(),
            r.languages().contains("Plain Text"@),
            r.themes().contains(DEFAULT_THEME@),
    {
        let h = Highlighter { syntax_set: load_syntax_set(), theme_set: load_theme_set() };
        assert(h.backgrounds() =~= bundled_backgrounds());
        h
    }

    /// The names of the known grammars.
    pub fn get_syntaxes(&self) -> (r: Vec<String>)
        ensures
            r@.map_values(|n: String| n@) == self.languages(),
    {
        syntax_names(&self.syntax_set)
    }

    /// Whether a theme of this name is known.
    pub fn has_theme(&self, name: &str) -> (r: bool)
        ensures
            r == self.themes().contains(name@),
    {
        find_theme(&self.theme_set, name).is_some()
    }

    /// Whether a grammar of this name is known.
    pub fn has_syntax(&self, name: &str) -> (r: bool)
        ensures
            r == self.languages().contains(name@),
    {
        find_syntax(&self.syntax_set, name).is_some()
    }

    /// The name of the grammar that text labelled `language` is highlighted
    /// with: that language's own where the catalog has it, else plain text.
    pub fn grammar_for<'a>(&self, language: &'a str) -> (r: &'a str)
        ensures
            r@ == selected_grammar(self.languages(), language@),
    {
        if self.has_syntax(language) {
            language
        } else {
            "Plain Text"
        }
    }

    /// `s` as HTML: one anchor `L<n>` before each line, highlighted with the
    /// grammar that `grammar_for` selects for `syntax` and the theme named
    /// `theme`, inside a `pre` whose background is the theme's (white where
    /// it sets none).
    pub fn highlighted(&self, s: &str, syntax: &str, theme: &str) -> (r: Result<String, HighlightError>)
        requires
            self.languages().contains("Plain Text"@),
            self.themes().contains(theme@),
        ensures
            result_view(r) == rendering(self.languages(), self.backgrounds(), s@, syntax@, theme@),
    {
        let c: (u8, u8, u8, u8) = match theme_background(&self.theme_set, theme) {
            Some(Some(c)) => (c.r, c.g, c.b, c.a),
            _ => (255, 255, 255, 255),
        };
        let grammar = self.grammar_for(syntax);
        let ghost g = grammar@;
        let mut renderer = match line_renderer(&self.syntax_set, &self.theme_set, grammar, theme) {
            Some(renderer) => renderer,
            None => return Err(HighlightError::Highlighting),
        };
        let mut out = String::new();
        out.append("<pre class=\"contents\" style=\"background-color:#");
        push_hex2(&mut out, c.0);
        push_hex2(&mut out, c.1);
        push_hex2(&mut out, c.2);
        out.append("\">");
        let lines = split_lines(s);
        let ghost all = lines@.map_values(|l: &str| l@);
        let ghost mut htmls: Seq<Seq<char>> = seq![];
        assert(all.take(0) =~= seq![]);
        assert(out@ =~= page_open(c) + anchored_lines(htmls));
        let mut i: usize = 0;
        while i < lines.len()
            invariant
                i <= lines.len(),
                all == lines@.map_values(|l: &str| l@),
                all == lines_of(s@),
                g == selected_grammar(self.languages(), syntax@),
                self.backgrounds().contains_key(theme@),
                c == background_or_white(self.backgrounds()[theme@]),
                renderer.grammar@ == g,
                renderer.theme@ == theme@,
                renderer.fed@ == all.take(i as int),
                line_htmls(g, theme@, c, all.take(i as int)) == Some(htmls),
                out@ == page_open(c) + anchored_lines(htmls),
            decreases lines.len() - i,
        {
            let ghost next = all.take(i + 1);
            assert(next.drop_last() =~= all.take(i as int));
            assert(next.last() == lines[i as int]@);
            let regions = match highlight_next(&mut renderer, lines[i]) {
                Some(regions) => regions,
                None => {
                    proof {
                        lemma_failure_persists(g, theme@, c, all, i + 1);
                    }
                    return Err(HighlightError::Highlighting);
                },
            };
            let html = match styled_html(&regions, c) {
                Some(html) => html,
                None => {
                    proof {
                        lemma_failure_persists(g, theme@, c, all, i + 1);
                    }
                    return Err(HighlightError::Highlighting);
                },
            };
            let n = i + 1;
            out.append("<a id=\"L");
            push_decimal(&mut out, n);
            out.append("\" href=\"#L");
            push_decimal(&mut out, n);
            out.append("\" class=\"line\"></a>");
            out.append(html.as_str());
            proof {
                let old_htmls = htmls;
                htmls = htmls.push(html@);
                assert(htmls.drop_last() =~= old_htmls);
                lemma_one_html_per_line(g, theme@, c, all.take(i as int));
                assert(out@ =~= page_open(c) + anchored_lines(htmls));
                assert(renderer.fed@ =~= all.take(n as int));
            }
            i = n;
        }
        assert(all.take(i as int) =~= all);
        assert(out@ + "</pre>"@ =~= page(c, htmls));
        out.append("</pre>");
        Ok(out)
    }
}

} // verus!
