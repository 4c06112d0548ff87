use memochan::highlight::{Rgb, StyledSpan, SyntaxHighlighter};

fn concat(spans: &[StyledSpan]) -> String {
    let mut s = String::new();
    for sp in spans {
        s.push_str(&sp.text);
    }
    s
}

const DARK_DEFAULT: Rgb = Rgb { r: 0xd4, g: 0xd4, b: 0xd4 };
const LIGHT_DEFAULT: Rgb = Rgb { r: 0x33, g: 0x33, b: 0x33 };

#[test]
fn no_grammar_yields_one_default_span() {
    let hl = SyntaxHighlighter::new();
    let text = "fn main() {}\nlet x = 1;";
    let spans = hl.highlight(text, None, true);
    assert_eq!(spans.len(), 1);
    assert_eq!(spans[0].text, text);
    assert_eq!(spans[0].color, DARK_DEFAULT);
    assert!(!spans[0].bold);
    assert!(!spans[0].underline);
}

#[test]
fn unknown_grammar_falls_back_to_one_default_span() {
    let hl = SyntaxHighlighter::new();
    let text = "some text\nover two lines";
    let spans = hl.highlight(text, Some("NoSuchGrammarAnywhere"), true);
    assert_eq!(spans.len(), 1);
    assert_eq!(spans[0].text, text);
    assert_eq!(spans[0].color, DARK_DEFAULT);
    let spans = hl.highlight(text, Some("NoSuchGrammarAnywhere"), false);
    assert_eq!(spans.len(), 1);
    assert_eq!(spans[0].color, LIGHT_DEFAULT);
    assert!(!spans[0].bold && !spans[0].underline);
}

#[test]
fn round_trip_without_grammar() {
    let hl = SyntaxHighlighter::new();
    for text in ["", "one line", "a\nb\nc\n", "trailing\n\n\n", "é ü 語\n"] {
        assert_eq!(concat(&hl.highlight(text, None, true)), text);
        assert_eq!(concat(&hl.highlight(text, None, false)), text);
    }
}

#[test]
fn round_trip_with_rust_grammar() {
    let hl = SyntaxHighlighter::new();
    let text = "pub struct Wow { hi: u64 }\nfn blah() -> u64 { 42 }\n";
    let spans = hl.highlight(text, Some("Rust"), true);
    assert_eq!(concat(&spans), text);
    // a real grammar splits the text into more than one styled span
    assert!(spans.len() > 1);
}

#[test]
fn round_trip_with_several_grammars_and_texts() {
    let hl = SyntaxHighlighter::new();
    let texts = [
        "",
        "# Title\n\nSome *markdown* text.\n",
        "def f(x):\n    return x + 1\n",
        "no trailing newline",
        "{\"k\": [1, 2, 3]}",
    ];
    for grammar in ["Markdown", "Python", "JSON", "Rust", "Plain Text"] {
        for text in texts {
            let spans = hl.highlight(text, Some(grammar), true);
            assert_eq!(concat(&spans), text, "grammar {grammar}");
        }
    }
}

#[test]
fn empty_text_with_known_grammar_has_no_content() {
    let hl = SyntaxHighlighter::new();
    let spans = hl.highlight("", Some("Rust"), true);
    assert_eq!(concat(&spans), "");
}

#[test]
fn emit_line_translates_covering_tokens() {
    let hl = SyntaxHighlighter::new();
    let mut spans = Vec::new();
    let line = "ab cd".to_string();
    let toks = vec![
        ("ab ".to_string(), 1u8, 2u8, 3u8, 1u8),
        ("cd".to_string(), 4u8, 5u8, 6u8, 2u8),
    ];
    hl.emit_line(&line, Some(toks), true, &mut spans);
    assert_eq!(spans.len(), 2);
    assert_eq!(spans[0].text, "ab ");
    assert_eq!(spans[0].color, Rgb { r: 1, g: 2, b: 3 });
    assert!(spans[0].bold && !spans[0].underline);
    assert_eq!(spans[1].text, "cd");
    assert!(!spans[1].bold && spans[1].underline);
    // the italic bit (4) carries no flag
    let mut spans = Vec::new();
    hl.emit_line(&line, Some(vec![("ab cd".to_string(), 9u8, 9u8, 9u8, 4u8)]), true, &mut spans);
    assert!(!spans[0].bold && !spans[0].underline);
}

#[test]
fn emit_line_falls_back_when_tokens_do_not_cover() {
    let hl = SyntaxHighlighter::new();
    let line = "ab cd".to_string();
    let mut spans = Vec::new();
    hl.emit_line(&line, Some(vec![("ab".to_string(), 1u8, 2u8, 3u8, 1u8)]), true, &mut spans);
    assert_eq!(spans.len(), 1);
    assert_eq!(spans[0].text, "ab cd");
    assert_eq!(spans[0].color, DARK_DEFAULT);
    assert!(!spans[0].bold && !spans[0].underline);
    let mut spans = Vec::new();
    hl.emit_line(&line, None, false, &mut spans);
    assert_eq!(spans.len(), 1);
    assert_eq!(spans[0].text, "ab cd");
    assert_eq!(spans[0].color, LIGHT_DEFAULT);
}

#[test]
fn grammar_lookup_by_name() {
    let hl = SyntaxHighlighter::new();
    assert!(hl.find_syntax_by_name("Rust").is_some());
    assert!(hl.find_syntax_by_name("Markdown").is_some());
    assert!(hl.find_syntax_by_name("NoSuchGrammarAnywhere").is_none());
    assert!(hl.find_syntax_by_name("").is_none());
}

#[test]
fn grammar_lookup_by_extension() {
    let hl = SyntaxHighlighter::new();
    assert_eq!(hl.find_syntax_by_extension("rs").as_deref(), Some("Rust"));
    assert_eq!(hl.find_syntax_by_extension("md").as_deref(), Some("Markdown"));
    assert!(hl.find_syntax_by_extension("nosuchextension").is_none());
}

#[test]
fn all_syntaxes_lists_known_grammars() {
    let hl = SyntaxHighlighter::new();
    let names = hl.all_syntaxes();
    assert!(names.iter().any(|n| n == "Rust"));
    assert!(names.iter().any(|n| n == "Markdown"));
    assert!(!hl.syntax_set().syntaxes().is_empty());
}
