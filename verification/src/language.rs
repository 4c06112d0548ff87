//! Language selection: detecting a grammar from a file extension, manual
//! selection, whether a document counts as Markdown, and the default file
//! extension of each known language.

use vstd::prelude::*;

use crate::highlight::SyntaxHighlighter;
use crate::highlight::extension_known;
use crate::highlight::grammar_known;
use crate::str_eq;

verus! {

/// Whether a file extension spells "md", ASCII case-insensitively.
pub open spec fn is_md_extension(ext: Seq<char>) -> bool {
    &&& ext.len() == 2
    &&& (ext[0] == 'm' || ext[0] == 'M')
    &&& (ext[1] == 'd' || ext[1] == 'D')
}

/// Whether the document is Markdown: its selected grammar is named
/// "Markdown", or its file extension is "md" in any case.
pub fn is_markdown(current_syntax: Option<&str>, ext: Option<&str>) -> (r: bool)
    ensures
        r == ((current_syntax matches Some(s) && s@ == "Markdown"@) || (ext matches Some(e)
            && is_md_extension(e@))),
{
    let by_name = match current_syntax {
        Some(s) => str_eq(s, "Markdown"),
        None => false,
    };
    if by_name {
        return true;
    }
    match ext {
        Some(e) => {
            if e.unicode_len() != 2 {
                return false;
            }
            let c0 = e.get_char(0);
            let c1 = e.get_char(1);
            (c0 == 'm' || c0 == 'M') && (c1 == 'd' || c1 == 'D')
        },
        None => false,
    }
}

/// Resolves the document's grammar from its file extension, handing back the
/// grammar's name; `None` when the document has no extension or the extension
/// resolves to no bundled grammar. A name handed back always resolves.
pub fn auto_detect_language(hl: &SyntaxHighlighter, ext: Option<&str>) -> (r: Option<String>)
    ensures
        r is Some <==> (ext matches Some(e) && extension_known(e@)),
        r is Some ==> grammar_known(r->0@),
{
    match ext {
        None => None,
        Some(e) => hl.find_syntax_by_extension(e),
    }
}

/// A manual language choice: an empty name clears the selection.
pub fn set_manual_language(name: &str) -> (r: Option<String>)
    ensures
        name@.len() == 0 ==> r is None,
        name@.len() > 0 ==> (r matches Some(s) && s@ == name@),
{
    if name.unicode_len() == 0 {
        None
    } else {
        Some(String::from_str(name))
    }
}

/// Whether a file name being saved should have its extension swapped for the
/// selected language's default: only a generic "txt" name is renamed, and
/// only when the language's default extension is something else. Any other
/// extension the user chose is kept.
pub fn should_swap_extension(ext: Option<&str>, default_ext: &str) -> (r: bool)
    ensures
        r == (ext matches Some(e) && e@ == "txt"@ && default_ext@ != "txt"@),
{
    match ext {
        Some(e) => str_eq(e, "txt") && !str_eq(default_ext, "txt"),
        None => false,
    }
}

/// The file extension a language's documents are saved under by default.
pub open spec fn default_extension(name: Seq<char>) -> Seq<char> {
    if name == "Markdown"@ {
        "md"@
    } else if name == "Rust"@ {
        "rs"@
    } else if name == "Python"@ {
        "py"@
    } else if name == "JavaScript"@ {
        "js"@
    } else if name == "TypeScript"@ {
        "ts"@
    } else if name == "Java"@ {
        "java"@
    } else if name == "C"@ {
        "c"@
    } else if name == "C++"@ {
        "cpp"@
    } else if name == "C#"@ {
        "cs"@
    } else if name == "Go"@ {
        "go"@
    } else if name == "Ruby"@ {
        "rb"@
    } else if name == "PHP"@ {
        "php"@
    } else if name == "HTML"@ {
        "html"@
    } else if name == "CSS"@ {
        "css"@
    } else if name == "JSON"@ {
        "json"@
    } else if name == "YAML"@ {
        "yaml"@
    } else if name == "TOML"@ {
        "toml"@
    } else if name == "Shell Script"@ {
        "sh"@
    } else if name == "SQL"@ {
        "sql"@
    } else if name == "Swift"@ {
        "swift"@
    } else if name == "Objective-C"@ {
        "m"@
    } else if name == "Kotlin"@ {
        "kt"@
    } else {
        "txt"@
    }
}

/// The default file extension for the selected language: "txt" when no
/// language is selected or the language is not in the table.
pub fn get_default_extension(current_syntax: Option<&str>) -> (r: &'static str)
    ensures
        current_syntax matches Some(s) ==> r@ == default_extension(s@),
        current_syntax is None ==> r@ == "txt"@,
{
    match current_syntax {
        None => "txt",
        Some(s) => {
            if str_eq(s, "Markdown") {
                "md"
            } else if str_eq(s, "Rust") {
                "rs"
            } else if str_eq(s, "Python") {
                "py"
            } else if str_eq(s, "JavaScript") {
                "js"
            } else if str_eq(s, "TypeScript") {
                "ts"
            } else if str_eq(s, "Java") {
                "java"
            } else if str_eq(s, "C") {
                "c"
            } else if str_eq(s, "C++") {
                "cpp"
            } else if str_eq(s, "C#") {
                "cs"
            } else if str_eq(s, "Go") {
                "go"
            } else if str_eq(s, "Ruby") {
                "rb"
            } else if str_eq(s, "PHP") {
                "php"
            } else if str_eq(s, "HTML") {
                "html"
            } else if str_eq(s, "CSS") {
                "css"
            } else if str_eq(s, "JSON") {
                "json"
            } else if str_eq(s, "YAML") {
                "yaml"
            } else if str_eq(s, "TOML") {
                "toml"
            } else if str_eq(s, "Shell Script") {
                "sh"
            } else if str_eq(s, "SQL") {
                "sql"
            } else if str_eq(s, "Swift") {
                "swift"
            } else if str_eq(s, "Objective-C") {
                "m"
            } else if str_eq(s, "Kotlin") {
                "kt"
            } else {
                "txt"
            }
        },
    }
}

} // verus!
