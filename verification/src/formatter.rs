//! Choice of the external formatting commands for a file, by extension.

use vstd::prelude::*;
use crate::text::{lowercase_seq, lower_equals, str_equals};

verus! {

/// The file kinds that have formatting commands.
#[derive(Clone, Copy, Debug, PartialEq, Eq, Hash, Structural)]
pub enum FileExtension {
    Py,
    Pyi,
    Toml,
    JS,
    Jsx,
    Ts,
    Tsx,
    Css,
    Scss,
    Json,
    Md,
    Yml,
    Yaml,
    Rs,
}

/// The text of a file kind: its extension with the leading dot.
pub open spec fn spec_extension_text(e: FileExtension) -> Seq<char> {
    match e {
        FileExtension::Py => ".py"@,
        FileExtension::Pyi => ".pyi"@,
        FileExtension::Toml => ".toml"@,
        FileExtension::JS => ".js"@,
        FileExtension::Jsx => ".jsx"@,
        FileExtension::Ts => ".ts"@,
        FileExtension::Tsx => ".tsx"@,
        FileExtension::Css => ".css"@,
        FileExtension::Scss => ".scss"@,
        FileExtension::Json => ".json"@,
        FileExtension::Md => ".md"@,
        FileExtension::Yml => ".yml"@,
        FileExtension::Yaml => ".yaml"@,
        FileExtension::Rs => ".rs"@,
    }
}

/// The file kind whose text is exactly `s`, if any.
pub open spec fn spec_parse_extension(s: Seq<char>) -> Option<FileExtension> {
    if s == ".py"@ {
        Some(FileExtension::Py)
    } else if s == ".pyi"@ {
        Some(FileExtension::Pyi)
    } else if s == ".toml"@ {
        Some(FileExtension::Toml)
    } else if s == ".js"@ {
        Some(FileExtension::JS)
    } else if s == ".jsx"@ {
        Some(FileExtension::Jsx)
    } else if s == ".ts"@ {
        Some(FileExtension::Ts)
    } else if s == ".tsx"@ {
        Some(FileExtension::Tsx)
    } else if s == ".css"@ {
        Some(FileExtension::Css)
    } else if s == ".scss"@ {
        Some(FileExtension::Scss)
    } else if s == ".json"@ {
        Some(FileExtension::Json)
    } else if s == ".md"@ {
        Some(FileExtension::Md)
    } else if s == ".yml"@ {
        Some(FileExtension::Yml)
    } else if s == ".yaml"@ {
        Some(FileExtension::Yaml)
    } else if s == ".rs"@ {
        Some(FileExtension::Rs)
    } else {
        None
    }
}

/// A program and the arguments it is started with.
#[derive(Clone)]
pub struct CmdRepr {
    pub program: &'static str,
    pub args: Vec<&'static str>,
}

impl View for CmdRepr {
    type V = (Seq<char>, Seq<Seq<char>>);

    open spec fn view(&self) -> (Seq<char>, Seq<Seq<char>>) {
        (self.program@, self.args@.map_values(|a: &'static str| a@))
    }
}

/// The view of a list of commands.
pub open spec fn commands_view(v: Seq<CmdRepr>) -> Seq<(Seq<char>, Seq<Seq<char>>)> {
    v.map_values(|c: CmdRepr| c@)
}

/// The commands that format a file of kind `e`, in the order they run.
pub open spec fn spec_commands(e: FileExtension) -> Seq<(Seq<char>, Seq<Seq<char>>)> {
    match e {
        FileExtension::Py | FileExtension::Pyi => seq![
            ("rye"@, seq!["run"@, "ruff"@, "check"@, "--fix"@]),
            ("rye"@, seq!["run"@, "ruff"@, "format"@]),
        ],
        FileExtension::JS | FileExtension::Jsx | FileExtension::Ts | FileExtension::Tsx
        | FileExtension::Css | FileExtension::Scss | FileExtension::Json | FileExtension::Md
        | FileExtension::Yml | FileExtension::Yaml => seq![
            ("pnpm"@, seq!["prettier"@, "-w"@]),
        ],
        FileExtension::Rs => seq![
            ("rustfmt"@, seq!["run"@, "ruff"@, "check"@, "--fix"@]),
        ],
        FileExtension::Toml => seq![
            ("taplo"@, seq!["format"@]),
        ],
    }
}

impl FileExtension {
    /// The text of this file kind.
    pub fn as_str(self) -> (r: &'static str)
        ensures
            r@ == spec_extension_text(self),
    {
        match self {
            FileExtension::Py => ".py",
            FileExtension::Pyi => ".pyi",
            FileExtension::Toml => ".toml",
            FileExtension::JS => ".js",
            FileExtension::Jsx => ".jsx",
            FileExtension::Ts => ".ts",
            FileExtension::Tsx => ".tsx",
            FileExtension::Css => ".css",
            FileExtension::Scss => ".scss",
            FileExtension::Json => ".json",
            FileExtension::Md => ".md",
            FileExtension::Yml => ".yml",
            FileExtension::Yaml => ".yaml",
            FileExtension::Rs => ".rs",
        }
    }

    /// The file kind whose text is exactly `s`; `None` when there is none.
    pub fn parse(s: &str) -> (r: Option<FileExtension>)
        ensures
            r == spec_parse_extension(s@),
    {
        if str_equals(s, ".py") {
            Some(FileExtension::Py)
        } else if str_equals(s, ".pyi") {
            Some(FileExtension::Pyi)
        } else if str_equals(s, ".toml") {
            Some(FileExtension::Toml)
        } else if str_equals(s, ".js") {
            Some(FileExtension::JS)
        } else if str_equals(s, ".jsx") {
            Some(FileExtension::Jsx)
        } else if str_equals(s, ".ts") {
            Some(FileExtension::Ts)
        } else if str_equals(s, ".tsx") {
            Some(FileExtension::Tsx)
        } else if str_equals(s, ".css") {
            Some(FileExtension::Css)
        } else if str_equals(s, ".scss") {
            Some(FileExtension::Scss)
        } else if str_equals(s, ".json") {
            Some(FileExtension::Json)
        } else if str_equals(s, ".md") {
            Some(FileExtension::Md)
        } else if str_equals(s, ".yml") {
            Some(FileExtension::Yml)
        } else if str_equals(s, ".yaml") {
            Some(FileExtension::Yaml)
        } else if str_equals(s, ".rs") {
            Some(FileExtension::Rs)
        } else {
            None
        }
    }

    /// The commands that format a file of this kind.
    pub fn get_cmd_strings(self) -> (r: Vec<CmdRepr>)
        ensures
            commands_view(r@) == spec_commands(self),
    {
        match self {
            FileExtension::Py | FileExtension::Pyi => {
                let check = vec!["run", "ruff", "check", "--fix"];
                let format = vec!["run", "ruff", "format"];
                assert(check@.map_values(|a: &'static str| a@) =~= seq!["run"@, "ruff"@, "check"@, "--fix"@]);
                assert(format@.map_values(|a: &'static str| a@) =~= seq!["run"@, "ruff"@, "format"@]);
                let r = vec![CmdRepr { program: "rye", args: check }, CmdRepr { program: "rye", args: format }];
                assert(commands_view(r@) =~= spec_commands(self));
                r
            },
            FileExtension::JS | FileExtension::Jsx | FileExtension::Ts | FileExtension::Tsx
            | FileExtension::Css | FileExtension::Scss | FileExtension::Json | FileExtension::Md
            | FileExtension::Yml | FileExtension::Yaml => {
                let prettier = vec!["prettier", "-w"];
                assert(prettier@.map_values(|a: &'static str| a@) =~= seq!["prettier"@, "-w"@]);
                let r = vec![CmdRepr { program: "pnpm", args: prettier }];
                assert(commands_view(r@) =~= spec_commands(self));
                r
            },
            FileExtension::Rs => {
                let check = vec!["run", "ruff", "check", "--fix"];
                assert(check@.map_values(|a: &'static str| a@) =~= seq!["run"@, "ruff"@, "check"@, "--fix"@]);
                let r = vec![CmdRepr { program: "rustfmt", args: check }];
                assert(commands_view(r@) =~= spec_commands(self));
                r
            },
            FileExtension::Toml => {
                let format = vec!["format"];
                assert(format@.map_values(|a: &'static str| a@) =~= seq!["format"@]);
                let r = vec![CmdRepr { program: "taplo", args: format }];
                assert(commands_view(r@) =~= spec_commands(self));
                r
            },
        }
    }
}

/// The file kind whose text, ASCII case ignored, is `s`, if any.
pub fn parse_ignoring_case(s: &str) -> (r: Option<FileExtension>)
    ensures
        r == spec_parse_extension(lowercase_seq(s@)),
{
    if lower_equals(s, ".py") {
        Some(FileExtension::Py)
    } else if lower_equals(s, ".pyi") {
        Some(FileExtension::Pyi)
    } else if lower_equals(s, ".toml") {
        Some(FileExtension::Toml)
    } else if lower_equals(s, ".js") {
        Some(FileExtension::JS)
    } else if lower_equals(s, ".jsx") {
        Some(FileExtension::Jsx)
    } else if lower_equals(s, ".ts") {
        Some(FileExtension::Ts)
    } else if lower_equals(s, ".tsx") {
        Some(FileExtension::Tsx)
    } else if lower_equals(s, ".css") {
        Some(FileExtension::Css)
    } else if lower_equals(s, ".scss") {
        Some(FileExtension::Scss)
    } else if lower_equals(s, ".json") {
        Some(FileExtension::Json)
    } else if lower_equals(s, ".md") {
        Some(FileExtension::Md)
    } else if lower_equals(s, ".yml") {
        Some(FileExtension::Yml)
    } else if lower_equals(s, ".yaml") {
        Some(FileExtension::Yaml)
    } else if lower_equals(s, ".rs") {
        Some(FileExtension::Rs)
    } else {
        None
    }
}

/// The commands that format a file whose extension is `extension`: the
/// extension is lower-cased and read as the text of a file kind.
/// `None` when it names no file kind.
pub fn commands_for_extension(extension: &str) -> (r: Option<Vec<CmdRepr>>)
    ensures
        match spec_parse_extension(lowercase_seq(extension@)) {
            Some(e) => r is Some && commands_view(r->0@) == spec_commands(e),
            None => r is None,
        },
{
    match parse_ignoring_case(extension) {
        Some(e) => Some(e.get_cmd_strings()),
        None => None,
    }
}

/// Reading the text of a file kind gives that file kind back.
pub proof fn law_parse_of_text(e: FileExtension)
    ensures
        spec_parse_extension(spec_extension_text(e)) == Some(e),
{
    reveal_strlit(".py");
    reveal_strlit(".pyi");
    reveal_strlit(".toml");
    reveal_strlit(".js");
    reveal_strlit(".jsx");
    reveal_strlit(".ts");
    reveal_strlit(".tsx");
    reveal_strlit(".css");
    reveal_strlit(".scss");
    reveal_strlit(".json");
    reveal_strlit(".md");
    reveal_strlit(".yml");
    reveal_strlit(".yaml");
    reveal_strlit(".rs");
    assert(".py"@.len() == 3 && ".py"@[1] == 'p' && ".py"@[2] == 'y');
    assert(".pyi"@.len() == 4 && ".pyi"@[1] == 'p' && ".pyi"@[2] == 'y');
    assert(".toml"@.len() == 5 && ".toml"@[1] == 't' && ".toml"@[2] == 'o');
    assert(".js"@.len() == 3 && ".js"@[1] == 'j' && ".js"@[2] == 's');
    assert(".jsx"@.len() == 4 && ".jsx"@[1] == 'j' && ".jsx"@[2] == 's');
    assert(".ts"@.len() == 3 && ".ts"@[1] == 't' && ".ts"@[2] == 's');
    assert(".tsx"@.len() == 4 && ".tsx"@[1] == 't' && ".tsx"@[2] == 's');
    assert(".css"@.len() == 4 && ".css"@[1] == 'c' && ".css"@[2] == 's');
    assert(".scss"@.len() == 5 && ".scss"@[1] == 's' && ".scss"@[2] == 'c');
    assert(".json"@.len() == 5 && ".json"@[1] == 'j' && ".json"@[2] == 's');
    assert(".md"@.len() == 3 && ".md"@[1] == 'm' && ".md"@[2] == 'd');
    assert(".yml"@.len() == 4 && ".yml"@[1] == 'y' && ".yml"@[2] == 'm');
    assert(".yaml"@.len() == 5 && ".yaml"@[1] == 'y' && ".yaml"@[2] == 'a');
    assert(".rs"@.len() == 3 && ".rs"@[1] == 'r' && ".rs"@[2] == 's');
}

/// A text is read as a file kind only when it is that file kind's text.
pub proof fn law_text_of_parse(s: Seq<char>)
    ensures
        spec_parse_extension(s) matches Some(e) ==> s == spec_extension_text(e),
{
}

/// The commands that format a file of kind `e` (the literal table).
proof fn lemma_commands_table(e: FileExtension)
    ensures
        (e == FileExtension::Py || e == FileExtension::Pyi) ==> spec_commands(e) == seq![
            ("rye"@, seq!["run"@, "ruff"@, "check"@, "--fix"@]),
            ("rye"@, seq!["run"@, "ruff"@, "format"@]),
        ],
        (e == FileExtension::JS || e == FileExtension::Jsx || e == FileExtension::Ts || e == FileExtension::Tsx
            || e == FileExtension::Css || e == FileExtension::Scss || e == FileExtension::Json || e == FileExtension::Md
            || e == FileExtension::Yml || e == FileExtension::Yaml) ==> spec_commands(e) == seq![
            ("pnpm"@, seq!["prettier"@, "-w"@]),
        ],
        e == FileExtension::Rs ==> spec_commands(e) == seq![("rustfmt"@, seq!["run"@, "ruff"@, "check"@, "--fix"@])],
        e == FileExtension::Toml ==> spec_commands(e) == seq![("taplo"@, seq!["format"@])],
{
}

/// Every web file kind (JavaScript, JSX, TypeScript, TSX, CSS, SCSS, JSON,
/// Markdown, YAML under both extensions) is formatted by the one command
/// `pnpm prettier -w`.
pub proof fn law_web_files_use_prettier(e: FileExtension)
    requires
        e == FileExtension::JS || e == FileExtension::Jsx || e == FileExtension::Ts || e == FileExtension::Tsx
            || e == FileExtension::Css || e == FileExtension::Scss || e == FileExtension::Json || e == FileExtension::Md
            || e == FileExtension::Yml || e == FileExtension::Yaml,
    ensures
        spec_commands(e).len() == 1,
        spec_commands(e)[0].0 == "pnpm"@,
        spec_commands(e)[0].1 == seq!["prettier"@, "-w"@],
{
    lemma_commands_table(e);
}

/// Python sources and stubs are formatted alike: first `rye run ruff check
/// --fix`, then `rye run ruff format`.
pub proof fn law_python_files_use_ruff(e: FileExtension)
    requires
        e == FileExtension::Py || e == FileExtension::Pyi,
    ensures
        spec_commands(e).len() == 2,
        spec_commands(e)[0] == ("rye"@, seq!["run"@, "ruff"@, "check"@, "--fix"@]),
        spec_commands(e)[1] == ("rye"@, seq!["run"@, "ruff"@, "format"@]),
{
    lemma_commands_table(e);
}

/// TOML files are formatted by `taplo format`, Rust files by `rustfmt` with
/// the arguments `run ruff check --fix`.
pub proof fn law_toml_and_rust_commands()
    ensures
        spec_commands(FileExtension::Toml) == seq![("taplo"@, seq!["format"@])],
        spec_commands(FileExtension::Rs) == seq![("rustfmt"@, seq!["run"@, "ruff"@, "check"@, "--fix"@])],
{
    lemma_commands_table(FileExtension::Toml);
    lemma_commands_table(FileExtension::Rs);
}

/// Every file kind has at least one formatting command, and the two YAML
/// extensions get the same commands, as do the two Python ones.
pub proof fn law_every_kind_is_formatted(e: FileExtension)
    ensures
        spec_commands(e).len() >= 1,
        spec_commands(FileExtension::Yml) == spec_commands(FileExtension::Yaml),
        spec_commands(FileExtension::Py) == spec_commands(FileExtension::Pyi),
{
    lemma_commands_table(e);
    lemma_commands_table(FileExtension::Yml);
    lemma_commands_table(FileExtension::Yaml);
    lemma_commands_table(FileExtension::Py);
    lemma_commands_table(FileExtension::Pyi);
}

} // verus!
