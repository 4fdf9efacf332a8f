//! Compiled-in templates and their name substitution.
use vstd::prelude::*;
use vstd::string::StringExecFns;

verus! {

pub const CONTROL_HEAD: &'static str = "comment = 'A PostgreSQL extension'\ndefault_version = '0.0.0'\nmodule_pathname = '$libdir/";

pub const CONTROL_TAIL: &'static str = "'\nrelocatable = false\nsuperuser = false\n";

pub const MANIFEST_HEAD: &'static str = "[package]\nname = \"";

pub const MANIFEST_TAIL: &'static str = "\"\nversion = \"0.0.0\"\nedition = \"2018\"\n\n[lib]\ncrate-type = [\"cdylib\"]\n\n[features]\ndefault = [\"pg12\"]\npg10 = [\"pgx/pg10\"]\npg11 = [\"pgx/pg11\"]\npg12 = [\"pgx/pg12\"]\npg_test = []\n\n[dependencies]\npgx = \"0.0.14\"\npgx-macros = \"0.0.14\"\n\n[dev-dependencies]\npgx-tests = \"0.0.14\"\n\n[profile.dev]\npanic = \"unwind\"\n\n[profile.release]\npanic = \"unwind\"\nopt-level = 3\nlto = \"fat\"\ncodegen-units = 1\n";

pub const SOURCE_STUB_HEAD: &'static str = "use pgx::*;\n\npg_module_magic!();\n\n/// Greets the caller from inside the database.\npub fn hello() -> &'static str {\n    \"Hello, ";

pub const SOURCE_STUB_TAIL: &'static str = "\"\n}\n";

pub const TOOL_CONFIG: &'static str = "[build]\n# Postgres symbols won't be available until runtime\nrustflags = [\"-C\", \"link-args=-Wl,-undefined,dynamic_lookup\"]\n";

pub const IGNORE_RULES: &'static str = ".DS_Store\n.idea/\n/target\n*.iml\n**/*.rs.bk\nCargo.lock\nsql/*.generated.sql\n";

/// One of the texts that a new project is generated from.
#[derive(Clone, Copy, Debug, PartialEq, Eq, Structural)]
pub enum Template {
    /// The extension's control file; the project name is its module path.
    Control,
    /// The package manifest; the project name is the package name.
    Manifest,
    /// The build tool's configuration, written verbatim.
    ToolConfig,
    /// The version-control ignore rules, written verbatim.
    IgnoreRules,
    /// The library's first source file; the project name is in its greeting.
    SourceStub,
}

impl Template {
    /// Whether the template has a place for the project name.
    pub open spec fn has_name_slot(self) -> bool {
        match self {
            Template::ToolConfig | Template::IgnoreRules => false,
            _ => true,
        }
    }

    /// The text before the project name (the whole text of a verbatim template).
    pub open spec fn head(self) -> Seq<char> {
        match self {
            Template::Control => CONTROL_HEAD@,
            Template::Manifest => MANIFEST_HEAD@,
            Template::ToolConfig => TOOL_CONFIG@,
            Template::IgnoreRules => IGNORE_RULES@,
            Template::SourceStub => SOURCE_STUB_HEAD@,
        }
    }

    /// The text after the project name (empty for a verbatim template).
    pub open spec fn tail(self) -> Seq<char> {
        match self {
            Template::Control => CONTROL_TAIL@,
            Template::Manifest => MANIFEST_TAIL@,
            Template::SourceStub => SOURCE_STUB_TAIL@,
            _ => Seq::empty(),
        }
    }

    /// The text of the template with `name` put in its place, unescaped.
    pub open spec fn rendered(self, name: Seq<char>) -> Seq<char> {
        if self.has_name_slot() {
            self.head() + name + self.tail()
        } else {
            self.head()
        }
    }

    /// Whether rendering puts the project name into the text.
    pub fn takes_name(&self) -> (r: bool)
        ensures
            r == self.has_name_slot(),
    {
        match self {
            Template::ToolConfig | Template::IgnoreRules => false,
            _ => true,
        }
    }

    fn head_text(&self) -> (r: &'static str)
        ensures
            r@ == self.head(),
    {
        match self {
            Template::Control => CONTROL_HEAD,
            Template::Manifest => MANIFEST_HEAD,
            Template::ToolConfig => TOOL_CONFIG,
            Template::IgnoreRules => IGNORE_RULES,
            Template::SourceStub => SOURCE_STUB_HEAD,
        }
    }

    fn tail_text(&self) -> (r: &'static str)
        ensures
            r@ == self.tail(),
    {
        match self {
            Template::Control => CONTROL_TAIL,
            Template::Manifest => MANIFEST_TAIL,
            Template::SourceStub => SOURCE_STUB_TAIL,
            _ => {
                proof {
                    reveal_strlit("");
                }
                ""
            },
        }
    }

    /// Renders the template for a project called `name`: plain textual
    /// substitution, so characters that are special in the target format
    /// (quotes, newlines) come out as they went in.
    pub fn render(&self, name: &str) -> (r: String)
        ensures
            r@ == self.rendered(name@),
    {
        let mut text = String::from_str(self.head_text());
        if self.takes_name() {
            text.append(name);
            text.append(self.tail_text());
        }
        text
    }
}

} // verus!
