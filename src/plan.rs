//! Per-invocation plans: which processes run, and which uniquely named
//! temporary artifacts a compiled language needs.
use vstd::prelude::*;
use crate::language::{compiled, Language};
use crate::text::{joined, joined3, replace_all, replaced, swap_char, swapped};

verus! {

/// A process to launch and wait for: program, arguments, and the working
/// directory when it is not the caller's own.
pub struct Command {
    pub program: String,
    pub args: Vec<String>,
    pub dir: Option<String>,
}

/// The mathematical value of a [`Command`].
pub struct CommandView {
    pub program: Seq<char>,
    pub args: Seq<Seq<char>>,
    pub dir: Option<Seq<char>>,
}

/// The characters of each string, in order.
pub open spec fn strings_view(v: Seq<String>) -> Seq<Seq<char>> {
    v.map_values(|s: String| s@)
}

impl View for Command {
    type V = CommandView;

    open spec fn view(&self) -> CommandView {
        CommandView {
            program: self.program@,
            args: strings_view(self.args@),
            dir: match self.dir {
                Some(d) => Some(d@),
                None => None,
            },
        }
    }
}

fn copy_strings(v: &Vec<String>) -> (r: Vec<String>)
    ensures
        strings_view(r@) == strings_view(v@),
{
    let mut r: Vec<String> = Vec::new();
    let mut i: usize = 0;
    while i < v.len()
        invariant
            i <= v.len(),
            r@ == v@.subrange(0, i as int),
        decreases v.len() - i,
    {
        r.push(v[i].clone());
        i += 1;
        assert(r@ =~= v@.subrange(0, i as int));
    }
    assert(r@ =~= v@);
    r
}

impl Command {
    /// A copy of this command.
    pub fn duplicate(&self) -> (r: Command)
        ensures
            r@ == self@,
    {
        let dir = match &self.dir {
            Some(d) => Some(d.clone()),
            None => None,
        };
        Command { program: self.program.clone(), args: copy_strings(&self.args), dir }
    }
}

/// The compile step of a compiled language: the source file to write, what
/// to write into it, the compiler invocation, and the artifact it produces.
pub struct Build {
    pub source: String,
    pub contents: String,
    pub compile: Command,
    pub artifact: String,
}

/// The mathematical value of a [`Build`].
pub struct BuildView {
    pub source: Seq<char>,
    pub contents: Seq<char>,
    pub compile: CommandView,
    pub artifact: Seq<char>,
}

impl View for Build {
    type V = BuildView;

    open spec fn view(&self) -> BuildView {
        BuildView {
            source: self.source@,
            contents: self.contents@,
            compile: self.compile@,
            artifact: self.artifact@,
        }
    }
}

/// Everything one invocation does: an optional compile step, then one run.
pub struct Plan {
    pub build: Option<Build>,
    pub run: Command,
}

/// The mathematical value of a [`Plan`].
pub struct PlanView {
    pub build: Option<BuildView>,
    pub run: CommandView,
}

impl View for Plan {
    type V = PlanView;

    open spec fn view(&self) -> PlanView {
        PlanView {
            build: match self.build {
                Some(b) => Some(b@),
                None => None,
            },
            run: self.run@,
        }
    }
}

/// Whether `s` is a hyphenated lowercase UUID: 36 characters, hyphens at
/// positions 8, 13, 18 and 23, lowercase hexadecimal digits elsewhere.
pub open spec fn is_uuid_text(s: Seq<char>) -> bool {
    &&& s.len() == 36
    &&& forall|i: int|
        0 <= i < 36 ==> if i == 8 || i == 13 || i == 18 || i == 23 {
            s[i] == '-'
        } else {
            ('0' <= #[trigger] s[i] <= '9') || ('a' <= s[i] <= 'f')
        }
}

/// Relies on `uuid::Uuid::new_v4` and the `Display` of `Uuid`, which writes
/// the hyphenated lowercase form. The value is random: only its shape is known.
#[verifier::external_body]
pub(crate) fn fresh_id() -> (r: String)
    ensures
        is_uuid_text(r@),
{
    uuid::Uuid::new_v4().to_string()
}

/// The name the Java class is given for the invocation with identifier `id`.
pub open spec fn java_class(id: Seq<char>) -> Seq<char> {
    "Main_"@ + swapped(id, '-', '_')
}

/// The command that runs `program` with `args` in `dir`.
pub open spec fn cmd(program: Seq<char>, args: Seq<Seq<char>>, dir: Option<Seq<char>>) -> CommandView {
    CommandView { program, args, dir }
}

/// The plan for running `code` in language `l`, with artifacts named after `id`.
pub open spec fn plan_of(l: Language, code: Seq<char>, id: Seq<char>) -> PlanView {
    match l {
        Language::Python => PlanView {
            build: None,
            run: cmd("python3"@, seq!["-c"@, code], None),
        },
        Language::JavaScript => PlanView {
            build: None,
            run: cmd("node"@, seq!["-e"@, code], None),
        },
        Language::Rust => {
            let source = "/tmp/rust_"@ + id + ".rs"@;
            let artifact = "/tmp/rust_"@ + id;
            PlanView {
                build: Some(
                    BuildView {
                        source,
                        contents: code,
                        compile: cmd("rustc"@, seq![source, "-o"@, artifact], None),
                        artifact,
                    },
                ),
                run: cmd(artifact, seq![], None),
            }
        },
        Language::Cpp => {
            let source = "/tmp/cpp_"@ + id + ".cpp"@;
            let artifact = "/tmp/cpp_"@ + id;
            PlanView {
                build: Some(
                    BuildView {
                        source,
                        contents: code,
                        compile: cmd("g++"@, seq![source, "-o"@, artifact], None),
                        artifact,
                    },
                ),
                run: cmd(artifact, seq![], None),
            }
        },
        Language::Java => {
            let class = java_class(id);
            let source = "/tmp/"@ + class + ".java"@;
            PlanView {
                build: Some(
                    BuildView {
                        source,
                        contents: replaced(code, "class Main"@, "class "@ + class),
                        compile: cmd("javac"@, seq![source], Some("/tmp"@)),
                        artifact: "/tmp/"@ + class + ".class"@,
                    },
                ),
                run: cmd("java"@, seq![class], Some("/tmp"@)),
            }
        },
    }
}

/// The temporary files a plan creates.
pub open spec fn artifacts(p: PlanView) -> Set<Seq<char>> {
    match p.build {
        Some(b) => set![b.source, b.artifact],
        None => Set::empty(),
    }
}

/// An owned copy of `s`.
fn owned(s: &str) -> (r: String)
    ensures
        r@ == s@,
{
    s.to_owned()
}

fn compiled_plan(source: String, contents: String, compiler: &str, artifact: String) -> (r: Plan)
    ensures
        r@ == (PlanView {
            build: Some(
                BuildView {
                    source: source@,
                    contents: contents@,
                    compile: cmd(compiler@, seq![source@, "-o"@, artifact@], None),
                    artifact: artifact@,
                },
            ),
            run: cmd(artifact@, seq![], None),
        }),
{
    let args = vec![source.clone(), owned("-o"), artifact.clone()];
    let run = Command { program: artifact.clone(), args: Vec::new(), dir: None };
    let compile = Command { program: owned(compiler), args, dir: None };
    let r = Plan { build: Some(Build { source, contents, compile, artifact }), run };
    assert(r@.build->0.compile.args =~= seq![source@, "-o"@, artifact@]);
    assert(r@.run.args =~= Seq::<Seq<char>>::empty());
    r
}

/// The plan for running `code` in `language`, with artifacts named after `id`.
pub fn make_plan(language: Language, code: &str, id: &str) -> (r: Plan)
    ensures
        r@ == plan_of(language, code@, id@),
{
    match language {
        Language::Python => {
            let r = Plan {
                build: None,
                run: Command { program: owned("python3"), args: vec![owned("-c"), owned(code)], dir: None },
            };
            assert(r@.run.args =~= seq!["-c"@, code@]);
            r
        },
        Language::JavaScript => {
            let r = Plan {
                build: None,
                run: Command { program: owned("node"), args: vec![owned("-e"), owned(code)], dir: None },
            };
            assert(r@.run.args =~= seq!["-e"@, code@]);
            r
        },
        Language::Rust => compiled_plan(
            joined3("/tmp/rust_", id, ".rs"),
            owned(code),
            "rustc",
            joined("/tmp/rust_", id),
        ),
        Language::Cpp => compiled_plan(
            joined3("/tmp/cpp_", id, ".cpp"),
            owned(code),
            "g++",
            joined("/tmp/cpp_", id),
        ),
        Language::Java => {
            let underscored = swap_char(id, '-', '_');
            let class = joined("Main_", underscored.as_str());
            let source = joined3("/tmp/", class.as_str(), ".java");
            let artifact = joined3("/tmp/", class.as_str(), ".class");
            let declaration = joined("class ", class.as_str());
            proof {
                reveal_strlit("class Main");
            }
            let contents = replace_all(code, "class Main", declaration.as_str());
            let compile = Command {
                program: owned("javac"),
                args: vec![source.clone()],
                dir: Some(owned("/tmp")),
            };
            let run = Command {
                program: owned("java"),
                args: vec![class.clone()],
                dir: Some(owned("/tmp")),
            };
            let r = Plan { build: Some(Build { source, contents, compile, artifact }), run };
            assert(r@.build->0.compile.args =~= seq![r@.build->0.source]);
            assert(r@.run.args =~= seq![class@]);
            r
        },
    }
}

proof fn lemma_swapped_injective(a: Seq<char>, b: Seq<char>)
    requires
        is_uuid_text(a),
        is_uuid_text(b),
        swapped(a, '-', '_') == swapped(b, '-', '_'),
    ensures
        a == b,
{
    assert forall|i: int| 0 <= i < a.len() implies a[i] == b[i] by {
        let x = a[i];
        let y = b[i];
        assert(('0' <= x <= '9') || ('a' <= x <= 'f') || x == '-');
        assert(('0' <= y <= '9') || ('a' <= y <= 'f') || y == '-');
        assert(x != '_' && y != '_');
        let sx = if x == '-' { '_' } else { x };
        let sy = if y == '-' { '_' } else { y };
        assert(swapped(a, '-', '_')[i] == sx);
        assert(swapped(b, '-', '_')[i] == sy);
    }
    assert(a =~= b);
}

/// Where the identifier sits in each artifact path, and what tells the
/// languages apart: Rust and Java paths hold it at positions 10 to 46
/// (Java with hyphens turned into underscores), C++ paths at 9 to 45.
proof fn lemma_artifact_shape(l: Language, code: Seq<char>, id: Seq<char>, a: Seq<char>)
    requires
        is_uuid_text(id),
        artifacts(plan_of(l, code, id)).contains(a),
    ensures
        l == Language::Rust ==> (a.len() == 49 || a.len() == 46) && a[5] == 'r' && a.subrange(10, 46) == id,
        l == Language::Cpp ==> (a.len() == 49 || a.len() == 45) && a[5] == 'c' && a.subrange(9, 45) == id,
        l == Language::Java ==> (a.len() == 51 || a.len() == 52) && a.subrange(10, 46) == swapped(id, '-', '_'),
        compiled(l),
{
    reveal_strlit("/tmp/rust_");
    reveal_strlit(".rs");
    reveal_strlit("/tmp/cpp_");
    reveal_strlit(".cpp");
    reveal_strlit("/tmp/");
    reveal_strlit("Main_");
    reveal_strlit(".java");
    reveal_strlit(".class");
    match l {
        Language::Rust => {
            assert(("/tmp/rust_"@ + id + ".rs"@).subrange(10, 46) =~= id);
            assert(("/tmp/rust_"@ + id).subrange(10, 46) =~= id);
        },
        Language::Cpp => {
            assert(("/tmp/cpp_"@ + id + ".cpp"@).subrange(9, 45) =~= id);
            assert(("/tmp/cpp_"@ + id).subrange(9, 45) =~= id);
        },
        Language::Java => {
            let class = java_class(id);
            assert(("/tmp/"@ + class + ".java"@).subrange(10, 46) =~= swapped(id, '-', '_'));
            assert(("/tmp/"@ + class + ".class"@).subrange(10, 46) =~= swapped(id, '-', '_'));
        },
        _ => {},
    }
}

/// Two invocations with different identifiers never share a temporary file,
/// whatever their languages and sources: concurrent invocations cannot see
/// each other's artifacts.
pub proof fn lemma_distinct_ids_distinct_artifacts(
    l1: Language,
    code1: Seq<char>,
    id1: Seq<char>,
    l2: Language,
    code2: Seq<char>,
    id2: Seq<char>,
)
    requires
        is_uuid_text(id1),
        is_uuid_text(id2),
        id1 != id2,
    ensures
        artifacts(plan_of(l1, code1, id1)).disjoint(artifacts(plan_of(l2, code2, id2))),
{
    assert forall|a: Seq<char>|
        artifacts(plan_of(l1, code1, id1)).contains(a) implies !artifacts(
        plan_of(l2, code2, id2),
    ).contains(a) by {
        if artifacts(plan_of(l2, code2, id2)).contains(a) {
            lemma_artifact_shape(l1, code1, id1, a);
            lemma_artifact_shape(l2, code2, id2, a);
            if l1 == Language::Java && l2 == Language::Java {
                lemma_swapped_injective(id1, id2);
            }
        }
    }
}

} // verus!
