//! Post-processing of a freshly unpacked project: which files are rewritten,
//! and how their text is rewritten.

use vstd::prelude::*;
use vstd::string::StrSliceExecFns;
use vstd::string::StringExecFns;

verus! {

/// One substitution in one file of a new project: in the file at `file`,
/// relative to the project's root, `from` is replaced by `to`.
#[derive(Debug, Clone, Copy, PartialEq, Eq)]
pub struct Replacement {
    pub file: &'static str,
    pub from: &'static str,
    pub to: &'static str,
}

/// The mathematical content of a [`Replacement`].
pub struct ReplacementView {
    pub file: Seq<char>,
    pub from: Seq<char>,
    pub to: Seq<char>,
}

impl View for Replacement {
    type V = ReplacementView;

    open spec fn view(&self) -> ReplacementView {
        ReplacementView { file: self.file@, from: self.from@, to: self.to@ }
    }
}

/// The substitution that points the frontend at the published `zoon`.
pub open spec fn frontend_replacement() -> ReplacementView {
    ReplacementView {
        file: "frontend/Cargo.toml"@,
        from: r#"zoon = { path = "../../../zoon" }"#@,
        to: r#"zoon = { git = "https://github.com/MoonZoon/MoonZoon", branch = "main" }"#@,
    }
}

/// The substitution that points the backend at the published `moon`.
pub open spec fn backend_replacement() -> ReplacementView {
    ReplacementView {
        file: "backend/Cargo.toml"@,
        from: r#"moon = { path = "../../../moon" }"#@,
        to: r#"moon = { git = "https://github.com/MoonZoon/MoonZoon", branch = "main" }"#@,
    }
}

/// The substitutions that a new project needs, in the order in which they are
/// listed. A project that keeps its local dependencies needs none.
pub open spec fn project_replacements(local_deps: bool) -> Seq<ReplacementView> {
    if local_deps {
        Seq::empty()
    } else {
        seq![frontend_replacement(), backend_replacement()]
    }
}

/// The mathematical contents of a list of substitutions.
pub open spec fn replacement_views(replacements: Seq<Replacement>) -> Seq<ReplacementView> {
    replacements.map_values(|replacement: Replacement| replacement@)
}

/// Decides how the files of a freshly unpacked project are rewritten. The
/// template depends on the toolkit by local paths; unless `local_deps` asks to
/// keep them, both manifests are pointed at the published toolkit.
pub fn postprocess_project_files(local_deps: bool) -> (replacements: Vec<Replacement>)
    ensures
        replacement_views(replacements@) == project_replacements(local_deps),
{
    let mut replacements: Vec<Replacement> = Vec::new();
    if !local_deps {
        replacements.push(
            Replacement {
                file: "frontend/Cargo.toml",
                from: r#"zoon = { path = "../../../zoon" }"#,
                to: r#"zoon = { git = "https://github.com/MoonZoon/MoonZoon", branch = "main" }"#,
            },
        );
        replacements.push(
            Replacement {
                file: "backend/Cargo.toml",
                from: r#"moon = { path = "../../../moon" }"#,
                to: r#"moon = { git = "https://github.com/MoonZoon/MoonZoon", branch = "main" }"#,
            },
        );
    }
    assert(replacement_views(replacements@) =~= project_replacements(local_deps));
    replacements
}

/// The text with every occurrence of `from` replaced by `to`. Occurrences are
/// found from the left and do not overlap. An empty `from` occurs before
/// every character and at the end of the text.
pub open spec fn replace_all(content: Seq<char>, from: Seq<char>, to: Seq<char>) -> Seq<char>
    decreases content.len(),
{
    if content.len() < from.len() {
        content
    } else if from.len() == 0 {
        if content.len() == 0 {
            to
        } else {
            to + content.take(1) + replace_all(content.skip(1), from, to)
        }
    } else if content.take(from.len() as int) == from {
        to + replace_all(content.skip(from.len() as int), from, to)
    } else {
        content.take(1) + replace_all(content.skip(1), from, to)
    }
}

/// The characters of `text`, one by one.
fn chars_of(text: &str) -> (chars: Vec<char>)
    ensures
        chars@ == text@,
{
    let mut chars: Vec<char> = Vec::new();
    for c in it: text.chars()
        invariant
            it.seq() == text@,
            chars@ == text@.take(it.index() as int),
    {
        chars.push(c);
    }
    chars
}

/// Whether `pattern` stands in `text` at position `at`.
fn occurs_at(text: &Vec<char>, pattern: &Vec<char>, at: usize) -> (found: bool)
    requires
        at + pattern@.len() <= text@.len(),
    ensures
        found <==> text@.subrange(at as int, at + pattern@.len()) == pattern@,
{
    let n = text.len();
    let mut j: usize = 0;
    while j < pattern.len()
        invariant
            at + pattern@.len() <= text@.len() == n,
            j <= pattern@.len(),
            forall|k: int| 0 <= k < j ==> text@[at + k] == pattern@[k],
        decreases pattern@.len() - j,
    {
        if text[at + j] != pattern[j] {
            assert(text@.subrange(at as int, at + pattern@.len())[j as int] != pattern@[j as int]);
            return false;
        }
        j += 1;
    }
    assert(text@.subrange(at as int, at + pattern@.len()) =~= pattern@);
    true
}

/// Replaces every occurrence of `from` in the text of a file by `to`.
pub fn replace_in_file(content: &str, from: &str, to: &str) -> (replaced: String)
    ensures
        replaced@ == replace_all(content@, from@, to@),
{
    let text = chars_of(content);
    let pattern = chars_of(from);
    let n = text.len();
    let m = pattern.len();
    let mut replaced = String::new();
    let mut start: usize = 0;
    let mut i: usize = 0;
    proof {
        assert(content@.skip(0) == content@);
        assert(content@.subrange(0, 0) == Seq::<char>::empty());
        assert(replaced@ + content@.subrange(0, 0) + replace_all(content@, from@, to@)
            == replace_all(content@, from@, to@));
    }
    if m == 0 {
        while i < n
            invariant
                n == content@.len(),
                from@.len() == 0,
                i <= n,
                replace_all(content@, from@, to@) == replaced@ + replace_all(
                    content@.skip(i as int),
                    from@,
                    to@,
                ),
            decreases n - i,
        {
            proof {
                let rest = content@.skip(i as int);
                assert(rest.take(1) == content@.subrange(i as int, i + 1));
                assert(rest.skip(1) == content@.skip(i + 1));
            }
            replaced.append(to);
            replaced.append(content.substring_char(i, i + 1));
            i += 1;
        }
        replaced.append(to);
        return replaced;
    }
    while m <= n - i
        invariant
            n == content@.len(),
            text@ == content@,
            pattern@ == from@,
            m == from@.len(),
            m > 0,
            start <= i <= n,
            replace_all(content@, from@, to@) == replaced@ + content@.subrange(
                start as int,
                i as int,
            ) + replace_all(content@.skip(i as int), from@, to@),
        decreases n - i,
    {
        let ghost rest = content@.skip(i as int);
        if occurs_at(&text, &pattern, i) {
            proof {
                assert(rest.take(m as int) == content@.subrange(i as int, i + m));
                assert(rest.skip(m as int) == content@.skip(i + m));
                assert(content@.subrange(i + m, i + m) == Seq::<char>::empty());
            }
            replaced.append(content.substring_char(start, i));
            replaced.append(to);
            i += m;
            start = i;
        } else {
            proof {
                assert(rest.take(m as int) == content@.subrange(i as int, i + m));
                assert(rest.skip(1) == content@.skip(i + 1));
                assert(content@.subrange(start as int, i as int) + rest.take(1)
                    == content@.subrange(start as int, i + 1));
            }
            i += 1;
        }
    }
    proof {
        assert(content@.subrange(start as int, i as int) + content@.skip(i as int)
            == content@.subrange(start as int, n as int));
    }
    replaced.append(content.substring_char(start, n));
    replaced
}

} // verus!
