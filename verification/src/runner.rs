//! The per-language runner registry and the artifact-path rules. The set of
//! supported languages is closed: looking one up either yields its runner or
//! the exact unsupported-language error. Artifact paths are derived from the
//! task id alone, so distinct tasks never collide on the filesystem.

use vstd::prelude::*;
use vstd::string::*;

verus! {

/// The native-code runner: holds the submission's source text for the
/// lifetime of one task.
#[derive(Debug, Clone)]
pub struct CppRunner {
    source_code: String,
}

impl CppRunner {
    /// The source text this runner was built for.
    pub closed spec fn source_view(&self) -> Seq<char> {
        self.source_code@
    }

    /// Builds a runner for one submission's source text.
    pub fn new(source_code: &str) -> (r: CppRunner)
        ensures
            r.source_view() == source_code@,
    {
        CppRunner { source_code: source_code.to_owned() }
    }

    /// Hands the held source text back, for the driver that writes it to the
    /// source artifact.
    pub fn source(&self) -> (r: &str)
        ensures
            r@ == self.source_view(),
    {
        self.source_code.as_str()
    }
}

/// The closed registry of language runners: one variant per supported
/// language.
#[derive(Debug, Clone)]
pub enum LangRunner {
    Cpp(CppRunner),
}

/// Whether a language identifier is supported.
pub open spec fn supported_lang(lang: Seq<char>) -> bool {
    lang == "cpp"@
}

/// The error text for an unsupported language identifier.
pub open spec fn unsupported_msg(lang: Seq<char>) -> Seq<char> {
    "Unsupported language: "@ + lang
}

/// Tests whether a language identifier is supported.
pub fn is_supported_lang(lang: &str) -> (b: bool)
    ensures
        b == supported_lang(lang@),
{
    let lang_owned = lang.to_owned();
    let cpp = String::from_str("cpp");
    lang_owned == cpp
}

/// Looks a language up in the registry: its runner, holding the given
/// source text, exactly when the language is supported, and the exact
/// unsupported-language error otherwise.
pub fn get_runner(lang: &str, source_code: &str) -> (r: Result<LangRunner, String>)
    ensures
        supported_lang(lang@) ==> (r matches Ok(LangRunner::Cpp(c)) && c.source_view()
            == source_code@),
        !supported_lang(lang@) ==> (r matches Err(e) && e@ == unsupported_msg(lang@)),
{
    let lang_owned = lang.to_owned();
    let cpp = String::from_str("cpp");
    if lang_owned == cpp {
        Ok(LangRunner::Cpp(CppRunner::new(source_code)))
    } else {
        let mut msg = String::from_str("Unsupported language: ");
        msg.append(lang);
        proof {
            assert(msg@ =~= unsupported_msg(lang@));
        }
        Err(msg)
    }
}

/// The informational note a successful compilation returns.
pub open spec fn compile_note() -> Seq<char> {
    "Compilation successful"@
}

/// Maps a finished compiler process to the compile result: an informational
/// note on success, the compiler's error-stream text verbatim on failure.
pub fn compile_outcome(success: bool, stderr: &Vec<u8>) -> (r: Result<String, String>)
    ensures
        success ==> (r matches Ok(note) && note@ == compile_note()),
        !success ==> (r matches Err(e) && e@ == crate::text::lossy_text_of(stderr@)),
        !success && vstd::utf8::valid_utf8(stderr@) ==> (r matches Err(e) && e@
            == vstd::utf8::decode_utf8(stderr@)),
{
    if success {
        Ok(String::from_str("Compilation successful"))
    } else {
        Err(crate::text::bytes_to_text_lossy(stderr))
    }
}

/// The filesystem path of the source artifact for one task: derived from the
/// task id and the language alone.
pub open spec fn source_path_of(task_id: Seq<char>, lang: Seq<char>) -> Seq<char> {
    "code"@ + task_id + "."@ + lang
}

/// The filesystem path of the compiled artifact for one task: derived from
/// the task id alone.
pub open spec fn binary_path_of(task_id: Seq<char>) -> Seq<char> {
    "binary"@ + task_id
}

/// Builds the source-artifact path for a task.
pub fn source_path(task_id: &str, lang: &str) -> (r: String)
    ensures
        r@ == source_path_of(task_id@, lang@),
{
    let mut s = String::from_str("code");
    s.append(task_id);
    s.append(".");
    s.append(lang);
    proof {
        assert(s@ =~= source_path_of(task_id@, lang@));
    }
    s
}

/// Builds the compiled-artifact path for a task.
pub fn binary_path(task_id: &str) -> (r: String)
    ensures
        r@ == binary_path_of(task_id@),
{
    let mut s = String::from_str("binary");
    s.append(task_id);
    proof {
        assert(s@ =~= binary_path_of(task_id@));
    }
    s
}

/// Artifact paths never collide across tasks: two distinct task ids of equal
/// length (all task ids are rendered uuids of one fixed length) give
/// distinct source paths and distinct binary paths, whatever the languages.
pub proof fn lemma_artifact_paths_unique(
    id1: Seq<char>,
    id2: Seq<char>,
    lang1: Seq<char>,
    lang2: Seq<char>,
)
    requires
        id1.len() == id2.len(),
        id1 != id2,
    ensures
        binary_path_of(id1) != binary_path_of(id2),
        source_path_of(id1, lang1) != source_path_of(id2, lang2),
{
    assert(exists|i: int| 0 <= i < id1.len() && id1[i] != id2[i]) by {
        if forall|i: int| 0 <= i < id1.len() ==> id1[i] == id2[i] {
            assert(id1 =~= id2);
        }
    }
    let i = choose|i: int| 0 <= i < id1.len() && id1[i] != id2[i];
    reveal_strlit("binary");
    reveal_strlit("code");
    assert(binary_path_of(id1) != binary_path_of(id2)) by {
        if binary_path_of(id1) == binary_path_of(id2) {
            assert(binary_path_of(id1)["binary"@.len() + i] == id1[i]);
            assert(binary_path_of(id2)["binary"@.len() + i] == id2[i]);
        }
    }
    assert(source_path_of(id1, lang1) != source_path_of(id2, lang2)) by {
        if source_path_of(id1, lang1) == source_path_of(id2, lang2) {
            assert(source_path_of(id1, lang1)["code"@.len() + i] == id1[i]);
            assert(source_path_of(id2, lang2)["code"@.len() + i] == id2[i]);
        }
    }
}

} // verus!
