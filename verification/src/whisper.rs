//! The state of the speech-recognition engine that the rest of the program
//! reads, and the assembly of its output.

use vstd::prelude::*;
use crate::models::{has_portable_file_name, is_infix_of, last_component, stem_of_name};
use crate::text::str_eq;

verus! {

/// What is known of the recognition engine: whether a model is loaded, and
/// which. The model context itself is held next to it by the caller.
pub struct WhisperEngine {
    loaded: bool,
    model_name: String,
    model_path: String,
    use_gpu: bool,
}

impl WhisperEngine {
    /// Whether a model is loaded.
    pub closed spec fn spec_loaded(&self) -> bool {
        self.loaded
    }

    /// The name of the loaded model ("" before any).
    pub closed spec fn spec_model_name(&self) -> Seq<char> {
        self.model_name@
    }

    /// The path of the loaded model ("" before any).
    pub closed spec fn spec_model_path(&self) -> Seq<char> {
        self.model_path@
    }

    /// Whether the loaded model was asked to use the GPU.
    pub closed spec fn spec_use_gpu(&self) -> bool {
        self.use_gpu
    }

    /// An engine with no model.
    pub fn new() -> (r: Self)
        ensures
            !r.spec_loaded(),
            r.spec_model_name() == Seq::<char>::empty(),
            r.spec_model_path() == Seq::<char>::empty(),
            !r.spec_use_gpu(),
    {
        WhisperEngine { loaded: false, model_name: String::new(), model_path: String::new(), use_gpu: false }
    }

    /// The compute backend in use. This build has no GPU backend compiled
    /// in, and the recognizer then runs on the CPU whatever was asked.
    pub fn backend_label(&self) -> (r: &'static str)
        ensures
            r@ == "CPU"@,
    {
        "CPU"
    }

    pub fn is_loaded(&self) -> (r: bool)
        ensures
            r == self.spec_loaded(),
    {
        self.loaded
    }

    pub fn model_name(&self) -> (r: &str)
        ensures
            r@ == self.spec_model_name(),
    {
        self.model_name.as_str()
    }

    /// The path of the loaded model.
    pub fn model_path(&self) -> (r: &str)
        ensures
            r@ == self.spec_model_path(),
    {
        self.model_path.as_str()
    }

    /// Records that a model context was created from `model_path`: the model
    /// name becomes the file's stem ("unknown" when it has none).
    pub fn record_loaded_model(&mut self, model_path: &str, use_gpu: bool)
        ensures
            final(self).spec_loaded(),
            final(self).spec_model_path() == model_path@,
            final(self).spec_use_gpu() == use_gpu,
            final(self).spec_model_name() == "unknown"@ || (final(self).spec_model_name().len() > 0
                && is_infix_of(final(self).spec_model_name(), model_path@)),
            model_path@.len() == 0 ==> final(self).spec_model_name() == "unknown"@,
            has_portable_file_name(model_path@) ==> final(self).spec_model_name() == stem_of_name(
                last_component(model_path@),
            ),
    {
        self.model_name = model_name_or_unknown(model_path);
        self.model_path = String::from_str(model_path);
        self.use_gpu = use_gpu;
        self.loaded = true;
    }
}

fn model_name_or_unknown(path: &str) -> (r: String)
    ensures
        r@ == "unknown"@ || (r@.len() > 0 && is_infix_of(r@, path@)),
        path@.len() == 0 ==> r@ == "unknown"@,
        has_portable_file_name(path@) ==> r@ == stem_of_name(last_component(path@)),
{
    match crate::models::file_stem(path) {
        Some(s) => s,
        None => String::from_str("unknown"),
    }
}

/// The language hint for the recognizer: none for "auto".
pub fn whisper_language(language: &str) -> (r: Option<String>)
    ensures
        language@ == "auto"@ ==> r is None,
        language@ != "auto"@ ==> r is Some && r->0@ == language@,
{
    if str_eq(language, "auto") {
        None
    } else {
        Some(String::from_str(language))
    }
}

/// The transcript assembled from the segments: the segments that could be
/// read, each put after a '\n' when the text so far is not empty.
pub open spec fn joined_segments(segs: Seq<Option<String>>) -> Seq<char>
    decreases segs.len(),
{
    if segs.len() == 0 {
        Seq::empty()
    } else {
        let so_far = joined_segments(segs.drop_last());
        match segs.last() {
            Some(t) => if so_far.len() == 0 { t@ } else { so_far + seq!['\n'] + t@ },
            None => so_far,
        }
    }
}

/// Joins the recognizer's segments; `None` marks a segment whose text could
/// not be read.
pub fn join_segments(segments: &Vec<Option<String>>) -> (r: String)
    ensures
        r@ == joined_segments(segments@),
{
    let mut result = String::new();
    let mut i: usize = 0;
    assert(segments@.take(0) =~= Seq::<Option<String>>::empty());
    while i < segments.len()
        invariant
            i <= segments@.len(),
            result@ == joined_segments(segments@.take(i as int)),
        decreases segments@.len() - i,
    {
        assert(segments@.take(i + 1).drop_last() =~= segments@.take(i as int));
        match &segments[i] {
            Some(t) => {
                if result.as_str().unicode_len() > 0 {
                    result.append("\n");
                    proof {
                        reveal_strlit("\n");
                        assert("\n"@ =~= seq!['\n']);
                    }
                }
                result.append(t.as_str());
            },
            None => {},
        }
        i = i + 1;
    }
    assert(segments@.take(segments@.len() as int) =~= segments@);
    result
}

/// A segment that could not be read adds nothing to the transcript; a
/// readable segment after readable text is put on a line of its own, after
/// exactly one '\n'; and the first readable segment starts the transcript
/// with no separator.
pub proof fn law_joined_segments(segs: Seq<Option<String>>, a: String, b: String)
    ensures
        joined_segments(segs.push(None)) == joined_segments(segs),
        a@.len() > 0 ==> joined_segments(seq![Some(a), Some(b)]) == a@ + seq!['\n'] + b@,
        joined_segments(seq![None, Some(a)]) == a@,
{
    assert(segs.push(None::<String>).drop_last() =~= segs);
    let one = seq![Some(a)];
    assert(one.drop_last() =~= Seq::<Option<String>>::empty());
    assert(one.last() == Some(a));
    assert(joined_segments(Seq::<Option<String>>::empty()) == Seq::<char>::empty());
    assert(joined_segments(one) == a@);
    assert(seq![Some(a), Some(b)].drop_last() =~= one);
    let none1 = seq![None::<String>];
    assert(none1.drop_last() =~= Seq::<Option<String>>::empty());
    assert(joined_segments(none1) == Seq::<char>::empty());
    assert(none1.last() == None::<String>);
    assert(seq![Some(a), Some(b)].last() == Some(b));
    assert(seq![None, Some(a)].last() == Some(a));
    assert(seq![None, Some(a)].drop_last() =~= none1);
}

} // verus!
