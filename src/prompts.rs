//! Persona templates and their cache. The host reads and parses template files; the manager
//! decides where a template lives, which directory entries are templates, and what is cached.
use vstd::prelude::*;
use crate::text::{chars_of, push_str, string_of, slice_of, str_eq};

verus! {

/// A persona template.
pub struct PromptTemplate {
    pub persona: PersonaInfo,
    pub system_prompt: SystemPrompt,
    /// Questions this persona handles well.
    pub examples: PromptExamples,
    /// Tools this persona commonly uses.
    pub tools: PromptTools,
}

/// Persona metadata.
pub struct PersonaInfo {
    pub name: String,
    pub description: String,
}

/// The system prompt of a persona.
pub struct SystemPrompt {
    pub content: String,
}

/// Example questions of a persona.
pub struct PromptExamples {
    pub questions: Vec<String>,
}

impl Default for PromptExamples {
    fn default() -> (r: Self)
        ensures
            r.questions@.len() == 0,
    {
        PromptExamples { questions: Vec::new() }
    }
}

/// Tools a persona commonly uses.
pub struct PromptTools {
    pub primary: Vec<String>,
    pub secondary: Vec<String>,
}

impl Default for PromptTools {
    fn default() -> (r: Self)
        ensures
            r.primary@.len() == 0,
            r.secondary@.len() == 0,
    {
        PromptTools { primary: Vec::new(), secondary: Vec::new() }
    }
}

/// Errors of template loading.
pub enum PromptError {
    IoError(String),
    ParseError(String),
    NotFound(String),
}

/// The file of template `name` under directory `dir`.
pub open spec fn template_file(dir: Seq<char>, name: Seq<char>) -> Seq<char> {
    if dir.len() == 0 {
        name + ".toml"@
    } else if dir.last() == '/' {
        dir + name + ".toml"@
    } else {
        dir + seq!['/'] + name + ".toml"@
    }
}

/// The template name of a directory entry: its stem, where the entry's name has the extension
/// `.toml` after a non-empty stem.
pub open spec fn template_stem(file: Seq<char>) -> Option<Seq<char>> {
    if file.len() > 5 && file.subrange(file.len() - 5, file.len() as int) == ".toml"@ {
        Some(file.subrange(0, file.len() - 5))
    } else {
        None
    }
}

/// The template names among directory entries, in order.
pub open spec fn template_names(files: Seq<Seq<char>>) -> Seq<Seq<char>>
    decreases files.len(),
{
    if files.len() == 0 {
        Seq::empty()
    } else {
        match template_stem(files.last()) {
            Some(n) => template_names(files.drop_last()).push(n),
            None => template_names(files.drop_last()),
        }
    }
}

fn stem_of(file: &String) -> (r: Option<String>)
    ensures
        r is None <==> template_stem(file@) is None,
        r matches Some(n) ==> template_stem(file@) == Some(n@),
{
    let cs = chars_of(file.as_str());
    proof {
        reveal_strlit(".toml");
    }
    let n = cs.len();
    if n <= 5 {
        return None;
    }
    let tail = slice_of(&cs, n - 5, n);
    let ext = chars_of(".toml");
    if !crate::text::seq_eq(&tail, &ext) {
        return None;
    }
    let head = slice_of(&cs, 0, n - 5);
    Some(string_of(head.as_slice()))
}

/// Loads and caches persona templates.
pub struct PromptManager {
    prompts_dir: String,
    cache: Vec<(String, PromptTemplate)>,
}

impl PromptManager {
    /// The directory of the template files.
    pub closed spec fn dir(&self) -> Seq<char> {
        self.prompts_dir@
    }

    /// The cached template names, in caching order.
    pub closed spec fn cached_names(&self) -> Seq<Seq<char>> {
        self.cache@.map_values(|e: (String, PromptTemplate)| e.0@)
    }

    pub fn new(prompts_dir: &str) -> (r: Self)
        ensures
            r.dir() == prompts_dir@,
            r.cached_names().len() == 0,
    {
        PromptManager { prompts_dir: String::from_str(prompts_dir), cache: Vec::new() }
    }

    /// The file that holds template `name`.
    pub fn template_path(&self, name: &str) -> (r: String)
        ensures
            r@ == template_file(self.dir(), name@),
    {
        let mut out = chars_of(self.prompts_dir.as_str());
        if out.len() > 0 && out[out.len() - 1] != '/' {
            out.push('/');
        }
        push_str(&mut out, name);
        push_str(&mut out, ".toml");
        string_of(out.as_slice())
    }

    /// The template names among the entries of the template directory.
    pub fn available_from(files: &Vec<String>) -> (r: Vec<String>)
        ensures
            r@.map_values(|s: String| s@) == template_names(files@.map_values(|s: String| s@)),
    {
        let mut out: Vec<String> = Vec::new();
        let mut i: usize = 0;
        while i < files.len()
            invariant
                i <= files@.len(),
                out@.map_values(|s: String| s@) == template_names(
                    files@.map_values(|s: String| s@).take(i as int),
                ),
            decreases files@.len() - i,
        {
            let ghost before = out@;
            let ghost fs = files@.map_values(|s: String| s@);
            if let Some(n) = stem_of(&files[i]) {
                out.push(n);
                assert(out@.map_values(|s: String| s@) =~= before.map_values(|s: String| s@).push(n@));
            }
            proof {
                assert(fs.take(i + 1).drop_last() =~= fs.take(i as int));
                assert(fs.take(i + 1).last() == files@[i as int]@);
            }
            i = i + 1;
        }
        proof {
            assert(files@.map_values(|s: String| s@).take(i as int) =~= files@.map_values(|s: String| s@));
        }
        out
    }

    /// The cached template `name`, if any.
    pub fn get_cached(&self, name: &str) -> (r: Option<&PromptTemplate>)
        ensures
            r is Some <==> self.cached_names().contains(name@),
    {
        let mut i: usize = 0;
        while i < self.cache.len()
            invariant
                i <= self.cache@.len(),
                forall|j: int| 0 <= j < i ==> (#[trigger] self.cache@[j]).0@ != name@,
            decreases self.cache@.len() - i,
        {
            if str_eq(self.cache[i].0.as_str(), name) {
                assert(self.cached_names()[i as int] == name@);
                return Some(&self.cache[i].1);
            }
            i = i + 1;
        }
        assert(!self.cached_names().contains(name@)) by {
            if self.cached_names().contains(name@) {
                let k = choose|k: int| 0 <= k < self.cached_names().len() && self.cached_names()[k] == name@;
                assert(self.cache@[k].0@ == name@);
            }
        }
        None
    }

    /// Caches a loaded template under `name`, unless one is cached under that name already.
    pub fn cache_template(&mut self, name: &str, template: PromptTemplate)
        ensures
            final(self).dir() == old(self).dir(),
            old(self).cached_names().contains(name@) ==> final(self).cached_names() == old(self).cached_names(),
            !old(self).cached_names().contains(name@) ==> final(self).cached_names() == old(self).cached_names().push(name@),
    {
        if self.get_cached(name).is_some() {
            return;
        }
        let ghost before = self.cache@;
        self.cache.push((String::from_str(name), template));
        assert(self.cache@.map_values(|e: (String, PromptTemplate)| e.0@) =~= before.map_values(
            |e: (String, PromptTemplate)| e.0@,
        ).push(name@));
    }

    /// Empties the cache.
    pub fn clear_cache(&mut self)
        ensures
            final(self).dir() == old(self).dir(),
            final(self).cached_names().len() == 0,
    {
        self.cache.clear();
    }
}

} // verus!
