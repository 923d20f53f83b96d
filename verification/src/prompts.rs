//! Prompt templates, kept by name and version, and their placeholders.

use crate::models::{ErrorKind, PipelineError};
use crate::text::{replace_all, replaced, same_text};
use vstd::prelude::*;

verus! {

/// One version of a prompt.
#[derive(Debug, Clone)]
pub struct PromptVersion {
    pub version: String,
    /// The text of the prompt, with placeholders in braces.
    pub template: String,
}

/// The versions of one prompt.
#[derive(Debug, Clone)]
pub struct PromptVersions {
    pub name: String,
    pub versions: Vec<PromptVersion>,
    /// The version that is used where none, or an unknown one, is asked for.
    pub default_version: String,
}

/// The store of prompt templates.
#[derive(Debug, Clone)]
pub struct PromptManager {
    pub prompts: Vec<PromptVersions>,
}

/// The template of the first version from index `i` on that is called `key`.
pub open spec fn template_from(versions: Seq<PromptVersion>, key: Seq<char>, i: int) -> Option<
    Seq<char>,
>
    decreases versions.len() - i,
{
    if i < 0 || i >= versions.len() {
        None
    } else if versions[i].version@ == key {
        Some(versions[i].template@)
    } else {
        template_from(versions, key, i + 1)
    }
}

/// The index of the first prompt from index `i` on that is called `name`.
pub open spec fn prompt_from(prompts: Seq<PromptVersions>, name: Seq<char>, i: int) -> Option<int>
    decreases prompts.len() - i,
{
    if i < 0 || i >= prompts.len() {
        None
    } else if prompts[i].name@ == name {
        Some(i)
    } else {
        prompt_from(prompts, name, i + 1)
    }
}

/// No two versions of `versions` have the same name.
pub open spec fn distinct_versions(versions: Seq<PromptVersion>) -> bool {
    forall|i: int, j: int|
        0 <= i < j < versions.len() ==> (#[trigger] versions[i]).version@ != (
        #[trigger] versions[j]).version@
}

/// No two prompts of `prompts` have the same name, and no prompt has two
/// versions of the same name.
pub open spec fn distinct_prompts(prompts: Seq<PromptVersions>) -> bool {
    &&& forall|i: int, j: int|
        0 <= i < j < prompts.len() ==> (#[trigger] prompts[i]).name@ != (#[trigger] prompts[j]).name@
    &&& forall|i: int| 0 <= i < prompts.len() ==> distinct_versions((#[trigger] prompts[i]).versions@)
}

impl PromptVersions {
    /// The template for `version`: that of the version asked for, or of the
    /// default version where none is asked for or the one asked for is unknown.
    pub open spec fn template(self, version: Option<Seq<char>>) -> Option<Seq<char>> {
        let key = match version {
            Some(v) => v,
            None => self.default_version@,
        };
        match template_from(self.versions@, key, 0) {
            Some(t) => Some(t),
            None => template_from(self.versions@, self.default_version@, 0),
        }
    }

    fn find_version<'a>(&'a self, key: &str) -> (r: Option<&'a str>)
        ensures
            match r {
                Some(t) => template_from(self.versions@, key@, 0) == Some(t@),
                None => template_from(self.versions@, key@, 0) is None,
            },
    {
        let mut i: usize = 0;
        while i < self.versions.len()
            invariant
                i <= self.versions.len(),
                template_from(self.versions@, key@, 0) == template_from(
                    self.versions@,
                    key@,
                    i as int,
                ),
            decreases self.versions.len() - i,
        {
            if same_text(self.versions[i].version.as_str(), key) {
                return Some(self.versions[i].template.as_str());
            }
            i += 1;
        }
        None
    }

    fn has_distinct_versions(&self) -> (r: bool)
        ensures
            r == distinct_versions(self.versions@),
    {
        let n = self.versions.len();
        let mut j: usize = 0;
        while j < n
            invariant
                n == self.versions.len(),
                j <= n,
                forall|a: int, b: int|
                    0 <= a < b < j ==> (#[trigger] self.versions@[a]).version@ != (
                    #[trigger] self.versions@[b]).version@,
            decreases n - j,
        {
            let mut i: usize = 0;
            while i < j
                invariant
                    n == self.versions.len(),
                    i <= j < n,
                    forall|a: int|
                        0 <= a < i ==> (#[trigger] self.versions@[a]).version@
                            != self.versions@[j as int].version@,
                decreases j - i,
            {
                if same_text(self.versions[i].version.as_str(), self.versions[j].version.as_str()) {
                    return false;
                }
                i += 1;
            }
            j += 1;
        }
        true
    }
}

impl PromptManager {
    /// The store is well formed: see [`distinct_prompts`].
    pub open spec fn wf(&self) -> bool {
        distinct_prompts(self.prompts@)
    }

    /// The template of the prompt `name` for `version`, if the prompt exists.
    pub open spec fn template(&self, name: Seq<char>, version: Option<Seq<char>>) -> Option<
        Seq<char>,
    > {
        match prompt_from(self.prompts@, name, 0) {
            Some(i) => self.prompts@[i].template(version),
            None => None,
        }
    }

    /// The template of the prompt `name` for `version`, or the empty text.
    pub open spec fn template_or_empty(&self, name: Seq<char>, version: Option<Seq<char>>) -> Seq<
        char,
    > {
        match self.template(name, version) {
            Some(t) => t,
            None => Seq::empty(),
        }
    }

    /// A store that holds `prompts`. Two prompts of one name, or two versions
    /// of one name in a prompt, are an error of class
    /// [`ErrorKind::Configuration`].
    pub fn new(prompts: Vec<PromptVersions>) -> (r: Result<PromptManager, PipelineError>)
        ensures
            match r {
                Ok(m) => m.prompts == prompts && m.wf(),
                Err(e) => {
                    &&& !distinct_prompts(prompts@)
                    &&& e.kind == ErrorKind::Configuration
                    &&& e.message@ == "A prompt or a version is declared twice"@
                },
            },
    {
        let n = prompts.len();
        let mut j: usize = 0;
        while j < n
            invariant
                n == prompts.len(),
                j <= n,
                forall|a: int, b: int|
                    0 <= a < b < j ==> (#[trigger] prompts@[a]).name@ != (#[trigger] prompts@[b]).name@,
                forall|a: int| 0 <= a < j ==> distinct_versions((#[trigger] prompts@[a]).versions@),
            decreases n - j,
        {
            if !prompts[j].has_distinct_versions() {
                return Err(
                    PipelineError::new(
                        ErrorKind::Configuration,
                        "A prompt or a version is declared twice",
                    ),
                );
            }
            let mut i: usize = 0;
            while i < j
                invariant
                    n == prompts.len(),
                    i <= j < n,
                    forall|a: int|
                        0 <= a < i ==> (#[trigger] prompts@[a]).name@ != prompts@[j as int].name@,
                decreases j - i,
            {
                if same_text(prompts[i].name.as_str(), prompts[j].name.as_str()) {
                    return Err(
                        PipelineError::new(
                            ErrorKind::Configuration,
                            "A prompt or a version is declared twice",
                        ),
                    );
                }
                i += 1;
            }
            j += 1;
        }
        Ok(PromptManager { prompts })
    }

    fn find_prompt(&self, name: &str) -> (r: Option<usize>)
        ensures
            match r {
                Some(i) => prompt_from(self.prompts@, name@, 0) == Some(i as int) && i
                    < self.prompts.len(),
                None => prompt_from(self.prompts@, name@, 0) is None,
            },
    {
        let mut i: usize = 0;
        while i < self.prompts.len()
            invariant
                i <= self.prompts.len(),
                prompt_from(self.prompts@, name@, 0) == prompt_from(self.prompts@, name@, i as int),
            decreases self.prompts.len() - i,
        {
            if same_text(self.prompts[i].name.as_str(), name) {
                return Some(i);
            }
            i += 1;
        }
        None
    }

    /// The template of the prompt `name`: that of `version`, or of the prompt's
    /// default version where `version` is `None` or unknown. `None` where there
    /// is no such prompt, or where the default version is unknown too.
    pub fn get_prompt<'a>(&'a self, name: &str, version: Option<&str>) -> (r: Option<&'a str>)
        ensures
            match r {
                Some(t) => self.template(
                    name@,
                    match version {
                        Some(v) => Some(v@),
                        None => None,
                    },
                ) == Some(t@),
                None => self.template(
                    name@,
                    match version {
                        Some(v) => Some(v@),
                        None => None,
                    },
                ) is None,
            },
    {
        match self.find_prompt(name) {
            None => None,
            Some(i) => {
                let entry = &self.prompts[i];
                let found = match version {
                    Some(v) => entry.find_version(v),
                    None => entry.find_version(entry.default_version.as_str()),
                };
                match found {
                    Some(t) => Some(t),
                    None => entry.find_version(entry.default_version.as_str()),
                }
            },
        }
    }

    fn template_text(&self, name: &str, version: Option<&str>) -> (r: &str)
        ensures
            r@ == self.template_or_empty(
                name@,
                match version {
                    Some(v) => Some(v@),
                    None => None,
                },
            ),
    {
        match self.get_prompt(name, version) {
            Some(t) => t,
            None => {
                let empty = "";
                proof {
                    reveal_strlit("");
                    assert(empty@ =~= Seq::<char>::empty());
                }
                empty
            },
        }
    }

    /// The prompt that asks which action of `actions_list` the sentence means.
    pub fn format_find_endpoint(
        &self,
        input_sentence: &str,
        actions_list: &str,
        version: Option<&str>,
    ) -> (r: String)
        ensures
            r@ == replaced(
                replaced(
                    self.template_or_empty(
                        "find_endpoint"@,
                        match version {
                            Some(v) => Some(v@),
                            None => None,
                        },
                    ),
                    "{input_sentence}"@,
                    input_sentence@,
                ),
                "{actions_list}"@,
                actions_list@,
            ),
    {
        let template = self.template_text("find_endpoint", version);
        let first = replace_all(template, "{input_sentence}", input_sentence);
        replace_all(first.as_str(), "{actions_list}", actions_list)
    }

    /// The prompt that asks for the fields of `sentence` as JSON.
    pub fn format_sentence_to_json(&self, sentence: &str, version: Option<&str>) -> (r: String)
        ensures
            r@ == replaced(
                self.template_or_empty(
                    "sentence_to_json"@,
                    match version {
                        Some(v) => Some(v@),
                        None => None,
                    },
                ),
                "{sentence}"@,
                sentence@,
            ),
    {
        let template = self.template_text("sentence_to_json", version);
        replace_all(template, "{sentence}", sentence)
    }

    /// The prompt that asks which field belongs to which parameter.
    pub fn format_match_fields(&self, input_fields: &str, parameters: &str, version: Option<&str>) -> (r:
        String)
        ensures
            r@ == replaced(
                replaced(
                    self.template_or_empty(
                        "match_fields"@,
                        match version {
                            Some(v) => Some(v@),
                            None => None,
                        },
                    ),
                    "{input_fields}"@,
                    input_fields@,
                ),
                "{parameters}"@,
                parameters@,
            ),
    {
        let template = self.template_text("match_fields", version);
        let first = replace_all(template, "{input_fields}", input_fields);
        replace_all(first.as_str(), "{parameters}", parameters)
    }

    /// The names of the versions of the prompt `prompt_name`, in the order in
    /// which they were declared.
    pub fn list_versions(&self, prompt_name: &str) -> (r: Option<Vec<String>>)
        ensures
            match r {
                Some(names) => {
                    &&& prompt_from(self.prompts@, prompt_name@, 0) matches Some(i)
                    &&& names@.len() == self.prompts@[i].versions@.len()
                    &&& forall|k: int|
                        0 <= k < names@.len() ==> (#[trigger] names@[k])@
                            == self.prompts@[i].versions@[k].version@
                },
                None => prompt_from(self.prompts@, prompt_name@, 0) is None,
            },
    {
        match self.find_prompt(prompt_name) {
            None => None,
            Some(i) => {
                let entry = &self.prompts[i];
                let mut names: Vec<String> = Vec::new();
                let mut k: usize = 0;
                while k < entry.versions.len()
                    invariant
                        k <= entry.versions.len(),
                        names@.len() == k,
                        forall|j: int|
                            0 <= j < k ==> (#[trigger] names@[j])@ == entry.versions@[j].version@,
                    decreases entry.versions.len() - k,
                {
                    names.push(entry.versions[k].version.clone());
                    k += 1;
                }
                Some(names)
            },
        }
    }

    /// The default version of the prompt `prompt_name`.
    pub fn get_default_version(&self, prompt_name: &str) -> (r: Option<String>)
        ensures
            match r {
                Some(v) => prompt_from(self.prompts@, prompt_name@, 0) matches Some(i) && v@
                    == self.prompts@[i].default_version@,
                None => prompt_from(self.prompts@, prompt_name@, 0) is None,
            },
    {
        match self.find_prompt(prompt_name) {
            None => None,
            Some(i) => Some(self.prompts[i].default_version.clone()),
        }
    }
}

} // verus!
