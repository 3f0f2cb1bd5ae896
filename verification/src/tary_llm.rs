//! The language-model assistant: which model to use and the text it is
//! prompted with.

use vstd::prelude::*;
use crate::text::{opt_text, or_empty};

verus! {

/// The assistant: the model it uses and the context put before every prompt.
pub struct TaryLLM {
    pub model: String,
    /// Base context for all prompts.
    pub system_context: String,
}

/// The base context for the user `name`, followed by the configured extra
/// system prompt, if any.
pub open spec fn spec_system_context(name: Seq<char>, system_prompt: Option<Seq<char>>) -> Seq<char> {
    "You are Tary, the assistant to "@ + name + ". Your job is to summarise emails for "@ + name
        + ".\n"@ + or_empty(system_prompt)
}

/// `model` is among the installed models.
pub open spec fn installed(models: Seq<String>, model: Seq<char>) -> bool {
    exists|i: int| 0 <= i < models.len() && #[trigger] models[i]@ == model
}

/// The context opens by introducing the assistant to the user by name and
/// ends with the extra system prompt, if any; the name appears twice.
pub proof fn law_system_context(name: Seq<char>, system_prompt: Option<Seq<char>>)
    ensures
        ("You are Tary, the assistant to "@ + name).is_prefix_of(spec_system_context(name, system_prompt)),
        or_empty(system_prompt).is_suffix_of(spec_system_context(name, system_prompt)),
        spec_system_context(name, system_prompt).len() == ("You are Tary, the assistant to "@).len()
            + (". Your job is to summarise emails for "@).len() + (".\n"@).len() + 2 * name.len()
            + or_empty(system_prompt).len(),
{
    let a = "You are Tary, the assistant to "@ + name;
    let b = ". Your job is to summarise emails for "@ + name + ".\n"@;
    let c = or_empty(system_prompt);
    let t = spec_system_context(name, system_prompt);
    assert(t =~= a + b + c);
    assert(t.subrange(0, a.len() as int) =~= a);
    assert(t.subrange(t.len() - c.len(), t.len() as int) =~= c);
}

/// No model is installed in an empty list, and adding a model to the list
/// makes exactly that model installed in addition.
pub proof fn law_installed(models: Seq<String>, extra: String, model: Seq<char>)
    ensures
        !installed(Seq::<String>::empty(), model),
        installed(models.push(extra), model) == (installed(models, model) || extra@ == model),
{
    if installed(models.push(extra), model) && extra@ != model {
        let i = choose|i: int| 0 <= i < models.len() + 1 && #[trigger] models.push(extra)[i]@ == model;
        assert(models[i]@ == model);
    }
    if installed(models, model) {
        let i = choose|i: int| 0 <= i < models.len() && #[trigger] models[i]@ == model;
        assert(models.push(extra)[i]@ == model);
    }
    if extra@ == model {
        assert(models.push(extra)[models.len() as int]@ == model);
    }
}

impl TaryLLM {
    /// The assistant for the user `name` with the given model and extra
    /// system prompt; `None` when the model is not among the installed ones.
    pub fn new(name: &str, model: String, system_prompt: &Option<String>, installed_models: &Vec<String>) -> (r: Option<TaryLLM>)
        ensures
            r is Some == installed(installed_models@, model@),
            r matches Some(t) ==> t.model == model && t.system_context@ == spec_system_context(
                name@,
                opt_text(*system_prompt),
            ),
    {
        let mut found = false;
        let mut i: usize = 0;
        while i < installed_models.len()
            invariant
                i <= installed_models@.len(),
                found == exists|j: int| 0 <= j < i && #[trigger] installed_models@[j]@ == model@,
            decreases installed_models@.len() - i,
        {
            if installed_models[i] == model {
                found = true;
            }
            i = i + 1;
        }
        if !found {
            return None;
        }
        let mut context = String::from_str("You are Tary, the assistant to ");
        context.append(name);
        context.append(". Your job is to summarise emails for ");
        context.append(name);
        context.append(".\n");
        match system_prompt {
            Some(p) => context.append(p.as_str()),
            None => {},
        }
        Some(TaryLLM { model, system_context: context })
    }

    /// The full text sent for a prompt with only the system context: the
    /// context followed by the prompt.
    pub fn no_context_prompt(&self, prompt: &str) -> (p: String)
        ensures
            p@ == self.system_context@ + prompt@,
    {
        let mut p = self.system_context.clone();
        p.append(prompt);
        p
    }
}

} // verus!
