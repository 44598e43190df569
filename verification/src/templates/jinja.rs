//! Structured chat template rendered through the `minijinja` engine.
//!
//! The library owns the decisions: which template string is bound, which
//! special tokens are injected, and how each message is exposed to the
//! renderer. The rendering itself is an outside capability reached through
//! trusted wrappers around `minijinja`.

use super::{MessageRole, TemplateImpl};
use crate::error::CallmError;
use vstd::prelude::*;

verus! {

/// What the engine renders from a template source, role/content message
/// pairs, the two special tokens and the generation-prompt flag, under the
/// engine's default environment - or nothing when the render fails. The
/// outcome is a function of these arguments alone.
pub uninterp spec fn render_of(
    template: Seq<char>,
    messages: Seq<(Seq<char>, Seq<char>)>,
    bos_token: Seq<char>,
    eos_token: Seq<char>,
    add_generation_prompt: bool,
) -> Option<Seq<char>>;

/// The views of role/content message pairs.
pub open spec fn message_views(ms: Seq<(String, String)>) -> Seq<(Seq<char>, Seq<char>)> {
    ms.map_values(|m: (String, String)| (m.0@, m.1@))
}

/// The role/content views of a caller's message sequence.
pub open spec fn chat_views(ms: Seq<(MessageRole, String)>) -> Seq<(Seq<char>, Seq<char>)> {
    ms.map_values(|m: (MessageRole, String)| (m.0.spec_name(), m.1@))
}

/// An optional token's text, with the empty string for an unset token.
pub open spec fn token_or_empty(t: Option<Seq<char>>) -> Seq<char> {
    match t {
        Some(s) => s,
        None => Seq::<char>::empty(),
    }
}

/// Relies on `minijinja::Environment::render_str`: renders the template
/// source against the message list (each pair exposed as a role/content
/// record), the two special tokens and the generation-prompt flag, under
/// the engine's default environment; the outcome is what [`render_of`]
/// stands for.
#[verifier::external_body]
fn mj_render(
    template: &str,
    messages: &Vec<(String, String)>,
    bos_token: &str,
    eos_token: &str,
    add_generation_prompt: bool,
) -> (r: Result<String, String>)
    ensures
        match r {
            Ok(s) => render_of(
                template@,
                message_views(messages@),
                bos_token@,
                eos_token@,
                add_generation_prompt,
            ) == Some(s@),
            Err(_) => render_of(
                template@,
                message_views(messages@),
                bos_token@,
                eos_token@,
                add_generation_prompt,
            ) is None,
        },
{
    let msgs: Vec<std::collections::BTreeMap<&str, &str>> = messages.iter().map(
        |m| std::collections::BTreeMap::from([("role", m.0.as_str()), ("content", m.1.as_str())]),
    ).collect();
    let mut ctx = std::collections::BTreeMap::new();
    ctx.insert("messages", minijinja::value::Value::from_serialize(&msgs));
    ctx.insert("bos_token", minijinja::value::Value::from_serialize(bos_token));
    ctx.insert("eos_token", minijinja::value::Value::from_serialize(eos_token));
    ctx.insert(
        "add_generation_prompt",
        minijinja::value::Value::from_serialize(add_generation_prompt),
    );
    let env = minijinja::Environment::new();
    env.render_str(template, ctx).map_err(|e| e.to_string())
}

/// A chat template bound to a template string, with resolved special tokens
/// and a flag asking the template to append its generation prompt.
#[derive(Clone, Debug)]
pub struct TemplateJinja {
    template: String,
    bos_token: Option<String>,
    eos_token: Option<String>,
    add_generation_prompt: bool,
}

impl TemplateJinja {
    /// Creates a structured template bound to `template`, with no special
    /// tokens yet and the generation prompt enabled.
    pub fn new(template: &str) -> (r: Self)
        ensures
            r.spec_template() == template@,
            r.spec_bos() is None,
            r.spec_eos() is None,
            r.spec_add_generation_prompt() == true,
    {
        Self {
            template: template.to_owned(),
            bos_token: None,
            eos_token: None,
            add_generation_prompt: true,
        }
    }

    /// Chooses whether the template is asked to append its generation
    /// prompt after the rendered messages.
    pub fn set_add_generation_prompt(&mut self, add_generation_prompt: bool)
        ensures
            final(self).spec_add_generation_prompt() == add_generation_prompt,
            final(self).spec_template() == old(self).spec_template(),
            final(self).spec_bos() == old(self).spec_bos(),
            final(self).spec_eos() == old(self).spec_eos(),
    {
        self.add_generation_prompt = add_generation_prompt;
    }

    /// The template string the structured template was bound to.
    pub closed spec fn spec_template(&self) -> Seq<char> {
        self.template@
    }

    /// Whether the template is asked to append its generation prompt.
    pub closed spec fn spec_add_generation_prompt(&self) -> bool {
        self.add_generation_prompt
    }

    /// The registered beginning-of-sequence token, if any.
    pub closed spec fn spec_bos(&self) -> Option<Seq<char>> {
        match self.bos_token {
            Some(ref s) => Some(s@),
            None => None,
        }
    }

    /// The registered end-of-sequence token, if any.
    pub closed spec fn spec_eos(&self) -> Option<Seq<char>> {
        match self.eos_token {
            Some(ref s) => Some(s@),
            None => None,
        }
    }

    /// What [`TemplateJinja::apply`] owes: the engine's render of the bound
    /// template against the messages' role/content views, the registered
    /// special tokens (the empty string when unset) and the
    /// generation-prompt flag; a render failure comes back as a template
    /// error.
    pub open spec fn apply_post(
        &self,
        messages: Seq<(MessageRole, String)>,
        r: Result<String, CallmError>,
    ) -> bool {
        let rendered = render_of(
            self.spec_template(),
            chat_views(messages),
            token_or_empty(self.spec_bos()),
            token_or_empty(self.spec_eos()),
            self.spec_add_generation_prompt(),
        );
        match r {
            Ok(s) => rendered == Some(s@),
            Err(e) => e is TemplateError && rendered is None,
        }
    }

    /// Renders the message sequence through the bound template. Each message
    /// is exposed as a role/content pair; an unset special token is exposed
    /// as the empty string. A render failure comes back as a template error.
    pub fn apply(&self, messages: &[(MessageRole, String)]) -> (r: Result<String, CallmError>)
        ensures
            self.apply_post(messages@, r),
    {
        let mut msgs: Vec<(String, String)> = Vec::new();
        let mut i: usize = 0;
        while i < messages.len()
            invariant
                i <= messages@.len(),
                msgs@.len() == i,
                forall|j: int|
                    0 <= j < i ==> (#[trigger] msgs@[j]).0@ == messages@[j].0.spec_name()
                        && msgs@[j].1 == messages@[j].1,
            decreases messages@.len() - i,
        {
            msgs.push((String::from_str(messages[i].0.as_str()), messages[i].1.clone()));
            i = i + 1;
        }
        proof {
            assert(message_views(msgs@) =~= chat_views(messages@));
        }

        let bos_token = match &self.bos_token {
            Some(tkn) => tkn.as_str(),
            None => "",
        };
        let eos_token = match &self.eos_token {
            Some(tkn) => tkn.as_str(),
            None => "",
        };
        proof {
            reveal_strlit("");
            assert(""@ =~= Seq::<char>::empty());
            assert(bos_token@ == token_or_empty(self.spec_bos()));
            assert(eos_token@ == token_or_empty(self.spec_eos()));
        }

        match mj_render(
            self.template.as_str(),
            &msgs,
            bos_token,
            eos_token,
            self.add_generation_prompt,
        ) {
            Ok(output) => Ok(output),
            Err(e) => Err(CallmError::TemplateError(e)),
        }
    }

    /// Returns the beginning-of-sequence (BOS) token.
    pub fn get_bos_token(&self) -> (r: Option<&str>)
        ensures
            match r {
                Some(s) => self.spec_bos() == Some(s@),
                None => self.spec_bos() is None,
            },
    {
        match &self.bos_token {
            Some(bos) => Some(bos.as_str()),
            None => None,
        }
    }

    /// Sets the beginning-of-sequence (BOS) token.
    pub fn set_bos_token(&mut self, bos_token: Option<String>)
        ensures
            final(self).spec_bos() == (match bos_token {
                Some(s) => Some(s@),
                None => None::<Seq<char>>,
            }),
            final(self).spec_eos() == old(self).spec_eos(),
            final(self).spec_template() == old(self).spec_template(),
            final(self).spec_add_generation_prompt() == old(self).spec_add_generation_prompt(),
    {
        self.bos_token = bos_token;
    }

    /// Returns the end-of-sequence (EOS) token.
    pub fn get_eos_token(&self) -> (r: Option<&str>)
        ensures
            match r {
                Some(s) => self.spec_eos() == Some(s@),
                None => self.spec_eos() is None,
            },
    {
        match &self.eos_token {
            Some(eos) => Some(eos.as_str()),
            None => None,
        }
    }

    /// Sets the end-of-sequence (EOS) token.
    pub fn set_eos_token(&mut self, eos_token: Option<String>)
        ensures
            final(self).spec_eos() == (match eos_token {
                Some(s) => Some(s@),
                None => None::<Seq<char>>,
            }),
            final(self).spec_bos() == old(self).spec_bos(),
            final(self).spec_template() == old(self).spec_template(),
            final(self).spec_add_generation_prompt() == old(self).spec_add_generation_prompt(),
    {
        self.eos_token = eos_token;
    }
}

impl TemplateImpl for TemplateJinja {
    fn get_bos_token(&self) -> Option<&str> {
        TemplateJinja::get_bos_token(self)
    }

    fn set_bos_token(&mut self, bos_token: Option<String>) {
        TemplateJinja::set_bos_token(self, bos_token)
    }

    fn get_eos_token(&self) -> Option<&str> {
        TemplateJinja::get_eos_token(self)
    }

    fn set_eos_token(&mut self, eos_token: Option<String>) {
        TemplateJinja::set_eos_token(self, eos_token)
    }

    fn apply(&self, messages: &[(MessageRole, String)]) -> Result<String, CallmError> {
        TemplateJinja::apply(self, messages)
    }
}

} // verus!
