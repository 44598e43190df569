//! Chat-template implementations.
//!
//! A template turns a sequence of role/content messages into the single
//! prompt string handed to the generation pipeline. Two strategies exist: a
//! structured template bound to a template string ([`TemplateJinja`]) and a
//! pass-through fallback ([`TemplateDummy`]).

pub mod dummy;
pub mod jinja;

use crate::error::CallmError;
use vstd::prelude::*;

verus! {

pub use dummy::TemplateDummy;
pub use jinja::TemplateJinja;

/// An enum representing the roles in a message exchange.
#[derive(Clone, Debug, PartialEq, Eq, Structural)]
pub enum MessageRole {
    /// The system role.
    System,
    /// The user role.
    User,
    /// The assistant role.
    Assistant,
}

impl MessageRole {
    /// The lower-case name under which the role is exposed to a template.
    pub fn as_str(&self) -> (r: &str)
        ensures
            r@ == self.spec_name(),
    {
        match self {
            MessageRole::System => "system",
            MessageRole::User => "user",
            MessageRole::Assistant => "assistant",
        }
    }

    /// The name returned by [`MessageRole::as_str`].
    pub open spec fn spec_name(&self) -> Seq<char> {
        match self {
            MessageRole::System => "system"@,
            MessageRole::User => "user"@,
            MessageRole::Assistant => "assistant"@,
        }
    }
}

/// A trait defining the common interface of template implementations.
///
/// The exact behaviour of each operation is specified on the concrete types;
/// the trait itself only fixes the signatures so that callers can be written
/// against either implementation.
pub trait TemplateImpl {
    /// Returns the beginning-of-sequence (BOS) token.
    fn get_bos_token(&self) -> Option<&str>;

    /// Sets the beginning-of-sequence (BOS) token.
    fn set_bos_token(&mut self, bos_token: Option<String>);

    /// Returns the end-of-sequence (EOS) token.
    fn get_eos_token(&self) -> Option<&str>;

    /// Sets the end-of-sequence (EOS) token.
    fn set_eos_token(&mut self, eos_token: Option<String>);

    /// Applies the template to the given messages and returns the formatted
    /// string.
    fn apply(&self, messages: &[(MessageRole, String)]) -> Result<String, CallmError>;
}

/// The template chosen by a loader: either a structured template bound to a
/// template string, or the pass-through fallback.
pub enum Template {
    /// A structured template rendered through a templating engine.
    Jinja(TemplateJinja),
    /// The pass-through fallback template.
    Dummy(TemplateDummy),
}

impl Template {
    /// The end-of-sequence token of whichever implementation was chosen.
    pub open spec fn spec_eos(&self) -> Option<Seq<char>> {
        match self {
            Template::Jinja(t) => t.spec_eos(),
            Template::Dummy(t) => t.spec_eos(),
        }
    }

    /// The beginning-of-sequence token of whichever implementation was chosen.
    pub open spec fn spec_bos(&self) -> Option<Seq<char>> {
        match self {
            Template::Jinja(t) => t.spec_bos(),
            Template::Dummy(t) => t.spec_bos(),
        }
    }

    /// Returns the end-of-sequence (EOS) token.
    pub fn get_eos_token(&self) -> (r: Option<&str>)
        ensures
            match r {
                Some(s) => self.spec_eos() == Some(s@),
                None => self.spec_eos() is None,
            },
    {
        match self {
            Template::Jinja(t) => t.get_eos_token(),
            Template::Dummy(t) => t.get_eos_token(),
        }
    }

    /// Returns the beginning-of-sequence (BOS) token.
    pub fn get_bos_token(&self) -> (r: Option<&str>)
        ensures
            match r {
                Some(s) => self.spec_bos() == Some(s@),
                None => self.spec_bos() is None,
            },
    {
        match self {
            Template::Jinja(t) => t.get_bos_token(),
            Template::Dummy(t) => t.get_bos_token(),
        }
    }

    /// Sets the beginning-of-sequence (BOS) token.
    pub fn set_bos_token(&mut self, bos_token: Option<String>)
        ensures
            final(self).spec_bos() == (match bos_token {
                Some(s) => Some(s@),
                None => None::<Seq<char>>,
            }),
            final(self).spec_eos() == old(self).spec_eos(),
            (*old(self)) matches Template::Jinja(t) ==> ((*final(self)) matches Template::Jinja(t2)
                && t2.spec_template() == t.spec_template() && t2.spec_add_generation_prompt()
                == t.spec_add_generation_prompt()),
            (*old(self)) is Dummy ==> (*final(self)) is Dummy,
    {
        match self {
            Template::Jinja(t) => t.set_bos_token(bos_token),
            Template::Dummy(t) => t.set_bos_token(bos_token),
        }
    }

    /// Sets the end-of-sequence (EOS) token.
    pub fn set_eos_token(&mut self, eos_token: Option<String>)
        ensures
            final(self).spec_eos() == (match eos_token {
                Some(s) => Some(s@),
                None => None::<Seq<char>>,
            }),
            final(self).spec_bos() == old(self).spec_bos(),
            (*old(self)) matches Template::Jinja(t) ==> ((*final(self)) matches Template::Jinja(t2)
                && t2.spec_template() == t.spec_template() && t2.spec_add_generation_prompt()
                == t.spec_add_generation_prompt()),
            (*old(self)) is Dummy ==> (*final(self)) is Dummy,
    {
        match self {
            Template::Jinja(t) => t.set_eos_token(eos_token),
            Template::Dummy(t) => t.set_eos_token(eos_token),
        }
    }

    /// Applies the template to the given messages.
    ///
    /// For the fallback template this returns exactly the first message's
    /// text and fails on an empty sequence; for the structured template it
    /// returns what the engine renders from the bound template, the
    /// messages and the registered tokens.
    pub fn apply(&self, messages: &[(MessageRole, String)]) -> (r: Result<String, CallmError>)
        ensures
            self matches Template::Dummy(t) ==> TemplateDummy::apply_post(messages@, r),
            self matches Template::Jinja(t) ==> t.apply_post(messages@, r),
    {
        match self {
            Template::Jinja(t) => t.apply(messages),
            Template::Dummy(t) => t.apply(messages),
        }
    }
}

} // verus!
