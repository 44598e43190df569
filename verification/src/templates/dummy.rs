//! Pass-through fallback template.
//!
//! The fallback deliberately discards every message except the first: no
//! richer semantics is defined for a model that ships without a chat
//! template, so `apply` returns only the first message's content.

use super::{MessageRole, TemplateImpl};
use crate::error::CallmError;
use vstd::prelude::*;

verus! {

/// Dummy template that does not process text in any way.
/// Only the first message's content is taken as input.
#[derive(Clone, Debug)]
pub struct TemplateDummy {
    bos_token: Option<String>,
    eos_token: Option<String>,
}

impl TemplateDummy {
    /// Creates a fallback template with no special tokens registered.
    pub fn new() -> (r: Self)
        ensures
            r.spec_bos() is None,
            r.spec_eos() is None,
    {
        Self { bos_token: None, eos_token: None }
    }

    /// The registered beginning-of-sequence token, if any.
    pub closed spec fn spec_bos(&self) -> Option<Seq<char>> {
        match self.bos_token {
            Some(ref s) => Some(s@),
            None => None,
        }
    }

    /// The registered end-of-sequence token, if any.
    pub closed spec fn spec_eos(&self) -> Option<Seq<char>> {
        match self.eos_token {
            Some(ref s) => Some(s@),
            None => None,
        }
    }

    /// Whether [`TemplateDummy::apply`] returned what the fallback owes:
    /// the first message's content on a non-empty sequence, a template error
    /// naming the empty input otherwise.
    pub open spec fn apply_post(
        messages: Seq<(MessageRole, String)>,
        r: Result<String, CallmError>,
    ) -> bool {
        &&& (messages.len() == 0 <==> r is Err)
        &&& (messages.len() > 0 ==> r == Ok::<String, CallmError>(messages[0].1))
        &&& (r matches Err(e) ==> e matches CallmError::TemplateError(m) && m@
            == "Error applying template (no messages passed in)"@)
    }

    /// Applies the template: returns exactly the first message's content,
    /// ignoring all others, and fails with a template error if and only if
    /// the message sequence is empty.
    pub fn apply(&self, messages: &[(MessageRole, String)]) -> (r: Result<String, CallmError>)
        ensures
            Self::apply_post(messages@, r),
    {
        if messages.len() == 0 {
            return Err(
                CallmError::TemplateError(
                    String::from_str("Error applying template (no messages passed in)"),
                ),
            );
        }
        Ok(messages[0].1.clone())
    }

    /// Returns the beginning-of-sequence (BOS) token.
    pub fn get_bos_token(&self) -> (r: Option<&str>)
        ensures
            match r {
                Some(s) => self.spec_bos() == Some(s@),
                None => self.spec_bos() is None,
            },
    {
        match &self.bos_token {
            Some(bos) => Some(bos.as_str()),
            None => None,
        }
    }

    /// Sets the beginning-of-sequence (BOS) token.
    pub fn set_bos_token(&mut self, bos_token: Option<String>)
        ensures
            final(self).spec_bos() == (match bos_token {
                Some(s) => Some(s@),
                None => None::<Seq<char>>,
            }),
            final(self).spec_eos() == old(self).spec_eos(),
    {
        self.bos_token = bos_token;
    }

    /// Returns the end-of-sequence (EOS) token.
    pub fn get_eos_token(&self) -> (r: Option<&str>)
        ensures
            match r {
                Some(s) => self.spec_eos() == Some(s@),
                None => self.spec_eos() is None,
            },
    {
        match &self.eos_token {
            Some(eos) => Some(eos.as_str()),
            None => None,
        }
    }

    /// Sets the end-of-sequence (EOS) token.
    pub fn set_eos_token(&mut self, eos_token: Option<String>)
        ensures
            final(self).spec_eos() == (match eos_token {
                Some(s) => Some(s@),
                None => None::<Seq<char>>,
            }),
            final(self).spec_bos() == old(self).spec_bos(),
    {
        self.eos_token = eos_token;
    }
}

impl TemplateImpl for TemplateDummy {
    fn get_bos_token(&self) -> Option<&str> {
        TemplateDummy::get_bos_token(self)
    }

    fn set_bos_token(&mut self, bos_token: Option<String>) {
        TemplateDummy::set_bos_token(self, bos_token)
    }

    fn get_eos_token(&self) -> Option<&str> {
        TemplateDummy::get_eos_token(self)
    }

    fn set_eos_token(&mut self, eos_token: Option<String>) {
        TemplateDummy::set_eos_token(self, eos_token)
    }

    fn apply(&self, messages: &[(MessageRole, String)]) -> Result<String, CallmError> {
        TemplateDummy::apply(self, messages)
    }
}

} // verus!
