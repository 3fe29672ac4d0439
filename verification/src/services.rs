//! The live services of the server, as far as composing it needs to know
//! them: which of them exist, and by which handle each is reached.

use vstd::prelude::*;

pub mod assembler;
pub mod model;

use crate::services::model::PromptInfo;
use crate::services::model::PromptInfoView;

verus! {

/// A ticket for a live backend that the caller holds.
#[derive(Clone, Copy, Debug, PartialEq, Eq, Structural)]
pub struct Handle {
    pub id: u64,
}

/// The services that were brought up. An absent handle is an expected
/// state: the capability is not offered.
#[derive(Debug, PartialEq, Eq)]
pub struct ResolvedServices {
    pub embedding: Option<Handle>,
    pub search: Option<Handle>,
    pub completion: Option<Handle>,
    pub chat: Option<Handle>,
    /// The templates reported by the completion backend.
    pub prompt: Option<PromptInfo>,
}

/// The services, with the templates as sequences of characters.
pub struct ResolvedServicesView {
    pub embedding: Option<Handle>,
    pub search: Option<Handle>,
    pub completion: Option<Handle>,
    pub chat: Option<Handle>,
    pub prompt: Option<PromptInfoView>,
}

/// The view of optional prompt templates.
pub open spec fn prompt_view(prompt: Option<PromptInfo>) -> Option<PromptInfoView> {
    match prompt {
        Some(p) => Some(p@),
        None => None,
    }
}

impl View for ResolvedServices {
    type V = ResolvedServicesView;

    open spec fn view(&self) -> ResolvedServicesView {
        ResolvedServicesView {
            embedding: self.embedding,
            search: self.search,
            completion: self.completion,
            chat: self.chat,
            prompt: prompt_view(self.prompt),
        }
    }
}

impl ResolvedServicesView {
    /// No service at all.
    pub open spec fn none() -> ResolvedServicesView {
        ResolvedServicesView {
            embedding: None,
            search: None,
            completion: None,
            chat: None,
            prompt: None,
        }
    }

    /// Search is built from embedding, and templates belong to a completion
    /// backend.
    pub open spec fn well_formed(self) -> bool {
        &&& self.search is Some ==> self.embedding is Some
        &&& self.prompt is Some ==> self.completion is Some
    }
}

impl ResolvedServices {
    /// No service at all.
    pub fn none() -> (services: ResolvedServices)
        ensures
            services@ == ResolvedServicesView::none(),
    {
        ResolvedServices { embedding: None, search: None, completion: None, chat: None, prompt: None }
    }
}

/// A copy of optional prompt templates.
pub fn clone_prompt(prompt: &Option<PromptInfo>) -> (copy: Option<PromptInfo>)
    ensures
        prompt_view(copy) == prompt_view(*prompt),
{
    match prompt {
        Some(p) => Some(p.clone()),
        None => None,
    }
}

impl Clone for ResolvedServices {
    fn clone(&self) -> (copy: Self)
        ensures
            copy@ == self@,
    {
        ResolvedServices {
            embedding: self.embedding,
            search: self.search,
            completion: self.completion,
            chat: self.chat,
            prompt: clone_prompt(&self.prompt),
        }
    }
}

} // verus!
