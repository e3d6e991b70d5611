//! The records of the chat history that the rest of the library works on.

use vstd::prelude::*;

verus! {

/// A conversation of the chat history.
#[derive(Debug, PartialEq, Eq)]
pub struct Conversation {
    pub id: String,
    pub title: String,
    pub summary: String,
    pub created_at: String,
    pub updated_at: String,
    pub is_pinned: bool,
}

/// The mathematical value of a [`Conversation`].
pub struct ConversationView {
    pub id: Seq<char>,
    pub title: Seq<char>,
    pub summary: Seq<char>,
    pub created_at: Seq<char>,
    pub updated_at: Seq<char>,
    pub is_pinned: bool,
}

impl View for Conversation {
    type V = ConversationView;

    open spec fn view(&self) -> ConversationView {
        ConversationView {
            id: self.id@,
            title: self.title@,
            summary: self.summary@,
            created_at: self.created_at@,
            updated_at: self.updated_at@,
            is_pinned: self.is_pinned,
        }
    }
}

impl Conversation {
    /// A conversation that begins at the time `now`: it has no summary yet and
    /// is not pinned.
    pub fn create(id: String, title: String, now: &str) -> (conversation: Conversation)
        ensures
            conversation@ == (ConversationView {
                id: id@,
                title: title@,
                summary: Seq::empty(),
                created_at: now@,
                updated_at: now@,
                is_pinned: false,
            }),
    {
        Conversation {
            id,
            title,
            summary: String::new(),
            created_at: String::from_str(now),
            updated_at: String::from_str(now),
            is_pinned: false,
        }
    }
}

/// One message of a conversation.
#[derive(Debug, PartialEq, Eq)]
pub struct Message {
    pub id: String,
    pub conversation_id: String,
    pub role: String,
    pub content: String,
    pub timestamp: String,
}

/// The mathematical value of a [`Message`].
pub struct MessageView {
    pub id: Seq<char>,
    pub conversation_id: Seq<char>,
    pub role: Seq<char>,
    pub content: Seq<char>,
    pub timestamp: Seq<char>,
}

impl View for Message {
    type V = MessageView;

    open spec fn view(&self) -> MessageView {
        MessageView {
            id: self.id@,
            conversation_id: self.conversation_id@,
            role: self.role@,
            content: self.content@,
            timestamp: self.timestamp@,
        }
    }
}

/// A provider of language models.
#[derive(Debug, PartialEq, Eq)]
pub struct Provider {
    pub id: String,
    pub name: String,
    pub base_url: String,
    pub api_key: String,
    pub icon: String,
    pub created_at: String,
}

/// The mathematical value of a [`Provider`].
pub struct ProviderView {
    pub id: Seq<char>,
    pub name: Seq<char>,
    pub base_url: Seq<char>,
    pub api_key: Seq<char>,
    pub icon: Seq<char>,
    pub created_at: Seq<char>,
}

impl View for Provider {
    type V = ProviderView;

    open spec fn view(&self) -> ProviderView {
        ProviderView {
            id: self.id@,
            name: self.name@,
            base_url: self.base_url@,
            api_key: self.api_key@,
            icon: self.icon@,
            created_at: self.created_at@,
        }
    }
}

/// A language model of a provider.
#[derive(Debug, PartialEq, Eq)]
pub struct Model {
    pub id: String,
    pub provider_id: String,
    pub name: String,
    pub model_key: String,
    pub is_active: bool,
    pub created_at: String,
}

/// The mathematical value of a [`Model`].
pub struct ModelView {
    pub id: Seq<char>,
    pub provider_id: Seq<char>,
    pub name: Seq<char>,
    pub model_key: Seq<char>,
    pub is_active: bool,
    pub created_at: Seq<char>,
}

impl View for Model {
    type V = ModelView;

    open spec fn view(&self) -> ModelView {
        ModelView {
            id: self.id@,
            provider_id: self.provider_id@,
            name: self.name@,
            model_key: self.model_key@,
            is_active: self.is_active,
            created_at: self.created_at@,
        }
    }
}

impl Model {
    /// A model that is added at the time `now`: it is not the active one.
    pub fn create(
        id: String,
        provider_id: String,
        name: String,
        model_key: String,
        now: &str,
    ) -> (model: Model)
        ensures
            model@ == (ModelView {
                id: id@,
                provider_id: provider_id@,
                name: name@,
                model_key: model_key@,
                is_active: false,
                created_at: now@,
            }),
    {
        Model { id, provider_id, name, model_key, is_active: false, created_at: String::from_str(now) }
    }
}

/// A model together with the address and the key of the provider that
/// serves it.
#[derive(Debug, PartialEq, Eq)]
pub struct ModelWithProvider {
    pub model_id: String,
    pub model_name: String,
    pub model_key: String,
    pub provider_url: String,
    pub provider_key: String,
}

/// The mathematical value of a [`ModelWithProvider`].
pub struct ModelWithProviderView {
    pub model_id: Seq<char>,
    pub model_name: Seq<char>,
    pub model_key: Seq<char>,
    pub provider_url: Seq<char>,
    pub provider_key: Seq<char>,
}

impl View for ModelWithProvider {
    type V = ModelWithProviderView;

    open spec fn view(&self) -> ModelWithProviderView {
        ModelWithProviderView {
            model_id: self.model_id@,
            model_name: self.model_name@,
            model_key: self.model_key@,
            provider_url: self.provider_url@,
            provider_key: self.provider_key@,
        }
    }
}

} // verus!
