//! The defaults from which a backend client is made.
//!
//! The defaults are a value that the caller owns and passes on. Each of
//! them can be set once: the first setting stands.

use vstd::prelude::*;
use vstd::string::*;

verus! {

/// Where a backend client comes from.
#[derive(Debug)]
pub enum ClientSource {
    /// A client made for this API key.
    ApiKey(String),
    /// A client that takes its key from the environment.
    Environment,
    /// A client that the caller has made.
    Custom,
}

/// A [`ClientSource`] with its key as a sequence of characters.
pub enum ClientSourceView {
    ApiKey(Seq<char>),
    Environment,
    Custom,
}

impl View for ClientSource {
    type V = ClientSourceView;

    open spec fn view(&self) -> ClientSourceView {
        match self {
            ClientSource::ApiKey(key) => ClientSourceView::ApiKey(key@),
            ClientSource::Environment => ClientSourceView::Environment,
            ClientSource::Custom => ClientSourceView::Custom,
        }
    }
}

impl DeepView for ClientSource {
    type V = ClientSourceView;

    open spec fn deep_view(&self) -> ClientSourceView {
        self@
    }
}

impl Clone for ClientSource {
    fn clone(&self) -> (copy: ClientSource)
        ensures
            copy@ == self@,
    {
        match self {
            ClientSource::ApiKey(key) => ClientSource::ApiKey(key.clone()),
            ClientSource::Environment => ClientSource::Environment,
            ClientSource::Custom => ClientSource::Custom,
        }
    }
}

/// What the defaults hold.
pub struct ClientDefaultsView {
    /// The default API key, once it was set.
    pub api_key: Option<Seq<char>>,
    /// Where the default client comes from, once that was settled.
    pub client: Option<ClientSourceView>,
}

/// The source of the default client where none was settled before: the
/// default key if one was set, else the environment.
pub open spec fn source_for(api_key: Option<Seq<char>>) -> ClientSourceView {
    match api_key {
        Some(key) => ClientSourceView::ApiKey(key),
        None => ClientSourceView::Environment,
    }
}

/// The defaults from which a backend client is made.
pub struct ClientDefaults {
    api_key: Option<String>,
    client: Option<ClientSource>,
}

impl View for ClientDefaults {
    type V = ClientDefaultsView;

    closed spec fn view(&self) -> ClientDefaultsView {
        ClientDefaultsView { api_key: self.api_key.deep_view(), client: self.client.deep_view() }
    }
}

impl ClientDefaults {
    /// Defaults of which nothing was set.
    pub fn new() -> (defaults: ClientDefaults)
        ensures
            defaults@ == (ClientDefaultsView { api_key: None, client: None }),
    {
        ClientDefaults { api_key: None, client: None }
    }
}

/// Sets the default API key, unless one was set before.
pub fn set_default_openai_key(defaults: &mut ClientDefaults, key: &str)
    ensures
        final(defaults)@ == if old(defaults)@.api_key is Some {
            old(defaults)@
        } else {
            ClientDefaultsView { api_key: Some(key@), ..old(defaults)@ }
        },
{
    if defaults.api_key.is_none() {
        defaults.api_key = Some(String::from_str(key));
    }
}

/// Says where the default client comes from, and settles it: the first
/// call decides by the default key, and every later call says the same.
pub fn get_default_client(defaults: &mut ClientDefaults) -> (source: ClientSource)
    ensures
        source@ == match old(defaults)@.client {
            Some(settled) => settled,
            None => source_for(old(defaults)@.api_key),
        },
        final(defaults)@ == (ClientDefaultsView { client: Some(source@), ..old(defaults)@ }),
{
    let settled = match &defaults.client {
        Some(source) => source.clone(),
        None => match &defaults.api_key {
            Some(key) => ClientSource::ApiKey(key.clone()),
            None => ClientSource::Environment,
        },
    };
    defaults.client = Some(settled.clone());
    settled
}

/// Makes a client of the caller's the default client, unless the default
/// client was settled before.
pub fn set_default_openai_client(defaults: &mut ClientDefaults)
    ensures
        final(defaults)@ == if old(defaults)@.client is Some {
            old(defaults)@
        } else {
            ClientDefaultsView { client: Some(ClientSourceView::Custom), ..old(defaults)@ }
        },
{
    if defaults.client.is_none() {
        defaults.client = Some(ClientSource::Custom);
    }
}

} // verus!
