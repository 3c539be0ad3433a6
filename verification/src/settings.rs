use vstd::prelude::*;
use vstd::string::StringExecFns;

verus! {

/// The four independent rows under which the pipeline's configuration is kept.
#[derive(Debug, Clone, Copy, PartialEq, Eq, Structural)]
pub enum SettingKey {
    Provider,
    ApiKey,
    Model,
    Language,
}

/// The key-value store the settings live in: one optional row per key.
/// The hosting application persists and reloads the rows; the read and write
/// rules over them are decided here.
#[derive(Debug, Clone, PartialEq, Eq)]
pub struct KvStore {
    pub provider_row: Option<String>,
    pub api_key_row: Option<String>,
    pub model_row: Option<String>,
    pub language_row: Option<String>,
}

/// The speech-to-text configuration as the caller sees it.
#[derive(Debug, Clone, PartialEq, Eq)]
pub struct SttSettings {
    pub provider: String,
    pub api_key: Option<String>,
    pub model: String,
    pub language: Option<String>,
}

/// The provider assumed when no row is stored.
pub open spec fn default_provider() -> Seq<char> {
    "mistral"@
}

/// The model assumed when no row is stored.
pub open spec fn default_model() -> Seq<char> {
    "voxtral-mini-latest"@
}

/// The view of an optional owned string.
pub open spec fn opt_view(o: Option<String>) -> Option<Seq<char>> {
    match o {
        Some(s) => Some(s@),
        None => None,
    }
}

impl KvStore {
    /// A store with no rows.
    pub fn new() -> (r: KvStore)
        ensures
            r.spec_get(SettingKey::Provider) is None,
            r.spec_get(SettingKey::ApiKey) is None,
            r.spec_get(SettingKey::Model) is None,
            r.spec_get(SettingKey::Language) is None,
    {
        KvStore { provider_row: None, api_key_row: None, model_row: None, language_row: None }
    }

    /// The row stored under a key.
    pub open spec fn spec_get(&self, key: SettingKey) -> Option<Seq<char>> {
        match key {
            SettingKey::Provider => opt_view(self.provider_row),
            SettingKey::ApiKey => opt_view(self.api_key_row),
            SettingKey::Model => opt_view(self.model_row),
            SettingKey::Language => opt_view(self.language_row),
        }
    }

    /// The store after a row is written.
    pub open spec fn spec_set(self, key: SettingKey, value: String) -> KvStore {
        match key {
            SettingKey::Provider => KvStore { provider_row: Some(value), ..self },
            SettingKey::ApiKey => KvStore { api_key_row: Some(value), ..self },
            SettingKey::Model => KvStore { model_row: Some(value), ..self },
            SettingKey::Language => KvStore { language_row: Some(value), ..self },
        }
    }

    /// Read the row stored under a key, if any.
    pub fn get(&self, key: SettingKey) -> (r: Option<String>)
        ensures
            opt_view(r) == self.spec_get(key),
    {
        match key {
            SettingKey::Provider => self.provider_row.clone(),
            SettingKey::ApiKey => self.api_key_row.clone(),
            SettingKey::Model => self.model_row.clone(),
            SettingKey::Language => self.language_row.clone(),
        }
    }

    /// Write the row under a key, replacing any earlier value.
    pub fn set(&mut self, key: SettingKey, value: String)
        ensures
            *final(self) == old(self).spec_set(key, value),
    {
        match key {
            SettingKey::Provider => self.provider_row = Some(value),
            SettingKey::ApiKey => self.api_key_row = Some(value),
            SettingKey::Model => self.model_row = Some(value),
            SettingKey::Language => self.language_row = Some(value),
        }
    }
}

/// The settings a read yields: stored rows, with the documented defaults for a
/// missing provider or model, and no default for key or language.
pub open spec fn settings_read_spec(store: KvStore) -> (Seq<char>, Option<Seq<char>>, Seq<
    char,
>, Option<Seq<char>>) {
    (
        match store.spec_get(SettingKey::Provider) {
            Some(p) => p,
            None => default_provider(),
        },
        store.spec_get(SettingKey::ApiKey),
        match store.spec_get(SettingKey::Model) {
            Some(m) => m,
            None => default_model(),
        },
        store.spec_get(SettingKey::Language),
    )
}

/// The store after a save: provider and model are always overwritten; the API
/// key and the language are overwritten only when a value is supplied, and are
/// left untouched otherwise.
pub open spec fn settings_saved_spec(store: KvStore, s: SttSettings) -> KvStore {
    let st = store.spec_set(SettingKey::Provider, s.provider).spec_set(SettingKey::Model, s.model);
    let st = match s.api_key {
        Some(k) => st.spec_set(SettingKey::ApiKey, k),
        None => st,
    };
    match s.language {
        Some(l) => st.spec_set(SettingKey::Language, l),
        None => st,
    }
}

/// Read the speech-to-text settings from the store, applying the defaults.
pub fn get_stt_settings(store: &KvStore) -> (r: SttSettings)
    ensures
        (r.provider@, opt_view(r.api_key), r.model@, opt_view(r.language)) == settings_read_spec(
            *store,
        ),
{
    let provider = match store.get(SettingKey::Provider) {
        Some(p) => p,
        None => String::from_str("mistral"),
    };
    let api_key = store.get(SettingKey::ApiKey);
    let model = match store.get(SettingKey::Model) {
        Some(m) => m,
        None => String::from_str("voxtral-mini-latest"),
    };
    let language = store.get(SettingKey::Language);
    SttSettings { provider, api_key, model, language }
}

/// Save the speech-to-text settings into the store: provider and model always,
/// API key and language only when supplied.
pub fn save_stt_settings(store: &mut KvStore, settings: SttSettings)
    ensures
        *final(store) == settings_saved_spec(*old(store), settings),
{
    store.set(SettingKey::Provider, settings.provider);
    store.set(SettingKey::Model, settings.model);
    match settings.api_key {
        Some(k) => store.set(SettingKey::ApiKey, k),
        None => (),
    }
    match settings.language {
        Some(l) => store.set(SettingKey::Language, l),
        None => (),
    }
}

/// Saving settings with every field supplied and then saving again with the
/// API key and the language absent keeps the earlier key and language, while
/// the provider and the model are overwritten by the second save; a read then
/// sees exactly that mixture, with no defaults applied.
pub proof fn lemma_save_preserves_unsupplied(store: KvStore, s1: SttSettings, s2: SttSettings)
    requires
        s1.api_key is Some,
        s1.language is Some,
        s2.api_key is None,
        s2.language is None,
    ensures
        settings_read_spec(settings_saved_spec(settings_saved_spec(store, s1), s2)) == (
            s2.provider@,
            Some(s1.api_key->Some_0@),
            s2.model@,
            Some(s1.language->Some_0@),
        ),
{
}

/// A save followed by a read yields exactly what was saved whenever every
/// field was supplied: no default and no stale row shows through.
pub proof fn lemma_save_then_read(store: KvStore, s: SttSettings)
    requires
        s.api_key is Some,
        s.language is Some,
    ensures
        settings_read_spec(settings_saved_spec(store, s)) == (
            s.provider@,
            Some(s.api_key->Some_0@),
            s.model@,
            Some(s.language->Some_0@),
        ),
{
}

} // verus!
