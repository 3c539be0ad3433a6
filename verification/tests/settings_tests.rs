use stt_core::settings::{get_stt_settings, save_stt_settings, KvStore, SettingKey, SttSettings};

#[test]
fn defaults_apply_on_an_empty_store() {
    let store = KvStore::new();
    let s = get_stt_settings(&store);
    assert_eq!(s.provider, "mistral");
    assert_eq!(s.api_key, None);
    assert_eq!(s.model, "voxtral-mini-latest");
    assert_eq!(s.language, None);
}

#[test]
fn unsupplied_key_and_language_survive_a_second_save() {
    let mut store = KvStore::new();
    save_stt_settings(
        &mut store,
        SttSettings {
            provider: String::from("openai"),
            api_key: Some(String::from("k1")),
            model: String::from("m1"),
            language: Some(String::from("en")),
        },
    );
    let first = get_stt_settings(&store);
    assert_eq!(first.provider, "openai");
    assert_eq!(first.api_key, Some(String::from("k1")));
    assert_eq!(first.model, "m1");
    assert_eq!(first.language, Some(String::from("en")));

    save_stt_settings(
        &mut store,
        SttSettings {
            provider: String::from("local"),
            api_key: None,
            model: String::from("m2"),
            language: None,
        },
    );
    let second = get_stt_settings(&store);
    assert_eq!(second.provider, "local");
    assert_eq!(second.api_key, Some(String::from("k1")));
    assert_eq!(second.model, "m2");
    assert_eq!(second.language, Some(String::from("en")));
}

#[test]
fn rows_are_read_and_written_by_key() {
    let mut store = KvStore::new();
    assert_eq!(store.get(SettingKey::Provider), None);
    store.set(SettingKey::Provider, String::from("mistral"));
    store.set(SettingKey::ApiKey, String::from("k"));
    assert_eq!(store.get(SettingKey::Provider), Some(String::from("mistral")));
    assert_eq!(store.get(SettingKey::ApiKey), Some(String::from("k")));
    assert_eq!(store.get(SettingKey::Model), None);
    store.set(SettingKey::Provider, String::from("local"));
    assert_eq!(store.get(SettingKey::Provider), Some(String::from("local")));
}
