use tgbacky::cli::{
    after_keychain_save, becomes_default, check_api_use, check_credentials, chosen_profile,
    credentials_from_args, credentials_storage_message, is_confirmed, parse_prompted_api_id,
    parse_yes_no, password_label, PersistStep, PersistedCredentialStorage,
};
use tgbacky::environment::EnvValue;
use tgbacky::error::AppError;
use tgbacky::onboarding::{Onboarding, Purpose, Stage};
use tgbacky::secrets::{
    after_api_hash, after_api_id, after_credentials, after_presence, candidate_api_profiles,
    check_api_credential_profile, check_keychain_backend, clear_current_api_profile_if_matches,
    credential_storage_status, current_api_profile, default_api_profile_name,
    delete_local_telegram_credentials, delete_telegram_credentials,
    ensure_persistent_keychain_backend, entry_name, entry_unavailable, has_telegram_credentials,
    keychain_backend_is_persistent, keychain_backend_label, list_api_credential_profiles,
    load_telegram_credentials, load_telegram_credentials_with_status, local_credentials_path,
    map_keyring_error, next_default, parse_api_id, read_local_credentials_file,
    read_registered_api_profiles, register_api_profile, resolve_api_profile,
    save_telegram_credentials_to_local_file, set_current_api_profile, unregister_api_profile,
    verify_keychain_credentials, CredentialSaveError, CredentialStorageKind,
    CredentialStorageStatus, DecodedCredentials, KeychainAccessError, KeychainField,
    KeychainPersistence, LookupStep, PresenceStep, ProfileStatus, TelegramCredentials,
};

fn credentials(api_id: i32, api_hash: &str) -> TelegramCredentials {
    TelegramCredentials { api_id, api_hash: api_hash.to_string() }
}

fn encode(given: &TelegramCredentials) -> String {
    let mut object = serde_json::Map::new();
    object.insert("api_id".to_string(), serde_json::Value::from(given.api_id));
    object.insert("api_hash".to_string(), serde_json::Value::from(given.api_hash.as_str()));
    serde_json::to_string_pretty(&serde_json::Value::Object(object)).expect("serialize")
}

fn decode(contents: &str) -> DecodedCredentials {
    let value: serde_json::Value = serde_json::from_str(contents).expect("json");
    let api_id = value.get("api_id").and_then(serde_json::Value::as_i64).expect("api_id");
    let api_hash = value.get("api_hash").and_then(serde_json::Value::as_str).expect("api_hash");
    DecodedCredentials::Stored(credentials(api_id as i32, api_hash))
}

#[test]
fn local_credentials_file_round_trip() {
    let given = credentials(123456, "abcd1234");
    let contents = encode(&given);
    let stored = read_local_credentials_file("credentials.json", decode(contents.as_str()))
        .expect("read credentials");
    assert_eq!(stored.api_id, given.api_id);
    assert_eq!(stored.api_hash, given.api_hash);
}

#[test]
fn local_credentials_file_rejects_invalid_api_id() {
    let contents = encode(&credentials(0, "abcd1234"));
    let error = read_local_credentials_file("credentials.json", decode(contents.as_str()))
        .expect_err("invalid api id should fail");
    assert!(error.message().contains("must be positive"));
}

#[test]
fn local_credentials_file_reports_other_faults() {
    let error = read_local_credentials_file("/c.json", DecodedCredentials::Invalid("eof".to_string()))
        .unwrap_err();
    assert_eq!(
        error.message(),
        "invalid configuration: local Telegram credentials file at /c.json is invalid: eof"
    );
    let error =
        read_local_credentials_file("/c.json", DecodedCredentials::Stored(credentials(1, " ")))
            .unwrap_err();
    assert_eq!(
        error.message(),
        "invalid configuration: local Telegram credentials file at /c.json contains an empty api_hash"
    );
}

#[test]
fn api_ids_are_read() {
    assert_eq!(parse_api_id("42", "here").expect("id"), 42);
    assert_eq!(
        parse_api_id("x", "here").unwrap_err().message(),
        "invalid configuration: here is invalid; run `tgbacky auth` again or set \
         tgbacky_API_ID/tgbacky_API_HASH explicitly"
    );
    assert_eq!(
        parse_api_id("-3", "here").unwrap_err().message(),
        "invalid configuration: here must be positive"
    );
}

#[test]
fn keychain_lookup_takes_the_one_entry_first() {
    let step = after_credentials("p", Ok(Some(DecodedCredentials::Stored(credentials(5, "h")))));
    match step {
        LookupStep::Done(Ok(Some(found))) => {
            assert_eq!(found.api_id, 5);
            assert_eq!(found.api_hash, "h");
        }
        other => panic!("{other:?}"),
    }
    let step = after_credentials("p", Ok(Some(DecodedCredentials::Stored(credentials(0, "h")))));
    match step {
        LookupStep::Done(Err(error)) => assert_eq!(
            error.message(),
            "invalid configuration: stored api_id in the OS keychain for profile `p` must be positive"
        ),
        other => panic!("{other:?}"),
    }
    let step = after_credentials("p", Ok(Some(DecodedCredentials::Stored(credentials(1, " ")))));
    match step {
        LookupStep::Done(Err(error)) => assert_eq!(
            error.message(),
            "stored api_hash in the OS keychain for profile `p` is empty"
        ),
        other => panic!("{other:?}"),
    }
    let step = after_credentials("p", Ok(Some(DecodedCredentials::Invalid("bad".to_string()))));
    match step {
        LookupStep::Done(Err(KeychainAccessError::Failure(message))) => assert_eq!(
            message,
            "stored Telegram API credentials in OS keychain for profile `p` are invalid: bad"
        ),
        other => panic!("{other:?}"),
    }
    assert!(matches!(after_credentials("p", Ok(None)), LookupStep::ReadApiId));
}

#[test]
fn keychain_lookup_falls_back_to_two_entries() {
    assert!(matches!(after_api_id(Ok(None)), LookupStep::Done(Ok(None))));
    let id = match after_api_id(Ok(Some("12".to_string()))) {
        LookupStep::ReadApiHash(id) => id,
        other => panic!("{other:?}"),
    };
    let found = after_api_hash("p", id.as_str(), Ok(Some("hash".to_string())))
        .expect("readable")
        .expect("credentials");
    assert_eq!(found.api_id, 12);
    assert_eq!(found.api_hash, "hash");
    assert!(after_api_hash("p", "12", Ok(None)).expect("readable").is_none());
    assert!(after_api_hash("p", "12", Ok(Some("  ".to_string()))).is_err());
    assert!(after_api_hash("p", "twelve", Ok(Some("hash".to_string()))).is_err());
    let gone = Err(KeychainAccessError::Unavailable("locked".to_string()));
    assert!(matches!(
        after_api_hash("p", "12", gone),
        Err(KeychainAccessError::Unavailable(_))
    ));
}

#[test]
fn presence_needs_one_entry_or_both() {
    assert!(matches!(
        after_presence(KeychainField::Credentials, Ok(true)),
        PresenceStep::Done(Ok(true))
    ));
    assert!(matches!(
        after_presence(KeychainField::Credentials, Ok(false)),
        PresenceStep::Ask(KeychainField::ApiId)
    ));
    assert!(matches!(
        after_presence(KeychainField::ApiId, Ok(false)),
        PresenceStep::Done(Ok(false))
    ));
    assert!(matches!(
        after_presence(KeychainField::ApiId, Ok(true)),
        PresenceStep::Ask(KeychainField::ApiHash)
    ));
    assert!(matches!(
        after_presence(KeychainField::ApiHash, Ok(true)),
        PresenceStep::Done(Ok(true))
    ));
}

#[test]
fn keychain_comes_before_the_local_file() {
    let (found, status) = load_telegram_credentials_with_status(
        Ok(Some(credentials(1, "key"))),
        true,
        Ok(Some(credentials(2, "file"))),
    )
    .expect("load");
    assert_eq!(found.expect("credentials").api_id, 1);
    assert_eq!(status, CredentialStorageStatus::KeychainAndLocalFile);

    let unavailable = Err(KeychainAccessError::Unavailable("locked".to_string()));
    let (found, status) =
        load_telegram_credentials_with_status(unavailable, true, Ok(Some(credentials(2, "file"))))
            .expect("load");
    assert_eq!(found.expect("credentials").api_id, 2);
    assert_eq!(status, CredentialStorageStatus::LocalFile);

    let broken = Err(KeychainAccessError::Failure("broken".to_string()));
    let error = load_telegram_credentials_with_status(broken, true, Ok(None)).unwrap_err();
    assert_eq!(error.message(), "invalid configuration: broken");

    assert!(load_telegram_credentials(Ok(None), Ok(None)).expect("load").is_none());
}

#[test]
fn storage_status_and_labels() {
    let labels: Vec<&str> = vec![
        credential_storage_status(Ok(true), true).expect("status").label(),
        credential_storage_status(Ok(true), false).expect("status").label(),
        credential_storage_status(Ok(false), true).expect("status").label(),
        credential_storage_status(Ok(false), false).expect("status").label(),
    ];
    assert_eq!(labels, vec!["keychain+local-file", "keychain", "local-file", "none"]);
    assert_eq!(CredentialStorageKind::Keychain.label(), "OS keychain");
    assert_eq!(CredentialStorageKind::LocalFile.label(), "local API file");
    assert!(has_telegram_credentials(Ok(false), true).expect("some"));
    assert!(!has_telegram_credentials(
        Err(KeychainAccessError::Unavailable("x".to_string())),
        false
    )
    .expect("none"));
    let error = credential_storage_status(
        Err(KeychainAccessError::Failure("broken".to_string())),
        false,
    )
    .unwrap_err();
    assert_eq!(error.message(), "runtime error: broken");
}

#[test]
fn keychain_messages_name_the_profile() {
    assert_eq!(entry_name("My Team", KeychainField::ApiHash), "api:my_team:api_hash");
    assert_eq!(
        entry_unavailable("My Team", "no bus").message(),
        "OS keychain is unavailable for API profile `my_team`: no bus"
    );
    let error = map_keyring_error("p", "read it", true, "locked");
    assert!(matches!(error, KeychainAccessError::Unavailable(_)));
    assert_eq!(
        error.message(),
        "OS keychain is unavailable for API profile `p` while trying to read it: locked"
    );
    assert!(matches!(
        map_keyring_error("p", "read it", false, "locked"),
        KeychainAccessError::Failure(_)
    ));
}

#[test]
fn only_a_lasting_keychain_is_used() {
    assert!(ensure_persistent_keychain_backend("p", KeychainPersistence::UntilDelete).is_ok());
    let refused = ensure_persistent_keychain_backend("p", KeychainPersistence::EntryOnly);
    assert_eq!(
        refused,
        Err(CredentialSaveError::KeychainUnavailable(
            "OS keychain backend is not persistent for API profile `p` (backend: entry-only). \
             Native keyring support is missing for this build."
                .to_string()
        ))
    );
    let label = keychain_backend_label();
    assert!(["entry-only", "process-only", "until-reboot", "until-delete", "unknown"]
        .contains(&label));
    assert_eq!(keychain_backend_is_persistent(), label == "until-delete");
    assert_eq!(check_keychain_backend("p").is_ok(), label == "until-delete");
}

#[test]
fn api_profile_precedence() {
    let env = EnvValue::Text("Env Name".to_string());
    let current = || Ok(Some("current".to_string()));
    assert_eq!(
        resolve_api_profile(Some("Flag".to_string()), &EnvValue::NotUnicode, current())
            .expect("flag"),
        "flag"
    );
    assert_eq!(resolve_api_profile(None, &env, current()).expect("env"), "env_name");
    assert_eq!(
        resolve_api_profile(None, &EnvValue::Missing, current()).expect("current"),
        "current"
    );
    assert_eq!(
        resolve_api_profile(None, &EnvValue::Missing, Ok(None)).expect("default"),
        default_api_profile_name()
    );
    assert!(resolve_api_profile(Some("--".to_string()), &env, current()).is_err());
    assert!(matches!(
        resolve_api_profile(None, &EnvValue::NotUnicode, current()),
        Err(AppError::Config(_))
    ));
}

#[test]
fn current_api_profile_file_is_written_and_read() {
    let content = set_current_api_profile("Back Up").expect("content");
    assert_eq!(content, "back_up\n");
    assert_eq!(current_api_profile(Some(content.as_str())).as_deref(), Some("back_up"));
    assert!(clear_current_api_profile_if_matches("back up", Some("back_up\n")).expect("match"));
    assert!(!clear_current_api_profile_if_matches("x", None).expect("match"));
}

#[test]
fn credentials_files_stand_below_the_data_folder() {
    assert_eq!(
        local_credentials_path("/data", "Back Up").expect("path"),
        "/data/api-credentials/back_up.json"
    );
    let file = save_telegram_credentials_to_local_file("/data", "x").expect("file");
    assert_eq!(file.path, "/data/api-credentials/x.json");
    assert_eq!(file.temp_path, "/data/api-credentials/x.json.tmp");
    assert_eq!(
        delete_local_telegram_credentials("/data", "x").expect("path"),
        "/data/api-credentials/x.json"
    );
    assert!(local_credentials_path("/data", "").is_err());
}

#[test]
fn registered_profiles_read_back() {
    let body = register_api_profile("Zeta", None).expect("first");
    assert_eq!(body, "zeta\n");
    let body = register_api_profile("alpha", Some(body.as_str())).expect("second");
    assert_eq!(body, "alpha\nzeta\n");
    let body = register_api_profile("ALPHA", Some(body.as_str())).expect("again");
    assert_eq!(body, "alpha\nzeta\n");
    assert_eq!(read_registered_api_profiles(Some(body.as_str())).list(), vec!["alpha", "zeta"]);
    let body = unregister_api_profile("alpha", Some(body.as_str())).expect("removed");
    assert_eq!(body, "zeta\n");
    let body = unregister_api_profile("zeta", Some(body.as_str())).expect("empty");
    assert_eq!(body, "");
    assert!(register_api_profile("??", None).is_err());
    assert_eq!(
        read_registered_api_profiles(Some("b\r\n\n  A \n??\nb")).list(),
        vec!["a", "b"]
    );
}

#[test]
fn lists_profiles_with_credentials_and_the_current_one() {
    let files = vec!["/d/work.json".to_string(), "/d/notes.txt".to_string(), "old.json".to_string()];
    let names = candidate_api_profiles("main", true, Some("zeta\n"), &files);
    assert_eq!(names, vec!["default", "main", "old", "work", "zeta"]);
    let found = vec![
        ProfileStatus { name: "default".to_string(), status: CredentialStorageStatus::Keychain },
        ProfileStatus { name: "main".to_string(), status: CredentialStorageStatus::Absent },
        ProfileStatus { name: "old".to_string(), status: CredentialStorageStatus::Absent },
    ];
    let entries = list_api_credential_profiles("main", found);
    assert_eq!(entries.len(), 2);
    assert_eq!(entries[0].name, "default");
    assert!(!entries[0].is_default);
    assert_eq!(entries[1].name, "main");
    assert!(entries[1].is_default);
    assert_eq!(next_default(&entries).as_deref(), Some("default"));
    assert_eq!(next_default(&entries[1..]), None);
}

#[test]
fn checks_report_what_the_keychain_said() {
    let check = check_api_credential_profile(
        Ok(Some(credentials(1, "h"))),
        "/d/x.json".to_string(),
        false,
    );
    assert!(check.keychain_readable);
    assert_eq!(check.status, CredentialStorageStatus::Keychain);
    assert_eq!(check.keychain_message, "keychain entry readable");
    assert_eq!(check.keychain_backend, keychain_backend_label());
    let check = check_api_credential_profile(Ok(None), "/d/x.json".to_string(), true);
    assert_eq!(check.status, CredentialStorageStatus::LocalFile);
    assert_eq!(check.keychain_message, "keychain entry not found");
    let check = check_api_credential_profile(
        Err(KeychainAccessError::Failure("boom".to_string())),
        "/d/x.json".to_string(),
        false,
    );
    assert_eq!(check.keychain_message, "boom");
    assert_eq!(check.local_path, "/d/x.json");
}

#[test]
fn written_credentials_are_read_back() {
    let expected = credentials(5, "h");
    assert!(verify_keychain_credentials(Ok(Some(credentials(5, "h"))), &expected).is_ok());
    assert_eq!(
        verify_keychain_credentials(Ok(Some(credentials(5, "x"))), &expected),
        Err("keychain entry was readable, but value did not match".to_string())
    );
    assert_eq!(
        verify_keychain_credentials(Ok(None), &expected),
        Err("keychain entry was not found after write".to_string())
    );
}

#[test]
fn deleting_credentials_removes_every_copy() {
    let removal = delete_telegram_credentials("/data", "Team", Some("team\nzeta\n")).expect("plan");
    assert_eq!(removal.file, "/data/api-credentials/team.json");
    assert_eq!(
        removal.entries,
        vec!["api:team:credentials", "api:team:api_id", "api:team:api_hash"]
    );
    assert_eq!(removal.listed, "zeta\n");
}

#[test]
fn answers_are_understood() {
    assert!(parse_yes_no("\n", true).expect("default"));
    assert!(!parse_yes_no("", false).expect("default"));
    assert!(parse_yes_no(" Y \n", false).expect("yes"));
    assert!(!parse_yes_no("NO", true).expect("no"));
    assert_eq!(
        parse_yes_no("sure", true).unwrap_err().message(),
        "invalid arguments: please answer `yes` or `no`"
    );
    assert!(is_confirmed(" yes\n"));
    assert!(!is_confirmed("Yes"));
    assert!(!is_confirmed("y"));
}

#[test]
fn typed_credentials_are_checked() {
    assert_eq!(parse_prompted_api_id(" 12 \n").expect("id"), 12);
    assert!(parse_prompted_api_id("0").is_err());
    assert!(parse_prompted_api_id("abc").is_err());
    assert_eq!(check_credentials(3, " h ").expect("both").api_hash, "h");
    assert!(check_credentials(3, "  ").is_err());
    assert!(check_credentials(-1, "h").is_err());
    assert!(credentials_from_args(None, None).expect("ask").is_none());
    assert_eq!(
        credentials_from_args(Some(1), Some("h".to_string()))
            .expect("both")
            .expect("given")
            .api_id,
        1
    );
    assert_eq!(
        credentials_from_args(Some(1), None).unwrap_err().message(),
        "invalid arguments: --api-id and --api-hash must be provided together"
    );
}

#[test]
fn keychain_failures_lead_to_a_question() {
    assert!(matches!(
        after_keychain_save("p", Ok(CredentialStorageKind::Keychain), Ok(())),
        PersistStep::Keep
    ));
    match after_keychain_save(
        "p",
        Ok(CredentialStorageKind::Keychain),
        Err("value did not match".to_string()),
    ) {
        PersistStep::AskForFile(lines) => assert_eq!(
            lines,
            vec![
                "OS keychain accepted the write, but tgbacky could not read it back for API profile `p`.",
                "Keychain detail: value did not match",
            ]
        ),
        other => panic!("{other:?}"),
    }
    match after_keychain_save(
        "p",
        Err(CredentialSaveError::KeychainUnavailable("no keychain".to_string())),
        Ok(()),
    ) {
        PersistStep::AskForFile(lines) => assert_eq!(
            lines,
            vec![
                "no keychain",
                "Telegram API credentials were not saved to the OS keychain for API profile `p`.",
            ]
        ),
        other => panic!("{other:?}"),
    }
}

#[test]
fn storage_is_announced() {
    assert_eq!(
        credentials_storage_message("p", &PersistedCredentialStorage::Keychain),
        vec!["Telegram API credentials saved to OS keychain as `p`."]
    );
    assert_eq!(
        credentials_storage_message("p", &PersistedCredentialStorage::LocalFile("/f".to_string())),
        vec![
            "Telegram API credentials saved to local file for `p`: /f.",
            "This file is sensitive because it stores the API hash in plaintext.",
        ]
    );
    assert_eq!(
        credentials_storage_message("p", &PersistedCredentialStorage::NotSaved).len(),
        1
    );
}

#[test]
fn small_choices_of_the_prompt() {
    assert!(becomes_default(false, &None));
    assert!(becomes_default(true, &Some("x".to_string())));
    assert!(!becomes_default(false, &Some("x".to_string())));
    assert!(check_api_use("x", CredentialStorageStatus::Keychain).is_ok());
    assert_eq!(
        check_api_use("x", CredentialStorageStatus::Absent).unwrap_err().message(),
        "invalid arguments: API profile `x` has no stored credentials; run `tgbacky api add \
         --name x` first"
    );
    assert_eq!(password_label(None), "2FA password: ");
    assert_eq!(password_label(Some(String::new())), "2FA password: ");
    assert_eq!(password_label(Some("cat".to_string())), "2FA password (hint: cat): ");
    assert_eq!(chosen_profile(" default "), None);
    assert_eq!(chosen_profile("\n"), None);
    assert_eq!(chosen_profile(" Work\n").as_deref(), Some("Work"));
}

#[test]
fn a_command_leads_a_new_user_to_a_login() {
    let mut way = Onboarding::new(Purpose::Command, false);
    assert_eq!(way.stage, Stage::OfferCredentials);
    way.on_answer(true, "work").expect("yes");
    assert_eq!(way.stage, Stage::EnterCredentials);
    way.on_credentials();
    assert_eq!(way.stage, Stage::Connect);
    way.on_connected(false);
    assert_eq!(way.stage, Stage::Login);
    way.on_login();
    assert_eq!(way.stage, Stage::Persist);
    way.on_persisted();
    assert_eq!(way.stage, Stage::Done);
    assert!(way.authorized);
}

#[test]
fn a_command_asks_before_it_signs_in() {
    let mut way = Onboarding::new(Purpose::Command, true);
    way.on_connected(false);
    assert_eq!(way.stage, Stage::OfferLogin);
    let error = way.on_answer(false, "work").unwrap_err();
    assert_eq!(
        error.message(),
        "authentication failed: Telegram login is required for profile `work`; run `tgbacky auth \
         --profile work` to sign in"
    );
    assert!(!way.authorized);

    let mut refused = Onboarding::new(Purpose::Command, false);
    assert_eq!(
        refused.on_answer(false, "work").unwrap_err().message(),
        "authentication failed: Telegram API credentials are not configured; run `tgbacky api \
         add` when you are ready"
    );
}

#[test]
fn known_users_go_straight_on() {
    let mut way = Onboarding::new(Purpose::Command, true);
    way.on_connected(true);
    assert_eq!(way.stage, Stage::Done);
    assert!(!way.entered);

    let mut sign_in = Onboarding::new(Purpose::SignIn, true);
    sign_in.on_connected(true);
    assert_eq!(sign_in.stage, Stage::Persist);
}
