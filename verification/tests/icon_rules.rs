use base64::Engine;
use local_store::codec::{decode_payload, is_encodable};
use local_store::error::StoreError;
use local_store::icon::{
    data_uri, decimal_string, delete_profile_icon, generated_icon_name, get_profile_icon_base64,
    get_profile_icon_path, icon_file_name, icon_lookup, is_icon_path, logical_icon_path,
    resolve_profile_icon_path, save_decoded_icon, save_profile_icon, IconDraft, IconLookup,
};
use local_store::location::Location;
use local_store::plan::{FileAction, FileStep, Plan};
use local_store::resolver::Platform;
use local_store::BuildMode;

const PNG_HEAD: [u8; 8] = [0x89, 0x50, 0x4e, 0x47, 0x0d, 0x0a, 0x1a, 0x0a];

fn at(anchor: &str, names: &[&str]) -> Location {
    Location::new(anchor.to_string(), names.iter().map(|n| n.to_string()).collect())
}

fn exe() -> Option<Location> {
    Some(at("/", &["p", "src-tauri", "target", "debug", "app"]))
}

fn app_data() -> Result<Location, String> {
    Ok(at("/", &["appdata"]))
}

fn no_app_data() -> Result<Location, String> {
    Err("no app data".to_string())
}

#[test]
fn icon_paths_are_known_by_their_prefix() {
    assert!(is_icon_path("/icon/profile/1.png"));
    assert!(is_icon_path("/icon/profile/"));
    assert!(!is_icon_path("/icon/profile"));
    assert!(!is_icon_path("icon/profile/1.png"));
    assert!(!is_icon_path("/assets/default.png"));
    assert!(!is_icon_path(""));
}

#[test]
fn managed_icon_paths_give_their_file_name() {
    assert_eq!(icon_file_name("/icon/profile/1700000000123.png"), Some("1700000000123.png".to_string()));
    assert_eq!(icon_file_name("/icon/profile/a.b.png"), Some("a.b.png".to_string()));
    assert_eq!(icon_file_name("/icon/profile//icon/profile/x.png"), Some("x.png".to_string()));
    assert_eq!(icon_file_name("/icon/profile/sub/x.png"), Some("sub/x.png".to_string()));
    assert_eq!(icon_file_name("/icon/profile/a\\b.png"), Some("a\\b.png".to_string()));
}

#[test]
fn malformed_icon_paths_give_no_file_name() {
    assert_eq!(icon_file_name("/assets/default.png"), None);
    assert_eq!(icon_file_name(""), None);
    assert_eq!(icon_file_name("/icon/profile/"), None);
    assert_eq!(icon_file_name("/icon/profile//icon/profile/"), None);
    assert_eq!(icon_file_name("/icon/profile/../secret"), None);
    assert_eq!(icon_file_name("/icon/profile/a..png"), None);
    assert_eq!(icon_file_name("/icon/profile/.."), None);
}

#[test]
fn decimal_digits() {
    assert_eq!(decimal_string(0), "0");
    assert_eq!(decimal_string(7), "7");
    assert_eq!(decimal_string(10), "10");
    assert_eq!(decimal_string(1700000000123), "1700000000123");
    assert_eq!(decimal_string(u128::MAX), "340282366920938463463374607431768211455");
    for n in [9u128, 99, 100, 101, 1234567890, u64::MAX as u128, u128::MAX - 1] {
        assert_eq!(decimal_string(n), n.to_string());
    }
}

#[test]
fn icon_names_come_from_the_clock() {
    assert_eq!(generated_icon_name(1700000000123), "1700000000123.png");
    assert_eq!(generated_icon_name(0), "0.png");
    assert_eq!(logical_icon_path("1700000000123.png"), "/icon/profile/1700000000123.png");
    assert_eq!(logical_icon_path(""), "/icon/profile/");
}

#[test]
fn payload_is_decoded_without_the_white_space_around_it() {
    assert_eq!(decode_payload("iVBORw0KGgo="), Ok(PNG_HEAD.to_vec()));
    assert_eq!(decode_payload("  iVBORw0KGgo=\n"), Ok(PNG_HEAD.to_vec()));
    assert_eq!(decode_payload(""), Ok(vec![]));
    assert_eq!(decode_payload("aGk="), Ok(b"hi".to_vec()));
}

#[test]
fn malformed_payload_gives_the_decoders_message() {
    let expected = base64::engine::general_purpose::STANDARD
        .decode("not-base64!!")
        .unwrap_err()
        .to_string();
    assert_eq!(decode_payload("not-base64!!"), Err(StoreError::Decode(expected)));
    assert_eq!(
        decode_payload("not-base64!!").unwrap_err().message(),
        "Invalid symbol 45, offset 3."
    );
    assert!(matches!(decode_payload("iVBORw0KGgo"), Err(StoreError::Decode(_))));
    assert!(matches!(decode_payload("iVBO Rw0K"), Err(StoreError::Decode(_))));
}

#[test]
fn bytes_are_encoded_with_padding() {
    let data = |bytes: Vec<u8>| get_profile_icon_base64("/icon/profile/x.png", Some(Ok(bytes))).unwrap();
    assert_eq!(data(PNG_HEAD.to_vec()), "data:image/png;base64,iVBORw0KGgo=");
    assert_eq!(data(vec![0xfb, 0xff]), "data:image/png;base64,+/8=");
    assert_eq!(data(vec![0, 0, 0]), "data:image/png;base64,AAAA");
}

#[test]
fn saving_an_icon_names_it_after_the_time() {
    let draft = save_profile_icon(BuildMode::Production, "iVBORw0KGgo=", "me.png", &exe(), &None, &app_data())
        .unwrap();
    assert_eq!(
        draft,
        IconDraft { bytes: PNG_HEAD.to_vec(), dir: at("/", &["appdata", "icon", "profile"]) }
    );
    let save = draft.saved_at(1700000000123);
    assert_eq!(save.logical_path, "/icon/profile/1700000000123.png");
    assert_eq!(
        save.plan,
        Plan {
            steps: vec![
                FileStep {
                    target: at("/", &["appdata", "icon", "profile"]),
                    action: FileAction::CreateDir,
                    reported: false,
                },
                FileStep {
                    target: at("/", &["appdata", "icon", "profile", "1700000000123.png"]),
                    action: FileAction::WriteBytes(PNG_HEAD.to_vec()),
                    reported: true,
                },
            ],
            failure: None,
        }
    );
    let written = match &save.plan.steps[1].action {
        FileAction::WriteBytes(bytes) => bytes.clone(),
        other => panic!("no write: {:?}", other),
    };
    assert_eq!(
        get_profile_icon_base64(&save.logical_path, Some(Ok(written))),
        Ok("data:image/png;base64,iVBORw0KGgo=".to_string())
    );
}

#[test]
fn saving_in_development_goes_to_the_project() {
    let save = save_profile_icon(BuildMode::Development, " aGk= ", "me.png", &exe(), &None, &no_app_data())
        .unwrap()
        .saved_at(5);
    assert_eq!(save.logical_path, "/icon/profile/5.png");
    assert_eq!(save.plan.steps[0].target, at("/", &["p", "public", "icon", "profile"]));
    assert_eq!(save.plan.steps[1].target, at("/", &["p", "public", "icon", "profile", "5.png"]));
    assert_eq!(save.plan.steps[1].action, FileAction::WriteBytes(b"hi".to_vec()));
}

#[test]
fn malformed_payload_is_not_saved() {
    let r = save_profile_icon(BuildMode::Production, "not-base64!!", "me.png", &exe(), &None, &app_data());
    assert_eq!(r, Err(StoreError::Decode("Invalid symbol 45, offset 3.".to_string())));
    let r = save_profile_icon(BuildMode::Production, "not-base64!!", "me.png", &None, &None, &no_app_data());
    assert!(matches!(r, Err(StoreError::Decode(_))));
}

#[test]
fn proposed_file_name_is_ignored() {
    let one = save_profile_icon(BuildMode::Production, "aGk=", "a.png", &None, &None, &app_data());
    let other = save_profile_icon(BuildMode::Production, "aGk=", "../../b", &None, &None, &app_data());
    assert_eq!(one, other);
    assert_eq!(one.unwrap().saved_at(9).logical_path, "/icon/profile/9.png");
}

#[test]
fn saving_without_a_directory_fails() {
    let r = save_profile_icon(BuildMode::Production, "aGk=", "me.png", &exe(), &None, &no_app_data());
    assert_eq!(r, Err(StoreError::Io("no app data".to_string())));
    let r = save_decoded_icon(Ok(vec![1]), Err(StoreError::Io("gone".to_string())));
    assert_eq!(r, Err(StoreError::Io("gone".to_string())));
    let r = save_decoded_icon(
        Err(StoreError::Decode("bad".to_string())),
        Err(StoreError::Io("gone".to_string())),
    );
    assert_eq!(r, Err(StoreError::Decode("bad".to_string())));
    let r = save_decoded_icon(Ok(vec![1]), Ok(at("/", &["d"])));
    assert_eq!(r, Ok(IconDraft { bytes: vec![1], dir: at("/", &["d"]) }));
}

#[test]
fn saves_at_different_times_do_not_collide() {
    let first = save_profile_icon(BuildMode::Production, "aGk=", "me.png", &None, &None, &app_data())
        .unwrap()
        .saved_at(1700000000123);
    let second = save_profile_icon(BuildMode::Production, "aGk=", "me.png", &None, &None, &app_data())
        .unwrap()
        .saved_at(1700000000124);
    assert_ne!(first.logical_path, second.logical_path);
    assert_ne!(first.plan.steps[1].target, second.plan.steps[1].target);
    assert_eq!(first.plan.steps[1].action, second.plan.steps[1].action);
}

#[test]
fn saves_within_one_millisecond_share_a_name() {
    let first = save_profile_icon(BuildMode::Production, "aGk=", "a.png", &None, &None, &app_data())
        .unwrap()
        .saved_at(42);
    let second = save_profile_icon(BuildMode::Production, "QUJD", "b.png", &None, &None, &app_data())
        .unwrap()
        .saved_at(42);
    assert_eq!(first.logical_path, second.logical_path);
    assert_eq!(first.plan.steps[1].target, second.plan.steps[1].target);
}

#[test]
fn encodable_lengths() {
    assert!(is_encodable(0));
    assert!(is_encodable(8));
    assert!(is_encodable(usize::MAX / 4 * 3));
    assert!(!is_encodable(usize::MAX / 4 * 3 + 1));
    assert!(!is_encodable(usize::MAX));
}

#[test]
fn deleting_a_malformed_path_does_nothing() {
    for path in [
        "",
        "/assets/default.png",
        "/icon/profile/",
        "/icon/profile/../x",
        "/icon/profile/a..b",
    ] {
        let plan = delete_profile_icon(BuildMode::Production, path, &exe(), &None, &no_app_data());
        assert_eq!(plan, Plan { steps: vec![], failure: None }, "{:?}", path);
        assert_eq!(plan.start(), local_store::plan::Progress::Done(Ok(())));
    }
}

#[test]
fn deleting_a_managed_icon_removes_its_file() {
    let plan = delete_profile_icon(BuildMode::Production, "/icon/profile/7.png", &exe(), &None, &app_data());
    assert_eq!(
        plan,
        Plan {
            steps: vec![
                FileStep {
                    target: at("/", &["appdata", "icon", "profile"]),
                    action: FileAction::CreateDir,
                    reported: false,
                },
                FileStep {
                    target: at("/", &["appdata", "icon", "profile", "7.png"]),
                    action: FileAction::RemoveIfPresent,
                    reported: true,
                },
            ],
            failure: None,
        }
    );
    let plan = delete_profile_icon(BuildMode::Development, "/icon/profile/7.png", &exe(), &None, &app_data());
    assert_eq!(plan.steps[1].target, at("/", &["p", "public", "icon", "profile", "7.png"]));
}

#[test]
fn names_with_a_separator_are_managed_like_any_other() {
    let path = "/icon/profile/sub/x.png";
    let found = icon_lookup(BuildMode::Development, path, &exe(), &None, &app_data()).unwrap();
    assert_eq!(
        found.candidates,
        vec![
            at("/", &["p", "public", "icon", "profile", "sub/x.png"]),
            at("/", &["appdata", "icon", "profile", "sub/x.png"]),
        ]
    );
    assert_eq!(
        resolve_profile_icon_path(&found.candidates, &vec![true, true]),
        Some(at("/", &["p", "public", "icon", "profile", "sub/x.png"]))
    );
    assert_eq!(
        resolve_profile_icon_path(&found.candidates, &vec![false, true]),
        Some(at("/", &["appdata", "icon", "profile", "sub/x.png"]))
    );
    let plan = delete_profile_icon(BuildMode::Production, "/icon/profile/a\\b.png", &None, &None, &app_data());
    assert_eq!(
        plan.steps[1],
        FileStep {
            target: at("/", &["appdata", "icon", "profile", "a\\b.png"]),
            action: FileAction::RemoveIfPresent,
            reported: true,
        }
    );
    assert_eq!(
        plan.advance(1, None, Err("denied".to_string())),
        local_store::plan::Progress::Done(Err(StoreError::Io("denied".to_string())))
    );
    assert_eq!(get_profile_icon_base64(path, None), Err(StoreError::NotFound));
    assert_eq!(
        get_profile_icon_base64(path, Some(Ok(b"hi".to_vec()))),
        Ok("data:image/png;base64,aGk=".to_string())
    );
    assert_eq!(
        get_profile_icon_path(Platform::Other, path, Some("/appdata/icon/profile/sub/x.png")),
        "/appdata/icon/profile/sub/x.png"
    );
}

#[test]
fn deleting_without_a_directory_does_nothing() {
    let plan = delete_profile_icon(BuildMode::Production, "/icon/profile/7.png", &exe(), &None, &no_app_data());
    assert_eq!(plan, Plan { steps: vec![], failure: None });
    assert_eq!(plan.start(), local_store::plan::Progress::Done(Ok(())));
    let plan = delete_profile_icon(BuildMode::Development, "/icon/profile/7.png", &None, &None, &no_app_data());
    assert_eq!(plan, Plan { steps: vec![], failure: None });
}

#[test]
fn deleting_a_missing_file_ends_well() {
    let plan = delete_profile_icon(BuildMode::Production, "/icon/profile/7.png", &exe(), &None, &app_data());
    let first = plan.advance(0, None, Err("exists".to_string()));
    assert_eq!(first, local_store::plan::Progress::Perform(1, None));
    assert_eq!(plan.advance(1, None, Ok(())), local_store::plan::Progress::Done(Ok(())));
    assert_eq!(
        plan.advance(1, None, Err("busy".to_string())),
        local_store::plan::Progress::Done(Err(StoreError::Io("busy".to_string())))
    );
}

#[test]
fn clock_reading_decides_the_saving() {
    let draft = || IconDraft { bytes: vec![1, 2], dir: at("/", &["d"]) };
    let save = draft().saved_at_reading(Ok(1700000000123)).unwrap();
    assert_eq!(save, draft().saved_at(1700000000123));
    assert_eq!(save.logical_path, "/icon/profile/1700000000123.png");
    assert_eq!(
        draft().saved_at_reading(Err("second time provided was later than self".to_string())),
        Err(StoreError::Io("second time provided was later than self".to_string()))
    );
}

#[test]
fn lookup_tries_the_project_first_in_development() {
    let cwd = Some(at("/", &["work"]));
    let found = icon_lookup(BuildMode::Development, "/icon/profile/7.png", &exe(), &cwd, &app_data());
    assert_eq!(
        found,
        Some(IconLookup {
            create: Some(at("/", &["p", "public", "icon", "profile"])),
            candidates: vec![
                at("/", &["p", "public", "icon", "profile", "7.png"]),
                at("/", &["appdata", "icon", "profile", "7.png"]),
            ],
        })
    );
    let found = icon_lookup(BuildMode::Development, "/icon/profile/7.png", &None, &cwd, &no_app_data());
    assert_eq!(
        found,
        Some(IconLookup {
            create: Some(at("/", &["work", "public", "icon", "profile"])),
            candidates: vec![at("/", &["work", "public", "icon", "profile", "7.png"])],
        })
    );
}

#[test]
fn lookup_in_production_tries_app_data_only() {
    let found = icon_lookup(BuildMode::Production, "/icon/profile/7.png", &exe(), &None, &app_data());
    assert_eq!(
        found,
        Some(IconLookup {
            create: None,
            candidates: vec![at("/", &["appdata", "icon", "profile", "7.png"])],
        })
    );
    let found = icon_lookup(BuildMode::Production, "/icon/profile/7.png", &exe(), &None, &no_app_data());
    assert_eq!(found, Some(IconLookup { create: None, candidates: vec![] }));
}

#[test]
fn lookup_of_a_malformed_path_is_none() {
    assert_eq!(icon_lookup(BuildMode::Development, "/assets/x.png", &exe(), &None, &app_data()), None);
    assert_eq!(icon_lookup(BuildMode::Development, "/icon/profile/", &exe(), &None, &app_data()), None);
    assert_eq!(icon_lookup(BuildMode::Production, "/icon/profile/..", &exe(), &None, &app_data()), None);
}

#[test]
fn first_present_candidate_wins() {
    let candidates = vec![at("/", &["a"]), at("/", &["b"]), at("/", &["c"])];
    assert_eq!(resolve_profile_icon_path(&candidates, &vec![true, true, true]), Some(at("/", &["a"])));
    assert_eq!(resolve_profile_icon_path(&candidates, &vec![false, true, true]), Some(at("/", &["b"])));
    assert_eq!(resolve_profile_icon_path(&candidates, &vec![false, false, true]), Some(at("/", &["c"])));
    assert_eq!(resolve_profile_icon_path(&candidates, &vec![false, false, false]), None);
    assert_eq!(resolve_profile_icon_path(&candidates, &vec![false]), None);
    assert_eq!(resolve_profile_icon_path(&candidates, &vec![]), None);
    assert_eq!(resolve_profile_icon_path(&vec![], &vec![true]), None);
}

#[test]
fn shown_path_of_a_found_icon_is_its_display_form() {
    assert_eq!(
        get_profile_icon_path(Platform::Other, "/icon/profile/7.png", Some("/appdata/icon/profile/7.png")),
        "/appdata/icon/profile/7.png"
    );
    assert_eq!(
        get_profile_icon_path(
            Platform::Windows,
            "/icon/profile/7.png",
            Some("\\\\?\\C:\\appdata\\icon\\profile\\7.png")
        ),
        "C:/appdata/icon/profile/7.png"
    );
}

#[test]
fn shown_path_of_a_missing_or_foreign_icon_is_the_input() {
    assert_eq!(get_profile_icon_path(Platform::Other, "/icon/profile/7.png", None), "/icon/profile/7.png");
    assert_eq!(get_profile_icon_path(Platform::Windows, "/icon/profile/7.png", None), "/icon/profile/7.png");
    assert_eq!(get_profile_icon_path(Platform::Other, "/assets/default.png", None), "/assets/default.png");
    assert_eq!(
        get_profile_icon_path(Platform::Other, "/assets/default.png", Some("/somewhere")),
        "/assets/default.png"
    );
    assert_eq!(get_profile_icon_path(Platform::Other, "/icon/profile/..", Some("/x")), "/icon/profile/..");
    assert_eq!(get_profile_icon_path(Platform::Other, "", None), "");
}

#[test]
fn data_of_a_missing_icon_is_not_found() {
    assert_eq!(get_profile_icon_base64("/icon/profile/7.png", None), Err(StoreError::NotFound));
    assert_eq!(get_profile_icon_path(Platform::Other, "/icon/profile/7.png", None), "/icon/profile/7.png");
}

#[test]
fn data_of_a_foreign_path_is_the_input() {
    assert_eq!(get_profile_icon_base64("/assets/default.png", None), Ok("/assets/default.png".to_string()));
    assert_eq!(get_profile_icon_base64("/icon/profile/", None), Ok("/icon/profile/".to_string()));
    assert_eq!(
        get_profile_icon_base64("/icon/profile/../x", Some(Ok(vec![1, 2, 3]))),
        Ok("/icon/profile/../x".to_string())
    );
}

#[test]
fn data_of_an_unreadable_icon_is_the_read_failure() {
    assert_eq!(
        get_profile_icon_base64("/icon/profile/7.png", Some(Err("permission denied".to_string()))),
        Err(StoreError::Io("permission denied".to_string()))
    );
}

#[test]
fn data_of_an_icon_is_a_png_data_uri() {
    assert_eq!(
        get_profile_icon_base64("/icon/profile/7.png", Some(Ok(b"hi".to_vec()))),
        Ok("data:image/png;base64,aGk=".to_string())
    );
    assert_eq!(
        get_profile_icon_base64("/icon/profile/7.png", Some(Ok(vec![]))),
        Ok("data:image/png;base64,".to_string())
    );
    assert_eq!(data_uri("QUJD"), "data:image/png;base64,QUJD");
}
