use local_store::csv::{
    csv_has_data_lines, save_account_csv, save_category_csv, save_color_palette_csv,
    save_csv_to_app_data, save_csv_to_public_if_has_data, save_master_csv, save_named_csv,
    save_tag_csv, save_user_csv, Dataset,
};
use local_store::error::StoreError;
use local_store::location::Location;
use local_store::plan::{FileAction, FileStep, Plan, Progress};
use local_store::BuildMode;

fn at(anchor: &str, names: &[&str]) -> Location {
    Location::new(anchor.to_string(), names.iter().map(|n| n.to_string()).collect())
}

fn exe() -> Option<Location> {
    Some(at("/", &["p", "src-tauri", "target", "debug", "app"]))
}

fn app_data() -> Result<Location, String> {
    Ok(at("/", &["appdata"]))
}

fn create(names: &[&str]) -> FileStep {
    FileStep { target: at("/", names), action: FileAction::CreateDir, reported: false }
}

fn write(names: &[&str], text: &str, reported: bool) -> FileStep {
    FileStep { target: at("/", names), action: FileAction::WriteText(text.to_string()), reported }
}

/// Runs `plan` with the outcome that `outcome` gives for each step, and
/// returns the indices of the steps run and the result.
fn run(plan: &Plan, outcome: &dyn Fn(usize) -> Result<(), String>) -> (Vec<usize>, Result<(), StoreError>) {
    let mut ran = Vec::new();
    let mut progress = plan.start();
    loop {
        match progress {
            Progress::Perform(index, earlier) => {
                ran.push(index);
                progress = plan.advance(index, earlier, outcome(index));
            }
            Progress::Done(result) => return (ran, result),
        }
    }
}

#[test]
fn dataset_file_names() {
    assert_eq!(Dataset::Account.file_name(), "ACCOUNT.csv");
    assert_eq!(Dataset::Category.file_name(), "CATEGORY.csv");
    assert_eq!(Dataset::Tag.file_name(), "TAG.csv");
    assert_eq!(Dataset::User.file_name(), "USER.csv");
    assert_eq!(Dataset::ColorPalette.file_name(), "COLOR_PALETTE.csv");
}

#[test]
fn header_only_payloads_have_no_data_lines() {
    assert!(!csv_has_data_lines(""));
    assert!(!csv_has_data_lines("id,name"));
    assert!(!csv_has_data_lines("id,name\n"));
    assert!(!csv_has_data_lines("id,name\r\n\r\n"));
    assert!(!csv_has_data_lines("\n\n  \nid,name\n \t\n"));
    assert!(!csv_has_data_lines("\n\n\n"));
    assert!(!csv_has_data_lines("   "));
}

#[test]
fn two_non_blank_lines_are_data() {
    assert!(csv_has_data_lines("id,name\n1,Alice\n"));
    assert!(csv_has_data_lines("id,name\n1,Alice"));
    assert!(csv_has_data_lines("a\n\n\nb"));
    assert!(csv_has_data_lines("\n a \n b \n"));
    assert!(csv_has_data_lines("a\r\nb\r\n"));
    assert!(csv_has_data_lines("a\nb\nc\nd\n"));
}

#[test]
fn data_lines_agree_with_trimmed_line_count() {
    let samples = [
        "",
        "a",
        "a\n",
        "\na",
        "a\nb",
        "a\n\n",
        "a\n \n",
        " \n a",
        "a\rb",
        "a\r\n",
        "a\u{2028}b",
        "a\u{b}b",
        "a\n\u{a0}",
        "\u{3000}\nx\n\u{3000}y",
        "id,name\n1,Alice\n",
    ];
    for s in samples {
        assert_eq!(csv_has_data_lines(s), s.trim().lines().count() >= 2, "{:?}", s);
    }
}

#[test]
fn mirror_steps_in_development_with_data() {
    let steps = save_csv_to_public_if_has_data(BuildMode::Development, &exe(), "TAG.csv", "id\n1\n");
    assert_eq!(
        steps,
        vec![
            create(&["p", "public", "data"]),
            write(&["p", "public", "data", "TAG.csv"], "id\n1\n", false),
        ]
    );
}

#[test]
fn header_only_payload_is_not_mirrored() {
    let steps = save_csv_to_public_if_has_data(BuildMode::Development, &exe(), "TAG.csv", "id\n");
    assert_eq!(steps, vec![create(&["p", "public", "data"])]);
    let plan = save_tag_csv(BuildMode::Development, &exe(), &app_data(), "id\n");
    let mirror = at("/", &["p", "public", "data", "TAG.csv"]);
    assert!(plan.steps.iter().all(|step| step.target != mirror));
}

#[test]
fn nothing_is_mirrored_in_production_or_without_project() {
    assert_eq!(
        save_csv_to_public_if_has_data(BuildMode::Production, &exe(), "TAG.csv", "id\n1\n"),
        vec![]
    );
    assert_eq!(
        save_csv_to_public_if_has_data(BuildMode::Development, &None, "TAG.csv", "id\n1\n"),
        vec![]
    );
    let shallow = Some(at("/", &["app"]));
    assert_eq!(
        save_csv_to_public_if_has_data(BuildMode::Development, &shallow, "TAG.csv", "id\n1\n"),
        vec![]
    );
}

#[test]
fn store_plan_writes_below_app_data() {
    let plan = save_csv_to_app_data(&app_data(), "USER.csv", "id\n");
    assert_eq!(
        plan,
        Plan {
            steps: vec![
                create(&["appdata", "data"]),
                write(&["appdata", "data", "USER.csv"], "id\n", true),
            ],
            failure: None,
        }
    );
}

#[test]
fn store_plan_reports_a_failed_lookup() {
    let failed: Result<Location, String> = Err("no app data".to_string());
    let plan = save_csv_to_app_data(&failed, "USER.csv", "id\n");
    assert_eq!(
        plan,
        Plan { steps: vec![], failure: Some(StoreError::Io("no app data".to_string())) }
    );
    let (ran, result) = run(&plan, &|_| Ok(()));
    assert_eq!(ran, Vec::<usize>::new());
    assert_eq!(result, Err(StoreError::Io("no app data".to_string())));
}

#[test]
fn save_account_csv_writes_the_payload_verbatim() {
    let payload = "id,name\n1,Alice\n";
    let plan = save_account_csv(BuildMode::Production, &exe(), &app_data(), payload);
    assert_eq!(
        plan,
        Plan {
            steps: vec![
                create(&["appdata", "data"]),
                write(&["appdata", "data", "ACCOUNT.csv"], "id,name\n1,Alice\n", true),
            ],
            failure: None,
        }
    );
    let (ran, result) = run(&plan, &|_| Ok(()));
    assert_eq!(ran, vec![0, 1]);
    assert_eq!(result, Ok(()));
}

#[test]
fn data_payload_goes_to_mirror_and_store() {
    let payload = "id,name\n1,Alice\n";
    let plan = save_account_csv(BuildMode::Development, &exe(), &app_data(), payload);
    assert_eq!(
        plan.steps,
        vec![
            create(&["p", "public", "data"]),
            write(&["p", "public", "data", "ACCOUNT.csv"], payload, false),
            create(&["appdata", "data"]),
            write(&["appdata", "data", "ACCOUNT.csv"], payload, true),
        ]
    );
    assert_eq!(plan.failure, None);
}

#[test]
fn each_dataset_has_its_command() {
    let mode = BuildMode::Production;
    let file = |plan: &Plan| plan.steps[1].target.names[2].clone();
    assert_eq!(file(&save_account_csv(mode, &None, &app_data(), "x")), "ACCOUNT.csv");
    assert_eq!(file(&save_category_csv(mode, &None, &app_data(), "x")), "CATEGORY.csv");
    assert_eq!(file(&save_tag_csv(mode, &None, &app_data(), "x")), "TAG.csv");
    assert_eq!(file(&save_user_csv(mode, &None, &app_data(), "x")), "USER.csv");
    assert_eq!(file(&save_color_palette_csv(mode, &None, &app_data(), "x")), "COLOR_PALETTE.csv");
    assert_eq!(
        save_named_csv(mode, &None, &app_data(), Dataset::User, "x"),
        save_user_csv(mode, &None, &app_data(), "x")
    );
}

#[test]
fn mirror_failure_is_passed_over() {
    let plan = save_tag_csv(BuildMode::Development, &exe(), &app_data(), "id\n1\n");
    let (ran, result) = run(&plan, &|index| {
        if index < 2 {
            Err("read-only project".to_string())
        } else {
            Ok(())
        }
    });
    assert_eq!(ran, vec![0, 1, 2, 3]);
    assert_eq!(result, Ok(()));
}

#[test]
fn store_failure_is_reported() {
    let plan = save_tag_csv(BuildMode::Development, &exe(), &app_data(), "id\n1\n");
    let (ran, result) = run(&plan, &|index| {
        if index == 3 {
            Err("disk full".to_string())
        } else {
            Ok(())
        }
    });
    assert_eq!(ran, vec![0, 1, 2, 3]);
    assert_eq!(result, Err(StoreError::Io("disk full".to_string())));
}

#[test]
fn master_plan_mirrors_first_then_stores() {
    let plan = save_master_csv(BuildMode::Development, &exe(), &app_data(), "a\n1\n", "c\n", "t\n1\n");
    assert_eq!(
        plan.steps,
        vec![
            create(&["p", "public", "data"]),
            write(&["p", "public", "data", "ACCOUNT.csv"], "a\n1\n", false),
            create(&["p", "public", "data"]),
            create(&["p", "public", "data"]),
            write(&["p", "public", "data", "TAG.csv"], "t\n1\n", false),
            create(&["appdata", "data"]),
            write(&["appdata", "data", "ACCOUNT.csv"], "a\n1\n", true),
            create(&["appdata", "data"]),
            write(&["appdata", "data", "CATEGORY.csv"], "c\n", true),
            create(&["appdata", "data"]),
            write(&["appdata", "data", "TAG.csv"], "t\n1\n", true),
        ]
    );
    assert_eq!(plan.failure, None);
}

#[test]
fn master_plan_in_production_has_only_stores() {
    let plan = save_master_csv(BuildMode::Production, &exe(), &app_data(), "a\n1\n", "c\n1\n", "t\n1\n");
    assert_eq!(plan.steps.len(), 6);
    assert!(plan.steps.iter().all(|step| step.target.names[0] == "appdata"));
}

#[test]
fn master_plan_attempts_every_store() {
    let plan = save_master_csv(BuildMode::Production, &None, &app_data(), "a", "c", "t");
    let (ran, result) = run(&plan, &|index| {
        if index == 1 {
            Err("account denied".to_string())
        } else {
            Ok(())
        }
    });
    assert_eq!(ran, vec![0, 1, 2, 3, 4, 5]);
    assert_eq!(result, Err(StoreError::Io("account denied".to_string())));
    assert_eq!(plan.steps[3], write(&["appdata", "data", "CATEGORY.csv"], "c", true));
    assert_eq!(plan.steps[5], write(&["appdata", "data", "TAG.csv"], "t", true));
}

#[test]
fn master_plan_reports_the_first_of_several_failures() {
    let plan = save_master_csv(BuildMode::Production, &None, &app_data(), "a", "c", "t");
    let (ran, result) = run(&plan, &|index| match index {
        0 | 2 | 4 => Err("cannot create".to_string()),
        3 => Err("category denied".to_string()),
        5 => Err("tag denied".to_string()),
        _ => Ok(()),
    });
    assert_eq!(ran, vec![0, 1, 2, 3, 4, 5]);
    assert_eq!(result, Err(StoreError::Io("category denied".to_string())));
    let (_, result) = run(&plan, &|index| {
        if index == 5 {
            Err("tag denied".to_string())
        } else {
            Ok(())
        }
    });
    assert_eq!(result, Err(StoreError::Io("tag denied".to_string())));
    let (_, result) = run(&plan, &|_| Ok(()));
    assert_eq!(result, Ok(()));
}

#[test]
fn master_plan_in_development_attempts_every_store_after_the_mirrors() {
    let plan = save_master_csv(BuildMode::Development, &exe(), &app_data(), "a\n1\n", "c\n1\n", "t\n1\n");
    assert_eq!(plan.steps.len(), 12);
    let (ran, result) = run(&plan, &|index| {
        if index < 6 || index == 7 {
            Err(format!("step {}", index))
        } else {
            Ok(())
        }
    });
    assert_eq!(ran, (0..12).collect::<Vec<usize>>());
    assert_eq!(result, Err(StoreError::Io("step 7".to_string())));
}

#[test]
fn master_plan_without_app_data_still_mirrors() {
    let failed: Result<Location, String> = Err("no app data".to_string());
    let plan = save_master_csv(BuildMode::Development, &exe(), &failed, "a\n1\n", "c\n1\n", "t\n");
    assert_eq!(plan.steps.len(), 5);
    assert!(plan.steps.iter().all(|step| !step.reported));
    let (ran, result) = run(&plan, &|_| Err("whatever".to_string()));
    assert_eq!(ran, vec![0, 1, 2, 3, 4]);
    assert_eq!(result, Err(StoreError::Io("no app data".to_string())));
}
