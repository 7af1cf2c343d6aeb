use denim::data::student_groups::HouseGroup;
use denim::data::user::AddUserKind;
use denim::error::DenimError;
use denim::routes::import_export::{
    draft_event, end_of_events_import, generate_passwords, import_status, next_dots,
    progress_line, read_events, sort_by_email, split_passwords, ArchiveCipher, BatchEnd,
    BatchTally, DraftCsvEvent, DraftIndividualStudent, FullEventsForm, ImportPlan, ImportReport,
    ImportStatus, ItemOutcome, KnownTeacher, KnownTutorGroup, NewCSVStudent, Placement,
    PlanOutcome, StudentsImport,
};
use denim::routes::sse::SseEvent;
use denim::state::DenimState;

fn draft(n: usize) -> DraftIndividualStudent {
    DraftIndividualStudent {
        first_name: format!("First{n}"),
        pref_name: String::new(),
        surname: format!("Sur{n}"),
        email: format!("student{n}@example.org"),
        tutor_group: 100 + n as u128,
        house: 2,
    }
}

fn run_import(job: &mut StudentsImport, invalid: &[usize]) -> Vec<(usize, usize)> {
    let mut published = Vec::new();
    let mut row = 0;
    while let Some(form) = job.next_student() {
        assert_eq!(form.email, format!("student{row}@example.org"));
        assert_eq!(form.password, Some(format!("pw{row}")));
        assert!(form.current_password_is_default);
        assert!(matches!(
            form.user_kind,
            AddUserKind::Student { tutor_group, house: 2 } if tutor_group == 100 + row as u128
        ));
        let outcome = if invalid.contains(&row) {
            ItemOutcome::BadRow(format!("row {row} is invalid"))
        } else {
            ItemOutcome::Added
        };
        if let Some(progress) = job.record(outcome) {
            published.push(progress);
        }
        row += 1;
    }
    published
}

#[test]
fn ten_rows_two_invalid() {
    let students: Vec<_> = (0..10).map(draft).collect();
    let passwords: Vec<_> = (0..10).map(|n| format!("pw{n}")).collect();
    let mut job = StudentsImport::new(students, passwords).expect("a password for each student");
    assert_eq!(job.total(), 10);
    let published = run_import(&mut job, &[3, 7]);
    assert_eq!(
        published,
        vec![(1, 10), (2, 10), (3, 10), (5, 10), (6, 10), (7, 10), (9, 10), (10, 10)]
    );
    assert!(job.is_done());
    assert_eq!(job.tried(), 10);
    assert!(job.next_student().is_none());
    assert_eq!(job.record(ItemOutcome::Added), None);
    let report = job.finish();
    assert_eq!(report.added, 8);
    assert_eq!(report.failures.len(), 2);
    assert_eq!(report.failures[0].email, "student3@example.org");
    assert_eq!(report.failures[0].message, "row 3 is invalid");
    assert_eq!(report.failures[1].email, "student7@example.org");
    assert_eq!(report.failures[1].message, "row 7 is invalid");
    assert!(report.store_failure.is_none());
    let mut expected = String::from("email,default_password");
    for n in [0, 1, 2, 4, 5, 6, 8, 9] {
        expected.push_str(&format!("\nstudent{n}@example.org,pw{n}"));
    }
    assert_eq!(report.output_csv, expected);
    match report.end() {
        BatchEnd::Commit { announce, failures } => {
            assert_eq!(announce, Some(SseEvent::CrudPerson));
            assert_eq!(failures.len(), 2);
            assert_eq!(failures[0].email, "student3@example.org");
            assert_eq!(failures[0].message, "row 3 is invalid");
            assert_eq!(failures[1].email, "student7@example.org");
            assert_eq!(failures[1].message, "row 7 is invalid");
        }
        other => panic!("expected the eight students to stay, got {:?}", other),
    }
}

#[test]
fn only_bad_rows_commit_without_an_announcement() {
    let mut job = StudentsImport::new(vec![draft(0), draft(1)], vec!["pw0".into(), "pw1".into()])
        .unwrap();
    assert!(run_import(&mut job, &[0, 1]).is_empty());
    let report = job.finish();
    assert_eq!(report.added, 0);
    assert_eq!(report.output_csv, "email,default_password");
    match report.end() {
        BatchEnd::Commit { announce, failures } => {
            assert_eq!(announce, None);
            assert_eq!(failures.len(), 2);
        }
        other => panic!("expected a commit, got {:?}", other),
    }
}

#[test]
fn store_failure_stops_the_import() {
    let students: Vec<_> = (0..5).map(draft).collect();
    let passwords: Vec<_> = (0..5).map(|n| format!("pw{n}")).collect();
    let mut job = StudentsImport::new(students, passwords).unwrap();
    assert!(job.next_student().is_some());
    assert_eq!(job.record(ItemOutcome::Added), Some((1, 5)));
    assert!(job.next_student().is_some());
    assert_eq!(job.record(ItemOutcome::BadRow("duplicate address".into())), None);
    assert_eq!(job.next_student().unwrap().email, "student2@example.org");
    assert!(!job.is_done());
    assert_eq!(job.record(ItemOutcome::StoreFailed("connection lost".into())), None);
    assert!(job.is_done());
    assert!(job.next_student().is_none());
    assert_eq!(job.record(ItemOutcome::Added), None);
    assert_eq!(job.tried(), 2);
    let report = job.finish();
    assert_eq!(report.added, 1);
    assert_eq!(report.failures.len(), 1);
    assert_eq!(report.store_failure.as_deref(), Some("connection lost"));
    match report.end() {
        BatchEnd::Rollback { failure } => assert_eq!(failure, "connection lost"),
        other => panic!("expected a rollback, got {:?}", other),
    }
}

#[test]
fn insert_and_savepoint_decide_the_outcome() {
    assert!(matches!(ItemOutcome::of_insert(Ok(()), Ok(())), ItemOutcome::Added));
    assert!(matches!(
        ItemOutcome::of_insert(Err("bad row".into()), Ok(())),
        ItemOutcome::BadRow(reason) if reason == "bad row"
    ));
    assert!(matches!(
        ItemOutcome::of_insert(Ok(()), Err("no release".into())),
        ItemOutcome::StoreFailed(reason) if reason == "no release"
    ));
    assert!(matches!(
        ItemOutcome::of_insert(Err("bad row".into()), Err("no rollback".into())),
        ItemOutcome::StoreFailed(reason) if reason == "no rollback"
    ));
}

#[test]
fn bulk_job_through_the_slot() {
    let runtime = tokio::runtime::Builder::new_current_thread().enable_all().build().unwrap();
    runtime.block_on(async {
        let mut state: DenimState<ImportReport> = DenimState::new();
        let token = state.get_submit_students_job_token().expect("the slot is free");
        let students: Vec<_> = (0..10).map(draft).collect();
        let passwords: Vec<_> = (0..10).map(|n| format!("pw{n}")).collect();
        let mut job = StudentsImport::new(students, passwords).unwrap();
        let handle = tokio::spawn(async move {
            run_import(&mut job, &[0, 9]);
            job.finish()
        });
        assert!(token.submit_job(&mut state.import_students_job, handle).is_none());
        assert!(state.get_submit_students_job_token().is_none());
        let mut taken = None;
        for _ in 0..1000 {
            tokio::task::yield_now().await;
            taken = state.take_import_students_job_result();
            if taken.is_some() {
                break;
            }
        }
        let report = taken.expect("the job has finished").await.unwrap();
        assert_eq!(report.added, 8);
        assert_eq!(report.failures.len(), 2);
        assert_eq!(report.failures[0].email, "student0@example.org");
        assert_eq!(report.failures[1].email, "student9@example.org");
        assert!(!state.student_job_exists());
        assert!(state.take_import_students_job_result().is_none());
        assert!(state.get_submit_students_job_token().is_some());
    });
}

#[test]
fn import_without_failures_commits() {
    let mut job =
        StudentsImport::new(vec![draft(0), draft(1)], vec!["a".into(), "b".into(), "c".into()])
            .unwrap();
    assert_eq!(run_import_plain(&mut job), vec![(1, 2), (2, 2)]);
    let report = job.finish();
    assert_eq!(report.added, 2);
    assert!(report.store_failure.is_none());
    assert_eq!(
        report.output_csv,
        "email,default_password\nstudent0@example.org,a\nstudent1@example.org,b"
    );
    assert!(matches!(
        report.end(),
        BatchEnd::Commit { announce: Some(SseEvent::CrudPerson), failures } if failures.is_empty()
    ));
}

fn run_import_plain(job: &mut StudentsImport) -> Vec<(usize, usize)> {
    let mut published = Vec::new();
    while job.next_student().is_some() {
        if let Some(progress) = job.record(ItemOutcome::Added) {
            published.push(progress);
        }
    }
    published
}

#[test]
fn import_needs_a_password_for_each_student() {
    assert!(StudentsImport::new(vec![draft(0), draft(1)], vec!["a".into()]).is_none());
    let empty = StudentsImport::new(vec![], vec![]).unwrap();
    assert!(empty.is_done());
    let report = empty.finish();
    assert_eq!((report.added, report.failures.len()), (0, 0));
    assert_eq!(report.output_csv, "email,default_password");
}

fn student(email: &str, house: &str, tutor: &str) -> NewCSVStudent {
    NewCSVStudent {
        first_name: "Jackson".into(),
        pref_name: "Jack".into(),
        surname: "Programmerson".into(),
        email: email.into(),
        house: house.into(),
        tutor_email: tutor.into(),
    }
}

fn plan() -> ImportPlan {
    ImportPlan::new(
        vec![HouseGroup { id: 1, name: "Lion".into() }, HouseGroup { id: 2, name: "Tiger".into() }],
        vec![KnownTutorGroup { tutor_email: "tutor@example.org".into(), house_id: 1, id: 50 }],
        vec![
            KnownTeacher { email: "tutor@example.org".into(), id: 900 },
            KnownTeacher { email: "other@example.org".into(), id: 901 },
        ],
    )
}

#[test]
fn plan_places_students() {
    let mut plan = plan();
    assert_eq!(
        plan.offer(&student("a@example.org", "Lion", "tutor@example.org")),
        Placement::Placed { tutor_group: 50, house_id: 1 }
    );
    assert_eq!(plan.students_to_add.len(), 1);
    assert_eq!(plan.students_to_add[0].email, "a@example.org");
    assert_eq!(plan.students_to_add[0].tutor_group, 50);
    assert_eq!(plan.students_to_add[0].house, 1);

    let b = student("b@example.org", "Bear", "tutor@example.org");
    assert_eq!(plan.offer(&b), Placement::NeedsHouse);
    assert_eq!(plan.students_to_add.len(), 1);
    plan.remember_house("Bear".into(), 3);
    assert_eq!(plan.offer(&b), Placement::NeedsTutorGroup { staff_id: 900, house_id: 3 });
    plan.remember_tutor_group("tutor@example.org".into(), 3, 51);
    assert_eq!(plan.offer(&b), Placement::Placed { tutor_group: 51, house_id: 3 });
    assert_eq!(plan.students_to_add.len(), 2);

    match plan.outcome() {
        PlanOutcome::Ready(students) => {
            assert_eq!(students.len(), 2);
            assert_eq!(students[1].email, "b@example.org");
        }
        other => panic!("expected the students, got {:?}", other),
    }
}

#[test]
fn plan_notes_missing_teachers_once() {
    let mut plan = plan();
    let c = student("c@example.org", "Lion", "nobody@example.org");
    assert_eq!(plan.offer(&c), Placement::TeacherMissing);
    assert_eq!(plan.offer(&student("d@example.org", "Tiger", "nobody@example.org")), Placement::TeacherMissing);
    assert_eq!(plan.offer(&student("e@example.org", "Tiger", "ghost@example.org")), Placement::TeacherMissing);
    plan.note_syntax_error("line 4".into());
    assert_eq!(plan.teachers_to_add, vec!["nobody@example.org".to_string(), "ghost@example.org".to_string()]);
    assert!(plan.students_to_add.is_empty());
    match plan.outcome() {
        PlanOutcome::MissingTeachers(teachers) => assert_eq!(teachers.len(), 2),
        other => panic!("expected the missing teachers, got {:?}", other),
    }
}

#[test]
fn plan_reports_syntax_errors() {
    let mut plan = plan();
    plan.offer(&student("a@example.org", "Lion", "tutor@example.org"));
    plan.note_syntax_error("line 2: missing field".into());
    match plan.outcome() {
        PlanOutcome::SyntaxErrors(errors) => {
            assert_eq!(errors, vec!["line 2: missing field".to_string()])
        }
        other => panic!("expected the syntax errors, got {:?}", other),
    }
}

#[test]
fn later_house_of_a_name_counts() {
    let mut plan = ImportPlan::new(
        vec![HouseGroup { id: 1, name: "Lion".into() }, HouseGroup { id: 9, name: "Lion".into() }],
        vec![KnownTutorGroup { tutor_email: "t@example.org".into(), house_id: 9, id: 5 }],
        vec![],
    );
    assert_eq!(
        plan.offer(&student("a@example.org", "Lion", "t@example.org")),
        Placement::Placed { tutor_group: 5, house_id: 9 }
    );
}

#[test]
fn students_are_sorted_by_email() {
    let mut input = Vec::new();
    for (n, email) in ["d@x", "b@x", "a@x", "b@x", "c@x", "B@x", "ab@x"].iter().enumerate() {
        let mut s = draft(n);
        s.email = email.to_string();
        input.push(s);
    }
    let sorted = sort_by_email(input.clone());
    let emails: Vec<_> = sorted.iter().map(|s| s.email.as_str()).collect();
    assert_eq!(emails, vec!["B@x", "a@x", "ab@x", "b@x", "b@x", "c@x", "d@x"]);
    let twins: Vec<_> = sorted.iter().filter(|s| s.email == "b@x").map(|s| s.tutor_group).collect();
    assert_eq!(twins, vec![101, 103]);
    let mut expected = input;
    expected.sort_by_cached_key(|s| s.email.to_string());
    let expected: Vec<_> = expected.iter().map(|s| (s.email.clone(), s.tutor_group)).collect();
    let got: Vec<_> = sorted.iter().map(|s| (s.email.clone(), s.tutor_group)).collect();
    assert_eq!(got, expected);
    assert!(sort_by_email(vec![]).is_empty());
}

#[test]
fn dots_go_round() {
    assert_eq!(next_dots(""), ".");
    assert_eq!(next_dots("."), "..");
    assert_eq!(next_dots(".."), "...");
    assert_eq!(next_dots("..."), "");
    assert_eq!(next_dots("...."), ".");
    assert_eq!(next_dots(".x"), ".");
    assert_eq!(next_dots("abc"), ".");
}

#[test]
fn status_of_the_import() {
    assert!(matches!(import_status::<u8>(false, None, ".", None), ImportStatus::NoJob));
    assert!(matches!(import_status(false, Some(1u8), ".", None), ImportStatus::NoJob));
    assert!(matches!(import_status(true, Some(1u8), ".", None), ImportStatus::Finished(1)));
    match import_status::<u8>(true, None, ".", Some((3, 10))) {
        ImportStatus::Working { dots, progress } => {
            assert_eq!(dots, "..");
            assert_eq!(progress, Some((3, 10)));
        }
        other => panic!("expected a running job, got {:?}", other),
    }
}

#[test]
fn progress_is_told_in_words() {
    assert_eq!(progress_line(1, 10), "So far, added 1 student out of 10 to the database.");
    assert_eq!(progress_line(0, 3), "So far, added 0 students out of 3 to the database.");
    assert_eq!(progress_line(12, 345), "So far, added 12 students out of 345 to the database.");
}

#[test]
fn last_password_is_for_the_archive() {
    assert!(split_passwords(vec![]).is_none());
    let (students, archive) = split_passwords(vec!["a".into(), "b".into(), "c".into()]).unwrap();
    assert_eq!(students, vec!["a".to_string(), "b".to_string()]);
    assert_eq!(archive, "c");
}

#[test]
fn passwords_are_drawn_for_all() {
    let config = denim::config::auth::AuthConfig::default();
    let words = denim::config::auth::AuthConfig::words("apple\nbanana\ncherries\nfig");
    let mut drawn_any = false;
    for _ in 0..200 {
        if let Ok((students, archive)) = generate_passwords(&config, &words, 3) {
            drawn_any = true;
            assert_eq!(students.len(), 3);
            for p in students.iter().chain(std::iter::once(&archive)) {
                let (word, number) = p.split_once('_').expect("word_number");
                assert!(["apple", "banana", "cherries"].contains(&word));
                let number: usize = number.parse().unwrap();
                assert!((1_000..10_000).contains(&number));
            }
        }
    }
    assert!(drawn_any);
    let every = denim::config::auth::AuthConfig { word_len_range: 5..7, numbers_range: 7..8 };
    for _ in 0..100 {
        let (students, archive) = generate_passwords(&every, &words, 4).unwrap();
        assert_eq!(students.len(), 4);
        assert!(archive == "apple_7" || archive == "banana_7");
    }
    let none = denim::config::auth::AuthConfig { word_len_range: 9..12, numbers_range: 7..8 };
    assert!(matches!(generate_passwords(&none, &words, 0), Err(DenimError::GeneratePassword)));
    let empty = denim::config::auth::AuthConfig { word_len_range: 5..5, numbers_range: 7..8 };
    assert!(matches!(generate_passwords(&empty, &words, 2), Err(DenimError::GeneratePassword)));
}

fn csv_event(datetime: &str) -> DraftCsvEvent {
    DraftCsvEvent {
        name: "House Football".into(),
        datetime: datetime.into(),
        location: Some("Common".into()),
        extra_info: None,
    }
}

#[test]
fn dates_of_a_file_are_read() {
    let event = draft_event(csv_event("14-05-2025 08:20")).unwrap();
    assert_eq!(event.name, "House Football");
    assert_eq!(
        (event.datetime.year, event.datetime.month, event.datetime.day),
        (2025, 5, 14)
    );
    assert_eq!((event.datetime.hour, event.datetime.minute, event.datetime.second), (8, 20, 0));
    assert_eq!(event.location.as_deref(), Some("Common"));
    match draft_event(csv_event("2025-05-14 08:20")) {
        Err(DenimError::ParseTime { original, .. }) => assert_eq!(original, "2025-05-14 08:20"),
        other => panic!("expected a date that does not fit, got {:?}", other),
    }
    assert!(draft_event(csv_event("31-02-2025 08:20")).is_err());
}

#[test]
fn events_of_a_file_are_read_or_refused() {
    let good = vec![Ok(csv_event("14-05-2025 08:20")), Ok(csv_event("01-01-2026 23:59"))];
    let events = read_events(&good).unwrap();
    assert_eq!(events.len(), 2);
    assert_eq!(events[1].datetime.year, 2026);
    let mixed = vec![
        Ok(csv_event("14-05-2025 08:20")),
        Err("record 2: missing field".to_string()),
        Ok(csv_event("soon")),
    ];
    let failures = read_events(&mixed).unwrap_err();
    assert_eq!(failures.len(), 2);
    assert!(matches!(&failures[0], DenimError::Csv { source } if source == "record 2: missing field"));
    assert!(matches!(&failures[1], DenimError::ParseTime { original, .. } if original == "soon"));
    assert!(read_events(&vec![]).unwrap().is_empty());
}

#[test]
fn events_import_ends() {
    let mut tally = BatchTally::new();
    assert!(!tally.is_stopped());
    assert!(matches!(
        end_of_events_import(BatchTally::new()),
        BatchEnd::Commit { announce: None, failures } if failures.is_empty()
    ));
    tally.note("Chess".into(), ItemOutcome::Added);
    tally.note("Rowing".into(), ItemOutcome::BadRow("ends before it starts".into()));
    tally.note("Choir".into(), ItemOutcome::Added);
    assert_eq!((tally.added, tally.failures.len()), (2, 1));
    match end_of_events_import(tally) {
        BatchEnd::Commit { announce, failures } => {
            assert_eq!(announce, Some(SseEvent::CrudEvent));
            assert_eq!(failures.len(), 1);
            assert_eq!(failures[0].email, "Rowing");
            assert_eq!(failures[0].message, "ends before it starts");
        }
        other => panic!("expected a commit, got {:?}", other),
    }

    let mut tally = BatchTally::new();
    tally.note("Chess".into(), ItemOutcome::Added);
    tally.note("Rowing".into(), ItemOutcome::StoreFailed("connection lost".into()));
    assert!(tally.is_stopped());
    tally.note("Choir".into(), ItemOutcome::Added);
    tally.note("Debate".into(), ItemOutcome::BadRow("no name".into()));
    assert_eq!((tally.added, tally.failures.len()), (1, 0));
    assert!(matches!(
        end_of_events_import(tally),
        BatchEnd::Rollback { failure } if failure == "connection lost"
    ));
}

#[test]
fn addresses_of_the_file_are_checked() {
    let mut plan = plan();
    assert_eq!(
        plan.offer(&student("not an address", "Lion", "tutor@example.org")),
        Placement::BadAddress
    );
    assert_eq!(
        plan.offer(&student("a@example.org", "Lion", "tutor at example")),
        Placement::BadAddress
    );
    assert_eq!(
        plan.offer(&student("", "Nowhere", "nobody@example.org")),
        Placement::BadAddress
    );
    assert!(plan.students_to_add.is_empty());
    assert!(plan.teachers_to_add.is_empty());
    assert_eq!(
        plan.syntax_errors,
        vec![
            "Error parsing email address: not an address".to_string(),
            "Error parsing email address: tutor at example".to_string(),
            "Error parsing email address: ".to_string(),
        ]
    );
    assert_eq!(
        plan.offer(&student("a@example.org", "Lion", "tutor@example.org")),
        Placement::Placed { tutor_group: 50, house_id: 1 }
    );
    match plan.outcome() {
        PlanOutcome::SyntaxErrors(errors) => assert_eq!(errors.len(), 3),
        other => panic!("expected the syntax errors, got {:?}", other),
    }
}

#[test]
fn archive_holds_one_named_file() {
    let mut job = StudentsImport::new(vec![draft(0)], vec!["pw0".into()]).unwrap();
    run_import_plain(&mut job);
    let report = job.finish();
    let (name, contents, cipher) = report.archive_entry();
    assert_eq!(name, "passwords.csv");
    assert_eq!(contents, "email,default_password\nstudent0@example.org,pw0".as_bytes());
    assert_eq!(cipher, ArchiveCipher::Aes256);
}

#[test]
fn passwords_go_into_an_encrypted_archive() {
    let mut job = StudentsImport::new(vec![draft(0)], vec!["pw0".into()]).unwrap();
    run_import_plain(&mut job);
    let report = job.finish();
    let archive = report.passwords_archive("open sesame").unwrap();
    assert_ne!(archive, report.output_csv.as_bytes());
    assert!(!archive.windows(report.output_csv.len()).any(|w| w == report.output_csv.as_bytes()));
    let mut reader = zip::ZipArchive::new(std::io::Cursor::new(archive.clone())).unwrap();
    assert_eq!(reader.len(), 1);
    {
        let mut file = reader.by_index_decrypt(0, b"open sesame").unwrap();
        assert_eq!(file.name(), "passwords.csv");
        let mut contents = String::new();
        std::io::Read::read_to_string(&mut file, &mut contents).unwrap();
        assert_eq!(contents, "email,default_password\nstudent0@example.org,pw0");
    }
    assert!(reader.by_index_decrypt(0, b"wrong").is_err());
    let again = report.passwords_archive("open sesame").unwrap();
    assert_ne!(archive, again);
    assert_eq!(ImportReport::archive_outcome(Ok(vec![1, 2])).unwrap(), vec![1, 2]);
    assert!(matches!(
        ImportReport::archive_outcome(Err("disk full".into())),
        Err(DenimError::Zip { source }) if source == "disk full"
    ));
}

#[test]
fn events_travel_between_the_forms() {
    let bytes: Vec<u8> = vec![0xfb, 0xff, 0x00, 0x3e, 0x3f];
    let form = FullEventsForm {
        b64events: "-_8APj8=".into(),
        tz: "UTC".into(),
        associated_staff_member: "".into(),
    };
    assert_eq!(form.events_bytes().unwrap(), bytes);
    assert_eq!(form.staff_member().unwrap(), None);
    let form = FullEventsForm {
        b64events: "not base64!".into(),
        tz: "UTC".into(),
        associated_staff_member: "00000000-0000-0000-0000-000000000007".into(),
    };
    assert!(matches!(form.events_bytes(), Err(DenimError::B64 { .. })));
    assert_eq!(form.staff_member().unwrap(), Some(7));
    let form = FullEventsForm {
        b64events: "".into(),
        tz: "UTC".into(),
        associated_staff_member: "someone".into(),
    };
    assert_eq!(form.events_bytes().unwrap(), Vec::<u8>::new());
    assert!(matches!(
        form.staff_member(),
        Err(DenimError::ParseUuid { original, .. }) if original == "someone"
    ));
}
