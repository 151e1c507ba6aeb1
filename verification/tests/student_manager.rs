use kyefa::error::AppError;
use kyefa::error::DashboardError;
use kyefa::models::ClassLevel;
use kyefa::models::F64Bits;
use kyefa::models::Gender;
use kyefa::models::PaymentStatus;
use kyefa::models::PersonName;
use kyefa::models::Student;
use kyefa::student_manager::follow_up;
use kyefa::student_manager::validate_names_and_choices;
use kyefa::student_manager::StudentEffect;
use kyefa::student_manager::StudentManagerMessage;
use kyefa::student_manager::StudentManagerState;
use kyefa::student_manager::StudentOutcome;
use kyefa::student_manager::SUCCESS_BANNER_SECONDS;

fn pupil(id: u128, first_name: &str, surname: &str) -> Student {
    Student {
        id,
        name: PersonName {
            first_name: first_name.to_string(),
            surname: surname.to_string(),
            other_names: Some("K.".to_string()),
        },
        gender: Gender::Male,
        class_level: ClassLevel::WASSCE1,
        is_active: true,
        fee_amount: F64Bits { bits: 1500.0f64.to_bits() },
        payment_status: PaymentStatus::Partial,
    }
}

fn filled_form() -> StudentManagerState {
    let mut state = StudentManagerState::new();
    state.update(StudentManagerMessage::FirstNameInputChanged("John".to_string()));
    state.update(StudentManagerMessage::SurnameInputChanged("Doe".to_string()));
    state.update(StudentManagerMessage::OtherNamesInputChanged("Kwabena".to_string()));
    state.update(StudentManagerMessage::GenderSelected(Gender::Male));
    state.update(StudentManagerMessage::ClassLevelSelected(ClassLevel::IGCSE1));
    state
}

fn with_roster(students: Vec<Student>) -> StudentManagerState {
    let mut state = StudentManagerState::new();
    state.update(StudentManagerMessage::FetchedStudents(students));
    state
}

fn roster_ids(state: &StudentManagerState) -> Vec<u128> {
    state.students.iter().map(|s| s.id).collect()
}

fn is_timer(effect: &Option<StudentEffect>) -> bool {
    matches!(effect, Some(StudentEffect::ClearSuccessMessageAfter(3)))
}

#[test]
fn new_state_is_empty() {
    let state = StudentManagerState::new();
    assert_eq!(state.first_name_input, "");
    assert_eq!(state.surname_input, "");
    assert_eq!(state.other_names_input, "");
    assert_eq!(state.selected_gender, None);
    assert_eq!(state.selected_class_level, None);
    assert!(state.students.is_empty());
    assert!(!state.show_success_message);
    assert_eq!(state.form_error_message, None);
    assert_eq!(state.editing_student_id, None);
    assert_eq!(state.edit_first_name_input, "");
    assert_eq!(state.edit_surname_input, "");
    assert_eq!(state.edit_other_names_input, "");
    assert_eq!(state.edit_selected_gender, None);
    assert_eq!(state.edit_selected_class_level, None);
}

#[test]
fn banner_stays_for_three_seconds() {
    assert_eq!(SUCCESS_BANNER_SECONDS, 3);
}

#[test]
fn typing_fills_the_create_form_and_takes_the_message_down() {
    let mut state = StudentManagerState::new();
    state.form_error_message = Some("old".to_string());
    assert!(state.update(StudentManagerMessage::FirstNameInputChanged("Jo".to_string())).is_none());
    assert_eq!(state.first_name_input, "Jo");
    assert_eq!(state.form_error_message, None);
    state.form_error_message = Some("old".to_string());
    assert!(state.update(StudentManagerMessage::SurnameInputChanged("Doe".to_string())).is_none());
    assert_eq!(state.surname_input, "Doe");
    assert_eq!(state.form_error_message, None);
    state.form_error_message = Some("old".to_string());
    assert!(state.update(StudentManagerMessage::OtherNamesInputChanged("K".to_string())).is_none());
    assert_eq!(state.other_names_input, "K");
    assert_eq!(state.form_error_message, None);
    state.form_error_message = Some("old".to_string());
    assert!(state.update(StudentManagerMessage::GenderSelected(Gender::Female)).is_none());
    assert_eq!(state.selected_gender, Some(Gender::Female));
    assert_eq!(state.form_error_message, None);
    state.form_error_message = Some("old".to_string());
    assert!(state.update(StudentManagerMessage::ClassLevelSelected(ClassLevel::ALevel2)).is_none());
    assert_eq!(state.selected_class_level, Some(ClassLevel::ALevel2));
    assert_eq!(state.form_error_message, None);
}

#[test]
fn typing_fills_the_edit_form_and_takes_the_message_down() {
    let mut state = StudentManagerState::new();
    state.form_error_message = Some("old".to_string());
    assert!(state
        .update(StudentManagerMessage::EditFirstNameInputChanged("Jo".to_string()))
        .is_none());
    assert_eq!(state.edit_first_name_input, "Jo");
    assert_eq!(state.form_error_message, None);
    assert!(state
        .update(StudentManagerMessage::EditSurnameInputChanged("Doe".to_string()))
        .is_none());
    assert_eq!(state.edit_surname_input, "Doe");
    assert!(state
        .update(StudentManagerMessage::EditOtherNamesInputChanged("K".to_string()))
        .is_none());
    assert_eq!(state.edit_other_names_input, "K");
    assert!(state.update(StudentManagerMessage::EditGenderSelected(Gender::Female)).is_none());
    assert_eq!(state.edit_selected_gender, Some(Gender::Female));
    assert!(state
        .update(StudentManagerMessage::EditClassLevelSelected(ClassLevel::IGCSE2))
        .is_none());
    assert_eq!(state.edit_selected_class_level, Some(ClassLevel::IGCSE2));
    assert_eq!(state.first_name_input, "");
}

#[test]
fn validator_reports_the_first_broken_rule() {
    let male = Some(Gender::Male);
    let level = Some(ClassLevel::IGCSE1);
    assert_eq!(
        validate_names_and_choices("", "", &None, &None),
        Err("First name cannot be empty.".to_string())
    );
    assert_eq!(
        validate_names_and_choices("  ", "Doe", &male, &level),
        Err("First name cannot be empty.".to_string())
    );
    assert_eq!(
        validate_names_and_choices("John", " \t", &None, &None),
        Err("Surname cannot be empty.".to_string())
    );
    assert_eq!(
        validate_names_and_choices("John", "Doe", &None, &None),
        Err("Please select a gender.".to_string())
    );
    assert_eq!(
        validate_names_and_choices("John", "Doe", &male, &None),
        Err("Please select a class level.".to_string())
    );
    assert_eq!(validate_names_and_choices("John", "Doe", &male, &level), Ok(()));
    assert_eq!(validate_names_and_choices(" J ", " D ", &male, &level), Ok(()));
}

#[test]
fn both_forms_are_checked_by_the_same_rules() {
    let mut state = StudentManagerState::new();
    assert_eq!(state.validate_form(), Err("First name cannot be empty.".to_string()));
    assert_eq!(state.validate_edit_form(), Err("First name cannot be empty.".to_string()));
    state.first_name_input = "John".to_string();
    state.edit_first_name_input = "John".to_string();
    assert_eq!(state.validate_form(), Err("Surname cannot be empty.".to_string()));
    assert_eq!(state.validate_edit_form(), Err("Surname cannot be empty.".to_string()));
    state.surname_input = "Doe".to_string();
    state.edit_surname_input = "Doe".to_string();
    assert_eq!(state.validate_form(), Err("Please select a gender.".to_string()));
    assert_eq!(state.validate_edit_form(), Err("Please select a gender.".to_string()));
    state.selected_gender = Some(Gender::Male);
    state.edit_selected_gender = Some(Gender::Male);
    assert_eq!(state.validate_form(), Err("Please select a class level.".to_string()));
    assert_eq!(state.validate_edit_form(), Err("Please select a class level.".to_string()));
    state.selected_class_level = Some(ClassLevel::IGCSE1);
    state.edit_selected_class_level = Some(ClassLevel::IGCSE1);
    assert_eq!(state.validate_form(), Ok(()));
    assert_eq!(state.validate_edit_form(), Ok(()));
}

#[test]
fn submit_without_first_name_schedules_nothing() {
    let mut state = StudentManagerState::new();
    state.update(StudentManagerMessage::SurnameInputChanged("Doe".to_string()));
    state.update(StudentManagerMessage::GenderSelected(Gender::Male));
    state.update(StudentManagerMessage::ClassLevelSelected(ClassLevel::IGCSE1));
    let effect = state.update(StudentManagerMessage::SubmitNewStudent);
    assert!(effect.is_none());
    assert_eq!(state.form_error_message.as_deref(), Some("First name cannot be empty."));
    assert_eq!(state.surname_input, "Doe");
    assert_eq!(state.selected_gender, Some(Gender::Male));
    assert_eq!(state.selected_class_level, Some(ClassLevel::IGCSE1));
    assert!(state.students.is_empty());
}

#[test]
fn submit_with_one_field_missing_names_that_field() {
    let mut no_surname = filled_form();
    no_surname.update(StudentManagerMessage::SurnameInputChanged("   ".to_string()));
    assert!(no_surname.update(StudentManagerMessage::SubmitNewStudent).is_none());
    assert_eq!(no_surname.form_error_message.as_deref(), Some("Surname cannot be empty."));

    let mut no_gender = filled_form();
    no_gender.selected_gender = None;
    assert!(no_gender.update(StudentManagerMessage::SubmitNewStudent).is_none());
    assert_eq!(no_gender.form_error_message.as_deref(), Some("Please select a gender."));

    let mut no_level = filled_form();
    no_level.selected_class_level = None;
    assert!(no_level.update(StudentManagerMessage::SubmitNewStudent).is_none());
    assert_eq!(no_level.form_error_message.as_deref(), Some("Please select a class level."));
}

#[test]
fn submit_of_a_complete_form_schedules_the_creation() {
    let mut state = filled_form();
    state.show_success_message = true;
    state.form_error_message = Some("old".to_string());
    let effect = state.update(StudentManagerMessage::SubmitNewStudent);
    match effect {
        Some(StudentEffect::CreateStudent(payload)) => {
            assert_eq!(payload.first_name, "John");
            assert_eq!(payload.surname, "Doe");
            assert_eq!(payload.other_names.as_deref(), Some("Kwabena"));
            assert_eq!(payload.gender, Gender::Male);
            assert_eq!(payload.class_level, ClassLevel::IGCSE1);
        }
        other => panic!("unexpected effect {:?}", other),
    }
    assert_eq!(state.form_error_message, None);
    assert!(state.show_success_message);
    assert_eq!(state.first_name_input, "John");
    assert!(state.students.is_empty());
}

#[test]
fn create_payload_keeps_the_names_as_typed_and_leaves_empty_other_names_out() {
    let mut state = filled_form();
    state.update(StudentManagerMessage::FirstNameInputChanged("  John ".to_string()));
    state.update(StudentManagerMessage::OtherNamesInputChanged(String::new()));
    match state.update(StudentManagerMessage::SubmitNewStudent) {
        Some(StudentEffect::CreateStudent(payload)) => {
            assert_eq!(payload.first_name, "  John ");
            assert_eq!(payload.other_names, None);
        }
        other => panic!("unexpected effect {:?}", other),
    }
    state.update(StudentManagerMessage::OtherNamesInputChanged(" ".to_string()));
    match state.update(StudentManagerMessage::SubmitNewStudent) {
        Some(StudentEffect::CreateStudent(payload)) => {
            assert_eq!(payload.other_names.as_deref(), Some(" "));
        }
        other => panic!("unexpected effect {:?}", other),
    }
}

#[test]
fn created_students_are_shown_in_surname_order() {
    let mut state = StudentManagerState::new();
    state.update(StudentManagerMessage::StudentCreated(pupil(1, "A", "Zed")));
    assert_eq!(roster_ids(&state), vec![1]);
    state.update(StudentManagerMessage::StudentCreated(pupil(2, "B", "Amy")));
    let surnames: Vec<&str> = state.students.iter().map(|s| s.name.surname.as_str()).collect();
    assert_eq!(surnames, vec!["Amy", "Zed"]);
    assert_eq!(roster_ids(&state), vec![2, 1]);
}

#[test]
fn roster_is_in_order_after_every_creation() {
    let surnames = ["Mensah", "Boateng", "Zed", "Amy", "Mensah", "Owusu", "Amy", ""];
    let mut state = StudentManagerState::new();
    for (i, surname) in surnames.iter().enumerate() {
        state.update(StudentManagerMessage::StudentCreated(pupil(i as u128, "x", surname)));
        assert_eq!(state.students.len(), i + 1);
        for pair in state.students.windows(2) {
            assert!(pair[0].name.surname <= pair[1].name.surname);
        }
    }
    assert_eq!(roster_ids(&state), vec![7, 3, 6, 1, 0, 4, 5, 2]);
}

#[test]
fn creation_clears_the_form_raises_the_banner_and_arms_the_timer() {
    let mut state = filled_form();
    state.form_error_message = Some("old".to_string());
    state.edit_first_name_input = "kept".to_string();
    let effect = state.update(StudentManagerMessage::StudentCreated(pupil(1, "John", "Doe")));
    assert!(is_timer(&effect));
    assert!(state.show_success_message);
    assert_eq!(state.first_name_input, "");
    assert_eq!(state.surname_input, "");
    assert_eq!(state.other_names_input, "");
    assert_eq!(state.selected_gender, None);
    assert_eq!(state.selected_class_level, None);
    assert_eq!(state.form_error_message, None);
    assert_eq!(state.edit_first_name_input, "kept");
    assert_eq!(state.students.len(), 1);
    assert_eq!(state.students[0].name.other_names.as_deref(), Some("K."));
    assert_eq!(f64::from_bits(state.students[0].fee_amount.bits), 1500.0);
    assert_eq!(state.students[0].payment_status, PaymentStatus::Partial);
}

#[test]
fn failed_creation_shows_the_reason_and_keeps_the_form() {
    let mut state = filled_form();
    state.show_success_message = true;
    let effect =
        state.update(StudentManagerMessage::StudentCreationFailed("Network Issue: down".to_string()));
    assert!(effect.is_none());
    assert_eq!(
        state.form_error_message.as_deref(),
        Some("Failed to add student: Network Issue: down")
    );
    assert!(state.show_success_message);
    assert_eq!(state.first_name_input, "John");
    assert_eq!(state.surname_input, "Doe");
}

#[test]
fn fetch_is_scheduled_on_request() {
    let mut state = filled_form();
    let effect = state.update(StudentManagerMessage::FetchStudents);
    assert!(matches!(effect, Some(StudentEffect::FetchStudents)));
    assert_eq!(state.first_name_input, "John");
}

#[test]
fn fetched_roster_replaces_the_roster_in_surname_order() {
    let mut state = with_roster(vec![pupil(9, "Old", "Old")]);
    let effect = state.update(StudentManagerMessage::FetchedStudents(vec![
        pupil(1, "A", "Zed"),
        pupil(2, "B", "Amy"),
        pupil(3, "C", "Moss"),
    ]));
    assert!(effect.is_none());
    assert_eq!(roster_ids(&state), vec![2, 3, 1]);
}

#[test]
fn failed_fetch_changes_nothing() {
    let mut state = with_roster(vec![pupil(1, "A", "Amy")]);
    state.show_success_message = true;
    let effect = state
        .update(StudentManagerMessage::StudentFetchFailed(AppError::NetworkIssue("x".to_string())));
    assert!(effect.is_none());
    assert_eq!(roster_ids(&state), vec![1]);
    assert!(state.show_success_message);
    assert_eq!(state.form_error_message, None);
}

#[test]
fn clear_form_empties_the_create_form_only() {
    let mut state = filled_form();
    state.show_success_message = true;
    state.form_error_message = Some("old".to_string());
    state.edit_first_name_input = "kept".to_string();
    state.editing_student_id = Some(4);
    let effect = state.update(StudentManagerMessage::ClearForm);
    assert!(effect.is_none());
    assert_eq!(state.first_name_input, "");
    assert_eq!(state.surname_input, "");
    assert_eq!(state.other_names_input, "");
    assert_eq!(state.selected_gender, None);
    assert_eq!(state.selected_class_level, None);
    assert_eq!(state.form_error_message, None);
    assert!(state.show_success_message);
    assert_eq!(state.edit_first_name_input, "kept");
    assert_eq!(state.editing_student_id, Some(4));
    state.update(StudentManagerMessage::ClearSuccessMessage);
    state.update(StudentManagerMessage::FirstNameInputChanged("x".to_string()));
    state.update(StudentManagerMessage::ClearForm);
    assert_eq!(state.first_name_input, "");
    assert!(!state.show_success_message);
}

#[test]
fn clearing_the_banner_twice_is_as_good_as_once() {
    let mut state = filled_form();
    state.update(StudentManagerMessage::StudentCreated(pupil(1, "A", "Amy")));
    assert!(state.show_success_message);
    assert!(state.update(StudentManagerMessage::ClearSuccessMessage).is_none());
    assert!(!state.show_success_message);
    let once = format!("{:?}", state);
    assert!(state.update(StudentManagerMessage::ClearSuccessMessage).is_none());
    assert!(!state.show_success_message);
    assert_eq!(format!("{:?}", state), once);
}

#[test]
fn only_the_timer_takes_the_banner_down() {
    let messages = vec![
        StudentManagerMessage::FirstNameInputChanged("x".to_string()),
        StudentManagerMessage::SurnameInputChanged("x".to_string()),
        StudentManagerMessage::OtherNamesInputChanged("x".to_string()),
        StudentManagerMessage::GenderSelected(Gender::Female),
        StudentManagerMessage::ClassLevelSelected(ClassLevel::IGCSE2),
        StudentManagerMessage::SubmitNewStudent,
        StudentManagerMessage::ClearForm,
        StudentManagerMessage::SubmitNewStudent,
        StudentManagerMessage::StudentCreated(pupil(7, "G", "Gyan")),
        StudentManagerMessage::StudentCreationFailed("no".to_string()),
        StudentManagerMessage::FetchStudents,
        StudentManagerMessage::FetchedStudents(vec![pupil(1, "A", "Amy")]),
        StudentManagerMessage::StudentFetchFailed(AppError::NetworkIssue("x".to_string())),
        StudentManagerMessage::EditStudent(1),
        StudentManagerMessage::EditStudent(99),
        StudentManagerMessage::EditFirstNameInputChanged("x".to_string()),
        StudentManagerMessage::EditSurnameInputChanged("x".to_string()),
        StudentManagerMessage::EditOtherNamesInputChanged("x".to_string()),
        StudentManagerMessage::EditGenderSelected(Gender::Male),
        StudentManagerMessage::EditClassLevelSelected(ClassLevel::ALevel1),
        StudentManagerMessage::UpdateStudent(1),
        StudentManagerMessage::DeleteStudent(1),
        StudentManagerMessage::StudentUpdated(Ok(pupil(1, "A", "Ansah"))),
        StudentManagerMessage::StudentUpdated(Err("no".to_string())),
        StudentManagerMessage::StudentDeleted(Ok(())),
        StudentManagerMessage::StudentDeleted(Err("no".to_string())),
        StudentManagerMessage::CancelEdit,
        StudentManagerMessage::GenerateExcelTemplate,
        StudentManagerMessage::TemplateGenerationResult(Ok(())),
        StudentManagerMessage::TemplateGenerationResult(Err(AppError::IoError("x".to_string()))),
        StudentManagerMessage::ImportStudentsFromExcel,
        StudentManagerMessage::ImportResult(Ok(())),
        StudentManagerMessage::ImportResult(Err(AppError::IoError("x".to_string()))),
    ];
    let mut state = filled_form();
    state.update(StudentManagerMessage::StudentCreated(pupil(1, "A", "Amy")));
    assert!(state.show_success_message);
    for message in messages {
        let shown = format!("{:?}", message);
        state.update(message);
        assert!(state.show_success_message, "after {}", shown);
    }
    state.update(StudentManagerMessage::ClearSuccessMessage);
    assert!(!state.show_success_message);
}

#[test]
fn banner_goes_up_on_success_only() {
    let quiet = vec![
        StudentManagerMessage::FirstNameInputChanged("x".to_string()),
        StudentManagerMessage::SubmitNewStudent,
        StudentManagerMessage::ClearForm,
        StudentManagerMessage::StudentCreationFailed("no".to_string()),
        StudentManagerMessage::FetchedStudents(vec![pupil(1, "A", "Amy")]),
        StudentManagerMessage::EditStudent(1),
        StudentManagerMessage::UpdateStudent(1),
        StudentManagerMessage::StudentUpdated(Err("no".to_string())),
        StudentManagerMessage::StudentDeleted(Err("no".to_string())),
        StudentManagerMessage::CancelEdit,
        StudentManagerMessage::ImportResult(Err(AppError::IoError("x".to_string()))),
        StudentManagerMessage::TemplateGenerationResult(Err(AppError::IoError("x".to_string()))),
        StudentManagerMessage::ClearSuccessMessage,
    ];
    let mut state = StudentManagerState::new();
    for message in quiet {
        let shown = format!("{:?}", message);
        state.update(message);
        assert!(!state.show_success_message, "after {}", shown);
    }
    let loud = vec![
        StudentManagerMessage::StudentCreated(pupil(2, "B", "Bea")),
        StudentManagerMessage::StudentUpdated(Ok(pupil(2, "B", "Boat"))),
        StudentManagerMessage::StudentDeleted(Ok(())),
        StudentManagerMessage::ImportResult(Ok(())),
        StudentManagerMessage::TemplateGenerationResult(Ok(())),
    ];
    for message in loud {
        let shown = format!("{:?}", message);
        state.update(StudentManagerMessage::ClearSuccessMessage);
        assert!(!state.show_success_message);
        state.update(message);
        assert!(state.show_success_message, "after {}", shown);
    }
}

#[test]
fn student_under_edit_has_both_selections() {
    let messages = vec![
        StudentManagerMessage::EditStudent(1),
        StudentManagerMessage::EditFirstNameInputChanged(String::new()),
        StudentManagerMessage::EditGenderSelected(Gender::Female),
        StudentManagerMessage::UpdateStudent(1),
        StudentManagerMessage::StudentUpdated(Err("no".to_string())),
        StudentManagerMessage::EditStudent(2),
        StudentManagerMessage::ClearForm,
        StudentManagerMessage::StudentDeleted(Err("no".to_string())),
        StudentManagerMessage::StudentUpdated(Ok(pupil(2, "B", "Boat"))),
        StudentManagerMessage::EditStudent(9),
        StudentManagerMessage::EditStudent(1),
        StudentManagerMessage::CancelEdit,
        StudentManagerMessage::EditStudent(2),
        StudentManagerMessage::StudentDeleted(Ok(())),
    ];
    let mut state = with_roster(vec![pupil(1, "A", "Amy"), pupil(2, "B", "Bea")]);
    for message in messages {
        state.update(message);
        if state.editing_student_id.is_some() {
            assert!(state.edit_selected_gender.is_some());
            assert!(state.edit_selected_class_level.is_some());
        }
    }
    let mut nobody = StudentManagerState::new();
    nobody.update(StudentManagerMessage::EditGenderSelected(Gender::Male));
    assert_eq!(nobody.editing_student_id, None);
    assert_eq!(nobody.edit_selected_gender, Some(Gender::Male));
}

#[test]
fn typing_does_not_take_the_banner_down() {
    let mut state = StudentManagerState::new();
    state.update(StudentManagerMessage::StudentCreated(pupil(1, "A", "Amy")));
    state.update(StudentManagerMessage::FirstNameInputChanged("x".to_string()));
    state.update(StudentManagerMessage::GenderSelected(Gender::Male));
    state.update(StudentManagerMessage::EditSurnameInputChanged("y".to_string()));
    state.update(StudentManagerMessage::EditStudent(1));
    state.update(StudentManagerMessage::CancelEdit);
    state.update(StudentManagerMessage::SubmitNewStudent);
    state.update(StudentManagerMessage::DeleteStudent(1));
    state.update(StudentManagerMessage::StudentUpdated(Err("no".to_string())));
    assert!(state.show_success_message);
}

#[test]
fn edit_of_an_unknown_student_changes_nothing() {
    let mut state = with_roster(vec![pupil(1, "A", "Amy"), pupil(2, "B", "Bea")]);
    state.form_error_message = Some("kept".to_string());
    state.edit_first_name_input = "typed".to_string();
    let before = format!("{:?}", state);
    let effect = state.update(StudentManagerMessage::EditStudent(3));
    assert!(effect.is_none());
    assert_eq!(format!("{:?}", state), before);
    assert_eq!(state.editing_student_id, None);
    assert_eq!(state.form_error_message.as_deref(), Some("kept"));
}

#[test]
fn edit_seeds_the_edit_form_from_the_roster() {
    let mut state = with_roster(vec![pupil(1, "Ama", "Amy"), pupil(2, "Bea", "Boat")]);
    state.students[1].name.other_names = None;
    state.students[1].gender = Gender::Female;
    state.form_error_message = Some("old".to_string());
    let effect = state.update(StudentManagerMessage::EditStudent(1));
    assert!(effect.is_none());
    assert_eq!(state.editing_student_id, Some(1));
    assert_eq!(state.edit_first_name_input, "Ama");
    assert_eq!(state.edit_surname_input, "Amy");
    assert_eq!(state.edit_other_names_input, "K.");
    assert_eq!(state.edit_selected_gender, Some(Gender::Male));
    assert_eq!(state.edit_selected_class_level, Some(ClassLevel::WASSCE1));
    assert_eq!(state.form_error_message, None);
    state.update(StudentManagerMessage::EditStudent(2));
    assert_eq!(state.editing_student_id, Some(2));
    assert_eq!(state.edit_first_name_input, "Bea");
    assert_eq!(state.edit_other_names_input, "");
    assert_eq!(state.edit_selected_gender, Some(Gender::Female));
    assert_eq!(roster_ids(&state), vec![1, 2]);
}

#[test]
fn update_of_an_incomplete_edit_form_schedules_nothing() {
    let mut state = with_roster(vec![pupil(1, "Ama", "Amy")]);
    state.update(StudentManagerMessage::EditStudent(1));
    state.update(StudentManagerMessage::EditFirstNameInputChanged(" ".to_string()));
    let effect = state.update(StudentManagerMessage::UpdateStudent(1));
    assert!(effect.is_none());
    assert_eq!(state.form_error_message.as_deref(), Some("First name cannot be empty."));
    assert_eq!(state.editing_student_id, Some(1));
    assert_eq!(state.edit_surname_input, "Amy");
}

#[test]
fn update_sends_the_trimmed_edit_form() {
    let mut state = with_roster(vec![pupil(1, "Ama", "Amy")]);
    state.update(StudentManagerMessage::EditStudent(1));
    state.update(StudentManagerMessage::EditFirstNameInputChanged("  Abena ".to_string()));
    state.update(StudentManagerMessage::EditSurnameInputChanged("Mensah\n".to_string()));
    state.update(StudentManagerMessage::EditOtherNamesInputChanged("  ".to_string()));
    state.update(StudentManagerMessage::EditClassLevelSelected(ClassLevel::ALevel1));
    match state.update(StudentManagerMessage::UpdateStudent(1)) {
        Some(StudentEffect::UpdateStudent(payload)) => {
            assert_eq!(payload.id, 1);
            assert_eq!(payload.first_name, "Abena");
            assert_eq!(payload.surname, "Mensah");
            assert_eq!(payload.other_names, None);
            assert_eq!(payload.gender, Gender::Male);
            assert_eq!(payload.class_level, ClassLevel::ALevel1);
        }
        other => panic!("unexpected effect {:?}", other),
    }
    assert_eq!(state.edit_first_name_input, "  Abena ");
    assert_eq!(state.students[0].name.first_name, "Ama");
    state.update(StudentManagerMessage::EditOtherNamesInputChanged(" Serwaa ".to_string()));
    match state.update(StudentManagerMessage::UpdateStudent(77)) {
        Some(StudentEffect::UpdateStudent(payload)) => {
            assert_eq!(payload.id, 77);
            assert_eq!(payload.other_names.as_deref(), Some("Serwaa"));
        }
        other => panic!("unexpected effect {:?}", other),
    }
}

#[test]
fn confirmed_update_replaces_the_entry_and_sorts_again() {
    let mut state =
        with_roster(vec![pupil(1, "A", "Amy"), pupil(2, "B", "Bea"), pupil(3, "C", "Cat")]);
    state.update(StudentManagerMessage::EditStudent(1));
    let mut changed = pupil(1, "A", "Dzifa");
    changed.class_level = ClassLevel::ALevel2;
    let effect = state.update(StudentManagerMessage::StudentUpdated(Ok(changed)));
    assert!(is_timer(&effect));
    assert_eq!(state.students.len(), 3);
    assert_eq!(roster_ids(&state), vec![2, 3, 1]);
    assert_eq!(state.students[2].name.surname, "Dzifa");
    assert_eq!(state.students[2].class_level, ClassLevel::ALevel2);
    assert_eq!(state.students[0].name.surname, "Bea");
    assert_eq!(state.students[1].name.surname, "Cat");
    assert!(state.show_success_message);
    assert_eq!(state.editing_student_id, None);
    assert_eq!(state.edit_first_name_input, "");
    assert_eq!(state.edit_surname_input, "");
    assert_eq!(state.edit_other_names_input, "");
    assert_eq!(state.edit_selected_gender, None);
    assert_eq!(state.edit_selected_class_level, None);
    assert_eq!(state.form_error_message, None);
}

#[test]
fn confirmed_update_of_an_unknown_student_keeps_the_roster() {
    let mut state = with_roster(vec![pupil(1, "A", "Amy"), pupil(2, "B", "Bea")]);
    let effect = state.update(StudentManagerMessage::StudentUpdated(Ok(pupil(9, "Z", "Aaa"))));
    assert!(is_timer(&effect));
    assert_eq!(roster_ids(&state), vec![1, 2]);
    assert!(state.show_success_message);
}

#[test]
fn failed_update_keeps_the_edit_form_and_shows_the_reason() {
    let mut state = with_roster(vec![pupil(1, "Ama", "Amy")]);
    state.update(StudentManagerMessage::EditStudent(1));
    state.update(StudentManagerMessage::EditFirstNameInputChanged("Abena".to_string()));
    let effect = state
        .update(StudentManagerMessage::StudentUpdated(Err("Backend API Error: gone".to_string())));
    assert!(effect.is_none());
    assert_eq!(state.form_error_message.as_deref(), Some("Backend API Error: gone"));
    assert_eq!(state.editing_student_id, Some(1));
    assert_eq!(state.edit_first_name_input, "Abena");
    assert_eq!(state.edit_surname_input, "Amy");
    assert_eq!(state.students[0].name.first_name, "Ama");
    assert!(!state.show_success_message);
}

#[test]
fn delete_is_scheduled_at_once() {
    let mut state = with_roster(vec![pupil(1, "A", "Amy")]);
    let effect = state.update(StudentManagerMessage::DeleteStudent(1));
    assert!(matches!(effect, Some(StudentEffect::DeleteStudent(1))));
    assert_eq!(roster_ids(&state), vec![1]);
    let effect = state.update(StudentManagerMessage::DeleteStudent(99));
    assert!(matches!(effect, Some(StudentEffect::DeleteStudent(99))));
}

#[test]
fn confirmed_delete_removes_the_student_under_edit() {
    let mut state =
        with_roster(vec![pupil(1, "A", "Amy"), pupil(2, "B", "Bea"), pupil(3, "C", "Cat")]);
    state.update(StudentManagerMessage::EditStudent(2));
    state.update(StudentManagerMessage::DeleteStudent(2));
    let effect = state.update(StudentManagerMessage::StudentDeleted(Ok(())));
    assert!(is_timer(&effect));
    assert_eq!(roster_ids(&state), vec![1, 3]);
    assert!(state.show_success_message);
    assert_eq!(state.editing_student_id, None);
    assert_eq!(state.edit_first_name_input, "");
}

#[test]
fn confirmed_delete_goes_by_the_edit_form_not_by_the_request() {
    let mut state =
        with_roster(vec![pupil(1, "A", "Amy"), pupil(2, "B", "Bea"), pupil(3, "C", "Cat")]);
    state.update(StudentManagerMessage::EditStudent(1));
    state.update(StudentManagerMessage::DeleteStudent(3));
    state.update(StudentManagerMessage::StudentDeleted(Ok(())));
    assert_eq!(roster_ids(&state), vec![2, 3]);
}

#[test]
fn confirmed_delete_without_an_edit_keeps_the_roster() {
    let mut state = with_roster(vec![pupil(1, "A", "Amy"), pupil(2, "B", "Bea")]);
    state.update(StudentManagerMessage::DeleteStudent(1));
    let effect = state.update(StudentManagerMessage::StudentDeleted(Ok(())));
    assert!(is_timer(&effect));
    assert_eq!(roster_ids(&state), vec![1, 2]);
    assert!(state.show_success_message);
}

#[test]
fn failed_delete_keeps_everything_and_shows_the_reason() {
    let mut state = with_roster(vec![pupil(1, "A", "Amy")]);
    state.update(StudentManagerMessage::EditStudent(1));
    let effect = state.update(StudentManagerMessage::StudentDeleted(Err("Unknown error".to_string())));
    assert!(effect.is_none());
    assert_eq!(state.form_error_message.as_deref(), Some("Unknown error"));
    assert_eq!(roster_ids(&state), vec![1]);
    assert_eq!(state.editing_student_id, Some(1));
    assert_eq!(state.edit_first_name_input, "A");
}

#[test]
fn cancel_edit_empties_the_edit_form_only() {
    let mut state = with_roster(vec![pupil(1, "A", "Amy")]);
    state.update(StudentManagerMessage::FirstNameInputChanged("typed".to_string()));
    state.update(StudentManagerMessage::EditStudent(1));
    state.show_success_message = true;
    state.form_error_message = Some("old".to_string());
    let effect = state.update(StudentManagerMessage::CancelEdit);
    assert!(effect.is_none());
    assert_eq!(state.editing_student_id, None);
    assert_eq!(state.edit_first_name_input, "");
    assert_eq!(state.edit_surname_input, "");
    assert_eq!(state.edit_other_names_input, "");
    assert_eq!(state.edit_selected_gender, None);
    assert_eq!(state.edit_selected_class_level, None);
    assert_eq!(state.form_error_message, None);
    assert!(state.show_success_message);
    assert_eq!(state.first_name_input, "typed");
    assert_eq!(roster_ids(&state), vec![1]);
}

#[test]
fn import_is_scheduled_and_its_success_fetches_the_roster() {
    let mut state = with_roster(vec![pupil(1, "A", "Amy")]);
    let effect = state.update(StudentManagerMessage::ImportStudentsFromExcel);
    assert!(matches!(effect, Some(StudentEffect::ImportStudentsFromExcel)));
    let effect = state.update(StudentManagerMessage::ImportResult(Ok(())));
    assert!(matches!(effect, Some(StudentEffect::FetchStudents)));
    assert!(state.show_success_message);
    assert_eq!(roster_ids(&state), vec![1]);
}

#[test]
fn failed_import_shows_the_error() {
    let mut state = StudentManagerState::new();
    let effect = state.update(StudentManagerMessage::ImportResult(Err(AppError::IoError(
        "No file selected".to_string(),
    ))));
    assert!(effect.is_none());
    assert_eq!(
        state.form_error_message.as_deref(),
        Some("Import failed: IO Error: No file selected")
    );
    assert!(!state.show_success_message);
}

#[test]
fn template_is_scheduled_and_its_result_is_shown() {
    let mut state = StudentManagerState::new();
    let effect = state.update(StudentManagerMessage::GenerateExcelTemplate);
    assert!(matches!(effect, Some(StudentEffect::GenerateExcelTemplate)));
    let effect = state.update(StudentManagerMessage::TemplateGenerationResult(Ok(())));
    assert!(effect.is_none());
    assert!(state.show_success_message);
    assert_eq!(state.form_error_message, None);
    let effect = state.update(StudentManagerMessage::TemplateGenerationResult(Err(
        AppError::Dashboard(DashboardError::StudentNotFound),
    )));
    assert!(effect.is_none());
    assert_eq!(
        state.form_error_message.as_deref(),
        Some("Template generation failed: Dashboard Error: StudentNotFound")
    );
    assert!(state.show_success_message);
}

#[test]
fn clear_inputs_and_clear_edit_inputs() {
    let mut state = filled_form();
    state.edit_first_name_input = "e".to_string();
    state.editing_student_id = Some(1);
    state.show_success_message = true;
    state.clear_edit_inputs();
    assert_eq!(state.edit_first_name_input, "");
    assert_eq!(state.editing_student_id, None);
    assert!(state.show_success_message);
    assert_eq!(state.first_name_input, "John");
    state.clear_inputs();
    assert_eq!(state.first_name_input, "");
    assert!(!state.show_success_message);
}

#[test]
fn outcomes_settle_into_their_follow_up_messages() {
    assert!(matches!(
        follow_up(StudentOutcome::Created(Ok(pupil(1, "A", "Amy")))),
        StudentManagerMessage::StudentCreated(s) if s.id == 1
    ));
    assert!(matches!(
        follow_up(StudentOutcome::Created(Err(AppError::BackendError("dup".to_string())))),
        StudentManagerMessage::StudentCreationFailed(m) if m == "Backend API Error: dup"
    ));
    assert!(matches!(
        follow_up(StudentOutcome::Updated(Ok(pupil(2, "A", "Amy")))),
        StudentManagerMessage::StudentUpdated(Ok(s)) if s.id == 2
    ));
    assert!(matches!(
        follow_up(StudentOutcome::Updated(Err(AppError::NetworkIssue("down".to_string())))),
        StudentManagerMessage::StudentUpdated(Err(m)) if m == "Network Issue: down"
    ));
    assert!(matches!(
        follow_up(StudentOutcome::Deleted(Ok(()))),
        StudentManagerMessage::StudentDeleted(Ok(()))
    ));
    assert!(matches!(
        follow_up(StudentOutcome::Deleted(Err("gone".to_string()))),
        StudentManagerMessage::StudentDeleted(Err(m)) if m == "gone"
    ));
    assert!(matches!(
        follow_up(StudentOutcome::Fetched(Ok(vec![pupil(3, "A", "Amy")]))),
        StudentManagerMessage::FetchedStudents(list) if list.len() == 1 && list[0].id == 3
    ));
    assert!(matches!(
        follow_up(StudentOutcome::Fetched(Err(AppError::NetworkIssue("down".to_string())))),
        StudentManagerMessage::StudentFetchFailed(AppError::NetworkIssue(m)) if m == "down"
    ));
    assert!(matches!(
        follow_up(StudentOutcome::Imported(Ok(()))),
        StudentManagerMessage::ImportResult(Ok(()))
    ));
    assert!(matches!(
        follow_up(StudentOutcome::Imported(Err(AppError::IoError("x".to_string())))),
        StudentManagerMessage::ImportResult(Err(AppError::IoError(m))) if m == "x"
    ));
    assert!(matches!(
        follow_up(StudentOutcome::TemplateGenerated(Ok(()))),
        StudentManagerMessage::TemplateGenerationResult(Ok(()))
    ));
    assert!(matches!(
        follow_up(StudentOutcome::BannerTimeElapsed),
        StudentManagerMessage::ClearSuccessMessage
    ));
}

#[test]
fn copies_of_messages_carry_the_same_result() {
    let updated = StudentManagerMessage::StudentUpdated(Ok(pupil(4, "A", "Amy")));
    assert!(matches!(
        updated.clone(),
        StudentManagerMessage::StudentUpdated(Ok(s)) if s.id == 4 && s.name.surname == "Amy"
    ));
    let failed = StudentManagerMessage::StudentDeleted(Err("gone".to_string()));
    assert!(matches!(
        failed.clone(),
        StudentManagerMessage::StudentDeleted(Err(m)) if m == "gone"
    ));
    let imported = StudentManagerMessage::ImportResult(Err(AppError::IoError("x".to_string())));
    assert!(matches!(
        imported.clone(),
        StudentManagerMessage::ImportResult(Err(AppError::IoError(m))) if m == "x"
    ));
}
