//! The student manager: the create and edit forms over one shared roster,
//! and what each message does to them.

use vstd::prelude::*;
use vstd::string::*;

use crate::error::app_error_text;
use crate::error::AppError;
use crate::models::ClassLevel;
use crate::models::CreateStudentPayload;
use crate::models::CreateStudentPayloadView;
use crate::models::Gender;
use crate::models::Student;
use crate::models::StudentView;
use crate::models::UpdateStudentPayload;
use crate::models::UpdateStudentPayloadView;
use crate::roster::find_by_id;
use crate::roster::has_other_id;
use crate::roster::lemma_filter_keeps_order;
use crate::roster::lemma_position_of_id;
use crate::roster::lemma_position_of_id_unique;
use crate::roster::lemma_sorted_is_ordered;
use crate::roster::lemma_sorted_is_permutation;
use crate::roster::lemma_sorted_len;
use crate::roster::ordered_by_surname;
use crate::roster::position_of_id;
use crate::roster::remove_by_id;
use crate::roster::sort_by_surname;
use crate::roster::sorted_by_surname;
use crate::roster::without_id;
use crate::text::is_blank;
use crate::text::is_blank_text;
use crate::text::lemma_trimmed_empty_iff_blank;
use crate::text::trim_text;
use crate::text::trimmed;

verus! {

/// For how many seconds the success banner stays up.
pub const SUCCESS_BANNER_SECONDS: u64 = 3;

/// What can be said to the student manager.
#[derive(Debug, Clone)]
pub enum StudentManagerMessage {
    FirstNameInputChanged(String),
    SurnameInputChanged(String),
    OtherNamesInputChanged(String),
    GenderSelected(Gender),
    ClassLevelSelected(ClassLevel),
    SubmitNewStudent,
    StudentCreated(Student),
    StudentCreationFailed(String),
    FetchStudents,
    FetchedStudents(Vec<Student>),
    StudentFetchFailed(AppError),
    ClearForm,
    ClearSuccessMessage,
    EditStudent(u128),
    EditFirstNameInputChanged(String),
    EditSurnameInputChanged(String),
    EditOtherNamesInputChanged(String),
    EditGenderSelected(Gender),
    EditClassLevelSelected(ClassLevel),
    UpdateStudent(u128),
    DeleteStudent(u128),
    StudentUpdated(Result<Student, String>),
    StudentDeleted(Result<(), String>),
    CancelEdit,
    GenerateExcelTemplate,
    TemplateGenerationResult(Result<(), AppError>),
    ImportStudentsFromExcel,
    ImportResult(Result<(), AppError>),
}

/// Work that the student manager asks to have done outside the dispatch
/// loop. Each settles into one follow-up message.
#[derive(Debug, Clone)]
pub enum StudentEffect {
    /// Ask the backend to create a student.
    CreateStudent(CreateStudentPayload),
    /// Ask the backend to change a student.
    UpdateStudent(UpdateStudentPayload),
    /// Ask the backend to delete the student with this identifier.
    DeleteStudent(u128),
    /// Fetch the whole roster from the backend.
    FetchStudents,
    /// Let the user pick a spreadsheet and upload it.
    ImportStudentsFromExcel,
    /// Let the user pick a path and write the import template there.
    GenerateExcelTemplate,
    /// After this many seconds, say `ClearSuccessMessage`.
    ClearSuccessMessageAfter(u64),
}

/// What a `StudentEffect` holds.
pub enum StudentEffectView {
    CreateStudent(CreateStudentPayloadView),
    UpdateStudent(UpdateStudentPayloadView),
    DeleteStudent(u128),
    FetchStudents,
    ImportStudentsFromExcel,
    GenerateExcelTemplate,
    ClearSuccessMessageAfter(u64),
}

impl View for StudentEffect {
    type V = StudentEffectView;

    open spec fn view(&self) -> StudentEffectView {
        match self {
            StudentEffect::CreateStudent(p) => StudentEffectView::CreateStudent(p@),
            StudentEffect::UpdateStudent(p) => StudentEffectView::UpdateStudent(p@),
            StudentEffect::DeleteStudent(id) => StudentEffectView::DeleteStudent(*id),
            StudentEffect::FetchStudents => StudentEffectView::FetchStudents,
            StudentEffect::ImportStudentsFromExcel => StudentEffectView::ImportStudentsFromExcel,
            StudentEffect::GenerateExcelTemplate => StudentEffectView::GenerateExcelTemplate,
            StudentEffect::ClearSuccessMessageAfter(s) => {
                StudentEffectView::ClearSuccessMessageAfter(*s)
            },
        }
    }
}

impl DeepView for StudentEffect {
    type V = StudentEffectView;

    open spec fn deep_view(&self) -> StudentEffectView {
        self@
    }
}

/// The create form, the edit form and the roster they share.
#[derive(Debug, Clone)]
pub struct StudentManagerState {
    pub first_name_input: String,
    pub surname_input: String,
    pub other_names_input: String,
    pub selected_gender: Option<Gender>,
    pub selected_class_level: Option<ClassLevel>,
    pub students: Vec<Student>,
    pub show_success_message: bool,
    pub form_error_message: Option<String>,
    pub editing_student_id: Option<u128>,
    pub edit_first_name_input: String,
    pub edit_surname_input: String,
    pub edit_other_names_input: String,
    pub edit_selected_gender: Option<Gender>,
    pub edit_selected_class_level: Option<ClassLevel>,
}

/// What a `StudentManagerState` holds.
pub struct StudentManagerView {
    pub first_name_input: Seq<char>,
    pub surname_input: Seq<char>,
    pub other_names_input: Seq<char>,
    pub selected_gender: Option<Gender>,
    pub selected_class_level: Option<ClassLevel>,
    pub students: Seq<StudentView>,
    pub show_success_message: bool,
    pub form_error_message: Option<Seq<char>>,
    pub editing_student_id: Option<u128>,
    pub edit_first_name_input: Seq<char>,
    pub edit_surname_input: Seq<char>,
    pub edit_other_names_input: Seq<char>,
    pub edit_selected_gender: Option<Gender>,
    pub edit_selected_class_level: Option<ClassLevel>,
}

impl View for StudentManagerState {
    type V = StudentManagerView;

    open spec fn view(&self) -> StudentManagerView {
        StudentManagerView {
            first_name_input: self.first_name_input@,
            surname_input: self.surname_input@,
            other_names_input: self.other_names_input@,
            selected_gender: self.selected_gender,
            selected_class_level: self.selected_class_level,
            students: self.students.deep_view(),
            show_success_message: self.show_success_message,
            form_error_message: self.form_error_message.deep_view(),
            editing_student_id: self.editing_student_id,
            edit_first_name_input: self.edit_first_name_input@,
            edit_surname_input: self.edit_surname_input@,
            edit_other_names_input: self.edit_other_names_input@,
            edit_selected_gender: self.edit_selected_gender,
            edit_selected_class_level: self.edit_selected_class_level,
        }
    }
}

impl DeepView for StudentManagerState {
    type V = StudentManagerView;

    open spec fn deep_view(&self) -> StudentManagerView {
        self@
    }
}

/// The first rule that a form breaks, as the sentence shown for it: the
/// first name must not be blank, nor the surname, a gender must be selected,
/// and a class level. `None` where the form breaks no rule.
pub open spec fn form_violation(
    first_name: Seq<char>,
    surname: Seq<char>,
    gender: Option<Gender>,
    class_level: Option<ClassLevel>,
) -> Option<Seq<char>> {
    if trimmed(first_name).len() == 0 {
        Some("First name cannot be empty."@)
    } else if trimmed(surname).len() == 0 {
        Some("Surname cannot be empty."@)
    } else if gender is None {
        Some("Please select a gender."@)
    } else if class_level is None {
        Some("Please select a class level."@)
    } else {
        None
    }
}

/// A text, or nothing where the text is empty.
pub open spec fn unless_empty(text: Seq<char>) -> Option<Seq<char>> {
    if text.len() == 0 {
        None
    } else {
        Some(text)
    }
}

impl StudentManagerView {
    /// Both forms empty, no roster, nothing shown.
    pub open spec fn initial() -> StudentManagerView {
        StudentManagerView {
            first_name_input: Seq::empty(),
            surname_input: Seq::empty(),
            other_names_input: Seq::empty(),
            selected_gender: None,
            selected_class_level: None,
            students: Seq::empty(),
            show_success_message: false,
            form_error_message: None,
            editing_student_id: None,
            edit_first_name_input: Seq::empty(),
            edit_surname_input: Seq::empty(),
            edit_other_names_input: Seq::empty(),
            edit_selected_gender: None,
            edit_selected_class_level: None,
        }
    }

    /// The first rule that the create form breaks.
    pub open spec fn create_violation(self) -> Option<Seq<char>> {
        form_violation(
            self.first_name_input,
            self.surname_input,
            self.selected_gender,
            self.selected_class_level,
        )
    }

    /// The first rule that the edit form breaks.
    pub open spec fn edit_violation(self) -> Option<Seq<char>> {
        form_violation(
            self.edit_first_name_input,
            self.edit_surname_input,
            self.edit_selected_gender,
            self.edit_selected_class_level,
        )
    }

    /// The state with the create form emptied, its message and the success
    /// banner taken down.
    pub open spec fn with_inputs_cleared(self) -> StudentManagerView {
        StudentManagerView {
            first_name_input: Seq::empty(),
            surname_input: Seq::empty(),
            other_names_input: Seq::empty(),
            selected_gender: None,
            selected_class_level: None,
            form_error_message: None,
            show_success_message: false,
            ..self
        }
    }

    /// The state with the edit form emptied, no student under edit and the
    /// form message taken down.
    pub open spec fn with_edit_inputs_cleared(self) -> StudentManagerView {
        StudentManagerView {
            edit_first_name_input: Seq::empty(),
            edit_surname_input: Seq::empty(),
            edit_other_names_input: Seq::empty(),
            edit_selected_gender: None,
            edit_selected_class_level: None,
            editing_student_id: None,
            form_error_message: None,
            ..self
        }
    }

    /// What a valid create form asks the backend for: the names as typed,
    /// the other names left out where none were typed.
    pub open spec fn create_payload(self) -> CreateStudentPayloadView
        recommends
            self.create_violation() is None,
    {
        CreateStudentPayloadView {
            first_name: self.first_name_input,
            surname: self.surname_input,
            other_names: unless_empty(self.other_names_input),
            gender: self.selected_gender.unwrap(),
            class_level: self.selected_class_level.unwrap(),
        }
    }

    /// What a valid edit form asks the backend for: the names trimmed, the
    /// other names left out where they are blank.
    pub open spec fn update_payload(self, id: u128) -> UpdateStudentPayloadView
        recommends
            self.edit_violation() is None,
    {
        UpdateStudentPayloadView {
            id,
            first_name: trimmed(self.edit_first_name_input),
            surname: trimmed(self.edit_surname_input),
            other_names: unless_empty(trimmed(self.edit_other_names_input)),
            gender: self.edit_selected_gender.unwrap(),
            class_level: self.edit_selected_class_level.unwrap(),
        }
    }

    /// The state with the edit form seeded from a roster entry.
    pub open spec fn editing(self, id: u128, student: StudentView) -> StudentManagerView {
        StudentManagerView {
            editing_student_id: Some(id),
            edit_first_name_input: student.name.first_name,
            edit_surname_input: student.name.surname,
            edit_other_names_input: match student.name.other_names {
                Some(names) => names,
                None => Seq::empty(),
            },
            edit_selected_gender: Some(student.gender),
            edit_selected_class_level: Some(student.class_level),
            form_error_message: None,
            ..self
        }
    }

    /// The roster after the backend confirmed `student`: the first entry
    /// with its identifier gives way to it and the roster is sorted again;
    /// where no entry has that identifier the roster stays as it is.
    pub open spec fn roster_with_update(self, student: StudentView) -> Seq<StudentView> {
        match position_of_id(self.students, student.id) {
            Some(i) => sorted_by_surname(self.students.update(i, student)),
            None => self.students,
        }
    }

    /// The roster after the backend confirmed a deletion: the entries that
    /// carry the identifier under edit are gone; where no student is under
    /// edit the roster stays as it is.
    pub open spec fn roster_after_delete(self) -> Seq<StudentView> {
        match self.editing_student_id {
            Some(id) => without_id(self.students, id),
            None => self.students,
        }
    }
}

/// The transition function of the student manager: the state after a
/// message, and the effect that the message schedules, if any. The success
/// banner goes up on a confirmed change of the roster and on a finished
/// import or template, and comes down on `ClearSuccessMessage` alone.
pub open spec fn student_step(s: StudentManagerView, message: StudentManagerMessage) -> (
    StudentManagerView,
    Option<StudentEffectView>,
) {
    match message {
        StudentManagerMessage::FirstNameInputChanged(value) => (
            StudentManagerView { first_name_input: value@, form_error_message: None, ..s },
            None,
        ),
        StudentManagerMessage::SurnameInputChanged(value) => (
            StudentManagerView { surname_input: value@, form_error_message: None, ..s },
            None,
        ),
        StudentManagerMessage::OtherNamesInputChanged(value) => (
            StudentManagerView { other_names_input: value@, form_error_message: None, ..s },
            None,
        ),
        StudentManagerMessage::GenderSelected(gender) => (
            StudentManagerView { selected_gender: Some(gender), form_error_message: None, ..s },
            None,
        ),
        StudentManagerMessage::ClassLevelSelected(level) => (
            StudentManagerView {
                selected_class_level: Some(level),
                form_error_message: None,
                ..s
            },
            None,
        ),
        StudentManagerMessage::SubmitNewStudent => match s.create_violation() {
            None => (
                StudentManagerView { form_error_message: None, ..s },
                Some(StudentEffectView::CreateStudent(s.create_payload())),
            ),
            Some(sentence) => (
                StudentManagerView { form_error_message: Some(sentence), ..s },
                None,
            ),
        },
        StudentManagerMessage::StudentCreated(student) => (
            StudentManagerView {
                students: sorted_by_surname(s.students.push(student@)),
                show_success_message: true,
                ..s.with_inputs_cleared()
            },
            Some(StudentEffectView::ClearSuccessMessageAfter(SUCCESS_BANNER_SECONDS)),
        ),
        StudentManagerMessage::StudentCreationFailed(reason) => (
            StudentManagerView {
                form_error_message: Some("Failed to add student: "@ + reason@),
                ..s
            },
            None,
        ),
        StudentManagerMessage::FetchStudents => (s, Some(StudentEffectView::FetchStudents)),
        StudentManagerMessage::FetchedStudents(students) => (
            StudentManagerView { students: sorted_by_surname(students.deep_view()), ..s },
            None,
        ),
        StudentManagerMessage::StudentFetchFailed(_) => (s, None),
        StudentManagerMessage::ClearForm => (
            StudentManagerView {
                show_success_message: s.show_success_message,
                ..s.with_inputs_cleared()
            },
            None,
        ),
        StudentManagerMessage::ClearSuccessMessage => (
            StudentManagerView { show_success_message: false, ..s },
            None,
        ),
        StudentManagerMessage::EditStudent(id) => match position_of_id(s.students, id) {
            Some(i) => (s.editing(id, s.students[i]), None),
            None => (s, None),
        },
        StudentManagerMessage::EditFirstNameInputChanged(value) => (
            StudentManagerView { edit_first_name_input: value@, form_error_message: None, ..s },
            None,
        ),
        StudentManagerMessage::EditSurnameInputChanged(value) => (
            StudentManagerView { edit_surname_input: value@, form_error_message: None, ..s },
            None,
        ),
        StudentManagerMessage::EditOtherNamesInputChanged(value) => (
            StudentManagerView { edit_other_names_input: value@, form_error_message: None, ..s },
            None,
        ),
        StudentManagerMessage::EditGenderSelected(gender) => (
            StudentManagerView {
                edit_selected_gender: Some(gender),
                form_error_message: None,
                ..s
            },
            None,
        ),
        StudentManagerMessage::EditClassLevelSelected(level) => (
            StudentManagerView {
                edit_selected_class_level: Some(level),
                form_error_message: None,
                ..s
            },
            None,
        ),
        StudentManagerMessage::UpdateStudent(id) => match s.edit_violation() {
            None => (s, Some(StudentEffectView::UpdateStudent(s.update_payload(id)))),
            Some(sentence) => (
                StudentManagerView { form_error_message: Some(sentence), ..s },
                None,
            ),
        },
        StudentManagerMessage::DeleteStudent(id) => (
            s,
            Some(StudentEffectView::DeleteStudent(id)),
        ),
        StudentManagerMessage::StudentUpdated(Ok(student)) => (
            StudentManagerView {
                students: s.roster_with_update(student@),
                show_success_message: true,
                ..s.with_edit_inputs_cleared()
            },
            Some(StudentEffectView::ClearSuccessMessageAfter(SUCCESS_BANNER_SECONDS)),
        ),
        StudentManagerMessage::StudentUpdated(Err(reason)) => (
            StudentManagerView { form_error_message: Some(reason@), ..s },
            None,
        ),
        StudentManagerMessage::StudentDeleted(Ok(_)) => (
            StudentManagerView {
                students: s.roster_after_delete(),
                show_success_message: true,
                ..s.with_edit_inputs_cleared()
            },
            Some(StudentEffectView::ClearSuccessMessageAfter(SUCCESS_BANNER_SECONDS)),
        ),
        StudentManagerMessage::StudentDeleted(Err(reason)) => (
            StudentManagerView { form_error_message: Some(reason@), ..s },
            None,
        ),
        StudentManagerMessage::CancelEdit => (s.with_edit_inputs_cleared(), None),
        StudentManagerMessage::GenerateExcelTemplate => (
            s,
            Some(StudentEffectView::GenerateExcelTemplate),
        ),
        StudentManagerMessage::TemplateGenerationResult(Ok(_)) => (
            StudentManagerView { show_success_message: true, ..s },
            None,
        ),
        StudentManagerMessage::TemplateGenerationResult(Err(error)) => (
            StudentManagerView {
                form_error_message: Some(
                    "Template generation failed: "@ + app_error_text(error@),
                ),
                ..s
            },
            None,
        ),
        StudentManagerMessage::ImportStudentsFromExcel => (
            s,
            Some(StudentEffectView::ImportStudentsFromExcel),
        ),
        StudentManagerMessage::ImportResult(Ok(_)) => (
            StudentManagerView { show_success_message: true, ..s },
            Some(StudentEffectView::FetchStudents),
        ),
        StudentManagerMessage::ImportResult(Err(error)) => (
            StudentManagerView {
                form_error_message: Some("Import failed: "@ + app_error_text(error@)),
                ..s
            },
            None,
        ),
    }
}

/// The shared validator of the two forms: the first broken rule, as the
/// sentence shown for it.
pub fn validate_names_and_choices(
    first_name: &str,
    surname: &str,
    gender: &Option<Gender>,
    class_level: &Option<ClassLevel>,
) -> (verdict: Result<(), String>)
    ensures
        match verdict {
            Ok(_) => form_violation(first_name@, surname@, *gender, *class_level) is None,
            Err(sentence) => form_violation(first_name@, surname@, *gender, *class_level)
                == Some(sentence@),
        },
{
    if is_blank_text(first_name) {
        return Err("First name cannot be empty.".to_string());
    }
    if is_blank_text(surname) {
        return Err("Surname cannot be empty.".to_string());
    }
    if gender.is_none() {
        return Err("Please select a gender.".to_string());
    }
    if class_level.is_none() {
        return Err("Please select a class level.".to_string());
    }
    Ok(())
}

/// A copy of the text, or nothing where the text is empty.
fn owned_unless_empty(text: &str) -> (out: Option<String>)
    ensures
        out.deep_view() == unless_empty(text@),
{
    if text.is_empty() {
        None
    } else {
        Some(text.to_string())
    }
}

impl StudentManagerState {
    /// Both forms empty, no roster, nothing shown.
    pub fn new() -> (state: StudentManagerState)
        ensures
            state@ == StudentManagerView::initial(),
    {
        let state = StudentManagerState {
            first_name_input: String::new(),
            surname_input: String::new(),
            other_names_input: String::new(),
            selected_gender: None,
            selected_class_level: None,
            students: Vec::new(),
            show_success_message: false,
            form_error_message: None,
            editing_student_id: None,
            edit_first_name_input: String::new(),
            edit_surname_input: String::new(),
            edit_other_names_input: String::new(),
            edit_selected_gender: None,
            edit_selected_class_level: None,
        };
        proof {
            assert(state.students.deep_view() =~= Seq::<StudentView>::empty());
        }
        state
    }

    /// Checks the create form: `Err` with the sentence for the first broken
    /// rule, `Ok` where the form breaks none.
    pub fn validate_form(&self) -> (verdict: Result<(), String>)
        ensures
            match verdict {
                Ok(_) => self@.create_violation() is None,
                Err(sentence) => self@.create_violation() == Some(sentence@),
            },
    {
        validate_names_and_choices(
            self.first_name_input.as_str(),
            self.surname_input.as_str(),
            &self.selected_gender,
            &self.selected_class_level,
        )
    }

    /// Checks the edit form by the rules of the create form.
    pub fn validate_edit_form(&self) -> (verdict: Result<(), String>)
        ensures
            match verdict {
                Ok(_) => self@.edit_violation() is None,
                Err(sentence) => self@.edit_violation() == Some(sentence@),
            },
    {
        validate_names_and_choices(
            self.edit_first_name_input.as_str(),
            self.edit_surname_input.as_str(),
            &self.edit_selected_gender,
            &self.edit_selected_class_level,
        )
    }

    /// Empties the create form and takes down its message and the success
    /// banner. The message `ClearForm` does the same to the form and its
    /// message and leaves the banner as it is.
    pub fn clear_inputs(&mut self)
        ensures
            final(self)@ == old(self)@.with_inputs_cleared(),
    {
        self.first_name_input = String::new();
        self.surname_input = String::new();
        self.other_names_input = String::new();
        self.selected_gender = None;
        self.selected_class_level = None;
        self.form_error_message = None;
        self.show_success_message = false;
    }

    /// Empties the edit form, ends the edit and takes down the form message.
    pub fn clear_edit_inputs(&mut self)
        ensures
            final(self)@ == old(self)@.with_edit_inputs_cleared(),
    {
        self.edit_first_name_input = String::new();
        self.edit_surname_input = String::new();
        self.edit_other_names_input = String::new();
        self.edit_selected_gender = None;
        self.edit_selected_class_level = None;
        self.editing_student_id = None;
        self.form_error_message = None;
    }

    /// Seeds the edit form from the roster entry with this identifier;
    /// does nothing where the roster has no such entry.
    fn begin_edit(&mut self, id: u128)
        ensures
            final(self)@ == student_step(old(self)@, StudentManagerMessage::EditStudent(id)).0,
    {
        match find_by_id(&self.students, id) {
            Some(index) => {
                proof {
                    lemma_position_of_id(self.students.deep_view(), id);
                }
                let student = &self.students[index];
                let first_name = student.name.first_name.clone();
                let surname = student.name.surname.clone();
                let other_names = match &student.name.other_names {
                    Some(names) => names.clone(),
                    None => String::new(),
                };
                let gender = student.gender;
                let class_level = student.class_level;
                self.editing_student_id = Some(id);
                self.edit_first_name_input = first_name;
                self.edit_surname_input = surname;
                self.edit_other_names_input = other_names;
                self.edit_selected_gender = Some(gender);
                self.edit_selected_class_level = Some(class_level);
                self.form_error_message = None;
            },
            None => {},
        }
    }

    /// Puts a confirmed student in the place of the roster entry with its
    /// identifier and sorts the roster again.
    fn apply_update(&mut self, student: Student)
        ensures
            final(self)@ == (StudentManagerView {
                students: old(self)@.roster_with_update(student@),
                ..old(self)@
            }),
    {
        match find_by_id(&self.students, student.id) {
            Some(index) => {
                proof {
                    lemma_position_of_id(self.students.deep_view(), student.id);
                }
                let ghost before = self.students.deep_view();
                let ghost entry = student@;
                self.students.set(index, student);
                proof {
                    assert(self.students.deep_view() =~= before.update(index as int, entry));
                }
                sort_by_surname(&mut self.students);
            },
            None => {},
        }
    }

    /// Applies a message: changes the state as `student_step` says and
    /// returns the effect that the message schedules, if any.
    pub fn update(&mut self, message: StudentManagerMessage) -> (effect: Option<StudentEffect>)
        ensures
            final(self)@ == student_step(old(self)@, message).0,
            effect.deep_view() == student_step(old(self)@, message).1,
    {
        match message {
            StudentManagerMessage::FirstNameInputChanged(value) => {
                self.first_name_input = value;
                self.form_error_message = None;
                None
            },
            StudentManagerMessage::SurnameInputChanged(value) => {
                self.surname_input = value;
                self.form_error_message = None;
                None
            },
            StudentManagerMessage::OtherNamesInputChanged(value) => {
                self.other_names_input = value;
                self.form_error_message = None;
                None
            },
            StudentManagerMessage::GenderSelected(gender) => {
                self.selected_gender = Some(gender);
                self.form_error_message = None;
                None
            },
            StudentManagerMessage::ClassLevelSelected(class_level) => {
                self.selected_class_level = Some(class_level);
                self.form_error_message = None;
                None
            },
            StudentManagerMessage::SubmitNewStudent => {
                match self.validate_form() {
                    Ok(_) => {
                        self.form_error_message = None;
                        let payload = CreateStudentPayload {
                            first_name: self.first_name_input.clone(),
                            surname: self.surname_input.clone(),
                            other_names: owned_unless_empty(self.other_names_input.as_str()),
                            gender: self.selected_gender.unwrap(),
                            class_level: self.selected_class_level.unwrap(),
                        };
                        Some(StudentEffect::CreateStudent(payload))
                    },
                    Err(sentence) => {
                        self.form_error_message = Some(sentence);
                        None
                    },
                }
            },
            StudentManagerMessage::StudentCreated(student) => {
                let ghost before = self.students.deep_view();
                let ghost entry = student@;
                self.students.push(student);
                proof {
                    assert(self.students.deep_view() =~= before.push(entry));
                }
                sort_by_surname(&mut self.students);
                self.clear_inputs();
                self.show_success_message = true;
                Some(StudentEffect::ClearSuccessMessageAfter(SUCCESS_BANNER_SECONDS))
            },
            StudentManagerMessage::StudentCreationFailed(reason) => {
                self.form_error_message = Some(
                    String::from_str("Failed to add student: ").concat(reason.as_str()),
                );
                None
            },
            StudentManagerMessage::FetchStudents => Some(StudentEffect::FetchStudents),
            StudentManagerMessage::FetchedStudents(students) => {
                self.students = students;
                sort_by_surname(&mut self.students);
                None
            },
            StudentManagerMessage::StudentFetchFailed(_) => None,
            StudentManagerMessage::ClearForm => {
                let banner = self.show_success_message;
                self.clear_inputs();
                self.show_success_message = banner;
                None
            },
            StudentManagerMessage::ClearSuccessMessage => {
                self.show_success_message = false;
                None
            },
            StudentManagerMessage::EditStudent(id) => {
                self.begin_edit(id);
                None
            },
            StudentManagerMessage::EditFirstNameInputChanged(value) => {
                self.edit_first_name_input = value;
                self.form_error_message = None;
                None
            },
            StudentManagerMessage::EditSurnameInputChanged(value) => {
                self.edit_surname_input = value;
                self.form_error_message = None;
                None
            },
            StudentManagerMessage::EditOtherNamesInputChanged(value) => {
                self.edit_other_names_input = value;
                self.form_error_message = None;
                None
            },
            StudentManagerMessage::EditGenderSelected(gender) => {
                self.edit_selected_gender = Some(gender);
                self.form_error_message = None;
                None
            },
            StudentManagerMessage::EditClassLevelSelected(class_level) => {
                self.edit_selected_class_level = Some(class_level);
                self.form_error_message = None;
                None
            },
            StudentManagerMessage::UpdateStudent(id) => {
                match self.validate_edit_form() {
                    Ok(_) => {
                        let other_names = trim_text(self.edit_other_names_input.as_str());
                        let payload = UpdateStudentPayload {
                            id,
                            first_name: trim_text(self.edit_first_name_input.as_str()),
                            surname: trim_text(self.edit_surname_input.as_str()),
                            other_names: owned_unless_empty(other_names.as_str()),
                            gender: self.edit_selected_gender.unwrap(),
                            class_level: self.edit_selected_class_level.unwrap(),
                        };
                        Some(StudentEffect::UpdateStudent(payload))
                    },
                    Err(sentence) => {
                        self.form_error_message = Some(sentence);
                        None
                    },
                }
            },
            StudentManagerMessage::DeleteStudent(id) => Some(StudentEffect::DeleteStudent(id)),
            StudentManagerMessage::StudentUpdated(result) => {
                match result {
                    Ok(student) => {
                        self.apply_update(student);
                        self.clear_edit_inputs();
                        self.show_success_message = true;
                        Some(StudentEffect::ClearSuccessMessageAfter(SUCCESS_BANNER_SECONDS))
                    },
                    Err(reason) => {
                        self.form_error_message = Some(reason);
                        None
                    },
                }
            },
            StudentManagerMessage::StudentDeleted(result) => {
                match result {
                    Ok(_) => {
                        match self.editing_student_id {
                            Some(id) => {
                                remove_by_id(&mut self.students, id);
                            },
                            None => {},
                        }
                        self.clear_edit_inputs();
                        self.show_success_message = true;
                        Some(StudentEffect::ClearSuccessMessageAfter(SUCCESS_BANNER_SECONDS))
                    },
                    Err(reason) => {
                        self.form_error_message = Some(reason);
                        None
                    },
                }
            },
            StudentManagerMessage::CancelEdit => {
                self.clear_edit_inputs();
                None
            },
            StudentManagerMessage::GenerateExcelTemplate => Some(
                StudentEffect::GenerateExcelTemplate,
            ),
            StudentManagerMessage::TemplateGenerationResult(result) => {
                match result {
                    Ok(_) => {
                        self.show_success_message = true;
                    },
                    Err(error) => {
                        self.form_error_message = Some(
                            String::from_str("Template generation failed: ").concat(
                                error.to_string().as_str(),
                            ),
                        );
                    },
                }
                None
            },
            StudentManagerMessage::ImportStudentsFromExcel => Some(
                StudentEffect::ImportStudentsFromExcel,
            ),
            StudentManagerMessage::ImportResult(result) => {
                match result {
                    Ok(_) => {
                        self.show_success_message = true;
                        Some(StudentEffect::FetchStudents)
                    },
                    Err(error) => {
                        self.form_error_message = Some(
                            String::from_str("Import failed: ").concat(error.to_string().as_str()),
                        );
                        None
                    },
                }
            },
        }
    }
}

/// How an effect of the student manager settled.
#[derive(Debug, Clone)]
pub enum StudentOutcome {
    /// What the backend made of a creation.
    Created(Result<Student, AppError>),
    /// What the backend made of a change.
    Updated(Result<Student, AppError>),
    /// What the backend made of a deletion.
    Deleted(Result<(), String>),
    /// What the backend made of a fetch of the roster.
    Fetched(Result<Vec<Student>, AppError>),
    /// What came of picking and uploading a spreadsheet.
    Imported(Result<(), AppError>),
    /// What came of picking a path and writing the template.
    TemplateGenerated(Result<(), AppError>),
    /// The time of the success banner is over.
    BannerTimeElapsed,
}

/// Whether a message is the one follow-up message of an outcome: a failed
/// creation or change is reported by the sentence of its error, every other
/// outcome is handed on as it is.
pub open spec fn is_follow_up(outcome: StudentOutcome, message: StudentManagerMessage) -> bool {
    match outcome {
        StudentOutcome::Created(Ok(student)) => message == StudentManagerMessage::StudentCreated(
            student,
        ),
        StudentOutcome::Created(Err(error)) => {
            &&& message matches StudentManagerMessage::StudentCreationFailed(reason)
            &&& reason@ == app_error_text(error@)
        },
        StudentOutcome::Updated(Ok(student)) => message == StudentManagerMessage::StudentUpdated(
            Ok(student),
        ),
        StudentOutcome::Updated(Err(error)) => {
            &&& message matches StudentManagerMessage::StudentUpdated(Err(reason))
            &&& reason@ == app_error_text(error@)
        },
        StudentOutcome::Deleted(result) => message == StudentManagerMessage::StudentDeleted(result),
        StudentOutcome::Fetched(Ok(students)) => message
            == StudentManagerMessage::FetchedStudents(students),
        StudentOutcome::Fetched(Err(error)) => message == StudentManagerMessage::StudentFetchFailed(
            error,
        ),
        StudentOutcome::Imported(result) => message == StudentManagerMessage::ImportResult(result),
        StudentOutcome::TemplateGenerated(result) => message
            == StudentManagerMessage::TemplateGenerationResult(result),
        StudentOutcome::BannerTimeElapsed => message == StudentManagerMessage::ClearSuccessMessage,
    }
}

/// The follow-up message of an outcome.
pub fn follow_up(outcome: StudentOutcome) -> (message: StudentManagerMessage)
    ensures
        is_follow_up(outcome, message),
{
    match outcome {
        StudentOutcome::Created(result) => match result {
            Ok(student) => StudentManagerMessage::StudentCreated(student),
            Err(error) => StudentManagerMessage::StudentCreationFailed(error.to_string()),
        },
        StudentOutcome::Updated(result) => match result {
            Ok(student) => StudentManagerMessage::StudentUpdated(Ok(student)),
            Err(error) => StudentManagerMessage::StudentUpdated(Err(error.to_string())),
        },
        StudentOutcome::Deleted(result) => StudentManagerMessage::StudentDeleted(result),
        StudentOutcome::Fetched(result) => match result {
            Ok(students) => StudentManagerMessage::FetchedStudents(students),
            Err(error) => StudentManagerMessage::StudentFetchFailed(error),
        },
        StudentOutcome::Imported(result) => StudentManagerMessage::ImportResult(result),
        StudentOutcome::TemplateGenerated(result) => {
            StudentManagerMessage::TemplateGenerationResult(result)
        },
        StudentOutcome::BannerTimeElapsed => StudentManagerMessage::ClearSuccessMessage,
    }
}

/// Whether an outcome is of the kind in which an effect settles.
pub open spec fn settles(effect: StudentEffectView, outcome: StudentOutcome) -> bool {
    match effect {
        StudentEffectView::CreateStudent(_) => outcome is Created,
        StudentEffectView::UpdateStudent(_) => outcome is Updated,
        StudentEffectView::DeleteStudent(_) => outcome is Deleted,
        StudentEffectView::FetchStudents => outcome is Fetched,
        StudentEffectView::ImportStudentsFromExcel => outcome is Imported,
        StudentEffectView::GenerateExcelTemplate => outcome is TemplateGenerated,
        StudentEffectView::ClearSuccessMessageAfter(_) => outcome is BannerTimeElapsed,
    }
}

/// The state after a run of confirmed creations, applied in order.
pub open spec fn after_creations(s: StudentManagerView, created: Seq<Student>) -> StudentManagerView
    decreases created.len(),
{
    if created.len() == 0 {
        s
    } else {
        student_step(
            after_creations(s, created.drop_last()),
            StudentManagerMessage::StudentCreated(created.last()),
        ).0
    }
}

/// A confirmed creation leaves the roster in surname order, whatever order
/// it had before, with the new student and every earlier entry in it.
pub proof fn lemma_creation_orders_roster(s: StudentManagerView, student: Student)
    ensures
        ordered_by_surname(
            student_step(s, StudentManagerMessage::StudentCreated(student)).0.students,
        ),
        student_step(s, StudentManagerMessage::StudentCreated(student)).0.students.to_multiset()
            == s.students.to_multiset().insert(student@),
        student_step(s, StudentManagerMessage::StudentCreated(student)).0.students.len()
            == s.students.len() + 1,
{
    let grown = s.students.push(student@);
    lemma_sorted_is_ordered(grown);
    lemma_sorted_is_permutation(grown);
    lemma_sorted_len(grown);
    vstd::seq_lib::to_multiset_build(s.students, student@);
}

/// Through any run of confirmed creations the roster is in surname order
/// after each of them.
pub proof fn lemma_roster_ordered_after_each_creation(
    s: StudentManagerView,
    created: Seq<Student>,
    n: int,
)
    requires
        1 <= n <= created.len(),
    ensures
        ordered_by_surname(after_creations(s, created.take(n)).students),
{
    let run = created.take(n);
    lemma_creation_orders_roster(after_creations(s, run.drop_last()), run.last());
}

/// Submitting a create form that lacks a required field schedules nothing,
/// changes nothing but the form message, and shows the sentence for the
/// first lacking field in the order first name, surname, gender, class
/// level.
pub proof fn lemma_incomplete_submit_schedules_nothing(s: StudentManagerView)
    requires
        is_blank(s.first_name_input) || is_blank(s.surname_input) || s.selected_gender is None
            || s.selected_class_level is None,
    ensures
        student_step(s, StudentManagerMessage::SubmitNewStudent).1 is None,
        student_step(s, StudentManagerMessage::SubmitNewStudent).0 == (StudentManagerView {
            form_error_message: Some(
                if is_blank(s.first_name_input) {
                    "First name cannot be empty."@
                } else if is_blank(s.surname_input) {
                    "Surname cannot be empty."@
                } else if s.selected_gender is None {
                    "Please select a gender."@
                } else {
                    "Please select a class level."@
                },
            ),
            ..s
        }),
{
    lemma_trimmed_empty_iff_blank(s.first_name_input);
    lemma_trimmed_empty_iff_blank(s.surname_input);
}

/// Submitting a create form that lacks nothing schedules the creation of
/// the student that the form describes.
pub proof fn lemma_complete_submit_schedules_creation(s: StudentManagerView)
    requires
        !is_blank(s.first_name_input),
        !is_blank(s.surname_input),
        s.selected_gender is Some,
        s.selected_class_level is Some,
    ensures
        student_step(s, StudentManagerMessage::SubmitNewStudent).1 == Some(
            StudentEffectView::CreateStudent(s.create_payload()),
        ),
{
    lemma_trimmed_empty_iff_blank(s.first_name_input);
    lemma_trimmed_empty_iff_blank(s.surname_input);
}

/// Asking to edit a student that the roster does not hold changes nothing
/// and schedules nothing.
pub proof fn lemma_edit_of_unknown_student_is_no_op(s: StudentManagerView, id: u128)
    requires
        forall|i: int| 0 <= i < s.students.len() ==> (#[trigger] s.students[i]).id != id,
    ensures
        student_step(s, StudentManagerMessage::EditStudent(id)) == (s, None::<StudentEffectView>),
{
    lemma_position_of_id_unique(s.students, id, s.students.len() as int);
}

/// Asking to edit a student that the roster holds seeds the edit form from
/// the first entry with that identifier, and schedules nothing.
pub proof fn lemma_edit_seeds_form(s: StudentManagerView, id: u128, i: int)
    requires
        0 <= i < s.students.len(),
        s.students[i].id == id,
        forall|j: int| 0 <= j < i ==> (#[trigger] s.students[j]).id != id,
    ensures
        student_step(s, StudentManagerMessage::EditStudent(id)) == (
            s.editing(id, s.students[i]),
            None::<StudentEffectView>,
        ),
{
    lemma_position_of_id_unique(s.students, id, i);
}

/// A confirmed update puts the student in the place of the first roster
/// entry with its identifier: the roster keeps its length and every other
/// entry, and is in surname order afterwards.
pub proof fn lemma_update_replaces_one_entry(s: StudentManagerView, student: Student, i: int)
    requires
        0 <= i < s.students.len(),
        s.students[i].id == student.id,
        forall|j: int| 0 <= j < i ==> (#[trigger] s.students[j]).id != student.id,
    ensures
        ({
            let after = student_step(
                s,
                StudentManagerMessage::StudentUpdated(Ok(student)),
            ).0.students;
            &&& after.len() == s.students.len()
            &&& after.to_multiset() == s.students.to_multiset().remove(s.students[i]).insert(
                student@,
            )
            &&& after.to_multiset() == s.students.update(i, student@).to_multiset()
            &&& ordered_by_surname(after)
        }),
{
    lemma_position_of_id_unique(s.students, student.id, i);
    let replaced = s.students.update(i, student@);
    lemma_sorted_len(replaced);
    lemma_sorted_is_permutation(replaced);
    lemma_sorted_is_ordered(replaced);
    vstd::seq_lib::to_multiset_update(s.students, i, student@);
    assert(s.students.to_multiset().insert(student@).remove(s.students[i])
        =~= s.students.to_multiset().remove(s.students[i]).insert(student@)) by {
        broadcast use vstd::multiset::group_multiset_axioms;
        broadcast use vstd::seq_lib::to_multiset_contains;

        assert(s.students.contains(s.students[i]));
    }
}

/// A confirmed update of a student that the roster does not hold leaves
/// the roster as it is.
pub proof fn lemma_update_of_unknown_student_keeps_roster(s: StudentManagerView, student: Student)
    requires
        forall|i: int| 0 <= i < s.students.len() ==> (#[trigger] s.students[i]).id != student.id,
    ensures
        student_step(s, StudentManagerMessage::StudentUpdated(Ok(student))).0.students
            == s.students,
{
    lemma_position_of_id_unique(s.students, student.id, s.students.len() as int);
}

/// `ClearSuccessMessage` takes the success banner down and does nothing
/// else, so that a second one changes nothing.
pub proof fn lemma_clearing_banner_is_idempotent(s: StudentManagerView)
    ensures
        student_step(s, StudentManagerMessage::ClearSuccessMessage) == (
            StudentManagerView { show_success_message: false, ..s },
            None::<StudentEffectView>,
        ),
        student_step(
            student_step(s, StudentManagerMessage::ClearSuccessMessage).0,
            StudentManagerMessage::ClearSuccessMessage,
        ) == student_step(s, StudentManagerMessage::ClearSuccessMessage),
{
}

/// A success banner that is up stays up under every message but the
/// timer's `ClearSuccessMessage`: typing, selecting, `ClearForm`, a
/// submission, a failure and a cancelled edit all leave it up.
pub proof fn lemma_banner_stays_up(s: StudentManagerView, message: StudentManagerMessage)
    requires
        s.show_success_message,
        !(message is ClearSuccessMessage),
    ensures
        student_step(s, message).0.show_success_message,
{
}

/// A banner that is down goes up on a confirmed creation, update or
/// deletion and on a finished import or template, and on no other message.
pub proof fn lemma_banner_goes_up_on_success(s: StudentManagerView, message: StudentManagerMessage)
    requires
        !s.show_success_message,
    ensures
        student_step(s, message).0.show_success_message <==> (message is StudentCreated
            || message matches StudentManagerMessage::StudentUpdated(Ok(_))
            || message matches StudentManagerMessage::StudentDeleted(Ok(_))
            || message matches StudentManagerMessage::ImportResult(Ok(_))
            || message matches StudentManagerMessage::TemplateGenerationResult(Ok(_))),
{
}

/// The timer that takes the banner down is armed by the three confirmed
/// changes of the roster, each of which puts the banner up, and by no
/// other message. An import or a template that succeeded puts the banner
/// up without arming the timer: that banner stays until a later timer
/// says `ClearSuccessMessage`.
pub proof fn lemma_timer_armed_by_confirmed_changes(
    s: StudentManagerView,
    message: StudentManagerMessage,
)
    ensures
        student_step(s, message).1 == Some(
            StudentEffectView::ClearSuccessMessageAfter(SUCCESS_BANNER_SECONDS),
        ) <==> (message is StudentCreated || message matches StudentManagerMessage::StudentUpdated(
            Ok(_),
        ) || message matches StudentManagerMessage::StudentDeleted(Ok(_))),
        student_step(s, message).1 == Some(
            StudentEffectView::ClearSuccessMessageAfter(SUCCESS_BANNER_SECONDS),
        ) ==> student_step(s, message).0.show_success_message,
        SUCCESS_BANNER_SECONDS == 3,
{
}

/// Whether the edit form has both of its selections made if a student is
/// under edit.
pub open spec fn edit_is_seeded(s: StudentManagerView) -> bool {
    s.editing_student_id is Some ==> s.edit_selected_gender is Some
        && s.edit_selected_class_level is Some
}

/// While a student is under edit the edit form has a gender and a class
/// level selected: this holds of the initial state and is kept by every
/// message. The converse does not hold: `EditGenderSelected` and the other
/// inputs of the edit form fill it with nobody under edit, and typing may
/// empty the names of a student under edit.
pub proof fn lemma_student_under_edit_has_selections(
    s: StudentManagerView,
    message: StudentManagerMessage,
)
    requires
        edit_is_seeded(s),
    ensures
        edit_is_seeded(StudentManagerView::initial()),
        edit_is_seeded(student_step(s, message).0),
{
}

/// A roster in surname order is in surname order after every message.
pub proof fn lemma_step_keeps_roster_ordered(s: StudentManagerView, message: StudentManagerMessage)
    requires
        ordered_by_surname(s.students),
    ensures
        ordered_by_surname(student_step(s, message).0.students),
{
    match message {
        StudentManagerMessage::StudentCreated(student) => {
            lemma_sorted_is_ordered(s.students.push(student@));
        },
        StudentManagerMessage::FetchedStudents(students) => {
            lemma_sorted_is_ordered(students.deep_view());
        },
        StudentManagerMessage::StudentUpdated(Ok(student)) => {
            lemma_position_of_id(s.students, student.id);
            match position_of_id(s.students, student.id) {
                Some(i) => {
                    lemma_sorted_is_ordered(s.students.update(i, student@));
                },
                None => {},
            }
        },
        StudentManagerMessage::StudentDeleted(Ok(_)) => {
            match s.editing_student_id {
                Some(id) => {
                    lemma_filter_keeps_order(s.students, has_other_id(id));
                },
                None => {},
            }
        },
        _ => {},
    }
}

/// No message but a confirmed creation, update or deletion and a fetched
/// roster changes the roster: the client writes nothing that the backend
/// has not confirmed.
pub proof fn lemma_roster_changes_only_on_confirmation(
    s: StudentManagerView,
    message: StudentManagerMessage,
)
    requires
        !(message is StudentCreated),
        !(message is FetchedStudents),
        !(message matches StudentManagerMessage::StudentUpdated(Ok(_))),
        !(message matches StudentManagerMessage::StudentDeleted(Ok(_))),
    ensures
        student_step(s, message).0.students == s.students,
{
}

/// A failed creation, update or deletion keeps both forms, the roster and
/// the banner as they are and shows the reason.
pub proof fn lemma_failure_keeps_forms(s: StudentManagerView, reason: String)
    ensures
        student_step(s, StudentManagerMessage::StudentCreationFailed(reason)).0 == (
        StudentManagerView {
            form_error_message: Some("Failed to add student: "@ + reason@),
            ..s
        }),
        student_step(s, StudentManagerMessage::StudentUpdated(Err(reason))).0 == (
        StudentManagerView { form_error_message: Some(reason@), ..s }),
        student_step(s, StudentManagerMessage::StudentDeleted(Err(reason))).0 == (
        StudentManagerView { form_error_message: Some(reason@), ..s }),
{
}

/// An effect settles into a message of its own kind: a creation into
/// `StudentCreated` or `StudentCreationFailed`, a fetch into
/// `FetchedStudents` or `StudentFetchFailed`, the timer into
/// `ClearSuccessMessage`, and each of the others into the one message that
/// carries its result.
pub proof fn lemma_effect_settles_into_its_message(
    effect: StudentEffectView,
    outcome: StudentOutcome,
    message: StudentManagerMessage,
)
    requires
        settles(effect, outcome),
        is_follow_up(outcome, message),
    ensures
        match effect {
            StudentEffectView::CreateStudent(_) => message is StudentCreated
                || message is StudentCreationFailed,
            StudentEffectView::UpdateStudent(_) => message is StudentUpdated,
            StudentEffectView::DeleteStudent(_) => message is StudentDeleted,
            StudentEffectView::FetchStudents => message is FetchedStudents
                || message is StudentFetchFailed,
            StudentEffectView::ImportStudentsFromExcel => message is ImportResult,
            StudentEffectView::GenerateExcelTemplate => message is TemplateGenerationResult,
            StudentEffectView::ClearSuccessMessageAfter(_) => message is ClearSuccessMessage,
        },
{
}

} // verus!
