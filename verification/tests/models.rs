use kyefa::models::low_byte;
use kyefa::models::AcademicYear;
use kyefa::models::ClassLevel;
use kyefa::models::F64Bits;
use kyefa::models::Gender;
use kyefa::models::ParticipationStatus;
use kyefa::models::PaymentStatus;
use kyefa::models::Stream;
use kyefa::models::Student;
use kyefa::models::StudentRow;
use kyefa::models::Subject;
use kyefa::models::SubjectName;
use kyefa::models::SubjectRow;
use kyefa::models::SupportStaff;
use kyefa::models::SupportStaffRole;
use kyefa::models::SupportStaffRow;
use kyefa::models::Teacher;
use kyefa::models::TeacherRow;
use kyefa::models::Term;
use kyefa::models::TermRow;
use kyefa::models::ConductedPeriod;
use kyefa::models::ConductedPeriodRow;
use kyefa::models::UserAccount;
use kyefa::models::UserProfile;
use kyefa::models::UserResponse;
use kyefa::models::UserRole;

fn moment(day: u32) -> chrono::NaiveDateTime {
    chrono::NaiveDate::from_ymd_opt(2025, 1, day).unwrap().and_hms_opt(8, 30, 0).unwrap()
}

fn response(id: &str) -> UserResponse {
    UserResponse {
        id: id.to_string(),
        username: "admin".to_string(),
        role: UserRole::Admin,
        is_active: true,
        first_name: "John".to_string(),
        surname: "Doe".to_string(),
        other_names: Some("Admin".to_string()),
    }
}

#[test]
fn gender_names_and_choices() {
    assert_eq!(Gender::Male.to_string(), "Male");
    assert_eq!(Gender::Female.to_string(), "Female");
    assert_eq!(Gender::Male.as_str(), "Male");
    assert_eq!(Gender::all(), vec![Gender::Male, Gender::Female]);
    assert_eq!(Gender::ALL, [Gender::Male, Gender::Female]);
    assert_eq!(Gender::excel_options(), "Male,Female");
}

#[test]
fn class_level_names_and_choices() {
    assert_eq!(ClassLevel::LowerSecondaryYear8.to_string(), "LowerSecondaryYear8");
    assert_eq!(ClassLevel::IGCSE1.to_string(), "IGCSE1");
    assert_eq!(ClassLevel::ALevel2.to_string(), "ALevel2");
    assert_eq!(ClassLevel::all().len(), 9);
    assert_eq!(ClassLevel::ALL.to_vec(), ClassLevel::all());
    assert_eq!(ClassLevel::all()[0], ClassLevel::LowerSecondaryYear8);
    assert_eq!(ClassLevel::all()[8], ClassLevel::ALevel2);
    assert_eq!(
        ClassLevel::excel_options(),
        "LowerSecondaryYear8,LowerSecondaryYear9,IGCSE1,IGCSE2,WASSCE1,WASSCE2,WASSCE3,ALevel1,ALevel2"
    );
}

#[test]
fn excel_options_list_the_names_in_order() {
    let genders: Vec<String> = Gender::all().iter().map(|g| g.to_string()).collect();
    assert_eq!(Gender::excel_options(), genders.join(","));
    let levels: Vec<String> = ClassLevel::all().iter().map(|l| l.to_string()).collect();
    assert_eq!(ClassLevel::excel_options(), levels.join(","));
}

#[test]
fn class_level_reads_its_own_names() {
    for level in ClassLevel::all() {
        assert_eq!(ClassLevel::from_str(&level.to_string()), Ok(level));
    }
    assert_eq!(ClassLevel::from_str("WASSCE3"), Ok(ClassLevel::WASSCE3));
}

#[test]
fn class_level_turns_other_names_away() {
    assert_eq!(ClassLevel::from_str(""), Err(()));
    assert_eq!(ClassLevel::from_str("igcse1"), Err(()));
    assert_eq!(ClassLevel::from_str("IGCSE3"), Err(()));
    assert_eq!(ClassLevel::from_str(" IGCSE1"), Err(()));
    assert_eq!(ClassLevel::from_str("Grade 7"), Err(()));
}

#[test]
fn payment_status_names() {
    assert_eq!(PaymentStatus::Paid.to_string(), "Paid");
    assert_eq!(PaymentStatus::Partial.to_string(), "Partial");
    assert_eq!(PaymentStatus::NotPaid.to_string(), "NotPaid");
    assert_eq!(PaymentStatus::Exempt.to_string(), "Exempt");
}

#[test]
fn float_bits_zero_is_zero() {
    assert_eq!(f64::from_bits(F64Bits::zero().bits), 0.0);
}

#[test]
fn student_of_row_owes_everything() {
    let student = Student::from(StudentRow {
        id: 7,
        first_name: "Ama".to_string(),
        surname: "Mensah".to_string(),
        other_names: Some("Serwaa".to_string()),
        gender: Gender::Female,
        class_level: ClassLevel::WASSCE2,
        is_active: true,
    });
    assert_eq!(student.id, 7);
    assert_eq!(student.name.first_name, "Ama");
    assert_eq!(student.name.surname, "Mensah");
    assert_eq!(student.name.other_names.as_deref(), Some("Serwaa"));
    assert_eq!(student.gender, Gender::Female);
    assert_eq!(student.class_level, ClassLevel::WASSCE2);
    assert!(student.is_active);
    assert_eq!(f64::from_bits(student.fee_amount.bits), 0.0);
    assert_eq!(student.payment_status, PaymentStatus::NotPaid);
}

#[test]
fn teacher_of_row_keeps_fields() {
    let teacher = Teacher::from(TeacherRow {
        id: 9,
        first_name: "Kofi".to_string(),
        surname: "Boateng".to_string(),
        other_names: None,
        status: ParticipationStatus::Participating,
        is_active: false,
    });
    assert_eq!(teacher.id, 9);
    assert_eq!(teacher.name.first_name, "Kofi");
    assert_eq!(teacher.name.surname, "Boateng");
    assert_eq!(teacher.name.other_names, None);
    assert_eq!(teacher.status, ParticipationStatus::Participating);
    assert!(!teacher.is_active);
}

#[test]
fn support_staff_of_row_keeps_fields() {
    let staff = SupportStaff::from(SupportStaffRow {
        id: 11,
        first_name: "Yaw".to_string(),
        surname: "Owusu".to_string(),
        other_names: Some("K.".to_string()),
        role: SupportStaffRole::Janitor,
        is_active: true,
    });
    assert_eq!(staff.id, 11);
    assert_eq!(staff.name.first_name, "Yaw");
    assert_eq!(staff.name.surname, "Owusu");
    assert_eq!(staff.name.other_names.as_deref(), Some("K."));
    assert_eq!(staff.role, SupportStaffRole::Janitor);
    assert!(staff.is_active);
}

#[test]
fn subject_of_row_keeps_fields() {
    let subject =
        Subject::from(SubjectRow { id: 3, name: SubjectName::Physics, stream: Stream::WASSCE });
    assert_eq!(subject.id, 3);
    assert_eq!(subject.name, SubjectName::Physics);
    assert_eq!(subject.stream, Stream::WASSCE);
}

#[test]
fn term_of_row_keeps_fields() {
    let term = Term::from(TermRow {
        id: 5,
        name: "Term 1".to_string(),
        academic_year: AcademicYear::Year2025_2026,
        start_date: moment(6),
        end_date: moment(30),
        is_active: true,
    });
    assert_eq!(term.id, 5);
    assert_eq!(term.name, "Term 1");
    assert_eq!(term.academic_year, AcademicYear::Year2025_2026);
    assert_eq!(term.start_date, moment(6));
    assert_eq!(term.end_date, moment(30));
    assert!(term.is_active);
}

#[test]
fn conducted_period_of_row_keeps_fields() {
    let period = ConductedPeriod::from(ConductedPeriodRow {
        id: 1,
        date: moment(7),
        class_level: ClassLevel::ALevel1,
        subject_id: 2,
        teacher_id: 3,
        term_id: 4,
        week_of_term: 12,
        was_conducted: true,
        notes: Some("revision".to_string()),
    });
    assert_eq!(period.id, 1);
    assert_eq!(period.date, moment(7));
    assert_eq!(period.class_level, ClassLevel::ALevel1);
    assert_eq!(period.subject_id, 2);
    assert_eq!(period.teacher_id, 3);
    assert_eq!(period.term_id, 4);
    assert_eq!(period.week_of_term, 12);
    assert!(period.was_conducted);
    assert_eq!(period.notes.as_deref(), Some("revision"));
}

#[test]
fn week_number_keeps_its_low_byte() {
    assert_eq!(low_byte(0), 0);
    assert_eq!(low_byte(12), 12);
    assert_eq!(low_byte(255), 255);
    assert_eq!(low_byte(256), 0);
    assert_eq!(low_byte(300), 44);
    assert_eq!(low_byte(-1), 255);
    assert_eq!(low_byte(-256), 0);
    assert_eq!(low_byte(i32::MAX), 255);
    assert_eq!(low_byte(i32::MIN), 0);
    for week in [-1000, -257, -129, -128, -1, 0, 1, 127, 128, 511, 70000] {
        assert_eq!(low_byte(week), week as u8);
    }
}

#[test]
fn profile_of_account_keeps_fields() {
    let profile = UserProfile::from(UserAccount {
        id: 21,
        username: "headteacher".to_string(),
        password_hash: "x".to_string(),
        role: UserRole::Headteacher,
        is_active: true,
        first_name: "Efua".to_string(),
        surname: "Asante".to_string(),
        other_names: None,
    });
    assert_eq!(profile.id, 21);
    assert_eq!(profile.username, "headteacher");
    assert_eq!(profile.name.first_name, "Efua");
    assert_eq!(profile.name.surname, "Asante");
    assert_eq!(profile.name.other_names, None);
    assert_eq!(profile.role, UserRole::Headteacher);
}

#[test]
fn profile_of_response_reads_the_identifier() {
    let profile =
        UserProfile::try_from_response(response("550e8400-e29b-41d4-a716-446655440000")).unwrap();
    assert_eq!(profile.id, 0x550e8400e29b41d4a716446655440000);
    assert_eq!(profile.username, "admin");
    assert_eq!(profile.name.first_name, "John");
    assert_eq!(profile.name.surname, "Doe");
    assert_eq!(profile.name.other_names.as_deref(), Some("Admin"));
    assert_eq!(profile.role, UserRole::Admin);
}

#[test]
fn profile_of_response_needs_a_uuid() {
    assert!(UserProfile::try_from_response(response("not-a-uuid")).is_none());
    assert!(UserProfile::try_from_response(response("")).is_none());
}

#[test]
fn profile_from_response_with_a_checked_identifier() {
    let profile = UserProfile::from_response(response("00000000-0000-0000-0000-00000000002a"));
    assert_eq!(profile.id, 42);
    assert_eq!(profile.username, "admin");
}

#[test]
fn copies_keep_dates() {
    let term = Term::from(TermRow {
        id: 5,
        name: "Term 2".to_string(),
        academic_year: AcademicYear::Year2024_2025,
        start_date: moment(10),
        end_date: moment(20),
        is_active: false,
    });
    let copy = term.clone();
    assert_eq!(copy.start_date, moment(10));
    assert_eq!(copy.end_date, moment(20));
    assert_eq!(copy.name, "Term 2");
    let period = kyefa::models::TeachingPeriod {
        id: "t1".to_string(),
        subject: "Science".to_string(),
        class: "Grade 8".to_string(),
        rate: F64Bits { bits: 12.5f64.to_bits() },
        date: chrono::NaiveDate::from_ymd_opt(2025, 2, 3).unwrap(),
        start_time: 10,
        end_time: 11,
        teacher_name: "Ms. Adjei".to_string(),
    };
    let copy = period.clone();
    assert_eq!(copy.date, chrono::NaiveDate::from_ymd_opt(2025, 2, 3).unwrap());
    assert_eq!(f64::from_bits(copy.rate.bits), 12.5);
}

#[test]
fn class_level_parses_from_text() {
    assert_eq!("IGCSE1".parse::<ClassLevel>(), Ok(ClassLevel::IGCSE1));
    assert_eq!("ALevel2".parse::<ClassLevel>(), Ok(ClassLevel::ALevel2));
    assert_eq!("Form 1".parse::<ClassLevel>(), Err(()));
}
