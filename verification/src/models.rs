//! The entity model: the records the client shows and exchanges with the
//! backend.

use vstd::prelude::*;

use crate::ident::parse_uuid;
use crate::ident::uuid_of_text;
use crate::text::same_text;

verus! {

/// A date and time without a time zone, carried through unread.
#[verifier::external_type_specification]
#[verifier::external_body]
pub struct ExNaiveDateTime(chrono::NaiveDateTime);

/// A calendar date, carried through unread.
#[verifier::external_type_specification]
#[verifier::external_body]
pub struct ExNaiveDate(chrono::NaiveDate);

/// `Clone` of `chrono::NaiveDateTime`, which is a `Copy` type: the clone is
/// the value itself.
pub assume_specification[ <chrono::NaiveDateTime as Clone>::clone ](
    moment: &chrono::NaiveDateTime,
) -> (copy: chrono::NaiveDateTime)
    ensures
        copy == *moment,
;

/// `Clone` of `chrono::NaiveDate`, which is a `Copy` type: the clone is the
/// value itself.
pub assume_specification[ <chrono::NaiveDate as Clone>::clone ](date: &chrono::NaiveDate) -> (copy:
    chrono::NaiveDate)
    ensures
        copy == *date,
;

/// `Clone` of `Result`, which the derived `Clone` of the message types
/// calls. Nothing is claimed of the copy.
pub assume_specification<T: Clone, E: Clone>[ <Result<T, E> as Clone>::clone ](
    result: &Result<T, E>,
) -> (copy: Result<T, E>)
;

/// A 64-bit floating-point number held by its IEEE-754 bit pattern. The
/// library stores and forwards such numbers and never computes on them.
#[derive(Debug, Clone, Copy)]
pub struct F64Bits {
    pub bits: u64,
}

impl F64Bits {
    /// The number zero.
    pub fn zero() -> (zero: F64Bits)
        ensures
            zero.bits == 0,
    {
        F64Bits { bits: 0 }
    }
}

/// A point in time in UTC: whole seconds since the Unix epoch and the
/// nanoseconds past that second.
#[derive(Debug, Clone, Copy)]
pub struct UtcInstant {
    pub seconds: i64,
    pub nanoseconds: u32,
}

// ---------------------------------------------------------------- users

/// Role of a system user.
#[derive(Debug, Clone, Copy, PartialEq, Eq, Structural)]
pub enum UserRole {
    Admin,
    CommitteeMember,
    Headteacher,
    DataEntry,
    Staff,
    Teacher,
}

/// A person's full name.
#[derive(Debug, Clone)]
pub struct PersonName {
    pub first_name: String,
    pub surname: String,
    pub other_names: Option<String>,
}

/// What a `PersonName` holds.
pub struct PersonNameView {
    pub first_name: Seq<char>,
    pub surname: Seq<char>,
    pub other_names: Option<Seq<char>>,
}

impl View for PersonName {
    type V = PersonNameView;

    open spec fn view(&self) -> PersonNameView {
        PersonNameView {
            first_name: self.first_name@,
            surname: self.surname@,
            other_names: self.other_names.deep_view(),
        }
    }
}

impl DeepView for PersonName {
    type V = PersonNameView;

    open spec fn deep_view(&self) -> PersonNameView {
        self@
    }
}

/// A login account as the backend stores it.
#[derive(Debug, Clone)]
pub struct UserAccount {
    pub id: u128,
    pub username: String,
    pub password_hash: String,
    pub role: UserRole,
    pub is_active: bool,
    pub first_name: String,
    pub surname: String,
    pub other_names: Option<String>,
}

/// A user as the client shows them.
#[derive(Debug, Clone)]
pub struct UserProfile {
    pub id: u128,
    pub username: String,
    pub name: PersonName,
    pub role: UserRole,
}

/// What a `UserProfile` holds.
pub struct UserProfileView {
    pub id: u128,
    pub username: Seq<char>,
    pub name: PersonNameView,
    pub role: UserRole,
}

impl View for UserProfile {
    type V = UserProfileView;

    open spec fn view(&self) -> UserProfileView {
        UserProfileView { id: self.id, username: self.username@, name: self.name@, role: self.role }
    }
}

impl DeepView for UserProfile {
    type V = UserProfileView;

    open spec fn deep_view(&self) -> UserProfileView {
        self@
    }
}

/// A user as the teaching-period and access modules list them.
pub type User = UserProfile;

/// The record that the backend returns on a successful login.
#[derive(Debug, Clone)]
pub struct UserResponse {
    pub id: String,
    pub username: String,
    pub role: UserRole,
    pub is_active: bool,
    pub first_name: String,
    pub surname: String,
    pub other_names: Option<String>,
}

impl UserResponse {
    /// Whether the record's identifier is the text of a UUID.
    pub open spec fn has_valid_id(&self) -> bool {
        uuid_of_text(self.id@) is Some
    }

    /// The profile that the record describes.
    pub open spec fn profile(&self) -> UserProfileView
        recommends
            self.has_valid_id(),
    {
        UserProfileView {
            id: uuid_of_text(self.id@).unwrap(),
            username: self.username@,
            name: PersonNameView {
                first_name: self.first_name@,
                surname: self.surname@,
                other_names: self.other_names.deep_view(),
            },
            role: self.role,
        }
    }
}

impl From<UserAccount> for UserProfile {
    fn from(account: UserAccount) -> (profile: UserProfile) {
        UserProfile {
            id: account.id,
            username: account.username,
            name: PersonName {
                first_name: account.first_name,
                surname: account.surname,
                other_names: account.other_names,
            },
            role: account.role,
        }
    }
}

impl vstd::std_specs::convert::FromSpecImpl<UserAccount> for UserProfile {
    open spec fn obeys_from_spec() -> bool {
        true
    }

    open spec fn from_spec(account: UserAccount) -> UserProfile {
        UserProfile {
            id: account.id,
            username: account.username,
            name: PersonName {
                first_name: account.first_name,
                surname: account.surname,
                other_names: account.other_names,
            },
            role: account.role,
        }
    }
}

impl UserProfile {
    /// The profile of a login record whose identifier is a UUID.
    pub fn from_response(account: UserResponse) -> (profile: UserProfile)
        requires
            account.has_valid_id(),
        ensures
            profile@ == account.profile(),
    {
        let id = parse_uuid(account.id.as_str());
        UserProfile {
            id: id.unwrap(),
            username: account.username,
            name: PersonName {
                first_name: account.first_name,
                surname: account.surname,
                other_names: account.other_names,
            },
            role: account.role,
        }
    }

    /// The profile of a login record, or `None` where the record's
    /// identifier is not the text of a UUID.
    pub fn try_from_response(account: UserResponse) -> (profile: Option<UserProfile>)
        ensures
            profile is Some <==> account.has_valid_id(),
            profile matches Some(p) ==> p@ == account.profile(),
    {
        if parse_uuid(account.id.as_str()).is_some() {
            Some(UserProfile::from_response(account))
        } else {
            None
        }
    }
}

// ---------------------------------------------------------------- enums

/// Sex recorded for a student.
#[derive(Debug, Clone, Copy, PartialEq, Eq, Structural)]
pub enum Gender {
    Male,
    Female,
}

/// The name of a gender, as shown and as written to spreadsheets.
pub open spec fn gender_name(gender: Gender) -> Seq<char> {
    match gender {
        Gender::Male => "Male"@,
        Gender::Female => "Female"@,
    }
}

impl Gender {
    /// Every gender, in the order in which choices are offered.
    pub const ALL: [Gender; 2] = [Gender::Male, Gender::Female];

    /// Every gender, in the order in which choices are offered.
    pub open spec fn all_spec() -> Seq<Gender> {
        seq![Gender::Male, Gender::Female]
    }

    /// Every gender, in the order in which choices are offered.
    pub fn all() -> (all: Vec<Gender>)
        ensures
            all@ == Gender::all_spec(),
    {
        let mut all: Vec<Gender> = Vec::new();
        all.push(Gender::Male);
        all.push(Gender::Female);
        proof {
            assert(all@ =~= Gender::all_spec());
        }
        all
    }

    /// The comma-separated choices for the gender column of a spreadsheet.
    pub fn excel_options() -> (options: &'static str)
        ensures
            options@ == "Male,Female"@,
    {
        "Male,Female"
    }

    /// The name of the gender.
    pub fn as_str(&self) -> (name: &'static str)
        ensures
            name@ == gender_name(*self),
    {
        match self {
            Gender::Male => "Male",
            Gender::Female => "Female",
        }
    }

    /// The name of the gender, as an owned text.
    pub fn to_string(&self) -> (name: String)
        ensures
            name@ == gender_name(*self),
    {
        self.as_str().to_string()
    }
}

/// Academic class or level.
#[derive(Debug, Clone, Copy, PartialEq, Eq, Structural)]
pub enum ClassLevel {
    LowerSecondaryYear8,
    LowerSecondaryYear9,
    IGCSE1,
    IGCSE2,
    WASSCE1,
    WASSCE2,
    WASSCE3,
    ALevel1,
    ALevel2,
}

/// The name of a class level, as shown and as written to spreadsheets.
pub open spec fn class_level_name(level: ClassLevel) -> Seq<char> {
    match level {
        ClassLevel::LowerSecondaryYear8 => "LowerSecondaryYear8"@,
        ClassLevel::LowerSecondaryYear9 => "LowerSecondaryYear9"@,
        ClassLevel::IGCSE1 => "IGCSE1"@,
        ClassLevel::IGCSE2 => "IGCSE2"@,
        ClassLevel::WASSCE1 => "WASSCE1"@,
        ClassLevel::WASSCE2 => "WASSCE2"@,
        ClassLevel::WASSCE3 => "WASSCE3"@,
        ClassLevel::ALevel1 => "ALevel1"@,
        ClassLevel::ALevel2 => "ALevel2"@,
    }
}

/// The class level that a text names, if it names one.
pub open spec fn class_level_named(name: Seq<char>) -> Option<ClassLevel> {
    if name == "LowerSecondaryYear8"@ {
        Some(ClassLevel::LowerSecondaryYear8)
    } else if name == "LowerSecondaryYear9"@ {
        Some(ClassLevel::LowerSecondaryYear9)
    } else if name == "IGCSE1"@ {
        Some(ClassLevel::IGCSE1)
    } else if name == "IGCSE2"@ {
        Some(ClassLevel::IGCSE2)
    } else if name == "WASSCE1"@ {
        Some(ClassLevel::WASSCE1)
    } else if name == "WASSCE2"@ {
        Some(ClassLevel::WASSCE2)
    } else if name == "WASSCE3"@ {
        Some(ClassLevel::WASSCE3)
    } else if name == "ALevel1"@ {
        Some(ClassLevel::ALevel1)
    } else if name == "ALevel2"@ {
        Some(ClassLevel::ALevel2)
    } else {
        None
    }
}

impl ClassLevel {
    /// Every class level, in the order in which choices are offered.
    pub const ALL: [ClassLevel; 9] = [
        ClassLevel::LowerSecondaryYear8,
        ClassLevel::LowerSecondaryYear9,
        ClassLevel::IGCSE1,
        ClassLevel::IGCSE2,
        ClassLevel::WASSCE1,
        ClassLevel::WASSCE2,
        ClassLevel::WASSCE3,
        ClassLevel::ALevel1,
        ClassLevel::ALevel2,
    ];

    /// Every class level, in the order in which choices are offered.
    pub open spec fn all_spec() -> Seq<ClassLevel> {
        seq![
            ClassLevel::LowerSecondaryYear8,
            ClassLevel::LowerSecondaryYear9,
            ClassLevel::IGCSE1,
            ClassLevel::IGCSE2,
            ClassLevel::WASSCE1,
            ClassLevel::WASSCE2,
            ClassLevel::WASSCE3,
            ClassLevel::ALevel1,
            ClassLevel::ALevel2,
        ]
    }

    /// Every class level, in the order in which choices are offered.
    pub fn all() -> (all: Vec<ClassLevel>)
        ensures
            all@ == ClassLevel::all_spec(),
    {
        let mut all: Vec<ClassLevel> = Vec::new();
        all.push(ClassLevel::LowerSecondaryYear8);
        all.push(ClassLevel::LowerSecondaryYear9);
        all.push(ClassLevel::IGCSE1);
        all.push(ClassLevel::IGCSE2);
        all.push(ClassLevel::WASSCE1);
        all.push(ClassLevel::WASSCE2);
        all.push(ClassLevel::WASSCE3);
        all.push(ClassLevel::ALevel1);
        all.push(ClassLevel::ALevel2);
        proof {
            assert(all@ =~= ClassLevel::all_spec());
        }
        all
    }

    /// The comma-separated choices for the class-level column of a
    /// spreadsheet.
    pub fn excel_options() -> (options: &'static str)
        ensures
            options@
                == "LowerSecondaryYear8,LowerSecondaryYear9,IGCSE1,IGCSE2,WASSCE1,WASSCE2,WASSCE3,ALevel1,ALevel2"@,
    {
        "LowerSecondaryYear8,LowerSecondaryYear9,IGCSE1,IGCSE2,WASSCE1,WASSCE2,WASSCE3,ALevel1,ALevel2"
    }

    /// The name of the class level.
    pub fn as_str(&self) -> (name: &'static str)
        ensures
            name@ == class_level_name(*self),
    {
        match self {
            ClassLevel::LowerSecondaryYear8 => "LowerSecondaryYear8",
            ClassLevel::LowerSecondaryYear9 => "LowerSecondaryYear9",
            ClassLevel::IGCSE1 => "IGCSE1",
            ClassLevel::IGCSE2 => "IGCSE2",
            ClassLevel::WASSCE1 => "WASSCE1",
            ClassLevel::WASSCE2 => "WASSCE2",
            ClassLevel::WASSCE3 => "WASSCE3",
            ClassLevel::ALevel1 => "ALevel1",
            ClassLevel::ALevel2 => "ALevel2",
        }
    }

    /// The name of the class level, as an owned text.
    pub fn to_string(&self) -> (name: String)
        ensures
            name@ == class_level_name(*self),
    {
        self.as_str().to_string()
    }

    /// The class level that `s` names; `Err(())` where it names none.
    pub fn from_str(s: &str) -> (level: Result<ClassLevel, ()>)
        ensures
            level matches Ok(l) ==> class_level_named(s@) == Some(l),
            level is Err <==> class_level_named(s@) is None,
    {
        if same_text(s, "LowerSecondaryYear8") {
            Ok(ClassLevel::LowerSecondaryYear8)
        } else if same_text(s, "LowerSecondaryYear9") {
            Ok(ClassLevel::LowerSecondaryYear9)
        } else if same_text(s, "IGCSE1") {
            Ok(ClassLevel::IGCSE1)
        } else if same_text(s, "IGCSE2") {
            Ok(ClassLevel::IGCSE2)
        } else if same_text(s, "WASSCE1") {
            Ok(ClassLevel::WASSCE1)
        } else if same_text(s, "WASSCE2") {
            Ok(ClassLevel::WASSCE2)
        } else if same_text(s, "WASSCE3") {
            Ok(ClassLevel::WASSCE3)
        } else if same_text(s, "ALevel1") {
            Ok(ClassLevel::ALevel1)
        } else if same_text(s, "ALevel2") {
            Ok(ClassLevel::ALevel2)
        } else {
            Err(())
        }
    }
}

impl core::str::FromStr for ClassLevel {
    type Err = ();

    fn from_str(s: &str) -> (level: Result<ClassLevel, ()>)
        ensures
            level matches Ok(l) ==> class_level_named(s@) == Some(l),
            level is Err <==> class_level_named(s@) is None,
    {
        ClassLevel::from_str(s)
    }
}

/// The two constant lists hold what `all_spec` says.
pub proof fn lemma_constant_lists()
    ensures
        Gender::ALL@ == Gender::all_spec(),
        ClassLevel::ALL@ == ClassLevel::all_spec(),
{
    assert(Gender::ALL@ =~= Gender::all_spec());
    assert(ClassLevel::ALL@ =~= ClassLevel::all_spec());
}

/// Every class level is the one that its own name names.
pub proof fn lemma_class_level_name_round_trip(level: ClassLevel)
    ensures
        class_level_named(class_level_name(level)) == Some(level),
{
    reveal_strlit("LowerSecondaryYear8");
    reveal_strlit("LowerSecondaryYear9");
    reveal_strlit("IGCSE1");
    reveal_strlit("IGCSE2");
    reveal_strlit("WASSCE1");
    reveal_strlit("WASSCE2");
    reveal_strlit("WASSCE3");
    reveal_strlit("ALevel1");
    reveal_strlit("ALevel2");
    let a = "LowerSecondaryYear8"@;
    let b = "LowerSecondaryYear9"@;
    let c = "IGCSE1"@;
    let d = "IGCSE2"@;
    let e = "WASSCE1"@;
    let f = "WASSCE2"@;
    let g = "WASSCE3"@;
    let h = "ALevel1"@;
    let i = "ALevel2"@;
    assert(a.len() == 19 && b.len() == 19 && c.len() == 6 && d.len() == 6);
    assert(e.len() == 7 && f.len() == 7 && g.len() == 7 && h.len() == 7 && i.len() == 7);
    assert(a[18] == '8' && b[18] == '9');
    assert(c[5] == '1' && d[5] == '2');
    assert(e[6] == '1' && f[6] == '2' && g[6] == '3');
    assert(h[6] == '1' && i[6] == '2');
    assert(e[0] == 'W' && f[0] == 'W' && g[0] == 'W' && h[0] == 'A' && i[0] == 'A');
}

/// Education stream (syllabus).
#[derive(Debug, Clone, Copy, PartialEq, Eq, Structural)]
pub enum Stream {
    CambridgeIGCSE,
    CambridgeLowerSecondary,
    CambridgeALevel,
    WASSCE,
}

/// Whether a teacher takes part in the tuition programme.
#[derive(Debug, Clone, Copy, PartialEq, Eq, Structural)]
pub enum ParticipationStatus {
    Participating,
    NotParticipating,
}

/// A subject on offer.
#[derive(Debug, Clone, Copy, PartialEq, Eq, Structural)]
pub enum SubjectName {
    English,
    Mathematics,
    Science,
    ICT,
    SocialStudies,
    French,
    Physics,
    Chemistry,
    Biology,
    Economics,
    Business,
    Geography,
    CoreMath,
    ElectiveMath,
    FurtherMath,
}

/// An academic year.
#[derive(Debug, Clone, Copy, PartialEq, Eq, Structural)]
pub enum AcademicYear {
    Year2024_2025,
    Year2025_2026,
    Year2026_2027,
}

/// What a member of the support staff does.
#[derive(Debug, Clone, Copy, PartialEq, Eq, Structural)]
pub enum SupportStaffRole {
    Janitor,
    Administrator,
    Headteacher,
}

/// How far a student's fee has been paid.
#[derive(Debug, Clone, Copy, PartialEq, Eq, Structural)]
pub enum PaymentStatus {
    Paid,
    Partial,
    NotPaid,
    Exempt,
}

/// The name of a payment status.
pub open spec fn payment_status_name(status: PaymentStatus) -> Seq<char> {
    match status {
        PaymentStatus::Paid => "Paid"@,
        PaymentStatus::Partial => "Partial"@,
        PaymentStatus::NotPaid => "NotPaid"@,
        PaymentStatus::Exempt => "Exempt"@,
    }
}

impl PaymentStatus {
    /// The name of the payment status.
    pub fn to_string(&self) -> (name: String)
        ensures
            name@ == payment_status_name(*self),
    {
        match self {
            PaymentStatus::Paid => "Paid".to_string(),
            PaymentStatus::Partial => "Partial".to_string(),
            PaymentStatus::NotPaid => "NotPaid".to_string(),
            PaymentStatus::Exempt => "Exempt".to_string(),
        }
    }
}

/// What a recent activity was.
#[derive(Debug, Clone, Copy)]
pub enum ActivityType {
    PaymentReceived,
    StudentAdded,
    TeachingPeriodCreated,
    UserCreated,
}

/// The kinds of report.
#[derive(Debug, Clone, Copy, PartialEq, Eq, Structural)]
pub enum ReportType {
    ProjectedIncome,
    CollectionStatus,
    TeacherEarnings,
    StudentPayments,
}

// ---------------------------------------------------------------- rows

/// Row of the `students` table.
#[derive(Debug, Clone)]
pub struct StudentRow {
    pub id: u128,
    pub first_name: String,
    pub surname: String,
    pub other_names: Option<String>,
    pub gender: Gender,
    pub class_level: ClassLevel,
    pub is_active: bool,
}

/// Row of the `subjects` table.
#[derive(Debug, Clone)]
pub struct SubjectRow {
    pub id: u128,
    pub name: SubjectName,
    pub stream: Stream,
}

/// Row of the `conducted_periods` table.
#[derive(Debug, Clone)]
pub struct ConductedPeriodRow {
    pub id: u128,
    pub date: chrono::NaiveDateTime,
    pub class_level: ClassLevel,
    pub subject_id: u128,
    pub teacher_id: u128,
    pub term_id: u128,
    pub week_of_term: i32,
    pub was_conducted: bool,
    pub notes: Option<String>,
}

/// Row of the `terms` table.
#[derive(Debug, Clone)]
pub struct TermRow {
    pub id: u128,
    pub name: String,
    pub academic_year: AcademicYear,
    pub start_date: chrono::NaiveDateTime,
    pub end_date: chrono::NaiveDateTime,
    pub is_active: bool,
}

/// Row of the `teachers` table.
#[derive(Debug, Clone)]
pub struct TeacherRow {
    pub id: u128,
    pub first_name: String,
    pub surname: String,
    pub other_names: Option<String>,
    pub status: ParticipationStatus,
    pub is_active: bool,
}

/// Row of the `support_staff` table.
#[derive(Debug, Clone)]
pub struct SupportStaffRow {
    pub id: u128,
    pub first_name: String,
    pub surname: String,
    pub other_names: Option<String>,
    pub role: SupportStaffRole,
    pub is_active: bool,
}

// ---------------------------------------------------------------- domain

/// A student on the roster.
#[derive(Debug, Clone)]
pub struct Student {
    pub id: u128,
    pub name: PersonName,
    pub gender: Gender,
    pub class_level: ClassLevel,
    pub is_active: bool,
    pub fee_amount: F64Bits,
    pub payment_status: PaymentStatus,
}

/// What a `Student` holds.
pub struct StudentView {
    pub id: u128,
    pub name: PersonNameView,
    pub gender: Gender,
    pub class_level: ClassLevel,
    pub is_active: bool,
    pub fee_amount: F64Bits,
    pub payment_status: PaymentStatus,
}

impl View for Student {
    type V = StudentView;

    open spec fn view(&self) -> StudentView {
        StudentView {
            id: self.id,
            name: self.name@,
            gender: self.gender,
            class_level: self.class_level,
            is_active: self.is_active,
            fee_amount: self.fee_amount,
            payment_status: self.payment_status,
        }
    }
}

impl DeepView for Student {
    type V = StudentView;

    open spec fn deep_view(&self) -> StudentView {
        self@
    }
}

impl From<StudentRow> for Student {
    fn from(row: StudentRow) -> (student: Student) {
        Student {
            id: row.id,
            name: PersonName {
                first_name: row.first_name,
                surname: row.surname,
                other_names: row.other_names,
            },
            gender: row.gender,
            class_level: row.class_level,
            is_active: row.is_active,
            fee_amount: F64Bits { bits: 0 },
            payment_status: PaymentStatus::NotPaid,
        }
    }
}

impl vstd::std_specs::convert::FromSpecImpl<StudentRow> for Student {
    open spec fn obeys_from_spec() -> bool {
        true
    }

    open spec fn from_spec(row: StudentRow) -> Student {
        Student {
            id: row.id,
            name: PersonName {
                first_name: row.first_name,
                surname: row.surname,
                other_names: row.other_names,
            },
            gender: row.gender,
            class_level: row.class_level,
            is_active: row.is_active,
            fee_amount: F64Bits { bits: 0 },
            payment_status: PaymentStatus::NotPaid,
        }
    }
}

/// A teacher.
#[derive(Debug, Clone)]
pub struct Teacher {
    pub id: u128,
    pub name: PersonName,
    pub status: ParticipationStatus,
    pub is_active: bool,
}

impl From<TeacherRow> for Teacher {
    fn from(row: TeacherRow) -> (teacher: Teacher) {
        Teacher {
            id: row.id,
            name: PersonName {
                first_name: row.first_name,
                surname: row.surname,
                other_names: row.other_names,
            },
            status: row.status,
            is_active: row.is_active,
        }
    }
}

impl vstd::std_specs::convert::FromSpecImpl<TeacherRow> for Teacher {
    open spec fn obeys_from_spec() -> bool {
        true
    }

    open spec fn from_spec(row: TeacherRow) -> Teacher {
        Teacher {
            id: row.id,
            name: PersonName {
                first_name: row.first_name,
                surname: row.surname,
                other_names: row.other_names,
            },
            status: row.status,
            is_active: row.is_active,
        }
    }
}

/// A member of the support staff.
#[derive(Debug, Clone)]
pub struct SupportStaff {
    pub id: u128,
    pub name: PersonName,
    pub role: SupportStaffRole,
    pub is_active: bool,
}

impl From<SupportStaffRow> for SupportStaff {
    fn from(row: SupportStaffRow) -> (staff: SupportStaff) {
        SupportStaff {
            id: row.id,
            name: PersonName {
                first_name: row.first_name,
                surname: row.surname,
                other_names: row.other_names,
            },
            role: row.role,
            is_active: row.is_active,
        }
    }
}

impl vstd::std_specs::convert::FromSpecImpl<SupportStaffRow> for SupportStaff {
    open spec fn obeys_from_spec() -> bool {
        true
    }

    open spec fn from_spec(row: SupportStaffRow) -> SupportStaff {
        SupportStaff {
            id: row.id,
            name: PersonName {
                first_name: row.first_name,
                surname: row.surname,
                other_names: row.other_names,
            },
            role: row.role,
            is_active: row.is_active,
        }
    }
}

/// A subject offered in a stream.
#[derive(Debug, Clone)]
pub struct Subject {
    pub id: u128,
    pub name: SubjectName,
    pub stream: Stream,
}

impl From<SubjectRow> for Subject {
    fn from(row: SubjectRow) -> (subject: Subject) {
        Subject { id: row.id, name: row.name, stream: row.stream }
    }
}

impl vstd::std_specs::convert::FromSpecImpl<SubjectRow> for Subject {
    open spec fn obeys_from_spec() -> bool {
        true
    }

    open spec fn from_spec(row: SubjectRow) -> Subject {
        Subject { id: row.id, name: row.name, stream: row.stream }
    }
}

/// A school term.
#[derive(Debug, Clone)]
pub struct Term {
    pub id: u128,
    pub name: String,
    pub academic_year: AcademicYear,
    pub start_date: chrono::NaiveDateTime,
    pub end_date: chrono::NaiveDateTime,
    pub is_active: bool,
}

impl From<TermRow> for Term {
    fn from(row: TermRow) -> (term: Term) {
        Term {
            id: row.id,
            name: row.name,
            academic_year: row.academic_year,
            start_date: row.start_date,
            end_date: row.end_date,
            is_active: row.is_active,
        }
    }
}

impl vstd::std_specs::convert::FromSpecImpl<TermRow> for Term {
    open spec fn obeys_from_spec() -> bool {
        true
    }

    open spec fn from_spec(row: TermRow) -> Term {
        Term {
            id: row.id,
            name: row.name,
            academic_year: row.academic_year,
            start_date: row.start_date,
            end_date: row.end_date,
            is_active: row.is_active,
        }
    }
}

/// A taught period, the unit of work that is paid for.
#[derive(Debug, Clone)]
pub struct ConductedPeriod {
    pub id: u128,
    pub date: chrono::NaiveDateTime,
    pub class_level: ClassLevel,
    pub subject_id: u128,
    pub teacher_id: u128,
    pub term_id: u128,
    pub week_of_term: u8,
    pub was_conducted: bool,
    pub notes: Option<String>,
}

/// The low eight bits of a week number.
pub open spec fn week_byte(week: i32) -> u8 {
    (week as int % 256) as u8
}

impl From<ConductedPeriodRow> for ConductedPeriod {
    fn from(row: ConductedPeriodRow) -> (period: ConductedPeriod) {
        ConductedPeriod {
            id: row.id,
            date: row.date,
            class_level: row.class_level,
            subject_id: row.subject_id,
            teacher_id: row.teacher_id,
            term_id: row.term_id,
            week_of_term: low_byte(row.week_of_term),
            was_conducted: row.was_conducted,
            notes: row.notes,
        }
    }
}

impl vstd::std_specs::convert::FromSpecImpl<ConductedPeriodRow> for ConductedPeriod {
    open spec fn obeys_from_spec() -> bool {
        true
    }

    open spec fn from_spec(row: ConductedPeriodRow) -> ConductedPeriod {
        ConductedPeriod {
            id: row.id,
            date: row.date,
            class_level: row.class_level,
            subject_id: row.subject_id,
            teacher_id: row.teacher_id,
            term_id: row.term_id,
            week_of_term: week_byte(row.week_of_term),
            was_conducted: row.was_conducted,
            notes: row.notes,
        }
    }
}

/// The low eight bits of a week number.
pub fn low_byte(week: i32) -> (byte: u8)
    ensures
        byte == week_byte(week),
{
    let reduced: i32 = week % 256;
    if reduced < 0 {
        (reduced + 256) as u8
    } else {
        reduced as u8
    }
}

// ---------------------------------------------------------------- money

/// A payment as the payment module lists it.
#[derive(Debug, Clone)]
pub struct Payment {
    pub id: String,
    pub student_id: String,
    pub amount: F64Bits,
    pub method: String,
    pub description: String,
    pub status: PaymentStatus,
}

/// A teaching period as the scheduling module lists it.
#[derive(Debug, Clone)]
pub struct TeachingPeriod {
    pub id: String,
    pub subject: String,
    pub class: String,
    pub rate: F64Bits,
    pub date: chrono::NaiveDate,
    pub start_time: u32,
    pub end_time: u32,
    pub teacher_name: String,
}

/// Something that happened lately, for the home view.
#[derive(Debug, Clone)]
pub struct RecentActivity {
    pub id: String,
    pub activity_type: ActivityType,
    pub description: String,
    pub timestamp: UtcInstant,
    pub user_name: String,
}

/// Totals of what was expected and received.
#[derive(Debug, Clone, Copy)]
pub struct PaymentSummary {
    pub total_expected: F64Bits,
    pub total_received: F64Bits,
    pub total_pending: F64Bits,
    pub paid_count: usize,
    pub partial_count: usize,
    pub unpaid_count: usize,
    pub exempt_count: usize,
}

/// What one teacher earned.
#[derive(Debug, Clone)]
pub struct TeacherEarnings {
    pub teacher_id: String,
    pub teacher_name: String,
    pub total_periods: usize,
    pub total_earnings: F64Bits,
    pub share_percentage: F64Bits,
}

/// A payment as the backend stores it.
#[derive(Debug, Clone)]
pub struct DbPayment {
    pub id: u128,
    pub student_id: u128,
    pub term_id: u128,
    pub amount_paid: F64Bits,
    pub date_paid: chrono::NaiveDateTime,
    pub recorded_by: u128,
}

/// The shares and caps by which revenue is divided.
#[derive(Debug, Clone)]
pub struct ConstraintConfig {
    pub id: u128,
    pub name: String,
    pub base_percentage: F64Bits,
    pub admin_percentage: F64Bits,
    pub support_staff_percentage: F64Bits,
    pub max_periods_paid: Option<u32>,
    pub max_ratio: Option<F64Bits>,
    pub created_at: chrono::NaiveDateTime,
}

/// One division of a term's revenue.
#[derive(Debug, Clone)]
pub struct Disbursement {
    pub id: u128,
    pub term_id: u128,
    pub total_revenue: F64Bits,
    pub admin_share: F64Bits,
    pub support_staff_share: F64Bits,
    pub teacher_base_share: F64Bits,
    pub teacher_period_share: F64Bits,
    pub constraint_id: u128,
    pub calculated_on: chrono::NaiveDateTime,
}

/// What one teacher gets out of a disbursement.
#[derive(Debug, Clone, Copy)]
pub struct TeacherPayout {
    pub id: u128,
    pub disbursement_id: u128,
    pub teacher_id: u128,
    pub base_share: F64Bits,
    pub period_share: F64Bits,
    pub capped: bool,
}

/// The part of a payout that one taught period earned.
#[derive(Debug, Clone, Copy)]
pub struct TeacherPayoutItem {
    pub id: u128,
    pub payout_id: u128,
    pub conducted_period_id: u128,
    pub paid_amount: F64Bits,
}

// ---------------------------------------------------------------- payloads

/// What the client sends to have a student created.
#[derive(Debug, Clone)]
pub struct CreateStudentPayload {
    pub first_name: String,
    pub surname: String,
    pub other_names: Option<String>,
    pub gender: Gender,
    pub class_level: ClassLevel,
}

/// What a `CreateStudentPayload` holds.
pub struct CreateStudentPayloadView {
    pub first_name: Seq<char>,
    pub surname: Seq<char>,
    pub other_names: Option<Seq<char>>,
    pub gender: Gender,
    pub class_level: ClassLevel,
}

impl View for CreateStudentPayload {
    type V = CreateStudentPayloadView;

    open spec fn view(&self) -> CreateStudentPayloadView {
        CreateStudentPayloadView {
            first_name: self.first_name@,
            surname: self.surname@,
            other_names: self.other_names.deep_view(),
            gender: self.gender,
            class_level: self.class_level,
        }
    }
}

/// What the client sends to have a student changed.
#[derive(Debug, Clone)]
pub struct UpdateStudentPayload {
    pub id: u128,
    pub first_name: String,
    pub surname: String,
    pub other_names: Option<String>,
    pub gender: Gender,
    pub class_level: ClassLevel,
}

/// What an `UpdateStudentPayload` holds.
pub struct UpdateStudentPayloadView {
    pub id: u128,
    pub first_name: Seq<char>,
    pub surname: Seq<char>,
    pub other_names: Option<Seq<char>>,
    pub gender: Gender,
    pub class_level: ClassLevel,
}

impl View for UpdateStudentPayload {
    type V = UpdateStudentPayloadView;

    open spec fn view(&self) -> UpdateStudentPayloadView {
        UpdateStudentPayloadView {
            id: self.id,
            first_name: self.first_name@,
            surname: self.surname@,
            other_names: self.other_names.deep_view(),
            gender: self.gender,
            class_level: self.class_level,
        }
    }
}

} // verus!
