//! The states and message vocabularies of the modules beside the student
//! manager: teaching periods, payment tracking, user access and reports.
//! The dispatch loop creates these states with the dashboard and carries
//! them; it has no transitions for their messages yet.

use vstd::prelude::*;

use crate::models::F64Bits;
use crate::models::Payment;
use crate::models::PaymentStatus;
use crate::models::PaymentSummary;
use crate::models::RecentActivity;
use crate::models::ReportType;
use crate::models::Student;
use crate::models::TeacherEarnings;
use crate::models::TeachingPeriod;
use crate::models::User;
use crate::models::UserRole;

verus! {

/// What a spreadsheet import is about.
#[derive(Debug, Clone, Copy)]
pub enum ImportType {
    Students,
    TeachingPeriods,
}

/// A first look at a spreadsheet that is about to be imported.
#[derive(Debug, Clone)]
pub struct ImportPreview {
    pub headers: Vec<String>,
    pub sample_rows: Vec<Vec<String>>,
    pub total_rows: usize,
}

/// What can be said to the teaching-period manager.
#[derive(Debug, Clone)]
pub enum TeachingPeriodMessage {
    LoadPeriods,
    UpdateSearchQuery(String),
    ShowAddPeriodDialog,
    ShowImportDialog,
    AddPeriod,
    EditPeriod(String),
    DeletePeriod(String),
    UpdateTeacher(Option<String>),
    UpdateSubject(String),
    UpdateClass(String),
    UpdateDate(String),
    UpdateStartTime(String),
    UpdateEndTime(String),
    UpdateRate(String),
    ImportPeriods(String),
    PreviewImport(String),
    ConfirmImport,
    CancelImport,
}

/// What can be said to payment tracking.
#[derive(Debug, Clone)]
pub enum PaymentTrackingMessage {
    LoadPayments,
    UpdateSearchQuery(String),
    FilterByStatus(Option<PaymentStatus>),
    ShowPaymentDialog,
    RecordPayment(String),
    ViewStudentPayments(String),
    UpdatePaymentAmount(String),
    UpdatePaymentMethod(String),
    UpdatePaymentDescription(String),
    UpdateDateFilterFrom(String),
    UpdateDateFilterTo(String),
    SubmitPayment,
    CancelPayment,
    DeletePayment(String),
}

/// What can be said to the user-access manager.
#[derive(Debug, Clone)]
pub enum UserAccessMessage {
    LoadUsers,
    UpdateSearchQuery(String),
    ShowAddUserDialog,
    ShowEditUserDialog(String),
    ShowDeleteConfirmation(String),
    AddUser,
    EditUser(String),
    DeleteUser(String),
    ResetUserPassword(String),
    UpdateNewUserFirstName(String),
    UpdateNewUserSurname(String),
    UpdateNewUserUsername(String),
    UpdateNewUserPassword(String),
    UpdateNewUserRole(UserRole),
    SubmitNewUser,
    SubmitEditUser,
    CancelUserDialog,
    ConfirmDeleteUser,
}

/// What can be said to reports and analytics.
#[derive(Debug, Clone)]
pub enum ReportsAnalyticsMessage {
    LoadReports,
    RefreshReports,
    SelectReportType(ReportType),
    UpdateDateFilterFrom(String),
    UpdateDateFilterTo(String),
    UpdateTeacherFilter(Option<String>),
    ApplyReportFilters,
    ExportReport,
    GenerateProjectedIncome,
    GenerateCollectionStatus,
    GenerateTeacherEarnings,
    GenerateStudentPayments,
}

// ------------------------------------------------------- teaching periods

/// The state of the teaching-period manager.
#[derive(Debug)]
pub struct TeachingPeriodManagerState {
    pub teaching_periods: Vec<TeachingPeriod>,
    pub teachers: Vec<User>,
    pub subjects: Vec<String>,
    pub classes: Vec<String>,
    pub new_period_teacher_id: Option<String>,
    pub new_period_subject: String,
    pub new_period_class: String,
    pub new_period_date: String,
    pub new_period_start_time: String,
    pub new_period_end_time: String,
    pub new_period_rate: String,
    pub search_query: String,
    pub selected_period_id: Option<String>,
    pub is_loading: bool,
    pub error_message: Option<String>,
    pub show_import_dialog: bool,
    pub import_file_path: Option<String>,
    pub import_preview: Option<ImportPreview>,
}

/// What a `TeachingPeriodManagerState` holds.
pub struct TeachingPeriodManagerView {
    pub teaching_periods: Seq<TeachingPeriod>,
    pub teachers: Seq<User>,
    pub subjects: Seq<Seq<char>>,
    pub classes: Seq<Seq<char>>,
    pub new_period_teacher_id: Option<Seq<char>>,
    pub new_period_subject: Seq<char>,
    pub new_period_class: Seq<char>,
    pub new_period_date: Seq<char>,
    pub new_period_start_time: Seq<char>,
    pub new_period_end_time: Seq<char>,
    pub new_period_rate: Seq<char>,
    pub search_query: Seq<char>,
    pub selected_period_id: Option<Seq<char>>,
    pub is_loading: bool,
    pub error_message: Option<Seq<char>>,
    pub show_import_dialog: bool,
    pub import_file_path: Option<Seq<char>>,
    pub import_preview: Option<ImportPreview>,
}

impl View for TeachingPeriodManagerState {
    type V = TeachingPeriodManagerView;

    open spec fn view(&self) -> TeachingPeriodManagerView {
        TeachingPeriodManagerView {
            teaching_periods: self.teaching_periods@,
            teachers: self.teachers@,
            subjects: self.subjects.deep_view(),
            classes: self.classes.deep_view(),
            new_period_teacher_id: self.new_period_teacher_id.deep_view(),
            new_period_subject: self.new_period_subject@,
            new_period_class: self.new_period_class@,
            new_period_date: self.new_period_date@,
            new_period_start_time: self.new_period_start_time@,
            new_period_end_time: self.new_period_end_time@,
            new_period_rate: self.new_period_rate@,
            search_query: self.search_query@,
            selected_period_id: self.selected_period_id.deep_view(),
            is_loading: self.is_loading,
            error_message: self.error_message.deep_view(),
            show_import_dialog: self.show_import_dialog,
            import_file_path: self.import_file_path.deep_view(),
            import_preview: self.import_preview,
        }
    }
}

impl TeachingPeriodManagerView {
    /// The state in which the module starts: five subjects and six classes
    /// on offer, everything else empty.
    pub open spec fn initial() -> TeachingPeriodManagerView {
        TeachingPeriodManagerView {
            teaching_periods: Seq::empty(),
            teachers: Seq::empty(),
            subjects: seq!["Mathematics"@, "English"@, "Science"@, "History"@, "Geography"@],
            classes: seq![
                "Grade 7"@,
                "Grade 8"@,
                "Grade 9"@,
                "Grade 10"@,
                "Grade 11"@,
                "Grade 12"@,
            ],
            new_period_teacher_id: None,
            new_period_subject: Seq::empty(),
            new_period_class: Seq::empty(),
            new_period_date: Seq::empty(),
            new_period_start_time: Seq::empty(),
            new_period_end_time: Seq::empty(),
            new_period_rate: Seq::empty(),
            search_query: Seq::empty(),
            selected_period_id: None,
            is_loading: false,
            error_message: None,
            show_import_dialog: false,
            import_file_path: None,
            import_preview: None,
        }
    }
}

impl Default for TeachingPeriodManagerState {
    fn default() -> (state: TeachingPeriodManagerState)
        ensures
            state@ == TeachingPeriodManagerView::initial(),
    {
        let mut subjects: Vec<String> = Vec::new();
        subjects.push("Mathematics".to_string());
        subjects.push("English".to_string());
        subjects.push("Science".to_string());
        subjects.push("History".to_string());
        subjects.push("Geography".to_string());
        let mut classes: Vec<String> = Vec::new();
        classes.push("Grade 7".to_string());
        classes.push("Grade 8".to_string());
        classes.push("Grade 9".to_string());
        classes.push("Grade 10".to_string());
        classes.push("Grade 11".to_string());
        classes.push("Grade 12".to_string());
        proof {
            assert(subjects.deep_view() =~= TeachingPeriodManagerView::initial().subjects);
            assert(classes.deep_view() =~= TeachingPeriodManagerView::initial().classes);
        }
        TeachingPeriodManagerState {
            teaching_periods: Vec::new(),
            teachers: Vec::new(),
            subjects,
            classes,
            new_period_teacher_id: None,
            new_period_subject: String::new(),
            new_period_class: String::new(),
            new_period_date: String::new(),
            new_period_start_time: String::new(),
            new_period_end_time: String::new(),
            new_period_rate: String::new(),
            search_query: String::new(),
            selected_period_id: None,
            is_loading: false,
            error_message: None,
            show_import_dialog: false,
            import_file_path: None,
            import_preview: None,
        }
    }
}

// ------------------------------------------------------- payment tracking

/// The state of payment tracking.
#[derive(Debug)]
pub struct PaymentTrackingState {
    pub students: Vec<Student>,
    pub payments: Vec<Payment>,
    pub selected_student_id: Option<String>,
    pub payment_amount: String,
    pub payment_method: String,
    pub payment_description: String,
    pub search_query: String,
    pub filter_status: Option<PaymentStatus>,
    pub filter_date_from: Option<String>,
    pub filter_date_to: Option<String>,
    pub is_loading: bool,
    pub error_message: Option<String>,
    pub show_payment_dialog: bool,
    pub selected_payment_id: Option<String>,
}

/// What a `PaymentTrackingState` holds.
pub struct PaymentTrackingView {
    pub students: Seq<Student>,
    pub payments: Seq<Payment>,
    pub selected_student_id: Option<Seq<char>>,
    pub payment_amount: Seq<char>,
    pub payment_method: Seq<char>,
    pub payment_description: Seq<char>,
    pub search_query: Seq<char>,
    pub filter_status: Option<PaymentStatus>,
    pub filter_date_from: Option<Seq<char>>,
    pub filter_date_to: Option<Seq<char>>,
    pub is_loading: bool,
    pub error_message: Option<Seq<char>>,
    pub show_payment_dialog: bool,
    pub selected_payment_id: Option<Seq<char>>,
}

impl View for PaymentTrackingState {
    type V = PaymentTrackingView;

    open spec fn view(&self) -> PaymentTrackingView {
        PaymentTrackingView {
            students: self.students@,
            payments: self.payments@,
            selected_student_id: self.selected_student_id.deep_view(),
            payment_amount: self.payment_amount@,
            payment_method: self.payment_method@,
            payment_description: self.payment_description@,
            search_query: self.search_query@,
            filter_status: self.filter_status,
            filter_date_from: self.filter_date_from.deep_view(),
            filter_date_to: self.filter_date_to.deep_view(),
            is_loading: self.is_loading,
            error_message: self.error_message.deep_view(),
            show_payment_dialog: self.show_payment_dialog,
            selected_payment_id: self.selected_payment_id.deep_view(),
        }
    }
}

impl PaymentTrackingView {
    /// The state in which the module starts: payment by cash preselected,
    /// everything else empty.
    pub open spec fn initial() -> PaymentTrackingView {
        PaymentTrackingView {
            students: Seq::empty(),
            payments: Seq::empty(),
            selected_student_id: None,
            payment_amount: Seq::empty(),
            payment_method: "Cash"@,
            payment_description: Seq::empty(),
            search_query: Seq::empty(),
            filter_status: None,
            filter_date_from: None,
            filter_date_to: None,
            is_loading: false,
            error_message: None,
            show_payment_dialog: false,
            selected_payment_id: None,
        }
    }
}

impl Default for PaymentTrackingState {
    fn default() -> (state: PaymentTrackingState)
        ensures
            state@ == PaymentTrackingView::initial(),
    {
        PaymentTrackingState {
            students: Vec::new(),
            payments: Vec::new(),
            selected_student_id: None,
            payment_amount: String::new(),
            payment_method: "Cash".to_string(),
            payment_description: String::new(),
            search_query: String::new(),
            filter_status: None,
            filter_date_from: None,
            filter_date_to: None,
            is_loading: false,
            error_message: None,
            show_payment_dialog: false,
            selected_payment_id: None,
        }
    }
}

// ------------------------------------------------------------ user access

/// The state of the user-access manager.
#[derive(Debug)]
pub struct UserAccessManagerState {
    pub users: Vec<User>,
    pub new_user_first_name: String,
    pub new_user_surname: String,
    pub new_user_username: String,
    pub new_user_password: String,
    pub new_user_role: UserRole,
    pub selected_user_id: Option<String>,
    pub search_query: String,
    pub is_loading: bool,
    pub error_message: Option<String>,
    pub show_add_user_dialog: bool,
    pub show_edit_user_dialog: bool,
    pub show_delete_confirmation: bool,
}

/// What a `UserAccessManagerState` holds.
pub struct UserAccessManagerView {
    pub users: Seq<User>,
    pub new_user_first_name: Seq<char>,
    pub new_user_surname: Seq<char>,
    pub new_user_username: Seq<char>,
    pub new_user_password: Seq<char>,
    pub new_user_role: UserRole,
    pub selected_user_id: Option<Seq<char>>,
    pub search_query: Seq<char>,
    pub is_loading: bool,
    pub error_message: Option<Seq<char>>,
    pub show_add_user_dialog: bool,
    pub show_edit_user_dialog: bool,
    pub show_delete_confirmation: bool,
}

impl View for UserAccessManagerState {
    type V = UserAccessManagerView;

    open spec fn view(&self) -> UserAccessManagerView {
        UserAccessManagerView {
            users: self.users@,
            new_user_first_name: self.new_user_first_name@,
            new_user_surname: self.new_user_surname@,
            new_user_username: self.new_user_username@,
            new_user_password: self.new_user_password@,
            new_user_role: self.new_user_role,
            selected_user_id: self.selected_user_id.deep_view(),
            search_query: self.search_query@,
            is_loading: self.is_loading,
            error_message: self.error_message.deep_view(),
            show_add_user_dialog: self.show_add_user_dialog,
            show_edit_user_dialog: self.show_edit_user_dialog,
            show_delete_confirmation: self.show_delete_confirmation,
        }
    }
}

impl UserAccessManagerView {
    /// The state in which the module starts: a new user would be a teacher,
    /// everything else empty.
    pub open spec fn initial() -> UserAccessManagerView {
        UserAccessManagerView {
            users: Seq::empty(),
            new_user_first_name: Seq::empty(),
            new_user_surname: Seq::empty(),
            new_user_username: Seq::empty(),
            new_user_password: Seq::empty(),
            new_user_role: UserRole::Teacher,
            selected_user_id: None,
            search_query: Seq::empty(),
            is_loading: false,
            error_message: None,
            show_add_user_dialog: false,
            show_edit_user_dialog: false,
            show_delete_confirmation: false,
        }
    }
}

impl Default for UserAccessManagerState {
    fn default() -> (state: UserAccessManagerState)
        ensures
            state@ == UserAccessManagerView::initial(),
    {
        UserAccessManagerState {
            users: Vec::new(),
            new_user_first_name: String::new(),
            new_user_surname: String::new(),
            new_user_username: String::new(),
            new_user_password: String::new(),
            new_user_role: UserRole::Teacher,
            selected_user_id: None,
            search_query: String::new(),
            is_loading: false,
            error_message: None,
            show_add_user_dialog: false,
            show_edit_user_dialog: false,
            show_delete_confirmation: false,
        }
    }
}

// ---------------------------------------------------------------- reports

/// The state of reports and analytics.
#[derive(Debug)]
pub struct ReportsAnalyticsState {
    pub total_students: usize,
    pub total_revenue: F64Bits,
    pub expected_revenue: F64Bits,
    pub collection_rate: F64Bits,
    pub recent_activities: Vec<RecentActivity>,
    pub payment_summary: PaymentSummary,
    pub teacher_earnings: Vec<TeacherEarnings>,
    pub selected_report_type: ReportType,
    pub date_filter_from: Option<String>,
    pub date_filter_to: Option<String>,
    pub selected_teacher_id: Option<String>,
    pub is_loading: bool,
    pub error_message: Option<String>,
}

/// What a `ReportsAnalyticsState` holds.
pub struct ReportsAnalyticsView {
    pub total_students: usize,
    pub total_revenue: F64Bits,
    pub expected_revenue: F64Bits,
    pub collection_rate: F64Bits,
    pub recent_activities: Seq<RecentActivity>,
    pub payment_summary: PaymentSummary,
    pub teacher_earnings: Seq<TeacherEarnings>,
    pub selected_report_type: ReportType,
    pub date_filter_from: Option<Seq<char>>,
    pub date_filter_to: Option<Seq<char>>,
    pub selected_teacher_id: Option<Seq<char>>,
    pub is_loading: bool,
    pub error_message: Option<Seq<char>>,
}

impl View for ReportsAnalyticsState {
    type V = ReportsAnalyticsView;

    open spec fn view(&self) -> ReportsAnalyticsView {
        ReportsAnalyticsView {
            total_students: self.total_students,
            total_revenue: self.total_revenue,
            expected_revenue: self.expected_revenue,
            collection_rate: self.collection_rate,
            recent_activities: self.recent_activities@,
            payment_summary: self.payment_summary,
            teacher_earnings: self.teacher_earnings@,
            selected_report_type: self.selected_report_type,
            date_filter_from: self.date_filter_from.deep_view(),
            date_filter_to: self.date_filter_to.deep_view(),
            selected_teacher_id: self.selected_teacher_id.deep_view(),
            is_loading: self.is_loading,
            error_message: self.error_message.deep_view(),
        }
    }
}

impl ReportsAnalyticsView {
    /// The state in which the module starts: every figure zero, the
    /// projected-income report selected.
    pub open spec fn initial() -> ReportsAnalyticsView {
        ReportsAnalyticsView {
            total_students: 0,
            total_revenue: F64Bits { bits: 0 },
            expected_revenue: F64Bits { bits: 0 },
            collection_rate: F64Bits { bits: 0 },
            recent_activities: Seq::empty(),
            payment_summary: PaymentSummary {
                total_expected: F64Bits { bits: 0 },
                total_received: F64Bits { bits: 0 },
                total_pending: F64Bits { bits: 0 },
                paid_count: 0,
                partial_count: 0,
                unpaid_count: 0,
                exempt_count: 0,
            },
            teacher_earnings: Seq::empty(),
            selected_report_type: ReportType::ProjectedIncome,
            date_filter_from: None,
            date_filter_to: None,
            selected_teacher_id: None,
            is_loading: false,
            error_message: None,
        }
    }
}

impl Default for ReportsAnalyticsState {
    fn default() -> (state: ReportsAnalyticsState)
        ensures
            state@ == ReportsAnalyticsView::initial(),
    {
        ReportsAnalyticsState {
            total_students: 0,
            total_revenue: F64Bits::zero(),
            expected_revenue: F64Bits::zero(),
            collection_rate: F64Bits::zero(),
            recent_activities: Vec::new(),
            payment_summary: PaymentSummary {
                total_expected: F64Bits::zero(),
                total_received: F64Bits::zero(),
                total_pending: F64Bits::zero(),
                paid_count: 0,
                partial_count: 0,
                unpaid_count: 0,
                exempt_count: 0,
            },
            teacher_earnings: Vec::new(),
            selected_report_type: ReportType::ProjectedIncome,
            date_filter_from: None,
            date_filter_to: None,
            selected_teacher_id: None,
            is_loading: false,
            error_message: None,
        }
    }
}

} // verus!
