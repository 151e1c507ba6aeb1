use kyefa::app::for_student_manager;
use kyefa::app::login_settled;
use kyefa::app::AppSettings;
use kyefa::app::AppState;
use kyefa::app::AppTheme;
use kyefa::app::Effect;
use kyefa::app::KyefaApp;
use kyefa::app::Message;
use kyefa::dashboard::DashboardMessage;
use kyefa::dashboard::DashboardState;
use kyefa::dashboard::DashboardView;
use kyefa::error::AppError;
use kyefa::error::LoginError;
use kyefa::login::LoginMessage;
use kyefa::login::LoginState;
use kyefa::models::ClassLevel;
use kyefa::models::F64Bits;
use kyefa::models::Gender;
use kyefa::models::PaymentStatus;
use kyefa::models::PersonName;
use kyefa::models::ReportType;
use kyefa::models::Student;
use kyefa::models::UserResponse;
use kyefa::models::UserRole;
use kyefa::modules::PaymentTrackingMessage;
use kyefa::modules::PaymentTrackingState;
use kyefa::modules::ReportsAnalyticsMessage;
use kyefa::modules::ReportsAnalyticsState;
use kyefa::modules::TeachingPeriodManagerState;
use kyefa::modules::TeachingPeriodMessage;
use kyefa::modules::UserAccessManagerState;
use kyefa::modules::UserAccessMessage;
use kyefa::routes::login;
use kyefa::routes::HttpStatus;
use kyefa::routes::LoginReply;
use kyefa::student_manager::StudentEffect;
use kyefa::student_manager::StudentManagerMessage;

fn admin() -> UserResponse {
    UserResponse {
        id: "550e8400-e29b-41d4-a716-446655440000".to_string(),
        username: "admin".to_string(),
        role: UserRole::Admin,
        is_active: true,
        first_name: "John".to_string(),
        surname: "Doe".to_string(),
        other_names: Some("Admin".to_string()),
    }
}

fn girl(id: u128, surname: &str) -> Student {
    Student {
        id,
        name: PersonName {
            first_name: "Ama".to_string(),
            surname: surname.to_string(),
            other_names: None,
        },
        gender: Gender::Female,
        class_level: ClassLevel::IGCSE2,
        is_active: true,
        fee_amount: F64Bits { bits: 0 },
        payment_status: PaymentStatus::NotPaid,
    }
}

fn started() -> KyefaApp {
    KyefaApp::new().0
}

fn logged_in() -> KyefaApp {
    let mut app = started();
    app.update(Message::LoginSuccess(admin()));
    app
}

fn login_state(app: &KyefaApp) -> &LoginState {
    match &app.state {
        AppState::Login(state) => state,
        AppState::Dashboard(_) => panic!("on the dashboard"),
    }
}

fn dashboard(app: &KyefaApp) -> &DashboardState {
    match &app.state {
        AppState::Dashboard(state) => state,
        AppState::Login(_) => panic!("on the login screen"),
    }
}

#[test]
fn client_starts_on_an_empty_login_screen() {
    let (app, effects) = KyefaApp::new();
    assert!(effects.is_empty());
    let state = login_state(&app);
    assert_eq!(state.username_input, "");
    assert_eq!(state.password_input, "");
    assert!(state.error.is_none());
    assert!(!state.is_authenticating);
    assert!(app.global_error.is_none());
    assert_eq!(app.title(), "Kyefa");
}

#[test]
fn default_settings() {
    let settings = AppSettings::default();
    assert_eq!(f64::from_bits(settings.admin_share_percentage.bits), 30.0);
    assert_eq!(f64::from_bits(settings.staff_share_percentage.bits), 20.0);
    assert_eq!(f64::from_bits(settings.teacher_share_percentage.bits), 50.0);
    assert_eq!(settings.default_payment_method, "Cash");
    assert_eq!(settings.currency_symbol, "\u{20b5}");
    assert_eq!(settings.date_format, "DD/MM/YYYY");
    assert_eq!(settings.backup_frequency, "Daily");
    assert!(settings.auto_backup_enabled);
    assert_eq!(settings.theme, AppTheme::Light);
    let app = started();
    assert_eq!(f64::from_bits(app.settings.teacher_share_percentage.bits), 50.0);
}

#[test]
fn fresh_login_state() {
    let state = LoginState::new();
    assert_eq!(state.username_input, "");
    assert_eq!(state.password_input, "");
    assert!(state.error.is_none());
    assert!(!state.is_authenticating);
}

#[test]
fn typing_fills_the_login_form() {
    let mut app = started();
    assert!(app.update(Message::Login(LoginMessage::UsernameInputChanged("ama".to_string()))).is_empty());
    assert!(app.update(Message::Login(LoginMessage::PasswordInputChanged("pw".to_string()))).is_empty());
    let state = login_state(&app);
    assert_eq!(state.username_input, "ama");
    assert_eq!(state.password_input, "pw");
    assert!(!state.is_authenticating);
}

#[test]
fn attempt_login_schedules_one_login_with_the_inputs() {
    let mut app = started();
    app.update(Message::Login(LoginMessage::UsernameInputChanged("ama".to_string())));
    app.update(Message::Login(LoginMessage::PasswordInputChanged("pw".to_string())));
    app.update(Message::LoginFailed(LoginError::ServerError("old".to_string())));
    let effects = app.update(Message::Login(LoginMessage::AttemptLogin));
    assert_eq!(effects.len(), 1);
    assert!(matches!(
        &effects[0],
        Effect::Login { username, password } if username == "ama" && password == "pw"
    ));
    let state = login_state(&app);
    assert!(state.is_authenticating);
    assert!(state.error.is_none());
    assert_eq!(state.username_input, "ama");
    assert_eq!(state.password_input, "pw");
}

#[test]
fn attempt_login_is_ignored_on_the_dashboard() {
    let mut app = logged_in();
    let effects = app.update(Message::Login(LoginMessage::AttemptLogin));
    assert!(effects.is_empty());
    assert_eq!(dashboard(&app).current_view, DashboardView::Home);
    let effects = app.update(Message::Login(LoginMessage::UsernameInputChanged("x".to_string())));
    assert!(effects.is_empty());
    assert!(matches!(app.state, AppState::Dashboard(_)));
}

#[test]
fn rejected_credentials_leave_the_client_on_the_login_screen() {
    let mut app = started();
    app.update(Message::Login(LoginMessage::UsernameInputChanged("ama".to_string())));
    app.update(Message::Login(LoginMessage::AttemptLogin));
    let reply = LoginReply::Answered { status: HttpStatus::new(401).unwrap(), user: None };
    let message = login_settled(login(reply));
    let effects = app.update(message);
    assert_eq!(effects.len(), 1);
    assert!(matches!(&effects[0], Effect::Emit(Message::AppLoading(false))));
    let state = login_state(&app);
    assert!(matches!(
        &state.error,
        Some(LoginError::InvalidCredentials(m)) if m == "Incorrect username or password."
    ));
    assert!(!state.is_authenticating);
    assert_eq!(state.username_input, "ama");
    for effect in effects {
        if let Effect::Emit(message) = effect {
            app.update(message);
        }
    }
    let state = login_state(&app);
    assert!(!state.is_authenticating);
    assert!(matches!(&state.error, Some(LoginError::InvalidCredentials(_))));
}

#[test]
fn failed_login_on_the_dashboard_changes_no_module() {
    let mut app = logged_in();
    let effects = app.update(Message::LoginFailed(LoginError::ServerError("x".to_string())));
    assert_eq!(effects.len(), 1);
    assert!(matches!(&effects[0], Effect::Emit(Message::AppLoading(false))));
    assert!(dashboard(&app).error.is_none());
    assert_eq!(dashboard(&app).current_view, DashboardView::Home);
}

#[test]
fn successful_login_enters_a_fresh_dashboard_and_fetches_the_roster() {
    let mut app = started();
    app.global_error = Some(AppError::Configuration("old".to_string()));
    let effects = app.update(Message::LoginSuccess(admin()));
    assert_eq!(effects.len(), 2);
    assert!(matches!(&effects[0], Effect::Emit(Message::AppLoading(false))));
    assert!(matches!(
        &effects[1],
        Effect::Emit(Message::Dashboard(DashboardMessage::StudentManager(
            StudentManagerMessage::FetchStudents
        )))
    ));
    assert!(app.global_error.is_none());
    let state = dashboard(&app);
    assert_eq!(state.current_view, DashboardView::Home);
    assert_eq!(state.active_user.id, 0x550e8400e29b41d4a716446655440000);
    assert_eq!(state.active_user.username, "admin");
    assert_eq!(state.active_user.name.first_name, "John");
    assert_eq!(state.active_user.name.surname, "Doe");
    assert_eq!(state.active_user.name.other_names.as_deref(), Some("Admin"));
    assert_eq!(state.active_user.role, UserRole::Admin);
    assert!(state.error.is_none());
    assert!(!state.is_loading);
    assert!(state.global_app_error.is_none());
    assert!(state.student_manager.students.is_empty());
    assert_eq!(state.payment_tracking.payment_method, "Cash");
}

#[test]
fn entering_the_dashboard_leads_to_the_fetch_of_the_roster() {
    let mut app = started();
    let mut pending = app.update(Message::LoginSuccess(admin()));
    let mut fetches = 0;
    while let Some(effect) = pending.pop() {
        match effect {
            Effect::Emit(message) => pending.extend(app.update(message)),
            Effect::Student(StudentEffect::FetchStudents) => fetches += 1,
            other => panic!("unexpected effect {:?}", other),
        }
    }
    assert_eq!(fetches, 1);
}

#[test]
fn login_success_replaces_a_dashboard_that_is_there() {
    let mut app = logged_in();
    app.update(Message::Dashboard(DashboardMessage::NavigateToPaymentTracking));
    app.update(Message::Dashboard(DashboardMessage::StudentsFetched(vec![girl(1, "Amy")])));
    let mut other = admin();
    other.username = "staff".to_string();
    app.update(Message::LoginSuccess(other));
    let state = dashboard(&app);
    assert_eq!(state.current_view, DashboardView::Home);
    assert_eq!(state.active_user.username, "staff");
    assert!(state.student_manager.students.is_empty());
}

#[test]
fn dispatch_turns_away_a_user_record_without_a_uuid() {
    let mut app = started();
    app.update(Message::Login(LoginMessage::UsernameInputChanged("ama".to_string())));
    app.global_error = Some(AppError::Configuration("kept".to_string()));
    let mut user = admin();
    user.id = "17".to_string();
    assert!(app.dispatch(Message::LoginSuccess(user)).is_none());
    assert_eq!(login_state(&app).username_input, "ama");
    assert!(matches!(&app.global_error, Some(AppError::Configuration(m)) if m == "kept"));
}

#[test]
fn dispatch_applies_every_other_message() {
    let mut app = started();
    let effects = app.dispatch(Message::LoginSuccess(admin())).unwrap();
    assert_eq!(effects.len(), 2);
    assert!(matches!(app.state, AppState::Dashboard(_)));
    let effects = app.dispatch(Message::Dashboard(DashboardMessage::NavigateToHome)).unwrap();
    assert!(effects.is_empty());
    let effects = app.dispatch(Message::Logout).unwrap();
    assert!(effects.is_empty());
    assert!(matches!(app.state, AppState::Login(_)));
}

#[test]
fn logout_discards_the_dashboard() {
    let mut app = logged_in();
    app.update(Message::Dashboard(DashboardMessage::StudentsFetched(vec![girl(1, "Amy")])));
    app.update(Message::Dashboard(DashboardMessage::NavigateToStudentManager));
    let effects = app.update(Message::Logout);
    assert!(effects.is_empty());
    let state = login_state(&app);
    assert_eq!(state.username_input, "");
    assert_eq!(state.password_input, "");
    assert!(state.error.is_none());
    assert!(!state.is_authenticating);
    app.update(Message::LoginSuccess(admin()));
    assert!(dashboard(&app).student_manager.students.is_empty());
    assert_eq!(dashboard(&app).current_view, DashboardView::Home);
}

#[test]
fn logout_on_the_login_screen_resets_it() {
    let mut app = started();
    app.update(Message::Login(LoginMessage::UsernameInputChanged("ama".to_string())));
    app.update(Message::LoginFailed(LoginError::ServerError("x".to_string())));
    app.update(Message::Logout);
    let state = login_state(&app);
    assert_eq!(state.username_input, "");
    assert!(state.error.is_none());
}

#[test]
fn dashboard_message_on_the_login_screen_is_dropped() {
    let mut app = started();
    app.update(Message::Login(LoginMessage::UsernameInputChanged("ama".to_string())));
    let late = [
        DashboardMessage::StudentsFetched(vec![girl(1, "Amy")]),
        DashboardMessage::StudentManager(StudentManagerMessage::StudentCreated(girl(2, "Bea"))),
        DashboardMessage::StudentManager(StudentManagerMessage::FetchStudents),
        DashboardMessage::NavigateToStudentManager,
        DashboardMessage::ErrorOccurred(AppError::NetworkIssue("x".to_string())),
    ];
    for message in late {
        let effects = app.update(Message::Dashboard(message));
        assert!(effects.is_empty());
        let state = login_state(&app);
        assert_eq!(state.username_input, "ama");
        assert!(state.error.is_none());
        assert!(!state.is_authenticating);
    }
}

#[test]
fn result_of_an_earlier_session_is_discarded_after_logout() {
    let mut app = logged_in();
    let pending = app.update(Message::Dashboard(DashboardMessage::StudentManager(
        StudentManagerMessage::DeleteStudent(1),
    )));
    assert_eq!(pending.len(), 1);
    app.update(Message::Logout);
    let effects = app.update(for_student_manager(StudentManagerMessage::StudentDeleted(Ok(()))));
    assert!(effects.is_empty());
    assert!(matches!(app.state, AppState::Login(_)));
}

#[test]
fn every_message_takes_the_global_error_down() {
    let mut app = started();
    let effects = app.update(Message::AppErrorOccurred(AppError::NetworkIssue("down".to_string())));
    assert!(effects.is_empty());
    assert!(matches!(&app.global_error, Some(AppError::NetworkIssue(m)) if m == "down"));
    app.update(Message::Login(LoginMessage::UsernameInputChanged("a".to_string())));
    assert!(app.global_error.is_none());
    app.update(Message::AppErrorOccurred(AppError::NetworkIssue("down".to_string())));
    app.update(Message::AppLoading(false));
    assert!(app.global_error.is_none());
}

#[test]
fn app_loading_goes_to_the_screen_that_is_shown() {
    let mut app = started();
    assert!(app.update(Message::AppLoading(true)).is_empty());
    assert!(login_state(&app).is_authenticating);
    app.update(Message::AppLoading(false));
    assert!(!login_state(&app).is_authenticating);
    let mut app = logged_in();
    app.update(Message::AppLoading(true));
    assert!(dashboard(&app).is_loading);
    app.update(Message::AppLoading(false));
    assert!(!dashboard(&app).is_loading);
}

#[test]
fn navigation_changes_the_shown_view_only() {
    let mut app = logged_in();
    app.update(Message::Dashboard(DashboardMessage::StudentsFetched(vec![girl(1, "Amy")])));
    let steps = [
        (DashboardMessage::NavigateToStudentManager, DashboardView::StudentManager),
        (DashboardMessage::NavigateToTeachingPeriodManager, DashboardView::TeachingPeriodManager),
        (DashboardMessage::NavigateToPaymentTracking, DashboardView::PaymentTrackingManager),
        (DashboardMessage::NavigateToReportsAnalytics, DashboardView::ReportsAnalytics),
        (DashboardMessage::NavigateToUserAccessManager, DashboardView::UserAccessManager),
        (DashboardMessage::NavigateToHome, DashboardView::Home),
    ];
    for (message, view) in steps {
        let effects = app.update(Message::Dashboard(message));
        assert!(effects.is_empty());
        let state = dashboard(&app);
        assert_eq!(state.current_view, view);
        assert_eq!(state.student_manager.students.len(), 1);
        assert!(!state.is_loading);
        assert_eq!(state.active_user.username, "admin");
    }
}

#[test]
fn default_view_is_home() {
    assert_eq!(DashboardView::default(), DashboardView::Home);
}

#[test]
fn student_messages_reach_the_student_manager_whatever_is_shown() {
    let mut app = logged_in();
    app.update(Message::Dashboard(DashboardMessage::NavigateToReportsAnalytics));
    let effects = app.update(for_student_manager(StudentManagerMessage::StudentCreated(girl(
        1, "Zed",
    ))));
    assert_eq!(effects.len(), 1);
    assert!(matches!(
        &effects[0],
        Effect::Student(StudentEffect::ClearSuccessMessageAfter(3))
    ));
    app.update(for_student_manager(StudentManagerMessage::StudentCreated(girl(2, "Amy"))));
    let state = dashboard(&app);
    assert_eq!(state.current_view, DashboardView::ReportsAnalytics);
    let surnames: Vec<&str> =
        state.student_manager.students.iter().map(|s| s.name.surname.as_str()).collect();
    assert_eq!(surnames, vec!["Amy", "Zed"]);
    assert!(state.student_manager.show_success_message);
}

#[test]
fn student_message_without_effect_schedules_nothing() {
    let mut app = logged_in();
    let effects = app.update(for_student_manager(StudentManagerMessage::SubmitNewStudent));
    assert!(effects.is_empty());
    assert_eq!(
        dashboard(&app).student_manager.form_error_message.as_deref(),
        Some("First name cannot be empty.")
    );
}

#[test]
fn students_fetched_fills_the_roster_and_ends_loading() {
    let mut app = logged_in();
    app.update(Message::Dashboard(DashboardMessage::Loading(true)));
    assert!(dashboard(&app).is_loading);
    let effects = app.update(Message::Dashboard(DashboardMessage::StudentsFetched(vec![
        girl(1, "Zed"),
        girl(2, "Amy"),
    ])));
    assert_eq!(effects.len(), 1);
    assert!(matches!(&effects[0], Effect::Emit(Message::AppLoading(false))));
    let state = dashboard(&app);
    assert!(!state.is_loading);
    let ids: Vec<u128> = state.student_manager.students.iter().map(|s| s.id).collect();
    assert_eq!(ids, vec![2, 1]);
}

#[test]
fn dashboard_error_is_stored_and_ends_loading() {
    let mut app = logged_in();
    let effects = app.update(Message::Dashboard(DashboardMessage::ErrorOccurred(
        AppError::BackendError("x".to_string()),
    )));
    assert_eq!(effects.len(), 1);
    assert!(matches!(&effects[0], Effect::Emit(Message::AppLoading(false))));
    assert!(matches!(
        &dashboard(&app).global_app_error,
        Some(AppError::BackendError(m)) if m == "x"
    ));
}

#[test]
fn messages_without_transition_change_nothing() {
    let mut app = logged_in();
    let before = format!("{:?}", dashboard(&app));
    let idle = [
        DashboardMessage::ChangePassword,
        DashboardMessage::PasswordChanged(Ok(())),
        DashboardMessage::TeachingPeriod(TeachingPeriodMessage::LoadPeriods),
        DashboardMessage::TeachingPeriod(TeachingPeriodMessage::UpdateSubject("x".to_string())),
        DashboardMessage::PaymentTracking(PaymentTrackingMessage::SubmitPayment),
        DashboardMessage::UserAccess(UserAccessMessage::UpdateNewUserRole(UserRole::Staff)),
        DashboardMessage::ReportsAnalytics(ReportsAnalyticsMessage::SelectReportType(
            ReportType::TeacherEarnings,
        )),
    ];
    for message in idle {
        assert!(app.update(Message::Dashboard(message)).is_empty());
        assert_eq!(format!("{:?}", dashboard(&app)), before);
    }
}

#[test]
fn module_states_start_as_they_should() {
    let periods = TeachingPeriodManagerState::default();
    assert_eq!(periods.subjects, vec!["Mathematics", "English", "Science", "History", "Geography"]);
    assert_eq!(
        periods.classes,
        vec!["Grade 7", "Grade 8", "Grade 9", "Grade 10", "Grade 11", "Grade 12"]
    );
    assert!(periods.teaching_periods.is_empty());
    assert!(periods.teachers.is_empty());
    assert_eq!(periods.new_period_teacher_id, None);
    assert_eq!(periods.new_period_rate, "");
    assert!(!periods.is_loading);
    assert!(!periods.show_import_dialog);
    assert!(periods.import_preview.is_none());

    let payments = PaymentTrackingState::default();
    assert_eq!(payments.payment_method, "Cash");
    assert_eq!(payments.payment_amount, "");
    assert!(payments.students.is_empty());
    assert!(payments.payments.is_empty());
    assert_eq!(payments.filter_status, None);
    assert!(!payments.show_payment_dialog);

    let access = UserAccessManagerState::default();
    assert_eq!(access.new_user_role, UserRole::Teacher);
    assert!(access.users.is_empty());
    assert_eq!(access.new_user_username, "");
    assert!(!access.show_add_user_dialog);
    assert!(!access.show_edit_user_dialog);
    assert!(!access.show_delete_confirmation);

    let reports = ReportsAnalyticsState::default();
    assert_eq!(reports.total_students, 0);
    assert_eq!(f64::from_bits(reports.total_revenue.bits), 0.0);
    assert_eq!(f64::from_bits(reports.expected_revenue.bits), 0.0);
    assert_eq!(f64::from_bits(reports.collection_rate.bits), 0.0);
    assert_eq!(f64::from_bits(reports.payment_summary.total_pending.bits), 0.0);
    assert_eq!(reports.payment_summary.paid_count, 0);
    assert_eq!(reports.selected_report_type, ReportType::ProjectedIncome);
    assert!(reports.recent_activities.is_empty());
    assert!(reports.teacher_earnings.is_empty());
}

#[test]
fn login_result_settles_into_success_or_failure() {
    assert!(matches!(login_settled(Ok(admin())), Message::LoginSuccess(u) if u.username == "admin"));
    assert!(matches!(
        login_settled(Err(LoginError::NetworkIssue("x".to_string()))),
        Message::LoginFailed(LoginError::NetworkIssue(m)) if m == "x"
    ));
}

#[test]
fn student_follow_up_is_addressed_to_the_dashboard() {
    assert!(matches!(
        for_student_manager(StudentManagerMessage::ClearSuccessMessage),
        Message::Dashboard(DashboardMessage::StudentManager(
            StudentManagerMessage::ClearSuccessMessage
        ))
    ));
}
