//! The dashboard: the module states under one view selector, and the
//! routing of messages to them.

use vstd::prelude::*;

use crate::app::Effect;
use crate::app::EffectView;
use crate::app::Message;
use crate::error::AppError;
use crate::error::AppErrorView;
use crate::error::DashboardError;
use crate::error::DashboardErrorView;
use crate::error::PasswordChangeError;
use crate::models::Student;
use crate::models::UserProfile;
use crate::models::UserProfileView;
use crate::models::UserResponse;
use crate::modules::PaymentTrackingMessage;
use crate::modules::PaymentTrackingState;
use crate::modules::PaymentTrackingView;
use crate::modules::ReportsAnalyticsMessage;
use crate::modules::ReportsAnalyticsState;
use crate::modules::ReportsAnalyticsView;
use crate::modules::TeachingPeriodManagerState;
use crate::modules::TeachingPeriodManagerView;
use crate::modules::TeachingPeriodMessage;
use crate::modules::UserAccessManagerState;
use crate::modules::UserAccessManagerView;
use crate::modules::UserAccessMessage;
use crate::roster::lemma_sorted_is_ordered;
use crate::roster::ordered_by_surname;
use crate::roster::sort_by_surname;
use crate::roster::sorted_by_surname;
use crate::student_manager::lemma_step_keeps_roster_ordered;
use crate::student_manager::student_step;
use crate::student_manager::StudentEffectView;
use crate::student_manager::StudentManagerMessage;
use crate::student_manager::StudentManagerState;
use crate::student_manager::StudentManagerView;

verus! {

/// Which module the dashboard shows.
#[derive(Debug, Clone, Copy, PartialEq, Eq, Structural)]
pub enum DashboardView {
    Home,
    StudentManager,
    TeachingPeriodManager,
    PaymentTrackingManager,
    UserAccessManager,
    ReportsAnalytics,
}

impl Default for DashboardView {
    fn default() -> (view: DashboardView)
        ensures
            view == DashboardView::Home,
    {
        DashboardView::Home
    }
}

/// What can be said to the dashboard.
#[derive(Debug, Clone)]
pub enum DashboardMessage {
    NavigateToHome,
    NavigateToStudentManager,
    NavigateToTeachingPeriodManager,
    NavigateToPaymentTracking,
    NavigateToReportsAnalytics,
    NavigateToUserAccessManager,
    ChangePassword,
    PasswordChanged(Result<(), PasswordChangeError>),
    Loading(bool),
    ErrorOccurred(AppError),
    StudentManager(StudentManagerMessage),
    StudentsFetched(Vec<Student>),
    TeachingPeriod(TeachingPeriodMessage),
    PaymentTracking(PaymentTrackingMessage),
    UserAccess(UserAccessMessage),
    ReportsAnalytics(ReportsAnalyticsMessage),
}

/// The state of the dashboard: the session's user, the view selector and
/// the state of every module.
#[derive(Debug)]
pub struct DashboardState {
    pub current_view: DashboardView,
    pub student_manager: StudentManagerState,
    pub teaching_period_manager: TeachingPeriodManagerState,
    pub payment_tracking: PaymentTrackingState,
    pub user_access_manager: UserAccessManagerState,
    pub reports_analytics: ReportsAnalyticsState,
    pub active_user: UserProfile,
    pub error: Option<DashboardError>,
    pub is_loading: bool,
    pub global_app_error: Option<AppError>,
}

/// What a `DashboardState` holds.
pub struct DashboardStateView {
    pub current_view: DashboardView,
    pub student_manager: StudentManagerView,
    pub teaching_period_manager: TeachingPeriodManagerView,
    pub payment_tracking: PaymentTrackingView,
    pub user_access_manager: UserAccessManagerView,
    pub reports_analytics: ReportsAnalyticsView,
    pub active_user: UserProfileView,
    pub error: Option<DashboardErrorView>,
    pub is_loading: bool,
    pub global_app_error: Option<AppErrorView>,
}

impl View for DashboardState {
    type V = DashboardStateView;

    open spec fn view(&self) -> DashboardStateView {
        DashboardStateView {
            current_view: self.current_view,
            student_manager: self.student_manager@,
            teaching_period_manager: self.teaching_period_manager@,
            payment_tracking: self.payment_tracking@,
            user_access_manager: self.user_access_manager@,
            reports_analytics: self.reports_analytics@,
            active_user: self.active_user@,
            error: self.error.deep_view(),
            is_loading: self.is_loading,
            global_app_error: self.global_app_error.deep_view(),
        }
    }
}

impl DashboardStateView {
    /// The dashboard as a session enters it: the home view, every module in
    /// its initial state, no error, nothing loading.
    pub open spec fn initial(user: UserProfileView) -> DashboardStateView {
        DashboardStateView {
            current_view: DashboardView::Home,
            student_manager: StudentManagerView::initial(),
            teaching_period_manager: TeachingPeriodManagerView::initial(),
            payment_tracking: PaymentTrackingView::initial(),
            user_access_manager: UserAccessManagerView::initial(),
            reports_analytics: ReportsAnalyticsView::initial(),
            active_user: user,
            error: None,
            is_loading: false,
            global_app_error: None,
        }
    }
}

/// The effects of the dashboard for an effect of the student manager.
pub open spec fn student_effects(effect: Option<StudentEffectView>) -> Seq<EffectView> {
    match effect {
        Some(e) => seq![EffectView::Student(e)],
        None => Seq::empty(),
    }
}

/// The transition function of the dashboard: the state after a message and
/// the effects that the message schedules. A message goes to the module
/// that its own tag names, whichever view is shown; navigation changes the
/// shown view and nothing else.
pub open spec fn dashboard_step(d: DashboardStateView, message: DashboardMessage) -> (
    DashboardStateView,
    Seq<EffectView>,
) {
    match message {
        DashboardMessage::NavigateToStudentManager => (
            DashboardStateView { current_view: DashboardView::StudentManager, ..d },
            Seq::empty(),
        ),
        DashboardMessage::NavigateToTeachingPeriodManager => (
            DashboardStateView { current_view: DashboardView::TeachingPeriodManager, ..d },
            Seq::empty(),
        ),
        DashboardMessage::NavigateToPaymentTracking => (
            DashboardStateView { current_view: DashboardView::PaymentTrackingManager, ..d },
            Seq::empty(),
        ),
        DashboardMessage::NavigateToReportsAnalytics => (
            DashboardStateView { current_view: DashboardView::ReportsAnalytics, ..d },
            Seq::empty(),
        ),
        DashboardMessage::NavigateToUserAccessManager => (
            DashboardStateView { current_view: DashboardView::UserAccessManager, ..d },
            Seq::empty(),
        ),
        DashboardMessage::NavigateToHome => (
            DashboardStateView { current_view: DashboardView::Home, ..d },
            Seq::empty(),
        ),
        DashboardMessage::ChangePassword => (d, Seq::empty()),
        DashboardMessage::PasswordChanged(_) => (d, Seq::empty()),
        DashboardMessage::Loading(is_loading) => (
            DashboardStateView { is_loading, ..d },
            Seq::empty(),
        ),
        DashboardMessage::ErrorOccurred(error) => (
            DashboardStateView { global_app_error: Some(error@), ..d },
            seq![EffectView::Emit(Message::AppLoading(false))],
        ),
        DashboardMessage::StudentManager(inner) => (
            DashboardStateView { student_manager: student_step(d.student_manager, inner).0, ..d },
            student_effects(student_step(d.student_manager, inner).1),
        ),
        DashboardMessage::StudentsFetched(students) => (
            DashboardStateView {
                is_loading: false,
                student_manager: StudentManagerView {
                    students: sorted_by_surname(students.deep_view()),
                    ..d.student_manager
                },
                ..d
            },
            seq![EffectView::Emit(Message::AppLoading(false))],
        ),
        DashboardMessage::TeachingPeriod(_) => (d, Seq::empty()),
        DashboardMessage::PaymentTracking(_) => (d, Seq::empty()),
        DashboardMessage::UserAccess(_) => (d, Seq::empty()),
        DashboardMessage::ReportsAnalytics(_) => (d, Seq::empty()),
    }
}

impl DashboardState {
    /// The dashboard as the session of `user_account` enters it.
    pub fn new(user_account: UserResponse) -> (state: DashboardState)
        requires
            user_account.has_valid_id(),
        ensures
            state@ == DashboardStateView::initial(user_account.profile()),
    {
        DashboardState {
            current_view: DashboardView::Home,
            student_manager: StudentManagerState::new(),
            teaching_period_manager: TeachingPeriodManagerState::default(),
            payment_tracking: PaymentTrackingState::default(),
            user_access_manager: UserAccessManagerState::default(),
            reports_analytics: ReportsAnalyticsState::default(),
            active_user: UserProfile::from_response(user_account),
            error: None,
            is_loading: false,
            global_app_error: None,
        }
    }

    /// Applies a message: changes the state as `dashboard_step` says and
    /// returns the effects that the message schedules.
    pub fn update(&mut self, message: DashboardMessage) -> (effects: Vec<Effect>)
        ensures
            final(self)@ == dashboard_step(old(self)@, message).0,
            effects.deep_view() == dashboard_step(old(self)@, message).1,
    {
        let effects: Vec<Effect> = match message {
            DashboardMessage::NavigateToStudentManager => {
                self.current_view = DashboardView::StudentManager;
                Vec::new()
            },
            DashboardMessage::NavigateToTeachingPeriodManager => {
                self.current_view = DashboardView::TeachingPeriodManager;
                Vec::new()
            },
            DashboardMessage::NavigateToPaymentTracking => {
                self.current_view = DashboardView::PaymentTrackingManager;
                Vec::new()
            },
            DashboardMessage::NavigateToReportsAnalytics => {
                self.current_view = DashboardView::ReportsAnalytics;
                Vec::new()
            },
            DashboardMessage::NavigateToUserAccessManager => {
                self.current_view = DashboardView::UserAccessManager;
                Vec::new()
            },
            DashboardMessage::NavigateToHome => {
                self.current_view = DashboardView::Home;
                Vec::new()
            },
            DashboardMessage::ChangePassword => Vec::new(),
            DashboardMessage::PasswordChanged(_) => Vec::new(),
            DashboardMessage::Loading(is_loading) => {
                self.is_loading = is_loading;
                Vec::new()
            },
            DashboardMessage::ErrorOccurred(error) => {
                self.global_app_error = Some(error);
                let mut effects: Vec<Effect> = Vec::new();
                effects.push(Effect::Emit(Message::AppLoading(false)));
                effects
            },
            DashboardMessage::StudentManager(inner) => {
                let mut effects: Vec<Effect> = Vec::new();
                match self.student_manager.update(inner) {
                    Some(effect) => {
                        effects.push(Effect::Student(effect));
                    },
                    None => {},
                }
                effects
            },
            DashboardMessage::StudentsFetched(students) => {
                self.is_loading = false;
                self.student_manager.students = students;
                sort_by_surname(&mut self.student_manager.students);
                let mut effects: Vec<Effect> = Vec::new();
                effects.push(Effect::Emit(Message::AppLoading(false)));
                effects
            },
            DashboardMessage::TeachingPeriod(_) => Vec::new(),
            DashboardMessage::PaymentTracking(_) => Vec::new(),
            DashboardMessage::UserAccess(_) => Vec::new(),
            DashboardMessage::ReportsAnalytics(_) => Vec::new(),
        };
        proof {
            assert(effects.deep_view() =~= dashboard_step(old(self)@, message).1);
        }
        effects
    }
}

/// Whether a message asks to show another module.
pub open spec fn is_navigation(message: DashboardMessage) -> bool {
    ||| message is NavigateToHome
    ||| message is NavigateToStudentManager
    ||| message is NavigateToTeachingPeriodManager
    ||| message is NavigateToPaymentTracking
    ||| message is NavigateToReportsAnalytics
    ||| message is NavigateToUserAccessManager
}

/// Navigation changes the shown view, nothing else, and schedules nothing.
pub proof fn lemma_navigation_changes_view_only(d: DashboardStateView, message: DashboardMessage)
    requires
        is_navigation(message),
    ensures
        dashboard_step(d, message).1 == Seq::<EffectView>::empty(),
        dashboard_step(d, message).0 == (DashboardStateView {
            current_view: dashboard_step(d, message).0.current_view,
            ..d
        }),
{
}

/// A message for the student manager reaches it whichever view is shown:
/// what it does to the student manager, and what it schedules, does not
/// depend on the shown view, and the shown view stays.
pub proof fn lemma_routing_ignores_shown_view(
    d: DashboardStateView,
    shown: DashboardView,
    inner: StudentManagerMessage,
)
    ensures
        dashboard_step(
            DashboardStateView { current_view: shown, ..d },
            DashboardMessage::StudentManager(inner),
        ) == (
            DashboardStateView {
                current_view: shown,
                student_manager: student_step(d.student_manager, inner).0,
                ..d
            },
            student_effects(student_step(d.student_manager, inner).1),
        ),
{
}

/// The session's user stays the same through every message: a session
/// ends by logout, not by change.
pub proof fn lemma_session_user_is_fixed(d: DashboardStateView, message: DashboardMessage)
    ensures
        dashboard_step(d, message).0.active_user == d.active_user,
{
}

/// A roster in surname order is in surname order after every message of
/// the dashboard.
pub proof fn lemma_dashboard_keeps_roster_ordered(d: DashboardStateView, message: DashboardMessage)
    requires
        ordered_by_surname(d.student_manager.students),
    ensures
        ordered_by_surname(dashboard_step(d, message).0.student_manager.students),
{
    match message {
        DashboardMessage::StudentManager(inner) => {
            lemma_step_keeps_roster_ordered(d.student_manager, inner);
        },
        DashboardMessage::StudentsFetched(students) => {
            lemma_sorted_is_ordered(students.deep_view());
        },
        _ => {},
    }
}

/// The modules without transitions keep their state through every message.
pub proof fn lemma_idle_modules_keep_their_state(d: DashboardStateView, message: DashboardMessage)
    ensures
        dashboard_step(d, message).0.teaching_period_manager == d.teaching_period_manager,
        dashboard_step(d, message).0.payment_tracking == d.payment_tracking,
        dashboard_step(d, message).0.user_access_manager == d.user_access_manager,
        dashboard_step(d, message).0.reports_analytics == d.reports_analytics,
{
}

} // verus!
