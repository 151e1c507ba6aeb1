//! The root of the client: the choice between the login screen and the
//! dashboard, the messages of the dispatch loop, and the effects that a
//! transition schedules.

use vstd::prelude::*;

use crate::dashboard::dashboard_step;
use crate::dashboard::DashboardMessage;
use crate::dashboard::DashboardState;
use crate::dashboard::DashboardStateView;
use crate::error::AppError;
use crate::error::AppErrorView;
use crate::error::LoginError;
use crate::ident::parse_id;
use crate::login::login_step;
use crate::login::LoginMessage;
use crate::login::LoginState;
use crate::login::LoginStateView;
use crate::models::F64Bits;
use crate::models::UserResponse;
use crate::student_manager::StudentEffect;
use crate::student_manager::StudentEffectView;
use crate::student_manager::StudentManagerMessage;

verus! {

/// The colours of the user interface.
#[derive(Debug, Clone, Copy, PartialEq, Eq, Structural)]
pub enum AppTheme {
    Light,
    Dark,
    System,
}

/// The settings of the client.
#[derive(Debug)]
pub struct AppSettings {
    pub admin_share_percentage: F64Bits,
    pub staff_share_percentage: F64Bits,
    pub teacher_share_percentage: F64Bits,
    pub default_payment_method: String,
    pub currency_symbol: String,
    pub date_format: String,
    pub backup_frequency: String,
    pub auto_backup_enabled: bool,
    pub theme: AppTheme,
}

/// What an `AppSettings` holds.
pub struct AppSettingsView {
    pub admin_share_percentage: F64Bits,
    pub staff_share_percentage: F64Bits,
    pub teacher_share_percentage: F64Bits,
    pub default_payment_method: Seq<char>,
    pub currency_symbol: Seq<char>,
    pub date_format: Seq<char>,
    pub backup_frequency: Seq<char>,
    pub auto_backup_enabled: bool,
    pub theme: AppTheme,
}

impl View for AppSettings {
    type V = AppSettingsView;

    open spec fn view(&self) -> AppSettingsView {
        AppSettingsView {
            admin_share_percentage: self.admin_share_percentage,
            staff_share_percentage: self.staff_share_percentage,
            teacher_share_percentage: self.teacher_share_percentage,
            default_payment_method: self.default_payment_method@,
            currency_symbol: self.currency_symbol@,
            date_format: self.date_format@,
            backup_frequency: self.backup_frequency@,
            auto_backup_enabled: self.auto_backup_enabled,
            theme: self.theme,
        }
    }
}

/// The bit pattern of the number 30.
pub const THIRTY: u64 = 0x403E_0000_0000_0000;

/// The bit pattern of the number 20.
pub const TWENTY: u64 = 0x4034_0000_0000_0000;

/// The bit pattern of the number 50.
pub const FIFTY: u64 = 0x4049_0000_0000_0000;

impl AppSettingsView {
    /// The settings that the client starts with: shares of 30, 20 and 50
    /// per cent, cash, the cedi sign, daily backups, the light theme.
    pub open spec fn initial() -> AppSettingsView {
        AppSettingsView {
            admin_share_percentage: F64Bits { bits: THIRTY },
            staff_share_percentage: F64Bits { bits: TWENTY },
            teacher_share_percentage: F64Bits { bits: FIFTY },
            default_payment_method: "Cash"@,
            currency_symbol: "\u{20b5}"@,
            date_format: "DD/MM/YYYY"@,
            backup_frequency: "Daily"@,
            auto_backup_enabled: true,
            theme: AppTheme::Light,
        }
    }
}

impl Default for AppSettings {
    fn default() -> (settings: AppSettings)
        ensures
            settings@ == AppSettingsView::initial(),
    {
        AppSettings {
            admin_share_percentage: F64Bits { bits: THIRTY },
            staff_share_percentage: F64Bits { bits: TWENTY },
            teacher_share_percentage: F64Bits { bits: FIFTY },
            default_payment_method: "Cash".to_string(),
            currency_symbol: "\u{20b5}".to_string(),
            date_format: "DD/MM/YYYY".to_string(),
            backup_frequency: "Daily".to_string(),
            auto_backup_enabled: true,
            theme: AppTheme::Light,
        }
    }
}

/// The messages of the dispatch loop.
#[derive(Debug, Clone)]
pub enum Message {
    Login(LoginMessage),
    LoginSuccess(UserResponse),
    LoginFailed(LoginError),
    Dashboard(DashboardMessage),
    Logout,
    AppLoading(bool),
    AppErrorOccurred(AppError),
}

/// Work that a transition asks to have done outside the dispatch loop.
/// Each effect settles into one follow-up message.
#[derive(Debug, Clone)]
pub enum Effect {
    /// Ask the backend to log in with these credentials; settles into
    /// `LoginSuccess` or `LoginFailed`.
    Login { username: String, password: String },
    /// Deliver this message on the next turn of the loop.
    Emit(Message),
    /// Work of the student manager; its follow-up message comes back
    /// addressed to the student manager of the dashboard.
    Student(StudentEffect),
}

/// What an `Effect` holds.
pub enum EffectView {
    Login { username: Seq<char>, password: Seq<char> },
    Emit(Message),
    Student(StudentEffectView),
}

impl View for Effect {
    type V = EffectView;

    open spec fn view(&self) -> EffectView {
        match self {
            Effect::Login { username, password } => EffectView::Login {
                username: username@,
                password: password@,
            },
            Effect::Emit(message) => EffectView::Emit(*message),
            Effect::Student(effect) => EffectView::Student(effect@),
        }
    }
}

impl DeepView for Effect {
    type V = EffectView;

    open spec fn deep_view(&self) -> EffectView {
        self@
    }
}

/// Either the login screen or the dashboard.
#[derive(Debug)]
pub enum AppState {
    Login(LoginState),
    Dashboard(DashboardState),
}

/// What an `AppState` holds.
pub enum AppStateView {
    Login(LoginStateView),
    Dashboard(DashboardStateView),
}

impl View for AppState {
    type V = AppStateView;

    open spec fn view(&self) -> AppStateView {
        match self {
            AppState::Login(login) => AppStateView::Login(login@),
            AppState::Dashboard(dashboard) => AppStateView::Dashboard(dashboard@),
        }
    }
}

/// The client.
#[derive(Debug)]
pub struct KyefaApp {
    pub state: AppState,
    pub settings: AppSettings,
    pub global_error: Option<AppError>,
}

/// What a `KyefaApp` holds.
pub struct KyefaAppView {
    pub state: AppStateView,
    pub settings: AppSettingsView,
    pub global_error: Option<AppErrorView>,
}

impl View for KyefaApp {
    type V = KyefaAppView;

    open spec fn view(&self) -> KyefaAppView {
        KyefaAppView {
            state: self.state@,
            settings: self.settings@,
            global_error: self.global_error.deep_view(),
        }
    }
}

impl KyefaAppView {
    /// The client as it starts: the login screen, the initial settings, no
    /// error.
    pub open spec fn initial() -> KyefaAppView {
        KyefaAppView {
            state: AppStateView::Login(LoginStateView::initial()),
            settings: AppSettingsView::initial(),
            global_error: None,
        }
    }
}

/// The effects of the root for what a message did to the login screen.
pub open spec fn login_effects(credentials: Option<(Seq<char>, Seq<char>)>) -> Seq<EffectView> {
    match credentials {
        Some((username, password)) => seq![EffectView::Login { username, password }],
        None => Seq::empty(),
    }
}

/// What entering the dashboard schedules: the end of the loading state and
/// the fetch of the roster.
pub open spec fn on_entering_dashboard() -> Seq<EffectView> {
    seq![
        EffectView::Emit(Message::AppLoading(false)),
        EffectView::Emit(
            Message::Dashboard(
                DashboardMessage::StudentManager(StudentManagerMessage::FetchStudents),
            ),
        ),
    ]
}

/// Whether the dispatch loop can apply a message: every message but a
/// `LoginSuccess` whose record carries an identifier that is no UUID.
pub open spec fn is_deliverable(message: Message) -> bool {
    message matches Message::LoginSuccess(user) ==> user.has_valid_id()
}

/// The transition function of the root: the client after a message and the
/// effects that the message schedules. Every message first takes down the
/// global error. A message for the login screen is ignored on the
/// dashboard, and a message for the dashboard on the login screen.
pub open spec fn app_step(app: KyefaAppView, message: Message) -> (KyefaAppView, Seq<EffectView>)
    recommends
        is_deliverable(message),
{
    let cleared = KyefaAppView { global_error: None, ..app };
    match message {
        Message::AppLoading(is_loading) => (
            KyefaAppView {
                state: match app.state {
                    AppStateView::Login(login) => AppStateView::Login(
                        LoginStateView { is_authenticating: is_loading, ..login },
                    ),
                    AppStateView::Dashboard(dashboard) => AppStateView::Dashboard(
                        DashboardStateView { is_loading, ..dashboard },
                    ),
                },
                ..cleared
            },
            Seq::empty(),
        ),
        Message::AppErrorOccurred(error) => (
            KyefaAppView { global_error: Some(error@), ..app },
            Seq::empty(),
        ),
        Message::Login(inner) => match app.state {
            AppStateView::Login(login) => (
                KyefaAppView { state: AppStateView::Login(login_step(login, inner).0), ..cleared },
                login_effects(login_step(login, inner).1),
            ),
            AppStateView::Dashboard(_) => (cleared, Seq::empty()),
        },
        Message::LoginSuccess(user) => (
            KyefaAppView {
                state: AppStateView::Dashboard(DashboardStateView::initial(user.profile())),
                ..cleared
            },
            on_entering_dashboard(),
        ),
        Message::LoginFailed(error) => (
            KyefaAppView {
                state: match app.state {
                    AppStateView::Login(login) => AppStateView::Login(
                        LoginStateView { error: Some(error@), is_authenticating: false, ..login },
                    ),
                    AppStateView::Dashboard(dashboard) => AppStateView::Dashboard(dashboard),
                },
                ..cleared
            },
            seq![EffectView::Emit(Message::AppLoading(false))],
        ),
        Message::Dashboard(inner) => match app.state {
            AppStateView::Dashboard(dashboard) => (
                KyefaAppView {
                    state: AppStateView::Dashboard(dashboard_step(dashboard, inner).0),
                    ..cleared
                },
                dashboard_step(dashboard, inner).1,
            ),
            AppStateView::Login(_) => (cleared, Seq::empty()),
        },
        Message::Logout => (
            KyefaAppView { state: AppStateView::Login(LoginStateView::initial()), ..cleared },
            Seq::empty(),
        ),
    }
}

impl KyefaApp {
    /// The client as it starts, and the effects of starting, of which there
    /// are none.
    pub fn new() -> (start: (KyefaApp, Vec<Effect>))
        ensures
            start.0@ == KyefaAppView::initial(),
            start.1@.len() == 0,
    {
        (
            KyefaApp {
                state: AppState::Login(LoginState::new()),
                settings: AppSettings::default(),
                global_error: None,
            },
            Vec::new(),
        )
    }

    /// The title of the client's window.
    pub fn title(&self) -> (title: String)
        ensures
            title@ == "Kyefa"@,
    {
        "Kyefa".to_string()
    }

    /// Applies a message: changes the client as `app_step` says and returns
    /// the effects that the message schedules.
    pub fn update(&mut self, message: Message) -> (effects: Vec<Effect>)
        requires
            is_deliverable(message),
        ensures
            final(self)@ == app_step(old(self)@, message).0,
            effects.deep_view() == app_step(old(self)@, message).1,
    {
        self.global_error = None;
        let effects: Vec<Effect> = match message {
            Message::AppLoading(is_loading) => {
                match &mut self.state {
                    AppState::Login(login) => {
                        login.is_authenticating = is_loading;
                    },
                    AppState::Dashboard(dashboard) => {
                        dashboard.is_loading = is_loading;
                    },
                }
                Vec::new()
            },
            Message::AppErrorOccurred(error) => {
                self.global_error = Some(error);
                Vec::new()
            },
            Message::Login(inner) => {
                let mut effects: Vec<Effect> = Vec::new();
                match &mut self.state {
                    AppState::Login(login) => {
                        match login.update(inner) {
                            Some((username, password)) => {
                                effects.push(Effect::Login { username, password });
                            },
                            None => {},
                        }
                    },
                    AppState::Dashboard(_) => {},
                }
                effects
            },
            Message::LoginSuccess(user) => {
                self.state = AppState::Dashboard(DashboardState::new(user));
                let mut effects: Vec<Effect> = Vec::new();
                effects.push(Effect::Emit(Message::AppLoading(false)));
                effects.push(
                    Effect::Emit(
                        Message::Dashboard(
                            DashboardMessage::StudentManager(StudentManagerMessage::FetchStudents),
                        ),
                    ),
                );
                effects
            },
            Message::LoginFailed(error) => {
                match &mut self.state {
                    AppState::Login(login) => {
                        login.error = Some(error);
                        login.is_authenticating = false;
                    },
                    AppState::Dashboard(_) => {},
                }
                let mut effects: Vec<Effect> = Vec::new();
                effects.push(Effect::Emit(Message::AppLoading(false)));
                effects
            },
            Message::Dashboard(inner) => {
                match &mut self.state {
                    AppState::Dashboard(dashboard) => dashboard.update(inner),
                    AppState::Login(_) => Vec::new(),
                }
            },
            Message::Logout => {
                self.state = AppState::Login(LoginState::new());
                Vec::new()
            },
        };
        proof {
            assert(effects.deep_view() =~= app_step(old(self)@, message).1);
        }
        effects
    }

    /// Applies a message if the loop can: a `LoginSuccess` whose record
    /// carries an identifier that is no UUID is turned away with `None`
    /// and the client left as it is; every other message is applied as
    /// `update` applies it.
    pub fn dispatch(&mut self, message: Message) -> (effects: Option<Vec<Effect>>)
        ensures
            effects is Some <==> is_deliverable(message),
            effects matches Some(scheduled) ==> {
                &&& final(self)@ == app_step(old(self)@, message).0
                &&& scheduled.deep_view() == app_step(old(self)@, message).1
            },
            effects is None ==> final(self)@ == old(self)@,
    {
        let deliverable = match &message {
            Message::LoginSuccess(user) => parse_id(user.id.as_str()).is_some(),
            _ => true,
        };
        if deliverable {
            Some(self.update(message))
        } else {
            None
        }
    }
}

/// The follow-up message of a login: the user on success, the error
/// otherwise.
pub fn login_settled(result: Result<UserResponse, LoginError>) -> (message: Message)
    ensures
        message == match result {
            Ok(user) => Message::LoginSuccess(user),
            Err(error) => Message::LoginFailed(error),
        },
{
    match result {
        Ok(user) => Message::LoginSuccess(user),
        Err(error) => Message::LoginFailed(error),
    }
}

/// A follow-up message of the student manager, addressed to the student
/// manager of the dashboard.
pub fn for_student_manager(inner: StudentManagerMessage) -> (message: Message)
    ensures
        message == Message::Dashboard(DashboardMessage::StudentManager(inner)),
{
    Message::Dashboard(DashboardMessage::StudentManager(inner))
}

/// `Logout` puts the client on a fresh login screen, whatever it showed,
/// and schedules nothing.
pub proof fn lemma_logout_discards_dashboard(app: KyefaAppView)
    ensures
        app_step(app, Message::Logout) == (
            KyefaAppView {
                state: AppStateView::Login(LoginStateView::initial()),
                global_error: None,
                ..app
            },
            Seq::<EffectView>::empty(),
        ),
{
}

/// A message for the dashboard that arrives on the login screen changes
/// nothing but the global error, which every message takes down, and
/// schedules nothing.
pub proof fn lemma_dashboard_message_dropped_on_login(app: KyefaAppView, inner: DashboardMessage)
    requires
        app.state is Login,
    ensures
        app_step(app, Message::Dashboard(inner)) == (
            KyefaAppView { global_error: None, ..app },
            Seq::<EffectView>::empty(),
        ),
{
}

/// A message for the login screen that arrives on the dashboard changes
/// nothing but the global error and schedules nothing; so `AttemptLogin`
/// starts a login from the login screen only.
pub proof fn lemma_login_message_dropped_on_dashboard(app: KyefaAppView, inner: LoginMessage)
    requires
        app.state is Dashboard,
    ensures
        app_step(app, Message::Login(inner)) == (
            KyefaAppView { global_error: None, ..app },
            Seq::<EffectView>::empty(),
        ),
{
}

/// On the login screen `AttemptLogin` marks a login as under way, drops the
/// earlier error, and schedules one login with the two inputs.
pub proof fn lemma_attempt_login_schedules_login(app: KyefaAppView, login: LoginStateView)
    requires
        app.state == AppStateView::Login(login),
    ensures
        app_step(app, Message::Login(LoginMessage::AttemptLogin)) == (
            KyefaAppView {
                state: AppStateView::Login(
                    LoginStateView { is_authenticating: true, error: None, ..login },
                ),
                global_error: None,
                ..app
            },
            seq![
                EffectView::Login {
                    username: login.username_input,
                    password: login.password_input,
                },
            ],
        ),
{
}

/// A failed login leaves the client on the login screen, with the error
/// stored and no login under way.
pub proof fn lemma_failed_login_stays_on_login(
    app: KyefaAppView,
    login: LoginStateView,
    error: LoginError,
)
    requires
        app.state == AppStateView::Login(login),
    ensures
        app_step(app, Message::LoginFailed(error)).0.state == AppStateView::Login(
            LoginStateView { error: Some(error@), is_authenticating: false, ..login },
        ),
{
}

/// The client leaves the login screen by `LoginSuccess` alone and the
/// dashboard by `Logout` alone.
pub proof fn lemma_screen_changes_by_login_and_logout_only(app: KyefaAppView, message: Message)
    requires
        !(message is LoginSuccess),
        !(message is Logout),
    ensures
        app_step(app, message).0.state is Login <==> app.state is Login,
{
}

/// A successful login enters a fresh dashboard at the home view and
/// schedules the fetch of the roster.
pub proof fn lemma_login_success_enters_dashboard(app: KyefaAppView, user: UserResponse)
    requires
        user.has_valid_id(),
    ensures
        app_step(app, Message::LoginSuccess(user)).0.state == AppStateView::Dashboard(
            DashboardStateView::initial(user.profile()),
        ),
        app_step(app, Message::LoginSuccess(user)).1.contains(
            EffectView::Emit(
                Message::Dashboard(
                    DashboardMessage::StudentManager(StudentManagerMessage::FetchStudents),
                ),
            ),
        ),
{
    let effects = on_entering_dashboard();
    assert(effects[1] == EffectView::Emit(
        Message::Dashboard(DashboardMessage::StudentManager(StudentManagerMessage::FetchStudents)),
    ));
}

} // verus!
