//! What the screens list: which entries a search keeps, which modules the
//! menu offers, and the lines shown for a user and for a login error.

use vstd::prelude::*;
use vstd::string::*;

use crate::dashboard::dashboard_step;
use crate::dashboard::DashboardMessage;
use crate::dashboard::DashboardStateView;
use crate::dashboard::DashboardView;
use crate::error::LoginError;
use crate::error::LoginErrorView;
use crate::models::PaymentStatus;
use crate::models::PersonName;
use crate::models::PersonNameView;
use crate::models::Student;
use crate::models::StudentView;
use crate::models::TeachingPeriod;
use crate::models::UserProfile;
use crate::models::UserProfileView;
use crate::models::UserRole;
use crate::text::chars_of;

verus! {

/// A text in lower case, by the lower-case mapping of Unicode.
pub uninterp spec fn lowercased(text: Seq<char>) -> Seq<char>;

/// `str::to_lowercase` of the standard library. The result depends on the
/// characters of the text alone.
#[verifier::external_body]
fn lower_text(text: &str) -> (lower: String)
    ensures
        lower@ == lowercased(text@),
{
    text.to_lowercase()
}

/// Whether `part` occurs in `text` as a run of adjacent characters.
pub open spec fn has_part(text: Seq<char>, part: Seq<char>) -> bool {
    exists|i: int|
        0 <= i && i + part.len() <= text.len() && #[trigger] text.subrange(i, i + part.len())
            == part
}

/// Whether a search for `query` keeps an entry that shows `text`: an empty
/// query keeps every entry, any other query those in whose text it occurs,
/// whatever the case of the letters.
pub open spec fn search_keeps(text: Seq<char>, query: Seq<char>) -> bool {
    query.len() == 0 || has_part(lowercased(text), lowercased(query))
}

/// The first name and the surname with a space between them.
pub open spec fn full_name_text(name: PersonNameView) -> Seq<char> {
    name.first_name + " "@ + name.surname
}

/// Whether the payment list shows a student: the search keeps the full
/// name, and the payment status is the selected one where one is selected.
pub open spec fn student_listed(
    student: StudentView,
    query: Seq<char>,
    status: Option<PaymentStatus>,
) -> bool {
    search_keeps(full_name_text(student.name), query) && (status matches Some(selected)
        ==> student.payment_status == selected)
}

/// Whether the list of teaching periods shows a period: the query is empty
/// or occurs in the subject or in the class.
pub open spec fn period_listed(period: TeachingPeriod, query: Seq<char>) -> bool {
    query.len() == 0 || has_part(lowercased(period.subject@), lowercased(query)) || has_part(
        lowercased(period.class@),
        lowercased(query),
    )
}

/// Whether the list of users shows a user: the search keeps the full name
/// followed by a space and the username.
pub open spec fn user_listed(user: UserProfileView, query: Seq<char>) -> bool {
    search_keeps(full_name_text(user.name) + " "@ + user.username, query)
}

/// Whether `part` occurs in `text`.
pub fn contains_text(text: &str, part: &str) -> (found: bool)
    ensures
        found == has_part(text@, part@),
{
    let hay = chars_of(text);
    let needle = chars_of(part);
    let n: usize = hay.len();
    let m: usize = needle.len();
    if m > n {
        return false;
    }
    let mut i: usize = 0;
    while i <= n - m
        invariant
            hay@ == text@,
            needle@ == part@,
            n == hay.len(),
            m == needle.len(),
            m <= n,
            i <= n - m + 1,
            forall|k: int| 0 <= k < i ==> #[trigger] text@.subrange(k, k + m) != part@,
        decreases n - m + 1 - i,
    {
        let mut j: usize = 0;
        while j < m && hay[i + j] == needle[j]
            invariant
                hay@ == text@,
                needle@ == part@,
                n == hay.len(),
                m == needle.len(),
                i + m <= n,
                j <= m,
                forall|l: int| 0 <= l < j ==> text@[i + l] == part@[l],
            decreases m - j,
        {
            j += 1;
        }
        if j == m {
            proof {
                assert(text@.subrange(i as int, i + m) =~= part@);
            }
            return true;
        }
        proof {
            assert(text@.subrange(i as int, i + m)[j as int] == text@[i + j]);
        }
        i += 1;
    }
    false
}

/// Whether a search for `query` keeps an entry that shows `text`.
pub fn search_matches(text: &str, query: &str) -> (kept: bool)
    ensures
        kept == search_keeps(text@, query@),
{
    if query.is_empty() {
        true
    } else {
        contains_text(lower_text(text).as_str(), lower_text(query).as_str())
    }
}

/// The first name and the surname with a space between them.
pub fn full_name(name: &PersonName) -> (text: String)
    ensures
        text@ == full_name_text(name@),
{
    name.first_name.clone().concat(" ").concat(name.surname.as_str())
}

/// Whether the payment list shows the student under this search and this
/// selection of a payment status.
pub fn student_is_listed(student: &Student, query: &str, status: Option<PaymentStatus>) -> (listed:
    bool)
    ensures
        listed == student_listed(student@, query@, status),
{
    let by_search = search_matches(full_name(&student.name).as_str(), query);
    let by_status = match status {
        Some(selected) => student.payment_status == selected,
        None => true,
    };
    by_search && by_status
}

/// Whether the list of teaching periods shows the period under this
/// search.
pub fn period_is_listed(period: &TeachingPeriod, query: &str) -> (listed: bool)
    ensures
        listed == period_listed(*period, query@),
{
    if query.is_empty() {
        true
    } else {
        let wanted = lower_text(query);
        contains_text(lower_text(period.subject.as_str()).as_str(), wanted.as_str())
            || contains_text(lower_text(period.class.as_str()).as_str(), wanted.as_str())
    }
}

/// Whether the list of users shows the user under this search.
pub fn user_is_listed(user: &UserProfile, query: &str) -> (listed: bool)
    ensures
        listed == user_listed(user@, query@),
{
    let shown = full_name(&user.name).concat(" ").concat(user.username.as_str());
    search_matches(shown.as_str(), query)
}

/// The greeting of the home view.
pub fn welcome_line(user: &UserProfile) -> (line: String)
    ensures
        line@ == "Welcome, "@ + full_name_text(user@.name),
{
    String::from_str("Welcome, ").concat(full_name(&user.name).as_str())
}

/// The line that the login screen shows for an error.
pub open spec fn login_error_line_text(error: LoginErrorView) -> Seq<char> {
    match error {
        LoginErrorView::UserNotFound(m) => "User not found: "@ + m,
        LoginErrorView::InvalidCredentials(m) => "Invalid credentials: "@ + m,
        LoginErrorView::NetworkIssue(m) => "Network issue: "@ + m,
        LoginErrorView::ServerError(m) => "Server error: "@ + m,
    }
}

/// The line that the login screen shows for an error.
pub fn login_error_line(error: &LoginError) -> (line: String)
    ensures
        line@ == login_error_line_text(error@),
{
    match error {
        LoginError::UserNotFound(m) => String::from_str("User not found: ").concat(m.as_str()),
        LoginError::InvalidCredentials(m) => String::from_str("Invalid credentials: ").concat(
            m.as_str(),
        ),
        LoginError::NetworkIssue(m) => String::from_str("Network issue: ").concat(m.as_str()),
        LoginError::ServerError(m) => String::from_str("Server error: ").concat(m.as_str()),
    }
}

/// An entry of the dashboard's menu.
#[derive(Debug, Clone)]
pub struct MenuItem {
    pub label: &'static str,
    /// What choosing the entry says to the dashboard.
    pub message: DashboardMessage,
    /// The view that the entry stands for.
    pub view: DashboardView,
}

/// The label of a module in the menu.
pub open spec fn menu_label(view: DashboardView) -> Seq<char> {
    match view {
        DashboardView::Home => "Dashboard"@,
        DashboardView::StudentManager => "Student Management"@,
        DashboardView::TeachingPeriodManager => "Teaching Periods"@,
        DashboardView::PaymentTrackingManager => "Payment Tracking"@,
        DashboardView::ReportsAnalytics => "Reports & Analytics"@,
        DashboardView::UserAccessManager => "User Access"@,
    }
}

/// The message that asks to show a module.
pub open spec fn navigation_to(view: DashboardView) -> DashboardMessage {
    match view {
        DashboardView::Home => DashboardMessage::NavigateToHome,
        DashboardView::StudentManager => DashboardMessage::NavigateToStudentManager,
        DashboardView::TeachingPeriodManager => DashboardMessage::NavigateToTeachingPeriodManager,
        DashboardView::PaymentTrackingManager => DashboardMessage::NavigateToPaymentTracking,
        DashboardView::ReportsAnalytics => DashboardMessage::NavigateToReportsAnalytics,
        DashboardView::UserAccessManager => DashboardMessage::NavigateToUserAccessManager,
    }
}

/// The modules that the menu offers to a user of this role, in order: user
/// access is for administrators only.
pub open spec fn menu_views(role: UserRole) -> Seq<DashboardView> {
    let common = seq![
        DashboardView::Home,
        DashboardView::StudentManager,
        DashboardView::TeachingPeriodManager,
        DashboardView::PaymentTrackingManager,
        DashboardView::ReportsAnalytics,
    ];
    if role == UserRole::Admin {
        common.push(DashboardView::UserAccessManager)
    } else {
        common
    }
}

/// The menu entry of a module.
fn menu_item(view: DashboardView) -> (item: MenuItem)
    ensures
        item.view == view,
        item.label@ == menu_label(view),
        item.message == navigation_to(view),
{
    match view {
        DashboardView::Home => MenuItem {
            label: "Dashboard",
            message: DashboardMessage::NavigateToHome,
            view,
        },
        DashboardView::StudentManager => MenuItem {
            label: "Student Management",
            message: DashboardMessage::NavigateToStudentManager,
            view,
        },
        DashboardView::TeachingPeriodManager => MenuItem {
            label: "Teaching Periods",
            message: DashboardMessage::NavigateToTeachingPeriodManager,
            view,
        },
        DashboardView::PaymentTrackingManager => MenuItem {
            label: "Payment Tracking",
            message: DashboardMessage::NavigateToPaymentTracking,
            view,
        },
        DashboardView::ReportsAnalytics => MenuItem {
            label: "Reports & Analytics",
            message: DashboardMessage::NavigateToReportsAnalytics,
            view,
        },
        DashboardView::UserAccessManager => MenuItem {
            label: "User Access",
            message: DashboardMessage::NavigateToUserAccessManager,
            view,
        },
    }
}

/// The menu for a user of this role.
pub fn menu_items(role: UserRole) -> (items: Vec<MenuItem>)
    ensures
        items.len() == menu_views(role).len(),
        forall|i: int|
            0 <= i < items.len() ==> {
                &&& (#[trigger] items[i]).view == menu_views(role)[i]
                &&& items[i].label@ == menu_label(items[i].view)
                &&& items[i].message == navigation_to(items[i].view)
            },
{
    let mut items: Vec<MenuItem> = Vec::new();
    items.push(menu_item(DashboardView::Home));
    items.push(menu_item(DashboardView::StudentManager));
    items.push(menu_item(DashboardView::TeachingPeriodManager));
    items.push(menu_item(DashboardView::PaymentTrackingManager));
    items.push(menu_item(DashboardView::ReportsAnalytics));
    if role == UserRole::Admin {
        items.push(menu_item(DashboardView::UserAccessManager));
    }
    items
}

/// Choosing a menu entry shows the module that the entry stands for.
pub proof fn lemma_menu_entry_shows_its_view(d: DashboardStateView, view: DashboardView)
    ensures
        dashboard_step(d, navigation_to(view)).0.current_view == view,
{
}

/// An empty query keeps every entry.
pub proof fn lemma_empty_query_keeps_all(text: Seq<char>)
    ensures
        search_keeps(text, Seq::empty()),
{
}

} // verus!
