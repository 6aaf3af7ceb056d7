//! The command surface: each named action is one call to one route of the
//! worker.
use vstd::prelude::*;

use crate::bridge::{plan_for, plans, Method, RequestPlan};

verus! {

broadcast use vstd::string::group_string_axioms;

/// An action that the application asks of the worker.
#[derive(Clone, Debug)]
pub enum Action {
    TodayState,
    /// The summary of a day, given as the worker writes dates.
    DaySummary(String),
    GenerateReflection,
    PassportData,
    Profile,
    UpdateSettings,
    UpdateProfile,
    SaveProfile,
    SyncDeviceId,
    ResetAccount,
    DeleteAccount,
    Logout,
    SaveReflection,
    DeviceId,
    ReflectionHistory,
}

/// The method and path of the route that serves an action.
pub open spec fn spec_endpoint(a: Action) -> (Method, Seq<char>) {
    match a {
        Action::TodayState => (Method::Get, "/today_state"@),
        Action::DaySummary(date) => (Method::Get, "/day_summary?date="@ + date@),
        Action::GenerateReflection => (Method::Post, "/generate_reflection"@),
        Action::PassportData => (Method::Get, "/api/passport"@),
        Action::Profile => (Method::Get, "/api/get_profile"@),
        Action::UpdateSettings => (Method::Post, "/api/update_settings"@),
        Action::UpdateProfile => (Method::Post, "/api/update_profile"@),
        Action::SaveProfile => (Method::Post, "/api/save_profile"@),
        Action::SyncDeviceId => (Method::Post, "/api/sync_device_id"@),
        Action::ResetAccount => (Method::Post, "/api/reset_account"@),
        Action::DeleteAccount => (Method::Delete, "/api/delete_account"@),
        Action::Logout => (Method::Post, "/api/logout"@),
        Action::SaveReflection => (Method::Post, "/api/save_reflection"@),
        Action::DeviceId => (Method::Get, "/api/get_device_id"@),
        Action::ReflectionHistory => (Method::Get, "/api/reflection_history"@),
    }
}

impl Action {
    /// The method and path of the route that serves this action.
    pub fn endpoint(&self) -> (r: (Method, String))
        ensures
            r.0 == spec_endpoint(*self).0,
            r.1@ == spec_endpoint(*self).1,
    {
        match self {
            Action::TodayState => (Method::Get, String::from_str("/today_state")),
            Action::DaySummary(date) => {
                let mut path = String::from_str("/day_summary?date=");
                path.append(date.as_str());
                (Method::Get, path)
            },
            Action::GenerateReflection => (Method::Post, String::from_str("/generate_reflection")),
            Action::PassportData => (Method::Get, String::from_str("/api/passport")),
            Action::Profile => (Method::Get, String::from_str("/api/get_profile")),
            Action::UpdateSettings => (Method::Post, String::from_str("/api/update_settings")),
            Action::UpdateProfile => (Method::Post, String::from_str("/api/update_profile")),
            Action::SaveProfile => (Method::Post, String::from_str("/api/save_profile")),
            Action::SyncDeviceId => (Method::Post, String::from_str("/api/sync_device_id")),
            Action::ResetAccount => (Method::Post, String::from_str("/api/reset_account")),
            Action::DeleteAccount => (Method::Delete, String::from_str("/api/delete_account")),
            Action::Logout => (Method::Post, String::from_str("/api/logout")),
            Action::SaveReflection => (Method::Post, String::from_str("/api/save_reflection")),
            Action::DeviceId => (Method::Get, String::from_str("/api/get_device_id")),
            Action::ReflectionHistory => (
                Method::Get,
                String::from_str("/api/reflection_history"),
            ),
        }
    }

    /// The call that performs this action, with the payload given.
    pub fn plan(&self, body: Option<serde_json::Value>) -> (r: RequestPlan)
        ensures
            plans(r, spec_endpoint(*self).0, spec_endpoint(*self).1, body),
    {
        let (m, path) = self.endpoint();
        plan_for(m, path.as_str(), body)
    }
}

} // verus!
