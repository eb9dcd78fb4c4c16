use vstd::prelude::*;

verus! {

/// The application's identity.
#[derive(Debug, Clone, PartialEq, Eq)]
pub struct AppInfo {
    pub name: String,
    pub version: String,
}

/// An [`AppInfo`] as a mathematical value.
pub struct AppInfoView {
    pub name: Seq<char>,
    pub version: Seq<char>,
}

impl View for AppInfo {
    type V = AppInfoView;

    open spec fn view(&self) -> AppInfoView {
        AppInfoView { name: self.name@, version: self.version@ }
    }
}

/// The name and version of this build. Both are fixed when the crate is
/// compiled.
pub open spec fn app_info() -> AppInfoView {
    AppInfoView { name: "Quill"@, version: "0.1.0"@ }
}

/// Returns [`app_info`]. It reads nothing and cannot fail, so every call
/// gives the same value.
pub fn get_app_info() -> (info: AppInfo)
    ensures
        info@ == app_info(),
{
    AppInfo { name: "Quill".to_string(), version: "0.1.0".to_string() }
}

} // verus!
