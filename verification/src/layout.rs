use vstd::prelude::*;

verus! {

/// The stamps of the private cache, one per cacheable stage.
#[derive(PartialEq, Eq, Structural, Clone, Copy, Debug)]
pub enum StampId {
    WebappDeps,
    WebappBuild,
    BackendDeps,
    BackendBuild,
    SwiftBuild,
}

/// Side files written next to the stamps.
#[derive(PartialEq, Eq, Structural, Clone, Copy, Debug)]
pub enum SideFileId {
    /// The recorded frontend build environment.
    WebappBuildEnv,
}

/// Where each stamp lives, relative to the repository root.
pub fn stamp_rel_path(id: StampId) -> (r: &'static str)
    ensures
        id == StampId::WebappDeps ==> r@ == ".mac_build/stamps/webapp_deps.stamp"@,
        id == StampId::WebappBuild ==> r@ == ".mac_build/stamps/webapp_build.stamp"@,
        id == StampId::BackendDeps ==> r@ == ".mac_build/stamps/backend_deps.stamp"@,
        id == StampId::BackendBuild ==> r@ == ".mac_build/stamps/backend_build.stamp"@,
        id == StampId::SwiftBuild ==> r@ == ".mac_build/stamps/swift_build.stamp"@,
{
    match id {
        StampId::WebappDeps => ".mac_build/stamps/webapp_deps.stamp",
        StampId::WebappBuild => ".mac_build/stamps/webapp_build.stamp",
        StampId::BackendDeps => ".mac_build/stamps/backend_deps.stamp",
        StampId::BackendBuild => ".mac_build/stamps/backend_build.stamp",
        StampId::SwiftBuild => ".mac_build/stamps/swift_build.stamp",
    }
}

/// Where each side file lives, relative to the repository root.
pub fn side_file_rel_path(id: SideFileId) -> (r: &'static str)
    ensures
        r@ == ".mac_build/stamps/webapp_build.env"@,
{
    match id {
        SideFileId::WebappBuildEnv => ".mac_build/stamps/webapp_build.env",
    }
}

/// The content recorded in each side file.
pub open spec fn spec_side_file_content(id: SideFileId) -> Seq<char> {
    "VITE_API_MODE=real\nVITE_API_BASE_URL=\n"@
}

/// Produces the content recorded in a side file; the frontend build
/// environment names the API mode and base URL the build bakes in.
pub fn side_file_content(id: SideFileId) -> (r: String)
    ensures
        r@ == spec_side_file_content(id),
{
    match id {
        SideFileId::WebappBuildEnv => String::from_str("VITE_API_MODE=real\nVITE_API_BASE_URL=\n"),
    }
}

} // verus!
