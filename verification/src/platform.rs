use vstd::prelude::*;

verus! {

/// What the build bakes into the binary and the host shell hands to the
/// supervisor: whether the target platform is Windows, and the bundler's
/// target-triple identifier when the build provides one.
pub struct BuildInfo {
    pub windows: bool,
    pub target_triple: Option<String>,
}

pub ghost struct BuildModel {
    pub windows: bool,
    pub target_triple: Option<Seq<char>>,
}

impl View for BuildInfo {
    type V = BuildModel;

    open spec fn view(&self) -> BuildModel {
        BuildModel {
            windows: self.windows,
            target_triple: match self.target_triple {
                Some(t) => Some(t@),
                None => None,
            },
        }
    }
}

/// The executable filename suffix of the target platform.
pub open spec fn suffix_spec(windows: bool) -> Seq<char> {
    if windows {
        ".exe"@
    } else {
        ""@
    }
}

/// The executable filename suffix for this build's target platform: `".exe"`
/// on Windows, empty elsewhere.
pub fn exe_suffix(info: &BuildInfo) -> (r: &'static str)
    ensures
        r@ == suffix_spec(info.windows),
{
    if info.windows {
        ".exe"
    } else {
        ""
    }
}

/// The target-triple identifier the bundler qualifies sidecar names with in
/// bundle builds, absent in unbundled ones.
pub fn tauri_target_triple(info: &BuildInfo) -> (r: &Option<String>)
    ensures
        *r == info.target_triple,
{
    &info.target_triple
}

} // verus!
