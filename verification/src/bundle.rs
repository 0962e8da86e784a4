use vstd::prelude::*;
use vstd::string::StrSliceExecFns;

use crate::config::Config;
use crate::errors::BuildError;

verus! {

/// The steps of bundle assembly, in the order the caller performs them,
/// once every stage is resolved.
#[derive(PartialEq, Eq, Structural, Clone, Copy, Debug)]
pub enum AssembleStep {
    /// Create the bundle's executable and resource directories.
    EnsureBundleDirs,
    /// Copy the wrapper executable into the executable slot and set its
    /// executable permission.
    CopyWrapperExecutable,
    /// Mirror the backend's one-folder distribution into the resource area,
    /// deleting destination entries absent from the source.
    MirrorBackend,
    /// Mirror the frontend's asset tree into its fixed sub-path inside the
    /// mirrored backend resources, with the same mirror semantics.
    MirrorFrontend,
    /// Generate the application icon, best effort: any failure there is a
    /// warning, never fatal.
    BuildIcon,
    /// Write the bundle metadata file.
    WriteInfoPlist,
    /// Write the four-byte package type marker.
    WritePkgInfo,
    /// Touch the bundle so the platform notices icon changes.
    TouchBundle,
    /// Sign the bundle with the configured identity.
    Codesign,
}

/// Is the string nothing but ASCII whitespace (or empty)? The signing
/// identity is treated as unset exactly then.
pub open spec fn spec_is_blank(s: Seq<char>) -> bool {
    forall|i: int| 0 <= i < s.len() ==> (s[i] == ' ' || s[i] == '\t' || s[i] == '\n' || #[trigger]
    s[i] == '\r')
}

/// Does the string hold nothing but ASCII whitespace?
#[verifier::loop_isolation(false)]
pub fn is_blank(s: &String) -> (r: bool)
    ensures
        r == spec_is_blank(s@),
{
    let st = s.as_str();
    let n = st.unicode_len();
    let mut i: usize = 0;
    while i < n
        invariant
            i <= n,
            n == st@.len(),
            forall|k: int| 0 <= k < i ==> (st@[k] == ' ' || st@[k] == '\t' || st@[k] == '\n'
                || #[trigger] st@[k] == '\r'),
        decreases n - i,
    {
        let c = st.get_char(i);
        if !(c == ' ' || c == '\t' || c == '\n' || c == '\r') {
            return false;
        }
        i += 1;
    }
    true
}

/// The assembly steps of one run: the fixed layout work in its fixed
/// order, and a signing step exactly when a signing identity is set.
pub open spec fn spec_assemble_steps(cfg: Config) -> Seq<AssembleStep> {
    let base = seq![
        AssembleStep::EnsureBundleDirs,
        AssembleStep::CopyWrapperExecutable,
        AssembleStep::MirrorBackend,
        AssembleStep::MirrorFrontend,
        AssembleStep::BuildIcon,
        AssembleStep::WriteInfoPlist,
        AssembleStep::WritePkgInfo,
        AssembleStep::TouchBundle,
    ];
    if spec_is_blank(cfg.codesign_identity@) {
        base
    } else {
        base.push(AssembleStep::Codesign)
    }
}

/// What the assembler checks before it starts: the three artifacts it is
/// about to place.
pub struct AssembleObs {
    pub wrapper_bin_present: bool,
    pub backend_product_present: bool,
    pub webapp_dist_present: bool,
}

/// Plans bundle assembly. Every prerequisite artifact is checked first, in
/// the order the assembler would reach it, and the first one absent fails
/// the run with that artifact's stage — which also surfaces a skipped
/// stage that never produced output on any earlier run. With all artifacts
/// present the full step sequence is returned.
pub fn assemble_plan(cfg: &Config, obs: &AssembleObs) -> (r: Result<Vec<AssembleStep>, BuildError>)
    ensures
        !obs.wrapper_bin_present ==> (r matches Err(e) && e matches BuildError::MissingArtifact {
            stage,
        } && stage@ == "wrapper"@),
        obs.wrapper_bin_present && !obs.backend_product_present ==> (r matches Err(e)
            && e matches BuildError::MissingArtifact { stage } && stage@ == "backend"@),
        obs.wrapper_bin_present && obs.backend_product_present && !obs.webapp_dist_present ==> (
        r matches Err(e) && e matches BuildError::MissingArtifact { stage } && stage@
            == "frontend"@),
        obs.wrapper_bin_present && obs.backend_product_present && obs.webapp_dist_present ==> (
        r matches Ok(steps) && steps@ == spec_assemble_steps(*cfg)),
{
    if !obs.wrapper_bin_present {
        return Err(BuildError::MissingArtifact { stage: String::from_str("wrapper") });
    }
    if !obs.backend_product_present {
        return Err(BuildError::MissingArtifact { stage: String::from_str("backend") });
    }
    if !obs.webapp_dist_present {
        return Err(BuildError::MissingArtifact { stage: String::from_str("frontend") });
    }
    let mut steps: Vec<AssembleStep> = Vec::new();
    steps.push(AssembleStep::EnsureBundleDirs);
    steps.push(AssembleStep::CopyWrapperExecutable);
    steps.push(AssembleStep::MirrorBackend);
    steps.push(AssembleStep::MirrorFrontend);
    steps.push(AssembleStep::BuildIcon);
    steps.push(AssembleStep::WriteInfoPlist);
    steps.push(AssembleStep::WritePkgInfo);
    steps.push(AssembleStep::TouchBundle);
    if !is_blank(&cfg.codesign_identity) {
        steps.push(AssembleStep::Codesign);
    }
    proof {
        assert(steps@ =~= spec_assemble_steps(*cfg));
    }
    Ok(steps)
}

/// The icon-reference lines of the metadata file, present exactly when
/// icon generation reported success.
pub open spec fn spec_icon_key(has_icon: bool) -> Seq<char> {
    if has_icon {
        "  <key>CFBundleIconFile</key>\n  <string>appicon</string>\n"@
    } else {
        ""@
    }
}

/// The bundle metadata file: the fixed schema around the four configured
/// values — name, identifier, executable name, package type marker,
/// version and build number — with the icon reference exactly when an icon
/// was produced.
pub open spec fn spec_info_plist(
    app_name: Seq<char>,
    bundle_id: Seq<char>,
    app_version: Seq<char>,
    build_number: Seq<char>,
    has_icon: bool,
) -> Seq<char> {
    "<?xml version=\"1.0\" encoding=\"UTF-8\"?>\n<!DOCTYPE plist PUBLIC \"-//Apple//DTD PLIST 1.0//EN\" \"http://www.apple.com/DTDs/PropertyList-1.0.dtd\">\n<plist version=\"1.0\">\n<dict>\n  <key>CFBundleName</key>\n  <string>"@
        + app_name
        + "</string>\n  <key>CFBundleDisplayName</key>\n  <string>"@
        + app_name
        + "</string>\n  <key>CFBundleIdentifier</key>\n  <string>"@
        + bundle_id
        + "</string>\n  <key>CFBundleExecutable</key>\n  <string>"@
        + app_name
        + "</string>\n  <key>CFBundlePackageType</key>\n  <string>APPL</string>\n  <key>CFBundleShortVersionString</key>\n  <string>"@
        + app_version
        + "</string>\n  <key>CFBundleVersion</key>\n  <string>"@
        + build_number
        + "</string>\n"@
        + spec_icon_key(has_icon)
        + "\n  <key>NSPrincipalClass</key>\n  <string>NSApplication</string>\n  <key>NSHighResolutionCapable</key>\n  <true/>\n\n  <key>NSAppTransportSecurity</key>\n  <dict>\n    <key>NSAllowsLocalNetworking</key>\n    <true/>\n  </dict>\n</dict>\n</plist>\n"@
}

/// Produces the bundle metadata file's content.
pub fn info_plist_content(cfg: &Config, has_icon: bool) -> (r: String)
    ensures
        r@ == spec_info_plist(
            cfg.app_name@,
            cfg.bundle_id@,
            cfg.app_version@,
            cfg.build_number@,
            has_icon,
        ),
{
    let mut out = String::new();
    out.append(
        "<?xml version=\"1.0\" encoding=\"UTF-8\"?>\n<!DOCTYPE plist PUBLIC \"-//Apple//DTD PLIST 1.0//EN\" \"http://www.apple.com/DTDs/PropertyList-1.0.dtd\">\n<plist version=\"1.0\">\n<dict>\n  <key>CFBundleName</key>\n  <string>",
    );
    out.append(cfg.app_name.as_str());
    out.append("</string>\n  <key>CFBundleDisplayName</key>\n  <string>");
    out.append(cfg.app_name.as_str());
    out.append("</string>\n  <key>CFBundleIdentifier</key>\n  <string>");
    out.append(cfg.bundle_id.as_str());
    out.append("</string>\n  <key>CFBundleExecutable</key>\n  <string>");
    out.append(cfg.app_name.as_str());
    out.append(
        "</string>\n  <key>CFBundlePackageType</key>\n  <string>APPL</string>\n  <key>CFBundleShortVersionString</key>\n  <string>",
    );
    out.append(cfg.app_version.as_str());
    out.append("</string>\n  <key>CFBundleVersion</key>\n  <string>");
    out.append(cfg.build_number.as_str());
    out.append("</string>\n");
    if has_icon {
        out.append("  <key>CFBundleIconFile</key>\n  <string>appicon</string>\n");
    }
    out.append(
        "\n  <key>NSPrincipalClass</key>\n  <string>NSApplication</string>\n  <key>NSHighResolutionCapable</key>\n  <true/>\n\n  <key>NSAppTransportSecurity</key>\n  <dict>\n    <key>NSAllowsLocalNetworking</key>\n    <true/>\n  </dict>\n</dict>\n</plist>\n",
    );
    proof {
        reveal_strlit("");
        assert(out@ =~= spec_info_plist(
            cfg.app_name@,
            cfg.bundle_id@,
            cfg.app_version@,
            cfg.build_number@,
            has_icon,
        ));
    }
    out
}

/// The four-byte package type marker.
pub open spec fn spec_pkg_info() -> Seq<u8> {
    seq![65u8, 80u8, 80u8, 76u8, 63u8, 63u8, 63u8, 63u8]
}

/// Produces the package type marker file's content, the constant
/// "APPL????".
pub fn pkg_info_content() -> (r: Vec<u8>)
    ensures
        r@ == spec_pkg_info(),
{
    let mut out: Vec<u8> = Vec::new();
    out.push(65);
    out.push(80);
    out.push(80);
    out.push(76);
    out.push(63);
    out.push(63);
    out.push(63);
    out.push(63);
    proof {
        assert(out@ =~= spec_pkg_info());
    }
    out
}

/// What icon generation reads before it starts: whether the icon source
/// directory exists, which of the candidate source files are present (in
/// preference order), and whether the iconset compiler is installed.
pub struct IconObs {
    pub source_dir_present: bool,
    pub candidates_present: Vec<bool>,
    pub iconutil_found: bool,
}

/// One step of the icon pipeline.
#[derive(PartialEq, Eq, Structural, Clone, Copy, Debug)]
pub enum IconStep {
    /// Flatten the chosen candidate's alpha channel into the working copy.
    FlattenSource { candidate: usize },
    /// Remove and recreate the iconset working directory.
    ResetIconset,
    /// Render the working copy at one size into the iconset.
    ResizeIcon { size: u32 },
    /// Remove any stale compiled icon.
    RemoveIcnsFile,
    /// Compile the iconset into the bundle's icon file.
    ConvertIconset,
}

/// The candidate icon source files, in preference order.
pub fn icon_candidate_names() -> (r: Vec<&'static str>)
    ensures
        r@.len() == 3,
        r@[0]@ == "favicon-512.png"@,
        r@[1]@ == "apple-touch-icon.png"@,
        r@[2]@ == "favicon-256.png"@,
{
    let mut v: Vec<&'static str> = Vec::new();
    v.push("favicon-512.png");
    v.push("apple-touch-icon.png");
    v.push("favicon-256.png");
    v
}

/// The iconset entries: each rendered size with its file name.
pub fn icon_sizes() -> (r: Vec<(u32, &'static str)>)
    ensures
        r@.len() == 10,
        r@[0].0 == 16 && r@[0].1@ == "icon_16x16.png"@,
        r@[1].0 == 32 && r@[1].1@ == "icon_16x16@2x.png"@,
        r@[2].0 == 32 && r@[2].1@ == "icon_32x32.png"@,
        r@[3].0 == 64 && r@[3].1@ == "icon_32x32@2x.png"@,
        r@[4].0 == 128 && r@[4].1@ == "icon_128x128.png"@,
        r@[5].0 == 256 && r@[5].1@ == "icon_128x128@2x.png"@,
        r@[6].0 == 256 && r@[6].1@ == "icon_256x256.png"@,
        r@[7].0 == 512 && r@[7].1@ == "icon_256x256@2x.png"@,
        r@[8].0 == 512 && r@[8].1@ == "icon_512x512.png"@,
        r@[9].0 == 1024 && r@[9].1@ == "icon_512x512@2x.png"@,
{
    let mut v: Vec<(u32, &'static str)> = Vec::new();
    v.push((16, "icon_16x16.png"));
    v.push((32, "icon_16x16@2x.png"));
    v.push((32, "icon_32x32.png"));
    v.push((64, "icon_32x32@2x.png"));
    v.push((128, "icon_128x128.png"));
    v.push((256, "icon_128x128@2x.png"));
    v.push((256, "icon_256x256.png"));
    v.push((512, "icon_256x256@2x.png"));
    v.push((512, "icon_512x512.png"));
    v.push((1024, "icon_512x512@2x.png"));
    v
}

/// The first present candidate, in preference order.
pub fn pick_icon_source(present: &Vec<bool>) -> (r: Option<usize>)
    ensures
        match r {
            Some(i) => i < present@.len() && present@[i as int] && forall|k: int|
                0 <= k < i ==> !present@[k],
            None => forall|k: int| 0 <= k < present@.len() ==> !present@[k],
        },
{
    crate::pipeline::first_present(present)
}

/// The icon pipeline's steps once a source candidate is chosen: flatten
/// the candidate, rebuild the iconset at every size, drop any stale
/// compiled icon, and compile the set when the compiler is installed.
pub open spec fn spec_icon_steps(candidate: int, iconutil_found: bool) -> Seq<IconStep> {
    let base = seq![
        IconStep::FlattenSource { candidate: candidate as usize },
        IconStep::ResetIconset,
        IconStep::ResizeIcon { size: 16 },
        IconStep::ResizeIcon { size: 32 },
        IconStep::ResizeIcon { size: 32 },
        IconStep::ResizeIcon { size: 64 },
        IconStep::ResizeIcon { size: 128 },
        IconStep::ResizeIcon { size: 256 },
        IconStep::ResizeIcon { size: 256 },
        IconStep::ResizeIcon { size: 512 },
        IconStep::ResizeIcon { size: 512 },
        IconStep::ResizeIcon { size: 1024 },
        IconStep::RemoveIcnsFile,
    ];
    if iconutil_found {
        base.push(IconStep::ConvertIconset)
    } else {
        base
    }
}

/// Plans icon generation: nothing to do (a warning, never fatal) when the
/// source directory or every candidate is missing, else the pipeline for
/// the first present candidate.
pub fn build_app_icon(obs: &IconObs) -> (r: Option<Vec<IconStep>>)
    ensures
        match r {
            None => !obs.source_dir_present || forall|k: int|
                0 <= k < obs.candidates_present@.len() ==> !obs.candidates_present@[k],
            Some(steps) => {
                &&& obs.source_dir_present
                &&& exists|i: int|
                    {
                        &&& 0 <= i < obs.candidates_present@.len()
                        &&& obs.candidates_present@[i]
                        &&& (forall|k: int| 0 <= k < i ==> !obs.candidates_present@[k])
                        &&& steps@ == spec_icon_steps(i, obs.iconutil_found)
                    }
            },
        },
{
    if !obs.source_dir_present {
        return None;
    }
    let candidate = match pick_icon_source(&obs.candidates_present) {
        None => {
            return None;
        },
        Some(i) => i,
    };
    let mut steps: Vec<IconStep> = Vec::new();
    steps.push(IconStep::FlattenSource { candidate });
    steps.push(IconStep::ResetIconset);
    let sizes = icon_sizes();
    steps.push(IconStep::ResizeIcon { size: sizes[0].0 });
    steps.push(IconStep::ResizeIcon { size: sizes[1].0 });
    steps.push(IconStep::ResizeIcon { size: sizes[2].0 });
    steps.push(IconStep::ResizeIcon { size: sizes[3].0 });
    steps.push(IconStep::ResizeIcon { size: sizes[4].0 });
    steps.push(IconStep::ResizeIcon { size: sizes[5].0 });
    steps.push(IconStep::ResizeIcon { size: sizes[6].0 });
    steps.push(IconStep::ResizeIcon { size: sizes[7].0 });
    steps.push(IconStep::ResizeIcon { size: sizes[8].0 });
    steps.push(IconStep::ResizeIcon { size: sizes[9].0 });
    steps.push(IconStep::RemoveIcnsFile);
    if obs.iconutil_found {
        steps.push(IconStep::ConvertIconset);
    }
    proof {
        assert(steps@ =~= spec_icon_steps(candidate as int, obs.iconutil_found));
    }
    Some(steps)
}

/// After the iconset compiler ran (or was absent): the fallback conversion
/// is attempted exactly when no non-empty compiled icon exists yet.
pub fn icon_fallback_needed(icns_len: Option<u64>) -> (r: bool)
    ensures
        r == !(icns_len matches Some(l) && l > 0),
{
    match icns_len {
        Some(l) => l == 0,
        None => true,
    }
}

/// Whether icon generation succeeded: a non-empty compiled icon exists.
/// The metadata file references the icon exactly when this holds.
pub fn icon_result(icns_len: Option<u64>) -> (r: bool)
    ensures
        r == (icns_len matches Some(l) && l > 0),
{
    match icns_len {
        Some(l) => l > 0,
        None => false,
    }
}

} // verus!
