//! What a run is asked to build: the project variant, the paths, the Go
//! target and the region of the geo data.

use vstd::prelude::*;
use vstd::string::*;

verus! {

pub const XRAY_CORE_REPO: &'static str = "https://github.com/XTLS/Xray-core.git";

pub const V2RAY_CORE_REPO: &'static str = "https://github.com/v2fly/v2ray-core.git";

pub const CHINA_MAINLAND_URL: &'static str =
    "https://raw.githubusercontent.com/Loyalsoldier/v2ray-rules-dat/release/";

pub const RUSSIA_URL: &'static str =
    "https://raw.githubusercontent.com/runetfreedom/russia-v2ray-rules-dat/release/";

pub const IRAN_URL: &'static str = "https://raw.githubusercontent.com/Chocolate4U/Iran-v2ray-rules/release/";

/// Everything a run is configured with.
#[derive(Debug)]
pub struct Args {
    pub path_options: PathOptions,
    /// To build xray or v2ray.
    pub target: CompileTarget,
    pub go_target: GoTarget,
    pub download_options: DownloadOptions,
    pub verbose: bool,
}

/// The project variant to build, with its compiler options and the version
/// (tag, branch or commit) to check out.
#[derive(Debug)]
pub enum CompileTarget {
    Xray { compile_options: XrayCompileOptions, xray_version: String },
    V2ray { compile_options: XrayCompileOptions, v2ray_version: String },
}

impl CompileTarget {
    /// The repository that the variant is cloned from.
    pub open spec fn repo_url_spec(&self) -> Seq<char> {
        match self {
            CompileTarget::Xray { .. } => XRAY_CORE_REPO@,
            CompileTarget::V2ray { .. } => V2RAY_CORE_REPO@,
        }
    }

    /// The requested version reference.
    pub open spec fn version_spec(&self) -> Seq<char> {
        match self {
            CompileTarget::Xray { xray_version, .. } => xray_version@,
            CompileTarget::V2ray { v2ray_version, .. } => v2ray_version@,
        }
    }

    /// The options handed to the compiler.
    pub open spec fn options_spec(&self) -> XrayCompileOptions {
        match self {
            CompileTarget::Xray { compile_options, .. } => *compile_options,
            CompileTarget::V2ray { compile_options, .. } => *compile_options,
        }
    }

    /// The short project name: the binary's base name and the archive's prefix.
    pub open spec fn project_spec(&self) -> Seq<char> {
        match self {
            CompileTarget::Xray { .. } => "xray"@,
            CompileTarget::V2ray { .. } => "v2ray"@,
        }
    }

    /// The display name of the variant.
    pub open spec fn name_spec(&self) -> Seq<char> {
        match self {
            CompileTarget::Xray { .. } => "Xray-core"@,
            CompileTarget::V2ray { .. } => "v2ray-core"@,
        }
    }

    pub fn repo_url(&self) -> (r: &'static str)
        ensures
            r@ == self.repo_url_spec(),
    {
        match self {
            CompileTarget::Xray { .. } => XRAY_CORE_REPO,
            CompileTarget::V2ray { .. } => V2RAY_CORE_REPO,
        }
    }

    pub fn repo_version(&self) -> (r: String)
        ensures
            r@ == self.version_spec(),
    {
        match self {
            CompileTarget::V2ray { compile_options: _, v2ray_version } => v2ray_version.clone(),
            CompileTarget::Xray { compile_options: _, xray_version } => xray_version.clone(),
        }
    }

    pub fn compile_options(&self) -> (r: &XrayCompileOptions)
        ensures
            *r == self.options_spec(),
    {
        match self {
            CompileTarget::Xray { compile_options, .. } => compile_options,
            CompileTarget::V2ray { compile_options, .. } => compile_options,
        }
    }

    pub fn project(&self) -> (r: &'static str)
        ensures
            r@ == self.project_spec(),
    {
        match self {
            CompileTarget::Xray { .. } => "xray",
            CompileTarget::V2ray { .. } => "v2ray",
        }
    }

    /// The display name, `Xray-core` or `v2ray-core`.
    pub fn name(&self) -> (r: String)
        ensures
            r@ == self.name_spec(),
    {
        match self {
            CompileTarget::Xray { .. } => String::from_str("Xray-core"),
            CompileTarget::V2ray { .. } => String::from_str("v2ray-core"),
        }
    }
}

/// Where the sources come from and where the archive goes.
#[derive(Debug)]
pub struct PathOptions {
    /// Clone a fresh copy of the repository instead of opening `source_path`.
    pub from_source: bool,
    pub source_path: String,
    pub output_path: String,
}

/// Compiler options of the Xray-core build.
#[derive(Debug)]
pub struct XrayCompileOptions {
    pub gcflags: String,
    pub ldflags: Option<String>,
}

/// Compiler options of the v2ray-core build.
#[derive(Debug)]
pub struct V2rayCompileOptions {
    pub gcflags: String,
    pub ldflags: Option<String>,
}

/// The operating system and architecture handed to the Go compiler.
#[derive(Debug)]
pub struct GoTarget {
    pub goos: String,
    pub goarch: String,
}

#[derive(Debug)]
pub struct DownloadOptions {
    pub region: Region,
}

/// Three main restricted regions.
#[derive(Debug, Clone, Copy, PartialEq, Eq, Structural)]
pub enum Region {
    ChinaMainland,
    Russia,
    Iran,
}

impl Region {
    /// The base URL of the region's geo data.
    pub open spec fn url_spec(&self) -> Seq<char> {
        match self {
            Region::ChinaMainland => CHINA_MAINLAND_URL@,
            Region::Russia => RUSSIA_URL@,
            Region::Iran => IRAN_URL@,
        }
    }

    /// Returns the URL for downloading the geoip and geodat files for the region.
    /// Add `geoip.dat` and `geosite.dat` to the URL for downloading.
    pub fn url(&self) -> (r: &'static str)
        ensures
            r@ == self.url_spec(),
    {
        match self {
            Region::ChinaMainland => CHINA_MAINLAND_URL,
            Region::Russia => RUSSIA_URL,
            Region::Iran => IRAN_URL,
        }
    }
}

} // verus!
