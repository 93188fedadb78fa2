//! The wintun driver, shipped with Windows builds: which member of its
//! archive holds the driver for a platform, and taking it out.

use crate::errors::PackError;
use crate::text::{eq_fold, eq_ignore_ascii_case};
use vstd::prelude::*;
use vstd::string::*;

verus! {

/// The driver archive, fetched for every Windows build.
pub const WINTUN_URL: &'static str = "https://www.wintun.net/builds/wintun-0.14.1.zip";

/// The archive's own file name in the working directory.
pub const WINTUN_ARCHIVE: &'static str = "wintun.zip";

/// The member that holds the driver's license.
pub const LICENSE_MEMBER: &'static str = "wintun/LICENSE.txt";

/// The file name that the extracted driver is written under.
pub const DLL_FILE: &'static str = "wintun.dll";

/// The file name that the extracted license is written under.
pub const LICENSE_FILE: &'static str = "LICENSE-wintun.txt";

/// The platforms that the driver archive holds a build for.
#[derive(Debug, Clone, Copy, PartialEq, Eq, Structural)]
pub enum WinPlatform {
    X86,
    Amd64,
    Arm,
    Arm64,
}

/// The platform of an architecture name, in any case; Go's `386` is `x86`.
pub open spec fn platform_of(arch: Seq<char>) -> Option<WinPlatform> {
    if eq_fold(arch, "x86"@) || eq_fold(arch, "386"@) {
        Some(WinPlatform::X86)
    } else if eq_fold(arch, "amd64"@) {
        Some(WinPlatform::Amd64)
    } else if eq_fold(arch, "arm"@) {
        Some(WinPlatform::Arm)
    } else if eq_fold(arch, "arm64"@) {
        Some(WinPlatform::Arm64)
    } else {
        None
    }
}

impl WinPlatform {
    /// The platform's directory name inside the driver archive.
    pub open spec fn name_spec(&self) -> Seq<char> {
        match self {
            WinPlatform::X86 => "x86"@,
            WinPlatform::Amd64 => "amd64"@,
            WinPlatform::Arm => "arm"@,
            WinPlatform::Arm64 => "arm64"@,
        }
    }

    /// The platform of an architecture name; `None` for one that the driver
    /// archive has no build for.
    pub fn parse(arch: &str) -> (r: Option<WinPlatform>)
        ensures
            r == platform_of(arch@),
    {
        if eq_ignore_ascii_case(arch, "x86") || eq_ignore_ascii_case(arch, "386") {
            Some(WinPlatform::X86)
        } else if eq_ignore_ascii_case(arch, "amd64") {
            Some(WinPlatform::Amd64)
        } else if eq_ignore_ascii_case(arch, "arm") {
            Some(WinPlatform::Arm)
        } else if eq_ignore_ascii_case(arch, "arm64") {
            Some(WinPlatform::Arm64)
        } else {
            None
        }
    }

    /// The platform's directory name inside the driver archive.
    pub fn name(&self) -> (r: &'static str)
        ensures
            r@ == self.name_spec(),
    {
        match self {
            WinPlatform::X86 => "x86",
            WinPlatform::Amd64 => "amd64",
            WinPlatform::Arm => "arm",
            WinPlatform::Arm64 => "arm64",
        }
    }
}

/// The archive member that holds the driver of a platform.
pub open spec fn dll_member_spec(platform: WinPlatform) -> Seq<char> {
    "wintun/bin/"@ + platform.name_spec() + "/wintun.dll"@
}

/// The archive member that holds the driver of a platform:
/// `wintun/bin/<platform>/wintun.dll`.
pub fn dll_member(platform: WinPlatform) -> (r: String)
    ensures
        r@ == dll_member_spec(platform),
{
    String::from_str("wintun/bin/").concat(platform.name()).concat("/wintun.dll")
}

/// The bytes of the named member of a zip archive; `None` when the archive
/// cannot be read or holds no such member.
pub uninterp spec fn zip_member(archive: Seq<u8>, name: Seq<char>) -> Option<Seq<u8>>;

/// Relies on `zip::ZipArchive::new`, `ZipArchive::by_name` and reading that
/// member to its end: the member's bytes, or the error met on the way.
#[verifier::external_body]
fn read_zip_member(archive: &[u8], name: &str) -> (r: Result<Vec<u8>, zip::result::ZipError>)
    ensures
        match zip_member(archive@, name@) {
            Some(bytes) => r is Ok && r->Ok_0@ == bytes,
            None => r is Err,
        },
{
    let mut zip = zip::ZipArchive::new(std::io::Cursor::new(archive))?;
    let mut member = zip.by_name(name)?;
    let mut bytes = Vec::new();
    std::io::Read::read_to_end(&mut member, &mut bytes)?;
    Ok(bytes)
}

/// The two files taken out of the driver archive.
#[derive(Debug)]
pub struct WintunFiles {
    /// The driver, to be written as `wintun.dll`.
    pub dll: Vec<u8>,
    /// Its license, to be written as `LICENSE-wintun.txt`.
    pub license: Vec<u8>,
}

/// Takes the platform's driver and the license out of the driver archive.
/// Fails with the zip error when either member cannot be had.
pub fn extract_wintun(platform: WinPlatform, archive: &[u8]) -> (r: Result<WintunFiles, PackError>)
    ensures
        match (zip_member(archive@, dll_member_spec(platform)), zip_member(archive@, LICENSE_MEMBER@)) {
            (Some(dll), Some(license)) => r is Ok && r->Ok_0.dll@ == dll && r->Ok_0.license@ == license,
            _ => r matches Err(PackError::ZipError(_)),
        },
{
    let member = dll_member(platform);
    let dll = match read_zip_member(archive, member.as_str()) {
        Ok(bytes) => bytes,
        Err(e) => return Err(PackError::ZipError(e)),
    };
    let license = match read_zip_member(archive, LICENSE_MEMBER) {
        Ok(bytes) => bytes,
        Err(e) => return Err(PackError::ZipError(e)),
    };
    Ok(WintunFiles { dll, license })
}

} // verus!
