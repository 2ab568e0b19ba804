//! Decisions backing the platform-specific helpers: assembling the host's
//! build number from raw system-configuration values, and choosing which
//! executable permission bits apply to a file. Reading the system
//! configuration or file metadata is the embedding program's job; the values
//! arrive here as plain data.
use vstd::prelude::*;

use crate::errors::Error;
use crate::version::digits_value;
use crate::version::field_ok;
use crate::version::parse_u32;
use crate::version::WindowsBuild;

verus! {

/// The executable permission bits (read + execute) before shifting into the
/// owner, group or other position.
pub const EXECUTABLE_BITS: u32 = 0o5;

/// The raw version values of the host, as read from its system
/// configuration: three numeric parts and the build number, which the
/// configuration stores as text.
pub struct HostVersionInfo {
    pub major: u32,
    pub minor: u32,
    pub build: String,
    pub revision: u32,
}

/// The build number of the host machine, assembled from raw
/// system-configuration values. Fails exactly when the textual build part is
/// not an unsigned decimal numeral.
pub fn build_number(info: &HostVersionInfo) -> (r: Result<WindowsBuild, Error>)
    ensures
        r is Ok <==> field_ok(info.build@),
        r matches Ok(b) ==> b == (WindowsBuild {
            major: info.major,
            minor: info.minor,
            build: digits_value(info.build@) as u32,
            revision: info.revision,
        }),
        r matches Err(e) ==> e is VersionParseFailure,
{
    match parse_u32(info.build.as_str()) {
        Ok(build) => Ok(
            WindowsBuild {
                major: info.major,
                minor: info.minor,
                build,
                revision: info.revision,
            },
        ),
        Err(e) => Err(e),
    }
}

/// The executable mode bits to grant on a file owned by `file_uid:file_gid`
/// when the current process runs as `uid:gid`: owner bits when the process
/// owns the file, group bits when it shares the file's group, and the bits
/// for everyone else otherwise.
pub fn executable_mode_for(file_uid: u32, file_gid: u32, uid: u32, gid: u32) -> (r: u32)
    ensures
        file_uid == uid ==> r == EXECUTABLE_BITS << 6u32,
        file_uid != uid && file_gid == gid ==> r == EXECUTABLE_BITS << 3u32,
        file_uid != uid && file_gid != gid ==> r == EXECUTABLE_BITS,
{
    if file_uid == uid {
        EXECUTABLE_BITS << 6u32
    } else if file_gid == gid {
        EXECUTABLE_BITS << 3u32
    } else {
        EXECUTABLE_BITS
    }
}

} // verus!
