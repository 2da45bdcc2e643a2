//! Fast files: the header a fast file starts with, what it says of the
//! file, and the error a loader raises for it.

use vstd::prelude::*;
use crate::com::{error_parm_name, errorln, ErrorParm};
use crate::text::{concat, decimal_usize, usize_to_string};

verus! {

/// The magic number of a fast file that is signed.
pub const FASTFILE_HEADER_MAGIC_U: u64 = 0x4957_6666_7531_3030u64;

/// The magic number of a fast file that is not signed.
pub const FASTFILE_HEADER_MAGIC_0: u64 = 0x4957_6666_3031_3030u64;

/// The version of fast file this loader reads.
pub const FASTFILE_EXPECTED_VERSION: u32 = 0x0000_01D9u32;

/// What the header of a fast file says of it.
#[derive(Copy, Clone, Debug, PartialEq, Eq, Structural)]
pub enum FastfileHeader {
    /// The magic number is neither of the two known ones.
    Corrupt,
    /// The version is older than the loader's.
    OutOfDate,
    /// The version is newer than the loader's.
    Newer,
    /// An unsigned file of the right version: the loader reads signed files
    /// only.
    Unauthenticated,
    /// A signed file of the right version.
    Secure,
}

/// What a header with `magic` and `version` says: the magic number is
/// checked first, then the version, then whether the file is signed.
pub open spec fn header_verdict(magic: u64, version: u32) -> FastfileHeader {
    if magic != FASTFILE_HEADER_MAGIC_U && magic != FASTFILE_HEADER_MAGIC_0 {
        FastfileHeader::Corrupt
    } else if version < FASTFILE_EXPECTED_VERSION {
        FastfileHeader::OutOfDate
    } else if version > FASTFILE_EXPECTED_VERSION {
        FastfileHeader::Newer
    } else if magic == FASTFILE_HEADER_MAGIC_U {
        FastfileHeader::Secure
    } else {
        FastfileHeader::Unauthenticated
    }
}

/// Reads what a header with `magic` and `version` says.
pub fn check_fastfile_header(magic: u64, version: u32) -> (r: FastfileHeader)
    ensures
        r == header_verdict(magic, version),
{
    if magic != FASTFILE_HEADER_MAGIC_U && magic != FASTFILE_HEADER_MAGIC_0 {
        FastfileHeader::Corrupt
    } else if version != FASTFILE_EXPECTED_VERSION {
        if version < FASTFILE_EXPECTED_VERSION {
            FastfileHeader::OutOfDate
        } else {
            FastfileHeader::Newer
        }
    } else if magic == FASTFILE_HEADER_MAGIC_U {
        FastfileHeader::Secure
    } else {
        FastfileHeader::Unauthenticated
    }
}

/// The text "(version V, expecting E)" of a version mismatch.
pub open spec fn version_text(version: u32) -> Seq<char> {
    "(version "@ + decimal_usize(version as usize) + ", expecting "@
        + decimal_usize(FASTFILE_EXPECTED_VERSION as usize) + ")"@
}

/// The message for zone `zone` whose header says `h`, with `version` the
/// version it read; none for a signed file of the right version.
pub open spec fn header_message(zone: Seq<char>, version: u32, h: FastfileHeader) -> Option<Seq<char>> {
    let head = "Fastfile for zone '"@ + zone;
    match h {
        FastfileHeader::Corrupt => Some(head + "' is corrupt or unreadable."@),
        FastfileHeader::OutOfDate => Some(head + "' is out of date "@ + version_text(version)),
        FastfileHeader::Newer => Some(head + "' is newer than client executable "@ + version_text(version)),
        FastfileHeader::Unauthenticated => Some(
            head + "' could not be loaded (authenticated file not supported)"@,
        ),
        FastfileHeader::Secure => None,
    }
}

/// The text of `version_text`.
fn version_mismatch_text(version: u32) -> (r: String)
    ensures
        r@ == version_text(version),
{
    let a = concat("(version ", usize_to_string(version as usize).as_str());
    let b = concat(a.as_str(), ", expecting ");
    let c = concat(b.as_str(), usize_to_string(FASTFILE_EXPECTED_VERSION as usize).as_str());
    concat(c.as_str(), ")")
}

/// The error a loader of zone `zone` raises for a header with `magic` and
/// `version`, as the dropping error of `com::errorln`; none where the file
/// is signed and of the right version.
pub fn fastfile_header_error(zone: &str, magic: u64, version: u32) -> (r: Option<String>)
    ensures
        match header_message(zone@, version, header_verdict(magic, version)) {
            Some(m) => r matches Some(s) && s@ == (m + "\n"@) + " ("@ + error_parm_name(ErrorParm::DROP) + ")"@,
            None => r is None,
        },
{
    let head = concat("Fastfile for zone '", zone);
    let message = match check_fastfile_header(magic, version) {
        FastfileHeader::Corrupt => concat(head.as_str(), "' is corrupt or unreadable."),
        FastfileHeader::OutOfDate => {
            let a = concat(head.as_str(), "' is out of date ");
            concat(a.as_str(), version_mismatch_text(version).as_str())
        },
        FastfileHeader::Newer => {
            let a = concat(head.as_str(), "' is newer than client executable ");
            concat(a.as_str(), version_mismatch_text(version).as_str())
        },
        FastfileHeader::Unauthenticated => concat(
            head.as_str(),
            "' could not be loaded (authenticated file not supported)",
        ),
        FastfileHeader::Secure => {
            return None;
        },
    };
    Some(errorln(ErrorParm::DROP, message.as_str()))
}

} // verus!
