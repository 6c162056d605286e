//! Constants and handle tokens of the native tool interface, and the
//! decoding of its version number.

use crate::decimal::{decimal_text, render_signed};
use crate::response::VersionResponse;
use vstd::prelude::*;

verus! {

/// Status code with which the native interface reports success.
pub const JNI_OK: i32 = 0;

/// Interface version that the agent asks the host VM for.
pub const JVMTI_VERSION_21: i32 = 0x30150000;

/// Bits of a version number that hold the major version.
pub const JVMTI_VERSION_MASK_MAJOR: i32 = 0x0FFF0000;

/// Bits of a version number that hold the minor version.
pub const JVMTI_VERSION_MASK_MINOR: i32 = 0x0000FF00;

/// Bits of a version number that hold the micro version.
pub const JVMTI_VERSION_MASK_MICRO: i32 = 0x000000FF;

/// Position of the major version inside a version number.
pub const JVMTI_VERSION_SHIFT_MAJOR: i32 = 16;

/// Position of the minor version inside a version number.
pub const JVMTI_VERSION_SHIFT_MINOR: i32 = 8;

/// Position of the micro version inside a version number.
pub const JVMTI_VERSION_SHIFT_MICRO: i32 = 0;

/// Token of the environment handle that the host VM hands out on a
/// successful negotiation. The library carries it and never looks inside.
#[derive(Clone, Copy, Debug, PartialEq, Eq, Structural)]
pub struct EnvHandle {
    pub raw: usize,
}

/// Token of the handle that identifies the host VM. The library carries it
/// and never looks inside.
#[derive(Clone, Copy, Debug, PartialEq, Eq, Structural)]
pub struct VmHandle {
    pub raw: usize,
}

/// Message of a failed negotiation: a fixed text, then the status code that
/// the host VM reported, in decimal and with its sign.
pub open spec fn environment_error(status: i32) -> Seq<char> {
    "Unable to get environment: "@ + decimal_text(status as int)
}

/// Judges the outcome of the negotiation of an environment handle: `status`
/// is the code that the host VM returned and `env` the handle that it wrote.
/// The handle counts only where the code reports success; any other code
/// gives the message that names it.
pub fn get_jvmti_env(status: i32, env: EnvHandle) -> (outcome: Result<EnvHandle, String>)
    ensures
        match outcome {
            Ok(handle) => status == JNI_OK && handle == env,
            Err(message) => status != JNI_OK && message@ == environment_error(status),
        },
{
    if status == JNI_OK {
        Ok(env)
    } else {
        let digits = render_signed(status);
        let mut message = String::from_str("Unable to get environment: ");
        message.append(digits.as_str());
        Err(message)
    }
}

/// The 32 bits of a version number, read as an unsigned number.
pub open spec fn unsigned_code(version: i32) -> nat {
    if version >= 0 {
        version as nat
    } else {
        (version + 0x1_0000_0000) as nat
    }
}

/// Major version: bits 16 to 27 of a version number.
pub open spec fn major_of(bits: nat) -> nat {
    (bits / 0x1_0000) % 0x1000
}

/// Minor version: bits 8 to 15 of a version number.
pub open spec fn minor_of(bits: nat) -> nat {
    (bits / 0x100) % 0x100
}

/// Micro version: bits 0 to 7 of a version number.
pub open spec fn micro_of(bits: nat) -> nat {
    bits % 0x100
}

/// The components that a version number encodes.
pub open spec fn decoded(version: i32) -> VersionResponse {
    VersionResponse {
        jvmti_major: major_of(unsigned_code(version)) as i32,
        jvmti_minor: minor_of(unsigned_code(version)) as i32,
        jvmti_micro: micro_of(unsigned_code(version)) as i32,
    }
}

/// Splits a version number into its components with the masks and shifts
/// that the native interface defines.
pub fn decode_version(version: i32) -> (response: VersionResponse)
    ensures
        response == decoded(version),
        response.jvmti_major == major_of(unsigned_code(version)),
        response.jvmti_minor == minor_of(unsigned_code(version)),
        response.jvmti_micro == micro_of(unsigned_code(version)),
{
    let major: i32 = (version & JVMTI_VERSION_MASK_MAJOR) >> JVMTI_VERSION_SHIFT_MAJOR;
    let minor: i32 = (version & JVMTI_VERSION_MASK_MINOR) >> JVMTI_VERSION_SHIFT_MINOR;
    let micro: i32 = (version & JVMTI_VERSION_MASK_MICRO) >> JVMTI_VERSION_SHIFT_MICRO;
    proof {
        lemma_same_bits(version);
        let bits: u32 = version as u32;
        assert(major == (bits / 0x1_0000u32) % 0x1000u32) by (bit_vector)
            requires
                major == (version & 0x0FFF0000i32) >> 16i32,
                bits == version as u32,
        ;
        assert(minor == (bits / 0x100u32) % 0x100u32) by (bit_vector)
            requires
                minor == (version & 0x0000FF00i32) >> 8i32,
                bits == version as u32,
        ;
        assert(micro == bits % 0x100u32) by (bit_vector)
            requires
                micro == (version & 0x000000FFi32) >> 0i32,
                bits == version as u32,
        ;
    }
    VersionResponse { jvmti_major: major, jvmti_minor: minor, jvmti_micro: micro }
}

/// A version number put together from its components, after the layout that
/// the native interface defines, is decoded into those components again,
/// whatever stands in the four bits above them.
pub proof fn encoded_version_is_decoded(kind: nat, major: nat, minor: nat, micro: nat)
    requires
        kind < 8,
        major < 0x1000,
        minor < 0x100,
        micro < 0x100,
    ensures
        decoded((kind * 0x1000_0000 + major * 0x1_0000 + minor * 0x100 + micro) as i32) == (
        VersionResponse {
            jvmti_major: major as i32,
            jvmti_minor: minor as i32,
            jvmti_micro: micro as i32,
        }),
{
    let version = kind * 0x1000_0000 + major * 0x1_0000 + minor * 0x100 + micro;
    assert(version < 0x8000_0000);
    assert(unsigned_code(version as i32) == version);
    assert(version / 0x1_0000 == kind * 0x1000 + major);
    assert(version / 0x100 == kind * 0x10_0000 + major * 0x100 + minor);
}

/// Reading a signed number as unsigned keeps its 32 bits.
proof fn lemma_same_bits(version: i32)
    ensures
        version as u32 == unsigned_code(version),
{
    assert(version >= 0 ==> version as u32 == version) by (bit_vector);
    assert(version < 0 ==> version as u32 == version + 0x1_0000_0000) by (bit_vector);
}

} // verus!
