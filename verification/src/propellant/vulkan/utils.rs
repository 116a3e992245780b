//! Text helpers for Vulkan names and versions.
use vstd::prelude::*;
use vstd::string::StringExecFns;
use vstd::utf8::{decode_utf8, valid_utf8};

use crate::propellant::vulkan::vk;

verus! {

/// The character of a decimal digit.
pub open spec fn digit_char(d: nat) -> char {
    (d + 48) as char
}

/// Decimal writing of `n`, without leading zeros.
pub open spec fn decimal(n: nat) -> Seq<char>
    decreases n,
{
    if n < 10 {
        seq![digit_char(n)]
    } else {
        decimal(n / 10).push(digit_char(n % 10))
    }
}

/// The one-character text of a decimal digit.
fn digit_str(d: u32) -> (text: &'static str)
    requires
        d < 10,
    ensures
        text@ == seq![digit_char(d as nat)],
{
    proof {
        reveal_strlit("0");
        reveal_strlit("1");
        reveal_strlit("2");
        reveal_strlit("3");
        reveal_strlit("4");
        reveal_strlit("5");
        reveal_strlit("6");
        reveal_strlit("7");
        reveal_strlit("8");
        reveal_strlit("9");
    }
    match d {
        0 => "0",
        1 => "1",
        2 => "2",
        3 => "3",
        4 => "4",
        5 => "5",
        6 => "6",
        7 => "7",
        8 => "8",
        _ => "9",
    }
}

/// Appends the decimal writing of `n`.
fn append_decimal(out: &mut String, n: u32)
    ensures
        final(out)@ == old(out)@ + decimal(n as nat),
    decreases n,
{
    if n >= 10 {
        append_decimal(out, n / 10);
    }
    out.append(digit_str(n % 10));
    proof {
        if n >= 10 {
            assert(old(out)@ + decimal(n as nat) =~= old(out)@ + decimal((n / 10) as nat) + seq![digit_char((n % 10) as nat)]);
        }
    }
}

/// `major.minor.patch` of a Vulkan version number.
pub open spec fn spec_format_api_version(version: u32) -> Seq<char> {
    decimal(((version >> 22u32) & 0x7fu32) as nat) + seq!['.'] + decimal(
        ((version >> 12u32) & 0x3ffu32) as nat,
    ) + seq!['.'] + decimal((version & 0xfffu32) as nat)
}

/// Writes a Vulkan version number as `major.minor.patch`.
pub fn format_api_version(version: u32) -> (text: String)
    ensures
        text@ == spec_format_api_version(version),
{
    proof {
        reveal_strlit(".");
    }
    let mut text = String::new();
    append_decimal(&mut text, vk::api_version_major(version));
    text.append(".");
    append_decimal(&mut text, vk::api_version_minor(version));
    text.append(".");
    append_decimal(&mut text, vk::api_version_patch(version));
    text
}

/// Law: a version number packed from a major, minor and patch version
/// that fit their fields is written back as `major.minor.patch`.
pub proof fn lemma_format_packed_version(major: u32, minor: u32, patch: u32)
    requires
        major < 128,
        minor < 1024,
        patch < 4096,
    ensures
        spec_format_api_version((0u32 << 29u32) | (major << 22u32) | (minor << 12u32) | patch)
            == decimal(major as nat) + seq!['.'] + decimal(minor as nat) + seq!['.'] + decimal(
            patch as nat,
        ),
{
    let v = (0u32 << 29u32) | (major << 22u32) | (minor << 12u32) | patch;
    assert((v >> 22u32) & 0x7fu32 == major && (v >> 12u32) & 0x3ffu32 == minor && v & 0xfffu32
        == patch) by (bit_vector)
        requires
            major < 128,
            minor < 1024,
            patch < 4096,
            v == (0u32 << 29u32) | (major << 22u32) | (minor << 12u32) | patch,
    ;
}

/// The bytes of a NUL terminated name: everything before the first zero,
/// or the whole array when it holds no zero.
pub open spec fn c_name_bytes(name: Seq<i8>) -> Seq<u8>
    decreases name.len(),
{
    if name.len() == 0 || name[0] == 0 {
        seq![]
    } else {
        seq![name[0] as u8] + c_name_bytes(name.drop_first())
    }
}

/// The text of a name that Vulkan returns in a fixed size array.
pub open spec fn spec_vulkan_name(name: Seq<i8>) -> Seq<char> {
    let bytes = c_name_bytes(name);
    if valid_utf8(bytes) {
        decode_utf8(bytes)
    } else {
        "Unknown device name: "@ + vk::utf8_error_text(bytes)
    }
}

/// Reads a name that Vulkan returns in a fixed size array: the bytes
/// before the first NUL, as UTF-8, or a message that tells why they are not.
pub fn vulkan_name_to_string(name: &[i8]) -> (text: String)
    ensures
        text@ == spec_vulkan_name(name@),
{
    let mut bytes: Vec<u8> = Vec::new();
    let mut i: usize = 0;
    proof {
        assert(name@.skip(0) =~= name@);
        assert(bytes@ + c_name_bytes(name@) =~= c_name_bytes(name@));
    }
    while i < name.len() && name[i] != 0
        invariant
            i <= name@.len(),
            c_name_bytes(name@) == bytes@ + c_name_bytes(name@.skip(i as int)),
        decreases name@.len() - i,
    {
        proof {
            assert(name@.skip(i as int).drop_first() =~= name@.skip(i + 1));
            assert(bytes@.push(name@[i as int] as u8) + c_name_bytes(name@.skip(i + 1)) =~= bytes@
                + c_name_bytes(name@.skip(i as int)));
        }
        bytes.push(name[i] as u8);
        i = i + 1;
    }
    proof {
        assert(c_name_bytes(name@.skip(i as int)) =~= seq![]);
        assert(bytes@ + seq![] =~= bytes@);
    }
    match vk::string_from_utf8(bytes) {
        Ok(text) => text,
        Err(error) => {
            proof {
                reveal_strlit("Unknown device name: ");
            }
            String::from_str("Unknown device name: ").concat(error.as_str())
        },
    }
}

} // verus!
