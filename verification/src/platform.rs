//! What differs from one Unix system to the next.
use vstd::prelude::*;

verus! {

/// The numbers that a Unix system gives to what this crate asks of it.
#[derive(Clone, Copy, Debug, PartialEq, Eq)]
pub struct Platform {
    /// Where a terminal's control characters hold the least number of bytes
    /// that a blocking read waits for (`VMIN`).
    pub vmin: usize,
    /// The status flag of a descriptor that never blocks (`O_NONBLOCK`).
    pub o_nonblock: i32,
}

/// Reads the constant `VMIN` of `nix::sys::termios::SpecialCharacterIndices`.
///
/// Claimed of it: it is one of the five indices that systems use. Which of
/// them depends on the system, and is left unsaid.
#[verifier::external_body]
pub(crate) fn vmin_index() -> (index: usize)
    ensures
        index == 4 || index == 5 || index == 6 || index == 9 || index == 16,
{
    nix::sys::termios::SpecialCharacterIndices::VMIN as usize
}

/// Reads the constant `O_NONBLOCK` of `nix::libc`.
///
/// Claimed of it: it is one of the seven bits that systems use. Which of them
/// depends on the system, and is left unsaid.
#[verifier::external_body]
pub(crate) fn o_nonblock_flag() -> (flag: i32)
    ensures
        flag == 4 || flag == 8 || flag == 0x10 || flag == 0x80 || flag == 0x800 || flag == 0x4000
            || flag == 0x40000,
{
    nix::libc::O_NONBLOCK
}

impl Platform {
    /// The numbers are ones that a system has.
    pub open spec fn valid(self) -> bool {
        let index = self.vmin;
        let flag = self.o_nonblock;
        &&& index == 4 || index == 5 || index == 6 || index == 9 || index == 16
        &&& flag == 4 || flag == 8 || flag == 0x10 || flag == 0x80 || flag == 0x800 || flag
            == 0x4000 || flag == 0x40000
    }

    /// The numbers are those of the system that this crate was built for: the
    /// ones that reading nix's constants gives.
    pub closed spec fn is_native(self) -> bool {
        &&& call_ensures(vmin_index, (), self.vmin)
        &&& call_ensures(o_nonblock_flag, (), self.o_nonblock)
    }

    /// The system that this crate was built for. Which of the possible numbers
    /// it has is left unsaid.
    pub fn native() -> (platform: Platform)
        ensures
            platform.is_native(),
            platform.valid(),
    {
        Platform { vmin: read(vmin_index), o_nonblock: read(o_nonblock_flag) }
    }
}

/// Reads a constant.
fn read<T>(constant: impl Fn() -> T) -> (value: T)
    requires
        call_requires(constant, ()),
    ensures
        call_ensures(constant, (), value),
{
    constant()
}

/// The numbers of the system that this crate was built for are the ones that
/// nix gives to `VMIN` and `O_NONBLOCK` there, and no others that some system
/// has.
pub(crate) proof fn native_numbers_are_those_of_nix(platform: Platform)
    requires
        platform.is_native(),
    ensures
        call_ensures(vmin_index, (), platform.vmin),
        call_ensures(o_nonblock_flag, (), platform.o_nonblock),
        platform.valid(),
{
}

} // verus!
