//! The paths of devices on Windows.
use vstd::prelude::*;

verus! {

/// The UTF-16 code units of a character.
pub open spec fn utf16_units(c: char) -> Seq<u16> {
    let code = c as int;
    if code < 0x10000 {
        seq![code as u16]
    } else {
        seq![
            (0xD800 + (code - 0x10000) / 0x400) as u16,
            (0xDC00 + (code - 0x10000) % 0x400) as u16,
        ]
    }
}

/// The UTF-16 code units of a text.
pub open spec fn utf16(text: Seq<char>) -> Seq<u16>
    decreases text.len(),
{
    if text.len() == 0 {
        seq![]
    } else {
        utf16(text.drop_last()) + utf16_units(text.last())
    }
}

/// What stands before the name of a device in its path.
pub open spec fn device_prefix() -> Seq<char> {
    "\\\\.\\"@
}

/// The path of a device, in UTF-16 and terminated by a zero.
pub open spec fn device_path_units(name: Seq<char>) -> Seq<u16> {
    utf16(device_prefix() + name).push(0)
}

/// Appends the UTF-16 code units of `c` to `units`.
fn push_units(units: &mut Vec<u16>, c: char)
    ensures
        final(units)@ == old(units)@ + utf16_units(c),
{
    let code: u32 = c as u32;
    if code < 0x10000 {
        units.push(code as u16);
    } else {
        let offset: u32 = code - 0x10000;
        units.push((0xD800 + offset / 0x400) as u16);
        units.push((0xDC00 + offset % 0x400) as u16);
    }
    assert(units@ =~= old(units)@ + utf16_units(c));
}

/// Appends the UTF-16 code units of `text` to `units`.
fn push_utf16(units: &mut Vec<u16>, text: &str)
    ensures
        final(units)@ == old(units)@ + utf16(text@),
{
    let ghost before = units@;
    assert(before + utf16(text@.take(0)) =~= before);
    for c in chars: text.chars()
        invariant
            chars.seq() == text@,
            units@ == before + utf16(text@.take(chars.index() as int)),
    {
        let ghost done = chars.index() as int;
        assert(text@.take(done + 1).drop_last() =~= text@.take(done));
        push_units(units, c);
        assert(units@ =~= before + utf16(text@.take(done + 1)));
    }
    assert(text@.take(text@.len() as int) =~= text@);
}

/// The path of the device `name`, as Windows wants it.
pub fn device_path(name: &str) -> (path: Vec<u16>)
    ensures
        path@ == device_path_units(name@),
        path@ == seq![92u16, 92, 46, 92] + utf16(name@) + seq![0u16],
{
    let mut path: Vec<u16> = Vec::new();
    push_utf16(&mut path, "\\\\.\\");
    push_utf16(&mut path, name);
    path.push(0);
    proof {
        utf16_of_concatenation(device_prefix(), name@);
        assert(path@ =~= device_path_units(name@));
        device_path_is_prefix_and_name(name@);
    }
    path
}

/// Encoding a text is encoding its parts.
pub proof fn utf16_of_concatenation(first: Seq<char>, second: Seq<char>)
    ensures
        utf16(first + second) == utf16(first) + utf16(second),
    decreases second.len(),
{
    if second.len() == 0 {
        assert(first + second =~= first);
        assert(utf16(first) + utf16(second) =~= utf16(first));
    } else {
        utf16_of_concatenation(first, second.drop_last());
        assert((first + second).drop_last() =~= first + second.drop_last());
        assert((first + second).last() == second.last());
        assert(utf16(first + second) =~= utf16(first) + utf16(second));
    }
}

/// A path is terminated: it ends with a zero, and holds no other unless the
/// name does.
pub proof fn device_path_is_terminated(name: Seq<char>)
    requires
        !name.contains('\0'),
    ensures
        ({
            let path = device_path_units(name);
            &&& path.len() > 0
            &&& forall|i: int| 0 <= i < path.len() ==> (path[i] == 0 <==> i == path.len() - 1)
        }),
{
    reveal_strlit("\\\\.\\");
    let text = device_prefix() + name;
    assert(!text.contains('\0')) by {
        assert forall|i: int| 0 <= i < text.len() implies text[i] != '\0' by {
            if i >= device_prefix().len() {
                assert(name.contains(name[i - device_prefix().len()]));
            }
        }
    }
    utf16_holds_no_zero(text);
}

proof fn utf16_holds_no_zero(text: Seq<char>)
    requires
        !text.contains('\0'),
    ensures
        forall|i: int| 0 <= i < utf16(text).len() ==> utf16(text)[i] != 0,
    decreases text.len(),
{
    if text.len() > 0 {
        assert(text.contains(text.last()));
        let shorter = text.drop_last();
        assert forall|i: int| 0 <= i < shorter.len() implies shorter[i] != '\0' by {
            assert(text.contains(text[i]));
        }
        utf16_holds_no_zero(shorter);
        units_hold_no_zero(text.last());
        let before = utf16(text.drop_last());
        assert forall|i: int| 0 <= i < utf16(text).len() implies utf16(text)[i] != 0 by {
            if i < before.len() {
                assert(before[i] != 0);
            } else {
                assert(utf16_units(text.last())[i - before.len()] != 0);
            }
        }
    }
}

proof fn units_hold_no_zero(c: char)
    requires
        c != '\0',
    ensures
        forall|i: int| 0 <= i < utf16_units(c).len() ==> utf16_units(c)[i] != 0,
{
}

/// The path of a device is `\\.\`, its name and a zero, whatever the name.
pub proof fn device_path_is_prefix_and_name(name: Seq<char>)
    ensures
        device_path_units(name) == seq![92u16, 92, 46, 92] + utf16(name) + seq![0u16],
{
    reveal_strlit("\\\\.\\");
    reveal_with_fuel(utf16, 5);
    utf16_of_concatenation(device_prefix(), name);
    assert(utf16(device_prefix()) =~= seq![92u16, 92, 46, 92]);
    assert(device_path_units(name) =~= seq![92u16, 92, 46, 92] + utf16(name) + seq![0u16]);
}

/// An empty text has no code units, and one more character adds its own.
pub proof fn utf16_goes_by_characters(text: Seq<char>, c: char)
    ensures
        utf16(seq![]) == Seq::<u16>::empty(),
        utf16(text.push(c)) == utf16(text) + utf16_units(c),
{
    assert(text.push(c).drop_last() =~= text);
}

/// The code units of a character give the character back: one unit that is its
/// code, or a high and a low surrogate that hold ten bits each of what its code
/// has beyond the first plane.
pub proof fn utf16_units_give_the_character_back(c: char)
    ensures
        c as int <= 0xFFFF ==> {
            &&& utf16_units(c).len() == 1
            &&& utf16_units(c)[0] as int == c as int
        },
        c as int > 0xFFFF ==> {
            &&& utf16_units(c).len() == 2
            &&& 0xD800 <= utf16_units(c)[0] <= 0xDBFF
            &&& 0xDC00 <= utf16_units(c)[1] <= 0xDFFF
            &&& 0x10000 + (utf16_units(c)[0] - 0xD800) * 0x400 + (utf16_units(c)[1] - 0xDC00)
                == c as int
        },
{
}

} // verus!
