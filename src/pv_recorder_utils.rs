//! Locating the native audio capture library bundled for each platform, and
//! telling Raspberry Pi boards apart by the CPU part that `/proc/cpuinfo` reports.
use vstd::prelude::*;

verus! {

/// ARM cores and boards told apart by their CPU part number.
#[derive(Clone, Copy, Debug, PartialEq, Eq, Structural)]
pub enum Machine {
    Arm11,
    CortexA7,
    CortexA53,
    CortexA57,
    CortexA72,
    Beaglebone,
    Unsupported,
}

/// The machine a lower-case CPU part number stands for.
pub open spec fn machine_of(part: Seq<char>) -> Machine {
    if part == "0xb76"@ {
        Machine::Arm11
    } else if part == "0xc07"@ {
        Machine::CortexA7
    } else if part == "0xd03"@ {
        Machine::CortexA53
    } else if part == "0xd07"@ {
        Machine::CortexA57
    } else if part == "0xd08"@ {
        Machine::CortexA72
    } else if part == "0xc08"@ {
        Machine::Beaglebone
    } else {
        Machine::Unsupported
    }
}

pub open spec fn machine_name(m: Machine) -> Seq<char> {
    match m {
        Machine::Arm11 => "arm11"@,
        Machine::CortexA7 => "cortex-a7"@,
        Machine::CortexA53 => "cortex-a53"@,
        Machine::CortexA57 => "cortex-a57"@,
        Machine::CortexA72 => "cortex-a72"@,
        Machine::Beaglebone => "beaglebone"@,
        Machine::Unsupported => "unsupported"@,
    }
}

/// The machines with a Raspberry Pi build of the capture library.
pub open spec fn is_raspberry_pi(m: Machine) -> bool {
    m == Machine::Arm11 || m == Machine::CortexA7 || m == Machine::CortexA53 || m
        == Machine::CortexA72
}

impl Machine {
    /// The machine's name as the library's directory layout spells it.
    pub fn name(&self) -> (r: &'static str)
        ensures
            r@ == machine_name(*self),
    {
        match self {
            Machine::Arm11 => "arm11",
            Machine::CortexA7 => "cortex-a7",
            Machine::CortexA53 => "cortex-a53",
            Machine::CortexA57 => "cortex-a57",
            Machine::CortexA72 => "cortex-a72",
            Machine::Beaglebone => "beaglebone",
            Machine::Unsupported => "unsupported",
        }
    }
}

/// `pat` occurs in `s` at position `i`.
pub open spec fn occurs_at(s: Seq<char>, i: int, pat: Seq<char>) -> bool {
    0 <= i && i + pat.len() <= s.len() && s.subrange(i, i + pat.len()) == pat
}

/// `i` is the position of the first occurrence of `pat` in `s`.
pub open spec fn first_occurrence(s: Seq<char>, pat: Seq<char>, i: int) -> bool {
    occurs_at(s, i, pat) && forall|j: int| 0 <= j < i ==> !occurs_at(s, j, pat)
}

/// `[start, end)` bounds the line of `s` that holds position `i`.
pub open spec fn line_around(s: Seq<char>, i: int, start: int, end: int) -> bool {
    &&& 0 <= start <= i <= end <= s.len()
    &&& start == 0 || s[start - 1] == '\n'
    &&& end == s.len() || s[end] == '\n'
    &&& forall|k: int| start <= k < end ==> s[k] != '\n'
}

/// What follows the last space of `line`; all of it when it has no space.
pub open spec fn last_word(line: Seq<char>) -> Seq<char>
    decreases line.len(),
{
    if line.len() == 0 {
        line
    } else if line.last() == ' ' {
        Seq::empty()
    } else {
        last_word(line.drop_last()).push(line.last())
    }
}

/// What `str::to_lowercase` makes of a text.
pub uninterp spec fn lowercase_of(s: Seq<char>) -> Seq<char>;

/// Relies on `str::to_lowercase`: the lower-case mapping of `s`, which depends on
/// its characters alone.
#[verifier::external_body]
fn to_lowercase(s: &str) -> (r: String)
    ensures
        r@ == lowercase_of(s@),
{
    s.to_lowercase()
}

/// `/proc/cpuinfo` names no CPU part.
#[derive(Clone, Copy, Debug, PartialEq, Eq, Structural)]
pub struct UnsupportedCpu;

fn chars_of(s: &str) -> (r: Vec<char>)
    ensures
        r@ == s@,
{
    let mut r: Vec<char> = Vec::new();
    for c in it: s.chars()
        invariant
            r@ == it.seq().subrange(0, it.index() as int),
    {
        r.push(c);
        assert(r@ =~= it.seq().subrange(0, it.index() as int + 1));
    }
    assert(r@ =~= s@);
    r
}

fn occurs_at_exec(s: &Vec<char>, i: usize, pat: &Vec<char>) -> (r: bool)
    ensures
        r == occurs_at(s@, i as int, pat@),
{
    if pat.len() > s.len() || i > s.len() - pat.len() {
        return false;
    }
    let mut k: usize = 0;
    while k < pat.len()
        invariant
            i + pat@.len() <= s@.len() <= usize::MAX,
            k <= pat@.len(),
            forall|j: int| 0 <= j < k ==> s@[i + j] == pat@[j],
        decreases pat@.len() - k,
    {
        if s[i + k] != pat[k] {
            assert(s@.subrange(i as int, i + pat@.len())[k as int] != pat@[k as int]);
            return false;
        }
        k = k + 1;
    }
    assert(s@.subrange(i as int, i + pat@.len()) =~= pat@);
    true
}

/// The machine named by the lower-cased CPU part number `part`.
pub fn machine_from_part(part: &String) -> (r: Machine)
    ensures
        r == machine_of(part@),
{
    if *part == String::from_str("0xb76") {
        Machine::Arm11
    } else if *part == String::from_str("0xc07") {
        Machine::CortexA7
    } else if *part == String::from_str("0xd03") {
        Machine::CortexA53
    } else if *part == String::from_str("0xd07") {
        Machine::CortexA57
    } else if *part == String::from_str("0xd08") {
        Machine::CortexA72
    } else if *part == String::from_str("0xc08") {
        Machine::Beaglebone
    } else {
        Machine::Unsupported
    }
}

/// The machine described by the text of `/proc/cpuinfo`: the CPU part number is
/// the last word of the first line that mentions `CPU part`, compared in lower case.
pub fn find_machine_type(cpu_info: &str) -> (r: Result<Machine, UnsupportedCpu>)
    ensures
        r is Err <==> !exists|i: int| occurs_at(cpu_info@, i, "CPU part"@),
        r is Ok ==> exists|i: int, start: int, end: int|
            first_occurrence(cpu_info@, "CPU part"@, i) && line_around(cpu_info@, i, start, end)
                && r->Ok_0 == machine_of(
                lowercase_of(last_word(cpu_info@.subrange(start, end))),
            ),
{
    let text = chars_of(cpu_info);
    let pat = chars_of("CPU part");
    proof {
        reveal_strlit("CPU part");
    }
    let ghost s = text@;
    let mut i: usize = 0;
    let mut found = false;
    while i < text.len()
        invariant_except_break
            !found,
        invariant
            s == text@,
            s == cpu_info@,
            pat@ == "CPU part"@,
            pat@.len() == 8,
            i <= s.len(),
            forall|j: int| 0 <= j < i ==> !occurs_at(s, j, pat@),
        ensures
            found ==> occurs_at(s, i as int, pat@) && i < s.len(),
            !found ==> i == s.len(),
        decreases s.len() - i,
    {
        if occurs_at_exec(&text, i, &pat) {
            found = true;
            break;
        }
        i = i + 1;
    }
    if !found {
        assert forall|j: int| !occurs_at(s, j, pat@) by {
            if 0 <= j && j + pat@.len() <= s.len() {
                assert(j < i);
            }
        }
        return Err(UnsupportedCpu);
    }
    assert(s[i as int] == 'C') by {
        assert(s.subrange(i as int, i + 8)[0] == s[i as int]);
    }
    // the bounds of the line holding the occurrence
    let mut start: usize = i;
    while start > 0 && text[start - 1] != '\n'
        invariant
            s == text@,
            start <= i < s.len(),
            forall|k: int| start <= k < i ==> s[k] != '\n',
            s[i as int] == 'C',
        decreases start,
    {
        start = start - 1;
    }
    let mut end: usize = i;
    while end < text.len() && text[end] != '\n'
        invariant
            s == text@,
            start <= i <= end <= s.len(),
            forall|k: int| start <= k < end ==> s[k] != '\n',
        decreases s.len() - end,
    {
        end = end + 1;
    }
    assert(line_around(s, i as int, start as int, end as int));
    // the last word of that line
    let mut w: usize = end;
    while w > start && text[w - 1] != ' '
        invariant
            s == text@,
            start <= w <= end <= s.len(),
            last_word(s.subrange(start as int, end as int)) == last_word(
                s.subrange(start as int, w as int),
            ) + s.subrange(w as int, end as int),
        decreases w,
    {
        let ghost line = s.subrange(start as int, w as int);
        assert(line.drop_last() =~= s.subrange(start as int, w - 1));
        assert(s.subrange(w - 1, end as int) =~= seq![line.last()] + s.subrange(
            w as int,
            end as int,
        ));
        assert(last_word(line) == last_word(line.drop_last()).push(line.last()));
        assert(last_word(line.drop_last()).push(line.last()) + s.subrange(w as int, end as int)
            =~= last_word(line.drop_last()) + s.subrange(w - 1, end as int));
        w = w - 1;
    }
    proof {
        let line = s.subrange(start as int, w as int);
        if w > start {
            assert(line.last() == ' ');
        }
        assert(last_word(line) =~= Seq::<char>::empty());
        assert(last_word(s.subrange(start as int, end as int)) =~= s.subrange(
            w as int,
            end as int,
        ));
    }
    let word = cpu_info.substring_char(w, end);
    let lowered = to_lowercase(word);
    Ok(machine_from_part(&lowered))
}

/// Where the capture library lies for a platform, and whether that is a
/// fallback for an ARM machine without a build of its own.
pub struct NativeLibrary {
    pub path: String,
    pub fallback: bool,
}

/// The platforms the capture library is bundled for.
#[derive(Clone, Copy, Debug, PartialEq, Eq, Structural)]
pub enum Platform {
    MacX86_64,
    MacArm64,
    WindowsAmd64,
    LinuxX86_64,
    /// Linux on a 32 or 64 bit ARM machine.
    LinuxArm { machine: Machine, aarch64: bool },
}

/// The path of the capture library for `platform`, relative to the bundle.
pub open spec fn library_path(platform: Platform) -> Seq<char> {
    match platform {
        Platform::MacX86_64 => "mac/x86_64/libpv_recorder.dylib"@,
        Platform::MacArm64 => "mac/arm64/libpv_recorder.dylib"@,
        Platform::WindowsAmd64 => "windows/amd64/libpv_recorder.dll"@,
        Platform::LinuxX86_64 => "linux/x86_64/libpv_recorder.so"@,
        Platform::LinuxArm { machine, aarch64 } => if is_raspberry_pi(machine) {
            "raspberry-pi/"@ + machine_name(machine) + (if aarch64 {
                "-aarch64"@
            } else {
                Seq::empty()
            }) + "/libpv_recorder.so"@
        } else {
            "raspberry-pi/arm11/libpv_recorder.so"@
        },
    }
}

/// The capture library for `platform`. ARM machines without a Raspberry Pi
/// build of their own fall back to the ARMv6 one, which is flagged.
pub fn _base_library_path(platform: Platform) -> (r: NativeLibrary)
    ensures
        r.path@ == library_path(platform),
        r.fallback == (platform is LinuxArm && !is_raspberry_pi(platform->machine)),
{
    match platform {
        Platform::MacX86_64 => NativeLibrary {
            path: String::from_str("mac/x86_64/libpv_recorder.dylib"),
            fallback: false,
        },
        Platform::MacArm64 => NativeLibrary {
            path: String::from_str("mac/arm64/libpv_recorder.dylib"),
            fallback: false,
        },
        Platform::WindowsAmd64 => NativeLibrary {
            path: String::from_str("windows/amd64/libpv_recorder.dll"),
            fallback: false,
        },
        Platform::LinuxX86_64 => NativeLibrary {
            path: String::from_str("linux/x86_64/libpv_recorder.so"),
            fallback: false,
        },
        Platform::LinuxArm { machine, aarch64 } => {
            let rpi = match machine {
                Machine::Arm11 | Machine::CortexA7 | Machine::CortexA53 | Machine::CortexA72 => true,
                _ => false,
            };
            if rpi {
                let mut path = String::from_str("raspberry-pi/");
                path.append(machine.name());
                let ghost arch: Seq<char> = Seq::empty();
                if aarch64 {
                    path.append("-aarch64");
                    proof {
                        arch = "-aarch64"@;
                    }
                }
                path.append("/libpv_recorder.so");
                assert(path@ =~= "raspberry-pi/"@ + machine_name(machine) + arch
                    + "/libpv_recorder.so"@);
                NativeLibrary { path, fallback: false }
            } else {
                NativeLibrary {
                    path: String::from_str("raspberry-pi/arm11/libpv_recorder.so"),
                    fallback: true,
                }
            }
        },
    }
}

} // verus!
