use vstd::prelude::*;

verus! {

/// The phase that follows `phase` in the busy indicator's cycle 0, 1, 2, 3, 0, ...
pub open spec fn spinner_after(phase: int) -> int {
    if phase + 1 > 3 {
        0
    } else {
        phase + 1
    }
}

/// The text drawn for a phase of the busy indicator; phases outside the
/// cycle draw like phase 0.
pub open spec fn spinner_text(phase: u8) -> Seq<char> {
    if phase == 1 {
        "--"@
    } else if phase == 2 {
        "\\"@
    } else if phase == 3 {
        " |"@
    } else {
        "/"@
    }
}

/// One tick of the busy indicator: the phase counts up and wraps from 3 to 0.
pub fn advance_spinner(phase: u8) -> (r: u8)
    requires
        phase < 255,
    ensures
        r == spinner_after(phase as int),
{
    let next = phase + 1;
    if next > 3 {
        0
    } else {
        next
    }
}

/// The glyph drawn for a phase of the busy indicator.
pub fn spinner_glyph(phase: u8) -> (r: &'static str)
    ensures
        r@ == spinner_text(phase),
{
    if phase == 1 {
        "--"
    } else if phase == 2 {
        "\\"
    } else if phase == 3 {
        " |"
    } else {
        "/"
    }
}

/// The busy indicator stays within its four phases, and comes back to the
/// same phase after four ticks.
pub proof fn spinner_cycles(phase: int)
    requires
        0 <= phase <= 3,
    ensures
        0 <= spinner_after(phase) <= 3,
        spinner_after(spinner_after(spinner_after(spinner_after(phase)))) == phase,
        phase < 3 ==> spinner_after(phase) == phase + 1,
{
}

} // verus!
