//! The three display texts: processor load, memory use and temperature.
//!
//! Each text is a prefix, a number with two decimal places and a unit. The
//! prefix is a text label or, on request, a symbol followed by a space.

use crate::binary32::{is_numeral_char, lemma_fixed2_chars, Binary32};
use crate::decimal::{
    div_round_half_even, fixed2, is_digit, lemma_fixed2_shape, push_fixed2, round_half_even,
};
use crate::double::{as_double, to_double};
use crate::text::lacks;
use vstd::prelude::*;
use vstd::string::StringExecFns;

verus! {

/// What a memory figure is divided by before it is shown: 1024, twice.
pub const MEMORY_DIVISOR: u64 = 1024 * 1024;

/// What stands between two texts of a status line.
pub open spec fn separator() -> Seq<char> {
    " | "@
}

/// What introduces the processor load.
pub open spec fn cpu_prefix(use_icons: bool) -> Seq<char> {
    if use_icons {
        "\u{f4bc} "@
    } else {
        "CPU: "@
    }
}

/// What introduces the memory use.
pub open spec fn mem_prefix(use_icons: bool) -> Seq<char> {
    if use_icons {
        "\u{efc5} "@
    } else {
        "Mem: "@
    }
}

/// What introduces the temperature.
pub open spec fn temp_prefix(use_icons: bool) -> Seq<char> {
    if use_icons {
        "\u{f2ca} "@
    } else {
        "Temp: "@
    }
}

/// A memory figure, as the machine reports it, divided by 1024 twice, in
/// hundredths: rounded to the nearest whole number of them, ties to the even
/// one. The figure is taken as a double holds it, which changes nothing for
/// a figure of up to 53 bits.
pub open spec fn gb_hundredths(figure: u64) -> nat {
    round_half_even(as_double(figure) * 100, MEMORY_DIVISOR as nat)
}

/// A memory figure divided by 1024 twice, written with two decimal places.
pub open spec fn gb_text(figure: u64) -> Seq<char> {
    fixed2(gb_hundredths(figure))
}

/// The text for a processor load of `usage` percent.
pub open spec fn cpu_text(use_icons: bool, usage: Binary32) -> Seq<char> {
    cpu_prefix(use_icons) + usage.fixed2() + "%"@
}

/// The text for the memory figures `used` and `total`, used first.
pub open spec fn mem_text(use_icons: bool, used: u64, total: u64) -> Seq<char> {
    mem_prefix(use_icons) + gb_text(used) + "/"@ + gb_text(total) + " GB"@
}

/// The text for a temperature of `celsius` degrees.
pub open spec fn temp_text(use_icons: bool, celsius: Binary32) -> Seq<char> {
    temp_prefix(use_icons) + celsius.fixed2() + "\u{b0}C"@
}

/// Whether `text` is the text for some processor load.
pub open spec fn is_cpu_text(use_icons: bool, text: Seq<char>) -> bool {
    exists|usage: Binary32| text == #[trigger] cpu_text(use_icons, usage)
}

/// Whether `text` is the text for some memory use.
pub open spec fn is_mem_text(use_icons: bool, text: Seq<char>) -> bool {
    exists|used: u64, total: u64| text == #[trigger] mem_text(use_icons, used, total)
}

/// Whether `text` is the text for some temperature.
pub open spec fn is_temp_text(use_icons: bool, text: Seq<char>) -> bool {
    exists|celsius: Binary32| text == #[trigger] temp_text(use_icons, celsius)
}

/// The text of a processor load holds no vertical bar.
pub proof fn lemma_cpu_text_lacks_bar(use_icons: bool, usage: Binary32)
    ensures
        lacks(cpu_text(use_icons, usage), '|'),
{
    reveal_strlit("\u{f4bc} ");
    reveal_strlit("CPU: ");
    reveal_strlit("%");
    lemma_fixed2_chars(usage);
    let prefix = cpu_prefix(use_icons);
    let number = usage.fixed2();
    let text = cpu_text(use_icons, usage);
    assert forall|i: int| 0 <= i < text.len() implies text[i] != '|' by {
        if i < prefix.len() {
        } else if i < prefix.len() + number.len() {
            assert(text[i] == number[i - prefix.len()]);
            assert(is_numeral_char(number[i - prefix.len()]));
        }
    }
}

/// The text of a memory use holds no vertical bar.
pub proof fn lemma_mem_text_lacks_bar(use_icons: bool, used: u64, total: u64)
    ensures
        lacks(mem_text(use_icons, used, total), '|'),
{
    reveal_strlit("\u{efc5} ");
    reveal_strlit("Mem: ");
    reveal_strlit("/");
    reveal_strlit(" GB");
    lemma_fixed2_shape(gb_hundredths(used));
    lemma_fixed2_shape(gb_hundredths(total));
    let prefix = mem_prefix(use_icons);
    let first = gb_text(used);
    let second = gb_text(total);
    let text = mem_text(use_icons, used, total);
    assert forall|i: int| 0 <= i < text.len() implies text[i] != '|' by {
        let j = i - prefix.len();
        let k = j - first.len() - 1;
        if j < 0 {
        } else if j < first.len() {
            assert(text[i] == first[j]);
            assert(first[j] == '.' || is_digit(first[j]));
        } else if j == first.len() {
        } else if k < second.len() {
            assert(text[i] == second[k]);
            assert(second[k] == '.' || is_digit(second[k]));
        }
    }
}

/// The text of a temperature holds no vertical bar.
pub proof fn lemma_temp_text_lacks_bar(use_icons: bool, celsius: Binary32)
    ensures
        lacks(temp_text(use_icons, celsius), '|'),
{
    reveal_strlit("\u{f2ca} ");
    reveal_strlit("Temp: ");
    reveal_strlit("\u{b0}C");
    lemma_fixed2_chars(celsius);
    let prefix = temp_prefix(use_icons);
    let number = celsius.fixed2();
    let text = temp_text(use_icons, celsius);
    assert forall|i: int| 0 <= i < text.len() implies text[i] != '|' by {
        if i < prefix.len() {
        } else if i < prefix.len() + number.len() {
            assert(text[i] == number[i - prefix.len()]);
            assert(is_numeral_char(number[i - prefix.len()]));
        }
    }
}

/// Appends `figure`, divided by 1024 twice and written with two decimal
/// places, to `out`.
pub fn push_gb(out: &mut String, figure: u64)
    ensures
        final(out)@ == old(out)@ + gb_text(figure),
{
    let h: u128 = div_round_half_even(to_double(figure) * 100, MEMORY_DIVISOR as u128);
    push_fixed2(out, h / 100, (h % 100) as u8);
}

/// Renders a processor load of `usage` percent.
pub fn render_cpu(use_icons: bool, usage: Binary32) -> (text: String)
    ensures
        text@ == cpu_text(use_icons, usage),
{
    let mut text = String::from_str(
        if use_icons {
            "\u{f4bc} "
        } else {
            "CPU: "
        },
    );
    usage.push_fixed2(&mut text);
    text.append("%");
    text
}

/// Renders the memory figures `used` and `total`, each divided by 1024 twice.
pub fn render_mem(use_icons: bool, used: u64, total: u64) -> (text: String)
    ensures
        text@ == mem_text(use_icons, used, total),
{
    let mut text = String::from_str(
        if use_icons {
            "\u{efc5} "
        } else {
            "Mem: "
        },
    );
    push_gb(&mut text, used);
    text.append("/");
    push_gb(&mut text, total);
    text.append(" GB");
    text
}

/// Renders a temperature of `celsius` degrees.
pub fn render_temp(use_icons: bool, celsius: Binary32) -> (text: String)
    ensures
        text@ == temp_text(use_icons, celsius),
{
    let mut text = String::from_str(
        if use_icons {
            "\u{f2ca} "
        } else {
            "Temp: "
        },
    );
    celsius.push_fixed2(&mut text);
    text.append("\u{b0}C");
    text
}

} // verus!
