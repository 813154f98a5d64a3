//! What holds of every monitor and of every reading, stated over the models
//! that the contracts of the library speak of.

use crate::binary32::{lemma_fixed2_of_finite, Binary32};
use crate::config::Config;
use crate::decimal::{is_digit, lemma_round_half_even_is_ordered, round_half_even};
use crate::double::{as_double, lemma_as_double_bounds, lemma_as_double_is_ordered, DOUBLE_LIMIT};
use crate::monitor::{Readings, SysMonView};
use crate::render::{
    cpu_prefix, cpu_text, gb_hundredths, is_cpu_text, is_mem_text, is_temp_text,
    lemma_cpu_text_lacks_bar, lemma_mem_text_lacks_bar, lemma_temp_text_lacks_bar, mem_text,
    separator, temp_text, MEMORY_DIVISOR,
};
use crate::slot::{sampled, stats, SysMonError};
use crate::text::{lacks, occurrences, occurs_at};
use vstd::prelude::*;

verus! {

/// Whether `text` begins with one of the three text labels.
pub open spec fn starts_with_label(text: Seq<char>) -> bool {
    "CPU: "@.is_prefix_of(text) || "Mem: "@.is_prefix_of(text) || "Temp: "@.is_prefix_of(text)
}

/// Whether each text of the monitor begins with its own text label; the
/// temperature may also be empty.
pub open spec fn has_text_labels(monitor: SysMonView) -> bool {
    &&& "CPU: "@.is_prefix_of(monitor.cpu)
    &&& "Mem: "@.is_prefix_of(monitor.mem)
    &&& monitor.temp.len() == 0 || "Temp: "@.is_prefix_of(monitor.temp)
}

/// Whether no text of the monitor begins with a text label.
pub open spec fn has_no_text_labels(monitor: SysMonView) -> bool {
    &&& !starts_with_label(monitor.cpu)
    &&& !starts_with_label(monitor.mem)
    &&& !starts_with_label(monitor.temp)
}

/// A new monitor is well formed, and rendering readings keeps a monitor so.
pub proof fn law_monitors_stay_well_formed(monitor: SysMonView, config: Config, readings: Readings)
    ensures
        SysMonView::initial(config).wf(),
        monitor.wf() ==> monitor.refreshed(readings).wf(),
{
    let icons = monitor.config.use_icons;
    let after = monitor.refreshed(readings);
    assert(is_cpu_text(icons, cpu_text(icons, readings.cpu_usage)));
    assert(is_mem_text(icons, mem_text(icons, readings.mem_used, readings.mem_total)));
    if let Some(celsius) = readings.temp {
        assert(is_temp_text(icons, temp_text(icons, celsius)));
    }
}

/// An empty slot answers every request for a status line with
/// `NotInitialized`, whose message is `System monitor not initialized`, and
/// stays empty.
pub proof fn law_empty_slot_answers_not_initialized(readings: Readings)
    ensures
        sampled(None, readings) is None,
        stats(sampled(None, readings)) == Err::<Seq<char>, SysMonError>(
            SysMonError::NotInitialized,
        ),
        SysMonError::NotInitialized.message_text() == "System monitor not initialized"@,
{
}

/// No text of a well-formed monitor holds a vertical bar.
proof fn lemma_texts_lack_bar(monitor: SysMonView)
    requires
        monitor.wf(),
    ensures
        lacks(monitor.cpu, '|'),
        lacks(monitor.mem, '|'),
        lacks(monitor.temp, '|'),
{
    let icons = monitor.config.use_icons;
    if monitor.cpu.len() > 0 {
        let usage = choose|usage: Binary32| monitor.cpu == cpu_text(icons, usage);
        lemma_cpu_text_lacks_bar(icons, usage);
    }
    if monitor.mem.len() > 0 {
        let (used, total) = choose|used: u64, total: u64|
            monitor.mem == mem_text(icons, used, total);
        lemma_mem_text_lacks_bar(icons, used, total);
    }
    if monitor.temp.len() > 0 {
        let celsius = choose|celsius: Binary32| monitor.temp == temp_text(icons, celsius);
        lemma_temp_text_lacks_bar(icons, celsius);
    }
}

/// In three texts without a vertical bar, joined by two separators, the
/// separator stands just where it was put, and the pieces between are the
/// three texts.
proof fn lemma_separators_of_joined(
    first: Seq<char>,
    second: Seq<char>,
    third: Seq<char>,
    sep: Seq<char>,
)
    requires
        sep == seq![' ', '|', ' '],
        lacks(first, '|'),
        lacks(second, '|'),
        lacks(third, '|'),
    ensures
        ({
            let line = first + sep + second + sep + third;
            let p = first.len() as int;
            let q = p + 3 + second.len();
            &&& forall|at: int| occurs_at(line, sep, at) <==> (at == p || at == q)
            &&& line.subrange(0, p) == first
            &&& line.subrange(p + 3, q) == second
            &&& line.subrange(q + 3, line.len() as int) == third
        }),
{
    let line = first + sep + second + sep + third;
    let p = first.len() as int;
    let q = p + 3 + second.len();
    assert(line.len() == q + 3 + third.len());
    assert forall|i: int| 0 <= i < line.len() && line[i] == '|' implies i == p + 1 || i == q + 1 by {
        if i < p {
            assert(line[i] == first[i]);
        } else if i < p + 3 {
            assert(line[i] == sep[i - p]);
        } else if i < q {
            assert(line[i] == second[i - p - 3]);
        } else if i < q + 3 {
            assert(line[i] == sep[i - q]);
        } else {
            assert(line[i] == third[i - q - 3]);
        }
    }
    assert forall|at: int| occurs_at(line, sep, at) implies at == p || at == q by {
        assert(line.subrange(at, at + 3)[1] == sep[1]);
        assert(line[at + 1] == '|');
    }
    assert(line.subrange(p, p + 3) =~= sep);
    assert(line.subrange(q, q + 3) =~= sep);
    assert(line.subrange(0, p) =~= first);
    assert(line.subrange(p + 3, q) =~= second);
    assert(line.subrange(q + 3, line.len() as int) =~= third);
}

/// A slot with a monitor in it always answers with a status line. The
/// separator stands in that line exactly twice, and the three pieces that it
/// parts are the monitor's three texts.
pub proof fn law_status_line_has_two_separators(monitor: SysMonView, readings: Readings)
    requires
        monitor.wf(),
    ensures
        stats(sampled(Some(monitor), readings)) == Ok::<Seq<char>, SysMonError>(
            monitor.refreshed(readings).status_line(),
        ),
        ({
            let after = monitor.refreshed(readings);
            let first = after.cpu.len() as int;
            let second = first + separator().len() + after.mem.len();
            let line = after.status_line();
            &&& first < second
            &&& occurrences(line, separator()) == set![first, second]
            &&& occurrences(line, separator()).len() == 2
            &&& line.subrange(0, first) == after.cpu
            &&& line.subrange(first + separator().len(), second) == after.mem
            &&& line.subrange(second + separator().len(), line.len() as int) == after.temp
        }),
{
    let after = monitor.refreshed(readings);
    law_monitors_stay_well_formed(monitor, monitor.config, readings);
    lemma_texts_lack_bar(after);
    reveal_strlit(" | ");
    let sep = separator();
    assert(sep =~= seq![' ', '|', ' ']);
    lemma_separators_of_joined(after.cpu, after.mem, after.temp, sep);
    let first = after.cpu.len() as int;
    let second = first + 3 + after.mem.len();
    assert(occurrences(after.status_line(), sep) =~= set![first, second]);
}

/// Under text labels, each text begins with its label after every sample;
/// the temperature alone may be empty, where no sensor was ever found.
pub proof fn law_text_labels_begin_each_text(monitor: SysMonView, readings: Readings)
    requires
        monitor.wf(),
        !monitor.config.use_icons,
    ensures
        has_text_labels(monitor.refreshed(readings)),
{
    let after = monitor.refreshed(readings);
    assert("CPU: "@.is_prefix_of(after.cpu));
    assert("Mem: "@.is_prefix_of(after.mem));
    if after.temp.len() > 0 {
        assert(is_temp_text(false, after.temp));
        let celsius = choose|celsius: Binary32| after.temp == temp_text(false, celsius);
        assert("Temp: "@.is_prefix_of(temp_text(false, celsius)));
    }
}

/// Under icons, no text begins with a text label after any sample.
pub proof fn law_icons_replace_text_labels(monitor: SysMonView, readings: Readings)
    requires
        monitor.wf(),
        monitor.config.use_icons,
    ensures
        has_no_text_labels(monitor.refreshed(readings)),
{
    let after = monitor.refreshed(readings);
    reveal_strlit("CPU: ");
    reveal_strlit("Mem: ");
    reveal_strlit("Temp: ");
    reveal_strlit("\u{f4bc} ");
    reveal_strlit("\u{efc5} ");
    reveal_strlit("\u{f2ca} ");
    assert(after.cpu[0] == '\u{f4bc}');
    assert(after.mem[0] == '\u{efc5}');
    if after.temp.len() > 0 {
        assert(is_temp_text(true, after.temp));
        let celsius = choose|celsius: Binary32| after.temp == temp_text(true, celsius);
        assert(after.temp[0] == '\u{f2ca}');
    }
    lemma_no_label_before(after.cpu, '\u{f4bc}');
    lemma_no_label_before(after.mem, '\u{efc5}');
    lemma_no_label_before(after.temp, '\u{f2ca}');
}

/// A text that is empty, or begins with a character that begins no text
/// label, begins with no text label.
proof fn lemma_no_label_before(text: Seq<char>, head: char)
    requires
        text.len() == 0 || text[0] == head,
        head != 'C',
        head != 'M',
        head != 'T',
    ensures
        !starts_with_label(text),
{
    reveal_strlit("CPU: ");
    reveal_strlit("Mem: ");
    reveal_strlit("Temp: ");
    if "CPU: "@.is_prefix_of(text) {
        assert(text.subrange(0, 5)[0] == 'C');
    }
    if "Mem: "@.is_prefix_of(text) {
        assert(text.subrange(0, 5)[0] == 'M');
    }
    if "Temp: "@.is_prefix_of(text) {
        assert(text.subrange(0, 6)[0] == 'T');
    }
}

/// The rounded quotient is an integer nearest to the exact one: it is off by
/// at most half the divisor, and where it is off by just that, it is even.
pub proof fn law_rounding_is_to_nearest(n: nat, d: nat)
    requires
        d > 0,
    ensures
        ({
            let q = round_half_even(n, d) as int;
            let off = n - q * d;
            &&& -(d as int) <= 2 * off <= d
            &&& (2 * off == d || 2 * off == -(d as int)) ==> q % 2 == 0
        }),
{
    let q0 = (n / d) as int;
    vstd::arithmetic::div_mod::lemma_fundamental_div_mod(n as int, d as int);
    assert((q0 + 1) * d == q0 * d + d) by (nonlinear_arith);
    assert(q0 * d == d * q0) by (nonlinear_arith);
}

/// A memory figure of up to 53 bits is shown as itself divided by 1024
/// twice, to the nearest hundredth.
pub proof fn law_memory_is_divided_by_1024_twice(figure: u64)
    requires
        figure < DOUBLE_LIMIT,
    ensures
        gb_hundredths(figure) == round_half_even(figure as nat * 100, 1024 * 1024),
{
    lemma_as_double_bounds(figure);
}

/// Memory in use that is no more than the total is not shown as more.
pub proof fn law_rendered_memory_keeps_order(used: u64, total: u64)
    requires
        used <= total,
    ensures
        gb_hundredths(used) <= gb_hundredths(total),
{
    lemma_as_double_is_ordered(used, total);
    lemma_round_half_even_is_ordered(
        as_double(used) * 100,
        as_double(total) * 100,
        MEMORY_DIVISOR as nat,
    );
}

/// A monitor made anew shows the style of its own preferences from its first
/// sample on, whatever the slot held before.
pub proof fn law_init_sets_the_style(update_interval: u64, use_icons: bool, readings: Readings)
    ensures
        ({
            let fresh = SysMonView::initial((Config { update_interval, use_icons }));
            let after = fresh.refreshed(readings);
            &&& sampled(Some(fresh), readings) == Some(after)
            &&& !use_icons ==> has_text_labels(after)
            &&& use_icons ==> has_no_text_labels(after)
        }),
{
    let config = Config { update_interval, use_icons };
    let fresh = SysMonView::initial(config);
    law_monitors_stay_well_formed(fresh, config, readings);
    if use_icons {
        law_icons_replace_text_labels(fresh, readings);
    } else {
        law_text_labels_begin_each_text(fresh, readings);
    }
}

/// Two samples in a row that find no thermal sensor show the same
/// temperature text.
pub proof fn law_temperature_kept_without_sensor(
    monitor: SysMonView,
    first: Readings,
    second: Readings,
)
    requires
        first.temp is None,
        second.temp is None,
    ensures
        monitor.refreshed(first).temp == monitor.temp,
        monitor.refreshed(first).refreshed(second).temp == monitor.refreshed(first).temp,
{
}

/// The text of a finite processor load ends in a digit, a decimal point, two
/// digits and the percent sign, and holds no other decimal point.
pub proof fn law_cpu_text_has_two_decimals(use_icons: bool, usage: Binary32)
    requires
        usage.is_finite(),
    ensures
        ({
            let text = cpu_text(use_icons, usage);
            let end = text.len() as int;
            &&& end >= 5
            &&& text[end - 1] == '%'
            &&& is_digit(text[end - 2])
            &&& is_digit(text[end - 3])
            &&& text[end - 4] == '.'
            &&& is_digit(text[end - 5])
            &&& forall|i: int| 0 <= i < end && #[trigger] text[i] == '.' ==> i == end - 4
        }),
{
    reveal_strlit("\u{f4bc} ");
    reveal_strlit("CPU: ");
    reveal_strlit("%");
    lemma_fixed2_of_finite(usage);
    let prefix = cpu_prefix(use_icons);
    let number = usage.fixed2();
    let text = cpu_text(use_icons, usage);
    let end = text.len() as int;
    assert(text[end - 2] == number[number.len() - 1]);
    assert(text[end - 3] == number[number.len() - 2]);
    assert(text[end - 4] == number[number.len() - 3]);
    assert(text[end - 5] == number[number.len() - 4]);
    assert forall|i: int| 0 <= i < end && #[trigger] text[i] == '.' implies i == end - 4 by {
        if prefix.len() <= i < end - 1 {
            assert(text[i] == number[i - prefix.len()]);
        }
    }
}

} // verus!
