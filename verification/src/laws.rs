//! What holds of the controls over any history of interaction changes.

use vstd::prelude::*;
use crate::button::{Interaction, SeedButton};
use crate::controls::{press_total, ControlsView};
use crate::label::{
    decimal, digit_char, digits, displayed_integer, integer_of, label_prefix, label_text,
    number_of,
};
use crate::seed::fits;

verus! {

/// The seed after a history is the seed before it plus the sum of the steps
/// pressed.
pub proof fn seed_is_sum_of_presses(start: ControlsView, changes: Seq<(SeedButton, Interaction)>)
    ensures
        start.after_all(changes).seed == start.seed + press_total(changes),
    decreases changes.len(),
{
    if changes.len() > 0 {
        seed_is_sum_of_presses(start, changes.drop_last());
    }
}

/// Reading back the digits of a number gives the number, and the digits
/// begin with a digit.
proof fn lemma_digits_read_back(n: nat)
    ensures
        number_of(digits(n)) == n,
        digits(n).len() >= 1,
        digits(n)[0] != '-',
    decreases n,
{
    if n < 10 {
        let one = seq![digit_char(n as int)];
        assert(one.drop_last() =~= Seq::<char>::empty());
        assert(number_of(one.drop_last()) == 0);
    } else {
        lemma_digits_read_back(n / 10);
        let all = digits(n / 10).push(digit_char((n % 10) as int));
        assert(all.drop_last() =~= digits(n / 10));
    }
}

/// Reading a whole number back from its decimal text gives the number.
pub proof fn decimal_reads_back(value: int)
    ensures
        integer_of(decimal(value)) == value,
{
    if value < 0 {
        lemma_digits_read_back((-value) as nat);
        assert(decimal(value).drop_first() =~= digits((-value) as nat));
    } else {
        lemma_digits_read_back(value as nat);
    }
}

/// The integer that the label of a seed displays is the seed.
pub proof fn label_displays_seed(seed: int)
    ensures
        displayed_integer(label_text(seed)) == seed,
{
    decimal_reads_back(seed);
    let label = label_text(seed);
    assert(label.subrange(label_prefix().len() as int, label.len() as int) =~= decimal(seed));
}

/// One press adds the button's delta to the seed, whatever the seed was,
/// shades the button as pressed, and rewrites the label and the tile
/// parameter from the new seed: afterwards the label displays the seed and
/// the tile parameter is the seed.
pub proof fn press_adds_delta_and_brings_all_up_to_date(start: ControlsView, button: SeedButton)
    ensures
        ({
            let end = start.after(button, Interaction::Pressed);
            &&& end.seed == start.seed + button.spec_delta()
            &&& end.background(button) == Interaction::Pressed.spec_background()
            &&& end.label == label_text(end.seed)
            &&& displayed_integer(end.label) == end.seed
            &&& end.tile_seed == end.seed
        }),
{
    label_displays_seed(start.after(button, Interaction::Pressed).seed);
}

/// Controls in which the label reads the seed and the tile parameter is the
/// seed stay so through any change.
pub proof fn change_keeps_consistent(start: ControlsView, button: SeedButton, new_state: Interaction)
    requires
        start.consistent(),
    ensures
        start.after(button, new_state).consistent(),
{
}

/// After any history from startup the seed is the sum of the steps pressed,
/// the label displays the seed and the tile parameter is the seed.
pub proof fn always_consistent(changes: Seq<(SeedButton, Interaction)>)
    ensures
        ({
            let end = ControlsView::initial().after_all(changes);
            &&& end.seed == press_total(changes)
            &&& end.consistent()
            &&& displayed_integer(end.label) == end.seed
            &&& end.tile_seed == end.seed
        }),
    decreases changes.len(),
{
    if changes.len() > 0 {
        always_consistent(changes.drop_last());
        let before = ControlsView::initial().after_all(changes.drop_last());
        change_keeps_consistent(before, changes.last().0, changes.last().1);
    }
    seed_is_sum_of_presses(ControlsView::initial(), changes);
    label_displays_seed(ControlsView::initial().after_all(changes).seed);
}

/// Hovering over a button, or leaving it, changes the background of that
/// button and nothing else: not the seed, the label or the tile parameter,
/// nor the other button.
pub proof fn hover_and_idle_only_shade(start: ControlsView, button: SeedButton, new_state: Interaction)
    requires
        new_state != Interaction::Pressed,
    ensures
        start.after(button, new_state) == start.shaded(button, new_state.spec_background()),
        start.after(button, new_state).seed == start.seed,
        start.after(button, new_state).label == start.label,
        start.after(button, new_state).tile_seed == start.tile_seed,
        forall|other: SeedButton|
            other != button ==> start.after(button, new_state).background(other)
                == start.background(other),
{
}

/// Repeating a hover or an idle change is the same as making it once.
pub proof fn hover_and_idle_are_idempotent(start: ControlsView, button: SeedButton, new_state: Interaction)
    requires
        new_state != Interaction::Pressed,
    ensures
        start.after(button, new_state).after(button, new_state) == start.after(button, new_state),
{
}

/// The sum of the steps of a history is no larger in magnitude than the
/// history is long.
pub proof fn press_total_is_bounded(changes: Seq<(SeedButton, Interaction)>)
    ensures
        -changes.len() <= press_total(changes) <= changes.len(),
    decreases changes.len(),
{
    if changes.len() > 0 {
        press_total_is_bounded(changes.drop_last());
    }
}

/// From any seed that is at least as far from both ends of the machine's
/// range as a history is long, the machine can hold the seed after every
/// change of that history.
pub proof fn short_histories_fit(start: ControlsView, changes: Seq<(SeedButton, Interaction)>)
    requires
        i64::MIN + changes.len() <= start.seed <= i64::MAX - changes.len(),
    ensures
        start.fits_through(changes),
{
    assert forall|k: int| 0 <= k <= changes.len() implies fits(
        (#[trigger] start.after_all(changes.take(k))).seed,
    ) by {
        seed_is_sum_of_presses(start, changes.take(k));
        press_total_is_bounded(changes.take(k));
    }
}

} // verus!
